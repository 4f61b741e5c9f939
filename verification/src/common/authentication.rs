use vstd::prelude::*;

use crate::app_state::store::users::{User, Users};
use crate::app_state::store::{Store, StoreView};
use crate::common::http::{get_bearer_token, token_of};
use crate::common::id::{bs58_decoded, lemma_id_bytes_determine_id, Id};

verus! {

/// Whether a session is logged in, and as which user.
#[derive(Clone, Copy, Debug)]
pub enum Authentication {
    NotAuthenticated,
    Authenticated { user: Id },
}

impl Authentication {
    /// The user that the session is logged in as, looked up among `users`.
    pub fn get_user<'a>(&self, users: &'a Users) -> (r: Option<&'a User>)
        ensures
            r == match *self {
                Authentication::NotAuthenticated => None,
                Authentication::Authenticated { user } => if users@.contains_key(user) {
                    Some(&users@[user])
                } else {
                    None
                },
            },
    {
        match self {
            Authentication::NotAuthenticated => None,
            Authentication::Authenticated { user } => users.get_by_id(user),
        }
    }
}

/// Whether the `Authorization` header value `authorization` carries the
/// base 58 text of `id` as its bearer token.
pub open spec fn names_session(authorization: Option<&str>, id: Id) -> bool {
    token_of(authorization) matches Some(token) && bs58_decoded(token) == Some(id@)
}

/// How the session named by the `Authorization` header is authenticated:
/// not at all when the header names no session of the store.
pub open spec fn authentication_of(store: StoreView, authorization: Option<&str>) -> Authentication {
    if exists|id: Id| names_session(authorization, id) && store.sessions.contains_key(id) {
        store.sessions[choose|id: Id|
            names_session(authorization, id) && store.sessions.contains_key(id)].authentication
    } else {
        Authentication::NotAuthenticated
    }
}

/// At most one identifier is named by a header.
proof fn lemma_names_one_session(authorization: Option<&str>, a: Id, b: Id)
    requires
        names_session(authorization, a),
        names_session(authorization, b),
    ensures
        a == b,
{
    lemma_id_bytes_determine_id(a, b);
}

/// A header that names a stored session authenticates as that session
/// does.
pub proof fn law_header_authenticates_as_its_session(
    store: StoreView,
    authorization: Option<&str>,
    id: Id,
)
    requires
        names_session(authorization, id),
        store.sessions.contains_key(id),
    ensures
        authentication_of(store, authorization) == store.sessions[id].authentication,
{
    let chosen = choose|x: Id| names_session(authorization, x) && store.sessions.contains_key(x);
    lemma_names_one_session(authorization, chosen, id);
}

/// The session identifier that the `Authorization` header carries as its
/// bearer token.
pub fn get_session_id(authorization: Option<&str>) -> (r: Option<Id>)
    ensures
        match r {
            Some(id) => names_session(authorization, id),
            None => forall|id: Id| !names_session(authorization, id),
        },
{
    let token = match get_bearer_token(authorization) {
        Some(token) => token,
        None => {
            return None;
        },
    };
    match Id::from_str(token) {
        Ok(id) => Some(id),
        Err(_) => None,
    }
}

/// How the session named by the `Authorization` header is authenticated.
pub fn get_authentication(authorization: Option<&str>, store: &Store) -> (r: Authentication)
    ensures
        r == authentication_of(store@, authorization),
{
    let session_id = match get_session_id(authorization) {
        Some(session_id) => session_id,
        None => {
            return Authentication::NotAuthenticated;
        },
    };
    let session_maybe = store.sessions.get(&session_id);
    proof {
        assert forall|id: Id| names_session(authorization, id) implies id == session_id by {
            lemma_names_one_session(authorization, id, session_id);
        }
    }
    match session_maybe {
        Some(s) => s.authentication,
        None => Authentication::NotAuthenticated,
    }
}

/// The user that the session named by the `Authorization` header is
/// logged in as.
pub fn get_user<'a>(authorization: Option<&str>, store: &'a Store) -> (r: Option<&'a User>)
    ensures
        r == match authentication_of(store@, authorization) {
            Authentication::NotAuthenticated => None,
            Authentication::Authenticated { user } => if store@.users.contains_key(user) {
                Some(&store@.users[user])
            } else {
                None
            },
        },
{
    get_authentication(authorization, store).get_user(&store.users)
}

} // verus!
