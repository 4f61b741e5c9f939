use vstd::prelude::*;

use crate::app_state::store::sessions;
use crate::app_state::store::StoreView;
use crate::app_state::AppRequest;
use crate::common::authentication::Authentication;
use crate::common::id::Id;
use crate::permission;

verus! {

/// List the sessions, on behalf of session `session_id`.
pub struct Input {
    pub session_id: Id,
}

/// A listed session: its token and the name of the user it is logged in
/// as.
#[derive(Debug)]
pub struct Session {
    pub token: Id,
    pub auth_user: Option<String>,
}

#[derive(Debug)]
pub enum Output {
    Success(Vec<Session>),
    AccessDenied,
}

/// Whether the session asking may list the sessions: it must exist and be
/// logged in as a stored user.
pub open spec fn may_list(store: StoreView, input: Input) -> bool {
    store.sessions.contains_key(input.session_id) && permission::logged_in_user(
        store.sessions[input.session_id].authentication,
        store.users,
    ) is Some
}

/// How a session is listed.
pub open spec fn listed(store: StoreView, s: sessions::Session, entry: Session) -> bool {
    &&& entry.token == s.token
    &&& match s.authentication {
        Authentication::NotAuthenticated => entry.auth_user is None,
        Authentication::Authenticated { user } => entry.auth_user matches Some(name) && name
            == store.users[user].name,
    }
}

/// The answer: `AccessDenied` unless the session asking may list; then
/// every session once, each as `listed` says.
pub open spec fn answered(store: StoreView, input: Input, r: Output) -> bool {
    match r {
        Output::AccessDenied => !may_list(store, input),
        Output::Success(list) => {
            &&& may_list(store, input)
            &&& list@.len() == store.sessions.len()
            &&& list@.map_values(|e: Session| e.token).no_duplicates()
            &&& list@.map_values(|e: Session| e.token).to_set() == store.sessions.dom()
            &&& forall|i: int|
                0 <= i < list@.len() ==> listed(
                    store,
                    store.sessions[#[trigger] list@[i].token],
                    list@[i],
                )
        },
    }
}

/// Only a logged-in session may list the sessions: a session that does not
/// exist, is not logged in, or is logged in as a user the store does not
/// hold is answered AccessDenied; a list names every stored session once,
/// with the name of the user it is logged in as.
pub proof fn law_only_logged_in_sessions_may_list(store: StoreView, input: Input, r: Output)
    requires
        answered(store, input, r),
    ensures
        r is Success <==> (store.sessions.contains_key(input.session_id) && (store.sessions[input.session_id].authentication matches Authentication::Authenticated {
            user,
        } && store.users.contains_key(user))),
        r matches Output::Success(list) ==> forall|k: Id| #[trigger]
            store.sessions.contains_key(k) ==> exists|i: int|
                0 <= i < list@.len() && list@[i].token == k,
{
    if let Output::Success(list) = r {
        let tokens = list@.map_values(|e: Session| e.token);
        assert forall|k: Id| #[trigger] store.sessions.contains_key(k) implies exists|i: int|
            0 <= i < list@.len() && list@[i].token == k by {
            assert(tokens.to_set().contains(k));
            let i = choose|i: int| 0 <= i < tokens.len() && tokens[i] == k;
            assert(list@[i].token == k);
        }
    }
}

pub fn run(state: &AppRequest, input: Input) -> (r: Output)
    ensures
        answered(state.store_view(), input, r),
{
    let store = state.get_store();
    let authentication = match store.sessions.get(&input.session_id) {
        Some(session) => session.authentication,
        None => {
            return Output::AccessDenied;
        },
    };
    if !permission::session_list(&authentication, &store.users) {
        return Output::AccessDenied;
    }
    let all = store.sessions.list();
    proof {
        assert forall|j: int| 0 <= j < all@.len() implies store@.sessions.contains_key(
            #[trigger] all@[j].token,
        ) by {
            let tokens = all@.map_values(|s: sessions::Session| s.token);
            assert(tokens[j] == all@[j].token);
            assert(tokens.to_set().contains(tokens[j]));
        }
    }
    let mut list: Vec<Session> = Vec::new();
    let mut i: usize = 0;
    while i < all.len()
        invariant
            0 <= i <= all@.len(),
            store@.wf(),
            list@.len() == i,
            forall|j: int| 0 <= j < all@.len() ==> #[trigger] all@[j] == store@.sessions[all@[j].token],
            forall|j: int| 0 <= j < all@.len() ==> store@.sessions.contains_key(#[trigger] all@[j].token),
            forall|j: int|
                0 <= j < i ==> #[trigger] list@[j].token == all@[j].token && listed(
                    store@,
                    all@[j],
                    list@[j],
                ),
        decreases all@.len() - i,
    {
        let ghost old_list = list@;
        let session = all[i];
        let auth_user = match session.authentication {
            Authentication::NotAuthenticated => None,
            Authentication::Authenticated { user } => match store.users.get_by_id(&user) {
                Some(u) => Some(u.name.clone()),
                None => {
                    assert(false);
                    None
                },
            },
        };
        list.push(Session { token: session.token, auth_user });
        assert(listed(store@, all@[i as int], list@[i as int]));
        assert(forall|j: int| 0 <= j < i ==> list@[j] == old_list[j]);
        i = i + 1;
    }
    proof {
        assert(list@.map_values(|e: Session| e.token) =~= all@.map_values(
            |s: sessions::Session| s.token,
        ));
    }
    Output::Success(list)
}

} // verus!
