use vstd::prelude::*;

use crate::app_state::store::StoreView;
use crate::app_state::AppRequest;
use crate::common::authentication::Authentication;
use crate::common::date::Date;
use crate::common::id::Id;

verus! {

/// Read session `session_id`.
pub struct Input {
    pub session_id: Id,
}

/// A session as answered: its token, the user it is logged in as, and when
/// it was last seen.
#[derive(Debug, Clone, Copy)]
pub struct Session {
    pub token: Id,
    pub auth_user: Option<Id>,
    pub last_ping: Date,
}

#[derive(Debug, Clone, Copy)]
pub enum Output {
    Success(Session),
    AccessDenied,
}

/// The answer: the session, or `AccessDenied` when there is none.
pub open spec fn outcome(store: StoreView, input: Input) -> Output {
    if store.sessions.contains_key(input.session_id) {
        let s = store.sessions[input.session_id];
        Output::Success(
            Session {
                token: input.session_id,
                auth_user: match s.authentication {
                    Authentication::Authenticated { user } => Some(user),
                    Authentication::NotAuthenticated => None,
                },
                last_ping: s.last_ping,
            },
        )
    } else {
        Output::AccessDenied
    }
}

/// Reading a session gives back what the store holds of it: its own token,
/// the user it is logged in as (none when logged out), and the date it was
/// last seen; a session that does not exist is answered AccessDenied.
pub proof fn law_session_get_reports_the_stored_session(
    store: StoreView,
    input: Input,
    r: Output,
)
    requires
        r == outcome(store, input),
    ensures
        !store.sessions.contains_key(input.session_id) ==> r is AccessDenied,
        store.sessions.contains_key(input.session_id) ==> (r matches Output::Success(answer) && {
            let stored = store.sessions[input.session_id];
            &&& answer.token == input.session_id
            &&& answer.last_ping == stored.last_ping
            &&& (answer.auth_user matches Some(u) ==> stored.authentication
                == (Authentication::Authenticated { user: u }))
            &&& (answer.auth_user is None ==> stored.authentication
                == Authentication::NotAuthenticated)
        }),
{
}

pub fn run(state: &AppRequest, input: Input) -> (r: Output)
    ensures
        r == outcome(state.store_view(), input),
{
    let store = state.get_store();
    match store.sessions.get(&input.session_id) {
        Some(session) => match session.authentication {
            Authentication::Authenticated { user } => {
                let auth_user = match store.users.get_by_id(&user) {
                    Some(u) => u.id,
                    None => {
                        assert(store@.sessions.contains_key(input.session_id));
                        assert(false);
                        user
                    },
                };
                Output::Success(
                    Session {
                        token: input.session_id,
                        auth_user: Some(auth_user),
                        last_ping: session.last_ping,
                    },
                )
            },
            Authentication::NotAuthenticated => Output::Success(
                Session { token: input.session_id, auth_user: None, last_ping: session.last_ping },
            ),
        },
        None => Output::AccessDenied,
    }
}

} // verus!
