use vstd::prelude::*;

use crate::app_state::event::Event;
use crate::app_state::store::StoreView;
use crate::app_state::{unchanged, wrote_one, AppRequest};
use crate::common::authentication::{
    authentication_of, law_header_authenticates_as_its_session, names_session, Authentication,
};
use crate::common::id::Id;

verus! {

/// Log session `session_id` in as the user with `handle` and `password`.
pub struct Input {
    pub session_id: Id,
    pub handle: String,
    pub password: String,
}

#[derive(Debug, Clone, Copy, PartialEq, Eq, Structural)]
pub enum Output {
    Success,
    AuthenticationFailed,
    SessionNotFound,
}

/// The answer to a login: the session must exist, and a user must have
/// been created with the handle and have the password.
pub open spec fn outcome(store: StoreView, input: Input) -> Output {
    if !store.sessions.contains_key(input.session_id) {
        Output::SessionNotFound
    } else if !store.handles.contains_key(input.handle@) {
        Output::AuthenticationFailed
    } else if store.users[store.handles[input.handle@]].password@ != input.password@ {
        Output::AuthenticationFailed
    } else {
        Output::Success
    }
}

/// The event that a successful login writes.
pub open spec fn login_event(store: StoreView, input: Input) -> Event {
    Event::SessionLogin { session_id: input.session_id, user_id: store.handles[input.handle@] }
}

/// What a login answers and writes: on success, that the session is
/// logged in as the user; otherwise nothing.
pub open spec fn effect(before: AppRequest, after: AppRequest, input: Input, r: Output) -> bool {
    &&& r == outcome(before.store_view(), input)
    &&& if r == Output::Success {
        wrote_one(before, after, login_event(before.store_view(), input))
    } else {
        unchanged(before, after)
    }
}

/// After a successful login, a request whose `Authorization` header names
/// the session is authenticated as the user with the given handle.
pub proof fn law_login_authenticates_the_session(
    before: AppRequest,
    after: AppRequest,
    input: Input,
    authorization: Option<&str>,
)
    requires
        effect(before, after, input, Output::Success),
        names_session(authorization, input.session_id),
    ensures
        authentication_of(after.store_view(), authorization) == (Authentication::Authenticated {
            user: before.store_view().handles[input.handle@],
        }),
{
    law_header_authenticates_as_its_session(after.store_view(), authorization, input.session_id);
}

/// A login checks the password: it succeeds only when the session exists
/// and the user created with the handle has exactly the given password,
/// and then that session is logged in as that user. A login to an existing
/// session with a handle that names no user, or with any other password,
/// is answered AuthenticationFailed and writes nothing.
pub proof fn law_login_checks_the_password(
    before: AppRequest,
    after: AppRequest,
    input: Input,
    r: Output,
)
    requires
        effect(before, after, input, r),
    ensures
        r == Output::Success ==> {
            let s = before.store_view();
            &&& s.sessions.contains_key(input.session_id)
            &&& s.handles.contains_key(input.handle@)
            &&& s.users[s.handles[input.handle@]].password@ == input.password@
            &&& after.store_view().sessions[input.session_id].authentication
                == (Authentication::Authenticated { user: s.handles[input.handle@] })
            &&& after.store_view().users == s.users
        },
        ({
            let s = before.store_view();
            &&& s.sessions.contains_key(input.session_id)
            &&& (!s.handles.contains_key(input.handle@) || s.users[s.handles[input.handle@]].password@
                != input.password@)
        }) ==> r == Output::AuthenticationFailed && unchanged(before, after),
        !before.store_view().sessions.contains_key(input.session_id) ==> r
            == Output::SessionNotFound && unchanged(before, after),
{
}

pub fn run(state: &mut AppRequest, input: Input) -> (r: Output)
    ensures
        effect(*old(state), *final(state), input, r),
{
    let store = state.get_store();
    if store.sessions.get(&input.session_id).is_none() {
        return Output::SessionNotFound;
    }
    let user = match store.users.get_by_handle(input.handle.as_str()) {
        Some(user) => user,
        None => {
            return Output::AuthenticationFailed;
        },
    };
    if user.password != input.password {
        return Output::AuthenticationFailed;
    }
    let user_id = user.id;
    state.write(Event::SessionLogin { session_id: input.session_id, user_id });
    Output::Success
}

} // verus!
