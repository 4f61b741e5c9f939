use vstd::prelude::*;

use crate::app_state::event::Event;
use crate::app_state::store::StoreView;
use crate::app_state::{unchanged, wrote_one, AppRequest};
use crate::app_state::store::users::User;
use crate::common::authentication::Authentication;
use crate::common::id::Id;
use crate::permission;

verus! {

/// Give user `user_id` a new password, on behalf of session `session_id`.
pub struct Input {
    pub session_id: Id,
    pub user_id: Id,
    pub password: String,
}

#[derive(Debug, Clone, Copy, PartialEq, Eq, Structural)]
pub enum Output {
    Success,
    UserNotFound,
    SessionNotFound,
    AccessDenied,
}

/// The answer: the session and the user must exist, and the session must
/// be logged in as that user.
pub open spec fn outcome(store: StoreView, input: Input) -> Output {
    if !store.sessions.contains_key(input.session_id) {
        Output::SessionNotFound
    } else if !store.users.contains_key(input.user_id) {
        Output::UserNotFound
    } else if !permission::is_logged_in_as(
        store.sessions[input.session_id].authentication,
        store.users,
        store.users[input.user_id],
    ) {
        Output::AccessDenied
    } else {
        Output::Success
    }
}

/// What the command answers and writes: on success, the new password;
/// otherwise nothing.
pub open spec fn effect(before: AppRequest, after: AppRequest, input: Input, r: Output) -> bool {
    &&& r == outcome(before.store_view(), input)
    &&& if r == Output::Success {
        wrote_one(
            before,
            after,
            Event::UserUpdatePassword { user_id: input.user_id, password: input.password },
        )
    } else {
        unchanged(before, after)
    }
}

/// Only the user may change its password: the command succeeds exactly when the
/// session exists, the user exists, and the session is logged in as that
/// very user (not as another user, and not logged out); it then gives the
/// user the new values and changes nothing else of it. Every other answer
/// writes nothing.
pub proof fn law_only_the_user_may_change_its_password(
    before: AppRequest,
    after: AppRequest,
    input: Input,
    r: Output,
)
    requires
        effect(before, after, input, r),
        before.store_view().wf(),
    ensures
        r == Output::Success <==> {
            let s = before.store_view();
            &&& s.sessions.contains_key(input.session_id)
            &&& s.users.contains_key(input.user_id)
            &&& s.sessions[input.session_id].authentication == (Authentication::Authenticated {
                user: input.user_id,
            })
        },
        r == Output::Success ==> {
            let s = before.store_view();
            &&& after.store_view().users == s.users.insert(input.user_id, User { password: input.password, ..s.users[input.user_id] })
            &&& after.store_view().sessions == s.sessions
        },
        r != Output::Success ==> unchanged(before, after),
{
    let s = before.store_view();
    if s.sessions.contains_key(input.session_id) && s.users.contains_key(input.user_id) {
        let auth = s.sessions[input.session_id].authentication;
        if let Authentication::Authenticated { user } = auth {
            if s.users.contains_key(user) {
                assert(s.users[user].id == user);
                assert(s.users[input.user_id].id == input.user_id);
            }
        }
    }
}

pub fn run(state: &mut AppRequest, input: Input) -> (r: Output)
    ensures
        effect(*old(state), *final(state), input, r),
{
    let store = state.get_store();
    let authentication = match store.sessions.get(&input.session_id) {
        Some(session) => session.authentication,
        None => {
            return Output::SessionNotFound;
        },
    };
    let target_user = match store.users.get_by_id(&input.user_id) {
        Some(user) => user,
        None => {
            return Output::UserNotFound;
        },
    };
    if !permission::user_update_password(&authentication, &store.users, target_user) {
        return Output::AccessDenied;
    }
    state.write(Event::UserUpdatePassword { user_id: input.user_id, password: input.password });
    Output::Success
}

} // verus!
