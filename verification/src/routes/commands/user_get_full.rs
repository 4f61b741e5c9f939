use vstd::prelude::*;

use crate::app_state::store::StoreView;
use crate::app_state::AppRequest;
use crate::common::authentication::Authentication;
use crate::common::id::Id;
use crate::permission;

verus! {

/// Read all of user `user_id`, on behalf of session `session_id`.
pub struct Input {
    pub session_id: Id,
    pub user_id: Id,
}

#[derive(Debug)]
pub enum Output {
    Success { id: Id, name: String, handle: String },
    UserNotFound,
    SessionNotFound,
    AccessDenied,
    NotAuthenticated,
    InvalidSessionID,
}

/// The answer: the session and the user must exist, and the session must
/// be logged in as that user; then the user's name and handle.
pub open spec fn answered(store: StoreView, input: Input, r: Output) -> bool {
    if !store.sessions.contains_key(input.session_id) {
        r is SessionNotFound
    } else if !store.users.contains_key(input.user_id) {
        r is UserNotFound
    } else if !permission::is_logged_in_as(
        store.sessions[input.session_id].authentication,
        store.users,
        store.users[input.user_id],
    ) {
        r is AccessDenied
    } else {
        r == Output::Success {
            id: input.user_id,
            name: store.users[input.user_id].name,
            handle: store.users[input.user_id].handle,
        }
    }
}

/// Only the user may read all of itself: the answer is a success exactly
/// when the session exists, the user exists, and the session is logged in
/// as that very user; a success carries that user's own identifier, name
/// and handle.
pub proof fn law_only_the_user_may_read_itself(store: StoreView, input: Input, r: Output)
    requires
        answered(store, input, r),
        store.wf(),
    ensures
        r is Success <==> {
            &&& store.sessions.contains_key(input.session_id)
            &&& store.users.contains_key(input.user_id)
            &&& store.sessions[input.session_id].authentication == (Authentication::Authenticated {
                user: input.user_id,
            })
        },
        r matches Output::Success { id, name, handle } ==> {
            &&& id == input.user_id
            &&& name@ == store.users[input.user_id].name@
            &&& handle@ == store.users[input.user_id].handle@
        },
{
    if store.sessions.contains_key(input.session_id) && store.users.contains_key(input.user_id) {
        if let Authentication::Authenticated { user } = store.sessions[input.session_id].authentication {
            if store.users.contains_key(user) {
                assert(store.users[user].id == user);
                assert(store.users[input.user_id].id == input.user_id);
            }
        }
    }
}

pub fn run(state: &AppRequest, input: Input) -> (r: Output)
    ensures
        answered(state.store_view(), input, r),
{
    let store = state.get_store();
    let authentication = match store.sessions.get(&input.session_id) {
        Some(session) => session.authentication,
        None => {
            return Output::SessionNotFound;
        },
    };
    let target_user = match store.users.get_by_id(&input.user_id) {
        Some(user) => user,
        None => {
            return Output::UserNotFound;
        },
    };
    if !permission::user_read(&authentication, &store.users, target_user) {
        return Output::AccessDenied;
    }
    Output::Success {
        id: input.user_id,
        name: target_user.name.clone(),
        handle: target_user.handle.clone(),
    }
}

} // verus!
