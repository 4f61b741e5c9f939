use vstd::prelude::*;

use crate::app_state::event::Event;
use crate::app_state::store::StoreView;
use crate::app_state::{unchanged, wrote_one, AppRequest};
use crate::common::authentication::{
    authentication_of, law_header_authenticates_as_its_session, names_session, Authentication,
};
use crate::common::id::Id;

verus! {

/// Log session `session_id` out.
pub struct Input {
    pub session_id: Id,
}

#[derive(Debug, Clone, Copy, PartialEq, Eq, Structural)]
pub enum Output {
    Success,
    SessionNotFound,
}

/// The answer: the session must exist.
pub open spec fn outcome(store: StoreView, input: Input) -> Output {
    if store.sessions.contains_key(input.session_id) {
        Output::Success
    } else {
        Output::SessionNotFound
    }
}

/// What the command answers and writes: on success, that the session is
/// logged out; otherwise nothing.
pub open spec fn effect(before: AppRequest, after: AppRequest, input: Input, r: Output) -> bool {
    &&& r == outcome(before.store_view(), input)
    &&& if r == Output::Success {
        wrote_one(before, after, Event::SessionLogout { session_id: input.session_id })
    } else {
        unchanged(before, after)
    }
}

/// After a successful logout, a request whose `Authorization` header names
/// the session is not authenticated.
pub proof fn law_logout_unauthenticates_the_session(
    before: AppRequest,
    after: AppRequest,
    input: Input,
    authorization: Option<&str>,
)
    requires
        effect(before, after, input, Output::Success),
        names_session(authorization, input.session_id),
    ensures
        authentication_of(after.store_view(), authorization) == Authentication::NotAuthenticated,
{
    law_header_authenticates_as_its_session(after.store_view(), authorization, input.session_id);
}

pub fn run(state: &mut AppRequest, input: Input) -> (r: Output)
    ensures
        effect(*old(state), *final(state), input, r),
{
    let store = state.get_store();
    if store.sessions.get(&input.session_id).is_none() {
        return Output::SessionNotFound;
    }
    state.write(Event::SessionLogout { session_id: input.session_id });
    Output::Success
}

} // verus!
