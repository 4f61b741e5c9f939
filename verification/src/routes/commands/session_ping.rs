use vstd::prelude::*;

use crate::app_state::event::Event;
use crate::app_state::store::StoreView;
use crate::app_state::{unchanged, wrote_one, AppRequest};
use crate::common::id::Id;

verus! {

/// Record that session `session_id` is still in use.
pub struct Input {
    pub session_id: Id,
}

#[derive(Debug, Clone, Copy, PartialEq, Eq, Structural)]
pub enum Output {
    Success,
    SessionNotFound,
}

/// The answer: the session must exist.
pub open spec fn outcome(store: StoreView, input: Input) -> Output {
    if store.sessions.contains_key(input.session_id) {
        Output::Success
    } else {
        Output::SessionNotFound
    }
}

/// What the command answers and writes: on success, that the session is
/// seen at the request's date; otherwise nothing.
pub open spec fn effect(before: AppRequest, after: AppRequest, input: Input, r: Output) -> bool {
    &&& r == outcome(before.store_view(), input)
    &&& if r == Output::Success {
        wrote_one(before, after, Event::SessionPing { session_id: input.session_id })
    } else {
        unchanged(before, after)
    }
}

pub fn run(state: &mut AppRequest, input: Input) -> (r: Output)
    ensures
        effect(*old(state), *final(state), input, r),
{
    let store = state.get_store();
    if store.sessions.get(&input.session_id).is_none() {
        return Output::SessionNotFound;
    }
    state.write(Event::SessionPing { session_id: input.session_id });
    Output::Success
}

} // verus!
