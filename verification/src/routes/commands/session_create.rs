use vstd::prelude::*;

use crate::app_state::event::Event;
use crate::app_state::{wrote_one, AppRequest};
use crate::common::id::Id;

verus! {

/// Open a new session.
pub struct Input {}

#[derive(Debug, Clone, Copy)]
pub enum Output {
    Success { session_id: Id },
}

/// What opening a session answers and writes: a token that no session
/// had, under which a session is opened.
pub open spec fn effect(before: AppRequest, after: AppRequest, r: Output) -> bool {
    match r {
        Output::Success { session_id } => {
            &&& !before.store_view().sessions.contains_key(session_id)
            &&& wrote_one(before, after, Event::SessionCreate { session_id })
        },
    }
}

/// Opens a session under a fresh token and answers the token.
pub fn run(state: &mut AppRequest, _input: Input) -> (r: Output)
    ensures
        effect(*old(state), *final(state), r),
{
    let taken = state.get_store().sessions.tokens();
    let session_id = Id::new_unused(&taken);
    state.write(Event::SessionCreate { session_id });
    Output::Success { session_id }
}

} // verus!
