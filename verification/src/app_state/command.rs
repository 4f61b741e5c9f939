use vstd::prelude::*;

use crate::common::date::Date;
use crate::common::id::Id;

verus! {

/// A request to change the store.
#[derive(Debug)]
pub enum Command {
    SessionLogin { session_id: Id, user_id: Id },
    SessionPing { session_id: Id },
    SessionLogout { session_id: Id },
    SessionCreate { session_id: Id },
    UserCreate { id: Id, name: String, handle: String, password: String },
}

/// A command with the time at which it was given.
#[derive(Debug)]
pub struct DatedCommand {
    pub date: Date,
    pub kind: Command,
}

} // verus!
