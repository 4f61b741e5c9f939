use vstd::prelude::*;

verus! {

/// A point in time (UTC): whole seconds since the Unix epoch and the
/// nanoseconds past that second.
#[derive(Clone, Copy, Debug, PartialEq, Eq, Structural)]
pub struct Date {
    pub secs: i64,
    pub nanos: u32,
}

impl Date {
    /// The current time. Trusted: it reads `chrono::Utc::now()`; nothing is
    /// claimed of the time it returns.
    #[verifier::external_body]
    pub(crate) fn now() -> Date {
        let now = chrono::Utc::now();
        Date { secs: now.timestamp(), nanos: now.timestamp_subsec_nanos() }
    }
}

} // verus!
