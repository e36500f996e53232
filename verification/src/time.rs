//! Points in time, as the ledger stores them.

use vstd::prelude::*;

verus! {

/// A point in time: whole seconds since the Unix epoch and the nanoseconds
/// past that second.
#[derive(Clone, Copy, Debug, PartialEq, Eq, Structural)]
pub struct Timestamp {
    pub secs: i64,
    pub nanos: u32,
}

impl Timestamp {
    /// Reads the system clock through `chrono::Utc::now`, keeping what
    /// `DateTime::timestamp` and `DateTime::timestamp_subsec_nanos` report
    /// of it. Nothing is claimed of the value: it is whatever the clock
    /// says at the moment of the call. `chrono` gives up on a clock that
    /// is set to before 1970.
    #[verifier::external_body]
    pub(crate) fn now() -> (t: Timestamp) {
        let t = chrono::Utc::now();
        Timestamp { secs: t.timestamp(), nanos: t.timestamp_subsec_nanos() }
    }
}

} // verus!
