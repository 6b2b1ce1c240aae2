//! The wall clock, the one environmental input of the ledger: a freshly
//! mined header records the time at which mining began.

use vstd::prelude::*;

verus! {

/// Relies on std's `SystemTime::now`: the current wall-clock time as a
/// count of milliseconds since the Unix epoch. Both outcomes of
/// `duration_since` are handled, so the read never panics: a clock set
/// before the epoch reads as zero, and one beyond the signed range
/// saturates. Nothing is promised of the value; the ledger is correct
/// whatever the clock reads.
#[verifier::external_body]
pub(crate) fn now_millis() -> i64 {
    match std::time::SystemTime::now().duration_since(std::time::UNIX_EPOCH) {
        Ok(d) => i64::try_from(d.as_millis()).unwrap_or(i64::MAX),
        Err(_) => 0,
    }
}

} // verus!
