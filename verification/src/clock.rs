//! Wall-clock time, counted in milliseconds since the Unix epoch.

use vstd::prelude::*;

verus! {

/// The elapsed milliseconds from `started` to `finished`, kept in 32 bits:
/// the low 32 bits of the 64-bit difference.
pub open spec fn elapsed(started: i64, finished: i64) -> i32 {
    vstd::wrapping::i64_specs::wrapping_sub(finished, started) as i32
}

/// Reads the clock with `chrono::Utc::now` and converts the instant with
/// `DateTime::timestamp_millis`. The value depends on the machine's clock, so
/// nothing is claimed of it. `Utc::now` stops the program when the system
/// clock stands before the Unix epoch.
#[verifier::external_body]
pub(crate) fn now_millis() -> (now: i64) {
    chrono::Utc::now().timestamp_millis()
}

/// The execution time of a node that started at `started` and finished at
/// `finished`.
pub fn elapsed_millis(started: i64, finished: i64) -> (millis: i32)
    ensures
        millis == elapsed(started, finished),
        0 <= finished - started <= i32::MAX ==> millis == finished - started,
{
    let difference: i64 = finished.wrapping_sub(started);
    #[verifier::truncate]
    (difference as i32)
}

} // verus!
