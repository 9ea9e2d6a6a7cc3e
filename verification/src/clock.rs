//! Wall-clock time as plain values.
use vstd::prelude::*;

verus! {

/// A point in time: whole seconds since the Unix epoch plus nanoseconds.
#[derive(Clone, Copy)]
pub struct Instant {
    pub secs: i64,
    pub nanos: u32,
}

pub open spec fn instant_nanos(t: Instant) -> int {
    t.secs as int * 1_000_000_000 + t.nanos as int
}

/// Calls `Utc::now()` and reads its `timestamp()` and
/// `timestamp_subsec_nanos()`. The clock decides the value; the documentation
/// bounds the nanoseconds below 2e9 (a leap second goes past 1e9).
#[verifier::external_body]
pub(crate) fn now_utc() -> (r: Instant)
    ensures
        r.nanos < 2_000_000_000,
{
    let t = chrono::Utc::now();
    Instant { secs: t.timestamp(), nanos: t.timestamp_subsec_nanos() }
}

} // verus!
