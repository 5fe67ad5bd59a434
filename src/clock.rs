use vstd::prelude::*;
use crate::model::Timestamp;

verus! {

/// `t` with its nanoseconds cut to whole microseconds, the precision at
/// which the store keeps times.
pub open spec fn to_micros(t: Timestamp) -> Timestamp {
    Timestamp { secs: t.secs, nanos: (t.nanos - t.nanos % 1000) as u32 }
}

/// Cuts a time to whole microseconds.
pub fn truncate_to_micros(t: Timestamp) -> (r: Timestamp)
    ensures
        r == to_micros(t),
        r.nanos % 1000 == 0,
        r.nanos <= t.nanos,
{
    let n: u32 = t.nanos;
    assert((n - n % 1000) % 1000 == 0) by (nonlinear_arith);
    Timestamp { secs: t.secs, nanos: t.nanos - t.nanos % 1000 }
}

/// Midnight of 2000-01-01, UTC: earlier than anything the store holds.
pub fn get_min_time() -> (r: Timestamp)
    ensures
        r.secs == 946_684_800,
        r.nanos == 0,
{
    Timestamp { secs: 946_684_800, nanos: 0 }
}

} // verus!
