//! Durations: what the standard library says of them, and the two quantities
//! that a lease's time to live gives rise to.
use std::time::Duration;
use vstd::prelude::*;

verus! {

/// The number of nanoseconds in a duration, as `Duration::as_nanos` returns it.
pub uninterp spec fn duration_nanos(d: Duration) -> nat;

/// The number of whole milliseconds in a duration.
pub open spec fn duration_millis(d: Duration) -> nat {
    duration_nanos(d) / 1_000_000
}

/// `Duration::as_nanos`: the total number of nanoseconds in the duration.
pub assume_specification[ Duration::as_nanos ](d: &Duration) -> (nanos: u128)
    ensures
        nanos == duration_nanos(*d),
;

/// `Duration::as_millis`: the total number of whole milliseconds in the duration. A
/// duration is a `u64` of seconds and a fraction of a second, so the seconds in the
/// result fit a `u64`.
pub assume_specification[ Duration::as_millis ](d: &Duration) -> (millis: u128)
    ensures
        millis == duration_millis(*d),
        millis / 1000 <= u64::MAX,
;

/// `Duration::new`: the given seconds and nanoseconds together. With a whole second or
/// more of nanoseconds it carries into the seconds and may panic; such calls are left out.
pub assume_specification[ Duration::new ](secs: u64, nanos: u32) -> (d: Duration)
    requires
        nanos < 1_000_000_000,
    ensures
        duration_nanos(d) == secs * 1_000_000_000 + nanos,
;

/// `Duration::from_secs`: a duration of that many seconds.
pub assume_specification[ Duration::from_secs ](secs: u64) -> (d: Duration)
    ensures
        duration_nanos(d) == secs * 1_000_000_000,
;

/// `Duration::from_millis`: a duration of that many milliseconds.
pub assume_specification[ Duration::from_millis ](millis: u64) -> (d: Duration)
    ensures
        duration_nanos(d) == millis * 1_000_000,
;

/// The time to live, in seconds, of a lease for which none is asked.
pub const DEFAULT_TTL_SECS: u64 = 30;

/// The pause between two renewals of a lease, in milliseconds: a third of the time to
/// live, but never nothing.
pub open spec fn interval_millis(ttl_millis: nat) -> nat {
    if ttl_millis / 3 == 0 {
        1
    } else {
        ttl_millis / 3
    }
}

/// The pause between two renewals of a lease with this time to live: a third of it in
/// whole milliseconds, and at least one millisecond, so that a tiny time to live cannot
/// turn the renewal loop into a busy poll.
pub fn renewal_interval(ttl: Duration) -> (interval: Duration)
    ensures
        duration_nanos(interval) == interval_millis(duration_millis(ttl)) * 1_000_000,
{
    let third: u128 = ttl.as_millis() / 3;
    let millis: u128 = if third == 0 { 1 } else { third };
    let secs: u64 = (millis / 1000) as u64;
    let sub_millis: u32 = (millis % 1000) as u32;
    Duration::new(secs, sub_millis * 1_000_000)
}

/// The milliseconds that a request carries: the count itself where a `usize` holds it, and
/// else the largest that one holds.
pub open spec fn wire_millis(millis: nat) -> nat {
    if millis <= usize::MAX {
        millis
    } else {
        usize::MAX as nat
    }
}

/// Brings a count of milliseconds to the width of `usize`. A count that is too large becomes
/// the largest rather than losing its higher bits, which could turn the longest time to live
/// into the shortest.
pub(crate) fn to_wire_millis(millis: u128) -> (wire: usize)
    ensures
        wire == wire_millis(millis as nat),
{
    if millis <= usize::MAX as u128 {
        millis as usize
    } else {
        usize::MAX
    }
}

/// Renewals are frequent enough for a lease to outlive a failed one: the pause is shorter
/// than any time to live of two milliseconds or more, and three pauses fit into any time
/// to live of three milliseconds or more.
pub proof fn law_interval_fits_in_ttl(ttl_millis: nat)
    ensures
        interval_millis(ttl_millis) >= 1,
        ttl_millis >= 2 ==> interval_millis(ttl_millis) < ttl_millis,
        ttl_millis >= 3 ==> 3 * interval_millis(ttl_millis) <= ttl_millis,
{
}

/// The whole milliseconds of a duration leave less than one millisecond over.
pub proof fn law_millis_are_the_whole_ones(d: Duration)
    ensures
        duration_millis(d) * 1_000_000 <= duration_nanos(d),
        duration_nanos(d) < duration_millis(d) * 1_000_000 + 1_000_000,
{
}

/// The pause is the third of the time to live: three of it fill the time to live up to less
/// than three milliseconds. Below three milliseconds, where the third would be nothing, it is
/// one millisecond.
pub proof fn law_interval_is_the_third(ttl_millis: nat)
    ensures
        ttl_millis >= 3 ==> 3 * interval_millis(ttl_millis) <= ttl_millis < 3 * interval_millis(
            ttl_millis,
        ) + 3,
        ttl_millis < 3 ==> interval_millis(ttl_millis) == 1,
{
}

/// A call of [`renewal_interval`] gives whole milliseconds, and of those the third of the time
/// to live.
pub proof fn law_renewal_interval_is_the_third(ttl: Duration, interval: Duration)
    requires
        call_ensures(renewal_interval, (ttl,), interval),
    ensures
        duration_nanos(interval) % 1_000_000 == 0,
        duration_nanos(ttl) >= 3_000_000 ==> 3 * duration_nanos(interval) <= duration_nanos(ttl)
            < 3 * duration_nanos(interval) + 3_000_000,
        duration_nanos(ttl) < 3_000_000 ==> duration_nanos(interval) == 1_000_000,
{
}

/// A request carries a time to live as it is, wherever it can carry it at all; and a longer one
/// as the longest that it can carry.
pub proof fn law_wire_carries_the_ttl(millis: nat)
    ensures
        millis <= usize::MAX ==> wire_millis(millis) == millis,
        millis > usize::MAX ==> wire_millis(millis) == usize::MAX,
{
}

} // verus!
