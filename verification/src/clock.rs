//! Durations and instants: what the standard library promises of them, and exact arithmetic.
use std::time::{Duration, Instant};
use vstd::prelude::*;

verus! {

pub const NANOS_PER_SEC: u128 = 1_000_000_000;

/// The length of a duration in nanoseconds: what [`Duration::as_nanos`] returns.
pub uninterp spec fn duration_nanos(d: Duration) -> nat;

/// Longest duration: `u64::MAX` seconds and 999,999,999 nanoseconds.
pub open spec fn max_duration_nanos() -> nat {
    (u64::MAX * 1_000_000_000 + 999_999_999) as nat
}

/// `Duration::as_nanos` returns the whole length in nanoseconds. A duration is a `u64` of
/// seconds and less than a second of nanoseconds, so the length is at most that of both.
pub assume_specification [Duration::as_nanos](d: &Duration) -> (n: u128)
    ensures
        n == duration_nanos(*d),
        n <= max_duration_nanos(),
;

/// `Duration::new` makes a duration of the given seconds and nanoseconds. It carries whole
/// seconds over, and may panic then; callers keep the nanoseconds below one second.
pub assume_specification [Duration::new](secs: u64, nanos: u32) -> (d: Duration)
    requires
        nanos < 1_000_000_000,
    ensures
        duration_nanos(d) == secs * 1_000_000_000 + nanos,
;

/// `std::time::Instant`, a reading of the monotonic clock. Its inside is not looked at.
#[verifier::external_type_specification]
#[verifier::external_body]
pub struct ExInstant(std::time::Instant);

/// Where an instant lies on the monotonic clock, in nanoseconds from a fixed start.
pub uninterp spec fn instant_nanos(i: Instant) -> int;

/// `Instant::now` reads the monotonic clock. Nothing is said of the reading.
pub assume_specification [Instant::now]() -> (i: Instant);

/// `Instant::saturating_duration_since` returns the time from `earlier` to `later`, or zero
/// if `earlier` is the later of the two.
pub assume_specification [Instant::saturating_duration_since](
    later: &Instant,
    earlier: Instant,
) -> (d: Duration)
    ensures
        duration_nanos(d) == time_between(instant_nanos(*later), instant_nanos(earlier)),
;

/// The time from `earlier` to `later`, or zero.
pub open spec fn time_between(later: int, earlier: int) -> nat {
    if later >= earlier {
        (later - earlier) as nat
    } else {
        0
    }
}

/// The duration of `nanos` nanoseconds.
pub fn from_nanos(nanos: u128) -> (d: Duration)
    requires
        nanos <= max_duration_nanos(),
    ensures
        duration_nanos(d) == nanos,
{
    let secs = (nanos / NANOS_PER_SEC) as u64;
    let rest = (nanos % NANOS_PER_SEC) as u32;
    Duration::new(secs, rest)
}

/// The empty duration.
pub fn zero() -> (d: Duration)
    ensures
        duration_nanos(d) == 0,
{
    Duration::new(0, 0)
}

/// Both durations together.
pub fn sum(a: Duration, b: Duration) -> (d: Duration)
    requires
        duration_nanos(a) + duration_nanos(b) <= max_duration_nanos(),
    ensures
        duration_nanos(d) == duration_nanos(a) + duration_nanos(b),
{
    from_nanos(a.as_nanos() + b.as_nanos())
}

/// One of `parts` equal parts of `total`, rounded down to a nanosecond.
pub fn share(total: Duration, parts: u64) -> (d: Duration)
    requires
        parts > 0,
    ensures
        duration_nanos(d) == duration_nanos(total) / (parts as nat),
{
    let n = total.as_nanos();
    let part = n / parts as u128;
    assert(part <= n) by (nonlinear_arith)
        requires
            parts > 0,
            part == n / parts as u128,
    ;
    from_nanos(part)
}

/// The whole seconds of a duration.
pub fn whole_secs(d: Duration) -> (r: u64)
    ensures
        r == duration_nanos(d) / 1_000_000_000,
{
    (d.as_nanos() / NANOS_PER_SEC) as u64
}

} // verus!
