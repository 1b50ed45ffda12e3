//! Wall-clock and elapsed time, read from the standard library.
use vstd::prelude::*;
use std::time::Duration;
use std::time::Instant;
use std::time::SystemTime;
use std::time::SystemTimeError;

verus! {

/// A point on the system clock.
#[verifier::external_type_specification]
#[verifier::external_body]
pub struct ExSystemTime(SystemTime);

/// The error of a clock that stands before the point it is compared with.
#[verifier::external_type_specification]
#[verifier::external_body]
pub struct ExSystemTimeError(SystemTimeError);

/// A point on the monotonic clock.
#[verifier::external_type_specification]
#[verifier::external_body]
pub struct ExInstant(Instant);

/// The length of a duration in nanoseconds.
pub uninterp spec fn duration_nanos(duration: Duration) -> u128;

/// Where a point on the system clock stands: its distance from the Unix epoch
/// in nanoseconds, negative before it.
pub uninterp spec fn point_nanos(time: SystemTime) -> int;

/// `Duration::as_nanos`: the total number of nanoseconds in the duration.
pub assume_specification[ Duration::as_nanos ](duration: &Duration) -> (nanos: u128)
    ensures
        nanos == duration_nanos(*duration),
;

/// `Duration::as_micros`: the total number of whole microseconds in the
/// duration.
pub assume_specification[ Duration::as_micros ](duration: &Duration) -> (micros: u128)
    ensures
        micros == duration_nanos(*duration) / 1_000,
;

/// `Duration::from_millis`: a duration of that many milliseconds.
pub assume_specification[ Duration::from_millis ](millis: u64) -> (duration: Duration)
    ensures
        duration_nanos(duration) == millis * 1_000_000,
;

/// `SystemTime::now`: the current time. Nothing is claimed of it.
pub assume_specification[ SystemTime::now ]() -> SystemTime;

/// `SystemTime::duration_since`: the time from `earlier` to `time`, or an error
/// where `earlier` is the later one.
pub assume_specification[ SystemTime::duration_since ](
    time: &SystemTime,
    earlier: SystemTime,
) -> (since: Result<Duration, SystemTimeError>)
    ensures
        match since {
            Ok(elapsed) => duration_nanos(elapsed) == point_nanos(*time) - point_nanos(earlier),
            Err(_) => point_nanos(*time) < point_nanos(earlier),
        },
;

/// `Instant::now`: the current instant. Nothing is claimed of it.
pub assume_specification[ Instant::now ]() -> Instant;

/// `Instant::elapsed`: the time since the instant. Nothing is claimed of it: it
/// depends on when it is asked.
pub assume_specification[ Instant::elapsed ](instant: &Instant) -> Duration;

/// `std::time::UNIX_EPOCH`: the anchor of Unix time, from which points in time
/// are counted.
#[verifier::external_body]
pub(crate) fn unix_epoch() -> (epoch: SystemTime)
    ensures
        point_nanos(epoch) == 0,
{
    std::time::UNIX_EPOCH
}

/// The reading of a clock that stands `since_epoch` past the Unix epoch: its
/// nanoseconds in 64 bits, or zero for a clock before the epoch.
pub open spec fn unix_nanos_reading(since_epoch: Result<Duration, SystemTimeError>) -> u64 {
    match since_epoch {
        Ok(elapsed) => (duration_nanos(elapsed) % 0x1_0000_0000_0000_0000) as u64,
        Err(_) => 0,
    }
}

/// Reads a clock that stands `since_epoch` past the Unix epoch.
pub fn unix_nanos(since_epoch: Result<Duration, SystemTimeError>) -> (nanos: u64)
    ensures
        nanos == unix_nanos_reading(since_epoch),
{
    match since_epoch {
        Ok(elapsed) => {
            let nanos: u128 = elapsed.as_nanos();
            low_bits(nanos)
        },
        Err(_) => 0,
    }
}

/// The Unix time of a point on the system clock: its nanoseconds since the
/// epoch in 64 bits, or zero for a point before the epoch.
pub open spec fn unix_time(time: SystemTime) -> u64 {
    if point_nanos(time) < 0 {
        0
    } else {
        (point_nanos(time) % 0x1_0000_0000_0000_0000) as u64
    }
}

/// Nanoseconds since the Unix epoch at the point `time`.
pub fn unix_nanos_at(time: SystemTime) -> (nanos: u64)
    ensures
        nanos == unix_time(time),
{
    unix_nanos(time.duration_since(unix_epoch()))
}

/// `nanos` is the Unix time of what the system clock reads when it is asked.
pub open spec fn is_unix_now(nanos: u64) -> bool {
    exists|now: SystemTime|
        call_ensures(SystemTime::now, (), now) && nanos == #[trigger] unix_time(now)
}

/// Nanoseconds since the Unix epoch, as the system clock has them now: the Unix
/// time of what the clock reads.
pub fn unix_nanos_now() -> (nanos: u64)
    ensures
        is_unix_now(nanos),
{
    unix_nanos_at(SystemTime::now())
}

/// The whole microseconds of a duration, in 64 bits.
pub open spec fn micros(duration: Duration) -> u64 {
    ((duration_nanos(duration) / 1_000) % 0x1_0000_0000_0000_0000) as u64
}

/// Whole microseconds of a duration, in 64 bits.
pub fn whole_micros(duration: Duration) -> (us: u64)
    ensures
        us == micros(duration),
{
    low_bits(duration.as_micros())
}

/// `us` is what the monotonic clock measures, in whole microseconds, from an
/// instant it was read at.
pub open spec fn is_measured(us: u64) -> bool {
    exists|start: Instant, elapsed: Duration|
        {
            &&& call_ensures(Instant::now, (), start)
            &&& #[trigger] call_ensures(Instant::elapsed, (&start,), elapsed)
            &&& us == micros(elapsed)
        }
}

/// The low 64 bits of a number.
pub fn low_bits(value: u128) -> (low: u64)
    ensures
        low == value % 0x1_0000_0000_0000_0000,
{
    assert((value as u64) as u128 == value % 0x1_0000_0000_0000_0000u128) by (bit_vector);
    value as u64
}

/// Unix time is the distance from the epoch: exact as long as it fits 64 bits,
/// the low bits of it past that, and zero before the epoch.
pub proof fn law_unix_time_is_the_distance(time: SystemTime)
    ensures
        0 <= point_nanos(time) <= u64::MAX ==> unix_time(time) == point_nanos(time),
        point_nanos(time) < 0 ==> unix_time(time) == 0,
        point_nanos(time) >= 0 ==> crate::metrics::alike(unix_time(time) as int, point_nanos(time)),
{
}

/// A reading of the clock is its distance from the epoch, and zero where it
/// stands before it.
pub proof fn law_readings_are_the_distance(since_epoch: Result<Duration, SystemTimeError>)
    ensures
        match since_epoch {
            Ok(elapsed) => {
                &&& duration_nanos(elapsed) <= u64::MAX ==> unix_nanos_reading(since_epoch)
                    == duration_nanos(elapsed)
                &&& crate::metrics::alike(
                    unix_nanos_reading(since_epoch) as int,
                    duration_nanos(elapsed) as int,
                )
            },
            Err(_) => unix_nanos_reading(since_epoch) == 0,
        },
{
}

/// Whole microseconds are rounded down.
pub proof fn law_micros_round_down(duration: Duration)
    ensures
        duration_nanos(duration) / 1_000 <= u64::MAX ==> micros(duration) * 1_000
            <= duration_nanos(duration) < (micros(duration) + 1) * 1_000,
        crate::metrics::alike(micros(duration) as int, duration_nanos(duration) as int / 1_000),
{
}

/// The time now is that of a point that the system clock gave.
pub proof fn law_now_is_a_point_of_the_clock(nanos: u64)
    requires
        is_unix_now(nanos),
    ensures
        exists|now: SystemTime| #[trigger]
            call_ensures(SystemTime::now, (), now) && nanos == if point_nanos(now) < 0 {
                0
            } else {
                point_nanos(now) % 0x1_0000_0000_0000_0000
            },
{
    let now = choose|now: SystemTime|
        call_ensures(SystemTime::now, (), now) && nanos == #[trigger] unix_time(now);
    assert(call_ensures(SystemTime::now, (), now));
}

/// A measured time is what the monotonic clock gave, from an instant that it
/// gave.
pub proof fn law_measured_by_the_clock(us: u64)
    requires
        is_measured(us),
    ensures
        exists|start: Instant, elapsed: Duration|
            {
                &&& call_ensures(Instant::now, (), start)
                &&& #[trigger] call_ensures(Instant::elapsed, (&start,), elapsed)
                &&& us == (duration_nanos(elapsed) / 1_000) % 0x1_0000_0000_0000_0000
            },
{
}

} // verus!
