//! What this library takes on trust about `std::time`.
//!
//! Every value of the three time types is given a number, and each
//! function of the standard library that the conversions call is given
//! a contract over those numbers. Nothing here is proved: the contracts
//! restate the standard library's documentation.
use std::time::{Duration, Instant, SystemTime, SystemTimeError};
use vstd::prelude::*;

verus! {

/// `std::time::SystemTime`, a reading of the system clock.
#[verifier::external_type_specification]
#[verifier::external_body]
pub struct ExSystemTime(SystemTime);

/// `std::time::Instant`, a reading of the monotonic clock.
#[verifier::external_type_specification]
#[verifier::external_body]
pub struct ExInstant(Instant);

/// `std::time::SystemTimeError`, which `SystemTime::duration_since`
/// returns where the second time is the later one.
#[verifier::external_type_specification]
#[verifier::external_body]
pub struct ExSystemTimeError(SystemTimeError);

/// The length of a `Duration` in nanoseconds, as `Duration::as_nanos`
/// reports it.
pub uninterp spec fn duration_nanos(d: Duration) -> nat;

/// The signed distance of a `SystemTime` from `UNIX_EPOCH` in
/// nanoseconds, as `SystemTime::duration_since` reports it when asked
/// for the time since `UNIX_EPOCH`: the length of the duration where it
/// returns one, minus the gap in the error where it returns that.
pub uninterp spec fn system_time_nanos(t: SystemTime) -> int;

/// The place of an `Instant` on the monotonic clock's time line, in
/// nanoseconds from an origin that is the same for all instants of one
/// process. No function of the standard library reports it: only the
/// difference between two such numbers can be had, from
/// `Instant::duration_since`.
pub uninterp spec fn instant_nanos(t: Instant) -> int;

/// How far apart, in nanoseconds, the two times were whose comparison
/// gave this error, as `SystemTimeError::duration` reports it.
pub uninterp spec fn system_time_error_nanos(e: SystemTimeError) -> nat;

/// `Duration::as_secs` returns the whole seconds in the duration.
pub assume_specification[ Duration::as_secs ](d: &Duration) -> (secs: u64)
    ensures
        secs == duration_nanos(*d) / 1_000_000_000,
;

/// `Duration::subsec_nanos` returns what the duration holds beyond its
/// whole seconds, in nanoseconds: always less than one second.
pub assume_specification[ Duration::subsec_nanos ](d: &Duration) -> (nanos: u32)
    ensures
        nanos == duration_nanos(*d) % 1_000_000_000,
;

/// `Duration::new` returns the duration of `secs` whole seconds and
/// `nanos` nanoseconds beyond them. It is called only with less than
/// one second of nanoseconds: with more it carries into the seconds,
/// and panics where they overflow.
pub assume_specification[ Duration::new ](secs: u64, nanos: u32) -> (d: Duration)
    requires
        nanos < 1_000_000_000,
    ensures
        duration_nanos(d) == secs * 1_000_000_000 + nanos,
;

/// `Duration::from_millis` returns the duration of that many
/// milliseconds.
pub assume_specification[ Duration::from_millis ](millis: u64) -> (d: Duration)
    ensures
        duration_nanos(d) == millis * 1_000_000,
;

/// `UNIX_EPOCH`, the time from which `system_time_nanos` counts.
#[verifier::external_body]
pub(crate) fn unix_epoch() -> (epoch: SystemTime)
    ensures
        system_time_nanos(epoch) == 0,
{
    std::time::UNIX_EPOCH
}

/// `SystemTime::now` reads the system clock. Nothing is claimed of the
/// time it returns.
pub assume_specification[ SystemTime::now ]() -> SystemTime;

/// `Instant::now` reads the monotonic clock. Nothing is claimed of the
/// instant it returns.
pub assume_specification[ Instant::now ]() -> Instant;

/// `SystemTime::duration_since` returns the time elapsed from `earlier`
/// to `t`. Where `earlier` is in fact later than `t` it returns an
/// error that holds how far apart the two are.
pub assume_specification[ SystemTime::duration_since ](t: &SystemTime, earlier: SystemTime) -> (r:
    Result<Duration, SystemTimeError>)
    ensures
        match r {
            Ok(elapsed) => system_time_nanos(earlier) <= system_time_nanos(*t) && duration_nanos(
                elapsed,
            ) == system_time_nanos(*t) - system_time_nanos(earlier),
            Err(e) => system_time_nanos(*t) < system_time_nanos(earlier)
                && system_time_error_nanos(e) == system_time_nanos(earlier) - system_time_nanos(
                *t,
            ),
        },
;

/// `SystemTimeError::duration` returns how far apart the two compared
/// times were.
pub assume_specification[ SystemTimeError::duration ](e: &SystemTimeError) -> (gap: Duration)
    ensures
        duration_nanos(gap) == system_time_error_nanos(*e),
;

/// `SystemTime::checked_add` returns the time `d` after `t` where the
/// platform's `SystemTime` can hold it, and `None` where it cannot.
/// Which times a platform can hold is left open. The sum is claimed
/// only for a `d` of whole milliseconds: a platform may count time in
/// coarser steps than nanoseconds, and what it does with a finer `d`
/// is left open too.
pub assume_specification[ SystemTime::checked_add ](t: &SystemTime, d: Duration) -> (r: Option<
    SystemTime,
>)
    ensures
        duration_nanos(d) % 1_000_000 == 0 ==> (r matches Some(later) ==> system_time_nanos(later)
            == system_time_nanos(*t) + duration_nanos(d)),
;

/// `Instant::checked_duration_since` returns the time elapsed from
/// `earlier` to `t`, or `None` where `earlier` is in fact later.
pub assume_specification[ Instant::checked_duration_since ](t: &Instant, earlier: Instant) -> (r:
    Option<Duration>)
    ensures
        match r {
            Some(elapsed) => instant_nanos(earlier) <= instant_nanos(*t) && duration_nanos(elapsed)
                == instant_nanos(*t) - instant_nanos(earlier),
            None => instant_nanos(*t) < instant_nanos(earlier),
        },
;

/// `Instant::duration_since` returns the time elapsed from `earlier` to
/// `t`. It is called only where `earlier` is not later than `t`: what
/// it does otherwise has changed between versions of the standard
/// library.
pub assume_specification[ Instant::duration_since ](t: &Instant, earlier: Instant) -> (elapsed:
    Duration)
    requires
        instant_nanos(earlier) <= instant_nanos(*t),
    ensures
        duration_nanos(elapsed) == instant_nanos(*t) - instant_nanos(earlier),
;

/// `Instant::checked_add` returns the instant `d` after `t` where the
/// platform's `Instant` can hold it, and `None` where it cannot.
pub assume_specification[ Instant::checked_add ](t: &Instant, d: Duration) -> (r: Option<Instant>)
    ensures
        r matches Some(later) ==> instant_nanos(later) == instant_nanos(*t) + duration_nanos(d),
;

/// `Instant::checked_sub` returns the instant `d` before `t` where the
/// platform's `Instant` can hold it, and `None` where it cannot.
pub assume_specification[ Instant::checked_sub ](t: &Instant, d: Duration) -> (r: Option<Instant>)
    ensures
        r matches Some(before) ==> instant_nanos(before) == instant_nanos(*t) - duration_nanos(d),
;

} // verus!
