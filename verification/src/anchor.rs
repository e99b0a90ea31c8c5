//! Carrying a reading of the monotonic clock over to the wall clock and
//! back.
//!
//! An `Instant` means nothing outside its process. To put one on the
//! wire, both clocks are read together, and the instant is carried as
//! the wall clock time that lies as far from the wall clock's reading
//! as the instant lies from the monotonic clock's reading, on the same
//! side. Decoding reads both clocks again and goes the other way. The
//! functions here take the two readings as arguments, so what they
//! return is fixed by what they are given.
use crate::clock::{duration_nanos, instant_nanos, system_time_nanos, unix_epoch};
use crate::error::RangeError;
use crate::millis::{epoch_encoded, epoch_nanos_to_millis};
use std::time::{Duration, Instant, SystemTime};
use vstd::prelude::*;

verus! {

/// One more than the nanoseconds in the longest `Duration`, which holds
/// `u64::MAX` whole seconds and just under one second beyond them.
pub const DURATION_NANOS_LIMIT: u128 = 18_446_744_073_709_551_616_000_000_000;

/// What the instant at `target` encodes to when the two clocks read
/// `mono_now` and `wall_now`: the encoding of the wall clock time that
/// is as far from `wall_now` as `target` is from `mono_now`.
///
/// `target` and `mono_now` are places on the monotonic time line,
/// `wall_now` is a signed distance from the Unix epoch, all three in
/// nanoseconds.
pub open spec fn instant_encoded_at(target: int, mono_now: int, wall_now: int) -> Result<
    u64,
    RangeError,
> {
    epoch_encoded(wall_now + (target - mono_now))
}

/// How far the time of `wire` milliseconds after the epoch lies from
/// the wall clock's reading `wall_now`, in nanoseconds: negative where
/// it lies before it.
pub open spec fn distance_from_wall(wire: u64, wall_now: int) -> int {
    wire * 1_000_000 - wall_now
}

/// Whether `outcome` is what decoding `wire` as an instant may give
/// when the two clocks read `mono_now` and `wall_now`.
///
/// Success is the instant that is as far from `mono_now` as the time of
/// `wire` milliseconds after the epoch is from `wall_now`. There is
/// none where that distance is longer than any `Duration`. Failure is
/// the error for an instant out of range. It is certain where the
/// distance is too long, and possible on every other input: which
/// instants the monotonic clock's type can hold is up to the platform.
pub open spec fn instant_decoded_at(
    wire: u64,
    mono_now: int,
    wall_now: int,
    outcome: Result<Instant, RangeError>,
) -> bool {
    match outcome {
        Ok(t) => {
            &&& -DURATION_NANOS_LIMIT < distance_from_wall(wire, wall_now) < DURATION_NANOS_LIMIT
            &&& instant_nanos(t) == mono_now + distance_from_wall(wire, wall_now)
        },
        Err(e) => e == RangeError::InstantOutOfRange,
    }
}

/// Returns the length of `d` in nanoseconds.
pub fn duration_to_nanos(d: &Duration) -> (nanos: u128)
    ensures
        nanos == duration_nanos(*d),
        nanos < DURATION_NANOS_LIMIT,
{
    let secs: u64 = d.as_secs();
    let subsec_nanos: u32 = d.subsec_nanos();
    secs as u128 * 1_000_000_000 + subsec_nanos as u128
}

/// Returns the signed distance of `t` from the Unix epoch in
/// nanoseconds: negative where `t` lies before the epoch.
pub fn nanos_since_epoch(t: &SystemTime) -> (nanos: i128)
    ensures
        nanos == system_time_nanos(*t),
        -DURATION_NANOS_LIMIT < nanos < DURATION_NANOS_LIMIT,
{
    match t.duration_since(unix_epoch()) {
        Ok(elapsed) => duration_to_nanos(&elapsed) as i128,
        Err(e) => -(duration_to_nanos(&e.duration()) as i128),
    }
}

/// Encodes `target` against the readings `mono_now` and `wall_now` of
/// the two clocks.
///
/// Fails with `InvalidSystemTime` where the time that stands for
/// `target` lies before the epoch, and with `DurationOutOfRange` where
/// it lies more milliseconds after it than a `u64` counts.
pub fn instant_to_millis_at(
    target: &Instant,
    mono_now: &Instant,
    wall_now: &SystemTime,
) -> (outcome: Result<u64, RangeError>)
    ensures
        outcome == instant_encoded_at(
            instant_nanos(*target),
            instant_nanos(*mono_now),
            system_time_nanos(*wall_now),
        ),
{
    let wall: i128 = nanos_since_epoch(wall_now);
    match target.checked_duration_since(*mono_now) {
        Some(ahead) => epoch_nanos_to_millis(wall + duration_to_nanos(&ahead) as i128),
        None => {
            let behind = mono_now.duration_since(*target);
            epoch_nanos_to_millis(wall - duration_to_nanos(&behind) as i128)
        },
    }
}

/// The outcome of decoding an instant, given what the monotonic clock's
/// type made of it: the instant where the type could hold it, the error
/// for an instant out of range where it could not.
pub fn instant_or_out_of_range(held: Option<Instant>) -> (outcome: Result<Instant, RangeError>)
    ensures
        outcome == match held {
            Some(t) => Ok::<Instant, RangeError>(t),
            None => Err::<Instant, RangeError>(RangeError::InstantOutOfRange),
        },
{
    match held {
        Some(t) => Ok(t),
        None => Err(RangeError::InstantOutOfRange),
    }
}

/// Returns the duration of `nanos` nanoseconds, or `None` where no
/// `Duration` is that long.
pub fn duration_from_nanos(nanos: u128) -> (d: Option<Duration>)
    ensures
        nanos < DURATION_NANOS_LIMIT ==> (d matches Some(span) && duration_nanos(span) == nanos),
        nanos >= DURATION_NANOS_LIMIT ==> d is None,
{
    let secs: u128 = nanos / 1_000_000_000;
    if secs > u64::MAX as u128 {
        None
    } else {
        Some(Duration::new(secs as u64, (nanos % 1_000_000_000) as u32))
    }
}

/// Decodes `wire` into an instant against the readings `mono_now` and
/// `wall_now` of the two clocks.
///
/// Fails with `InstantOutOfRange` in two cases: always where the time
/// of `wire` lies further from `wall_now` than any `Duration` is long,
/// and otherwise where the monotonic clock's type cannot hold the
/// instant.
pub fn instant_from_millis_at(
    wire: u64,
    mono_now: &Instant,
    wall_now: &SystemTime,
) -> (outcome: Result<Instant, RangeError>)
    ensures
        instant_decoded_at(wire, instant_nanos(*mono_now), system_time_nanos(*wall_now), outcome),
        distance_from_wall(wire, system_time_nanos(*wall_now)) >= DURATION_NANOS_LIMIT ==> outcome
            == Err::<Instant, RangeError>(RangeError::InstantOutOfRange),
{
    let wall: i128 = nanos_since_epoch(wall_now);
    let distance: i128 = wire as i128 * 1_000_000 - wall;
    let ahead: bool = distance >= 0;
    let length: u128 = if ahead {
        distance as u128
    } else {
        (-distance) as u128
    };
    match duration_from_nanos(length) {
        Some(span) => {
            if ahead {
                instant_or_out_of_range(mono_now.checked_add(span))
            } else {
                instant_or_out_of_range(mono_now.checked_sub(span))
            }
        },
        None => Err(RangeError::InstantOutOfRange),
    }
}

} // verus!
