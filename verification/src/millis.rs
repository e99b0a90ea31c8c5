//! Counting milliseconds: the arithmetic of the conversions, on plain
//! integers.
use crate::error::RangeError;
use vstd::prelude::*;

verus! {

/// Nanoseconds in one millisecond.
pub const NANOS_PER_MILLI: u32 = 1_000_000;

/// Milliseconds in one second.
pub const MILLIS_PER_SEC: u64 = 1_000;

/// The whole milliseconds in a span of `nanos` nanoseconds. What is left
/// below one millisecond is dropped, never rounded up.
pub open spec fn whole_millis(nanos: nat) -> nat {
    nanos / 1_000_000
}

/// The whole milliseconds in a span given as whole seconds and the
/// nanoseconds beyond them.
pub open spec fn parts_to_millis(secs: nat, subsec_nanos: nat) -> nat {
    secs * 1_000 + subsec_nanos / 1_000_000
}

/// What a span of `nanos` nanoseconds encodes to: its whole milliseconds
/// where a `u64` holds them, the error for a duration out of range
/// where it does not.
pub open spec fn span_encoded(nanos: nat) -> Result<u64, RangeError> {
    if whole_millis(nanos) <= u64::MAX {
        Ok(whole_millis(nanos) as u64)
    } else {
        Err(RangeError::DurationOutOfRange)
    }
}

/// What a time `nanos` nanoseconds after the Unix epoch encodes to. A
/// negative `nanos` stands for a time before the epoch, which has no
/// encoding.
pub open spec fn epoch_encoded(nanos: int) -> Result<u64, RangeError> {
    if nanos < 0 {
        Err(RangeError::InvalidSystemTime)
    } else {
        span_encoded(nanos as nat)
    }
}

/// Computes the whole milliseconds of a span given as whole seconds and
/// the nanoseconds beyond them: the seconds times one thousand plus the
/// nanoseconds divided by one million. Returns `None` where a `u64`
/// cannot hold that count.
pub fn millis_from_parts(secs: u64, subsec_nanos: u32) -> (millis: Option<u64>)
    ensures
        millis == (if parts_to_millis(secs as nat, subsec_nanos as nat) <= u64::MAX {
            Some(parts_to_millis(secs as nat, subsec_nanos as nat) as u64)
        } else {
            None
        }),
{
    match secs.checked_mul(MILLIS_PER_SEC) {
        Some(whole) => whole.checked_add((subsec_nanos / NANOS_PER_MILLI) as u64),
        None => None,
    }
}

/// Encodes a time given as its signed distance from the Unix epoch in
/// nanoseconds.
///
/// Fails with `InvalidSystemTime` where `nanos` is negative, and with
/// `DurationOutOfRange` where it holds more whole milliseconds than a
/// `u64` counts.
pub fn epoch_nanos_to_millis(nanos: i128) -> (outcome: Result<u64, RangeError>)
    ensures
        outcome == epoch_encoded(nanos as int),
{
    if nanos < 0 {
        return Err(RangeError::InvalidSystemTime);
    }
    let millis: i128 = nanos / 1_000_000;
    if millis > u64::MAX as i128 {
        Err(RangeError::DurationOutOfRange)
    } else {
        Ok(millis as u64)
    }
}

} // verus!
