//! The conversions of the types of `std::time`, and of `Option`.
pub mod signed;

use crate::anchor::{
    instant_decoded_at,
    instant_encoded_at,
    instant_from_millis_at,
    instant_to_millis_at,
};
use crate::clock::{duration_nanos, instant_nanos, system_time_nanos, unix_epoch};
use crate::error::RangeError;
use crate::millis::{epoch_encoded, millis_from_parts, span_encoded};
use crate::traits::{Milliseconds, Sealed};
use std::time::{Duration, Instant, SystemTime};
use vstd::prelude::*;

verus! {

/// A duration is carried as its length in whole milliseconds.
impl Sealed for Duration {
    type Wire = u64;

    type Source = u64;

    open spec fn encodes_to(&self, outcome: Result<u64, RangeError>) -> bool {
        outcome == span_encoded(duration_nanos(*self))
    }

    open spec fn decodes_from(wire: u64, outcome: Result<Duration, RangeError>) -> bool {
        outcome matches Ok(d) && duration_nanos(d) == wire * 1_000_000
    }

    /// Returns the whole milliseconds in the duration, or
    /// `DurationOutOfRange` where a `u64` cannot hold them.
    fn encode(&self) -> (outcome: Result<u64, RangeError>)
        ensures
            outcome == span_encoded(duration_nanos(*self)),
    {
        match millis_from_parts(self.as_secs(), self.subsec_nanos()) {
            Some(millis) => Ok(millis),
            None => Err(RangeError::DurationOutOfRange),
        }
    }

    /// Returns the duration of `wire` milliseconds. Never fails.
    fn decode(wire: u64) -> (outcome: Result<Duration, RangeError>)
        ensures
            outcome matches Ok(d) && duration_nanos(d) == wire * 1_000_000,
    {
        Ok(Duration::from_millis(wire))
    }

    proof fn lemma_encode_error(&self, e: RangeError) {
    }

    proof fn lemma_decode_error(wire: u64, e: RangeError) {
    }
}

impl Milliseconds for Duration {

}

/// The outcome of decoding a time, given what the system clock's type
/// made of it: the time where the type could hold it, the error for a
/// count out of range where it could not.
pub fn system_time_or_out_of_range(held: Option<SystemTime>) -> (outcome: Result<
    SystemTime,
    RangeError,
>)
    ensures
        outcome == match held {
            Some(t) => Ok::<SystemTime, RangeError>(t),
            None => Err::<SystemTime, RangeError>(RangeError::MillisOutOfRange),
        },
{
    match held {
        Some(t) => Ok(t),
        None => Err(RangeError::MillisOutOfRange),
    }
}

/// A time is carried as the whole milliseconds from the Unix epoch to
/// it.
impl Sealed for SystemTime {
    type Wire = u64;

    type Source = u64;

    open spec fn encodes_to(&self, outcome: Result<u64, RangeError>) -> bool {
        outcome == epoch_encoded(system_time_nanos(*self))
    }

    open spec fn decodes_from(wire: u64, outcome: Result<SystemTime, RangeError>) -> bool {
        match outcome {
            Ok(t) => system_time_nanos(t) == wire * 1_000_000,
            Err(e) => e == RangeError::MillisOutOfRange,
        }
    }

    /// Returns the whole milliseconds from the epoch to the time.
    /// Fails with `InvalidSystemTime` where the time lies before the
    /// epoch, and with `DurationOutOfRange` where a `u64` cannot hold
    /// the count.
    fn encode(&self) -> (outcome: Result<u64, RangeError>)
        ensures
            outcome == epoch_encoded(system_time_nanos(*self)),
    {
        match self.duration_since(unix_epoch()) {
            Ok(elapsed) => elapsed.encode(),
            Err(_) => Err(RangeError::InvalidSystemTime),
        }
    }

    /// Returns the time `wire` milliseconds after the epoch, or
    /// `MillisOutOfRange` where the platform's `SystemTime` cannot hold
    /// it.
    fn decode(wire: u64) -> (outcome: Result<SystemTime, RangeError>)
        ensures
            outcome matches Ok(t) ==> system_time_nanos(t) == wire * 1_000_000,
            outcome matches Err(e) ==> e == RangeError::MillisOutOfRange,
    {
        let elapsed = Duration::from_millis(wire);
        system_time_or_out_of_range(unix_epoch().checked_add(elapsed))
    }

    proof fn lemma_encode_error(&self, e: RangeError) {
    }

    proof fn lemma_decode_error(wire: u64, e: RangeError) {
    }
}

impl Milliseconds for SystemTime {

}

/// An instant is carried as the time that is as far from the wall
/// clock's "now" as the instant is from the monotonic clock's "now".
/// Both clocks are read anew in every call, so two calls on one value
/// may differ: the contracts say what holds of every reading.
impl Sealed for Instant {
    type Wire = u64;

    type Source = u64;

    open spec fn encodes_to(&self, outcome: Result<u64, RangeError>) -> bool {
        exists|mono_now: int, wall_now: int|
            outcome == #[trigger] instant_encoded_at(instant_nanos(*self), mono_now, wall_now)
    }

    open spec fn decodes_from(wire: u64, outcome: Result<Instant, RangeError>) -> bool {
        exists|mono_now: int, wall_now: int| #[trigger]
            instant_decoded_at(wire, mono_now, wall_now, outcome)
    }

    /// Reads both clocks, then encodes the instant against the two
    /// readings.
    fn encode(&self) -> (outcome: Result<u64, RangeError>)
        ensures
            exists|mono_now: int, wall_now: int|
                outcome == #[trigger] instant_encoded_at(instant_nanos(*self), mono_now, wall_now),
    {
        let mono_now = Instant::now();
        let wall_now = SystemTime::now();
        instant_to_millis_at(self, &mono_now, &wall_now)
    }

    /// Reads both clocks, then decodes `wire` against the two readings.
    fn decode(wire: u64) -> (outcome: Result<Instant, RangeError>)
        ensures
            exists|mono_now: int, wall_now: int| #[trigger]
                instant_decoded_at(wire, mono_now, wall_now, outcome),
    {
        let mono_now = Instant::now();
        let wall_now = SystemTime::now();
        instant_from_millis_at(wire, &mono_now, &wall_now)
    }

    proof fn lemma_encode_error(&self, e: RangeError) {
    }

    proof fn lemma_decode_error(wire: u64, e: RangeError) {
    }
}

impl Milliseconds for Instant {

}

/// An optional value is carried as an optional wire value: no value as
/// none, a value as what it is carried as itself.
impl<T: Sealed> Sealed for Option<T> {
    type Wire = Option<T::Wire>;

    type Source = Option<T::Source>;

    open spec fn encodes_to(&self, outcome: Result<Option<T::Wire>, RangeError>) -> bool {
        match *self {
            None => outcome == Ok::<Option<T::Wire>, RangeError>(None),
            Some(value) => match outcome {
                Ok(Some(inner)) => value.encodes_to(Ok(inner)),
                Ok(None) => false,
                Err(e) => value.encodes_to(Err(e)),
            },
        }
    }

    open spec fn decodes_from(
        source: Option<T::Source>,
        outcome: Result<Option<T>, RangeError>,
    ) -> bool {
        match source {
            None => outcome == Ok::<Option<T>, RangeError>(None),
            Some(inner) => match outcome {
                Ok(Some(value)) => T::decodes_from(inner, Ok(value)),
                Ok(None) => false,
                Err(e) => T::decodes_from(inner, Err(e)),
            },
        }
    }

    /// Returns none for no value. For a value, returns what the value
    /// encodes to, or the error with which that fails.
    fn encode(&self) -> (outcome: Result<Option<T::Wire>, RangeError>)
        ensures
            *self is None ==> outcome == Ok::<Option<T::Wire>, RangeError>(None),
            *self matches Some(value) ==> match outcome {
                Ok(Some(inner)) => value.encodes_to(Ok(inner)),
                Ok(None) => false,
                Err(e) => value.encodes_to(Err(e)),
            },
    {
        match self {
            Some(value) => match value.encode() {
                Ok(inner) => Ok(Some(inner)),
                Err(e) => Err(e),
            },
            None => Ok(None),
        }
    }

    /// Returns no value for none. For a wire value, returns what it
    /// decodes to, or the error with which that fails.
    fn decode(source: Option<T::Source>) -> (outcome: Result<Option<T>, RangeError>)
        ensures
            source is None ==> outcome == Ok::<Option<T>, RangeError>(None),
            source matches Some(inner) ==> match outcome {
                Ok(Some(value)) => T::decodes_from(inner, Ok(value)),
                Ok(None) => false,
                Err(e) => T::decodes_from(inner, Err(e)),
            },
    {
        match source {
            Some(inner) => match T::decode(inner) {
                Ok(value) => Ok(Some(value)),
                Err(e) => Err(e),
            },
            None => Ok(None),
        }
    }

    proof fn lemma_encode_error(&self, e: RangeError) {
        if let Some(value) = *self {
            value.lemma_encode_error(e);
        }
    }

    proof fn lemma_decode_error(source: Option<T::Source>, e: RangeError) {
        if let Some(inner) = source {
            T::lemma_decode_error(inner, e);
        }
    }
}

impl<T: Milliseconds> Milliseconds for Option<T> {

}

} // verus!
