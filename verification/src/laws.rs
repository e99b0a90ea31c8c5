//! What holds of the conversions as a whole, proved from their
//! contracts.
use crate::anchor::{instant_decoded_at, instant_encoded_at};
use crate::clock::{duration_nanos, instant_nanos, system_time_nanos};
use crate::error::RangeError;
use crate::impls::signed::{
    div_toward_zero,
    signed_duration_nanos,
    signed_duration_secs,
    signed_duration_subsec_nanos,
    signed_parts_agree,
};
use crate::millis::{parts_to_millis, whole_millis};
use crate::traits::Sealed;
use std::time::{Duration, Instant, SystemTime};
use vstd::prelude::*;

verus! {

/// Where a duration encodes, the count is its whole seconds times one
/// thousand plus what it holds beyond them divided by one million, the
/// division dropping the remainder. That is the whole milliseconds of
/// its full length.
pub proof fn law_duration_truncation(d: Duration, millis: u64)
    requires
        d.encodes_to(Ok(millis)),
    ensures
        ({
            let secs = duration_nanos(d) / 1_000_000_000;
            let subsec_nanos = duration_nanos(d) % 1_000_000_000;
            &&& millis == secs * 1_000 + subsec_nanos / 1_000_000
            &&& millis == parts_to_millis(secs, subsec_nanos)
            &&& millis == whole_millis(duration_nanos(d))
        }),
{
}

/// A duration fails to encode exactly where its count of whole
/// milliseconds does not fit in a `u64`, and then with the error for a
/// duration out of range: the count never wraps and loses no high bits.
pub proof fn law_duration_overflow(d: Duration, outcome: Result<u64, RangeError>)
    requires
        d.encodes_to(outcome),
    ensures
        outcome is Err <==> whole_millis(duration_nanos(d)) > u64::MAX,
        outcome is Err ==> outcome == Err::<u64, RangeError>(RangeError::DurationOutOfRange),
        outcome matches Ok(millis) ==> millis == whole_millis(duration_nanos(d)),
{
}

/// A duration that was encoded and decoded again comes back shortened
/// by what it held below one millisecond, and by nothing else: one of
/// whole milliseconds comes back as long as it was.
pub proof fn law_duration_round_trip(d: Duration, wire: u64, back: Duration)
    requires
        d.encodes_to(Ok(wire)),
        Duration::decodes_from(wire, Ok(back)),
    ensures
        duration_nanos(back) == duration_nanos(d) - duration_nanos(d) % 1_000_000,
        duration_nanos(d) % 1_000_000 == 0 ==> duration_nanos(back) == duration_nanos(d),
{
}

/// Decoding a count of milliseconds as a duration always succeeds, and
/// encoding the result gives the count back.
pub proof fn law_duration_decode_then_encode(
    wire: u64,
    decoded: Result<Duration, RangeError>,
    again: Result<u64, RangeError>,
)
    requires
        Duration::decodes_from(wire, decoded),
        decoded matches Ok(d) ==> d.encodes_to(again),
    ensures
        decoded is Ok,
        again == Ok::<u64, RangeError>(wire),
{
}

/// A time before the Unix epoch does not encode: the outcome is the
/// error for an invalid system time. The epoch itself encodes to zero.
pub proof fn law_epoch_boundary(t: SystemTime, outcome: Result<u64, RangeError>)
    requires
        t.encodes_to(outcome),
    ensures
        system_time_nanos(t) < 0 ==> outcome == Err::<u64, RangeError>(
            RangeError::InvalidSystemTime,
        ),
        system_time_nanos(t) == 0 ==> outcome == Ok::<u64, RangeError>(0),
        outcome matches Ok(millis) ==> millis == whole_millis(system_time_nanos(t) as nat),
{
}

/// A time that was encoded and decoded again comes back earlier by what
/// it held below one millisecond, and by nothing else.
pub proof fn law_system_time_round_trip(t: SystemTime, wire: u64, back: SystemTime)
    requires
        t.encodes_to(Ok(wire)),
        SystemTime::decodes_from(wire, Ok(back)),
    ensures
        system_time_nanos(back) == system_time_nanos(t) - system_time_nanos(t) % 1_000_000,
{
}

/// An instant that is encoded against one reading of the two clocks and
/// decoded against another comes back displaced by exactly two things:
/// what its place on the wall clock held below one millisecond, which
/// is lost, and the amount by which the monotonic clock advanced
/// further than the wall clock between the two readings.
pub proof fn law_instant_round_trip(
    target: int,
    mono_then: int,
    wall_then: int,
    wire: u64,
    mono_now: int,
    wall_now: int,
    back: Instant,
)
    requires
        instant_encoded_at(target, mono_then, wall_then) == Ok::<u64, RangeError>(wire),
        instant_decoded_at(wire, mono_now, wall_now, Ok(back)),
    ensures
        ({
            let lost = (wall_then + (target - mono_then)) % 1_000_000;
            let drift = (mono_now - mono_then) - (wall_now - wall_then);
            &&& 0 <= lost < 1_000_000
            &&& instant_nanos(back) == target - lost + drift
        }),
{
}

/// An instant taken between `early` and `late` comes back from a round
/// trip no earlier than `early` and no later than `late`, give or take
/// a margin: one millisecond for truncation, and `slack` where the two
/// clocks advanced between the two readings by amounts that differ by
/// at most `slack`.
pub proof fn law_instant_round_trip_window(
    early: int,
    target: int,
    late: int,
    mono_then: int,
    wall_then: int,
    wire: u64,
    mono_now: int,
    wall_now: int,
    back: Instant,
    slack: nat,
)
    requires
        early <= target <= late,
        instant_encoded_at(target, mono_then, wall_then) == Ok::<u64, RangeError>(wire),
        instant_decoded_at(wire, mono_now, wall_now, Ok(back)),
        -slack <= (mono_now - mono_then) - (wall_now - wall_then) <= slack,
    ensures
        early - slack - 1_000_000 < instant_nanos(back) <= late + slack,
{
    law_instant_round_trip(target, mono_then, wall_then, wire, mono_now, wall_now, back);
}

/// No value encodes to the absent wire value and nothing else, and the
/// absent wire value decodes to no value and nothing else.
pub proof fn law_option_none<T: Sealed>(
    encoded: Result<Option<T::Wire>, RangeError>,
    decoded: Result<Option<T>, RangeError>,
)
    ensures
        None::<T>.encodes_to(encoded) <==> encoded == Ok::<Option<T::Wire>, RangeError>(None),
        Option::<T>::decodes_from(None, decoded) <==> decoded == Ok::<Option<T>, RangeError>(None),
{
}

/// A present value encodes to a present wire value, one that its inner
/// value encodes to. A present wire value decodes to a present value,
/// one that its inner wire value decodes to. So a round trip of an
/// optional value is the round trip of its inner value.
pub proof fn law_option_round_trip<T: Sealed>(
    value: T,
    wire: Option<T::Wire>,
    source: Option<T::Source>,
    back: Option<T>,
)
    ensures
        Some(value).encodes_to(Ok(wire)) ==> wire is Some && value.encodes_to(Ok(wire->0)),
        source is Some && Option::<T>::decodes_from(source, Ok(back)) ==> back is Some
            && T::decodes_from(source->0, Ok(back->0)),
{
}

/// An optional duration that was encoded and decoded again is present
/// again, and comes back as its inner duration does from a round trip
/// of its own: shortened by what it held below one millisecond.
pub proof fn law_option_duration_round_trip(d: Duration, wire: Option<u64>, back: Option<Duration>)
    requires
        Some(d).encodes_to(Ok(wire)),
        Option::<Duration>::decodes_from(wire, Ok(back)),
    ensures
        wire is Some,
        back is Some,
        duration_nanos(back->0) == duration_nanos(d) - duration_nanos(d) % 1_000_000,
{
    law_duration_round_trip(d, wire->0, back->0);
}

/// An optional value fails to encode exactly as its inner value does,
/// and an optional wire value fails to decode exactly as its inner
/// count does.
pub proof fn law_option_errors<T: Sealed>(value: T, inner: T::Source, e: RangeError)
    ensures
        Some(value).encodes_to(Err(e)) <==> value.encodes_to(Err(e)),
        Option::<T>::decodes_from(Some(inner), Err(e)) <==> T::decodes_from(inner, Err(e)),
{
}

/// The wire value of an optional time decodes as an optional instant:
/// the instant lies as far from the monotonic clock's reading as the
/// time, less what it held below one millisecond, lies from the wall
/// clock's reading.
pub proof fn law_time_decoded_as_instant(
    t: SystemTime,
    wire: Option<u64>,
    mono_now: int,
    wall_now: int,
    back: Instant,
)
    requires
        Some(t).encodes_to(Ok(wire)),
        wire matches Some(millis) && instant_decoded_at(millis, mono_now, wall_now, Ok(back)),
    ensures
        instant_nanos(back) - mono_now == (system_time_nanos(t) - system_time_nanos(t) % 1_000_000)
            - wall_now,
        Option::<Instant>::decodes_from(wire, Ok(Some(back))),
{
}

/// The wire value of an optional instant decodes as an optional time:
/// the time lies as far from the wall clock's reading as the instant
/// lay from the monotonic clock's reading, less what is lost below one
/// millisecond.
pub proof fn law_instant_decoded_as_time(
    target: int,
    mono_now: int,
    wall_now: int,
    wire: Option<u64>,
    back: Option<SystemTime>,
)
    requires
        wire matches Some(millis) && instant_encoded_at(target, mono_now, wall_now) == Ok::<
            u64,
            RangeError,
        >(millis),
        Option::<SystemTime>::decodes_from(wire, Ok(back)),
    ensures
        back is Some,
        ({
            let on_wall = wall_now + (target - mono_now);
            system_time_nanos(back->0) == on_wall - on_wall % 1_000_000
        }),
{
}

/// Where the two parts of a signed duration agree, its count is the
/// whole milliseconds of its full length, counted toward zero.
pub proof fn law_signed_duration_truncation(d: time::Duration, wire: i128)
    requires
        d.encodes_to(Ok(wire)),
        signed_parts_agree(signed_duration_secs(d) as int, signed_duration_subsec_nanos(d) as int),
    ensures
        wire == div_toward_zero(signed_duration_nanos(d), 1_000_000),
{
}

/// Every count that an `i64` holds decodes, to a signed duration whose
/// two parts agree and whose length is that many milliseconds.
pub proof fn law_signed_duration_decode(source: i64, decoded: Result<time::Duration, RangeError>)
    requires
        time::Duration::decodes_from(source, decoded),
    ensures
        decoded is Ok,
        signed_parts_agree(
            signed_duration_secs(decoded->Ok_0) as int,
            signed_duration_subsec_nanos(decoded->Ok_0) as int,
        ),
        signed_duration_nanos(decoded->Ok_0) == source * 1_000_000,
{
}

/// A signed duration whose two parts agree, and whose count an `i64`
/// holds, comes back from encoding and decoding shortened toward zero
/// by what it held below one millisecond, and by nothing else: one of
/// whole milliseconds comes back with the parts it had.
pub proof fn law_signed_duration_round_trip(
    d: time::Duration,
    wire: i128,
    source: i64,
    back: time::Duration,
)
    requires
        signed_parts_agree(signed_duration_secs(d) as int, signed_duration_subsec_nanos(d) as int),
        d.encodes_to(Ok(wire)),
        source == wire,
        time::Duration::decodes_from(source, Ok(back)),
    ensures
        signed_duration_nanos(back) == div_toward_zero(signed_duration_nanos(d), 1_000_000)
            * 1_000_000,
        signed_duration_subsec_nanos(d) % 1_000_000 == 0 ==> signed_duration_secs(back)
            == signed_duration_secs(d) && signed_duration_subsec_nanos(back)
            == signed_duration_subsec_nanos(d),
{
}

} // verus!
