//! The conversion of `time::Duration`, a span of time that may be
//! negative.
use crate::error::RangeError;
use crate::traits::{Milliseconds, Sealed};
use time::Duration;
use vstd::prelude::*;

verus! {

/// `time::Duration`, of which Verus sees no field.
#[verifier::external_type_specification]
#[verifier::external_body]
pub struct ExSignedDuration(Duration);

/// The seconds that a `time::Duration` holds, as
/// `Duration::whole_seconds` reports them.
pub uninterp spec fn signed_duration_secs(d: Duration) -> i64;

/// The nanoseconds that a `time::Duration` holds beside its seconds, as
/// `Duration::subsec_nanoseconds` reports them.
pub uninterp spec fn signed_duration_subsec_nanos(d: Duration) -> i32;

/// The quotient of `a` by a positive `b`, the remainder dropped so that
/// the quotient moves toward zero: what `/` gives on Rust's signed
/// integers.
pub open spec fn div_toward_zero(a: int, b: int) -> int {
    if a >= 0 {
        a / b
    } else {
        -((-a) / b)
    }
}

/// The count of milliseconds that the two parts of a `time::Duration`
/// give: the seconds times one thousand, plus the nanoseconds divided
/// by one million toward zero.
pub open spec fn signed_parts_to_millis(secs: int, subsec_nanos: int) -> int {
    secs * 1_000 + div_toward_zero(subsec_nanos, 1_000_000)
}

/// The signed length in nanoseconds of a span given by its two parts.
pub open spec fn signed_parts_to_nanos(secs: int, subsec_nanos: int) -> int {
    secs * 1_000_000_000 + subsec_nanos
}

/// The signed length of a `time::Duration` in nanoseconds.
pub open spec fn signed_duration_nanos(d: Duration) -> int {
    signed_parts_to_nanos(signed_duration_secs(d) as int, signed_duration_subsec_nanos(d) as int)
}

/// Whether the two parts of a span agree: the nanoseconds are short of
/// one second and are not of the other sign than the seconds. Every
/// `time::Duration` that `Duration::milliseconds` makes is such a span;
/// the crate's arithmetic can make one that is not, where it overflows
/// its seconds.
pub open spec fn signed_parts_agree(secs: int, subsec_nanos: int) -> bool {
    &&& -1_000_000_000 < subsec_nanos < 1_000_000_000
    &&& secs > 0 ==> subsec_nanos >= 0
    &&& secs < 0 ==> subsec_nanos <= 0
}

/// `time::Duration::whole_milliseconds` returns the seconds that the
/// duration holds times one thousand, plus the nanoseconds that it
/// holds divided by one million, the division moving toward zero.
pub assume_specification[ Duration::whole_milliseconds ](d: Duration) -> (millis: i128)
    ensures
        millis == signed_parts_to_millis(
            signed_duration_secs(d) as int,
            signed_duration_subsec_nanos(d) as int,
        ),
;

/// `time::Duration::milliseconds` returns the duration whose seconds
/// are `millis` divided by one thousand toward zero, and whose
/// nanoseconds are the milliseconds left over, times one million.
pub assume_specification[ Duration::milliseconds ](millis: i64) -> (d: Duration)
    ensures
        signed_duration_secs(d) == div_toward_zero(millis as int, 1_000),
        signed_duration_subsec_nanos(d) == (millis - div_toward_zero(millis as int, 1_000) * 1_000)
            * 1_000_000,
;

/// What decoding a count of `millis` milliseconds gives: the duration
/// of these two parts.
pub open spec fn signed_duration_decoded(millis: i64, d: Duration) -> bool {
    &&& signed_duration_secs(d) == div_toward_zero(millis as int, 1_000)
    &&& signed_duration_subsec_nanos(d) == (millis - div_toward_zero(millis as int, 1_000) * 1_000)
        * 1_000_000
}

/// A signed duration is written as the count of milliseconds that its
/// two parts give, in an `i128`, which holds every such count. It is
/// read from an `i64`, and every `i64` has a duration.
impl Sealed for Duration {
    type Wire = i128;

    type Source = i64;

    open spec fn encodes_to(&self, outcome: Result<i128, RangeError>) -> bool {
        outcome matches Ok(millis) && millis == signed_parts_to_millis(
            signed_duration_secs(*self) as int,
            signed_duration_subsec_nanos(*self) as int,
        )
    }

    open spec fn decodes_from(source: i64, outcome: Result<Duration, RangeError>) -> bool {
        outcome matches Ok(d) && signed_duration_decoded(source, d)
    }

    /// Returns the count of milliseconds that the two parts of the
    /// duration give. Never fails.
    fn encode(&self) -> (outcome: Result<i128, RangeError>)
        ensures
            outcome matches Ok(millis) && millis == signed_parts_to_millis(
                signed_duration_secs(*self) as int,
                signed_duration_subsec_nanos(*self) as int,
            ),
    {
        Ok(self.whole_milliseconds())
    }

    /// Returns the duration of `source` milliseconds. Never fails.
    fn decode(source: i64) -> (outcome: Result<Duration, RangeError>)
        ensures
            outcome matches Ok(d) && signed_duration_decoded(source, d),
    {
        Ok(Duration::milliseconds(source))
    }

    proof fn lemma_encode_error(&self, e: RangeError) {
    }

    proof fn lemma_decode_error(source: i64, e: RangeError) {
    }
}

impl Milliseconds for Duration {

}

} // verus!
