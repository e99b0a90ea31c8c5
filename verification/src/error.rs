use vstd::prelude::*;

verus! {

/// Why a time value could not be turned into a millisecond count, or a
/// millisecond count into a time value.
///
/// The first two variants arise when encoding, the last two when decoding.
#[derive(Clone, Copy, Debug, PartialEq, Eq, Structural)]
pub enum RangeError {
    /// The duration holds more whole milliseconds than a `u64` can count.
    DurationOutOfRange,
    /// The time lies before the Unix epoch.
    InvalidSystemTime,
    /// The monotonic clock cannot represent the decoded instant.
    InstantOutOfRange,
    /// The millisecond count lies outside what the target type can hold.
    MillisOutOfRange,
}

impl RangeError {
    /// The text that describes this error to a human reader.
    pub open spec fn message_text(self) -> Seq<char> {
        match self {
            RangeError::DurationOutOfRange => "duration value out of range"@,
            RangeError::InvalidSystemTime => "invalid system time"@,
            RangeError::InstantOutOfRange => "instant out of range"@,
            RangeError::MillisOutOfRange => "millisecond value is out of range"@,
        }
    }

    /// Whether this error can only come from encoding a value.
    pub open spec fn from_encoding(self) -> bool {
        self == RangeError::DurationOutOfRange || self == RangeError::InvalidSystemTime
    }

    /// Whether this error can only come from decoding a millisecond count.
    pub open spec fn from_decoding(self) -> bool {
        self == RangeError::InstantOutOfRange || self == RangeError::MillisOutOfRange
    }

    /// Returns the text that describes this error to a human reader.
    pub fn message(&self) -> (text: &'static str)
        ensures
            text@ == self.message_text(),
    {
        match self {
            RangeError::DurationOutOfRange => "duration value out of range",
            RangeError::InvalidSystemTime => "invalid system time",
            RangeError::InstantOutOfRange => "instant out of range",
            RangeError::MillisOutOfRange => "millisecond value is out of range",
        }
    }
}

} // verus!
