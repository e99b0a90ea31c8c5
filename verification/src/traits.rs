use crate::error::RangeError;
use vstd::prelude::*;

verus! {

/// The conversion between a time value and what stands for it on the
/// wire.
///
/// The trait lives in a private module, so no type outside this crate
/// can implement it: the set of convertible types is closed.
pub trait Sealed: Sized {
    /// What encoding writes to the wire: a count of milliseconds, or an
    /// optional one.
    type Wire;

    /// What decoding reads from the wire: a count of milliseconds, or an
    /// optional one. It is the type of `Wire` for every type but
    /// `time::Duration`, which writes more counts than it reads.
    type Source;

    /// Whether `outcome` is what encoding `self` may give.
    spec fn encodes_to(&self, outcome: Result<Self::Wire, RangeError>) -> bool;

    /// Whether `outcome` is what decoding `source` may give.
    spec fn decodes_from(source: Self::Source, outcome: Result<Self, RangeError>) -> bool;

    /// Turns the value into its wire form.
    fn encode(&self) -> (outcome: Result<Self::Wire, RangeError>)
        ensures
            self.encodes_to(outcome),
    ;

    /// Rebuilds a value from its wire form.
    fn decode(source: Self::Source) -> (outcome: Result<Self, RangeError>)
        ensures
            Self::decodes_from(source, outcome),
    ;

    /// Encoding fails only with an error of the encoding direction.
    proof fn lemma_encode_error(&self, e: RangeError)
        ensures
            self.encodes_to(Err(e)) ==> e.from_encoding(),
    ;

    /// Decoding fails only with an error of the decoding direction.
    proof fn lemma_decode_error(source: Self::Source, e: RangeError)
        ensures
            Self::decodes_from(source, Err(e)) ==> e.from_decoding(),
    ;
}

/// A value convertible to milliseconds since the Unix epoch.
///
/// Implemented for `std::time::Duration`, `SystemTime` and `Instant`,
/// for `time::Duration`, and for an `Option` of any of them.
pub trait Milliseconds: Sealed {

}

} // verus!
