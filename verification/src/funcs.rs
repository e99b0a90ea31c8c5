use crate::error::RangeError;
use crate::traits::{Milliseconds, Sealed};
use vstd::prelude::*;

verus! {

/// Turns `value` into its wire form: a count of milliseconds, or an
/// optional one.
pub fn serialize<T: Milliseconds>(value: &T) -> (outcome: Result<T::Wire, RangeError>)
    ensures
        value.encodes_to(outcome),
        outcome matches Err(e) ==> e.from_encoding(),
{
    let outcome = value.encode();
    proof {
        if let Err(e) = outcome {
            value.lemma_encode_error(e);
        }
    }
    outcome
}

/// Rebuilds a value of type `T` from its wire form.
pub fn deserialize<T: Milliseconds>(source: T::Source) -> (outcome: Result<T, RangeError>)
    ensures
        T::decodes_from(source, outcome),
        outcome matches Err(e) ==> e.from_decoding(),
{
    let outcome = T::decode(source);
    proof {
        if let Err(e) = outcome {
            T::lemma_decode_error(source, e);
        }
    }
    outcome
}

} // verus!
