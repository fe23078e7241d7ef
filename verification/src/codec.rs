//! What the gzip and zlib operations share: the error type of the codecs and
//! the step that turns a codec's result into the boundary's answer.

use vstd::prelude::*;
use crate::buffer::{fits_size_field, SizedByteArray};

verus! {

/// `std::io::Error`, the error of every codec call. The library only tells it
/// apart from success.
#[verifier::external_type_specification]
#[verifier::external_body]
pub struct ExIoError(std::io::Error);

/// Whether a codec outcome can be handed over: the codec produced bytes and
/// their length fits the size field of the output slot.
pub open spec fn delivers(outcome: Option<Seq<u8>>) -> bool {
    outcome matches Some(bytes) && fits_size_field(bytes)
}

/// The bytes of a codec result, or `None` where the codec failed.
pub open spec fn produced(result: Result<Vec<u8>, std::io::Error>) -> Option<Seq<u8>> {
    match result {
        Ok(bytes) => Some(bytes@),
        Err(_) => None,
    }
}

/// Turns the result of a codec into the answer of the boundary.
///
/// A codec failure, of whatever kind, becomes `false`, and so does a result
/// too long for the size field; in both cases the output slot is left exactly
/// as it was. Otherwise the slot becomes the owner of the produced bytes.
pub fn hand_over(result: Result<Vec<u8>, std::io::Error>, ret: &mut SizedByteArray) -> (ok: bool)
    ensures
        ok <==> delivers(produced(result)),
        ok ==> final(ret)@ == produced(result),
        !ok ==> *final(ret) == *old(ret),
{
    match result {
        Ok(bytes) => ret.store(bytes),
        Err(_) => false,
    }
}

} // verus!
