//! The 384-bit cryptographic hash primitive used to extend measurement
//! registers, taken on trust from the sha2 crate and otherwise left abstract.

use vstd::prelude::*;

verus! {

/// The SHA-384 digest of a byte sequence. The value is left abstract: the
/// verifier relies on the sha2 crate to compute it and states nothing of it
/// beyond what the wrapper below ensures.
pub uninterp spec fn sha384_of(data: Seq<u8>) -> Seq<u8>;

/// Relies on sha2::Sha384 through the Digest trait: the digest is a function
/// of the input bytes alone, and a SHA-384 digest is exactly 48 bytes.
#[verifier::external_body]
pub(crate) fn sha384(data: &[u8]) -> (r: Vec<u8>)
    ensures
        r@ == sha384_of(data@),
        r@.len() == 48,
{
    <sha2::Sha384 as sha2::Digest>::digest(data).to_vec()
}

} // verus!
