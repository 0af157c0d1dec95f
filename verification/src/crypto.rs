//! The content digest attached to minted records.

use vstd::prelude::*;

verus! {

/// The SHA-256 digest of a byte string.  The digest is a pure function
/// of the input bytes; nothing further is assumed about its value.
pub uninterp spec fn sha256_of(data: Seq<u8>) -> Seq<u8>;

/// Relies on sha2::Sha256 (through the Digest trait): the digest
/// depends on the input bytes alone and is exactly 32 bytes long.
#[verifier::external_body]
pub(crate) fn sha256_bytes(data: &Vec<u8>) -> (r: Vec<u8>)
    ensures
        r@ == sha256_of(data@),
        r@.len() == 32,
{
    let digest = <sha2::Sha256 as sha2::Digest>::digest(data.as_slice());
    digest.to_vec()
}

} // verus!
