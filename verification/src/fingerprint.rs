//! Content fingerprint: a deterministic digest of the compressed image
//! bytes, used solely for equality testing between successive clipboard
//! reads.

use vstd::prelude::*;

verus! {

/// The 128-bit digest of a byte sequence, determined by the bytes alone.
pub uninterp spec fn md5_of(bytes: Seq<u8>) -> u128;

/// Relies on `md5::compute`: a 16-byte digest that is a function of the
/// input bytes alone, in every process and on every machine.  The digest
/// bytes are carried over into a `u128` one for one, big-endian.
#[verifier::external_body]
fn md5_digest(bytes: &Vec<u8>) -> (r: u128)
    ensures
        r == md5_of(bytes@),
{
    u128::from_be_bytes(md5::compute(bytes.as_slice()).0)
}

/// Digest of the compressed image bytes.  Deterministic: equal byte
/// sequences always give equal fingerprints.
pub fn fingerprint(bytes: &Vec<u8>) -> (r: u128)
    ensures
        r == md5_of(bytes@),
{
    md5_digest(bytes)
}

} // verus!
