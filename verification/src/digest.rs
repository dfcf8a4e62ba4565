//! The two outside calls that hashing rests on: the SHA-256 digest and
//! its hex rendering.

use vstd::prelude::*;
use crate::encoding::hex_of;

verus! {

/// The SHA-256 digest of a byte sequence. The algorithm itself is not
/// written out here: the digest is a function of the input bytes alone,
/// and that is all the library's contracts need.
pub uninterp spec fn sha256_of(bytes: Seq<u8>) -> Seq<u8>;

/// Relies on sha2::Sha256 (through digest::Digest::digest): the digest
/// depends on the input bytes alone and is 32 bytes long.
#[verifier::external_body]
fn sha256_digest(bytes: &[u8]) -> (r: Vec<u8>)
    ensures
        r@ == sha256_of(bytes@),
        r@.len() == 32,
{
    <sha2::Sha256 as sha2::Digest>::digest(bytes).to_vec()
}

/// Relies on hex::encode: each byte becomes two lower-case hex digits,
/// high nibble first.
#[verifier::external_body]
fn hex_encode(bytes: &[u8]) -> (r: String)
    ensures
        r@ == hex_of(bytes@),
{
    hex::encode(bytes)
}

/// Hex-rendered SHA-256 digest of a byte sequence.
pub open spec fn digest_of(bytes: Seq<u8>) -> Seq<char> {
    hex_of(sha256_of(bytes))
}

/// Computes the hex-rendered SHA-256 digest of the given bytes.
pub fn digest(bytes: &Vec<u8>) -> (r: String)
    ensures
        r@ == digest_of(bytes@),
        r@.len() == 64,
{
    let d = sha256_digest(bytes.as_slice());
    let r = hex_encode(d.as_slice());
    proof {
        crate::encoding::lemma_hex_of_len(sha256_of(bytes@));
    }
    r
}

} // verus!
