//! The digest that links one challenge to the next.

use blake2::Digest;
use vstd::prelude::*;

verus! {

/// The BLAKE2b digest of `data` with an output of 512 bits.
pub uninterp spec fn blake2b_512(data: Seq<u8>) -> Seq<u8>;

/// The length of a digest in bytes.
pub const HASH_LEN: usize = 64;

/// `blake2::Blake2b512::digest`: hashes the whole of `data` in one call and
/// returns the 64 bytes of the digest. The digest depends on the bytes of
/// `data` alone.
#[verifier::external_body]
fn blake2b_digest(data: &[u8]) -> (digest: Vec<u8>)
    ensures
        digest@ == blake2b_512(data@),
        digest@.len() == HASH_LEN,
{
    blake2::Blake2b512::digest(data).to_vec()
}

/// The digest of a challenge or a contribution.
pub fn calculate_hash(input: &[u8]) -> (digest: Vec<u8>)
    ensures
        digest@ == blake2b_512(input@),
        digest@.len() == HASH_LEN,
{
    blake2b_digest(input)
}

} // verus!
