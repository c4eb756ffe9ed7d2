//! The checksum of a payload: the first four bytes of its double SHA-256
//! hash. The hash is computed by the `bitcoin_hashes` crate.

use vstd::prelude::*;

verus! {

/// The double SHA-256 hash of `data`: the SHA-256 hash of the SHA-256 hash
/// of the data, 32 bytes, as `bitcoin_hashes::sha256d` computes it.
pub uninterp spec fn sha256d(data: Seq<u8>) -> Seq<u8>;

/// The checksum of a payload: the first four bytes of its double hash.
pub open spec fn checksum(payload: Seq<u8>) -> Seq<u8> {
    Seq::new(4, |i: int| sha256d(payload)[i])
}

/// Calls `bitcoin_hashes::sha256d::Hash::hash` on the message and hands back
/// the 32 bytes of the hash. The result is taken to depend on the bytes of
/// the message alone; nothing else is claimed of it.
#[verifier::external_body]
fn double_sha256(message: &[u8]) -> (digest: [u8; 32])
    ensures
        digest@ == sha256d(message@),
{
    bitcoin_hashes::Hash::to_byte_array(
        <bitcoin_hashes::sha256d::Hash as bitcoin_hashes::Hash>::hash(message),
    )
}

/// The first four bytes of a digest.
pub fn checksum_of_digest(digest: &[u8; 32]) -> (sum: [u8; 4])
    ensures
        sum@ == digest@.subrange(0, 4),
{
    let sum = [digest[0], digest[1], digest[2], digest[3]];
    assert(sum@ =~= digest@.subrange(0, 4));
    sum
}

/// The checksum of a message: the first four bytes of its double SHA-256
/// hash.
pub fn calculate_message_hash(message: &[u8]) -> (sum: [u8; 4])
    ensures
        sum@ == checksum(message@),
{
    let digest = double_sha256(message);
    let sum = checksum_of_digest(&digest);
    assert(sum@ =~= checksum(message@));
    sum
}

} // verus!
