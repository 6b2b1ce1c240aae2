//! The canonical digest primitive: SHA-256 over bytes, presented as
//! lowercase ASCII hexadecimal.
//!
//! Every hash in the ledger is the 64-byte ASCII-hex rendering of a 256-bit
//! digest. Because the digest is modelled as a pure function of the input
//! bytes, hashing is deterministic by construction.

use sha2::Digest;
use vstd::prelude::*;

verus! {

/// The 256-bit digest of a byte sequence, as sha2 computes it.
pub uninterp spec fn sha256_of(input: Seq<u8>) -> Seq<u8>;

/// The ASCII code of the lowercase hexadecimal digit for a value below 16.
pub open spec fn hex_digit(v: u8) -> u8 {
    if v < 10 {
        (48 + v) as u8
    } else {
        (87 + v) as u8
    }
}

/// The lowercase ASCII-hex rendering of a byte sequence: two digits per
/// byte, high nibble first.
pub open spec fn hex_bytes_of(bytes: Seq<u8>) -> Seq<u8> {
    Seq::new(2 * bytes.len(), |i: int|
        if i % 2 == 0 {
            hex_digit(bytes[i / 2] / 16)
        } else {
            hex_digit(bytes[i / 2] % 16)
        }
    )
}

/// The ledger's hash of a byte sequence: the SHA-256 digest, hex-encoded.
pub open spec fn hash_hex_of(input: Seq<u8>) -> Seq<u8> {
    hex_bytes_of(sha256_of(input))
}

/// Relies on sha2's `Sha256::digest`: the digest is a function of the input
/// bytes alone and is 32 bytes long.
#[verifier::external_body]
fn sha256(input: &[u8]) -> (digest: Vec<u8>)
    ensures
        digest@ == sha256_of(input@),
        digest@.len() == 32,
{
    sha2::Sha256::digest(input).to_vec()
}

/// Relies on hex's `encode`: two lowercase hexadecimal digits per input
/// byte, high nibble first.
#[verifier::external_body]
fn hex_lower(bytes: &[u8]) -> (out: Vec<u8>)
    ensures
        out@ == hex_bytes_of(bytes@),
{
    hex::encode(bytes).into_bytes()
}

/// Hashes a byte sequence to its 64-character ASCII-hex digest.
pub fn hash_bytes(input: &Vec<u8>) -> (out: Vec<u8>)
    ensures
        out@ == hash_hex_of(input@),
        out@.len() == 64,
{
    let digest = sha256(input.as_slice());
    hex_lower(digest.as_slice())
}

/// Whether the first `d` bytes of `digest` are all the ASCII character
/// `'0'`.
pub open spec fn has_zero_prefix(digest: Seq<u8>, d: nat) -> bool {
    forall|i: int| 0 <= i < d ==> digest[i] == 48u8
}

/// The genesis sentinel: the 64 ASCII `'0'` characters that stand in for
/// the hash of the (nonexistent) block before the first.
pub open spec fn genesis_sentinel() -> Seq<u8> {
    Seq::new(64, |i: int| 48u8)
}

/// Builds the genesis sentinel.
pub fn genesis_hash() -> (out: Vec<u8>)
    ensures
        out@ == genesis_sentinel(),
{
    let mut out: Vec<u8> = Vec::new();
    let mut i: usize = 0;
    while i < 64
        invariant
            i <= 64,
            out@.len() == i,
            forall|j: int| 0 <= j < i ==> out@[j] == 48u8,
        decreases 64 - i,
    {
        out.push(48);
        i = i + 1;
    }
    proof {
        assert(out@ =~= genesis_sentinel());
    }
    out
}

/// Hashing is deterministic: structurally identical inputs have identical
/// digests, because the digest is a pure function of the input bytes.
pub proof fn lemma_hash_deterministic(a: Seq<u8>, b: Seq<u8>)
    requires
        a == b,
    ensures
        hash_hex_of(a) == hash_hex_of(b),
{
}

} // verus!
