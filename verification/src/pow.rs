//! The proof-of-work search: vary a header's nonce until the first
//! `difficulty` characters of the header's hex digest are all `'0'`.
//!
//! The search is bounded by the nonce space. A difficulty of zero, or one
//! larger than the digest, can never be satisfied; callers refuse such
//! targets up front instead of looping forever.

use vstd::prelude::*;

use crate::block::{hash_header, header_hash, Blockheader, HeaderModel};
use crate::hashing::has_zero_prefix;

verus! {

/// The same header with another nonce.
pub open spec fn with_nonce(h: HeaderModel, n: u32) -> HeaderModel {
    HeaderModel { nonce: n, ..h }
}

/// A header satisfies its difficulty target when the first `difficulty`
/// bytes of its hex digest are the character `'0'`.
pub open spec fn meets_difficulty(h: HeaderModel) -> bool {
    has_zero_prefix(header_hash(h), h.difficulty as nat)
}

/// Whether the first `d` bytes of `digest` are all the character `'0'`.
fn prefix_is_zero(digest: &Vec<u8>, d: usize) -> (r: bool)
    requires
        d <= digest@.len(),
    ensures
        r == has_zero_prefix(digest@, d as nat),
{
    let mut i: usize = 0;
    while i < d
        invariant
            i <= d,
            d <= digest@.len(),
            forall|j: int| 0 <= j < i ==> digest@[j] == 48u8,
        decreases d - i,
    {
        if digest[i] != 48 {
            return false;
        }
        i = i + 1;
    }
    true
}

/// Searches nonces upward from the header's current nonce, one at a time,
/// for one whose digest satisfies the difficulty target, writing it into
/// the header.
///
/// Returns `true` with the least satisfying nonce in place — every nonce
/// below it, from the starting one, fails the target — or `false` after
/// the whole remaining nonce space failed; in either case only the nonce
/// changes.
pub fn proof_of_work(header: &mut Blockheader) -> (found: bool)
    requires
        1 <= old(header)@.difficulty <= 64,
    ensures
        final(header)@ == with_nonce(old(header)@, final(header)@.nonce),
        final(header)@.nonce >= old(header)@.nonce,
        found ==> meets_difficulty(final(header)@),
        found ==> forall|n: u32|
            old(header)@.nonce <= n < final(header)@.nonce ==> !meets_difficulty(
                with_nonce(old(header)@, n),
            ),
        !found ==> forall|n: u32|
            old(header)@.nonce <= n ==> !meets_difficulty(with_nonce(old(header)@, n)),
{
    let ghost h0 = header@;
    loop
        invariant
            1 <= header@.difficulty <= 64,
            header@ == with_nonce(h0, header@.nonce),
            header@.nonce >= h0.nonce,
            h0 == old(header)@,
            forall|n: u32|
                h0.nonce <= n < header@.nonce ==> !meets_difficulty(with_nonce(h0, n)),
        decreases u32::MAX - header.nonce,
    {
        let digest = hash_header(header);
        let d = header.difficulty as usize;
        if prefix_is_zero(&digest, d) {
            return true;
        }
        proof {
            assert(!meets_difficulty(with_nonce(h0, header@.nonce)));
        }
        if header.nonce == u32::MAX {
            return false;
        }
        header.nonce = header.nonce + 1;
    }
}

} // verus!
