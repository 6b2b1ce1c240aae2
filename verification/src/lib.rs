//! An in-memory ledger of hash-linked blocks.
//!
//! The ledger keeps an append-only chain of blocks, each sealed by a
//! brute-force proof-of-work search and linked to its predecessor by a
//! cryptographic digest of the predecessor's header.

use vstd::prelude::*;

pub mod block;
pub mod blockchain;
pub mod clock;
pub mod error;
pub mod hashing;
pub mod merkle;
pub mod pow;

verus! {

} // verus!
