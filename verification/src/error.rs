//! The ledger's failure modes. Failures are reported as typed results and
//! never leave partial state behind: a block that cannot be completed is
//! never appended.

use vstd::prelude::*;

verus! {

/// Why a ledger operation could not produce a block.
#[derive(Clone, Copy, PartialEq, Eq, Debug)]
pub enum LedgerError {
    /// A Merkle root was requested for a batch with no transactions.
    EmptyBatch,
    /// The proof-of-work search cannot finish: the difficulty target is
    /// zero or larger than the digest, so no header can ever satisfy it,
    /// or every nonce was tried without success.
    NonTerminatingSearch,
}

} // verus!
