//! Merkle-root computation over an ordered transaction batch.
//!
//! Each transaction is hashed to a leaf; an odd batch duplicates its last
//! leaf; then the two front nodes are repeatedly concatenated as raw text,
//! hashed, and pushed to the back, until one root remains.

use vstd::prelude::*;

use crate::block::{hash_transaction, tx_hash, Transaction, TransactionModel};
use crate::error::LedgerError;
use crate::hashing::{hash_bytes, hash_hex_of};

verus! {

/// The leaf hashes of a batch, in batch order.
pub open spec fn leaf_hashes(txs: Seq<TransactionModel>) -> Seq<Seq<u8>> {
    txs.map_values(|t: TransactionModel| tx_hash(t))
}

/// An odd number of leaves is padded by duplicating the last one.
pub open spec fn merkle_pad(leaves: Seq<Seq<u8>>) -> Seq<Seq<u8>> {
    if leaves.len() % 2 == 1 {
        leaves.push(leaves.last())
    } else {
        leaves
    }
}

/// One reduction round: hash the concatenation of the two front nodes and
/// queue the result at the back, until a single node remains.
pub open spec fn merkle_reduce(nodes: Seq<Seq<u8>>) -> Seq<u8>
    decreases nodes.len(),
{
    if nodes.len() <= 1 {
        if nodes.len() == 1 {
            nodes[0]
        } else {
            Seq::empty()
        }
    } else {
        merkle_reduce(
            nodes.subrange(2, nodes.len() as int).push(hash_hex_of(nodes[0] + nodes[1])),
        )
    }
}

/// The Merkle root of a non-empty batch.
pub open spec fn merkle_root(txs: Seq<TransactionModel>) -> Seq<u8> {
    merkle_reduce(merkle_pad(leaf_hashes(txs)))
}

/// The byte-sequence values of a queue of hash nodes.
pub open spec fn node_views(nodes: Seq<Vec<u8>>) -> Seq<Seq<u8>> {
    nodes.map_values(|v: Vec<u8>| v@)
}

/// Computes the Merkle root of `transactions`; an empty batch is refused
/// rather than crashing.
pub fn merkle(transactions: &Vec<Transaction>) -> (r: Result<Vec<u8>, LedgerError>)
    ensures
        r is Ok <==> transactions@.len() > 0,
        r is Err ==> r->Err_0 == LedgerError::EmptyBatch,
        r is Ok ==> r->Ok_0@ == merkle_root(transactions@.map_values(|t: Transaction| t@)),
        r is Ok ==> r->Ok_0@.len() == 64,
{
    let ghost txms = transactions@.map_values(|t: Transaction| t@);
    if transactions.len() == 0 {
        return Err(LedgerError::EmptyBatch);
    }
    let mut nodes: Vec<Vec<u8>> = Vec::new();
    let mut i: usize = 0;
    while i < transactions.len()
        invariant
            i <= transactions@.len(),
            txms == transactions@.map_values(|t: Transaction| t@),
            nodes@.len() == i,
            forall|j: int| 0 <= j < i ==> (#[trigger] nodes@[j])@ == tx_hash(txms[j]),
            forall|j: int| 0 <= j < i ==> (#[trigger] nodes@[j])@.len() == 64,
        decreases transactions@.len() - i,
    {
        let h = hash_transaction(&transactions[i]);
        nodes.push(h);
        i = i + 1;
    }
    proof {
        assert(node_views(nodes@) =~= leaf_hashes(txms));
    }
    if nodes.len() % 2 == 1 {
        let mut dup: Vec<u8> = Vec::new();
        crate::block::push_bytes(&mut dup, &nodes[nodes.len() - 1]);
        nodes.push(dup);
        proof {
            assert(node_views(nodes@) =~= merkle_pad(leaf_hashes(txms)));
        }
    }
    let ghost padded = merkle_pad(leaf_hashes(txms));
    proof {
        assert(node_views(nodes@) =~= padded);
    }
    while nodes.len() > 1
        invariant
            nodes@.len() >= 1,
            merkle_reduce(node_views(nodes@)) == merkle_reduce(padded),
            forall|j: int| 0 <= j < nodes@.len() ==> (#[trigger] nodes@[j])@.len() == 64,
        decreases nodes@.len(),
    {
        let ghost pre = node_views(nodes@);
        let first = nodes.remove(0);
        let second = nodes.remove(0);
        let mut cat = first;
        let mut tail = second;
        cat.append(&mut tail);
        let h = hash_bytes(&cat);
        nodes.push(h);
        proof {
            assert(node_views(nodes@) =~= pre.subrange(2, pre.len() as int).push(
                hash_hex_of(pre[0] + pre[1]),
            ));
            assert(merkle_reduce(pre) == merkle_reduce(node_views(nodes@)));
        }
    }
    proof {
        assert(node_views(nodes@) =~= seq![nodes@[0]@]);
        assert(merkle_reduce(seq![nodes@[0]@]) == nodes@[0]@);
    }
    let root = nodes.remove(0);
    Ok(root)
}

/// Odd-count duplication law: the Merkle root of a single-transaction
/// batch is the hash of the transaction's leaf concatenated with itself.
pub proof fn lemma_merkle_singleton(t: TransactionModel)
    ensures
        merkle_root(seq![t]) == hash_hex_of(tx_hash(t) + tx_hash(t)),
{
    let leaves = leaf_hashes(seq![t]);
    assert(leaves =~= seq![tx_hash(t)]);
    let padded = merkle_pad(leaves);
    assert(padded =~= seq![tx_hash(t), tx_hash(t)]);
    let h = hash_hex_of(padded[0] + padded[1]);
    assert(padded.subrange(2, padded.len() as int).push(h) =~= seq![h]);
    assert(merkle_reduce(seq![h]) == h);
    assert(merkle_reduce(padded) == h);
}

} // verus!
