//! The ledger itself: an append-only chain of mined blocks and a pool of
//! pending transactions.
//!
//! Mining consumes the whole pending pool, prefixed by one reward
//! transaction, into exactly one new block whose header links to the
//! previous block's hash and satisfies the proof-of-work target. Errors
//! leave the ledger untouched: no partially built block is ever appended.

use vstd::prelude::*;

use crate::block::{
    header_hash, Block, BlockModel, Blockheader, HeaderModel, Transaction, TransactionModel,
};
use crate::error::LedgerError;
use crate::hashing::{genesis_hash, genesis_sentinel, has_zero_prefix};
use crate::merkle::{merkle, merkle_root};
use crate::pow::{meets_difficulty, proof_of_work, with_nonce};

verus! {

/// The fixed amount credited to the miner in every mined block.
pub const REWARD: u64 = 100;

/// The identity that reward transactions are drawn from.
pub const REWARD_SENDER: &'static str = "Root";

/// The ledger: the chain of mined blocks, the pending pool, and the mining
/// parameters fixed at construction.
#[derive(Debug)]
pub struct Chain {
    pub chain: Vec<Block>,
    pub pending: Vec<Transaction>,
    pub difficulty: u32,
    pub miner_addr: String,
    pub reward: u64,
}

/// The mathematical value of a [`Chain`].
#[verifier::ext_equal]
pub struct ChainModel {
    pub chain: Seq<BlockModel>,
    pub pending: Seq<TransactionModel>,
    pub difficulty: u32,
    pub miner_addr: Seq<char>,
    pub reward: u64,
}

impl View for Chain {
    type V = ChainModel;

    open spec fn view(&self) -> ChainModel {
        ChainModel {
            chain: self.chain@.map_values(|b: Block| b@),
            pending: self.pending@.map_values(|t: Transaction| t@),
            difficulty: self.difficulty,
            miner_addr: self.miner_addr@,
            reward: self.reward,
        }
    }
}

/// The reward transaction that opens every mined batch.
pub open spec fn reward_transaction(c: ChainModel) -> TransactionModel {
    TransactionModel { sender: REWARD_SENDER@, receiver: c.miner_addr, amount: c.reward }
}

/// The batch a mining step seals: the reward transaction, then the pending
/// pool in submission order.
pub open spec fn batch_of(c: ChainModel) -> Seq<TransactionModel> {
    seq![reward_transaction(c)] + c.pending
}

/// The hash the next block links to: the last block header's hash, or the
/// genesis sentinel for an empty chain.
pub open spec fn last_hash(chain: Seq<BlockModel>) -> Seq<u8> {
    if chain.len() == 0 {
        genesis_sentinel()
    } else {
        header_hash(chain.last().header)
    }
}

/// The header a mining step at time `ts` starts searching from.
pub open spec fn header_for(c: ChainModel, ts: i64) -> HeaderModel {
    HeaderModel {
        timestamp: ts,
        nonce: 0,
        prev_hash: last_hash(c.chain),
        merkle: merkle_root(batch_of(c)),
        difficulty: c.difficulty,
    }
}

/// Whether a mining step at time `ts` can succeed: the difficulty target
/// is satisfiable and some nonce satisfies it.
pub open spec fn minable(c: ChainModel, ts: i64) -> bool {
    &&& 1 <= c.difficulty <= 64
    &&& exists|n: u32| meets_difficulty(with_nonce(header_for(c, ts), n))
}

/// A well-formed block: its count matches its batch, the batch is never
/// empty, its Merkle root summarizes the batch, and its header satisfies
/// its difficulty target.
pub open spec fn block_wf(b: BlockModel) -> bool {
    &&& b.count as nat == b.transactions.len()
    &&& b.transactions.len() >= 1
    &&& b.header.merkle == merkle_root(b.transactions)
    &&& 1 <= b.header.difficulty <= 64
    &&& meets_difficulty(b.header)
}

/// Hash-chain integrity: the first block links to the genesis sentinel and
/// every later block links to the hash of its predecessor's header.
pub open spec fn chain_linked(chain: Seq<BlockModel>) -> bool {
    forall|i: int|
        0 <= i < chain.len() ==> (#[trigger] chain[i]).header.prev_hash == (if i == 0 {
            genesis_sentinel()
        } else {
            header_hash(chain[i - 1].header)
        })
}

/// One successful mining step from `pre` to `post` at time `ts`, appending
/// the block `b`. The block's nonce is the least satisfying one: the
/// search starts at zero and tries each nonce in turn.
pub open spec fn mined_next(pre: ChainModel, post: ChainModel, ts: i64, b: BlockModel) -> bool {
    &&& post.chain == pre.chain.push(b)
    &&& b.transactions == batch_of(pre)
    &&& b.count as nat == batch_of(pre).len()
    &&& b.header == with_nonce(header_for(pre, ts), b.header.nonce)
    &&& meets_difficulty(b.header)
    &&& forall|n: u32|
        n < b.header.nonce ==> !meets_difficulty(with_nonce(header_for(pre, ts), n))
    &&& post.pending == Seq::<TransactionModel>::empty()
    &&& post.difficulty == pre.difficulty
    &&& post.miner_addr == pre.miner_addr
    &&& post.reward == pre.reward
}

impl Chain {
    /// A well-formed ledger: every block is well formed, carries the
    /// ledger's difficulty, and the chain is hash-linked throughout.
    pub open spec fn wf(self) -> bool {
        &&& chain_linked(self@.chain)
        &&& forall|i: int| 0 <= i < self@.chain.len() ==> block_wf(#[trigger] self@.chain[i])
        &&& forall|i: int|
            0 <= i < self@.chain.len() ==> (#[trigger] self@.chain[i]).header.difficulty
                == self@.difficulty
    }

    /// A fresh ledger: empty chain, empty pool, the given miner identity
    /// and difficulty target, and the fixed reward.
    pub fn new(miner_addr: String, difficulty: u32) -> (c: Chain)
        ensures
            c@.chain == Seq::<BlockModel>::empty(),
            c@.pending == Seq::<TransactionModel>::empty(),
            c@.difficulty == difficulty,
            c@.miner_addr == miner_addr@,
            c@.reward == REWARD,
            c.wf(),
    {
        let c = Chain {
            chain: Vec::new(),
            pending: Vec::new(),
            difficulty,
            miner_addr,
            reward: REWARD,
        };
        proof {
            assert(c@.chain =~= Seq::<BlockModel>::empty());
            assert(c@.pending =~= Seq::<TransactionModel>::empty());
        }
        c
    }

    /// Appends a transaction to the pending pool; always succeeds and
    /// leaves the chain untouched.
    pub fn new_transaction(&mut self, sender: String, receiver: String, amount: u64) -> (ok: bool)
        ensures
            ok,
            final(self)@.pending == old(self)@.pending.push(
                TransactionModel { sender: sender@, receiver: receiver@, amount },
            ),
            final(self)@.chain == old(self)@.chain,
            final(self)@.difficulty == old(self)@.difficulty,
            final(self)@.miner_addr == old(self)@.miner_addr,
            final(self)@.reward == old(self)@.reward,
            old(self).wf() ==> final(self).wf(),
    {
        let ghost s = sender@;
        let ghost r = receiver@;
        self.pending.push(Transaction { sender, receiver, amount });
        proof {
            assert(self@.pending =~= old(self)@.pending.push(
                TransactionModel { sender: s, receiver: r, amount },
            ));
            assert(self@.chain =~= old(self)@.chain);
        }
        true
    }

    /// The hash the next block will link to: the last block header's hash,
    /// or the genesis sentinel while the chain is empty.
    pub fn last_block_hash(&self) -> (out: Vec<u8>)
        ensures
            out@ == last_hash(self@.chain),
            out@.len() == 64,
    {
        if self.chain.len() > 0 {
            let b = &self.chain[self.chain.len() - 1];
            let h = crate::block::hash_header(&b.header);
            proof {
                assert(self@.chain.last() == self@.chain[self@.chain.len() - 1]);
            }
            h
        } else {
            genesis_hash()
        }
    }

    /// Mines one block at the given timestamp: seals the reward
    /// transaction and the whole pending pool into a new block, links it
    /// to the previous block's hash, and appends it.
    ///
    /// Fails, leaving the ledger unchanged, exactly when no nonce can
    /// satisfy the target: the difficulty is zero (the prefix condition is
    /// vacuous yet the literal search never finishes), larger than the
    /// digest, or the whole nonce space was exhausted.
    #[verifier::rlimit(60)]
    pub fn mine_at(&mut self, timestamp: i64) -> (r: Result<(), LedgerError>)
        requires
            old(self).wf(),
            old(self)@.pending.len() < u32::MAX,
        ensures
            final(self).wf(),
            r is Ok <==> minable(old(self)@, timestamp),
            r is Err ==> final(self)@ == old(self)@ && r->Err_0
                == LedgerError::NonTerminatingSearch,
            r is Ok ==> mined_next(
                old(self)@,
                final(self)@,
                timestamp,
                final(self)@.chain.last(),
            ),
    {
        let d = self.difficulty;
        if d == 0 || d > 64 {
            return Err(LedgerError::NonTerminatingSearch);
        }
        let reward_tx = Transaction {
            sender: REWARD_SENDER.to_owned(),
            receiver: self.miner_addr.clone(),
            amount: self.reward,
        };
        let mut batch: Vec<Transaction> = Vec::new();
        batch.push(reward_tx);
        let mut i: usize = 0;
        while i < self.pending.len()
            invariant
                i <= self.pending@.len(),
                batch@.len() == i + 1,
                batch@[0]@ == reward_transaction(old(self)@),
                self == old(self),
                forall|j: int| 1 <= j < i + 1 ==> (#[trigger] batch@[j])@ == self@.pending[j - 1],
            decreases self.pending@.len() - i,
        {
            let t = self.pending[i].clone();
            batch.push(t);
            i = i + 1;
        }
        proof {
            assert(batch@.map_values(|t: Transaction| t@) =~= batch_of(old(self)@));
        }
        // The batch opens with the reward transaction, so it is never
        // empty and the Merkle computation cannot be refused.
        let root = match merkle(&batch) {
            Ok(root) => root,
            Err(e) => {
                proof {
                    assert(false);
                }
                return Err(e);
            },
        };
        let prev = self.last_block_hash();
        let mut header = Blockheader {
            timestamp,
            nonce: 0,
            prev_hash: prev,
            merkle: root,
            difficulty: d,
        };
        proof {
            assert(header@ =~= header_for(old(self)@, timestamp));
        }
        let found = proof_of_work(&mut header);
        if !found {
            proof {
                assert(!minable(old(self)@, timestamp));
            }
            return Err(LedgerError::NonTerminatingSearch);
        }
        let count = batch.len() as u32;
        let block = Block { header, count, transactions: batch };
        self.chain.push(block);
        self.pending.clear();
        proof {
            let pre = old(self)@;
            let post = self@;
            let b = post.chain.last();
            assert(post.chain =~= pre.chain.push(b));
            assert(post.pending =~= Seq::<TransactionModel>::empty());
            assert(b.header == with_nonce(header_for(pre, timestamp), b.header.nonce));
            assert(forall|n: u32|
                n < b.header.nonce ==> !meets_difficulty(
                    with_nonce(header_for(pre, timestamp), n),
                ));
            assert(minable(pre, timestamp));
            assert(mined_next(pre, post, timestamp, b));
            assert forall|i2: int| 0 <= i2 < post.chain.len() implies block_wf(
                #[trigger] post.chain[i2],
            ) by {
                if i2 < pre.chain.len() {
                    assert(block_wf(pre.chain[i2]));
                }
            }
            assert(chain_linked(post.chain)) by {
                assert forall|i2: int|
                    0 <= i2 < post.chain.len() implies (#[trigger] post.chain[i2]).header.prev_hash
                    == (if i2 == 0 {
                    genesis_sentinel()
                } else {
                    header_hash(post.chain[i2 - 1].header)
                }) by {
                    if i2 < pre.chain.len() {
                        assert(pre.chain[i2] == post.chain[i2]);
                    }
                }
            }
        }
        Ok(())
    }

    /// Mines one block now: reads the clock and runs [`Chain::mine_at`].
    /// Whatever the clock read, a success appends exactly one well-formed,
    /// correctly linked block and drains the pending pool; a failure
    /// leaves the ledger unchanged. An unsatisfiable difficulty target is
    /// always reported as a failure.
    pub fn mine(&mut self) -> (r: Result<(), LedgerError>)
        requires
            old(self).wf(),
            old(self)@.pending.len() < u32::MAX,
        ensures
            final(self).wf(),
            old(self)@.difficulty == 0 || old(self)@.difficulty > 64 ==> r is Err,
            r is Err ==> final(self)@ == old(self)@ && r->Err_0
                == LedgerError::NonTerminatingSearch,
            r is Ok ==> exists|ts: i64|
                mined_next(old(self)@, final(self)@, ts, final(self)@.chain.last()),
    {
        let ts = crate::clock::now_millis();
        let r = self.mine_at(ts);
        proof {
            if r is Ok {
                assert(mined_next(old(self)@, self@, ts, self@.chain.last()));
            }
        }
        r
    }
}

/// Proof-of-work law: in a well-formed ledger every block's header hash
/// carries at least its difficulty target of leading `'0'` characters, and
/// that target is the ledger's own, at least one.
pub proof fn lemma_block_mined(c: &Chain, i: int)
    requires
        c.wf(),
        0 <= i < c@.chain.len(),
    ensures
        c@.chain[i].header.difficulty == c@.difficulty,
        1 <= c@.chain[i].header.difficulty <= 64,
        has_zero_prefix(
            header_hash(c@.chain[i].header),
            c@.chain[i].header.difficulty as nat,
        ),
{
    assert(block_wf(c@.chain[i]));
}

/// Hash-chain law: in a well-formed, non-empty ledger the first block
/// links to the genesis sentinel, and every later block links to the hash
/// of its predecessor's header.
pub proof fn lemma_chain_linked(c: &Chain, i: int)
    requires
        c.wf(),
        0 <= i < c@.chain.len(),
    ensures
        i == 0 ==> c@.chain[i].header.prev_hash == genesis_sentinel(),
        i >= 1 ==> c@.chain[i].header.prev_hash == header_hash(c@.chain[i - 1].header),
{
    assert(c@.chain[i].header.prev_hash == (if i == 0 {
        genesis_sentinel()
    } else {
        header_hash(c@.chain[i - 1].header)
    }));
}

} // verus!
