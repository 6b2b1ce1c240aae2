//! Transactions, block headers and blocks, with their canonical byte
//! encodings.
//!
//! Hashing a value means hashing its canonical encoding: a fixed field
//! order, a leading tag byte per entity kind, length-prefixed strings and
//! fixed-width little-endian integers. The encoding is total, so every
//! value of these types can be hashed.

use vstd::prelude::*;
use vstd::string::StrSliceExecFns;

use crate::hashing::{hash_bytes, hash_hex_of};

verus! {

/// A transfer of some amount between two identities, immutable once
/// created. Amounts are whole currency units held as integers, so no
/// precision is lost when they are summed or encoded.
#[derive(Debug)]
pub struct Transaction {
    pub sender: String,
    pub receiver: String,
    pub amount: u64,
}

/// The mathematical value of a [`Transaction`].
#[verifier::ext_equal]
pub struct TransactionModel {
    pub sender: Seq<char>,
    pub receiver: Seq<char>,
    pub amount: u64,
}

impl View for Transaction {
    type V = TransactionModel;

    open spec fn view(&self) -> TransactionModel {
        TransactionModel { sender: self.sender@, receiver: self.receiver@, amount: self.amount }
    }
}

impl Clone for Transaction {
    fn clone(&self) -> (t: Transaction)
        ensures
            t == *self,
    {
        Transaction {
            sender: self.sender.clone(),
            receiver: self.receiver.clone(),
            amount: self.amount,
        }
    }
}

/// The linking metadata of a block: everything the block hash covers.
/// `prev_hash` and `merkle` hold 64 bytes of ASCII hexadecimal; only the
/// nonce changes once mining has begun.
#[derive(Debug)]
pub struct Blockheader {
    pub timestamp: i64,
    pub nonce: u32,
    pub prev_hash: Vec<u8>,
    pub merkle: Vec<u8>,
    pub difficulty: u32,
}

/// The mathematical value of a [`Blockheader`].
#[verifier::ext_equal]
pub struct HeaderModel {
    pub timestamp: i64,
    pub nonce: u32,
    pub prev_hash: Seq<u8>,
    pub merkle: Seq<u8>,
    pub difficulty: u32,
}

impl View for Blockheader {
    type V = HeaderModel;

    open spec fn view(&self) -> HeaderModel {
        HeaderModel {
            timestamp: self.timestamp,
            nonce: self.nonce,
            prev_hash: self.prev_hash@,
            merkle: self.merkle@,
            difficulty: self.difficulty,
        }
    }
}

/// A sealed batch of transactions together with its header. Immutable once
/// appended to the ledger.
#[derive(Debug)]
pub struct Block {
    pub header: Blockheader,
    pub count: u32,
    pub transactions: Vec<Transaction>,
}

/// The mathematical value of a [`Block`].
#[verifier::ext_equal]
pub struct BlockModel {
    pub header: HeaderModel,
    pub count: u32,
    pub transactions: Seq<TransactionModel>,
}

impl View for Block {
    type V = BlockModel;

    open spec fn view(&self) -> BlockModel {
        BlockModel {
            header: self.header@,
            count: self.count,
            transactions: self.transactions@.map_values(|t: Transaction| t@),
        }
    }
}

/// The eight little-endian bytes of a 64-bit integer.
pub open spec fn u64_le_bytes(v: u64) -> Seq<u8> {
    seq![
        (v & 0xff) as u8,
        ((v >> 8) & 0xff) as u8,
        ((v >> 16) & 0xff) as u8,
        ((v >> 24) & 0xff) as u8,
        ((v >> 32) & 0xff) as u8,
        ((v >> 40) & 0xff) as u8,
        ((v >> 48) & 0xff) as u8,
        ((v >> 56) & 0xff) as u8,
    ]
}

/// The UTF-8 bytes of a string value.
pub open spec fn string_bytes(s: Seq<char>) -> Seq<u8> {
    vstd::utf8::encode_utf8(s)
}

/// A length-prefixed string field: the byte length, then the bytes.
pub open spec fn string_field_bytes(s: Seq<char>) -> Seq<u8> {
    u64_le_bytes(string_bytes(s).len() as u64) + string_bytes(s)
}

/// The canonical encoding of a transaction. The leading tag byte keeps
/// transaction and header encodings apart.
pub open spec fn tx_bytes(t: TransactionModel) -> Seq<u8> {
    seq![84u8] + string_field_bytes(t.sender) + string_field_bytes(t.receiver) + u64_le_bytes(
        t.amount,
    )
}

/// The hash of a transaction: the digest of its canonical encoding.
pub open spec fn tx_hash(t: TransactionModel) -> Seq<u8> {
    hash_hex_of(tx_bytes(t))
}

/// The canonical encoding of a block header.
pub open spec fn header_bytes(h: HeaderModel) -> Seq<u8> {
    seq![72u8] + u64_le_bytes(h.timestamp as u64) + u64_le_bytes(h.nonce as u64) + u64_le_bytes(
        h.prev_hash.len() as u64,
    ) + h.prev_hash + u64_le_bytes(h.merkle.len() as u64) + h.merkle + u64_le_bytes(
        h.difficulty as u64,
    )
}

/// The hash of a block header: the digest of its canonical encoding.
pub open spec fn header_hash(h: HeaderModel) -> Seq<u8> {
    hash_hex_of(header_bytes(h))
}

/// Appends the eight little-endian bytes of `v`.
fn push_u64_le(out: &mut Vec<u8>, v: u64)
    ensures
        final(out)@ == old(out)@ + u64_le_bytes(v),
{
    out.push((v & 0xff) as u8);
    out.push(((v >> 8) & 0xff) as u8);
    out.push(((v >> 16) & 0xff) as u8);
    out.push(((v >> 24) & 0xff) as u8);
    out.push(((v >> 32) & 0xff) as u8);
    out.push(((v >> 40) & 0xff) as u8);
    out.push(((v >> 48) & 0xff) as u8);
    out.push(((v >> 56) & 0xff) as u8);
    proof {
        assert(out@ =~= old(out)@ + u64_le_bytes(v));
    }
}

/// Appends a copy of `src`.
pub fn push_bytes(out: &mut Vec<u8>, src: &Vec<u8>)
    ensures
        final(out)@ == old(out)@ + src@,
{
    let mut i: usize = 0;
    while i < src.len()
        invariant
            i <= src@.len(),
            out@ == old(out)@ + src@.subrange(0, i as int),
        decreases src@.len() - i,
    {
        out.push(src[i]);
        proof {
            assert(old(out)@ + src@.subrange(0, i as int) + seq![src@[i as int]] =~= old(out)@
                + src@.subrange(0, i + 1));
        }
        i = i + 1;
    }
    proof {
        assert(src@.subrange(0, src@.len() as int) =~= src@);
    }
}

/// Appends a length-prefixed string field.
fn push_string_field(out: &mut Vec<u8>, s: &String)
    ensures
        final(out)@ == old(out)@ + string_field_bytes(s@),
{
    let mut bytes = s.as_str().as_bytes_vec();
    let n: usize = bytes.len();
    push_u64_le(out, n as u64);
    out.append(&mut bytes);
}

/// The canonical encoding of a transaction, as bytes.
pub fn encode_transaction(t: &Transaction) -> (out: Vec<u8>)
    ensures
        out@ == tx_bytes(t@),
{
    let mut out: Vec<u8> = Vec::new();
    out.push(84);
    push_string_field(&mut out, &t.sender);
    push_string_field(&mut out, &t.receiver);
    push_u64_le(&mut out, t.amount);
    proof {
        assert(out@ =~= tx_bytes(t@));
    }
    out
}

/// The canonical encoding of a block header, as bytes.
pub fn encode_header(h: &Blockheader) -> (out: Vec<u8>)
    ensures
        out@ == header_bytes(h@),
{
    let mut out: Vec<u8> = Vec::new();
    out.push(72);
    push_u64_le(&mut out, h.timestamp as u64);
    push_u64_le(&mut out, h.nonce as u64);
    push_u64_le(&mut out, h.prev_hash.len() as u64);
    push_bytes(&mut out, &h.prev_hash);
    push_u64_le(&mut out, h.merkle.len() as u64);
    push_bytes(&mut out, &h.merkle);
    push_u64_le(&mut out, h.difficulty as u64);
    proof {
        assert(out@ =~= header_bytes(h@));
    }
    out
}

/// Hashes a transaction: 64 bytes of ASCII hexadecimal.
pub fn hash_transaction(t: &Transaction) -> (out: Vec<u8>)
    ensures
        out@ == tx_hash(t@),
        out@.len() == 64,
{
    let encoded = encode_transaction(t);
    hash_bytes(&encoded)
}

/// Hashes a block header: 64 bytes of ASCII hexadecimal.
pub fn hash_header(h: &Blockheader) -> (out: Vec<u8>)
    ensures
        out@ == header_hash(h@),
        out@.len() == 64,
{
    let encoded = encode_header(h);
    hash_bytes(&encoded)
}

/// Determinism of the transaction hash: structurally identical
/// transactions have identical hashes.
pub proof fn lemma_tx_hash_deterministic(a: TransactionModel, b: TransactionModel)
    requires
        a == b,
    ensures
        tx_hash(a) == tx_hash(b),
{
}

} // verus!
