use blockchain::block::{encode_transaction, hash_header, hash_transaction, Transaction};
use blockchain::blockchain::Chain;
use blockchain::error::LedgerError;
use blockchain::hashing::{genesis_hash, hash_bytes};
use blockchain::merkle::merkle;

fn tx(sender: &str, receiver: &str, amount: u64) -> Transaction {
    Transaction { sender: sender.to_string(), receiver: receiver.to_string(), amount }
}

#[test]
fn test_new_transaction_added_to_pending() {
    let mut chain = Chain::new("vasya".to_string(), 4);
    chain.new_transaction("vasya".to_string(), "marina".to_string(), 98);
    assert_eq!(chain.pending.len(), 1);
}

#[test]
fn test_proof_of_work() {
    let mut chain = Chain::new("vasya".to_string(), 3);
    chain.new_transaction("vasya".to_string(), "marina".to_string(), 98);
    chain.mine().unwrap();
    let last_block = chain.chain.pop().unwrap();
    let header = last_block.header;
    let hashed = hash_header(&header);
    let hash_first_symbols = &hashed[..header.difficulty as usize];
    assert_eq!("000".as_bytes(), hash_first_symbols)
}

#[test]
fn test_prev_hash() {
    let mut chain = Chain::new("vasya".to_string(), 3);
    chain.mine().unwrap();
    chain.new_transaction("vasya".to_string(), "marina".to_string(), 98);
    chain.mine().unwrap();
    let last_block = chain.chain.pop().unwrap();
    let last_block_hash = chain.last_block_hash();
    assert_eq!(last_block_hash, last_block.header.prev_hash);
}

#[test]
fn test_genesis_block_reward_only() {
    let mut chain = Chain::new("alice".to_string(), 1);
    chain.mine().unwrap();
    assert_eq!(chain.chain.len(), 1);
    let block = &chain.chain[0];
    assert_eq!(block.count, 1);
    assert_eq!(block.transactions.len(), 1);
    assert_eq!(block.transactions[0].sender, "Root");
    assert_eq!(block.transactions[0].receiver, "alice");
    assert_eq!(block.transactions[0].amount, 100);
    assert_eq!(block.header.prev_hash, vec![b'0'; 64]);
    let hashed = hash_header(&block.header);
    assert_eq!(hashed[0], b'0');
}

#[test]
fn test_second_block_links_to_first() {
    let mut chain = Chain::new("alice".to_string(), 1);
    chain.mine().unwrap();
    let first_header_hash = hash_header(&chain.chain[0].header);
    chain.new_transaction("bob".to_string(), "carol".to_string(), 10);
    chain.mine().unwrap();
    assert_eq!(chain.chain.len(), 2);
    let block = &chain.chain[1];
    assert_eq!(block.count, 2);
    assert_eq!(block.transactions[1].sender, "bob");
    assert_eq!(block.transactions[1].receiver, "carol");
    assert_eq!(block.transactions[1].amount, 10);
    assert_eq!(block.header.prev_hash, first_header_hash);
    assert_eq!(chain.pending.len(), 0);
}

#[test]
fn test_submit_does_not_touch_chain_and_mine_drains() {
    let mut chain = Chain::new("alice".to_string(), 1);
    chain.mine().unwrap();
    let before = chain.pending.len();
    let ok = chain.new_transaction("bob".to_string(), "carol".to_string(), 7);
    assert!(ok);
    assert_eq!(chain.pending.len(), before + 1);
    assert_eq!(chain.chain.len(), 1);
    chain.mine().unwrap();
    assert_eq!(chain.pending.len(), 0);
}

#[test]
fn test_zero_difficulty_is_detected() {
    let mut chain = Chain::new("alice".to_string(), 0);
    chain.new_transaction("bob".to_string(), "carol".to_string(), 7);
    let r = chain.mine();
    assert_eq!(r, Err(LedgerError::NonTerminatingSearch));
    assert_eq!(chain.chain.len(), 0);
    assert_eq!(chain.pending.len(), 1);
}

#[test]
fn test_oversized_difficulty_is_detected() {
    let mut chain = Chain::new("alice".to_string(), 65);
    let r = chain.mine();
    assert_eq!(r, Err(LedgerError::NonTerminatingSearch));
    assert_eq!(chain.chain.len(), 0);
}

#[test]
fn test_empty_batch_is_refused() {
    let batch: Vec<Transaction> = Vec::new();
    assert_eq!(merkle(&batch), Err(LedgerError::EmptyBatch));
}

#[test]
fn test_hashing_is_deterministic() {
    let a = hash_transaction(&tx("bob", "carol", 10));
    let b = hash_transaction(&tx("bob", "carol", 10));
    assert_eq!(a, b);
    let c = hash_transaction(&tx("bob", "carol", 11));
    assert_ne!(a, c);
}

#[test]
fn test_hash_of_empty_input() {
    // The well-known SHA-256 digest of the empty byte string.
    let out = hash_bytes(&Vec::new());
    assert_eq!(
        out,
        "e3b0c44298fc1c149afbf4c8996fb92427ae41e4649b934ca495991b7852b855".as_bytes().to_vec()
    );
}

#[test]
fn test_canonical_transaction_encoding() {
    let out = encode_transaction(&tx("ab", "c", 5));
    let expected: Vec<u8> = vec![
        b'T',
        2, 0, 0, 0, 0, 0, 0, 0,
        b'a', b'b',
        1, 0, 0, 0, 0, 0, 0, 0,
        b'c',
        5, 0, 0, 0, 0, 0, 0, 0,
    ];
    assert_eq!(out, expected);
}

#[test]
fn test_merkle_single_transaction_duplicates_leaf() {
    let t = tx("bob", "carol", 10);
    let leaf = hash_transaction(&t);
    let mut cat = leaf.clone();
    cat.extend_from_slice(&leaf);
    let expected = hash_bytes(&cat);
    assert_eq!(merkle(&vec![t]).unwrap(), expected);
}

#[test]
fn test_merkle_three_transactions() {
    let batch = vec![tx("a", "b", 1), tx("c", "d", 2), tx("e", "f", 3)];
    let l0 = hash_transaction(&batch[0]);
    let l1 = hash_transaction(&batch[1]);
    let l2 = hash_transaction(&batch[2]);
    let pair = |x: &Vec<u8>, y: &Vec<u8>| {
        let mut cat = x.clone();
        cat.extend_from_slice(y);
        hash_bytes(&cat)
    };
    let h01 = pair(&l0, &l1);
    let h22 = pair(&l2, &l2);
    let expected = pair(&h01, &h22);
    assert_eq!(merkle(&batch).unwrap(), expected);
}

#[test]
fn test_last_block_hash_of_empty_chain_is_genesis() {
    let chain = Chain::new("alice".to_string(), 2);
    assert_eq!(chain.last_block_hash(), genesis_hash());
    assert_eq!(genesis_hash(), vec![b'0'; 64]);
}
