use stake_ledger::commands::{Block, Command, Transaction};
use stake_ledger::parse::{parse_i32, parse_u32};
use stake_ledger::crypto::hash;
use stake_ledger::storage::{Storage, StorageError};

fn transaction(command: Command) -> Transaction {
    Transaction { command }
}

fn unsigned_block(commands: Vec<Command>, previous_block_hash: Option<Vec<u8>>) -> Block {
    Block {
        data: commands.into_iter().map(transaction).collect(),
        signature: vec![1, 2, 3],
        signer_public_key: vec![4, 5, 6],
        previous_block_hash,
    }
}

#[test]
fn add_block_on_empty_chain_keeps_supplied_link() {
    let mut storage = Storage::new();
    let block = unsigned_block(
        vec![Command::CreateAccount { public_key: "key".to_string() }],
        Some(vec![9, 9, 9]),
    );
    storage.add_block(block).unwrap();
    assert_eq!(storage.blockchain.len(), 1);
    assert_eq!(storage.blockchain[0].previous_block_hash, Some(vec![9, 9, 9]));
    assert_eq!(storage.accounts.len(), 1);
}

#[test]
fn add_block_overwrites_link_with_tail_hash() {
    let mut storage = Storage::new();
    let first = unsigned_block(
        vec![Command::CreateAccount { public_key: "one".to_string() }],
        None,
    );
    storage.add_block(first).unwrap();
    let second = unsigned_block(
        vec![Command::CreateAccount { public_key: "two".to_string() }],
        Some(vec![7, 7]),
    );
    storage.add_block(second).unwrap();
    assert_eq!(storage.blockchain.len(), 2);
    let expected = hash(&storage.blockchain[0]);
    assert_eq!(storage.blockchain[1].previous_block_hash, Some(expected));
}

#[test]
fn failed_block_is_rejected_but_partial_effects_remain() {
    let mut storage = Storage::new();
    let block = unsigned_block(
        vec![
            Command::AddFunds { account_id: 1, value: 10, asset_id: "token".to_string() },
            Command::TransferFunds {
                from_account_id: 1,
                to_account_id: 2,
                value: 4,
                asset_id: "token".to_string(),
            },
            Command::AddFunds { account_id: 3, value: 1, asset_id: "token".to_string() },
        ],
        None,
    );
    let err = storage.add_block(block).unwrap_err();
    let StorageError::CommandExecutionError(text) = err;
    assert_eq!(text, "asset not found");
    // The block was rejected, but the first command's insert and the
    // failing transfer's debit both remain.
    assert_eq!(storage.blockchain.len(), 0);
    assert_eq!(storage.assets.get(1, "token").unwrap().value, 6);
    assert!(storage.assets.get(3, "token").is_none());
}

#[test]
fn storage_error_message_wraps_command_error() {
    let err = StorageError::CommandExecutionError("insufficient balance".to_string());
    assert_eq!(err.message(), "Failed to execute command: insufficient balance");
}

#[test]
fn hash_is_a_short_digest_and_content_sensitive() {
    let a = unsigned_block(vec![Command::CreateAccount { public_key: "a".to_string() }], None);
    let b = unsigned_block(vec![Command::CreateAccount { public_key: "b".to_string() }], None);
    let ha = hash(&a);
    assert_eq!(ha.len(), 32);
    assert_eq!(hash(&a), ha);
    assert_ne!(hash(&b), ha);
}

#[test]
fn parse_matches_std_integer_parsing() {
    assert_eq!(parse_u32("0"), Some(0));
    assert_eq!(parse_u32("+42"), Some(42));
    assert_eq!(parse_u32("4294967295"), Some(u32::MAX));
    assert_eq!(parse_u32("4294967296"), None);
    assert_eq!(parse_u32(""), None);
    assert_eq!(parse_u32("+"), None);
    assert_eq!(parse_u32("-1"), None);
    assert_eq!(parse_u32("12a"), None);
    assert_eq!(parse_i32("2147483647"), Some(i32::MAX));
    assert_eq!(parse_i32("2147483648"), None);
    assert_eq!(parse_i32("-2147483648"), Some(i32::MIN));
    assert_eq!(parse_i32("-2147483649"), None);
    assert_eq!(parse_i32("-0"), Some(0));
    assert_eq!(parse_i32("+7"), Some(7));
    assert_eq!(parse_i32("--1"), None);
    for s in ["0", "+42", "4294967295", "4294967296", "", "+", "-1", "12a", " 3"] {
        assert_eq!(parse_u32(s), s.parse::<u32>().ok(), "u32 case {:?}", s);
    }
    for s in ["2147483647", "2147483648", "-2147483648", "-2147483649", "-0", "+7", "--1"] {
        assert_eq!(parse_i32(s), s.parse::<i32>().ok(), "i32 case {:?}", s);
    }
}
