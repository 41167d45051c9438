use stake_ledger::commands::{Block, Command, Transaction};
use stake_ledger::crypto::encode_data;
use stake_ledger::peer::Peer;

use ursa::keys::PrivateKey;
use ursa::signatures::ed25519::Ed25519Sha512;
use ursa::signatures::SignatureScheme;

fn keypair() -> (Vec<u8>, Vec<u8>) {
    let (pk, sk) = Ed25519Sha512::new().keypair(None).unwrap();
    (pk.0.clone(), sk.0.clone())
}

fn signed_block(commands: Vec<Command>, pk: &[u8], sk: &[u8]) -> Block {
    let data: Vec<Transaction> =
        commands.into_iter().map(|command| Transaction { command }).collect();
    let bytes = encode_data(&data);
    let signature = Ed25519Sha512::new()
        .sign(&bytes, &PrivateKey(sk.to_vec()))
        .unwrap();
    Block { data, signature, signer_public_key: pk.to_vec(), previous_block_hash: None }
}

#[test]
fn test_create_peer() {
    let peer = Peer::new(1, 50, vec![]);
    assert_eq!(peer.id, 1);
    assert_eq!(peer.stake, 50);
    assert_eq!(peer.trusted_public_keys.len(), 0);
    assert!(peer.storage.blockchain.is_empty());
}

#[test]
fn test_create_block() {
    let peer = Peer::new(1, 50, vec![]);
    let block = peer.create_block();
    assert_eq!(block.data.len(), 1);
    assert!(!block.signature.is_empty());
    assert!(!block.signer_public_key.is_empty());
}

#[test]
fn test_should_propose_block() {
    let peer = Peer::new(1, 50, vec![]);
    assert!(peer.should_propose_block(100, vec![]));
}

#[test]
fn test_is_valid_block() {
    let (public_key, private_key) = Ed25519Sha512::new().keypair(None).unwrap();
    let data = vec![Transaction {
        command: Command::CreateAccount { public_key: String::from("test") },
    }];
    let bytes = encode_data(&data);
    let block = Block {
        signature: Ed25519Sha512::new().sign(&bytes, &private_key).unwrap(),
        data,
        signer_public_key: public_key.0.clone(),
        previous_block_hash: None,
    };
    let peer = Peer::new(1, 50, vec![public_key.0.clone()]);
    assert!(peer.is_valid_block(&block));
}

#[test]
fn block_signed_over_other_data_fails_validation() {
    let (pk, sk) = keypair();
    let mut block = signed_block(
        vec![Command::CreateAccount { public_key: "signed".to_string() }],
        &pk,
        &sk,
    );
    // Swap the transactions for others than the signature covers; the
    // signer stays trusted.
    block.data = vec![Transaction {
        command: Command::CreateAccount { public_key: "forged".to_string() },
    }];
    let peer = Peer::new(1, 50, vec![pk.clone()]);
    assert!(!peer.is_valid_block(&block));
}

#[test]
fn block_from_untrusted_signer_fails_validation() {
    let (pk, sk) = keypair();
    let block = signed_block(
        vec![Command::CreateAccount { public_key: "account".to_string() }],
        &pk,
        &sk,
    );
    let (other_pk, _) = keypair();
    let trusting_other = Peer::new(1, 50, vec![other_pk]);
    assert!(!trusting_other.is_valid_block(&block));
    let trusting_signer = Peer::new(1, 50, vec![pk]);
    assert!(trusting_signer.is_valid_block(&block));
}

#[test]
fn garbage_key_bytes_fail_verification() {
    let block = Block {
        data: vec![Transaction {
            command: Command::CreateAccount { public_key: "x".to_string() },
        }],
        signature: vec![0; 64],
        signer_public_key: vec![0xee; 7],
        previous_block_hash: None,
    };
    let peer = Peer::new(1, 50, vec![vec![0xee; 7]]);
    assert!(!peer.is_valid_block(&block));
}

#[test]
fn created_block_verifies_under_its_own_key() {
    let peer = Peer::new(4, 50, vec![]);
    let block = peer.create_block();
    assert_eq!(block.signature.len(), 64);
    // The block validates exactly where its ephemeral key is trusted:
    // a trust set fixed before the call rejects it.
    let trusting = Peer::new(5, 50, vec![block.signer_public_key.clone()]);
    assert!(trusting.is_valid_block(&block));
    let fixed = Peer::new(6, 50, vec![vec![1; 32]]);
    assert!(!fixed.is_valid_block(&block));
}

#[test]
fn proposal_rule_boundaries() {
    let peer = Peer::new(1, 50, vec![]);
    // An empty hash derives a zero draw: always propose.
    assert!(peer.should_propose_block(100, vec![]));
    // The maximum draw never proposes, not even for a full stake.
    let full = Peer::new(2, 100, vec![]);
    assert!(!full.should_propose_block(100, vec![0xff; 8]));
    assert!(!peer.should_propose_block(100, vec![0xff; 8]));
    // A draw at one half beats a stake fraction of one half: strict.
    let half_hash = vec![0x80, 0, 0, 0, 0, 0, 0, 0];
    assert!(!peer.should_propose_block(100, half_hash.clone()));
    // Shorter hashes are padded with zero bytes.
    assert!(peer.should_propose_block(100, vec![0x00, 0x01]));
}

#[test]
fn zero_stake_never_proposes() {
    let peer = Peer::new(3, 0, vec![]);
    assert!(!peer.should_propose_block(100, vec![]));
}

#[test]
fn round_on_empty_chain_proposes_and_appends() {
    let mut peer = Peer::new(1, 50, vec![]);
    let proposed = peer.run_round().unwrap();
    let block = proposed.expect("an empty chain derives a zero draw, so the peer proposes");
    assert_eq!(block.data.len(), 1);
    assert_eq!(peer.storage.blockchain.len(), 1);
    assert_eq!(peer.storage.accounts.len(), 1);
    let acct = peer.storage.accounts.get(1).unwrap();
    assert_eq!(acct.public_key, "peer1_key");
}

#[test]
fn three_peers_keep_only_their_own_blocks() {
    // Stakes 50, 40 and 25 over a fixed total of 100: on an empty
    // chain every fraction beats the zero draw, so all three propose.
    // Proposed blocks are signed with fresh per-block keypairs, so no
    // peer trusts another's broadcast and each chain stays at length
    // one.
    let mut a = Peer::new(1, 50, vec![]);
    let mut b = Peer::new(2, 40, vec![]);
    let mut c = Peer::new(3, 25, vec![]);
    let block_a = a.run_round().unwrap().expect("peer with stake 50 proposes");
    let block_b = b.run_round().unwrap().expect("peer with stake 40 proposes");
    let block_c = c.run_round().unwrap().expect("peer with stake 25 proposes");
    assert!(!a.receive_block(block_b.clone()).unwrap());
    assert!(!a.receive_block(block_c.clone()).unwrap());
    assert!(!b.receive_block(block_a.clone()).unwrap());
    assert!(!b.receive_block(block_c).unwrap());
    assert!(!c.receive_block(block_a).unwrap());
    assert!(!c.receive_block(block_b).unwrap());
    assert_eq!(a.storage.blockchain.len(), 1);
    assert_eq!(b.storage.blockchain.len(), 1);
    assert_eq!(c.storage.blockchain.len(), 1);
}

#[test]
fn trusted_peer_block_is_ingested() {
    let (pk, sk) = keypair();
    let mut peer = Peer::new(1, 50, vec![pk.clone()]);
    let block = signed_block(
        vec![Command::CreateAccount { public_key: "submitter".to_string() }],
        &pk,
        &sk,
    );
    assert!(peer.receive_block(block).unwrap());
    assert_eq!(peer.storage.blockchain.len(), 1);
    assert_eq!(peer.storage.accounts.len(), 1);
}

#[test]
fn failing_trusted_block_is_fatal() {
    let (pk, sk) = keypair();
    let mut peer = Peer::new(1, 50, vec![pk.clone()]);
    let block = signed_block(
        vec![Command::TransferFunds {
            from_account_id: 1,
            to_account_id: 2,
            value: 1,
            asset_id: "token".to_string(),
        }],
        &pk,
        &sk,
    );
    let err = peer.receive_block(block).unwrap_err();
    assert_eq!(
        err.message(),
        "Failed to start: Failed to add block: Failed to execute command: asset not found"
    );
    assert_eq!(peer.storage.blockchain.len(), 0);
}
