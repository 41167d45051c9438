use stake_ledger::client::Client;
use stake_ledger::commands::Command;
use stake_ledger::peer::Peer;

use ursa::signatures::ed25519::Ed25519Sha512;
use ursa::signatures::SignatureScheme;

fn client() -> (Client, Vec<u8>) {
    let (pk, sk) = Ed25519Sha512::new().keypair(None).unwrap();
    let pk_bytes = pk.0.clone();
    let text = pk.to_string();
    (Client::new(pk_bytes.clone(), text, sk.0.clone()), pk_bytes)
}

#[test]
fn client_blocks_are_single_signed_transactions() {
    let (client, pk_bytes) = client();
    let block = client.create_account().unwrap();
    assert_eq!(block.data.len(), 1);
    assert!(block.previous_block_hash.is_none());
    assert_eq!(block.signer_public_key, pk_bytes);
    match &block.data[0].command {
        Command::CreateAccount { public_key } => {
            assert_eq!(*public_key, client.public_key_text);
        },
        other => panic!("unexpected command: {:?}", other),
    }
}

#[test]
fn client_block_validates_at_a_trusting_peer() {
    let (client, pk_bytes) = client();
    let block = client
        .transfer_funds(1, 2, 5, "token".to_string())
        .unwrap();
    let trusting = Peer::new(1, 50, vec![pk_bytes.clone()]);
    assert!(trusting.is_valid_block(&block));
    let untrusting = Peer::new(2, 50, vec![]);
    assert!(!untrusting.is_valid_block(&block));
}

#[test]
fn client_builders_carry_their_commands() {
    let (client, _) = client();
    let block = client.add_funds(7, 30, "token".to_string()).unwrap();
    assert!(matches!(
        &block.data[0].command,
        Command::AddFunds { account_id: 7, value: 30, .. }
    ));
    let block = client.issue_asset(7, "gold".to_string(), 2).unwrap();
    assert!(matches!(
        &block.data[0].command,
        Command::IssueAsset { account_id: 7, value: 2, .. }
    ));
    let block = client.transfer_asset(1, 2, "gold".to_string()).unwrap();
    assert!(matches!(
        &block.data[0].command,
        Command::TransferAsset { from_account_id: 1, to_account_id: 2, .. }
    ));
    let block = client
        .redeem_asset(1, "points".to_string(), 4, "currency".to_string())
        .unwrap();
    assert!(matches!(
        &block.data[0].command,
        Command::RedeemAsset { account_id: 1, value: 4, .. }
    ));
    let block = client
        .release_asset(1, "points".to_string(), 4, "currency".to_string())
        .unwrap();
    assert!(matches!(
        &block.data[0].command,
        Command::RedeemAsset { account_id: 1, value: 4, .. }
    ));
    let block = client.transaction_commission(1, 9).unwrap();
    assert!(matches!(
        &block.data[0].command,
        Command::TransactionCommission { account_id: 1, value: 9 }
    ));
    let block = client
        .update_account(3, Some("Ada".to_string()), None)
        .unwrap();
    assert!(matches!(
        &block.data[0].command,
        Command::UpdateAccount { account_id: 3, .. }
    ));
}

#[test]
fn malformed_private_key_fails_to_sign() {
    let client = Client::new(vec![1, 2, 3], "key".to_string(), vec![0; 3]);
    let err = client.create_account().unwrap_err();
    assert!(matches!(err, stake_ledger::client::ClientError::CreateAccount(_)));
}
