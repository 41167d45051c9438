use stake_ledger::commands::{Asset, BlockchainError, Command, Params};
use stake_ledger::ledger::{Accounts, Assets};

fn fresh_state() -> (Accounts, Assets) {
    (Accounts::new(), Assets::new())
}

fn add_funds(assets: &mut Assets, accounts: &mut Accounts, account_id: u32, value: i32, asset_id: &str) {
    let cmd = Command::AddFunds { account_id, value, asset_id: asset_id.to_string() };
    cmd.execute(accounts, assets).unwrap();
}

#[test]
fn create_account_assigns_dense_ids() {
    let (mut accounts, mut assets) = fresh_state();
    let cmd = Command::CreateAccount { public_key: "key-one".to_string() };
    cmd.execute(&mut accounts, &mut assets).unwrap();
    let cmd = Command::CreateAccount { public_key: "key-two".to_string() };
    cmd.execute(&mut accounts, &mut assets).unwrap();
    assert_eq!(accounts.len(), 2);
    let first = accounts.get(1).unwrap();
    assert_eq!(first.public_key, "key-one");
    assert_eq!(first.balance, 0);
    assert!(first.name.is_none());
    assert!(first.contact_info.is_none());
    let second = accounts.get(2).unwrap();
    assert_eq!(second.public_key, "key-two");
}

#[test]
fn add_funds_overwrites_record() {
    let (mut accounts, mut assets) = fresh_state();
    add_funds(&mut assets, &mut accounts, 1, 10, "token");
    add_funds(&mut assets, &mut accounts, 1, 3, "token");
    let a = assets.get(1, "token").unwrap();
    assert_eq!(a.value, 3);
    assert_eq!(a.owner_id, 0);
}

#[test]
fn transfer_conserves_total() {
    let (mut accounts, mut assets) = fresh_state();
    add_funds(&mut assets, &mut accounts, 1, 10, "token");
    add_funds(&mut assets, &mut accounts, 2, 5, "token");
    let cmd = Command::TransferFunds {
        from_account_id: 1,
        to_account_id: 2,
        value: 4,
        asset_id: "token".to_string(),
    };
    cmd.execute(&mut accounts, &mut assets).unwrap();
    let a = assets.get(1, "token").unwrap();
    let b = assets.get(2, "token").unwrap();
    assert_eq!(a.value, 6);
    assert_eq!(b.value, 9);
    assert_eq!(a.value + b.value, 15);
}

#[test]
fn transfer_insufficient_balance_changes_nothing() {
    let (mut accounts, mut assets) = fresh_state();
    add_funds(&mut assets, &mut accounts, 1, 10, "token");
    add_funds(&mut assets, &mut accounts, 2, 5, "token");
    let cmd = Command::TransferFunds {
        from_account_id: 1,
        to_account_id: 2,
        value: 11,
        asset_id: "token".to_string(),
    };
    let err = cmd.execute(&mut accounts, &mut assets).unwrap_err();
    assert!(matches!(err, BlockchainError::InsufficientBalance));
    assert_eq!(assets.get(1, "token").unwrap().value, 10);
    assert_eq!(assets.get(2, "token").unwrap().value, 5);
}

#[test]
fn transfer_missing_source_is_asset_not_found() {
    let (mut accounts, mut assets) = fresh_state();
    let cmd = Command::TransferFunds {
        from_account_id: 1,
        to_account_id: 2,
        value: 1,
        asset_id: "token".to_string(),
    };
    let err = cmd.execute(&mut accounts, &mut assets).unwrap_err();
    assert!(matches!(err, BlockchainError::AssetNotFound));
}

#[test]
fn transfer_missing_target_keeps_debit() {
    let (mut accounts, mut assets) = fresh_state();
    add_funds(&mut assets, &mut accounts, 1, 10, "token");
    let cmd = Command::TransferFunds {
        from_account_id: 1,
        to_account_id: 2,
        value: 4,
        asset_id: "token".to_string(),
    };
    let err = cmd.execute(&mut accounts, &mut assets).unwrap_err();
    assert!(matches!(err, BlockchainError::AssetNotFound));
    // The debit happened before the target lookup and is kept.
    assert_eq!(assets.get(1, "token").unwrap().value, 6);
}

#[test]
fn update_account_overwrites_only_given_fields() {
    let (mut accounts, mut assets) = fresh_state();
    let cmd = Command::CreateAccount { public_key: "key".to_string() };
    cmd.execute(&mut accounts, &mut assets).unwrap();
    let cmd = Command::UpdateAccount {
        account_id: 1,
        name: Some("Ada".to_string()),
        contact_info: None,
    };
    cmd.execute(&mut accounts, &mut assets).unwrap();
    let acct = accounts.get(1).unwrap();
    assert_eq!(acct.name.as_deref(), Some("Ada"));
    assert!(acct.contact_info.is_none());
    let cmd = Command::UpdateAccount {
        account_id: 1,
        name: None,
        contact_info: Some("ada@example.com".to_string()),
    };
    cmd.execute(&mut accounts, &mut assets).unwrap();
    let acct = accounts.get(1).unwrap();
    assert_eq!(acct.name.as_deref(), Some("Ada"));
    assert_eq!(acct.contact_info.as_deref(), Some("ada@example.com"));
}

#[test]
fn update_missing_account_is_account_not_found() {
    let (mut accounts, mut assets) = fresh_state();
    let cmd = Command::UpdateAccount { account_id: 7, name: Some("x".to_string()), contact_info: None };
    let err = cmd.execute(&mut accounts, &mut assets).unwrap_err();
    assert!(matches!(err, BlockchainError::AccountNotFound));
}

#[test]
fn unknown_contract_is_rejected_without_mutation() {
    let (mut accounts, mut assets) = fresh_state();
    add_funds(&mut assets, &mut accounts, 1, 10, "token");
    let cmd = Command::ExecuteSmartContract {
        contract_id: "mint_tokens".to_string(),
        params: Params::new(),
        account_id: 1,
    };
    let err = cmd.execute(&mut accounts, &mut assets).unwrap_err();
    match err {
        BlockchainError::UnknownContract(name) => assert_eq!(name, "mint_tokens"),
        other => panic!("unexpected error: {:?}", other),
    }
    assert_eq!(assets.get(1, "token").unwrap().value, 10);
    assert_eq!(accounts.len(), 0);
}

#[test]
fn contract_with_empty_params_fails_to_parse() {
    let (mut accounts, mut assets) = fresh_state();
    add_funds(&mut assets, &mut accounts, 1, 10, "token");
    let cmd = Command::ExecuteSmartContract {
        contract_id: "transfer_funds".to_string(),
        params: Params::new(),
        account_id: 1,
    };
    let err = cmd.execute(&mut accounts, &mut assets).unwrap_err();
    assert!(matches!(err, BlockchainError::FailedToParseParameters));
    assert_eq!(assets.get(1, "token").unwrap().value, 10);
}

#[test]
fn contract_transfer_funds_dispatches() {
    let (mut accounts, mut assets) = fresh_state();
    add_funds(&mut assets, &mut accounts, 1, 10, "token");
    add_funds(&mut assets, &mut accounts, 2, 1, "token");
    let mut params = Params::new();
    params.push("to_account_id".to_string(), "2".to_string());
    params.push("value".to_string(), "+3".to_string());
    params.push("asset_id".to_string(), "token".to_string());
    let cmd = Command::ExecuteSmartContract {
        contract_id: "transfer_funds".to_string(),
        params,
        account_id: 1,
    };
    cmd.execute(&mut accounts, &mut assets).unwrap();
    assert_eq!(assets.get(1, "token").unwrap().value, 7);
    assert_eq!(assets.get(2, "token").unwrap().value, 4);
}

#[test]
fn contract_params_reject_bad_numbers() {
    let (mut accounts, mut assets) = fresh_state();
    add_funds(&mut assets, &mut accounts, 1, 10, "token");
    add_funds(&mut assets, &mut accounts, 2, 1, "token");
    for bad in ["3x", "", "99999999999999999999", "-1"] {
        let mut params = Params::new();
        params.push("to_account_id".to_string(), bad.to_string());
        params.push("value".to_string(), "1".to_string());
        params.push("asset_id".to_string(), "token".to_string());
        let cmd = Command::ExecuteSmartContract {
            contract_id: "transfer_funds".to_string(),
            params,
            account_id: 1,
        };
        let err = cmd.execute(&mut accounts, &mut assets).unwrap_err();
        assert!(matches!(err, BlockchainError::FailedToParseParameters));
    }
    // A negative transfer value parses: i32 parameters accept a sign.
    let mut params = Params::new();
    params.push("to_account_id".to_string(), "2".to_string());
    params.push("value".to_string(), "-1".to_string());
    params.push("asset_id".to_string(), "token".to_string());
    let cmd = Command::ExecuteSmartContract {
        contract_id: "transfer_funds".to_string(),
        params,
        account_id: 1,
    };
    cmd.execute(&mut accounts, &mut assets).unwrap();
    assert_eq!(assets.get(1, "token").unwrap().value, 11);
    assert_eq!(assets.get(2, "token").unwrap().value, 0);
}

#[test]
fn issue_asset_creates_then_increments() {
    let (mut accounts, mut assets) = fresh_state();
    let cmd = Command::IssueAsset { account_id: 3, asset_id: "gold".to_string(), value: 5 };
    cmd.execute(&mut accounts, &mut assets).unwrap();
    let a = assets.get(3, "gold").unwrap();
    assert_eq!(a.value, 5);
    assert_eq!(a.owner_id, 3);
    let cmd = Command::IssueAsset { account_id: 3, asset_id: "gold".to_string(), value: 2 };
    cmd.execute(&mut accounts, &mut assets).unwrap();
    assert_eq!(assets.get(3, "gold").unwrap().value, 7);
}

#[test]
fn transfer_asset_moves_ownership_only() {
    let (mut accounts, mut assets) = fresh_state();
    add_funds(&mut assets, &mut accounts, 1, 9, "gold");
    let cmd = Command::TransferAsset {
        from_account_id: 1,
        to_account_id: 2,
        asset_id: "gold".to_string(),
    };
    cmd.execute(&mut accounts, &mut assets).unwrap();
    // The record stays keyed under the old account; only the owner moves.
    let a = assets.get(1, "gold").unwrap();
    assert_eq!(a.owner_id, 2);
    assert_eq!(a.value, 9);
    assert!(assets.get(2, "gold").is_none());
}

#[test]
fn transfer_asset_missing_is_asset_not_found() {
    let (mut accounts, mut assets) = fresh_state();
    let cmd = Command::TransferAsset {
        from_account_id: 1,
        to_account_id: 2,
        asset_id: "gold".to_string(),
    };
    let err = cmd.execute(&mut accounts, &mut assets).unwrap_err();
    assert!(matches!(err, BlockchainError::AssetNotFound));
}

#[test]
fn redeem_asset_moves_value_between_asset_types() {
    let (mut accounts, mut assets) = fresh_state();
    add_funds(&mut assets, &mut accounts, 1, 10, "points");
    add_funds(&mut assets, &mut accounts, 1, 2, "currency");
    let cmd = Command::RedeemAsset {
        account_id: 1,
        asset_id: "points".to_string(),
        value: 4,
        redeem_in_asset_id: "currency".to_string(),
    };
    cmd.execute(&mut accounts, &mut assets).unwrap();
    assert_eq!(assets.get(1, "points").unwrap().value, 6);
    assert_eq!(assets.get(1, "currency").unwrap().value, 6);
}

#[test]
fn redeem_asset_insufficient_is_rejected() {
    let (mut accounts, mut assets) = fresh_state();
    add_funds(&mut assets, &mut accounts, 1, 3, "points");
    add_funds(&mut assets, &mut accounts, 1, 0, "currency");
    let cmd = Command::RedeemAsset {
        account_id: 1,
        asset_id: "points".to_string(),
        value: 4,
        redeem_in_asset_id: "currency".to_string(),
    };
    let err = cmd.execute(&mut accounts, &mut assets).unwrap_err();
    assert!(matches!(err, BlockchainError::InsufficientBalance));
    assert_eq!(assets.get(1, "points").unwrap().value, 3);
}

#[test]
fn transaction_commission_debits_currency() {
    let (mut accounts, mut assets) = fresh_state();
    add_funds(&mut assets, &mut accounts, 1, 10, "currency");
    let cmd = Command::TransactionCommission { account_id: 1, value: 4 };
    cmd.execute(&mut accounts, &mut assets).unwrap();
    assert_eq!(assets.get(1, "currency").unwrap().value, 6);
    let cmd = Command::TransactionCommission { account_id: 1, value: 7 };
    let err = cmd.execute(&mut accounts, &mut assets).unwrap_err();
    assert!(matches!(err, BlockchainError::InsufficientBalance));
    let cmd = Command::TransactionCommission { account_id: 2, value: 1 };
    let err = cmd.execute(&mut accounts, &mut assets).unwrap_err();
    assert!(matches!(err, BlockchainError::AssetNotFound));
}

#[test]
fn error_messages_match_their_variants() {
    assert_eq!(BlockchainError::AccountNotFound.message(), "account not found");
    assert_eq!(BlockchainError::AssetNotFound.message(), "asset not found");
    assert_eq!(BlockchainError::InsufficientBalance.message(), "insufficient balance");
    assert_eq!(
        BlockchainError::UnknownContract("mint".to_string()).message(),
        "unknown contract: mint"
    );
    assert_eq!(
        BlockchainError::FailedToParseParameters.message(),
        "parsing parameters for contract failed"
    );
}

#[test]
fn params_lookup_takes_latest_binding() {
    let mut params = Params::new();
    params.push("k".to_string(), "a".to_string());
    params.push("k".to_string(), "b".to_string());
    assert_eq!(params.get("k").map(|s| s.as_str()), Some("b"));
    assert!(params.get("missing").is_none());
}

#[test]
fn asset_records_are_plain_values() {
    let a = Asset { value: -3, owner_id: 9 };
    let b = a;
    assert_eq!(a, b);
}
