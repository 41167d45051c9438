//! The submitter's side: building each command as a signed
//! single-transaction block.  Sending the block to a peer is the
//! caller's business; every function here returns the block to send.

use vstd::prelude::*;
use crate::commands::{Block, Command, CommandV, Params, Transaction, clone_bytes};
use crate::crypto::{enc_data, encode_data};
use crate::sign::{ed25519_keypair_bytes, ed25519_sign, ed25519_signature_of};

verus! {

/// Error raised while building or handing off a transaction.
#[derive(Debug)]
pub enum ClientError {
    SignTransaction(String),
    SendTransaction(String),
    CreateAccount(String),
    TransferFunds(String),
    UpdateAccount(String),
    ExecuteSmartContract(String),
    ReleaseAsset(String),
    TransferAsset(String),
    RedeemAsset(String),
    AddFunds(String),
    IssueAsset(String),
    TransactionCommission(String),
}

/// The signed single-transaction block a well-formed submission is.
pub open spec fn spec_client_block(b: crate::commands::BlockV, c: CommandV, pk: Seq<u8>, sk: Seq<
    u8,
>) -> bool {
    &&& b.data == seq![c]
    &&& b.signature == ed25519_signature_of(enc_data(seq![c]), sk)
    &&& b.signer_public_key == pk
    &&& b.previous_block_hash is None
}

/// A submitter: its identity keypair, and the text form of its public
/// key that created accounts carry.
#[derive(Debug)]
pub struct Client {
    pub public_key: Vec<u8>,
    pub public_key_text: String,
    pub private_key: Vec<u8>,
}

impl Client {
    pub fn new(public_key: Vec<u8>, public_key_text: String, private_key: Vec<u8>) -> (r: Client)
        ensures
            r.public_key == public_key,
            r.public_key_text == public_key_text,
            r.private_key == private_key,
    {
        Client { public_key, public_key_text, private_key }
    }

    /// Wrap one transaction as a block and sign it with the client's
    /// key.  Fails only when the key bytes do not decode as a keypair.
    pub fn sign_transaction(&self, transaction: Transaction) -> (r: Result<Block, ClientError>)
        ensures
            match r {
                Ok(b) => spec_client_block(
                    b@,
                    transaction@,
                    self.public_key@,
                    self.private_key@,
                ),
                Err(e) => !ed25519_keypair_bytes(self.private_key@) && e matches
                    ClientError::SignTransaction(_),
            },
    {
        let ghost cmd = transaction@;
        let mut data: Vec<Transaction> = Vec::new();
        data.push(transaction);
        let ghost data_view = Seq::new(data@.len(), |i: int| data@[i]@);
        proof {
            assert(data_view =~= seq![cmd]);
        }
        let bytes = encode_data(&data);
        match ed25519_sign(&bytes, &self.private_key) {
            Some(signature) => {
                let b = Block {
                    signature,
                    data,
                    signer_public_key: clone_bytes(&self.public_key),
                    previous_block_hash: None,
                };
                proof {
                    assert(b@.data =~= seq![cmd]);
                }
                Ok(b)
            },
            None => Err(ClientError::SignTransaction("failed to sign transaction".to_owned())),
        }
    }

    /// The account-creation submission, carrying the client's public
    /// key in its text form.
    pub fn create_account(&self) -> (r: Result<Block, ClientError>)
        ensures
            match r {
                Ok(b) => spec_client_block(
                    b@,
                    CommandV::CreateAccount { public_key: self.public_key_text@ },
                    self.public_key@,
                    self.private_key@,
                ),
                Err(e) => !ed25519_keypair_bytes(self.private_key@) && e matches
                    ClientError::CreateAccount(_),
            },
    {
        let t = Transaction {
            command: Command::CreateAccount { public_key: self.public_key_text.clone() },
        };
        match self.sign_transaction(t) {
            Ok(b) => Ok(b),
            Err(_) => Err(ClientError::CreateAccount("create account".to_owned())),
        }
    }

    pub fn transfer_funds(
        &self,
        from_account_id: u32,
        to_account_id: u32,
        value: i32,
        asset_id: String,
    ) -> (r: Result<Block, ClientError>)
        ensures
            match r {
                Ok(b) => spec_client_block(
                    b@,
                    CommandV::TransferFunds {
                        from_account_id,
                        to_account_id,
                        value,
                        asset_id: asset_id@,
                    },
                    self.public_key@,
                    self.private_key@,
                ),
                Err(e) => !ed25519_keypair_bytes(self.private_key@) && e matches
                    ClientError::TransferFunds(_),
            },
    {
        let t = Transaction {
            command: Command::TransferFunds { from_account_id, to_account_id, value, asset_id },
        };
        match self.sign_transaction(t) {
            Ok(b) => Ok(b),
            Err(_) => Err(ClientError::TransferFunds("transfer funds".to_owned())),
        }
    }

    pub fn update_account(
        &self,
        account_id: u32,
        name: Option<String>,
        contact_info: Option<String>,
    ) -> (r: Result<Block, ClientError>)
        ensures
            match r {
                Ok(b) => spec_client_block(
                    b@,
                    CommandV::UpdateAccount {
                        account_id,
                        name: name.deep_view(),
                        contact_info: contact_info.deep_view(),
                    },
                    self.public_key@,
                    self.private_key@,
                ),
                Err(e) => !ed25519_keypair_bytes(self.private_key@) && e matches
                    ClientError::UpdateAccount(_),
            },
    {
        let t = Transaction { command: Command::UpdateAccount { account_id, name, contact_info } };
        match self.sign_transaction(t) {
            Ok(b) => Ok(b),
            Err(_) => Err(ClientError::UpdateAccount("update account".to_owned())),
        }
    }

    pub fn execute_smart_contract(
        &self,
        account_id: u32,
        contract_id: String,
        params: Params,
    ) -> (r: Result<Block, ClientError>)
        ensures
            match r {
                Ok(b) => spec_client_block(
                    b@,
                    CommandV::ExecuteSmartContract {
                        contract_id: contract_id@,
                        params: params@,
                        account_id,
                    },
                    self.public_key@,
                    self.private_key@,
                ),
                Err(e) => !ed25519_keypair_bytes(self.private_key@) && e matches
                    ClientError::ExecuteSmartContract(_),
            },
    {
        let t = Transaction {
            command: Command::ExecuteSmartContract { contract_id, params, account_id },
        };
        match self.sign_transaction(t) {
            Ok(b) => Ok(b),
            Err(_) => Err(ClientError::ExecuteSmartContract("execute smart contract".to_owned())),
        }
    }

    /// Submits a redeem command, as the release operation does.
    pub fn release_asset(
        &self,
        account_id: u32,
        asset_id: String,
        value: i32,
        redeem_in_asset_id: String,
    ) -> (r: Result<Block, ClientError>)
        ensures
            match r {
                Ok(b) => spec_client_block(
                    b@,
                    CommandV::RedeemAsset {
                        account_id,
                        asset_id: asset_id@,
                        value,
                        redeem_in_asset_id: redeem_in_asset_id@,
                    },
                    self.public_key@,
                    self.private_key@,
                ),
                Err(e) => !ed25519_keypair_bytes(self.private_key@) && e matches
                    ClientError::ReleaseAsset(_),
            },
    {
        let t = Transaction {
            command: Command::RedeemAsset { account_id, asset_id, value, redeem_in_asset_id },
        };
        match self.sign_transaction(t) {
            Ok(b) => Ok(b),
            Err(_) => Err(ClientError::ReleaseAsset("release asset".to_owned())),
        }
    }

    pub fn transfer_asset(
        &self,
        from_account_id: u32,
        to_account_id: u32,
        asset_id: String,
    ) -> (r: Result<Block, ClientError>)
        ensures
            match r {
                Ok(b) => spec_client_block(
                    b@,
                    CommandV::TransferAsset {
                        from_account_id,
                        to_account_id,
                        asset_id: asset_id@,
                    },
                    self.public_key@,
                    self.private_key@,
                ),
                Err(e) => !ed25519_keypair_bytes(self.private_key@) && e matches
                    ClientError::TransferAsset(_),
            },
    {
        let t = Transaction {
            command: Command::TransferAsset { from_account_id, to_account_id, asset_id },
        };
        match self.sign_transaction(t) {
            Ok(b) => Ok(b),
            Err(_) => Err(ClientError::TransferAsset("transfer asset".to_owned())),
        }
    }

    pub fn redeem_asset(
        &self,
        account_id: u32,
        asset_id: String,
        value: i32,
        redeem_in_asset_id: String,
    ) -> (r: Result<Block, ClientError>)
        ensures
            match r {
                Ok(b) => spec_client_block(
                    b@,
                    CommandV::RedeemAsset {
                        account_id,
                        asset_id: asset_id@,
                        value,
                        redeem_in_asset_id: redeem_in_asset_id@,
                    },
                    self.public_key@,
                    self.private_key@,
                ),
                Err(e) => !ed25519_keypair_bytes(self.private_key@) && e matches
                    ClientError::RedeemAsset(_),
            },
    {
        let t = Transaction {
            command: Command::RedeemAsset { account_id, asset_id, value, redeem_in_asset_id },
        };
        match self.sign_transaction(t) {
            Ok(b) => Ok(b),
            Err(_) => Err(ClientError::RedeemAsset("redeem asset".to_owned())),
        }
    }

    pub fn add_funds(&self, account_id: u32, value: i32, asset_id: String) -> (r: Result<
        Block,
        ClientError,
    >)
        ensures
            match r {
                Ok(b) => spec_client_block(
                    b@,
                    CommandV::AddFunds { account_id, value, asset_id: asset_id@ },
                    self.public_key@,
                    self.private_key@,
                ),
                Err(e) => !ed25519_keypair_bytes(self.private_key@) && e matches
                    ClientError::AddFunds(_),
            },
    {
        let t = Transaction { command: Command::AddFunds { account_id, value, asset_id } };
        match self.sign_transaction(t) {
            Ok(b) => Ok(b),
            Err(_) => Err(ClientError::AddFunds("add funds".to_owned())),
        }
    }

    pub fn issue_asset(&self, account_id: u32, asset_id: String, value: i32) -> (r: Result<
        Block,
        ClientError,
    >)
        ensures
            match r {
                Ok(b) => spec_client_block(
                    b@,
                    CommandV::IssueAsset { account_id, asset_id: asset_id@, value },
                    self.public_key@,
                    self.private_key@,
                ),
                Err(e) => !ed25519_keypair_bytes(self.private_key@) && e matches
                    ClientError::IssueAsset(_),
            },
    {
        let t = Transaction { command: Command::IssueAsset { account_id, asset_id, value } };
        match self.sign_transaction(t) {
            Ok(b) => Ok(b),
            Err(_) => Err(ClientError::IssueAsset("issue asset".to_owned())),
        }
    }

    pub fn transaction_commission(&self, account_id: u32, value: i32) -> (r: Result<
        Block,
        ClientError,
    >)
        ensures
            match r {
                Ok(b) => spec_client_block(
                    b@,
                    CommandV::TransactionCommission { account_id, value },
                    self.public_key@,
                    self.private_key@,
                ),
                Err(e) => !ed25519_keypair_bytes(self.private_key@) && e matches
                    ClientError::TransactionCommission(_),
            },
    {
        let t = Transaction { command: Command::TransactionCommission { account_id, value } };
        match self.sign_transaction(t) {
            Ok(b) => Ok(b),
            Err(_) => Err(ClientError::TransactionCommission("transaction commission".to_owned())),
        }
    }
}

} // verus!
