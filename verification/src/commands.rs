//! The ledger's data model: accounts, assets, transactions and the
//! closed set of commands, together with their mathematical views.

use vstd::prelude::*;

verus! {

/// An account record.  The `balance` field is part of the record but is
/// never mutated by any command: all value movement happens through
/// asset records.
#[derive(Debug)]
pub struct Account {
    pub public_key: String,
    pub name: Option<String>,
    pub contact_info: Option<String>,
    pub balance: u32,
}

/// Mathematical view of an [`Account`].
pub ghost struct AccountV {
    pub public_key: Seq<char>,
    pub name: Option<Seq<char>>,
    pub contact_info: Option<Seq<char>>,
    pub balance: u32,
}

impl View for Account {
    type V = AccountV;

    open spec fn view(&self) -> AccountV {
        AccountV {
            public_key: self.public_key@,
            name: self.name.deep_view(),
            contact_info: self.contact_info.deep_view(),
            balance: self.balance,
        }
    }
}

/// An asset record, keyed elsewhere by the pair
/// (owning-context account identifier, asset-type identifier).
/// "Ownership" is the `owner_id` field on the record, not the key.
#[derive(Debug, Clone, Copy, PartialEq, Eq, Structural)]
pub struct Asset {
    pub value: i32,
    pub owner_id: u32,
}

/// A transaction wraps exactly one command.
#[derive(Debug)]
pub struct Transaction {
    pub command: Command,
}

impl View for Transaction {
    type V = CommandV;

    open spec fn view(&self) -> CommandV {
        self.command@
    }
}

/// String-keyed parameter list for smart-contract calls.  Lookup takes
/// the last entry whose key matches, so a repeated `push` of one key
/// overwrites its binding, as a map insert would.
#[derive(Debug)]
pub struct Params {
    pub entries: Vec<(String, String)>,
}

impl View for Params {
    type V = Seq<(Seq<char>, Seq<char>)>;

    open spec fn view(&self) -> Seq<(Seq<char>, Seq<char>)> {
        Seq::new(self.entries@.len(), |i: int| (self.entries@[i].0@, self.entries@[i].1@))
    }
}

/// Last entry whose key is `key`, if any.
pub open spec fn param_get(entries: Seq<(Seq<char>, Seq<char>)>, key: Seq<char>) -> Option<
    Seq<char>,
>
    decreases entries.len(),
{
    if entries.len() == 0 {
        None
    } else if entries.last().0 == key {
        Some(entries.last().1)
    } else {
        param_get(entries.drop_last(), key)
    }
}

impl Params {
    pub fn new() -> (r: Params)
        ensures
            r@ == Seq::<(Seq<char>, Seq<char>)>::empty(),
    {
        Params { entries: Vec::new() }
    }

    /// Append a binding; the latest binding for a key wins on lookup.
    pub fn push(&mut self, key: String, value: String)
        ensures
            final(self)@ == old(self)@.push((key@, value@)),
    {
        let ghost old_view = self@;
        self.entries.push((key, value));
        proof {
            assert(self@ =~= old_view.push((self.entries@.last().0@, self.entries@.last().1@)));
        }
    }

    /// Look the key up, returning a reference to its latest binding.
    pub fn get(&self, key: &str) -> (r: Option<&String>)
        ensures
            match r {
                Some(v) => param_get(self@, key@) == Some(v@),
                None => param_get(self@, key@) is None,
            },
    {
        proof {
            assert(self@.take(self.entries@.len() as int) =~= self@);
        }
        let mut i: usize = self.entries.len();
        while i > 0
            invariant
                i <= self.entries.len(),
                param_get(self@, key@) == param_get(self@.take(i as int), key@),
            decreases i,
        {
            i -= 1;
            let hit = crate::parse::str_eq(self.entries[i].0.as_str(), key);
            proof {
                assert(self@.take(i as int + 1).last() == self@[i as int]);
                assert(self@[i as int] == (self.entries@[i as int].0@, self.entries@[i as int].1@));
                assert(self@.take(i as int + 1).drop_last() =~= self@.take(i as int));
            }
            if hit {
                return Some(&self.entries[i].1);
            }
        }
        proof {
            assert(self@.take(0).len() == 0);
        }
        None
    }
}

/// The closed set of ledger commands.
#[derive(Debug)]
pub enum Command {
    CreateAccount { public_key: String },
    AddFunds { account_id: u32, value: i32, asset_id: String },
    TransferFunds { from_account_id: u32, to_account_id: u32, value: i32, asset_id: String },
    UpdateAccount { account_id: u32, name: Option<String>, contact_info: Option<String> },
    ExecuteSmartContract { contract_id: String, params: Params, account_id: u32 },
    IssueAsset { account_id: u32, asset_id: String, value: i32 },
    TransferAsset { from_account_id: u32, to_account_id: u32, asset_id: String },
    RedeemAsset { account_id: u32, asset_id: String, value: i32, redeem_in_asset_id: String },
    TransactionCommission { account_id: u32, value: i32 },
}

/// Mathematical view of a [`Command`].
pub ghost enum CommandV {
    CreateAccount { public_key: Seq<char> },
    AddFunds { account_id: u32, value: i32, asset_id: Seq<char> },
    TransferFunds { from_account_id: u32, to_account_id: u32, value: i32, asset_id: Seq<char> },
    UpdateAccount { account_id: u32, name: Option<Seq<char>>, contact_info: Option<Seq<char>> },
    ExecuteSmartContract {
        contract_id: Seq<char>,
        params: Seq<(Seq<char>, Seq<char>)>,
        account_id: u32,
    },
    IssueAsset { account_id: u32, asset_id: Seq<char>, value: i32 },
    TransferAsset { from_account_id: u32, to_account_id: u32, asset_id: Seq<char> },
    RedeemAsset {
        account_id: u32,
        asset_id: Seq<char>,
        value: i32,
        redeem_in_asset_id: Seq<char>,
    },
    TransactionCommission { account_id: u32, value: i32 },
}

impl View for Command {
    type V = CommandV;

    open spec fn view(&self) -> CommandV {
        match self {
            Command::CreateAccount { public_key } => CommandV::CreateAccount {
                public_key: public_key@,
            },
            Command::AddFunds { account_id, value, asset_id } => CommandV::AddFunds {
                account_id: *account_id,
                value: *value,
                asset_id: asset_id@,
            },
            Command::TransferFunds { from_account_id, to_account_id, value, asset_id } => {
                CommandV::TransferFunds {
                    from_account_id: *from_account_id,
                    to_account_id: *to_account_id,
                    value: *value,
                    asset_id: asset_id@,
                }
            },
            Command::UpdateAccount { account_id, name, contact_info } => {
                CommandV::UpdateAccount {
                    account_id: *account_id,
                    name: name.deep_view(),
                    contact_info: contact_info.deep_view(),
                }
            },
            Command::ExecuteSmartContract { contract_id, params, account_id } => {
                CommandV::ExecuteSmartContract {
                    contract_id: contract_id@,
                    params: params@,
                    account_id: *account_id,
                }
            },
            Command::IssueAsset { account_id, asset_id, value } => CommandV::IssueAsset {
                account_id: *account_id,
                asset_id: asset_id@,
                value: *value,
            },
            Command::TransferAsset { from_account_id, to_account_id, asset_id } => {
                CommandV::TransferAsset {
                    from_account_id: *from_account_id,
                    to_account_id: *to_account_id,
                    asset_id: asset_id@,
                }
            },
            Command::RedeemAsset { account_id, asset_id, value, redeem_in_asset_id } => {
                CommandV::RedeemAsset {
                    account_id: *account_id,
                    asset_id: asset_id@,
                    value: *value,
                    redeem_in_asset_id: redeem_in_asset_id@,
                }
            },
            Command::TransactionCommission { account_id, value } => {
                CommandV::TransactionCommission { account_id: *account_id, value: *value }
            },
        }
    }
}

/// A signed batch of transactions with an optional link to its
/// predecessor.  The signer's key is carried in its raw byte form.
#[derive(Debug)]
pub struct Block {
    pub data: Vec<Transaction>,
    pub signature: Vec<u8>,
    pub signer_public_key: Vec<u8>,
    pub previous_block_hash: Option<Vec<u8>>,
}

/// Mathematical view of a [`Block`].
pub ghost struct BlockV {
    pub data: Seq<CommandV>,
    pub signature: Seq<u8>,
    pub signer_public_key: Seq<u8>,
    pub previous_block_hash: Option<Seq<u8>>,
}

impl View for Block {
    type V = BlockV;

    open spec fn view(&self) -> BlockV {
        BlockV {
            data: Seq::new(self.data@.len(), |i: int| self.data@[i]@),
            signature: self.signature@,
            signer_public_key: self.signer_public_key@,
            previous_block_hash: self.previous_block_hash.deep_view(),
        }
    }
}

/// Byte-for-byte comparison of two byte vectors.
pub fn bytes_eq(a: &Vec<u8>, b: &Vec<u8>) -> (r: bool)
    ensures
        r == (a@ == b@),
{
    if a.len() != b.len() {
        return false;
    }
    let mut i: usize = 0;
    while i < a.len()
        invariant
            i <= a@.len(),
            a@.len() == b@.len(),
            forall|j: int| 0 <= j < i ==> a@[j] == b@[j],
        decreases a@.len() - i,
    {
        if a[i] != b[i] {
            return false;
        }
        i += 1;
    }
    proof {
        assert(a@ =~= b@);
    }
    true
}

/// Byte-for-byte copy of a byte vector.
pub fn clone_bytes(v: &Vec<u8>) -> (r: Vec<u8>)
    ensures
        r@ == v@,
{
    let mut r: Vec<u8> = Vec::new();
    let mut i: usize = 0;
    while i < v.len()
        invariant
            i <= v@.len(),
            r@ == v@.take(i as int),
        decreases v@.len() - i,
    {
        r.push(v[i]);
        proof {
            assert(r@ =~= v@.take(i + 1));
        }
        i += 1;
    }
    proof {
        assert(r@ =~= v@);
    }
    r
}

impl Clone for Params {
    fn clone(&self) -> (r: Params)
        ensures
            r@ == self@,
    {
        let mut entries: Vec<(String, String)> = Vec::new();
        let mut i: usize = 0;
        while i < self.entries.len()
            invariant
                i <= self.entries@.len(),
                entries@.len() == i,
                forall|j: int|
                    0 <= j < i ==> (#[trigger] entries@[j]).0@ == self.entries@[j].0@
                        && entries@[j].1@ == self.entries@[j].1@,
            decreases self.entries@.len() - i,
        {
            entries.push((self.entries[i].0.clone(), self.entries[i].1.clone()));
            i += 1;
        }
        let r = Params { entries };
        proof {
            assert(r@ =~= self@);
        }
        r
    }
}

impl Clone for Command {
    fn clone(&self) -> (r: Command)
        ensures
            r@ == self@,
    {
        match self {
            Command::CreateAccount { public_key } => Command::CreateAccount {
                public_key: public_key.clone(),
            },
            Command::AddFunds { account_id, value, asset_id } => Command::AddFunds {
                account_id: *account_id,
                value: *value,
                asset_id: asset_id.clone(),
            },
            Command::TransferFunds { from_account_id, to_account_id, value, asset_id } => {
                Command::TransferFunds {
                    from_account_id: *from_account_id,
                    to_account_id: *to_account_id,
                    value: *value,
                    asset_id: asset_id.clone(),
                }
            },
            Command::UpdateAccount { account_id, name, contact_info } => Command::UpdateAccount {
                account_id: *account_id,
                name: match name {
                    Some(n) => Some(n.clone()),
                    None => None,
                },
                contact_info: match contact_info {
                    Some(c) => Some(c.clone()),
                    None => None,
                },
            },
            Command::ExecuteSmartContract { contract_id, params, account_id } => {
                Command::ExecuteSmartContract {
                    contract_id: contract_id.clone(),
                    params: params.clone(),
                    account_id: *account_id,
                }
            },
            Command::IssueAsset { account_id, asset_id, value } => Command::IssueAsset {
                account_id: *account_id,
                asset_id: asset_id.clone(),
                value: *value,
            },
            Command::TransferAsset { from_account_id, to_account_id, asset_id } => {
                Command::TransferAsset {
                    from_account_id: *from_account_id,
                    to_account_id: *to_account_id,
                    asset_id: asset_id.clone(),
                }
            },
            Command::RedeemAsset { account_id, asset_id, value, redeem_in_asset_id } => {
                Command::RedeemAsset {
                    account_id: *account_id,
                    asset_id: asset_id.clone(),
                    value: *value,
                    redeem_in_asset_id: redeem_in_asset_id.clone(),
                }
            },
            Command::TransactionCommission { account_id, value } => {
                Command::TransactionCommission { account_id: *account_id, value: *value }
            },
        }
    }
}

impl Clone for Transaction {
    fn clone(&self) -> (r: Transaction)
        ensures
            r@ == self@,
    {
        Transaction { command: self.command.clone() }
    }
}

impl Clone for Block {
    fn clone(&self) -> (r: Block)
        ensures
            r@ == self@,
    {
        let mut data: Vec<Transaction> = Vec::new();
        let mut i: usize = 0;
        while i < self.data.len()
            invariant
                i <= self.data@.len(),
                data@.len() == i,
                forall|j: int| 0 <= j < i ==> (#[trigger] data@[j])@ == self.data@[j]@,
            decreases self.data@.len() - i,
        {
            data.push(self.data[i].clone());
            i += 1;
        }
        let r = Block {
            data,
            signature: clone_bytes(&self.signature),
            signer_public_key: clone_bytes(&self.signer_public_key),
            previous_block_hash: match &self.previous_block_hash {
                Some(h) => Some(clone_bytes(h)),
                None => None,
            },
        };
        proof {
            assert(r@.data =~= self@.data);
        }
        r
    }
}

/// Error raised by command execution, naming the violated precondition.
#[derive(Debug)]
pub enum BlockchainError {
    AccountNotFound,
    AssetNotFound,
    InsufficientBalance,
    UnknownContract(String),
    FailedToParseParameters,
}

/// Mathematical view of a [`BlockchainError`].
pub ghost enum BlockchainErrorV {
    AccountNotFound,
    AssetNotFound,
    InsufficientBalance,
    UnknownContract(Seq<char>),
    FailedToParseParameters,
}

impl View for BlockchainError {
    type V = BlockchainErrorV;

    open spec fn view(&self) -> BlockchainErrorV {
        match self {
            BlockchainError::AccountNotFound => BlockchainErrorV::AccountNotFound,
            BlockchainError::AssetNotFound => BlockchainErrorV::AssetNotFound,
            BlockchainError::InsufficientBalance => BlockchainErrorV::InsufficientBalance,
            BlockchainError::UnknownContract(s) => BlockchainErrorV::UnknownContract(s@),
            BlockchainError::FailedToParseParameters => BlockchainErrorV::FailedToParseParameters,
        }
    }
}

impl BlockchainError {
    /// Human-readable description of the error.
    pub fn message(&self) -> (r: String)
        ensures
            r@ == spec_error_message(self@),
    {
        match self {
            BlockchainError::AccountNotFound => "account not found".to_owned(),
            BlockchainError::AssetNotFound => "asset not found".to_owned(),
            BlockchainError::InsufficientBalance => "insufficient balance".to_owned(),
            BlockchainError::UnknownContract(s) => {
                let mut m = "unknown contract: ".to_owned();
                m.append(s.as_str());
                m
            },
            BlockchainError::FailedToParseParameters => {
                "parsing parameters for contract failed".to_owned()
            },
        }
    }
}

/// The message text that [`BlockchainError::message`] returns.
pub open spec fn spec_error_message(e: BlockchainErrorV) -> Seq<char> {
    match e {
        BlockchainErrorV::AccountNotFound => "account not found"@,
        BlockchainErrorV::AssetNotFound => "asset not found"@,
        BlockchainErrorV::InsufficientBalance => "insufficient balance"@,
        BlockchainErrorV::UnknownContract(s) => "unknown contract: "@ + s,
        BlockchainErrorV::FailedToParseParameters => "parsing parameters for contract failed"@,
    }
}

} // verus!
