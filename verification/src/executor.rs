//! Command execution: the pure state-transition model over maps, and
//! the executable transition over the ledger stores, proved to match.

use vstd::prelude::*;
use crate::commands::{
    Account, AccountV, Asset, BlockchainError, BlockchainErrorV, Command, CommandV, param_get,
};
use crate::ledger::{Accounts, Assets};
use crate::parse::{parse_i32, parse_i32_v, parse_u32, parse_u32_v, str_eq};

verus! {

/// The ledger state as mathematics: both stores as finite maps.
pub ghost struct LedgerV {
    pub accounts: Map<u32, AccountV>,
    pub assets: Map<(u32, Seq<char>), Asset>,
}

/// The identifier a newly created account receives when `n` accounts
/// exist: `n + 1`, truncated to the key width.
pub open spec fn next_account_id(n: nat) -> u32 {
    (((n + 1) % 0x1_0000_0000) as u32)
}

/// One funds transfer between two asset records of the same asset
/// type.  The debit happens before the credit-side lookup, so a
/// missing destination record leaves the debit in place.
pub open spec fn spec_transfer(
    assets: Map<(u32, Seq<char>), Asset>,
    from: u32,
    to: u32,
    value: i32,
    asset_id: Seq<char>,
) -> (Map<(u32, Seq<char>), Asset>, Option<BlockchainErrorV>) {
    if !assets.dom().contains((from, asset_id)) {
        (assets, Some(BlockchainErrorV::AssetNotFound))
    } else {
        let a = assets[(from, asset_id)];
        if a.value < value {
            (assets, Some(BlockchainErrorV::InsufficientBalance))
        } else {
            let debited = assets.insert(
                (from, asset_id),
                Asset {
                    value: vstd::wrapping::i32_specs::wrapping_sub(a.value, value),
                    owner_id: a.owner_id,
                },
            );
            if !debited.dom().contains((to, asset_id)) {
                (debited, Some(BlockchainErrorV::AssetNotFound))
            } else {
                let b = debited[(to, asset_id)];
                (
                    debited.insert(
                        (to, asset_id),
                        Asset {
                            value: vstd::wrapping::i32_specs::wrapping_add(b.value, value),
                            owner_id: b.owner_id,
                        },
                    ),
                    None,
                )
            }
        }
    }
}

/// `str::parse::<u32>().ok()` applied to an optional parameter.
pub open spec fn spec_parsed_u32(o: Option<Seq<char>>) -> Option<u32> {
    match o {
        Some(s) => parse_u32_v(s),
        None => None,
    }
}

/// `str::parse::<i32>().ok()` applied to an optional parameter.
pub open spec fn spec_parsed_i32(o: Option<Seq<char>>) -> Option<i32> {
    match o {
        Some(s) => parse_i32_v(s),
        None => None,
    }
}

/// What one command does to the ledger state: the next state, and the
/// error when the command's precondition is violated.  A command that
/// errs after a partial mutation keeps that mutation, as the
/// executable transition does.
pub open spec fn spec_execute(c: CommandV, st: LedgerV) -> (LedgerV, Option<BlockchainErrorV>) {
    match c {
        CommandV::CreateAccount { public_key } => (
            LedgerV {
                accounts: st.accounts.insert(
                    next_account_id(st.accounts.dom().len()),
                    AccountV { public_key, name: None, contact_info: None, balance: 0 },
                ),
                ..st
            },
            None,
        ),
        CommandV::AddFunds { account_id, value, asset_id } => (
            LedgerV {
                assets: st.assets.insert((account_id, asset_id), Asset { value, owner_id: 0 }),
                ..st
            },
            None,
        ),
        CommandV::TransferFunds { from_account_id, to_account_id, value, asset_id } => {
            let (assets, err) = spec_transfer(
                st.assets,
                from_account_id,
                to_account_id,
                value,
                asset_id,
            );
            (LedgerV { assets, ..st }, err)
        },
        CommandV::UpdateAccount { account_id, name, contact_info } => {
            if st.accounts.dom().contains(account_id) {
                let a = st.accounts[account_id];
                (
                    LedgerV {
                        accounts: st.accounts.insert(
                            account_id,
                            AccountV {
                                name: if name is Some {
                                    name
                                } else {
                                    a.name
                                },
                                contact_info: if contact_info is Some {
                                    contact_info
                                } else {
                                    a.contact_info
                                },
                                ..a
                            },
                        ),
                        ..st
                    },
                    None,
                )
            } else {
                (st, Some(BlockchainErrorV::AccountNotFound))
            }
        },
        CommandV::ExecuteSmartContract { contract_id, params, account_id } => {
            if contract_id == "transfer_funds"@ {
                match (
                    spec_parsed_u32(param_get(params, "to_account_id"@)),
                    spec_parsed_i32(param_get(params, "value"@)),
                    param_get(params, "asset_id"@),
                ) {
                    (Some(to), Some(v), Some(aid)) => {
                        let (assets, err) = spec_transfer(st.assets, account_id, to, v, aid);
                        (LedgerV { assets, ..st }, err)
                    },
                    _ => (st, Some(BlockchainErrorV::FailedToParseParameters)),
                }
            } else {
                (st, Some(BlockchainErrorV::UnknownContract(contract_id)))
            }
        },
        CommandV::IssueAsset { account_id, asset_id, value } => {
            let a = if st.assets.dom().contains((account_id, asset_id)) {
                st.assets[(account_id, asset_id)]
            } else {
                Asset { value: 0, owner_id: account_id }
            };
            (
                LedgerV {
                    assets: st.assets.insert(
                        (account_id, asset_id),
                        Asset {
                            value: vstd::wrapping::i32_specs::wrapping_add(a.value, value),
                            owner_id: a.owner_id,
                        },
                    ),
                    ..st
                },
                None,
            )
        },
        CommandV::TransferAsset { from_account_id, to_account_id, asset_id } => {
            if st.assets.dom().contains((from_account_id, asset_id)) {
                let a = st.assets[(from_account_id, asset_id)];
                (
                    LedgerV {
                        assets: st.assets.insert(
                            (from_account_id, asset_id),
                            Asset { value: a.value, owner_id: to_account_id },
                        ),
                        ..st
                    },
                    None,
                )
            } else {
                (st, Some(BlockchainErrorV::AssetNotFound))
            }
        },
        CommandV::RedeemAsset { account_id, asset_id, value, redeem_in_asset_id } => {
            if !st.assets.dom().contains((account_id, asset_id)) {
                (st, Some(BlockchainErrorV::AssetNotFound))
            } else {
                let a = st.assets[(account_id, asset_id)];
                if a.value < value {
                    (st, Some(BlockchainErrorV::InsufficientBalance))
                } else {
                    let st1 = LedgerV {
                        assets: st.assets.insert(
                            (account_id, asset_id),
                            Asset {
                                value: vstd::wrapping::i32_specs::wrapping_sub(a.value, value),
                                owner_id: a.owner_id,
                            },
                        ),
                        ..st
                    };
                    if !st1.assets.dom().contains((account_id, redeem_in_asset_id)) {
                        (st1, Some(BlockchainErrorV::AssetNotFound))
                    } else {
                        let b = st1.assets[(account_id, redeem_in_asset_id)];
                        (
                            LedgerV {
                                assets: st1.assets.insert(
                                    (account_id, redeem_in_asset_id),
                                    Asset {
                                        value: vstd::wrapping::i32_specs::wrapping_add(
                                            b.value,
                                            value,
                                        ),
                                        owner_id: b.owner_id,
                                    },
                                ),
                                ..st1
                            },
                            None,
                        )
                    }
                }
            }
        },
        CommandV::TransactionCommission { account_id, value } => {
            if !st.assets.dom().contains((account_id, "currency"@)) {
                (st, Some(BlockchainErrorV::AssetNotFound))
            } else {
                let a = st.assets[(account_id, "currency"@)];
                if a.value < value {
                    (st, Some(BlockchainErrorV::InsufficientBalance))
                } else {
                    (
                        LedgerV {
                            assets: st.assets.insert(
                                (account_id, "currency"@),
                                Asset {
                                    value: vstd::wrapping::i32_specs::wrapping_sub(a.value, value),
                                    owner_id: a.owner_id,
                                },
                            ),
                            ..st
                        },
                        None,
                    )
                }
            }
        },
    }
}

/// Move `value` of `asset_id` from one account's record to another's.
fn transfer(assets: &mut Assets, from: u32, to: u32, value: i32, asset_id: &String) -> (r: Result<
    (),
    BlockchainError,
>)
    requires
        old(assets).wf(),
    ensures
        final(assets).wf(),
        ({
            let (assets2, err) = spec_transfer(old(assets)@, from, to, value, asset_id@);
            &&& final(assets)@ == assets2
            &&& match r {
                Ok(_) => err is None,
                Err(e) => err == Some(e@),
            }
        }),
{
    let a = match assets.get(from, asset_id.as_str()) {
        Some(a) => a,
        None => {
            return Err(BlockchainError::AssetNotFound);
        },
    };
    if a.value < value {
        return Err(BlockchainError::InsufficientBalance);
    }
    assets.insert(
        from,
        asset_id.clone(),
        Asset { value: a.value.wrapping_sub(value), owner_id: a.owner_id },
    );
    let b = match assets.get(to, asset_id.as_str()) {
        Some(b) => b,
        None => {
            return Err(BlockchainError::AssetNotFound);
        },
    };
    assets.insert(
        to,
        asset_id.clone(),
        Asset { value: b.value.wrapping_add(value), owner_id: b.owner_id },
    );
    Ok(())
}

impl Command {
    /// Apply this command to the ledger state.  The relation between
    /// the stores before and after the call, and the returned error,
    /// are exactly those of [`spec_execute`].
    pub fn execute(&self, accounts: &mut Accounts, assets: &mut Assets) -> (r: Result<
        (),
        BlockchainError,
    >)
        requires
            old(accounts).wf(),
            old(assets).wf(),
        ensures
            final(accounts).wf(),
            final(assets).wf(),
            ({
                let st = LedgerV { accounts: old(accounts)@, assets: old(assets)@ };
                let (st2, err) = spec_execute(self@, st);
                &&& final(accounts)@ == st2.accounts
                &&& final(assets)@ == st2.assets
                &&& match r {
                    Ok(_) => err is None,
                    Err(e) => err == Some(e@),
                }
            }),
    {
        match self {
            Command::CreateAccount { public_key } => {
                let n64 = accounts.len() as u64;
                let id = #[verifier::truncate] (n64.wrapping_add(1) as u32);
                proof {
                    let w = vstd::wrapping::u64_specs::wrapping_add(n64, 1);
                    assert(w == (n64 + 1) % 0x1_0000_0000_0000_0000);
                    assert(0x1_0000_0000_0000_0000 == 0x1_0000_0000 * 0x1_0000_0000int)
                        by (nonlinear_arith);
                    vstd::arithmetic::div_mod::lemma_mod_mod(
                        n64 + 1,
                        0x1_0000_0000,
                        0x1_0000_0000,
                    );
                    assert(w % 0x1_0000_0000 == (n64 + 1) % 0x1_0000_0000);
                    assert(forall|x: u64| #[trigger] (x as u32) == x % 0x1_0000_0000)
                        by (bit_vector);
                    assert(id == w % 0x1_0000_0000);
                    assert(id == next_account_id(old(accounts)@.dom().len()));
                }
                accounts.insert(
                    id,
                    Account {
                        public_key: public_key.clone(),
                        name: None,
                        contact_info: None,
                        balance: 0,
                    },
                );
                Ok(())
            },
            Command::AddFunds { account_id, value, asset_id } => {
                assets.insert(*account_id, asset_id.clone(), Asset { value: *value, owner_id: 0 });
                Ok(())
            },
            Command::TransferFunds { from_account_id, to_account_id, value, asset_id } => {
                transfer(assets, *from_account_id, *to_account_id, *value, asset_id)
            },
            Command::UpdateAccount { account_id, name, contact_info } => {
                if accounts.update_fields(*account_id, name, contact_info) {
                    Ok(())
                } else {
                    Err(BlockchainError::AccountNotFound)
                }
            },
            Command::ExecuteSmartContract { contract_id, params, account_id } => {
                if str_eq(contract_id.as_str(), "transfer_funds") {
                    let to = match params.get("to_account_id") {
                        Some(s) => parse_u32(s.as_str()),
                        None => None,
                    };
                    let v = match params.get("value") {
                        Some(s) => parse_i32(s.as_str()),
                        None => None,
                    };
                    let aid = params.get("asset_id");
                    match (to, v, aid) {
                        (Some(to), Some(v), Some(aid)) => transfer(assets, *account_id, to, v, aid),
                        _ => Err(BlockchainError::FailedToParseParameters),
                    }
                } else {
                    Err(BlockchainError::UnknownContract(contract_id.clone()))
                }
            },
            Command::IssueAsset { account_id, asset_id, value } => {
                let (base, owner) = match assets.get(*account_id, asset_id.as_str()) {
                    Some(a) => (a.value, a.owner_id),
                    None => (0, *account_id),
                };
                assets.insert(
                    *account_id,
                    asset_id.clone(),
                    Asset { value: base.wrapping_add(*value), owner_id: owner },
                );
                Ok(())
            },
            Command::TransferAsset { from_account_id, to_account_id, asset_id } => {
                match assets.get(*from_account_id, asset_id.as_str()) {
                    Some(a) => {
                        assets.insert(
                            *from_account_id,
                            asset_id.clone(),
                            Asset { value: a.value, owner_id: *to_account_id },
                        );
                        Ok(())
                    },
                    None => Err(BlockchainError::AssetNotFound),
                }
            },
            Command::RedeemAsset { account_id, asset_id, value, redeem_in_asset_id } => {
                let a = match assets.get(*account_id, asset_id.as_str()) {
                    Some(a) => a,
                    None => {
                        return Err(BlockchainError::AssetNotFound);
                    },
                };
                if a.value < *value {
                    return Err(BlockchainError::InsufficientBalance);
                }
                assets.insert(
                    *account_id,
                    asset_id.clone(),
                    Asset { value: a.value.wrapping_sub(*value), owner_id: a.owner_id },
                );
                let b = match assets.get(*account_id, redeem_in_asset_id.as_str()) {
                    Some(b) => b,
                    None => {
                        return Err(BlockchainError::AssetNotFound);
                    },
                };
                assets.insert(
                    *account_id,
                    redeem_in_asset_id.clone(),
                    Asset { value: b.value.wrapping_add(*value), owner_id: b.owner_id },
                );
                Ok(())
            },
            Command::TransactionCommission { account_id, value } => {
                let a = match assets.get(*account_id, "currency") {
                    Some(a) => a,
                    None => {
                        return Err(BlockchainError::AssetNotFound);
                    },
                };
                if a.value < *value {
                    return Err(BlockchainError::InsufficientBalance);
                }
                assets.insert(
                    *account_id,
                    "currency".to_owned(),
                    Asset { value: a.value.wrapping_sub(*value), owner_id: a.owner_id },
                );
                Ok(())
            },
        }
    }
}

} // verus!
