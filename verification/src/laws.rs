//! Laws of the ledger, stated once over the specification functions
//! that the executable functions' contracts use, and proved here.

use vstd::prelude::*;
use crate::client::spec_client_block;
use crate::commands::{BlockV, BlockchainErrorV, CommandV, param_get};
use crate::crypto::{enc_data, spec_draw};
use crate::executor::{LedgerV, spec_execute, spec_parsed_i32, spec_parsed_u32};
use crate::peer::{spec_is_valid_block, spec_should_propose, spec_trusted};
use crate::sign::{ed25519_paired, ed25519_signature_of, ed25519_verifies};

verus! {

/// A transfer between two existing records of the same asset type,
/// with enough balance on the debit side and no overflow on either
/// side, moves exactly `value` and conserves the sum of the two
/// records.
pub proof fn lemma_transfer_conserves(
    st: LedgerV,
    from: u32,
    to: u32,
    value: i32,
    asset_id: Seq<char>,
)
    requires
        from != to,
        st.assets.dom().contains((from, asset_id)),
        st.assets.dom().contains((to, asset_id)),
        st.assets[(from, asset_id)].value >= value,
        i32::MIN <= st.assets[(from, asset_id)].value - value <= i32::MAX,
        i32::MIN <= st.assets[(to, asset_id)].value + value <= i32::MAX,
    ensures
        ({
            let (st2, err) = spec_execute(
                CommandV::TransferFunds {
                    from_account_id: from,
                    to_account_id: to,
                    value,
                    asset_id,
                },
                st,
            );
            &&& err is None
            &&& st2.assets[(from, asset_id)].value == st.assets[(from, asset_id)].value - value
            &&& st2.assets[(to, asset_id)].value == st.assets[(to, asset_id)].value + value
            &&& st2.assets[(from, asset_id)].value + st2.assets[(to, asset_id)].value == st.assets[(
                from,
                asset_id,
            )].value + st.assets[(to, asset_id)].value
        }),
{
}

/// A transfer whose debit side holds less than the transferred value
/// fails with `InsufficientBalance` and leaves the state unchanged.
pub proof fn lemma_transfer_insufficient(
    st: LedgerV,
    from: u32,
    to: u32,
    value: i32,
    asset_id: Seq<char>,
)
    requires
        st.assets.dom().contains((from, asset_id)),
        st.assets[(from, asset_id)].value < value,
    ensures
        spec_execute(
            CommandV::TransferFunds { from_account_id: from, to_account_id: to, value, asset_id },
            st,
        ) == (st, Some(BlockchainErrorV::InsufficientBalance)),
{
}

/// A smart-contract call naming any contract other than
/// `transfer_funds` fails with `UnknownContract` and mutates nothing.
pub proof fn lemma_unknown_contract(
    st: LedgerV,
    contract_id: Seq<char>,
    params: Seq<(Seq<char>, Seq<char>)>,
    account_id: u32,
)
    requires
        contract_id != "transfer_funds"@,
    ensures
        spec_execute(
            CommandV::ExecuteSmartContract { contract_id, params, account_id },
            st,
        ) == (st, Some(BlockchainErrorV::UnknownContract(contract_id))),
{
}

/// A `transfer_funds` contract call whose parameters are missing or
/// unparseable fails with `FailedToParseParameters` and mutates
/// nothing.
pub proof fn lemma_contract_bad_params(
    st: LedgerV,
    params: Seq<(Seq<char>, Seq<char>)>,
    account_id: u32,
)
    requires
        spec_parsed_u32(param_get(params, "to_account_id"@)) is None || spec_parsed_i32(
            param_get(params, "value"@),
        ) is None || param_get(params, "asset_id"@) is None,
    ensures
        spec_execute(
            CommandV::ExecuteSmartContract { contract_id: "transfer_funds"@, params, account_id },
            st,
        ) == (st, Some(BlockchainErrorV::FailedToParseParameters)),
{
}

/// A block whose signature does not verify over its own transaction
/// bytes fails validation whatever the trusted set holds.
pub proof fn lemma_unverified_block_rejected(keys: Seq<Seq<u8>>, b: BlockV)
    requires
        !ed25519_verifies(enc_data(b.data), b.signature, b.signer_public_key),
    ensures
        !spec_is_valid_block(keys, b),
{
}

/// A block signed by a key outside the trusted set fails validation
/// even when its signature verifies.
pub proof fn lemma_untrusted_signer_rejected(keys: Seq<Seq<u8>>, b: BlockV)
    requires
        !spec_trusted(keys, b.signer_public_key),
    ensures
        !spec_is_valid_block(keys, b),
{
}

/// A block whose signature verifies over its own transaction bytes is
/// valid exactly when its signer's key is in the trusted set.
pub proof fn lemma_verified_block_validity(keys: Seq<Seq<u8>>, b: BlockV)
    requires
        ed25519_verifies(enc_data(b.data), b.signature, b.signer_public_key),
    ensures
        spec_is_valid_block(keys, b) == spec_trusted(keys, b.signer_public_key),
{
}

/// A submitter's block, signed with a matched keypair, validates at
/// every peer whose trusted set holds the submitter's public key.
pub proof fn lemma_client_block_validates(
    keys: Seq<Seq<u8>>,
    b: BlockV,
    c: CommandV,
    pk: Seq<u8>,
    sk: Seq<u8>,
)
    requires
        spec_client_block(b, c, pk, sk),
        ed25519_paired(pk, sk),
        spec_trusted(keys, pk),
    ensures
        spec_is_valid_block(keys, b),
{
    assert(ed25519_verifies(enc_data(seq![c]), ed25519_signature_of(enc_data(seq![c]), sk), pk));
}

/// The boundaries of the strict proposal rule: a zero draw always
/// proposes for a positive stake, the maximum draw never does for a
/// stake within the total, and a draw that equals the stake fraction
/// exactly never does.
pub proof fn lemma_should_propose_boundaries(stake: u32, total_stake: u32, h: Seq<u8>)
    ensures
        spec_draw(h) == 0 && stake > 0 ==> spec_should_propose(stake, total_stake, h),
        spec_draw(h) == 0xffff_ffff_ffff_ffff && stake <= total_stake ==> !spec_should_propose(
            stake,
            total_stake,
            h,
        ),
        stake * 0xffff_ffff_ffff_ffff == spec_draw(h) * total_stake ==> !spec_should_propose(
            stake,
            total_stake,
            h,
        ),
{
    if spec_draw(h) == 0 && stake > 0 {
        assert(stake * 0xffff_ffff_ffff_ffff > 0) by (nonlinear_arith)
            requires
                stake > 0,
        ;
    }
    if spec_draw(h) == 0xffff_ffff_ffff_ffff && stake <= total_stake {
        assert(stake * 0xffff_ffff_ffff_ffff <= 0xffff_ffff_ffff_ffff * total_stake)
            by (nonlinear_arith)
            requires
                stake <= total_stake,
        ;
    }
}

} // verus!
