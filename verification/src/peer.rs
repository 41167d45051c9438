//! The per-peer consensus logic: the stake-weighted proposal rule,
//! block validation against the peer's trusted key set, and the round
//! step that proposes and ingests blocks.  The round pacing and the
//! channels that move blocks between peers live outside the library;
//! a caller runs the loop and hands blocks in and out.

use vstd::prelude::*;
use crate::commands::{Block, BlockV, Command, CommandV, Transaction, bytes_eq};
use crate::crypto::{calculate_draw, enc_data, encode_data, hash, spec_draw, spec_hash};
use crate::executor::LedgerV;
use crate::sign::{
    ed25519_keypair, ed25519_keypair_bytes, ed25519_sign, ed25519_signature_of, ed25519_verifies,
};
use crate::storage::{Storage, spec_replay, stored_block};

verus! {

/// The deployment's fixed total stake that proposal fractions are
/// taken over.  It is a configuration constant, not the sum of the
/// participants' declared stakes.
pub const TOTAL_STAKE: u32 = 100;

/// Error that ends a peer's run.
#[derive(Debug)]
pub enum StartError {
    ErrStart(String),
}

impl View for StartError {
    type V = Seq<char>;

    open spec fn view(&self) -> Seq<char> {
        match self {
            StartError::ErrStart(s) => s@,
        }
    }
}

impl StartError {
    /// Human-readable description of the error.
    pub fn message(&self) -> (r: String)
        ensures
            r@ == "Failed to start: "@ + self@,
    {
        match self {
            StartError::ErrStart(s) => {
                let mut m = "Failed to start: ".to_owned();
                m.append(s.as_str());
                m
            },
        }
    }
}

/// The digit character for a value below ten.
pub open spec fn digit_char(d: nat) -> char {
    ((48 + d) as u8) as char
}

/// The decimal digit string of a number, most significant first.
pub open spec fn dec_str(n: nat) -> Seq<char>
    decreases n,
{
    if n < 10 {
        seq![digit_char(n)]
    } else {
        dec_str(n / 10).push(digit_char(n % 10))
    }
}

/// The placeholder key text a peer writes into its proposed blocks.
pub open spec fn peer_key_seq(id: nat) -> Seq<char> {
    "peer"@ + dec_str(id) + "_key"@
}

fn digit_str(d: u8) -> (r: &'static str)
    requires
        d < 10,
    ensures
        r@ =~= seq![digit_char(d as nat)],
{
    let r: &'static str = match d {
        0 => "0",
        1 => "1",
        2 => "2",
        3 => "3",
        4 => "4",
        5 => "5",
        6 => "6",
        7 => "7",
        8 => "8",
        _ => "9",
    };
    proof {
        reveal_strlit("0");
        reveal_strlit("1");
        reveal_strlit("2");
        reveal_strlit("3");
        reveal_strlit("4");
        reveal_strlit("5");
        reveal_strlit("6");
        reveal_strlit("7");
        reveal_strlit("8");
        reveal_strlit("9");
    }
    r
}

/// The text form of a peer identifier, in decimal.
fn u8_to_string(n: u8) -> (r: String)
    ensures
        r@ == dec_str(n as nat),
{
    let mut s = String::new();
    if n >= 100 {
        s.append(digit_str(n / 100));
        s.append(digit_str((n / 10) % 10));
        proof {
            assert(dec_str(n as nat) == dec_str(n as nat / 10).push(digit_char(n as nat % 10)));
            assert(dec_str(n as nat / 10) == dec_str(n as nat / 10 / 10).push(
                digit_char(n as nat / 10 % 10),
            ));
            assert(n as nat / 10 / 10 == n as nat / 100);
            assert(s@ =~= dec_str(n as nat / 10));
        }
    } else if n >= 10 {
        s.append(digit_str(n / 10));
        proof {
            assert(dec_str(n as nat) == dec_str(n as nat / 10).push(digit_char(n as nat % 10)));
            assert(s@ =~= dec_str(n as nat / 10));
        }
    }
    s.append(digit_str(n % 10));
    proof {
        assert(s@ =~= dec_str(n as nat));
    }
    s
}

/// The placeholder key text of the peer with this identifier.
pub fn peer_key_text(id: u8) -> (r: String)
    ensures
        r@ == peer_key_seq(id as nat),
{
    let mut s = "peer".to_owned();
    let digits = u8_to_string(id);
    s.append(digits.as_str());
    s.append("_key");
    proof {
        assert(s@ =~= peer_key_seq(id as nat));
    }
    s
}

/// The single placeholder transaction of a proposed block.
pub open spec fn placeholder_data(id: u8) -> Seq<CommandV> {
    seq![CommandV::CreateAccount { public_key: peer_key_seq(id as nat) }]
}

/// Membership of a key in a trusted key list.
pub open spec fn spec_trusted(keys: Seq<Seq<u8>>, pk: Seq<u8>) -> bool {
    exists|i: int| 0 <= i < keys.len() && keys[i] == pk
}

/// A block is accepted iff its signature verifies over its own
/// transaction bytes and its signer's key is in the trusted set.
pub open spec fn spec_is_valid_block(keys: Seq<Seq<u8>>, b: BlockV) -> bool {
    &&& ed25519_verifies(enc_data(b.data), b.signature, b.signer_public_key)
    &&& spec_trusted(keys, b.signer_public_key)
}

/// The strict stake-fraction proposal rule: propose iff
/// `stake / total_stake > draw / max`, written over the integers.
pub open spec fn spec_should_propose(stake: u32, total_stake: u32, h: Seq<u8>) -> bool {
    stake * 0xffff_ffff_ffff_ffff > spec_draw(h) * total_stake
}

/// The hash a round derives its draw from: the hash of the last block,
/// or the empty hash on an empty chain.
pub open spec fn spec_prev_hash(chain: Seq<BlockV>) -> Seq<u8> {
    if chain.len() == 0 {
        Seq::empty()
    } else {
        spec_hash(chain.last())
    }
}

/// One ledger participant: its chain store, its configured stake and
/// the keys it accepts blocks from.
#[derive(Debug)]
pub struct Peer {
    pub id: u8,
    pub storage: Storage,
    pub trusted_public_keys: Vec<Vec<u8>>,
    pub stake: u32,
}

impl Peer {
    /// The trusted key list over mathematical values.
    pub open spec fn trusted_view(&self) -> Seq<Seq<u8>> {
        Seq::new(self.trusted_public_keys@.len(), |i: int| self.trusted_public_keys@[i]@)
    }

    pub fn new(id: u8, stake: u32, trusted_public_keys: Vec<Vec<u8>>) -> (r: Peer)
        ensures
            r.id == id,
            r.stake == stake,
            r.trusted_public_keys == trusted_public_keys,
            r.storage.wf(),
            r.storage.chain_view() == Seq::<BlockV>::empty(),
            r.storage.ledger_view() == (LedgerV {
                accounts: Map::<u32, crate::commands::AccountV>::empty(),
                assets: Map::<(u32, Seq<char>), crate::commands::Asset>::empty(),
            }),
    {
        Peer { id, storage: Storage::new(), trusted_public_keys, stake }
    }

    /// The proposal test for this round: strict comparison of the
    /// stake fraction against the draw fraction.
    pub fn should_propose_block(&self, total_stake: u32, prev_block_hash: Vec<u8>) -> (r: bool)
        ensures
            r == spec_should_propose(self.stake, total_stake, prev_block_hash@),
    {
        let draw = calculate_draw(&prev_block_hash);
        let lhs: u128 = (self.stake as u128) * (u64::MAX as u128);
        proof {
            assert((draw as int) * (total_stake as int)
                < 0x1_0000_0000_0000_0000_0000_0000_0000_0000) by (nonlinear_arith)
                requires
                    draw <= 0xffff_ffff_ffff_ffffu64,
                    total_stake <= 0xffff_ffffu32,
            ;
        }
        let rhs: u128 = (draw as u128) * (total_stake as u128);
        proof {
            assert((self.stake as u128) * (u64::MAX as u128) == self.stake
                * 0xffff_ffff_ffff_ffff) by (nonlinear_arith);
            assert((draw as u128) * (total_stake as u128) == draw * total_stake)
                by (nonlinear_arith);
        }
        lhs > rhs
    }

    /// Validate a received block: its signature over its own
    /// transaction bytes, and its signer against the trusted set.
    pub fn is_valid_block(&self, block: &Block) -> (r: bool)
        ensures
            r == spec_is_valid_block(self.trusted_view(), block@),
    {
        let bytes = encode_data(&block.data);
        let verified = crate::sign::ed25519_verify(
            &bytes,
            &block.signature,
            &block.signer_public_key,
        );
        let mut is_trusted = false;
        let mut i: usize = 0;
        while i < self.trusted_public_keys.len()
            invariant
                i <= self.trusted_public_keys@.len(),
                is_trusted == exists|j: int|
                    0 <= j < i && self.trusted_view()[j] == block@.signer_public_key,
            decreases self.trusted_public_keys@.len() - i,
        {
            if bytes_eq(&self.trusted_public_keys[i], &block.signer_public_key) {
                proof {
                    assert(self.trusted_view()[i as int] == block@.signer_public_key);
                }
                is_trusted = true;
            }
            i += 1;
        }
        verified && is_trusted
    }

    /// Build this round's proposal: one placeholder transaction,
    /// signed with a keypair generated for this block, linked to the
    /// local chain tail.
    pub fn create_block(&self) -> (r: Block)
        ensures
            r@.data == placeholder_data(self.id),
            r@.previous_block_hash == (if self.storage.chain_view().len() == 0 {
                None::<Seq<u8>>
            } else {
                Some(spec_hash(self.storage.chain_view().last()))
            }),
            r@.signer_public_key.len() == 32,
            r@.signature.len() == 64,
            ed25519_verifies(enc_data(r@.data), r@.signature, r@.signer_public_key),
    {
        let data = vec![
            Transaction {
                command: Command::CreateAccount { public_key: peer_key_text(self.id) },
            },
        ];
        let ghost data_view = Seq::new(data@.len(), |i: int| data@[i]@);
        proof {
            assert(data_view =~= placeholder_data(self.id));
        }
        let bytes = encode_data(&data);
        let (public_key, private_key) = ed25519_keypair();
        let signature = match ed25519_sign(&bytes, &private_key) {
            Some(s) => s,
            None => {
                proof {
                    assert(false);
                }
                Vec::new()
            },
        };
        let previous_block_hash = if self.storage.blockchain.len() > 0 {
            let h = hash(&self.storage.blockchain[self.storage.blockchain.len() - 1]);
            proof {
                assert(self.storage.chain_view().last() == self.storage.blockchain@.last()@);
            }
            Some(h)
        } else {
            None
        };
        let r = Block { signature, data, signer_public_key: public_key, previous_block_hash };
        proof {
            assert(r@.data =~= placeholder_data(self.id));
            assert(ed25519_verifies(
                enc_data(r@.data),
                ed25519_signature_of(enc_data(r@.data), private_key@),
                r@.signer_public_key,
            ));
        }
        r
    }

    /// One consensus round, without its pacing: derive the draw from
    /// the chain tail, propose if the stake fraction beats it, and
    /// hand back the block to broadcast.  The placeholder command
    /// cannot fail, so a proposing round always succeeds.
    pub fn run_round(&mut self) -> (r: Result<Option<Block>, StartError>)
        requires
            old(self).storage.wf(),
        ensures
            final(self).storage.wf(),
            final(self).id == old(self).id,
            final(self).stake == old(self).stake,
            final(self).trusted_public_keys == old(self).trusted_public_keys,
            ({
                let prev = spec_prev_hash(old(self).storage.chain_view());
                let propose = spec_should_propose(old(self).stake, TOTAL_STAKE, prev);
                match r {
                    Ok(opt) => match opt {
                        None => !propose && *final(self) == *old(self),
                        Some(b) => {
                            &&& propose
                            &&& b@.data == placeholder_data(old(self).id)
                            &&& final(self).storage.chain_view() == old(
                                self,
                            ).storage.chain_view().push(
                                stored_block(b@, old(self).storage.chain_view()),
                            )
                            &&& final(self).storage.ledger_view() == spec_replay(
                                b@.data,
                                old(self).storage.ledger_view(),
                            ).0
                        },
                    },
                    Err(_) => false,
                }
            }),
    {
        let prev_block_hash: Vec<u8> = if self.storage.blockchain.len() > 0 {
            let h = hash(&self.storage.blockchain[self.storage.blockchain.len() - 1]);
            proof {
                assert(self.storage.chain_view().last() == self.storage.blockchain@.last()@);
            }
            h
        } else {
            let e: Vec<u8> = Vec::new();
            e
        };
        proof {
            assert(prev_block_hash@ =~= spec_prev_hash(self.storage.chain_view()));
        }
        if self.should_propose_block(TOTAL_STAKE, prev_block_hash) {
            let block = self.create_block();
            let copy = block.clone();
            proof {
                let cmds = copy@.data;
                let st = self.storage.ledger_view();
                assert(cmds[0] == CommandV::CreateAccount {
                    public_key: peer_key_seq(self.id as nat),
                });
                let (st1, err) = crate::executor::spec_execute(cmds[0], st);
                assert(err is None);
                assert(cmds.drop_first() =~= Seq::<CommandV>::empty());
                assert(spec_replay(Seq::<CommandV>::empty(), st1) == (
                    st1,
                    None::<crate::commands::BlockchainErrorV>,
                ));
                assert(spec_replay(cmds, st).1 is None);
            }
            match self.storage.add_block(copy) {
                Ok(_) => {},
                Err(err) => {
                    proof {
                        assert(false);
                    }
                    let mut m = "Failed to add block: ".to_owned();
                    let im = err.message();
                    m.append(im.as_str());
                    return Err(StartError::ErrStart(m));
                },
            }
            Ok(Some(block))
        } else {
            Ok(None)
        }
    }

    /// Ingest one received block: accept it into the chain store iff
    /// it validates; an invalid or untrusted block is discarded with
    /// no error.  A command failure while applying an accepted block
    /// is fatal, as the round loop treats it.
    pub fn receive_block(&mut self, block: Block) -> (r: Result<bool, StartError>)
        requires
            old(self).storage.wf(),
        ensures
            final(self).storage.wf(),
            final(self).id == old(self).id,
            final(self).stake == old(self).stake,
            final(self).trusted_public_keys == old(self).trusted_public_keys,
            ({
                let valid = spec_is_valid_block(old(self).trusted_view(), block@);
                if !valid {
                    r == Ok::<bool, StartError>(false) && *final(self) == *old(self)
                } else {
                    let (st2, err) = spec_replay(block@.data, old(self).storage.ledger_view());
                    &&& final(self).storage.ledger_view() == st2
                    &&& match r {
                        Ok(accepted) => accepted && err is None && final(self).storage.chain_view()
                            == old(self).storage.chain_view().push(
                            stored_block(block@, old(self).storage.chain_view()),
                        ),
                        Err(e) => err is Some && final(self).storage.chain_view() == old(
                            self,
                        ).storage.chain_view() && e@ == "Failed to add block: "@ + (
                        "Failed to execute command: "@ + crate::commands::spec_error_message(
                            err.unwrap(),
                        )),
                    }
                }
            }),
    {
        if self.is_valid_block(&block) {
            match self.storage.add_block(block) {
                Ok(_) => Ok(true),
                Err(err) => {
                    let mut m = "Failed to add block: ".to_owned();
                    let im = err.message();
                    m.append(im.as_str());
                    Err(StartError::ErrStart(m))
                },
            }
        } else {
            Ok(false)
        }
    }
}

} // verus!
