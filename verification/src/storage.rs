//! The chain store: an append-only block sequence that owns the ledger
//! state and replays each appended block's commands into it.

use vstd::prelude::*;
use crate::commands::{Block, BlockV, BlockchainErrorV, CommandV, spec_error_message};
use crate::crypto::{hash, spec_hash};
use crate::executor::{LedgerV, spec_execute};
use crate::ledger::{Accounts, Assets};

verus! {

/// Error raised while applying a block: carries the text of the
/// command error that stopped the replay.
#[derive(Debug)]
pub enum StorageError {
    CommandExecutionError(String),
}

impl View for StorageError {
    type V = Seq<char>;

    open spec fn view(&self) -> Seq<char> {
        match self {
            StorageError::CommandExecutionError(s) => s@,
        }
    }
}

impl StorageError {
    /// Human-readable description of the error.
    pub fn message(&self) -> (r: String)
        ensures
            r@ == "Failed to execute command: "@ + self@,
    {
        match self {
            StorageError::CommandExecutionError(s) => {
                let mut m = "Failed to execute command: ".to_owned();
                m.append(s.as_str());
                m
            },
        }
    }
}

/// Apply the commands in order; the first error stops the replay but
/// keeps every mutation made before it, the erring command's partial
/// work included.
pub open spec fn spec_replay(cmds: Seq<CommandV>, st: LedgerV) -> (LedgerV, Option<
    BlockchainErrorV,
>)
    decreases cmds.len(),
{
    if cmds.len() == 0 {
        (st, None)
    } else {
        let (st1, err) = spec_execute(cmds[0], st);
        match err {
            Some(e) => (st1, Some(e)),
            None => spec_replay(cmds.drop_first(), st1),
        }
    }
}

/// The block as the chain stores it: on a non-empty chain the
/// predecessor link is overwritten with the hash of the last stored
/// block; on an empty chain it is kept as supplied.
pub open spec fn stored_block(b: BlockV, chain: Seq<BlockV>) -> BlockV {
    if chain.len() == 0 {
        b
    } else {
        BlockV { previous_block_hash: Some(spec_hash(chain.last())), ..b }
    }
}

/// Every block after the first links to the hash of the block stored
/// immediately before it.
pub open spec fn chain_linked(chain: Seq<BlockV>) -> bool {
    forall|i: int|
        1 <= i < chain.len() ==> (#[trigger] chain[i]).previous_block_hash == Some(
            spec_hash(chain[i - 1]),
        )
}

/// The chain store: the accepted blocks and the ledger state they
/// produced.
#[derive(Debug)]
pub struct Storage {
    pub blockchain: Vec<Block>,
    pub accounts: Accounts,
    pub assets: Assets,
}

impl Storage {
    /// The chain over mathematical values.
    pub open spec fn chain_view(&self) -> Seq<BlockV> {
        Seq::new(self.blockchain@.len(), |i: int| self.blockchain@[i]@)
    }

    /// The ledger state over mathematical values.
    pub open spec fn ledger_view(&self) -> LedgerV {
        LedgerV { accounts: self.accounts@, assets: self.assets@ }
    }

    /// Well-formed stores, and a chain whose links hold.
    pub open spec fn wf(&self) -> bool {
        &&& self.accounts.wf()
        &&& self.assets.wf()
        &&& chain_linked(self.chain_view())
    }

    pub fn new() -> (r: Storage)
        ensures
            r.wf(),
            r.chain_view() == Seq::<BlockV>::empty(),
            r.ledger_view().accounts == Map::<u32, crate::commands::AccountV>::empty(),
            r.ledger_view().assets == Map::<(u32, Seq<char>), crate::commands::Asset>::empty(),
    {
        let r = Storage { blockchain: Vec::new(), accounts: Accounts::new(), assets: Assets::new() };
        proof {
            assert(r.chain_view() =~= Seq::<BlockV>::empty());
        }
        r
    }

    /// Replay the block's commands into the ledger state; if all of
    /// them succeed, overwrite its predecessor link from the chain
    /// tail and append it.  On failure the block is rejected, but the
    /// mutations of the commands that already ran remain.
    pub fn add_block(&mut self, block: Block) -> (r: Result<(), StorageError>)
        requires
            old(self).wf(),
        ensures
            final(self).wf(),
            ({
                let (st2, err) = spec_replay(block@.data, old(self).ledger_view());
                &&& final(self).ledger_view() == st2
                &&& match r {
                    Ok(_) => err is None && final(self).chain_view() == old(self).chain_view().push(
                        stored_block(block@, old(self).chain_view()),
                    ),
                    Err(e) => match err {
                        Some(ev) => e@ == spec_error_message(ev) && final(self).chain_view() == old(
                            self,
                        ).chain_view(),
                        None => false,
                    },
                }
            }),
    {
        let ghost b0 = block@;
        let ghost cmds = block@.data;
        let ghost st0 = self.ledger_view();
        proof {
            assert(cmds.skip(0) =~= cmds);
        }
        let mut i: usize = 0;
        while i < block.data.len()
            invariant
                i <= block.data@.len(),
                b0 == block@,
                cmds == block@.data,
                old(self).wf(),
                st0 == old(self).ledger_view(),
                self.accounts.wf(),
                self.assets.wf(),
                spec_replay(cmds, st0) == spec_replay(cmds.skip(i as int), self.ledger_view()),
                self.blockchain == old(self).blockchain,
            decreases block.data@.len() - i,
        {
            let ghost pre = self.ledger_view();
            proof {
                assert(cmds.skip(i as int)[0] == cmds[i as int]);
                assert(cmds.skip(i as int).drop_first() =~= cmds.skip(i as int + 1));
            }
            match block.data[i].command.execute(&mut self.accounts, &mut self.assets) {
                Ok(_) => {},
                Err(e) => {
                    proof {
                        assert(self.chain_view() =~= old(self).chain_view());
                        assert(spec_replay(cmds, st0) == (self.ledger_view(), Some(e@)));
                    }
                    let msg = e.message();
                    return Err(StorageError::CommandExecutionError(msg));
                },
            }
            i += 1;
        }
        proof {
            assert(cmds.skip(cmds.len() as int) =~= Seq::<CommandV>::empty());
            assert(spec_replay(Seq::<CommandV>::empty(), self.ledger_view()) == (
                self.ledger_view(),
                None::<BlockchainErrorV>,
            ));
        }
        let ghost chain0 = self.chain_view();
        let stored = if self.blockchain.len() > 0 {
            let h = hash(&self.blockchain[self.blockchain.len() - 1]);
            proof {
                assert(chain0.last() == self.blockchain@.last()@);
            }
            Block { previous_block_hash: Some(h), ..block }
        } else {
            block
        };
        proof {
            assert(chain0 =~= old(self).chain_view());
            assert(stored@.data =~= b0.data);
            assert(stored@.signature == b0.signature);
            assert(stored@.signer_public_key == b0.signer_public_key);
            assert(stored@.previous_block_hash == stored_block(b0, chain0).previous_block_hash);
            assert(stored@ == stored_block(b0, chain0));
        }
        self.blockchain.push(stored);
        proof {
            let newchain = self.chain_view();
            assert(newchain =~= chain0.push(stored_block(b0, chain0)));
            assert forall|k: int|
                1 <= k < newchain.len() implies (#[trigger] newchain[k]).previous_block_hash
                == Some(spec_hash(newchain[k - 1])) by {
                if k < newchain.len() - 1 {
                    assert(chain_linked(chain0));
                    assert(chain0[k].previous_block_hash == Some(spec_hash(chain0[k - 1])));
                }
            }
        }
        Ok(())
    }
}

} // verus!
