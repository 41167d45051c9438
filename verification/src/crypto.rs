//! Content hashing and the stake draw: a canonical byte encoding of
//! blocks and transaction batches, a digest wrapper over `blake2`, and
//! the big-endian draw taken from a hash prefix.

use vstd::prelude::*;
use blake2::Digest;
use crate::commands::{Block, BlockV, Command, CommandV, Transaction};

verus! {

/// Big-endian bytes of a 32-bit value.
pub open spec fn enc_u32(v: u32) -> Seq<u8> {
    seq![
        ((v >> 24) & 0xff) as u8,
        ((v >> 16) & 0xff) as u8,
        ((v >> 8) & 0xff) as u8,
        (v & 0xff) as u8,
    ]
}

/// Big-endian bytes of a 64-bit value.
pub open spec fn enc_u64(v: u64) -> Seq<u8> {
    seq![
        ((v >> 56) & 0xff) as u8,
        ((v >> 48) & 0xff) as u8,
        ((v >> 40) & 0xff) as u8,
        ((v >> 32) & 0xff) as u8,
        ((v >> 24) & 0xff) as u8,
        ((v >> 16) & 0xff) as u8,
        ((v >> 8) & 0xff) as u8,
        (v & 0xff) as u8,
    ]
}

/// A 32-bit signed value, encoded through its two's-complement bits.
pub open spec fn enc_i32(v: i32) -> Seq<u8> {
    enc_u32(v as u32)
}

/// A length-prefixed byte string.
pub open spec fn enc_bytes(b: Seq<u8>) -> Seq<u8> {
    enc_u64(b.len() as u64) + b
}

/// A length-prefixed text string, in its UTF-8 byte form.
pub open spec fn enc_str(s: Seq<char>) -> Seq<u8> {
    enc_bytes(vstd::utf8::encode_utf8(s))
}

/// An optional text string: a presence byte, then the string.
pub open spec fn enc_opt_str(s: Option<Seq<char>>) -> Seq<u8> {
    match s {
        Some(s) => seq![1u8] + enc_str(s),
        None => seq![0u8],
    }
}

/// Parameter bindings, each as a key and a value.
pub open spec fn enc_params(s: Seq<(Seq<char>, Seq<char>)>) -> Seq<u8>
    decreases s.len(),
{
    if s.len() == 0 {
        Seq::empty()
    } else {
        enc_params(s.drop_last()) + enc_str(s.last().0) + enc_str(s.last().1)
    }
}

/// One command: a tag byte, then its fields.
pub open spec fn enc_command(c: CommandV) -> Seq<u8> {
    match c {
        CommandV::CreateAccount { public_key } => seq![0u8] + enc_str(public_key),
        CommandV::AddFunds { account_id, value, asset_id } => seq![1u8] + enc_u32(account_id)
            + enc_i32(value) + enc_str(asset_id),
        CommandV::TransferFunds { from_account_id, to_account_id, value, asset_id } => seq![2u8]
            + enc_u32(from_account_id) + enc_u32(to_account_id) + enc_i32(value)
            + enc_str(asset_id),
        CommandV::UpdateAccount { account_id, name, contact_info } => seq![3u8]
            + enc_u32(account_id) + enc_opt_str(name) + enc_opt_str(contact_info),
        CommandV::ExecuteSmartContract { contract_id, params, account_id } => seq![4u8]
            + enc_str(contract_id) + enc_u64(params.len() as u64) + enc_params(params)
            + enc_u32(account_id),
        CommandV::IssueAsset { account_id, asset_id, value } => seq![5u8] + enc_u32(account_id)
            + enc_str(asset_id) + enc_i32(value),
        CommandV::TransferAsset { from_account_id, to_account_id, asset_id } => seq![6u8]
            + enc_u32(from_account_id) + enc_u32(to_account_id) + enc_str(asset_id),
        CommandV::RedeemAsset { account_id, asset_id, value, redeem_in_asset_id } => seq![7u8]
            + enc_u32(account_id) + enc_str(asset_id) + enc_i32(value)
            + enc_str(redeem_in_asset_id),
        CommandV::TransactionCommission { account_id, value } => seq![8u8] + enc_u32(account_id)
            + enc_i32(value),
    }
}

/// The commands of a transaction batch, in order.
pub open spec fn enc_commands(s: Seq<CommandV>) -> Seq<u8>
    decreases s.len(),
{
    if s.len() == 0 {
        Seq::empty()
    } else {
        enc_commands(s.drop_last()) + enc_command(s.last())
    }
}

/// A transaction batch: its length, then each command.
pub open spec fn enc_data(s: Seq<CommandV>) -> Seq<u8> {
    enc_u64(s.len() as u64) + enc_commands(s)
}

/// A whole block: batch, signature, signer key, predecessor link.
pub open spec fn enc_block(b: BlockV) -> Seq<u8> {
    enc_data(b.data) + enc_bytes(b.signature) + enc_bytes(b.signer_public_key) + (match b
        .previous_block_hash {
        Some(h) => seq![1u8] + enc_bytes(h),
        None => seq![0u8],
    })
}

/// The 32-byte BLAKE2s digest of a byte string.
pub uninterp spec fn blake2s_of(bytes: Seq<u8>) -> Seq<u8>;

/// The content hash of a block: the digest of its canonical bytes.
pub open spec fn spec_hash(b: BlockV) -> Seq<u8> {
    blake2s_of(enc_block(b))
}

/// Relies on `blake2::Blake2s256` through the `Digest` trait: the
/// digest is a function of the input bytes alone and is 32 bytes long.
#[verifier::external_body]
fn blake2s_digest(bytes: &Vec<u8>) -> (r: Vec<u8>)
    ensures
        r@ == blake2s_of(bytes@),
        r@.len() == 32,
{
    let mut hasher = blake2::Blake2s256::new();
    hasher.update(bytes.as_slice());
    let out = hasher.finalize();
    let mut r = Vec::new();
    r.extend_from_slice(out.as_slice());
    r
}

fn push_u32(out: &mut Vec<u8>, v: u32)
    ensures
        final(out)@ == old(out)@ + enc_u32(v),
{
    proof {
        assert((v >> 24) & 0xff < 256 && (v >> 16) & 0xff < 256 && (v >> 8) & 0xff < 256 && v
            & 0xff < 256) by (bit_vector);
    }
    out.push(((v >> 24) & 0xff) as u8);
    out.push(((v >> 16) & 0xff) as u8);
    out.push(((v >> 8) & 0xff) as u8);
    out.push((v & 0xff) as u8);
    proof {
        assert(out@ =~= old(out)@ + enc_u32(v));
    }
}

fn push_u64(out: &mut Vec<u8>, v: u64)
    ensures
        final(out)@ == old(out)@ + enc_u64(v),
{
    proof {
        assert((v >> 56) & 0xff < 256 && (v >> 48) & 0xff < 256 && (v >> 40) & 0xff < 256 && (v
            >> 32) & 0xff < 256 && (v >> 24) & 0xff < 256 && (v >> 16) & 0xff < 256 && (v >> 8)
            & 0xff < 256 && v & 0xff < 256) by (bit_vector);
    }
    out.push(((v >> 56) & 0xff) as u8);
    out.push(((v >> 48) & 0xff) as u8);
    out.push(((v >> 40) & 0xff) as u8);
    out.push(((v >> 32) & 0xff) as u8);
    out.push(((v >> 24) & 0xff) as u8);
    out.push(((v >> 16) & 0xff) as u8);
    out.push(((v >> 8) & 0xff) as u8);
    out.push((v & 0xff) as u8);
    proof {
        assert(out@ =~= old(out)@ + enc_u64(v));
    }
}

fn push_i32(out: &mut Vec<u8>, v: i32)
    ensures
        final(out)@ == old(out)@ + enc_i32(v),
{
    push_u32(out, #[verifier::truncate] (v as u32));
}

fn push_byte_string(out: &mut Vec<u8>, b: &[u8])
    ensures
        final(out)@ == old(out)@ + enc_bytes(b@),
{
    push_u64(out, b.len() as u64);
    let ghost mid = out@;
    let mut i: usize = 0;
    while i < b.len()
        invariant
            i <= b@.len(),
            out@ == mid + b@.take(i as int),
        decreases b@.len() - i,
    {
        out.push(b[i]);
        proof {
            assert(out@ =~= mid + b@.take(i + 1));
        }
        i += 1;
    }
    proof {
        assert(out@ =~= old(out)@ + enc_bytes(b@));
    }
}

fn push_str(out: &mut Vec<u8>, s: &str)
    ensures
        final(out)@ == old(out)@ + enc_str(s@),
{
    push_byte_string(out, s.as_bytes());
}

fn push_opt_str(out: &mut Vec<u8>, s: &Option<String>)
    ensures
        final(out)@ == old(out)@ + enc_opt_str(s.deep_view()),
{
    match s {
        Some(s) => {
            out.push(1u8);
            proof {
                assert(out@ =~= old(out)@ + seq![1u8]);
            }
            push_str(out, s.as_str());
        },
        None => {
            out.push(0u8);
            proof {
                assert(out@ =~= old(out)@ + seq![0u8]);
            }
        },
    }
}

fn push_command(out: &mut Vec<u8>, c: &Command)
    ensures
        final(out)@ == old(out)@ + enc_command(c@),
{
    match c {
        Command::CreateAccount { public_key } => {
            out.push(0u8);
            proof {
                assert(out@ =~= old(out)@ + seq![0u8]);
            }
            push_str(out, public_key.as_str());
        },
        Command::AddFunds { account_id, value, asset_id } => {
            out.push(1u8);
            proof {
                assert(out@ =~= old(out)@ + seq![1u8]);
            }
            push_u32(out, *account_id);
            push_i32(out, *value);
            push_str(out, asset_id.as_str());
        },
        Command::TransferFunds { from_account_id, to_account_id, value, asset_id } => {
            out.push(2u8);
            proof {
                assert(out@ =~= old(out)@ + seq![2u8]);
            }
            push_u32(out, *from_account_id);
            push_u32(out, *to_account_id);
            push_i32(out, *value);
            push_str(out, asset_id.as_str());
        },
        Command::UpdateAccount { account_id, name, contact_info } => {
            out.push(3u8);
            proof {
                assert(out@ =~= old(out)@ + seq![3u8]);
            }
            push_u32(out, *account_id);
            push_opt_str(out, name);
            push_opt_str(out, contact_info);
        },
        Command::ExecuteSmartContract { contract_id, params, account_id } => {
            out.push(4u8);
            proof {
                assert(out@ =~= old(out)@ + seq![4u8]);
            }
            push_str(out, contract_id.as_str());
            push_u64(out, params.entries.len() as u64);
            let ghost mid = out@;
            let mut i: usize = 0;
            while i < params.entries.len()
                invariant
                    i <= params.entries@.len(),
                    out@ == mid + enc_params(params@.take(i as int)),
                decreases params.entries@.len() - i,
            {
                push_str(out, params.entries[i].0.as_str());
                push_str(out, params.entries[i].1.as_str());
                proof {
                    assert(params@.take(i + 1).drop_last() =~= params@.take(i as int));
                    assert(params@.take(i + 1).last() == params@[i as int]);
                    assert(out@ =~= mid + enc_params(params@.take(i + 1)));
                }
                i += 1;
            }
            proof {
                assert(params@.take(params@.len() as int) =~= params@);
            }
            push_u32(out, *account_id);
        },
        Command::IssueAsset { account_id, asset_id, value } => {
            out.push(5u8);
            proof {
                assert(out@ =~= old(out)@ + seq![5u8]);
            }
            push_u32(out, *account_id);
            push_str(out, asset_id.as_str());
            push_i32(out, *value);
        },
        Command::TransferAsset { from_account_id, to_account_id, asset_id } => {
            out.push(6u8);
            proof {
                assert(out@ =~= old(out)@ + seq![6u8]);
            }
            push_u32(out, *from_account_id);
            push_u32(out, *to_account_id);
            push_str(out, asset_id.as_str());
        },
        Command::RedeemAsset { account_id, asset_id, value, redeem_in_asset_id } => {
            out.push(7u8);
            proof {
                assert(out@ =~= old(out)@ + seq![7u8]);
            }
            push_u32(out, *account_id);
            push_str(out, asset_id.as_str());
            push_i32(out, *value);
            push_str(out, redeem_in_asset_id.as_str());
        },
        Command::TransactionCommission { account_id, value } => {
            out.push(8u8);
            proof {
                assert(out@ =~= old(out)@ + seq![8u8]);
            }
            push_u32(out, *account_id);
            push_i32(out, *value);
        },
    }
}

/// Canonical bytes of a transaction batch: what blocks sign and what
/// validators verify.
pub fn encode_data(data: &Vec<Transaction>) -> (r: Vec<u8>)
    ensures
        r@ == enc_data(Seq::new(data@.len(), |i: int| data@[i]@)),
{
    let ghost cmds = Seq::new(data@.len(), |i: int| data@[i]@);
    let mut out: Vec<u8> = Vec::new();
    push_u64(&mut out, data.len() as u64);
    let ghost mid = out@;
    let mut i: usize = 0;
    while i < data.len()
        invariant
            i <= data@.len(),
            cmds == Seq::new(data@.len(), |i: int| data@[i]@),
            out@ == mid + enc_commands(cmds.take(i as int)),
        decreases data@.len() - i,
    {
        push_command(&mut out, &data[i].command);
        proof {
            assert(cmds.take(i + 1).drop_last() =~= cmds.take(i as int));
            assert(cmds.take(i + 1).last() == cmds[i as int]);
            assert(out@ =~= mid + enc_commands(cmds.take(i + 1)));
        }
        i += 1;
    }
    proof {
        assert(cmds.take(cmds.len() as int) =~= cmds);
        assert(out@ =~= enc_data(cmds));
    }
    out
}

/// Canonical bytes of a whole block, signature and links included.
fn encode_block(b: &Block) -> (r: Vec<u8>)
    ensures
        r@ == enc_block(b@),
{
    let mut out = encode_data(&b.data);
    push_byte_string(&mut out, b.signature.as_slice());
    push_byte_string(&mut out, b.signer_public_key.as_slice());
    match &b.previous_block_hash {
        Some(h) => {
            out.push(1u8);
            proof {
                assert(out@ =~= enc_data(b@.data) + enc_bytes(b@.signature) + enc_bytes(
                    b@.signer_public_key,
                ) + seq![1u8]);
            }
            push_byte_string(&mut out, h.as_slice());
        },
        None => {
            out.push(0u8);
        },
    }
    proof {
        assert(out@ =~= enc_block(b@));
    }
    out
}

/// The content hash of a block, as the chain stores and links it.
pub fn hash(block: &Block) -> (r: Vec<u8>)
    ensures
        r@ == spec_hash(block@),
        r@.len() == 32,
{
    let bytes = encode_block(block);
    blake2s_digest(&bytes)
}

/// The draw a hash yields: its first eight bytes read as a big-endian
/// integer, missing bytes read as zero.  The draw over the maximum
/// 64-bit value is the fraction the proposal rule compares against.
pub open spec fn spec_draw(h: Seq<u8>) -> nat {
    be_val(Seq::new(8, |i: int| if i < h.len() { h[i] } else { 0u8 }))
}

/// Big-endian value of a byte string.
pub open spec fn be_val(s: Seq<u8>) -> nat
    decreases s.len(),
{
    if s.len() == 0 {
        0
    } else {
        be_val(s.drop_last()) * 256 + s.last() as nat
    }
}

/// Powers of 256, for bounding big-endian values.
pub open spec fn pow256(n: nat) -> nat
    decreases n,
{
    if n == 0 {
        1
    } else {
        256 * pow256((n - 1) as nat)
    }
}

proof fn lemma_pow256_le(a: nat, b: nat)
    requires
        a <= b,
    ensures
        pow256(a) <= pow256(b),
    decreases b,
{
    if a < b {
        lemma_pow256_le(a, (b - 1) as nat);
        assert(pow256((b - 1) as nat) <= 256 * pow256((b - 1) as nat)) by (nonlinear_arith)
            requires
                pow256((b - 1) as nat) >= 0,
        ;
    }
}

/// The stake draw derived from a block hash, as a 64-bit numerator
/// over the maximum 64-bit value.
pub fn calculate_draw(h: &Vec<u8>) -> (r: u64)
    ensures
        r == spec_draw(h@),
{
    let ghost padded = Seq::new(8, |i: int| if i < h@.len() { h@[i] } else { 0u8 });
    let mut acc: u64 = 0;
    let mut i: usize = 0;
    while i < 8
        invariant
            i <= 8,
            padded == Seq::new(8, |j: int| if j < h@.len() { h@[j] } else { 0u8 }),
            acc == be_val(padded.take(i as int)),
            acc < pow256(i as nat),
        decreases 8 - i,
    {
        let b: u8 = if i < h.len() {
            h[i]
        } else {
            0
        };
        proof {
            assert(padded.take(i + 1).drop_last() =~= padded.take(i as int));
            assert(padded.take(i + 1).last() == padded[i as int]);
            assert(padded[i as int] == b);
            assert(acc * 256 + b < 256 * pow256(i as nat)) by (nonlinear_arith)
                requires
                    acc < pow256(i as nat),
                    b < 256,
            ;
            assert(pow256((i + 1) as nat) == 256 * pow256(i as nat));
            lemma_pow256_le((i + 1) as nat, 8);
            assert(pow256(8) == 0x1_0000_0000_0000_0000) by {
                reveal_with_fuel(pow256, 9);
            }
        }
        acc = acc * 256 + (b as u64);
        i += 1;
    }
    proof {
        assert(padded.take(8) =~= padded);
    }
    acc
}

} // verus!
