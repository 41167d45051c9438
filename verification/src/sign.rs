//! Ed25519 signing through the `ursa` crate, behind trusted wrappers.
//! Keys and signatures are carried as plain byte vectors; `ursa`'s key
//! newtypes are built at the call boundary.

use vstd::prelude::*;
use ursa::keys::{PrivateKey, PublicKey};
use ursa::signatures::ed25519::Ed25519Sha512;
use ursa::signatures::SignatureScheme;

verus! {

/// Whether the bytes decode as the 64-byte Ed25519 keypair encoding
/// that signing accepts back.
pub uninterp spec fn ed25519_keypair_bytes(sk: Seq<u8>) -> bool;

/// The Ed25519 signature over a message under a keypair encoding:
/// deterministic, a function of its two arguments alone.
pub uninterp spec fn ed25519_signature_of(msg: Seq<u8>, sk: Seq<u8>) -> Seq<u8>;

/// Whether a signature verifies over a message under a public key:
/// deterministic, a function of its three arguments alone.
pub uninterp spec fn ed25519_verifies(msg: Seq<u8>, sig: Seq<u8>, pk: Seq<u8>) -> bool;

/// A matched Ed25519 pair: a signature made with the keypair encoding
/// verifies under the public key, for every message.
pub open spec fn ed25519_paired(pk: Seq<u8>, sk: Seq<u8>) -> bool {
    forall|m: Seq<u8>| #[trigger] ed25519_verifies(m, ed25519_signature_of(m, sk), pk)
}

/// Relies on ursa's `Ed25519Sha512::keypair` called without a seed
/// option: that code path draws from the operating system's generator
/// and always returns a pair, a 32-byte public key and the 64-byte
/// keypair encoding, which `Keypair::from_bytes` accepts back.  The
/// two halves are one generated keypair, so a signature made with the
/// keypair encoding verifies under the public key.
#[verifier::external_body]
pub(crate) fn ed25519_keypair() -> (r: (Vec<u8>, Vec<u8>))
    ensures
        r.0@.len() == 32,
        r.1@.len() == 64,
        ed25519_keypair_bytes(r.1@),
        ed25519_paired(r.0@, r.1@),
{
    let (pk, sk) = Ed25519Sha512::new().keypair(None).unwrap();
    (pk.0.clone(), sk.0.clone())
}

/// Relies on ursa's `Ed25519Sha512::sign`: the signature is a
/// deterministic function of the message and the keypair bytes, and is
/// 64 bytes long; the call fails only when the keypair bytes do not
/// decode.
#[verifier::external_body]
pub(crate) fn ed25519_sign(msg: &Vec<u8>, sk: &Vec<u8>) -> (r: Option<Vec<u8>>)
    ensures
        match r {
            Some(sig) => sig@ == ed25519_signature_of(msg@, sk@) && sig@.len() == 64,
            None => !ed25519_keypair_bytes(sk@),
        },
{
    match Ed25519Sha512::new().sign(msg.as_slice(), &PrivateKey(sk.clone())) {
        Ok(sig) => Some(sig),
        Err(_) => None,
    }
}

/// Relies on ursa's `Ed25519Sha512::verify`: deterministic in the
/// message, signature and key bytes; an error outcome (a key or
/// signature that does not decode, or a failed check) counts as a
/// failed verification, as the `Ok` value is always `true`.
#[verifier::external_body]
pub(crate) fn ed25519_verify(msg: &Vec<u8>, sig: &Vec<u8>, pk: &Vec<u8>) -> (r: bool)
    ensures
        r == ed25519_verifies(msg@, sig@, pk@),
{
    Ed25519Sha512::new().verify(msg.as_slice(), sig.as_slice(), &PublicKey(pk.clone())).is_ok()
}

} // verus!
