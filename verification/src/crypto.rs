//! Ed25519 primitives — key derivation, signing, verification — and the
//! entropy source, provided by `ed25519_dalek` and `rand` behind trusted
//! wrappers.
use vstd::prelude::*;
use ed25519_dalek::Signer;
use ed25519_dalek::Verifier;
use rand::RngCore;

verus! {

/// The 32-byte Ed25519 public key deterministically derived from a
/// 32-byte secret key (hash, clamp, scalar-multiply the base point).
pub uninterp spec fn pubkey_of(sk: Seq<u8>) -> Seq<u8>;

/// Whether `bytes` parse as an Ed25519 public key: exactly 32 bytes that
/// decompress to a point of the curve.
pub uninterp spec fn is_pubkey(bytes: Seq<u8>) -> bool;

/// The 64-byte Ed25519 signature over `msg` under the 32-byte secret key
/// `sk`; Ed25519 signing is deterministic in both.
pub uninterp spec fn signature_of(sk: Seq<u8>, msg: Seq<u8>) -> Seq<u8>;

/// Whether the well-formed signature `sig` is accepted for `msg` under
/// the public key `pk` by Ed25519 verification.
pub uninterp spec fn sig_valid(pk: Seq<u8>, msg: Seq<u8>, sig: Seq<u8>) -> bool;

/// Byte strings accepted as a signature before verification: 64 bytes
/// whose trailing scalar half is at least partially reduced (the three
/// high bits of the last byte clear).
pub open spec fn sig_well_formed(b: Seq<u8>) -> bool {
    b.len() == 64 && b[63] & 0xe0 == 0
}

/// Relies on `rand::rngs::OsRng`, the operating system's entropy source:
/// it either fills the buffer with 32 cryptographically secure random
/// bytes or reports failure; nothing can be said of which bytes come.
#[verifier::external_body]
pub(crate) fn fresh_secret() -> (r: Option<Vec<u8>>)
    ensures
        r matches Some(v) ==> v@.len() == 32,
{
    let mut buf = [0u8; 32];
    match rand::rngs::OsRng.try_fill_bytes(&mut buf) {
        Ok(()) => Some(buf.to_vec()),
        Err(_) => None,
    }
}

/// Relies on `ed25519_dalek::SecretKey::from_bytes` (accepts any 32
/// bytes) and `PublicKey::from(&SecretKey)`: the derivation is a pure
/// function of the secret key, and the derived key, being the compression
/// of a curve point, parses back through `PublicKey::from_bytes`.
#[verifier::external_body]
pub(crate) fn derive_public(sk: &Vec<u8>) -> (r: Vec<u8>)
    requires
        sk@.len() == 32,
    ensures
        r@ == pubkey_of(sk@),
        is_pubkey(r@),
        r@.len() == 32,
{
    let secret = ed25519_dalek::SecretKey::from_bytes(sk.as_slice()).unwrap();
    let public = ed25519_dalek::PublicKey::from(&secret);
    public.as_bytes().to_vec()
}

/// Relies on `ed25519_dalek::PublicKey::from_bytes`: it succeeds exactly
/// when the bytes are a parseable public key, which requires length 32.
#[verifier::external_body]
pub(crate) fn check_public(bytes: &Vec<u8>) -> (r: bool)
    ensures
        r == is_pubkey(bytes@),
        r ==> bytes@.len() == 32,
{
    ed25519_dalek::PublicKey::from_bytes(bytes.as_slice()).is_ok()
}

/// Relies on `ed25519_dalek::Keypair::sign`: signing is deterministic in
/// the secret key and the message, returns 64 bytes whose scalar half is
/// fully reduced, and the result is accepted by Ed25519 verification
/// under the derived public key.
#[verifier::external_body]
pub(crate) fn sign_bytes(sk: &Vec<u8>, msg: &[u8]) -> (r: Vec<u8>)
    requires
        sk@.len() == 32,
    ensures
        r@ == signature_of(sk@, msg@),
        sig_well_formed(r@),
        sig_valid(pubkey_of(sk@), msg@, r@),
{
    let secret = ed25519_dalek::SecretKey::from_bytes(sk.as_slice()).unwrap();
    let public = ed25519_dalek::PublicKey::from(&secret);
    let keypair = ed25519_dalek::Keypair { secret, public };
    keypair.sign(msg).to_bytes().to_vec()
}

/// Relies on `ed25519_dalek::PublicKey::verify` (and
/// `Signature::try_from`, which accepts exactly the well-formed byte
/// strings): acceptance is a pure function of key, message and signature.
#[verifier::external_body]
pub(crate) fn verify_bytes(pk: &Vec<u8>, msg: &[u8], sig: &Vec<u8>) -> (r: bool)
    requires
        is_pubkey(pk@),
        sig_well_formed(sig@),
    ensures
        r == sig_valid(pk@, msg@, sig@),
{
    let public = ed25519_dalek::PublicKey::from_bytes(pk.as_slice()).unwrap();
    let signature = ed25519_dalek::Signature::try_from(sig.as_slice()).unwrap();
    public.verify(msg, &signature).is_ok()
}

} // verus!
