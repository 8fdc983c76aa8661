//! The keypair manager: holds at most one identity and offers the
//! generate / import / export / sign / verify operations over it.
use vstd::prelude::*;
use vstd::string::StringExecFns;
use crate::codec::b58_of;
use crate::codec::is_b58_string;
use crate::codec::export_record;
use crate::codec::b58_encode;
use crate::codec::b58_decode;
use crate::crypto::pubkey_of;
use crate::crypto::is_pubkey;
use crate::crypto::signature_of;
use crate::crypto::sig_valid;
use crate::crypto::sig_well_formed;
use crate::crypto::fresh_secret;
use crate::crypto::derive_public;
use crate::crypto::check_public;
use crate::crypto::sign_bytes;
use crate::crypto::verify_bytes;

verus! {

/// How an operation fails. Verification of a well-formed but wrong
/// signature is a `false` result, not an error.
#[derive(Clone, Copy, Debug, PartialEq, Eq, Structural)]
pub enum WalletError {
    /// An input string holds a character outside the base58 alphabet.
    DecodeError,
    /// Decoded key bytes are not a structurally valid Ed25519 key.
    InvalidKeyError,
    /// Decoded signature bytes are not a structurally valid signature.
    InvalidSignatureError,
    /// The operation needs a key of either kind, and none is held.
    NoKeyError,
    /// The operation needs a secret key; none, or only a public key, is held.
    NoSecretKeyError,
    /// The host's entropy source was unavailable or denied the request.
    EntropyFailure,
}

/// The key material a wallet can hold, seen at the specification level:
/// key bytes as mathematical byte strings.
pub enum KeyState {
    /// No key of either kind: the initial state.
    Empty,
    /// A public key alone: verification is possible, signing is not.
    PublicOnly { pk: Seq<u8> },
    /// A secret key with its derived public key.
    Full { pk: Seq<u8>, sk: Seq<u8> },
}

impl KeyState {
    /// The public key held in this state; meaningful only off `Empty`.
    pub open spec fn pk(self) -> Seq<u8> {
        match self {
            KeyState::Empty => Seq::empty(),
            KeyState::PublicOnly { pk } => pk,
            KeyState::Full { pk, .. } => pk,
        }
    }
}

enum KeyMaterial {
    Empty,
    PublicOnly { public: Vec<u8> },
    Full { public: Vec<u8>, secret: Vec<u8> },
}

/// A wallet: at most one identity, replaced wholesale by `generate_keypair`,
/// `import_keypair` or `import_public_key`, and never cleared.
pub struct SolanaWallet {
    key: KeyMaterial,
}

impl View for SolanaWallet {
    type V = KeyState;

    closed spec fn view(&self) -> KeyState {
        match self.key {
            KeyMaterial::Empty => KeyState::Empty,
            KeyMaterial::PublicOnly { public } => KeyState::PublicOnly { pk: public@ },
            KeyMaterial::Full { public, secret } => KeyState::Full {
                pk: public@,
                sk: secret@,
            },
        }
    }
}

impl SolanaWallet {
    /// A held public key parses as an Ed25519 key, and a held secret key
    /// is 32 bytes whose derived public key is the held one.
    #[verifier::type_invariant]
    spec fn inv(self) -> bool {
        match self.key {
            KeyMaterial::Empty => true,
            KeyMaterial::PublicOnly { public } => is_pubkey(public@),
            KeyMaterial::Full { public, secret } => secret@.len() == 32 && public@
                == pubkey_of(secret@) && is_pubkey(public@),
        }
    }

    /// A fresh wallet holds no key material.
    pub fn new() -> (w: Self)
        ensures
            w@ is Empty,
    {
        SolanaWallet { key: KeyMaterial::Empty }
    }

    /// The base58 encoding of the held public key, from either kind of
    /// identity; `NoKeyError` when none is held.
    pub fn get_public_key(&self) -> (r: Result<String, WalletError>)
        ensures
            self@ is Empty <==> r == Err::<String, WalletError>(WalletError::NoKeyError),
            !(self@ is Empty) ==> (r matches Ok(s) && s@ == b58_of(self@.pk())),
    {
        match &self.key {
            KeyMaterial::Empty => Err(WalletError::NoKeyError),
            KeyMaterial::PublicOnly { public } => Ok(b58_encode(public)),
            KeyMaterial::Full { public, .. } => Ok(b58_encode(public)),
        }
    }

    /// Decode a base58 secret key, derive its public key, and replace the
    /// held material with the full keypair; the encoded public key comes
    /// back. A failure leaves the wallet as it was: `DecodeError` exactly
    /// on a string outside the base58 alphabet, `InvalidKeyError` exactly
    /// when the decoded bytes are not 32 long.
    pub fn import_keypair(&mut self, secret_key_bs58: &str) -> (r: Result<String, WalletError>)
        ensures
            r is Ok <==> exists|sk: Seq<u8>|
                #[trigger] b58_of(sk) == secret_key_bs58@ && sk.len() == 32,
            r == Err::<String, WalletError>(WalletError::DecodeError) <==> !is_b58_string(
                secret_key_bs58@,
            ),
            forall|sk: Seq<u8>|
                #[trigger] b58_of(sk) == secret_key_bs58@ ==> if sk.len() == 32 {
                    &&& r matches Ok(s) && s@ == b58_of(pubkey_of(sk))
                    &&& final(self)@ == (KeyState::Full { pk: pubkey_of(sk), sk })
                } else {
                    r == Err::<String, WalletError>(WalletError::InvalidKeyError)
                },
            r is Err ==> final(self)@ == old(self)@,
    {
        let decoded = match b58_decode(secret_key_bs58) {
            Some(bytes) => bytes,
            None => { return Err(WalletError::DecodeError); },
        };
        if decoded.len() != 32 {
            return Err(WalletError::InvalidKeyError);
        }
        let public = derive_public(&decoded);
        let encoded = b58_encode(&public);
        self.key = KeyMaterial::Full { public, secret: decoded };
        Ok(encoded)
    }

    /// Decode and validate a base58 public key and replace the held
    /// material with it alone, discarding any held secret key. A failure
    /// leaves the wallet as it was: `DecodeError` exactly on a string
    /// outside the base58 alphabet, `InvalidKeyError` exactly when the
    /// decoded bytes do not parse as an Ed25519 public key.
    pub fn import_public_key(&mut self, public_key_bs58: &str) -> (r: Result<(), WalletError>)
        ensures
            r is Ok <==> exists|pk: Seq<u8>|
                #[trigger] b58_of(pk) == public_key_bs58@ && is_pubkey(pk),
            r == Err::<(), WalletError>(WalletError::DecodeError) <==> !is_b58_string(
                public_key_bs58@,
            ),
            forall|pk: Seq<u8>|
                #[trigger] b58_of(pk) == public_key_bs58@ ==> if is_pubkey(pk) {
                    r is Ok && final(self)@ == (KeyState::PublicOnly { pk })
                } else {
                    r == Err::<(), WalletError>(WalletError::InvalidKeyError)
                },
            r is Err ==> final(self)@ == old(self)@,
    {
        let decoded = match b58_decode(public_key_bs58) {
            Some(bytes) => bytes,
            None => { return Err(WalletError::DecodeError); },
        };
        if !check_public(&decoded) {
            return Err(WalletError::InvalidKeyError);
        }
        self.key = KeyMaterial::PublicOnly { public: decoded };
        Ok(())
    }

    /// Draw 32 bytes of fresh entropy, derive the keypair they determine,
    /// replace the held material with it, and return the encoded public
    /// key. `EntropyFailure`, with the wallet left as it was, exactly
    /// when the entropy source denies the request.
    pub fn generate_keypair(&mut self) -> (r: Result<String, WalletError>)
        ensures
            r matches Ok(s) ==> exists|sk: Seq<u8>|
                {
                    &&& sk.len() == 32
                    &&& final(self)@ == (KeyState::Full { pk: #[trigger] pubkey_of(sk), sk })
                    &&& s@ == b58_of(pubkey_of(sk))
                },
            r is Err ==> r == Err::<String, WalletError>(WalletError::EntropyFailure)
                && final(self)@ == old(self)@,
    {
        let secret = match fresh_secret() {
            Some(bytes) => bytes,
            None => { return Err(WalletError::EntropyFailure); },
        };
        let public = derive_public(&secret);
        let encoded = b58_encode(&public);
        self.key = KeyMaterial::Full { public, secret };
        Ok(encoded)
    }

    /// Sign the exact message bytes with the held secret key and return
    /// the 64-byte signature base58-encoded; the signature verifies under
    /// the held public key. `NoSecretKeyError` exactly when no full
    /// keypair is held. Read-only: the wallet is left as it was.
    pub fn sign_message(&self, message: &[u8]) -> (r: Result<String, WalletError>)
        ensures
            self@ matches KeyState::Full { pk, sk } ==> {
                &&& r matches Ok(s) && s@ == b58_of(signature_of(sk, message@))
                &&& sig_well_formed(signature_of(sk, message@))
                &&& sig_valid(pk, message@, signature_of(sk, message@))
            },
            !(self@ is Full) <==> r == Err::<String, WalletError>(WalletError::NoSecretKeyError),
    {
        proof {
            use_type_invariant(&*self);
        }
        match &self.key {
            KeyMaterial::Full { secret, .. } => Ok(b58_encode(&sign_bytes(secret, message))),
            _ => Err(WalletError::NoSecretKeyError),
        }
    }

    /// Decode a base58 signature and check it against the message under
    /// the held public key: `true` exactly when Ed25519 accepts it, and
    /// `false`, not an error, for a well-formed signature that does not
    /// match. `NoKeyError` exactly when no key of either kind is held;
    /// otherwise `DecodeError` exactly on a string outside the base58
    /// alphabet, and `InvalidSignatureError` exactly when the decoded
    /// bytes are not a structurally valid signature.
    pub fn verify_signature(&self, message: &[u8], signature_bs58: &str) -> (r: Result<
        bool,
        WalletError,
    >)
        ensures
            self@ is Empty <==> r == Err::<bool, WalletError>(WalletError::NoKeyError),
            !(self@ is Empty) ==> {
                &&& (r == Err::<bool, WalletError>(WalletError::DecodeError) <==> !is_b58_string(
                    signature_bs58@,
                ))
                &&& forall|sig: Seq<u8>|
                    #[trigger] b58_of(sig) == signature_bs58@ ==> if sig_well_formed(sig) {
                        r == Ok::<bool, WalletError>(sig_valid(self@.pk(), message@, sig))
                    } else {
                        r == Err::<bool, WalletError>(WalletError::InvalidSignatureError)
                    }
                &&& r is Ok <==> exists|sig: Seq<u8>|
                    #[trigger] b58_of(sig) == signature_bs58@ && sig_well_formed(sig)
            },
    {
        proof {
            use_type_invariant(&*self);
        }
        let public = match &self.key {
            KeyMaterial::Empty => { return Err(WalletError::NoKeyError); },
            KeyMaterial::PublicOnly { public } => public,
            KeyMaterial::Full { public, .. } => public,
        };
        let decoded = match b58_decode(signature_bs58) {
            Some(bytes) => bytes,
            None => { return Err(WalletError::DecodeError); },
        };
        if decoded.len() != 64 || decoded[63] & 0xe0 != 0 {
            return Err(WalletError::InvalidSignatureError);
        }
        Ok(verify_bytes(public, message, &decoded))
    }

    /// The held keypair as a JSON record with base58-encoded `public_key`
    /// and `secret_key` fields. `NoSecretKeyError` exactly when no full
    /// keypair is held. Read-only: the wallet is left as it was, and the
    /// caller owns the safe keeping of the returned secret material.
    pub fn export_keypair(&self) -> (r: Result<String, WalletError>)
        ensures
            self@ matches KeyState::Full { pk, sk } ==> (r matches Ok(s) && s@ == export_record(
                b58_of(pk),
                b58_of(sk),
            )),
            !(self@ is Full) <==> r == Err::<String, WalletError>(WalletError::NoSecretKeyError),
    {
        match &self.key {
            KeyMaterial::Full { public, secret } => {
                let pk_s = b58_encode(public);
                let sk_s = b58_encode(secret);
                let mut out = String::from_str("{\"public_key\":\"");
                out.append(pk_s.as_str());
                out.append("\",\"secret_key\":\"");
                out.append(sk_s.as_str());
                out.append("\"}");
                assert(out@ =~= export_record(pk_s@, sk_s@));
                Ok(out)
            },
            _ => Err(WalletError::NoSecretKeyError),
        }
    }
}

} // verus!
