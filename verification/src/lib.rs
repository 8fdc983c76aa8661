//! An Ed25519 wallet: holds at most one identity (a full keypair, or a
//! public key alone), generates or imports key material, signs messages,
//! verifies signatures, and exports the keypair as a JSON record with
//! base58-encoded fields.
use vstd::prelude::*;

pub mod codec;
pub mod crypto;
pub mod wallet;

pub use wallet::KeyState;
pub use wallet::SolanaWallet;
pub use wallet::WalletError;

verus! {

/// Sum of two counters; the caller keeps the sum within `u64`.
pub fn add(left: u64, right: u64) -> (r: u64)
    requires
        left + right <= u64::MAX,
    ensures
        r == left + right,
{
    left + right
}

} // verus!
