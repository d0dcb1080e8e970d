//! Per-swap key managers, derived by farcaster_core from the wallet seed.
use vstd::prelude::*;

use farcaster_core::crypto::Error as CryptoError;
use farcaster_core::swap::btcxmr::KeyManager;

verus! {

#[verifier::external_type_specification]
#[verifier::external_body]
pub struct ExKeyManager(KeyManager);

#[verifier::external_type_specification]
#[verifier::external_body]
pub struct ExCryptoError(CryptoError);

/// The largest derivation index a swap key manager accepts: indices are hardened.
pub const MAX_SWAP_INDEX: u32 = 0x7fff_ffff;

/// Whether a key manager is derived from this seed for this swap index.
pub uninterp spec fn derives(seed: Seq<u8>, swap_index: u32) -> bool;

/// Relies on `farcaster_core::swap::btcxmr::KeyManager::new`: it derives the swap's key
/// manager from the seed and the swap index alone, and refuses an index that is not
/// hardened.
#[verifier::external_body]
pub(crate) fn new_key_manager(seed: [u8; 32], swap_index: u32) -> (r: Result<KeyManager, CryptoError>)
    ensures
        r is Ok <==> derives(seed@, swap_index),
        swap_index > MAX_SWAP_INDEX ==> r is Err,
{
    KeyManager::new(seed, swap_index)
}

} // verus!
