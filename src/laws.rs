//! Properties that relate the derivation flows to one another.
use crate::chain::ethereum_name;
use crate::primitives::lowercase_of;
use crate::wallet::{
    device_wallet, mnemonic_wallet, result_view, WalletError, WalletRecord,
};
use vstd::prelude::*;

verus! {

/// Deriving from the same device identifier and chain name twice gives the same
/// outcome: the same mnemonic, keys and address, or the same error.
pub proof fn lemma_device_wallet_deterministic(
    device_id: Seq<char>,
    chain_type: Seq<char>,
    first: Result<WalletRecord, WalletError>,
    second: Result<WalletRecord, WalletError>,
)
    requires
        result_view(first) == device_wallet(device_id, chain_type),
        result_view(second) == device_wallet(device_id, chain_type),
    ensures
        result_view(first) == result_view(second),
{
}

/// A chain name that lower-cases to `ethereum`, in any case, derives exactly what the
/// empty chain name derives, from a device identifier or from a phrase.
pub proof fn lemma_ethereum_is_default(device_id: Seq<char>, phrase: Seq<char>, chain_type: Seq<char>)
    requires
        lowercase_of(chain_type) == ethereum_name(),
    ensures
        device_wallet(device_id, chain_type) == device_wallet(device_id, Seq::empty()),
        mnemonic_wallet(phrase, chain_type) == mnemonic_wallet(phrase, Seq::empty()),
{
}

} // verus!
