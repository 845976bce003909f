//! Deterministic wallet derivation (mnemonic, secp256k1 key pair, address) from a
//! device identifier or a mnemonic phrase, with message signing and verification.
pub mod chain;
pub mod laws;
pub mod primitives;
pub mod signing;
pub mod text;
pub mod wallet;

pub use chain::{chain_from_lowered, parse_chain, ChainSelector};
pub use signing::{sign_message, verify_signature, Verification};
pub use text::count_words;
pub use wallet::{
    assemble_wallet, decrypt_and_generate_mnemonic, derive_wallet, generate_ethereum_address,
    generate_wallet_from_device_id, generate_wallet_from_mnemonic,
    generate_wallet_from_mnemonic_strict, is_valid_device_id,
    prefixed_hex, WalletError, WalletRecord,
};
