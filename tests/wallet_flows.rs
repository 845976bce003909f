use wasm_crypto::{
    assemble_wallet, chain_from_lowered,
    count_words, decrypt_and_generate_mnemonic, generate_ethereum_address,
    generate_wallet_from_device_id, generate_wallet_from_mnemonic,
    generate_wallet_from_mnemonic_strict, is_valid_device_id,
    parse_chain, prefixed_hex, ChainSelector, WalletError, WalletRecord,
};

const DEVICE: &str = "AbCdEfGh12";
const DEVICE_MNEMONIC: &str =
    "whale like chef blast local winter any muscle code obey text advance";
const DEVICE_SEED: &str = "7cf0a4cecd33634417f42ec38765b37192f4b6bc2d94b718923d8fea91f578fd";
const DEVICE_PUBLIC: &str = "0339b26e1a7b48710f4179598fb00bd2bd29f9b20caf48736a42b4132c97a3b263";
const DEVICE_UNCOMPRESSED: &str = "0439b26e1a7b48710f4179598fb00bd2bd29f9b20caf48736a42b4132c97a3b263246c4b9eb36d1a385837ca8d0bbaefd859d99bea6649c5f2076863672a5f7e0f";
const DEVICE_ADDRESS: &str = "0x5d614207958e388b7739b60875d6983ed90186bc";

fn is_prefixed_hex(s: &str, digits: usize) -> bool {
    s.len() == digits + 2
        && s.starts_with("0x")
        && s[2..].chars().all(|c| c.is_ascii_digit() || ('a'..='f').contains(&c))
}

fn same_record(a: &WalletRecord, b: &WalletRecord) -> bool {
    a.mnemonic == b.mnemonic
        && a.public_key == b.public_key
        && a.private_key == b.private_key
        && a.address == b.address
        && a.chain_type == b.chain_type
        && a.success == b.success
}

#[test]
fn device_wallet_exact_values() {
    let w = generate_wallet_from_device_id(DEVICE, "ethereum").unwrap();
    assert_eq!(w.mnemonic, DEVICE_MNEMONIC);
    assert_eq!(w.private_key, format!("0x{}", DEVICE_SEED));
    assert_eq!(w.public_key, format!("0x{}", DEVICE_UNCOMPRESSED));
    assert_eq!(w.address, DEVICE_ADDRESS);
    assert_eq!(w.chain_type, "ethereum");
    assert!(w.success);
}

#[test]
fn device_wallet_other_identifiers() {
    let w = generate_wallet_from_device_id("ABCDEFGHIJ", "").unwrap();
    assert_eq!(
        w.mnemonic,
        "champion oblige frown erupt bottom shock ride hub october fury vacuum holiday"
    );
    assert_eq!(
        w.private_key,
        "0x3f8ded81a3749a16b07a012fd4441ace8ecd30620a04363ad953ed5d9e4a9518"
    );
    assert_eq!(w.address, "0x8a1dc74d9f84fa840090aa5972f056b1136ba535");
    let w = generate_wallet_from_device_id("0123456789", "ethereum").unwrap();
    assert_eq!(
        w.mnemonic,
        "luggage shadow bulb ticket doctor author unit left borrow resource ankle bundle"
    );
}

#[test]
fn device_wallet_is_deterministic() {
    let a = generate_wallet_from_device_id(DEVICE, "polkadot").unwrap();
    let b = generate_wallet_from_device_id(DEVICE, "polkadot").unwrap();
    assert!(same_record(&a, &b));
    let a = generate_wallet_from_device_id(DEVICE, "").unwrap();
    let b = generate_wallet_from_device_id(DEVICE, "").unwrap();
    assert!(same_record(&a, &b));
}

#[test]
fn produced_values_have_their_formats() {
    for device in ["AbCdEfGh12", "ABCDEFGHIJ", "0123456789", "zzzzzzzzzz"] {
        let w = generate_wallet_from_device_id(device, "").unwrap();
        assert_eq!(w.mnemonic.split_whitespace().count(), 12);
        assert!(is_prefixed_hex(&w.address, 40));
        assert!(is_prefixed_hex(&w.private_key, 64));
        assert!(is_prefixed_hex(&w.public_key, 130));
        assert!(w.public_key.starts_with("0x04"));
        let p = generate_wallet_from_device_id(device, "kusama").unwrap();
        assert!(is_prefixed_hex(&p.private_key, 64));
    }
}

#[test]
fn short_device_id_reports_its_length() {
    assert_eq!(
        generate_wallet_from_device_id("abc", "ethereum").err(),
        Some(WalletError::InvalidDeviceId { length: 3 })
    );
}

#[test]
fn non_alphanumeric_device_id_fails() {
    assert_eq!(
        generate_wallet_from_device_id("abcdefghi!", "ethereum").err(),
        Some(WalletError::InvalidDeviceId { length: 10 })
    );
    assert!(!is_valid_device_id("abcdefghé"));
    assert!(!is_valid_device_id("abcdefghij1"));
    assert!(is_valid_device_id("abcdefghij"));
}

#[test]
fn two_word_phrase_fails_on_word_count() {
    assert_eq!(
        generate_wallet_from_mnemonic("only two words", "ethereum").err(),
        Some(WalletError::InvalidMnemonicLength { count: 3 })
    );
}

#[test]
fn empty_and_any_case_ethereum_agree() {
    let base = generate_wallet_from_device_id(DEVICE, "").unwrap();
    for chain in ["ethereum", "ETHEREUM", "Ethereum", "eThErEuM"] {
        let w = generate_wallet_from_device_id(DEVICE, chain).unwrap();
        assert!(same_record(&base, &w));
    }
}

#[test]
fn other_chains_use_bare_compressed_key() {
    let w = generate_wallet_from_device_id(DEVICE, "Polkadot").unwrap();
    assert_eq!(w.public_key, DEVICE_PUBLIC);
    assert_eq!(w.address, DEVICE_PUBLIC);
    assert_eq!(w.private_key, format!("0x{}", DEVICE_SEED));
    assert_eq!(w.chain_type, "Polkadot");
    let w = generate_wallet_from_device_id(DEVICE, "solana").unwrap();
    assert_eq!(w.address, DEVICE_PUBLIC);
    assert_eq!(w.chain_type, "solana");
}

#[test]
fn mnemonic_flow_reproduces_device_wallet() {
    for chain in ["", "kusama", "other"] {
        let a = generate_wallet_from_device_id(DEVICE, chain).unwrap();
        let b = generate_wallet_from_mnemonic(&a.mnemonic, chain).unwrap();
        assert!(same_record(&a, &b));
    }
}

#[test]
fn mnemonic_flow_keeps_phrase_verbatim() {
    let phrase = "  one two three four five six seven eight nine ten eleven twelve\t";
    let w = generate_wallet_from_mnemonic(phrase, "").unwrap();
    assert_eq!(w.mnemonic, phrase);
    assert!(is_prefixed_hex(&w.address, 40));
}

#[test]
fn decrypt_flow_errors_and_result() {
    assert_eq!(decrypt_and_generate_mnemonic("").err(), Some(WalletError::EmptyInput));
    assert_eq!(
        decrypt_and_generate_mnemonic("   ").err(),
        Some(WalletError::InvalidMnemonicLength { count: 0 })
    );
    let w = decrypt_and_generate_mnemonic(DEVICE_MNEMONIC).unwrap();
    assert_eq!(w.address, DEVICE_ADDRESS);
    assert_eq!(w.chain_type, "ethereum");
    assert!(w.success);
}

#[test]
fn words_are_split_on_unicode_whitespace() {
    assert_eq!(count_words(""), 0);
    assert_eq!(count_words("a\u{3000}b\u{a0}c  d"), 4);
    assert_eq!(count_words(" lead and trail "), 3);
}

#[test]
fn chain_names_resolve_case_insensitively() {
    assert_eq!(parse_chain(""), ChainSelector::Ethereum);
    assert_eq!(parse_chain("ETHEREUM"), ChainSelector::Ethereum);
    assert_eq!(parse_chain("PolkaDot"), ChainSelector::Polkadot);
    assert_eq!(parse_chain("KUSAMA"), ChainSelector::Kusama);
    assert_eq!(parse_chain("bitcoin"), ChainSelector::Unrecognized);
}

#[test]
fn address_strips_marker_and_hashes_with_keccak() {
    assert_eq!(
        generate_ethereum_address(&[4u8]),
        "0xdcc703c0e500b653ca82273b7bfad8045d85a470"
    );
    assert_eq!(prefixed_hex(&[0u8, 171, 255]), "0x00abff");
}

#[test]
fn strict_mode_checks_word_list_and_checksum() {
    let strict = generate_wallet_from_mnemonic_strict(DEVICE_MNEMONIC, "").unwrap();
    let loose = generate_wallet_from_mnemonic(DEVICE_MNEMONIC, "").unwrap();
    assert!(same_record(&strict, &loose));
    let bad_checksum = "abandon abandon abandon abandon abandon abandon abandon abandon abandon abandon abandon abandon";
    assert_eq!(
        generate_wallet_from_mnemonic_strict(bad_checksum, "").err(),
        Some(WalletError::InvalidMnemonicPhrase)
    );
    assert!(generate_wallet_from_mnemonic(bad_checksum, "").is_ok());
    assert_eq!(
        generate_wallet_from_mnemonic_strict("only two words", "").err(),
        Some(WalletError::InvalidMnemonicLength { count: 3 })
    );
}

#[test]
fn assembled_wallet_formats_given_keys() {
    let mut secret = [0u8; 32];
    secret[31] = 1;
    let uncompressed = hex::decode("0479be667ef9dcbbac55a06295ce870b07029bfcdb2dce28d959f2815b16f81798483ada7726a3c4655da4fbfc0e1108a8fd17b448a68554199c47d08ffb10d4b8").unwrap();
    let w = assemble_wallet("phrase", ChainSelector::Ethereum, "", &secret, &uncompressed);
    assert_eq!(w.address, "0x7e5f4552091a69125d5dfcb7b8c2659029395bdf");
    assert_eq!(w.public_key, format!("0x{}", hex::encode(&uncompressed)));
    assert_eq!(w.private_key, format!("0x{}{}", "0".repeat(63), 1));
    assert_eq!(w.chain_type, "ethereum");
    assert_eq!(w.mnemonic, "phrase");
    let compressed = [2u8, 171];
    let w = assemble_wallet("p", ChainSelector::Kusama, "Kusama", &secret, &compressed);
    assert_eq!(w.public_key, "02ab");
    assert_eq!(w.address, "02ab");
    assert_eq!(w.chain_type, "Kusama");
    assert_eq!(w.private_key, format!("0x{}{}", "0".repeat(63), 1));
}

#[test]
fn chain_from_lowered_matches_lowered_name() {
    assert_eq!(chain_from_lowered("", ""), ChainSelector::Ethereum);
    assert_eq!(chain_from_lowered("ETHEREUM", "ethereum"), ChainSelector::Ethereum);
    assert_eq!(chain_from_lowered("x", "polkadot"), ChainSelector::Polkadot);
    assert_eq!(chain_from_lowered("x", "kusama"), ChainSelector::Kusama);
    assert_eq!(chain_from_lowered("ETHEREUM", "ETHEREUM"), ChainSelector::Unrecognized);
}
