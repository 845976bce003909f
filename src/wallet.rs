//! Wallet derivation: from a device identifier or a mnemonic phrase to a key pair,
//! its public-key and private-key text, and an address.
//!
//! The seed of a phrase is one SHA-256 pass over its UTF-8 bytes, not the PBKDF2
//! stretching of standard BIP-39: wallets stay compatible only with this rule.
use crate::chain::{chain_of, ethereum_name, parse_chain, ChainSelector};
use crate::primitives::{
    bip39_english_accepts, bip39_english_parses, ecdsa_key_pair, hex_encode, hex_text,
    is_lower_ascii_word, is_valid_secret, keccak256, keccak256_of, mnemonic_from_entropy,
    mnemonic_words_of, secp256k1_public_of, secp256k1_uncompressed_of,
    secp256k1_uncompressed_public, sha256, sha256_of, string_views,
};
use crate::text::{
    count_words, is_whitespace, join_with_spaces, join_words, lemma_join_word_count, word_count,
};
use vstd::prelude::*;
use vstd::utf8::encode_utf8;

verus! {

/// Why a derivation or a signing request was refused.
#[derive(Clone, Copy, Debug, PartialEq, Eq, Structural)]
pub enum WalletError {
    /// The device identifier is not ten ASCII letters or digits; its length in bytes.
    InvalidDeviceId { length: usize },
    /// The mnemonic encoder refused the entropy.
    MnemonicEncoding,
    /// The input phrase is empty.
    EmptyInput,
    /// The phrase does not hold twelve whitespace-separated words; the count it holds.
    InvalidMnemonicLength { count: usize },
    /// The phrase has twelve words but is no English BIP-39 mnemonic (unknown word or
    /// wrong checksum); only the strict flow checks this.
    InvalidMnemonicPhrase,
    /// The seed is not a valid secp256k1 secret (zero, or not below the group order).
    KeyDerivation,
    /// The private key is not `0x` followed by 64 characters.
    InvalidPrivateKeyFormat,
    /// The public key does not start with `0x`.
    InvalidPublicKeyFormat,
    /// The signature does not start with `0x`.
    InvalidSignatureFormat,
    /// Text after `0x` is not well-formed hexadecimal.
    HexDecode,
    /// The public key decodes to fewer than 33 bytes; the number it decodes to.
    PublicKeyTooShort { length: usize },
    /// The signature does not decode to 65 bytes; the number it decodes to.
    InvalidSignatureLength { length: usize },
}

/// A derived wallet, as handed to the host.
pub struct WalletRecord {
    pub mnemonic: String,
    pub public_key: String,
    pub private_key: String,
    pub address: String,
    pub chain_type: String,
    pub success: bool,
}

/// The text of a wallet record.
pub struct WalletView {
    pub mnemonic: Seq<char>,
    pub public_key: Seq<char>,
    pub private_key: Seq<char>,
    pub address: Seq<char>,
    pub chain_type: Seq<char>,
    pub success: bool,
}

impl View for WalletRecord {
    type V = WalletView;

    open spec fn view(&self) -> WalletView {
        WalletView {
            mnemonic: self.mnemonic@,
            public_key: self.public_key@,
            private_key: self.private_key@,
            address: self.address@,
            chain_type: self.chain_type@,
            success: self.success,
        }
    }
}

/// A derivation result with the record replaced by its text.
pub open spec fn result_view(r: Result<WalletRecord, WalletError>) -> Result<WalletView, WalletError> {
    match r {
        Ok(w) => Ok(w@),
        Err(e) => Err(e),
    }
}

/// `0x` followed by the lower-case hexadecimal text of the bytes.
pub open spec fn prefixed_hex_text(b: Seq<u8>) -> Seq<char> {
    seq!['0', 'x'] + hex_text(b)
}

/// The key Keccak-256 hashes for an address: the `0x04` marker of an uncompressed key
/// is dropped, leaving the 64 coordinate bytes.
pub open spec fn address_key_bytes(public_key: Seq<u8>) -> Seq<u8> {
    if public_key[0] == 4 {
        public_key.drop_first()
    } else {
        public_key
    }
}

/// An Ethereum address: the last 20 bytes of Keccak-256 of the key, as prefixed hex.
pub open spec fn ethereum_address_text(public_key: Seq<u8>) -> Seq<char> {
    prefixed_hex_text(keccak256_of(address_key_bytes(public_key)).subrange(12, 32))
}

/// The seed of a phrase: SHA-256 of its UTF-8 bytes.
pub open spec fn phrase_seed(phrase: Seq<char>) -> Seq<u8> {
    sha256_of(encode_utf8(phrase))
}

/// The record that a phrase, a chain, a chain name, a secret and a public key make.
/// On Ethereum the public key is expected uncompressed and shown as prefixed hex, and
/// the address is hashed from it; on the other chains the public key is expected
/// compressed and serves, as bare hex, as both public key and address. The private key
/// is the secret as prefixed hex on every chain.
pub open spec fn assembled_wallet(
    phrase: Seq<char>,
    chain: ChainSelector,
    chain_type: Seq<char>,
    secret: Seq<u8>,
    public: Seq<u8>,
) -> WalletView {
    if chain == ChainSelector::Ethereum {
        WalletView {
            mnemonic: phrase,
            public_key: prefixed_hex_text(public),
            private_key: prefixed_hex_text(secret),
            address: ethereum_address_text(public),
            chain_type: ethereum_name(),
            success: true,
        }
    } else {
        WalletView {
            mnemonic: phrase,
            public_key: hex_text(public),
            private_key: prefixed_hex_text(secret),
            address: hex_text(public),
            chain_type,
            success: true,
        }
    }
}

/// The public key that a chain shows for a secret: uncompressed on Ethereum, compressed
/// elsewhere.
pub open spec fn chain_public_key(chain: ChainSelector, secret: Seq<u8>) -> Seq<u8> {
    if chain == ChainSelector::Ethereum {
        secp256k1_uncompressed_of(secret)
    } else {
        secp256k1_public_of(secret)
    }
}

/// The formats of a wallet's text on its chain. On Ethereum the public key shown is the
/// 65-byte uncompressed key (marker 4, then the two coordinates), as 130 prefixed hex
/// digits, and the address is the last 20 bytes of Keccak-256 over the 64 coordinate
/// bytes. On the other chains the public key is the 33-byte compressed key as 66 bare
/// hex digits, and the address repeats it. The private key is 64 prefixed hex digits.
pub open spec fn has_chain_formats(w: WalletView, chain: ChainSelector) -> bool {
    let key = chain_public_key(chain, phrase_seed(w.mnemonic));
    &&& is_prefixed_hex(w.private_key, 64)
    &&& if chain == ChainSelector::Ethereum {
        &&& key.len() == 65
        &&& key[0] == 4
        &&& is_prefixed_hex(w.public_key, 130)
        &&& is_prefixed_hex(w.address, 40)
        &&& w.address == prefixed_hex_text(keccak256_of(key.subrange(1, 65)).subrange(12, 32))
    } else {
        &&& key.len() == 33
        &&& w.public_key.len() == 66
        &&& w.address == w.public_key
    }
}

/// The wallet that a phrase and a chain name determine, or `KeyDerivation` where the
/// seed is no valid secret.
pub open spec fn phrase_wallet(phrase: Seq<char>, chain_type: Seq<char>) -> Result<WalletView, WalletError> {
    let seed = phrase_seed(phrase);
    let chain = chain_of(chain_type);
    if !is_valid_secret(seed) {
        Err(WalletError::KeyDerivation)
    } else {
        Ok(assembled_wallet(phrase, chain, chain_type, seed, chain_public_key(chain, seed)))
    }
}

/// Whether a character is an ASCII letter or digit.
pub open spec fn is_ascii_alphanumeric(c: char) -> bool {
    ('0' <= c && c <= '9') || ('A' <= c && c <= 'Z') || ('a' <= c && c <= 'z')
}

/// A device identifier: ten bytes, all ASCII letters or digits.
pub open spec fn is_device_id(d: Seq<char>) -> bool {
    &&& encode_utf8(d).len() == 10
    &&& forall|i: int| 0 <= i < d.len() ==> is_ascii_alphanumeric(#[trigger] d[i])
}

/// The entropy of a device identifier: the first 16 bytes of its SHA-256 digest.
pub open spec fn device_entropy(d: Seq<char>) -> Seq<u8> {
    sha256_of(encode_utf8(d)).take(16)
}

/// The mnemonic phrase of a device identifier: the words of its entropy, space-joined.
pub open spec fn device_phrase(d: Seq<char>) -> Seq<char> {
    join_words(mnemonic_words_of(device_entropy(d)))
}

/// The outcome of deriving a wallet from a device identifier.
pub open spec fn device_wallet(d: Seq<char>, chain_type: Seq<char>) -> Result<WalletView, WalletError> {
    if !is_device_id(d) {
        Err(WalletError::InvalidDeviceId { length: encode_utf8(d).len() as usize })
    } else {
        phrase_wallet(device_phrase(d), chain_type)
    }
}

/// The outcome of deriving a wallet from a mnemonic phrase: only the word count is checked.
pub open spec fn mnemonic_wallet(phrase: Seq<char>, chain_type: Seq<char>) -> Result<WalletView, WalletError> {
    if word_count(phrase) != 12 {
        Err(WalletError::InvalidMnemonicLength { count: word_count(phrase) as usize })
    } else {
        phrase_wallet(phrase, chain_type)
    }
}

/// The outcome of the strict phrase flow: the word count is checked first, then the
/// phrase must be a valid English BIP-39 mnemonic.
pub open spec fn strict_mnemonic_wallet(phrase: Seq<char>, chain_type: Seq<char>) -> Result<WalletView, WalletError> {
    if word_count(phrase) != 12 {
        Err(WalletError::InvalidMnemonicLength { count: word_count(phrase) as usize })
    } else if !bip39_english_accepts(phrase) {
        Err(WalletError::InvalidMnemonicPhrase)
    } else {
        phrase_wallet(phrase, chain_type)
    }
}

/// The outcome of the Ethereum-only phrase flow, which also refuses an empty phrase.
pub open spec fn ethereum_phrase_wallet(phrase: Seq<char>) -> Result<WalletView, WalletError> {
    if phrase.len() == 0 {
        Err(WalletError::EmptyInput)
    } else {
        mnemonic_wallet(phrase, Seq::empty())
    }
}

/// Whether a character is a lower-case hexadecimal digit.
pub open spec fn is_hex_digit_char(c: char) -> bool {
    ('0' <= c && c <= '9') || ('a' <= c && c <= 'f')
}

/// Whether text is `0x` followed by exactly `digits` lower-case hexadecimal digits.
pub open spec fn is_prefixed_hex(s: Seq<char>, digits: nat) -> bool {
    &&& s.len() == digits + 2
    &&& s[0] == '0'
    &&& s[1] == 'x'
    &&& forall|i: int| 2 <= i < s.len() ==> is_hex_digit_char(#[trigger] s[i])
}

/// Prefixed hexadecimal text has two digits per byte, all lower-case hexadecimal.
pub proof fn lemma_prefixed_hex_format(b: Seq<u8>)
    ensures
        is_prefixed_hex(prefixed_hex_text(b), 2 * b.len()),
{
    let s = prefixed_hex_text(b);
    assert forall|i: int| 2 <= i < s.len() implies is_hex_digit_char(#[trigger] s[i]) by {
        let j = i - 2;
        assert(s[i] == hex_text(b)[j]);
        let v = b[j / 2] as int;
        assert(0 <= v / 16 < 16 && 0 <= v % 16 < 16);
    }
}

/// `0x` followed by the lower-case hexadecimal text of `data`.
pub fn prefixed_hex(data: &[u8]) -> (r: String)
    ensures
        r@ == prefixed_hex_text(data@),
        is_prefixed_hex(r@, 2 * data@.len()),
{
    proof {
        lemma_prefixed_hex_format(data@);
    }
    let digits = hex_encode(data);
    let mut out = String::from_str("0x");
    proof {
        reveal_strlit("0x");
    }
    out.append(digits.as_str());
    out
}

/// The Ethereum address of a public key.
pub fn generate_ethereum_address(public_key: &[u8]) -> (r: String)
    requires
        public_key@.len() > 0,
    ensures
        r@ == ethereum_address_text(public_key@),
        is_prefixed_hex(r@, 40),
{
    let key = if public_key[0] == 4 {
        vstd::slice::slice_subrange(public_key, 1, public_key.len())
    } else {
        public_key
    };
    assert(key@ =~= address_key_bytes(public_key@));
    let hash = keccak256(key);
    let tail = vstd::slice::slice_subrange(hash.as_slice(), 12, 32);
    prefixed_hex(tail)
}

/// Builds the record of a phrase from its chain, the chain's name, the secret and the
/// public key that the chain shows.
pub fn assemble_wallet(
    phrase: &str,
    chain: ChainSelector,
    chain_type: &str,
    secret: &[u8],
    public: &[u8],
) -> (r: WalletRecord)
    requires
        public@.len() > 0,
    ensures
        r@ == assembled_wallet(phrase@, chain, chain_type@, secret@, public@),
        is_prefixed_hex(r.private_key@, 2 * secret@.len()),
        chain == ChainSelector::Ethereum ==> is_prefixed_hex(r.address@, 40),
        chain == ChainSelector::Ethereum ==> is_prefixed_hex(r.public_key@, 2 * public@.len()),
        chain != ChainSelector::Ethereum ==> r.public_key@.len() == 2 * public@.len(),
{
    match chain {
        ChainSelector::Ethereum => {
            proof {
                reveal_strlit("ethereum");
                assert("ethereum"@ =~= ethereum_name());
            }
            WalletRecord {
                mnemonic: phrase.to_owned(),
                public_key: prefixed_hex(public),
                private_key: prefixed_hex(secret),
                address: generate_ethereum_address(public),
                chain_type: String::from_str("ethereum"),
                success: true,
            }
        },
        _ => WalletRecord {
            mnemonic: phrase.to_owned(),
            public_key: hex_encode(public),
            private_key: prefixed_hex(secret),
            address: hex_encode(public),
            chain_type: chain_type.to_owned(),
            success: true,
        },
    }
}

/// Derives the wallet of a phrase for a chain: the shared tail of every flow.
pub fn derive_wallet(phrase: &str, chain_type: &str) -> (r: Result<WalletRecord, WalletError>)
    ensures
        result_view(r) == phrase_wallet(phrase@, chain_type@),
        r matches Ok(w) ==> has_chain_formats(w@, chain_of(chain_type@)),
{
    let chain = parse_chain(chain_type);
    let seed = sha256(phrase.as_bytes());
    if chain == ChainSelector::Ethereum {
        match secp256k1_uncompressed_public(seed.as_slice()) {
            Some(public) => {
                assert(address_key_bytes(public@) =~= public@.subrange(1, 65));
                Ok(assemble_wallet(phrase, chain, chain_type, seed.as_slice(), public.as_slice()))
            },
            None => Err(WalletError::KeyDerivation),
        }
    } else {
        match ecdsa_key_pair(seed.as_slice()) {
            Some((public, secret)) => Ok(assemble_wallet(phrase, chain, chain_type, secret.as_slice(), public.as_slice())),
            None => Err(WalletError::KeyDerivation),
        }
    }
}

/// Whether `device_id` is ten bytes of ASCII letters and digits.
pub fn is_valid_device_id(device_id: &str) -> (r: bool)
    ensures
        r == is_device_id(device_id@),
{
    if device_id.as_bytes().len() != 10 {
        return false;
    }
    let n = device_id.unicode_len();
    let mut i: usize = 0;
    while i < n
        invariant
            n == device_id@.len(),
            encode_utf8(device_id@).len() == 10,
            i <= n,
            forall|j: int| 0 <= j < i ==> is_ascii_alphanumeric(#[trigger] device_id@[j]),
        decreases n - i,
    {
        let c = device_id.get_char(i);
        if !(('0' <= c && c <= '9') || ('A' <= c && c <= 'Z') || ('a' <= c && c <= 'z')) {
            return false;
        }
        i = i + 1;
    }
    true
}

/// Derives a wallet from a device identifier: the first 16 bytes of the identifier's
/// SHA-256 digest are encoded as a twelve-word English mnemonic, and the wallet is that
/// of the space-joined phrase.
pub fn generate_wallet_from_device_id(device_id: &str, chain_type: &str) -> (r: Result<
    WalletRecord,
    WalletError,
>)
    ensures
        result_view(r) == device_wallet(device_id@, chain_type@),
        r matches Ok(w) ==> {
            &&& word_count(w.mnemonic@) == 12
            &&& mnemonic_wallet(w.mnemonic@, chain_type@) == Ok::<WalletView, WalletError>(w@)
            &&& has_chain_formats(w@, chain_of(chain_type@))
            &&& mnemonic_words_of(device_entropy(device_id@)).len() == 12
            &&& forall|i: int|
                0 <= i < 12 ==> is_lower_ascii_word(
                    #[trigger] mnemonic_words_of(device_entropy(device_id@))[i],
                )
        },
{
    if !is_valid_device_id(device_id) {
        return Err(WalletError::InvalidDeviceId { length: device_id.as_bytes().len() });
    }
    let digest = sha256(device_id.as_bytes());
    let entropy = vstd::slice::slice_subrange(digest.as_slice(), 0, 16);
    assert(entropy@ =~= device_entropy(device_id@));
    let words = match mnemonic_from_entropy(entropy) {
        Some(w) => w,
        None => return Err(WalletError::MnemonicEncoding),
    };
    let phrase = join_with_spaces(&words);
    let ghost views = words@.map_values(|s: String| s@);
    assert(views =~= string_views(words@));
    proof {
        assert forall|i: int| 0 <= i < views.len() implies crate::text::is_plain_word(
            #[trigger] views[i],
        ) by {
            assert(is_lower_ascii_word(words@[i]@));
            assert forall|j: int| 0 <= j < views[i].len() implies !is_whitespace(
                #[trigger] views[i][j],
            ) by {
                assert('a' <= views[i][j] <= 'z');
            }
        }
        lemma_join_word_count(views);
    }
    derive_wallet(phrase.as_str(), chain_type)
}

/// Derives a wallet from a mnemonic phrase, which must hold twelve whitespace-separated
/// words; the words themselves are not checked against any list. The phrase is kept
/// verbatim in the record.
pub fn generate_wallet_from_mnemonic(mnemonic_words: &str, chain_type: &str) -> (r: Result<
    WalletRecord,
    WalletError,
>)
    ensures
        result_view(r) == mnemonic_wallet(mnemonic_words@, chain_type@),
        r matches Ok(w) ==> has_chain_formats(w@, chain_of(chain_type@)),
{
    let count = count_words(mnemonic_words);
    if count != 12 {
        return Err(WalletError::InvalidMnemonicLength { count });
    }
    derive_wallet(mnemonic_words, chain_type)
}

/// Derives a wallet from a mnemonic phrase like `generate_wallet_from_mnemonic`, but
/// also requires the phrase to be a valid English BIP-39 mnemonic.
pub fn generate_wallet_from_mnemonic_strict(mnemonic_words: &str, chain_type: &str) -> (r: Result<
    WalletRecord,
    WalletError,
>)
    ensures
        result_view(r) == strict_mnemonic_wallet(mnemonic_words@, chain_type@),
{
    let count = count_words(mnemonic_words);
    if count != 12 {
        return Err(WalletError::InvalidMnemonicLength { count });
    }
    if !bip39_english_parses(mnemonic_words) {
        return Err(WalletError::InvalidMnemonicPhrase);
    }
    derive_wallet(mnemonic_words, chain_type)
}

/// Derives the Ethereum wallet of a twelve-word phrase, refusing an empty phrase first.
pub fn decrypt_and_generate_mnemonic(encrypted_words: &str) -> (r: Result<
    WalletRecord,
    WalletError,
>)
    ensures
        result_view(r) == ethereum_phrase_wallet(encrypted_words@),
        r matches Ok(w) ==> has_chain_formats(w@, ChainSelector::Ethereum),
{
    if encrypted_words.is_empty() {
        return Err(WalletError::EmptyInput);
    }
    proof {
        reveal_strlit("");
        assert(""@ =~= Seq::<char>::empty());
        assert(chain_of(""@) == ChainSelector::Ethereum);
    }
    generate_wallet_from_mnemonic(encrypted_words, "")
}

} // verus!
