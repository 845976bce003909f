//! The cryptographic and encoding primitives that the derivation pipeline composes.
//! Each executable item here makes one call into an outside crate; its contract
//! states what that crate's source shows of the result.
use k256::elliptic_curve::sec1::ToEncodedPoint;
use sha2::Digest;
use sp_core::Pair;
use tiny_keccak::Hasher;
use vstd::prelude::*;

verus! {

/// The SHA-256 digest of a byte string.
pub uninterp spec fn sha256_of(data: Seq<u8>) -> Seq<u8>;

/// The Keccak-256 digest of a byte string (the pre-standard SHA-3 padding).
pub uninterp spec fn keccak256_of(data: Seq<u8>) -> Seq<u8>;

/// The English BIP-39 words that encode an entropy value.
pub uninterp spec fn mnemonic_words_of(entropy: Seq<u8>) -> Seq<Seq<char>>;

/// The compressed (33-byte) secp256k1 public key of a secret scalar.
pub uninterp spec fn secp256k1_public_of(secret: Seq<u8>) -> Seq<u8>;

/// The uncompressed (65-byte SEC1) secp256k1 public key of a secret scalar.
pub uninterp spec fn secp256k1_uncompressed_of(secret: Seq<u8>) -> Seq<u8>;

/// The compressed form of a 65-byte uncompressed secp256k1 key, or `None` where the
/// bytes are no point of the curve.
pub uninterp spec fn secp256k1_compressed_of_full(full: Seq<u8>) -> Option<Seq<u8>>;

/// The 65-byte recoverable ECDSA signature (`r`, `s`, recovery id) of a message.
pub uninterp spec fn ecdsa_signature_of(secret: Seq<u8>, message: Seq<u8>) -> Seq<u8>;

/// Whether a 65-byte signature over a message recovers to a compressed public key.
pub uninterp spec fn ecdsa_verifies(signature: Seq<u8>, message: Seq<u8>, public: Seq<u8>) -> bool;

/// Whether the English BIP-39 parser accepts a phrase: known words and a valid checksum.
pub uninterp spec fn bip39_english_accepts(phrase: Seq<char>) -> bool;

/// Unicode lower-case mapping of a string.
pub uninterp spec fn lowercase_of(s: Seq<char>) -> Seq<char>;

/// The order of the secp256k1 group.
pub open spec fn secp256k1_order() -> int {
    (0xFFFF_FFFF_FFFF_FFFF_FFFF_FFFF_FFFF_FFFE * 0x1_0000_0000_0000_0000 * 0x1_0000_0000_0000_0000
        + 0xBAAE_DCE6_AF48_A03B_BFD2_5E8C_D036_4141) as int
}

/// A byte string read as a big-endian unsigned integer.
pub open spec fn big_endian_value(s: Seq<u8>) -> int
    decreases s.len(),
{
    if s.len() == 0 {
        0
    } else {
        big_endian_value(s.drop_last()) * 256 + s.last()
    }
}

/// A 32-byte string that is a usable secp256k1 secret: non-zero and below the group order.
pub open spec fn is_valid_secret(s: Seq<u8>) -> bool {
    &&& s.len() == 32
    &&& 0 < big_endian_value(s) < secp256k1_order()
}

/// The lower-case hexadecimal digit of a value below sixteen.
pub open spec fn hex_digit(n: int) -> char {
    if n < 10 {
        (n + 48) as char
    } else {
        (n + 87) as char
    }
}

/// Lower-case hexadecimal text of a byte string: two digits per byte, high nibble first.
pub open spec fn hex_text(b: Seq<u8>) -> Seq<char> {
    Seq::new(
        2 * b.len(),
        |i: int|
            if i % 2 == 0 {
                hex_digit(b[i / 2] as int / 16)
            } else {
                hex_digit(b[i / 2] as int % 16)
            },
    )
}

/// Whether a byte is an ASCII hexadecimal digit of either case.
pub open spec fn is_hex_byte(c: u8) -> bool {
    (48 <= c <= 57) || (65 <= c <= 70) || (97 <= c <= 102)
}

/// The value of an ASCII hexadecimal digit.
pub open spec fn hex_byte_value(c: u8) -> int {
    if c <= 57 {
        c - 48
    } else if c <= 70 {
        c - 55
    } else {
        c - 87
    }
}

/// Whether a byte string is well-formed hexadecimal text: even length, digits only.
pub open spec fn is_hex_bytes(t: Seq<u8>) -> bool {
    &&& t.len() % 2 == 0
    &&& forall|i: int| 0 <= i < t.len() ==> is_hex_byte(#[trigger] t[i])
}

/// The bytes that well-formed hexadecimal text denotes.
pub open spec fn hex_bytes_value(t: Seq<u8>) -> Seq<u8> {
    Seq::new(
        t.len() / 2,
        |i: int| (hex_byte_value(t[2 * i]) * 16 + hex_byte_value(t[2 * i + 1])) as u8,
    )
}

/// Whether every character of a word is an ASCII lower-case letter.
pub open spec fn is_lower_ascii_word(w: Seq<char>) -> bool {
    &&& w.len() > 0
    &&& forall|j: int| 0 <= j < w.len() ==> 'a' <= #[trigger] w[j] <= 'z'
}

/// The text views of a sequence of strings.
pub open spec fn string_views(v: Seq<String>) -> Seq<Seq<char>> {
    v.map_values(|s: String| s@)
}

/// Relies on sha2::Sha256: the 32-byte digest of `data`.
#[verifier::external_body]
pub(crate) fn sha256(data: &[u8]) -> (r: Vec<u8>)
    ensures
        r@ == sha256_of(data@),
        r@.len() == 32,
{
    sha2::Sha256::digest(data).to_vec()
}

/// Relies on tiny_keccak::Keccak::v256: the 32-byte Keccak-256 digest of `data`.
#[verifier::external_body]
pub(crate) fn keccak256(data: &[u8]) -> (r: Vec<u8>)
    ensures
        r@ == keccak256_of(data@),
        r@.len() == 32,
{
    let mut keccak = tiny_keccak::Keccak::v256();
    let mut hash = [0u8; 32];
    keccak.update(data);
    keccak.finalize(&mut hash);
    hash.to_vec()
}

/// Relies on hex::encode: two lower-case digits per byte, high nibble first.
#[verifier::external_body]
pub(crate) fn hex_encode(data: &[u8]) -> (r: String)
    ensures
        r@ == hex_text(data@),
{
    hex::encode(data)
}

/// Relies on hex::decode: it accepts text of even length made of hexadecimal digits of
/// either case, and returns one byte per pair of digits.
#[verifier::external_body]
pub(crate) fn hex_decode(text: &[u8]) -> (r: Option<Vec<u8>>)
    ensures
        r is Some <==> is_hex_bytes(text@),
        r matches Some(b) ==> b@ == hex_bytes_value(text@),
{
    hex::decode(text).ok()
}

/// Relies on bip39::Mnemonic::from_entropy and Mnemonic::words: entropy of 16 to 32
/// bytes, in steps of four, is encoded as three words per four bytes, each drawn from
/// the English list, whose words are lower-case ASCII letters.
#[verifier::external_body]
pub(crate) fn mnemonic_from_entropy(entropy: &[u8]) -> (r: Option<Vec<String>>)
    ensures
        r is Some <==> (entropy@.len() % 4 == 0 && 16 <= entropy@.len() <= 32),
        r matches Some(w) ==> {
            &&& string_views(w@) == mnemonic_words_of(entropy@)
            &&& w@.len() == entropy@.len() * 3 / 4
            &&& forall|i: int| 0 <= i < w@.len() ==> is_lower_ascii_word(#[trigger] w@[i]@)
        },
{
    bip39::Mnemonic::from_entropy(entropy).ok().map(|m| m.words().map(|w| w.to_string()).collect())
}

/// Relies on bip39::Mnemonic::parse_in with Language::English: the phrase, after NFKD
/// normalisation, is checked for its word count, each word's place in the English list,
/// and the embedded checksum; the result depends on the phrase alone.
#[verifier::external_body]
pub(crate) fn bip39_english_parses(phrase: &str) -> (r: bool)
    ensures
        r == bip39_english_accepts(phrase@),
{
    bip39::Mnemonic::parse_in(bip39::Language::English, phrase).is_ok()
}

/// Relies on sp_core::ecdsa::Pair::from_seed_slice, Pair::public and Pair::to_raw_vec:
/// a 32-byte seed is accepted exactly when it is a valid secp256k1 secret scalar; the
/// pair then holds the compressed public key and hands the seed back as its raw secret.
#[verifier::external_body]
pub(crate) fn ecdsa_key_pair(seed: &[u8]) -> (r: Option<(Vec<u8>, Vec<u8>)>)
    requires
        seed@.len() == 32,
    ensures
        r is Some <==> is_valid_secret(seed@),
        r matches Some(p) ==> {
            &&& p.0@ == secp256k1_public_of(seed@)
            &&& p.0@.len() == 33
            &&& p.1@ == seed@
        },
{
    sp_core::ecdsa::Pair::from_seed_slice(seed).ok().map(|p| (p.public().0.to_vec(), p.to_raw_vec()))
}

/// Relies on k256::SecretKey::from_slice, SecretKey::public_key and
/// ToEncodedPoint::to_encoded_point(false): a 32-byte seed is accepted exactly when it is a
/// valid secp256k1 secret scalar, and its public key is encoded uncompressed, as the
/// marker byte 4 followed by the two 32-byte coordinates.
#[verifier::external_body]
pub(crate) fn secp256k1_uncompressed_public(seed: &[u8]) -> (r: Option<Vec<u8>>)
    requires
        seed@.len() == 32,
    ensures
        r is Some <==> is_valid_secret(seed@),
        r matches Some(u) ==> {
            &&& u@ == secp256k1_uncompressed_of(seed@)
            &&& u@.len() == 65
            &&& u@[0] == 4
        },
{
    k256::SecretKey::from_slice(seed).ok().map(|k| k.public_key().to_encoded_point(false).as_bytes().to_vec())
}

/// Relies on sp_core::ecdsa::Public::from_full: a 65-byte SEC1 uncompressed key is parsed,
/// refused where it is no point of the curve, and otherwise handed back compressed.
#[verifier::external_body]
pub(crate) fn ecdsa_compress_full_key(full: &[u8]) -> (r: Option<Vec<u8>>)
    requires
        full@.len() == 65,
        full@[0] == 4,
    ensures
        match r {
            Some(c) => secp256k1_compressed_of_full(full@) == Some(c@) && c@.len() == 33,
            None => secp256k1_compressed_of_full(full@) is None,
        },
{
    sp_core::ecdsa::Public::from_full(full).ok().map(|p| p.0.to_vec())
}

/// Relies on sp_core::ecdsa::Pair::from_seed_slice and Pair::sign: a valid 32-byte
/// secret signs the message (hashed inside with BLAKE2b-256) into 65 bytes.
#[verifier::external_body]
pub(crate) fn ecdsa_sign(secret: &[u8], message: &[u8]) -> (r: Option<Vec<u8>>)
    requires
        secret@.len() == 32,
    ensures
        r is Some <==> is_valid_secret(secret@),
        r matches Some(s) ==> s@ == ecdsa_signature_of(secret@, message@) && s@.len() == 65,
{
    sp_core::ecdsa::Pair::from_seed_slice(secret).ok().map(|p| p.sign(message).0.to_vec())
}

/// Relies on sp_core::ecdsa::Pair::verify, with Signature::from_raw and Public::from_raw:
/// a predicate of the signature, the message and the compressed public key.
#[verifier::external_body]
pub(crate) fn ecdsa_verify(signature: &[u8], message: &[u8], public: &[u8]) -> (r: bool)
    requires
        signature@.len() == 65,
        public@.len() == 33,
    ensures
        r == ecdsa_verifies(signature@, message@, public@),
{
    let signature: [u8; 65] = signature.try_into().unwrap();
    let public: [u8; 33] = public.try_into().unwrap();
    sp_core::ecdsa::Pair::verify(
        &sp_core::ecdsa::Signature::from_raw(signature),
        message,
        &sp_core::ecdsa::Public::from_raw(public),
    )
}

/// A string of ASCII characters with the letters `A` to `Z` lowered to `a` to `z`.
pub open spec fn ascii_lowercase(s: Seq<char>) -> Seq<char> {
    Seq::new(
        s.len(),
        |i: int|
            if 'A' <= s[i] && s[i] <= 'Z' {
                ((s[i] as u32) + 32) as char
            } else {
                s[i]
            },
    )
}

/// Relies on str::to_lowercase: the result depends on the characters alone, and ASCII
/// upper-case letters become their lower-case letters while other ASCII is kept (the
/// ASCII part of the Unicode lower-case mapping).
#[verifier::external_body]
pub(crate) fn to_lowercase(s: &str) -> (r: String)
    ensures
        r@ == lowercase_of(s@),
        (forall|i: int| 0 <= i < s@.len() ==> (#[trigger] s@[i] as u32) < 128) ==> r@
            == ascii_lowercase(s@),
{
    s.to_lowercase()
}

} // verus!
