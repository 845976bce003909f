//! Signing a message with a private key, and checking a signature against a public key.
use crate::primitives::{
    ecdsa_compress_full_key, secp256k1_compressed_of_full,
    ecdsa_sign, ecdsa_signature_of, ecdsa_verifies, ecdsa_verify, hex_bytes_value, hex_decode,
    is_hex_bytes, is_valid_secret,
};
use crate::wallet::{is_prefixed_hex, prefixed_hex, prefixed_hex_text, WalletError};
use vstd::prelude::*;
use vstd::utf8::encode_utf8;

verus! {

/// Whether a byte string starts with the ASCII text `0x`.
pub open spec fn has_hex_prefix(b: Seq<u8>) -> bool {
    b.len() >= 2 && b[0] == 48 && b[1] == 120
}

/// The outcome of signing: the key text must be `0x` and 64 more bytes of hexadecimal
/// digits denoting a valid secret; the signature comes back as prefixed hex.
pub open spec fn signed_message(private_key: Seq<char>, message: Seq<char>) -> Result<Seq<char>, WalletError> {
    let text = encode_utf8(private_key);
    let digits = text.subrange(2, text.len() as int);
    let secret = hex_bytes_value(digits);
    if !has_hex_prefix(text) || text.len() != 66 {
        Err(WalletError::InvalidPrivateKeyFormat)
    } else if !is_hex_bytes(digits) {
        Err(WalletError::HexDecode)
    } else if !is_valid_secret(secret) {
        Err(WalletError::KeyDerivation)
    } else {
        Ok(prefixed_hex_text(ecdsa_signature_of(secret, encode_utf8(message))))
    }
}

/// The result of checking a signature.
pub struct Verification {
    pub success: bool,
    pub message: String,
}

pub open spec fn valid_status() -> Seq<char> {
    seq!['S', 'i', 'g', 'n', 'a', 't', 'u', 'r', 'e', ' ', 'i', 's', ' ', 'v', 'a', 'l', 'i', 'd']
}

pub open spec fn invalid_status() -> Seq<char> {
    seq![
        'S', 'i', 'g', 'n', 'a', 't', 'u', 'r', 'e', ' ', 'i', 's', ' ', 'i', 'n', 'v', 'a', 'l',
        'i', 'd',
    ]
}

/// The hexadecimal part of `0x`-prefixed text.
pub open spec fn after_prefix(b: Seq<u8>) -> Seq<u8> {
    b.subrange(2, b.len() as int)
}

/// The compressed key that a decoded public key stands for: a 65-byte key that starts
/// with the uncompressed marker 4 is compressed (and stands for none where it is no curve
/// point); any other key of at least 33 bytes stands for its last 33 bytes.
pub open spec fn verification_key(key: Seq<u8>) -> Option<Seq<u8>> {
    if key.len() == 65 && key[0] == 4 {
        secp256k1_compressed_of_full(key)
    } else {
        Some(key.subrange(key.len() - 33, key.len() as int))
    }
}

/// The outcome of checking a signature: whether it verifies over the message against
/// the compressed key that the public key stands for (false where it stands for none),
/// or the first input that is malformed.
pub open spec fn checked_signature(public_key: Seq<char>, message: Seq<char>, signature: Seq<char>) -> Result<bool, WalletError> {
    let key_text = encode_utf8(public_key);
    let key = hex_bytes_value(after_prefix(key_text));
    let sig_text = encode_utf8(signature);
    let sig = hex_bytes_value(after_prefix(sig_text));
    if !has_hex_prefix(key_text) {
        Err(WalletError::InvalidPublicKeyFormat)
    } else if !is_hex_bytes(after_prefix(key_text)) {
        Err(WalletError::HexDecode)
    } else if key.len() < 33 {
        Err(WalletError::PublicKeyTooShort { length: key.len() as usize })
    } else if !has_hex_prefix(sig_text) {
        Err(WalletError::InvalidSignatureFormat)
    } else if !is_hex_bytes(after_prefix(sig_text)) {
        Err(WalletError::HexDecode)
    } else if sig.len() != 65 {
        Err(WalletError::InvalidSignatureLength { length: sig.len() as usize })
    } else {
        match verification_key(key) {
            Some(public) => Ok(ecdsa_verifies(sig, encode_utf8(message), public)),
            None => Ok(false),
        }
    }
}

fn starts_with_hex_prefix(b: &[u8]) -> (r: bool)
    ensures
        r == has_hex_prefix(b@),
{
    b.len() >= 2 && b[0] == 48 && b[1] == 120
}

/// Signs the UTF-8 bytes of `message` with a `0x`-prefixed 32-byte hexadecimal secret.
pub fn sign_message(private_key: &str, message: &str) -> (r: Result<String, WalletError>)
    ensures
        match r {
            Ok(s) => signed_message(private_key@, message@) == Ok::<Seq<char>, WalletError>(s@),
            Err(e) => signed_message(private_key@, message@) == Err::<Seq<char>, WalletError>(e),
        },
        r matches Ok(s) ==> is_prefixed_hex(s@, 130),
{
    let text = private_key.as_bytes();
    if !starts_with_hex_prefix(text) || text.len() != 66 {
        return Err(WalletError::InvalidPrivateKeyFormat);
    }
    let digits = vstd::slice::slice_subrange(text, 2, text.len());
    let secret = match hex_decode(digits) {
        Some(b) => b,
        None => return Err(WalletError::HexDecode),
    };
    let signature = match ecdsa_sign(secret.as_slice(), message.as_bytes()) {
        Some(s) => s,
        None => return Err(WalletError::KeyDerivation),
    };
    Ok(prefixed_hex(signature.as_slice()))
}

/// Checks a `0x`-prefixed hexadecimal signature of 65 bytes over the UTF-8 bytes of
/// `message` against a `0x`-prefixed hexadecimal public key of at least 33 bytes, of
/// which a 65-byte uncompressed key (marker 4) is compressed first, and any other key
/// gives its last 33 bytes. The public key that an Ethereum wallet shows is taken as is;
/// the bare compressed key of the other chains is taken with `0x` before it.
pub fn verify_signature(public_key: &str, message: &str, signature: &str) -> (r: Result<
    Verification,
    WalletError,
>)
    ensures
        match r {
            Ok(v) => {
                &&& checked_signature(public_key@, message@, signature@) == Ok::<bool, WalletError>(v.success)
                &&& v.message@ == if v.success { valid_status() } else { invalid_status() }
            },
            Err(e) => checked_signature(public_key@, message@, signature@) == Err::<bool, WalletError>(e),
        },
{
    let key_text = public_key.as_bytes();
    if !starts_with_hex_prefix(key_text) {
        return Err(WalletError::InvalidPublicKeyFormat);
    }
    let key = match hex_decode(vstd::slice::slice_subrange(key_text, 2, key_text.len())) {
        Some(b) => b,
        None => return Err(WalletError::HexDecode),
    };
    if key.len() < 33 {
        return Err(WalletError::PublicKeyTooShort { length: key.len() });
    }
    let sig_text = signature.as_bytes();
    if !starts_with_hex_prefix(sig_text) {
        return Err(WalletError::InvalidSignatureFormat);
    }
    let sig = match hex_decode(vstd::slice::slice_subrange(sig_text, 2, sig_text.len())) {
        Some(b) => b,
        None => return Err(WalletError::HexDecode),
    };
    if sig.len() != 65 {
        return Err(WalletError::InvalidSignatureLength { length: sig.len() });
    }
    let public = if key.len() == 65 && key[0] == 4 {
        ecdsa_compress_full_key(key.as_slice())
    } else {
        Some(vstd::slice::slice_to_vec(vstd::slice::slice_subrange(key.as_slice(), key.len() - 33, key.len())))
    };
    let valid = match public {
        Some(p) => ecdsa_verify(sig.as_slice(), message.as_bytes(), p.as_slice()),
        None => false,
    };
    proof {
        reveal_strlit("Signature is valid");
        reveal_strlit("Signature is invalid");
    }
    let status = if valid {
        String::from_str("Signature is valid")
    } else {
        String::from_str("Signature is invalid")
    };
    proof {
        assert("Signature is valid"@ =~= valid_status());
        assert("Signature is invalid"@ =~= invalid_status());
    }
    Ok(Verification { success: valid, message: status })
}

} // verus!
