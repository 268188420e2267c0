//! Binding a vault operator to an external social handle.
//!
//! A vault records the handle its operator claims, together with a proof: the
//! hex spelling of the digest of `handle ":" owner-key`. The ledger checks
//! the handle's format and recomputes the digest; attesting that the claimed
//! handle really belongs to the operator is the external identity provider's
//! business and stays outside this crate.

use vstd::prelude::*;

use sha2::Digest;

use crate::bytes::bytes_eq;
use crate::errors::VaultError;

verus! {

/// The byte that separates the handle from the owner key in the message
/// whose digest the proof must match: an ASCII colon.
pub const HANDLE_KEY_SEPARATOR: u8 = 58;

/// The characters a byte string spells in UTF-8, or nothing where it is not
/// valid UTF-8. Named for what core::str::from_utf8 decides.
pub uninterp spec fn utf8_chars(bytes: Seq<u8>) -> Option<Seq<char>>;

/// Relies on core::str::from_utf8: whether a byte string is valid UTF-8, and
/// which characters it spells, depend on the bytes alone.
#[verifier::external_body]
fn utf8_decode(bytes: &Vec<u8>) -> (r: Option<Vec<char>>)
    ensures
        match r {
            Some(chars) => utf8_chars(bytes@) == Some(chars@),
            None => utf8_chars(bytes@) is None,
        },
{
    match core::str::from_utf8(bytes.as_slice()) {
        Ok(s) => Some(s.chars().collect()),
        Err(_) => None,
    }
}

/// Whether a character counts as alphanumeric. Named for what
/// char::is_alphanumeric decides.
pub uninterp spec fn is_alphanumeric_char(c: char) -> bool;

/// Relies on char::is_alphanumeric: a character's class is a function of the
/// character alone.
#[verifier::external_body]
fn char_is_alphanumeric(c: char) -> (r: bool)
    ensures
        r == is_alphanumeric_char(c),
{
    c.is_alphanumeric()
}

/// Whether a character may appear in a handle: alphanumeric or underscore.
pub open spec fn is_handle_char(c: char) -> bool {
    is_alphanumeric_char(c) || c == '_'
}

/// Whether a byte string is an acceptable handle: valid UTF-8, one to
/// fifteen bytes, every character alphanumeric or underscore.
pub open spec fn valid_handle(handle: Seq<u8>) -> bool {
    match utf8_chars(handle) {
        Some(chars) => {
            &&& 1 <= handle.len() <= 15
            &&& forall|i: int| 0 <= i < chars.len() ==> is_handle_char(#[trigger] chars[i])
        },
        None => false,
    }
}

/// Whether a byte spells a hexadecimal digit.
pub open spec fn is_hex_digit(b: u8) -> bool {
    ||| 48 <= b <= 57  // '0' to '9'
    ||| 65 <= b <= 70  // 'A' to 'F'
    ||| 97 <= b <= 102  // 'a' to 'f'
}

/// The value of a hexadecimal digit byte.
pub open spec fn hex_digit_value(b: u8) -> u8
    recommends
        is_hex_digit(b),
{
    if 48 <= b <= 57 {
        (b - 48) as u8
    } else if 65 <= b <= 70 {
        (b - 55) as u8
    } else {
        (b - 87) as u8
    }
}

/// Whether a byte string is a well-formed hexadecimal spelling: even length,
/// hexadecimal digits throughout.
pub open spec fn is_hex_encoding(s: Seq<u8>) -> bool {
    &&& s.len() % 2 == 0
    &&& forall|i: int| 0 <= i < s.len() ==> is_hex_digit(#[trigger] s[i])
}

/// The bytes a well-formed hexadecimal spelling decodes to: two digits per
/// byte, high digit first.
pub open spec fn hex_decoding(s: Seq<u8>) -> Seq<u8>
    recommends
        is_hex_encoding(s),
{
    Seq::new((s.len() / 2) as nat, |i: int| (hex_digit_value(s[2 * i]) * 16 + hex_digit_value(s[2 * i + 1])) as u8)
}

/// The message whose digest binds a handle to an owner key: the handle, a
/// colon, then the key's bytes.
pub open spec fn auth_message(handle: Seq<u8>, owner_key: Seq<u8>) -> Seq<u8> {
    handle + seq![HANDLE_KEY_SEPARATOR] + owner_key
}

/// The digest that sha2's SHA-256 computes for the given bytes.
pub uninterp spec fn sha256_of(data: Seq<u8>) -> Seq<u8>;

/// Relies on sha2::Sha256: the digest is a function of the input bytes
/// alone, the same on every machine and in every run.
#[verifier::external_body]
fn sha256(data: &Vec<u8>) -> (r: Vec<u8>)
    ensures
        r@ == sha256_of(data@),
{
    sha2::Sha256::digest(data.as_slice()).to_vec()
}

/// Relies on hex::decode: an even-length string of hexadecimal digit bytes
/// decodes to the bytes it spells, high digit of each pair first; any other
/// input is refused. The refusal is mapped to this crate's `InvalidProof`.
#[verifier::external_body]
fn hex_decode(s: &Vec<u8>) -> (r: Result<Vec<u8>, VaultError>)
    ensures
        match r {
            Ok(d) => is_hex_encoding(s@) && d@ == hex_decoding(s@),
            Err(e) => !is_hex_encoding(s@) && e == VaultError::InvalidProof,
        },
{
    hex::decode(s.as_slice()).map_err(|_| VaultError::InvalidProof)
}

/// Appends one byte string to another.
fn append_bytes(dst: &mut Vec<u8>, src: &Vec<u8>)
    ensures
        final(dst)@ == old(dst)@ + src@,
{
    let mut i: usize = 0;
    while i < src.len()
        invariant
            i <= src.len(),
            dst@ == old(dst)@ + src@.take(i as int),
        decreases src.len() - i,
    {
        dst.push(src[i]);
        proof {
            assert(src@.take(i + 1) =~= src@.take(i as int).push(src@[i as int]));
        }
        i = i + 1;
    }
    proof {
        assert(src@.take(src@.len() as int) =~= src@);
    }
}

/// What checking a handle-binding proof returns: the proof must be a
/// well-formed hexadecimal spelling of a 32-byte digest, or it is refused as
/// `InvalidProof`; a well-formed proof verifies exactly when it spells the
/// digest of the handle-to-key message.
pub open spec fn verify_auth_spec(handle: Seq<u8>, proof_hex: Seq<u8>, owner_key: Seq<u8>) -> Result<
    bool,
    VaultError,
> {
    if !is_hex_encoding(proof_hex) {
        Err(VaultError::InvalidProof)
    } else if hex_decoding(proof_hex).len() != 32 {
        Err(VaultError::InvalidProof)
    } else {
        Ok(hex_decoding(proof_hex) == sha256_of(auth_message(handle, owner_key)))
    }
}

/// Checks handles and handle-binding proofs.
pub struct TwitterVerification;

impl TwitterVerification {
    /// Decides whether a byte string is an acceptable handle.
    pub fn is_valid_handle(handle: &Vec<u8>) -> (r: bool)
        ensures
            r == valid_handle(handle@),
    {
        if handle.len() < 1 || handle.len() > 15 {
            return false;
        }
        let chars = match utf8_decode(handle) {
            Some(cs) => cs,
            None => {
                return false;
            },
        };
        let mut i: usize = 0;
        while i < chars.len()
            invariant
                i <= chars.len(),
                utf8_chars(handle@) == Some(chars@),
                1 <= handle@.len() <= 15,
                forall|j: int| 0 <= j < i ==> is_handle_char(#[trigger] chars@[j]),
            decreases chars.len() - i,
        {
            let c = chars[i];
            if !(char_is_alphanumeric(c) || c == '_') {
                proof {
                    // The character at `i` refutes the handle's validity.
                    assert(!is_handle_char(chars@[i as int]));
                    assert(utf8_chars(handle@)->Some_0 == chars@);
                }
                return false;
            }
            i = i + 1;
        }
        true
    }

    /// Checks a claimed proof against the handle and the owner's key:
    /// recomputes the digest of the handle-to-key message and compares it
    /// with what the proof spells.
    pub fn verify_twitter_auth(handle: &Vec<u8>, proof_hex: &Vec<u8>, owner_key: &Vec<u8>) -> (r:
        Result<bool, VaultError>)
        ensures
            r == verify_auth_spec(handle@, proof_hex@, owner_key@),
    {
        let mut message: Vec<u8> = Vec::new();
        append_bytes(&mut message, handle);
        message.push(HANDLE_KEY_SEPARATOR);
        append_bytes(&mut message, owner_key);
        proof {
            assert(message@ =~= auth_message(handle@, owner_key@));
        }
        let digest = sha256(&message);
        match hex_decode(proof_hex) {
            Err(e) => Err(e),
            Ok(decoded) => {
                if decoded.len() != 32 {
                    Err(VaultError::InvalidProof)
                } else {
                    Ok(bytes_eq(&decoded, &digest))
                }
            },
        }
    }
}

} // verus!
