//! Validation of operator-supplied key and plaintext values: a plain-text
//! value must be exactly one block long, a hex value must be exactly two
//! digits per block byte and nothing but hex digits. Malformed input is
//! rejected here, before any device traffic.

use vstd::prelude::*;
use vstd::string::StringSliceAdditionalSpecFns;

use crate::cipher_types::{spec_cipher_length, CipherTypes};
use crate::hex_codec::{all_hex_digits, hex_decode, lemma_hex_decode_len, spec_hex_decode};

verus! {

/// Why an operator-supplied value was rejected. `expected` is the length
/// the value would have needed: the block length for a plain-text value,
/// twice the block length for a hex value.
#[derive(Clone, Copy, Debug, PartialEq, Eq, Structural)]
pub enum InputError {
    InvalidLength { expected: usize },
    InvalidHexFormat { expected: usize },
}

impl InputError {
    /// The length the rejected value would have needed.
    pub fn expected_length(&self) -> (n: usize)
        ensures
            *self matches InputError::InvalidLength { expected } ==> n == expected,
            *self matches InputError::InvalidHexFormat { expected } ==> n == expected,
    {
        match self {
            InputError::InvalidLength { expected } => *expected,
            InputError::InvalidHexFormat { expected } => *expected,
        }
    }
}

/// Relies on regex (pattern `^[0-9a-fA-F]+$`): a match means the string is
/// nonempty and every byte of it is an ASCII hex digit, and conversely.
#[verifier::external_body]
fn matches_hex_pattern(s: &str) -> (r: bool)
    ensures
        r == (s.spec_bytes().len() >= 1 && all_hex_digits(s.spec_bytes())),
{
    let re = regex::Regex::new("^[0-9a-fA-F]+$").unwrap();
    re.is_match(s)
}

/// A plain-text key or plaintext is valid exactly when its byte length is
/// the variant's block length; its raw bytes are the value.
pub fn validate_text(plaintext: &str, cipher_types: CipherTypes) -> (r: Result<
    Vec<u8>,
    InputError,
>)
    ensures
        r is Ok <==> plaintext.spec_bytes().len() == spec_cipher_length(cipher_types),
        r matches Ok(v) ==> v@ == plaintext.spec_bytes(),
        r matches Err(e) ==> e == (InputError::InvalidLength {
            expected: spec_cipher_length(cipher_types) as usize,
        }),
{
    let expected_length = cipher_types.cipher_length();
    let bytes = plaintext.as_bytes();
    if bytes.len() != expected_length {
        return Err(InputError::InvalidLength { expected: expected_length });
    }
    Ok(vstd::slice::slice_to_vec(bytes))
}

/// A hex key or plaintext is valid exactly when it is twice the variant's
/// block length long and made of hex digits only.
pub fn validate_hex(hex: &str, cipher_types: CipherTypes) -> (r: Result<(), InputError>)
    ensures
        r is Ok <==> (hex.spec_bytes().len() == 2 * spec_cipher_length(cipher_types)
            && all_hex_digits(hex.spec_bytes())),
        r matches Err(e) ==> e == (InputError::InvalidHexFormat {
            expected: (2 * spec_cipher_length(cipher_types)) as usize,
        }),
{
    let expected_length = cipher_types.cipher_length() * 2;
    if !matches_hex_pattern(hex) || hex.as_bytes().len() != expected_length {
        return Err(InputError::InvalidHexFormat { expected: expected_length });
    }
    Ok(())
}

/// Validate a hex key or plaintext and decode it to bytes: valid exactly
/// when `validate_hex` accepts it, in which case the value is one block
/// of the bytes its digit pairs encode.
pub fn resolve_hex(hex: &str, cipher_types: CipherTypes) -> (r: Result<Vec<u8>, InputError>)
    ensures
        r is Ok <==> (hex.spec_bytes().len() == 2 * spec_cipher_length(cipher_types)
            && all_hex_digits(hex.spec_bytes())),
        r matches Ok(v) ==> v@ == spec_hex_decode(hex.spec_bytes()) && v@.len()
            == spec_cipher_length(cipher_types),
        r matches Err(e) ==> e == (InputError::InvalidHexFormat {
            expected: (2 * spec_cipher_length(cipher_types)) as usize,
        }),
{
    match validate_hex(hex, cipher_types) {
        Ok(()) => {
            proof {
                lemma_hex_decode_len(hex.spec_bytes());
            }
            // A value that passed validation always decodes.
            Ok(hex_decode(hex.as_bytes()).unwrap())
        },
        Err(e) => Err(e),
    }
}

} // verus!
