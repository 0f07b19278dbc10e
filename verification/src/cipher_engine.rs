//! The reference cipher engine: the expected ciphertext for a key and
//! plaintext, computed locally by the standard single-block primitives
//! the device under test must agree with.

use aes::cipher::{BlockCipherEncrypt, KeyInit};
use vstd::prelude::*;

use crate::cipher_types::{spec_cipher_length, CipherTypes};

verus! {

/// The AES-128 single-block encryption of a 16-byte plaintext under a
/// 16-byte key. A function of key and plaintext alone; its pages-long
/// definition is the published standard's.
pub uninterp spec fn aes128_cipher_of(key: Seq<u8>, plaintext: Seq<u8>) -> Seq<u8>;

/// The single-DES encryption of an 8-byte plaintext under an 8-byte key.
/// A function of key and plaintext alone; its definition is the published
/// standard's.
pub uninterp spec fn des_cipher_of(key: Seq<u8>, plaintext: Seq<u8>) -> Seq<u8>;

/// Relies on aes::Aes128 (KeyInit::new, BlockCipherEncrypt::encrypt_block):
/// one 16-byte block encrypted under a 16-byte key, a function of the two
/// arguments alone.
#[verifier::external_body]
fn aes128_encrypt(key: &[u8], plaintext: &[u8]) -> (r: Vec<u8>)
    requires
        key@.len() == 16,
        plaintext@.len() == 16,
    ensures
        r@ == aes128_cipher_of(key@, plaintext@),
        r@.len() == 16,
{
    let cipher = aes::Aes128::new(key.try_into().expect("key length was checked"));
    let mut block: aes::Block = plaintext.try_into().expect("plaintext length was checked");
    cipher.encrypt_block(&mut block);
    block.to_vec()
}

/// Relies on des::Des (KeyInit::new, BlockCipherEncrypt::encrypt_block):
/// one 8-byte block encrypted under an 8-byte key, a function of the two
/// arguments alone.
#[verifier::external_body]
fn des_encrypt(key: &[u8], plaintext: &[u8]) -> (r: Vec<u8>)
    requires
        key@.len() == 8,
        plaintext@.len() == 8,
    ensures
        r@ == des_cipher_of(key@, plaintext@),
        r@.len() == 8,
{
    let cipher = des::Des::new(key.try_into().expect("key length was checked"));
    let mut block: des::cipher::Block<des::Des> = plaintext.try_into().expect(
        "plaintext length was checked",
    );
    cipher.encrypt_block(&mut block);
    block.to_vec()
}

/// The expected ciphertext block for a variant: the AES-128 encryption on
/// the 16-byte variants, the single-DES encryption on the 8-byte ones.
pub open spec fn spec_encrypted_block(t: CipherTypes, key: Seq<u8>, plaintext: Seq<u8>) -> Seq<
    u8,
> {
    match t {
        CipherTypes::HWAES => aes128_cipher_of(key, plaintext),
        CipherTypes::SWAES => aes128_cipher_of(key, plaintext),
        CipherTypes::HWDES => des_cipher_of(key, plaintext),
        CipherTypes::SWDES => des_cipher_of(key, plaintext),
    }
}

/// The reference ciphertext for one block under the given variant.
pub fn encrypt_block(t: CipherTypes, key: &Vec<u8>, plaintext: &Vec<u8>) -> (r: Vec<u8>)
    requires
        key@.len() == spec_cipher_length(t),
        plaintext@.len() == spec_cipher_length(t),
    ensures
        r@ == spec_encrypted_block(t, key@, plaintext@),
        r@.len() == spec_cipher_length(t),
{
    match t {
        CipherTypes::HWAES => aes128_encrypt(key.as_slice(), plaintext.as_slice()),
        CipherTypes::SWAES => aes128_encrypt(key.as_slice(), plaintext.as_slice()),
        CipherTypes::HWDES => des_encrypt(key.as_slice(), plaintext.as_slice()),
        CipherTypes::SWDES => des_encrypt(key.as_slice(), plaintext.as_slice()),
    }
}

} // verus!
