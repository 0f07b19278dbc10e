//! The cipher variants the harness can drive, and their static profile:
//! block length, default key and default plaintext.

use vstd::prelude::*;

verus! {

/// A cipher variant: the AES-128 and DES families, each reachable through
/// the device's hardware path or its software-emulated path.
#[derive(Clone, Copy, Debug, PartialEq, Eq, Structural)]
pub enum CipherTypes {
    HWAES,
    HWDES,
    SWAES,
    SWDES,
}

/// Block length in bytes of a variant: 16 for the AES-128 paths, 8 for
/// the DES paths.
pub open spec fn spec_cipher_length(t: CipherTypes) -> nat {
    match t {
        CipherTypes::HWAES => 16,
        CipherTypes::HWDES => 8,
        CipherTypes::SWAES => 16,
        CipherTypes::SWDES => 8,
    }
}

/// The fixed key used when the operator supplies none and randomization
/// is off.
pub open spec fn spec_default_key(t: CipherTypes) -> Seq<u8> {
    if spec_cipher_length(t) == 16 {
        seq![0xCAu8, 0xFE, 0xBA, 0xBE, 0xDE, 0xAD, 0xBE, 0xEF, 0x00, 0x01, 0x02, 0x03, 0x04, 0x05, 0x06, 0x07]
    } else {
        seq![0xCAu8, 0xFE, 0xBA, 0xBE, 0xDE, 0xAD, 0xBE, 0xEF]
    }
}

/// The fixed plaintext used when the operator supplies none and
/// randomization is off: an all-zero block.
pub open spec fn spec_default_plaintext(t: CipherTypes) -> Seq<u8> {
    Seq::new(spec_cipher_length(t), |i: int| 0u8)
}

impl CipherTypes {
    /// Block length in bytes of every key and plaintext for this variant.
    pub fn cipher_length(&self) -> (n: usize)
        ensures
            n == spec_cipher_length(*self),
    {
        match self {
            CipherTypes::HWAES => 16,
            CipherTypes::HWDES => 8,
            CipherTypes::SWAES => 16,
            CipherTypes::SWDES => 8,
        }
    }

    /// The variant's fixed default key.
    pub fn default_key(&self) -> (k: Vec<u8>)
        ensures
            k@ == spec_default_key(*self),
            k@.len() == spec_cipher_length(*self),
    {
        let k: Vec<u8> = if self.cipher_length() == 16 {
            vec![0xCA, 0xFE, 0xBA, 0xBE, 0xDE, 0xAD, 0xBE, 0xEF, 0x00, 0x01, 0x02, 0x03, 0x04, 0x05, 0x06, 0x07]
        } else {
            vec![0xCA, 0xFE, 0xBA, 0xBE, 0xDE, 0xAD, 0xBE, 0xEF]
        };
        proof {
            assert(k@ =~= spec_default_key(*self));
        }
        k
    }

    /// The variant's fixed default plaintext: an all-zero block.
    pub fn default_plaintext(&self) -> (p: Vec<u8>)
        ensures
            p@ == spec_default_plaintext(*self),
            p@.len() == spec_cipher_length(*self),
    {
        let p: Vec<u8> = if self.cipher_length() == 16 {
            vec![0, 0, 0, 0, 0, 0, 0, 0, 0, 0, 0, 0, 0, 0, 0, 0]
        } else {
            vec![0, 0, 0, 0, 0, 0, 0, 0]
        };
        proof {
            assert(p@ =~= spec_default_plaintext(*self));
        }
        p
    }

    /// A short fixed name for reports.
    pub fn name(&self) -> (s: &'static str)
        ensures
            s@ == spec_variant_name(*self),
    {
        match self {
            CipherTypes::HWAES => "HW_AES",
            CipherTypes::HWDES => "HW_DES",
            CipherTypes::SWAES => "SW_AES",
            CipherTypes::SWDES => "SW_DES",
        }
    }
}

/// The report name of each variant.
pub open spec fn spec_variant_name(t: CipherTypes) -> Seq<char> {
    match t {
        CipherTypes::HWAES => "HW_AES"@,
        CipherTypes::HWDES => "HW_DES"@,
        CipherTypes::SWAES => "SW_AES"@,
        CipherTypes::SWDES => "SW_DES"@,
    }
}

} // verus!
