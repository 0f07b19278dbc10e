//! The resolved parameters of one harness invocation: variant, key,
//! plaintext, optional run bound and extra delay, and the two
//! randomization flags. Once resolved, key and plaintext are always
//! exactly one block long.

use vstd::prelude::*;

use crate::cipher_types::{
    spec_cipher_length, spec_default_key, spec_default_plaintext, CipherTypes,
};
use crate::rng::random_bytes;

verus! {

/// The resolved run parameters. `runs` bounds the iteration count when
/// set; `delay` is extra settle time in milliseconds on top of the
/// variant's own; the two flags regenerate key or plaintext freshly each
/// iteration.
#[derive(Clone, Debug)]
pub struct Config {
    pub key: Vec<u8>,
    pub plaintext: Vec<u8>,
    pub runs: Option<u32>,
    pub delay: Option<u32>,
    pub algorithm: CipherTypes,
    pub random_keys: Option<bool>,
    pub random_plaintext: Option<bool>,
}

/// The variant's own settle delay in milliseconds: the device's hardware
/// paths answer faster than its software-emulated paths.
pub open spec fn spec_settle_delay_millis(t: CipherTypes) -> u64 {
    match t {
        CipherTypes::HWAES => 5,
        CipherTypes::HWDES => 3,
        CipherTypes::SWAES => 20,
        CipherTypes::SWDES => 20,
    }
}

impl Config {
    /// Key and plaintext are exactly one block of the chosen variant.
    pub open spec fn wf(self) -> bool {
        &&& self.key@.len() == spec_cipher_length(self.algorithm)
        &&& self.plaintext@.len() == spec_cipher_length(self.algorithm)
    }

    /// Settle time in milliseconds to wait after a command before the
    /// response is read: the variant's own delay plus the configured
    /// extra delay.
    pub fn get_delay(&self) -> (d: u64)
        requires
            self.delay is Some,
        ensures
            self.delay matches Some(extra) ==> d == spec_settle_delay_millis(self.algorithm)
                + extra,
    {
        let extra = match self.delay {
            Some(extra) => extra,
            None => 0,
        };
        let base: u64 = match self.algorithm {
            CipherTypes::HWAES => 5,
            CipherTypes::HWDES => 3,
            CipherTypes::SWAES => 20,
            CipherTypes::SWDES => 20,
        };
        base + extra as u64
    }

    /// The key to use this iteration: freshly drawn random bytes when
    /// `random_keys` is set, else the stored key, which stays as it is.
    pub fn get_key(&mut self) -> (k: Vec<u8>)
        ensures
            old(self).random_keys == Some(true) ==> final(self).key@.len() == spec_cipher_length(
                old(self).algorithm,
            ),
            old(self).random_keys != Some(true) ==> final(self).key@ == old(self).key@,
            k@ == final(self).key@,
            *final(self) == (Config { key: final(self).key, ..*old(self) }),
    {
        let regenerate = match self.random_keys {
            Some(urk) => urk,
            None => false,
        };
        if regenerate {
            let len = self.algorithm.cipher_length();
            self.key = random_bytes(len);
        }
        copy_bytes(&self.key)
    }

    /// The plaintext to use this iteration: freshly drawn random bytes
    /// when `random_plaintext` is set, else the stored plaintext, which
    /// stays as it is.
    pub fn get_plaintext(&mut self) -> (p: Vec<u8>)
        ensures
            old(self).random_plaintext == Some(true) ==> final(self).plaintext@.len()
                == spec_cipher_length(old(self).algorithm),
            old(self).random_plaintext != Some(true) ==> final(self).plaintext@ == old(
                self,
            ).plaintext@,
            p@ == final(self).plaintext@,
            *final(self) == (Config { plaintext: final(self).plaintext, ..*old(self) }),
    {
        let regenerate = match self.random_plaintext {
            Some(urp) => urp,
            None => false,
        };
        if regenerate {
            let len = self.algorithm.cipher_length();
            self.plaintext = random_bytes(len);
        }
        copy_bytes(&self.plaintext)
    }
}

impl Default for Config {
    /// The fixed fallback configuration: the hardware DES variant with
    /// its default key and plaintext, no run bound, no extra delay, no
    /// randomization.
    fn default() -> (c: Config)
        ensures
            c.algorithm == CipherTypes::HWDES,
            c.key@ == spec_default_key(CipherTypes::HWDES),
            c.plaintext@ == spec_default_plaintext(CipherTypes::HWDES),
            c.runs is None,
            c.delay is None,
            c.random_keys is None,
            c.random_plaintext is None,
            c.wf(),
    {
        let algorithm = CipherTypes::HWDES;
        Config {
            key: algorithm.default_key(),
            plaintext: algorithm.default_plaintext(),
            runs: None,
            delay: None,
            algorithm,
            random_keys: None,
            random_plaintext: None,
        }
    }
}

/// A byte-for-byte copy of a byte vector.
pub fn copy_bytes(v: &Vec<u8>) -> (r: Vec<u8>)
    ensures
        r@ == v@,
{
    let mut r: Vec<u8> = Vec::new();
    let mut i: usize = 0;
    while i < v.len()
        invariant
            i <= v@.len(),
            r@ == v@.take(i as int),
        decreases v@.len() - i,
    {
        r.push(v[i]);
        proof {
            assert(v@.take(i + 1) =~= v@.take(i as int).push(v@[i as int]));
        }
        i = i + 1;
    }
    proof {
        assert(v@.take(v@.len() as int) =~= v@);
    }
    r
}

} // verus!
