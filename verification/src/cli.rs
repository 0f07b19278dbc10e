//! The harness invocation: the operator's options, the precedence rules
//! that resolve them into a run configuration, the per-variant protocol
//! opcodes, the response-layout offset, and the termination policy.

use vstd::prelude::*;
use vstd::utf8::encode_utf8;

use crate::cipher_engine::{encrypt_block, spec_encrypted_block};
use crate::cipher_types::{
    spec_cipher_length, spec_default_key, spec_default_plaintext, CipherTypes,
};
use crate::config_handler::Config;
use crate::hex_codec::{all_hex_digits, spec_hex_decode};
use crate::utils::{resolve_hex, validate_text, InputError};

verus! {

pub const CMD_DES_KEYCHANGE: u8 = 0xD7;

pub const CMD_AES128_KEYCHANGE: u8 = 0xE7;

pub const CMD_SWDES_ENC: u8 = 0x44;

pub const CMD_SWAES128_ENC: u8 = 0xAE;

pub const CMD_HWDES_ENC: u8 = 0xBE;

pub const CMD_HWAES128_ENC: u8 = 0xCA;

/// The operator's options for one invocation, as handed in from the
/// outside, before resolution.
pub struct Cli {
    pub config_path: Option<String>,
    pub runs: Option<u32>,
    pub key_hex: Option<String>,
    pub plaintext_hex: Option<String>,
    pub key: Option<String>,
    pub plaintext: Option<String>,
    pub cipher: CipherTypes,
    pub delay: Option<u32>,
    pub key_send_flag: bool,
    pub use_random_keys: bool,
    pub use_random_plaintext: bool,
    pub config: Config,
}

/// The startup resolution of one value under the fixed precedence:
/// a plain-text value first, then a hex value, then the default. A
/// supplied value that fails validation is an error; randomization is
/// applied later, per iteration, and only when no value was supplied.
pub open spec fn spec_startup_value(
    text: Option<String>,
    hexs: Option<String>,
    dflt: Seq<u8>,
    t: CipherTypes,
) -> Result<Seq<u8>, InputError> {
    match text {
        Some(s) => {
            if encode_utf8(s@).len() == spec_cipher_length(t) {
                Ok(encode_utf8(s@))
            } else {
                Err(InputError::InvalidLength { expected: spec_cipher_length(t) as usize })
            }
        },
        None => match hexs {
            Some(h) => {
                if encode_utf8(h@).len() == 2 * spec_cipher_length(t) && all_hex_digits(
                    encode_utf8(h@),
                ) {
                    Ok(spec_hex_decode(encode_utf8(h@)))
                } else {
                    Err(
                        InputError::InvalidHexFormat {
                            expected: (2 * spec_cipher_length(t)) as usize,
                        },
                    )
                }
            },
            None => Ok(dflt),
        },
    }
}

/// A plain-text value always takes priority: with both a plain-text and a
/// hex value supplied, the resolution is the same as with the plain-text
/// value alone, whatever the hex value holds.
pub proof fn lemma_text_takes_precedence(
    text: String,
    hexs: String,
    dflt: Seq<u8>,
    t: CipherTypes,
)
    ensures
        spec_startup_value(Some(text), Some(hexs), dflt, t) == spec_startup_value(
            Some(text),
            None,
            dflt,
            t,
        ),
{
}

/// The key-change and encrypt opcodes of a variant. The key-change opcode
/// is shared per cipher family; the encrypt opcode tells the four
/// variants apart.
pub open spec fn spec_commands(t: CipherTypes) -> (u8, u8) {
    match t {
        CipherTypes::HWAES => (CMD_AES128_KEYCHANGE, CMD_HWAES128_ENC),
        CipherTypes::HWDES => (CMD_DES_KEYCHANGE, CMD_HWDES_ENC),
        CipherTypes::SWAES => (CMD_AES128_KEYCHANGE, CMD_SWAES128_ENC),
        CipherTypes::SWDES => (CMD_DES_KEYCHANGE, CMD_SWDES_ENC),
    }
}

impl Cli {
    /// The startup resolution of the key under the fixed precedence.
    pub open spec fn spec_resolved_key(self) -> Result<Seq<u8>, InputError> {
        spec_startup_value(self.key, self.key_hex, spec_default_key(self.cipher), self.cipher)
    }

    /// The startup resolution of the plaintext under the fixed precedence.
    pub open spec fn spec_resolved_plaintext(self) -> Result<Seq<u8>, InputError> {
        spec_startup_value(
            self.plaintext,
            self.plaintext_hex,
            spec_default_plaintext(self.cipher),
            self.cipher,
        )
    }

    /// Randomization applies to a value only when the operator supplied
    /// none: a supplied value fixes it for the whole run.
    pub open spec fn spec_effective_random_keys(self) -> bool {
        self.use_random_keys && self.key is None && self.key_hex is None
    }

    /// As for the key: a supplied plaintext is never overridden.
    pub open spec fn spec_effective_random_plaintext(self) -> bool {
        self.use_random_plaintext && self.plaintext is None && self.plaintext_hex is None
    }

    /// Resolve the operator's options into the run configuration, the
    /// plaintext first. A malformed supplied value is reported and
    /// nothing is changed: it must never reach the transport.
    pub fn init_config(&mut self) -> (r: Result<(), InputError>)
        requires
            old(self).config_path is None,
        ensures
            r is Ok <==> (old(self).spec_resolved_plaintext() is Ok && old(self).spec_resolved_key() is Ok),
            r is Ok ==> {
                &&& (old(self).spec_resolved_key() matches Ok(k) && final(self).config.key@ == k)
                &&& (old(self).spec_resolved_plaintext() matches Ok(p) && final(self).config.plaintext@ == p)
                &&& final(self).config.runs == old(self).runs
                &&& final(self).config.delay == old(self).delay
                &&& final(self).config.algorithm == old(self).cipher
                &&& final(self).config.random_keys == Some(
                    old(self).spec_effective_random_keys(),
                )
                &&& final(self).config.random_plaintext == Some(
                    old(self).spec_effective_random_plaintext(),
                )
                &&& final(self).config.wf()
                &&& *final(self) == (Cli { config: final(self).config, ..*old(self) })
            },
            r matches Err(e) ==> {
                &&& *final(self) == *old(self)
                &&& (old(self).spec_resolved_plaintext() matches Err(pe) ==> e == pe)
                &&& (old(self).spec_resolved_plaintext() is Ok ==> (old(
                    self).spec_resolved_key() matches Err(ke) ==> e == ke))
            },
    {
        let pt: Vec<u8> = match &self.plaintext {
            Some(ptext) => {
                match validate_text(ptext.as_str(), self.cipher) {
                    Ok(v) => v,
                    Err(e) => {
                        return Err(e);
                    },
                }
            },
            None => match &self.plaintext_hex {
                Some(phex) => {
                    match resolve_hex(phex.as_str(), self.cipher) {
                        Ok(v) => v,
                        Err(e) => {
                            return Err(e);
                        },
                    }
                },
                None => self.cipher.default_plaintext(),
            },
        };
        let k: Vec<u8> = match &self.key {
            Some(ktext) => {
                match validate_text(ktext.as_str(), self.cipher) {
                    Ok(v) => v,
                    Err(e) => {
                        return Err(e);
                    },
                }
            },
            None => match &self.key_hex {
                Some(khex) => {
                    match resolve_hex(khex.as_str(), self.cipher) {
                        Ok(v) => v,
                        Err(e) => {
                            return Err(e);
                        },
                    }
                },
                None => self.cipher.default_key(),
            },
        };
        let random_keys = self.use_random_keys && self.key.is_none() && self.key_hex.is_none();
        let random_plaintext = self.use_random_plaintext && self.plaintext.is_none()
            && self.plaintext_hex.is_none();
        self.config = Config {
            key: k,
            plaintext: pt,
            runs: self.runs,
            delay: self.delay,
            algorithm: self.cipher,
            random_keys: Some(random_keys),
            random_plaintext: Some(random_plaintext),
        };
        Ok(())
    }

    /// The key-change and encrypt opcodes of the configured variant.
    pub fn get_commands(&self) -> (r: (u8, u8))
        ensures
            r == spec_commands(self.config.algorithm),
    {
        match self.config.algorithm {
            CipherTypes::HWAES => (CMD_AES128_KEYCHANGE, CMD_HWAES128_ENC),
            CipherTypes::HWDES => (CMD_DES_KEYCHANGE, CMD_HWDES_ENC),
            CipherTypes::SWAES => (CMD_AES128_KEYCHANGE, CMD_SWAES128_ENC),
            CipherTypes::SWDES => (CMD_DES_KEYCHANGE, CMD_SWDES_ENC),
        }
    }

    /// The reference ciphertext for this iteration's key and plaintext
    /// under the configured variant.
    pub fn generate_encrypted_block(&self, key: Vec<u8>, plaintext: Vec<u8>) -> (r: Vec<u8>)
        requires
            key@.len() == spec_cipher_length(self.config.algorithm),
            plaintext@.len() == spec_cipher_length(self.config.algorithm),
        ensures
            r@ == spec_encrypted_block(self.config.algorithm, key@, plaintext@),
            r@.len() == spec_cipher_length(self.config.algorithm),
    {
        encrypt_block(self.config.algorithm, &key, &plaintext)
    }

    /// Where the ciphertext starts in the response buffer: after a
    /// block-length echo region when a key was sent in-band this
    /// iteration, at the start otherwise.
    pub fn cipher_length(&self) -> (n: usize)
        ensures
            n == self.spec_cipher_length_offset(),
    {
        match !(self.key_send_flag || self.use_random_keys) {
            true => 0,
            false => self.config.algorithm.cipher_length(),
        }
    }

    /// The response-layout offset `cipher_length` returns.
    pub open spec fn spec_cipher_length_offset(self) -> nat {
        if !(self.key_send_flag || self.use_random_keys) {
            0
        } else {
            spec_cipher_length(self.config.algorithm)
        }
    }

    /// The termination policy, evaluated after `total_runs` completed
    /// iterations: a configured run bound stops the loop after exactly
    /// that many iterations; an explicit hex key and plaintext with no
    /// bound make a fixed single-vector run of exactly one iteration;
    /// otherwise the loop runs until interrupted from outside.
    pub open spec fn spec_is_finished(self, total_runs: u32) -> bool {
        match self.config.runs {
            Some(count) => total_runs + 1 > count,
            None => self.key_hex is Some && self.plaintext_hex is Some && total_runs >= 1,
        }
    }

    /// A bounded run halts after exactly its configured number of
    /// iterations: with `runs` set to `count`, the loop is finished
    /// exactly when `count` or more iterations have completed.
    pub proof fn lemma_bounded_termination(self, total_runs: u32)
        ensures
            self.config.runs matches Some(count) ==> (self.spec_is_finished(total_runs)
                <==> total_runs >= count),
    {
    }

    /// A fixed single-vector run halts after exactly one iteration: with
    /// an explicit hex key and plaintext and no run bound, the loop is
    /// finished exactly when at least one iteration has completed.
    pub proof fn lemma_single_vector_termination(self, total_runs: u32)
        requires
            self.config.runs is None,
            self.key_hex is Some,
            self.plaintext_hex is Some,
        ensures
            self.spec_is_finished(total_runs) <==> total_runs >= 1,
    {
    }

    /// Whether the loop is done after `total_runs` completed iterations.
    pub fn is_finished(&self, total_runs: u32) -> (r: bool)
        ensures
            r == self.spec_is_finished(total_runs),
    {
        if let Some(count) = self.config.runs {
            if total_runs >= count {
                return true;
            }
            return false;
        }
        self.key_hex.is_some() && self.plaintext_hex.is_some() && total_runs >= 1
    }
}

} // verus!
