//! The conformance loop's bookkeeping: the pass/fail counters, the
//! outcome of one iteration, and the comparison of the device's response
//! against the reference ciphertext.

use vstd::prelude::*;
use vstd::slice::{slice_subrange, slice_to_vec};

use crate::cipher_engine::spec_encrypted_block;
use crate::cipher_types::spec_cipher_length;
use crate::cli::Cli;
use crate::config_handler::copy_bytes;

verus! {

/// The run tally: completed iterations, and how many of them matched the
/// reference. Matches never outnumber runs.
pub struct RunCounters {
    pub total_runs: u32,
    pub matches: u32,
}

impl RunCounters {
    /// The tally is consistent: no more matches than completed runs.
    pub open spec fn wf(self) -> bool {
        self.matches <= self.total_runs
    }

    /// A fresh tally, before any iteration.
    pub fn new() -> (c: RunCounters)
        ensures
            c.total_runs == 0,
            c.matches == 0,
            c.wf(),
    {
        RunCounters { total_runs: 0, matches: 0 }
    }

    /// Record one completed iteration: the run count always advances by
    /// one, the match count exactly when the iteration matched.
    pub fn record(&mut self, matched: bool)
        requires
            old(self).total_runs < u32::MAX,
            old(self).wf(),
        ensures
            final(self).total_runs == old(self).total_runs + 1,
            matched ==> final(self).matches == old(self).matches + 1,
            !matched ==> final(self).matches == old(self).matches,
            final(self).wf(),
    {
        self.total_runs = self.total_runs + 1;
        if matched {
            self.matches = self.matches + 1;
        }
    }
}

/// What one loop pass produced: the inputs used, the locally computed
/// reference block, the bytes the device returned, and whether they
/// agreed. Created and consumed within a single iteration.
pub struct IterationOutcome {
    pub key: Vec<u8>,
    pub plaintext: Vec<u8>,
    pub expected: Vec<u8>,
    pub device: Vec<u8>,
    pub matched: bool,
}

impl IterationOutcome {
    /// After a failed comparison the harness pauses before the next
    /// iteration, to let an unstable device re-settle.
    pub fn needs_cooldown(&self) -> (r: bool)
        ensures
            r == !self.matched,
    {
        !self.matched
    }
}

/// Exact byte-for-byte equality of two slices.
pub fn bytes_equal(a: &[u8], b: &[u8]) -> (r: bool)
    ensures
        r == (a@ == b@),
{
    if a.len() != b.len() {
        return false;
    }
    let mut i: usize = 0;
    while i < a.len()
        invariant
            i <= a@.len(),
            a@.len() == b@.len(),
            forall|j: int| 0 <= j < i ==> a@[j] == b@[j],
        decreases a@.len() - i,
    {
        if a[i] != b[i] {
            return false;
        }
        i = i + 1;
    }
    proof {
        assert(a@ =~= b@);
    }
    true
}

/// Evaluate one iteration: compute the reference block for the key and
/// plaintext just sent, take the device's ciphertext from the response
/// buffer — it starts after the block-length echo region exactly when a
/// key went in-band this iteration — and compare the two exactly.
pub fn evaluate_iteration(
    cli: &Cli,
    key: Vec<u8>,
    plaintext: Vec<u8>,
    response: &[u8],
    bytes_read: usize,
) -> (o: IterationOutcome)
    requires
        key@.len() == spec_cipher_length(cli.config.algorithm),
        plaintext@.len() == spec_cipher_length(cli.config.algorithm),
        cli.spec_cipher_length_offset() <= bytes_read <= response@.len(),
    ensures
        o.key@ == key@,
        o.plaintext@ == plaintext@,
        o.expected@ == spec_encrypted_block(cli.config.algorithm, key@, plaintext@),
        o.device@ == response@.subrange(
            cli.spec_cipher_length_offset() as int,
            bytes_read as int,
        ),
        o.matched == (o.expected@ == o.device@),
{
    let offset = cli.cipher_length();
    let device_slice = slice_subrange(response, offset, bytes_read);
    let expected = cli.generate_encrypted_block(copy_bytes(&key), copy_bytes(&plaintext));
    let matched = bytes_equal(expected.as_slice(), device_slice);
    IterationOutcome { key, plaintext, expected, device: slice_to_vec(device_slice), matched }
}

/// Whether the device's acknowledgment of the initial key install echoes
/// the key in the first block of the response buffer. Informational: a
/// mismatch here does not halt the run.
pub fn key_echo_matches(key: &Vec<u8>, response: &[u8]) -> (r: bool)
    requires
        key@.len() <= response@.len(),
    ensures
        r == (response@.subrange(0, key@.len() as int) == key@),
{
    let echo = slice_subrange(response, 0, key.len());
    bytes_equal(key.as_slice(), echo)
}

} // verus!
