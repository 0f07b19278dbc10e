//! Conformance harness for a hardware cipher block reached over a serial
//! link: framed commands, input resolution and validation, a reference
//! cipher engine, and the pass/fail bookkeeping of the test loop.

pub mod cipher_engine;
pub mod cipher_types;
pub mod cli;
pub mod config_handler;
pub mod harness;
pub mod hex_codec;
pub mod rng;
pub mod utils;

pub use cipher_types::CipherTypes;
