//! The conformance loop: termination policy, end-to-end iterations over a
//! simulated transport, counters, and the report formatting.

use cipher_harness::cipher_types::CipherTypes;
use cipher_harness::cli::Cli;
use cipher_harness::config_handler::Config;
use cipher_harness::harness::{bytes_equal, evaluate_iteration, key_echo_matches, RunCounters};
use cipher_harness::hex_codec::bytes_to_hex_string;

fn base_cli(cipher: CipherTypes) -> Cli {
    let mut config = Config::default();
    config.algorithm = cipher;
    config.key = cipher.default_key();
    config.plaintext = cipher.default_plaintext();
    Cli {
        config_path: None,
        runs: None,
        key_hex: None,
        plaintext_hex: None,
        key: None,
        plaintext: None,
        cipher,
        delay: Some(0),
        key_send_flag: false,
        use_random_keys: false,
        use_random_plaintext: false,
        config,
    }
}

#[test]
fn bounded_run_performs_exactly_max_runs_iterations() {
    let mut cli = base_cli(CipherTypes::HWDES);
    cli.runs = Some(3);
    cli.init_config().unwrap();
    let mut total: u32 = 0;
    let mut iterations: u32 = 0;
    loop {
        iterations += 1;
        total += 1;
        if cli.is_finished(total) {
            break;
        }
        assert!(iterations < 100, "loop failed to halt");
    }
    assert_eq!(iterations, 3);
}

#[test]
fn explicit_hex_vector_run_performs_exactly_one_iteration() {
    let mut cli = base_cli(CipherTypes::HWDES);
    cli.key_hex = Some("cafebabedeadbeef".to_string());
    cli.plaintext_hex = Some("0000000000000000".to_string());
    cli.init_config().unwrap();
    let mut total: u32 = 0;
    let mut iterations: u32 = 0;
    loop {
        iterations += 1;
        total += 1;
        if cli.is_finished(total) {
            break;
        }
        assert!(iterations < 100, "loop failed to halt");
    }
    assert_eq!(iterations, 1);
}

#[test]
fn unbounded_run_is_never_finished() {
    let mut cli = base_cli(CipherTypes::HWDES);
    cli.init_config().unwrap();
    assert!(!cli.is_finished(0));
    assert!(!cli.is_finished(1));
    assert!(!cli.is_finished(1000));
}

#[test]
fn matching_device_response_counts_as_a_pass() {
    let mut cli = base_cli(CipherTypes::HWDES);
    cli.key_hex = Some("cafebabedeadbeef".to_string());
    cli.plaintext_hex = Some("0000000000000000".to_string());
    cli.init_config().unwrap();
    let key = cli.config.get_key();
    let plaintext = cli.config.get_plaintext();
    assert_eq!(key, vec![0xCA, 0xFE, 0xBA, 0xBE, 0xDE, 0xAD, 0xBE, 0xEF]);
    assert_eq!(plaintext, vec![0u8; 8]);

    // The simulated transport echoes the correct single-DES ciphertext.
    let device_response = cli.generate_encrypted_block(key.clone(), plaintext.clone());
    let bytes_read = device_response.len();
    let outcome = evaluate_iteration(&cli, key, plaintext, &device_response, bytes_read);
    assert!(outcome.matched);
    assert!(!outcome.needs_cooldown());
    assert_eq!(outcome.device, outcome.expected);

    let mut counters = RunCounters::new();
    counters.record(outcome.matched);
    assert_eq!(counters.total_runs, 1);
    assert_eq!(counters.matches, 1);
}

#[test]
fn all_zero_device_response_counts_as_a_failure_with_cooldown() {
    let mut cli = base_cli(CipherTypes::HWDES);
    cli.key_hex = Some("cafebabedeadbeef".to_string());
    cli.plaintext_hex = Some("0000000000000000".to_string());
    cli.init_config().unwrap();
    let key = cli.config.get_key();
    let plaintext = cli.config.get_plaintext();

    let device_response = vec![0u8; 8];
    let outcome = evaluate_iteration(&cli, key, plaintext, &device_response, 8);
    assert!(!outcome.matched);
    assert!(outcome.needs_cooldown());
    assert_eq!(outcome.device, vec![0u8; 8]);

    let mut counters = RunCounters::new();
    counters.record(outcome.matched);
    assert_eq!(counters.total_runs, 1);
    assert_eq!(counters.matches, 0);
}

#[test]
fn response_offset_skips_the_key_echo_region() {
    let mut cli = base_cli(CipherTypes::HWDES);
    cli.key_send_flag = true;
    cli.init_config().unwrap();
    let key = cli.config.get_key();
    let plaintext = cli.config.get_plaintext();
    let expected = cli.generate_encrypted_block(key.clone(), plaintext.clone());

    // The first block of the buffer echoes the key; the ciphertext follows.
    let mut buffer = key.clone();
    buffer.extend_from_slice(&expected);
    let bytes_read = buffer.len();
    let outcome = evaluate_iteration(&cli, key, plaintext, &buffer, bytes_read);
    assert!(outcome.matched);
    assert_eq!(outcome.device, expected);
}

#[test]
fn counters_accumulate_over_iterations() {
    let mut counters = RunCounters::new();
    counters.record(true);
    counters.record(false);
    counters.record(true);
    assert_eq!(counters.total_runs, 3);
    assert_eq!(counters.matches, 2);
}

#[test]
fn key_echo_detection() {
    let key = vec![0xCA, 0xFE, 0xBA, 0xBE, 0xDE, 0xAD, 0xBE, 0xEF];
    let mut buffer = [0u8; 32];
    buffer[..8].copy_from_slice(&key);
    assert!(key_echo_matches(&key, &buffer));
    buffer[3] ^= 0xFF;
    assert!(!key_echo_matches(&key, &buffer));
}

#[test]
fn byte_equality_is_exact() {
    assert!(bytes_equal(&[1, 2, 3], &[1, 2, 3]));
    assert!(!bytes_equal(&[1, 2, 3], &[1, 2]));
    assert!(!bytes_equal(&[1, 2, 3], &[1, 2, 4]));
    assert!(bytes_equal(&[], &[]));
}

#[test]
fn report_format_brackets_and_spaces() {
    assert_eq!(bytes_to_hex_string(&vec![0xCA, 0xFE]), "[CA FE]");
    assert_eq!(bytes_to_hex_string(&vec![]), "[]");
    assert_eq!(bytes_to_hex_string(&vec![0x00]), "[00]");
    assert_eq!(
        bytes_to_hex_string(&vec![0xCA, 0xFE, 0xBA, 0xBE, 0xDE, 0xAD, 0xBE, 0xEF]),
        "[CA FE BA BE DE AD BE EF]"
    );
}
