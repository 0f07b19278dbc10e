//! Input validation, the resolution precedence, hex round trips, and the
//! randomized mode.

use cipher_harness::cipher_types::CipherTypes;
use cipher_harness::cli::Cli;
use cipher_harness::config_handler::Config;
use cipher_harness::hex_codec::encode_hex_upper;
use cipher_harness::utils::{resolve_hex, validate_hex, validate_text, InputError};

fn base_cli(cipher: CipherTypes) -> Cli {
    let mut config = Config::default();
    config.algorithm = cipher;
    config.key = cipher.default_key();
    config.plaintext = cipher.default_plaintext();
    Cli {
        config_path: None,
        runs: None,
        key_hex: None,
        plaintext_hex: None,
        key: None,
        plaintext: None,
        cipher,
        delay: Some(0),
        key_send_flag: false,
        use_random_keys: false,
        use_random_plaintext: false,
        config,
    }
}

const ALL_VARIANTS: [CipherTypes; 4] = [
    CipherTypes::HWAES,
    CipherTypes::HWDES,
    CipherTypes::SWAES,
    CipherTypes::SWDES,
];

#[test]
fn text_of_exact_block_length_is_accepted() {
    let v = validate_text("ABCDEFGH", CipherTypes::HWDES).unwrap();
    assert_eq!(v, b"ABCDEFGH".to_vec());
    let v16 = validate_text("0123456789ABCDEF", CipherTypes::HWAES).unwrap();
    assert_eq!(v16, b"0123456789ABCDEF".to_vec());
}

#[test]
fn text_of_wrong_length_is_rejected_for_every_variant() {
    for variant in ALL_VARIANTS {
        let len = variant.cipher_length();
        let short = "x".repeat(len - 1);
        let long = "x".repeat(len + 1);
        assert_eq!(
            validate_text(&short, variant),
            Err(InputError::InvalidLength { expected: len })
        );
        assert_eq!(
            validate_text(&long, variant),
            Err(InputError::InvalidLength { expected: len })
        );
    }
}

#[test]
fn hex_of_wrong_length_or_shape_is_rejected_for_every_variant() {
    for variant in ALL_VARIANTS {
        let len = variant.cipher_length();
        let short = "a".repeat(2 * len - 1);
        let long = "a".repeat(2 * len + 1);
        let bad_char = format!("{}g", "a".repeat(2 * len - 1));
        let expected = Err(InputError::InvalidHexFormat { expected: 2 * len });
        assert_eq!(validate_hex(&short, variant), expected);
        assert_eq!(validate_hex(&long, variant), expected);
        assert_eq!(validate_hex(&bad_char, variant), expected);
        assert_eq!(validate_hex("", variant), expected);
        let good = "aB".repeat(len);
        assert_eq!(validate_hex(&good, variant), Ok(()));
    }
}

#[test]
fn error_reports_the_expected_length() {
    let e = validate_text("abc", CipherTypes::HWAES).unwrap_err();
    assert_eq!(e.expected_length(), 16);
    let e = validate_hex("abc", CipherTypes::HWDES).unwrap_err();
    assert_eq!(e.expected_length(), 16);
}

#[test]
fn plain_text_takes_priority_over_hex() {
    let mut cli = base_cli(CipherTypes::HWDES);
    cli.key = Some("KEYBYTES".to_string());
    cli.key_hex = Some("0101010101010101".to_string());
    cli.plaintext = Some("PTXBYTES".to_string());
    cli.plaintext_hex = Some("0202020202020202".to_string());
    cli.init_config().unwrap();
    assert_eq!(cli.config.key, b"KEYBYTES".to_vec());
    assert_eq!(cli.config.plaintext, b"PTXBYTES".to_vec());
}

#[test]
fn hex_values_resolve_when_no_plain_text_is_given() {
    let mut cli = base_cli(CipherTypes::HWDES);
    cli.key_hex = Some("cafebabedeadbeef".to_string());
    cli.plaintext_hex = Some("0011223344556677".to_string());
    cli.init_config().unwrap();
    assert_eq!(cli.config.key, vec![0xCA, 0xFE, 0xBA, 0xBE, 0xDE, 0xAD, 0xBE, 0xEF]);
    assert_eq!(cli.config.plaintext, vec![0x00, 0x11, 0x22, 0x33, 0x44, 0x55, 0x66, 0x77]);
}

#[test]
fn defaults_resolve_when_nothing_is_given() {
    let mut cli = base_cli(CipherTypes::SWAES);
    cli.init_config().unwrap();
    assert_eq!(cli.config.key, CipherTypes::SWAES.default_key());
    assert_eq!(cli.config.plaintext, CipherTypes::SWAES.default_plaintext());
    assert_eq!(cli.config.random_keys, Some(false));
    assert_eq!(cli.config.random_plaintext, Some(false));
}

#[test]
fn invalid_plain_text_aborts_resolution() {
    let mut cli = base_cli(CipherTypes::HWAES);
    cli.plaintext = Some("short".to_string());
    let e = cli.init_config().unwrap_err();
    assert_eq!(e, InputError::InvalidLength { expected: 16 });
}

#[test]
fn invalid_hex_aborts_resolution() {
    let mut cli = base_cli(CipherTypes::HWDES);
    cli.key_hex = Some("cafebabedeadbee".to_string());
    let e = cli.init_config().unwrap_err();
    assert_eq!(e, InputError::InvalidHexFormat { expected: 16 });
}

#[test]
fn supplied_value_disables_randomization_for_that_field() {
    let mut cli = base_cli(CipherTypes::HWDES);
    cli.key = Some("KEYBYTES".to_string());
    cli.use_random_keys = true;
    cli.use_random_plaintext = true;
    cli.init_config().unwrap();
    assert_eq!(cli.config.random_keys, Some(false));
    assert_eq!(cli.config.random_plaintext, Some(true));
    // The supplied key stays fixed across iterations.
    let first = cli.config.get_key();
    let second = cli.config.get_key();
    assert_eq!(first, b"KEYBYTES".to_vec());
    assert_eq!(second, b"KEYBYTES".to_vec());
}

#[test]
fn hex_round_trip_reproduces_the_bytes() {
    let values: [Vec<u8>; 3] = [
        vec![0xCA, 0xFE, 0xBA, 0xBE, 0xDE, 0xAD, 0xBE, 0xEF],
        vec![0x00, 0x00, 0x00, 0x00, 0x00, 0x00, 0x00, 0x00],
        vec![0xFF, 0x10, 0x32, 0x54, 0x76, 0x98, 0xBA, 0xDC],
    ];
    for bytes in values {
        let upper = encode_hex_upper(&bytes);
        assert_eq!(resolve_hex(&upper, CipherTypes::HWDES), Ok(bytes.clone()));
        let lower = upper.to_lowercase();
        assert_eq!(resolve_hex(&lower, CipherTypes::HWDES), Ok(bytes.clone()));
    }
}

#[test]
fn hex_decoding_is_case_insensitive_and_reemission_canonical() {
    let mixed = "cAfEbAbEdEaDbEeF";
    let bytes = resolve_hex(mixed, CipherTypes::HWDES).unwrap();
    assert_eq!(bytes, vec![0xCA, 0xFE, 0xBA, 0xBE, 0xDE, 0xAD, 0xBE, 0xEF]);
    // Re-emission is canonical uppercase, agreeing with the hex crate's
    // encoding up to case.
    let reemitted = encode_hex_upper(&bytes);
    assert_eq!(reemitted, "CAFEBABEDEADBEEF");
    assert_eq!(reemitted.to_lowercase(), hex::encode(&bytes));
}

#[test]
fn randomized_draws_have_block_length_and_vary() {
    let mut config = Config::default();
    config.algorithm = CipherTypes::HWDES;
    config.random_keys = Some(true);
    config.random_plaintext = Some(true);
    let mut previous_key = config.get_key();
    let mut previous_plaintext = config.get_plaintext();
    assert_eq!(previous_key.len(), 8);
    assert_eq!(previous_plaintext.len(), 8);
    for _ in 0..1000 {
        let key = config.get_key();
        let plaintext = config.get_plaintext();
        assert_eq!(key.len(), 8);
        assert_eq!(plaintext.len(), 8);
        assert_ne!(key, previous_key);
        assert_ne!(plaintext, previous_plaintext);
        previous_key = key;
        previous_plaintext = plaintext;
    }
}
