//! Hex encoding and decoding of key and plaintext bytes: the decode path
//! used for operator-supplied hex values, the canonical uppercase encoding
//! used when a value is re-emitted, and the bracketed report format.

use vstd::prelude::*;
use vstd::string::StringExecFns;

verus! {

/// `b` is the ASCII code of a hex digit (`0-9`, `a-f` or `A-F`).
pub open spec fn is_hex_digit(b: u8) -> bool {
    (0x30 <= b <= 0x39) || (0x41 <= b <= 0x46) || (0x61 <= b <= 0x66)
}

/// The numeric value of an ASCII hex digit.
pub open spec fn hex_digit_value(b: u8) -> u8
    recommends
        is_hex_digit(b),
{
    if 0x30 <= b <= 0x39 {
        (b - 0x30) as u8
    } else if 0x41 <= b <= 0x46 {
        (b - 0x41 + 10) as u8
    } else {
        (b - 0x61 + 10) as u8
    }
}

/// Every byte of `s` is the ASCII code of a hex digit.
pub open spec fn all_hex_digits(s: Seq<u8>) -> bool {
    forall|i: int| 0 <= i < s.len() ==> is_hex_digit(s[i])
}

/// The bytes encoded by a hex string, two digits to a byte, the first
/// digit of each pair the high nibble. A trailing odd digit is ignored;
/// callers decode even-length strings only.
pub open spec fn spec_hex_decode(s: Seq<u8>) -> Seq<u8>
    decreases s.len(),
{
    if s.len() < 2 {
        Seq::empty()
    } else {
        seq![(hex_digit_value(s[0]) * 16 + hex_digit_value(s[1])) as u8] + spec_hex_decode(
            s.skip(2),
        )
    }
}

/// The ASCII code of the uppercase hex digit for a nibble.
pub open spec fn hex_digit_upper(v: u8) -> u8
    recommends
        v < 16,
{
    if v < 10 {
        (0x30 + v) as u8
    } else {
        (0x41 + v - 10) as u8
    }
}

/// The ASCII code of the lowercase hex digit for a nibble.
pub open spec fn hex_digit_lower(v: u8) -> u8
    recommends
        v < 16,
{
    if v < 10 {
        (0x30 + v) as u8
    } else {
        (0x61 + v - 10) as u8
    }
}

/// The uppercase hex encoding of a byte sequence, two digits per byte.
pub open spec fn spec_hex_encode_upper(b: Seq<u8>) -> Seq<u8>
    decreases b.len(),
{
    if b.len() == 0 {
        Seq::empty()
    } else {
        seq![hex_digit_upper(b[0] / 16), hex_digit_upper(b[0] % 16)] + spec_hex_encode_upper(
            b.skip(1),
        )
    }
}

/// The lowercase hex encoding of a byte sequence, two digits per byte.
pub open spec fn spec_hex_encode_lower(b: Seq<u8>) -> Seq<u8>
    decreases b.len(),
{
    if b.len() == 0 {
        Seq::empty()
    } else {
        seq![hex_digit_lower(b[0] / 16), hex_digit_lower(b[0] % 16)] + spec_hex_encode_lower(
            b.skip(1),
        )
    }
}

/// The ASCII bytes between the brackets of the report format: uppercase
/// hex pairs separated by single spaces.
pub open spec fn spec_hex_display_body(b: Seq<u8>) -> Seq<u8>
    decreases b.len(),
{
    if b.len() == 0 {
        Seq::empty()
    } else if b.len() == 1 {
        seq![hex_digit_upper(b[0] / 16), hex_digit_upper(b[0] % 16)]
    } else {
        seq![hex_digit_upper(b[0] / 16), hex_digit_upper(b[0] % 16), 0x20u8]
            + spec_hex_display_body(b.skip(1))
    }
}

/// The report format of a byte sequence: space-separated uppercase hex
/// pairs between square brackets.
pub open spec fn spec_hex_display(b: Seq<u8>) -> Seq<u8> {
    seq![0x5Bu8] + spec_hex_display_body(b) + seq![0x5Du8]
}

/// The characters of a sequence of ASCII bytes.
pub open spec fn chars_of_ascii(s: Seq<u8>) -> Seq<char> {
    s.map_values(|b: u8| b as char)
}

#[verifier::external_type_specification]
#[verifier::external_body]
pub struct ExFromHexError(hex::FromHexError);

/// Relies on hex::decode: it succeeds exactly on an even-length string of
/// hex digits, upper or lower case, and returns the bytes the digit pairs
/// encode, high nibble first.
#[verifier::external_body]
pub(crate) fn hex_decode(s: &[u8]) -> (r: Result<Vec<u8>, hex::FromHexError>)
    ensures
        r is Ok <==> (s@.len() % 2 == 0 && all_hex_digits(s@)),
        r matches Ok(v) ==> v@ == spec_hex_decode(s@),
{
    hex::decode(s)
}

/// A decoded hex string yields one byte per digit pair.
pub proof fn lemma_hex_decode_len(s: Seq<u8>)
    ensures
        spec_hex_decode(s).len() == s.len() / 2,
    decreases s.len(),
{
    if s.len() >= 2 {
        lemma_hex_decode_len(s.skip(2));
    }
}

/// Decoding undoes encoding: the hex encoding of any byte sequence, in
/// either case, is an even-length string of hex digits that decodes to
/// the original bytes exactly.
pub proof fn lemma_hex_round_trip(b: Seq<u8>)
    ensures
        spec_hex_encode_upper(b).len() == 2 * b.len(),
        spec_hex_encode_lower(b).len() == 2 * b.len(),
        all_hex_digits(spec_hex_encode_upper(b)),
        all_hex_digits(spec_hex_encode_lower(b)),
        spec_hex_decode(spec_hex_encode_upper(b)) == b,
        spec_hex_decode(spec_hex_encode_lower(b)) == b,
    decreases b.len(),
{
    if b.len() == 0 {
        assert(spec_hex_decode(spec_hex_encode_upper(b)) =~= b);
        assert(spec_hex_decode(spec_hex_encode_lower(b)) =~= b);
    } else {
        lemma_hex_round_trip(b.skip(1));
        let eu = spec_hex_encode_upper(b);
        let el = spec_hex_encode_lower(b);
        assert(eu.skip(2) =~= spec_hex_encode_upper(b.skip(1)));
        assert(el.skip(2) =~= spec_hex_encode_lower(b.skip(1)));
        assert(hex_digit_value(hex_digit_upper(b[0] / 16)) == b[0] / 16);
        assert(hex_digit_value(hex_digit_upper(b[0] % 16)) == b[0] % 16);
        assert(hex_digit_value(hex_digit_lower(b[0] / 16)) == b[0] / 16);
        assert(hex_digit_value(hex_digit_lower(b[0] % 16)) == b[0] % 16);
        assert(b[0] / 16 * 16 + b[0] % 16 == b[0]);
        assert(spec_hex_decode(eu) =~= b);
        assert(spec_hex_decode(el) =~= b);
    }
}

/// Appending a byte extends the uppercase encoding by that byte's pair
/// of digits.
proof fn lemma_encode_upper_push(s: Seq<u8>, x: u8)
    ensures
        spec_hex_encode_upper(s.push(x)) == spec_hex_encode_upper(s) + seq![
            hex_digit_upper(x / 16),
            hex_digit_upper(x % 16),
        ],
    decreases s.len(),
{
    if s.len() == 0 {
        assert(s.push(x).skip(1) =~= Seq::<u8>::empty());
        assert(s.push(x)[0] == x);
        assert(spec_hex_encode_upper(s.push(x)) == seq![
            hex_digit_upper(x / 16),
            hex_digit_upper(x % 16),
        ] + spec_hex_encode_upper(s.push(x).skip(1)));
        assert(spec_hex_encode_upper(s.push(x)) =~= spec_hex_encode_upper(s) + seq![
            hex_digit_upper(x / 16),
            hex_digit_upper(x % 16),
        ]);
    } else {
        lemma_encode_upper_push(s.skip(1), x);
        assert(s.push(x).skip(1) =~= s.skip(1).push(x));
        assert(s.push(x)[0] == s[0]);
        assert(spec_hex_encode_upper(s.push(x)) == seq![
            hex_digit_upper(s[0] / 16),
            hex_digit_upper(s[0] % 16),
        ] + spec_hex_encode_upper(s.skip(1).push(x)));
        assert(spec_hex_encode_upper(s) == seq![
            hex_digit_upper(s[0] / 16),
            hex_digit_upper(s[0] % 16),
        ] + spec_hex_encode_upper(s.skip(1)));
        assert(spec_hex_encode_upper(s.push(x)) =~= spec_hex_encode_upper(s) + seq![
            hex_digit_upper(x / 16),
            hex_digit_upper(x % 16),
        ]);
    }
}

/// Appending a byte extends the report body by a separating space, when
/// the body is not empty, and that byte's pair of digits.
proof fn lemma_display_body_push(s: Seq<u8>, x: u8)
    ensures
        s.len() == 0 ==> spec_hex_display_body(s.push(x)) == seq![
            hex_digit_upper(x / 16),
            hex_digit_upper(x % 16),
        ],
        s.len() > 0 ==> spec_hex_display_body(s.push(x)) == spec_hex_display_body(s) + seq![
            0x20u8,
            hex_digit_upper(x / 16),
            hex_digit_upper(x % 16),
        ],
    decreases s.len(),
{
    if s.len() == 0 {
        assert(s.push(x) =~= seq![x]);
        assert(spec_hex_display_body(s.push(x)) =~= seq![
            hex_digit_upper(x / 16),
            hex_digit_upper(x % 16),
        ]);
    } else if s.len() == 1 {
        assert(s.push(x).skip(1) =~= seq![x]);
        assert(s.push(x)[0] == s[0]);
        assert(spec_hex_display_body(s.push(x)) == seq![
            hex_digit_upper(s[0] / 16),
            hex_digit_upper(s[0] % 16),
            0x20u8,
        ] + spec_hex_display_body(seq![x]));
        assert(spec_hex_display_body(seq![x]) == seq![
            hex_digit_upper(x / 16),
            hex_digit_upper(x % 16),
        ]);
        assert(spec_hex_display_body(s.push(x)) =~= spec_hex_display_body(s) + seq![
            0x20u8,
            hex_digit_upper(x / 16),
            hex_digit_upper(x % 16),
        ]);
    } else {
        lemma_display_body_push(s.skip(1), x);
        assert(s.push(x).skip(1) =~= s.skip(1).push(x));
        assert(s.push(x)[0] == s[0]);
        assert(spec_hex_display_body(s.push(x)) == seq![
            hex_digit_upper(s[0] / 16),
            hex_digit_upper(s[0] % 16),
            0x20u8,
        ] + spec_hex_display_body(s.skip(1).push(x)));
        assert(spec_hex_display_body(s) == seq![
            hex_digit_upper(s[0] / 16),
            hex_digit_upper(s[0] % 16),
            0x20u8,
        ] + spec_hex_display_body(s.skip(1)));
        assert(spec_hex_display_body(s.push(x)) =~= spec_hex_display_body(s) + seq![
            0x20u8,
            hex_digit_upper(x / 16),
            hex_digit_upper(x % 16),
        ]);
    }
}

/// The character map distributes over concatenation.
proof fn lemma_chars_of_ascii_add(a: Seq<u8>, b: Seq<u8>)
    ensures
        chars_of_ascii(a + b) == chars_of_ascii(a) + chars_of_ascii(b),
{
    assert(chars_of_ascii(a + b) =~= chars_of_ascii(a) + chars_of_ascii(b));
}

/// The single-character string of the uppercase hex digit for a nibble.
fn hex_digit_str_upper(v: u8) -> (s: &'static str)
    requires
        v < 16,
    ensures
        s@.len() == 1,
        s@[0] == hex_digit_upper(v) as char,
{
    proof {
        reveal_strlit("0");
        reveal_strlit("1");
        reveal_strlit("2");
        reveal_strlit("3");
        reveal_strlit("4");
        reveal_strlit("5");
        reveal_strlit("6");
        reveal_strlit("7");
        reveal_strlit("8");
        reveal_strlit("9");
        reveal_strlit("A");
        reveal_strlit("B");
        reveal_strlit("C");
        reveal_strlit("D");
        reveal_strlit("E");
        reveal_strlit("F");
    }
    match v {
        0 => "0",
        1 => "1",
        2 => "2",
        3 => "3",
        4 => "4",
        5 => "5",
        6 => "6",
        7 => "7",
        8 => "8",
        9 => "9",
        10 => "A",
        11 => "B",
        12 => "C",
        13 => "D",
        14 => "E",
        _ => "F",
    }
}

/// The canonical hex form of a byte sequence as re-emitted by the
/// harness: uppercase digits, two per byte, no separators.
pub fn encode_hex_upper(bytes: &[u8]) -> (r: String)
    ensures
        r@ == chars_of_ascii(spec_hex_encode_upper(bytes@)),
        r@.len() == 2 * bytes@.len(),
{
    let mut r = String::new();
    let mut i: usize = 0;
    while i < bytes.len()
        invariant
            i <= bytes@.len(),
            r@ == chars_of_ascii(spec_hex_encode_upper(bytes@.take(i as int))),
        decreases bytes@.len() - i,
    {
        let b = bytes[i];
        let hi = hex_digit_str_upper(b / 16);
        let lo = hex_digit_str_upper(b % 16);
        r.append(hi);
        r.append(lo);
        proof {
            let prefix = bytes@.take(i as int);
            lemma_encode_upper_push(prefix, b);
            assert(bytes@.take(i + 1) =~= prefix.push(b));
            lemma_chars_of_ascii_add(
                spec_hex_encode_upper(prefix),
                seq![hex_digit_upper(b / 16), hex_digit_upper(b % 16)],
            );
            assert(hi@ + lo@ =~= chars_of_ascii(
                seq![hex_digit_upper(b / 16), hex_digit_upper(b % 16)],
            ));
        }
        i = i + 1;
    }
    proof {
        assert(bytes@.take(bytes@.len() as int) =~= bytes@);
        lemma_hex_round_trip(bytes@);
    }
    r
}

/// The report form of a byte sequence: space-separated uppercase hex
/// pairs between square brackets.
pub fn bytes_to_hex_string(bytes: &Vec<u8>) -> (r: String)
    ensures
        r@ == chars_of_ascii(spec_hex_display(bytes@)),
{
    proof {
        reveal_strlit("[");
        reveal_strlit(" ");
        reveal_strlit("]");
    }
    let mut r = String::from_str("[");
    let mut i: usize = 0;
    while i < bytes.len()
        invariant
            i <= bytes@.len(),
            r@ == chars_of_ascii(seq![0x5Bu8] + spec_hex_display_body(bytes@.take(i as int))),
        decreases bytes@.len() - i,
    {
        proof {
            reveal_strlit(" ");
        }
        if i > 0 {
            r.append(" ");
        }
        let b = bytes[i];
        let hi = hex_digit_str_upper(b / 16);
        let lo = hex_digit_str_upper(b % 16);
        r.append(hi);
        r.append(lo);
        proof {
            let prefix = bytes@.take(i as int);
            lemma_display_body_push(prefix, b);
            assert(bytes@.take(i + 1) =~= prefix.push(b));
            assert(r@ =~= chars_of_ascii(
                seq![0x5Bu8] + spec_hex_display_body(bytes@.take(i + 1)),
            ));
        }
        i = i + 1;
    }
    proof {
        reveal_strlit("]");
    }
    r.append("]");
    proof {
        assert(bytes@.take(bytes@.len() as int) =~= bytes@);
        assert(r@ =~= chars_of_ascii(spec_hex_display(bytes@)));
    }
    r
}

} // verus!
