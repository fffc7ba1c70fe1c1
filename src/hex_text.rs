//! Hexadecimal text: what a well-formed encoding is, and what it stands for.
use vstd::prelude::*;

verus! {

/// An ASCII hexadecimal digit, in either case.
pub open spec fn is_hex_digit(c: char) -> bool {
    ('0' <= c && c <= '9') || ('a' <= c && c <= 'f') || ('A' <= c && c <= 'F')
}

/// The value of a hexadecimal digit.
pub open spec fn hex_digit_value(c: char) -> nat {
    if '0' <= c && c <= '9' {
        (c as nat - '0' as nat) as nat
    } else if 'a' <= c && c <= 'f' {
        (c as nat - 'a' as nat + 10) as nat
    } else {
        (c as nat - 'A' as nat + 10) as nat
    }
}

/// Text that decodes as hexadecimal: an even number of hex digits.
pub open spec fn is_hex_text(s: Seq<char>) -> bool {
    s.len() % 2 == 0 && forall|i: int| 0 <= i < s.len() ==> #[trigger] is_hex_digit(s[i])
}

/// The bytes that hexadecimal text stands for, two digits per byte, high nibble first.
pub open spec fn hex_decoding(s: Seq<char>) -> Seq<u8> {
    Seq::new(
        s.len() / 2,
        |i: int| (hex_digit_value(s[2 * i]) * 16 + hex_digit_value(s[2 * i + 1])) as u8,
    )
}

/// The lowercase digit for a value below sixteen.
pub open spec fn lower_hex_digit(v: nat) -> char {
    if v < 10 {
        (v + '0' as nat) as char
    } else {
        (v - 10 + 'a' as nat) as char
    }
}

/// Bytes written as lowercase hexadecimal text, two digits per byte, high nibble first.
pub open spec fn hex_encoding(b: Seq<u8>) -> Seq<char> {
    Seq::new(
        2 * b.len(),
        |i: int|
            if i % 2 == 0 {
                lower_hex_digit((b[i / 2] / 16) as nat)
            } else {
                lower_hex_digit((b[i / 2] % 16) as nat)
            },
    )
}

/// A lowercase digit is a hex digit, and stands for its value.
proof fn lower_hex_digit_value(v: nat)
    requires
        v < 16,
    ensures
        is_hex_digit(lower_hex_digit(v)),
        hex_digit_value(lower_hex_digit(v)) == v,
{
}

/// Encoding then decoding gives the bytes back, and the encoding is
/// well-formed hexadecimal text.
pub proof fn hex_round_trip(b: Seq<u8>)
    ensures
        is_hex_text(hex_encoding(b)),
        hex_decoding(hex_encoding(b)) == b,
{
    let e = hex_encoding(b);
    assert forall|i: int| 0 <= i < e.len() implies #[trigger] is_hex_digit(e[i]) by {
        lower_hex_digit_value((b[i / 2] / 16) as nat);
        lower_hex_digit_value((b[i / 2] % 16) as nat);
    }
    assert forall|j: int| 0 <= j < b.len() implies #[trigger] hex_decoding(e)[j] == b[j] by {
        let x = b[j];
        assert((2 * j) / 2 == j && (2 * j + 1) / 2 == j && (2 * j) % 2 == 0 && (2 * j + 1) % 2 == 1);
        lower_hex_digit_value((x / 16) as nat);
        lower_hex_digit_value((x % 16) as nat);
        assert(x == (x / 16) * 16 + x % 16);
    }
    assert(hex_decoding(e) =~= b);
}

/// Relies on hex::decode: upper and lower case digits are accepted, an odd
/// length or any other character is an error, and each pair of digits gives
/// one byte.
#[verifier::external_body]
pub(crate) fn decode_hex(s: &str) -> (r: Option<Vec<u8>>)
    ensures
        r is Some <==> is_hex_text(s@),
        r is Some ==> r->Some_0@ == hex_decoding(s@),
{
    hex::decode(s).ok()
}

/// Relies on hex::encode: two lowercase digits per byte.
#[verifier::external_body]
pub(crate) fn encode_hex(b: &[u8]) -> (r: String)
    ensures
        r@ == hex_encoding(b@),
{
    hex::encode(b)
}

} // verus!
