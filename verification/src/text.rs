use vstd::prelude::*;
use vstd::utf8::{decode_utf8, valid_utf8};

verus! {

/// The decimal digit of a value below 10.
pub open spec fn decimal_digit(n: u8) -> char {
    (n + 48) as char
}

/// The decimal text of a byte, without leading zeros.
pub open spec fn decimal_text(n: u8) -> Seq<char> {
    if n < 10 {
        seq![decimal_digit(n)]
    } else if n < 100 {
        seq![decimal_digit(n / 10), decimal_digit(n % 10)]
    } else {
        seq![decimal_digit(n / 100), decimal_digit((n / 10) % 10), decimal_digit(n % 10)]
    }
}

/// Dotted-decimal text of four address bytes, as `"{}.{}.{}.{}"` formats them.
pub open spec fn ipv4_text(a: u8, b: u8, c: u8, d: u8) -> Seq<char> {
    decimal_text(a) + seq!['.'] + decimal_text(b) + seq!['.'] + decimal_text(c) + seq!['.']
        + decimal_text(d)
}

/// The lowercase hexadecimal digit of a value below 16.
pub open spec fn hex_digit(n: u8) -> char {
    if n < 10 {
        (n + 48) as char
    } else {
        (n + 87) as char
    }
}

/// Two lowercase hexadecimal digits per byte, most significant digit first.
pub open spec fn hex_text(data: Seq<u8>) -> Seq<char>
    decreases data.len(),
{
    if data.len() == 0 {
        Seq::empty()
    } else {
        seq![hex_digit(data[0] / 16), hex_digit(data[0] % 16)] + hex_text(data.drop_first())
    }
}

/// The text that `String::from_utf8_lossy` makes of a byte sequence.
pub uninterp spec fn utf8_lossy_text(bytes: Seq<u8>) -> Seq<char>;

/// Calls `String::from_utf8_lossy(bytes)` and takes an owned `String`.
/// Trusted: the result is `utf8_lossy_text(bytes)`, and on valid UTF-8 it is the
/// decoded text (the documented behaviour: valid input is returned unchanged).
#[verifier::external_body]
pub(crate) fn utf8_lossy(bytes: &[u8]) -> (s: String)
    ensures
        s@ == utf8_lossy_text(bytes@),
        valid_utf8(bytes@) ==> s@ == decode_utf8(bytes@),
{
    String::from_utf8_lossy(bytes).to_string()
}

/// Formats four bytes with `format!("{}.{}.{}.{}", a, b, c, d)`.
/// Trusted: the result is the dotted-decimal text of the bytes (`ipv4_text`).
#[verifier::external_body]
pub(crate) fn format_ipv4(a: u8, b: u8, c: u8, d: u8) -> (s: String)
    ensures
        s@ == ipv4_text(a, b, c, d),
{
    format!("{}.{}.{}.{}", a, b, c, d)
}

/// Formats two bytes with `format!("{:02x}{:02x}", a, b)`.
/// Trusted: the result is four lowercase hexadecimal digits (`hex_text`).
#[verifier::external_body]
pub(crate) fn format_hex_pair(a: u8, b: u8) -> (s: String)
    ensures
        s@ == hex_text(seq![a, b]),
{
    format!("{:02x}{:02x}", a, b)
}

} // verus!
