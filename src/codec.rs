//! Byte and text encodings: lowercase hex, decimal integers, base64 ids.

use base64::Engine;
use vstd::prelude::*;

verus! {

/// The lowercase hex alphabet.
pub open spec fn hex_alphabet() -> Seq<char> {
    seq!['0', '1', '2', '3', '4', '5', '6', '7', '8', '9', 'a', 'b', 'c', 'd', 'e', 'f']
}

/// The two lowercase hex digits of one byte, high nibble first.
pub open spec fn hex_pair(b: u8) -> Seq<char> {
    seq![hex_alphabet()[(b / 16) as int], hex_alphabet()[(b % 16) as int]]
}

/// Lowercase hex text of a byte sequence: two digits per byte, in order.
pub open spec fn hex_text(bytes: Seq<u8>) -> Seq<char>
    decreases bytes.len(),
{
    if bytes.len() == 0 {
        Seq::empty()
    } else {
        hex_text(bytes.drop_last()) + hex_pair(bytes.last())
    }
}

fn hex_digit_str(n: u8) -> (r: &'static str)
    requires
        n < 16,
    ensures
        r@ == seq![hex_alphabet()[n as int]],
{
    proof {
        reveal_strlit("0");
        reveal_strlit("1");
        reveal_strlit("2");
        reveal_strlit("3");
        reveal_strlit("4");
        reveal_strlit("5");
        reveal_strlit("6");
        reveal_strlit("7");
        reveal_strlit("8");
        reveal_strlit("9");
        reveal_strlit("a");
        reveal_strlit("b");
        reveal_strlit("c");
        reveal_strlit("d");
        reveal_strlit("e");
        reveal_strlit("f");
    }
    if n == 0 { "0" }
    else if n == 1 { "1" }
    else if n == 2 { "2" }
    else if n == 3 { "3" }
    else if n == 4 { "4" }
    else if n == 5 { "5" }
    else if n == 6 { "6" }
    else if n == 7 { "7" }
    else if n == 8 { "8" }
    else if n == 9 { "9" }
    else if n == 10 { "a" }
    else if n == 11 { "b" }
    else if n == 12 { "c" }
    else if n == 13 { "d" }
    else if n == 14 { "e" }
    else { "f" }
}

/// Hex text of `bytes[start..]`.
fn hex_encode_from(bytes: &[u8], start: usize) -> (r: String)
    requires
        start <= bytes@.len(),
    ensures
        r@ == hex_text(bytes@.subrange(start as int, bytes@.len() as int)),
{
    let mut out = String::new();
    let mut i: usize = start;
    assert(bytes@.subrange(start as int, start as int) =~= Seq::<u8>::empty());
    while i < bytes.len()
        invariant
            start <= i <= bytes@.len(),
            out@ == hex_text(bytes@.subrange(start as int, i as int)),
        decreases bytes@.len() - i,
    {
        let b = bytes[i];
        out.append(hex_digit_str(b / 16));
        out.append(hex_digit_str(b % 16));
        assert(bytes@.subrange(start as int, i + 1).drop_last() =~= bytes@.subrange(start as int, i as int));
        i = i + 1;
    }
    out
}

/// Lowercase hex text of `bytes`, two digits per byte.
pub fn hex_encode(bytes: &[u8]) -> (r: String)
    ensures
        r@ == hex_text(bytes@),
{
    assert(bytes@.subrange(0, bytes@.len() as int) =~= bytes@);
    hex_encode_from(bytes, 0)
}

/// The number of bytes kept by the short form of an identifier.
pub const SHORT_ID_BYTES: usize = 6;

/// The bytes that the short form of an identifier shows: the last six, or all
/// of them when there are fewer.
pub open spec fn short_tail(bytes: Seq<u8>) -> Seq<u8> {
    if bytes.len() <= SHORT_ID_BYTES {
        bytes
    } else {
        bytes.subrange(bytes.len() - SHORT_ID_BYTES, bytes.len() as int)
    }
}

/// Short display form of an identifier: the hex text of its last six bytes.
pub fn short_hex(bytes: &[u8]) -> (r: String)
    ensures
        r@ == hex_text(short_tail(bytes@)),
        r@.len() == 2 * short_tail(bytes@).len(),
{
    let start: usize = if bytes.len() <= SHORT_ID_BYTES { 0 } else { bytes.len() - SHORT_ID_BYTES };
    assert(bytes@.subrange(0, bytes@.len() as int) =~= bytes@);
    let r = hex_encode_from(bytes, start);
    proof { lemma_hex_text_len(short_tail(bytes@)); }
    r
}

/// Hex text has two characters per byte.
pub proof fn lemma_hex_text_len(bytes: Seq<u8>)
    ensures
        hex_text(bytes).len() == 2 * bytes.len(),
    decreases bytes.len(),
{
    if bytes.len() > 0 {
        lemma_hex_text_len(bytes.drop_last());
    }
}


/// A decimal digit character.
pub open spec fn is_decimal_digit(c: char) -> bool {
    '0' <= c && c <= '9'
}

/// A non-empty run of decimal digits.
pub open spec fn all_decimal_digits(s: Seq<char>) -> bool {
    s.len() > 0 && forall|i: int| 0 <= i < s.len() ==> #[trigger] is_decimal_digit(s[i])
}

/// Value of a run of decimal digits, most significant first.
pub open spec fn digits_value(s: Seq<char>) -> int
    decreases s.len(),
{
    if s.len() == 0 {
        0
    } else {
        digits_value(s.drop_last()) * 10 + (s.last() as int - '0' as int)
    }
}

/// The integer that `s` writes in decimal: an optional `+` or `-` sign
/// followed by one or more digits, and nothing else.
pub open spec fn decimal_value(s: Seq<char>) -> Option<int> {
    if s.len() > 0 && s[0] == '-' && all_decimal_digits(s.drop_first()) {
        Some(-digits_value(s.drop_first()))
    } else if s.len() > 0 && s[0] == '+' && all_decimal_digits(s.drop_first()) {
        Some(digits_value(s.drop_first()))
    } else if all_decimal_digits(s) {
        Some(digits_value(s))
    } else {
        None
    }
}

/// Relies on `str::parse::<i64>`: std documents that it accepts an optional
/// sign followed by decimal digits only, and fails when the value does not fit.
#[verifier::external_body]
pub(crate) fn parse_i64(s: &str) -> (r: Option<i64>)
    ensures
        match decimal_value(s@) {
            Some(v) => if i64::MIN <= v <= i64::MAX { r == Some(v as i64) } else { r is None },
            None => r is None,
        },
{
    s.parse::<i64>().ok()
}

/// Relies on `str::parse::<i32>`, documented as for `parse_i64`.
#[verifier::external_body]
pub(crate) fn parse_i32(s: &str) -> (r: Option<i32>)
    ensures
        match decimal_value(s@) {
            Some(v) => if i32::MIN <= v <= i32::MAX { r == Some(v as i32) } else { r is None },
            None => r is None,
        },
{
    s.parse::<i32>().ok()
}

/// base64's decoding error, carried opaque.
#[verifier::external_type_specification]
#[verifier::external_body]
pub struct ExBase64DecodeError(base64::DecodeError);

/// hex's decoding error, carried opaque.
#[verifier::external_type_specification]
#[verifier::external_body]
pub struct ExFromHexError(hex::FromHexError);

/// The bytes that standard-alphabet, padded base64 text decodes to, or `None`
/// when the text is not valid base64.
pub uninterp spec fn base64_decoded(text: Seq<char>) -> Option<Seq<u8>>;

/// Relies on base64's `general_purpose::STANDARD.decode`: its result depends
/// on the input text alone.
#[verifier::external_body]
fn base64_decode(text: &str) -> (r: Result<Vec<u8>, base64::DecodeError>)
    ensures
        match base64_decoded(text@) {
            Some(b) => r is Ok && r->Ok_0@ == b,
            None => r is Err,
        },
{
    base64::engine::general_purpose::STANDARD.decode(text)
}

/// Lowercase hex text of the bytes that base64 `text` encodes, or `None` when
/// `text` is not valid base64.
pub open spec fn base64_hex_text(text: Seq<char>) -> Option<Seq<char>> {
    match base64_decoded(text) {
        Some(b) => Some(hex_text(b)),
        None => None,
    }
}

/// Converts a base64 identifier, as the node sends it, to lowercase hex text.
pub fn base64_to_hex(text: &str) -> (r: Option<String>)
    ensures
        match base64_hex_text(text@) {
            Some(h) => r is Some && r->Some_0@ == h,
            None => r is None,
        },
{
    match base64_decode(text) {
        Ok(bytes) => Some(hex_encode(bytes.as_slice())),
        Err(_) => None,
    }
}

/// Value of one hex digit character, upper or lower case.
pub open spec fn hex_digit_value(c: char) -> Option<int> {
    if '0' <= c && c <= '9' {
        Some(c as int - '0' as int)
    } else if 'a' <= c && c <= 'f' {
        Some(c as int - 'a' as int + 10)
    } else if 'A' <= c && c <= 'F' {
        Some(c as int - 'A' as int + 10)
    } else {
        None
    }
}

/// Text that decodes as hex: an even number of hex digit characters.
pub open spec fn is_hex_text(s: Seq<char>) -> bool {
    &&& s.len() % 2 == 0
    &&& forall|i: int| 0 <= i < s.len() ==> (#[trigger] hex_digit_value(s[i])) is Some
}

/// The bytes that hex text writes, two digits per byte, high nibble first.
pub open spec fn hex_bytes(s: Seq<char>) -> Seq<u8> {
    Seq::new(
        s.len() / 2,
        |i: int|
            (hex_digit_value(s[2 * i])->Some_0 * 16 + hex_digit_value(s[2 * i + 1])->Some_0) as u8,
    )
}

/// Relies on `hex::decode`: it accepts an even number of hex digits of either
/// case, two per byte, high nibble first, and fails on anything else.
#[verifier::external_body]
fn hex_decode(s: &str) -> (r: Result<Vec<u8>, hex::FromHexError>)
    ensures
        is_hex_text(s@) ==> r is Ok && r->Ok_0@ == hex_bytes(s@),
        !is_hex_text(s@) ==> r is Err,
{
    hex::decode(s)
}

/// Parses hex text, such as an account address in a link, into bytes.
pub fn hex_to_bytes(s: &str) -> (r: Option<Vec<u8>>)
    ensures
        is_hex_text(s@) ==> r is Some && r->Some_0@ == hex_bytes(s@),
        !is_hex_text(s@) ==> r is None,
{
    match hex_decode(s) {
        Ok(b) => Some(b),
        Err(_) => None,
    }
}

} // verus!
