//! Percent-encoding of byte strings in the `application/x-www-form-urlencoded`
//! convention: ASCII letters, digits and `*`, `-`, `.`, `_` pass through,
//! a space becomes `+`, and every other byte becomes `%XX` with uppercase
//! hexadecimal digits.

use vstd::prelude::*;

verus! {

/// True for the bytes that the form-urlencoded convention writes unchanged:
/// ASCII alphanumerics and `*`, `-`, `.`, `_`.
pub open spec fn byte_serialized_unchanged(b: u8) -> bool {
    ||| b == 0x2a  // '*'
    ||| b == 0x2d  // '-'
    ||| b == 0x2e  // '.'
    ||| (0x30 <= b && b <= 0x39)  // '0' ..= '9'
    ||| (0x41 <= b && b <= 0x5a)  // 'A' ..= 'Z'
    ||| b == 0x5f  // '_'
    ||| (0x61 <= b && b <= 0x7a)  // 'a' ..= 'z'
}

/// The uppercase hexadecimal digit for a value below sixteen.
pub open spec fn hex_digit(d: nat) -> char
    recommends
        d < 16,
{
    if d == 0 { '0' } else if d == 1 { '1' } else if d == 2 { '2' } else if d == 3 { '3' }
    else if d == 4 { '4' } else if d == 5 { '5' } else if d == 6 { '6' } else if d == 7 { '7' }
    else if d == 8 { '8' } else if d == 9 { '9' } else if d == 10 { 'A' } else if d == 11 { 'B' }
    else if d == 12 { 'C' } else if d == 13 { 'D' } else if d == 14 { 'E' } else { 'F' }
}

/// The characters that the form-urlencoded convention writes for one byte.
pub open spec fn encode_byte(b: u8) -> Seq<char> {
    if b == 0x20 {
        seq!['+']
    } else if byte_serialized_unchanged(b) {
        seq![b as char]
    } else {
        seq!['%', hex_digit(b as nat / 16), hex_digit(b as nat % 16)]
    }
}

/// The characters that the form-urlencoded convention writes for a byte
/// string, byte for byte.
pub open spec fn form_encode(bytes: Seq<u8>) -> Seq<char>
    decreases bytes.len(),
{
    if bytes.len() == 0 {
        seq![]
    } else {
        encode_byte(bytes[0]) + form_encode(bytes.drop_first())
    }
}

/// Relies on `url::form_urlencoded::byte_serialize`: it keeps ASCII
/// alphanumerics and `*`, `-`, `.`, `_` unchanged, turns a space into `+`,
/// and writes every other byte as `%XX` with uppercase hexadecimal digits.
#[verifier::external_body]
pub fn form_urlencode(input: &[u8]) -> (r: String)
    ensures
        r@ == form_encode(input@),
{
    let mut out = String::new();
    for piece in url::form_urlencoded::byte_serialize(input) {
        out.push_str(piece);
    }
    out
}

/// True for a character that a standard percent-decoder reads as a
/// hexadecimal digit.
pub open spec fn is_hex_char(c: char) -> bool {
    ||| ('0' <= c && c <= '9')
    ||| ('A' <= c && c <= 'F')
    ||| ('a' <= c && c <= 'f')
}

/// The value of a hexadecimal digit character.
pub open spec fn hex_char_value(c: char) -> nat
    recommends
        is_hex_char(c),
{
    if '0' <= c && c <= '9' {
        (c as nat - '0' as nat) as nat
    } else if 'A' <= c && c <= 'F' {
        (c as nat - 'A' as nat + 10) as nat
    } else {
        (c as nat - 'a' as nat + 10) as nat
    }
}

/// What a standard percent-decoder of query strings makes of a character
/// sequence: `%XX` becomes the byte the two hexadecimal digits spell, `+`
/// becomes a space, and any other character stands for its own code point
/// (the sequences this library produces are all ASCII).
pub open spec fn form_decode(s: Seq<char>) -> Seq<u8>
    decreases s.len(),
{
    if s.len() == 0 {
        seq![]
    } else if s[0] == '%' && s.len() >= 3 && is_hex_char(s[1]) && is_hex_char(s[2]) {
        seq![(hex_char_value(s[1]) * 16 + hex_char_value(s[2])) as u8] + form_decode(s.skip(3))
    } else if s[0] == '+' {
        seq![0x20u8] + form_decode(s.skip(1))
    } else {
        seq![(s[0] as u32) as u8] + form_decode(s.skip(1))
    }
}

/// Decoding the form-urlencoded image of a byte string gives the byte
/// string back.
pub proof fn lemma_form_encode_decode(bytes: Seq<u8>)
    ensures
        form_decode(form_encode(bytes)) == bytes,
    decreases bytes.len(),
{
    if bytes.len() == 0 {
        assert(form_decode(form_encode(bytes)) =~= bytes);
    } else {
        let b = bytes[0];
        let rest = bytes.drop_first();
        lemma_form_encode_decode(rest);
        let enc = form_encode(bytes);
        assert(enc == encode_byte(b) + form_encode(rest));
        if b == 0x20 {
            assert(enc.skip(1) =~= form_encode(rest));
            assert(form_decode(enc) =~= bytes);
        } else if byte_serialized_unchanged(b) {
            assert(enc[0] == b as char);
            assert(b as char != '%' && b as char != '+');
            assert((enc[0] as u32) as u8 == b);
            assert(enc.skip(1) =~= form_encode(rest));
            assert(form_decode(enc) =~= bytes);
        } else {
            assert(enc[0] == '%');
            assert(enc[1] == hex_digit(b as nat / 16));
            assert(enc[2] == hex_digit(b as nat % 16));
            assert(is_hex_char(enc[1]) && is_hex_char(enc[2]));
            assert(hex_char_value(enc[1]) == b as nat / 16);
            assert(hex_char_value(enc[2]) == b as nat % 16);
            assert(hex_char_value(enc[1]) * 16 + hex_char_value(enc[2]) == b as nat);
            assert(enc.skip(3) =~= form_encode(rest));
            assert(form_decode(enc) =~= bytes);
        }
    }
}

} // verus!
