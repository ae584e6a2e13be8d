//! Text for reports: numbers as digits, bytes as hexadecimal, and long
//! strings cut down to their two ends.

use vstd::prelude::*;
use vstd::string::{StringExecFns, StringSliceAdditionalSpecFns};
use vstd::utf8::{
    decode_utf8, encode_utf8, encode_utf8_decode_utf8, encode_utf8_valid_utf8, is_ascii_chars,
    is_ascii_chars_encode_utf8, is_char_boundary, is_char_boundary_iff_is_leading_byte,
    is_char_boundary_start_end_of_seq,
};

verus! {

/// `String::push`: the character is appended.
pub assume_specification[ String::push ](s: &mut String, c: char)
    ensures
        final(s)@ == old(s)@.push(c),
;

/// The character of the digit `d` in a base of at most sixteen, lower case.
pub open spec fn digit(d: nat) -> char {
    if d < 10 {
        (48 + d) as char
    } else {
        (87 + d) as char
    }
}

/// `n` in decimal digits, without leading zeros.
pub open spec fn decimal(n: nat) -> Seq<char>
    decreases n,
{
    if n < 10 {
        seq![digit(n)]
    } else {
        decimal(n / 10).push(digit(n % 10))
    }
}

/// `x` in decimal digits, with a minus sign where it is negative.
pub open spec fn signed_decimal(x: int) -> Seq<char> {
    if x < 0 {
        seq!['-'] + decimal((-x) as nat)
    } else {
        decimal(x as nat)
    }
}

/// `n` in lower-case hexadecimal digits, without leading zeros.
pub open spec fn lower_hex(n: nat) -> Seq<char>
    decreases n,
{
    if n < 16 {
        seq![digit(n)]
    } else {
        lower_hex(n / 16).push(digit(n % 16))
    }
}

/// Two lower-case hexadecimal digits for each byte.
pub open spec fn hex_text(bytes: Seq<u8>) -> Seq<char>
    decreases bytes.len(),
{
    if bytes.len() == 0 {
        Seq::empty()
    } else {
        hex_text(bytes.drop_last()).push(digit(bytes.last() as nat / 16)).push(
            digit(bytes.last() as nat % 16),
        )
    }
}

/// The word for a boolean.
pub open spec fn bool_text(b: bool) -> Seq<char> {
    if b {
        "true"@
    } else {
        "false"@
    }
}

/// A string of more than `length` bytes cut down to its first and its last
/// `length - 1` bytes, with three dots between them; a shorter one as it is.
pub open spec fn shortened(chars: Seq<char>, length: nat) -> Seq<char> {
    let bytes = encode_utf8(chars);
    if bytes.len() <= length {
        chars
    } else {
        decode_utf8(bytes.take(length - 1)) + "..."@ + decode_utf8(
            bytes.skip(bytes.len() - (length - 1)),
        )
    }
}

/// Both cuts of `shortened` fall between characters.
pub open spec fn can_shorten(chars: Seq<char>, length: nat) -> bool {
    let bytes = encode_utf8(chars);
    length >= 1 && (bytes.len() > length ==> is_char_boundary(bytes, length - 1)
        && is_char_boundary(bytes, bytes.len() - (length - 1)))
}

/// A string of single-byte characters can be cut anywhere.
pub proof fn ascii_can_shorten(chars: Seq<char>, length: nat)
    requires
        is_ascii_chars(chars),
        length >= 1,
    ensures
        can_shorten(chars, length),
{
    let bytes = encode_utf8(chars);
    encode_utf8_valid_utf8(chars);
    is_ascii_chars_encode_utf8(chars);
    if bytes.len() > length {
        let a = length - 1;
        let b = bytes.len() - (length - 1);
        assert(chars[a] as u8 == bytes[a]);
        is_char_boundary_iff_is_leading_byte(bytes, a);
        if b < bytes.len() {
            assert(chars[b] as u8 == bytes[b]);
            is_char_boundary_iff_is_leading_byte(bytes, b);
        } else {
            is_char_boundary_start_end_of_seq(bytes);
        }
    }
}

/// Hexadecimal text is made of single-byte characters.
pub proof fn hex_text_is_ascii(bytes: Seq<u8>)
    ensures
        is_ascii_chars(hex_text(bytes)),
        hex_text(bytes).len() == 2 * bytes.len(),
    decreases bytes.len(),
{
    if bytes.len() > 0 {
        hex_text_is_ascii(bytes.drop_last());
    }
}

/// Cuts a string of more than `length` bytes down to its two ends.
pub fn make_string_fixed_length(string: String, length: usize) -> (r: String)
    requires
        can_shorten(string@, length as nat),
    ensures
        r@ == shortened(string@, length as nat),
{
    let whole = string.as_str();
    let size = whole.as_bytes().len();
    if size <= length {
        return string;
    }
    let part_size = length - 1;
    let (head, _) = whole.split_at(part_size);
    let (_, tail) = whole.split_at(size - part_size);
    proof {
        encode_utf8_decode_utf8(head@);
        encode_utf8_decode_utf8(tail@);
        assert(whole.spec_bytes().take(part_size as int) == whole.spec_bytes().subrange(
            0,
            part_size as int,
        ));
    }
    let mut out = String::from_str(head);
    out.append("...");
    out.append(tail);
    out
}

/// The character of a digit.
fn digit_char(d: u8) -> (c: char)
    requires
        d < 16,
    ensures
        c == digit(d as nat),
{
    if d < 10 {
        (48 + d) as char
    } else {
        (87 + d) as char
    }
}

/// Appends `n` in decimal digits.
pub fn push_decimal(out: &mut String, n: u128)
    ensures
        final(out)@ == old(out)@ + decimal(n as nat),
    decreases n,
{
    if n >= 10 {
        push_decimal(out, n / 10);
    }
    out.push(digit_char((n % 10) as u8));
}

/// Appends `x` in decimal digits, with a minus sign where it is negative.
pub fn push_signed(out: &mut String, x: i64)
    ensures
        final(out)@ == old(out)@ + signed_decimal(x as int),
{
    if x < 0 {
        out.push('-');
        push_decimal(out, (-(x as i128)) as u128);
    } else {
        push_decimal(out, x as u128);
    }
}

/// Appends `n` in lower-case hexadecimal digits.
pub fn push_hex(out: &mut String, n: u128)
    ensures
        final(out)@ == old(out)@ + lower_hex(n as nat),
    decreases n,
{
    if n >= 16 {
        push_hex(out, n / 16);
    }
    out.push(digit_char((n % 16) as u8));
}

/// Appends the word for a boolean.
pub fn push_bool(out: &mut String, b: bool)
    ensures
        final(out)@ == old(out)@ + bool_text(b),
{
    if b {
        out.append("true");
    } else {
        out.append("false");
    }
}

/// Appends the bytes in hexadecimal, cut down to their two ends where the
/// text has more than `length` characters.
pub fn push_short_hex(out: &mut String, data: &[u8], length: usize)
    requires
        length >= 1,
    ensures
        final(out)@ == old(out)@ + shortened(hex_text(data@), length as nat),
{
    let text = hex_encode(data);
    proof {
        hex_text_is_ascii(data@);
        ascii_can_shorten(text@, length as nat);
    }
    let short = make_string_fixed_length(text, length);
    out.append(short.as_str());
}

/// `hex::encode`: two lower-case hexadecimal digits for each byte.
#[verifier::external_body]
fn hex_encode(data: &[u8]) -> (r: String)
    ensures
        r@ == hex_text(data@),
{
    hex::encode(data)
}

} // verus!
