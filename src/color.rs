//! Opaque colours with 8-bit channels and their `#rrggbb` text form.

use vstd::prelude::*;

verus! {

/// An opaque colour; each channel stands for the value `channel / 255`.
#[derive(Clone, Copy, Debug, PartialEq, Eq, Structural)]
pub struct Color {
    pub r: u8,
    pub g: u8,
    pub b: u8,
}

/// The value of a hexadecimal digit, in either case.
pub open spec fn hex_value(c: char) -> Option<u8> {
    if '0' <= c && c <= '9' {
        Some((c as u32 - 48) as u8)
    } else if 'a' <= c && c <= 'f' {
        Some((c as u32 - 87) as u8)
    } else if 'A' <= c && c <= 'F' {
        Some((c as u32 - 55) as u8)
    } else {
        None
    }
}

/// The lowercase digit for a value below 16.
pub open spec fn hex_char(n: u8) -> char {
    if n < 10 {
        ((n + 48) as u8) as char
    } else {
        ((n + 87) as u8) as char
    }
}

/// The byte written by the two digits `hi`, `lo`.
pub open spec fn byte_of(hi: char, lo: char) -> Option<u8> {
    match (hex_value(hi), hex_value(lo)) {
        (Some(h), Some(l)) => Some((h * 16 + l) as u8),
        _ => None,
    }
}

/// What `s` denotes as `#RRGGBB`: `None` unless it has exactly seven
/// characters, a leading `#` and six hexadecimal digits.
pub open spec fn parse_hex(s: Seq<char>) -> Option<Color> {
    if s.len() != 7 || s[0] != '#' {
        None
    } else {
        match (byte_of(s[1], s[2]), byte_of(s[3], s[4]), byte_of(s[5], s[6])) {
            (Some(r), Some(g), Some(b)) => Some(Color { r, g, b }),
            _ => None,
        }
    }
}

/// The two lowercase digits of a byte.
pub open spec fn byte_hex(v: u8) -> Seq<char> {
    seq![hex_char(v / 16), hex_char(v % 16)]
}

/// The canonical `#rrggbb` text of a colour.
pub open spec fn format_hex(c: Color) -> Seq<char> {
    seq!['#'] + byte_hex(c.r) + byte_hex(c.g) + byte_hex(c.b)
}

/// A lowercase hexadecimal digit.
pub open spec fn is_lower_hex_digit(c: char) -> bool {
    ('0' <= c && c <= '9') || ('a' <= c && c <= 'f')
}

/// `s` is `#` followed by six lowercase hexadecimal digits.
pub open spec fn is_canonical_hex(s: Seq<char>) -> bool {
    &&& s.len() == 7
    &&& s[0] == '#'
    &&& forall|i: int| 1 <= i < 7 ==> is_lower_hex_digit(#[trigger] s[i])
}

proof fn lemma_digit_round_trip(c: char)
    requires
        is_lower_hex_digit(c),
    ensures
        hex_value(c) is Some,
        hex_value(c)->0 < 16,
        hex_char(hex_value(c)->0) == c,
{
}

proof fn lemma_char_round_trip(n: u8)
    requires
        n < 16,
    ensures
        is_lower_hex_digit(hex_char(n)),
        hex_value(hex_char(n)) == Some(n),
{
}

proof fn lemma_byte_round_trip(v: u8)
    ensures
        byte_of(byte_hex(v)[0], byte_hex(v)[1]) == Some(v),
        is_lower_hex_digit(byte_hex(v)[0]),
        is_lower_hex_digit(byte_hex(v)[1]),
{
    lemma_char_round_trip(v / 16);
    lemma_char_round_trip(v % 16);
}

proof fn lemma_digits_round_trip(hi: char, lo: char)
    requires
        is_lower_hex_digit(hi),
        is_lower_hex_digit(lo),
    ensures
        byte_of(hi, lo) is Some,
        byte_hex(byte_of(hi, lo)->0) == seq![hi, lo],
{
    lemma_digit_round_trip(hi);
    lemma_digit_round_trip(lo);
    let h = hex_value(hi)->0;
    let l = hex_value(lo)->0;
    let v = (h * 16 + l) as u8;
    assert(v / 16 == h && v % 16 == l) by (nonlinear_arith)
        requires
            h < 16,
            l < 16,
            v == h * 16 + l,
    ;
    assert(byte_hex(v) =~= seq![hi, lo]);
}

/// Writing a colour and reading it back gives the same colour.
pub proof fn lemma_format_then_parse(c: Color)
    ensures
        parse_hex(format_hex(c)) == Some(c),
        is_canonical_hex(format_hex(c)),
{
    lemma_byte_round_trip(c.r);
    lemma_byte_round_trip(c.g);
    lemma_byte_round_trip(c.b);
    let s = format_hex(c);
    assert(s[1] == byte_hex(c.r)[0] && s[2] == byte_hex(c.r)[1]);
    assert(s[3] == byte_hex(c.g)[0] && s[4] == byte_hex(c.g)[1]);
    assert(s[5] == byte_hex(c.b)[0] && s[6] == byte_hex(c.b)[1]);
}

/// Every canonical `#rrggbb` text parses, and writing the parsed colour back
/// gives the same text.
pub proof fn lemma_parse_then_format(s: Seq<char>)
    requires
        is_canonical_hex(s),
    ensures
        parse_hex(s) is Some,
        format_hex(parse_hex(s)->0) == s,
{
    assert(is_lower_hex_digit(s[1]) && is_lower_hex_digit(s[2]));
    assert(is_lower_hex_digit(s[3]) && is_lower_hex_digit(s[4]));
    assert(is_lower_hex_digit(s[5]) && is_lower_hex_digit(s[6]));
    lemma_digits_round_trip(s[1], s[2]);
    lemma_digits_round_trip(s[3], s[4]);
    lemma_digits_round_trip(s[5], s[6]);
    assert(format_hex(parse_hex(s)->0) =~= s);
}

fn digit_value(c: char) -> (r: Option<u8>)
    ensures
        r == hex_value(c),
{
    if '0' <= c && c <= '9' {
        Some((c as u32 - 48) as u8)
    } else if 'a' <= c && c <= 'f' {
        Some((c as u32 - 87) as u8)
    } else if 'A' <= c && c <= 'F' {
        Some((c as u32 - 55) as u8)
    } else {
        None
    }
}

fn parse_byte(hi: char, lo: char) -> (r: Option<u8>)
    ensures
        r == byte_of(hi, lo),
{
    match (digit_value(hi), digit_value(lo)) {
        (Some(h), Some(l)) => {
            assert(h < 16 && l < 16);
            Some(h * 16 + l)
        },
        _ => None,
    }
}

/// Parses `#RRGGBB` (digits in either case); any other text gives `None`.
pub fn hex_to_color(hex: &str) -> (r: Option<Color>)
    ensures
        r == parse_hex(hex@),
{
    if hex.unicode_len() != 7 || hex.get_char(0) != '#' {
        return None;
    }
    let r = parse_byte(hex.get_char(1), hex.get_char(2));
    let g = parse_byte(hex.get_char(3), hex.get_char(4));
    let b = parse_byte(hex.get_char(5), hex.get_char(6));
    match (r, g, b) {
        (Some(r), Some(g), Some(b)) => Some(Color { r, g, b }),
        _ => None,
    }
}

fn digit_str(n: u8) -> (r: &'static str)
    requires
        n < 16,
    ensures
        r@ == seq![hex_char(n)],
{
    let digits = "0123456789abcdef";
    proof {
        reveal_strlit("0123456789abcdef");
    }
    let r = digits.substring_ascii(n as usize, n as usize + 1);
    assert(r@ =~= seq![hex_char(n)]);
    r
}

/// Writes a colour as `#rrggbb` with lowercase digits.
pub fn color_to_hex(c: Color) -> (r: String)
    ensures
        r@ == format_hex(c),
{
    let hash = "#";
    proof {
        reveal_strlit("#");
    }
    let mut s = String::from_str(hash);
    s.append(digit_str(c.r / 16));
    s.append(digit_str(c.r % 16));
    s.append(digit_str(c.g / 16));
    s.append(digit_str(c.g % 16));
    s.append(digit_str(c.b / 16));
    s.append(digit_str(c.b % 16));
    assert(s@ =~= format_hex(c));
    s
}

} // verus!
