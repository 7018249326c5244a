//! Color value types and the hex-code to RGB converter.

use vstd::prelude::*;

verus! {

/// A color value. The hue/saturation/value form of the vocabulary is not
/// representable here and is omitted.
#[derive(Debug, Clone, PartialEq, Eq)]
pub enum Color {
    Rgb(Rgb),
    Rgba { r: u8, g: u8, b: u8, a: u8 },
    Name(ColorName),
}

#[derive(Debug, Clone, Copy, PartialEq, Eq)]
pub struct Rgb {
    pub r: u8,
    pub g: u8,
    pub b: u8,
}

#[derive(Debug, Clone, PartialEq, Eq)]
pub struct ColorName {
    pub scheme: ColorScheme,
    pub name: String,
}

#[derive(Debug, Clone, Copy, PartialEq, Eq)]
pub enum ColorScheme {
    X11,
    Svg,
}

/// A hexadecimal digit, in either letter case.
pub open spec fn is_hex_digit_char(c: char) -> bool {
    ('0' <= c && c <= '9') || ('a' <= c && c <= 'f') || ('A' <= c && c <= 'F')
}

/// The numeric value of one hexadecimal digit.
pub open spec fn hex_digit_val(c: char) -> u8
    recommends
        is_hex_digit_char(c),
{
    if '0' <= c && c <= '9' {
        (c as u32 - '0' as u32) as u8
    } else if 'a' <= c && c <= 'f' {
        (c as u32 - 'a' as u32 + 10) as u8
    } else {
        (c as u32 - 'A' as u32 + 10) as u8
    }
}

/// The byte value of a two-digit hexadecimal pair.
pub open spec fn hex_pair_val(hi: char, lo: char) -> u8
    recommends
        is_hex_digit_char(hi),
        is_hex_digit_char(lo),
{
    (hex_digit_val(hi) * 16 + hex_digit_val(lo)) as u8
}

/// The numeric value of one hexadecimal digit character.
fn hex_digit_value(c: char) -> (r: u8)
    requires
        is_hex_digit_char(c),
    ensures
        r == hex_digit_val(c),
        r < 16,
{
    if '0' <= c && c <= '9' {
        ((c as u32) - ('0' as u32)) as u8
    } else if 'a' <= c && c <= 'f' {
        ((c as u32) - ('a' as u32) + 10) as u8
    } else {
        ((c as u32) - ('A' as u32) + 10) as u8
    }
}

/// Convert one two-digit hexadecimal component to its byte value.
pub fn convert_hex(s: &str) -> (r: u8)
    requires
        s@.len() == 2,
        is_hex_digit_char(s@[0]),
        is_hex_digit_char(s@[1]),
    ensures
        r == hex_pair_val(s@[0], s@[1]),
{
    let hi = s.get_char(0);
    let lo = s.get_char(1);
    hex_digit_value(hi) * 16 + hex_digit_value(lo)
}

/// Hex-code to RGB converter, reading the first six hexadecimal digits as
/// three byte components. Malformed codes are ruled out by the precondition;
/// callers must check their input first.
pub fn hexcode_to_rgb(s: &str) -> (c: Rgb)
    requires
        s@.len() >= 6,
        forall|i: int| 0 <= i < 6 ==> is_hex_digit_char(#[trigger] s@[i]),
    ensures
        c.r == hex_pair_val(s@[0], s@[1]),
        c.g == hex_pair_val(s@[2], s@[3]),
        c.b == hex_pair_val(s@[4], s@[5]),
{
    let p1 = s.substring_char(0, 2);
    let p2 = s.substring_char(2, 4);
    let p3 = s.substring_char(4, 6);
    Rgb { r: convert_hex(p1), g: convert_hex(p2), b: convert_hex(p3) }
}

} // verus!
