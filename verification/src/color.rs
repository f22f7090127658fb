//! Color resolution: maps a symbolic or hex color token to a fixed RGB triple.
//!
//! A token is either `#RRGGBB` (six hex digits) or one of the symbolic names
//! of a fixed palette.  Resolution never fails: anything unrecognized yields
//! the default color (blue).

use vstd::prelude::*;

verus! {

/// An RGB triple, one byte per channel.
#[derive(Clone, Copy, Debug, PartialEq, Eq, Structural)]
pub struct Rgb {
    pub r: u8,
    pub g: u8,
    pub b: u8,
}

/// True when `c` is an ASCII hex digit.
pub open spec fn is_hex_digit(c: char) -> bool {
    (48 <= c as u32 && c as u32 <= 57)  // '0'..'9'
    || (97 <= c as u32 && c as u32 <= 102)  // 'a'..'f'
    || (65 <= c as u32 && c as u32 <= 70)  // 'A'..'F'
}

/// Numeric value of an ASCII hex digit.
pub open spec fn hex_digit_val(c: char) -> int {
    if 48 <= c as u32 && c as u32 <= 57 {
        c as u32 - 48
    } else if 97 <= c as u32 && c as u32 <= 102 {
        c as u32 - 87
    } else if 65 <= c as u32 && c as u32 <= 70 {
        c as u32 - 55
    } else {
        0
    }
}

/// True when `s` is `#` followed by exactly six hex digits.
pub open spec fn spec_is_hex_color(s: Seq<char>) -> bool {
    s.len() == 7 && s[0] as u32 == 35 && (forall|i: int| 1 <= i < 7 ==> is_hex_digit(s[i]))
}

/// The byte spelled by the two hex digits at positions `i` and `i + 1`.
pub open spec fn spec_hex_byte(s: Seq<char>, i: int) -> int {
    16 * hex_digit_val(s[i]) + hex_digit_val(s[i + 1])
}

/// The palette entry for a symbolic name, or the default blue.
pub open spec fn spec_symbolic_color(s: Seq<char>) -> Rgb {
    if s == "Black"@ {
        Rgb { r: 0, g: 0, b: 0 }
    } else if s == "Red"@ {
        Rgb { r: 255, g: 0, b: 0 }
    } else if s == "Green"@ {
        Rgb { r: 0, g: 255, b: 0 }
    } else if s == "Yellow"@ {
        Rgb { r: 255, g: 255, b: 0 }
    } else if s == "Blue"@ {
        Rgb { r: 0, g: 0, b: 255 }
    } else if s == "Magenta"@ {
        Rgb { r: 255, g: 0, b: 255 }
    } else if s == "Purple"@ {
        Rgb { r: 160, g: 32, b: 240 }
    } else if s == "Cyan"@ {
        Rgb { r: 0, g: 255, b: 255 }
    } else if s == "Gray"@ {
        Rgb { r: 128, g: 128, b: 128 }
    } else if s == "DarkGray"@ {
        Rgb { r: 64, g: 64, b: 64 }
    } else if s == "LightRed"@ {
        Rgb { r: 255, g: 128, b: 128 }
    } else if s == "LightGreen"@ {
        Rgb { r: 128, g: 255, b: 128 }
    } else if s == "LightYellow"@ {
        Rgb { r: 255, g: 255, b: 128 }
    } else if s == "LightBlue"@ {
        Rgb { r: 128, g: 128, b: 255 }
    } else if s == "LightMagenta"@ {
        Rgb { r: 255, g: 128, b: 255 }
    } else if s == "LightCyan"@ {
        Rgb { r: 128, g: 255, b: 255 }
    } else if s == "White"@ {
        Rgb { r: 255, g: 255, b: 255 }
    } else {
        Rgb { r: 0, g: 0, b: 255 }
    }
}

/// What a color token resolves to: a hex token gives its spelled triple,
/// anything else goes through the symbolic palette, with blue as the default.
pub open spec fn spec_resolve(s: Seq<char>) -> Rgb {
    if spec_is_hex_color(s) {
        Rgb {
            r: spec_hex_byte(s, 1) as u8,
            g: spec_hex_byte(s, 3) as u8,
            b: spec_hex_byte(s, 5) as u8,
        }
    } else {
        spec_symbolic_color(s)
    }
}

/// Equality of two string slices, character by character.
fn str_eq(a: &str, b: &str) -> (r: bool)
    ensures
        r == (a@ == b@),
{
    let an = a.unicode_len();
    let bn = b.unicode_len();
    if an != bn {
        assert(a@ != b@) by {
            assert(a@.len() != b@.len());
        }
        return false;
    }
    let mut i: usize = 0;
    while i < an
        invariant
            an == a@.len(),
            bn == b@.len(),
            an == bn,
            i <= an,
            forall|j: int| 0 <= j < i ==> a@[j] == b@[j],
        decreases an - i,
    {
        if a.get_char(i) != b.get_char(i) {
            return false;
        }
        i += 1;
    }
    assert(a@ =~= b@);
    true
}

/// Checks the `#RRGGBB` shape.
fn is_hex_color(s: &str) -> (r: bool)
    ensures
        r == spec_is_hex_color(s@),
{
    let n = s.unicode_len();
    if n != 7 {
        return false;
    }
    if s.get_char(0) as u32 != 35 {
        return false;
    }
    let mut i: usize = 1;
    while i < 7
        invariant
            s@.len() == 7,
            1 <= i <= 7,
            forall|j: int| 1 <= j < i ==> is_hex_digit(s@[j]),
        decreases 7 - i,
    {
        let u = s.get_char(i) as u32;
        if !((48 <= u && u <= 57) || (97 <= u && u <= 102) || (65 <= u && u <= 70)) {
            return false;
        }
        i += 1;
    }
    true
}

/// The value of the hex digit at position `i`; zero for a non-digit.
fn hex_digit_at(s: &str, i: usize) -> (v: u32)
    requires
        i < s@.len(),
    ensures
        v == hex_digit_val(s@[i as int]),
        v < 16,
{
    let u = s.get_char(i) as u32;
    if 48 <= u && u <= 57 {
        u - 48
    } else if 97 <= u && u <= 102 {
        u - 87
    } else if 65 <= u && u <= 70 {
        u - 55
    } else {
        0
    }
}

/// The byte spelled by the hex digits at positions `i` and `i + 1`.
fn hex_byte_at(s: &str, i: usize) -> (v: u8)
    requires
        s@.len() == 7,
        i + 2 <= 7,
    ensures
        v == spec_hex_byte(s@, i as int),
{
    let hi = hex_digit_at(s, i);
    let lo = hex_digit_at(s, i + 1);
    (16 * hi + lo) as u8
}

/// Resolves a color token to its RGB triple.
///
/// A `#RRGGBB` token gives the spelled triple; a symbolic palette name gives
/// its fixed entry; anything else gives the default blue.  Resolution has no
/// error channel.
pub fn parse_color(color_str: &str) -> (c: Rgb)
    ensures
        c == spec_resolve(color_str@),
{
    if is_hex_color(color_str) {
        let r = hex_byte_at(color_str, 1);
        let g = hex_byte_at(color_str, 3);
        let b = hex_byte_at(color_str, 5);
        return Rgb { r, g, b };
    }
    if str_eq(color_str, "Black") {
        Rgb { r: 0, g: 0, b: 0 }
    } else if str_eq(color_str, "Red") {
        Rgb { r: 255, g: 0, b: 0 }
    } else if str_eq(color_str, "Green") {
        Rgb { r: 0, g: 255, b: 0 }
    } else if str_eq(color_str, "Yellow") {
        Rgb { r: 255, g: 255, b: 0 }
    } else if str_eq(color_str, "Blue") {
        Rgb { r: 0, g: 0, b: 255 }
    } else if str_eq(color_str, "Magenta") {
        Rgb { r: 255, g: 0, b: 255 }
    } else if str_eq(color_str, "Purple") {
        Rgb { r: 160, g: 32, b: 240 }
    } else if str_eq(color_str, "Cyan") {
        Rgb { r: 0, g: 255, b: 255 }
    } else if str_eq(color_str, "Gray") {
        Rgb { r: 128, g: 128, b: 128 }
    } else if str_eq(color_str, "DarkGray") {
        Rgb { r: 64, g: 64, b: 64 }
    } else if str_eq(color_str, "LightRed") {
        Rgb { r: 255, g: 128, b: 128 }
    } else if str_eq(color_str, "LightGreen") {
        Rgb { r: 128, g: 255, b: 128 }
    } else if str_eq(color_str, "LightYellow") {
        Rgb { r: 255, g: 255, b: 128 }
    } else if str_eq(color_str, "LightBlue") {
        Rgb { r: 128, g: 128, b: 255 }
    } else if str_eq(color_str, "LightMagenta") {
        Rgb { r: 255, g: 128, b: 255 }
    } else if str_eq(color_str, "LightCyan") {
        Rgb { r: 128, g: 255, b: 255 }
    } else if str_eq(color_str, "White") {
        Rgb { r: 255, g: 255, b: 255 }
    } else {
        Rgb { r: 0, g: 0, b: 255 }
    }
}

} // verus!
