//! 24-bit RGB colors with saturating arithmetic.
//!
//! Every channel is a `u8`, so each operation clamps its result into
//! `[0, 255]`.  Scaling takes a fixed-point factor.

use vstd::prelude::*;
use vstd::string::StrSliceExecFns;
use crate::fixed::{sabs, fx_mul_spec, fx_mul};
use crate::vec3::lemma_abs_mul_bound;

verus! {

/// An RGB color with one byte per channel.
#[derive(Clone, Copy, Debug, PartialEq, Eq, Structural)]
pub struct Color {
    pub r: u8,
    pub g: u8,
    pub b: u8,
}

/// Clamp an integer into the byte range `[0, 255]`.
pub open spec fn clamp_spec(v: int) -> int {
    if v < 0 {
        0
    } else if v > 255 {
        255
    } else {
        v
    }
}

/// Saturating channel-wise sum.
pub open spec fn color_add_spec(a: Color, b: Color) -> Color {
    Color {
        r: clamp_spec(a.r + b.r) as u8,
        g: clamp_spec(a.g + b.g) as u8,
        b: clamp_spec(a.b + b.b) as u8,
    }
}

/// Channel-wise scaling by a fixed-point factor, clamped into `[0, 255]`.
pub open spec fn color_scale_spec(c: Color, t: int) -> Color {
    Color {
        r: clamp_spec(fx_mul_spec(c.r as int, t)) as u8,
        g: clamp_spec(fx_mul_spec(c.g as int, t)) as u8,
        b: clamp_spec(fx_mul_spec(c.b as int, t)) as u8,
    }
}

/// Value of one hexadecimal digit, or a negative sentinel for a non-digit.
/// Both letter cases are accepted.
pub open spec fn hex_val(c: char) -> int {
    let v = c as u32;
    if 48 <= v <= 57 {
        v - 48
    } else if 97 <= v <= 102 {
        v - 87
    } else if 65 <= v <= 70 {
        v - 55
    } else {
        -1
    }
}

/// Value of a two-character hexadecimal group, as an unsigned byte parse
/// accepts it: two digits, or a `+` sign and one digit (a minus sign is for
/// signed parses only).  A negative sentinel marks a group that does not
/// parse.
pub open spec fn hex_pair_val(c1: char, c2: char) -> int {
    if hex_val(c1) >= 0 && hex_val(c2) >= 0 {
        16 * hex_val(c1) + hex_val(c2)
    } else if c1 == '+' && hex_val(c2) >= 0 {
        hex_val(c2)
    } else {
        -1
    }
}

/// Whether a six-character sequence parses as three hexadecimal byte groups.
pub open spec fn hex6_ok(s: Seq<char>) -> bool
    recommends
        s.len() == 6,
{
    hex_pair_val(s[0], s[1]) >= 0 && hex_pair_val(s[2], s[3]) >= 0 && hex_pair_val(s[4], s[5])
        >= 0
}

impl Color {
    /// Build a color from its three channels.
    pub fn new(r: u8, g: u8, b: u8) -> (c: Color)
        ensures
            c == (Color { r, g, b }),
    {
        Color { r, g, b }
    }

    /// Parse a six-character hexadecimal color such as `"1a2b3c"`.
    pub fn from_hex(hex: &str) -> (res: Result<Color, &'static str>)
        ensures
            hex@.len() != 6 ==> (res matches Err(e) && e@ == "Hex color must be 6 characters long."@),
            hex@.len() == 6 && hex6_ok(hex@) ==> (res matches Ok(c) && c.r as int == hex_pair_val(
                hex@[0],
                hex@[1],
            ) && c.g as int == hex_pair_val(hex@[2], hex@[3]) && c.b as int == hex_pair_val(
                hex@[4],
                hex@[5],
            )),
            hex@.len() == 6 && !hex6_ok(hex@) ==> (res matches Err(e) && e@
                == "Invalid hex value"@),
    {
        if hex.unicode_len() != 6 {
            return Err("Hex color must be 6 characters long.");
        }
        let r = match hex_pair(hex.get_char(0), hex.get_char(1)) {
            Some(v) => v,
            None => {
                return Err("Invalid hex value");
            },
        };
        let g = match hex_pair(hex.get_char(2), hex.get_char(3)) {
            Some(v) => v,
            None => {
                return Err("Invalid hex value");
            },
        };
        let b = match hex_pair(hex.get_char(4), hex.get_char(5)) {
            Some(v) => v,
            None => {
                return Err("Invalid hex value");
            },
        };
        Ok(Color { r, g, b })
    }

    /// The black color.
    pub fn black() -> (c: Color)
        ensures
            c == (Color { r: 0, g: 0, b: 0 }),
    {
        Color { r: 0, g: 0, b: 0 }
    }

    /// Clamp a 32-bit channel value into a byte.
    fn clamp(value: i32) -> (r: u8)
        ensures
            r as int == clamp_spec(value as int),
    {
        if value < 0 {
            0
        } else if value > 255 {
            255
        } else {
            value as u8
        }
    }

    /// Saturating channel-wise sum: no channel ever exceeds 255.
    pub fn add(&self, other: &Color) -> (c: Color)
        ensures
            c == color_add_spec(*self, *other),
    {
        Color {
            r: Color::clamp(self.r as i32 + other.r as i32),
            g: Color::clamp(self.g as i32 + other.g as i32),
            b: Color::clamp(self.b as i32 + other.b as i32),
        }
    }

    /// Scale every channel by a fixed-point factor, saturating into
    /// `[0, 255]`.
    pub fn multiply(&self, scalar: i64) -> (c: Color)
        requires
            sabs(scalar as int) <= 3_000_000_000_000,
        ensures
            c == color_scale_spec(*self, scalar as int),
    {
        Color {
            r: scale_channel(self.r, scalar),
            g: scale_channel(self.g, scalar),
            b: scale_channel(self.b, scalar),
        }
    }
}

/// Scale one channel by a fixed-point factor and clamp it into a byte.
fn scale_channel(ch: u8, scalar: i64) -> (r: u8)
    requires
        sabs(scalar as int) <= 3_000_000_000_000,
    ensures
        r as int == clamp_spec(fx_mul_spec(ch as int, scalar as int)),
{
    proof {
        lemma_abs_mul_bound(ch as int, scalar as int, 255, 3_000_000_000_000);
    }
    let p: i64 = fx_mul(ch as i64, scalar);
    if p < 0 {
        0
    } else if p > 255 {
        255
    } else {
        p as u8
    }
}

/// Parse one two-character hexadecimal group as an unsigned byte parse would.
fn hex_pair(c1: char, c2: char) -> (r: Option<u8>)
    ensures
        hex_pair_val(c1, c2) >= 0 ==> (r matches Some(v) && v as int == hex_pair_val(c1, c2)),
        hex_pair_val(c1, c2) < 0 ==> r is None,
{
    let v1 = hex_digit(c1);
    let v2 = hex_digit(c2);
    match (v1, v2) {
        (Some(a), Some(b)) => Some(16 * a + b),
        (None, Some(b)) => {
            if c1 == '+' {
                Some(b)
            } else {
                None
            }
        },
        _ => None,
    }
}

/// Parse one hexadecimal digit, either letter case.
fn hex_digit(c: char) -> (r: Option<u8>)
    ensures
        hex_val(c) >= 0 ==> (r matches Some(v) && v as int == hex_val(c)),
        hex_val(c) < 0 ==> r is None,
{
    let v = c as u32;
    if 48 <= v && v <= 57 {
        Some((v - 48) as u8)
    } else if 97 <= v && v <= 102 {
        Some((v - 87) as u8)
    } else if 65 <= v && v <= 70 {
        Some((v - 55) as u8)
    } else {
        None
    }
}

} // verus!
