use vstd::prelude::*;
use vstd::utf8::encode_utf8;
use crate::value::{Color, Real, ScriptError, Value, extract_real};

verus! {

/// The bit pattern of the double 1.0.
pub const ONE_BITS: u64 = 0x3FF0_0000_0000_0000;

/// A color written as hex: each channel a byte, to be read as `byte / 255`.
#[derive(Clone, Copy, Debug, PartialEq, Eq, Structural)]
pub struct HexColor {
    pub r: u8,
    pub g: u8,
    pub b: u8,
    pub a: u8,
}

/// What a color constructor was given: hex channels, or channels used as-is.
#[derive(Clone, Copy, Debug, PartialEq, Eq, Structural)]
pub enum ColorSpec {
    Hex(HexColor),
    Channels(Color),
}

pub open spec fn is_hex_digit(b: u8) -> bool {
    (0x30 <= b <= 0x39) || (0x41 <= b <= 0x46) || (0x61 <= b <= 0x66)
}

pub open spec fn hex_value(b: u8) -> int {
    if 0x30 <= b <= 0x39 {
        b - 0x30
    } else if 0x41 <= b <= 0x46 {
        b - 0x41 + 10
    } else {
        b - 0x61 + 10
    }
}

/// `#` followed by `2 * groups` hex digits starts at byte `i` of `s`.
pub open spec fn pattern_at(s: Seq<u8>, i: int, groups: int) -> bool {
    &&& 0 <= i
    &&& i + 1 + 2 * groups <= s.len()
    &&& s[i] == 0x23
    &&& forall|k: int| i + 1 <= k < i + 1 + 2 * groups ==> is_hex_digit(#[trigger] s[k])
}

/// The leftmost place where the pattern occurs.
pub open spec fn first_pattern(s: Seq<u8>, groups: int) -> Option<int> {
    if exists|i: int| pattern_at(s, i, groups) {
        Some(choose|i: int| pattern_at(s, i, groups) && forall|j: int| 0 <= j < i ==> !pattern_at(s, j, groups))
    } else {
        None
    }
}

/// The value of the two-digit group `g` of the match at `i`.
pub open spec fn group_value(s: Seq<u8>, i: int, g: int) -> int {
    hex_value(s[i + 1 + 2 * g]) * 16 + hex_value(s[i + 2 + 2 * g])
}

fn hex_digit(b: u8) -> (r: Option<u8>)
    ensures
        r matches Some(v) ==> is_hex_digit(b) && v as int == hex_value(b),
        r is None ==> !is_hex_digit(b),
{
    if 0x30 <= b && b <= 0x39 {
        Some(b - 0x30)
    } else if 0x41 <= b && b <= 0x46 {
        Some(b - 0x41 + 10)
    } else if 0x61 <= b && b <= 0x66 {
        Some(b - 0x61 + 10)
    } else {
        None
    }
}

fn pattern_here(s: &[u8], i: usize, groups: usize) -> (r: bool)
    requires
        groups <= 4,
    ensures
        r == pattern_at(s@, i as int, groups as int),
{
    if i >= s.len() || s.len() - i < 1 + 2 * groups {
        return false;
    }
    if s[i] != 0x23 {
        return false;
    }
    let mut k: usize = i + 1;
    while k < i + 1 + 2 * groups
        invariant
            i + 1 <= k <= i + 1 + 2 * groups <= s.len(),
            forall|m: int| i + 1 <= m < k ==> is_hex_digit(#[trigger] s@[m]),
        decreases i + 1 + 2 * groups - k,
    {
        if hex_digit(s[k]).is_none() {
            return false;
        }
        k = k + 1;
    }
    true
}

/// Finds the leftmost `#` followed by `2 * groups` hex digits.
pub fn find_pattern(s: &[u8], groups: usize) -> (r: Option<usize>)
    requires
        groups <= 4,
    ensures
        match r {
            Some(i) => pattern_at(s@, i as int, groups as int)
                && forall|j: int| 0 <= j < i ==> !pattern_at(s@, j, groups as int),
            None => forall|j: int| !pattern_at(s@, j, groups as int),
        },
        r matches Some(i) ==> first_pattern(s@, groups as int) == Some(i as int),
        r is None ==> first_pattern(s@, groups as int) is None,
{
    let mut i: usize = 0;
    while i < s.len()
        invariant
            i <= s.len(),
            groups <= 4,
            forall|j: int| 0 <= j < i ==> !pattern_at(s@, j, groups as int),
        decreases s.len() - i,
    {
        if pattern_here(s, i, groups) {
            return Some(i);
        }
        i = i + 1;
    }
    None
}

fn group_byte(s: &[u8], i: usize, g: usize, groups: usize) -> (r: u8)
    requires
        g < groups <= 4,
        pattern_at(s@, i as int, groups as int),
    ensures
        r as int == group_value(s@, i as int, g as int),
{
    let n = s.len();
    assert(i + 2 + 2 * g < i + 1 + 2 * groups <= n);
    assert(is_hex_digit(s@[i + 1 + 2 * g]));
    assert(is_hex_digit(s@[i + 2 + 2 * g]));
    let k: usize = i + 1 + 2 * g;
    let hi = hex_digit(s[k]).unwrap();
    let lo = hex_digit(s[k + 1]).unwrap();
    hi * 16 + lo
}

/// The hex color that a string holds, if it holds the pattern: three groups
/// with alpha 255 for `rgb`, four for `rgba`.
pub open spec fn hex_spec(s: Seq<u8>, with_alpha: bool) -> Result<HexColor, ScriptError> {
    let groups = if with_alpha {
        4int
    } else {
        3int
    };
    match first_pattern(s, groups) {
        None => Err(ScriptError::InvalidColorFormat),
        Some(i) => Ok(
            HexColor {
                r: group_value(s, i, 0) as u8,
                g: group_value(s, i, 1) as u8,
                b: group_value(s, i, 2) as u8,
                a: if with_alpha {
                    group_value(s, i, 3) as u8
                } else {
                    255u8
                },
            },
        ),
    }
}

/// Reads a hex color string.
pub fn parse_hex(s: &str, with_alpha: bool) -> (r: Result<HexColor, ScriptError>)
    ensures
        r == hex_spec(encode_utf8(s@), with_alpha),
{
    let b = s.as_bytes();
    let groups: usize = if with_alpha {
        4
    } else {
        3
    };
    match find_pattern(b, groups) {
        None => Err(ScriptError::InvalidColorFormat),
        Some(i) => {
            let r = group_byte(b, i, 0, groups);
            let g = group_byte(b, i, 1, groups);
            let bl = group_byte(b, i, 2, groups);
            let a = if with_alpha {
                group_byte(b, i, 3, groups)
            } else {
                255
            };
            Ok(HexColor { r, g, b: bl, a })
        },
    }
}

/// What `rgb` (`with_alpha` false) or `rgba` (true) builds from its arguments.
pub open spec fn color_spec(args: Seq<Value>, with_alpha: bool) -> Result<ColorSpec, ScriptError> {
    if args.len() == 0 {
        Err(ScriptError::MissingArgument)
    } else {
        match args[0] {
            Value::Str(s) => match hex_spec(encode_utf8(s@), with_alpha) {
                Ok(h) => Ok(ColorSpec::Hex(h)),
                Err(e) => Err(e),
            },
            _ => {
                let n = if with_alpha {
                    4int
                } else {
                    3int
                };
                if args.len() < n {
                    Err(ScriptError::MissingArgument)
                } else if !(args[0] is Float64) || !(args[1] is Float64) || !(args[2] is Float64)
                    || (with_alpha && !(args[3] is Float64)) {
                    Err(ScriptError::TypeMismatch)
                } else {
                    Ok(
                        ColorSpec::Channels(
                            Color {
                                r: args[0]->Float64_0,
                                g: args[1]->Float64_0,
                                b: args[2]->Float64_0,
                                a: if with_alpha {
                                    args[3]->Float64_0
                                } else {
                                    Real { bits: ONE_BITS }
                                },
                            },
                        ),
                    )
                }
            },
        }
    }
}

/// The `rgb` and `rgba` primitives: a hex string, or three (four) Float64
/// channels; `rgb` sets alpha to 1.0.
pub fn color(args: &Vec<Value>, with_alpha: bool) -> (r: Result<ColorSpec, ScriptError>)
    ensures
        r == color_spec(args@, with_alpha),
{
    if args.len() == 0 {
        return Err(ScriptError::MissingArgument);
    }
    if let Value::Str(s) = &args[0] {
        return match parse_hex(s.as_str(), with_alpha) {
            Ok(h) => Ok(ColorSpec::Hex(h)),
            Err(e) => Err(e),
        };
    }
    let n: usize = if with_alpha {
        4
    } else {
        3
    };
    if args.len() < n {
        return Err(ScriptError::MissingArgument);
    }
    let r = extract_real(&args[0]);
    let g = extract_real(&args[1]);
    let b = extract_real(&args[2]);
    let a = if with_alpha {
        extract_real(&args[3])
    } else {
        Ok(Real { bits: ONE_BITS })
    };
    match (r, g, b, a) {
        (Ok(r), Ok(g), Ok(b), Ok(a)) => Ok(ColorSpec::Channels(Color { r, g, b, a })),
        _ => Err(ScriptError::TypeMismatch),
    }
}

} // verus!
