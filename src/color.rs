//! Colors: RGB triples, the named palette, and the textual color parsers used
//! by OSC payloads.
use vstd::prelude::*;

verus! {

/// A 24-bit color.
#[derive(Debug, Clone, Copy, PartialEq, Eq, Structural)]
pub struct Rgb {
    pub r: u8,
    pub g: u8,
    pub b: u8,
}

/// Value of an ASCII hexadecimal digit, either case.
pub open spec fn hex_value(c: u8) -> Option<u8> {
    if 0x30 <= c && c <= 0x39 {
        Some((c - 0x30) as u8)
    } else if 0x61 <= c && c <= 0x66 {
        Some((c - 0x61 + 10) as u8)
    } else if 0x41 <= c && c <= 0x46 {
        Some((c - 0x41 + 10) as u8)
    } else {
        None
    }
}

/// Whether `c` is an ASCII decimal digit.
pub open spec fn is_decimal_digit(c: u8) -> bool {
    0x30 <= c && c <= 0x39
}

/// The number written in decimal by the digits of `s`.
pub open spec fn decimal_value(s: Seq<u8>) -> nat
    decreases s.len(),
{
    if s.len() == 0 {
        0
    } else {
        decimal_value(s.drop_last()) * 10 + (s.last() - 0x30) as nat
    }
}

/// `s` is a non-empty run of decimal digits whose value fits in a byte.
pub open spec fn number_value(s: Seq<u8>) -> Option<u8> {
    if s.len() > 0 && (forall|i: int| 0 <= i < s.len() ==> is_decimal_digit(#[trigger] s[i]))
        && decimal_value(s) <= 255 {
        Some(decimal_value(s) as u8)
    } else {
        None
    }
}

/// One color channel of the `rgb:` form starting at `i`: one or two hex
/// digits (two when two are there). Gives the value and the position after it.
pub open spec fn channel_at(s: Seq<u8>, i: int) -> Option<(u8, int)> {
    if 0 <= i < s.len() && hex_value(s[i]) is Some {
        let h = hex_value(s[i])->0;
        if i + 1 < s.len() && hex_value(s[i + 1]) is Some {
            Some(((h * 16 + hex_value(s[i + 1])->0) as u8, i + 2))
        } else {
            Some((h, i + 1))
        }
    } else {
        None
    }
}

/// `rgb:R/G/B`, each channel one or two hex digits, nothing after.
pub open spec fn rgb_form(s: Seq<u8>) -> Option<Rgb> {
    if s.len() >= 4 && s[0] == 0x72 && s[1] == 0x67 && s[2] == 0x62 && s[3] == 0x3a {
        match channel_at(s, 4) {
            Some((r, i)) => if i < s.len() && s[i] == 0x2f {
                match channel_at(s, i + 1) {
                    Some((g, j)) => if j < s.len() && s[j] == 0x2f {
                        match channel_at(s, j + 1) {
                            Some((b, k)) => if k == s.len() {
                                Some(Rgb { r, g, b })
                            } else {
                                None
                            },
                            None => None,
                        }
                    } else {
                        None
                    },
                    None => None,
                }
            } else {
                None
            },
            None => None,
        }
    } else {
        None
    }
}

/// Value of the two hex digits at `i` and `i + 1`.
pub open spec fn hex_pair(s: Seq<u8>, i: int) -> u8 {
    (hex_value(s[i])->0 * 16 + hex_value(s[i + 1])->0) as u8
}

/// `#RRGGBB`: exactly six hex digits after the hash.
pub open spec fn hash_form(s: Seq<u8>) -> Option<Rgb> {
    if s.len() == 7 && s[0] == 0x23 && (forall|i: int| 1 <= i < 7 ==> hex_value(#[trigger] s[i]) is Some) {
        Some(Rgb { r: hex_pair(s, 1), g: hex_pair(s, 3), b: hex_pair(s, 5) })
    } else {
        None
    }
}

/// The color that a color specification spells, if it is well formed.
pub open spec fn rgb_color_value(s: Seq<u8>) -> Option<Rgb> {
    if s.len() > 0 && s[0] == 0x23 {
        hash_form(s)
    } else {
        rgb_form(s)
    }
}

fn hex_digit(c: u8) -> (r: Option<u8>)
    ensures
        r == hex_value(c),
        r matches Some(v) ==> v < 16,
{
    if 0x30 <= c && c <= 0x39 {
        Some(c - 0x30)
    } else if 0x61 <= c && c <= 0x66 {
        Some(c - 0x61 + 10)
    } else if 0x41 <= c && c <= 0x46 {
        Some(c - 0x41 + 10)
    } else {
        None
    }
}

fn parse_channel(s: &[u8], i: usize) -> (r: Option<(u8, usize)>)
    ensures
        match (r, channel_at(s@, i as int)) {
            (Some((v, n)), Some((w, m))) => v == w && n as int == m,
            (None, None) => true,
            _ => false,
        },
{
    if i >= s.len() {
        return None;
    }
    match hex_digit(s[i]) {
        None => None,
        Some(h) => {
            if i + 1 < s.len() {
                if let Some(l) = hex_digit(s[i + 1]) {
                    return Some((h * 16 + l, i + 2));
                }
            }
            Some((h, i + 1))
        },
    }
}

/// Parses a color specification of the form `rgb:R/G/B` (one or two hex
/// digits per channel) or `#RRGGBB`.
pub fn parse_rgb_color(color: &[u8]) -> (r: Option<Rgb>)
    ensures
        r == rgb_color_value(color@),
{
    let n = color.len();
    if n > 0 && color[0] == 0x23 {
        if n != 7 {
            return None;
        }
        let mut digits: [u8; 6] = [0; 6];
        let mut k: usize = 0;
        while k < 6
            invariant
                n == 7,
                color@.len() == 7,
                0 <= k <= 6,
                forall|j: int| 0 <= j < k ==> hex_value(color@[j + 1]) == Some(#[trigger] digits@[j]),
                forall|j: int| 0 <= j < k ==> digits@[j] < 16,
            decreases 6 - k,
        {
            match hex_digit(color[k + 1]) {
                Some(v) => {
                    digits[k] = v;
                },
                None => {
                    return None;
                },
            }
            k = k + 1;
        }
        assert(hex_value(color@[1]) == Some(digits@[0]));
        assert(hex_value(color@[2]) == Some(digits@[1]));
        assert(hex_value(color@[3]) == Some(digits@[2]));
        assert(hex_value(color@[4]) == Some(digits@[3]));
        assert(hex_value(color@[5]) == Some(digits@[4]));
        assert(hex_value(color@[6]) == Some(digits@[5]));
        return Some(
            Rgb {
                r: digits[0] * 16 + digits[1],
                g: digits[2] * 16 + digits[3],
                b: digits[4] * 16 + digits[5],
            },
        );
    }
    if n < 4 || color[0] != 0x72 || color[1] != 0x67 || color[2] != 0x62 || color[3] != 0x3a {
        return None;
    }
    let (r, i) = match parse_channel(color, 4) {
        Some(p) => p,
        None => return None,
    };
    if i >= n || color[i] != 0x2f {
        return None;
    }
    let (g, j) = match parse_channel(color, i + 1) {
        Some(p) => p,
        None => return None,
    };
    if j >= n || color[j] != 0x2f {
        return None;
    }
    let (b, k) = match parse_channel(color, j + 1) {
        Some(p) => p,
        None => return None,
    };
    if k != n {
        return None;
    }
    Some(Rgb { r, g, b })
}

/// A longer run of decimal digits is worth at least as much as its prefix.
proof fn lemma_decimal_value_prefix(s: Seq<u8>, k: int)
    requires
        0 <= k <= s.len(),
        forall|i: int| 0 <= i < s.len() ==> is_decimal_digit(#[trigger] s[i]),
    ensures
        decimal_value(s.take(k)) <= decimal_value(s),
    decreases s.len(),
{
    if k == s.len() {
        assert(s.take(k) =~= s);
    } else {
        let t = s.drop_last();
        assert forall|i: int| 0 <= i < t.len() implies is_decimal_digit(#[trigger] t[i]) by {
            assert(t[i] == s[i]);
        }
        lemma_decimal_value_prefix(t, k);
        assert(t.take(k) =~= s.take(k));
    }
}

/// Parses a non-empty run of decimal digits into a byte. Anything else, and
/// any value above 255, is refused.
pub fn parse_number(input: &[u8]) -> (r: Option<u8>)
    ensures
        r == number_value(input@),
{
    if input.len() == 0 {
        return None;
    }
    let mut num: u8 = 0;
    let mut i: usize = 0;
    assert(input@.take(0) =~= Seq::<u8>::empty());
    while i < input.len()
        invariant
            0 <= i <= input@.len(),
            input@.len() > 0,
            forall|j: int| 0 <= j < i ==> is_decimal_digit(#[trigger] input@[j]),
            num as nat == decimal_value(input@.take(i as int)),
        decreases input.len() - i,
    {
        let c = input[i];
        if !(0x30 <= c && c <= 0x39) {
            assert(!is_decimal_digit(input@[i as int]));
            return None;
        }
        let ghost prefix = input@.take(i as int + 1);
        assert(prefix.drop_last() =~= input@.take(i as int));
        assert(prefix.last() == c);
        match num.checked_mul(10) {
            Some(m) => match m.checked_add(c - 0x30) {
                Some(v) => {
                    num = v;
                },
                None => {
                    proof {
                        if forall|j: int| 0 <= j < input@.len() ==> is_decimal_digit(#[trigger] input@[j]) {
                            lemma_decimal_value_prefix(input@, i as int + 1);
                        }
                    }
                    return None;
                },
            },
            None => {
                proof {
                    if forall|j: int| 0 <= j < input@.len() ==> is_decimal_digit(#[trigger] input@[j]) {
                        lemma_decimal_value_prefix(input@, i as int + 1);
                    }
                }
                return None;
            },
        }
        i = i + 1;
    }
    assert(input@.take(input@.len() as int) =~= input@);
    Some(num)
}

/// The named colors of the palette: the sixteen ANSI colors, the special
/// foreground, background and cursor colors, and their dim and bright forms.
#[derive(Debug, Clone, Copy, PartialEq, Eq, Structural)]
pub enum NamedColor {
    Black,
    Red,
    Green,
    Yellow,
    Blue,
    Magenta,
    Cyan,
    White,
    BrightBlack,
    BrightRed,
    BrightGreen,
    BrightYellow,
    BrightBlue,
    BrightMagenta,
    BrightCyan,
    BrightWhite,
    Foreground,
    Background,
    Cursor,
    DimBlack,
    DimRed,
    DimGreen,
    DimYellow,
    DimBlue,
    DimMagenta,
    DimCyan,
    DimWhite,
    BrightForeground,
    DimForeground,
}

/// The next brighter form of a color: dim colors become normal, normal ones
/// bright; the others stay.
pub open spec fn bright_of(c: NamedColor) -> NamedColor {
    match c {
        NamedColor::Foreground => NamedColor::BrightForeground,
        NamedColor::Black => NamedColor::BrightBlack,
        NamedColor::Red => NamedColor::BrightRed,
        NamedColor::Green => NamedColor::BrightGreen,
        NamedColor::Yellow => NamedColor::BrightYellow,
        NamedColor::Blue => NamedColor::BrightBlue,
        NamedColor::Magenta => NamedColor::BrightMagenta,
        NamedColor::Cyan => NamedColor::BrightCyan,
        NamedColor::White => NamedColor::BrightWhite,
        NamedColor::DimForeground => NamedColor::Foreground,
        NamedColor::DimBlack => NamedColor::Black,
        NamedColor::DimRed => NamedColor::Red,
        NamedColor::DimGreen => NamedColor::Green,
        NamedColor::DimYellow => NamedColor::Yellow,
        NamedColor::DimBlue => NamedColor::Blue,
        NamedColor::DimMagenta => NamedColor::Magenta,
        NamedColor::DimCyan => NamedColor::Cyan,
        NamedColor::DimWhite => NamedColor::White,
        other => other,
    }
}

/// The next dimmer form of a color: bright colors become normal, normal ones
/// dim; the others stay.
pub open spec fn dim_of(c: NamedColor) -> NamedColor {
    match c {
        NamedColor::Black => NamedColor::DimBlack,
        NamedColor::Red => NamedColor::DimRed,
        NamedColor::Green => NamedColor::DimGreen,
        NamedColor::Yellow => NamedColor::DimYellow,
        NamedColor::Blue => NamedColor::DimBlue,
        NamedColor::Magenta => NamedColor::DimMagenta,
        NamedColor::Cyan => NamedColor::DimCyan,
        NamedColor::White => NamedColor::DimWhite,
        NamedColor::Foreground => NamedColor::DimForeground,
        NamedColor::BrightBlack => NamedColor::Black,
        NamedColor::BrightRed => NamedColor::Red,
        NamedColor::BrightGreen => NamedColor::Green,
        NamedColor::BrightYellow => NamedColor::Yellow,
        NamedColor::BrightBlue => NamedColor::Blue,
        NamedColor::BrightMagenta => NamedColor::Magenta,
        NamedColor::BrightCyan => NamedColor::Cyan,
        NamedColor::BrightWhite => NamedColor::White,
        NamedColor::BrightForeground => NamedColor::Foreground,
        other => other,
    }
}

/// Position of a named color in a color list: the sixteen ANSI colors take
/// 0 to 15, the 256-color cube ends at 255, and the special colors follow.
pub open spec fn palette_index(c: NamedColor) -> usize {
    match c {
        NamedColor::Black => 0,
        NamedColor::Red => 1,
        NamedColor::Green => 2,
        NamedColor::Yellow => 3,
        NamedColor::Blue => 4,
        NamedColor::Magenta => 5,
        NamedColor::Cyan => 6,
        NamedColor::White => 7,
        NamedColor::BrightBlack => 8,
        NamedColor::BrightRed => 9,
        NamedColor::BrightGreen => 10,
        NamedColor::BrightYellow => 11,
        NamedColor::BrightBlue => 12,
        NamedColor::BrightMagenta => 13,
        NamedColor::BrightCyan => 14,
        NamedColor::BrightWhite => 15,
        NamedColor::Foreground => 256,
        NamedColor::Background => 257,
        NamedColor::Cursor => 258,
        NamedColor::DimBlack => 259,
        NamedColor::DimRed => 260,
        NamedColor::DimGreen => 261,
        NamedColor::DimYellow => 262,
        NamedColor::DimBlue => 263,
        NamedColor::DimMagenta => 264,
        NamedColor::DimCyan => 265,
        NamedColor::DimWhite => 266,
        NamedColor::BrightForeground => 267,
        NamedColor::DimForeground => 268,
    }
}

impl NamedColor {
    pub fn to_bright(self) -> (r: Self)
        ensures
            r == bright_of(self),
    {
        match self {
            NamedColor::Foreground => NamedColor::BrightForeground,
            NamedColor::Black => NamedColor::BrightBlack,
            NamedColor::Red => NamedColor::BrightRed,
            NamedColor::Green => NamedColor::BrightGreen,
            NamedColor::Yellow => NamedColor::BrightYellow,
            NamedColor::Blue => NamedColor::BrightBlue,
            NamedColor::Magenta => NamedColor::BrightMagenta,
            NamedColor::Cyan => NamedColor::BrightCyan,
            NamedColor::White => NamedColor::BrightWhite,
            NamedColor::DimForeground => NamedColor::Foreground,
            NamedColor::DimBlack => NamedColor::Black,
            NamedColor::DimRed => NamedColor::Red,
            NamedColor::DimGreen => NamedColor::Green,
            NamedColor::DimYellow => NamedColor::Yellow,
            NamedColor::DimBlue => NamedColor::Blue,
            NamedColor::DimMagenta => NamedColor::Magenta,
            NamedColor::DimCyan => NamedColor::Cyan,
            NamedColor::DimWhite => NamedColor::White,
            other => other,
        }
    }

    pub fn to_dim(self) -> (r: Self)
        ensures
            r == dim_of(self),
    {
        match self {
            NamedColor::Black => NamedColor::DimBlack,
            NamedColor::Red => NamedColor::DimRed,
            NamedColor::Green => NamedColor::DimGreen,
            NamedColor::Yellow => NamedColor::DimYellow,
            NamedColor::Blue => NamedColor::DimBlue,
            NamedColor::Magenta => NamedColor::DimMagenta,
            NamedColor::Cyan => NamedColor::DimCyan,
            NamedColor::White => NamedColor::DimWhite,
            NamedColor::Foreground => NamedColor::DimForeground,
            NamedColor::BrightBlack => NamedColor::Black,
            NamedColor::BrightRed => NamedColor::Red,
            NamedColor::BrightGreen => NamedColor::Green,
            NamedColor::BrightYellow => NamedColor::Yellow,
            NamedColor::BrightBlue => NamedColor::Blue,
            NamedColor::BrightMagenta => NamedColor::Magenta,
            NamedColor::BrightCyan => NamedColor::Cyan,
            NamedColor::BrightWhite => NamedColor::White,
            NamedColor::BrightForeground => NamedColor::Foreground,
            other => other,
        }
    }

    /// Position of this color in a color list.
    pub fn index(self) -> (r: usize)
        ensures
            r == palette_index(self),
    {
        match self {
            NamedColor::Black => 0,
            NamedColor::Red => 1,
            NamedColor::Green => 2,
            NamedColor::Yellow => 3,
            NamedColor::Blue => 4,
            NamedColor::Magenta => 5,
            NamedColor::Cyan => 6,
            NamedColor::White => 7,
            NamedColor::BrightBlack => 8,
            NamedColor::BrightRed => 9,
            NamedColor::BrightGreen => 10,
            NamedColor::BrightYellow => 11,
            NamedColor::BrightBlue => 12,
            NamedColor::BrightMagenta => 13,
            NamedColor::BrightCyan => 14,
            NamedColor::BrightWhite => 15,
            NamedColor::Foreground => 256,
            NamedColor::Background => 257,
            NamedColor::Cursor => 258,
            NamedColor::DimBlack => 259,
            NamedColor::DimRed => 260,
            NamedColor::DimGreen => 261,
            NamedColor::DimYellow => 262,
            NamedColor::DimBlue => 263,
            NamedColor::DimMagenta => 264,
            NamedColor::DimCyan => 265,
            NamedColor::DimWhite => 266,
            NamedColor::BrightForeground => 267,
            NamedColor::DimForeground => 268,
        }
    }
}

/// A color as the terminal names it: from the palette by name, as a direct
/// RGB value, or by index into the 256-color table.
#[derive(Debug, Clone, Copy, PartialEq, Eq, Structural)]
pub enum Color {
    Named(NamedColor),
    Spec(Rgb),
    Indexed(u8),
}

} // verus!
