//! Character attributes and the decoding of SGR (`CSI ... m`) parameters.
use vstd::prelude::*;

use crate::color::{Color, NamedColor, Rgb};

verus! {

/// Terminal character attributes.
#[derive(Debug, Clone, Copy, PartialEq, Eq, Structural)]
pub enum Attr {
    /// Clear all special abilities
    Reset,
    /// Bold text
    Bold,
    /// Dim or secondary color
    Dim,
    /// Italic text
    Italic,
    /// Underscore text
    Underscore,
    /// Blink cursor slowly
    BlinkSlow,
    /// Blink cursor fast
    BlinkFast,
    /// Invert colors
    Reverse,
    /// Do not display characters
    Hidden,
    /// Strikeout text
    Strike,
    /// Cancel bold
    CancelBold,
    /// Cancel bold and dim
    CancelBoldDim,
    /// Cancel italic
    CancelItalic,
    /// Cancel underline
    CancelUnderline,
    /// Cancel blink
    CancelBlink,
    /// Cancel inversion
    CancelReverse,
    /// Cancel text hiding
    CancelHidden,
    /// Cancel strikeout
    CancelStrike,
    /// Set foreground color
    Foreground(Color),
    /// Set background color
    Background(Color),
}

/// The attribute of a single-parameter SGR code, if it is one.
pub open spec fn sgr_code_attr(p: i64) -> Option<Attr> {
    if p == 0 { Some(Attr::Reset) }
    else if p == 1 { Some(Attr::Bold) }
    else if p == 2 { Some(Attr::Dim) }
    else if p == 3 { Some(Attr::Italic) }
    else if p == 4 { Some(Attr::Underscore) }
    else if p == 5 { Some(Attr::BlinkSlow) }
    else if p == 6 { Some(Attr::BlinkFast) }
    else if p == 7 { Some(Attr::Reverse) }
    else if p == 8 { Some(Attr::Hidden) }
    else if p == 9 { Some(Attr::Strike) }
    else if p == 21 { Some(Attr::CancelBold) }
    else if p == 22 { Some(Attr::CancelBoldDim) }
    else if p == 23 { Some(Attr::CancelItalic) }
    else if p == 24 { Some(Attr::CancelUnderline) }
    else if p == 25 { Some(Attr::CancelBlink) }
    else if p == 27 { Some(Attr::CancelReverse) }
    else if p == 28 { Some(Attr::CancelHidden) }
    else if p == 29 { Some(Attr::CancelStrike) }
    else if 30 <= p <= 37 { Some(Attr::Foreground(Color::Named(ansi_color((p - 30) as int)))) }
    else if p == 39 { Some(Attr::Foreground(Color::Named(NamedColor::Foreground))) }
    else if 40 <= p <= 47 { Some(Attr::Background(Color::Named(ansi_color((p - 40) as int)))) }
    else if p == 49 { Some(Attr::Background(Color::Named(NamedColor::Background))) }
    else if 90 <= p <= 97 { Some(Attr::Foreground(Color::Named(ansi_color((p - 90 + 8) as int)))) }
    else if 100 <= p <= 107 { Some(Attr::Background(Color::Named(ansi_color((p - 100 + 8) as int)))) }
    else { None }
}

/// The `n`-th of the sixteen ANSI colors, normal ones first.
pub open spec fn ansi_color(n: int) -> NamedColor {
    if n == 0 { NamedColor::Black }
    else if n == 1 { NamedColor::Red }
    else if n == 2 { NamedColor::Green }
    else if n == 3 { NamedColor::Yellow }
    else if n == 4 { NamedColor::Blue }
    else if n == 5 { NamedColor::Magenta }
    else if n == 6 { NamedColor::Cyan }
    else if n == 7 { NamedColor::White }
    else if n == 8 { NamedColor::BrightBlack }
    else if n == 9 { NamedColor::BrightRed }
    else if n == 10 { NamedColor::BrightGreen }
    else if n == 11 { NamedColor::BrightYellow }
    else if n == 12 { NamedColor::BrightBlue }
    else if n == 13 { NamedColor::BrightMagenta }
    else if n == 14 { NamedColor::BrightCyan }
    else { NamedColor::BrightWhite }
}

/// A value of a color channel or of a color index: `0..=255`.
pub open spec fn is_byte(v: i64) -> bool {
    0 <= v <= 255
}

/// The extended color whose code (38 or 48) stands at `i`, and how many
/// parameters after the code it takes up. `2;r;g;b` is a direct color and
/// takes four; `5;n` an indexed one and takes two. A component out of range
/// takes its parameters and gives no color; a missing part or an unknown kind
/// takes none.
pub open spec fn color_at(ps: Seq<i64>, i: int) -> (Option<Color>, nat) {
    if ps.len() < i + 2 {
        (None, 0)
    } else if ps[i + 1] == 2 {
        if ps.len() < i + 5 {
            (None, 0)
        } else if is_byte(ps[i + 2]) && is_byte(ps[i + 3]) && is_byte(ps[i + 4]) {
            (Some(Color::Spec(Rgb { r: ps[i + 2] as u8, g: ps[i + 3] as u8, b: ps[i + 4] as u8 })), 4)
        } else {
            (None, 4)
        }
    } else if ps[i + 1] == 5 {
        if ps.len() < i + 3 {
            (None, 0)
        } else if is_byte(ps[i + 2]) {
            (Some(Color::Indexed(ps[i + 2] as u8)), 2)
        } else {
            (None, 2)
        }
    } else {
        (None, 0)
    }
}

/// The attributes of the SGR parameters from position `i` on, one entry per
/// code (`None` for a code that sets nothing); an extended color is one code
/// together with the parameters it takes up.
pub open spec fn sgr_attrs_from(ps: Seq<i64>, i: int) -> Seq<Option<Attr>>
    decreases ps.len() - i,
{
    if i < 0 || i >= ps.len() {
        Seq::empty()
    } else if ps[i] == 38 || ps[i] == 48 {
        let used = color_at(ps, i).1;
        let a = match color_at(ps, i).0 {
            Some(c) => Some(if ps[i] == 38 { Attr::Foreground(c) } else { Attr::Background(c) }),
            None => None,
        };
        seq![a] + sgr_attrs_from(ps, i + used + 1)
    } else {
        seq![sgr_code_attr(ps[i])] + sgr_attrs_from(ps, i + 1)
    }
}

/// The attributes of a whole SGR parameter list.
pub open spec fn sgr_attrs(ps: Seq<i64>) -> Seq<Option<Attr>> {
    sgr_attrs_from(ps, 0)
}

fn ansi_color_of(n: i64) -> (r: NamedColor)
    requires
        0 <= n < 16,
    ensures
        r == ansi_color(n as int),
{
    match n {
        0 => NamedColor::Black,
        1 => NamedColor::Red,
        2 => NamedColor::Green,
        3 => NamedColor::Yellow,
        4 => NamedColor::Blue,
        5 => NamedColor::Magenta,
        6 => NamedColor::Cyan,
        7 => NamedColor::White,
        8 => NamedColor::BrightBlack,
        9 => NamedColor::BrightRed,
        10 => NamedColor::BrightGreen,
        11 => NamedColor::BrightYellow,
        12 => NamedColor::BrightBlue,
        13 => NamedColor::BrightMagenta,
        14 => NamedColor::BrightCyan,
        _ => NamedColor::BrightWhite,
    }
}

fn code_attr(p: i64) -> (r: Option<Attr>)
    ensures
        r == sgr_code_attr(p),
{
    match p {
        0 => Some(Attr::Reset),
        1 => Some(Attr::Bold),
        2 => Some(Attr::Dim),
        3 => Some(Attr::Italic),
        4 => Some(Attr::Underscore),
        5 => Some(Attr::BlinkSlow),
        6 => Some(Attr::BlinkFast),
        7 => Some(Attr::Reverse),
        8 => Some(Attr::Hidden),
        9 => Some(Attr::Strike),
        21 => Some(Attr::CancelBold),
        22 => Some(Attr::CancelBoldDim),
        23 => Some(Attr::CancelItalic),
        24 => Some(Attr::CancelUnderline),
        25 => Some(Attr::CancelBlink),
        27 => Some(Attr::CancelReverse),
        28 => Some(Attr::CancelHidden),
        29 => Some(Attr::CancelStrike),
        30..=37 => Some(Attr::Foreground(Color::Named(ansi_color_of(p - 30)))),
        39 => Some(Attr::Foreground(Color::Named(NamedColor::Foreground))),
        40..=47 => Some(Attr::Background(Color::Named(ansi_color_of(p - 40)))),
        49 => Some(Attr::Background(Color::Named(NamedColor::Background))),
        90..=97 => Some(Attr::Foreground(Color::Named(ansi_color_of(p - 90 + 8)))),
        100..=107 => Some(Attr::Background(Color::Named(ansi_color_of(p - 100 + 8)))),
        _ => None,
    }
}

/// Parses the extended color whose code stands at `*i`, and moves `*i` past
/// the parameters that it takes up.
pub fn parse_color(attrs: &[i64], i: &mut usize) -> (r: Option<Color>)
    ensures
        r == color_at(attrs@, *old(i) as int).0,
        *final(i) == *old(i) + color_at(attrs@, *old(i) as int).1,
{
    let at = *i;
    if at >= attrs.len() || attrs.len() - at < 2 {
        return None;
    }
    match attrs[at + 1] {
        2 => {
            if attrs.len() - at < 5 {
                return None;
            }
            let r = attrs[at + 2];
            let g = attrs[at + 3];
            let b = attrs[at + 4];
            *i = at + 4;
            if !(0 <= r && r <= 255) || !(0 <= g && g <= 255) || !(0 <= b && b <= 255) {
                return None;
            }
            Some(Color::Spec(Rgb { r: r as u8, g: g as u8, b: b as u8 }))
        },
        5 => {
            if attrs.len() - at < 3 {
                return None;
            }
            *i = at + 2;
            let idx = attrs[at + 2];
            if 0 <= idx && idx <= 255 {
                Some(Color::Indexed(idx as u8))
            } else {
                None
            }
        },
        _ => None,
    }
}

/// Decodes SGR parameters into attributes, one entry per code; an entry is
/// `None` where the code sets nothing.
pub fn attrs_from_sgr_parameters(parameters: &[i64]) -> (r: Vec<Option<Attr>>)
    ensures
        r@ == sgr_attrs(parameters@),
{
    let mut i: usize = 0;
    let mut attrs: Vec<Option<Attr>> = Vec::new();
    while i < parameters.len()
        invariant
            0 <= i <= parameters@.len(),
            attrs@ + sgr_attrs_from(parameters@, i as int) == sgr_attrs(parameters@),
        decreases parameters.len() - i,
    {
        let p = parameters[i];
        let attr = if p == 38 || p == 48 {
            let mut next = i;
            let color = parse_color(parameters, &mut next);
            i = next;
            match color {
                Some(c) => Some(if p == 38 { Attr::Foreground(c) } else { Attr::Background(c) }),
                None => None,
            }
        } else {
            code_attr(p)
        };
        let ghost before = attrs@;
        attrs.push(attr);
        assert(attrs@ + sgr_attrs_from(parameters@, i as int + 1) =~= before + sgr_attrs_from(
            parameters@,
            i as int + 1,
        ).insert(0, attr));
        i = i + 1;
    }
    assert(attrs@ + sgr_attrs_from(parameters@, i as int) =~= attrs@);
    attrs
}

} // verus!
