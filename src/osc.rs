//! Operating system commands: titles, colors, cursor shape and clipboard.
use vstd::prelude::*;

use crate::action::{views, Action, ActionView};
use crate::color::{number_value, parse_number, parse_rgb_color, rgb_color_value};
use crate::dispatch::{none, push_action, single, ProcessorState};
use crate::mode::CursorStyle;
use crate::text::{base64_decode, base64_decoded, utf8_decoded, utf8_text};

verus! {

/// The parts of an OSC payload as byte sequences.
pub open spec fn byte_strings(params: Seq<Vec<u8>>) -> Seq<Seq<u8>> {
    params.map_values(|p: Vec<u8>| p@)
}

/// One pair of `OSC 4`: a color number and a color specification.
pub open spec fn color_pair_action(index: Seq<u8>, color: Seq<u8>) -> Seq<ActionView> {
    match (number_value(index), rgb_color_value(color)) {
        (Some(i), Some(c)) => seq![ActionView::SetColor(i as usize, c)],
        _ => Seq::empty(),
    }
}

/// The first `k` pairs of `OSC 4`, which follow the command number.
pub open spec fn color_pair_actions(ps: Seq<Seq<u8>>, k: int) -> Seq<ActionView>
    decreases k,
{
    if k <= 0 {
        Seq::empty()
    } else {
        color_pair_actions(ps, k - 1) + color_pair_action(ps[2 * k - 1], ps[2 * k])
    }
}

/// Position in the color list of the dynamic color that command `code`
/// (10 to 12) addresses: foreground, background, cursor.
pub open spec fn dynamic_index(code: int) -> usize {
    (256 + code - 10) as usize
}

/// One part of `OSC 10` to `OSC 12`: a new color, or `?` to ask for the
/// current one.
pub open spec fn dynamic_color_action(param: Seq<u8>, code: int) -> Seq<ActionView> {
    match rgb_color_value(param) {
        Some(c) => seq![ActionView::SetColor(dynamic_index(code), c)],
        None => if param == seq![0x3fu8] {
            seq![ActionView::DynamicColorSequence(code as u8, dynamic_index(code))]
        } else {
            Seq::empty()
        },
    }
}

/// The first `k` parts after the command number of `OSC 10` to `OSC 12`:
/// each one addresses the next dynamic color.
pub open spec fn dynamic_color_actions(ps: Seq<Seq<u8>>, code: int, k: int) -> Seq<ActionView>
    decreases k,
{
    if k <= 0 {
        Seq::empty()
    } else {
        dynamic_color_actions(ps, code, k - 1) + dynamic_color_action(ps[k], code + k - 1)
    }
}

/// Of the parts after a dynamic color command, those that still address a
/// dynamic color (the cursor color is the last).
pub open spec fn dynamic_parts(len: int, code: int) -> int {
    if len - 1 < 13 - code {
        len - 1
    } else {
        13 - code
    }
}

/// Resetting the colors numbered by the first `k` parts after `OSC 104`.
pub open spec fn reset_list_actions(ps: Seq<Seq<u8>>, k: int) -> Seq<ActionView>
    decreases k,
{
    if k <= 0 {
        Seq::empty()
    } else {
        reset_list_actions(ps, k - 1) + match number_value(ps[k]) {
            Some(i) => seq![ActionView::ResetColor(i as usize)],
            None => Seq::empty(),
        }
    }
}

/// Resetting the 256 indexed colors.
pub open spec fn reset_all_actions() -> Seq<ActionView> {
    Seq::new(256, |i: int| ActionView::ResetColor(i as usize))
}

/// `CursorShape=`
pub open spec fn cursor_shape_key() -> Seq<u8> {
    seq![0x43u8, 0x75, 0x72, 0x73, 0x6f, 0x72, 0x53, 0x68, 0x61, 0x70, 0x65, 0x3d]
}

/// `OSC 50`: `CursorShape=` and 0 (block), 1 (beam) or 2 (underline).
pub open spec fn cursor_shape_actions(p: Seq<u8>) -> Seq<ActionView> {
    if p.len() >= 13 && p.take(12) == cursor_shape_key() {
        if p[12] == 0x30 {
            seq![ActionView::SetCursorStyle(Some(CursorStyle::Block))]
        } else if p[12] == 0x31 {
            seq![ActionView::SetCursorStyle(Some(CursorStyle::Beam))]
        } else if p[12] == 0x32 {
            seq![ActionView::SetCursorStyle(Some(CursorStyle::Underline))]
        } else {
            Seq::empty()
        }
    } else {
        Seq::empty()
    }
}

/// `OSC 52`: the clipboard becomes the UTF-8 text that the base64 payload
/// encodes; a query (`?`) is not answered.
pub open spec fn clipboard_actions(p: Seq<u8>) -> Seq<ActionView> {
    if p == seq![0x3fu8] {
        Seq::empty()
    } else {
        match base64_decoded(p) {
            Some(b) => match utf8_decoded(b) {
                Some(t) => seq![ActionView::SetClipboard(t)],
                None => Seq::empty(),
            },
            None => Seq::empty(),
        }
    }
}

/// What an OSC payload, split at `;`, does.
pub open spec fn osc_actions(ps: Seq<Seq<u8>>) -> Seq<ActionView> {
    if ps.len() == 0 || ps[0].len() == 0 {
        Seq::empty()
    } else if ps[0] == seq![0x30u8] || ps[0] == seq![0x32u8] {
        if ps.len() >= 2 && utf8_decoded(ps[1]) is Some {
            seq![ActionView::SetTitle(utf8_decoded(ps[1])->0)]
        } else {
            Seq::empty()
        }
    } else if ps[0] == seq![0x34u8] {
        if ps.len() > 1 && ps.len() % 2 == 1 {
            color_pair_actions(ps, (ps.len() - 1) / 2)
        } else {
            Seq::empty()
        }
    } else if ps[0] == seq![0x31u8, 0x30] {
        dynamic_color_actions(ps, 10, dynamic_parts(ps.len() as int, 10))
    } else if ps[0] == seq![0x31u8, 0x31] {
        dynamic_color_actions(ps, 11, dynamic_parts(ps.len() as int, 11))
    } else if ps[0] == seq![0x31u8, 0x32] {
        dynamic_color_actions(ps, 12, dynamic_parts(ps.len() as int, 12))
    } else if ps[0] == seq![0x35u8, 0x30] {
        if ps.len() >= 2 {
            cursor_shape_actions(ps[1])
        } else {
            Seq::empty()
        }
    } else if ps[0] == seq![0x35u8, 0x32] {
        if ps.len() >= 3 {
            clipboard_actions(ps[2])
        } else {
            Seq::empty()
        }
    } else if ps[0] == seq![0x31u8, 0x30, 0x34] {
        if ps.len() == 1 {
            reset_all_actions()
        } else {
            reset_list_actions(ps, ps.len() - 1)
        }
    } else if ps[0] == seq![0x31u8, 0x31, 0x30] {
        seq![ActionView::ResetColor(256)]
    } else if ps[0] == seq![0x31u8, 0x31, 0x31] {
        seq![ActionView::ResetColor(257)]
    } else if ps[0] == seq![0x31u8, 0x31, 0x32] {
        seq![ActionView::ResetColor(258)]
    } else {
        Seq::empty()
    }
}

fn is_one(p: &[u8], a: u8) -> (r: bool)
    ensures
        r == (p@ == seq![a]),
{
    if p.len() == 1 && p[0] == a {
        assert(p@ =~= seq![a]);
        true
    } else {
        false
    }
}

fn is_two(p: &[u8], a: u8, b: u8) -> (r: bool)
    ensures
        r == (p@ == seq![a, b]),
{
    if p.len() == 2 && p[0] == a && p[1] == b {
        assert(p@ =~= seq![a, b]);
        true
    } else {
        false
    }
}

fn is_three(p: &[u8], a: u8, b: u8, c: u8) -> (r: bool)
    ensures
        r == (p@ == seq![a, b, c]),
{
    if p.len() == 3 && p[0] == a && p[1] == b && p[2] == c {
        assert(p@ =~= seq![a, b, c]);
        true
    } else {
        false
    }
}

fn has_cursor_shape_key(p: &[u8]) -> (r: bool)
    ensures
        r == (p@.len() >= 13 && p@.take(12) == cursor_shape_key()),
{
    if p.len() < 13 {
        return false;
    }
    let key: [u8; 12] = [0x43, 0x75, 0x72, 0x73, 0x6f, 0x72, 0x53, 0x68, 0x61, 0x70, 0x65, 0x3d];
    assert(key@ =~= cursor_shape_key());
    let mut i: usize = 0;
    while i < 12
        invariant
            0 <= i <= 12,
            p@.len() >= 13,
            key@ == cursor_shape_key(),
            forall|j: int| 0 <= j < i ==> p@[j] == key@[j],
        decreases 12 - i,
    {
        if p[i] != key[i] {
            assert(p@.take(12)[i as int] != cursor_shape_key()[i as int]);
            return false;
        }
        i = i + 1;
    }
    assert(p@.take(12) =~= cursor_shape_key());
    true
}

fn color_pairs(params: &Vec<Vec<u8>>) -> (r: Vec<Action>)
    requires
        params@.len() > 1,
        params@.len() % 2 == 1,
    ensures
        views(r@) == color_pair_actions(byte_strings(params@), (params@.len() - 1) / 2),
{
    let ghost ps = byte_strings(params@);
    let pairs = (params.len() - 1) / 2;
    let mut out = none();
    let mut k: usize = 0;
    assert(2 * pairs + 1 == params@.len());
    while k < pairs
        invariant
            pairs == (params@.len() - 1) / 2,
            2 * pairs + 1 == params@.len(),
            params@.len() <= usize::MAX,
            ps == byte_strings(params@),
            0 <= k <= pairs,
            views(out@) == color_pair_actions(ps, k as int),
        decreases pairs - k,
    {
        let index = parse_number(params[2 * k + 1].as_slice());
        let color = parse_rgb_color(params[2 * k + 2].as_slice());
        assert(ps[2 * k + 1] == params@[2 * k + 1]@);
        assert(ps[2 * k + 2] == params@[2 * k + 2]@);
        match (index, color) {
            (Some(i), Some(c)) => {
                push_action(&mut out, Action::SetColor(i as usize, c));
            },
            _ => {},
        }
        k = k + 1;
    }
    out
}

fn dynamic_colors(params: &Vec<Vec<u8>>, code: u8) -> (r: Vec<Action>)
    requires
        10 <= code <= 12,
    ensures
        views(r@) == dynamic_color_actions(
            byte_strings(params@),
            code as int,
            dynamic_parts(params@.len() as int, code as int),
        ),
{
    let ghost ps = byte_strings(params@);
    let limit: usize = (13 - code) as usize;
    let parts = if params.len() == 0 {
        0
    } else if params.len() - 1 < limit {
        params.len() - 1
    } else {
        limit
    };
    assert(params@.len() > 0 ==> parts == dynamic_parts(params@.len() as int, code as int));
    let mut out = none();
    let mut k: usize = 0;
    while k < parts
        invariant
            parts <= limit,
            limit == 13 - code,
            parts < params@.len() || parts == 0,
            ps == byte_strings(params@),
            0 <= k <= parts,
            views(out@) == dynamic_color_actions(ps, code as int, k as int),
        decreases parts - k,
    {
        let current = code + k as u8;
        let index: usize = 256 + (current as usize) - 10;
        let param = params[k + 1].as_slice();
        assert(ps[k + 1] == params@[k + 1]@);
        match parse_rgb_color(param) {
            Some(c) => {
                push_action(&mut out, Action::SetColor(index, c));
            },
            None => {
                if is_one(param, 0x3f) {
                    push_action(&mut out, Action::DynamicColorSequence(current, index));
                }
            },
        }
        k = k + 1;
    }
    out
}

fn reset_list(params: &Vec<Vec<u8>>) -> (r: Vec<Action>)
    requires
        params@.len() > 0,
    ensures
        views(r@) == reset_list_actions(byte_strings(params@), params@.len() - 1),
{
    let ghost ps = byte_strings(params@);
    let mut out = none();
    let mut k: usize = 1;
    while k < params.len()
        invariant
            1 <= k <= params@.len(),
            ps == byte_strings(params@),
            views(out@) == reset_list_actions(ps, k - 1),
        decreases params.len() - k,
    {
        assert(ps[k as int] == params@[k as int]@);
        match parse_number(params[k].as_slice()) {
            Some(i) => {
                push_action(&mut out, Action::ResetColor(i as usize));
            },
            None => {},
        }
        k = k + 1;
    }
    out
}

fn reset_all() -> (r: Vec<Action>)
    ensures
        views(r@) == reset_all_actions(),
{
    let mut out = none();
    let mut i: usize = 0;
    while i < 256
        invariant
            0 <= i <= 256,
            views(out@) =~= reset_all_actions().take(i as int),
        decreases 256 - i,
    {
        push_action(&mut out, Action::ResetColor(i));
        i = i + 1;
    }
    out
}

fn cursor_shape(p: &[u8]) -> (r: Vec<Action>)
    ensures
        views(r@) == cursor_shape_actions(p@),
{
    if !has_cursor_shape_key(p) {
        return none();
    }
    match p[12] {
        0x30 => single(Action::SetCursorStyle(Some(CursorStyle::Block))),
        0x31 => single(Action::SetCursorStyle(Some(CursorStyle::Beam))),
        0x32 => single(Action::SetCursorStyle(Some(CursorStyle::Underline))),
        _ => none(),
    }
}

fn clipboard(p: &[u8]) -> (r: Vec<Action>)
    requires
        p@.len() <= usize::MAX / 4,
    ensures
        views(r@) == clipboard_actions(p@),
{
    if is_one(p, 0x3f) {
        return none();
    }
    match base64_decode(p) {
        Ok(bytes) => match utf8_text(bytes.as_slice()) {
            Some(text) => single(Action::SetClipboard(text)),
            None => none(),
        },
        Err(_) => none(),
    }
}

impl ProcessorState {
    /// An operating system command, its payload split at `;`.
    pub fn osc_dispatch(&self, params: &Vec<Vec<u8>>) -> (r: Vec<Action>)
        requires
            forall|i: int| 0 <= i < params@.len() ==> (#[trigger] params@[i])@.len() <= usize::MAX / 4,
        ensures
            views(r@) == osc_actions(byte_strings(params@)),
    {
        let ghost ps = byte_strings(params@);
        if params.len() == 0 || params[0].len() == 0 {
            return none();
        }
        let code = params[0].as_slice();
        assert(ps[0] == params@[0]@);
        if is_one(code, 0x30) || is_one(code, 0x32) {
            if params.len() >= 2 {
                assert(ps[1] == params@[1]@);
                match utf8_text(params[1].as_slice()) {
                    Some(title) => single(Action::SetTitle(title)),
                    None => none(),
                }
            } else {
                none()
            }
        } else if is_one(code, 0x34) {
            if params.len() > 1 && params.len() % 2 == 1 {
                color_pairs(params)
            } else {
                none()
            }
        } else if is_two(code, 0x31, 0x30) {
            dynamic_colors(params, 10)
        } else if is_two(code, 0x31, 0x31) {
            dynamic_colors(params, 11)
        } else if is_two(code, 0x31, 0x32) {
            dynamic_colors(params, 12)
        } else if is_two(code, 0x35, 0x30) {
            if params.len() >= 2 {
                assert(ps[1] == params@[1]@);
                cursor_shape(params[1].as_slice())
            } else {
                none()
            }
        } else if is_two(code, 0x35, 0x32) {
            if params.len() >= 3 {
                assert(ps[2] == params@[2]@);
                clipboard(params[2].as_slice())
            } else {
                none()
            }
        } else if is_three(code, 0x31, 0x30, 0x34) {
            if params.len() == 1 {
                reset_all()
            } else {
                reset_list(params)
            }
        } else if is_three(code, 0x31, 0x31, 0x30) {
            single(Action::ResetColor(256))
        } else if is_three(code, 0x31, 0x31, 0x31) {
            single(Action::ResetColor(257))
        } else if is_three(code, 0x31, 0x31, 0x32) {
            single(Action::ResetColor(258))
        } else {
            none()
        }
    }
}

} // verus!
