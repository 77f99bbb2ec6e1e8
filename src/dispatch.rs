//! The dispatcher: interprets the events of the byte classifier (printed
//! characters, control bytes, ESC and CSI sequences) as terminal actions.
use vstd::prelude::*;

use crate::action::{views, Action, ActionView};
use crate::attr::{attrs_from_sgr_parameters, sgr_attrs, Attr};
use crate::c0;
use crate::c1;
use crate::mode::{
    mode_of, CharsetIndex, ClearMode, CursorStyle, LineClearMode, Mode, StandardCharset,
    TabulationClearMode,
};

verus! {

/// The `idx`-th parameter, or `default` where it is missing or zero.
pub open spec fn arg_or(args: Seq<i64>, idx: int, default: i64) -> i64 {
    if 0 <= idx < args.len() && args[idx] != 0 {
        args[idx]
    } else {
        default
    }
}

/// A count parameter: the first one, 1 by default.
pub open spec fn count_arg(args: Seq<i64>) -> usize {
    arg_or(args, 0, 1) as usize
}

/// A one-based position parameter, made zero-based.
pub open spec fn position_arg(args: Seq<i64>, idx: int) -> usize {
    (arg_or(args, idx, 1) as usize).wrapping_sub(1)
}

/// What a C0 or C1 control byte does.
pub open spec fn execute_actions(byte: u8) -> Seq<ActionView> {
    if byte == c0::HT {
        seq![ActionView::PutTab(1)]
    } else if byte == c0::BS {
        seq![ActionView::Backspace]
    } else if byte == c0::CR {
        seq![ActionView::CarriageReturn]
    } else if byte == c0::LF || byte == c0::VT || byte == c0::FF {
        seq![ActionView::Linefeed]
    } else if byte == c0::BEL {
        seq![ActionView::Bell]
    } else if byte == c0::SUB {
        seq![ActionView::Substitute]
    } else if byte == c0::SI {
        seq![ActionView::SetActiveCharset(CharsetIndex::G0)]
    } else if byte == c0::SO {
        seq![ActionView::SetActiveCharset(CharsetIndex::G1)]
    } else if byte == c1::NEL {
        seq![ActionView::Newline]
    } else if byte == c1::HTS {
        seq![ActionView::SetHorizontalTabstop]
    } else if byte == c1::DECID {
        seq![ActionView::IdentifyTerminal]
    } else {
        Seq::empty()
    }
}

/// The character set slot that the first intermediate byte of a designation
/// names: `(`, `)`, `*` and `+` for G0 to G3.
pub open spec fn designated_index(intermediates: Seq<u8>) -> Option<CharsetIndex> {
    if intermediates.len() == 0 {
        None
    } else if intermediates[0] == 0x28 {
        Some(CharsetIndex::G0)
    } else if intermediates[0] == 0x29 {
        Some(CharsetIndex::G1)
    } else if intermediates[0] == 0x2a {
        Some(CharsetIndex::G2)
    } else if intermediates[0] == 0x2b {
        Some(CharsetIndex::G3)
    } else {
        None
    }
}

/// Designating a character set into the slot that the intermediates name.
pub open spec fn designate_actions(intermediates: Seq<u8>, charset: StandardCharset) -> Seq<ActionView> {
    match designated_index(intermediates) {
        Some(index) => seq![ActionView::ConfigureCharset(index, charset)],
        None => Seq::empty(),
    }
}

/// What an escape sequence (other than CSI, OSC and DCS) does.
pub open spec fn esc_actions(intermediates: Seq<u8>, byte: u8) -> Seq<ActionView> {
    if byte == 0x42 {
        designate_actions(intermediates, StandardCharset::Ascii)
    } else if byte == 0x30 {
        designate_actions(intermediates, StandardCharset::SpecialCharacterAndLineDrawing)
    } else if byte == 0x44 {
        seq![ActionView::Linefeed]
    } else if byte == 0x45 {
        seq![ActionView::Linefeed, ActionView::CarriageReturn]
    } else if byte == 0x48 {
        seq![ActionView::SetHorizontalTabstop]
    } else if byte == 0x4d {
        seq![ActionView::ReverseIndex]
    } else if byte == 0x5a {
        seq![ActionView::IdentifyTerminal]
    } else if byte == 0x63 {
        seq![ActionView::ResetState]
    } else if byte == 0x37 {
        seq![ActionView::SaveCursorPosition]
    } else if byte == 0x38 {
        if intermediates.len() > 0 && intermediates[0] == 0x23 {
            seq![ActionView::Dectest]
        } else {
            seq![ActionView::RestoreCursorPosition]
        }
    } else if byte == 0x3d {
        seq![ActionView::SetKeypadApplicationMode]
    } else if byte == 0x3e {
        seq![ActionView::UnsetKeypadApplicationMode]
    } else {
        Seq::empty()
    }
}

/// Setting (or unsetting) each known mode of the list, in order; unknown
/// numbers are passed over.
pub open spec fn mode_actions(args: Seq<i64>, private: bool, set: bool) -> Seq<ActionView>
    decreases args.len(),
{
    if args.len() == 0 {
        Seq::empty()
    } else {
        mode_actions(args.drop_last(), private, set) + match mode_of(private, args.last()) {
            Some(m) => seq![if set { ActionView::SetMode(m) } else { ActionView::UnsetMode(m) }],
            None => Seq::empty(),
        }
    }
}

/// Applying each decoded attribute, in order; codes that set nothing are
/// passed over.
pub open spec fn attr_actions(attrs: Seq<Option<Attr>>) -> Seq<ActionView>
    decreases attrs.len(),
{
    if attrs.len() == 0 {
        Seq::empty()
    } else {
        attr_actions(attrs.drop_last()) + match attrs.last() {
            Some(a) => seq![ActionView::TerminalAttribute(a)],
            None => Seq::empty(),
        }
    }
}

/// What `CSI ... m` does: an empty list resets the attributes.
pub open spec fn sgr_actions(args: Seq<i64>) -> Seq<ActionView> {
    if args.len() == 0 {
        seq![ActionView::TerminalAttribute(Attr::Reset)]
    } else {
        attr_actions(sgr_attrs(args))
    }
}

/// What `CSI Ps SP q` does.
pub open spec fn cursor_style_actions(n: i64) -> Seq<ActionView> {
    if n == 0 {
        seq![ActionView::SetCursorStyle(None)]
    } else if n == 1 || n == 2 {
        seq![ActionView::SetCursorStyle(Some(CursorStyle::Block))]
    } else if n == 3 || n == 4 {
        seq![ActionView::SetCursorStyle(Some(CursorStyle::Underline))]
    } else if n == 5 || n == 6 {
        seq![ActionView::SetCursorStyle(Some(CursorStyle::Beam))]
    } else {
        Seq::empty()
    }
}

/// What `CSI Ps b` does: repeat the preceding printed character, if any.
pub open spec fn repeat_actions(preceding: Option<char>, args: Seq<i64>) -> Seq<ActionView> {
    match preceding {
        Some(c) => if arg_or(args, 0, 1) > 0 {
            seq![ActionView::Repeat(c, arg_or(args, 0, 1) as u64)]
        } else {
            Seq::empty()
        },
        None => Seq::empty(),
    }
}

/// What a CSI sequence with one intermediate byte does.
pub open spec fn csi_marked_actions(args: Seq<i64>, mark: u8, action: char) -> Seq<ActionView> {
    if mark == 0x3f && action == 'h' {
        mode_actions(args, true, true)
    } else if mark == 0x3f && action == 'l' {
        mode_actions(args, true, false)
    } else if mark == 0x20 && action == 'q' {
        cursor_style_actions(arg_or(args, 0, 0))
    } else {
        Seq::empty()
    }
}

/// What a CSI sequence without intermediate bytes does.
pub open spec fn csi_plain_actions(
    preceding: Option<char>,
    args: Seq<i64>,
    action: char,
    lines: usize,
) -> Seq<ActionView> {
    let n = count_arg(args);
    if action == '@' {
        seq![ActionView::InsertBlank(n)]
    } else if action == 'A' {
        seq![ActionView::MoveUp(n)]
    } else if action == 'b' {
        repeat_actions(preceding, args)
    } else if action == 'B' || action == 'e' {
        seq![ActionView::MoveDown(n)]
    } else if action == 'c' {
        seq![ActionView::IdentifyTerminal]
    } else if action == 'C' || action == 'a' {
        seq![ActionView::MoveForward(n)]
    } else if action == 'D' {
        seq![ActionView::MoveBackward(n)]
    } else if action == 'E' {
        seq![ActionView::MoveDownAndCr(n)]
    } else if action == 'F' {
        seq![ActionView::MoveUpAndCr(n)]
    } else if action == 'g' {
        let m = arg_or(args, 0, 0);
        if m == 0 {
            seq![ActionView::ClearTabs(TabulationClearMode::Current)]
        } else if m == 3 {
            seq![ActionView::ClearTabs(TabulationClearMode::All)]
        } else {
            Seq::empty()
        }
    } else if action == 'G' || action == '`' {
        seq![ActionView::GotoCol(position_arg(args, 0))]
    } else if action == 'H' || action == 'f' {
        seq![ActionView::Goto(position_arg(args, 0), position_arg(args, 1))]
    } else if action == 'I' {
        seq![ActionView::MoveForwardTabs(arg_or(args, 0, 1))]
    } else if action == 'J' {
        let m = arg_or(args, 0, 0);
        if m == 0 {
            seq![ActionView::ClearScreen(ClearMode::Below)]
        } else if m == 1 {
            seq![ActionView::ClearScreen(ClearMode::Above)]
        } else if m == 2 {
            seq![ActionView::ClearScreen(ClearMode::All)]
        } else if m == 3 {
            seq![ActionView::ClearScreen(ClearMode::Saved)]
        } else {
            Seq::empty()
        }
    } else if action == 'K' {
        let m = arg_or(args, 0, 0);
        if m == 0 {
            seq![ActionView::ClearLine(LineClearMode::Right)]
        } else if m == 1 {
            seq![ActionView::ClearLine(LineClearMode::Left)]
        } else if m == 2 {
            seq![ActionView::ClearLine(LineClearMode::All)]
        } else {
            Seq::empty()
        }
    } else if action == 'S' {
        seq![ActionView::ScrollUp(n)]
    } else if action == 'T' {
        seq![ActionView::ScrollDown(n)]
    } else if action == 'L' {
        seq![ActionView::InsertBlankLines(n)]
    } else if action == 'h' {
        mode_actions(args, false, true)
    } else if action == 'l' {
        mode_actions(args, false, false)
    } else if action == 'M' {
        seq![ActionView::DeleteLines(n)]
    } else if action == 'X' {
        seq![ActionView::EraseChars(n)]
    } else if action == 'P' {
        seq![ActionView::DeleteChars(n)]
    } else if action == 'Z' {
        seq![ActionView::MoveBackwardTabs(arg_or(args, 0, 1))]
    } else if action == 'd' {
        seq![ActionView::GotoLine(position_arg(args, 0))]
    } else if action == 'm' {
        sgr_actions(args)
    } else if action == 'n' {
        seq![ActionView::DeviceStatus(arg_or(args, 0, 0) as usize)]
    } else if action == 'r' {
        seq![ActionView::SetScrollingRegion(position_arg(args, 0), arg_or(args, 1, lines as i64) as usize)]
    } else if action == 's' {
        seq![ActionView::SaveCursorPosition]
    } else if action == 'u' {
        seq![ActionView::RestoreCursorPosition]
    } else {
        Seq::empty()
    }
}

/// What a CSI sequence does. One with bytes that the classifier had to drop,
/// or with more than one intermediate byte, does nothing. `lines` is the
/// height of the screen, the default end of the scrolling region.
pub open spec fn csi_actions(
    preceding: Option<char>,
    args: Seq<i64>,
    intermediates: Seq<u8>,
    ignore: bool,
    action: char,
    lines: usize,
) -> Seq<ActionView> {
    if ignore || intermediates.len() > 1 {
        Seq::empty()
    } else if intermediates.len() == 1 {
        csi_marked_actions(args, intermediates[0], action)
    } else {
        csi_plain_actions(preceding, args, action, lines)
    }
}

pub(crate) fn push_action(out: &mut Vec<Action>, a: Action)
    ensures
        views(final(out)@) == views(old(out)@).push(a@),
{
    let ghost v = a@;
    out.push(a);
    assert(views(out@) =~= views(old(out)@).push(v));
}

pub(crate) fn single(a: Action) -> (r: Vec<Action>)
    ensures
        views(r@) == seq![a@],
{
    let mut out: Vec<Action> = Vec::new();
    assert(views(out@) =~= Seq::<ActionView>::empty());
    push_action(&mut out, a);
    out
}

pub(crate) fn none() -> (r: Vec<Action>)
    ensures
        views(r@) == Seq::<ActionView>::empty(),
{
    let out: Vec<Action> = Vec::new();
    assert(views(out@) =~= Seq::<ActionView>::empty());
    out
}

fn arg_or_default(args: &[i64], idx: usize, default: i64) -> (r: i64)
    ensures
        r == arg_or(args@, idx as int, default),
{
    if idx < args.len() && args[idx] != 0 {
        args[idx]
    } else {
        default
    }
}

fn count(args: &[i64]) -> (r: usize)
    ensures
        r == count_arg(args@),
{
    arg_or_default(args, 0, 1) as usize
}

fn position(args: &[i64], idx: usize) -> (r: usize)
    ensures
        r == position_arg(args@, idx as int),
{
    (arg_or_default(args, idx, 1) as usize).wrapping_sub(1)
}

fn mode_changes(args: &[i64], private: bool, set: bool) -> (r: Vec<Action>)
    ensures
        views(r@) == mode_actions(args@, private, set),
{
    let mut out = none();
    let mut i: usize = 0;
    assert(args@.take(0) =~= Seq::<i64>::empty());
    while i < args.len()
        invariant
            0 <= i <= args@.len(),
            views(out@) == mode_actions(args@.take(i as int), private, set),
        decreases args.len() - i,
    {
        assert(args@.take(i as int + 1).drop_last() =~= args@.take(i as int));
        match Mode::from_primitive(private, args[i]) {
            Some(m) => {
                push_action(&mut out, if set { Action::SetMode(m) } else { Action::UnsetMode(m) });
            },
            None => {},
        }
        i = i + 1;
    }
    assert(args@.take(args@.len() as int) =~= args@);
    out
}

fn sgr(args: &[i64]) -> (r: Vec<Action>)
    ensures
        views(r@) == sgr_actions(args@),
{
    if args.len() == 0 {
        return single(Action::TerminalAttribute(Attr::Reset));
    }
    let attrs = attrs_from_sgr_parameters(args);
    let mut out = none();
    let mut i: usize = 0;
    assert(attrs@.take(0) =~= Seq::<Option<Attr>>::empty());
    while i < attrs.len()
        invariant
            0 <= i <= attrs@.len(),
            views(out@) == attr_actions(attrs@.take(i as int)),
        decreases attrs.len() - i,
    {
        assert(attrs@.take(i as int + 1).drop_last() =~= attrs@.take(i as int));
        match attrs[i] {
            Some(a) => {
                push_action(&mut out, Action::TerminalAttribute(a));
            },
            None => {},
        }
        i = i + 1;
    }
    assert(attrs@.take(attrs@.len() as int) =~= attrs@);
    out
}

fn cursor_style(n: i64) -> (r: Vec<Action>)
    ensures
        views(r@) == cursor_style_actions(n),
{
    match n {
        0 => single(Action::SetCursorStyle(None)),
        1 | 2 => single(Action::SetCursorStyle(Some(CursorStyle::Block))),
        3 | 4 => single(Action::SetCursorStyle(Some(CursorStyle::Underline))),
        5 | 6 => single(Action::SetCursorStyle(Some(CursorStyle::Beam))),
        _ => none(),
    }
}

fn designate(intermediates: &[u8], charset: StandardCharset) -> (r: Vec<Action>)
    ensures
        views(r@) == designate_actions(intermediates@, charset),
{
    if intermediates.len() == 0 {
        return none();
    }
    let index = match intermediates[0] {
        0x28 => CharsetIndex::G0,
        0x29 => CharsetIndex::G1,
        0x2a => CharsetIndex::G2,
        0x2b => CharsetIndex::G3,
        _ => return none(),
    };
    single(Action::ConfigureCharset(index, charset))
}

/// The dispatcher's own state: the last printed character, which `CSI b`
/// repeats.
pub struct ProcessorState {
    pub preceding_char: Option<char>,
}

impl ProcessorState {
    pub fn new() -> (r: ProcessorState)
        ensures
            r.preceding_char is None,
    {
        ProcessorState { preceding_char: None }
    }

    /// A printable character: displayed, and remembered for `CSI b`.
    pub fn print(&mut self, c: char) -> (r: Vec<Action>)
        ensures
            views(r@) == seq![ActionView::Input(c)],
            final(self).preceding_char == Some(c),
    {
        self.preceding_char = Some(c);
        single(Action::Input(c))
    }

    /// A C0 or C1 control byte.
    pub fn execute(&self, byte: u8) -> (r: Vec<Action>)
        ensures
            views(r@) == execute_actions(byte),
    {
        match byte {
            c0::HT => single(Action::PutTab(1)),
            c0::BS => single(Action::Backspace),
            c0::CR => single(Action::CarriageReturn),
            c0::LF | c0::VT | c0::FF => single(Action::Linefeed),
            c0::BEL => single(Action::Bell),
            c0::SUB => single(Action::Substitute),
            c0::SI => single(Action::SetActiveCharset(CharsetIndex::G0)),
            c0::SO => single(Action::SetActiveCharset(CharsetIndex::G1)),
            c1::NEL => single(Action::Newline),
            c1::HTS => single(Action::SetHorizontalTabstop),
            c1::DECID => single(Action::IdentifyTerminal),
            _ => none(),
        }
    }

    /// An escape sequence with its intermediate bytes and final byte. A full
    /// reset (`ESC c`) also forgets the preceding character.
    pub fn esc_dispatch(&mut self, intermediates: &[u8], byte: u8) -> (r: Vec<Action>)
        ensures
            views(r@) == esc_actions(intermediates@, byte),
            final(self).preceding_char == (if byte == 0x63 {
                None
            } else {
                old(self).preceding_char
            }),
    {
        match byte {
            0x42 => designate(intermediates, StandardCharset::Ascii),
            0x30 => designate(intermediates, StandardCharset::SpecialCharacterAndLineDrawing),
            0x44 => single(Action::Linefeed),
            0x45 => {
                let mut out = single(Action::Linefeed);
                push_action(&mut out, Action::CarriageReturn);
                out
            },
            0x48 => single(Action::SetHorizontalTabstop),
            0x4d => single(Action::ReverseIndex),
            0x5a => single(Action::IdentifyTerminal),
            0x63 => {
                self.preceding_char = None;
                single(Action::ResetState)
            },
            0x37 => single(Action::SaveCursorPosition),
            0x38 => {
                if intermediates.len() > 0 && intermediates[0] == 0x23 {
                    single(Action::Dectest)
                } else {
                    single(Action::RestoreCursorPosition)
                }
            },
            0x3d => single(Action::SetKeypadApplicationMode),
            0x3e => single(Action::UnsetKeypadApplicationMode),
            _ => none(),
        }
    }

    /// A control sequence: its parameters, intermediate bytes, whether the
    /// classifier dropped bytes of it, and its final character. `lines` is
    /// the height of the screen.
    pub fn csi_dispatch(
        &self,
        args: &[i64],
        intermediates: &[u8],
        ignore: bool,
        action: char,
        lines: usize,
    ) -> (r: Vec<Action>)
        ensures
            views(r@) == csi_actions(self.preceding_char, args@, intermediates@, ignore, action, lines),
    {
        if ignore || intermediates.len() > 1 {
            return none();
        }
        if intermediates.len() == 1 {
            let mark = intermediates[0];
            if mark == 0x3f && action == 'h' {
                return mode_changes(args, true, true);
            } else if mark == 0x3f && action == 'l' {
                return mode_changes(args, true, false);
            } else if mark == 0x20 && action == 'q' {
                return cursor_style(arg_or_default(args, 0, 0));
            } else {
                return none();
            }
        }
        match action {
            '@' => single(Action::InsertBlank(count(args))),
            'A' => single(Action::MoveUp(count(args))),
            'b' => match self.preceding_char {
                Some(c) => {
                    let n = arg_or_default(args, 0, 1);
                    if n > 0 {
                        single(Action::Repeat(c, n as u64))
                    } else {
                        none()
                    }
                },
                None => none(),
            },
            'B' | 'e' => single(Action::MoveDown(count(args))),
            'c' => single(Action::IdentifyTerminal),
            'C' | 'a' => single(Action::MoveForward(count(args))),
            'D' => single(Action::MoveBackward(count(args))),
            'E' => single(Action::MoveDownAndCr(count(args))),
            'F' => single(Action::MoveUpAndCr(count(args))),
            'g' => match arg_or_default(args, 0, 0) {
                0 => single(Action::ClearTabs(TabulationClearMode::Current)),
                3 => single(Action::ClearTabs(TabulationClearMode::All)),
                _ => none(),
            },
            'G' | '`' => single(Action::GotoCol(position(args, 0))),
            'H' | 'f' => single(Action::Goto(position(args, 0), position(args, 1))),
            'I' => single(Action::MoveForwardTabs(arg_or_default(args, 0, 1))),
            'J' => match arg_or_default(args, 0, 0) {
                0 => single(Action::ClearScreen(ClearMode::Below)),
                1 => single(Action::ClearScreen(ClearMode::Above)),
                2 => single(Action::ClearScreen(ClearMode::All)),
                3 => single(Action::ClearScreen(ClearMode::Saved)),
                _ => none(),
            },
            'K' => match arg_or_default(args, 0, 0) {
                0 => single(Action::ClearLine(LineClearMode::Right)),
                1 => single(Action::ClearLine(LineClearMode::Left)),
                2 => single(Action::ClearLine(LineClearMode::All)),
                _ => none(),
            },
            'S' => single(Action::ScrollUp(count(args))),
            'T' => single(Action::ScrollDown(count(args))),
            'L' => single(Action::InsertBlankLines(count(args))),
            'h' => mode_changes(args, false, true),
            'l' => mode_changes(args, false, false),
            'M' => single(Action::DeleteLines(count(args))),
            'X' => single(Action::EraseChars(count(args))),
            'P' => single(Action::DeleteChars(count(args))),
            'Z' => single(Action::MoveBackwardTabs(arg_or_default(args, 0, 1))),
            'd' => single(Action::GotoLine(position(args, 0))),
            'm' => sgr(args),
            'n' => single(Action::DeviceStatus(arg_or_default(args, 0, 0) as usize)),
            'r' => {
                let top = position(args, 0);
                let bottom = arg_or_default(args, 1, lines as i64) as usize;
                single(Action::SetScrollingRegion(top, bottom))
            },
            's' => single(Action::SaveCursorPosition),
            'u' => single(Action::RestoreCursorPosition),
            _ => none(),
        }
    }
}

} // verus!
