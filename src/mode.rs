//! Terminal modes, cursor shapes, clearing modes and character sets.
use vstd::prelude::*;

verus! {

/// Describes shape of cursor
#[derive(Debug, Clone, Copy, PartialEq, Eq, Structural, Hash)]
pub enum CursorStyle {
    /// Cursor is a block like `▒`
    Block,
    /// Cursor is an underscore like `_`
    Underline,
    /// Cursor is a vertical bar `⎸`
    Beam,
    /// Cursor is a box like `☐`
    HollowBlock,
    /// Invisible cursor
    Hidden,
}

impl Default for CursorStyle {
    fn default() -> (r: CursorStyle)
        ensures
            r == CursorStyle::Block,
    {
        CursorStyle::Block
    }
}

/// Terminal modes that `CSI h` sets and `CSI l` resets.
#[derive(Debug, Clone, Copy, PartialEq, Eq, Structural)]
pub enum Mode {
    /// ?1
    CursorKeys,
    /// ?3: select 80 or 132 columns per page
    DECCOLM,
    /// 4: insert mode
    Insert,
    /// ?6
    Origin,
    /// ?7
    LineWrap,
    /// ?12
    BlinkingCursor,
    /// 20
    LineFeedNewLine,
    /// ?25
    ShowCursor,
    /// ?1000
    ReportMouseClicks,
    /// ?1002
    ReportCellMouseMotion,
    /// ?1003
    ReportAllMouseMotion,
    /// ?1004
    ReportFocusInOut,
    /// ?1006
    SgrMouse,
    /// ?1049
    SwapScreenAndSetRestoreCursor,
    /// ?2004
    BracketedPaste,
}

/// The number that selects a mode.
pub open spec fn mode_number(m: Mode) -> i64 {
    match m {
        Mode::CursorKeys => 1,
        Mode::DECCOLM => 3,
        Mode::Insert => 4,
        Mode::Origin => 6,
        Mode::LineWrap => 7,
        Mode::BlinkingCursor => 12,
        Mode::LineFeedNewLine => 20,
        Mode::ShowCursor => 25,
        Mode::ReportMouseClicks => 1000,
        Mode::ReportCellMouseMotion => 1002,
        Mode::ReportAllMouseMotion => 1003,
        Mode::ReportFocusInOut => 1004,
        Mode::SgrMouse => 1006,
        Mode::SwapScreenAndSetRestoreCursor => 1049,
        Mode::BracketedPaste => 2004,
    }
}

/// Whether a mode is a private (DEC, `CSI ?`) mode.
pub open spec fn mode_is_private(m: Mode) -> bool {
    !(m == Mode::Insert || m == Mode::LineFeedNewLine)
}

/// The mode of a number, in the private or the public set.
pub open spec fn mode_of(private: bool, num: i64) -> Option<Mode> {
    if private {
        if num == 1 { Some(Mode::CursorKeys) }
        else if num == 3 { Some(Mode::DECCOLM) }
        else if num == 6 { Some(Mode::Origin) }
        else if num == 7 { Some(Mode::LineWrap) }
        else if num == 12 { Some(Mode::BlinkingCursor) }
        else if num == 25 { Some(Mode::ShowCursor) }
        else if num == 1000 { Some(Mode::ReportMouseClicks) }
        else if num == 1002 { Some(Mode::ReportCellMouseMotion) }
        else if num == 1003 { Some(Mode::ReportAllMouseMotion) }
        else if num == 1004 { Some(Mode::ReportFocusInOut) }
        else if num == 1006 { Some(Mode::SgrMouse) }
        else if num == 1049 { Some(Mode::SwapScreenAndSetRestoreCursor) }
        else if num == 2004 { Some(Mode::BracketedPaste) }
        else { None }
    } else {
        if num == 4 { Some(Mode::Insert) }
        else if num == 20 { Some(Mode::LineFeedNewLine) }
        else { None }
    }
}

impl Mode {
    /// The mode of the given number, in the private or the public set.
    pub fn from_primitive(private: bool, num: i64) -> (r: Option<Mode>)
        ensures
            r == mode_of(private, num),
            match r {
                Some(m) => mode_number(m) == num && mode_is_private(m) == private,
                None => forall|m: Mode|
                    !(#[trigger] mode_number(m) == num && mode_is_private(m) == private),
            },
    {
        if private {
            match num {
                1 => Some(Mode::CursorKeys),
                3 => Some(Mode::DECCOLM),
                6 => Some(Mode::Origin),
                7 => Some(Mode::LineWrap),
                12 => Some(Mode::BlinkingCursor),
                25 => Some(Mode::ShowCursor),
                1000 => Some(Mode::ReportMouseClicks),
                1002 => Some(Mode::ReportCellMouseMotion),
                1003 => Some(Mode::ReportAllMouseMotion),
                1004 => Some(Mode::ReportFocusInOut),
                1006 => Some(Mode::SgrMouse),
                1049 => Some(Mode::SwapScreenAndSetRestoreCursor),
                2004 => Some(Mode::BracketedPaste),
                _ => None,
            }
        } else {
            match num {
                4 => Some(Mode::Insert),
                20 => Some(Mode::LineFeedNewLine),
                _ => None,
            }
        }
    }
}

/// Mode for clearing line, relative to cursor
#[derive(Debug, Clone, Copy, PartialEq, Eq, Structural)]
pub enum LineClearMode {
    /// Clear right of cursor
    Right,
    /// Clear left of cursor
    Left,
    /// Clear entire line
    All,
}

/// Mode for clearing terminal, relative to cursor
#[derive(Debug, Clone, Copy, PartialEq, Eq, Structural)]
pub enum ClearMode {
    /// Clear below cursor
    Below,
    /// Clear above cursor
    Above,
    /// Clear entire terminal
    All,
    /// Clear 'saved' lines (scrollback)
    Saved,
}

/// Mode for clearing tab stops
#[derive(Debug, Clone, Copy, PartialEq, Eq, Structural)]
pub enum TabulationClearMode {
    /// Clear stop under cursor
    Current,
    /// Clear all stops
    All,
}

/// Identifiers which can be assigned to a graphic character set
#[derive(Debug, Clone, Copy, PartialEq, Eq, Structural)]
pub enum CharsetIndex {
    /// Default set, is designated as ASCII at startup
    G0,
    G1,
    G2,
    G3,
}

impl Default for CharsetIndex {
    fn default() -> (r: CharsetIndex)
        ensures
            r == CharsetIndex::G0,
    {
        CharsetIndex::G0
    }
}

/// Standard or common character sets which can be designated as G0-G3
#[derive(Debug, Clone, Copy, PartialEq, Eq, Structural)]
pub enum StandardCharset {
    Ascii,
    SpecialCharacterAndLineDrawing,
}

impl Default for StandardCharset {
    fn default() -> (r: StandardCharset)
        ensures
            r == StandardCharset::Ascii,
    {
        StandardCharset::Ascii
    }
}

} // verus!
