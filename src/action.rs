//! The terminal actions that the dispatcher emits, in the order in which a
//! handler should perform them.
use vstd::prelude::*;

use crate::attr::Attr;
use crate::color::Rgb;
use crate::mode::{CharsetIndex, ClearMode, CursorStyle, LineClearMode, Mode, StandardCharset,
    TabulationClearMode};

verus! {

/// One call on a terminal handler.
#[derive(Debug, Clone, PartialEq, Eq)]
pub enum Action {
    /// The window title
    SetTitle(String),
    /// The cursor style; `None` restores the default
    SetCursorStyle(Option<CursorStyle>),
    /// A character to be displayed
    Input(char),
    /// `input` of the character, the given number of times
    Repeat(char, u64),
    /// Move the cursor to a line and a column
    Goto(usize, usize),
    /// Move the cursor to a line
    GotoLine(usize),
    /// Move the cursor to a column
    GotoCol(usize),
    /// Insert blank characters at the cursor
    InsertBlank(usize),
    /// Move the cursor up
    MoveUp(usize),
    /// Move the cursor down
    MoveDown(usize),
    /// Answer with the terminal's identification
    IdentifyTerminal,
    /// Report device status
    DeviceStatus(usize),
    /// Move the cursor forward
    MoveForward(usize),
    /// Move the cursor backward
    MoveBackward(usize),
    /// Move the cursor down and to the first column
    MoveDownAndCr(usize),
    /// Move the cursor up and to the first column
    MoveUpAndCr(usize),
    /// Put tabs
    PutTab(i64),
    /// Backspace
    Backspace,
    /// Carriage return
    CarriageReturn,
    /// Linefeed
    Linefeed,
    /// Ring the bell
    Bell,
    /// Substitute the character under the cursor
    Substitute,
    /// Newline
    Newline,
    /// Set a tab stop at the cursor
    SetHorizontalTabstop,
    /// Scroll up
    ScrollUp(usize),
    /// Scroll down
    ScrollDown(usize),
    /// Insert blank lines
    InsertBlankLines(usize),
    /// Delete lines
    DeleteLines(usize),
    /// Erase characters after the cursor
    EraseChars(usize),
    /// Delete characters
    DeleteChars(usize),
    /// Move backward by tab stops
    MoveBackwardTabs(i64),
    /// Move forward by tab stops
    MoveForwardTabs(i64),
    /// Save the cursor position
    SaveCursorPosition,
    /// Restore the cursor position
    RestoreCursorPosition,
    /// Clear the current line
    ClearLine(LineClearMode),
    /// Clear the screen
    ClearScreen(ClearMode),
    /// Clear tab stops
    ClearTabs(TabulationClearMode),
    /// Reset the terminal state
    ResetState,
    /// Reverse index
    ReverseIndex,
    /// Set a character attribute
    TerminalAttribute(Attr),
    /// Set a mode
    SetMode(Mode),
    /// Unset a mode
    UnsetMode(Mode),
    /// Set the scrolling region: first line, and the line after the last
    SetScrollingRegion(usize, usize),
    /// Keypad to application mode
    SetKeypadApplicationMode,
    /// Keypad to numeric mode
    UnsetKeypadApplicationMode,
    /// Invoke a character set
    SetActiveCharset(CharsetIndex),
    /// Designate a character set
    ConfigureCharset(CharsetIndex, StandardCharset),
    /// Set a color of the color list
    SetColor(usize, Rgb),
    /// Answer with the current value of a dynamic color
    DynamicColorSequence(u8, usize),
    /// Reset a color of the color list
    ResetColor(usize),
    /// Set the clipboard
    SetClipboard(String),
    /// Run the screen alignment test
    Dectest,
}

/// What an [`Action`] stands for, with its text as a sequence of characters.
pub enum ActionView {
    SetTitle(Seq<char>),
    SetCursorStyle(Option<CursorStyle>),
    Input(char),
    Repeat(char, u64),
    Goto(usize, usize),
    GotoLine(usize),
    GotoCol(usize),
    InsertBlank(usize),
    MoveUp(usize),
    MoveDown(usize),
    IdentifyTerminal,
    DeviceStatus(usize),
    MoveForward(usize),
    MoveBackward(usize),
    MoveDownAndCr(usize),
    MoveUpAndCr(usize),
    PutTab(i64),
    Backspace,
    CarriageReturn,
    Linefeed,
    Bell,
    Substitute,
    Newline,
    SetHorizontalTabstop,
    ScrollUp(usize),
    ScrollDown(usize),
    InsertBlankLines(usize),
    DeleteLines(usize),
    EraseChars(usize),
    DeleteChars(usize),
    MoveBackwardTabs(i64),
    MoveForwardTabs(i64),
    SaveCursorPosition,
    RestoreCursorPosition,
    ClearLine(LineClearMode),
    ClearScreen(ClearMode),
    ClearTabs(TabulationClearMode),
    ResetState,
    ReverseIndex,
    TerminalAttribute(Attr),
    SetMode(Mode),
    UnsetMode(Mode),
    SetScrollingRegion(usize, usize),
    SetKeypadApplicationMode,
    UnsetKeypadApplicationMode,
    SetActiveCharset(CharsetIndex),
    ConfigureCharset(CharsetIndex, StandardCharset),
    SetColor(usize, Rgb),
    DynamicColorSequence(u8, usize),
    ResetColor(usize),
    SetClipboard(Seq<char>),
    Dectest,
}

impl View for Action {
    type V = ActionView;

    open spec fn view(&self) -> ActionView {
        match *self {
            Action::SetTitle(s) => ActionView::SetTitle(s@),
            Action::SetCursorStyle(x0) => ActionView::SetCursorStyle(x0),
            Action::Input(x0) => ActionView::Input(x0),
            Action::Repeat(x0, x1) => ActionView::Repeat(x0, x1),
            Action::Goto(x0, x1) => ActionView::Goto(x0, x1),
            Action::GotoLine(x0) => ActionView::GotoLine(x0),
            Action::GotoCol(x0) => ActionView::GotoCol(x0),
            Action::InsertBlank(x0) => ActionView::InsertBlank(x0),
            Action::MoveUp(x0) => ActionView::MoveUp(x0),
            Action::MoveDown(x0) => ActionView::MoveDown(x0),
            Action::IdentifyTerminal => ActionView::IdentifyTerminal,
            Action::DeviceStatus(x0) => ActionView::DeviceStatus(x0),
            Action::MoveForward(x0) => ActionView::MoveForward(x0),
            Action::MoveBackward(x0) => ActionView::MoveBackward(x0),
            Action::MoveDownAndCr(x0) => ActionView::MoveDownAndCr(x0),
            Action::MoveUpAndCr(x0) => ActionView::MoveUpAndCr(x0),
            Action::PutTab(x0) => ActionView::PutTab(x0),
            Action::Backspace => ActionView::Backspace,
            Action::CarriageReturn => ActionView::CarriageReturn,
            Action::Linefeed => ActionView::Linefeed,
            Action::Bell => ActionView::Bell,
            Action::Substitute => ActionView::Substitute,
            Action::Newline => ActionView::Newline,
            Action::SetHorizontalTabstop => ActionView::SetHorizontalTabstop,
            Action::ScrollUp(x0) => ActionView::ScrollUp(x0),
            Action::ScrollDown(x0) => ActionView::ScrollDown(x0),
            Action::InsertBlankLines(x0) => ActionView::InsertBlankLines(x0),
            Action::DeleteLines(x0) => ActionView::DeleteLines(x0),
            Action::EraseChars(x0) => ActionView::EraseChars(x0),
            Action::DeleteChars(x0) => ActionView::DeleteChars(x0),
            Action::MoveBackwardTabs(x0) => ActionView::MoveBackwardTabs(x0),
            Action::MoveForwardTabs(x0) => ActionView::MoveForwardTabs(x0),
            Action::SaveCursorPosition => ActionView::SaveCursorPosition,
            Action::RestoreCursorPosition => ActionView::RestoreCursorPosition,
            Action::ClearLine(x0) => ActionView::ClearLine(x0),
            Action::ClearScreen(x0) => ActionView::ClearScreen(x0),
            Action::ClearTabs(x0) => ActionView::ClearTabs(x0),
            Action::ResetState => ActionView::ResetState,
            Action::ReverseIndex => ActionView::ReverseIndex,
            Action::TerminalAttribute(x0) => ActionView::TerminalAttribute(x0),
            Action::SetMode(x0) => ActionView::SetMode(x0),
            Action::UnsetMode(x0) => ActionView::UnsetMode(x0),
            Action::SetScrollingRegion(x0, x1) => ActionView::SetScrollingRegion(x0, x1),
            Action::SetKeypadApplicationMode => ActionView::SetKeypadApplicationMode,
            Action::UnsetKeypadApplicationMode => ActionView::UnsetKeypadApplicationMode,
            Action::SetActiveCharset(x0) => ActionView::SetActiveCharset(x0),
            Action::ConfigureCharset(x0, x1) => ActionView::ConfigureCharset(x0, x1),
            Action::SetColor(x0, x1) => ActionView::SetColor(x0, x1),
            Action::DynamicColorSequence(x0, x1) => ActionView::DynamicColorSequence(x0, x1),
            Action::ResetColor(x0) => ActionView::ResetColor(x0),
            Action::SetClipboard(s) => ActionView::SetClipboard(s@),
            Action::Dectest => ActionView::Dectest,
        }
    }
}

/// The views of a list of actions.
pub open spec fn views(s: Seq<Action>) -> Seq<ActionView> {
    s.map_values(|a: Action| a@)
}

} // verus!
