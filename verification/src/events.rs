//! Key events and the per-mode key-to-action table.
//!
//! The resolver is a pure function from a key event and the current mode to a
//! semantic action. Its central safety property is proved below: actions that
//! quit the application or delete data are reachable only through the normal
//! mode's bindings and the edit mode's force-quit chord.

use vstd::prelude::*;

use crate::state::AppMode;

verus! {

/// The keys the application distinguishes.
#[derive(Debug, Clone, Copy, PartialEq, Eq, Structural)]
pub enum KeyCode {
    /// A printable character.
    Char(char),
    /// The Enter key.
    Enter,
    /// The Escape key.
    Esc,
    /// The Backspace key.
    Backspace,
    /// The forward Delete key.
    Delete,
    /// The Tab key.
    Tab,
    /// Shift-Tab, as terminals report it.
    BackTab,
    /// The up arrow.
    Up,
    /// The down arrow.
    Down,
    /// The left arrow.
    Left,
    /// The right arrow.
    Right,
    /// Any key the application does not use.
    Other,
}

/// The modifier held with a key, reduced to what the bindings distinguish.
#[derive(Debug, Clone, Copy, PartialEq, Eq, Structural)]
pub enum KeyMods {
    /// No modifier.
    Plain,
    /// Shift alone.
    Shift,
    /// Control alone.
    Control,
    /// Any other combination.
    Other,
}

/// One key press: the key and its modifier.
#[derive(Debug, Clone, Copy, PartialEq, Eq, Structural)]
pub struct KeyEvent {
    /// The key pressed.
    pub code: KeyCode,
    /// The modifier held with it.
    pub mods: KeyMods,
}

/// The semantic actions a key press can resolve to.
#[derive(Debug, Clone, Copy, PartialEq, Eq, Structural)]
pub enum KeyAction {
    /// Move the highlight up.
    MoveUp,
    /// Move the highlight down.
    MoveDown,
    /// Move the highlight left.
    MoveLeft,
    /// Move the highlight right.
    MoveRight,
    /// Confirm or open the highlighted thing.
    Select,
    /// Go back one step.
    Back,
    /// Quit the application.
    Quit,
    /// Open the add-book form.
    AddBook,
    /// Open the edit-book form.
    EditBook,
    /// Delete the selected book, or the selected review on the review
    /// screen.
    DeleteBook,
    /// Open the review screen, or start editing the selected review there.
    AddReview,
    /// Start a new, empty review.
    NewReview,
    /// Delete the selected review.
    DeleteReview,
    /// Start typing a search query.
    Search,
    /// Open the report screen.
    Report,
    /// Open the help screen.
    Help,
    /// Move to the next form field.
    NextField,
    /// Move to the previous form field.
    PrevField,
    /// Switch the report to author statistics.
    AuthorReport,
    /// Switch the report to year statistics.
    YearReport,
    /// Switch the report to recent books.
    RecentReport,
    /// Save what is being edited.
    SaveEdit,
    /// Cancel the edit in progress.
    CancelEdit,
    /// Quit from edit mode, discarding the edit.
    ForceQuit,
    /// Insert this character at the cursor.
    InsertChar(char),
    /// Forward-delete at the cursor.
    DeleteChar,
    /// Backward-delete at the cursor.
    Backspace,
    /// Insert a line break.
    NewLine,
    /// Move the text cursor left.
    CursorLeft,
    /// Move the text cursor right.
    CursorRight,
    /// Move the text cursor up.
    CursorUp,
    /// Move the text cursor down.
    CursorDown,
    /// Move the text cursor to the line's start.
    LineStart,
    /// Move the text cursor to the line's end.
    LineEnd,
    /// Empty the current line.
    ClearLine,
    /// Delete from the cursor to the line's end.
    DeleteToEnd,
    /// Delete the word before the cursor.
    DeleteWord,
    /// Answer yes.
    Confirm,
    /// Answer no.
    Cancel,
    /// Toggle the highlighted thing.
    ToggleMode,
    /// Do nothing.
    Ignore,
}

/// What a key resolves to in each mode; the whole table, as a function.
pub open spec fn resolve_spec(key: KeyEvent, mode: AppMode) -> KeyAction {
    match mode {
        AppMode::FormInput => match (key.mods, key.code) {
            (KeyMods::Plain, KeyCode::Esc) => KeyAction::Back,
            (KeyMods::Plain, KeyCode::Tab) => KeyAction::NextField,
            (KeyMods::Shift, KeyCode::BackTab) => KeyAction::PrevField,
            (KeyMods::Plain, KeyCode::Enter) => KeyAction::Select,
            (KeyMods::Control, KeyCode::Char(c)) => if c == 's' {
                KeyAction::SaveEdit
            } else if c == 'u' {
                KeyAction::ClearLine
            } else if c == 'a' {
                KeyAction::LineStart
            } else if c == 'e' {
                KeyAction::LineEnd
            } else if c == 'k' {
                KeyAction::DeleteToEnd
            } else if c == 'w' {
                KeyAction::DeleteWord
            } else {
                KeyAction::Ignore
            },
            (KeyMods::Plain, KeyCode::Backspace) => KeyAction::Backspace,
            (KeyMods::Plain, KeyCode::Delete) => KeyAction::DeleteChar,
            (KeyMods::Plain, KeyCode::Left) => KeyAction::CursorLeft,
            (KeyMods::Plain, KeyCode::Right) => KeyAction::CursorRight,
            (KeyMods::Plain, KeyCode::Char(c)) => KeyAction::InsertChar(c),
            _ => KeyAction::Ignore,
        },
        AppMode::GenreSelect | AppMode::YearSelect => match (key.mods, key.code) {
            (KeyMods::Plain, KeyCode::Esc) => KeyAction::Back,
            (KeyMods::Plain, KeyCode::Enter) => KeyAction::Select,
            (KeyMods::Plain, KeyCode::Down) => KeyAction::MoveDown,
            (KeyMods::Plain, KeyCode::Up) => KeyAction::MoveUp,
            (KeyMods::Plain, KeyCode::Char(c)) => if c == 'j' {
                KeyAction::MoveDown
            } else if c == 'k' {
                KeyAction::MoveUp
            } else {
                KeyAction::Ignore
            },
            _ => KeyAction::Ignore,
        },
        AppMode::Edit => match (key.mods, key.code) {
            (KeyMods::Control, KeyCode::Char(c)) => if c == 's' {
                KeyAction::SaveEdit
            } else if c == 'x' {
                KeyAction::CancelEdit
            } else if c == 'q' {
                KeyAction::ForceQuit
            } else if c == 'a' {
                KeyAction::LineStart
            } else if c == 'e' {
                KeyAction::LineEnd
            } else if c == 'u' {
                KeyAction::ClearLine
            } else if c == 'k' {
                KeyAction::DeleteToEnd
            } else if c == 'w' {
                KeyAction::DeleteWord
            } else if c == 'h' {
                KeyAction::CursorLeft
            } else if c == 'l' {
                KeyAction::CursorRight
            } else if c == 'j' {
                KeyAction::CursorDown
            } else {
                KeyAction::Ignore
            },
            (KeyMods::Plain, KeyCode::Enter) => KeyAction::NewLine,
            (KeyMods::Plain, KeyCode::Backspace) => KeyAction::Backspace,
            (KeyMods::Plain, KeyCode::Delete) => KeyAction::DeleteChar,
            (KeyMods::Plain, KeyCode::Left) => KeyAction::CursorLeft,
            (KeyMods::Plain, KeyCode::Right) => KeyAction::CursorRight,
            (KeyMods::Plain, KeyCode::Up) => KeyAction::CursorUp,
            (KeyMods::Plain, KeyCode::Down) => KeyAction::CursorDown,
            (KeyMods::Plain, KeyCode::Char(c)) => KeyAction::InsertChar(c),
            _ => KeyAction::Ignore,
        },
        AppMode::Search => match (key.mods, key.code) {
            (KeyMods::Plain, KeyCode::Enter) => KeyAction::Select,
            (KeyMods::Plain, KeyCode::Esc) => KeyAction::Back,
            (KeyMods::Control, KeyCode::Char(c)) => if c == 'u' {
                KeyAction::ClearLine
            } else {
                KeyAction::Ignore
            },
            (KeyMods::Plain, KeyCode::Backspace) => KeyAction::Backspace,
            (KeyMods::Plain, KeyCode::Char(c)) => KeyAction::InsertChar(c),
            _ => KeyAction::Ignore,
        },
        AppMode::Confirm => match (key.mods, key.code) {
            (KeyMods::Plain, KeyCode::Char(c)) => if c == 'y' {
                KeyAction::Confirm
            } else if c == 'n' {
                KeyAction::Cancel
            } else {
                KeyAction::Ignore
            },
            (KeyMods::Shift, KeyCode::Char(c)) => if c == 'Y' {
                KeyAction::Confirm
            } else if c == 'N' {
                KeyAction::Cancel
            } else {
                KeyAction::Ignore
            },
            (KeyMods::Plain, KeyCode::Enter) => KeyAction::Select,
            (KeyMods::Plain, KeyCode::Esc) => KeyAction::Back,
            _ => KeyAction::Ignore,
        },
        AppMode::Normal => match (key.mods, key.code) {
            (KeyMods::Plain, KeyCode::Esc) => KeyAction::Back,
            (KeyMods::Plain, KeyCode::Enter) => KeyAction::Select,
            (KeyMods::Plain, KeyCode::Tab) => KeyAction::NextField,
            (KeyMods::Shift, KeyCode::BackTab) => KeyAction::PrevField,
            (KeyMods::Plain, KeyCode::Up) => KeyAction::MoveUp,
            (KeyMods::Plain, KeyCode::Down) => KeyAction::MoveDown,
            (KeyMods::Plain, KeyCode::Left) => KeyAction::MoveLeft,
            (KeyMods::Plain, KeyCode::Right) => KeyAction::MoveRight,
            (KeyMods::Plain, KeyCode::Char(c)) => if c == 'q' {
                KeyAction::Quit
            } else if c == '?' {
                KeyAction::Help
            } else if c == 'j' {
                KeyAction::MoveDown
            } else if c == 'k' {
                KeyAction::MoveUp
            } else if c == 'h' {
                KeyAction::MoveLeft
            } else if c == 'l' {
                KeyAction::MoveRight
            } else if c == 'a' {
                KeyAction::AddBook
            } else if c == 'e' {
                KeyAction::EditBook
            } else if c == 'd' {
                KeyAction::DeleteBook
            } else if c == 'v' {
                KeyAction::AddReview
            } else if c == 'n' {
                KeyAction::NewReview
            } else if c == '/' {
                KeyAction::Search
            } else if c == 'r' {
                KeyAction::Report
            } else if c == ' ' {
                KeyAction::ToggleMode
            } else if c == '1' {
                KeyAction::AuthorReport
            } else if c == '2' {
                KeyAction::YearReport
            } else if c == '3' {
                KeyAction::RecentReport
            } else {
                KeyAction::Ignore
            },
            _ => KeyAction::Ignore,
        },
    }
}

/// Maps one key press to its action under the current mode, following
/// [`resolve_spec`] exactly.
pub fn key_to_action(key: KeyEvent, mode: &AppMode) -> (r: KeyAction)
    ensures
        r == resolve_spec(key, *mode),
{
    match mode {
        AppMode::FormInput => match (key.mods, key.code) {
            (KeyMods::Plain, KeyCode::Esc) => KeyAction::Back,
            (KeyMods::Plain, KeyCode::Tab) => KeyAction::NextField,
            (KeyMods::Shift, KeyCode::BackTab) => KeyAction::PrevField,
            (KeyMods::Plain, KeyCode::Enter) => KeyAction::Select,
            (KeyMods::Control, KeyCode::Char('s')) => KeyAction::SaveEdit,
            (KeyMods::Plain, KeyCode::Backspace) => KeyAction::Backspace,
            (KeyMods::Plain, KeyCode::Delete) => KeyAction::DeleteChar,
            (KeyMods::Control, KeyCode::Char('u')) => KeyAction::ClearLine,
            (KeyMods::Control, KeyCode::Char('a')) => KeyAction::LineStart,
            (KeyMods::Control, KeyCode::Char('e')) => KeyAction::LineEnd,
            (KeyMods::Control, KeyCode::Char('k')) => KeyAction::DeleteToEnd,
            (KeyMods::Control, KeyCode::Char('w')) => KeyAction::DeleteWord,
            (KeyMods::Plain, KeyCode::Left) => KeyAction::CursorLeft,
            (KeyMods::Plain, KeyCode::Right) => KeyAction::CursorRight,
            (KeyMods::Plain, KeyCode::Char(c)) => KeyAction::InsertChar(c),
            _ => KeyAction::Ignore,
        },
        AppMode::GenreSelect | AppMode::YearSelect => match (key.mods, key.code) {
            (KeyMods::Plain, KeyCode::Esc) => KeyAction::Back,
            (KeyMods::Plain, KeyCode::Enter) => KeyAction::Select,
            (KeyMods::Plain, KeyCode::Char('j')) | (KeyMods::Plain, KeyCode::Down) => {
                KeyAction::MoveDown
            },
            (KeyMods::Plain, KeyCode::Char('k')) | (KeyMods::Plain, KeyCode::Up) => {
                KeyAction::MoveUp
            },
            _ => KeyAction::Ignore,
        },
        AppMode::Edit => match (key.mods, key.code) {
            (KeyMods::Control, KeyCode::Char('s')) => KeyAction::SaveEdit,
            (KeyMods::Control, KeyCode::Char('x')) => KeyAction::CancelEdit,
            (KeyMods::Control, KeyCode::Char('q')) => KeyAction::ForceQuit,
            (KeyMods::Control, KeyCode::Char('a')) => KeyAction::LineStart,
            (KeyMods::Control, KeyCode::Char('e')) => KeyAction::LineEnd,
            (KeyMods::Control, KeyCode::Char('u')) => KeyAction::ClearLine,
            (KeyMods::Control, KeyCode::Char('k')) => KeyAction::DeleteToEnd,
            (KeyMods::Control, KeyCode::Char('w')) => KeyAction::DeleteWord,
            (KeyMods::Control, KeyCode::Char('h')) => KeyAction::CursorLeft,
            (KeyMods::Control, KeyCode::Char('l')) => KeyAction::CursorRight,
            (KeyMods::Control, KeyCode::Char('j')) => KeyAction::CursorDown,
            (KeyMods::Plain, KeyCode::Enter) => KeyAction::NewLine,
            (KeyMods::Plain, KeyCode::Backspace) => KeyAction::Backspace,
            (KeyMods::Plain, KeyCode::Delete) => KeyAction::DeleteChar,
            (KeyMods::Plain, KeyCode::Left) => KeyAction::CursorLeft,
            (KeyMods::Plain, KeyCode::Right) => KeyAction::CursorRight,
            (KeyMods::Plain, KeyCode::Up) => KeyAction::CursorUp,
            (KeyMods::Plain, KeyCode::Down) => KeyAction::CursorDown,
            (KeyMods::Plain, KeyCode::Char(c)) => KeyAction::InsertChar(c),
            _ => KeyAction::Ignore,
        },
        AppMode::Search => match (key.mods, key.code) {
            (KeyMods::Plain, KeyCode::Enter) => KeyAction::Select,
            (KeyMods::Plain, KeyCode::Esc) => KeyAction::Back,
            (KeyMods::Control, KeyCode::Char('u')) => KeyAction::ClearLine,
            (KeyMods::Plain, KeyCode::Backspace) => KeyAction::Backspace,
            (KeyMods::Plain, KeyCode::Char(c)) => KeyAction::InsertChar(c),
            _ => KeyAction::Ignore,
        },
        AppMode::Confirm => match (key.mods, key.code) {
            (KeyMods::Plain, KeyCode::Char('y')) | (KeyMods::Shift, KeyCode::Char('Y')) => {
                KeyAction::Confirm
            },
            (KeyMods::Plain, KeyCode::Char('n')) | (KeyMods::Shift, KeyCode::Char('N')) => {
                KeyAction::Cancel
            },
            (KeyMods::Plain, KeyCode::Enter) => KeyAction::Select,
            (KeyMods::Plain, KeyCode::Esc) => KeyAction::Back,
            _ => KeyAction::Ignore,
        },
        AppMode::Normal => match (key.mods, key.code) {
            (KeyMods::Plain, KeyCode::Char('q')) => KeyAction::Quit,
            (KeyMods::Plain, KeyCode::Esc) => KeyAction::Back,
            (KeyMods::Plain, KeyCode::Char('?')) => KeyAction::Help,
            (KeyMods::Plain, KeyCode::Char('j')) => KeyAction::MoveDown,
            (KeyMods::Plain, KeyCode::Char('k')) => KeyAction::MoveUp,
            (KeyMods::Plain, KeyCode::Char('h')) => KeyAction::MoveLeft,
            (KeyMods::Plain, KeyCode::Char('l')) => KeyAction::MoveRight,
            (KeyMods::Plain, KeyCode::Enter) => KeyAction::Select,
            (KeyMods::Plain, KeyCode::Char('a')) => KeyAction::AddBook,
            (KeyMods::Plain, KeyCode::Char('e')) => KeyAction::EditBook,
            (KeyMods::Plain, KeyCode::Char('d')) => KeyAction::DeleteBook,
            (KeyMods::Plain, KeyCode::Char('v')) => KeyAction::AddReview,
            (KeyMods::Plain, KeyCode::Char('n')) => KeyAction::NewReview,
            (KeyMods::Plain, KeyCode::Char('/')) => KeyAction::Search,
            (KeyMods::Plain, KeyCode::Char('r')) => KeyAction::Report,
            (KeyMods::Plain, KeyCode::Tab) => KeyAction::NextField,
            (KeyMods::Shift, KeyCode::BackTab) => KeyAction::PrevField,
            (KeyMods::Plain, KeyCode::Char(' ')) => KeyAction::ToggleMode,
            (KeyMods::Plain, KeyCode::Char('1')) => KeyAction::AuthorReport,
            (KeyMods::Plain, KeyCode::Char('2')) => KeyAction::YearReport,
            (KeyMods::Plain, KeyCode::Char('3')) => KeyAction::RecentReport,
            (KeyMods::Plain, KeyCode::Up) => KeyAction::MoveUp,
            (KeyMods::Plain, KeyCode::Down) => KeyAction::MoveDown,
            (KeyMods::Plain, KeyCode::Left) => KeyAction::MoveLeft,
            (KeyMods::Plain, KeyCode::Right) => KeyAction::MoveRight,
            _ => KeyAction::Ignore,
        },
    }
}

/// The actions that quit the application or destroy data: quitting, the
/// force-quit chord, and the context-sensitive delete (which removes a book
/// or a review). Opening a form or screen is not destructive by itself.
pub open spec fn is_destructive(a: KeyAction) -> bool {
    a == KeyAction::Quit || a == KeyAction::ForceQuit || a == KeyAction::DeleteBook || a
        == KeyAction::DeleteReview
}

/// Destructive actions are unreachable outside the normal mode, except that
/// edit mode's force-quit chord quits: for every key, only the normal mode
/// resolves to quitting or deleting, and edit mode resolves at most to
/// `ForceQuit` (on Control-q alone). In particular no key in `Search`,
/// `Confirm`, `FormInput`, `GenreSelect` or `YearSelect` can quit or delete.
pub proof fn lemma_destructive_only_in_normal_mode(key: KeyEvent, mode: AppMode)
    ensures
        is_destructive(resolve_spec(key, mode)) ==> mode == AppMode::Normal || (mode
            == AppMode::Edit && resolve_spec(key, mode) == KeyAction::ForceQuit && key == (KeyEvent {
            code: KeyCode::Char('q'),
            mods: KeyMods::Control,
        })),
        mode == AppMode::Search || mode == AppMode::Confirm || mode == AppMode::FormInput || mode
            == AppMode::GenreSelect || mode == AppMode::YearSelect ==> !is_destructive(
            resolve_spec(key, mode),
        ),
{
}

} // verus!
