//! Tests of the per-mode key table: ordinary bindings, and the safety rule
//! that quitting and deleting are reachable only from normal mode (plus the
//! edit-mode force-quit chord).

use libro::events::key_to_action;
use libro::events::KeyAction;
use libro::events::KeyCode;
use libro::events::KeyEvent;
use libro::events::KeyMods;
use libro::state::AppMode;

fn plain(code: KeyCode) -> KeyEvent {
    KeyEvent { code, mods: KeyMods::Plain }
}

fn ctrl(c: char) -> KeyEvent {
    KeyEvent { code: KeyCode::Char(c), mods: KeyMods::Control }
}

#[test]
fn test_normal_mode_bindings() {
    assert_eq!(key_to_action(plain(KeyCode::Char('q')), &AppMode::Normal), KeyAction::Quit);
    assert_eq!(key_to_action(plain(KeyCode::Char('a')), &AppMode::Normal), KeyAction::AddBook);
    assert_eq!(key_to_action(plain(KeyCode::Char('d')), &AppMode::Normal), KeyAction::DeleteBook);
    assert_eq!(key_to_action(plain(KeyCode::Char('v')), &AppMode::Normal), KeyAction::AddReview);
    assert_eq!(key_to_action(plain(KeyCode::Char('n')), &AppMode::Normal), KeyAction::NewReview);
    assert_eq!(key_to_action(plain(KeyCode::Char('/')), &AppMode::Normal), KeyAction::Search);
    assert_eq!(key_to_action(plain(KeyCode::Char('r')), &AppMode::Normal), KeyAction::Report);
    assert_eq!(key_to_action(plain(KeyCode::Char('?')), &AppMode::Normal), KeyAction::Help);
    assert_eq!(key_to_action(plain(KeyCode::Char('j')), &AppMode::Normal), KeyAction::MoveDown);
    assert_eq!(key_to_action(plain(KeyCode::Char('k')), &AppMode::Normal), KeyAction::MoveUp);
    assert_eq!(key_to_action(plain(KeyCode::Char('1')), &AppMode::Normal), KeyAction::AuthorReport);
    assert_eq!(key_to_action(plain(KeyCode::Char('2')), &AppMode::Normal), KeyAction::YearReport);
    assert_eq!(key_to_action(plain(KeyCode::Char('3')), &AppMode::Normal), KeyAction::RecentReport);
    assert_eq!(key_to_action(plain(KeyCode::Enter), &AppMode::Normal), KeyAction::Select);
    assert_eq!(key_to_action(plain(KeyCode::Esc), &AppMode::Normal), KeyAction::Back);
    assert_eq!(key_to_action(plain(KeyCode::Up), &AppMode::Normal), KeyAction::MoveUp);
}

#[test]
fn test_edit_mode_inserts_instead_of_acting() {
    // The letters that are global commands in normal mode are plain text here.
    for c in ['q', 'a', 'd', 'v', 'n', 'r'] {
        assert_eq!(
            key_to_action(plain(KeyCode::Char(c)), &AppMode::Edit),
            KeyAction::InsertChar(c)
        );
    }
    assert_eq!(key_to_action(ctrl('s'), &AppMode::Edit), KeyAction::SaveEdit);
    assert_eq!(key_to_action(ctrl('x'), &AppMode::Edit), KeyAction::CancelEdit);
    assert_eq!(key_to_action(ctrl('q'), &AppMode::Edit), KeyAction::ForceQuit);
    assert_eq!(key_to_action(ctrl('w'), &AppMode::Edit), KeyAction::DeleteWord);
    assert_eq!(key_to_action(plain(KeyCode::Enter), &AppMode::Edit), KeyAction::NewLine);
    assert_eq!(key_to_action(plain(KeyCode::Backspace), &AppMode::Edit), KeyAction::Backspace);
}

#[test]
fn test_search_mode_bindings() {
    assert_eq!(
        key_to_action(plain(KeyCode::Char('q')), &AppMode::Search),
        KeyAction::InsertChar('q')
    );
    assert_eq!(key_to_action(plain(KeyCode::Enter), &AppMode::Search), KeyAction::Select);
    assert_eq!(key_to_action(plain(KeyCode::Esc), &AppMode::Search), KeyAction::Back);
    assert_eq!(key_to_action(ctrl('u'), &AppMode::Search), KeyAction::ClearLine);
    assert_eq!(key_to_action(ctrl('q'), &AppMode::Search), KeyAction::Ignore);
}

#[test]
fn test_confirm_mode_bindings() {
    assert_eq!(key_to_action(plain(KeyCode::Char('y')), &AppMode::Confirm), KeyAction::Confirm);
    assert_eq!(key_to_action(plain(KeyCode::Char('n')), &AppMode::Confirm), KeyAction::Cancel);
    let shift_y = KeyEvent { code: KeyCode::Char('Y'), mods: KeyMods::Shift };
    assert_eq!(key_to_action(shift_y, &AppMode::Confirm), KeyAction::Confirm);
    assert_eq!(key_to_action(plain(KeyCode::Char('d')), &AppMode::Confirm), KeyAction::Ignore);
    assert_eq!(key_to_action(plain(KeyCode::Esc), &AppMode::Confirm), KeyAction::Back);
}

#[test]
fn test_form_input_mode_bindings() {
    assert_eq!(key_to_action(plain(KeyCode::Tab), &AppMode::FormInput), KeyAction::NextField);
    let back_tab = KeyEvent { code: KeyCode::BackTab, mods: KeyMods::Shift };
    assert_eq!(key_to_action(back_tab, &AppMode::FormInput), KeyAction::PrevField);
    assert_eq!(key_to_action(ctrl('s'), &AppMode::FormInput), KeyAction::SaveEdit);
    assert_eq!(
        key_to_action(plain(KeyCode::Char('d')), &AppMode::FormInput),
        KeyAction::InsertChar('d')
    );
    assert_eq!(key_to_action(ctrl('q'), &AppMode::FormInput), KeyAction::Ignore);
}

#[test]
fn test_selector_modes_only_navigate() {
    for mode in [AppMode::GenreSelect, AppMode::YearSelect] {
        assert_eq!(key_to_action(plain(KeyCode::Char('j')), &mode), KeyAction::MoveDown);
        assert_eq!(key_to_action(plain(KeyCode::Char('k')), &mode), KeyAction::MoveUp);
        assert_eq!(key_to_action(plain(KeyCode::Down), &mode), KeyAction::MoveDown);
        assert_eq!(key_to_action(plain(KeyCode::Enter), &mode), KeyAction::Select);
        assert_eq!(key_to_action(plain(KeyCode::Esc), &mode), KeyAction::Back);
        assert_eq!(key_to_action(plain(KeyCode::Char('q')), &mode), KeyAction::Ignore);
        assert_eq!(key_to_action(plain(KeyCode::Char('d')), &mode), KeyAction::Ignore);
    }
}

#[test]
fn test_destructive_actions_unreachable_outside_normal() {
    // Every mode but normal: no key yields quit or delete; edit mode may
    // yield force-quit, on Control-q alone.
    let destructive =
        [KeyAction::Quit, KeyAction::DeleteBook, KeyAction::DeleteReview, KeyAction::ForceQuit];
    let mut keys: Vec<KeyEvent> = Vec::new();
    for c in "abcdefghijklmnopqrstuvwxyz0123456789?/ ".chars() {
        keys.push(plain(KeyCode::Char(c)));
        keys.push(ctrl(c));
    }
    for code in [
        KeyCode::Enter,
        KeyCode::Esc,
        KeyCode::Backspace,
        KeyCode::Delete,
        KeyCode::Tab,
        KeyCode::BackTab,
        KeyCode::Up,
        KeyCode::Down,
        KeyCode::Left,
        KeyCode::Right,
        KeyCode::Other,
    ] {
        keys.push(plain(code));
    }
    for mode in [
        AppMode::Search,
        AppMode::Confirm,
        AppMode::FormInput,
        AppMode::GenreSelect,
        AppMode::YearSelect,
    ] {
        for key in &keys {
            let action = key_to_action(*key, &mode);
            assert!(!destructive.contains(&action));
        }
    }
    for key in &keys {
        let action = key_to_action(*key, &AppMode::Edit);
        if action == KeyAction::ForceQuit {
            assert_eq!(*key, ctrl('q'));
        }
        assert!(action != KeyAction::Quit);
        assert!(action != KeyAction::DeleteBook);
        assert!(action != KeyAction::DeleteReview);
    }
}
