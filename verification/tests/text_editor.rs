//! Tests of the multi-line text editor: construction, editing operations,
//! and the two round-trip laws on concrete values.

use libro::input::TextInput;

#[test]
fn test_new_editor_is_empty() {
    let editor = TextInput::new();
    assert_eq!(editor.get_text(), "");
}

#[test]
fn test_with_text_splits_lines() {
    let editor = TextInput::with_text("one\ntwo\nthree".to_string());
    assert_eq!(editor.get_text(), "one\ntwo\nthree");
}

#[test]
fn test_text_round_trip_plain() {
    let text = "첫 줄\nsecond line\n\nlast";
    let editor = TextInput::with_text(text.to_string());
    assert_eq!(editor.get_text(), text);
}

#[test]
fn test_text_round_trip_empty_and_trailing_newline() {
    let empty = TextInput::with_text(String::new());
    assert_eq!(empty.get_text(), "");
    let trailing = TextInput::with_text("a\n".to_string());
    assert_eq!(trailing.get_text(), "a\n");
}

#[test]
fn test_insert_char_appends_at_cursor() {
    let mut editor = TextInput::new();
    editor.insert_char('h');
    editor.insert_char('i');
    assert_eq!(editor.get_text(), "hi");
}

#[test]
fn test_insert_then_backspace_restores_content() {
    let mut editor = TextInput::with_text("hello".to_string());
    editor.insert_char('x');
    editor.insert_char('y');
    editor.insert_char('z');
    editor.backspace();
    editor.backspace();
    editor.backspace();
    assert_eq!(editor.get_text(), "hello");
}

#[test]
fn test_insert_newline_splits_line() {
    let mut editor = TextInput::with_text("abcd".to_string());
    editor.move_cursor_left();
    editor.move_cursor_left();
    editor.insert_newline();
    assert_eq!(editor.get_text(), "ab\ncd");
}

#[test]
fn test_delete_char_merges_next_line() {
    let mut editor = TextInput::with_text("ab\ncd".to_string());
    editor.move_cursor_up();
    editor.move_to_line_end();
    editor.delete_char();
    assert_eq!(editor.get_text(), "abcd");
}

#[test]
fn test_backspace_at_line_start_merges_lines() {
    let mut editor = TextInput::with_text("ab\ncd".to_string());
    editor.move_to_line_start();
    editor.backspace();
    assert_eq!(editor.get_text(), "abcd");
}

#[test]
fn test_clear_current_line() {
    let mut editor = TextInput::with_text("ab\ncd".to_string());
    editor.clear_current_line();
    assert_eq!(editor.get_text(), "ab\n");
}

#[test]
fn test_delete_to_line_end() {
    let mut editor = TextInput::with_text("abcdef".to_string());
    editor.move_cursor_left();
    editor.move_cursor_left();
    editor.delete_to_line_end();
    assert_eq!(editor.get_text(), "abcd");
}

#[test]
fn test_delete_word_backward() {
    let mut editor = TextInput::with_text("hello world".to_string());
    editor.delete_word_backward();
    assert_eq!(editor.get_text(), "hello ");
    let mut editor = TextInput::with_text("hello world   ".to_string());
    editor.delete_word_backward();
    assert_eq!(editor.get_text(), "hello ");
}

#[test]
fn test_read_only_editor_ignores_mutation() {
    let mut editor = TextInput::with_text("fixed".to_string());
    editor.set_editable(false);
    editor.insert_char('x');
    editor.clear();
    editor.backspace();
    editor.delete_char();
    editor.insert_newline();
    editor.clear_current_line();
    editor.delete_to_line_end();
    editor.delete_word_backward();
    assert_eq!(editor.get_text(), "fixed");
}

#[test]
fn test_clear_resets_to_one_empty_line() {
    let mut editor = TextInput::with_text("ab\ncd".to_string());
    editor.clear();
    assert_eq!(editor.get_text(), "");
}

#[test]
fn test_cursor_moves_clamp_at_edges() {
    let mut editor = TextInput::with_text("ab\nc".to_string());
    editor.move_cursor_down();
    editor.move_cursor_down();
    editor.move_cursor_right();
    editor.move_cursor_right();
    editor.insert_char('!');
    assert_eq!(editor.get_text(), "ab\nc!");
    editor.move_cursor_up();
    editor.move_cursor_up();
    editor.move_to_line_start();
    editor.move_cursor_left();
    editor.insert_char('>');
    assert_eq!(editor.get_text(), ">ab\nc!");
}
