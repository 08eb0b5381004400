//! Tests of the application state: construction, the form, the selectors,
//! the message banner, and form validation.

use libro::state::AppMode;
use libro::state::AppState;
use libro::state::Screen;

#[test]
fn test_new_state_defaults() {
    let state = AppState::new(2024);
    assert_eq!(state.mode, AppMode::Normal);
    assert_eq!(state.current_screen, Screen::BookList);
    assert_eq!(state.selected_book_index, 0);
    assert_eq!(state.selected_review_index, 0);
    assert!(state.books.is_empty());
    assert!(state.error_message.is_none());
    assert!(!state.should_quit);
    assert_eq!(state.form_field_index, 0);
    assert_eq!(state.current_year, 2024);
}

#[test]
fn test_set_screen_and_go_back() {
    let mut state = AppState::new(2024);
    state.set_screen(Screen::Help);
    assert_eq!(state.current_screen, Screen::Help);
    assert_eq!(state.previous_screen, Some(Screen::BookList));
    state.go_back();
    assert_eq!(state.current_screen, Screen::BookList);
    assert!(state.previous_screen.is_none());
    state.go_back();
    assert_eq!(state.current_screen, Screen::BookList);
}

#[test]
fn test_form_field_cycle() {
    let mut state = AppState::new(2024);
    for expected in [1, 2, 3, 4, 5, 0] {
        state.next_form_field();
        assert_eq!(state.form_field_index, expected);
    }
    state.prev_form_field();
    assert_eq!(state.form_field_index, 5);
}

#[test]
fn test_form_field_values_round_trip() {
    let mut state = AppState::new(2024);
    state.set_current_form_field_value("Dune".to_string());
    assert_eq!(state.form_title, "Dune");
    assert_eq!(state.get_current_form_field_value(), "Dune");
    state.next_form_field();
    state.set_current_form_field_value("Frank Herbert".to_string());
    assert_eq!(state.form_authors, "Frank Herbert");
    assert_eq!(state.get_current_form_field_name(), "저자");
}

#[test]
fn test_validate_form_rules_in_order() {
    let mut state = AppState::new(2024);
    assert_eq!(state.validate_form(), Err("제목을 입력해주세요".to_string()));
    state.form_title = "Dune".to_string();
    assert_eq!(state.validate_form(), Err("저자를 입력해주세요".to_string()));
    state.form_authors = "Frank Herbert".to_string();
    assert_eq!(state.validate_form(), Err("장르를 입력해주세요".to_string()));
    state.form_genre = "소설".to_string();
    assert!(state.validate_form().is_ok());
    state.form_pages = "abc".to_string();
    assert_eq!(state.validate_form(), Err("페이지 수는 숫자여야 합니다".to_string()));
    state.form_pages = " 412 ".to_string();
    assert!(state.validate_form().is_ok());
    state.form_pub_year = "196x".to_string();
    assert_eq!(state.validate_form(), Err("출간년도는 숫자여야 합니다".to_string()));
    state.form_pub_year = "1965".to_string();
    assert!(state.validate_form().is_ok());
}

#[test]
fn test_genres_and_selector() {
    let genres = AppState::get_genres();
    assert_eq!(genres, vec!["소설", "에세이", "자기계발", "기술/IT", "기타"]);
    let mut state = AppState::new(2024);
    state.move_genre_up();
    assert_eq!(state.genre_selected_index, 0);
    for _ in 0..10 {
        state.move_genre_down();
    }
    assert_eq!(state.genre_selected_index, 4);
    assert_eq!(state.get_selected_genre(), "기타");
    state.select_current_genre();
    assert_eq!(state.form_genre, "기타");
    assert!(!state.is_genre_field());
    state.form_field_index = 3;
    assert!(state.is_genre_field());
}

#[test]
fn test_years_and_selector() {
    let state = AppState::new(2024);
    let years = state.get_years();
    assert_eq!(years.len(), 125);
    assert_eq!(years[0], 2024);
    assert_eq!(years[124], 1900);
    let mut state = AppState::new(2024);
    state.move_year_down();
    state.move_year_down();
    assert_eq!(state.get_selected_year(), 2022);
    state.move_year_up();
    assert_eq!(state.get_selected_year(), 2023);
    state.select_current_year();
    assert_eq!(state.form_pub_year, "2023");
    for _ in 0..200 {
        state.move_year_down();
    }
    assert_eq!(state.get_selected_year(), 1900);
}

#[test]
fn test_message_expires_after_three_seconds() {
    let mut state = AppState::new(2024);
    state.set_message("saved".to_string(), 10_000);
    assert_eq!(state.error_message.as_deref(), Some("saved"));
    state.clear_expired_message(12_000);
    assert_eq!(state.error_message.as_deref(), Some("saved"));
    state.clear_expired_message(13_000);
    assert!(state.error_message.is_none());
    assert!(state.message_time.is_none());
}

#[test]
fn test_edit_mode_buffer() {
    let mut state = AppState::new(2024);
    state.enter_edit_mode("note".to_string());
    assert_eq!(state.mode, AppMode::Edit);
    assert_eq!(state.edit_buffer, "note");
    assert_eq!(state.cursor_position, 4);
    let text = state.exit_edit_mode();
    assert_eq!(text, "note");
    assert_eq!(state.mode, AppMode::Normal);
    assert_eq!(state.edit_buffer, "");
    state.enter_edit_mode("gone".to_string());
    state.cancel_edit_mode();
    assert_eq!(state.edit_buffer, "");
    assert_eq!(state.mode, AppMode::Normal);
}

#[test]
fn test_clear_form_resets_everything() {
    let mut state = AppState::new(2024);
    state.form_title = "t".to_string();
    state.form_authors = "a".to_string();
    state.form_genre = "g".to_string();
    state.form_field_index = 4;
    state.genre_selected_index = 2;
    state.clear_form();
    assert_eq!(state.form_title, "");
    assert_eq!(state.form_authors, "");
    assert_eq!(state.form_genre, "");
    assert_eq!(state.form_field_index, 0);
    assert_eq!(state.genre_selected_index, 0);
    assert!(state.editing_book_id.is_none());
}
