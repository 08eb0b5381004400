//! Tests of the controller: full interaction scenarios driven through
//! `apply_action`, with the store played by the test, plus the selection
//! clamping after deletions.

use libro::controller::apply_action;
use libro::controller::finish_delete_book;
use libro::controller::finish_delete_review;
use libro::controller::finish_save_book;
use libro::controller::finish_save_review;
use libro::controller::handle_delete_book;
use libro::controller::load_books_result;
use libro::controller::split_names;
use libro::controller::Effect;
use libro::controller::StoreOutcome;
use libro::date::Date;
use libro::events::KeyAction;
use libro::input::TextInput;
use libro::models::Book;
use libro::models::ExtendedBook;
use libro::models::NewBook;
use libro::models::Review;
use libro::models::Writer;
use libro::models::WriterType;
use libro::state::AppMode;
use libro::state::AppState;
use libro::state::Screen;

fn today() -> Date {
    Date { year: 2024, month: 6, day: 1 }
}

fn book_from_new(id: i64, nb: &NewBook) -> ExtendedBook {
    let authors = nb
        .authors
        .iter()
        .enumerate()
        .map(|(i, name)| Writer {
            id: Some(i as i64 + 1),
            name: name.clone(),
            writer_type: WriterType::Author,
        })
        .collect();
    ExtendedBook {
        book: Book {
            id: Some(id),
            title: nb.title.clone(),
            pages: nb.pages,
            pub_year: nb.pub_year,
            genre: nb.genre.clone(),
        },
        authors,
        translators: Vec::new(),
        reviews: Vec::new(),
    }
}

fn simple_book(id: i64, title: &str) -> ExtendedBook {
    ExtendedBook {
        book: Book {
            id: Some(id),
            title: title.to_string(),
            pages: None,
            pub_year: None,
            genre: "소설".to_string(),
        },
        authors: Vec::new(),
        translators: Vec::new(),
        reviews: Vec::new(),
    }
}

fn type_text(state: &mut AppState, editor: &mut TextInput, text: &str) {
    for c in text.chars() {
        apply_action(state, editor, KeyAction::InsertChar(c), today(), 0);
    }
}

#[test]
fn test_add_book_flow_saves_and_selects() {
    // From an empty store: open the add form, fill in title, author and
    // genre, save, and let the test play the store.
    let mut state = AppState::new(2024);
    let mut editor = TextInput::new();

    apply_action(&mut state, &mut editor, KeyAction::AddBook, today(), 0);
    assert_eq!(state.current_screen, Screen::AddBook);
    assert_eq!(state.mode, AppMode::FormInput);
    assert_eq!(state.form_field_index, 0);

    type_text(&mut state, &mut editor, "Dune");
    apply_action(&mut state, &mut editor, KeyAction::NextField, today(), 0);
    assert_eq!(state.form_title, "Dune");

    type_text(&mut state, &mut editor, "Frank Herbert");
    apply_action(&mut state, &mut editor, KeyAction::NextField, today(), 0);
    assert_eq!(state.form_authors, "Frank Herbert");

    // Skip translators, land on the genre field and pick the first genre.
    apply_action(&mut state, &mut editor, KeyAction::NextField, today(), 0);
    assert!(state.is_genre_field());
    apply_action(&mut state, &mut editor, KeyAction::Select, today(), 0);
    assert_eq!(state.mode, AppMode::GenreSelect);
    apply_action(&mut state, &mut editor, KeyAction::Select, today(), 0);
    assert_eq!(state.mode, AppMode::FormInput);
    assert_eq!(state.form_genre, "소설");

    let effect = apply_action(&mut state, &mut editor, KeyAction::SaveEdit, today(), 0);
    let nb = match effect {
        Some(Effect::AddBook(nb)) => nb,
        other => panic!("expected an add-book effect, got {:?}", other),
    };
    assert_eq!(nb.title, "Dune");
    assert_eq!(nb.authors, vec!["Frank Herbert".to_string()]);
    assert!(nb.translators.is_empty());
    assert_eq!(nb.genre, "소설");
    assert_eq!(nb.pages, None);
    assert_eq!(nb.pub_year, None);

    // The store assigns id 1 and the reload returns the new book.
    let books = vec![book_from_new(1, &nb)];
    finish_save_book(&mut state, 1, StoreOutcome::Reloaded(books), 0);
    assert_eq!(
        state.error_message.as_deref(),
        Some("✅ 새 도서가 저장되었습니다! (ID: 1)")
    );
    assert_eq!(state.books.len(), 1);
    assert_eq!(state.books[0].book.title, "Dune");
    assert_eq!(state.books[0].authors[0].name, "Frank Herbert");
    assert_eq!(state.books[0].book.genre, "소설");
    assert_eq!(state.current_screen, Screen::BookList);
    assert_eq!(state.mode, AppMode::Normal);
    assert_eq!(state.selected_book_index, 0);
    assert_eq!(state.form_title, "");
}

#[test]
fn test_new_review_gets_default_rating_and_today() {
    // A book with no reviews: the new-review flow types a text and saves;
    // the review carries rating 5 and today's date.
    let mut state = AppState::new(2024);
    let mut editor = TextInput::new();
    state.books = vec![simple_book(1, "Dune")];

    apply_action(&mut state, &mut editor, KeyAction::AddReview, today(), 0);
    assert_eq!(state.current_screen, Screen::Review);
    assert_eq!(state.selected_review_index, 0);

    apply_action(&mut state, &mut editor, KeyAction::NewReview, today(), 0);
    assert_eq!(state.mode, AppMode::Edit);
    assert!(state.editing_review_index.is_none());

    type_text(&mut state, &mut editor, "great");
    let effect = apply_action(&mut state, &mut editor, KeyAction::SaveEdit, today(), 0);
    let nr = match effect {
        Some(Effect::AddReview(nr)) => nr,
        other => panic!("expected an add-review effect, got {:?}", other),
    };
    assert_eq!(nr.book_id, 1);
    assert_eq!(nr.rating, 5);
    assert_eq!(nr.date_read, Some(today()));
    assert_eq!(nr.review, "great");

    let mut updated = simple_book(1, "Dune");
    updated.reviews.push(Review {
        id: Some(10),
        book_id: 1,
        date_read: nr.date_read,
        rating: nr.rating,
        review: nr.review.clone(),
    });
    finish_save_review(&mut state, StoreOutcome::Reloaded(vec![updated]), false, 0);
    assert_eq!(state.books[0].reviews.len(), 1);
    assert_eq!(state.books[0].reviews[0].review, "great");
    assert_eq!(state.books[0].reviews[0].rating, 5);
    assert_eq!(state.books[0].reviews[0].date_read, Some(today()));
    assert_eq!(state.error_message.as_deref(), Some("✅ 새 리뷰가 저장되었습니다!"));
}

#[test]
fn test_editing_review_keeps_rating_and_date() {
    let mut state = AppState::new(2024);
    let mut editor = TextInput::new();
    let mut book = simple_book(1, "Dune");
    book.reviews.push(Review {
        id: Some(7),
        book_id: 1,
        date_read: Some(Date { year: 2020, month: 1, day: 2 }),
        rating: 3,
        review: "ok".to_string(),
    });
    state.books = vec![book];
    state.set_screen(Screen::Review);

    // Pressing the review action on the review screen edits the selected one.
    apply_action(&mut state, &mut editor, KeyAction::AddReview, today(), 0);
    assert_eq!(state.mode, AppMode::Edit);
    assert_eq!(state.editing_review_index, Some(0));
    assert_eq!(editor.get_text(), "ok");

    type_text(&mut state, &mut editor, "!");
    let effect = apply_action(&mut state, &mut editor, KeyAction::SaveEdit, today(), 0);
    match effect {
        Some(Effect::UpdateReview(id, rv)) => {
            assert_eq!(id, 7);
            assert_eq!(rv.rating, 3);
            assert_eq!(rv.date_read, Some(Date { year: 2020, month: 1, day: 2 }));
            assert_eq!(rv.review, "ok!");
        }
        other => panic!("expected an update-review effect, got {:?}", other),
    }
    assert!(state.editing_review_index.is_none());
}

#[test]
fn test_delete_book_requests_selected_id() {
    let mut state = AppState::new(2024);
    let mut editor = TextInput::new();
    state.books = vec![simple_book(4, "one"), simple_book(9, "two")];
    state.selected_book_index = 1;
    let effect = apply_action(&mut state, &mut editor, KeyAction::DeleteBook, today(), 0);
    match effect {
        Some(Effect::DeleteBook(id)) => assert_eq!(id, 9),
        other => panic!("expected a delete-book effect, got {:?}", other),
    }
}

#[test]
fn test_delete_with_no_books_posts_message() {
    let mut state = AppState::new(2024);
    let effect = handle_delete_book(&mut state, 5);
    assert!(effect.is_none());
    assert_eq!(state.error_message.as_deref(), Some("❌ 삭제할 도서가 없습니다"));
}

#[test]
fn test_delete_emptying_list_resets_index_to_zero() {
    let mut state = AppState::new(2024);
    state.books = vec![simple_book(1, "only")];
    state.selected_book_index = 0;
    finish_delete_book(&mut state, StoreOutcome::Reloaded(Vec::new()), 0);
    assert!(state.books.is_empty());
    assert_eq!(state.selected_book_index, 0);
}

#[test]
fn test_delete_past_end_clamps_to_last() {
    let mut state = AppState::new(2024);
    state.books = vec![simple_book(1, "a"), simple_book(2, "b"), simple_book(3, "c")];
    state.selected_book_index = 2;
    let shorter = vec![simple_book(1, "a"), simple_book(2, "b")];
    finish_delete_book(&mut state, StoreOutcome::Reloaded(shorter), 0);
    assert_eq!(state.books.len(), 2);
    assert_eq!(state.selected_book_index, 1);
}

#[test]
fn test_delete_review_clamps_review_index() {
    let mut state = AppState::new(2024);
    let review = |id: i64| Review {
        id: Some(id),
        book_id: 1,
        date_read: None,
        rating: 4,
        review: "r".to_string(),
    };
    let mut book = simple_book(1, "Dune");
    book.reviews = vec![review(1), review(2)];
    state.books = vec![book];
    state.selected_review_index = 1;

    // Deleting the last of two reviews pulls the cursor to the remaining one.
    let mut shorter = simple_book(1, "Dune");
    shorter.reviews = vec![review(1)];
    finish_delete_review(&mut state, StoreOutcome::Reloaded(vec![shorter]), 0);
    assert_eq!(state.selected_review_index, 0);

    // Deleting the only review leaves the cursor at 0.
    let empty = simple_book(1, "Dune");
    finish_delete_review(&mut state, StoreOutcome::Reloaded(vec![empty]), 0);
    assert_eq!(state.selected_review_index, 0);
}

#[test]
fn test_failed_store_call_keeps_books_and_posts_error() {
    let mut state = AppState::new(2024);
    state.books = vec![simple_book(1, "kept")];
    finish_delete_book(&mut state, StoreOutcome::Failed("disk is gone".to_string()), 0);
    assert_eq!(state.books.len(), 1);
    assert_eq!(state.error_message.as_deref(), Some("❌ 도서 삭제 실패: disk is gone"));
}

#[test]
fn test_invalid_form_posts_validation_message() {
    let mut state = AppState::new(2024);
    let mut editor = TextInput::new();
    apply_action(&mut state, &mut editor, KeyAction::AddBook, today(), 0);
    let effect = apply_action(&mut state, &mut editor, KeyAction::SaveEdit, today(), 0);
    assert!(effect.is_none());
    assert_eq!(state.error_message.as_deref(), Some("제목을 입력해주세요"));
    assert_eq!(state.current_screen, Screen::AddBook);
}

#[test]
fn test_quit_and_force_quit() {
    let mut state = AppState::new(2024);
    let mut editor = TextInput::new();
    apply_action(&mut state, &mut editor, KeyAction::ForceQuit, today(), 0);
    assert!(!state.should_quit);
    state.mode = AppMode::Edit;
    apply_action(&mut state, &mut editor, KeyAction::ForceQuit, today(), 0);
    assert!(state.should_quit);
    let mut state = AppState::new(2024);
    apply_action(&mut state, &mut editor, KeyAction::Quit, today(), 0);
    assert!(state.should_quit);
}

#[test]
fn test_search_commit_and_open_result() {
    let mut state = AppState::new(2024);
    let mut editor = TextInput::new();
    let mut dune = simple_book(2, "Dune");
    dune.authors.push(Writer {
        id: Some(1),
        name: "Frank Herbert".to_string(),
        writer_type: WriterType::Author,
    });
    state.books = vec![simple_book(1, "Other"), dune];

    apply_action(&mut state, &mut editor, KeyAction::Search, today(), 0);
    assert_eq!(state.mode, AppMode::Search);
    assert_eq!(state.current_screen, Screen::Search);
    type_text(&mut state, &mut editor, "  dune ");
    apply_action(&mut state, &mut editor, KeyAction::Select, today(), 0);
    assert_eq!(state.mode, AppMode::Normal);
    assert_eq!(state.search_query, "dune");
    assert_eq!(state.search_selected_index, 0);

    apply_action(&mut state, &mut editor, KeyAction::Select, today(), 0);
    assert_eq!(state.current_screen, Screen::Review);
    assert_eq!(state.selected_book_index, 1);
    assert_eq!(state.selected_review_index, 0);
}

#[test]
fn test_back_never_quits() {
    let mut state = AppState::new(2024);
    let mut editor = TextInput::new();
    for _ in 0..5 {
        apply_action(&mut state, &mut editor, KeyAction::Back, today(), 0);
        assert!(!state.should_quit);
    }
    state.set_screen(Screen::Search);
    state.search_query = "q".to_string();
    apply_action(&mut state, &mut editor, KeyAction::Back, today(), 0);
    assert_eq!(state.current_screen, Screen::BookList);
    assert_eq!(state.search_query, "");
    assert!(!state.should_quit);
}

#[test]
fn test_split_names_trims_and_drops_empties() {
    let names = split_names("Frank Herbert,  Kim ,, 철수 ");
    assert_eq!(
        names,
        vec!["Frank Herbert".to_string(), "Kim".to_string(), "철수".to_string()]
    );
    assert!(split_names("   ").is_empty());
    assert!(split_names(",,").is_empty());
}

#[test]
fn test_moving_book_selection_clamps_review_cursor() {
    // The review cursor always lies inside the selected book's review list:
    // moving to a book with fewer reviews pulls it in.
    let mut state = AppState::new(2024);
    let mut editor = TextInput::new();
    let review = |id: i64| Review {
        id: Some(id),
        book_id: 1,
        date_read: None,
        rating: 4,
        review: "r".to_string(),
    };
    let mut first = simple_book(1, "with reviews");
    first.reviews = vec![review(1), review(2)];
    let second = simple_book(2, "without reviews");
    state.books = vec![first, second];
    state.selected_review_index = 1;

    apply_action(&mut state, &mut editor, KeyAction::MoveDown, today(), 0);
    assert_eq!(state.selected_book_index, 1);
    assert_eq!(state.selected_review_index, 0);

    apply_action(&mut state, &mut editor, KeyAction::MoveUp, today(), 0);
    assert_eq!(state.selected_book_index, 0);
    assert_eq!(state.selected_review_index, 0);
}

#[test]
fn test_reload_clamps_review_cursor() {
    let mut state = AppState::new(2024);
    let review = |id: i64| Review {
        id: Some(id),
        book_id: 1,
        date_read: None,
        rating: 4,
        review: "r".to_string(),
    };
    let mut book = simple_book(1, "Dune");
    book.reviews = vec![review(1), review(2)];
    state.books = vec![book];
    state.selected_review_index = 1;

    let mut reloaded = simple_book(1, "Dune");
    reloaded.reviews = vec![review(1)];
    load_books_result(&mut state, Ok(vec![reloaded]));
    assert_eq!(state.selected_review_index, 0);

    load_books_result(&mut state, Ok(Vec::new()));
    assert_eq!(state.selected_book_index, 0);
    assert_eq!(state.selected_review_index, 0);
}

#[test]
fn test_year_selector_from_form_value() {
    let mut state = AppState::new(2024);
    let mut editor = TextInput::new();
    apply_action(&mut state, &mut editor, KeyAction::AddBook, today(), 0);
    state.form_pub_year = "2020".to_string();
    state.form_field_index = 5;
    apply_action(&mut state, &mut editor, KeyAction::Select, today(), 0);
    assert_eq!(state.mode, AppMode::YearSelect);
    assert_eq!(state.year_selected_index, 4);
    apply_action(&mut state, &mut editor, KeyAction::MoveDown, today(), 0);
    apply_action(&mut state, &mut editor, KeyAction::Select, today(), 0);
    assert_eq!(state.mode, AppMode::FormInput);
    assert_eq!(state.form_pub_year, "2019");
}
