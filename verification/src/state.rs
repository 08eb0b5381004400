//! The application's mutable state: the interaction mode, the visible screen,
//! the loaded books with their selection cursors, the add-book form, and the
//! transient message banner.

use vstd::prelude::*;

use crate::models::ExtendedBook;
use crate::text::all_digits;
use crate::text::dec_seq;
use crate::text::dec_value;
use crate::text::is_blank;
use crate::text::str_is_blank;
use crate::text::trim_spec;
use crate::text::trim_str;
use crate::text::parse_u32;
use crate::text::u32_to_string;

verus! {

/// The interaction mode; exactly one is active and decides how keys are read.
#[derive(Debug, Clone, Copy, PartialEq, Eq, Structural)]
pub enum AppMode {
    /// Plain navigation; every global binding is live.
    Normal,
    /// Free-text editing; only control chords and characters are read.
    Edit,
    /// Typing a search query.
    Search,
    /// Answering a yes/no question.
    Confirm,
    /// Direct typing into the add-book form.
    FormInput,
    /// Picking a genre from the fixed list.
    GenreSelect,
    /// Picking a publication year from the fixed list.
    YearSelect,
}

/// The screen being shown; decides which data is visible.
#[derive(Debug, Clone, Copy, PartialEq, Eq, Structural)]
pub enum Screen {
    /// The list of all books.
    BookList,
    /// One book's details.
    BookDetail,
    /// The add-book form.
    AddBook,
    /// The edit-book form.
    EditBook,
    /// The selected book's reviews.
    Review,
    /// The search query and its results.
    Search,
    /// The report views.
    Report,
    /// The key binding help.
    Help,
    /// The delete confirmation dialog.
    ConfirmDelete,
}

/// The genres offered by the genre selector, in order.
pub open spec fn spec_genres() -> Seq<Seq<char>> {
    seq!["소설"@, "에세이"@, "자기계발"@, "기술/IT"@, "기타"@]
}

/// How many years the year selector offers: every year from the current one
/// down to 1900.
pub open spec fn year_count(current_year: int) -> int {
    current_year - 1899
}

/// Whether a form field's text parses as an optional `u32`: blank counts as
/// unset and anything else must be all digits (after trimming) and fit.
pub open spec fn optional_number_ok(s: Seq<char>) -> bool {
    is_blank(s) || (all_digits(trim_spec(s)) && trim_spec(s).len() > 0 && dec_value(trim_spec(s))
        <= u32::MAX)
}

/// The whole mutable state of the interactive application.
#[derive(Debug, Clone)]
pub struct AppState {
    /// The active interaction mode.
    pub mode: AppMode,
    /// The visible screen.
    pub current_screen: Screen,
    /// The cursor into `books`; 0 when `books` is empty.
    pub selected_book_index: usize,
    /// The cursor into the selected book's reviews.
    pub selected_review_index: usize,
    /// A single-line edit buffer kept alongside the text editor widget.
    pub edit_buffer: String,
    /// The character position of the cursor in `edit_buffer`.
    pub cursor_position: usize,
    /// The committed search query.
    pub search_query: String,
    /// The cursor into the search results.
    pub search_selected_index: usize,
    /// Once true, the event loop exits after the current iteration.
    pub should_quit: bool,
    /// The screen to return to; a one-level back stack.
    pub previous_screen: Option<Screen>,
    /// The loaded books; reloaded wholesale after every mutation.
    pub books: Vec<ExtendedBook>,
    /// The transient message banner, if one is showing.
    pub error_message: Option<String>,
    /// When the banner was posted, in milliseconds of the caller's clock.
    pub message_time: Option<u64>,
    /// `Some(i)` while editing the selected book's review `i`; `None` while
    /// writing a new review.
    pub editing_review_index: Option<usize>,
    /// The form field the cursor is on, 0 to 5.
    pub form_field_index: usize,
    /// The form's title text.
    pub form_title: String,
    /// The form's comma-separated author list.
    pub form_authors: String,
    /// The form's comma-separated translator list.
    pub form_translators: String,
    /// The form's genre text.
    pub form_genre: String,
    /// The form's page count text.
    pub form_pages: String,
    /// The form's publication year text.
    pub form_pub_year: String,
    /// The book being edited, `None` while adding a new one.
    pub editing_book_id: Option<u32>,
    /// The highlighted entry of the genre selector.
    pub genre_selected_index: usize,
    /// The highlighted entry of the year selector.
    pub year_selected_index: usize,
    /// The calendar year at startup; the year selector counts down from it.
    pub current_year: u32,
}

/// The two book caches are the same.
pub open spec fn same_books(a: AppState, b: AppState) -> bool {
    a.books == b.books
}

/// Screen and back stack are the same.
pub open spec fn same_screen(a: AppState, b: AppState) -> bool {
    a.current_screen == b.current_screen && a.previous_screen == b.previous_screen
}

/// The selection cursors are the same.
pub open spec fn same_selection(a: AppState, b: AppState) -> bool {
    a.selected_book_index == b.selected_book_index && a.selected_review_index
        == b.selected_review_index && a.search_selected_index == b.search_selected_index
}

/// The single-line edit buffer and its cursor are the same.
pub open spec fn same_edit_buffer(a: AppState, b: AppState) -> bool {
    a.edit_buffer == b.edit_buffer && a.cursor_position == b.cursor_position
}

/// The message banner and its timestamp are the same.
pub open spec fn same_message(a: AppState, b: AppState) -> bool {
    a.error_message == b.error_message && a.message_time == b.message_time
}

/// The six form texts and the edited book id are the same.
pub open spec fn same_form_texts(a: AppState, b: AppState) -> bool {
    a.form_title == b.form_title && a.form_authors == b.form_authors && a.form_translators
        == b.form_translators && a.form_genre == b.form_genre && a.form_pages == b.form_pages
        && a.form_pub_year == b.form_pub_year && a.editing_book_id == b.editing_book_id
}

/// The two selector highlights are the same.
pub open spec fn same_pickers(a: AppState, b: AppState) -> bool {
    a.genre_selected_index == b.genre_selected_index && a.year_selected_index
        == b.year_selected_index
}

/// Everything except mode, screen and back stack is the same.
pub open spec fn same_but_nav(a: AppState, b: AppState) -> bool {
    &&& same_books(a, b)
    &&& same_selection(a, b)
    &&& same_edit_buffer(a, b)
    &&& same_message(a, b)
    &&& same_form_texts(a, b)
    &&& same_pickers(a, b)
    &&& a.search_query == b.search_query
    &&& a.should_quit == b.should_quit
    &&& a.editing_review_index == b.editing_review_index
    &&& a.form_field_index == b.form_field_index
    &&& a.current_year == b.current_year
}

impl AppState {
    /// Well-formedness: the form cursor inside its six fields, the selector
    /// highlights inside their lists, the startup year plausible, the book
    /// cursor inside the cache (0 when the cache is empty), and the review
    /// cursor inside the selected book's reviews. The search cursor has no
    /// invariant here: its collection — the filtered view — is recomputed on
    /// demand by every consumer, and each consumer bound-checks against the
    /// live count.
    pub open spec fn wf(self) -> bool {
        &&& self.form_field_index < 6
        &&& self.genre_selected_index < 5
        &&& 1900 <= self.current_year <= 100_000
        &&& self.year_selected_index < year_count(self.current_year as int)
        &&& (self.books@.len() == 0 ==> self.selected_book_index == 0)
        &&& (self.books@.len() > 0 ==> self.selected_book_index < self.books@.len())
        &&& review_cursor_ok(self)
    }

    /// The initial state: normal mode on the book list, nothing loaded,
    /// every cursor at 0, every text empty.
    pub fn new(current_year: u32) -> (r: AppState)
        requires
            1900 <= current_year <= 100_000,
        ensures
            r.mode == AppMode::Normal,
            r.current_screen == Screen::BookList,
            r.selected_book_index == 0,
            r.selected_review_index == 0,
            r.edit_buffer@ == Seq::<char>::empty(),
            r.cursor_position == 0,
            r.search_query@ == Seq::<char>::empty(),
            r.search_selected_index == 0,
            !r.should_quit,
            r.previous_screen is None,
            r.books@.len() == 0,
            r.error_message is None,
            r.message_time is None,
            r.editing_review_index is None,
            r.form_field_index == 0,
            r.form_title@ == Seq::<char>::empty(),
            r.form_authors@ == Seq::<char>::empty(),
            r.form_translators@ == Seq::<char>::empty(),
            r.form_genre@ == Seq::<char>::empty(),
            r.form_pages@ == Seq::<char>::empty(),
            r.form_pub_year@ == Seq::<char>::empty(),
            r.editing_book_id is None,
            r.genre_selected_index == 0,
            r.year_selected_index == 0,
            r.current_year == current_year,
            r.wf(),
    {
        AppState {
            mode: AppMode::Normal,
            current_screen: Screen::BookList,
            selected_book_index: 0,
            selected_review_index: 0,
            edit_buffer: String::new(),
            cursor_position: 0,
            search_query: String::new(),
            search_selected_index: 0,
            should_quit: false,
            previous_screen: None,
            books: Vec::new(),
            error_message: None,
            message_time: None,
            editing_review_index: None,
            form_field_index: 0,
            form_title: String::new(),
            form_authors: String::new(),
            form_translators: String::new(),
            form_genre: String::new(),
            form_pages: String::new(),
            form_pub_year: String::new(),
            editing_book_id: None,
            genre_selected_index: 0,
            year_selected_index: 0,
            current_year,
        }
    }

    /// The genres the genre selector offers.
    pub fn get_genres() -> (r: Vec<&'static str>)
        ensures
            r@.len() == 5,
            forall|i: int| 0 <= i < 5 ==> r@[i]@ == spec_genres()[i],
    {
        let mut r: Vec<&'static str> = Vec::new();
        r.push("소설");
        r.push("에세이");
        r.push("자기계발");
        r.push("기술/IT");
        r.push("기타");
        proof {
            assert(r@.len() == 5);
            assert(r@[0]@ == spec_genres()[0]);
            assert(r@[1]@ == spec_genres()[1]);
            assert(r@[2]@ == spec_genres()[2]);
            assert(r@[3]@ == spec_genres()[3]);
            assert(r@[4]@ == spec_genres()[4]);
        }
        r
    }

    /// Shows `screen`, remembering the one it replaces for `go_back`.
    pub fn set_screen(&mut self, screen: Screen)
        ensures
            final(self).current_screen == screen,
            final(self).previous_screen == Some(old(self).current_screen),
            final(self).mode == old(self).mode,
            same_but_nav(*final(self), *old(self)),
    {
        self.previous_screen = Some(self.current_screen);
        self.current_screen = screen;
    }

    /// Returns to the remembered screen, if any, and forgets it.
    pub fn go_back(&mut self)
        ensures
            old(self).previous_screen matches Some(p) ==> final(self).current_screen == p,
            old(self).previous_screen is None ==> final(self).current_screen == old(self).current_screen,
            final(self).previous_screen is None,
            final(self).mode == old(self).mode,
            same_but_nav(*final(self), *old(self)),
    {
        if let Some(prev_screen) = self.previous_screen.take() {
            self.current_screen = prev_screen;
        }
    }

    /// Enters edit mode with `initial_text` in the single-line buffer, the
    /// cursor at its end.
    pub fn enter_edit_mode(&mut self, initial_text: String)
        ensures
            final(self).mode == AppMode::Edit,
            final(self).edit_buffer@ == initial_text@,
            final(self).cursor_position == initial_text@.len(),
            same_screen(*final(self), *old(self)),
            same_books(*final(self), *old(self)),
            same_selection(*final(self), *old(self)),
            same_message(*final(self), *old(self)),
            same_form_texts(*final(self), *old(self)),
            same_pickers(*final(self), *old(self)),
            final(self).search_query == old(self).search_query,
            final(self).should_quit == old(self).should_quit,
            final(self).editing_review_index == old(self).editing_review_index,
            final(self).form_field_index == old(self).form_field_index,
            final(self).current_year == old(self).current_year,
    {
        self.mode = AppMode::Edit;
        let len = initial_text.as_str().unicode_len();
        self.edit_buffer = initial_text;
        self.cursor_position = len;
    }

    /// Leaves edit mode, returning the buffer's text and clearing it.
    pub fn exit_edit_mode(&mut self) -> (r: String)
        ensures
            r@ == old(self).edit_buffer@,
            final(self).mode == AppMode::Normal,
            final(self).edit_buffer@ == Seq::<char>::empty(),
            final(self).cursor_position == 0,
            same_screen(*final(self), *old(self)),
            same_books(*final(self), *old(self)),
            same_selection(*final(self), *old(self)),
            same_message(*final(self), *old(self)),
            same_form_texts(*final(self), *old(self)),
            same_pickers(*final(self), *old(self)),
            final(self).search_query == old(self).search_query,
            final(self).should_quit == old(self).should_quit,
            final(self).editing_review_index == old(self).editing_review_index,
            final(self).form_field_index == old(self).form_field_index,
            final(self).current_year == old(self).current_year,
    {
        self.mode = AppMode::Normal;
        let text = self.edit_buffer.clone();
        self.edit_buffer = String::new();
        self.cursor_position = 0;
        text
    }

    /// Leaves edit mode discarding the buffer.
    pub fn cancel_edit_mode(&mut self)
        ensures
            final(self).mode == AppMode::Normal,
            final(self).edit_buffer@ == Seq::<char>::empty(),
            final(self).cursor_position == 0,
            same_screen(*final(self), *old(self)),
            same_books(*final(self), *old(self)),
            same_selection(*final(self), *old(self)),
            same_message(*final(self), *old(self)),
            same_form_texts(*final(self), *old(self)),
            same_pickers(*final(self), *old(self)),
            final(self).search_query == old(self).search_query,
            final(self).should_quit == old(self).should_quit,
            final(self).editing_review_index == old(self).editing_review_index,
            final(self).form_field_index == old(self).form_field_index,
            final(self).current_year == old(self).current_year,
    {
        self.mode = AppMode::Normal;
        self.edit_buffer = String::new();
        self.cursor_position = 0;
    }

    /// Posts `message` to the banner, stamped with the caller's clock.
    pub fn set_message(&mut self, message: String, now_ms: u64)
        ensures
            final(self).error_message == Some(message),
            final(self).message_time == Some(now_ms),
            final(self).mode == old(self).mode,
            same_screen(*final(self), *old(self)),
            same_books(*final(self), *old(self)),
            same_selection(*final(self), *old(self)),
            same_edit_buffer(*final(self), *old(self)),
            same_form_texts(*final(self), *old(self)),
            same_pickers(*final(self), *old(self)),
            final(self).search_query == old(self).search_query,
            final(self).should_quit == old(self).should_quit,
            final(self).editing_review_index == old(self).editing_review_index,
            final(self).form_field_index == old(self).form_field_index,
            final(self).current_year == old(self).current_year,
    {
        self.error_message = Some(message);
        self.message_time = Some(now_ms);
    }

    /// Clears the banner once three seconds have passed since it was posted;
    /// otherwise leaves everything as it is.
    pub fn clear_expired_message(&mut self, now_ms: u64)
        ensures
            (old(self).message_time matches Some(t) && now_ms >= t + 3000) ==> final(self).error_message is None && final(self).message_time is None,
            !(old(self).message_time matches Some(t) && now_ms >= t + 3000) ==> same_message(
                *final(self),
                *old(self),
            ),
            final(self).mode == old(self).mode,
            same_screen(*final(self), *old(self)),
            same_books(*final(self), *old(self)),
            same_selection(*final(self), *old(self)),
            same_edit_buffer(*final(self), *old(self)),
            same_form_texts(*final(self), *old(self)),
            same_pickers(*final(self), *old(self)),
            final(self).search_query == old(self).search_query,
            final(self).should_quit == old(self).should_quit,
            final(self).editing_review_index == old(self).editing_review_index,
            final(self).form_field_index == old(self).form_field_index,
            final(self).current_year == old(self).current_year,
    {
        if let Some(t) = self.message_time {
            if now_ms >= t && now_ms - t >= 3000 {
                self.error_message = None;
                self.message_time = None;
            }
        }
    }

    /// Resets the whole form: every text empty, every cursor at 0, no book
    /// being edited.
    pub fn clear_form(&mut self)
        ensures
            final(self).form_field_index == 0,
            final(self).form_title@ == Seq::<char>::empty(),
            final(self).form_authors@ == Seq::<char>::empty(),
            final(self).form_translators@ == Seq::<char>::empty(),
            final(self).form_genre@ == Seq::<char>::empty(),
            final(self).form_pages@ == Seq::<char>::empty(),
            final(self).form_pub_year@ == Seq::<char>::empty(),
            final(self).editing_book_id is None,
            final(self).genre_selected_index == 0,
            final(self).year_selected_index == 0,
            final(self).mode == old(self).mode,
            same_screen(*final(self), *old(self)),
            same_books(*final(self), *old(self)),
            same_selection(*final(self), *old(self)),
            same_edit_buffer(*final(self), *old(self)),
            same_message(*final(self), *old(self)),
            final(self).search_query == old(self).search_query,
            final(self).should_quit == old(self).should_quit,
            final(self).editing_review_index == old(self).editing_review_index,
            final(self).current_year == old(self).current_year,
    {
        self.form_field_index = 0;
        self.form_title = String::new();
        self.form_authors = String::new();
        self.form_translators = String::new();
        self.form_genre = String::new();
        self.form_pages = String::new();
        self.form_pub_year = String::new();
        self.editing_book_id = None;
        self.genre_selected_index = 0;
        self.year_selected_index = 0;
    }

    /// Moves to the next form field, wrapping after the last.
    pub fn next_form_field(&mut self)
        requires
            old(self).wf(),
        ensures
            final(self).form_field_index == (old(self).form_field_index + 1) % 6,
            final(self).mode == old(self).mode,
            same_screen(*final(self), *old(self)),
            same_books(*final(self), *old(self)),
            same_selection(*final(self), *old(self)),
            same_edit_buffer(*final(self), *old(self)),
            same_message(*final(self), *old(self)),
            same_form_texts(*final(self), *old(self)),
            same_pickers(*final(self), *old(self)),
            final(self).search_query == old(self).search_query,
            final(self).should_quit == old(self).should_quit,
            final(self).editing_review_index == old(self).editing_review_index,
            final(self).current_year == old(self).current_year,
            final(self).wf(),
    {
        self.form_field_index = (self.form_field_index + 1) % 6;
    }

    /// Moves to the previous form field, wrapping before the first.
    pub fn prev_form_field(&mut self)
        requires
            old(self).wf(),
        ensures
            final(self).form_field_index == if old(self).form_field_index == 0 {
                5int
            } else {
                old(self).form_field_index - 1
            },
            final(self).mode == old(self).mode,
            same_screen(*final(self), *old(self)),
            same_books(*final(self), *old(self)),
            same_selection(*final(self), *old(self)),
            same_edit_buffer(*final(self), *old(self)),
            same_message(*final(self), *old(self)),
            same_form_texts(*final(self), *old(self)),
            same_pickers(*final(self), *old(self)),
            final(self).search_query == old(self).search_query,
            final(self).should_quit == old(self).should_quit,
            final(self).editing_review_index == old(self).editing_review_index,
            final(self).current_year == old(self).current_year,
            final(self).wf(),
    {
        if self.form_field_index == 0 {
            self.form_field_index = 5;
        } else {
            self.form_field_index = self.form_field_index - 1;
        }
    }

    /// The current form field's text.
    pub fn get_current_form_field_value(&self) -> (r: String)
        ensures
            r@ == form_field_value(*self, self.form_field_index as int),
    {
        match self.form_field_index {
            0 => self.form_title.clone(),
            1 => self.form_authors.clone(),
            2 => self.form_translators.clone(),
            3 => self.form_genre.clone(),
            4 => self.form_pages.clone(),
            5 => self.form_pub_year.clone(),
            _ => String::new(),
        }
    }

    /// Replaces the current form field's text with `value`.
    pub fn set_current_form_field_value(&mut self, value: String)
        ensures
            final(self).form_title@ == if old(self).form_field_index == 0 {
                value@
            } else {
                old(self).form_title@
            },
            final(self).form_authors@ == if old(self).form_field_index == 1 {
                value@
            } else {
                old(self).form_authors@
            },
            final(self).form_translators@ == if old(self).form_field_index == 2 {
                value@
            } else {
                old(self).form_translators@
            },
            final(self).form_genre@ == if old(self).form_field_index == 3 {
                value@
            } else {
                old(self).form_genre@
            },
            final(self).form_pages@ == if old(self).form_field_index == 4 {
                value@
            } else {
                old(self).form_pages@
            },
            final(self).form_pub_year@ == if old(self).form_field_index == 5 {
                value@
            } else {
                old(self).form_pub_year@
            },
            final(self).editing_book_id == old(self).editing_book_id,
            final(self).mode == old(self).mode,
            same_screen(*final(self), *old(self)),
            same_books(*final(self), *old(self)),
            same_selection(*final(self), *old(self)),
            same_edit_buffer(*final(self), *old(self)),
            same_message(*final(self), *old(self)),
            same_pickers(*final(self), *old(self)),
            final(self).search_query == old(self).search_query,
            final(self).should_quit == old(self).should_quit,
            final(self).editing_review_index == old(self).editing_review_index,
            final(self).form_field_index == old(self).form_field_index,
            final(self).current_year == old(self).current_year,
    {
        match self.form_field_index {
            0 => self.form_title = value,
            1 => self.form_authors = value,
            2 => self.form_translators = value,
            3 => self.form_genre = value,
            4 => self.form_pages = value,
            5 => self.form_pub_year = value,
            _ => {},
        }
    }

    /// The current form field's display name.
    pub fn get_current_form_field_name(&self) -> (r: &'static str)
        ensures
            r@ == form_field_name(self.form_field_index as int),
    {
        match self.form_field_index {
            0 => "제목",
            1 => "저자",
            2 => "번역자",
            3 => "장르",
            4 => "페이지",
            5 => "출간년도",
            _ => "알 수 없음",
        }
    }

    /// Checks the form in the fixed order title, authors, genre, pages,
    /// year: the first three must not be blank; the last two may be blank
    /// but must otherwise be plain digit strings that fit a `u32`. The first
    /// failing rule's message is returned.
    pub fn validate_form(&self) -> (r: Result<(), String>)
        ensures
            r is Ok <==> (!is_blank(self.form_title@) && !is_blank(self.form_authors@)
                && !is_blank(self.form_genre@) && optional_number_ok(self.form_pages@)
                && optional_number_ok(self.form_pub_year@)),
            r matches Err(m) ==> m@ == form_error_message(*self),
    {
        if str_is_blank(self.form_title.as_str()) {
            return Err(String::from_str("제목을 입력해주세요"));
        }
        if str_is_blank(self.form_authors.as_str()) {
            return Err(String::from_str("저자를 입력해주세요"));
        }
        if str_is_blank(self.form_genre.as_str()) {
            return Err(String::from_str("장르를 입력해주세요"));
        }
        if !str_is_blank(self.form_pages.as_str()) {
            let trimmed = trim_str(self.form_pages.as_str());
            if parse_u32(trimmed.as_str()).is_none() {
                return Err(String::from_str("페이지 수는 숫자여야 합니다"));
            }
        }
        if !str_is_blank(self.form_pub_year.as_str()) {
            let trimmed = trim_str(self.form_pub_year.as_str());
            if parse_u32(trimmed.as_str()).is_none() {
                return Err(String::from_str("출간년도는 숫자여야 합니다"));
            }
        }
        Ok(())
    }

    /// Moves the genre highlight up one entry, stopping at the top.
    pub fn move_genre_up(&mut self)
        ensures
            final(self).genre_selected_index == if old(self).genre_selected_index > 0 {
                old(self).genre_selected_index - 1
            } else {
                0int
            },
            final(self).year_selected_index == old(self).year_selected_index,
            unchanged_but_pickers(*final(self), *old(self)),
    {
        if self.genre_selected_index > 0 {
            self.genre_selected_index = self.genre_selected_index - 1;
        }
    }

    /// Moves the genre highlight down one entry, stopping at the last genre.
    pub fn move_genre_down(&mut self)
        ensures
            final(self).genre_selected_index == if old(self).genre_selected_index + 1 < 5 {
                old(self).genre_selected_index + 1
            } else {
                old(self).genre_selected_index as int
            },
            final(self).year_selected_index == old(self).year_selected_index,
            unchanged_but_pickers(*final(self), *old(self)),
    {
        if self.genre_selected_index < 4 {
            self.genre_selected_index = self.genre_selected_index + 1;
        }
    }

    /// The highlighted genre; a fallback name if the highlight is somehow
    /// outside the list.
    pub fn get_selected_genre(&self) -> (r: &'static str)
        ensures
            self.genre_selected_index < 5 ==> r@ == spec_genres()[self.genre_selected_index as int],
            self.genre_selected_index >= 5 ==> r@ == "Fiction"@,
    {
        let genres = Self::get_genres();
        if self.genre_selected_index < genres.len() {
            genres[self.genre_selected_index]
        } else {
            "Fiction"
        }
    }

    /// Commits the highlighted genre into the form's genre field.
    pub fn select_current_genre(&mut self)
        requires
            old(self).wf(),
        ensures
            final(self).form_genre@ == spec_genres()[old(self).genre_selected_index as int],
            final(self).form_title == old(self).form_title,
            final(self).form_authors == old(self).form_authors,
            final(self).form_translators == old(self).form_translators,
            final(self).form_pages == old(self).form_pages,
            final(self).form_pub_year == old(self).form_pub_year,
            final(self).editing_book_id == old(self).editing_book_id,
            final(self).mode == old(self).mode,
            same_screen(*final(self), *old(self)),
            same_books(*final(self), *old(self)),
            same_selection(*final(self), *old(self)),
            same_edit_buffer(*final(self), *old(self)),
            same_message(*final(self), *old(self)),
            same_pickers(*final(self), *old(self)),
            final(self).search_query == old(self).search_query,
            final(self).should_quit == old(self).should_quit,
            final(self).editing_review_index == old(self).editing_review_index,
            final(self).form_field_index == old(self).form_field_index,
            final(self).current_year == old(self).current_year,
            final(self).wf(),
    {
        let selected_genre = self.get_selected_genre();
        self.form_genre = String::from_str(selected_genre);
    }

    /// Whether the form cursor stands on the genre field.
    pub fn is_genre_field(&self) -> (r: bool)
        ensures
            r == (self.form_field_index == 3),
    {
        self.form_field_index == 3
    }

    /// Whether the form cursor stands on the publication year field.
    pub fn is_year_field(&self) -> (r: bool)
        ensures
            r == (self.form_field_index == 5),
    {
        self.form_field_index == 5
    }

    /// The years the year selector offers: the current year down to 1900.
    pub fn get_years(&self) -> (r: Vec<u32>)
        requires
            self.wf(),
        ensures
            r@.len() == year_count(self.current_year as int),
            forall|i: int| 0 <= i < r@.len() ==> r@[i] == self.current_year - i,
    {
        let mut r: Vec<u32> = Vec::new();
        let count: u32 = self.current_year - 1899;
        let mut i: u32 = 0;
        while i < count
            invariant
                count == year_count(self.current_year as int),
                self.current_year <= 100_000,
                0 <= i <= count,
                r@.len() == i,
                forall|j: int| 0 <= j < i ==> r@[j] == self.current_year - j,
            decreases count - i,
        {
            r.push(self.current_year - i);
            i = i + 1;
        }
        r
    }

    /// Moves the year highlight up one entry, stopping at the top.
    pub fn move_year_up(&mut self)
        ensures
            final(self).year_selected_index == if old(self).year_selected_index > 0 {
                old(self).year_selected_index - 1
            } else {
                0int
            },
            final(self).genre_selected_index == old(self).genre_selected_index,
            unchanged_but_pickers(*final(self), *old(self)),
    {
        if self.year_selected_index > 0 {
            self.year_selected_index = self.year_selected_index - 1;
        }
    }

    /// Moves the year highlight down one entry, stopping at the last year.
    pub fn move_year_down(&mut self)
        requires
            old(self).wf(),
        ensures
            final(self).year_selected_index == if old(self).year_selected_index + 1 < year_count(
                old(self).current_year as int,
            ) {
                old(self).year_selected_index + 1
            } else {
                old(self).year_selected_index as int
            },
            final(self).genre_selected_index == old(self).genre_selected_index,
            unchanged_but_pickers(*final(self), *old(self)),
            final(self).wf(),
    {
        let count: u32 = self.current_year - 1899;
        if self.year_selected_index < usize::MAX && self.year_selected_index + 1 < count as usize {
            self.year_selected_index = self.year_selected_index + 1;
        }
    }

    /// The highlighted year; a fallback year if the highlight is somehow
    /// outside the list.
    pub fn get_selected_year(&self) -> (r: u32)
        requires
            self.wf(),
        ensures
            r == self.current_year - self.year_selected_index,
    {
        let count: u32 = self.current_year - 1899;
        if self.year_selected_index < count as usize {
            self.current_year - (self.year_selected_index as u32)
        } else {
            2024
        }
    }

    /// Commits the highlighted year into the form's year field, in decimal.
    pub fn select_current_year(&mut self)
        requires
            old(self).wf(),
        ensures
            final(self).form_pub_year@ == dec_seq(
                (old(self).current_year - old(self).year_selected_index) as nat,
            ),
            final(self).form_title == old(self).form_title,
            final(self).form_authors == old(self).form_authors,
            final(self).form_translators == old(self).form_translators,
            final(self).form_genre == old(self).form_genre,
            final(self).form_pages == old(self).form_pages,
            final(self).editing_book_id == old(self).editing_book_id,
            final(self).mode == old(self).mode,
            same_screen(*final(self), *old(self)),
            same_books(*final(self), *old(self)),
            same_selection(*final(self), *old(self)),
            same_edit_buffer(*final(self), *old(self)),
            same_message(*final(self), *old(self)),
            same_pickers(*final(self), *old(self)),
            final(self).search_query == old(self).search_query,
            final(self).should_quit == old(self).should_quit,
            final(self).editing_review_index == old(self).editing_review_index,
            final(self).form_field_index == old(self).form_field_index,
            final(self).current_year == old(self).current_year,
            final(self).wf(),
    {
        let selected_year = self.get_selected_year();
        self.form_pub_year = u32_to_string(selected_year);
    }
}

/// The text of form field `i` in state `s` (empty for an index past the six
/// fields).
pub open spec fn form_field_value(s: AppState, i: int) -> Seq<char> {
    if i == 0 {
        s.form_title@
    } else if i == 1 {
        s.form_authors@
    } else if i == 2 {
        s.form_translators@
    } else if i == 3 {
        s.form_genre@
    } else if i == 4 {
        s.form_pages@
    } else if i == 5 {
        s.form_pub_year@
    } else {
        Seq::<char>::empty()
    }
}

/// The display name of form field `i`.
pub open spec fn form_field_name(i: int) -> Seq<char> {
    if i == 0 {
        "제목"@
    } else if i == 1 {
        "저자"@
    } else if i == 2 {
        "번역자"@
    } else if i == 3 {
        "장르"@
    } else if i == 4 {
        "페이지"@
    } else if i == 5 {
        "출간년도"@
    } else {
        "알 수 없음"@
    }
}

/// The review cursor lies inside the selected book's reviews: 0 when there
/// is no selected book or it has no reviews, strictly below the review count
/// otherwise.
pub open spec fn review_cursor_ok(s: AppState) -> bool {
    if s.books@.len() == 0 {
        s.selected_review_index == 0
    } else {
        let rlen = s.books@[s.selected_book_index as int].reviews@.len();
        if rlen == 0 {
            s.selected_review_index == 0
        } else {
            s.selected_review_index < rlen
        }
    }
}

/// The message the form validator returns for state `s`: the first failing
/// rule's text, in the fixed order title, authors, genre, pages, year.
pub open spec fn form_error_message(s: AppState) -> Seq<char> {
    if is_blank(s.form_title@) {
        "제목을 입력해주세요"@
    } else if is_blank(s.form_authors@) {
        "저자를 입력해주세요"@
    } else if is_blank(s.form_genre@) {
        "장르를 입력해주세요"@
    } else if !optional_number_ok(s.form_pages@) {
        "페이지 수는 숫자여야 합니다"@
    } else {
        "출간년도는 숫자여야 합니다"@
    }
}

/// Everything except the two selector highlights is the same.
pub open spec fn unchanged_but_pickers(a: AppState, b: AppState) -> bool {
    &&& a.mode == b.mode
    &&& same_screen(a, b)
    &&& same_books(a, b)
    &&& same_selection(a, b)
    &&& same_edit_buffer(a, b)
    &&& same_message(a, b)
    &&& a.form_title == b.form_title
    &&& a.form_authors == b.form_authors
    &&& a.form_translators == b.form_translators
    &&& a.form_genre == b.form_genre
    &&& a.form_pages == b.form_pages
    &&& a.form_pub_year == b.form_pub_year
    &&& a.editing_book_id == b.editing_book_id
    &&& a.search_query == b.search_query
    &&& a.should_quit == b.should_quit
    &&& a.editing_review_index == b.editing_review_index
    &&& a.form_field_index == b.form_field_index
    &&& a.current_year == b.current_year
}

} // verus!
