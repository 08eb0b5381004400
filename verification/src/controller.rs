//! The controller: it applies a semantic action to the application state and
//! the active text editor, and turns the outcomes of store calls back into
//! state.
//!
//! The controller never talks to a store itself. Where a step needs one, it
//! returns an [`Effect`] describing the call to make; the caller performs
//! it, reloads the books, and hands the result to the matching `finish`
//! function. Everything the controller decides is therefore a pure, verified
//! function of its inputs.

use vstd::prelude::*;

use crate::date::Date;
use crate::events::KeyAction;
use crate::input::editor_of_text;
use crate::input::join_lines;
use crate::input::EditorModel;
use crate::input::TextInput;
use crate::models::ExtendedBook;
use crate::models::NewBook;
use crate::models::NewReview;
use crate::models::Review;
use crate::search::count_matches;
use crate::search::lower_of;
use crate::search::match_count;
use crate::search::nth_match_from;
use crate::search::nth_match_index;
use crate::state::same_books;
use crate::state::same_edit_buffer;
use crate::state::same_message;
use crate::state::same_pickers;
use crate::state::same_screen;
use crate::state::same_selection;
use crate::state::form_field_value;
use crate::state::spec_genres;
use crate::state::AppMode;
use crate::state::AppState;
use crate::state::Screen;
use crate::text::chars_to_string;
use crate::text::dec_i64;
use crate::text::i64_to_string;
use crate::text::is_blank;
use crate::text::parse_u32;
use crate::text::str_chars;
use crate::text::trim_spec;
use crate::text::trim_str;
use crate::text::str_eq;

verus! {

/// A store call the controller asks its caller to perform.
#[derive(Debug, Clone)]
pub enum Effect {
    /// Create this book.
    AddBook(NewBook),
    /// Create this review.
    AddReview(NewReview),
    /// Replace the review with this id by this record.
    UpdateReview(i64, Review),
    /// Delete the book with this id.
    DeleteBook(i64),
    /// Delete the review with this id.
    DeleteReview(i64),
}

/// How a store call, followed by the reload of the book list, went.
#[derive(Debug, Clone)]
pub enum StoreOutcome {
    /// The call itself failed; carries the error's display text.
    Failed(String),
    /// The call succeeded but reloading the books failed.
    ReloadFailed(String),
    /// The call succeeded; carries the freshly loaded books.
    Reloaded(Vec<ExtendedBook>),
}

/// An index clamped into a collection of `len` items: kept when inside,
/// pulled to the last item when past the end, and 0 when the collection is
/// empty.
pub open spec fn clamp_index(i: int, len: int) -> int {
    if len == 0 {
        0
    } else if i < len {
        i
    } else {
        len - 1
    }
}

/// Where the review cursor lands after the book list becomes `books` and
/// the book cursor becomes `book_idx`: clamped into the selected book's
/// review list, or 0 when there is no book to select.
pub open spec fn review_clamp(idx: int, books: Seq<ExtendedBook>, book_idx: int) -> int {
    if books.len() == 0 {
        0
    } else {
        clamp_index(idx, books[book_idx].reviews@.len() as int)
    }
}

/// Splits a character sequence at every comma; separators are dropped and
/// empty parts kept, so `n` commas give `n + 1` parts.
pub open spec fn split_commas(s: Seq<char>) -> Seq<Seq<char>>
    decreases s.len(),
{
    if s.len() == 0 {
        seq![Seq::<char>::empty()]
    } else {
        let rest = split_commas(s.drop_last());
        if s.last() == ',' {
            rest.push(Seq::<char>::empty())
        } else {
            rest.update(rest.len() - 1, rest.last().push(s.last()))
        }
    }
}

/// Each part trimmed, with the parts that trim to nothing dropped.
pub open spec fn clean_names(parts: Seq<Seq<char>>) -> Seq<Seq<char>>
    decreases parts.len(),
{
    if parts.len() == 0 {
        Seq::<Seq<char>>::empty()
    } else {
        let rest = clean_names(parts.drop_last());
        let t = trim_spec(parts.last());
        if t.len() == 0 {
            rest
        } else {
            rest.push(t)
        }
    }
}

/// The name list a comma-separated form field denotes.
pub open spec fn names_of_field(s: Seq<char>) -> Seq<Seq<char>> {
    clean_names(split_commas(s))
}

proof fn lemma_split_commas_nonempty(s: Seq<char>)
    ensures
        split_commas(s).len() >= 1,
    decreases s.len(),
{
    if s.len() > 0 {
        lemma_split_commas_nonempty(s.drop_last());
    }
}

/// Splits a comma-separated field into trimmed, non-empty names.
pub fn split_names(s: &str) -> (r: Vec<String>)
    ensures
        r@.map_values(|x: String| x@) == names_of_field(s@),
{
    let chars = str_chars(s);
    let mut parts: Vec<Vec<char>> = Vec::new();
    parts.push(Vec::new());
    let mut i: usize = 0;
    proof {
        assert(parts@.map_values(|l: Vec<char>| l@) =~= split_commas(s@.subrange(0, 0)));
    }
    while i < chars.len()
        invariant
            chars@ == s@,
            0 <= i <= chars@.len(),
            parts@.len() >= 1,
            parts@.map_values(|l: Vec<char>| l@) =~= split_commas(s@.subrange(0, i as int)),
        decreases chars@.len() - i,
    {
        let ghost prefix = s@.subrange(0, i as int);
        let ghost next = s@.subrange(0, i + 1);
        proof {
            assert(next.drop_last() =~= prefix);
            lemma_split_commas_nonempty(prefix);
        }
        let c = chars[i];
        if c == ',' {
            parts.push(Vec::new());
            proof {
                assert(parts@.map_values(|l: Vec<char>| l@) =~= split_commas(next));
            }
        } else {
            let last = parts.len() - 1;
            parts[last].push(c);
            proof {
                assert(parts@.map_values(|l: Vec<char>| l@) =~= split_commas(next));
            }
        }
        i = i + 1;
    }
    proof {
        assert(s@.subrange(0, s@.len() as int) =~= s@);
    }
    let ghost all_parts = parts@.map_values(|l: Vec<char>| l@);
    let mut out: Vec<String> = Vec::new();
    let mut j: usize = 0;
    proof {
        assert(out@.map_values(|x: String| x@) =~= clean_names(all_parts.subrange(0, 0)));
    }
    while j < parts.len()
        invariant
            all_parts == parts@.map_values(|l: Vec<char>| l@),
            parts@.len() == all_parts.len(),
            0 <= j <= all_parts.len(),
            out@.map_values(|x: String| x@) =~= clean_names(all_parts.subrange(0, j as int)),
        decreases all_parts.len() - j,
    {
        let ghost prefix = all_parts.subrange(0, j as int);
        let ghost next = all_parts.subrange(0, j + 1);
        proof {
            assert(next.drop_last() =~= prefix);
        }
        let part = chars_to_string(&parts[j]);
        let trimmed = trim_str(part.as_str());
        if trimmed.as_str().unicode_len() > 0 {
            out.push(trimmed);
            proof {
                assert(out@.map_values(|x: String| x@) =~= clean_names(next));
            }
        } else {
            proof {
                assert(out@.map_values(|x: String| x@) =~= clean_names(next));
            }
        }
        j = j + 1;
    }
    proof {
        assert(all_parts.subrange(0, all_parts.len() as int) =~= all_parts);
    }
    out
}

/// The first position in `books` holding the book with this store id.
pub open spec fn first_index_with_id(books: Seq<ExtendedBook>, id: i64, i: int) -> Option<int>
    decreases books.len() - i,
{
    if i < 0 || i >= books.len() {
        None
    } else if books[i].book.id == Some(id) {
        Some(i)
    } else {
        first_index_with_id(books, id, i + 1)
    }
}

/// Finds the position of the book with store id `id`, if it was loaded.
pub fn find_book_index(books: &Vec<ExtendedBook>, id: i64) -> (r: Option<usize>)
    ensures
        r matches Some(k) ==> Some(k as int) == first_index_with_id(books@, id, 0) && k
            < books@.len(),
        r is None ==> first_index_with_id(books@, id, 0) is None,
{
    let mut i: usize = 0;
    while i < books.len()
        invariant
            0 <= i <= books@.len(),
            first_index_with_id(books@, id, 0) == first_index_with_id(books@, id, i as int),
        decreases books@.len() - i,
    {
        let found = match books[i].book.id {
            Some(existing) => existing == id,
            None => false,
        };
        if found {
            return Some(i);
        }
        i = i + 1;
    }
    None
}

/// Takes a freshly loaded book list into the state, or records why loading
/// failed: on success the cache is replaced, the book cursor clamped and the
/// banner cleared; on failure the previous cache stays and the banner holds
/// the error.
pub fn load_books_result(state: &mut AppState, result: Result<Vec<ExtendedBook>, String>)
    requires
        old(state).wf(),
    ensures
        result matches Ok(books) ==> {
            &&& final(state).books == books
            &&& final(state).selected_book_index == clamp_index(
                old(state).selected_book_index as int,
                books@.len() as int,
            )
            &&& final(state).selected_review_index == review_clamp(
                old(state).selected_review_index as int,
                books@,
                final(state).selected_book_index as int,
            )
            &&& final(state).error_message is None
        },
        result matches Err(e) ==> {
            &&& same_books(*final(state), *old(state))
            &&& final(state).selected_book_index == old(state).selected_book_index
            &&& final(state).selected_review_index == old(state).selected_review_index
            &&& final(state).error_message matches Some(m) && m@ == "도서 로드 실패: "@
                + e@
        },
        final(state).message_time == old(state).message_time,
        final(state).mode == old(state).mode,
        same_screen(*final(state), *old(state)),
        same_edit_buffer(*final(state), *old(state)),
        same_pickers(*final(state), *old(state)),
        final(state).search_selected_index == old(state).search_selected_index,
        final(state).search_query == old(state).search_query,
        final(state).should_quit == old(state).should_quit,
        final(state).editing_review_index == old(state).editing_review_index,
        final(state).form_field_index == old(state).form_field_index,
        crate::state::same_form_texts(*final(state), *old(state)),
        final(state).current_year == old(state).current_year,
        final(state).wf(),
{
    match result {
        Ok(books) => {
            state.books = books;
            state.error_message = None;
            if state.books.len() == 0 {
                state.selected_book_index = 0;
                state.selected_review_index = 0;
            } else {
                if state.selected_book_index >= state.books.len() {
                    state.selected_book_index = state.books.len() - 1;
                }
                let review_len = state.books[state.selected_book_index].reviews.len();
                if review_len == 0 {
                    state.selected_review_index = 0;
                } else if state.selected_review_index >= review_len {
                    state.selected_review_index = review_len - 1;
                }
            }
        },
        Err(e) => {
            state.error_message = Some(String::from_str("도서 로드 실패: ").concat(e.as_str()));
        },
    }
}

/// The optional number a form field denotes: blank is unset; a trimmed digit
/// string that fits an `i32` is that number; anything else is unset too (the
/// validator has already rejected non-digit text, so this last case only
/// drops digit strings too large for the store's column type).
pub open spec fn spec_opt_num(s: Seq<char>) -> Option<i32> {
    if is_blank(s) {
        None
    } else {
        let t = trim_spec(s);
        if t.len() > 0 && crate::text::all_digits(t) && crate::text::dec_value(t) <= i32::MAX {
            Some(crate::text::dec_value(t) as i32)
        } else {
            None
        }
    }
}

/// The number an optional form field denotes, as [`spec_opt_num`] says.
pub fn parse_opt_i32(s: &str) -> (r: Option<i32>)
    ensures
        r == spec_opt_num(s@),
{
    if crate::text::str_is_blank(s) {
        return None;
    }
    let trimmed = trim_str(s);
    match parse_u32(trimmed.as_str()) {
        Some(v) => {
            if v <= i32::MAX as u32 {
                Some(v as i32)
            } else {
                None
            }
        },
        None => None,
    }
}

/// Whether the add-book form passes validation, the condition under which
/// saving produces a store call.
pub open spec fn form_valid(s: AppState) -> bool {
    &&& !is_blank(s.form_title@)
    &&& !is_blank(s.form_authors@)
    &&& !is_blank(s.form_genre@)
    &&& crate::state::optional_number_ok(s.form_pages@)
    &&& crate::state::optional_number_ok(s.form_pub_year@)
}

/// How a [`NewBook`] relates to the form it was built from: title and genre
/// trimmed, the author and translator fields split at commas into trimmed
/// non-empty names (a blank translator field giving none), and the numeric
/// fields read as optional numbers.
pub open spec fn book_from_form(nb: NewBook, s: AppState) -> bool {
    &&& nb.title@ == trim_spec(s.form_title@)
    &&& nb.authors@.map_values(|a: String| a@) == names_of_field(s.form_authors@)
    &&& nb.translators@.map_values(|a: String| a@) == (if is_blank(s.form_translators@) {
        Seq::<Seq<char>>::empty()
    } else {
        names_of_field(s.form_translators@)
    })
    &&& nb.genre@ == trim_spec(s.form_genre@)
    &&& nb.pages == spec_opt_num(s.form_pages@)
    &&& nb.pub_year == spec_opt_num(s.form_pub_year@)
}

/// Validates the form and, when it passes, builds the book to create from
/// it; a failing form posts the first broken rule's message instead and asks
/// for no store call. The form itself is reset only once the store reports
/// success, through [`finish_save_book`].
pub fn handle_save_book_and_exit(state: &mut AppState, now_ms: u64) -> (r: Option<Effect>)
    requires
        old(state).wf(),
    ensures
        r is Some <==> form_valid(*old(state)),
        r matches Some(e) ==> e matches Effect::AddBook(nb) && book_from_form(nb, *old(state)),
        form_valid(*old(state)) ==> *final(state) == *old(state),
        !form_valid(*old(state)) ==> {
            &&& final(state).error_message matches Some(m) && m@ == crate::state::form_error_message(
                *old(state),
            )
            &&& final(state).message_time == Some(now_ms)
            &&& same_books(*final(state), *old(state))
            &&& same_screen(*final(state), *old(state))
            &&& final(state).mode == old(state).mode
            &&& same_selection(*final(state), *old(state))
            &&& same_edit_buffer(*final(state), *old(state))
            &&& crate::state::same_form_texts(*final(state), *old(state))
            &&& same_pickers(*final(state), *old(state))
            &&& final(state).search_query == old(state).search_query
            &&& final(state).should_quit == old(state).should_quit
            &&& final(state).editing_review_index == old(state).editing_review_index
            &&& final(state).form_field_index == old(state).form_field_index
            &&& final(state).current_year == old(state).current_year
        },
        final(state).wf(),
{
    match state.validate_form() {
        Err(msg) => {
            state.set_message(msg, now_ms);
            None
        },
        Ok(()) => {
            let title = trim_str(state.form_title.as_str());
            let authors = split_names(state.form_authors.as_str());
            let translators = if crate::text::str_is_blank(state.form_translators.as_str()) {
                Vec::new()
            } else {
                split_names(state.form_translators.as_str())
            };
            let genre = trim_str(state.form_genre.as_str());
            let pages = parse_opt_i32(state.form_pages.as_str());
            let pub_year = parse_opt_i32(state.form_pub_year.as_str());
            proof {
                assert(Seq::<String>::empty().map_values(|a: String| a@) =~= Seq::<
                    Seq<char>,
                >::empty());
            }
            Some(
                Effect::AddBook(NewBook { title, authors, translators, pages, pub_year, genre }),
            )
        },
    }
}

/// Whether saving the edited review text asks for a store call: there must
/// be a selected book with a store id, and — when an existing review is
/// being edited — that review must still exist and have a store id.
pub open spec fn review_save_possible(s: AppState) -> bool {
    &&& s.selected_book_index < s.books@.len()
    &&& s.books@[s.selected_book_index as int].book.id is Some
    &&& match s.editing_review_index {
        Some(i) => i < s.books@[s.selected_book_index as int].reviews@.len()
            && s.books@[s.selected_book_index as int].reviews@[i as int].id is Some,
        None => true,
    }
}

/// Turns the text of a finished review edit into the store call to make:
/// editing an existing review keeps its id, date and rating and replaces
/// only the text; a new review gets today's date and the default rating 5.
/// When no save is possible a banner says why, and either way the editing
/// marker is cleared.
pub fn handle_save_review(state: &mut AppState, text: &str, today: Date, now_ms: u64) -> (r: Option<
    Effect,
>)
    requires
        old(state).wf(),
    ensures
        r is Some <==> review_save_possible(*old(state)),
        r matches Some(e) ==> match old(state).editing_review_index {
            Some(i) => ({
                let existing =
                    old(state).books@[old(state).selected_book_index as int].reviews@[i as int];
                e matches Effect::UpdateReview(id, rv) && existing.id == Some(id) && rv.id
                    == existing.id && rv.book_id == existing.book_id && rv.date_read
                    == existing.date_read && rv.rating == existing.rating && rv.review@
                    == trim_spec(text@)
            }),
            None => (e matches Effect::AddReview(nr) && Some(nr.book_id) == old(state).books@[old(state).selected_book_index as int].book.id && nr.date_read == Some(today)
                && nr.rating == 5 && nr.review@ == trim_spec(text@)),
        },
        final(state).editing_review_index is None,
        r is None ==> final(state).error_message is Some && final(state).message_time == Some(
            now_ms,
        ),
        r is Some ==> same_message(*final(state), *old(state)),
        same_books(*final(state), *old(state)),
        same_screen(*final(state), *old(state)),
        final(state).mode == old(state).mode,
        same_selection(*final(state), *old(state)),
        same_edit_buffer(*final(state), *old(state)),
        crate::state::same_form_texts(*final(state), *old(state)),
        same_pickers(*final(state), *old(state)),
        final(state).search_query == old(state).search_query,
        final(state).should_quit == old(state).should_quit,
        final(state).form_field_index == old(state).form_field_index,
        final(state).current_year == old(state).current_year,
        final(state).wf(),
{
    let mut result: Option<Effect> = None;
    if state.selected_book_index < state.books.len() {
        let book_id_opt = state.books[state.selected_book_index].book.id;
        if let Some(book_id) = book_id_opt {
            match state.editing_review_index {
                Some(review_index) => {
                    if review_index < state.books[state.selected_book_index].reviews.len() {
                        let existing = &state.books[state.selected_book_index].reviews[review_index];
                        if let Some(existing_id) = existing.id {
                            let updated = Review {
                                id: existing.id,
                                book_id: existing.book_id,
                                date_read: existing.date_read,
                                rating: existing.rating,
                                review: trim_str(text),
                            };
                            result = Some(Effect::UpdateReview(existing_id, updated));
                        } else {
                            state.set_message(
                                String::from_str("❌ 수정할 리뷰를 찾을 수 없습니다"),
                                now_ms,
                            );
                        }
                    } else {
                        state.set_message(
                            String::from_str("❌ 수정할 리뷰를 찾을 수 없습니다"),
                            now_ms,
                        );
                    }
                },
                None => {
                    let new_review = NewReview {
                        book_id,
                        date_read: Some(today),
                        rating: 5,
                        review: trim_str(text),
                    };
                    result = Some(Effect::AddReview(new_review));
                },
            }
        } else {
            state.set_message(String::from_str("❌ 선택된 도서의 ID가 없습니다"), now_ms);
        }
    } else {
        state.set_message(String::from_str("❌ 도서를 선택해주세요"), now_ms);
    }
    state.editing_review_index = None;
    result
}

/// Asks for the selected book's deletion; with nothing to delete (no books,
/// or a book without a store id) a banner says so instead.
pub fn handle_delete_book(state: &mut AppState, now_ms: u64) -> (r: Option<Effect>)
    requires
        old(state).wf(),
    ensures
        r is Some <==> (old(state).books@.len() > 0 && old(state).books@[old(state).selected_book_index as int].book.id is Some),
        r matches Some(e) ==> e matches Effect::DeleteBook(id) && old(state).books@[old(state).selected_book_index as int].book.id == Some(id),
        r is Some ==> *final(state) == *old(state),
        r is None ==> {
            &&& final(state).error_message is Some
            &&& final(state).message_time == Some(now_ms)
            &&& same_books(*final(state), *old(state))
            &&& same_selection(*final(state), *old(state))
            &&& same_screen(*final(state), *old(state))
            &&& final(state).mode == old(state).mode
            &&& same_edit_buffer(*final(state), *old(state))
            &&& crate::state::same_form_texts(*final(state), *old(state))
            &&& same_pickers(*final(state), *old(state))
            &&& final(state).search_query == old(state).search_query
            &&& final(state).should_quit == old(state).should_quit
            &&& final(state).editing_review_index == old(state).editing_review_index
            &&& final(state).form_field_index == old(state).form_field_index
            &&& final(state).current_year == old(state).current_year
            &&& final(state).wf()
        },
{
    if state.books.len() == 0 {
        state.set_message(String::from_str("❌ 삭제할 도서가 없습니다"), now_ms);
        return None;
    }
    let book_id_opt = state.books[state.selected_book_index].book.id;
    match book_id_opt {
        Some(book_id) => Some(Effect::DeleteBook(book_id)),
        None => {
            state.set_message(String::from_str("❌ 도서 ID가 없습니다"), now_ms);
            None
        },
    }
}

/// Asks for the selected review's deletion; with no selected book, no review
/// under the cursor, or a review without a store id, a banner says so.
pub fn handle_delete_review(state: &mut AppState, now_ms: u64) -> (r: Option<Effect>)
    requires
        old(state).wf(),
    ensures
        r is Some <==> (old(state).selected_book_index < old(state).books@.len() && old(state).selected_review_index < old(state).books@[old(state).selected_book_index as int].reviews@.len() && old(state).books@[old(state).selected_book_index as int].reviews@[old(state).selected_review_index as int].id is Some),
        r matches Some(e) ==> e matches Effect::DeleteReview(id) && old(state).books@[old(state).selected_book_index as int].reviews@[old(state).selected_review_index as int].id == Some(
            id,
        ),
        r is Some ==> *final(state) == *old(state),
        r is None ==> {
            &&& final(state).error_message is Some
            &&& final(state).message_time == Some(now_ms)
            &&& same_books(*final(state), *old(state))
            &&& same_selection(*final(state), *old(state))
            &&& same_screen(*final(state), *old(state))
            &&& final(state).mode == old(state).mode
            &&& same_edit_buffer(*final(state), *old(state))
            &&& crate::state::same_form_texts(*final(state), *old(state))
            &&& same_pickers(*final(state), *old(state))
            &&& final(state).search_query == old(state).search_query
            &&& final(state).should_quit == old(state).should_quit
            &&& final(state).editing_review_index == old(state).editing_review_index
            &&& final(state).form_field_index == old(state).form_field_index
            &&& final(state).current_year == old(state).current_year
            &&& final(state).wf()
        },
{
    if state.selected_book_index < state.books.len() {
        if state.selected_review_index < state.books[state.selected_book_index].reviews.len() {
            let review_id_opt =
                state.books[state.selected_book_index].reviews[state.selected_review_index].id;
            match review_id_opt {
                Some(review_id) => Some(Effect::DeleteReview(review_id)),
                None => {
                    state.set_message(String::from_str("❌ 리뷰 ID가 없습니다"), now_ms);
                    None
                },
            }
        } else {
            state.set_message(String::from_str("❌ 선택된 리뷰가 없습니다"), now_ms);
            None
        }
    } else {
        state.set_message(String::from_str("❌ 도서를 선택해주세요"), now_ms);
        None
    }
}

/// Folds the outcome of a book deletion into the state. On success the fresh
/// list replaces the cache and the book cursor is clamped into it: an
/// emptied list leaves the cursor at 0, a shortened one pulls a cursor past
/// the end to the last book. Every outcome posts a banner.
pub fn finish_delete_book(state: &mut AppState, outcome: StoreOutcome, now_ms: u64)
    requires
        old(state).wf(),
    ensures
        outcome matches StoreOutcome::Failed(e) ==> {
            &&& same_books(*final(state), *old(state))
            &&& final(state).selected_book_index == old(state).selected_book_index
            &&& final(state).error_message matches Some(m) && m@ == "❌ 도서 삭제 실패: "@
                + e@
        },
        outcome matches StoreOutcome::ReloadFailed(e) ==> {
            &&& same_books(*final(state), *old(state))
            &&& final(state).selected_book_index == old(state).selected_book_index
            &&& final(state).error_message matches Some(m) && m@ == "도서 목록 로드 실패: "@
                + e@
        },
        outcome matches StoreOutcome::Reloaded(books) ==> {
            &&& final(state).books == books
            &&& final(state).selected_book_index == clamp_index(
                old(state).selected_book_index as int,
                books@.len() as int,
            )
            &&& final(state).selected_review_index == review_clamp(
                old(state).selected_review_index as int,
                books@,
                final(state).selected_book_index as int,
            )
            &&& final(state).error_message matches Some(m) && m@
                == "✅ 도서가 삭제되었습니다!"@
        },
        outcome is Failed || outcome is ReloadFailed ==> final(state).selected_review_index == old(state).selected_review_index,
        final(state).message_time == Some(now_ms),
        final(state).mode == old(state).mode,
        same_screen(*final(state), *old(state)),
        same_edit_buffer(*final(state), *old(state)),
        same_pickers(*final(state), *old(state)),
        final(state).search_selected_index == old(state).search_selected_index,
        final(state).search_query == old(state).search_query,
        final(state).should_quit == old(state).should_quit,
        final(state).editing_review_index == old(state).editing_review_index,
        final(state).form_field_index == old(state).form_field_index,
        crate::state::same_form_texts(*final(state), *old(state)),
        final(state).current_year == old(state).current_year,
        final(state).wf(),
{
    match outcome {
        StoreOutcome::Failed(e) => {
            let msg = String::from_str("❌ 도서 삭제 실패: ").concat(e.as_str());
            state.set_message(msg, now_ms);
        },
        StoreOutcome::ReloadFailed(e) => {
            let msg = String::from_str("도서 목록 로드 실패: ").concat(e.as_str());
            state.set_message(msg, now_ms);
        },
        StoreOutcome::Reloaded(books) => {
            load_books_result(state, Ok(books));
            state.set_message(String::from_str("✅ 도서가 삭제되었습니다!"), now_ms);
        },
    }
}

/// Folds the outcome of a review deletion into the state. On success the
/// cache is replaced, the book cursor clamped, and the review cursor clamped
/// into the selected book's (possibly emptied) review list, exactly as for
/// books: empty gives 0, past-the-end gives the last review.
pub fn finish_delete_review(state: &mut AppState, outcome: StoreOutcome, now_ms: u64)
    requires
        old(state).wf(),
    ensures
        outcome matches StoreOutcome::Failed(e) ==> {
            &&& same_books(*final(state), *old(state))
            &&& same_selection(*final(state), *old(state))
            &&& final(state).error_message matches Some(m) && m@ == "❌ 리뷰 삭제 실패: "@
                + e@
        },
        outcome matches StoreOutcome::ReloadFailed(e) ==> {
            &&& same_books(*final(state), *old(state))
            &&& same_selection(*final(state), *old(state))
            &&& final(state).error_message matches Some(m) && m@ == "도서 목록 로드 실패: "@
                + e@
        },
        outcome matches StoreOutcome::Reloaded(books) ==> {
            &&& final(state).books == books
            &&& final(state).selected_book_index == clamp_index(
                old(state).selected_book_index as int,
                books@.len() as int,
            )
            &&& final(state).selected_review_index == review_clamp(
                old(state).selected_review_index as int,
                books@,
                final(state).selected_book_index as int,
            )
            &&& final(state).error_message matches Some(m) && m@
                == "✅ 리뷰가 삭제되었습니다!"@
        },
        final(state).message_time == Some(now_ms),
        final(state).mode == old(state).mode,
        same_screen(*final(state), *old(state)),
        same_edit_buffer(*final(state), *old(state)),
        same_pickers(*final(state), *old(state)),
        final(state).search_selected_index == old(state).search_selected_index,
        final(state).search_query == old(state).search_query,
        final(state).should_quit == old(state).should_quit,
        final(state).editing_review_index == old(state).editing_review_index,
        final(state).form_field_index == old(state).form_field_index,
        crate::state::same_form_texts(*final(state), *old(state)),
        final(state).current_year == old(state).current_year,
        final(state).wf(),
{
    match outcome {
        StoreOutcome::Failed(e) => {
            let msg = String::from_str("❌ 리뷰 삭제 실패: ").concat(e.as_str());
            state.set_message(msg, now_ms);
        },
        StoreOutcome::ReloadFailed(e) => {
            let msg = String::from_str("도서 목록 로드 실패: ").concat(e.as_str());
            state.set_message(msg, now_ms);
        },
        StoreOutcome::Reloaded(books) => {
            load_books_result(state, Ok(books));
            state.set_message(String::from_str("✅ 리뷰가 삭제되었습니다!"), now_ms);
        },
    }
}

/// Folds the outcome of saving a review (new or updated) into the state; the
/// banner says which of the two was done, or what failed.
pub fn finish_save_review(state: &mut AppState, outcome: StoreOutcome, was_update: bool, now_ms: u64)
    requires
        old(state).wf(),
    ensures
        outcome matches StoreOutcome::Failed(e) ==> {
            &&& same_books(*final(state), *old(state))
            &&& same_selection(*final(state), *old(state))
            &&& final(state).error_message matches Some(m) && m@ == (if was_update {
                "❌ 리뷰 수정 실패: "@ + e@
            } else {
                "❌ 리뷰 저장 실패: "@ + e@
            })
        },
        outcome matches StoreOutcome::ReloadFailed(e) ==> {
            &&& same_books(*final(state), *old(state))
            &&& same_selection(*final(state), *old(state))
            &&& final(state).error_message matches Some(m) && m@ == "도서 목록 로드 실패: "@
                + e@
        },
        outcome matches StoreOutcome::Reloaded(books) ==> {
            &&& final(state).books == books
            &&& final(state).selected_book_index == clamp_index(
                old(state).selected_book_index as int,
                books@.len() as int,
            )
            &&& final(state).selected_review_index == review_clamp(
                old(state).selected_review_index as int,
                books@,
                final(state).selected_book_index as int,
            )
            &&& final(state).error_message matches Some(m) && m@ == (if was_update {
                "✅ 리뷰가 수정되었습니다!"@
            } else {
                "✅ 새 리뷰가 저장되었습니다!"@
            })
        },
        final(state).message_time == Some(now_ms),
        final(state).mode == old(state).mode,
        same_screen(*final(state), *old(state)),
        same_edit_buffer(*final(state), *old(state)),
        same_pickers(*final(state), *old(state)),
        final(state).search_selected_index == old(state).search_selected_index,
        final(state).search_query == old(state).search_query,
        final(state).should_quit == old(state).should_quit,
        final(state).editing_review_index == old(state).editing_review_index,
        final(state).form_field_index == old(state).form_field_index,
        crate::state::same_form_texts(*final(state), *old(state)),
        final(state).current_year == old(state).current_year,
        final(state).wf(),
{
    match outcome {
        StoreOutcome::Failed(e) => {
            let msg = if was_update {
                String::from_str("❌ 리뷰 수정 실패: ").concat(e.as_str())
            } else {
                String::from_str("❌ 리뷰 저장 실패: ").concat(e.as_str())
            };
            state.set_message(msg, now_ms);
        },
        StoreOutcome::ReloadFailed(e) => {
            let msg = String::from_str("도서 목록 로드 실패: ").concat(e.as_str());
            state.set_message(msg, now_ms);
        },
        StoreOutcome::Reloaded(books) => {
            load_books_result(state, Ok(books));
            let msg = if was_update {
                String::from_str("✅ 리뷰가 수정되었습니다!")
            } else {
                String::from_str("✅ 새 리뷰가 저장되었습니다!")
            };
            state.set_message(msg, now_ms);
        },
    }
}

/// Folds the outcome of saving a new book into the state. On success the
/// cache is replaced, the new book (found by its returned id) becomes the
/// selection, the form is reset, the view returns to the book list in normal
/// mode, and the banner names the new book's id.
pub fn finish_save_book(state: &mut AppState, book_id: i64, outcome: StoreOutcome, now_ms: u64)
    requires
        old(state).wf(),
    ensures
        outcome matches StoreOutcome::Failed(e) ==> {
            &&& same_books(*final(state), *old(state))
            &&& same_selection(*final(state), *old(state))
            &&& same_screen(*final(state), *old(state))
            &&& final(state).mode == old(state).mode
            &&& crate::state::same_form_texts(*final(state), *old(state))
            &&& same_pickers(*final(state), *old(state))
            &&& final(state).form_field_index == old(state).form_field_index
            &&& final(state).error_message matches Some(m) && m@ == "❌ 도서 저장 실패: "@
                + e@
        },
        outcome matches StoreOutcome::ReloadFailed(e) ==> {
            &&& same_books(*final(state), *old(state))
            &&& same_selection(*final(state), *old(state))
            &&& same_screen(*final(state), *old(state))
            &&& final(state).mode == old(state).mode
            &&& crate::state::same_form_texts(*final(state), *old(state))
            &&& same_pickers(*final(state), *old(state))
            &&& final(state).form_field_index == old(state).form_field_index
            &&& final(state).error_message matches Some(m) && m@ == "도서 목록 로드 실패: "@
                + e@
        },
        outcome matches StoreOutcome::Reloaded(books) ==> {
            &&& final(state).books == books
            &&& final(state).selected_book_index == (match first_index_with_id(
                books@,
                book_id,
                0,
            ) {
                Some(i) => i,
                None => clamp_index(old(state).selected_book_index as int, books@.len() as int),
            })
            &&& final(state).selected_review_index == review_clamp(
                old(state).selected_review_index as int,
                books@,
                final(state).selected_book_index as int,
            )
            &&& final(state).error_message matches Some(m) && m@
                == "✅ 새 도서가 저장되었습니다! (ID: "@ + dec_i64(book_id as int) + ")"@
            &&& final(state).current_screen == Screen::BookList
            &&& final(state).mode == AppMode::Normal
            &&& final(state).form_title@ == Seq::<char>::empty()
            &&& final(state).form_authors@ == Seq::<char>::empty()
            &&& final(state).form_translators@ == Seq::<char>::empty()
            &&& final(state).form_genre@ == Seq::<char>::empty()
            &&& final(state).form_pages@ == Seq::<char>::empty()
            &&& final(state).form_pub_year@ == Seq::<char>::empty()
            &&& final(state).editing_book_id is None
            &&& final(state).form_field_index == 0
            &&& final(state).genre_selected_index == 0
            &&& final(state).year_selected_index == 0
            &&& final(state).previous_screen == old(state).previous_screen
        },
        outcome is Failed || outcome is ReloadFailed ==> final(state).selected_review_index == old(state).selected_review_index,
        final(state).message_time == Some(now_ms),
        same_edit_buffer(*final(state), *old(state)),
        final(state).search_selected_index == old(state).search_selected_index,
        final(state).search_query == old(state).search_query,
        final(state).should_quit == old(state).should_quit,
        final(state).editing_review_index == old(state).editing_review_index,
        final(state).current_year == old(state).current_year,
        final(state).wf(),
{
    match outcome {
        StoreOutcome::Failed(e) => {
            let msg = String::from_str("❌ 도서 저장 실패: ").concat(e.as_str());
            state.set_message(msg, now_ms);
        },
        StoreOutcome::ReloadFailed(e) => {
            let msg = String::from_str("도서 목록 로드 실패: ").concat(e.as_str());
            state.set_message(msg, now_ms);
        },
        StoreOutcome::Reloaded(books) => {
            let saved_review_cursor = state.selected_review_index;
            load_books_result(state, Ok(books));
            if let Some(new_index) = find_book_index(&state.books, book_id) {
                state.selected_book_index = new_index;
            }
            if state.books.len() == 0 {
                state.selected_review_index = 0;
            } else {
                let review_len = state.books[state.selected_book_index].reviews.len();
                if review_len == 0 {
                    state.selected_review_index = 0;
                } else if saved_review_cursor >= review_len {
                    state.selected_review_index = review_len - 1;
                } else {
                    state.selected_review_index = saved_review_cursor;
                }
            }
            let msg = String::from_str("✅ 새 도서가 저장되었습니다! (ID: ").concat(
                i64_to_string(book_id).as_str(),
            ).concat(")");
            state.set_message(msg, now_ms);
            state.current_screen = Screen::BookList;
            state.clear_form();
            state.mode = AppMode::Normal;
        },
    }
}

/// The first position of `g` in the genre list, searched from `k` on.
pub open spec fn genre_index_spec(g: Seq<char>, k: int) -> Option<int>
    decreases 5 - k,
{
    if k < 0 || k >= 5 {
        None
    } else if spec_genres()[k] == g {
        Some(k)
    } else {
        genre_index_spec(g, k + 1)
    }
}

/// Switches to the genre selector, highlighting the form's current genre
/// when it is one of the offered genres and keeping the old highlight
/// otherwise.
pub fn enter_genre_select(state: &mut AppState)
    requires
        old(state).wf(),
    ensures
        final(state).mode == AppMode::GenreSelect,
        final(state).genre_selected_index == (match genre_index_spec(old(state).form_genre@, 0) {
            Some(k) => k,
            None => old(state).genre_selected_index as int,
        }),
        final(state).year_selected_index == old(state).year_selected_index,
        same_books(*final(state), *old(state)),
        same_screen(*final(state), *old(state)),
        same_selection(*final(state), *old(state)),
        same_edit_buffer(*final(state), *old(state)),
        same_message(*final(state), *old(state)),
        crate::state::same_form_texts(*final(state), *old(state)),
        final(state).search_query == old(state).search_query,
        final(state).should_quit == old(state).should_quit,
        final(state).editing_review_index == old(state).editing_review_index,
        final(state).form_field_index == old(state).form_field_index,
        final(state).current_year == old(state).current_year,
        final(state).wf(),
{
    state.mode = AppMode::GenreSelect;
    if let Some(k) = find_genre_index(state.form_genre.as_str()) {
        state.genre_selected_index = k;
    }
}

/// The position of `g` in the genre list, if it is one of the genres.
fn find_genre_index(g: &str) -> (r: Option<usize>)
    ensures
        match genre_index_spec(g@, 0) {
            Some(k) => r == Some(k as usize) && 0 <= k < 5,
            None => r is None,
        },
{
    let genres = AppState::get_genres();
    let mut i: usize = 0;
    while i < 5
        invariant
            genres@.len() == 5,
            forall|k: int| 0 <= k < 5 ==> genres@[k]@ == spec_genres()[k],
            0 <= i <= 5,
            genre_index_spec(g@, 0) == genre_index_spec(g@, i as int),
        decreases 5 - i,
    {
        if str_eq(genres[i], g) {
            return Some(i);
        }
        proof {
            assert(genre_index_spec(g@, i as int) == genre_index_spec(g@, i + 1));
        }
        i = i + 1;
    }
    None
}

/// The year the year selector should highlight for state `s`: the form's
/// year when it is a plain number between 1900 and the current year, else
/// the old highlight.
pub open spec fn year_highlight(s: AppState) -> int {
    let t = s.form_pub_year@;
    if t.len() > 0 && crate::text::all_digits(t) && crate::text::dec_value(t) <= u32::MAX && 1900
        <= crate::text::dec_value(t) <= s.current_year {
        s.current_year - crate::text::dec_value(t)
    } else {
        s.year_selected_index as int
    }
}

/// Switches to the year selector, highlighting the form's current year when
/// it is one of the offered years and keeping the old highlight otherwise.
pub fn enter_year_select(state: &mut AppState)
    requires
        old(state).wf(),
    ensures
        final(state).mode == AppMode::YearSelect,
        final(state).year_selected_index == year_highlight(*old(state)),
        final(state).genre_selected_index == old(state).genre_selected_index,
        same_books(*final(state), *old(state)),
        same_screen(*final(state), *old(state)),
        same_selection(*final(state), *old(state)),
        same_edit_buffer(*final(state), *old(state)),
        same_message(*final(state), *old(state)),
        crate::state::same_form_texts(*final(state), *old(state)),
        final(state).search_query == old(state).search_query,
        final(state).should_quit == old(state).should_quit,
        final(state).editing_review_index == old(state).editing_review_index,
        final(state).form_field_index == old(state).form_field_index,
        final(state).current_year == old(state).current_year,
        final(state).wf(),
{
    state.mode = AppMode::YearSelect;
    match parse_u32(state.form_pub_year.as_str()) {
        Some(y) => {
            if 1900 <= y && y <= state.current_year {
                state.year_selected_index = (state.current_year - y) as usize;
            }
        },
        None => {},
    }
}

/// Pulls the review cursor into the selected book's review list: 0 when
/// there is no book or no review, the last review when it points past the
/// end, unchanged otherwise.
fn clamp_review_cursor(state: &mut AppState)
    requires
        old(state).books@.len() == 0 ==> old(state).selected_book_index == 0,
        old(state).books@.len() > 0 ==> old(state).selected_book_index < old(state).books@.len(),
    ensures
        final(state).selected_review_index == review_clamp(
            old(state).selected_review_index as int,
            old(state).books@,
            old(state).selected_book_index as int,
        ),
        final(state).selected_book_index == old(state).selected_book_index,
        final(state).search_selected_index == old(state).search_selected_index,
        same_books(*final(state), *old(state)),
        same_screen(*final(state), *old(state)),
        final(state).mode == old(state).mode,
        same_edit_buffer(*final(state), *old(state)),
        same_message(*final(state), *old(state)),
        crate::state::same_form_texts(*final(state), *old(state)),
        same_pickers(*final(state), *old(state)),
        final(state).search_query == old(state).search_query,
        final(state).should_quit == old(state).should_quit,
        final(state).editing_review_index == old(state).editing_review_index,
        final(state).form_field_index == old(state).form_field_index,
        final(state).current_year == old(state).current_year,
{
    if state.books.len() == 0 {
        state.selected_review_index = 0;
    } else {
        let review_len = state.books[state.selected_book_index].reviews.len();
        if review_len == 0 {
            state.selected_review_index = 0;
        } else if state.selected_review_index >= review_len {
            state.selected_review_index = review_len - 1;
        }
    }
}

/// How many entries the search screen's list has in state `s`: none for an
/// empty query, else the books matching the query.
pub open spec fn search_count_spec(s: AppState) -> int {
    if s.search_query@.len() == 0 {
        0
    } else {
        match_count(s.books@, lower_of(s.search_query@))
    }
}

/// Applies one semantic action to the state and the active editor; where
/// the interaction flow calls for a store operation, that operation is
/// returned as an [`Effect`] for the caller to perform (and to finish with
/// the matching `finish` function).
///
/// The contract pins the global guarantees — the book cache and the startup
/// year never change here, quitting happens exactly on the quit action or
/// edit mode's force-quit, and every returned effect is faithful to the
/// state it was built from — plus the editor transitions of the editing
/// modes and the cursor movements of the selectors and lists. The remaining
/// transitions are carried by the contracts of the handlers this function
/// dispatches to.
#[verifier::rlimit(100)]
pub fn apply_action(
    state: &mut AppState,
    editor: &mut TextInput,
    action: KeyAction,
    today: Date,
    now_ms: u64,
) -> (r: Option<Effect>)
    requires
        old(state).wf(),
        old(editor)@.wf(),
    ensures
        final(state).wf(),
        final(editor)@.wf(),
        same_books(*final(state), *old(state)),
        final(state).current_year == old(state).current_year,
        final(state).should_quit == (old(state).should_quit || action == KeyAction::Quit || (
        action == KeyAction::ForceQuit && old(state).mode == AppMode::Edit)),
        r is Some ==> action == KeyAction::SaveEdit || action == KeyAction::DeleteBook,
        r matches Some(e) ==> match e {
            Effect::DeleteBook(id) => old(state).mode == AppMode::Normal && old(state).current_screen == Screen::BookList && old(state).books@.len() > 0 && old(state).books@[old(state).selected_book_index as int].book.id == Some(id),
            Effect::DeleteReview(id) => old(state).mode == AppMode::Normal && old(state).current_screen == Screen::Review && old(state).selected_book_index < old(state).books@.len() && old(state).books@[old(state).selected_book_index as int].reviews@[old(state).selected_review_index as int].id == Some(id),
            Effect::AddBook(nb) => old(state).current_screen == Screen::AddBook && (old(state).mode
                == AppMode::FormInput || old(state).mode == AppMode::Normal) && book_from_form(
                nb,
                *final(state),
            ) && form_valid(*final(state)),
            Effect::AddReview(nr) => old(state).mode == AppMode::Edit && old(state).current_screen
                == Screen::Review && old(state).editing_review_index is None && old(state).selected_book_index < old(state).books@.len() && Some(nr.book_id) == old(state).books@[old(state).selected_book_index as int].book.id && nr.date_read == Some(today)
                && nr.rating == 5 && nr.review@ == trim_spec(join_lines(old(editor)@.lines)),
            Effect::UpdateReview(id, rv) => old(state).mode == AppMode::Edit && old(state).current_screen == Screen::Review && (old(state).editing_review_index matches Some(i)
                && ({
                let existing =
                    old(state).books@[old(state).selected_book_index as int].reviews@[i as int];
                &&& existing.id == Some(id)
                &&& rv.id == existing.id
                &&& rv.book_id == existing.book_id
                &&& rv.date_read == existing.date_read
                &&& rv.rating == existing.rating
                &&& rv.review@ == trim_spec(join_lines(old(editor)@.lines))
            })),
        },
        action == KeyAction::Ignore ==> *final(state) == *old(state) && *final(editor) == *old(editor),
        old(state).mode == AppMode::Edit && action == KeyAction::NewLine ==> final(editor)@ == old(editor)@.insert_newline_spec(),
        action matches KeyAction::InsertChar(c) ==> ((old(state).mode == AppMode::Edit || old(state).mode == AppMode::Search) ==> final(editor)@ == old(editor)@.insert_char_spec(c)),
        (old(state).mode == AppMode::Edit || old(state).mode == AppMode::Search) && action
            == KeyAction::Backspace ==> final(editor)@ == old(editor)@.backspace_spec(),
        (old(state).mode == AppMode::Edit || old(state).mode == AppMode::Search) && action
            == KeyAction::DeleteChar ==> final(editor)@ == old(editor)@.delete_char_spec(),
        old(state).mode == AppMode::Normal && old(state).current_screen == Screen::BookList && (
        action == KeyAction::MoveDown) ==> final(state).selected_book_index == (if old(state).selected_book_index + 1 < old(state).books@.len() {
            old(state).selected_book_index + 1
        } else {
            old(state).selected_book_index as int
        }),
        old(state).mode == AppMode::Normal && old(state).current_screen == Screen::BookList && (
        action == KeyAction::MoveUp) ==> final(state).selected_book_index == (if old(state).selected_book_index > 0 {
            old(state).selected_book_index - 1
        } else {
            0int
        }),
        old(state).mode == AppMode::Normal && old(state).current_screen == Screen::BookList && (
        action == KeyAction::MoveUp || action == KeyAction::MoveDown) ==> final(state).selected_review_index == review_clamp(
            old(state).selected_review_index as int,
            old(state).books@,
            final(state).selected_book_index as int,
        ),
        old(state).mode == AppMode::Normal && old(state).current_screen == Screen::Search && (action
            == KeyAction::MoveDown) ==> final(state).search_selected_index == (if old(state).search_selected_index + 1 < search_count_spec(*old(state)) {
            old(state).search_selected_index + 1
        } else {
            old(state).search_selected_index as int
        }),
        old(state).mode == AppMode::Normal && old(state).current_screen == Screen::Search && (action
            == KeyAction::MoveUp) ==> final(state).search_selected_index == (if old(state).search_selected_index > 0 {
            old(state).search_selected_index - 1
        } else {
            0int
        }),
        action == KeyAction::AddBook && old(state).mode == AppMode::Normal ==> {
            &&& final(state).current_screen == Screen::AddBook
            &&& final(state).previous_screen == Some(old(state).current_screen)
            &&& final(state).mode == AppMode::FormInput
            &&& final(state).form_field_index == 0
            &&& final(state).form_title@ == Seq::<char>::empty()
            &&& final(state).form_authors@ == Seq::<char>::empty()
            &&& final(state).form_translators@ == Seq::<char>::empty()
            &&& final(state).form_genre@ == Seq::<char>::empty()
            &&& final(state).form_pages@ == Seq::<char>::empty()
            &&& final(state).form_pub_year@ == Seq::<char>::empty()
            &&& final(state).editing_book_id is None
            &&& final(state).genre_selected_index == 0
            &&& final(state).year_selected_index == 0
            &&& final(editor)@ == editor_of_text(Seq::<char>::empty())
        },
        action == KeyAction::Search && old(state).mode == AppMode::Normal ==> {
            &&& final(state).current_screen == Screen::Search
            &&& final(state).mode == AppMode::Search
            &&& final(state).search_selected_index == 0
            &&& final(editor)@ == editor_of_text(old(state).search_query@)
        },
        action == KeyAction::Report && old(state).mode == AppMode::Normal ==> final(state).current_screen == Screen::Report,
        action == KeyAction::Help && old(state).current_screen != Screen::Help ==> final(state).current_screen == Screen::Help && final(state).previous_screen == Some(
            old(state).current_screen,
        ),
        action == KeyAction::NewReview && old(state).mode == AppMode::Normal && old(state).current_screen == Screen::Review ==> {
            &&& final(state).mode == AppMode::Edit
            &&& final(state).editing_review_index is None
            &&& final(editor)@ == editor_of_text(Seq::<char>::empty())
        },
        action == KeyAction::AddReview && old(state).mode == AppMode::Normal && old(state).current_screen != Screen::Review ==> {
            &&& final(state).current_screen == Screen::Review
            &&& final(state).selected_review_index == 0
            &&& final(state).mode == AppMode::Normal
        },
        action == KeyAction::AddReview && old(state).mode == AppMode::Normal && old(state).current_screen == Screen::Review ==> ({
            let has_review = old(state).selected_book_index < old(state).books@.len() && old(state).books@[old(state).selected_book_index as int].reviews@.len() > 0 && old(state).selected_review_index < old(state).books@[old(state).selected_book_index as int].reviews@.len();
            &&& final(state).mode == AppMode::Edit
            &&& final(state).editing_review_index == (if has_review {
                Some(old(state).selected_review_index)
            } else {
                None
            })
            &&& final(editor)@ == editor_of_text(
                if has_review {
                    old(state).books@[old(state).selected_book_index as int].reviews@[old(state).selected_review_index as int].review@
                } else {
                    Seq::<char>::empty()
                },
            )
        }),
        action == KeyAction::CancelEdit && old(state).mode == AppMode::Edit ==> {
            &&& final(state).mode == AppMode::Normal
            &&& final(state).edit_buffer@ == Seq::<char>::empty()
            &&& (old(state).current_screen == Screen::Review ==> final(state).editing_review_index is None)
        },
        action == KeyAction::Back && old(state).mode == AppMode::Edit ==> final(state).mode
            == AppMode::Normal && final(state).editing_review_index is None,
        action == KeyAction::Back && old(state).mode == AppMode::Search ==> final(state).mode
            == AppMode::Normal,
        action == KeyAction::Back && old(state).mode == AppMode::FormInput ==> final(state).mode
            == AppMode::Normal,
        action == KeyAction::Back && (old(state).mode == AppMode::GenreSelect || old(state).mode
            == AppMode::YearSelect) ==> final(state).mode == AppMode::FormInput && final(editor)@
            == editor_of_text(form_field_value(*old(state), old(state).form_field_index as int)),
        action == KeyAction::Back && (old(state).mode == AppMode::Normal || old(state).mode
            == AppMode::Confirm) && old(state).current_screen == Screen::Search ==> {
            &&& final(state).current_screen == Screen::BookList
            &&& final(state).search_query@ == Seq::<char>::empty()
            &&& final(state).search_selected_index == 0
        },
        action == KeyAction::Back && (old(state).mode == AppMode::Normal || old(state).mode
            == AppMode::Confirm) && old(state).current_screen == Screen::AddBook ==> {
            &&& final(state).current_screen == Screen::BookList
            &&& final(state).mode == AppMode::Normal
            &&& final(state).form_field_index == 0
            &&& final(state).form_title@ == Seq::<char>::empty()
            &&& final(state).form_authors@ == Seq::<char>::empty()
            &&& final(state).form_translators@ == Seq::<char>::empty()
            &&& final(state).form_genre@ == Seq::<char>::empty()
            &&& final(state).form_pages@ == Seq::<char>::empty()
            &&& final(state).form_pub_year@ == Seq::<char>::empty()
            &&& final(state).editing_book_id is None
        },
        (action == KeyAction::NextField || action == KeyAction::PrevField) && old(state).current_screen == Screen::AddBook && (old(state).mode == AppMode::FormInput || old(state).mode == AppMode::Normal) ==> {
            &&& final(state).mode == AppMode::FormInput
            &&& final(state).form_field_index == (if action == KeyAction::NextField {
                (old(state).form_field_index + 1) % 6
            } else if old(state).form_field_index == 0 {
                5int
            } else {
                old(state).form_field_index - 1
            })
            &&& final(editor)@ == editor_of_text(
                form_field_value(*final(state), final(state).form_field_index as int),
            )
        },
        old(state).mode == AppMode::Edit && action == KeyAction::CursorLeft ==> final(editor)@
            == old(editor)@.move_left_spec(),
        old(state).mode == AppMode::Edit && action == KeyAction::CursorRight ==> final(editor)@
            == old(editor)@.move_right_spec(),
        old(state).mode == AppMode::Edit && action == KeyAction::CursorUp ==> final(editor)@ == old(editor)@.move_up_spec(),
        old(state).mode == AppMode::Edit && action == KeyAction::CursorDown ==> final(editor)@
            == old(editor)@.move_down_spec(),
        old(state).mode == AppMode::Edit && action == KeyAction::LineStart ==> final(editor)@ == (
        EditorModel { cursor_col: 0, ..old(editor)@ }),
        old(state).mode == AppMode::Edit && action == KeyAction::LineEnd ==> final(editor)@ == (
        EditorModel {
            cursor_col: old(editor)@.lines[old(editor)@.cursor_line].len() as int,
            ..old(editor)@
        }),
        old(state).mode == AppMode::Edit && action == KeyAction::DeleteWord ==> final(editor)@
            == old(editor)@.delete_word_backward_spec(),
        action == KeyAction::SaveEdit && old(state).mode == AppMode::FormInput && old(state).current_screen == Screen::AddBook ==> (r is Some <==> form_valid(*final(state))),
        action == KeyAction::SaveEdit && old(state).mode == AppMode::Normal && old(state).current_screen == Screen::AddBook ==> (r is Some <==> form_valid(*old(state))),
        action == KeyAction::SaveEdit && old(state).mode == AppMode::Edit && old(state).current_screen == Screen::Review ==> (r is Some <==> review_save_possible(*old(state))),
        action == KeyAction::DeleteBook && old(state).mode == AppMode::Normal && old(state).current_screen == Screen::BookList ==> (r is Some <==> (old(state).books@.len() > 0 && old(state).books@[old(state).selected_book_index as int].book.id is Some)),
        action == KeyAction::DeleteBook && old(state).mode == AppMode::Normal && old(state).current_screen == Screen::Review ==> (r is Some <==> (old(state).selected_book_index
            < old(state).books@.len() && old(state).selected_review_index < old(state).books@[old(state).selected_book_index as int].reviews@.len() && old(state).books@[old(state).selected_book_index as int].reviews@[old(state).selected_review_index as int].id is Some)),
        (action == KeyAction::Select || action is InsertChar) && (old(state).mode
            == AppMode::FormInput || old(state).mode == AppMode::Normal) && old(state).current_screen == Screen::AddBook && old(state).form_field_index == 3 ==> {
            &&& final(state).mode == AppMode::GenreSelect
            &&& final(state).genre_selected_index == (match genre_index_spec(
                old(state).form_genre@,
                0,
            ) {
                Some(k) => k,
                None => old(state).genre_selected_index as int,
            })
        },
        (action == KeyAction::Select || action is InsertChar) && (old(state).mode
            == AppMode::FormInput || old(state).mode == AppMode::Normal) && old(state).current_screen == Screen::AddBook && old(state).form_field_index == 5 ==> {
            &&& final(state).mode == AppMode::YearSelect
            &&& final(state).year_selected_index == year_highlight(*old(state))
        },
        action == KeyAction::Select && (old(state).mode == AppMode::FormInput || old(state).mode
            == AppMode::Normal) && old(state).current_screen == Screen::AddBook && old(state).form_field_index != 3 && old(state).form_field_index != 5 ==> final(state).mode
            == AppMode::Edit,
        action == KeyAction::Select && old(state).mode == AppMode::GenreSelect ==> {
            &&& final(state).mode == AppMode::FormInput
            &&& final(state).form_genre@ == spec_genres()[old(state).genre_selected_index as int]
            &&& final(editor)@ == editor_of_text(
                form_field_value(*final(state), old(state).form_field_index as int),
            )
        },
        action == KeyAction::Select && old(state).mode == AppMode::YearSelect ==> {
            &&& final(state).mode == AppMode::FormInput
            &&& final(state).form_pub_year@ == crate::text::dec_seq(
                (old(state).current_year - old(state).year_selected_index) as nat,
            )
            &&& final(editor)@ == editor_of_text(
                form_field_value(*final(state), old(state).form_field_index as int),
            )
        },
        old(state).mode == AppMode::GenreSelect && action == KeyAction::MoveUp ==> final(state).genre_selected_index == (if old(state).genre_selected_index > 0 {
            old(state).genre_selected_index - 1
        } else {
            0int
        }),
        old(state).mode == AppMode::GenreSelect && action == KeyAction::MoveDown ==> final(state).genre_selected_index == (if old(state).genre_selected_index + 1 < 5 {
            old(state).genre_selected_index + 1
        } else {
            old(state).genre_selected_index as int
        }),
        old(state).mode == AppMode::YearSelect && action == KeyAction::MoveUp ==> final(state).year_selected_index == (if old(state).year_selected_index > 0 {
            old(state).year_selected_index - 1
        } else {
            0int
        }),
        old(state).mode == AppMode::YearSelect && action == KeyAction::MoveDown ==> final(state).year_selected_index == (if old(state).year_selected_index + 1 < crate::state::year_count(
            old(state).current_year as int,
        ) {
            old(state).year_selected_index + 1
        } else {
            old(state).year_selected_index as int
        }),
        old(state).mode == AppMode::Search && action == KeyAction::Select ==> {
            &&& final(state).search_query@ == trim_spec(join_lines(old(editor)@.lines))
            &&& final(state).mode == AppMode::Normal
            &&& final(state).search_selected_index == 0
        },
        old(state).mode == AppMode::Normal && old(state).current_screen == Screen::Search && action
            == KeyAction::Select && old(state).search_query@.len() > 0 ==> (match nth_match_from(
            old(state).books@,
            lower_of(old(state).search_query@),
            0,
            old(state).search_selected_index as int,
        ) {
            Some(k) => final(state).selected_book_index == k && final(state).current_screen
                == Screen::Review && final(state).selected_review_index == 0,
            None => *final(state) == *old(state),
        }),
{
    let mut result: Option<Effect> = None;
    match action {
        KeyAction::Quit => {
            state.should_quit = true;
        },
        KeyAction::Help => {
            if state.current_screen == Screen::Help {
                state.go_back();
            } else {
                state.set_screen(Screen::Help);
            }
        },
        KeyAction::Back => {
            if state.mode == AppMode::Edit {
                state.cancel_edit_mode();
                state.editing_review_index = None;
            } else if state.mode == AppMode::Search {
                state.mode = AppMode::Normal;
            } else if state.mode == AppMode::FormInput {
                let text = editor.get_text();
                state.set_current_form_field_value(text);
                state.mode = AppMode::Normal;
            } else if state.mode == AppMode::GenreSelect {
                state.mode = AppMode::FormInput;
                let current_value = state.get_current_form_field_value();
                *editor = TextInput::with_text(current_value);
            } else if state.mode == AppMode::YearSelect {
                state.mode = AppMode::FormInput;
                let current_value = state.get_current_form_field_value();
                *editor = TextInput::with_text(current_value);
            } else {
                match state.current_screen {
                    Screen::Search => {
                        state.current_screen = Screen::BookList;
                        state.search_query = String::new();
                        state.search_selected_index = 0;
                    },
                    Screen::AddBook => {
                        state.current_screen = Screen::BookList;
                        state.clear_form();
                        state.mode = AppMode::Normal;
                    },
                    _ => {
                        state.go_back();
                    },
                }
            }
        },
        KeyAction::AddBook => {
            if state.mode == AppMode::Normal {
                state.set_screen(Screen::AddBook);
                state.clear_form();
                state.mode = AppMode::FormInput;
                let current_value = state.get_current_form_field_value();
                *editor = TextInput::with_text(current_value);
            }
        },
        KeyAction::Search => {
            if state.mode == AppMode::Normal {
                state.set_screen(Screen::Search);
                state.mode = AppMode::Search;
                state.search_selected_index = 0;
                let query = state.search_query.clone();
                *editor = TextInput::with_text(query);
            }
        },
        KeyAction::Report => {
            if state.mode == AppMode::Normal {
                state.set_screen(Screen::Report);
            }
        },
        KeyAction::AddReview => {
            if state.mode == AppMode::Normal {
                if state.current_screen == Screen::Review {
                    state.mode = AppMode::Edit;
                    let mut initial_text = String::new();
                    let mut review_index: Option<usize> = None;
                    if state.selected_book_index < state.books.len() {
                        let book = &state.books[state.selected_book_index];
                        if book.reviews.len() > 0 && state.selected_review_index
                            < book.reviews.len() {
                            initial_text =
                                book.reviews[state.selected_review_index].review.clone();
                            review_index = Some(state.selected_review_index);
                        }
                    }
                    state.editing_review_index = review_index;
                    *editor = TextInput::with_text(initial_text);
                } else {
                    state.set_screen(Screen::Review);
                    state.selected_review_index = 0;
                }
            }
        },
        KeyAction::NewReview => {
            if state.mode == AppMode::Normal && state.current_screen == Screen::Review {
                state.mode = AppMode::Edit;
                state.editing_review_index = None;
                *editor = TextInput::with_text(String::new());
            }
        },
        KeyAction::DeleteBook => {
            if state.mode == AppMode::Normal {
                match state.current_screen {
                    Screen::Review => {
                        result = handle_delete_review(state, now_ms);
                    },
                    Screen::BookList => {
                        result = handle_delete_book(state, now_ms);
                    },
                    _ => {},
                }
            }
        },
        KeyAction::SaveEdit => {
            match state.mode {
                AppMode::Edit => {
                    match state.current_screen {
                        Screen::AddBook => {
                            let text = editor.get_text();
                            state.set_current_form_field_value(text);
                            state.mode = AppMode::Normal;
                        },
                        Screen::Review => {
                            let text = editor.get_text();
                            state.mode = AppMode::Normal;
                            result = handle_save_review(state, text.as_str(), today, now_ms);
                        },
                        _ => {},
                    }
                },
                AppMode::FormInput => {
                    if state.current_screen == Screen::AddBook {
                        let text = editor.get_text();
                        state.set_current_form_field_value(text);
                        result = handle_save_book_and_exit(state, now_ms);
                    }
                },
                AppMode::Normal => {
                    if state.current_screen == Screen::AddBook {
                        result = handle_save_book_and_exit(state, now_ms);
                    }
                },
                _ => {},
            }
        },
        KeyAction::CancelEdit => {
            if state.mode == AppMode::Edit {
                state.cancel_edit_mode();
                if state.current_screen == Screen::Review {
                    state.editing_review_index = None;
                }
            }
        },
        KeyAction::ForceQuit => {
            if state.mode == AppMode::Edit {
                state.cancel_edit_mode();
                state.editing_review_index = None;
                state.should_quit = true;
            }
        },
        KeyAction::NextField => {
            if state.current_screen == Screen::AddBook {
                match state.mode {
                    AppMode::FormInput => {
                        let text = editor.get_text();
                        state.set_current_form_field_value(text);
                        state.next_form_field();
                        let current_value = state.get_current_form_field_value();
                        *editor = TextInput::with_text(current_value);
                    },
                    AppMode::Normal => {
                        state.next_form_field();
                        state.mode = AppMode::FormInput;
                        let current_value = state.get_current_form_field_value();
                        *editor = TextInput::with_text(current_value);
                    },
                    _ => {},
                }
            }
        },
        KeyAction::PrevField => {
            if state.current_screen == Screen::AddBook {
                match state.mode {
                    AppMode::FormInput => {
                        let text = editor.get_text();
                        state.set_current_form_field_value(text);
                        state.prev_form_field();
                        let current_value = state.get_current_form_field_value();
                        *editor = TextInput::with_text(current_value);
                    },
                    AppMode::Normal => {
                        state.prev_form_field();
                        state.mode = AppMode::FormInput;
                        let current_value = state.get_current_form_field_value();
                        *editor = TextInput::with_text(current_value);
                    },
                    _ => {},
                }
            }
        },
        KeyAction::InsertChar(c) => {
            match state.mode {
                AppMode::Edit | AppMode::Search => {
                    editor.insert_char(c);
                },
                AppMode::FormInput => {
                    if state.current_screen == Screen::AddBook {
                        if state.is_genre_field() {
                            enter_genre_select(state);
                        } else if state.is_year_field() {
                            enter_year_select(state);
                        } else {
                            editor.insert_char(c);
                        }
                    }
                },
                AppMode::Normal => {
                    if state.current_screen == Screen::AddBook {
                        if state.is_genre_field() {
                            enter_genre_select(state);
                        } else if state.is_year_field() {
                            enter_year_select(state);
                        } else {
                            state.mode = AppMode::FormInput;
                            let current_value = state.get_current_form_field_value();
                            *editor = TextInput::with_text(current_value);
                            editor.insert_char(c);
                        }
                    }
                },
                _ => {},
            }
        },
        KeyAction::DeleteChar => {
            match state.mode {
                AppMode::Edit | AppMode::Search => {
                    editor.delete_char();
                },
                AppMode::FormInput => {
                    if !(state.current_screen == Screen::AddBook && (state.is_genre_field()
                        || state.is_year_field())) {
                        editor.delete_char();
                    }
                },
                _ => {},
            }
        },
        KeyAction::Backspace => {
            match state.mode {
                AppMode::Edit | AppMode::Search => {
                    editor.backspace();
                },
                AppMode::FormInput => {
                    if !(state.current_screen == Screen::AddBook && (state.is_genre_field()
                        || state.is_year_field())) {
                        editor.backspace();
                    }
                },
                _ => {},
            }
        },
        KeyAction::NewLine => {
            if state.mode == AppMode::Edit {
                editor.insert_newline();
            }
        },
        KeyAction::CursorLeft => {
            if state.mode == AppMode::Edit {
                editor.move_cursor_left();
            }
        },
        KeyAction::CursorRight => {
            if state.mode == AppMode::Edit {
                editor.move_cursor_right();
            }
        },
        KeyAction::CursorUp => {
            if state.mode == AppMode::Edit {
                editor.move_cursor_up();
            }
        },
        KeyAction::CursorDown => {
            if state.mode == AppMode::Edit {
                editor.move_cursor_down();
            }
        },
        KeyAction::LineStart => {
            if state.mode == AppMode::Edit {
                editor.move_to_line_start();
            }
        },
        KeyAction::LineEnd => {
            if state.mode == AppMode::Edit {
                editor.move_to_line_end();
            }
        },
        KeyAction::ClearLine => {
            match state.mode {
                AppMode::Edit | AppMode::Search => {
                    editor.clear_current_line();
                },
                AppMode::FormInput => {
                    if !(state.current_screen == Screen::AddBook && (state.is_genre_field()
                        || state.is_year_field())) {
                        editor.clear_current_line();
                    }
                },
                _ => {},
            }
        },
        KeyAction::DeleteToEnd => {
            if state.mode == AppMode::Edit {
                editor.delete_to_line_end();
            }
        },
        KeyAction::DeleteWord => {
            if state.mode == AppMode::Edit {
                editor.delete_word_backward();
            }
        },
        KeyAction::MoveUp => {
            if state.mode == AppMode::GenreSelect {
                state.move_genre_up();
            } else if state.mode == AppMode::YearSelect {
                state.move_year_up();
            } else if state.mode == AppMode::Normal {
                match state.current_screen {
                    Screen::BookList => {
                        if state.selected_book_index > 0 {
                            state.selected_book_index = state.selected_book_index - 1;
                        }
                        clamp_review_cursor(state);
                    },
                    Screen::Review => {
                        if state.selected_book_index < state.books.len() {
                            let has_reviews =
                                state.books[state.selected_book_index].reviews.len() > 0;
                            if has_reviews && state.selected_review_index > 0 {
                                state.selected_review_index = state.selected_review_index - 1;
                            }
                        }
                    },
                    Screen::Search => {
                        if state.search_selected_index > 0 {
                            state.search_selected_index = state.search_selected_index - 1;
                        }
                    },
                    _ => {},
                }
            }
        },
        KeyAction::MoveDown => {
            if state.mode == AppMode::GenreSelect {
                state.move_genre_down();
            } else if state.mode == AppMode::YearSelect {
                state.move_year_down();
            } else if state.mode == AppMode::Normal {
                match state.current_screen {
                    Screen::BookList => {
                        let len = state.books.len();
                        if len > 0 && state.selected_book_index < len - 1 {
                            state.selected_book_index = state.selected_book_index + 1;
                        }
                        clamp_review_cursor(state);
                    },
                    Screen::Review => {
                        if state.selected_book_index < state.books.len() {
                            let review_len =
                                state.books[state.selected_book_index].reviews.len();
                            if review_len > 0 && state.selected_review_index < review_len - 1 {
                                state.selected_review_index = state.selected_review_index + 1;
                            }
                        }
                    },
                    Screen::Search => {
                        let count = if state.search_query.as_str().is_empty() {
                            0
                        } else {
                            count_matches(&state.books, state.search_query.as_str())
                        };
                        if count > 0 && state.search_selected_index < count - 1 {
                            state.search_selected_index = state.search_selected_index + 1;
                        }
                    },
                    _ => {},
                }
            }
        },
        KeyAction::Select => {
            match state.mode {
                AppMode::Search => {
                    let text = editor.get_text();
                    let query = trim_str(text.as_str());
                    let is_empty = query.as_str().is_empty();
                    state.search_query = query;
                    state.mode = AppMode::Normal;
                    state.search_selected_index = 0;
                    if !is_empty {
                        let msg = String::from_str("✅ \"").concat(
                            state.search_query.as_str(),
                        ).concat("\"에 대한 검색이 완료되었습니다");
                        state.set_message(msg, now_ms);
                    }
                },
                AppMode::FormInput => {
                    if state.current_screen == Screen::AddBook {
                        if state.is_genre_field() {
                            enter_genre_select(state);
                        } else if state.is_year_field() {
                            enter_year_select(state);
                        } else {
                            state.mode = AppMode::Edit;
                        }
                    }
                },
                AppMode::GenreSelect => {
                    state.select_current_genre();
                    state.mode = AppMode::FormInput;
                    let current_value = state.get_current_form_field_value();
                    *editor = TextInput::with_text(current_value);
                },
                AppMode::YearSelect => {
                    state.select_current_year();
                    state.mode = AppMode::FormInput;
                    let current_value = state.get_current_form_field_value();
                    *editor = TextInput::with_text(current_value);
                },
                AppMode::Normal => {
                    match state.current_screen {
                        Screen::AddBook => {
                            if state.is_genre_field() {
                                enter_genre_select(state);
                            } else if state.is_year_field() {
                                enter_year_select(state);
                            } else {
                                let current_value = state.get_current_form_field_value();
                                state.mode = AppMode::Edit;
                                *editor = TextInput::with_text(current_value);
                            }
                        },
                        Screen::Search => {
                            if !state.search_query.as_str().is_empty() {
                                let found = nth_match_index(
                                    &state.books,
                                    state.search_query.as_str(),
                                    state.search_selected_index,
                                );
                                if let Some(actual_index) = found {
                                    state.selected_book_index = actual_index;
                                    state.set_screen(Screen::Review);
                                    state.selected_review_index = 0;
                                }
                            }
                        },
                        _ => {},
                    }
                },
                _ => {},
            }
        },
        _ => {},
    }
    result
}

} // verus!
