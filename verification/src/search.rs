//! The search filter: case-insensitive substring matching of a query against
//! a book's title, authors, genre and review texts, and the bookkeeping the
//! search screen needs (how many books match, and which absolute index the
//! n-th match has).

use vstd::prelude::*;

use crate::models::ExtendedBook;
use crate::text::contains_chars;
use crate::text::contains_seq;
use crate::text::str_chars;

verus! {

/// What lowercasing a string yields; the mapping `str::to_lowercase` computes.
pub uninterp spec fn lower_of(s: Seq<char>) -> Seq<char>;

/// Relies on `str::to_lowercase`: the lowercase mapping of a string depends
/// on its characters alone, and an empty string stays empty.
#[verifier::external_body]
fn lowercase(s: &str) -> (r: String)
    ensures
        r@ == lower_of(s@),
        s@.len() == 0 ==> r@.len() == 0,
{
    s.to_lowercase()
}

/// Whether the book matches the lowered query: the query occurs in the
/// lowered title, any lowered author name, the lowered genre, or any lowered
/// review text.
pub open spec fn book_matches_spec(b: ExtendedBook, query_lower: Seq<char>) -> bool {
    ||| contains_seq(lower_of(b.book.title@), query_lower)
    ||| exists|i: int|
        0 <= i < b.authors@.len() && contains_seq(lower_of(b.authors@[i].name@), query_lower)
    ||| contains_seq(lower_of(b.book.genre@), query_lower)
    ||| exists|i: int|
        0 <= i < b.reviews@.len() && contains_seq(lower_of(b.reviews@[i].review@), query_lower)
}

/// Whether the book matches for the command line's browse filter, which
/// looks at title, authors and genre but not at review texts.
pub open spec fn browse_matches_spec(b: ExtendedBook, query_lower: Seq<char>) -> bool {
    ||| contains_seq(lower_of(b.book.title@), query_lower)
    ||| exists|i: int|
        0 <= i < b.authors@.len() && contains_seq(lower_of(b.authors@[i].name@), query_lower)
    ||| contains_seq(lower_of(b.book.genre@), query_lower)
}

/// Whether `needle` occurs in the lowercase form of `hay`.
fn lower_contains(hay: &str, needle: &Vec<char>) -> (r: bool)
    ensures
        r == contains_seq(lower_of(hay@), needle@),
{
    let lowered = lowercase(hay);
    let hay_chars = str_chars(lowered.as_str());
    contains_chars(&hay_chars, needle)
}

/// Whether `book` matches `query`, compared case-insensitively as
/// [`book_matches_spec`] says: a substring of the title, an author name, the
/// genre, or a review text.
pub fn book_matches(book: &ExtendedBook, query: &str) -> (r: bool)
    ensures
        r == book_matches_spec(*book, lower_of(query@)),
{
    let lowered_query = lowercase(query);
    let q = str_chars(lowered_query.as_str());
    if lower_contains(book.book.title.as_str(), &q) {
        return true;
    }
    let mut i: usize = 0;
    while i < book.authors.len()
        invariant
            0 <= i <= book.authors@.len(),
            q@ == lower_of(query@),
            forall|j: int|
                0 <= j < i ==> !contains_seq(lower_of(book.authors@[j].name@), q@),
        decreases book.authors@.len() - i,
    {
        if lower_contains(book.authors[i].name.as_str(), &q) {
            return true;
        }
        i = i + 1;
    }
    if lower_contains(book.book.genre.as_str(), &q) {
        return true;
    }
    let mut i: usize = 0;
    while i < book.reviews.len()
        invariant
            0 <= i <= book.reviews@.len(),
            q@ == lower_of(query@),
            forall|j: int|
                0 <= j < i ==> !contains_seq(lower_of(book.reviews@[j].review@), q@),
        decreases book.reviews@.len() - i,
    {
        if lower_contains(book.reviews[i].review.as_str(), &q) {
            return true;
        }
        i = i + 1;
    }
    false
}

/// Whether `book` matches `query` under the browse filter, which ignores
/// review texts.
pub fn browse_matches(book: &ExtendedBook, query: &str) -> (r: bool)
    ensures
        r == browse_matches_spec(*book, lower_of(query@)),
{
    let lowered_query = lowercase(query);
    let q = str_chars(lowered_query.as_str());
    if lower_contains(book.book.title.as_str(), &q) {
        return true;
    }
    let mut i: usize = 0;
    while i < book.authors.len()
        invariant
            0 <= i <= book.authors@.len(),
            q@ == lower_of(query@),
            forall|j: int|
                0 <= j < i ==> !contains_seq(lower_of(book.authors@[j].name@), q@),
        decreases book.authors@.len() - i,
    {
        if lower_contains(book.authors[i].name.as_str(), &q) {
            return true;
        }
        i = i + 1;
    }
    lower_contains(book.book.genre.as_str(), &q)
}

/// How many of the first `n` books match the lowered query.
pub open spec fn match_count_prefix(books: Seq<ExtendedBook>, ql: Seq<char>, n: int) -> int
    decreases n,
{
    if n <= 0 {
        0
    } else {
        match_count_prefix(books, ql, n - 1) + if book_matches_spec(books[n - 1], ql) {
            1int
        } else {
            0int
        }
    }
}

/// How many books match the lowered query.
pub open spec fn match_count(books: Seq<ExtendedBook>, ql: Seq<char>) -> int {
    match_count_prefix(books, ql, books.len() as int)
}

/// Counts the books that match `query` case-insensitively.
pub fn count_matches(books: &Vec<ExtendedBook>, query: &str) -> (r: usize)
    ensures
        r == match_count(books@, lower_of(query@)),
{
    let mut count: usize = 0;
    let mut i: usize = 0;
    while i < books.len()
        invariant
            0 <= i <= books@.len(),
            count == match_count_prefix(books@, lower_of(query@), i as int),
            count <= i,
        decreases books@.len() - i,
    {
        if book_matches(&books[i], query) {
            count = count + 1;
        }
        i = i + 1;
    }
    count
}

/// The absolute index of the `n`-th matching book at or after position `i`
/// (counting matches from 0), if there is one.
pub open spec fn nth_match_from(
    books: Seq<ExtendedBook>,
    ql: Seq<char>,
    i: int,
    n: int,
) -> Option<int>
    decreases books.len() - i,
{
    if i < 0 || i >= books.len() {
        None
    } else if book_matches_spec(books[i], ql) {
        if n == 0 {
            Some(i)
        } else {
            nth_match_from(books, ql, i + 1, n - 1)
        }
    } else {
        nth_match_from(books, ql, i + 1, n)
    }
}

/// A found match lies inside the list and matches the query.
pub proof fn lemma_nth_match_bounds(books: Seq<ExtendedBook>, ql: Seq<char>, i: int, n: int)
    ensures
        nth_match_from(books, ql, i, n) matches Some(k) ==> i <= k < books.len()
            && book_matches_spec(books[k], ql),
    decreases books.len() - i,
{
    if 0 <= i < books.len() {
        lemma_nth_match_bounds(books, ql, i + 1, n - 1);
        lemma_nth_match_bounds(books, ql, i + 1, n);
    }
}

/// The absolute index into `books` of the `n`-th book matching `query`, the
/// way the search screen maps its highlight back to the book list.
pub fn nth_match_index(books: &Vec<ExtendedBook>, query: &str, n: usize) -> (r: Option<usize>)
    ensures
        r matches Some(k) ==> Some(k as int) == nth_match_from(books@, lower_of(query@), 0, n as int)
            && k < books@.len() && book_matches_spec(books@[k as int], lower_of(query@)),
        r is None ==> nth_match_from(books@, lower_of(query@), 0, n as int) is None,
{
    let ghost ql = lower_of(query@);
    let mut i: usize = 0;
    let mut remaining: usize = n;
    while i < books.len()
        invariant
            0 <= i <= books@.len(),
            remaining <= n,
            ql == lower_of(query@),
            nth_match_from(books@, ql, 0, n as int) == nth_match_from(
                books@,
                ql,
                i as int,
                remaining as int,
            ),
        decreases books@.len() - i,
    {
        if book_matches(&books[i], query) {
            if remaining == 0 {
                proof {
                    lemma_nth_match_bounds(books@, ql, 0, n as int);
                }
                return Some(i);
            }
            remaining = remaining - 1;
        }
        i = i + 1;
    }
    None
}

} // verus!
