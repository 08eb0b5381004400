//! The data the library tracks: books, their writers, reviews, and the small
//! input and filter records the stores and the interface exchange.

use vstd::prelude::*;

use crate::date::Date;
use crate::errors::LibroError;
use crate::text::str_eq;

verus! {

/// The role a writer plays for a book.
#[derive(Debug, Clone, Copy, PartialEq, Eq, Structural)]
pub enum WriterType {
    /// Wrote the book.
    Author,
    /// Translated the book.
    Translator,
}

impl WriterType {
    /// The role's name as the store records it.
    pub fn as_str(&self) -> (r: &'static str)
        ensures
            *self is Author ==> r@ == "author"@,
            *self is Translator ==> r@ == "translator"@,
    {
        match self {
            WriterType::Author => "author",
            WriterType::Translator => "translator",
        }
    }

    /// The role a recorded name stands for; any other name is rejected.
    pub fn from_str(s: &str) -> (r: Result<WriterType, String>)
        ensures
            r == Ok::<WriterType, String>(WriterType::Author) <==> s@ == "author"@,
            r == Ok::<WriterType, String>(WriterType::Translator) <==> s@ == "translator"@,
            r is Err <==> s@ != "author"@ && s@ != "translator"@,
    {
        proof {
            reveal_strlit("author");
            reveal_strlit("translator");
            assert("author"@.len() != "translator"@.len());
        }
        if str_eq(s, "author") {
            Ok(WriterType::Author)
        } else if str_eq(s, "translator") {
            Ok(WriterType::Translator)
        } else {
            Err(String::from_str("Invalid writer type: ").concat(s))
        }
    }
}

/// A book record as the store keeps it.
#[derive(Debug, Clone)]
pub struct Book {
    /// The store's id, absent before the book is saved.
    pub id: Option<i64>,
    /// The title.
    pub title: String,
    /// The page count, if known.
    pub pages: Option<i32>,
    /// The publication year, if known.
    pub pub_year: Option<i32>,
    /// The genre.
    pub genre: String,
}

/// A review of one book.
#[derive(Debug, Clone)]
pub struct Review {
    /// The store's id, absent before the review is saved.
    pub id: Option<i64>,
    /// The book the review belongs to.
    pub book_id: i64,
    /// When the book was read, if recorded.
    pub date_read: Option<Date>,
    /// The rating, 1 to 5.
    pub rating: i32,
    /// The review text.
    pub review: String,
}

/// An author or translator.
#[derive(Debug, Clone)]
pub struct Writer {
    /// The store's id, absent before the writer is saved.
    pub id: Option<i64>,
    /// The writer's name; the store deduplicates by name and role.
    pub name: String,
    /// The writer's role.
    pub writer_type: WriterType,
}

/// A link between a book and a writer, with the writer's role for that book.
#[derive(Debug, Clone)]
pub struct BookWriter {
    /// The linked book.
    pub book_id: i64,
    /// The linked writer.
    pub writer_id: i64,
    /// The writer's role for this book.
    pub writer_type: WriterType,
}

/// A book joined with its writers and reviews, as the interface displays it.
#[derive(Debug, Clone)]
pub struct ExtendedBook {
    /// The book record itself.
    pub book: Book,
    /// The book's authors, in the store's order.
    pub authors: Vec<Writer>,
    /// The book's translators, in the store's order.
    pub translators: Vec<Writer>,
    /// The book's reviews, in the store's order.
    pub reviews: Vec<Review>,
}

/// What is needed to create a book.
#[derive(Debug, Clone)]
pub struct NewBook {
    /// The title; must not be blank.
    pub title: String,
    /// The authors' names; at least one is required.
    pub authors: Vec<String>,
    /// The translators' names, possibly none.
    pub translators: Vec<String>,
    /// The page count, if known.
    pub pages: Option<i32>,
    /// The publication year, if known.
    pub pub_year: Option<i32>,
    /// The genre.
    pub genre: String,
}

/// What is needed to create a review.
#[derive(Debug, Clone)]
pub struct NewReview {
    /// The book reviewed.
    pub book_id: i64,
    /// When the book was read; the store fills in today when absent.
    pub date_read: Option<Date>,
    /// The rating, 1 to 5.
    pub rating: i32,
    /// The review text; must not be blank.
    pub review: String,
}

/// A book together with an optional first review, created in one step.
#[derive(Debug, Clone)]
pub struct NewBookWithReview {
    /// The book to create.
    pub book: NewBook,
    /// The review to attach, if any.
    pub review: Option<NewReview>,
}

/// Which books a query should return: one by id, those of a year, or all.
#[derive(Debug, Clone)]
pub struct BookFilter {
    /// Only the book with this id.
    pub id: Option<i64>,
    /// Only books published in this year; ignored when an id is given.
    pub year: Option<i32>,
}

impl Default for BookFilter {
    /// The filter that matches every book.
    fn default() -> (r: BookFilter)
        ensures
            r.id is None,
            r.year is None,
    {
        BookFilter { id: None, year: None }
    }
}

/// What creating a book (with an optional review) produced.
#[derive(Debug, Clone)]
pub struct BookCreationResult {
    /// The new book's id.
    pub book_id: i64,
    /// The new review's id, when a review was created too.
    pub review_id: Option<i64>,
}

/// The checks a [`NewBook`] must pass before it is handed to a store: a
/// non-blank title, at least one author, positive pages and a plausible year
/// where given. The first failing rule's error is returned.
pub fn validate_new_book(book: &NewBook, current_year: i32) -> (r: Result<(), LibroError>)
    requires
        1000 <= current_year <= 100_000,
    ensures
        r is Ok <==> !crate::text::is_blank(book.title@) && book.authors@.len() > 0 && (match book
            .pages {
            Some(p) => p > 0,
            None => true,
        }) && (match book.pub_year {
            Some(y) => 1000 <= y <= current_year + 10,
            None => true,
        }),
        r matches Err(e) ==> e is Validation,
{
    if let Err(e) = crate::errors::validate_non_empty(book.title.as_str(), "Title") {
        return Err(e);
    }
    if book.authors.len() == 0 {
        return Err(
            LibroError::validation(String::from_str("At least one author is required")),
        );
    }
    if let Some(p) = book.pages {
        if let Err(e) = crate::errors::validate_pages(p) {
            return Err(e);
        }
    }
    if let Some(y) = book.pub_year {
        if let Err(e) = crate::errors::validate_year(y, current_year) {
            return Err(e);
        }
    }
    Ok(())
}

/// The checks a [`NewReview`] must pass: a rating between 1 and 5 and a
/// non-blank text.
pub fn validate_new_review(review: &NewReview) -> (r: Result<(), LibroError>)
    ensures
        r is Ok <==> 1 <= review.rating <= 5 && !crate::text::is_blank(review.review@),
        r matches Err(e) ==> e is Validation,
{
    if let Err(e) = crate::errors::validate_rating(review.rating) {
        return Err(e);
    }
    if let Err(e) = crate::errors::validate_non_empty(review.review.as_str(), "Review text") {
        return Err(e);
    }
    Ok(())
}

} // verus!
