//! Tests of the search filter: case-insensitive matching across title,
//! authors, genre and review texts, and the search screen's bookkeeping.

use libro::models::Book;
use libro::models::ExtendedBook;
use libro::models::Review;
use libro::models::Writer;
use libro::models::WriterType;
use libro::search::book_matches;
use libro::search::browse_matches;
use libro::search::count_matches;
use libro::search::nth_match_index;

fn book(title: &str, author: &str, genre: &str, review: Option<&str>) -> ExtendedBook {
    ExtendedBook {
        book: Book {
            id: Some(1),
            title: title.to_string(),
            pages: None,
            pub_year: None,
            genre: genre.to_string(),
        },
        authors: vec![Writer {
            id: Some(1),
            name: author.to_string(),
            writer_type: WriterType::Author,
        }],
        translators: Vec::new(),
        reviews: review
            .map(|text| {
                vec![Review {
                    id: Some(1),
                    book_id: 1,
                    date_read: None,
                    rating: 5,
                    review: text.to_string(),
                }]
            })
            .unwrap_or_default(),
    }
}

#[test]
fn test_lowercase_query_matches_title() {
    // "dune" must match the title "Dune" by case folding alone: author,
    // genre and reviews share nothing with the query.
    let b = book("Dune", "Frank Herbert", "소설", Some("a classic"));
    assert!(book_matches(&b, "dune"));
    assert!(book_matches(&b, "DUNE"));
    assert!(book_matches(&b, "un"));
}

#[test]
fn test_query_matches_each_field() {
    let b = book("Title", "Ursula K. Le Guin", "fantasy", Some("timeless story"));
    assert!(book_matches(&b, "le guin"));
    assert!(book_matches(&b, "FANTASY"));
    assert!(book_matches(&b, "timeless"));
    assert!(!book_matches(&b, "dune"));
}

#[test]
fn test_empty_query_matches_everything() {
    let b = book("Anything", "Anyone", "any", None);
    assert!(book_matches(&b, ""));
}

#[test]
fn test_browse_filter_ignores_reviews() {
    let b = book("Title", "Author", "genre", Some("hidden words"));
    assert!(book_matches(&b, "hidden"));
    assert!(!browse_matches(&b, "hidden"));
    assert!(browse_matches(&b, "title"));
    assert!(browse_matches(&b, "author"));
    assert!(browse_matches(&b, "genre"));
}

#[test]
fn test_count_and_nth_match() {
    let books = vec![
        book("Dune", "Frank Herbert", "SF", None),
        book("Emma", "Jane Austen", "classic", None),
        book("Dune Messiah", "Frank Herbert", "SF", None),
    ];
    assert_eq!(count_matches(&books, "dune"), 2);
    assert_eq!(count_matches(&books, "austen"), 1);
    assert_eq!(count_matches(&books, "nothing"), 0);
    assert_eq!(nth_match_index(&books, "dune", 0), Some(0));
    assert_eq!(nth_match_index(&books, "dune", 1), Some(2));
    assert_eq!(nth_match_index(&books, "dune", 2), None);
    assert_eq!(nth_match_index(&books, "austen", 0), Some(1));
}
