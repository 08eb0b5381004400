//! Tests of the report computations: tallying books per author name and
//! ordering the tallies.

use libro::models::Book;
use libro::models::ExtendedBook;
use libro::models::Writer;
use libro::models::WriterType;
use libro::report::author_book_counts;
use libro::report::sort_by_count_desc;
use libro::report::ReportView;

fn book_by(id: i64, title: &str, authors: &[(i64, &str)]) -> ExtendedBook {
    ExtendedBook {
        book: Book {
            id: Some(id),
            title: title.to_string(),
            pages: None,
            pub_year: None,
            genre: "기타".to_string(),
        },
        authors: authors
            .iter()
            .map(|(wid, name)| Writer {
                id: Some(*wid),
                name: name.to_string(),
                writer_type: WriterType::Author,
            })
            .collect(),
        translators: Vec::new(),
        reviews: Vec::new(),
    }
}

#[test]
fn test_shared_author_name_counts_under_one_entry() {
    // Two books by the same (store-deduplicated) writer: the statistics
    // hold one entry for "Anon" with count 2, not two entries.
    let books = vec![
        book_by(1, "First", &[(5, "Anon")]),
        book_by(2, "Second", &[(5, "Anon")]),
    ];
    let counts = author_book_counts(&books);
    assert_eq!(counts.len(), 1);
    assert_eq!(counts[0].0, "Anon");
    assert_eq!(counts[0].1, 2);
}

#[test]
fn test_counts_several_authors() {
    let books = vec![
        book_by(1, "a", &[(1, "Kim"), (2, "Lee")]),
        book_by(2, "b", &[(1, "Kim")]),
        book_by(3, "c", &[(3, "Park")]),
    ];
    let counts = author_book_counts(&books);
    assert_eq!(counts.len(), 3);
    let get = |name: &str| counts.iter().find(|e| e.0 == name).map(|e| e.1);
    assert_eq!(get("Kim"), Some(2));
    assert_eq!(get("Lee"), Some(1));
    assert_eq!(get("Park"), Some(1));
}

#[test]
fn test_no_books_no_entries() {
    let counts = author_book_counts(&Vec::new());
    assert!(counts.is_empty());
}

#[test]
fn test_sort_by_count_desc() {
    let entries = vec![
        ("one".to_string(), 1usize),
        ("three".to_string(), 3usize),
        ("two".to_string(), 2usize),
    ];
    let sorted = sort_by_count_desc(entries);
    assert_eq!(sorted.len(), 3);
    assert_eq!(sorted[0], ("three".to_string(), 3));
    assert_eq!(sorted[1], ("two".to_string(), 2));
    assert_eq!(sorted[2], ("one".to_string(), 1));
}

#[test]
fn test_report_opens_on_authors() {
    assert_eq!(ReportView::default(), ReportView::Authors);
}
