//! Tests of the validation helpers, the date parsing, the decimal helpers
//! and the error type.

use chrono::Datelike;
use libro::date::parse_date;
use libro::date::validate_date_not_future;
use libro::date::Date;
use libro::errors::validate_book_id;
use libro::errors::validate_non_empty;
use libro::errors::validate_pages;
use libro::errors::validate_rating;
use libro::errors::validate_year;
use libro::errors::validate_year_option;
use libro::errors::LibroError;
use libro::models::WriterType;
use libro::text::parse_u32;
use libro::text::str_contains;
use libro::text::trim_str;
use libro::text::truncate_string;
use libro::text::i64_to_string;
use libro::text::u32_to_string;

fn chrono_today() -> Date {
    let now = chrono::Utc::now().date_naive();
    Date { year: now.year(), month: now.month() as u8, day: now.day() as u8 }
}

#[test]
fn test_parse_date_formats() {
    assert!(parse_date("2023-12-01").is_ok());
    assert!(parse_date("2023/12/01").is_ok());
    assert!(parse_date("01/12/2023").is_ok());
    assert!(parse_date("01-12-2023").is_ok());
    assert!(parse_date("invalid").is_err());
}

#[test]
fn test_parse_date_values() {
    let d = parse_date("2023-12-01").unwrap();
    assert_eq!(d, Date { year: 2023, month: 12, day: 1 });
    assert!(parse_date("2023-02-30").is_err());
}

#[test]
fn test_validate_date_not_future() {
    let today = chrono_today();
    let past_date = Date { year: 2020, month: 1, day: 1 };
    assert!(validate_date_not_future(&past_date, &today).is_ok());
    let future_date = Date { year: 2030, month: 1, day: 1 };
    assert!(validate_date_not_future(&future_date, &today).is_err());
}

#[test]
fn test_validate_book_id() {
    assert!(validate_book_id(Some(1)).is_ok());
    assert!(validate_book_id(Some(0)).is_err());
    assert!(validate_book_id(None).is_err());
}

#[test]
fn test_validate_year_option() {
    let current_year = chrono::Utc::now().year();
    assert!(validate_year_option(Some(2023), current_year).is_ok());
    assert!(validate_year_option(None, current_year).is_ok());
    assert!(validate_year_option(Some(500), current_year).is_err());
}

#[test]
fn test_validate_rating_bounds() {
    assert!(validate_rating(1).is_ok());
    assert!(validate_rating(5).is_ok());
    assert!(validate_rating(0).is_err());
    assert!(validate_rating(6).is_err());
}

#[test]
fn test_validate_pages_positive() {
    assert!(validate_pages(1).is_ok());
    assert!(validate_pages(0).is_err());
    assert!(validate_pages(-3).is_err());
}

#[test]
fn test_validate_year_range() {
    assert!(validate_year(1000, 2024).is_ok());
    assert!(validate_year(2034, 2024).is_ok());
    assert!(validate_year(999, 2024).is_err());
    assert!(validate_year(2035, 2024).is_err());
}

#[test]
fn test_validate_non_empty_trims() {
    assert!(validate_non_empty("title", "Title").is_ok());
    match validate_non_empty("   ", "Title") {
        Err(LibroError::Validation(message)) => {
            assert_eq!(message, "Title cannot be empty");
        }
        other => panic!("expected a validation error, got {:?}", other),
    }
}

#[test]
fn test_truncate_string() {
    assert_eq!(truncate_string("short", 10), "short");
    assert_eq!(truncate_string("this is a very long string", 10), "this is...");
}

#[test]
fn test_parse_u32_digits_only() {
    assert_eq!(parse_u32("0"), Some(0));
    assert_eq!(parse_u32("412"), Some(412));
    assert_eq!(parse_u32("4294967295"), Some(u32::MAX));
    assert_eq!(parse_u32("4294967296"), None);
    assert_eq!(parse_u32(""), None);
    assert_eq!(parse_u32("-1"), None);
    assert_eq!(parse_u32("1 2"), None);
}

#[test]
fn test_u32_to_string_round_trip() {
    assert_eq!(u32_to_string(0), "0");
    assert_eq!(u32_to_string(2024), "2024");
    assert_eq!(u32_to_string(u32::MAX), "4294967295");
    assert_eq!(parse_u32(&u32_to_string(987654)), Some(987654));
}

#[test]
fn test_i64_to_string_signs() {
    assert_eq!(i64_to_string(0), "0");
    assert_eq!(i64_to_string(42), "42");
    assert_eq!(i64_to_string(-7), "-7");
    assert_eq!(i64_to_string(i64::MAX), "9223372036854775807");
    assert_eq!(i64_to_string(i64::MIN), "-9223372036854775808");
}

#[test]
fn test_trim_and_contains() {
    assert_eq!(trim_str("  spaced out \t"), "spaced out");
    assert_eq!(trim_str("   "), "");
    assert!(str_contains("hello world", "lo wo"));
    assert!(!str_contains("hello", "world"));
    assert!(str_contains("anything", ""));
}

#[test]
fn test_writer_type_names() {
    assert_eq!(WriterType::Author.as_str(), "author");
    assert_eq!(WriterType::Translator.as_str(), "translator");
    assert!(matches!(WriterType::from_str("author"), Ok(WriterType::Author)));
    assert!(matches!(WriterType::from_str("translator"), Ok(WriterType::Translator)));
    assert!(WriterType::from_str("editor").is_err());
}

#[test]
fn test_is_user_error() {
    assert!(LibroError::UserCancelled.is_user_error());
    assert!(LibroError::Validation("v".to_string()).is_user_error());
    assert!(LibroError::BookNotFound(3).is_user_error());
    assert!(!LibroError::Database("boom".to_string()).is_user_error());
    assert!(!LibroError::Internal("bug".to_string()).is_user_error());
}

#[test]
fn test_prompt_number_validation() {
    // The interactive number prompt cannot be driven without a terminal;
    // the bound checks it applies are the validators exercised above.
    assert!(true);
}

#[test]
fn test_confirm_function_exists() {
    // As above: the yes/no prompt itself needs a terminal to exercise.
    assert!(true);
}
