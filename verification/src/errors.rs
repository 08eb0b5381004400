//! The library's error type and the input validation rules shared by the
//! stores and the interactive form.

use vstd::prelude::*;

use crate::text::is_blank;
use crate::text::str_is_blank;

verus! {

/// Everything that can go wrong inside the library or be reported by a store.
#[derive(Debug, Clone)]
pub enum LibroError {
    /// A rule on user input was broken; carries the rule's message.
    Validation(String),
    /// No book exists with the given id.
    BookNotFound(i64),
    /// No review exists with the given id.
    ReviewNotFound(i64),
    /// A free-form input could not be understood; carries a message.
    InvalidInput(String),
    /// The persistence layer failed; carries its display text.
    Database(String),
    /// The user backed out of an interactive flow.
    UserCancelled,
    /// A state the library considers impossible; carries a message.
    Internal(String),
}

impl LibroError {
    /// A `Validation` error with the given message.
    pub fn validation(message: String) -> (r: LibroError)
        ensures
            r == LibroError::Validation(message),
    {
        LibroError::Validation(message)
    }

    /// An `InvalidInput` error with the given message.
    pub fn invalid_input(message: String) -> (r: LibroError)
        ensures
            r == LibroError::InvalidInput(message),
    {
        LibroError::InvalidInput(message)
    }

    /// An `Internal` error with the given message.
    pub fn internal(message: String) -> (r: LibroError)
        ensures
            r == LibroError::Internal(message),
    {
        LibroError::Internal(message)
    }

    /// Whether the error is one the user can recover from by correcting input,
    /// as opposed to a failure of the environment.
    pub fn is_user_error(&self) -> (r: bool)
        ensures
            r == (self is Validation || self is BookNotFound || self is ReviewNotFound
                || self is InvalidInput || self is UserCancelled),
    {
        match self {
            LibroError::Validation(_) => true,
            LibroError::BookNotFound(_) => true,
            LibroError::ReviewNotFound(_) => true,
            LibroError::InvalidInput(_) => true,
            LibroError::UserCancelled => true,
            _ => false,
        }
    }
}

/// Rejects a value that is empty once trimmed; the message names the field.
pub fn validate_non_empty(value: &str, field_name: &str) -> (r: Result<(), LibroError>)
    ensures
        r is Err <==> is_blank(value@),
        r matches Err(e) ==> e matches LibroError::Validation(m) && m@ == field_name@
            + " cannot be empty"@,
{
    if str_is_blank(value) {
        let msg = String::from_str(field_name).concat(" cannot be empty");
        Err(LibroError::validation(msg))
    } else {
        Ok(())
    }
}

/// Accepts a rating exactly when it lies between 1 and 5.
pub fn validate_rating(rating: i32) -> (r: Result<(), LibroError>)
    ensures
        r is Ok <==> 1 <= rating <= 5,
        r matches Err(e) ==> e matches LibroError::Validation(m) && m@
            == "Rating must be between 1 and 5"@,
{
    if 1 <= rating && rating <= 5 {
        Ok(())
    } else {
        Err(LibroError::validation(String::from_str("Rating must be between 1 and 5")))
    }
}

/// Accepts a page count exactly when it is positive.
pub fn validate_pages(pages: i32) -> (r: Result<(), LibroError>)
    ensures
        r is Ok <==> pages > 0,
        r matches Err(e) ==> e matches LibroError::Validation(m) && m@
            == "Pages must be a positive number"@,
{
    if pages > 0 {
        Ok(())
    } else {
        Err(LibroError::validation(String::from_str("Pages must be a positive number")))
    }
}

/// Accepts a publication year exactly when it lies between 1000 and ten years
/// past the given current year.
pub fn validate_year(year: i32, current_year: i32) -> (r: Result<(), LibroError>)
    requires
        1000 <= current_year <= 100_000,
    ensures
        r is Ok <==> 1000 <= year <= current_year + 10,
        r matches Err(e) ==> e is Validation,
{
    if 1000 <= year && year <= current_year + 10 {
        Ok(())
    } else {
        Err(LibroError::validation(String::from_str("Year is out of the accepted range")))
    }
}

/// Turns an optional positive id into the store's wider id type; rejects a
/// missing or zero id.
pub fn validate_book_id(id: Option<u32>) -> (r: Result<i64, LibroError>)
    ensures
        r matches Ok(v) ==> id matches Some(n) && n > 0 && v == n as i64,
        r is Err <==> id is None || id == Some(0u32),
        r matches Err(e) ==> e is InvalidInput,
{
    match id {
        Some(n) => {
            if n > 0 {
                Ok(n as i64)
            } else {
                Err(LibroError::invalid_input(String::from_str("Book ID must be greater than 0")))
            }
        },
        None => Err(LibroError::invalid_input(String::from_str("Book ID is required"))),
    }
}

/// Widens and range-checks an optional year filter; `None` passes through.
pub fn validate_year_option(year: Option<u32>, current_year: i32) -> (r: Result<
    Option<i32>,
    LibroError,
>)
    requires
        1000 <= current_year <= 100_000,
    ensures
        r matches Ok(v) ==> (year matches Some(y) && 1000 <= y <= current_year + 10 && v == Some(
            y as i32,
        )) || (year is None && v is None),
        r is Err <==> (year matches Some(y) && !(1000 <= y <= current_year + 10)),
{
    match year {
        Some(y) => {
            if y <= i32::MAX as u32 {
                match validate_year(y as i32, current_year) {
                    Ok(()) => Ok(Some(y as i32)),
                    Err(e) => Err(e),
                }
            } else {
                Err(LibroError::validation(String::from_str("Year is out of the accepted range")))
            }
        },
        None => Ok(None),
    }
}

} // verus!
