//! A personal library tracker: books, their writers, and reviews, driven by a
//! terminal user interface whose state machine is verified.
//!
//! The crate models the interactive core: a multi-line text editor with cursor
//! and viewport ([`input`]), a per-mode key-to-action table ([`events`]), the
//! application state with its form and selection invariants ([`state`]), and
//! the controller that applies actions and store outcomes to that state
//! ([`controller`]). Around them stand the data model ([`models`]), the
//! validation rules and error type ([`errors`]), the search filter
//! ([`search`]), the report tallies ([`report`]), dates ([`date`]) and the
//! character-level text helpers ([`text`]).

pub mod controller;
pub mod date;
pub mod errors;
pub mod events;
pub mod input;
pub mod models;
pub mod report;
pub mod search;
pub mod state;
pub mod text;
