//! Lexical front-end and shared error model of a small expression language.
//!
//! [`token::tokenize`] turns text into an ordered sequence of tokens, and
//! [`error::EvalexprError`] is the closed set of failures shared by lexing,
//! parsing and evaluation, together with the helpers that check arities and
//! value kinds.

pub mod bounds;
pub mod composition;
pub mod error;
pub mod literal;
pub mod token;
pub mod value;
