//! A recognizer for C1, a small C-like teaching language: a lexer that turns
//! source text into classified tokens, and a recursive-descent parser that
//! decides whether those tokens form a valid program, reporting the first
//! offending token otherwise.

pub mod token;
pub mod lexer;
pub mod grammar;
pub mod lemmas;
pub mod message;
pub mod parser;
