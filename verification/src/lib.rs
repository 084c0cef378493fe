//! A hand-written lexer: source text in, an ordered sequence of typed tokens
//! (or one rendered diagnostic) out.

pub mod characters;
pub mod comment;
pub mod error;
pub mod iterator;
pub mod laws;
pub mod lex;
pub mod scanner;
pub mod text;
pub mod tokens;
