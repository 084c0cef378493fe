//! The vocabulary of the lexer: tokens, their types and their tables.

pub mod constant;
pub mod keyword;
pub mod mark;
pub mod token;
