//! The lexer: a character stream tagged with positions, and a tokenizer that
//! pulls characters from it to produce one token at a time.

pub mod error;
pub mod laws;
pub mod stream;
pub mod tokenizer;
