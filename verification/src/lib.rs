//! A front-end for the Kaleidoscope language: a character stream tagged with
//! source positions, a lexer producing classified tokens, a typed abstract
//! syntax tree, and a recursive-descent parser with precedence climbing for
//! binary expressions.

pub mod ast;
pub mod chars;
pub mod error;
pub mod formats;
pub mod lexer;
pub mod numbers;
pub mod parser;
pub mod strutil;
pub mod token;
pub mod words;
