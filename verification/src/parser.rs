//! The parser, which turns the token stream into an abstract syntax tree by
//! recursive descent with precedence climbing for binary expressions, and
//! the driver that asks it for one top-level construct at a time.

pub mod driver;
pub mod error;
pub mod grammar;
pub mod laws;
pub mod parser;
pub mod precedence;
pub mod spec;
