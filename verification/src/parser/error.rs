//! Error kinds raised while parsing.

use vstd::prelude::*;

use crate::error::ErrorKind as ErrorKindTrait;

verus! {

/// The kinds of errors the parser can surface.
#[derive(Copy, Clone, Debug, PartialEq, Eq, Structural)]
pub enum ErrorKind {
    /// The lexer failed underneath the parser.
    LexerError,
    /// A token could not be turned into a node.
    ParsingError,
    /// The tokens do not follow the grammar.
    SyntaxError,
    /// Miscellaneous errors.
    Other,
}

impl ErrorKindTrait for ErrorKind {
    fn describe(&self) -> String {
        match *self {
            ErrorKind::LexerError => String::from_str("lexer failure"),
            ErrorKind::ParsingError => String::from_str("parsing failure"),
            ErrorKind::SyntaxError => String::from_str("syntax error"),
            ErrorKind::Other => String::from_str("other parser error"),
        }
    }
}

/// The error type used by the parser.
pub type Error = crate::error::Error<ErrorKind>;

} // verus!
