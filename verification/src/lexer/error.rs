//! Error kinds raised while turning characters into tokens.

use vstd::prelude::*;

use crate::error::ErrorKind as ErrorKindTrait;

verus! {

/// The kind of error encountered while lexing.
#[derive(Copy, Clone, Debug, PartialEq, Eq, Structural)]
pub enum ErrorKind {
    /// An error was encountered when reading a stream.
    FileIOError,
    /// An unrecognised character was encountered when producing a token.
    InvalidChar,
    /// A character was found at the wrong place in a token.
    BadChar,
    /// The lexer could not resolve a span into a token.
    InvalidToken,
    /// A series of characters in the wrong order or combination results in an
    /// invalid token.
    InvalidCombo,
    /// There are too many characters in a token.
    ExcessiveChars,
    /// The lexer encountered an exception that cannot be dealt with.
    LexerFatal,
    /// Miscellaneous errors too obscure to have their own category.
    Other,
}

impl ErrorKindTrait for ErrorKind {
    fn describe(&self) -> String {
        match *self {
            ErrorKind::FileIOError => String::from_str("file read failure"),
            ErrorKind::InvalidChar => String::from_str("invalid character"),
            ErrorKind::BadChar => String::from_str("character in the wrong place"),
            ErrorKind::InvalidToken => String::from_str("unresolvable token"),
            ErrorKind::InvalidCombo => String::from_str("invalid combination of characters"),
            ErrorKind::ExcessiveChars => String::from_str("too many characters in token"),
            ErrorKind::LexerFatal => String::from_str("fatal lexer inconsistency"),
            ErrorKind::Other => String::from_str("other lexer error"),
        }
    }
}

/// The error type used while lexing.
pub type Error = crate::error::Error<ErrorKind>;

} // verus!
