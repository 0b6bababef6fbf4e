//! The classification of a token, which lets the parser make sure that the
//! input given is correct.
//!
//! See [`TokenKind`].

use vstd::prelude::*;

use super::bracket::Bracket;
use super::keyword::Keyword;
use super::operator::Operator;

verus! {

/// The kind of token a token is.
#[derive(Copy, Clone, Debug, PartialEq, Eq, Structural)]
pub enum TokenKind {
    /// Default value, reserved for situations where the token kind cannot be
    /// guessed yet. Never appears in an output token.
    Unknown,
    /// The token for when the file or stream is done.
    Eof,
    /// A keyword.
    Keyword(Keyword),
    /// An identifier.
    Identifier,
    /// A decimal integer.
    Integer,
    /// A floating point decimal number.
    Float,
    /// An operator (e.g. '+' in 1 + 2).
    Operator(Operator),
    /// A bracket (e.g. '{' or '}').
    Bracket(Bracket),
    /// A comma separator.
    Comma,
    /// A period, used in attribute accessors.
    Dot,
    /// A semicolon, denoting the end of a statement or expression.
    Semicolon,
}

impl TokenKind {
    /// Whether this kind tells the parser to halt and return whatever it has
    /// processed: a semicolon or an end of file.
    pub open spec fn spec_is_terminating(&self) -> bool {
        self is Semicolon || self is Eof
    }

    /// Check whether this token kind represents a sentinel value that tells
    /// the parser to halt and return whatever it has processed. Such tokens
    /// include semicolons and EOFs.
    #[verifier::when_used_as_spec(spec_is_terminating)]
    pub fn is_terminating(&self) -> (r: bool)
        ensures
            r == self.spec_is_terminating(),
    {
        matches!(*self, TokenKind::Semicolon | TokenKind::Eof)
    }
}

impl Default for TokenKind {
    /// The unknown kind.
    fn default() -> (r: Self)
        ensures
            r is Unknown,
    {
        TokenKind::Unknown
    }
}

} // verus!
