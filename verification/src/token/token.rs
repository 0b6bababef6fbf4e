//! A token in a file or stream.
//!
//! See [`Token`] for more comprehensive information.

use vstd::prelude::*;

use crate::chars;
use crate::lexer::error::{Error, ErrorKind};
use crate::strutil::push_char;
use super::bracket::{spec_bracket_of, Bracket, BracketKind};
use super::fileindex::FileIndex;
use super::keyword::{spec_keyword_of, Keyword};
use super::operator::{spec_operator_of, Operator};
use super::tokenkind::TokenKind;

verus! {

/// A token in a Kaleidoscope file.
///
/// This structural representation of a token contains the possible
/// [`TokenKind`] of the token, the token as a string (stored as `span`), and
/// the start and end indices of the token.
#[derive(Debug)]
pub struct Token {
    pub token_kind: TokenKind,
    pub span: String,
    pub start: FileIndex,
    pub end: FileIndex,
}

/// What one character does to a partial token: grow it (or leave it
/// untouched while skipping leading whitespace), close it with the character
/// left unconsumed, or fail.
pub enum LexStep {
    /// The character is rejected with this kind of error.
    Error(ErrorKind),
    /// The character was accepted; the partial token now has this kind and
    /// span.
    Grow(TokenKind, Seq<char>),
    /// The character cannot extend the token: the token is complete and the
    /// character stays unconsumed.
    Stop,
}

/// What one character does to the partial token `(kind, span)`: the exact
/// transition table of the lexer's state machine.
pub open spec fn spec_add_unit(kind: TokenKind, span: Seq<char>, unit: char) -> LexStep {
    if span.len() == 0 {
        if chars::spec_is_whitespace(unit) {
            LexStep::Grow(kind, span)
        } else if chars::spec_is_identifier_start(unit) {
            LexStep::Grow(TokenKind::Identifier, seq![unit])
        } else if chars::spec_is_decimal_digit(unit) {
            LexStep::Grow(TokenKind::Integer, seq![unit])
        } else if chars::spec_is_opchar(unit) {
            LexStep::Grow(TokenKind::Operator(spec_operator_of(seq![unit])), seq![unit])
        } else if chars::spec_is_bracket(unit) {
            LexStep::Grow(TokenKind::Bracket(spec_bracket_of(seq![unit])), seq![unit])
        } else if chars::spec_is_comma(unit) {
            LexStep::Grow(TokenKind::Comma, seq![unit])
        } else if chars::spec_is_dot(unit) {
            LexStep::Grow(TokenKind::Dot, seq![unit])
        } else if chars::spec_is_semicolon(unit) {
            LexStep::Grow(TokenKind::Semicolon, seq![unit])
        } else {
            LexStep::Error(ErrorKind::InvalidChar)
        }
    } else {
        if chars::spec_is_whitespace(unit) {
            LexStep::Stop
        } else {
            match kind {
                TokenKind::Identifier => if chars::spec_is_identifier(unit) {
                    LexStep::Grow(kind, span.push(unit))
                } else {
                    LexStep::Stop
                },
                TokenKind::Integer => if chars::spec_is_decimal_digit(unit) {
                    LexStep::Grow(kind, span.push(unit))
                } else if chars::spec_is_fullstop(unit) {
                    LexStep::Grow(TokenKind::Float, span.push(unit))
                } else {
                    LexStep::Stop
                },
                TokenKind::Float => if chars::spec_is_decimal_digit(unit) {
                    LexStep::Grow(kind, span.push(unit))
                } else {
                    LexStep::Stop
                },
                TokenKind::Operator(_) => if chars::spec_is_opchar(unit) {
                    LexStep::Grow(kind, span.push(unit))
                } else {
                    LexStep::Stop
                },
                TokenKind::Bracket(_) => LexStep::Stop,
                TokenKind::Comma => LexStep::Stop,
                TokenKind::Dot => LexStep::Stop,
                TokenKind::Semicolon => LexStep::Stop,
                _ => LexStep::Error(ErrorKind::LexerFatal),
            }
        }
    }
}

/// What resolving the partial token `(kind, span)` yields: the final kind of
/// the complete token, or the error that makes the span invalid.
pub open spec fn spec_resolve(kind: TokenKind, span: Seq<char>) -> Result<TokenKind, ErrorKind> {
    match kind {
        TokenKind::Unknown => Err(ErrorKind::InvalidToken),
        TokenKind::Identifier => match spec_keyword_of(span) {
            Some(keyword) => Ok(TokenKind::Keyword(keyword)),
            None => Ok(TokenKind::Identifier),
        },
        TokenKind::Float => if span.len() == 0 {
            Err(ErrorKind::LexerFatal)
        } else if span.last() == '.' {
            Err(ErrorKind::BadChar)
        } else {
            Ok(TokenKind::Float)
        },
        TokenKind::Operator(_) => if spec_operator_of(span) is Unknown {
            Err(ErrorKind::InvalidCombo)
        } else {
            Ok(TokenKind::Operator(spec_operator_of(span)))
        },
        TokenKind::Bracket(_) => if spec_bracket_of(span).kind is Unknown {
            Err(ErrorKind::InvalidCombo)
        } else {
            Ok(TokenKind::Bracket(spec_bracket_of(span)))
        },
        _ => Ok(kind),
    }
}

/// The character grew the partial token into `(k2, s2)` without closing it:
/// `r` reports more characters are welcome and the positions are untouched.
pub open spec fn spec_grew(pre: Token, post: Token, r: Result<bool, Error>, k2: TokenKind, s2: Seq<
    char,
>) -> bool {
    &&& r is Ok
    &&& r->Ok_0 == false
    &&& post.token_kind == k2
    &&& post.span@ == s2
    &&& post.start == pre.start
    &&& post.end == pre.end
}

/// The partial token was closed and resolved at `index`: on success `r`
/// reports completion and the final kind is the resolved one; otherwise `r`
/// carries the error that resolution found.
pub open spec fn spec_closed(pre: Token, post: Token, r: Result<bool, Error>, index: FileIndex) -> bool {
    match spec_resolve(pre.token_kind, pre.span@) {
        Ok(k2) => {
            &&& r is Ok
            &&& r->Ok_0 == true
            &&& post.token_kind == k2
            &&& post.span@ == pre.span@
            &&& post.start == pre.start
            &&& post.end == index
        },
        Err(ek) => r matches Err(e) && e.errorkind == ek,
    }
}

impl Token {
    /// Generate a new token from known values.
    pub fn new(token_kind: TokenKind, span: String, start: FileIndex, end: FileIndex) -> (r: Self)
        ensures
            r.token_kind == token_kind,
            r.span@ == span@,
            r.start == start,
            r.end == end,
    {
        Self { token_kind, span, start, end }
    }

    /// A new token whose [`TokenKind`] is [`TokenKind::Eof`].
    pub fn new_eof(index: FileIndex) -> (r: Self)
        ensures
            r.token_kind is Eof,
            r.span@.len() == 0,
            r.start == index,
            r.end == index,
    {
        Self { token_kind: TokenKind::Eof, span: String::new(), start: index, end: index }
    }

    /// Whether the token marks the end of the input.
    pub fn is_eof(&self) -> (r: bool)
        ensures
            r == (self.token_kind is Eof),
    {
        matches!(self.token_kind, TokenKind::Eof)
    }

    /// Check if the span in the token is empty or not.
    pub fn is_empty(&self) -> (r: bool)
        ensures
            r == (self.span@.len() == 0),
    {
        self.span.as_str().is_empty()
    }

    /// Whether the token ends an expression: a semicolon or the end of the
    /// input.
    pub fn is_terminating(&self) -> (r: bool)
        ensures
            r == self.token_kind.spec_is_terminating(),
    {
        self.token_kind.is_terminating()
    }

    /// Borrow the span as a string slice.
    pub fn borrow_span(&self) -> (r: &str)
        ensures
            r@ == self.span@,
    {
        self.span.as_str()
    }

    /// Add a character into the token. This method returns a boolean value if
    /// no error occurs.
    ///
    /// If `true` is returned, `unit` is a character that this token cannot
    /// accept, so this token is complete and has been resolved; `unit` is not
    /// part of the token. If `false` is returned, `unit` has been handled and
    /// the token can continue to collect more characters.
    pub fn add_unit(&mut self, unit: char, index: FileIndex) -> (r: Result<bool, Error>)
        ensures
            ({
                let pre = *old(self);
                let post = *final(self);
                let step = spec_add_unit(pre.token_kind, pre.span@, unit);
                &&& (step matches LexStep::Grow(k2, s2) ==> (if pre.span@.len() == 0 {
                    spec_grew(Token { start: index, ..pre }, post, r, k2, s2)
                } else {
                    spec_grew(pre, post, r, k2, s2)
                }))
                &&& (step is Stop ==> spec_closed(pre, post, r, index))
                &&& (step matches LexStep::Error(ek) ==> r matches Err(e) && e.errorkind == ek)
            }),
    {
        if self.is_empty() {
            self.add_unit_when_empty(unit, index)
        } else {
            self.add_unit_when_not_empty(unit, index)
        }
    }

    fn add_unit_when_empty(&mut self, unit: char, index: FileIndex) -> (r: Result<bool, Error>)
        requires
            old(self).span@.len() == 0,
        ensures
            ({
                let pre = *old(self);
                let post = *final(self);
                let step = spec_add_unit(pre.token_kind, pre.span@, unit);
                &&& (step matches LexStep::Grow(k2, s2) ==> spec_grew(
                    Token { start: index, ..pre },
                    post,
                    r,
                    k2,
                    s2,
                ))
                &&& (step matches LexStep::Error(ek) ==> r matches Err(e) && e.errorkind == ek)
            }),
    {
        self.start = index;
        if chars::is_whitespace(unit) {
            return Ok(false);
        }
        push_char(&mut self.span, unit);
        proof {
            assert(self.span@ =~= seq![unit]);
        }
        if chars::is_identifier_start(unit) {
            self.token_kind = TokenKind::Identifier;
        } else if chars::is_decimal_digit(unit) {
            self.token_kind = TokenKind::Integer;
        } else if chars::is_opchar(unit) {
            let operator = Operator::from_string(self.span.as_str());
            self.token_kind = TokenKind::Operator(operator);
        } else if chars::is_bracket(unit) {
            let bracket = Bracket::from_string(self.span.as_str());
            self.token_kind = TokenKind::Bracket(bracket);
        } else if chars::is_comma(unit) {
            self.token_kind = TokenKind::Comma;
        } else if chars::is_dot(unit) {
            self.token_kind = TokenKind::Dot;
        } else if chars::is_semicolon(unit) {
            self.token_kind = TokenKind::Semicolon;
        } else {
            return Err(
                Error::new(
                    String::from_str("this character cannot start any token"),
                    ErrorKind::InvalidChar,
                    Some(index),
                ),
            );
        }
        Ok(false)
    }

    fn add_unit_when_not_empty(&mut self, unit: char, index: FileIndex) -> (r: Result<bool, Error>)
        requires
            old(self).span@.len() > 0,
        ensures
            ({
                let pre = *old(self);
                let post = *final(self);
                let step = spec_add_unit(pre.token_kind, pre.span@, unit);
                &&& (step matches LexStep::Grow(k2, s2) ==> spec_grew(pre, post, r, k2, s2))
                &&& (step is Stop ==> spec_closed(pre, post, r, index))
                &&& (step matches LexStep::Error(ek) ==> r matches Err(e) && e.errorkind == ek)
            }),
    {
        if chars::is_whitespace(unit) {
            return self.resolve(index);
        }
        match self.token_kind {
            TokenKind::Identifier => self.add_unit_if_identifier(unit, index),
            TokenKind::Integer => self.add_unit_if_integer(unit, index),
            TokenKind::Float => self.add_unit_if_float(unit, index),
            TokenKind::Operator(_) => self.add_unit_if_operator(unit, index),
            TokenKind::Bracket(_) => self.add_unit_if_bracket(unit, index),
            TokenKind::Comma | TokenKind::Dot | TokenKind::Semicolon => self.resolve(index),
            _ => Err(
                Error::new(
                    String::from_str("a partial token has an impossible kind"),
                    ErrorKind::LexerFatal,
                    Some(index),
                ),
            ),
        }
    }

    fn add_unit_if_identifier(&mut self, unit: char, index: FileIndex) -> (r: Result<bool, Error>)
        requires
            old(self).span@.len() > 0,
            old(self).token_kind is Identifier,
            !chars::spec_is_whitespace(unit),
        ensures
            chars::spec_is_identifier(unit) ==> spec_grew(
                *old(self),
                *final(self),
                r,
                old(self).token_kind,
                old(self).span@.push(unit),
            ),
            !chars::spec_is_identifier(unit) ==> spec_closed(*old(self), *final(self), r, index),
    {
        if chars::is_identifier(unit) {
            push_char(&mut self.span, unit);
            Ok(false)
        } else {
            self.resolve(index)
        }
    }

    fn add_unit_if_integer(&mut self, unit: char, index: FileIndex) -> (r: Result<bool, Error>)
        requires
            old(self).span@.len() > 0,
            old(self).token_kind is Integer,
            !chars::spec_is_whitespace(unit),
        ensures
            chars::spec_is_decimal_digit(unit) ==> spec_grew(
                *old(self),
                *final(self),
                r,
                TokenKind::Integer,
                old(self).span@.push(unit),
            ),
            !chars::spec_is_decimal_digit(unit) && chars::spec_is_fullstop(unit) ==> spec_grew(
                *old(self),
                *final(self),
                r,
                TokenKind::Float,
                old(self).span@.push(unit),
            ),
            !chars::spec_is_decimal_digit(unit) && !chars::spec_is_fullstop(unit) ==> spec_closed(
                *old(self),
                *final(self),
                r,
                index,
            ),
    {
        if chars::is_decimal_digit(unit) {
            push_char(&mut self.span, unit);
            Ok(false)
        } else if chars::is_fullstop(unit) {
            push_char(&mut self.span, unit);
            self.token_kind = TokenKind::Float;
            Ok(false)
        } else {
            self.resolve(index)
        }
    }

    fn add_unit_if_float(&mut self, unit: char, index: FileIndex) -> (r: Result<bool, Error>)
        requires
            old(self).span@.len() > 0,
            old(self).token_kind is Float,
            !chars::spec_is_whitespace(unit),
        ensures
            chars::spec_is_decimal_digit(unit) ==> spec_grew(
                *old(self),
                *final(self),
                r,
                TokenKind::Float,
                old(self).span@.push(unit),
            ),
            !chars::spec_is_decimal_digit(unit) ==> spec_closed(*old(self), *final(self), r, index),
    {
        if chars::is_decimal_digit(unit) {
            push_char(&mut self.span, unit);
            Ok(false)
        } else {
            self.resolve(index)
        }
    }

    fn add_unit_if_operator(&mut self, unit: char, index: FileIndex) -> (r: Result<bool, Error>)
        requires
            old(self).span@.len() > 0,
            old(self).token_kind is Operator,
            !chars::spec_is_whitespace(unit),
        ensures
            chars::spec_is_opchar(unit) ==> spec_grew(
                *old(self),
                *final(self),
                r,
                old(self).token_kind,
                old(self).span@.push(unit),
            ),
            !chars::spec_is_opchar(unit) ==> spec_closed(*old(self), *final(self), r, index),
    {
        if chars::is_opchar(unit) {
            push_char(&mut self.span, unit);
            Ok(false)
        } else {
            self.resolve(index)
        }
    }

    fn add_unit_if_bracket(&mut self, _unit: char, index: FileIndex) -> (r: Result<bool, Error>)
        requires
            old(self).span@.len() > 0,
            old(self).token_kind is Bracket,
        ensures
            // All brackets have length 1, so any further character closes the
            // token.
            spec_closed(*old(self), *final(self), r, index),
    {
        self.resolve(index)
    }

    fn resolve_identifier(&mut self, _index: FileIndex) -> (r: Result<bool, Error>)
        requires
            old(self).token_kind is Identifier,
        ensures
            r is Ok && r->Ok_0 == true,
            final(self).span@ == old(self).span@,
            final(self).start == old(self).start,
            final(self).end == old(self).end,
            Ok::<TokenKind, ErrorKind>(final(self).token_kind) == spec_resolve(
                old(self).token_kind,
                old(self).span@,
            ),
    {
        if let Some(keyword) = Keyword::from_string(self.span.as_str()) {
            self.token_kind = TokenKind::Keyword(keyword);
        }
        Ok(true)
    }

    fn resolve_float(&mut self, index: FileIndex) -> (r: Result<bool, Error>)
        requires
            old(self).token_kind is Float,
        ensures
            *final(self) == *old(self),
            ({
                match spec_resolve(old(self).token_kind, old(self).span@) {
                    Ok(k2) => r is Ok && r->Ok_0 == true && k2 == old(self).token_kind,
                    Err(ek) => r matches Err(e) && e.errorkind == ek,
                }
            }),
    {
        let n = self.span.as_str().unicode_len();
        if n == 0 {
            Err(
                Error::new(
                    String::from_str("a float token has an empty span"),
                    ErrorKind::LexerFatal,
                    Some(index),
                ),
            )
        } else if self.span.as_str().get_char(n - 1) == '.' {
            Err(
                Error::new(
                    String::from_str("a float cannot end with its floating point"),
                    ErrorKind::BadChar,
                    Some(index),
                ),
            )
        } else {
            Ok(true)
        }
    }

    fn resolve_operator(&mut self, index: FileIndex) -> (r: Result<bool, Error>)
        requires
            old(self).token_kind is Operator,
        ensures
            final(self).span@ == old(self).span@,
            final(self).start == old(self).start,
            final(self).end == old(self).end,
            ({
                match spec_resolve(old(self).token_kind, old(self).span@) {
                    Ok(k2) => r is Ok && r->Ok_0 == true && final(self).token_kind == k2,
                    Err(ek) => r matches Err(e) && e.errorkind == ek,
                }
            }),
    {
        let operator = Operator::from_string(self.span.as_str());
        if matches!(operator, Operator::Unknown) {
            Err(
                Error::new(
                    String::from_str("could not guess the operator from its span"),
                    ErrorKind::InvalidCombo,
                    Some(index),
                ),
            )
        } else {
            self.token_kind = TokenKind::Operator(operator);
            Ok(true)
        }
    }

    fn resolve_bracket(&mut self, index: FileIndex) -> (r: Result<bool, Error>)
        requires
            old(self).token_kind is Bracket,
        ensures
            final(self).span@ == old(self).span@,
            final(self).start == old(self).start,
            final(self).end == old(self).end,
            ({
                match spec_resolve(old(self).token_kind, old(self).span@) {
                    Ok(k2) => r is Ok && r->Ok_0 == true && final(self).token_kind == k2,
                    Err(ek) => r matches Err(e) && e.errorkind == ek,
                }
            }),
    {
        let bracket = Bracket::from_string(self.span.as_str());
        if matches!(bracket.kind, BracketKind::Unknown) {
            Err(
                Error::new(
                    String::from_str("invalid bracket span"),
                    ErrorKind::InvalidCombo,
                    Some(index),
                ),
            )
        } else {
            self.token_kind = TokenKind::Bracket(bracket);
            Ok(true)
        }
    }

    /// Close the token: record its end position and settle its final kind.
    /// Identifiers are checked against the keyword table, floats against a
    /// trailing floating point, operators and brackets against their
    /// respective lexeme tables.
    pub fn resolve(&mut self, index: FileIndex) -> (r: Result<bool, Error>)
        ensures
            spec_closed(*old(self), *final(self), r, index),
    {
        self.end = index;
        let r = match self.token_kind {
            TokenKind::Unknown => Err(
                Error::new(
                    String::from_str("could not guess the token kind from its span"),
                    ErrorKind::InvalidToken,
                    Some(index),
                ),
            ),
            TokenKind::Identifier => self.resolve_identifier(index),
            TokenKind::Float => self.resolve_float(index),
            TokenKind::Operator(_) => self.resolve_operator(index),
            TokenKind::Bracket(_) => self.resolve_bracket(index),
            _ => Ok(true),
        };
        r
    }
}

impl Clone for Token {
    /// A structurally equal copy of the token.
    fn clone(&self) -> (r: Self)
        ensures
            r == *self,
    {
        Token {
            token_kind: self.token_kind,
            span: self.span.clone(),
            start: self.start,
            end: self.end,
        }
    }
}

impl Default for Token {
    /// An empty token with an unknown kind, ready to collect characters.
    fn default() -> (r: Self)
        ensures
            r.token_kind is Unknown,
            r.span@.len() == 0,
            r.start == (FileIndex { line: None, column: 0 }),
            r.end == (FileIndex { line: None, column: 0 }),
    {
        Self {
            token_kind: TokenKind::Unknown,
            span: String::new(),
            start: FileIndex::default(),
            end: FileIndex::default(),
        }
    }
}

} // verus!
