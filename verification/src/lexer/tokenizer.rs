//! A struct that reads a character stream and creates tokens from it.
//!
//! See [`Tokenizer`].

use vstd::prelude::*;

use crate::chars;
use crate::token::fileindex::FileIndex;
use crate::token::token::{spec_add_unit, spec_resolve, LexStep, Token};
use crate::token::tokenkind::TokenKind;
use super::error::{Error, ErrorKind};
use super::stream::CharStream;

verus! {

/// The tokenizer, which pulls characters from a [`CharStream`] and yields a
/// stream of tokens.
///
/// It holds the crucial one-character look-ahead: the character that closed
/// the previous token, which has been read from the stream but not consumed
/// by any token yet. The tokenizer never un-reads a character.
pub struct Tokenizer {
    pub last_unit: Option<char>,
}

/// The characters that remain to be lexed: the look-ahead character, if any,
/// followed by what the stream has not yielded yet.
pub open spec fn spec_pending(tokenizer: Tokenizer, stream: CharStream) -> Seq<char> {
    match tokenizer.last_unit {
        Some(c) => seq![c] + stream.remaining(),
        None => stream.remaining(),
    }
}

/// A tokenizer-stream pair is well formed when the stream is and when, once
/// the stream has reported the end of the input, no look-ahead character is
/// left behind.
pub open spec fn lexer_wf(tokenizer: Tokenizer, stream: CharStream) -> bool {
    &&& stream.wf()
    &&& (stream.spec_eof() ==> tokenizer.last_unit is None)
}

/// The lexer as a function over the pending characters, starting from the
/// partial token `(kind, span)` with `comment` telling whether a comment is
/// being skipped. The result is the completed token's kind and span together
/// with the characters left pending, or the kind of error the characters run
/// into.
pub open spec fn spec_lex_from(
    kind: TokenKind,
    span: Seq<char>,
    comment: bool,
    pending: Seq<char>,
) -> Result<(TokenKind, Seq<char>, Seq<char>), ErrorKind>
    decreases pending.len(),
{
    if pending.len() == 0 {
        if span.len() == 0 {
            Ok((TokenKind::Eof, span, pending))
        } else {
            match spec_resolve(kind, span) {
                Ok(k2) => Ok((k2, span, pending)),
                Err(ek) => Err(ek),
            }
        }
    } else {
        let u = pending[0];
        if comment {
            spec_lex_from(kind, span, !chars::spec_is_eol(u), pending.drop_first())
        } else if chars::spec_is_comment(u) {
            if span.len() == 0 {
                spec_lex_from(kind, span, true, pending.drop_first())
            } else {
                // A comment opener is of no class any token accepts: it
                // closes the token, and stays pending for the next call.
                match spec_resolve(kind, span) {
                    Ok(k2) => Ok((k2, span, pending)),
                    Err(ek) => Err(ek),
                }
            }
        } else {
            match spec_add_unit(kind, span, u) {
                LexStep::Grow(k2, s2) => spec_lex_from(k2, s2, false, pending.drop_first()),
                LexStep::Stop => match spec_resolve(kind, span) {
                    Ok(k2) => Ok((k2, span, pending)),
                    Err(ek) => Err(ek),
                },
                LexStep::Error(ek) => Err(ek),
            }
        }
    }
}

/// What lexing one token from `pending` yields: the token's kind and span,
/// and the characters left pending; or the error the characters run into.
pub open spec fn spec_next_token(pending: Seq<char>) -> Result<
    (TokenKind, Seq<char>, Seq<char>),
    ErrorKind,
> {
    spec_lex_from(TokenKind::Unknown, Seq::empty(), false, pending)
}

impl Tokenizer {
    /// Create a new [`Tokenizer`] with no look-ahead.
    pub fn new() -> (r: Self)
        ensures
            r.last_unit is None,
    {
        Self { last_unit: None }
    }

    /// See if any more tokens are available.
    #[inline]
    pub fn is_done(&self, stream: &CharStream) -> (r: bool)
        requires
            stream.wf(),
        ensures
            r == stream.spec_eof(),
    {
        stream.eof_reached()
    }

    /// Get the next token by reading from the character stream.
    ///
    /// The token returned is exactly what [`spec_next_token`] says the
    /// pending characters lex to, and the characters it leaves pending are
    /// exactly what that function leaves. The token's positions sit between
    /// the stream position on entry and the stream position on return.
    pub fn next_token(&mut self, stream: &mut CharStream) -> (r: Result<Token, Error>)
        requires
            lexer_wf(*old(self), *old(stream)),
        ensures
            lexer_wf(*final(self), *final(stream)),
            old(stream).spec_index().spec_le(final(stream).spec_index()),
            r is Ok ==> ({
                let t = r->Ok_0;
                let out = spec_next_token(spec_pending(*old(self), *old(stream)));
                &&& out is Ok
                &&& t.token_kind == out->Ok_0.0
                &&& t.span@ == out->Ok_0.1
                &&& spec_pending(*final(self), *final(stream)) == out->Ok_0.2
                &&& old(stream).spec_index().spec_le(t.start)
                &&& t.start.spec_le(t.end)
                &&& t.start.spec_line_number() <= t.end.spec_line_number()
                &&& (t.start.spec_line_number() == t.end.spec_line_number() ==> t.start.column
                    <= t.end.column)
                &&& (t.token_kind is Eof ==> t.start == t.end)
                &&& t.end == final(stream).spec_index()
            }),
            r is Err ==> ({
                let out = spec_next_token(spec_pending(*old(self), *old(stream)));
                &&& out is Err
                &&& r->Err_0.errorkind == out->Err_0
            }),
    {
        let ghost pending0 = spec_pending(*old(self), *old(stream));
        if stream.eof_reached() {
            return Ok(Token::new_eof(stream.get_index()));
        }
        if self.last_unit.is_none() {
            match stream.next_unit() {
                Some(u) => {
                    self.last_unit = Some(u);
                    proof {
                        assert(spec_pending(*self, *stream) =~= pending0);
                    }
                },
                None => {
                    return Ok(Token::new_eof(stream.get_index()));
                },
            }
        }
        let mut token = Token::default();
        let mut is_comment = false;
        proof {
            assert(spec_pending(*self, *stream) =~= pending0);
            assert(token.span@ =~= Seq::<char>::empty());
        }
        loop
            invariant
                pending0 == spec_pending(*old(self), *old(stream)),
                stream.wf(),
                !stream.spec_eof(),
                self.last_unit is Some,
                !(token.token_kind is Eof),
                spec_lex_from(token.token_kind, token.span@, is_comment, spec_pending(*self, *stream))
                    == spec_next_token(pending0),
                token.span@.len() > 0 ==> old(stream).spec_index().spec_le(token.start)
                    && token.start.spec_le(stream.spec_index()),
                old(stream).spec_index().spec_le(stream.spec_index()),
            decreases stream.remaining().len(),
        {
            let index = stream.get_index();
            let unit = self.last_unit.unwrap();
            let ghost pend = spec_pending(*self, *stream);
            let ghost pre_token = token;
            let ghost pre_comment = is_comment;
            proof {
                assert(pend[0] == unit);
                assert(pend.drop_first() =~= stream.remaining());
            }
            if is_comment {
                if chars::is_eol(unit) {
                    is_comment = false;
                }
            } else if chars::is_comment(unit) {
                if token.is_empty() {
                    is_comment = true;
                } else {
                    // The comment opener ends the token, like any character
                    // of an incompatible class, and stays in the look-ahead.
                    let resolved = token.resolve(index);
                    match resolved {
                        Ok(_) => {
                            proof {
                                assert(spec_next_token(pending0) == Ok::<_, ErrorKind>(
                                    (token.token_kind, pre_token.span@, pend),
                                ));
                            }
                            return Ok(token);
                        },
                        Err(e) => {
                            proof {
                                assert(spec_next_token(pending0) matches Err(ek) && e.errorkind
                                    == ek);
                            }
                            return Err(e);
                        },
                    }
                }
            } else {
                match token.add_unit(unit, index) {
                    Ok(true) => {
                        // The token is complete and resolved; `unit` stays in
                        // the look-ahead for the next call.
                        proof {
                            let step = spec_add_unit(pre_token.token_kind, pre_token.span@, unit);
                            assert(step is Stop);
                            assert(spec_next_token(pending0) == Ok::<_, ErrorKind>(
                                (token.token_kind, pre_token.span@, pend),
                            ));
                        }
                        return Ok(token);
                    },
                    Ok(false) => {},
                    Err(e) => {
                        proof {
                            let step = spec_add_unit(pre_token.token_kind, pre_token.span@, unit);
                            if step is Stop {
                                assert(spec_resolve(pre_token.token_kind, pre_token.span@)
                                    matches Err(ek) && e.errorkind == ek);
                            }
                            assert(spec_next_token(pending0) matches Err(ek) && e.errorkind == ek);
                        }
                        return Err(e);
                    },
                }
            }
            // The spec lexer has taken exactly one step: the state now
            // continues with the rest of the pending characters.
            proof {
                assert(spec_lex_from(
                    token.token_kind,
                    token.span@,
                    is_comment,
                    pend.drop_first(),
                ) == spec_next_token(pending0));
            }
            match stream.next_unit() {
                Some(u2) => {
                    self.last_unit = Some(u2);
                    proof {
                        assert(spec_pending(*self, *stream) =~= pend.drop_first());
                    }
                },
                None => {
                    self.last_unit = None;
                    proof {
                        assert(pend.drop_first() =~= Seq::<char>::empty());
                        assert(spec_pending(*self, *stream) =~= pend.drop_first());
                    }
                    if token.is_empty() {
                        let t = Token::new_eof(index);
                        proof {
                            assert(t.span@ =~= token.span@);
                            assert(spec_next_token(pending0) == Ok::<_, ErrorKind>(
                                (TokenKind::Eof, token.span@, pend.drop_first()),
                            ));
                        }
                        return Ok(t);
                    }
                    let ghost mid_token = token;
                    let resolved = token.resolve(index);
                    match resolved {
                        Ok(_) => {
                            proof {
                                assert(spec_next_token(pending0) == Ok::<_, ErrorKind>(
                                    (token.token_kind, mid_token.span@, pend.drop_first()),
                                ));
                            }
                            return Ok(token);
                        },
                        Err(e) => {
                            proof {
                                assert(spec_next_token(pending0) matches Err(ek) && e.errorkind
                                    == ek);
                            }
                            return Err(e);
                        },
                    }
                },
            }
        }
    }
}

/// A structure that owns a [`CharStream`] and a [`Tokenizer`] and reads the
/// characters to produce one token at a time, until one end-of-input token
/// has been produced.
pub struct TokenIterator {
    pub stream: CharStream,
    pub tokenizer: Tokenizer,
    pub eof_count: usize,
}

/// The kind-span pairs of a token vector, in order.
pub open spec fn spec_token_views(toks: Seq<Token>) -> Seq<(TokenKind, Seq<char>)> {
    Seq::new(toks.len(), |i: int| (toks[i].token_kind, toks[i].span@))
}

impl TokenIterator {
    /// The pair is well formed.
    pub open spec fn wf(&self) -> bool {
        lexer_wf(self.tokenizer, self.stream)
    }

    /// Create a new [`TokenIterator`].
    pub fn new(stream: CharStream, tokenizer: Tokenizer) -> (r: Self)
        requires
            lexer_wf(tokenizer, stream),
        ensures
            r.wf(),
            r.eof_count == 0,
    {
        Self { stream, tokenizer, eof_count: 0 }
    }

    /// Check if this iterator can produce more tokens.
    pub fn is_done(&self) -> (r: bool)
        requires
            self.wf(),
        ensures
            r == self.stream.spec_eof(),
    {
        self.tokenizer.is_done(&self.stream)
    }

    /// Check if an end-of-input token has been produced.
    pub fn eof_reached(&self) -> (r: bool)
        ensures
            r == (self.eof_count >= 1),
    {
        self.eof_count >= 1
    }

    /// Get the next token from the tokenizer, counting the end-of-input
    /// tokens seen.
    pub fn next_token(&mut self) -> (r: Result<Token, Error>)
        requires
            old(self).wf(),
        ensures
            final(self).wf(),
            (match r {
                Ok(t) => spec_next_token(spec_pending(old(self).tokenizer, old(self).stream))
                    matches Ok(out) && t.token_kind == out.0 && t.span@ == out.1 && spec_pending(
                    final(self).tokenizer,
                    final(self).stream,
                ) == out.2,
                Err(e) => spec_next_token(spec_pending(old(self).tokenizer, old(self).stream))
                    matches Err(ek) && e.errorkind == ek,
            }),
    {
        let token = match self.tokenizer.next_token(&mut self.stream) {
            Ok(t) => t,
            Err(e) => {
                return Err(e);
            },
        };
        if token.is_eof() {
            if self.eof_count < usize::MAX {
                self.eof_count = self.eof_count + 1;
            }
        }
        Ok(token)
    }

    /// Collect every remaining token, the final end-of-input token
    /// included. The vector holds exactly the kind-span pairs of
    /// [`crate::lexer::laws::spec_token_list`] on the pending characters, in
    /// order; an error is exactly the error that function runs into.
    pub fn collect_tokens(&mut self) -> (r: Result<Vec<Token>, Error>)
        requires
            old(self).wf(),
        ensures
            final(self).wf(),
            r matches Ok(v) ==> v@.len() > 0 && v@.last().token_kind is Eof,
            ({
                let toks = crate::lexer::laws::spec_token_list(
                    spec_pending(old(self).tokenizer, old(self).stream),
                );
                match r {
                    Ok(v) => toks matches Ok(ts) && ts =~= spec_token_views(v@),
                    Err(e) => toks matches Err(ek) && e.errorkind == ek,
                }
            }),
    {
        let ghost pending0 = spec_pending(self.tokenizer, self.stream);
        let mut tokens: Vec<Token> = Vec::new();
        proof {
            assert(spec_token_views(tokens@) =~= Seq::<(TokenKind, Seq<char>)>::empty());
        }
        loop
            invariant
                pending0 == spec_pending(old(self).tokenizer, old(self).stream),
                self.wf(),
                ({
                    let cur = spec_pending(self.tokenizer, self.stream);
                    match crate::lexer::laws::spec_token_list(cur) {
                        Ok(ts) => crate::lexer::laws::spec_token_list(pending0) matches Ok(all)
                            && all == spec_token_views(tokens@) + ts,
                        Err(ek) => crate::lexer::laws::spec_token_list(pending0) matches Err(ek2)
                            && ek2 == ek,
                    }
                }),
            decreases spec_pending(self.tokenizer, self.stream).len(),
        {
            let ghost pending = spec_pending(self.tokenizer, self.stream);
            proof {
                crate::lexer::laws::lemma_lex_from_consumes(
                    TokenKind::Unknown,
                    Seq::empty(),
                    false,
                    pending,
                );
            }
            match self.next_token() {
                Ok(token) => {
                    let done = token.is_eof();
                    let ghost pre_tokens = tokens@;
                    tokens.push(token);
                    proof {
                        assert(spec_token_views(tokens@) =~= spec_token_views(pre_tokens).push(
                            (tokens@.last().token_kind, tokens@.last().span@),
                        ));
                    }
                    if done {
                        proof {
                            let cur = spec_pending(self.tokenizer, self.stream);
                            assert(crate::lexer::laws::spec_token_list(pending) matches Ok(ts)
                                && ts =~= spec_token_views(tokens@).skip(
                                pre_tokens.len() as int,
                            ));
                            assert(crate::lexer::laws::spec_token_list(pending0) matches Ok(all)
                                && all =~= spec_token_views(tokens@));
                        }
                        return Ok(tokens);
                    }
                    proof {
                        let cur = spec_pending(self.tokenizer, self.stream);
                        assert(spec_token_views(pre_tokens) + (seq![
                            (tokens@.last().token_kind, tokens@.last().span@),
                        ] + (match crate::lexer::laws::spec_token_list(cur) {
                            Ok(ts) => ts,
                            Err(_) => Seq::empty(),
                        })) =~= spec_token_views(tokens@) + (match crate::lexer::laws::spec_token_list(
                            cur,
                        ) {
                            Ok(ts) => ts,
                            Err(_) => Seq::empty(),
                        }));
                    }
                },
                Err(e) => {
                    return Err(e);
                },
            }
        }
    }
}

} // verus!
