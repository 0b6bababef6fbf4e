//! Properties of the lexer, proved once and for all over the specification
//! functions that [`super::tokenizer::Tokenizer::next_token`] is verified
//! against.

use vstd::prelude::*;

use crate::chars;
use crate::token::bracket::spec_bracket_of;
use crate::token::keyword::{spec_keyword_chars, spec_keyword_of};
use crate::token::operator::spec_operator_of;
use crate::token::token::{spec_add_unit, spec_resolve, LexStep};
use crate::token::tokenkind::TokenKind;
use super::error::ErrorKind;
use super::tokenizer::{spec_lex_from, spec_next_token};

verus! {

/// Every character of `s` is a decimal digit.
pub open spec fn spec_all_digits(s: Seq<char>) -> bool {
    forall|i: int| 0 <= i < s.len() ==> chars::spec_is_decimal_digit(#[trigger] s[i])
}

/// Every character of `s` is an operator character.
pub open spec fn spec_all_opchars(s: Seq<char>) -> bool {
    forall|i: int| 0 <= i < s.len() ==> chars::spec_is_opchar(#[trigger] s[i])
}

/// Every character of `s` may appear in an identifier, and the first one may
/// open one.
pub open spec fn spec_identifier_shape(s: Seq<char>) -> bool {
    &&& s.len() > 0
    &&& chars::spec_is_identifier_start(s[0])
    &&& forall|i: int| 0 <= i < s.len() ==> chars::spec_is_identifier(#[trigger] s[i])
}

/// The shape of a partial float: it opens with a digit, every character is a
/// digit or a full stop, and exactly one full stop occurs, not first.
pub open spec fn spec_float_shape(s: Seq<char>) -> bool {
    &&& s.len() >= 2
    &&& chars::spec_is_decimal_digit(s[0])
    &&& (forall|i: int|
        0 <= i < s.len() ==> chars::spec_is_decimal_digit(#[trigger] s[i]) || s[i] == '.')
    &&& (exists|d: int|
        0 < d < s.len() && #[trigger] s[d] == '.' && (forall|i: int|
            0 <= i < s.len() && #[trigger] s[i] == '.' ==> i == d))
}

/// The kinds a partial token ranges over while it is still collecting
/// characters, together with what its span must look like for each kind.
pub open spec fn spec_partial_wf(kind: TokenKind, span: Seq<char>) -> bool {
    match kind {
        TokenKind::Unknown => span.len() == 0,
        TokenKind::Identifier => spec_identifier_shape(span),
        TokenKind::Integer => span.len() > 0 && spec_all_digits(span),
        TokenKind::Float => spec_float_shape(span),
        TokenKind::Operator(_) => span.len() > 0 && spec_all_opchars(span),
        TokenKind::Bracket(b) => span.len() == 1 && chars::spec_is_bracket(span[0]) && b
            == spec_bracket_of(span),
        TokenKind::Comma => span.len() == 1 && span[0] == ',',
        TokenKind::Dot => span.len() == 1 && span[0] == '.',
        TokenKind::Semicolon => span.len() == 1 && span[0] == ';',
        _ => false,
    }
}

/// The invariant every token the lexer emits satisfies: the kind classifies
/// the span exactly.
pub open spec fn spec_token_wf(kind: TokenKind, span: Seq<char>) -> bool {
    match kind {
        TokenKind::Eof => span.len() == 0,
        TokenKind::Keyword(k) => span == spec_keyword_chars(k),
        TokenKind::Identifier => spec_identifier_shape(span) && spec_keyword_of(span) is None,
        TokenKind::Integer => span.len() > 0 && spec_all_digits(span),
        TokenKind::Float => spec_float_shape(span) && span.last() != '.',
        TokenKind::Operator(op) => !(op is Unknown) && op == spec_operator_of(span),
        TokenKind::Bracket(b) => !(b.kind is Unknown) && span.len() == 1 && b == spec_bracket_of(
            span,
        ),
        TokenKind::Comma => span.len() == 1 && span[0] == ',',
        TokenKind::Dot => span.len() == 1 && span[0] == '.',
        TokenKind::Semicolon => span.len() == 1 && span[0] == ';',
        TokenKind::Unknown => false,
    }
}

/// One step of the state machine keeps a partial token well shaped.
proof fn lemma_add_unit_partial_wf(kind: TokenKind, span: Seq<char>, unit: char)
    requires
        spec_partial_wf(kind, span),
    ensures
        spec_add_unit(kind, span, unit) matches LexStep::Grow(k2, s2) ==> spec_partial_wf(k2, s2),
{
    match spec_add_unit(kind, span, unit) {
        LexStep::Grow(k2, s2) => {
            if span.len() == 0 {
                if chars::spec_is_whitespace(unit) {
                } else {
                    assert(s2 == seq![unit]);
                    assert(s2[0] == unit);
                }
            } else {
                match kind {
                    TokenKind::Integer => {
                        if chars::spec_is_fullstop(unit) && !chars::spec_is_decimal_digit(unit) {
                            let s2 = span.push(unit);
                            let d = span.len() as int;
                            assert(s2[d] == '.');
                            assert(forall|i: int|
                                0 <= i < s2.len() && #[trigger] s2[i] == '.' ==> i == d) by {
                                assert(forall|i: int|
                                    0 <= i < span.len() ==> chars::spec_is_decimal_digit(
                                        #[trigger] span[i],
                                    ));
                            }
                            assert(spec_float_shape(s2));
                        }
                    },
                    TokenKind::Float => {
                        if chars::spec_is_decimal_digit(unit) {
                            let s2 = span.push(unit);
                            let d = choose|d: int|
                                0 < d < span.len() && #[trigger] span[d] == '.' && (forall|i: int|
                                    0 <= i < span.len() && #[trigger] span[i] == '.' ==> i == d);
                            assert(s2[d] == '.');
                            assert(forall|i: int|
                                0 <= i < s2.len() && #[trigger] s2[i] == '.' ==> i == d) by {
                                assert(forall|i: int|
                                    0 <= i < span.len() && #[trigger] span[i] == '.' ==> i == d);
                                assert(s2[s2.len() - 1] == unit);
                            }
                            assert(spec_float_shape(s2));
                        }
                    },
                    _ => {},
                }
            }
        },
        _ => {},
    }
}

/// Resolving a well-shaped partial token yields a well-formed token.
proof fn lemma_resolve_wf(kind: TokenKind, span: Seq<char>)
    requires
        spec_partial_wf(kind, span),
    ensures
        spec_resolve(kind, span) matches Ok(k2) ==> spec_token_wf(k2, span),
{
    match spec_resolve(kind, span) {
        Ok(k2) => {
            match kind {
                TokenKind::Identifier => {
                    match spec_keyword_of(span) {
                        Some(keyword) => {
                            assert(span =~= spec_keyword_chars(keyword));
                        },
                        None => {},
                    }
                },
                _ => {},
            }
        },
        Err(_) => {},
    }
}

/// Every token the lexer emits is well formed: its kind classifies its span
/// exactly, and the unknown kind never appears in an output token.
pub proof fn lemma_lex_from_wf(kind: TokenKind, span: Seq<char>, comment: bool, pending: Seq<char>)
    requires
        spec_partial_wf(kind, span),
    ensures
        spec_lex_from(kind, span, comment, pending) matches Ok(out) ==> spec_token_wf(
            out.0,
            out.1,
        ),
    decreases pending.len(),
{
    if pending.len() == 0 {
        if span.len() == 0 {
        } else {
            lemma_resolve_wf(kind, span);
        }
    } else {
        let u = pending[0];
        if comment {
            lemma_lex_from_wf(kind, span, !chars::spec_is_eol(u), pending.drop_first());
        } else if chars::spec_is_comment(u) {
            if span.len() == 0 {
                lemma_lex_from_wf(kind, span, true, pending.drop_first());
            } else {
                lemma_resolve_wf(kind, span);
            }
        } else {
            match spec_add_unit(kind, span, u) {
                LexStep::Grow(k2, s2) => {
                    lemma_add_unit_partial_wf(kind, span, u);
                    lemma_lex_from_wf(k2, s2, false, pending.drop_first());
                },
                LexStep::Stop => {
                    lemma_resolve_wf(kind, span);
                },
                LexStep::Error(_) => {},
            }
        }
    }
}

/// The well-formedness law at the lexer's entry point: whatever token
/// [`spec_next_token`] produces satisfies [`spec_token_wf`].
pub proof fn lemma_next_token_wf(pending: Seq<char>)
    ensures
        spec_next_token(pending) matches Ok(out) ==> spec_token_wf(out.0, out.1),
{
    lemma_lex_from_wf(TokenKind::Unknown, Seq::empty(), false, pending);
}

/// The significant characters of a text: what is left after comments are
/// removed and whitespace is dropped. `comment` tells whether the text opens
/// inside a comment.
pub open spec fn spec_sig_from(comment: bool, s: Seq<char>) -> Seq<char>
    decreases s.len(),
{
    if s.len() == 0 {
        Seq::empty()
    } else if comment {
        spec_sig_from(!chars::spec_is_eol(s[0]), s.drop_first())
    } else if chars::spec_is_comment(s[0]) {
        spec_sig_from(true, s.drop_first())
    } else if chars::spec_is_whitespace(s[0]) {
        spec_sig_from(false, s.drop_first())
    } else {
        seq![s[0]] + spec_sig_from(false, s.drop_first())
    }
}

/// The significant characters of a text.
pub open spec fn spec_significant(s: Seq<char>) -> Seq<char> {
    spec_sig_from(false, s)
}

/// Lexing one token removes exactly that token's span from the front of the
/// significant characters. `span` holds the characters collected so far.
proof fn lemma_lex_from_significant(
    kind: TokenKind,
    span: Seq<char>,
    comment: bool,
    pending: Seq<char>,
)
    requires
        spec_partial_wf(kind, span),
    ensures
        spec_lex_from(kind, span, comment, pending) matches Ok(out) ==> span + spec_sig_from(
            comment,
            pending,
        ) == out.1 + spec_sig_from(false, out.2),
    decreases pending.len(),
{
    if pending.len() == 0 {
        match spec_lex_from(kind, span, comment, pending) {
            Ok(out) => {
                assert(span + spec_sig_from(comment, pending) =~= out.1 + spec_sig_from(
                    false,
                    out.2,
                ));
            },
            Err(_) => {},
        }
    } else {
        let u = pending[0];
        if comment {
            lemma_lex_from_significant(kind, span, !chars::spec_is_eol(u), pending.drop_first());
            assert(!chars::spec_is_whitespace(u) && !chars::spec_is_comment(u)
                ==> chars::spec_is_eol(u) == false);
        } else if chars::spec_is_comment(u) {
            if span.len() == 0 {
                lemma_lex_from_significant(kind, span, true, pending.drop_first());
            } else {
                match spec_lex_from(kind, span, comment, pending) {
                    Ok(out) => {
                        assert(out.1 == span && out.2 == pending);
                    },
                    Err(_) => {},
                }
            }
        } else {
            match spec_add_unit(kind, span, u) {
                LexStep::Grow(k2, s2) => {
                    lemma_add_unit_partial_wf(kind, span, u);
                    lemma_lex_from_significant(k2, s2, false, pending.drop_first());
                    if chars::spec_is_whitespace(u) {
                        assert(s2 == span);
                    } else {
                        assert(s2 == span.push(u));
                        assert(span + (seq![u] + spec_sig_from(false, pending.drop_first())) =~= s2
                            + spec_sig_from(false, pending.drop_first()));
                    }
                },
                LexStep::Stop => {
                    match spec_lex_from(kind, span, comment, pending) {
                        Ok(out) => {
                            assert(out.1 == span && out.2 == pending);
                        },
                        Err(_) => {},
                    }
                },
                LexStep::Error(_) => {},
            }
        }
    }
}

/// A non-empty span is only ever collected from significant characters, so a
/// token other than the end-of-input marker consumes at least one pending
/// character.
pub proof fn lemma_lex_from_consumes(kind: TokenKind, span: Seq<char>, comment: bool, pending: Seq<
    char,
>)
    requires
        !(kind is Eof),
        !(kind is Keyword),
    ensures
        spec_lex_from(kind, span, comment, pending) matches Ok(out) ==> out.2.len()
            <= pending.len(),
        span.len() == 0 ==> (spec_lex_from(kind, span, comment, pending) matches Ok(out) ==> (!(
        out.0 is Eof) ==> out.2.len() < pending.len())),
    decreases pending.len(),
{
    if pending.len() == 0 {
    } else {
        let u = pending[0];
        if comment {
            lemma_lex_from_consumes(kind, span, !chars::spec_is_eol(u), pending.drop_first());
        } else if chars::spec_is_comment(u) {
            if span.len() == 0 {
                lemma_lex_from_consumes(kind, span, true, pending.drop_first());
            }
        } else {
            match spec_add_unit(kind, span, u) {
                LexStep::Grow(k2, s2) => {
                    lemma_lex_from_consumes(k2, s2, false, pending.drop_first());
                },
                LexStep::Stop => {},
                LexStep::Error(_) => {},
            }
        }
    }
}

/// The tokens of a pending text, as kind-span pairs, ending with the
/// end-of-input token; or the error the text runs into.
pub open spec fn spec_token_list(pending: Seq<char>) -> Result<
    Seq<(TokenKind, Seq<char>)>,
    ErrorKind,
>
    decreases pending.len(),
{
    match spec_next_token(pending) {
        Err(e) => Err(e),
        Ok(out) => if out.0 is Eof {
            Ok(seq![(out.0, out.1)])
        } else if out.2.len() < pending.len() {
            match spec_token_list(out.2) {
                Ok(ts) => Ok(seq![(out.0, out.1)] + ts),
                Err(e) => Err(e),
            }
        } else {
            // Never reached: a token other than the end-of-input marker
            // consumes at least one character.
            Err(ErrorKind::LexerFatal)
        },
    }
}

/// The concatenation of the spans of a token list.
pub open spec fn spec_concat_spans(ts: Seq<(TokenKind, Seq<char>)>) -> Seq<char>
    decreases ts.len(),
{
    if ts.len() == 0 {
        Seq::empty()
    } else {
        ts[0].1 + spec_concat_spans(ts.drop_first())
    }
}

/// The token sequence of a text, concatenated, reproduces the text up to
/// comments and whitespace collapse: the concatenation of all the spans is
/// exactly the significant characters of the text.
pub proof fn lemma_token_spans_reproduce_source(pending: Seq<char>)
    ensures
        spec_token_list(pending) matches Ok(ts) ==> spec_concat_spans(ts) == spec_significant(
            pending,
        ),
    decreases pending.len(),
{
    match spec_token_list(pending) {
        Err(_) => {},
        Ok(ts) => {
            let out = spec_next_token(pending)->Ok_0;
            lemma_lex_from_significant(TokenKind::Unknown, Seq::empty(), false, pending);
            assert(Seq::<char>::empty() + spec_significant(pending) =~= spec_significant(pending));
            if out.0 is Eof {
                lemma_next_token_wf(pending);
                assert(out.1.len() == 0);
                assert(out.1 + spec_sig_from(false, out.2) =~= spec_sig_from(false, out.2));
                assert(out.2.len() == 0 || !(out.0 is Eof)) by {
                    lemma_lex_from_eof_rest(TokenKind::Unknown, Seq::empty(), false, pending);
                }
                assert(spec_concat_spans(ts) =~= out.1 + spec_concat_spans(ts.drop_first()));
                assert(ts.drop_first() =~= Seq::<(TokenKind, Seq<char>)>::empty());
                assert(spec_concat_spans(ts) =~= spec_significant(pending));
            } else {
                lemma_lex_from_consumes(TokenKind::Unknown, Seq::empty(), false, pending);
                lemma_token_spans_reproduce_source(out.2);
                assert(ts.drop_first() =~= spec_token_list(out.2)->Ok_0);
                assert(spec_concat_spans(ts) == out.1 + spec_concat_spans(ts.drop_first()));
            }
        },
    }
}

/// The end-of-input token leaves nothing pending.
proof fn lemma_lex_from_eof_rest(kind: TokenKind, span: Seq<char>, comment: bool, pending: Seq<
    char,
>)
    requires
        !(kind is Eof),
        !(kind is Keyword),
    ensures
        spec_lex_from(kind, span, comment, pending) matches Ok(out) ==> (out.0 is Eof
            ==> out.2.len() == 0),
    decreases pending.len(),
{
    if pending.len() == 0 {
        if span.len() > 0 {
            lemma_resolve_not_eof(kind, span);
        }
    } else {
        let u = pending[0];
        if comment {
            lemma_lex_from_eof_rest(kind, span, !chars::spec_is_eol(u), pending.drop_first());
        } else if chars::spec_is_comment(u) {
            if span.len() == 0 {
                lemma_lex_from_eof_rest(kind, span, true, pending.drop_first());
            } else {
                lemma_resolve_not_eof(kind, span);
            }
        } else {
            match spec_add_unit(kind, span, u) {
                LexStep::Grow(k2, s2) => {
                    lemma_lex_from_eof_rest(k2, s2, false, pending.drop_first());
                },
                LexStep::Stop => {
                    lemma_resolve_not_eof(kind, span);
                },
                LexStep::Error(_) => {},
            }
        }
    }
}

/// Resolution never invents an end-of-input token.
proof fn lemma_resolve_not_eof(kind: TokenKind, span: Seq<char>)
    requires
        !(kind is Eof),
        !(kind is Keyword),
    ensures
        spec_resolve(kind, span) matches Ok(k2) ==> !(k2 is Eof),
{
}

} // verus!
