//! The specification the parser is verified against: the parser state seen
//! as a buffered token plus the pending characters, and spec-level parsing
//! of the constructs whose grammar is regular.

use vstd::prelude::*;

use crate::ast::view::ExprView;
use crate::lexer::laws::{spec_float_shape, spec_identifier_shape, spec_token_wf};
use crate::lexer::tokenizer::spec_next_token;
use crate::token::bracket::{Bracket, BracketKind, BracketSide};
use crate::token::keyword::spec_keyword_of;
use crate::token::tokenkind::TokenKind;
use super::error::ErrorKind;

verus! {

/// The parser's view of the input: the token it has buffered, if any, and
/// the characters not yet lexed.
pub struct ParserState {
    pub buf: Option<(TokenKind, Seq<char>)>,
    pub pending: Seq<char>,
}

/// How much input is left: pending characters plus one for a buffered token
/// that still stands for input. The end-of-input token counts for nothing,
/// as it can be produced again at will.
pub open spec fn pst_measure(st: ParserState) -> int {
    st.pending.len() + (match st.buf {
        Some((k, _)) => if k is Eof {
            0int
        } else {
            1int
        },
        None => 0int,
    })
}

/// The parser state is well formed when whatever token sits buffered is a
/// well-formed output of the lexer.
pub open spec fn pst_wf(st: ParserState) -> bool {
    st.buf matches Some((k, sp)) ==> spec_token_wf(k, sp)
}

/// Peeking: the buffered token, or the next token the lexer yields, now
/// buffered. `None` reports that the lexer fails on the pending characters.
pub open spec fn spec_peek(st: ParserState) -> Option<(TokenKind, Seq<char>, ParserState)> {
    match st.buf {
        Some((k, sp)) => Some((k, sp, st)),
        None => match spec_next_token(st.pending) {
            Ok(out) => Some(
                (out.0, out.1, ParserState { buf: Some((out.0, out.1)), pending: out.2 }),
            ),
            Err(_) => None,
        },
    }
}

/// Consuming the buffered token.
pub open spec fn spec_bump(st: ParserState) -> ParserState {
    ParserState { buf: None, pending: st.pending }
}

/// Peeking never lengthens the input, and consuming a peeked token other
/// than the end-of-input marker shortens it.
pub proof fn lemma_peek_measure(st: ParserState)
    ensures
        spec_peek(st) matches Some(out) ==> pst_measure(out.2) <= pst_measure(st),
        spec_peek(st) matches Some(out) ==> (!(out.0 is Eof) ==> pst_measure(spec_bump(out.2))
            < pst_measure(st)),
        spec_peek(st) matches Some(out) ==> pst_measure(spec_bump(out.2)) <= pst_measure(st),
        spec_peek(st) matches Some(out) ==> (pst_wf(st) ==> pst_wf(out.2)),
{
    match st.buf {
        Some(_) => {},
        None => {
            match spec_next_token(st.pending) {
                Ok(out) => {
                    crate::lexer::laws::lemma_lex_from_consumes(
                        TokenKind::Unknown,
                        Seq::empty(),
                        false,
                        st.pending,
                    );
                    crate::lexer::laws::lemma_next_token_wf(st.pending);
                },
                Err(_) => {},
            }
        },
    }
}

/// Whether a token may stand directly after a complete expression: the
/// separators and closers a surrounding construct consumes, or the end of a
/// statement or of the input.
pub open spec fn spec_denotes_end(k: TokenKind) -> bool {
    ||| k is Semicolon
    ||| k is Eof
    ||| k is Comma
    ||| (k matches TokenKind::Bracket(b) && b.side is Right)
}

/// The left round bracket.
pub open spec fn spec_left_round() -> Bracket {
    Bracket { kind: BracketKind::Round, side: BracketSide::Left }
}

/// `cancels_out` as a spec relation on bracket values.
pub open spec fn spec_cancels_out(a: Bracket, b: Bracket) -> bool {
    a.kind == b.kind && a.side is Left && b.side is Right
}

/// A well-formed expression tree: every operator is a known one, every name
/// has the shape of an identifier and is no keyword, and every float
/// literal is complete.
pub open spec fn expr_view_wf(v: ExprView) -> bool
    decreases v,
{
    match v {
        ExprView::Integer(_) => true,
        ExprView::FloatLit(l) => spec_float_shape(l) && l.last() != '.',
        ExprView::Variable(name) => spec_identifier_shape(name) && spec_keyword_of(name) is None,
        ExprView::Unary(op, a) => !(op is Unknown) && expr_view_wf(*a),
        ExprView::Binary(op, a, b) => !(op is Unknown) && expr_view_wf(*a) && expr_view_wf(*b),
        ExprView::Call(name, args) => spec_identifier_shape(name) && spec_keyword_of(name) is None
            && expr_view_wf_list(args),
    }
}

/// Every expression of a list is well formed.
pub open spec fn expr_view_wf_list(args: Seq<ExprView>) -> bool
    decreases args,
{
    if args.len() == 0 {
        true
    } else {
        expr_view_wf(args.first()) && expr_view_wf_list(args.drop_first())
    }
}

/// A list whose members are each well formed is well formed.
pub proof fn lemma_expr_view_wf_list_pointwise(args: Seq<ExprView>)
    requires
        forall|i: int| 0 <= i < args.len() ==> expr_view_wf(#[trigger] args[i]),
    ensures
        expr_view_wf_list(args),
    decreases args.len(),
{
    if args.len() > 0 {
        assert(forall|i: int|
            0 <= i < args.drop_first().len() ==> expr_view_wf(#[trigger] args.drop_first()[i]))
            by {
            assert(forall|i: int|
                0 <= i < args.drop_first().len() ==> args.drop_first()[i] == args[i + 1]);
        }
        lemma_expr_view_wf_list_pointwise(args.drop_first());
    }
}

/// What parsing a function prototype yields from a parser state: nothing if
/// the state does not open with the function-definition keyword; otherwise
/// the name and the parameter names between the round brackets, or the
/// error the tokens run into.
pub open spec fn spec_parse_prototype(st: ParserState) -> Result<
    (Option<(Seq<char>, Seq<Seq<char>>)>, ParserState),
    ErrorKind,
>
    decreases pst_measure(st), 1int,
{
    match spec_peek(st) {
        None => Err(ErrorKind::LexerError),
        Some((k, sp, st1)) => {
            if !(k matches TokenKind::Keyword(kw) && kw is Def) {
                Ok((None, st1))
            } else {
                let st2 = spec_bump(st1);
                match spec_peek(st2) {
                    None => Err(ErrorKind::LexerError),
                    Some((k2, name, st3)) => {
                        if !(k2 is Identifier) {
                            Err(ErrorKind::SyntaxError)
                        } else {
                            let st4 = spec_bump(st3);
                            match spec_peek(st4) {
                                None => Err(ErrorKind::LexerError),
                                Some((k3, _, st5)) => {
                                    if !(k3 matches TokenKind::Bracket(b) && b
                                        == spec_left_round()) {
                                        Err(ErrorKind::SyntaxError)
                                    } else {
                                        if pst_measure(spec_bump(st5)) < pst_measure(st) {
                                            match spec_parse_params(spec_bump(st5), Seq::empty()) {
                                                Ok((params, st6)) => Ok(
                                                    (Some((name, params)), st6),
                                                ),
                                                Err(e) => Err(e),
                                            }
                                        } else {
                                            // Never reached: three tokens were
                                            // consumed.
                                            Err(ErrorKind::Other)
                                        }
                                    }
                                },
                            }
                        }
                    },
                }
            }
        },
    }
}

/// What parsing the remainder of a parameter list yields: the names
/// collected so far, extended until the closing round bracket; or the error
/// the tokens run into.
pub open spec fn spec_parse_params(st: ParserState, acc: Seq<Seq<char>>) -> Result<
    (Seq<Seq<char>>, ParserState),
    ErrorKind,
>
    decreases pst_measure(st), 0int,
{
    match spec_peek(st) {
        None => Err(ErrorKind::LexerError),
        Some((k, sp, st1)) => {
            match k {
                TokenKind::Bracket(b) => if spec_cancels_out(spec_left_round(), b) {
                    Ok((acc, spec_bump(st1)))
                } else {
                    Err(ErrorKind::SyntaxError)
                },
                TokenKind::Identifier => {
                    let st2 = spec_bump(st1);
                    match spec_peek(st2) {
                        None => Err(ErrorKind::LexerError),
                        Some((k2, _, st3)) => {
                            match k2 {
                                TokenKind::Comma => {
                                    if pst_measure(spec_bump(st3)) < pst_measure(st) {
                                        spec_parse_params(spec_bump(st3), acc.push(sp))
                                    } else {
                                        // Never reached: two tokens were
                                        // consumed.
                                        Err(ErrorKind::Other)
                                    }
                                },
                                TokenKind::Bracket(b2) => if spec_cancels_out(spec_left_round(), b2) {
                                    Ok((acc.push(sp), spec_bump(st3)))
                                } else {
                                    Err(ErrorKind::SyntaxError)
                                },
                                _ => Err(ErrorKind::SyntaxError),
                            }
                        },
                    }
                },
                _ => Err(ErrorKind::SyntaxError),
            }
        },
    }
}

} // verus!
