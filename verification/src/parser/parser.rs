//! The parser: functions that turn the token stream into AST nodes.
//!
//! The parser never reads a token directly: it keeps a single-token
//! look-ahead buffer. Peeking examines the buffered token without consuming
//! it, so every sub-routine decides locally whether the token it examines is
//! its own; consuming clears the slot and the next peek pulls a fresh token
//! from the lexer. This removes backtracking and look-ahead beyond one
//! token.

use vstd::prelude::*;

use crate::ast::nodes::{
    view_expr, view_expr_list, view_proto, BinaryOperatorNode, ExprEnum, ExternFunctionNode,
    FloatNode, FunctionCallNode, FunctionNode, FunctionPrototypeNode, IdentifierNode, IntegerNode,
    VariableExpressionNode,
};
use crate::ast::view::ExprView;
use crate::lexer::stream::CharStream;
use crate::lexer::tokenizer::{lexer_wf, spec_pending, Tokenizer};
use crate::numbers::{parse_digits, spec_int_of};
use crate::token::bracket::{Bracket, BracketKind};
use crate::token::keyword::Keyword;
use crate::token::operator::Operator;
use crate::token::token::Token;
use crate::token::tokenkind::TokenKind;
use super::error::{Error, ErrorKind};
use super::precedence::{spec_precedence_of, BinaryOperatorPrecedence};
use super::grammar::{
    lemma_climb_fuel_monotone, lemma_comma_rest_fuel_monotone, lemma_parse_fuel_monotone,
    spec_climb, spec_comma_rest, spec_expression_end, spec_parse_call, spec_parse_comma_list,
    spec_parse_expression, spec_parse_primary, spec_parse_round_bracket, spec_parse_top_level,
    ClimbOutcome, ExprOutcome, ListOutcome,
};
use super::spec::{
    expr_view_wf, expr_view_wf_list, lemma_peek_measure, pst_measure, pst_wf, spec_bump,
    spec_cancels_out, spec_denotes_end, spec_left_round, spec_parse_params, spec_parse_prototype,
    spec_peek, ParserState,
};

verus! {

/// The return type of most parser functions.
pub type ParseResult<T> = Result<Option<Box<T>>, Error>;

/// The parser, holding its single-token look-ahead buffer.
pub struct Parser {
    pub current_token: Option<Token>,
}

impl Parser {
    /// The parser's view of the input: the buffered token and the pending
    /// characters of the lexer underneath.
    pub open spec fn pst(&self, tokenizer: Tokenizer, stream: CharStream) -> ParserState {
        ParserState {
            buf: match self.current_token {
                Some(t) => Some((t.token_kind, t.span@)),
                None => None,
            },
            pending: spec_pending(tokenizer, stream),
        }
    }
}

/// The parser, tokenizer and stream together are well formed.
pub open spec fn parser_wf(p: Parser, t: Tokenizer, s: CharStream) -> bool {
    &&& lexer_wf(t, s)
    &&& pst_wf(p.pst(t, s))
}

/// The spec outcome `res` describes exactly the result `r` and the final
/// state `st` of an optional-expression parse: the same expression view, the
/// same state, or the same kind of error.
pub open spec fn expr_steps_match(res: ExprOutcome, r: ParseResult<ExprEnum>, st: ParserState) -> bool {
    match r {
        Ok(o) => res matches Some(out) && (out matches Ok(p) && (match o {
            Some(bx) => p.0 == Some(view_expr(*bx)),
            None => p.0 is None,
        }) && p.1 == st),
        Err(e) => res matches Some(out) && (out matches Err(ek) && e.errorkind == ek),
    }
}

/// The spec outcome `res` describes exactly the result `r` and the final
/// state `st` of a climb.
pub open spec fn climb_steps_match(res: ClimbOutcome, r: ParseResult<ExprEnum>, st: ParserState) -> bool {
    match r {
        Ok(o) => res matches Some(out) && (out matches Ok(p) && (o matches Some(bx) && p.0
            == view_expr(*bx)) && p.1 == st),
        Err(e) => res matches Some(out) && (out matches Err(ek) && e.errorkind == ek),
    }
}

/// The spec outcome `b` of parsing the body expression describes exactly
/// the result `r` and final state `st` of parsing a function definition
/// whose prototype has already been parsed: success is owed exactly when a
/// body expression follows, and the body field carries it.
pub open spec fn function_body_matches(
    b: ExprOutcome,
    r: ParseResult<FunctionNode>,
    st: ParserState,
) -> bool {
    match r {
        Ok(o) => b matches Some(bo) && (bo matches Ok(p) && (p.0 matches Some(bv) && (o
            matches Some(f) && view_expr(*f.body) == bv)) && p.1 == st),
        Err(e) => b matches Some(bo) && ((bo matches Err(ek) && e.errorkind == ek) || (bo
            matches Ok(p) && p.0 is None && e.errorkind == ErrorKind::SyntaxError)),
    }
}

/// The spec outcome `res` describes exactly the result `r` and the final
/// state `st` of an optional expression-list parse.
pub open spec fn list_steps_match(
    res: ListOutcome,
    r: Result<Option<Vec<ExprEnum>>, Error>,
    st: ParserState,
) -> bool {
    match r {
        Ok(o) => res matches Some(out) && (out matches Ok(p) && (match o {
            Some(v) => p.0 == Some(view_expr_list(v@)),
            None => p.0 is None,
        }) && p.1 == st),
        Err(e) => res matches Some(out) && (out matches Err(ek) && e.errorkind == ek),
    }
}

impl Parser {
    /// Create a new parser with an empty look-ahead.
    pub fn new() -> (r: Self)
        ensures
            r.current_token is None,
    {
        Self { current_token: None }
    }

    /// Peek at the token currently buffered, without consuming it.
    pub fn peek_current_token(&self) -> (r: Option<Token>)
        ensures
            match self.current_token {
                Some(t) => r matches Some(t2) && t2 == t,
                None => r is None,
            },
    {
        match &self.current_token {
            Some(t) => Some(t.clone()),
            None => None,
        }
    }

    /// Replace the token the parser is currently reading with another one.
    pub fn next_token(&mut self, token: Token)
        ensures
            final(self).current_token matches Some(t) && t == token,
    {
        self.current_token = Some(token);
    }

    /// Consume the buffered token: the next peek pulls a fresh one.
    pub fn mark_used(&mut self)
        ensures
            final(self).current_token is None,
    {
        self.current_token = None;
    }

    /// Make sure a token is buffered, pulling one from the lexer if the slot
    /// is empty. Afterwards the buffered token is exactly what peeking the
    /// entry state yields.
    pub(crate) fn fill(&mut self, stream: &mut CharStream, tokenizer: &mut Tokenizer) -> (r: Result<
        (),
        Error,
    >)
        requires
            parser_wf(*old(self), *old(tokenizer), *old(stream)),
        ensures
            parser_wf(*final(self), *final(tokenizer), *final(stream)),
            ({
                let st0 = old(self).pst(*old(tokenizer), *old(stream));
                let st = final(self).pst(*final(tokenizer), *final(stream));
                let ct = final(self).current_token;
                &&& (r is Ok ==> (spec_peek(st0) matches Some(out) && st == out.2 && (ct
                    matches Some(t) && t.token_kind == out.0 && t.span@ == out.1)))
                &&& (old(self).current_token is Some ==> final(self).current_token == old(
                    self,
                ).current_token)
                &&& (r matches Err(e) ==> spec_peek(st0) is None && e.errorkind
                    == ErrorKind::LexerError)
            }),
    {
        if self.current_token.is_some() {
            return Ok(());
        }
        match tokenizer.next_token(stream) {
            Ok(token) => {
                proof {
                    crate::lexer::laws::lemma_next_token_wf(
                        spec_pending(*old(tokenizer), *old(stream)),
                    );
                }
                self.current_token = Some(token);
                Ok(())
            },
            Err(e) => {
                Err(Error::new(e.description, ErrorKind::LexerError, e.position))
            },
        }
    }

    /// Parse an integer expression: an integer token becomes an
    /// [`IntegerNode`] carrying the decimal value of its span; a token of
    /// any other kind is left for the next sub-routine.
    pub fn parse_integer_expression(
        &mut self,
        stream: &mut CharStream,
        tokenizer: &mut Tokenizer,
    ) -> (r: ParseResult<ExprEnum>)
        requires
            parser_wf(*old(self), *old(tokenizer), *old(stream)),
        ensures
            parser_wf(*final(self), *final(tokenizer), *final(stream)),
            ({
                let st0 = old(self).pst(*old(tokenizer), *old(stream));
                let st = final(self).pst(*final(tokenizer), *final(stream));
                &&& (spec_peek(st0) is None ==> (r matches Err(e) && e.errorkind
                    == ErrorKind::LexerError))
                &&& (spec_peek(st0) matches Some(out) ==> (if out.0 is Integer {
                    if spec_int_of(out.1) <= i128::MAX {
                        (r matches Ok(o) && o matches Some(bx) && view_expr(*bx)
                            == ExprView::Integer(spec_int_of(out.1))) && st == spec_bump(out.2)
                    } else {
                        r matches Err(e) && e.errorkind == ErrorKind::ParsingError
                    }
                } else {
                    (r matches Ok(o) && o is None) && st == out.2
                }))
                &&& (r is Ok ==> pst_measure(st) <= pst_measure(st0))
                &&& ((r matches Ok(o) && o is Some) ==> pst_measure(st) < pst_measure(st0))
            }),
    {
        proof {
            lemma_peek_measure(old(self).pst(*old(tokenizer), *old(stream)));
        }
        match self.fill(stream, tokenizer) {
            Ok(()) => {},
            Err(e) => {
                return Err(e);
            },
        }
        let is_int = match &self.current_token {
            Some(t) => matches!(t.token_kind, TokenKind::Integer),
            None => false,
        };
        if !is_int {
            return Ok(None);
        }
        let token = match self.current_token.take() {
            Some(t) => t,
            None => {
                return Err(
                    Error::new(
                        String::from_str("the look-ahead vanished"),
                        ErrorKind::Other,
                        None,
                    ),
                );
            },
        };
        match parse_digits(token.borrow_span()) {
            Some(value) => Ok(Some(Box::new(ExprEnum::Integer(IntegerNode::new(value))))),
            None => Err(
                Error::new(
                    String::from_str("integer literal too large"),
                    ErrorKind::ParsingError,
                    Some(token.start),
                ),
            ),
        }
    }

    /// Parse a float expression: a float token becomes a [`FloatNode`]
    /// carrying its literal text; a token of any other kind is left for the
    /// next sub-routine.
    pub fn parse_float_expression(
        &mut self,
        stream: &mut CharStream,
        tokenizer: &mut Tokenizer,
    ) -> (r: ParseResult<ExprEnum>)
        requires
            parser_wf(*old(self), *old(tokenizer), *old(stream)),
        ensures
            parser_wf(*final(self), *final(tokenizer), *final(stream)),
            ({
                let st0 = old(self).pst(*old(tokenizer), *old(stream));
                let st = final(self).pst(*final(tokenizer), *final(stream));
                &&& (spec_peek(st0) is None ==> (r matches Err(e) && e.errorkind
                    == ErrorKind::LexerError))
                &&& (spec_peek(st0) matches Some(out) ==> (if out.0 is Float {
                    (r matches Ok(o) && o matches Some(bx) && view_expr(*bx) == ExprView::FloatLit(
                        out.1,
                    ) && expr_view_wf(view_expr(*bx))) && st == spec_bump(out.2)
                } else {
                    (r matches Ok(o) && o is None) && st == out.2
                }))
                &&& (r is Ok ==> pst_measure(st) <= pst_measure(st0))
                &&& ((r matches Ok(o) && o is Some) ==> pst_measure(st) < pst_measure(st0))
            }),
    {
        proof {
            lemma_peek_measure(old(self).pst(*old(tokenizer), *old(stream)));
        }
        match self.fill(stream, tokenizer) {
            Ok(()) => {},
            Err(e) => {
                return Err(e);
            },
        }
        let is_float = match &self.current_token {
            Some(t) => matches!(t.token_kind, TokenKind::Float),
            None => false,
        };
        if !is_float {
            return Ok(None);
        }
        match self.current_token.take() {
            Some(t) => Ok(Some(Box::new(ExprEnum::Float(FloatNode::new(t.span))))),
            None => Err(
                Error::new(String::from_str("the look-ahead vanished"), ErrorKind::Other, None),
            ),
        }
    }

    /// Parse a variable expression: an identifier token becomes a
    /// [`VariableExpressionNode`]; a token of any other kind is left for the
    /// next sub-routine.
    pub fn parse_variable_expression(
        &mut self,
        stream: &mut CharStream,
        tokenizer: &mut Tokenizer,
    ) -> (r: ParseResult<ExprEnum>)
        requires
            parser_wf(*old(self), *old(tokenizer), *old(stream)),
        ensures
            parser_wf(*final(self), *final(tokenizer), *final(stream)),
            ({
                let st0 = old(self).pst(*old(tokenizer), *old(stream));
                let st = final(self).pst(*final(tokenizer), *final(stream));
                &&& (spec_peek(st0) is None ==> (r matches Err(e) && e.errorkind
                    == ErrorKind::LexerError))
                &&& (spec_peek(st0) matches Some(out) ==> (if out.0 is Identifier {
                    (r matches Ok(o) && o matches Some(bx) && view_expr(*bx) == ExprView::Variable(
                        out.1,
                    ) && expr_view_wf(view_expr(*bx))) && st == spec_bump(out.2)
                } else {
                    (r matches Ok(o) && o is None) && st == out.2
                }))
                &&& (r is Ok ==> pst_measure(st) <= pst_measure(st0))
                &&& ((r matches Ok(o) && o is Some) ==> pst_measure(st) < pst_measure(st0))
            }),
    {
        proof {
            lemma_peek_measure(old(self).pst(*old(tokenizer), *old(stream)));
        }
        match self.fill(stream, tokenizer) {
            Ok(()) => {},
            Err(e) => {
                return Err(e);
            },
        }
        let is_ident = match &self.current_token {
            Some(t) => matches!(t.token_kind, TokenKind::Identifier),
            None => false,
        };
        if !is_ident {
            return Ok(None);
        }
        match self.current_token.take() {
            Some(t) => Ok(
                Some(
                    Box::new(
                        ExprEnum::Variable(
                            VariableExpressionNode::new(Box::new(IdentifierNode::new(t.span))),
                        ),
                    ),
                ),
            ),
            None => Err(
                Error::new(String::from_str("the look-ahead vanished"), ErrorKind::Other, None),
            ),
        }
    }

    /// Parse an expression wrapped inside two round brackets: the inner
    /// expression is returned unwrapped. A token other than a left round
    /// bracket is left for the next sub-routine.
    pub fn parse_round_bracket_expression(
        &mut self,
        stream: &mut CharStream,
        tokenizer: &mut Tokenizer,
    ) -> (r: ParseResult<ExprEnum>)
        requires
            parser_wf(*old(self), *old(tokenizer), *old(stream)),
        ensures
            parser_wf(*final(self), *final(tokenizer), *final(stream)),
            ({
                let st0 = old(self).pst(*old(tokenizer), *old(stream));
                let st = final(self).pst(*final(tokenizer), *final(stream));
                &&& (exists|fuel: nat|
                    expr_steps_match(spec_parse_round_bracket(fuel, st0), r, st))
                &&& (spec_peek(st0) is None ==> (r matches Err(e) && e.errorkind
                    == ErrorKind::LexerError))
                &&& (spec_peek(st0) matches Some(out) ==> (if (out.0 matches TokenKind::Bracket(b)
                    && b == spec_left_round()) {
                    (r matches Ok(o) ==> (o matches Some(bx) && expr_view_wf(view_expr(*bx))))
                } else {
                    (r matches Ok(o) && o is None) && st == out.2
                }))
                &&& (r is Ok ==> pst_measure(st) <= pst_measure(st0))
                &&& ((r matches Ok(o) && o is Some) ==> pst_measure(st) < pst_measure(st0))
            }),
        decreases pst_measure(self.pst(*tokenizer, *stream)), 0int,
    {
        let ghost st0 = old(self).pst(*old(tokenizer), *old(stream));
        proof {
            lemma_peek_measure(st0);
        }
        match self.fill(stream, tokenizer) {
            Ok(()) => {},
            Err(e) => {
                let r2: ParseResult<ExprEnum> = Err(e);
                proof {
                    assert(expr_steps_match(
                        spec_parse_round_bracket(1nat, st0),
                        r2,
                        self.pst(*tokenizer, *stream),
                    ));
                }
                return r2;
            },
        }
        let is_left_round = match &self.current_token {
            Some(t) => match t.token_kind {
                TokenKind::Bracket(b) => b.kind == BracketKind::Round && b.side.is_left(),
                _ => false,
            },
            None => false,
        };
        if !is_left_round {
            let r2: ParseResult<ExprEnum> = Ok(None);
            proof {
                assert(expr_steps_match(
                    spec_parse_round_bracket(1nat, st0),
                    r2,
                    self.pst(*tokenizer, *stream),
                ));
            }
            return r2;
        }
        self.mark_used();
        let ghost st_inner = self.pst(*tokenizer, *stream);
        let inner = self.parse_expression(stream, tokenizer);
        let ghost isnap = inner;
        let ghost st_after = self.pst(*tokenizer, *stream);
        proof {
            assert(exists|f: nat|
                expr_steps_match(spec_parse_expression(f, st_inner), isnap, st_after));
        }
        let ghost fe = choose|f: nat|
            expr_steps_match(spec_parse_expression(f, st_inner), isnap, st_after);
        let expression = match inner {
            Ok(Some(x)) => x,
            Ok(None) => {
                let r2: ParseResult<ExprEnum> = Err(
                    Error::new(
                        String::from_str("expected an expression inside the brackets"),
                        ErrorKind::SyntaxError,
                        Some(stream.get_index()),
                    ),
                );
                proof {
                    assert(expr_steps_match(spec_parse_round_bracket(fe + 1, st0), r2, st_after));
                }
                return r2;
            },
            Err(e) => {
                let r2: ParseResult<ExprEnum> = Err(e);
                proof {
                    assert(expr_steps_match(spec_parse_round_bracket(fe + 1, st0), r2, st_after));
                }
                return r2;
            },
        };
        let ghost innerv = view_expr(*expression);
        match self.fill(stream, tokenizer) {
            Ok(()) => {},
            Err(e) => {
                let r2: ParseResult<ExprEnum> = Err(e);
                proof {
                    assert(expr_steps_match(
                        spec_parse_round_bracket(fe + 1, st0),
                        r2,
                        self.pst(*tokenizer, *stream),
                    ));
                }
                return r2;
            },
        }
        let closes = match &self.current_token {
            Some(t) => match t.token_kind {
                TokenKind::Bracket(b) => Bracket::left_round().cancels_out(b),
                _ => false,
            },
            None => false,
        };
        if !closes {
            let r2: ParseResult<ExprEnum> = Err(
                Error::new(
                    String::from_str("expected a right round bracket"),
                    ErrorKind::SyntaxError,
                    Some(stream.get_index()),
                ),
            );
            proof {
                assert(expr_steps_match(
                    spec_parse_round_bracket(fe + 1, st0),
                    r2,
                    self.pst(*tokenizer, *stream),
                ));
            }
            return r2;
        }
        self.mark_used();
        let r2: ParseResult<ExprEnum> = Ok(Some(expression));
        proof {
            assert(expr_steps_match(
                spec_parse_round_bracket(fe + 1, st0),
                r2,
                self.pst(*tokenizer, *stream),
            ));
        }
        r2
    }

    /// Whether a primary expression can start at this token kind.
    pub open spec fn spec_primary_start(k: TokenKind) -> bool {
        ||| k is Integer
        ||| k is Float
        ||| k is Identifier
        ||| (k matches TokenKind::Bracket(b) && b == spec_left_round())
    }

    /// Parse a so-called primary expression: an integer, a float, a
    /// bracketed expression, a function call or a variable. A token that can
    /// open none of these is left for the caller.
    pub fn parse_primary_expression(
        &mut self,
        stream: &mut CharStream,
        tokenizer: &mut Tokenizer,
    ) -> (r: ParseResult<ExprEnum>)
        requires
            parser_wf(*old(self), *old(tokenizer), *old(stream)),
        ensures
            parser_wf(*final(self), *final(tokenizer), *final(stream)),
            ({
                let st0 = old(self).pst(*old(tokenizer), *old(stream));
                let st = final(self).pst(*final(tokenizer), *final(stream));
                &&& (exists|fuel: nat| expr_steps_match(spec_parse_primary(fuel, st0), r, st))
                &&& (spec_peek(st0) is None ==> (r matches Err(e) && e.errorkind
                    == ErrorKind::LexerError))
                &&& (r matches Ok(o) ==> (o matches Some(bx) ==> expr_view_wf(view_expr(*bx))))
                &&& ((r matches Ok(o) && o is None) ==> (spec_peek(st0) matches Some(out)
                    && !Self::spec_primary_start(out.0) && st == out.2))
                &&& (r is Ok ==> pst_measure(st) <= pst_measure(st0))
                &&& ((r matches Ok(o) && o is Some) ==> pst_measure(st) < pst_measure(st0))
            }),
        decreases pst_measure(self.pst(*tokenizer, *stream)), 1int,
    {
        let ghost st0 = old(self).pst(*old(tokenizer), *old(stream));
        let integer = self.parse_integer_expression(stream, tokenizer);
        match integer {
            Ok(Some(x)) => {
                let r2: ParseResult<ExprEnum> = Ok(Some(x));
                proof {
                    assert(expr_steps_match(
                        spec_parse_primary(1nat, st0),
                        r2,
                        self.pst(*tokenizer, *stream),
                    ));
                }
                return r2;
            },
            Ok(None) => {},
            Err(e) => {
                let r2: ParseResult<ExprEnum> = Err(e);
                proof {
                    assert(expr_steps_match(
                        spec_parse_primary(1nat, st0),
                        r2,
                        self.pst(*tokenizer, *stream),
                    ));
                }
                return r2;
            },
        }
        let float = self.parse_float_expression(stream, tokenizer);
        match float {
            Ok(Some(x)) => {
                let r2: ParseResult<ExprEnum> = Ok(Some(x));
                proof {
                    assert(expr_steps_match(
                        spec_parse_primary(1nat, st0),
                        r2,
                        self.pst(*tokenizer, *stream),
                    ));
                }
                return r2;
            },
            Ok(None) => {},
            Err(e) => {
                let r2: ParseResult<ExprEnum> = Err(e);
                proof {
                    assert(expr_steps_match(
                        spec_parse_primary(1nat, st0),
                        r2,
                        self.pst(*tokenizer, *stream),
                    ));
                }
                return r2;
            },
        }
        // The peeked token now sits buffered: the bracket and call
        // sub-routines start from this filled state, as the grammar does.
        let ghost st1 = self.pst(*tokenizer, *stream);
        let rbexpr = self.parse_round_bracket_expression(stream, tokenizer);
        let ghost rbsnap = rbexpr;
        let ghost st_rb = self.pst(*tokenizer, *stream);
        match rbexpr {
            Ok(Some(x)) => {
                let r2: ParseResult<ExprEnum> = Ok(Some(x));
                proof {
                    let fr = choose|f: nat|
                        expr_steps_match(spec_parse_round_bracket(f, st1), rbsnap, st_rb);
                    assert(expr_steps_match(spec_parse_primary(fr + 1, st0), r2, st_rb));
                }
                return r2;
            },
            Ok(None) => {},
            Err(e) => {
                let r2: ParseResult<ExprEnum> = Err(e);
                proof {
                    let fr = choose|f: nat|
                        expr_steps_match(spec_parse_round_bracket(f, st1), rbsnap, st_rb);
                    assert(expr_steps_match(spec_parse_primary(fr + 1, st0), r2, st_rb));
                }
                return r2;
            },
        }
        let funccall = self.parse_function_call_expression(stream, tokenizer);
        let ghost fcsnap = funccall;
        let ghost st_fc = self.pst(*tokenizer, *stream);
        match funccall {
            Ok(Some(x)) => {
                let r2: ParseResult<ExprEnum> = Ok(Some(x));
                proof {
                    let fc = choose|f: nat|
                        expr_steps_match(spec_parse_call(f, st1), fcsnap, st_fc);
                    assert(expr_steps_match(spec_parse_primary(fc + 1, st0), r2, st_fc));
                }
                return r2;
            },
            Ok(None) => {},
            Err(e) => {
                let r2: ParseResult<ExprEnum> = Err(e);
                proof {
                    let fc = choose|f: nat|
                        expr_steps_match(spec_parse_call(f, st1), fcsnap, st_fc);
                    assert(expr_steps_match(spec_parse_primary(fc + 1, st0), r2, st_fc));
                }
                return r2;
            },
        }
        let variable = self.parse_variable_expression(stream, tokenizer);
        match variable {
            Ok(Some(x)) => {
                let r2: ParseResult<ExprEnum> = Ok(Some(x));
                proof {
                    assert(expr_steps_match(
                        spec_parse_primary(1nat, st0),
                        r2,
                        self.pst(*tokenizer, *stream),
                    ));
                }
                return r2;
            },
            Ok(None) => {},
            Err(e) => {
                let r2: ParseResult<ExprEnum> = Err(e);
                proof {
                    assert(expr_steps_match(
                        spec_parse_primary(1nat, st0),
                        r2,
                        self.pst(*tokenizer, *stream),
                    ));
                }
                return r2;
            },
        }
        let r2: ParseResult<ExprEnum> = Ok(None);
        proof {
            assert(expr_steps_match(
                spec_parse_primary(1nat, st0),
                r2,
                self.pst(*tokenizer, *stream),
            ));
        }
        r2
    }

    /// Parse the right-hand side of a binary operator expression by
    /// precedence climbing: operators that bind less tightly than the given
    /// minimum are left for the caller; an operator that binds more tightly
    /// than the current one pulls the right-hand side into a deeper climb;
    /// otherwise the tree grows to the left, so equal precedences associate
    /// to the left. The tree built is exactly what [`spec_climb`] says.
    pub fn parse_binary_operator_rhs_expression(
        &mut self,
        lhs: Box<ExprEnum>,
        minimum_operator_precedence: BinaryOperatorPrecedence,
        stream: &mut CharStream,
        tokenizer: &mut Tokenizer,
    ) -> (r: ParseResult<ExprEnum>)
        requires
            parser_wf(*old(self), *old(tokenizer), *old(stream)),
            expr_view_wf(view_expr(*lhs)),
        ensures
            parser_wf(*final(self), *final(tokenizer), *final(stream)),
            ({
                let st0 = old(self).pst(*old(tokenizer), *old(stream));
                let st = final(self).pst(*final(tokenizer), *final(stream));
                &&& (exists|fuel: nat|
                    climb_steps_match(
                        spec_climb(fuel, st0, view_expr(*lhs), minimum_operator_precedence),
                        r,
                        st,
                    ))
                &&& (r matches Ok(o) ==> (o matches Some(bx) && expr_view_wf(view_expr(*bx))))
                &&& (r is Ok ==> pst_measure(st) <= pst_measure(st0))
            }),
        decreases pst_measure(self.pst(*tokenizer, *stream)), 0int,
    {
        let ghost st0 = old(self).pst(*old(tokenizer), *old(stream));
        let ghost lhsv = view_expr(*lhs);
        let ghost min = minimum_operator_precedence;
        proof {
            lemma_peek_measure(st0);
        }
        match self.fill(stream, tokenizer) {
            Ok(()) => {},
            Err(e) => {
                let r2: ParseResult<ExprEnum> = Err(e);
                proof {
                    assert(climb_steps_match(
                        spec_climb(1nat, st0, lhsv, min),
                        r2,
                        self.pst(*tokenizer, *stream),
                    ));
                }
                return r2;
            },
        }
        let loperator = match &self.current_token {
            Some(t) => match t.token_kind {
                TokenKind::Operator(op) => Some(op),
                _ => None,
            },
            None => None,
        };
        let loperator = match loperator {
            Some(op) => op,
            None => {
                let r2: ParseResult<ExprEnum> = Ok(Some(lhs));
                proof {
                    assert(climb_steps_match(
                        spec_climb(1nat, st0, lhsv, min),
                        r2,
                        self.pst(*tokenizer, *stream),
                    ));
                }
                return r2;
            },
        };
        let lprecedence = BinaryOperatorPrecedence::from_operator(loperator);
        if lprecedence.binds_less_than(minimum_operator_precedence) {
            let r2: ParseResult<ExprEnum> = Ok(Some(lhs));
            proof {
                assert(climb_steps_match(
                    spec_climb(1nat, st0, lhsv, min),
                    r2,
                    self.pst(*tokenizer, *stream),
                ));
            }
            return r2;
        }
        self.mark_used();
        let ghost st_rhs = self.pst(*tokenizer, *stream);
        let primary = self.parse_primary_expression(stream, tokenizer);
        let ghost psnap = primary;
        let ghost st_p = self.pst(*tokenizer, *stream);
        let ghost fp = choose|f: nat|
            expr_steps_match(spec_parse_primary(f, st_rhs), psnap, st_p);
        let rhs = match primary {
            Ok(Some(x)) => x,
            Ok(None) => {
                let r2: ParseResult<ExprEnum> = Err(
                    Error::new(
                        String::from_str("no right-hand side expression after the operator"),
                        ErrorKind::SyntaxError,
                        Some(stream.get_index()),
                    ),
                );
                proof {
                    assert(climb_steps_match(spec_climb(fp + 1, st0, lhsv, min), r2, st_p));
                }
                return r2;
            },
            Err(e) => {
                let r2: ParseResult<ExprEnum> = Err(e);
                proof {
                    assert(climb_steps_match(spec_climb(fp + 1, st0, lhsv, min), r2, st_p));
                }
                return r2;
            },
        };
        let ghost rhsv = view_expr(*rhs);
        proof {
            lemma_peek_measure(st_p);
        }
        match self.fill(stream, tokenizer) {
            Ok(()) => {},
            Err(e) => {
                let r2: ParseResult<ExprEnum> = Err(e);
                proof {
                    assert(climb_steps_match(
                        spec_climb(fp + 1, st0, lhsv, min),
                        r2,
                        self.pst(*tokenizer, *stream),
                    ));
                }
                return r2;
            },
        }
        let ghost st3 = self.pst(*tokenizer, *stream);
        let roperator = match &self.current_token {
            Some(t) => match t.token_kind {
                TokenKind::Operator(op) => Some(op),
                _ => None,
            },
            None => None,
        };
        let climbs_deeper = match roperator {
            Some(op2) => lprecedence.binds_less_than(BinaryOperatorPrecedence::from_operator(op2)),
            None => false,
        };
        if climbs_deeper {
            let roperator = match roperator {
                Some(op2) => op2,
                None => {
                    return Err(
                        Error::new(
                            String::from_str("the deeper climb lost its operator"),
                            ErrorKind::Other,
                            None,
                        ),
                    );
                },
            };
            let rprecedence = BinaryOperatorPrecedence::from_operator(roperator);
            let inner = self.parse_binary_operator_rhs_expression(
                rhs,
                rprecedence,
                stream,
                tokenizer,
            );
            let ghost insnap = inner;
            let ghost st_in = self.pst(*tokenizer, *stream);
            let ghost fi = choose|f: nat|
                climb_steps_match(spec_climb(f, st3, rhsv, rprecedence), insnap, st_in);
            let rhs2 = match inner {
                Ok(Some(x)) => x,
                Ok(None) => {
                    return Err(
                        Error::new(
                            String::from_str("the deeper climb lost its expression"),
                            ErrorKind::Other,
                            None,
                        ),
                    );
                },
                Err(e) => {
                    let r2: ParseResult<ExprEnum> = Err(e);
                    proof {
                        lemma_parse_fuel_monotone(fp, fp + fi + 1, st_rhs);
                        lemma_climb_fuel_monotone(fi, fp + fi + 1, st3, rhsv, rprecedence);
                        assert(climb_steps_match(
                            spec_climb(fp + fi + 2, st0, lhsv, min),
                            r2,
                            st_in,
                        ));
                    }
                    return r2;
                },
            };
            let ghost rhs2v = view_expr(*rhs2);
            let folded = Box::new(
                ExprEnum::Binary(BinaryOperatorNode::new(Box::new(loperator), lhs, rhs2)),
            );
            let tail = self.parse_binary_operator_rhs_expression(
                folded,
                minimum_operator_precedence,
                stream,
                tokenizer,
            );
            let ghost tsnap = tail;
            let ghost st_t = self.pst(*tokenizer, *stream);
            proof {
                let foldedv = ExprView::Binary(loperator, Box::new(lhsv), Box::new(rhs2v));
                let ft = choose|f: nat|
                    climb_steps_match(spec_climb(f, st_in, foldedv, min), tsnap, st_t);
                let big = fp + fi + ft + 3;
                lemma_parse_fuel_monotone(fp, (big - 1) as nat, st_rhs);
                lemma_climb_fuel_monotone(fi, (big - 1) as nat, st3, rhsv, rprecedence);
                lemma_climb_fuel_monotone(ft, (big - 1) as nat, st_in, foldedv, min);
                assert(climb_steps_match(spec_climb(big as nat, st0, lhsv, min), tsnap, st_t));
            }
            tail
        } else {
            let folded = Box::new(
                ExprEnum::Binary(BinaryOperatorNode::new(Box::new(loperator), lhs, rhs)),
            );
            let tail = self.parse_binary_operator_rhs_expression(
                folded,
                minimum_operator_precedence,
                stream,
                tokenizer,
            );
            let ghost tsnap = tail;
            let ghost st_t = self.pst(*tokenizer, *stream);
            proof {
                let foldedv = ExprView::Binary(loperator, Box::new(lhsv), Box::new(rhsv));
                let ft = choose|f: nat|
                    climb_steps_match(spec_climb(f, st3, foldedv, min), tsnap, st_t);
                let big = fp + ft + 2;
                lemma_parse_fuel_monotone(fp, (big - 1) as nat, st_rhs);
                lemma_climb_fuel_monotone(ft, (big - 1) as nat, st3, foldedv, min);
                assert(climb_steps_match(spec_climb(big as nat, st0, lhsv, min), tsnap, st_t));
            }
            tail
        }
    }

    /// Parse an expression: a primary expression, continued by the binary
    /// operator climb, and terminated only by a token that may follow an
    /// expression, which stays buffered. The result is exactly what
    /// [`spec_parse_expression`] says.
    #[verifier::rlimit(100)]
    #[verifier::spinoff_prover]
    pub fn parse_expression(
        &mut self,
        stream: &mut CharStream,
        tokenizer: &mut Tokenizer,
    ) -> (r: ParseResult<ExprEnum>)
        requires
            parser_wf(*old(self), *old(tokenizer), *old(stream)),
        ensures
            parser_wf(*final(self), *final(tokenizer), *final(stream)),
            ({
                let st0 = old(self).pst(*old(tokenizer), *old(stream));
                let st = final(self).pst(*final(tokenizer), *final(stream));
                let ct = final(self).current_token;
                &&& (exists|fuel: nat| expr_steps_match(spec_parse_expression(fuel, st0), r, st))
                &&& (spec_peek(st0) is None ==> (r matches Err(e) && e.errorkind
                    == ErrorKind::LexerError))
                &&& (r matches Ok(o) ==> (o matches Some(bx) ==> expr_view_wf(view_expr(*bx))))
                &&& (r is Ok ==> (ct matches Some(t) && spec_denotes_end(t.token_kind)))
                &&& (r is Ok ==> pst_measure(st) <= pst_measure(st0))
                &&& ((r matches Ok(o) && o is Some) ==> pst_measure(st) < pst_measure(st0))
            }),
        decreases pst_measure(self.pst(*tokenizer, *stream)), 2int,
    {
        let ghost st0 = old(self).pst(*old(tokenizer), *old(stream));
        let primary = self.parse_primary_expression(stream, tokenizer);
        let ghost psnap = primary;
        let ghost st_p = self.pst(*tokenizer, *stream);
        let ghost fp = choose|f: nat| expr_steps_match(spec_parse_primary(f, st0), psnap, st_p);
        let lhs = match primary {
            Ok(x) => x,
            Err(e) => {
                let r2: ParseResult<ExprEnum> = Err(e);
                proof {
                    assert(expr_steps_match(spec_parse_expression(fp + 1, st0), r2, st_p));
                }
                return r2;
            },
        };
        let ghost climbed: bool = lhs is Some;
        let ghost mut fc: nat = 0;
        let ghost mut st_c = st_p;
        let ghost mut lvg: ExprView = ExprView::Integer(0);
        let expression = match lhs {
            None => None,
            Some(lhs) => {
                let ghost lv = view_expr(*lhs);
                let climb = self.parse_binary_operator_rhs_expression(
                    lhs,
                    BinaryOperatorPrecedence::Unknown,
                    stream,
                    tokenizer,
                );
                let ghost csnap = climb;
                proof {
                    lvg = lv;
                    st_c = self.pst(*tokenizer, *stream);
                    fc = choose|f: nat|
                        climb_steps_match(
                            spec_climb(f, st_p, lv, BinaryOperatorPrecedence::Unknown),
                            csnap,
                            st_c,
                        );
                }
                match climb {
                    Ok(Some(x)) => Some(x),
                    Ok(None) => {
                        return Err(
                            Error::new(
                                String::from_str("the climb lost its expression"),
                                ErrorKind::Other,
                                None,
                            ),
                        );
                    },
                    Err(e) => {
                        let r2: ParseResult<ExprEnum> = Err(e);
                        proof {
                            lemma_parse_fuel_monotone(fp, fp + fc + 1, st0);
                            lemma_climb_fuel_monotone(
                                fc,
                                fp + fc + 1,
                                st_p,
                                lv,
                                BinaryOperatorPrecedence::Unknown,
                            );
                            assert(expr_steps_match(
                                spec_parse_expression(fp + fc + 2, st0),
                                r2,
                                st_c,
                            ));
                        }
                        return r2;
                    },
                }
            },
        };
        let r2 = self.check_expression_end(expression, stream, tokenizer);
        proof {
            lemma_parse_fuel_monotone(fp, fp + fc + 1, st0);
            if climbed {
                lemma_climb_fuel_monotone(
                    fc,
                    fp + fc + 1,
                    st_p,
                    lvg,
                    BinaryOperatorPrecedence::Unknown,
                );
            }
            assert(expr_steps_match(
                spec_parse_expression(fp + fc + 2, st0),
                r2,
                self.pst(*tokenizer, *stream),
            ));
        }
        r2
    }

    /// The termination step of an expression: the next token must be one
    /// that may follow an expression, and stays buffered; the expression is
    /// handed through untouched. This is exactly [`spec_expression_end`].
    fn check_expression_end(
        &mut self,
        expression: Option<Box<ExprEnum>>,
        stream: &mut CharStream,
        tokenizer: &mut Tokenizer,
    ) -> (r: ParseResult<ExprEnum>)
        requires
            parser_wf(*old(self), *old(tokenizer), *old(stream)),
        ensures
            parser_wf(*final(self), *final(tokenizer), *final(stream)),
            ({
                let st0 = old(self).pst(*old(tokenizer), *old(stream));
                let st = final(self).pst(*final(tokenizer), *final(stream));
                let ct = final(self).current_token;
                let resv = match expression {
                    Some(bx) => Some(view_expr(*bx)),
                    None => None::<ExprView>,
                };
                &&& expr_steps_match(spec_expression_end(resv, st0), r, st)
                &&& (r is Ok ==> r->Ok_0 == expression)
                &&& (r is Ok ==> (ct matches Some(t) && spec_denotes_end(t.token_kind)))
                &&& (r is Ok ==> pst_measure(st) <= pst_measure(st0))
            }),
    {
        let ghost st0 = old(self).pst(*old(tokenizer), *old(stream));
        proof {
            lemma_peek_measure(st0);
        }
        match self.fill(stream, tokenizer) {
            Ok(()) => {},
            Err(e) => {
                return Err(e);
            },
        }
        let ends = match &self.current_token {
            Some(t) => match t.token_kind {
                TokenKind::Semicolon => true,
                TokenKind::Eof => true,
                TokenKind::Comma => true,
                TokenKind::Bracket(b) => b.side.is_right(),
                _ => false,
            },
            None => false,
        };
        if ends {
            Ok(expression)
        } else {
            Err(
                Error::new(
                    String::from_str("the expression is not terminated"),
                    ErrorKind::SyntaxError,
                    Some(stream.get_index()),
                ),
            )
        }
    }

    /// Parse a top-level expression: an expression standing as a form of
    /// its own, which only a semicolon or the end of the input may follow.
    /// The result is exactly what [`spec_parse_top_level`] says.
    pub fn parse_top_level_expression(
        &mut self,
        stream: &mut CharStream,
        tokenizer: &mut Tokenizer,
    ) -> (r: ParseResult<ExprEnum>)
        requires
            parser_wf(*old(self), *old(tokenizer), *old(stream)),
        ensures
            parser_wf(*final(self), *final(tokenizer), *final(stream)),
            ({
                let st0 = old(self).pst(*old(tokenizer), *old(stream));
                let st = final(self).pst(*final(tokenizer), *final(stream));
                let ct = final(self).current_token;
                &&& (exists|fuel: nat| expr_steps_match(spec_parse_top_level(fuel, st0), r, st))
                &&& (spec_peek(st0) is None ==> (r matches Err(e) && e.errorkind
                    == ErrorKind::LexerError))
                &&& (r matches Ok(o) ==> (o matches Some(bx) ==> expr_view_wf(view_expr(*bx))))
                &&& (r is Ok ==> (ct matches Some(t) && (t.token_kind is Semicolon || t.token_kind
                    is Eof)))
                &&& (r is Ok ==> pst_measure(st) <= pst_measure(st0))
                &&& ((r matches Ok(o) && o is Some) ==> pst_measure(st) < pst_measure(st0))
            }),
        decreases pst_measure(self.pst(*tokenizer, *stream)), 3int,
    {
        let ghost st0 = old(self).pst(*old(tokenizer), *old(stream));
        let inner = self.parse_expression(stream, tokenizer);
        let ghost isnap = inner;
        let ghost st_e = self.pst(*tokenizer, *stream);
        let ghost fe = choose|f: nat|
            expr_steps_match(spec_parse_expression(f, st0), isnap, st_e);
        let expression = match inner {
            Ok(x) => x,
            Err(e) => {
                let r2: ParseResult<ExprEnum> = Err(e);
                proof {
                    assert(expr_steps_match(spec_parse_top_level(fe + 1, st0), r2, st_e));
                }
                return r2;
            },
        };
        // The expression left its terminator buffered; a top-level form
        // accepts only a semicolon or the end of the input there.
        let strict = match &self.current_token {
            Some(t) => matches!(t.token_kind, TokenKind::Semicolon | TokenKind::Eof),
            None => false,
        };
        let r2: ParseResult<ExprEnum> = if strict {
            Ok(expression)
        } else {
            Err(
                Error::new(
                    String::from_str("a top-level expression ends only at a semicolon"),
                    ErrorKind::SyntaxError,
                    Some(stream.get_index()),
                ),
            )
        };
        proof {
            assert(expr_steps_match(
                spec_parse_top_level(fe + 1, st0),
                r2,
                self.pst(*tokenizer, *stream),
            ));
        }
        r2
    }

    /// Parse a comma-separated expression list flanked by a left bracket
    /// and its cancelling right bracket. A first token other than the
    /// expected left bracket is left for the next sub-routine. A trailing
    /// comma is a syntax error; an empty list is valid. The list returned is
    /// exactly what [`spec_parse_comma_list`] says: the expressions in
    /// source order, with both brackets consumed.
    pub fn parse_comma_expression_list(
        &mut self,
        stream: &mut CharStream,
        tokenizer: &mut Tokenizer,
        left_bracket: Bracket,
    ) -> (r: Result<Option<Vec<ExprEnum>>, Error>)
        requires
            parser_wf(*old(self), *old(tokenizer), *old(stream)),
        ensures
            parser_wf(*final(self), *final(tokenizer), *final(stream)),
            ({
                let st0 = old(self).pst(*old(tokenizer), *old(stream));
                let st = final(self).pst(*final(tokenizer), *final(stream));
                &&& (exists|fuel: nat|
                    list_steps_match(spec_parse_comma_list(fuel, st0, left_bracket), r, st))
                &&& (spec_peek(st0) is None ==> (r matches Err(e) && e.errorkind
                    == ErrorKind::LexerError))
                &&& (spec_peek(st0) matches Some(out) ==> (if (out.0 matches TokenKind::Bracket(b)
                    && b == left_bracket) {
                    (r matches Ok(o) ==> (o matches Some(v) && expr_view_wf_list(view_expr_list(
                        v@,
                    )) && pst_measure(st) < pst_measure(st0)))
                } else {
                    (r matches Ok(o) && o is None) && st == out.2
                }))
                &&& (r is Ok ==> pst_measure(st) <= pst_measure(st0))
            }),
        decreases pst_measure(self.pst(*tokenizer, *stream)), 1int,
    {
        let ghost st0 = old(self).pst(*old(tokenizer), *old(stream));
        proof {
            lemma_peek_measure(st0);
        }
        match self.fill(stream, tokenizer) {
            Ok(()) => {},
            Err(e) => {
                let r2: Result<Option<Vec<ExprEnum>>, Error> = Err(e);
                proof {
                    assert(list_steps_match(
                        spec_parse_comma_list(1nat, st0, left_bracket),
                        r2,
                        self.pst(*tokenizer, *stream),
                    ));
                }
                return r2;
            },
        }
        let opens = match &self.current_token {
            Some(t) => match t.token_kind {
                TokenKind::Bracket(b) => b == left_bracket,
                _ => false,
            },
            None => false,
        };
        if !opens {
            let r2: Result<Option<Vec<ExprEnum>>, Error> = Ok(None);
            proof {
                assert(list_steps_match(
                    spec_parse_comma_list(1nat, st0, left_bracket),
                    r2,
                    self.pst(*tokenizer, *stream),
                ));
            }
            return r2;
        }
        self.mark_used();
        let ghost st_rest = self.pst(*tokenizer, *stream);
        let fresh: Vec<ExprEnum> = Vec::new();
        proof {
            assert(view_expr_list(fresh@) =~= Seq::<ExprView>::empty());
        }
        let rest = self.comma_list_rest(fresh, left_bracket, false, stream, tokenizer);
        let ghost rsnap = rest;
        let ghost st_r = self.pst(*tokenizer, *stream);
        proof {
            let fr = choose|f: nat|
                list_steps_match(
                    spec_comma_rest(f, st_rest, Seq::<ExprView>::empty(), left_bracket, false),
                    rsnap,
                    st_r,
                );
            assert(list_steps_match(
                spec_parse_comma_list(fr + 1, st0, left_bracket),
                rsnap,
                st_r,
            ));
        }
        rest
    }

    /// Collect the remainder of an expression list: the entries gathered so
    /// far in `args`, extended one expression at a time until the cancelling
    /// right bracket. `after_comma` tells whether this position was entered
    /// through a comma: a trailing comma before the closing bracket is a
    /// syntax error.
    fn comma_list_rest(
        &mut self,
        args: Vec<ExprEnum>,
        left_bracket: Bracket,
        after_comma: bool,
        stream: &mut CharStream,
        tokenizer: &mut Tokenizer,
    ) -> (r: Result<Option<Vec<ExprEnum>>, Error>)
        requires
            parser_wf(*old(self), *old(tokenizer), *old(stream)),
            forall|j: int| 0 <= j < args@.len() ==> expr_view_wf(view_expr(#[trigger] args@[j])),
        ensures
            parser_wf(*final(self), *final(tokenizer), *final(stream)),
            ({
                let st0 = old(self).pst(*old(tokenizer), *old(stream));
                let st = final(self).pst(*final(tokenizer), *final(stream));
                &&& (exists|fuel: nat|
                    list_steps_match(
                        spec_comma_rest(fuel, st0, view_expr_list(args@), left_bracket, after_comma),
                        r,
                        st,
                    ))
                &&& (r matches Ok(o) ==> (o matches Some(v) && expr_view_wf_list(view_expr_list(
                    v@,
                ))))
                &&& (r is Ok ==> pst_measure(st) <= pst_measure(st0))
            }),
        decreases pst_measure(self.pst(*tokenizer, *stream)), 3int,
    {
        let ghost st0 = old(self).pst(*old(tokenizer), *old(stream));
        let ghost acc = view_expr_list(args@);
        proof {
            crate::ast::nodes::lemma_view_expr_list(args@);
        }
        let mut args = args;
        let expression = self.parse_expression(stream, tokenizer);
        let ghost esnap = expression;
        let ghost st_e = self.pst(*tokenizer, *stream);
        let ghost fe = choose|f: nat|
            expr_steps_match(spec_parse_expression(f, st0), esnap, st_e);
        let expression = match expression {
            Ok(x) => x,
            Err(e) => {
                let r2: Result<Option<Vec<ExprEnum>>, Error> = Err(e);
                proof {
                    assert(list_steps_match(
                        spec_comma_rest(fe + 1, st0, acc, left_bracket, after_comma),
                        r2,
                        st_e,
                    ));
                }
                return r2;
            },
        };
        proof {
            lemma_peek_measure(st_e);
        }
        match self.fill(stream, tokenizer) {
            Ok(()) => {},
            Err(e) => {
                let r2: Result<Option<Vec<ExprEnum>>, Error> = Err(e);
                proof {
                    assert(list_steps_match(
                        spec_comma_rest(fe + 1, st0, acc, left_bracket, after_comma),
                        r2,
                        self.pst(*tokenizer, *stream),
                    ));
                }
                return r2;
            },
        }
        // 0 separates entries, 1 closes the list, 2 is out of place.
        let sep: u8 = match &self.current_token {
            Some(t) => match t.token_kind {
                TokenKind::Comma => 0,
                TokenKind::Bracket(b) => if left_bracket.cancels_out(b) {
                    1
                } else {
                    2
                },
                _ => 2,
            },
            None => 2,
        };
        if sep == 1 {
            if expression.is_none() && after_comma {
                // A comma directly before the closing bracket: the trailing
                // comma the grammar excludes.
                let r2: Result<Option<Vec<ExprEnum>>, Error> = Err(
                    Error::new(
                        String::from_str("a trailing comma closes no expression list"),
                        ErrorKind::SyntaxError,
                        Some(stream.get_index()),
                    ),
                );
                proof {
                    assert(list_steps_match(
                        spec_comma_rest(fe + 1, st0, acc, left_bracket, after_comma),
                        r2,
                        self.pst(*tokenizer, *stream),
                    ));
                }
                return r2;
            }
            if let Some(expression) = expression {
                args.push(*expression);
                proof {
                    crate::ast::nodes::lemma_view_expr_list(args@);
                    assert(view_expr_list(args@) =~= acc.push(view_expr_list(args@).last()));
                }
            }
            self.mark_used();
            let ghost st_done = self.pst(*tokenizer, *stream);
            proof {
                crate::ast::nodes::lemma_view_expr_list(args@);
                assert forall|i: int|
                    0 <= i < view_expr_list(args@).len() implies expr_view_wf(
                    #[trigger] view_expr_list(args@)[i],
                ) by {
                    assert(view_expr_list(args@)[i] == view_expr(args@[i]));
                }
                crate::parser::spec::lemma_expr_view_wf_list_pointwise(view_expr_list(args@));
            }
            let r2: Result<Option<Vec<ExprEnum>>, Error> = Ok(Some(args));
            proof {
                assert(list_steps_match(
                    spec_comma_rest(fe + 1, st0, acc, left_bracket, after_comma),
                    r2,
                    st_done,
                ));
            }
            return r2;
        }
        if sep == 2 {
            let r2: Result<Option<Vec<ExprEnum>>, Error> = Err(
                Error::new(
                    String::from_str("unexpected token after the expression list entry"),
                    ErrorKind::SyntaxError,
                    Some(stream.get_index()),
                ),
            );
            proof {
                assert(list_steps_match(
                    spec_comma_rest(fe + 1, st0, acc, left_bracket, after_comma),
                    r2,
                    self.pst(*tokenizer, *stream),
                ));
            }
            return r2;
        }
        let expression = match expression {
            Some(x) => x,
            None => {
                let r2: Result<Option<Vec<ExprEnum>>, Error> = Err(
                    Error::new(
                        String::from_str("no expression before the comma"),
                        ErrorKind::SyntaxError,
                        Some(stream.get_index()),
                    ),
                );
                proof {
                    assert(list_steps_match(
                        spec_comma_rest(fe + 1, st0, acc, left_bracket, after_comma),
                        r2,
                        self.pst(*tokenizer, *stream),
                    ));
                }
                return r2;
            },
        };
        args.push(*expression);
        self.mark_used();
        proof {
            crate::ast::nodes::lemma_view_expr_list(args@);
            assert(view_expr_list(args@) =~= acc.push(view_expr_list(args@).last()));
        }
        let ghost acc2 = view_expr_list(args@);
        let ghost st_next = self.pst(*tokenizer, *stream);
        let tail = self.comma_list_rest(args, left_bracket, true, stream, tokenizer);
        let ghost tsnap = tail;
        let ghost st_t = self.pst(*tokenizer, *stream);
        proof {
            let ft = choose|f: nat|
                list_steps_match(
                    spec_comma_rest(f, st_next, acc2, left_bracket, true),
                    tsnap,
                    st_t,
                );
            let big = fe + ft + 2;
            lemma_parse_fuel_monotone(fe, (big - 1) as nat, st0);
            lemma_comma_rest_fuel_monotone(ft, (big - 1) as nat, st_next, acc2, left_bracket, true);
            assert(list_steps_match(
                spec_comma_rest(big as nat, st0, acc, left_bracket, after_comma),
                tsnap,
                st_t,
            ));
        }
        tail
    }

    /// Parse a call to a function, or, as the parser may not reverse
    /// tokens, a bare variable: an identifier followed by a left round
    /// bracket opens a call with a comma-separated argument list; an
    /// identifier followed by anything else is a variable expression. The
    /// result is exactly what [`spec_parse_call`] says.
    pub fn parse_function_call_expression(
        &mut self,
        stream: &mut CharStream,
        tokenizer: &mut Tokenizer,
    ) -> (r: ParseResult<ExprEnum>)
        requires
            parser_wf(*old(self), *old(tokenizer), *old(stream)),
        ensures
            parser_wf(*final(self), *final(tokenizer), *final(stream)),
            ({
                let st0 = old(self).pst(*old(tokenizer), *old(stream));
                let st = final(self).pst(*final(tokenizer), *final(stream));
                &&& (exists|fuel: nat| expr_steps_match(spec_parse_call(fuel, st0), r, st))
                &&& (spec_peek(st0) is None ==> (r matches Err(e) && e.errorkind
                    == ErrorKind::LexerError))
                &&& (spec_peek(st0) matches Some(out) ==> (if out.0 is Identifier {
                    (r matches Ok(o) ==> (o matches Some(bx) && expr_view_wf(view_expr(*bx))
                        && pst_measure(st) < pst_measure(st0)))
                } else {
                    (r matches Ok(o) && o is None) && st == out.2
                }))
                &&& (r is Ok ==> pst_measure(st) <= pst_measure(st0))
            }),
        decreases pst_measure(self.pst(*tokenizer, *stream)), 0int,
    {
        let ghost st0 = old(self).pst(*old(tokenizer), *old(stream));
        proof {
            lemma_peek_measure(st0);
        }
        match self.fill(stream, tokenizer) {
            Ok(()) => {},
            Err(e) => {
                let r2: ParseResult<ExprEnum> = Err(e);
                proof {
                    assert(expr_steps_match(
                        spec_parse_call(1nat, st0),
                        r2,
                        self.pst(*tokenizer, *stream),
                    ));
                }
                return r2;
            },
        }
        let is_ident = match &self.current_token {
            Some(t) => matches!(t.token_kind, TokenKind::Identifier),
            None => false,
        };
        if !is_ident {
            let r2: ParseResult<ExprEnum> = Ok(None);
            proof {
                assert(expr_steps_match(
                    spec_parse_call(1nat, st0),
                    r2,
                    self.pst(*tokenizer, *stream),
                ));
            }
            return r2;
        }
        let name_token = match self.current_token.take() {
            Some(t) => t,
            None => {
                return Err(
                    Error::new(
                        String::from_str("the look-ahead vanished"),
                        ErrorKind::Other,
                        None,
                    ),
                );
            },
        };
        let ghost name = name_token.span@;
        let identifier = Box::new(IdentifierNode::new(name_token.span));
        let ghost st_second = self.pst(*tokenizer, *stream);
        proof {
            lemma_peek_measure(st_second);
        }
        match self.fill(stream, tokenizer) {
            Ok(()) => {},
            Err(e) => {
                let r2: ParseResult<ExprEnum> = Err(e);
                proof {
                    assert(expr_steps_match(
                        spec_parse_call(1nat, st0),
                        r2,
                        self.pst(*tokenizer, *stream),
                    ));
                }
                return r2;
            },
        }
        let opens = match &self.current_token {
            Some(t) => match t.token_kind {
                TokenKind::Bracket(b) => b.kind == BracketKind::Round && b.side.is_left(),
                _ => false,
            },
            None => false,
        };
        if !opens {
            let r2: ParseResult<ExprEnum> = Ok(
                Some(Box::new(ExprEnum::Variable(VariableExpressionNode::new(identifier)))),
            );
            proof {
                assert(expr_steps_match(
                    spec_parse_call(1nat, st0),
                    r2,
                    self.pst(*tokenizer, *stream),
                ));
            }
            return r2;
        }
        let ghost st3 = self.pst(*tokenizer, *stream);
        let list = self.parse_comma_expression_list(stream, tokenizer, Bracket::left_round());
        let ghost lsnap = list;
        let ghost st_l = self.pst(*tokenizer, *stream);
        let ghost fl = choose|f: nat|
            list_steps_match(spec_parse_comma_list(f, st3, spec_left_round()), lsnap, st_l);
        match list {
            Ok(Some(args)) => {
                let r2: ParseResult<ExprEnum> = Ok(
                    Some(Box::new(ExprEnum::Call(FunctionCallNode::new(identifier, args)))),
                );
                proof {
                    assert(expr_steps_match(spec_parse_call(fl + 1, st0), r2, st_l));
                }
                r2
            },
            Ok(None) => {
                let r2: ParseResult<ExprEnum> = Err(
                    Error::new(
                        String::from_str("no argument list found for the function"),
                        ErrorKind::SyntaxError,
                        Some(name_token.start),
                    ),
                );
                proof {
                    assert(expr_steps_match(spec_parse_call(fl + 1, st0), r2, st_l));
                }
                r2
            },
            Err(e) => {
                let r2: ParseResult<ExprEnum> = Err(e);
                proof {
                    assert(expr_steps_match(spec_parse_call(fl + 1, st0), r2, st_l));
                }
                r2
            },
        }
    }

    /// Parse a function prototype: the function-definition keyword, a name,
    /// and a comma-separated identifier list between round brackets. The
    /// result is exactly what [`spec_parse_prototype`] says the input parses
    /// to. A first token other than the keyword is left for the next
    /// sub-routine; any malformed token after it is a syntax error.
    pub fn parse_function_prototype(
        &mut self,
        stream: &mut CharStream,
        tokenizer: &mut Tokenizer,
    ) -> (r: ParseResult<FunctionPrototypeNode>)
        requires
            parser_wf(*old(self), *old(tokenizer), *old(stream)),
        ensures
            parser_wf(*final(self), *final(tokenizer), *final(stream)),
            ({
                let st0 = old(self).pst(*old(tokenizer), *old(stream));
                let st = final(self).pst(*final(tokenizer), *final(stream));
                let res = spec_parse_prototype(st0);
                &&& (res matches Err(ek) ==> (r matches Err(e) && e.errorkind == ek))
                &&& (res matches Ok(out2) ==> (if out2.0 is None {
                    (r matches Ok(o) && o is None) && st == out2.1
                } else {
                    let np = out2.0->0;
                    (r matches Ok(o) && (o matches Some(p) && view_proto(*p).0 == np.0
                        && view_proto(*p).1 == np.1)) && st == out2.1 && pst_measure(st)
                        < pst_measure(st0)
                }))
                &&& (r is Ok ==> pst_measure(st) <= pst_measure(st0))
            }),
    {
        let ghost st0 = old(self).pst(*old(tokenizer), *old(stream));
        proof {
            lemma_peek_measure(st0);
        }
        match self.fill(stream, tokenizer) {
            Ok(()) => {},
            Err(e) => {
                return Err(e);
            },
        }
        let is_def = match &self.current_token {
            Some(t) => match t.token_kind {
                TokenKind::Keyword(k) => matches!(k, Keyword::Def),
                _ => false,
            },
            None => false,
        };
        if !is_def {
            return Ok(None);
        }
        self.mark_used();
        let ghost st2 = self.pst(*tokenizer, *stream);
        proof {
            lemma_peek_measure(st2);
        }
        match self.fill(stream, tokenizer) {
            Ok(()) => {},
            Err(e) => {
                return Err(e);
            },
        }
        let is_name = match &self.current_token {
            Some(t) => matches!(t.token_kind, TokenKind::Identifier),
            None => false,
        };
        if !is_name {
            return Err(
                Error::new(
                    String::from_str("expected the name of the function prototype"),
                    ErrorKind::SyntaxError,
                    Some(stream.get_index()),
                ),
            );
        }
        let name_token = match self.current_token.take() {
            Some(t) => t,
            None => {
                return Err(
                    Error::new(
                        String::from_str("the look-ahead vanished"),
                        ErrorKind::Other,
                        None,
                    ),
                );
            },
        };
        let ghost name = name_token.span@;
        let ghost st4 = self.pst(*tokenizer, *stream);
        proof {
            lemma_peek_measure(st4);
        }
        match self.fill(stream, tokenizer) {
            Ok(()) => {},
            Err(e) => {
                return Err(e);
            },
        }
        let opens = match &self.current_token {
            Some(t) => match t.token_kind {
                TokenKind::Bracket(b) => b == Bracket::left_round(),
                _ => false,
            },
            None => false,
        };
        if !opens {
            return Err(
                Error::new(
                    String::from_str("expected a bracket to open the parameter list"),
                    ErrorKind::SyntaxError,
                    Some(stream.get_index()),
                ),
            );
        }
        self.mark_used();
        let ghost st6 = self.pst(*tokenizer, *stream);
        proof {
            assert(pst_measure(st6) < pst_measure(st0));
        }
        let mut parameters: Vec<Box<IdentifierNode>> = Vec::new();
        proof {
            assert(crate::ast::display::view_params(parameters@) =~= Seq::<Seq<char>>::empty());
        }
        loop
            invariant
                st0 == old(self).pst(*old(tokenizer), *old(stream)),
                st6 == (ParserState { buf: None, pending: st6.pending }),
                name == name_token.span@,
                parser_wf(*self, *tokenizer, *stream),
                pst_measure(self.pst(*tokenizer, *stream)) <= pst_measure(st6),
                pst_measure(st6) < pst_measure(st0),
                spec_parse_prototype(st0) == (match spec_parse_params(st6, Seq::empty()) {
                    Ok(out3) => Ok::<_, ErrorKind>((Some((name, out3.0)), out3.1)),
                    Err(ek) => Err(ek),
                }),
                spec_parse_params(
                    self.pst(*tokenizer, *stream),
                    crate::ast::display::view_params(parameters@),
                ) == spec_parse_params(st6, Seq::empty()),
            decreases pst_measure(self.pst(*tokenizer, *stream)),
        {
            let ghost cur = self.pst(*tokenizer, *stream);
            let ghost acc = crate::ast::display::view_params(parameters@);
            proof {
                lemma_peek_measure(cur);
            }
            match self.fill(stream, tokenizer) {
                Ok(()) => {},
                Err(e) => {
                    return Err(e);
                },
            }
            // 0 is a parameter name, 1 closes the list, 2 is out of place.
            let shape: u8 = match &self.current_token {
                Some(t) => match t.token_kind {
                    TokenKind::Identifier => 0,
                    TokenKind::Bracket(b) => if Bracket::left_round().cancels_out(b) {
                        1
                    } else {
                        2
                    },
                    _ => 2,
                },
                None => 2,
            };
            if shape == 1 {
                self.mark_used();
                proof {
                    assert(spec_parse_params(cur, acc) matches Ok(out3) && out3.0 == acc && out3.1
                        == self.pst(*tokenizer, *stream));
                    assert(spec_parse_prototype(st0) matches Ok(out2) && out2.0 == Some(
                        (name, acc),
                    ) && out2.1 == self.pst(*tokenizer, *stream));
                }
                let prototype = FunctionPrototypeNode::new(
                    Box::new(IdentifierNode::new(name_token.span)),
                    parameters,
                );
                proof {
                    assert(crate::ast::display::view_params(prototype.parameters@) =~= acc);
                    assert(view_proto(prototype).1 =~= crate::ast::display::view_params(
                        prototype.parameters@,
                    ));
                    assert(view_proto(prototype).0 == name);
                    assert(view_proto(prototype).1 == acc);
                }
                return Ok(Some(Box::new(prototype)));
            }
            if shape == 2 {
                return Err(
                    Error::new(
                        String::from_str("unexpected token in the parameter list"),
                        ErrorKind::SyntaxError,
                        Some(stream.get_index()),
                    ),
                );
            }
            let param_token = match self.current_token.take() {
                Some(t) => t,
                None => {
                    return Err(
                        Error::new(
                            String::from_str("the look-ahead vanished"),
                            ErrorKind::Other,
                            None,
                        ),
                    );
                },
            };
            let ghost mid = self.pst(*tokenizer, *stream);
            proof {
                lemma_peek_measure(mid);
            }
            match self.fill(stream, tokenizer) {
                Ok(()) => {},
                Err(e) => {
                    return Err(e);
                },
            }
            // 0 separates parameters, 1 closes the list, 2 is out of place.
            let sep: u8 = match &self.current_token {
                Some(t) => match t.token_kind {
                    TokenKind::Comma => 0,
                    TokenKind::Bracket(b) => if Bracket::left_round().cancels_out(b) {
                        1
                    } else {
                        2
                    },
                    _ => 2,
                },
                None => 2,
            };
            if sep == 2 {
                return Err(
                    Error::new(
                        String::from_str("parameter names must be separated by commas"),
                        ErrorKind::SyntaxError,
                        Some(stream.get_index()),
                    ),
                );
            }
            self.mark_used();
            parameters.push(Box::new(IdentifierNode::new(param_token.span)));
            proof {
                assert(crate::ast::display::view_params(parameters@) =~= acc.push(
                    param_token.span@,
                ));
            }
            if sep == 1 {
                proof {
                    assert(spec_parse_params(cur, acc) matches Ok(out3) && out3.0 == acc.push(
                        param_token.span@,
                    ) && out3.1 == self.pst(*tokenizer, *stream));
                    assert(spec_parse_prototype(st0) matches Ok(out2) && out2.0 == Some(
                        (name, acc.push(param_token.span@)),
                    ) && out2.1 == self.pst(*tokenizer, *stream));
                }
                let prototype = FunctionPrototypeNode::new(
                    Box::new(IdentifierNode::new(name_token.span)),
                    parameters,
                );
                proof {
                    assert(crate::ast::display::view_params(prototype.parameters@) =~= acc.push(
                        param_token.span@,
                    ));
                    assert(view_proto(prototype).1 =~= crate::ast::display::view_params(
                        prototype.parameters@,
                    ));
                    assert(view_proto(prototype).0 == name);
                    assert(view_proto(prototype).1 == acc.push(param_token.span@));
                }
                return Ok(Some(Box::new(prototype)));
            }
        }
    }

    /// Parse a function definition: a prototype followed by the body
    /// expression. The prototype part is exactly what
    /// [`spec_parse_prototype`] says; when the prototype is there, the body
    /// part is exactly what [`spec_parse_expression`] says — success is owed
    /// exactly when a body expression follows, and the body field carries
    /// it.
    pub fn parse_function(&mut self, stream: &mut CharStream, tokenizer: &mut Tokenizer) -> (r:
        ParseResult<FunctionNode>)
        requires
            parser_wf(*old(self), *old(tokenizer), *old(stream)),
        ensures
            parser_wf(*final(self), *final(tokenizer), *final(stream)),
            ({
                let st0 = old(self).pst(*old(tokenizer), *old(stream));
                let st = final(self).pst(*final(tokenizer), *final(stream));
                let res = spec_parse_prototype(st0);
                &&& (res matches Err(ek) ==> (r matches Err(e) && e.errorkind == ek))
                &&& (res matches Ok(out2) ==> (if out2.0 is None {
                    (r matches Ok(o) && o is None) && st == out2.1
                } else {
                    let np = out2.0->0;
                    &&& (r matches Ok(o) ==> (o matches Some(f) && view_proto(*f.prototype).0
                        == np.0 && view_proto(*f.prototype).1 == np.1 && expr_view_wf(view_expr(
                        *f.body,
                    ))))
                    &&& (exists|fuel: nat|
                        function_body_matches(spec_parse_expression(fuel, out2.1), r, st))
                }))
                &&& ((r matches Ok(o) && o is Some) ==> pst_measure(st) < pst_measure(st0))
                &&& (r is Ok ==> pst_measure(st) <= pst_measure(st0))
            }),
        decreases pst_measure(self.pst(*tokenizer, *stream)), 4int,
    {
        let prototype = match self.parse_function_prototype(stream, tokenizer) {
            Ok(Some(p)) => p,
            Ok(None) => {
                return Ok(None);
            },
            Err(e) => {
                return Err(e);
            },
        };
        let ghost st_body = self.pst(*tokenizer, *stream);
        let body = self.parse_expression(stream, tokenizer);
        let ghost bsnap = body;
        let ghost st_b = self.pst(*tokenizer, *stream);
        let ghost fb = choose|f: nat|
            expr_steps_match(spec_parse_expression(f, st_body), bsnap, st_b);
        match body {
            Ok(Some(x)) => {
                let r2: ParseResult<FunctionNode> = Ok(
                    Some(Box::new(FunctionNode::new(prototype, x))),
                );
                proof {
                    assert(function_body_matches(
                        spec_parse_expression(fb, st_body),
                        r2,
                        st_b,
                    ));
                }
                r2
            },
            Ok(None) => {
                let r2: ParseResult<FunctionNode> = Err(
                    Error::new(
                        String::from_str("expected a function body after the prototype"),
                        ErrorKind::SyntaxError,
                        Some(stream.get_index()),
                    ),
                );
                proof {
                    assert(function_body_matches(
                        spec_parse_expression(fb, st_body),
                        r2,
                        st_b,
                    ));
                }
                r2
            },
            Err(e) => {
                let r2: ParseResult<FunctionNode> = Err(e);
                proof {
                    assert(function_body_matches(
                        spec_parse_expression(fb, st_body),
                        r2,
                        st_b,
                    ));
                }
                r2
            },
        }
    }

    /// Parse an external function declaration: the external-declaration
    /// keyword followed by a prototype. A first token other than the keyword
    /// is left for the next sub-routine; a missing prototype is a syntax
    /// error.
    pub fn parse_extern_function(
        &mut self,
        stream: &mut CharStream,
        tokenizer: &mut Tokenizer,
    ) -> (r: ParseResult<ExternFunctionNode>)
        requires
            parser_wf(*old(self), *old(tokenizer), *old(stream)),
        ensures
            parser_wf(*final(self), *final(tokenizer), *final(stream)),
            ({
                let st0 = old(self).pst(*old(tokenizer), *old(stream));
                let st = final(self).pst(*final(tokenizer), *final(stream));
                &&& (spec_peek(st0) is None ==> (r matches Err(e) && e.errorkind
                    == ErrorKind::LexerError))
                &&& (spec_peek(st0) matches Some(out) ==> (if !(out.0 matches TokenKind::Keyword(
                    kw,
                ) && kw is Extern) {
                    (r matches Ok(o) && o is None) && st == out.2
                } else {
                    let res = spec_parse_prototype(spec_bump(out.2));
                    &&& (res matches Err(ek) ==> (r matches Err(e) && e.errorkind == ek))
                    &&& (res matches Ok(out2) ==> (if out2.0 is None {
                        r matches Err(e) && e.errorkind == ErrorKind::SyntaxError
                    } else {
                        let np = out2.0->0;
                        (r matches Ok(o) && (o matches Some(x) && view_proto(*x.prototype).0
                            == np.0 && view_proto(*x.prototype).1 == np.1)) && st == out2.1
                    }))
                }))
                &&& ((r matches Ok(o) && o is Some) ==> pst_measure(st) < pst_measure(st0))
                &&& (r is Ok ==> pst_measure(st) <= pst_measure(st0))
            }),
    {
        let ghost st0 = old(self).pst(*old(tokenizer), *old(stream));
        proof {
            lemma_peek_measure(st0);
        }
        match self.fill(stream, tokenizer) {
            Ok(()) => {},
            Err(e) => {
                return Err(e);
            },
        }
        let is_kw = match &self.current_token {
            Some(t) => match t.token_kind {
                TokenKind::Keyword(k) => matches!(k, Keyword::Extern),
                _ => false,
            },
            None => false,
        };
        if !is_kw {
            return Ok(None);
        }
        let kw_token = match self.current_token.take() {
            Some(t) => t,
            None => {
                return Err(
                    Error::new(
                        String::from_str("the look-ahead vanished"),
                        ErrorKind::Other,
                        None,
                    ),
                );
            },
        };
        let prototype = match self.parse_function_prototype(stream, tokenizer) {
            Ok(Some(p)) => p,
            Ok(None) => {
                return Err(
                    Error::new(
                        String::from_str("no function prototype after the declaration keyword"),
                        ErrorKind::SyntaxError,
                        Some(kw_token.start),
                    ),
                );
            },
            Err(e) => {
                return Err(e);
            },
        };
        Ok(Some(Box::new(ExternFunctionNode::new(prototype))))
    }
}

} // verus!
