//! The expression grammar as specification functions over the parser state,
//! one per parsing routine and mirroring it exactly. Recursion is paid for
//! with fuel: `None` reports that the fuel ran out before the parse
//! finished, and [`lemma_parse_fuel_monotone`] shows that once any fuel
//! suffices the outcome no longer depends on it — so "some fuel yields this
//! outcome" determines the outcome.

use vstd::prelude::*;

use crate::ast::view::{ExprView, NodeView};
use crate::token::bracket::Bracket;
use crate::token::tokenkind::TokenKind;
use super::error::ErrorKind;
use super::precedence::{spec_level, spec_precedence_of, BinaryOperatorPrecedence};
use super::spec::{
    pst_measure, spec_bump, spec_cancels_out, spec_denotes_end, spec_left_round,
    spec_parse_prototype, spec_peek, ParserState,
};
use crate::numbers::spec_int_of;

verus! {

/// The outcome of parsing one optional expression: the expression found, if
/// one opens here, and the state left; or the error the tokens run into.
pub type ExprOutcome = Option<Result<(Option<ExprView>, ParserState), ErrorKind>>;

/// The outcome of the binary-operator climb: the tree built and the state
/// left, or the error the tokens run into.
pub type ClimbOutcome = Option<Result<(ExprView, ParserState), ErrorKind>>;

/// The outcome of parsing an optional bracketed expression list.
pub type ListOutcome = Option<Result<(Option<Seq<ExprView>>, ParserState), ErrorKind>>;

/// What parsing a primary expression yields: an integer, a float, a
/// bracketed expression, a call or a variable, chosen by the next token; a
/// token that opens none of these is left in place.
pub open spec fn spec_parse_primary(fuel: nat, st: ParserState) -> ExprOutcome
    decreases fuel,
{
    if fuel == 0 {
        None
    } else {
        match spec_peek(st) {
            None => Some(Err(ErrorKind::LexerError)),
            Some((k, sp, st1)) => {
                match k {
                    TokenKind::Integer => if spec_int_of(sp) <= i128::MAX {
                        Some(Ok((Some(ExprView::Integer(spec_int_of(sp))), spec_bump(st1))))
                    } else {
                        Some(Err(ErrorKind::ParsingError))
                    },
                    TokenKind::Float => Some(Ok((Some(ExprView::FloatLit(sp)), spec_bump(st1)))),
                    TokenKind::Bracket(b) => if b == spec_left_round() {
                        spec_parse_round_bracket((fuel - 1) as nat, st1)
                    } else {
                        Some(Ok((None, st1)))
                    },
                    TokenKind::Identifier => spec_parse_call((fuel - 1) as nat, st1),
                    _ => Some(Ok((None, st1))),
                }
            },
        }
    }
}

/// What parsing a bracketed expression yields: between a left round bracket
/// and its cancelling right one, the inner expression, returned unwrapped.
pub open spec fn spec_parse_round_bracket(fuel: nat, st: ParserState) -> ExprOutcome
    decreases fuel,
{
    if fuel == 0 {
        None
    } else {
        match spec_peek(st) {
            None => Some(Err(ErrorKind::LexerError)),
            Some((k, _, st1)) => {
                if !(k matches TokenKind::Bracket(b) && b == spec_left_round()) {
                    Some(Ok((None, st1)))
                } else {
                    match spec_parse_expression((fuel - 1) as nat, spec_bump(st1)) {
                        None => None,
                        Some(Err(e)) => Some(Err(e)),
                        Some(Ok((None, _))) => Some(Err(ErrorKind::SyntaxError)),
                        Some(Ok((Some(v), st2))) => {
                            match spec_peek(st2) {
                                None => Some(Err(ErrorKind::LexerError)),
                                Some((k2, _, st3)) => {
                                    if k2 matches TokenKind::Bracket(b2) && spec_cancels_out(
                                        spec_left_round(),
                                        b2,
                                    ) {
                                        Some(Ok((Some(v), spec_bump(st3))))
                                    } else {
                                        Some(Err(ErrorKind::SyntaxError))
                                    }
                                },
                            }
                        },
                    }
                }
            },
        }
    }
}

/// What parsing a call-or-variable yields: an identifier followed by a left
/// round bracket opens a call on a comma-separated argument list; an
/// identifier followed by anything else is a variable.
pub open spec fn spec_parse_call(fuel: nat, st: ParserState) -> ExprOutcome
    decreases fuel,
{
    if fuel == 0 {
        None
    } else {
        match spec_peek(st) {
            None => Some(Err(ErrorKind::LexerError)),
            Some((k, name, st1)) => {
                if !(k is Identifier) {
                    Some(Ok((None, st1)))
                } else {
                    match spec_peek(spec_bump(st1)) {
                        None => Some(Err(ErrorKind::LexerError)),
                        Some((k2, _, st3)) => {
                            if !(k2 matches TokenKind::Bracket(b) && b == spec_left_round()) {
                                Some(Ok((Some(ExprView::Variable(name)), st3)))
                            } else {
                                match spec_parse_comma_list(
                                    (fuel - 1) as nat,
                                    st3,
                                    spec_left_round(),
                                ) {
                                    None => None,
                                    Some(Err(e)) => Some(Err(e)),
                                    Some(Ok((None, _))) => Some(Err(ErrorKind::SyntaxError)),
                                    Some(Ok((Some(args), st4))) => Some(
                                        Ok((Some(ExprView::Call(name, args)), st4)),
                                    ),
                                }
                            }
                        },
                    }
                }
            },
        }
    }
}

/// What parsing a bracketed comma-separated expression list yields: nothing
/// if the next token is not the expected left bracket; otherwise the
/// expressions in source order, the empty list included, with both brackets
/// consumed.
pub open spec fn spec_parse_comma_list(fuel: nat, st: ParserState, left: Bracket) -> ListOutcome
    decreases fuel,
{
    if fuel == 0 {
        None
    } else {
        match spec_peek(st) {
            None => Some(Err(ErrorKind::LexerError)),
            Some((k, _, st1)) => {
                if !(k matches TokenKind::Bracket(b) && b == left) {
                    Some(Ok((None, st1)))
                } else {
                    spec_comma_rest((fuel - 1) as nat, spec_bump(st1), Seq::empty(), left, false)
                }
            },
        }
    }
}

/// The remainder of an expression list: entries already collected in `acc`,
/// extended one expression at a time until the cancelling right bracket.
/// `after_comma` tells whether this position was entered through a comma: a
/// comma must be preceded by an expression, a trailing comma before the
/// closing bracket is a syntax error, and the empty list is valid only
/// directly after the opening bracket. Any token other than a comma or the
/// cancelling bracket after an entry is out of place.
pub open spec fn spec_comma_rest(
    fuel: nat,
    st: ParserState,
    acc: Seq<ExprView>,
    left: Bracket,
    after_comma: bool,
) -> ListOutcome
    decreases fuel,
{
    if fuel == 0 {
        None
    } else {
        match spec_parse_expression((fuel - 1) as nat, st) {
            None => None,
            Some(Err(e)) => Some(Err(e)),
            Some(Ok((eopt, st2))) => {
                match spec_peek(st2) {
                    None => Some(Err(ErrorKind::LexerError)),
                    Some((k, _, st3)) => {
                        match k {
                            TokenKind::Comma => {
                                match eopt {
                                    None => Some(Err(ErrorKind::SyntaxError)),
                                    Some(v) => spec_comma_rest(
                                        (fuel - 1) as nat,
                                        spec_bump(st3),
                                        acc.push(v),
                                        left,
                                        true,
                                    ),
                                }
                            },
                            TokenKind::Bracket(b) => if spec_cancels_out(left, b) {
                                match eopt {
                                    Some(v) => Some(Ok((Some(acc.push(v)), spec_bump(st3)))),
                                    None => if after_comma {
                                        Some(Err(ErrorKind::SyntaxError))
                                    } else {
                                        Some(Ok((Some(acc), spec_bump(st3))))
                                    },
                                }
                            } else {
                                Some(Err(ErrorKind::SyntaxError))
                            },
                            _ => Some(Err(ErrorKind::SyntaxError)),
                        }
                    },
                }
            },
        }
    }
}

/// What the precedence climb yields: operators that bind less tightly than
/// the minimum are left for the caller; an operator binding more tightly
/// than the current one pulls the right-hand side into a deeper climb;
/// otherwise the tree grows to the left, so equal precedences associate to
/// the left.
pub open spec fn spec_climb(
    fuel: nat,
    st: ParserState,
    lhs: ExprView,
    min: BinaryOperatorPrecedence,
) -> ClimbOutcome
    decreases fuel,
{
    if fuel == 0 {
        None
    } else {
        match spec_peek(st) {
            None => Some(Err(ErrorKind::LexerError)),
            Some((k, _, st1)) => {
                match k {
                    TokenKind::Operator(op) => {
                        let p = spec_precedence_of(op);
                        if spec_level(p) < spec_level(min) {
                            Some(Ok((lhs, st1)))
                        } else {
                            match spec_parse_primary((fuel - 1) as nat, spec_bump(st1)) {
                                None => None,
                                Some(Err(e)) => Some(Err(e)),
                                Some(Ok((None, _))) => Some(Err(ErrorKind::SyntaxError)),
                                Some(Ok((Some(rhs), st2))) => {
                                    match spec_peek(st2) {
                                        None => Some(Err(ErrorKind::LexerError)),
                                        Some((k2, _, st3)) => {
                                            if k2 matches TokenKind::Operator(op2) && spec_level(
                                                p,
                                            ) < spec_level(spec_precedence_of(op2)) {
                                                match spec_climb(
                                                    (fuel - 1) as nat,
                                                    st3,
                                                    rhs,
                                                    spec_precedence_of(k2->Operator_0),
                                                ) {
                                                    None => None,
                                                    Some(Err(e)) => Some(Err(e)),
                                                    Some(Ok((rhs2, st4))) => spec_climb(
                                                        (fuel - 1) as nat,
                                                        st4,
                                                        ExprView::Binary(
                                                            op,
                                                            Box::new(lhs),
                                                            Box::new(rhs2),
                                                        ),
                                                        min,
                                                    ),
                                                }
                                            } else {
                                                spec_climb(
                                                    (fuel - 1) as nat,
                                                    st3,
                                                    ExprView::Binary(
                                                        op,
                                                        Box::new(lhs),
                                                        Box::new(rhs),
                                                    ),
                                                    min,
                                                )
                                            }
                                        },
                                    }
                                },
                            }
                        }
                    },
                    _ => Some(Ok((lhs, st1))),
                }
            },
        }
    }
}

/// What parsing an expression yields: a primary continued by the climb, and
/// then the next token must be one that may follow an expression — a
/// separator or closer a surrounding construct consumes, a semicolon, or
/// the end of the input — which stays buffered.
pub open spec fn spec_parse_expression(fuel: nat, st: ParserState) -> ExprOutcome
    decreases fuel,
{
    if fuel == 0 {
        None
    } else {
        match spec_parse_primary((fuel - 1) as nat, st) {
            None => None,
            Some(Err(e)) => Some(Err(e)),
            Some(Ok((None, st1))) => spec_expression_end(None, st1),
            Some(Ok((Some(l), st1))) => {
                match spec_climb((fuel - 1) as nat, st1, l, BinaryOperatorPrecedence::Unknown) {
                    None => None,
                    Some(Err(e)) => Some(Err(e)),
                    Some(Ok((v, st2))) => spec_expression_end(Some(v), st2),
                }
            },
        }
    }
}

/// The termination check of an expression: the next token must be able to
/// follow an expression, and stays buffered.
pub open spec fn spec_expression_end(res: Option<ExprView>, st: ParserState) -> ExprOutcome {
    match spec_peek(st) {
        None => Some(Err(ErrorKind::LexerError)),
        Some((k, _, st1)) => if spec_denotes_end(k) {
            Some(Ok((res, st1)))
        } else {
            Some(Err(ErrorKind::SyntaxError))
        },
    }
}

/// What parsing a top-level expression yields: an expression, with the
/// stricter termination of a top-level form — only a semicolon or the end
/// of the input may follow it.
pub open spec fn spec_parse_top_level(fuel: nat, st: ParserState) -> ExprOutcome
    decreases fuel,
{
    if fuel == 0 {
        None
    } else {
        match spec_parse_expression((fuel - 1) as nat, st) {
            None => None,
            Some(Err(e)) => Some(Err(e)),
            Some(Ok((res, st1))) => {
                match spec_peek(st1) {
                    None => Some(Err(ErrorKind::LexerError)),
                    Some((k, _, st2)) => if k is Semicolon || k is Eof {
                        Some(Ok((res, st2)))
                    } else {
                        Some(Err(ErrorKind::SyntaxError))
                    },
                }
            },
        }
    }
}

/// Leading semicolons, left over from earlier statements, are skipped
/// before a top-level form is parsed.
pub open spec fn spec_skip_semicolons(st: ParserState) -> Result<ParserState, ErrorKind>
    decreases pst_measure(st),
{
    match spec_peek(st) {
        None => Err(ErrorKind::LexerError),
        Some((k, _, st1)) => {
            if k is Semicolon {
                if pst_measure(spec_bump(st1)) < pst_measure(st) {
                    spec_skip_semicolons(spec_bump(st1))
                } else {
                    // Never reached: a semicolon token stands for input.
                    Err(ErrorKind::Other)
                }
            } else {
                Ok(st1)
            }
        },
    }
}

/// What parsing one top-level construct yields: after leftover semicolons,
/// the leading token routes the form — the end of the input closes the
/// session, the external-declaration keyword opens a declaration, the
/// function-definition keyword opens a definition, and anything else must
/// be a top-level expression. Nothing is swallowed: a token that opens no
/// construct is an error.
pub open spec fn spec_parse_one(fuel: nat, st: ParserState) -> Option<
    Result<(Option<NodeView>, ParserState), ErrorKind>,
>
    decreases fuel,
{
    if fuel == 0 {
        None
    } else {
        match spec_skip_semicolons(st) {
            Err(e) => Some(Err(e)),
            Ok(st0) => {
                match spec_peek(st0) {
                    None => Some(Err(ErrorKind::LexerError)),
                    Some((k, _, st1)) => {
                        if k is Eof {
                            Some(Ok((None, st1)))
                        } else if k matches TokenKind::Keyword(kw) && kw is Extern {
                            match spec_parse_prototype(spec_bump(st1)) {
                                Err(e) => Some(Err(e)),
                                Ok((None, _)) => Some(Err(ErrorKind::SyntaxError)),
                                Ok((Some(np), st2)) => Some(
                                    Ok((Some(NodeView::ExternFunction(np.0, np.1)), st2)),
                                ),
                            }
                        } else if k matches TokenKind::Keyword(kw) && kw is Def {
                            match spec_parse_prototype(st1) {
                                Err(e) => Some(Err(e)),
                                Ok((None, _)) => Some(Err(ErrorKind::SyntaxError)),
                                Ok((Some(np), st2)) => {
                                    match spec_parse_expression((fuel - 1) as nat, st2) {
                                        None => None,
                                        Some(Err(e)) => Some(Err(e)),
                                        Some(Ok((None, _))) => Some(Err(ErrorKind::SyntaxError)),
                                        Some(Ok((Some(b), st3))) => Some(
                                            Ok(
                                                (
                                                    Some(NodeView::Function(np.0, np.1, b)),
                                                    st3,
                                                ),
                                            ),
                                        ),
                                    }
                                },
                            }
                        } else {
                            match spec_parse_top_level((fuel - 1) as nat, st1) {
                                None => None,
                                Some(Err(e)) => Some(Err(e)),
                                Some(Ok((None, _))) => Some(Err(ErrorKind::SyntaxError)),
                                Some(Ok((Some(v), st2))) => Some(
                                    Ok((Some(NodeView::Expr(v)), st2)),
                                ),
                            }
                        }
                    },
                }
            },
        }
    }
}

/// How a whole session runs: top-level forms are parsed until the input is
/// exhausted or an error stops the session; the count of forms and the
/// error, if one, are reported.
pub open spec fn spec_session(fuel: nat, st: ParserState) -> Option<(int, Option<ErrorKind>)>
    decreases fuel,
{
    if fuel == 0 {
        None
    } else {
        match spec_parse_one((fuel - 1) as nat, st) {
            None => None,
            Some(Err(e)) => Some((0, Some(e))),
            Some(Ok((None, _))) => Some((0, None)),
            Some(Ok((Some(_), st1))) => {
                match spec_session((fuel - 1) as nat, st1) {
                    None => None,
                    Some((n, e)) => Some((n + 1, e)),
                }
            },
        }
    }
}

/// Once some fuel suffices for a parse, more fuel does not change the
/// outcome: the outcome "some fuel yields this" is deterministic.
pub proof fn lemma_parse_fuel_monotone(f1: nat, f2: nat, st: ParserState)
    requires
        f1 <= f2,
    ensures
        spec_parse_primary(f1, st) is Some ==> spec_parse_primary(f2, st) == spec_parse_primary(
            f1,
            st,
        ),
        spec_parse_round_bracket(f1, st) is Some ==> spec_parse_round_bracket(f2, st)
            == spec_parse_round_bracket(f1, st),
        spec_parse_call(f1, st) is Some ==> spec_parse_call(f2, st) == spec_parse_call(f1, st),
        spec_parse_expression(f1, st) is Some ==> spec_parse_expression(f2, st)
            == spec_parse_expression(f1, st),
        spec_parse_top_level(f1, st) is Some ==> spec_parse_top_level(f2, st)
            == spec_parse_top_level(f1, st),
    decreases f1,
{
    if f1 > 0 {
        match spec_peek(st) {
            None => {},
            Some((k, sp, st1)) => {
                lemma_parse_fuel_monotone((f1 - 1) as nat, (f2 - 1) as nat, st);
                lemma_parse_fuel_monotone((f1 - 1) as nat, (f2 - 1) as nat, st1);
                lemma_parse_fuel_monotone((f1 - 1) as nat, (f2 - 1) as nat, spec_bump(st1));
            },
        }
        // The bracketed case peeks again behind the inner expression.
        if spec_parse_round_bracket(f1, st) is Some {
            match spec_peek(st) {
                None => {},
                Some((k, _, st1)) => {
                    if k matches TokenKind::Bracket(b) && b == spec_left_round() {
                        match spec_parse_expression((f1 - 1) as nat, spec_bump(st1)) {
                            Some(Ok((Some(v), st2))) => {},
                            _ => {},
                        }
                    }
                },
            }
        }
        if spec_parse_call(f1, st) is Some {
            match spec_peek(st) {
                None => {},
                Some((k, name, st1)) => {
                    if k is Identifier {
                        match spec_peek(spec_bump(st1)) {
                            None => {},
                            Some((k2, _, st3)) => {
                                lemma_comma_fuel_monotone(
                                    (f1 - 1) as nat,
                                    (f2 - 1) as nat,
                                    st3,
                                    spec_left_round(),
                                );
                            },
                        }
                    }
                },
            }
        }
        if spec_parse_expression(f1, st) is Some {
            match spec_parse_primary((f1 - 1) as nat, st) {
                Some(Ok((Some(l), st1))) => {
                    lemma_climb_fuel_monotone(
                        (f1 - 1) as nat,
                        (f2 - 1) as nat,
                        st1,
                        l,
                        BinaryOperatorPrecedence::Unknown,
                    );
                },
                _ => {},
            }
        }
    }
}

/// Fuel-monotonicity for the expression-list specifications.
pub proof fn lemma_comma_fuel_monotone(f1: nat, f2: nat, st: ParserState, left: Bracket)
    requires
        f1 <= f2,
    ensures
        spec_parse_comma_list(f1, st, left) is Some ==> spec_parse_comma_list(f2, st, left)
            == spec_parse_comma_list(f1, st, left),
    decreases f1,
{
    if f1 > 0 && spec_parse_comma_list(f1, st, left) is Some {
        match spec_peek(st) {
            None => {},
            Some((k, _, st1)) => {
                if k matches TokenKind::Bracket(b) && b == left {
                    lemma_comma_rest_fuel_monotone(
                        (f1 - 1) as nat,
                        (f2 - 1) as nat,
                        spec_bump(st1),
                        Seq::empty(),
                        left,
                        false,
                    );
                }
            },
        }
    }
}

/// Fuel-monotonicity for the remainder of an expression list.
pub proof fn lemma_comma_rest_fuel_monotone(
    f1: nat,
    f2: nat,
    st: ParserState,
    acc: Seq<ExprView>,
    left: Bracket,
    after_comma: bool,
)
    requires
        f1 <= f2,
    ensures
        spec_comma_rest(f1, st, acc, left, after_comma) is Some ==> spec_comma_rest(
            f2,
            st,
            acc,
            left,
            after_comma,
        ) == spec_comma_rest(f1, st, acc, left, after_comma),
    decreases f1,
{
    if f1 > 0 && spec_comma_rest(f1, st, acc, left, after_comma) is Some {
        lemma_parse_fuel_monotone((f1 - 1) as nat, (f2 - 1) as nat, st);
        match spec_parse_expression((f1 - 1) as nat, st) {
            Some(Ok((eopt, st2))) => {
                match spec_peek(st2) {
                    None => {},
                    Some((k, _, st3)) => {
                        if k is Comma {
                            match eopt {
                                Some(v) => {
                                    lemma_comma_rest_fuel_monotone(
                                        (f1 - 1) as nat,
                                        (f2 - 1) as nat,
                                        spec_bump(st3),
                                        acc.push(v),
                                        left,
                                        true,
                                    );
                                },
                                None => {},
                            }
                        }
                    },
                }
            },
            _ => {},
        }
    }
}

/// Fuel-monotonicity for the precedence climb.
pub proof fn lemma_climb_fuel_monotone(
    f1: nat,
    f2: nat,
    st: ParserState,
    lhs: ExprView,
    min: BinaryOperatorPrecedence,
)
    requires
        f1 <= f2,
    ensures
        spec_climb(f1, st, lhs, min) is Some ==> spec_climb(f2, st, lhs, min) == spec_climb(
            f1,
            st,
            lhs,
            min,
        ),
    decreases f1,
{
    if f1 > 0 && spec_climb(f1, st, lhs, min) is Some {
        match spec_peek(st) {
            None => {},
            Some((k, _, st1)) => {
                match k {
                    TokenKind::Operator(op) => {
                        let p = spec_precedence_of(op);
                        if !(spec_level(p) < spec_level(min)) {
                            lemma_parse_fuel_monotone(
                                (f1 - 1) as nat,
                                (f2 - 1) as nat,
                                spec_bump(st1),
                            );
                            match spec_parse_primary((f1 - 1) as nat, spec_bump(st1)) {
                                Some(Ok((Some(rhs), st2))) => {
                                    match spec_peek(st2) {
                                        None => {},
                                        Some((k2, _, st3)) => {
                                            if k2 matches TokenKind::Operator(op2) && spec_level(
                                                p,
                                            ) < spec_level(spec_precedence_of(op2)) {
                                                lemma_climb_fuel_monotone(
                                                    (f1 - 1) as nat,
                                                    (f2 - 1) as nat,
                                                    st3,
                                                    rhs,
                                                    spec_precedence_of(k2->Operator_0),
                                                );
                                                match spec_climb(
                                                    (f1 - 1) as nat,
                                                    st3,
                                                    rhs,
                                                    spec_precedence_of(k2->Operator_0),
                                                ) {
                                                    Some(Ok((rhs2, st4))) => {
                                                        lemma_climb_fuel_monotone(
                                                            (f1 - 1) as nat,
                                                            (f2 - 1) as nat,
                                                            st4,
                                                            ExprView::Binary(
                                                                op,
                                                                Box::new(lhs),
                                                                Box::new(rhs2),
                                                            ),
                                                            min,
                                                        );
                                                    },
                                                    _ => {},
                                                }
                                            } else {
                                                lemma_climb_fuel_monotone(
                                                    (f1 - 1) as nat,
                                                    (f2 - 1) as nat,
                                                    st3,
                                                    ExprView::Binary(
                                                        op,
                                                        Box::new(lhs),
                                                        Box::new(rhs),
                                                    ),
                                                    min,
                                                );
                                            }
                                        },
                                    }
                                },
                                _ => {},
                            }
                        }
                    },
                    _ => {},
                }
            },
        }
    }
}

/// Fuel-monotonicity for parsing one top-level construct and for a whole
/// session.
pub proof fn lemma_parse_one_fuel_monotone(f1: nat, f2: nat, st: ParserState)
    requires
        f1 <= f2,
    ensures
        spec_parse_one(f1, st) is Some ==> spec_parse_one(f2, st) == spec_parse_one(f1, st),
        spec_session(f1, st) is Some ==> spec_session(f2, st) == spec_session(f1, st),
    decreases f1,
{
    if f1 > 0 {
        if spec_parse_one(f1, st) is Some {
            match spec_skip_semicolons(st) {
                Err(_) => {},
                Ok(st0) => {
                    match spec_peek(st0) {
                        None => {},
                        Some((k, _, st1)) => {
                            if k matches TokenKind::Keyword(kw) && kw is Def {
                                match spec_parse_prototype(st1) {
                                    Ok((Some(np), st2)) => {
                                        lemma_parse_fuel_monotone(
                                            (f1 - 1) as nat,
                                            (f2 - 1) as nat,
                                            st2,
                                        );
                                    },
                                    _ => {},
                                }
                            } else {
                                lemma_parse_fuel_monotone((f1 - 1) as nat, (f2 - 1) as nat, st1);
                            }
                        },
                    }
                },
            }
        }
        if spec_session(f1, st) is Some {
            lemma_parse_one_fuel_monotone((f1 - 1) as nat, (f2 - 1) as nat, st);
            match spec_parse_one((f1 - 1) as nat, st) {
                Some(Ok((Some(_), st1))) => {
                    lemma_parse_one_fuel_monotone((f1 - 1) as nat, (f2 - 1) as nat, st1);
                },
                _ => {},
            }
        }
    }
}

} // verus!
