//! The round-trip law for function prototypes: displaying a well-formed
//! prototype and parsing the text back yields the same prototype. Together
//! with the parser's refinement contracts this gives
//! `display(parse(s)) == s` for prototype text in display form.

use vstd::prelude::*;

use crate::ast::display::{spec_display_names, spec_display_names_rest, spec_display_proto};
use crate::chars;
use crate::lexer::laws::spec_identifier_shape;
use crate::lexer::tokenizer::{spec_lex_from, spec_next_token};
use crate::token::bracket::{spec_bracket_of, Bracket, BracketKind, BracketSide};
use crate::token::keyword::{spec_keyword_chars, spec_keyword_of, Keyword};
use crate::token::token::{spec_add_unit, spec_resolve, LexStep};
use crate::token::tokenkind::TokenKind;
use crate::lexer::error::ErrorKind as LexErrorKind;
use super::error::ErrorKind;
use crate::ast::view::ExprView;
use crate::token::operator::Operator;
use super::grammar::spec_climb;
use super::precedence::{spec_level, spec_precedence_of, BinaryOperatorPrecedence};
use super::spec::{
    lemma_peek_measure, pst_measure, spec_bump, spec_parse_params, spec_parse_prototype,
    spec_peek, ParserState,
};
use crate::numbers::spec_int_of;

verus! {

/// An identifier character is never whitespace and never opens a comment.
proof fn lemma_identifier_char_significant(c: char)
    requires
        chars::spec_is_identifier(c),
    ensures
        !chars::spec_is_whitespace(c),
        !chars::spec_is_comment(c),
{
}

/// Collecting an identifier: from a partial identifier token, the machine
/// takes every identifier character of `tail` and closes the token at
/// `rest`, whose first character can extend no identifier.
proof fn lemma_lex_identifier_run(span: Seq<char>, tail: Seq<char>, rest: Seq<char>)
    requires
        span.len() > 0,
        forall|i: int| 0 <= i < tail.len() ==> chars::spec_is_identifier(#[trigger] tail[i]),
        rest.len() > 0 ==> !chars::spec_is_identifier(rest[0]) && !chars::spec_is_comment(rest[0]),
    ensures
        spec_lex_from(TokenKind::Identifier, span, false, tail + rest) == (match spec_resolve(
            TokenKind::Identifier,
            span + tail,
        ) {
            Ok(k2) => Ok::<(TokenKind, Seq<char>, Seq<char>), LexErrorKind>((k2, span + tail, rest)),
            Err(ek) => Err(ek),
        }),
    decreases tail.len(),
{
    if tail.len() == 0 {
        assert(tail + rest =~= rest);
        assert(span + tail =~= span);
        if rest.len() == 0 {
        } else {
            let u = rest[0];
            if chars::spec_is_whitespace(u) {
            } else {
                assert(spec_add_unit(TokenKind::Identifier, span, u) is Stop);
            }
        }
    } else {
        let u = tail[0];
        assert((tail + rest)[0] == u);
        lemma_identifier_char_significant(u);
        assert(spec_add_unit(TokenKind::Identifier, span, u) == LexStep::Grow(
            TokenKind::Identifier,
            span.push(u),
        ));
        assert((tail + rest).drop_first() =~= tail.drop_first() + rest);
        assert(forall|i: int|
            0 <= i < tail.drop_first().len() ==> chars::spec_is_identifier(
                #[trigger] tail.drop_first()[i],
            ));
        lemma_lex_identifier_run(span.push(u), tail.drop_first(), rest);
        assert(span.push(u) + tail.drop_first() =~= span + tail);
    }
}

/// Lexing a whole identifier: the name is collected and classified against
/// the keyword table, and the terminating character stays pending.
proof fn lemma_lex_identifier(name: Seq<char>, rest: Seq<char>)
    requires
        spec_identifier_shape(name),
        rest.len() > 0 ==> !chars::spec_is_identifier(rest[0]) && !chars::spec_is_comment(rest[0]),
    ensures
        spec_next_token(name + rest) == (match spec_keyword_of(name) {
            Some(k) => Ok::<(TokenKind, Seq<char>, Seq<char>), LexErrorKind>(
                (TokenKind::Keyword(k), name, rest),
            ),
            None => Ok((TokenKind::Identifier, name, rest)),
        }),
{
    let s = name + rest;
    let u = s[0];
    assert(u == name[0]);
    lemma_identifier_char_significant(u);
    assert(chars::spec_is_identifier_start(u));
    assert(spec_add_unit(TokenKind::Unknown, Seq::empty(), u) == LexStep::Grow(
        TokenKind::Identifier,
        seq![u],
    ));
    assert(s.drop_first() =~= name.drop_first() + rest);
    assert(forall|i: int|
        0 <= i < name.drop_first().len() ==> chars::spec_is_identifier(
            #[trigger] name.drop_first()[i],
        ));
    lemma_lex_identifier_run(seq![u], name.drop_first(), rest);
    assert(seq![u] + name.drop_first() =~= name);
}

/// Lexing a bracket: the bracket is its own token, whatever follows.
proof fn lemma_lex_bracket(c: char, rest: Seq<char>)
    requires
        chars::spec_is_bracket(c),
        !chars::spec_is_opchar(c),
        rest.len() > 0 ==> !chars::spec_is_comment(rest[0]),
    ensures
        spec_next_token(seq![c] + rest) == Ok::<(TokenKind, Seq<char>, Seq<char>), LexErrorKind>(
            (TokenKind::Bracket(spec_bracket_of(seq![c])), seq![c], rest),
        ),
{
    let s = seq![c] + rest;
    assert(s[0] == c);
    assert(!chars::spec_is_whitespace(c));
    assert(!chars::spec_is_identifier_start(c));
    assert(!chars::spec_is_decimal_digit(c));
    assert(spec_add_unit(TokenKind::Unknown, Seq::empty(), c) == LexStep::Grow(
        TokenKind::Bracket(spec_bracket_of(seq![c])),
        seq![c],
    ));
    assert(s.drop_first() =~= rest);
    assert(!(spec_bracket_of(seq![c]).kind is Unknown));
    if rest.len() == 0 {
    } else {
        let u = rest[0];
        if chars::spec_is_whitespace(u) {
        } else {
            assert(spec_add_unit(TokenKind::Bracket(spec_bracket_of(seq![c])), seq![c], u)
                is Stop);
        }
    }
    assert(spec_lex_from(TokenKind::Bracket(spec_bracket_of(seq![c])), seq![c], false, rest)
        == Ok::<(TokenKind, Seq<char>, Seq<char>), LexErrorKind>(
        (TokenKind::Bracket(spec_bracket_of(seq![c])), seq![c], rest),
    ));
}

/// Lexing a comma: the comma is its own token, whatever follows.
proof fn lemma_lex_comma(rest: Seq<char>)
    requires
        rest.len() > 0 ==> !chars::spec_is_comment(rest[0]),
    ensures
        spec_next_token(seq![','] + rest) == Ok::<(TokenKind, Seq<char>, Seq<char>), LexErrorKind>(
            (TokenKind::Comma, seq![','], rest),
        ),
{
    let s = seq![','] + rest;
    assert(s[0] == ',');
    assert(spec_add_unit(TokenKind::Unknown, Seq::empty(), ',') == LexStep::Grow(
        TokenKind::Comma,
        seq![','],
    ));
    assert(s.drop_first() =~= rest);
    if rest.len() == 0 {
    } else {
        let u = rest[0];
        if chars::spec_is_whitespace(u) {
        } else {
            assert(spec_add_unit(TokenKind::Comma, seq![','], u) is Stop);
        }
    }
    assert(spec_lex_from(TokenKind::Comma, seq![','], false, rest) == Ok::<
        (TokenKind, Seq<char>, Seq<char>),
        LexErrorKind,
    >((TokenKind::Comma, seq![','], rest)));
}

/// Leading whitespace is skipped.
proof fn lemma_lex_skip_ws(c: char, rest: Seq<char>)
    requires
        chars::spec_is_whitespace(c),
    ensures
        spec_next_token(seq![c] + rest) == spec_next_token(rest),
{
    let s = seq![c] + rest;
    assert(s[0] == c);
    assert(spec_add_unit(TokenKind::Unknown, Seq::empty(), c) == LexStep::Grow(
        TokenKind::Unknown,
        Seq::empty(),
    ));
    assert(s.drop_first() =~= rest);
}

/// Leading whitespace is invisible to the parameter parser.
proof fn lemma_parse_params_skip_ws(c: char, rest: Seq<char>, acc: Seq<Seq<char>>)
    requires
        chars::spec_is_whitespace(c),
    ensures
        spec_parse_params(ParserState { buf: None, pending: seq![c] + rest }, acc)
            == spec_parse_params(ParserState { buf: None, pending: rest }, acc),
{
    lemma_lex_skip_ws(c, rest);
    let a = ParserState { buf: None, pending: seq![c] + rest };
    let b = ParserState { buf: None, pending: rest };
    assert(spec_peek(a) == spec_peek(b));
    match spec_peek(b) {
        None => {},
        Some((k, sp, st1)) => {
            if k is Identifier {
                lemma_peek_measure(b);
                lemma_peek_measure(a);
                let st2 = spec_bump(st1);
                match spec_peek(st2) {
                    None => {},
                    Some((k2, sp2, st3)) => {
                        if k2 is Comma {
                            lemma_peek_measure(st2);
                            assert(pst_measure(spec_bump(st3)) < pst_measure(b));
                            assert(pst_measure(spec_bump(st3)) < pst_measure(a));
                        }
                    },
                }
            }
        },
    }
}

/// A parameter name never opens with a comment or identifier continuation:
/// what the display of a parameter list opens with is significant.
proof fn lemma_display_names_head(params: Seq<Seq<char>>)
    requires
        params.len() > 0,
        spec_identifier_shape(params[0]),
    ensures
        (spec_display_names(params) + seq![')'])[0] == params[0][0],
{
    assert(spec_display_names(params) == params.first() + spec_display_names_rest(
        params.drop_first(),
    ));
    assert((spec_display_names(params) + seq![')'])[0] == params[0][0]);
}

/// Parsing the display of a parameter list, followed by the closing round
/// bracket, collects exactly those names and consumes everything.
proof fn lemma_parse_params_display(params: Seq<Seq<char>>, acc: Seq<Seq<char>>)
    requires
        forall|i: int|
            0 <= i < params.len() ==> spec_identifier_shape(#[trigger] params[i])
                && spec_keyword_of(params[i]) is None,
    ensures
        spec_parse_params(
            ParserState { buf: None, pending: spec_display_names(params) + seq![')'] },
            acc,
        ) == Ok::<(Seq<Seq<char>>, ParserState), ErrorKind>(
            (acc + params, ParserState { buf: None, pending: Seq::empty() }),
        ),
    decreases params.len(),
{
    let close = seq![')'];
    if params.len() == 0 {
        assert(spec_display_names(params) + close =~= seq![')'] + Seq::<char>::empty());
        lemma_lex_bracket(')', Seq::empty());
        let st = ParserState { buf: None, pending: spec_display_names(params) + close };
        let b = spec_bracket_of(seq![')']);
        assert(b == (Bracket { kind: BracketKind::Round, side: BracketSide::Right }));
        assert(spec_parse_params(st, acc) matches Ok(out) && out.0 == acc && out.1 == (ParserState {
            buf: None,
            pending: Seq::<char>::empty(),
        }));
        assert(acc + params =~= acc);
    } else {
        let p = params[0];
        let tail = params.drop_first();
        if tail.len() == 0 {
            assert(spec_display_names(params) =~= p);
            assert(spec_display_names(params) + close =~= p + close);
            lemma_lex_identifier(p, close);
            let st = ParserState { buf: None, pending: p + close };
            let st2 = ParserState { buf: None, pending: close };
            assert(close =~= seq![')'] + Seq::<char>::empty());
            lemma_lex_bracket(')', Seq::empty());
            let b = spec_bracket_of(seq![')']);
            assert(b == (Bracket { kind: BracketKind::Round, side: BracketSide::Right }));
            assert(spec_parse_params(st, acc) matches Ok(out) && out.0 == acc.push(p) && out.1
                == (ParserState { buf: None, pending: Seq::<char>::empty() }));
            assert(acc + params =~= acc.push(p));
        } else {
            // "p, " then the rest of the names and the close.
            let after = spec_display_names(tail) + close;
            assert(spec_display_names_rest(tail) == seq![',', ' '] + spec_display_names(tail));
            assert(spec_display_names(params) + close =~= p + (seq![','] + (seq![' '] + after)));
            lemma_lex_identifier(p, seq![','] + (seq![' '] + after));
            lemma_lex_comma(seq![' '] + after);
            let st = ParserState {
                buf: None,
                pending: p + (seq![','] + (seq![' '] + after)),
            };
            assert((seq![','] + (seq![' '] + after))[0] == ',');
            lemma_parse_params_display(tail, acc.push(p));
            lemma_display_names_head(tail);
            assert(after[0] == tail[0][0]);
            lemma_identifier_char_significant(tail[0][0]);
            lemma_parse_params_skip_ws(' ', after, acc.push(p));
            assert(acc.push(p) + tail =~= acc + params);
            let st_after_p = ParserState {
                buf: Some((TokenKind::Identifier, p)),
                pending: seq![','] + (seq![' '] + after),
            };
            let st_after_comma = ParserState { buf: None, pending: seq![' '] + after };
            assert(pst_measure(st_after_comma) < pst_measure(st)) by {
                assert(st.pending.len() == p.len() + 1 + 1 + after.len());
            }
            assert(spec_parse_params(st, acc) == spec_parse_params(st_after_comma, acc.push(p)));
        }
    }
}

/// The round-trip law for prototypes: the display of a well-formed
/// prototype parses back to exactly that prototype, consuming the whole
/// text. Since the prototype parser is verified to return exactly what
/// [`spec_parse_prototype`] says, a prototype node built by the parser from
/// text in display form displays back to that very text.
pub proof fn lemma_prototype_display_round_trip(name: Seq<char>, params: Seq<Seq<char>>)
    requires
        spec_identifier_shape(name),
        spec_keyword_of(name) is None,
        forall|i: int|
            0 <= i < params.len() ==> spec_identifier_shape(#[trigger] params[i])
                && spec_keyword_of(params[i]) is None,
    ensures
        spec_parse_prototype(
            ParserState { buf: None, pending: spec_display_proto(name, params) },
        ) matches Ok(out) && (out.0 matches Some(np) && np.0 == name && np.1 == params)
            && out.1.buf is None && out.1.pending.len() == 0,
{
    let open = seq!['('];
    let names = spec_display_names(params) + seq![')'];
    let kw = seq!['d', 'e', 'f'];
    let d = spec_display_proto(name, params);
    assert(d =~= kw + (seq![' '] + (name + (open + names))));

    // The definition keyword.
    assert(spec_keyword_chars(Keyword::Def) =~= kw);
    assert(spec_identifier_shape(kw));
    lemma_lex_identifier(kw, seq![' '] + (name + (open + names)));
    assert(spec_keyword_of(kw) == Some(Keyword::Def));

    // The name, after the separating space.
    lemma_lex_skip_ws(' ', name + (open + names));
    lemma_lex_identifier(name, open + names);
    assert((open + names)[0] == '(');

    // The opening bracket.
    assert(open + names =~= seq!['('] + names);
    lemma_lex_bracket('(', names);
    assert(spec_bracket_of(seq!['(']) == (Bracket {
        kind: BracketKind::Round,
        side: BracketSide::Left,
    }));
    if params.len() > 0 {
        lemma_display_names_head(params);
        lemma_identifier_char_significant(params[0][0]);
    } else {
        assert(names =~= seq![')']);
        assert(names[0] == ')');
    }

    // The parameter list.
    lemma_parse_params_display(params, Seq::empty());
    assert(Seq::<Seq<char>>::empty() + params =~= params);

    let st0 = ParserState { buf: None, pending: d };
    let st_params = ParserState { buf: None, pending: names };
    assert(pst_measure(st_params) < pst_measure(st0)) by {
        assert(d.len() == 3 + 1 + name.len() + 1 + names.len());
    }
}

/// The shape of the parse tree agrees with the precedence table. For an
/// expression `x a y b z` — a left-hand side `x` followed by operator `a`,
/// integer `y`, operator `b`, integer `z` and a token that is no operator —
/// the climb builds `(a, x, (b, y, z))` when `b` binds tighter than `a`,
/// and `(b, (a, x, y), z)` otherwise: the higher-precedence operator binds
/// tighter, and equal precedences associate to the left.
pub proof fn lemma_precedence_shapes(
    st: ParserState,
    x: ExprView,
    a: Operator,
    sa: Seq<char>,
    st1: ParserState,
    sy: Seq<char>,
    st2: ParserState,
    b: Operator,
    sb: Seq<char>,
    st3: ParserState,
    sz: Seq<char>,
    st4: ParserState,
    kend: TokenKind,
    se: Seq<char>,
    st5: ParserState,
)
    requires
        spec_peek(st) == Some((TokenKind::Operator(a), sa, st1)),
        spec_peek(spec_bump(st1)) == Some((TokenKind::Integer, sy, st2)),
        spec_peek(spec_bump(st2)) == Some((TokenKind::Operator(b), sb, st3)),
        spec_peek(spec_bump(st3)) == Some((TokenKind::Integer, sz, st4)),
        spec_peek(spec_bump(st4)) == Some((kend, se, st5)),
        !(kend is Operator),
        spec_int_of(sy) <= i128::MAX,
        spec_int_of(sz) <= i128::MAX,
    ensures
        spec_level(spec_precedence_of(a)) < spec_level(spec_precedence_of(b)) ==> spec_climb(
            6nat,
            st,
            x,
            BinaryOperatorPrecedence::Unknown,
        ) == Some(Ok::<(ExprView, ParserState), ErrorKind>(
            (
                ExprView::Binary(
                    a,
                    Box::new(x),
                    Box::new(
                        ExprView::Binary(
                            b,
                            Box::new(ExprView::Integer(spec_int_of(sy))),
                            Box::new(ExprView::Integer(spec_int_of(sz))),
                        ),
                    ),
                ),
                st5,
            ),
        )),
        spec_level(spec_precedence_of(b)) <= spec_level(spec_precedence_of(a)) ==> spec_climb(
            6nat,
            st,
            x,
            BinaryOperatorPrecedence::Unknown,
        ) == Some(Ok::<(ExprView, ParserState), ErrorKind>(
            (
                ExprView::Binary(
                    b,
                    Box::new(
                        ExprView::Binary(a, Box::new(x), Box::new(ExprView::Integer(spec_int_of(
                            sy,
                        )))),
                    ),
                    Box::new(ExprView::Integer(spec_int_of(sz))),
                ),
                st5,
            ),
        )),
{
    let y = ExprView::Integer(spec_int_of(sy));
    let z = ExprView::Integer(spec_int_of(sz));
    let low = BinaryOperatorPrecedence::Unknown;
    assert(spec_level(spec_precedence_of(a)) >= spec_level(low));
    assert(spec_level(spec_precedence_of(b)) >= spec_level(low));
    // The two integer primaries.
    assert(super::grammar::spec_parse_primary(5nat, spec_bump(st1)) == Some(Ok::<
        (Option<ExprView>, ParserState),
        ErrorKind,
    >((Some(y), spec_bump(st2)))));
    assert(super::grammar::spec_parse_primary(4nat, spec_bump(st3)) == Some(Ok::<
        (Option<ExprView>, ParserState),
        ErrorKind,
    >((Some(z), spec_bump(st4)))));
    if spec_level(spec_precedence_of(a)) < spec_level(spec_precedence_of(b)) {
        // The deeper climb takes y and z first.
        assert(spec_climb(4nat, st5, ExprView::Binary(b, Box::new(y), Box::new(z)), spec_precedence_of(b))
            == Some(Ok::<(ExprView, ParserState), ErrorKind>(
            (ExprView::Binary(b, Box::new(y), Box::new(z)), st5),
        )));
        assert(spec_climb(5nat, st3, y, spec_precedence_of(b)) == Some(Ok::<
            (ExprView, ParserState),
            ErrorKind,
        >((ExprView::Binary(b, Box::new(y), Box::new(z)), st5))));
        let folded = ExprView::Binary(
            a,
            Box::new(x),
            Box::new(ExprView::Binary(b, Box::new(y), Box::new(z))),
        );
        assert(spec_climb(5nat, st5, folded, low) == Some(Ok::<
            (ExprView, ParserState),
            ErrorKind,
        >((folded, st5))));
        assert(spec_climb(6nat, st, x, low) == Some(Ok::<(ExprView, ParserState), ErrorKind>(
            (folded, st5),
        )));
    } else {
        // The tree grows to the left: x and y fold first.
        let left = ExprView::Binary(a, Box::new(x), Box::new(y));
        let folded = ExprView::Binary(b, Box::new(left), Box::new(z));
        assert(spec_climb(4nat, st5, folded, low) == Some(Ok::<
            (ExprView, ParserState),
            ErrorKind,
        >((folded, st5))));
        assert(spec_climb(5nat, st3, left, low) == Some(Ok::<
            (ExprView, ParserState),
            ErrorKind,
        >((folded, st5))));
        assert(spec_climb(6nat, st, x, low) == Some(Ok::<(ExprView, ParserState), ErrorKind>(
            (folded, st5),
        )));
    }
}

} // verus!
