//! The structures used to parse a complete Kaleidoscope program or read the
//! declarations from an interactive session: a driver that asks the parser
//! for one top-level construct at a time, and an interpreter that owns the
//! whole pipeline for the duration of a session.

use vstd::prelude::*;

use crate::ast::node::{upcast_expr_node, view_node, NodeEnum};
use crate::ast::nodes::{view_expr, view_proto, ExprEnum, ExternFunctionNode, FunctionNode};
use crate::ast::view::NodeView;
use crate::lexer::stream::CharStream;
use crate::lexer::tokenizer::Tokenizer;
use super::error::{Error, ErrorKind};
use super::grammar::{
    lemma_parse_one_fuel_monotone, spec_parse_expression, spec_parse_one, spec_parse_top_level,
    spec_session, spec_skip_semicolons,
};
use super::parser::{
    expr_steps_match, function_body_matches, parser_wf, ParseResult, Parser,
};
use super::spec::{
    expr_view_wf, lemma_peek_measure, pst_measure, spec_bump, spec_parse_prototype, spec_peek,
    ParserState,
};
use crate::token::tokenkind::TokenKind;

verus! {

/// The nodes the driver hands out are well formed: every expression in them
/// satisfies the expression well-formedness invariant.
pub open spec fn node_wf(n: NodeEnum) -> bool {
    match n {
        NodeEnum::Expr(e) => expr_view_wf(view_expr(e)),
        NodeEnum::Function(f) => expr_view_wf(view_expr(*f.body)),
        NodeEnum::ExternFunction(_) => true,
        _ => true,
    }
}

/// The spec outcome `res` describes exactly the result `r` and the final
/// state `st` of parsing one top-level construct: the same routed node
/// view, exhaustion exactly when the input is exhausted, or the same kind
/// of error.
pub open spec fn node_steps_match(
    res: Option<Result<(Option<NodeView>, ParserState), ErrorKind>>,
    r: ParseResult<NodeEnum>,
    st: ParserState,
) -> bool {
    match r {
        Ok(o) => res matches Some(out) && (out matches Ok(p) && (match o {
            Some(n) => p.0 == Some(view_node(*n)),
            None => p.0 is None,
        }) && p.1 == st),
        Err(e) => res matches Some(out) && (out matches Err(ek) && e.errorkind == ek),
    }
}

/// The driver that brings input from a character stream to the parser.
pub struct Driver {
    pub interactive: bool,
    pub prompt: String,
    pub verbosity: u32,
}

impl Driver {
    /// Create a new driver for parsing a Kaleidoscope program.
    #[inline]
    pub fn new(interactive: bool, prompt: String, verbosity: u32) -> (r: Self)
        ensures
            r.interactive == interactive,
            r.prompt@ == prompt@,
            r.verbosity == verbosity,
    {
        Self { interactive, prompt, verbosity }
    }

    /// Check whether the driver is an interactive session, which prompts the
    /// user for input after each expression.
    #[inline]
    pub fn is_interactive(&self) -> (r: bool)
        ensures
            r == self.interactive,
    {
        self.interactive
    }

    /// Get the prompt used by the driver if it is in interactive mode.
    #[inline]
    pub fn get_prompt(&self) -> (r: &str)
        ensures
            r@ == self.prompt@,
    {
        self.prompt.as_str()
    }

    /// Get the verbosity of the driver: the greater, the more detail its
    /// caller prints.
    #[inline]
    pub fn verbosity(&self) -> (r: u32)
        ensures
            r == self.verbosity,
    {
        self.verbosity
    }

    /// The handler function which deals with function definitions.
    pub fn handle_function_definition(
        &self,
        istream: &mut CharStream,
        tokenizer: &mut Tokenizer,
        parser: &mut Parser,
    ) -> (r: ParseResult<FunctionNode>)
        requires
            parser_wf(*old(parser), *old(tokenizer), *old(istream)),
        ensures
            parser_wf(*final(parser), *final(tokenizer), *final(istream)),
            ({
                let st0 = old(parser).pst(*old(tokenizer), *old(istream));
                let st = final(parser).pst(*final(tokenizer), *final(istream));
                let res = spec_parse_prototype(st0);
                &&& (res matches Err(ek) ==> (r matches Err(e) && e.errorkind == ek))
                &&& (res matches Ok(out2) ==> (if out2.0 is None {
                    (r matches Ok(o) && o is None) && st == out2.1
                } else {
                    let np = out2.0->0;
                    &&& (r matches Ok(o) ==> (o matches Some(f) && view_proto(*f.prototype).0
                        == np.0 && view_proto(*f.prototype).1 == np.1 && expr_view_wf(view_expr(
                        *f.body,
                    ))))
                    &&& (exists|fuel: nat|
                        function_body_matches(spec_parse_expression(fuel, out2.1), r, st))
                }))
                &&& ((r matches Ok(o) && o is Some) ==> pst_measure(st) < pst_measure(st0))
                &&& (r is Ok ==> pst_measure(st) <= pst_measure(st0))
            }),
    {
        parser.parse_function(istream, tokenizer)
    }

    /// The handler function which deals with external function declarations.
    pub fn handle_extern_function(
        &self,
        istream: &mut CharStream,
        tokenizer: &mut Tokenizer,
        parser: &mut Parser,
    ) -> (r: ParseResult<ExternFunctionNode>)
        requires
            parser_wf(*old(parser), *old(tokenizer), *old(istream)),
        ensures
            parser_wf(*final(parser), *final(tokenizer), *final(istream)),
            ({
                let st0 = old(parser).pst(*old(tokenizer), *old(istream));
                let st = final(parser).pst(*final(tokenizer), *final(istream));
                &&& (spec_peek(st0) is None ==> (r matches Err(e) && e.errorkind
                    == ErrorKind::LexerError))
                &&& (spec_peek(st0) matches Some(out) ==> (if !(out.0 matches TokenKind::Keyword(
                    kw,
                ) && kw is Extern) {
                    (r matches Ok(o) && o is None) && st == out.2
                } else {
                    let res = spec_parse_prototype(spec_bump(out.2));
                    &&& (res matches Err(ek) ==> (r matches Err(e) && e.errorkind == ek))
                    &&& (res matches Ok(out2) ==> (if out2.0 is None {
                        r matches Err(e) && e.errorkind == ErrorKind::SyntaxError
                    } else {
                        let np = out2.0->0;
                        (r matches Ok(o) && (o matches Some(x) && view_proto(*x.prototype).0
                            == np.0 && view_proto(*x.prototype).1 == np.1)) && st == out2.1
                    }))
                }))
                &&& ((r matches Ok(o) && o is Some) ==> pst_measure(st) < pst_measure(st0))
                &&& (r is Ok ==> pst_measure(st) <= pst_measure(st0))
            }),
    {
        parser.parse_extern_function(istream, tokenizer)
    }

    /// The handler function which deals with expressions.
    pub fn handle_expression(
        &self,
        istream: &mut CharStream,
        tokenizer: &mut Tokenizer,
        parser: &mut Parser,
    ) -> (r: ParseResult<ExprEnum>)
        requires
            parser_wf(*old(parser), *old(tokenizer), *old(istream)),
        ensures
            parser_wf(*final(parser), *final(tokenizer), *final(istream)),
            (r matches Ok(o) ==> (o matches Some(bx) ==> expr_view_wf(view_expr(*bx)))),
            ({
                let st0 = old(parser).pst(*old(tokenizer), *old(istream));
                let st = final(parser).pst(*final(tokenizer), *final(istream));
                let ct = final(parser).current_token;
                &&& (exists|fuel: nat| expr_steps_match(spec_parse_top_level(fuel, st0), r, st))
                &&& (r is Ok ==> (ct matches Some(t) && (t.token_kind is Semicolon || t.token_kind
                    is Eof)))
                &&& (r is Ok ==> pst_measure(st) <= pst_measure(st0))
                &&& ((r matches Ok(o) && o is Some) ==> pst_measure(st) < pst_measure(st0))
            }),
    {
        parser.parse_top_level_expression(istream, tokenizer)
    }

    /// Parse one top-level construct: after leftover semicolons are
    /// skipped, the leading token routes the form — an external
    /// declaration, a function definition, or a top-level expression.
    /// `None` reports exactly that the input is exhausted; a token that
    /// opens no construct is an error, never swallowed. The result is
    /// exactly what [`spec_parse_one`] says.
    #[verifier::rlimit(100)]
    #[verifier::spinoff_prover]
    pub fn parse_one(
        &self,
        istream: &mut CharStream,
        tokenizer: &mut Tokenizer,
        parser: &mut Parser,
    ) -> (r: ParseResult<NodeEnum>)
        requires
            parser_wf(*old(parser), *old(tokenizer), *old(istream)),
        ensures
            parser_wf(*final(parser), *final(tokenizer), *final(istream)),
            (r matches Ok(o) ==> (o matches Some(n) ==> node_wf(*n))),
            ({
                let st0 = old(parser).pst(*old(tokenizer), *old(istream));
                let st = final(parser).pst(*final(tokenizer), *final(istream));
                &&& (exists|fuel: nat| node_steps_match(spec_parse_one(fuel, st0), r, st))
                &&& (r is Ok ==> pst_measure(st) <= pst_measure(st0))
                &&& ((r matches Ok(o) && o is Some) ==> pst_measure(st) < pst_measure(st0))
            }),
    {
        let ghost st0 = old(parser).pst(*old(tokenizer), *old(istream));
        // Skip the terminators earlier statements left behind.
        loop
            invariant
                st0 == old(parser).pst(*old(tokenizer), *old(istream)),
                parser_wf(*parser, *tokenizer, *istream),
                spec_skip_semicolons(st0) == spec_skip_semicolons(
                    parser.pst(*tokenizer, *istream),
                ),
                pst_measure(parser.pst(*tokenizer, *istream)) <= pst_measure(st0),
            ensures
                parser_wf(*parser, *tokenizer, *istream),
                parser.current_token is Some,
                spec_skip_semicolons(st0) == Ok::<ParserState, ErrorKind>(
                    parser.pst(*tokenizer, *istream),
                ),
                pst_measure(parser.pst(*tokenizer, *istream)) <= pst_measure(st0),
            decreases pst_measure(parser.pst(*tokenizer, *istream)),
        {
            let ghost cur = parser.pst(*tokenizer, *istream);
            proof {
                lemma_peek_measure(cur);
            }
            match parser.fill(istream, tokenizer) {
                Ok(()) => {},
                Err(e) => {
                    let r2: ParseResult<NodeEnum> = Err(e);
                    proof {
                        assert(node_steps_match(
                            spec_parse_one(1nat, st0),
                            r2,
                            parser.pst(*tokenizer, *istream),
                        ));
                    }
                    return r2;
                },
            }
            let is_semi = match &parser.current_token {
                Some(t) => matches!(t.token_kind, TokenKind::Semicolon),
                None => false,
            };
            if !is_semi {
                break;
            }
            parser.mark_used();
        }
        let ghost st_route = parser.pst(*tokenizer, *istream);
        proof {
            assert(spec_skip_semicolons(st0) == Ok::<ParserState, ErrorKind>(st_route));
            let bt = st_route.buf->0;
            assert(spec_peek(st_route) == Some((bt.0, bt.1, st_route)));
        }
        let extern_result = self.handle_extern_function(istream, tokenizer, parser);
        let ghost xsnap = extern_result;
        let ghost st_x = parser.pst(*tokenizer, *istream);
        match extern_result {
            Ok(Some(node)) => {
                let r2: ParseResult<NodeEnum> = Ok(
                    Some(Box::new(NodeEnum::ExternFunction(*node))),
                );
                proof {
                    assert(node_steps_match(spec_parse_one(1nat, st0), r2, st_x));
                }
                return r2;
            },
            Ok(None) => {
                proof {
                    assert(parser.pst(*tokenizer, *istream) == st_route);
                }
            },
            Err(e) => {
                let r2: ParseResult<NodeEnum> = Err(e);
                proof {
                    assert(node_steps_match(spec_parse_one(1nat, st0), r2, st_x));
                }
                return r2;
            },
        }
        let function_result = self.handle_function_definition(istream, tokenizer, parser);
        let ghost fsnap = function_result;
        let ghost st_f = parser.pst(*tokenizer, *istream);
        match function_result {
            Ok(Some(node)) => {
                let r2: ParseResult<NodeEnum> = Ok(Some(Box::new(NodeEnum::Function(*node))));
                proof {
                    let out2 = spec_parse_prototype(st_route)->Ok_0;
                    let fb = choose|f: nat|
                        function_body_matches(spec_parse_expression(f, out2.1), fsnap, st_f);
                    assert(node_steps_match(spec_parse_one(fb + 1, st0), r2, st_f));
                }
                return r2;
            },
            Ok(None) => {
                proof {
                    assert(parser.pst(*tokenizer, *istream) == st_route);
                }
            },
            Err(e) => {
                let r2: ParseResult<NodeEnum> = Err(e);
                proof {
                    let res = spec_parse_prototype(st_route);
                    if res matches Ok(out2) && out2.0 is Some {
                        let fb = choose|f: nat|
                            function_body_matches(
                                spec_parse_expression(f, res->Ok_0.1),
                                fsnap,
                                st_f,
                            );
                        assert(node_steps_match(spec_parse_one(fb + 1, st0), r2, st_f));
                    } else {
                        assert(node_steps_match(spec_parse_one(1nat, st0), r2, st_f));
                    }
                }
                return r2;
            },
        }
        let expression_result = self.handle_expression(istream, tokenizer, parser);
        let ghost esnap = expression_result;
        let ghost st_e = parser.pst(*tokenizer, *istream);
        proof {
            assert(exists|f: nat|
                expr_steps_match(#[trigger] spec_parse_top_level(f, st_route), esnap, st_e));
        }
        let ghost ft = choose|f: nat|
            expr_steps_match(#[trigger] spec_parse_top_level(f, st_route), esnap, st_e);
        match expression_result {
            Ok(Some(node)) => {
                let r2: ParseResult<NodeEnum> = Ok(
                    Some(Box::new(upcast_expr_node(*node))),
                );
                proof {
                    assert(node_steps_match(spec_parse_one(ft + 1, st0), r2, st_e));
                }
                return r2;
            },
            Ok(None) => {},
            Err(e) => {
                let r2: ParseResult<NodeEnum> = Err(e);
                proof {
                    assert(node_steps_match(spec_parse_one(ft + 1, st0), r2, st_e));
                }
                return r2;
            },
        }
        // Nothing opened a construct. The input is exhausted exactly when
        // the buffered token is the end-of-input marker; any other token
        // here is an error, not silently swallowed.
        let at_end = match &parser.current_token {
            Some(t) => matches!(t.token_kind, TokenKind::Eof),
            None => false,
        };
        let r2: ParseResult<NodeEnum> = if at_end {
            Ok(None)
        } else {
            Err(
                Error::new(
                    String::from_str("no top-level construct opens here"),
                    ErrorKind::SyntaxError,
                    Some(istream.get_index()),
                ),
            )
        };
        proof {
            assert(node_steps_match(spec_parse_one(ft + 1, st0), r2, st_e));
        }
        r2
    }

    /// Parse all the statements in a program until the input is exhausted,
    /// and count them; an error stops the session and is surfaced. The
    /// count is exactly what [`spec_session`] says, saturating rather than
    /// wrapping.
    #[verifier::rlimit(60)]
    pub fn main_loop(
        &self,
        istream: &mut CharStream,
        tokenizer: &mut Tokenizer,
        parser: &mut Parser,
    ) -> (r: Result<usize, Error>)
        requires
            parser_wf(*old(parser), *old(tokenizer), *old(istream)),
        ensures
            parser_wf(*final(parser), *final(tokenizer), *final(istream)),
            ({
                let st0 = old(parser).pst(*old(tokenizer), *old(istream));
                exists|fuel: nat|
                    (match #[trigger] spec_session(fuel, st0) {
                        Some((n, e)) => match r {
                            Ok(c) => e is None && c == (if n <= usize::MAX {
                                n
                            } else {
                                usize::MAX as int
                            }),
                            Err(err) => e matches Some(ek) && err.errorkind == ek,
                        },
                        None => false,
                    })
            }),
        decreases pst_measure(parser.pst(*tokenizer, *istream)),
    {
        let ghost st0 = old(parser).pst(*old(tokenizer), *old(istream));
        let first = self.parse_one(istream, tokenizer, parser);
        let ghost osnap = first;
        let ghost st_o = parser.pst(*tokenizer, *istream);
        let ghost fo = choose|f: nat| node_steps_match(spec_parse_one(f, st0), osnap, st_o);
        match first {
            Err(error) => {
                proof {
                    assert(match spec_session(fo + 1, st0) {
                        Some((n, e)) => e matches Some(ek) && error.errorkind == ek,
                        None => false,
                    });
                }
                return Err(error);
            },
            Ok(None) => {
                proof {
                    assert(match spec_session(fo + 1, st0) {
                        Some((n, e)) => e is None && n == 0,
                        None => false,
                    });
                }
                return Ok(0);
            },
            Ok(Some(_)) => {},
        }
        let rest = self.main_loop(istream, tokenizer, parser);
        let ghost rsnap = rest;
        proof {
            lemma_parse_one_fuel_monotone(fo, fo + 1, st0);
        }
        match rest {
            Err(error) => {
                proof {
                    let fr = choose|f: nat|
                        (match #[trigger] spec_session(f, st_o) {
                            Some((n, e)) => e matches Some(ek) && error.errorkind == ek,
                            None => false,
                        });
                    lemma_parse_one_fuel_monotone(fo, fo + fr + 1, st0);
                    lemma_parse_one_fuel_monotone(fr, fo + fr + 1, st_o);
                    assert(match spec_session(fo + fr + 2, st0) {
                        Some((n, e)) => e matches Some(ek) && error.errorkind == ek,
                        None => false,
                    });
                }
                Err(error)
            },
            Ok(count) => {
                let total = if count < usize::MAX {
                    count + 1
                } else {
                    count
                };
                proof {
                    let fr = choose|f: nat|
                        (match #[trigger] spec_session(f, st_o) {
                            Some((n, e)) => e is None && count == (if n <= usize::MAX {
                                n
                            } else {
                                usize::MAX as int
                            }),
                            None => false,
                        });
                    lemma_parse_one_fuel_monotone(fo, fo + fr + 1, st0);
                    lemma_parse_one_fuel_monotone(fr, fo + fr + 1, st_o);
                    assert(match spec_session(fo + fr + 2, st0) {
                        Some((n, e)) => e is None && total == (if n <= usize::MAX {
                            n
                        } else {
                            usize::MAX as int
                        }),
                        None => false,
                    });
                }
                Ok(total)
            },
        }
    }
}

impl Default for Driver {
    /// A verbose interactive driver with the default prompt.
    fn default() -> (r: Self)
        ensures
            r.interactive == true,
            r.verbosity == 1,
    {
        Self { interactive: true, prompt: String::from_str("kaleidoscope::> "), verbosity: 1 }
    }
}

/// A full interpreter that can parse a program by itself: it owns its
/// character stream, its tokenizer, its parser and its driver for the
/// duration of a session.
pub struct Interpreter {
    pub driver: Driver,
    pub istream: CharStream,
    pub tokenizer: Tokenizer,
    pub parser: Parser,
    pub proceed_even_if_error: bool,
    pub can_proceed: bool,
    pub last_error: Option<Error>,
}

impl Interpreter {
    /// The interpreter's components are well formed together.
    pub open spec fn wf(&self) -> bool {
        parser_wf(self.parser, self.tokenizer, self.istream)
    }

    /// Create a new interpreter over a character stream.
    pub fn new(interactive: bool, istream: CharStream, verbosity: u32) -> (r: Self)
        requires
            istream.wf(),
        ensures
            r.wf(),
            r.proceed_even_if_error == false,
            r.can_proceed == true,
    {
        Self {
            driver: Driver::new(interactive, String::from_str("kaleidoscope::> "), verbosity),
            istream,
            tokenizer: Tokenizer::new(),
            parser: Parser::new(),
            proceed_even_if_error: false,
            can_proceed: true,
            last_error: None,
        }
    }

    /// Check if there are any more tokens in the program.
    pub fn is_done(&self) -> (r: bool)
        requires
            self.wf(),
        ensures
            r == self.istream.spec_eof(),
    {
        self.istream.eof_reached()
    }

    /// Get the character stream back, consuming the interpreter.
    pub fn relinquish_istream(self) -> (r: CharStream)
        ensures
            r == self.istream,
    {
        self.istream
    }

    /// Get a reference to the last error encountered during the parsing of
    /// the current program.
    pub fn get_last_error(&self) -> (r: &Option<Error>)
        ensures
            r == &self.last_error,
    {
        &self.last_error
    }

    /// Get the last error encountered, consuming it in the process.
    pub fn take_last_error(&mut self) -> (r: Option<Error>)
        ensures
            r == old(self).last_error,
            final(self).last_error is None,
            final(self).wf() == old(self).wf(),
            final(self).parser == old(self).parser,
            final(self).tokenizer == old(self).tokenizer,
            final(self).istream == old(self).istream,
    {
        self.last_error.take()
    }

    /// Set the policy of this interpreter to continue parsing the program
    /// even if an error was encountered.
    pub fn proceed_even_if_error(&mut self)
        ensures
            final(self).proceed_even_if_error == true,
            final(self).wf() == old(self).wf(),
            final(self).parser == old(self).parser,
            final(self).tokenizer == old(self).tokenizer,
            final(self).istream == old(self).istream,
    {
        self.proceed_even_if_error = true;
    }

    /// Set the policy of this interpreter to immediately terminate if an
    /// error was encountered.
    pub fn fail_on_error(&mut self)
        ensures
            final(self).proceed_even_if_error == false,
            final(self).wf() == old(self).wf(),
            final(self).parser == old(self).parser,
            final(self).tokenizer == old(self).tokenizer,
            final(self).istream == old(self).istream,
    {
        self.proceed_even_if_error = false;
    }

    /// Parse one statement, returning it when there is one; the result is
    /// exactly what [`spec_parse_one`] says of the session's input. Success
    /// is reported by the return value; whether the session can proceed is
    /// recorded in the interpreter, following its error policy. After a
    /// failure that the policy tolerates, the offending token is dropped so
    /// that the session can move on.
    pub fn parse_once(&mut self, proceed_even_if_error: bool) -> (r: Result<
        Option<Box<NodeEnum>>,
        Error,
    >)
        requires
            old(self).wf(),
        ensures
            final(self).wf(),
            r matches Ok(o) ==> (o matches Some(n) ==> node_wf(*n)),
            r is Ok ==> final(self).can_proceed == (r->Ok_0 is Some),
            r is Err ==> final(self).can_proceed == proceed_even_if_error
                && final(self).last_error is Some,
            ({
                let st0 = old(self).parser.pst(old(self).tokenizer, old(self).istream);
                let st = final(self).parser.pst(final(self).tokenizer, final(self).istream);
                r is Ok ==> exists|fuel: nat| node_steps_match(spec_parse_one(fuel, st0), r, st)
            }),
            (r matches Err(e) ==> ({
                let st0 = old(self).parser.pst(old(self).tokenizer, old(self).istream);
                exists|fuel: nat|
                    (#[trigger] spec_parse_one(fuel, st0) matches Some(out) && out matches Err(
                    ek,
                    ) && e.errorkind == ek)
            })),
            r is Ok ==> pst_measure(
                final(self).parser.pst(final(self).tokenizer, final(self).istream),
            ) <= pst_measure(old(self).parser.pst(old(self).tokenizer, old(self).istream)),
            (r matches Ok(o) && o is Some) ==> pst_measure(
                final(self).parser.pst(final(self).tokenizer, final(self).istream),
            ) < pst_measure(old(self).parser.pst(old(self).tokenizer, old(self).istream)),
    {
        let driver = &self.driver;
        match driver.parse_one(&mut self.istream, &mut self.tokenizer, &mut self.parser) {
            Ok(node) => {
                self.can_proceed = node.is_some();
                Ok(node)
            },
            Err(error) => {
                self.can_proceed = proceed_even_if_error;
                // Resync: drop the offending token, so that proceeding makes
                // progress.
                self.parser.mark_used();
                self.last_error = Some(error.clone());
                Err(error)
            },
        }
    }

    /// Parse a full Kaleidoscope program, counting the statements parsed
    /// until the input is exhausted or an error stops the session; the
    /// count is exactly what [`spec_session`] says, saturating rather than
    /// wrapping. This loop stops at the first error whatever the error
    /// policy says: the policy governs [`Interpreter::parse_once`], which a
    /// caller that tolerates errors and wants to resume after one drives
    /// itself, as the interactive shell does.
    #[verifier::rlimit(60)]
    pub fn main_loop(&mut self) -> (r: usize)
        requires
            old(self).wf(),
        ensures
            final(self).wf(),
            ({
                let st0 = old(self).parser.pst(old(self).tokenizer, old(self).istream);
                exists|fuel: nat|
                    (match #[trigger] spec_session(fuel, st0) {
                        Some((n, e)) => r == (if n <= usize::MAX {
                            n
                        } else {
                            usize::MAX as int
                        }) && (e is Some ==> final(self).last_error is Some),
                        None => false,
                    })
            }),
        decreases pst_measure(self.parser.pst(self.tokenizer, self.istream)),
    {
        let ghost st0 = old(self).parser.pst(old(self).tokenizer, old(self).istream);
        let proceed = self.proceed_even_if_error;
        let outcome = self.parse_once(proceed);
        let ghost osnap = outcome;
        let ghost mid = *self;
        match outcome {
            Err(_) => {
                proof {
                    let fo = choose|f: nat|
                        (#[trigger] spec_parse_one(f, st0) matches Some(out) && out matches Err(
                        ek,
                        ) && osnap->Err_0.errorkind == ek);
                    assert(match spec_session(fo + 1, st0) {
                        Some((n, e)) => 0int == (if n <= usize::MAX {
                            n
                        } else {
                            usize::MAX as int
                        }) && (e is Some ==> self.last_error is Some),
                        None => false,
                    });
                }
                0
            },
            Ok(None) => {
                proof {
                    let fo = choose|f: nat|
                        node_steps_match(
                            spec_parse_one(f, st0),
                            osnap,
                            mid.parser.pst(mid.tokenizer, mid.istream),
                        );
                    assert(match spec_session(fo + 1, st0) {
                        Some((n, e)) => 0int == (if n <= usize::MAX {
                            n
                        } else {
                            usize::MAX as int
                        }) && (e is Some ==> self.last_error is Some),
                        None => false,
                    });
                }
                0
            },
            Ok(Some(_)) => {
                let ghost st_o = mid.parser.pst(mid.tokenizer, mid.istream);
                let ghost fo = choose|f: nat|
                    node_steps_match(spec_parse_one(f, st0), osnap, st_o);
                let rest = self.main_loop();
                let total = if rest < usize::MAX {
                    rest + 1
                } else {
                    rest
                };
                proof {
                    let fr = choose|f: nat|
                        (match #[trigger] spec_session(f, st_o) {
                            Some((n, e)) => rest == (if n <= usize::MAX {
                                n
                            } else {
                                usize::MAX as int
                            }) && (e is Some ==> self.last_error is Some),
                            None => false,
                        });
                    lemma_parse_one_fuel_monotone(fo, fo + fr + 1, st0);
                    lemma_parse_one_fuel_monotone(fr, fo + fr + 1, st_o);
                    assert(match spec_session(fo + fr + 2, st0) {
                        Some((n, e)) => total == (if n <= usize::MAX {
                            n
                        } else {
                            usize::MAX as int
                        }) && (e is Some ==> self.last_error is Some),
                        None => false,
                    });
                }
                total
            },
        }
    }
}

} // verus!
