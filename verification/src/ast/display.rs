//! The human-readable text form of each node, used for diagnostics and
//! REPL output, verified against a spec-level rendering of the views.

use vstd::prelude::*;

use crate::numbers::{int_to_text, spec_int_chars};
use crate::strutil::push_char;
use crate::token::operator::{spec_operator_chars, Operator};
use super::nodes::{
    lemma_view_expr_list, view_expr, view_expr_list, view_proto, ExprEnum, ExternFunctionNode,
    FunctionNode, FunctionPrototypeNode, IdentifierNode,
};
use super::view::ExprView;

verus! {

/// The text of an expression: literals in parentheses, binary applications
/// as `(lhs op rhs)`, calls as `name(a, b)`.
pub open spec fn spec_display_expr(v: ExprView) -> Seq<char>
    decreases v,
{
    match v {
        ExprView::Integer(i) => seq!['('] + spec_int_chars(i) + seq![')'],
        ExprView::FloatLit(l) => seq!['('] + l + seq![')'],
        ExprView::Variable(name) => name,
        ExprView::Unary(op, a) => seq!['('] + spec_operator_chars(op) + spec_display_expr(*a)
            + seq![')'],
        ExprView::Binary(op, a, b) => seq!['('] + spec_display_expr(*a) + seq![' ']
            + spec_operator_chars(op) + seq![' '] + spec_display_expr(*b) + seq![')'],
        ExprView::Call(name, args) => name + seq!['('] + spec_display_args(args) + seq![')'],
    }
}

/// The text of an argument list, separated by comma and space.
pub open spec fn spec_display_args(args: Seq<ExprView>) -> Seq<char>
    decreases args,
{
    if args.len() == 0 {
        Seq::empty()
    } else {
        spec_display_expr(args.first()) + spec_display_args_rest(args.drop_first())
    }
}

/// The text of the arguments after the first one, each preceded by a comma
/// and a space.
pub open spec fn spec_display_args_rest(args: Seq<ExprView>) -> Seq<char>
    decreases args,
{
    if args.len() == 0 {
        Seq::empty()
    } else {
        seq![',', ' '] + spec_display_expr(args.first()) + spec_display_args_rest(
            args.drop_first(),
        )
    }
}

/// The text of a list of names, separated by comma and space.
pub open spec fn spec_display_names(names: Seq<Seq<char>>) -> Seq<char>
    decreases names.len(),
{
    if names.len() == 0 {
        Seq::empty()
    } else {
        names.first() + spec_display_names_rest(names.drop_first())
    }
}

/// The text of the names after the first one, each preceded by a comma and
/// a space.
pub open spec fn spec_display_names_rest(names: Seq<Seq<char>>) -> Seq<char>
    decreases names.len(),
{
    if names.len() == 0 {
        Seq::empty()
    } else {
        seq![',', ' '] + names.first() + spec_display_names_rest(names.drop_first())
    }
}

/// The text of a prototype: `def name(p1, p2)`.
pub open spec fn spec_display_proto(name: Seq<char>, params: Seq<Seq<char>>) -> Seq<char> {
    seq!['d', 'e', 'f', ' '] + name + seq!['('] + spec_display_names(params) + seq![')']
}

/// The text of an external declaration: the prototype behind its keyword.
pub open spec fn spec_display_extern(name: Seq<char>, params: Seq<Seq<char>>) -> Seq<char> {
    seq!['e', 'x', 't', 'e', 'r', 'n', ' '] + spec_display_proto(name, params)
}

/// The text of a function definition: the prototype, a line break, the body.
pub open spec fn spec_display_function(name: Seq<char>, params: Seq<Seq<char>>, body: ExprView) -> Seq<
    char,
> {
    spec_display_proto(name, params) + seq!['\n'] + spec_display_expr(body)
}

impl ExprEnum {
    /// Render the expression as text.
    pub fn to_text(&self) -> (r: String)
        ensures
            r@ == spec_display_expr(view_expr(*self)),
        decreases *self,
    {
        match self {
            ExprEnum::Integer(n) => {
                let mut s = String::new();
                push_char(&mut s, '(');
                s.append(int_to_text(n.value).as_str());
                push_char(&mut s, ')');
                proof {
                    assert(s@ =~= seq!['('] + spec_int_chars(n.value as int) + seq![')']);
                }
                s
            },
            ExprEnum::Float(n) => {
                let mut s = String::new();
                push_char(&mut s, '(');
                s.append(n.literal.as_str());
                push_char(&mut s, ')');
                proof {
                    assert(s@ =~= seq!['('] + n.literal@ + seq![')']);
                }
                s
            },
            ExprEnum::Variable(n) => {
                let s = n.identifier.identifier.clone();
                s
            },
            ExprEnum::Unary(n) => {
                let mut s = String::new();
                push_char(&mut s, '(');
                s.append(n.operator.to_string().as_str());
                s.append(n.first.to_text().as_str());
                push_char(&mut s, ')');
                proof {
                    assert(s@ =~= seq!['('] + spec_operator_chars(*n.operator) + spec_display_expr(
                        view_expr(*n.first),
                    ) + seq![')']);
                }
                s
            },
            ExprEnum::Binary(n) => {
                let mut s = String::new();
                push_char(&mut s, '(');
                s.append(n.first.to_text().as_str());
                push_char(&mut s, ' ');
                s.append(n.operator.to_string().as_str());
                push_char(&mut s, ' ');
                s.append(n.second.to_text().as_str());
                push_char(&mut s, ')');
                proof {
                    assert(s@ =~= seq!['('] + spec_display_expr(view_expr(*n.first)) + seq![' ']
                        + spec_operator_chars(*n.operator) + seq![' '] + spec_display_expr(
                        view_expr(*n.second),
                    ) + seq![')']);
                }
                s
            },
            ExprEnum::Call(n) => {
                let mut s = n.identifier.identifier.clone();
                push_char(&mut s, '(');
                let args = arguments_to_text(&n.arguments);
                s.append(args.as_str());
                push_char(&mut s, ')');
                proof {
                    assert(s@ =~= n.identifier.identifier@ + seq!['('] + spec_display_args(
                        view_expr_list(n.arguments@),
                    ) + seq![')']);
                }
                s
            },
        }
    }
}


/// Render an argument list as text, separated by comma and space.
fn arguments_to_text(arguments: &Vec<ExprEnum>) -> (r: String)
    ensures
        r@ == spec_display_args(view_expr_list(arguments@)),
    decreases *arguments,
{
    let ghost vargs = view_expr_list(arguments@);
    let mut s = String::new();
    if arguments.len() == 0 {
        proof {
            assert(vargs.len() == 0);
        }
        return s;
    }
    s.append(arguments[0].to_text().as_str());
    proof {
        lemma_view_expr_list(arguments@);
        assert(vargs.first() == view_expr(arguments@[0]));
        assert(s@ =~= spec_display_expr(vargs.first()));
        assert(spec_display_args(vargs) == spec_display_expr(vargs.first())
            + spec_display_args_rest(vargs.drop_first()));
        assert(vargs.drop_first() =~= vargs.skip(1));
    }
    let mut i: usize = 1;
    while i < arguments.len()
        invariant
            1 <= i <= arguments@.len(),
            vargs == view_expr_list(arguments@),
            vargs.len() == arguments@.len(),
            s@ + spec_display_args_rest(vargs.skip(i as int)) == spec_display_args(vargs),
        decreases arguments@.len() - i,
    {
        push_char(&mut s, ',');
        push_char(&mut s, ' ');
        s.append(arguments[i].to_text().as_str());
        proof {
            lemma_view_expr_list(arguments@);
            assert(vargs.skip(i as int).first() == vargs[i as int]);
            assert(vargs.skip(i as int).first() == view_expr(arguments@[i as int]));
            assert(vargs.skip(i as int).drop_first() =~= vargs.skip(i + 1));
            assert(spec_display_args_rest(vargs.skip(i as int)) == seq![',', ' ']
                + spec_display_expr(vargs.skip(i as int).first()) + spec_display_args_rest(
                vargs.skip(i + 1),
            ));
        }
        i = i + 1;
    }
    proof {
        assert(vargs.skip(arguments@.len() as int).len() == 0);
        assert(s@ + spec_display_args_rest(vargs.skip(arguments@.len() as int)) =~= s@);
    }
    s
}

/// The names of a parameter vector.
pub open spec fn view_params(params: Seq<Box<IdentifierNode>>) -> Seq<Seq<char>> {
    Seq::new(params.len(), |i: int| params[i].identifier@)
}

/// Render a parameter list as text, separated by comma and space.
fn parameters_to_text(params: &Vec<Box<IdentifierNode>>) -> (r: String)
    ensures
        r@ == spec_display_names(view_params(params@)),
{
    let ghost names = view_params(params@);
    let mut s = String::new();
    if params.len() == 0 {
        proof {
            assert(names.len() == 0);
        }
        return s;
    }
    s.append(params[0].identifier.as_str());
    proof {
        assert(names.first() == params@[0].identifier@);
        assert(s@ =~= names.first());
        assert(spec_display_names(names) == names.first() + spec_display_names_rest(
            names.drop_first(),
        ));
        assert(names.drop_first() =~= names.skip(1));
    }
    let mut i: usize = 1;
    while i < params.len()
        invariant
            1 <= i <= params@.len(),
            names == view_params(params@),
            names.len() == params@.len(),
            s@ + spec_display_names_rest(names.skip(i as int)) == spec_display_names(names),
        decreases params@.len() - i,
    {
        push_char(&mut s, ',');
        push_char(&mut s, ' ');
        s.append(params[i].identifier.as_str());
        proof {
            assert(names.skip(i as int).first() == params@[i as int].identifier@);
            assert(names.skip(i as int).drop_first() =~= names.skip(i + 1));
            assert(spec_display_names_rest(names.skip(i as int)) == seq![',', ' ']
                + names.skip(i as int).first() + spec_display_names_rest(names.skip(i + 1)));
        }
        i = i + 1;
    }
    proof {
        assert(names.skip(params@.len() as int).len() == 0);
        assert(s@ + spec_display_names_rest(names.skip(params@.len() as int)) =~= s@);
    }
    s
}

impl FunctionPrototypeNode {
    /// Render the prototype as text: `def name(p1, p2)`.
    pub fn to_text(&self) -> (r: String)
        ensures
            r@ == spec_display_proto(view_proto(*self).0, view_proto(*self).1),
    {
        let params = parameters_to_text(&self.parameters);
        let mut s = String::new();
        push_char(&mut s, 'd');
        push_char(&mut s, 'e');
        push_char(&mut s, 'f');
        push_char(&mut s, ' ');
        s.append(self.identifier.identifier.as_str());
        push_char(&mut s, '(');
        s.append(params.as_str());
        push_char(&mut s, ')');
        proof {
            assert(view_params(self.parameters@) =~= view_proto(*self).1);
            assert(s@ =~= spec_display_proto(view_proto(*self).0, view_proto(*self).1));
        }
        s
    }
}

impl FunctionNode {
    /// Render the definition as text: the prototype, a line break, the body.
    pub fn to_text(&self) -> (r: String)
        ensures
            r@ == spec_display_function(
                view_proto(*self.prototype).0,
                view_proto(*self.prototype).1,
                view_expr(*self.body),
            ),
    {
        let mut s = self.prototype.to_text();
        push_char(&mut s, '\n');
        s.append(self.body.to_text().as_str());
        proof {
            assert(s@ =~= spec_display_function(
                view_proto(*self.prototype).0,
                view_proto(*self.prototype).1,
                view_expr(*self.body),
            ));
        }
        s
    }
}

impl ExternFunctionNode {
    /// Render the declaration as text: the prototype behind its keyword.
    pub fn to_text(&self) -> (r: String)
        ensures
            r@ == spec_display_extern(view_proto(*self.prototype).0, view_proto(*self.prototype).1),
    {
        let mut s = String::new();
        push_char(&mut s, 'e');
        push_char(&mut s, 'x');
        push_char(&mut s, 't');
        push_char(&mut s, 'e');
        push_char(&mut s, 'r');
        push_char(&mut s, 'n');
        push_char(&mut s, ' ');
        s.append(self.prototype.to_text().as_str());
        proof {
            assert(s@ =~= spec_display_extern(
                view_proto(*self.prototype).0,
                view_proto(*self.prototype).1,
            ));
        }
        s
    }
}

} // verus!
