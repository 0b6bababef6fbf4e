//! The concrete AST node types.

use vstd::prelude::*;

use crate::lexer::laws::{spec_all_digits, spec_float_shape, spec_identifier_shape};
use crate::numbers::{parse_digits, spec_int_of};
use crate::token::operator::Operator;
use crate::token::token::Token;
use crate::token::tokenkind::TokenKind;
use super::error::{Error, ErrorKind};
use super::view::ExprView;

verus! {

/// A node representing an expression: a literal, a variable, an operator
/// application or a call. Each composite node exclusively owns its children;
/// the tree has no cycles and is never mutated after construction.
#[derive(Debug)]
pub enum ExprEnum {
    Integer(IntegerNode),
    Float(FloatNode),
    Variable(VariableExpressionNode),
    Unary(UnaryOperatorNode),
    Binary(BinaryOperatorNode),
    Call(FunctionCallNode),
}

/// A node representing an integer, stored as a signed 128-bit value.
#[derive(Debug, PartialEq, Eq)]
pub struct IntegerNode {
    pub value: i128,
}

/// A node representing a float. The literal is kept exactly as it stands in
/// the source: an integer part, a full stop, and a fractional part.
#[derive(Debug, PartialEq, Eq)]
pub struct FloatNode {
    pub literal: String,
}

/// A name that can identify a variable or a function.
#[derive(Debug, PartialEq, Eq)]
pub struct IdentifierNode {
    pub identifier: String,
}

/// An expression consisting of just one variable.
#[derive(Debug, PartialEq, Eq)]
pub struct VariableExpressionNode {
    pub identifier: Box<IdentifierNode>,
}

/// An operator which takes one argument.
#[derive(Debug)]
pub struct UnaryOperatorNode {
    pub operator: Box<Operator>,
    pub first: Box<ExprEnum>,
}

/// An operator with two expressions by its side, owning both children.
#[derive(Debug)]
pub struct BinaryOperatorNode {
    pub operator: Box<Operator>,
    pub first: Box<ExprEnum>,
    pub second: Box<ExprEnum>,
}

/// A call of a named function on an ordered sequence of arguments.
#[derive(Debug)]
pub struct FunctionCallNode {
    pub identifier: Box<IdentifierNode>,
    pub arguments: Vec<ExprEnum>,
}

/// A function prototype: the name of the function and the parameters it
/// accepts.
#[derive(Debug, PartialEq, Eq)]
pub struct FunctionPrototypeNode {
    pub identifier: Box<IdentifierNode>,
    pub parameters: Vec<Box<IdentifierNode>>,
}

/// A function definition: a prototype and a body expression.
#[derive(Debug)]
pub struct FunctionNode {
    pub prototype: Box<FunctionPrototypeNode>,
    pub body: Box<ExprEnum>,
}

/// A declaration of a function whose definition lives in another library or
/// language.
#[derive(Debug, PartialEq, Eq)]
pub struct ExternFunctionNode {
    pub prototype: Box<FunctionPrototypeNode>,
}

/// The view of an expression node: the same tree over mathematical values.
pub open spec fn view_expr(e: ExprEnum) -> ExprView
    decreases e,
    via view_expr_decreases
{
    match e {
        ExprEnum::Integer(n) => ExprView::Integer(n.value as int),
        ExprEnum::Float(n) => ExprView::FloatLit(n.literal@),
        ExprEnum::Variable(n) => ExprView::Variable(n.identifier.identifier@),
        ExprEnum::Unary(n) => ExprView::Unary(*n.operator, Box::new(view_expr(*n.first))),
        ExprEnum::Binary(n) => ExprView::Binary(
            *n.operator,
            Box::new(view_expr(*n.first)),
            Box::new(view_expr(*n.second)),
        ),
        ExprEnum::Call(n) => ExprView::Call(
            n.identifier.identifier@,
            view_expr_list(n.arguments@),
        ),
    }
}

#[via_fn]
proof fn view_expr_decreases(e: ExprEnum) {
    broadcast use vstd::std_specs::vec::group_vec_axioms;

    match e {
        ExprEnum::Call(n) => {
            assert(decreases_to!(e => n.arguments));
            assert(decreases_to!(n.arguments => n.arguments@));
        },
        _ => {},
    }
}

/// The views of a list of expression nodes, in order.
pub open spec fn view_expr_list(args: Seq<ExprEnum>) -> Seq<ExprView>
    decreases args,
{
    if args.len() == 0 {
        Seq::empty()
    } else {
        seq![view_expr(args.first())] + view_expr_list(args.drop_first())
    }
}

/// The view of a list of expression nodes is the view of each, in place.
pub proof fn lemma_view_expr_list(args: Seq<ExprEnum>)
    ensures
        view_expr_list(args).len() == args.len(),
        forall|i: int|
            0 <= i < args.len() ==> #[trigger] view_expr_list(args)[i] == view_expr(args[i]),
    decreases args.len(),
{
    if args.len() > 0 {
        lemma_view_expr_list(args.drop_first());
        assert forall|i: int| 0 <= i < args.len() implies #[trigger] view_expr_list(args)[i]
            == view_expr(args[i]) by {
            if i > 0 {
                assert(view_expr_list(args)[i] == view_expr_list(args.drop_first())[i - 1]);
                assert(args.drop_first()[i - 1] == args[i]);
            }
        }
    }
}

/// The view of a prototype: its name and its parameter names.
pub open spec fn view_proto(p: FunctionPrototypeNode) -> (Seq<char>, Seq<Seq<char>>) {
    (p.identifier.identifier@, Seq::new(p.parameters@.len(), |i: int| p.parameters@[i].identifier@))
}

impl ExprEnum {
    /// The view of this expression.
    pub open spec fn view(&self) -> ExprView {
        view_expr(*self)
    }
}

impl IntegerNode {
    /// Create a new [`IntegerNode`].
    pub fn new(value: i128) -> (r: Self)
        ensures
            r.value == value,
    {
        Self { value }
    }

    /// Get the value of this node as the raw value.
    pub fn get_value(&self) -> (r: i128)
        ensures
            r == self.value,
    {
        self.value
    }

    /// Create an [`IntegerNode`] from one token. The token must be an
    /// integer token whose value fits the 128-bit signed representation;
    /// otherwise the error says which of the two failed.
    pub fn from_token(token: Token) -> (r: Result<Self, Error>)
        ensures
            token.token_kind is Integer && token.span@.len() > 0 && spec_all_digits(token.span@)
                && spec_int_of(token.span@) <= i128::MAX ==> r is Ok && r->Ok_0.value
                == spec_int_of(token.span@),
            token.token_kind is Integer && token.span@.len() > 0 && spec_all_digits(token.span@)
                && spec_int_of(token.span@) > i128::MAX ==> (r matches Err(e) && e.errorkind
                == ErrorKind::TypeCasting),
            token.token_kind is Integer && !(token.span@.len() > 0 && spec_all_digits(token.span@))
                ==> (r matches Err(e) && e.errorkind == ErrorKind::TypeCasting),
            !(token.token_kind is Integer) ==> (r matches Err(e) && e.errorkind
                == ErrorKind::WrongTokenKind),
    {
        if matches!(token.token_kind, TokenKind::Integer) {
            let span = token.borrow_span();
            if span.unicode_len() == 0 || !all_chars_are_digits(span) {
                return Err(
                    Error::new(
                        String::from_str("an integer token has a malformed span"),
                        ErrorKind::TypeCasting,
                        Some(token.start),
                    ),
                );
            }
            match parse_digits(span) {
                Some(value) => Ok(Self { value }),
                None => Err(
                    Error::new(
                        String::from_str("integer literal too large"),
                        ErrorKind::TypeCasting,
                        Some(token.start),
                    ),
                ),
            }
        } else {
            Err(
                Error::new(
                    String::from_str("wrong token kind for an integer node"),
                    ErrorKind::WrongTokenKind,
                    Some(token.start),
                ),
            )
        }
    }
}

/// Whether every character of the span is a decimal digit.
fn all_chars_are_digits(s: &str) -> (r: bool)
    ensures
        r == spec_all_digits(s@),
{
    let n = s.unicode_len();
    let mut i: usize = 0;
    while i < n
        invariant
            0 <= i <= n,
            n == s@.len(),
            forall|j: int| 0 <= j < i ==> crate::chars::spec_is_decimal_digit(#[trigger] s@[j]),
        decreases n - i,
    {
        if !crate::chars::is_decimal_digit(s.get_char(i)) {
            return false;
        }
        i = i + 1;
    }
    true
}

impl FloatNode {
    /// Create a new [`FloatNode`] from the literal text of the float.
    pub fn new(literal: String) -> (r: Self)
        ensures
            r.literal@ == literal@,
    {
        Self { literal }
    }

    /// Get the literal text of the float.
    pub fn get_literal(&self) -> (r: &str)
        ensures
            r@ == self.literal@,
    {
        self.literal.as_str()
    }

    /// Whether the literal has the shape of a complete float: digits, one
    /// full stop not at either end, digits.
    pub open spec fn wf(&self) -> bool {
        spec_float_shape(self.literal@) && self.literal@.last() != '.'
    }
}

impl IdentifierNode {
    /// Create a new [`IdentifierNode`].
    pub fn new(identifier: String) -> (r: Self)
        ensures
            r.identifier@ == identifier@,
    {
        Self { identifier }
    }

    /// Get the name as a string.
    pub fn get_identifier(&self) -> (r: &str)
        ensures
            r@ == self.identifier@,
    {
        self.identifier.as_str()
    }

    /// Whether the name has the shape of an identifier.
    pub open spec fn wf(&self) -> bool {
        spec_identifier_shape(self.identifier@)
    }

    /// Create an [`IdentifierNode`] from one token, which must be an
    /// identifier token.
    pub fn from_token(token: Token) -> (r: Result<Self, Error>)
        ensures
            token.token_kind is Identifier ==> r is Ok && r->Ok_0.identifier@ == token.span@,
            !(token.token_kind is Identifier) ==> (r matches Err(e) && e.errorkind
                == ErrorKind::WrongTokenKind),
    {
        if matches!(token.token_kind, TokenKind::Identifier) {
            Ok(Self { identifier: token.span })
        } else {
            Err(
                Error::new(
                    String::from_str("wrong token kind for an identifier node"),
                    ErrorKind::WrongTokenKind,
                    Some(token.start),
                ),
            )
        }
    }
}

impl VariableExpressionNode {
    /// Create a new [`VariableExpressionNode`].
    pub fn new(identifier: Box<IdentifierNode>) -> (r: Self)
        ensures
            r.identifier == identifier,
    {
        Self { identifier }
    }

    /// Get the identifier.
    pub fn get_identifier(&self) -> (r: &IdentifierNode)
        ensures
            r == &*self.identifier,
    {
        &*self.identifier
    }
}

impl UnaryOperatorNode {
    /// Create a new [`UnaryOperatorNode`].
    pub fn new(operator: Box<Operator>, first: Box<ExprEnum>) -> (r: Self)
        ensures
            r.operator == operator,
            r.first == first,
    {
        Self { operator, first }
    }

    /// Get the operator in the expression.
    pub fn get_operator(&self) -> (r: &Operator)
        ensures
            r == &*self.operator,
    {
        &*self.operator
    }

    /// Get the first argument in the expression.
    pub fn get_first(&self) -> (r: &ExprEnum)
        ensures
            r == &*self.first,
    {
        &*self.first
    }
}

impl BinaryOperatorNode {
    /// Create a new instance of a [`BinaryOperatorNode`].
    pub fn new(operator: Box<Operator>, first: Box<ExprEnum>, second: Box<ExprEnum>) -> (r: Self)
        ensures
            r.operator == operator,
            r.first == first,
            r.second == second,
    {
        Self { operator, first, second }
    }

    /// Get the operator in the expression.
    pub fn get_operator(&self) -> (r: &Operator)
        ensures
            r == &*self.operator,
    {
        &*self.operator
    }

    /// Get the first argument in the expression.
    pub fn get_first(&self) -> (r: &ExprEnum)
        ensures
            r == &*self.first,
    {
        &*self.first
    }

    /// Get the second argument in the expression.
    pub fn get_second(&self) -> (r: &ExprEnum)
        ensures
            r == &*self.second,
    {
        &*self.second
    }
}

impl FunctionCallNode {
    /// Create a new instance of a [`FunctionCallNode`].
    pub fn new(identifier: Box<IdentifierNode>, arguments: Vec<ExprEnum>) -> (r: Self)
        ensures
            r.identifier == identifier,
            r.arguments == arguments,
    {
        Self { identifier, arguments }
    }

    /// Get the name of the function.
    pub fn get_identifier(&self) -> (r: &IdentifierNode)
        ensures
            r == &*self.identifier,
    {
        &*self.identifier
    }

    /// Get the arguments passed to the function.
    pub fn get_arguments(&self) -> (r: &Vec<ExprEnum>)
        ensures
            r == &self.arguments,
    {
        &self.arguments
    }
}

impl FunctionPrototypeNode {
    /// Create a new [`FunctionPrototypeNode`].
    pub fn new(identifier: Box<IdentifierNode>, parameters: Vec<Box<IdentifierNode>>) -> (r: Self)
        ensures
            r.identifier == identifier,
            r.parameters == parameters,
    {
        Self { identifier, parameters }
    }

    /// Get the identifier in the prototype.
    pub fn get_identifier(&self) -> (r: &IdentifierNode)
        ensures
            r == &*self.identifier,
    {
        &*self.identifier
    }

    /// Get the parameters in the prototype.
    pub fn get_parameters(&self) -> (r: &Vec<Box<IdentifierNode>>)
        ensures
            r == &self.parameters,
    {
        &self.parameters
    }

    /// Get the number of parameters this function accepts.
    pub fn count_parameters(&self) -> (r: usize)
        ensures
            r == self.parameters@.len(),
    {
        self.parameters.len()
    }

    /// Get the identifier for the parameter at `index`, if there is one.
    pub fn nth_parameter(&self, index: usize) -> (r: Option<&IdentifierNode>)
        ensures
            index < self.parameters@.len() ==> r == Some(&*self.parameters@[index as int]),
            index >= self.parameters@.len() ==> r is None,
    {
        if index < self.parameters.len() {
            Some(&*self.parameters[index])
        } else {
            None
        }
    }
}

impl FunctionNode {
    /// Create a new [`FunctionNode`].
    pub fn new(prototype: Box<FunctionPrototypeNode>, body: Box<ExprEnum>) -> (r: Self)
        ensures
            r.prototype == prototype,
            r.body == body,
    {
        Self { prototype, body }
    }

    /// Get the prototype in the function definition.
    pub fn get_prototype(&self) -> (r: &FunctionPrototypeNode)
        ensures
            r == &*self.prototype,
    {
        &*self.prototype
    }

    /// Get the body of the function.
    pub fn get_body(&self) -> (r: &ExprEnum)
        ensures
            r == &*self.body,
    {
        &*self.body
    }
}

impl ExternFunctionNode {
    /// Create a new [`ExternFunctionNode`].
    pub fn new(prototype: Box<FunctionPrototypeNode>) -> (r: Self)
        ensures
            r.prototype == prototype,
    {
        Self { prototype }
    }

    /// Get the prototype node that contains the name and parameters of the
    /// function.
    pub fn get_prototype(&self) -> (r: &FunctionPrototypeNode)
        ensures
            r == &*self.prototype,
    {
        &*self.prototype
    }
}

impl Clone for IntegerNode {
    /// A structurally equal copy.
    fn clone(&self) -> (r: Self)
        ensures
            r == *self,
    {
        IntegerNode { value: self.value }
    }
}

impl Clone for FloatNode {
    /// A structurally equal copy.
    fn clone(&self) -> (r: Self)
        ensures
            r == *self,
    {
        FloatNode { literal: self.literal.clone() }
    }
}

impl Clone for IdentifierNode {
    /// A structurally equal copy.
    fn clone(&self) -> (r: Self)
        ensures
            r == *self,
    {
        IdentifierNode { identifier: self.identifier.clone() }
    }
}

impl Clone for VariableExpressionNode {
    /// A structurally equal copy.
    fn clone(&self) -> (r: Self)
        ensures
            r == *self,
    {
        VariableExpressionNode { identifier: Box::new((*self.identifier).clone()) }
    }
}

impl Clone for ExprEnum {
    /// A deep copy of the whole expression tree, structurally equal to the
    /// original and independently owned.
    fn clone(&self) -> (r: Self)
        ensures
            view_expr(r) == view_expr(*self),
        decreases *self,
    {
        match self {
            ExprEnum::Integer(n) => ExprEnum::Integer(n.clone()),
            ExprEnum::Float(n) => ExprEnum::Float(n.clone()),
            ExprEnum::Variable(n) => ExprEnum::Variable(n.clone()),
            ExprEnum::Unary(n) => ExprEnum::Unary(
                UnaryOperatorNode {
                    operator: Box::new(*n.operator),
                    first: Box::new((*n.first).clone()),
                },
            ),
            ExprEnum::Binary(n) => ExprEnum::Binary(
                BinaryOperatorNode {
                    operator: Box::new(*n.operator),
                    first: Box::new((*n.first).clone()),
                    second: Box::new((*n.second).clone()),
                },
            ),
            ExprEnum::Call(n) => {
                let cloned = FunctionCallNode {
                    identifier: Box::new((*n.identifier).clone()),
                    arguments: clone_arguments(&n.arguments),
                };
                proof {
                    lemma_view_expr_list(cloned.arguments@);
                    lemma_view_expr_list(n.arguments@);
                    assert(view_expr_list(cloned.arguments@) =~= view_expr_list(n.arguments@));
                }
                ExprEnum::Call(cloned)
            },
        }
    }
}

impl Clone for UnaryOperatorNode {
    /// A deep, structurally equal copy.
    fn clone(&self) -> (r: Self)
        ensures
            view_expr(ExprEnum::Unary(r)) == view_expr(ExprEnum::Unary(*self)),
    {
        UnaryOperatorNode { operator: Box::new(*self.operator), first: Box::new((*self.first).clone()) }
    }
}

impl Clone for BinaryOperatorNode {
    /// A deep, structurally equal copy.
    fn clone(&self) -> (r: Self)
        ensures
            view_expr(ExprEnum::Binary(r)) == view_expr(ExprEnum::Binary(*self)),
    {
        BinaryOperatorNode {
            operator: Box::new(*self.operator),
            first: Box::new((*self.first).clone()),
            second: Box::new((*self.second).clone()),
        }
    }
}

impl Clone for FunctionCallNode {
    /// A deep, structurally equal copy.
    fn clone(&self) -> (r: Self)
        ensures
            view_expr(ExprEnum::Call(r)) == view_expr(ExprEnum::Call(*self)),
    {
        let cloned = FunctionCallNode {
            identifier: Box::new((*self.identifier).clone()),
            arguments: clone_arguments(&self.arguments),
        };
        proof {
            lemma_view_expr_list(cloned.arguments@);
            lemma_view_expr_list(self.arguments@);
            assert(view_expr_list(cloned.arguments@) =~= view_expr_list(self.arguments@));
        }
        cloned
    }
}

/// A deep copy of an argument list.
fn clone_arguments(arguments: &Vec<ExprEnum>) -> (r: Vec<ExprEnum>)
    ensures
        r@.len() == arguments@.len(),
        forall|j: int|
            0 <= j < arguments@.len() ==> view_expr(#[trigger] r@[j]) == view_expr(
                arguments@[j],
            ),
    decreases *arguments,
{
    let mut out: Vec<ExprEnum> = Vec::new();
    let mut i: usize = 0;
    while i < arguments.len()
        invariant
            0 <= i <= arguments@.len(),
            out@.len() == i,
            forall|j: int|
                0 <= j < i ==> view_expr(#[trigger] out@[j]) == view_expr(arguments@[j]),
        decreases arguments@.len() - i,
    {
        out.push(arguments[i].clone());
        i = i + 1;
    }
    out
}

impl Clone for FunctionPrototypeNode {
    /// A deep, structurally equal copy.
    fn clone(&self) -> (r: Self)
        ensures
            view_proto(r) == view_proto(*self),
    {
        let mut parameters: Vec<Box<IdentifierNode>> = Vec::new();
        let mut i: usize = 0;
        while i < self.parameters.len()
            invariant
                0 <= i <= self.parameters@.len(),
                parameters@.len() == i,
                forall|j: int| 0 <= j < i ==> parameters@[j] == self.parameters@[j],
            decreases self.parameters@.len() - i,
        {
            parameters.push(Box::new((*self.parameters[i]).clone()));
            i = i + 1;
        }
        proof {
            assert(parameters@ =~= self.parameters@);
        }
        FunctionPrototypeNode { identifier: Box::new((*self.identifier).clone()), parameters }
    }
}

impl Clone for FunctionNode {
    /// A deep, structurally equal copy.
    fn clone(&self) -> (r: Self)
        ensures
            view_proto(*r.prototype) == view_proto(*self.prototype),
            view_expr(*r.body) == view_expr(*self.body),
    {
        FunctionNode {
            prototype: Box::new((*self.prototype).clone()),
            body: Box::new((*self.body).clone()),
        }
    }
}

impl Clone for ExternFunctionNode {
    /// A deep, structurally equal copy.
    fn clone(&self) -> (r: Self)
        ensures
            view_proto(*r.prototype) == view_proto(*self.prototype),
    {
        ExternFunctionNode { prototype: Box::new((*self.prototype).clone()) }
    }
}

} // verus!
