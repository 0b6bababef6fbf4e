//! The mathematical views of the AST node types: the same trees, with every
//! string abstracted to its character sequence and every integer to its
//! mathematical value.

use vstd::prelude::*;

use crate::token::operator::Operator;

verus! {

/// The view of an expression node.
pub enum ExprView {
    /// An integer literal.
    Integer(int),
    /// A float literal, kept as its source text.
    FloatLit(Seq<char>),
    /// A variable named by an identifier.
    Variable(Seq<char>),
    /// A unary operator applied to an argument.
    Unary(Operator, Box<ExprView>),
    /// A binary operator owning both children.
    Binary(Operator, Box<ExprView>, Box<ExprView>),
    /// A call of a named function on ordered arguments.
    Call(Seq<char>, Seq<ExprView>),
}

/// The view of any node.
pub enum NodeView {
    /// An expression.
    Expr(ExprView),
    /// A bare identifier.
    Identifier(Seq<char>),
    /// A bare operator.
    Operator(Operator),
    /// A function prototype: its name and its parameter names.
    Prototype(Seq<char>, Seq<Seq<char>>),
    /// A function definition: its prototype and its body.
    Function(Seq<char>, Seq<Seq<char>>, ExprView),
    /// A declaration of a function defined elsewhere.
    ExternFunction(Seq<char>, Seq<Seq<char>>),
}

} // verus!
