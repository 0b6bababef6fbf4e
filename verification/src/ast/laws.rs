//! Properties of the node identifiers: each concrete node type answers an
//! identifier unique to it, so that reification to the same variant
//! succeeds and reification to any other variant fails.

use vstd::prelude::*;

use crate::token::operator::Operator;
use super::node::{ExprNode, Node, NodeEnum, NodeType};
use super::nodes::{
    BinaryOperatorNode, ExprEnum, ExternFunctionNode, FloatNode, FunctionCallNode, FunctionNode,
    FunctionPrototypeNode, IdentifierNode, IntegerNode, UnaryOperatorNode, VariableExpressionNode,
};

verus! {

/// An expression's identifier names its variant and no other: a value
/// answers a node type's identifier exactly when it belongs to that type.
pub proof fn lemma_expr_id_matches_variant(e: ExprEnum)
    ensures
        e.spec_node_id_of_val() == IntegerNode::spec_node_id() <==> e is Integer,
        e.spec_node_id_of_val() == FloatNode::spec_node_id() <==> e is Float,
        e.spec_node_id_of_val() == VariableExpressionNode::spec_node_id() <==> e is Variable,
        e.spec_node_id_of_val() == UnaryOperatorNode::spec_node_id() <==> e is Unary,
        e.spec_node_id_of_val() == BinaryOperatorNode::spec_node_id() <==> e is Binary,
        e.spec_node_id_of_val() == FunctionCallNode::spec_node_id() <==> e is Call,
{
}

/// A node's identifier names its variant and no other, across the whole
/// node tier: the expression identifiers and the non-expression identifiers
/// never collide.
pub proof fn lemma_node_id_matches_variant(n: NodeEnum)
    ensures
        n.spec_node_id_of_val() == IdentifierNode::spec_node_id() <==> n is Identifier,
        n.spec_node_id_of_val() == Operator::spec_node_id() <==> n is Operator,
        n.spec_node_id_of_val() == FunctionPrototypeNode::spec_node_id() <==> n is Prototype,
        n.spec_node_id_of_val() == FunctionNode::spec_node_id() <==> n is Function,
        n.spec_node_id_of_val() == ExternFunctionNode::spec_node_id() <==> n is ExternFunction,
        n is Expr ==> (n.spec_node_id_of_val() == IntegerNode::spec_node_id() <==> n->Expr_0
            is Integer),
        n is Expr ==> (n.spec_node_id_of_val() == FloatNode::spec_node_id() <==> n->Expr_0
            is Float),
        n is Expr ==> (n.spec_node_id_of_val() == VariableExpressionNode::spec_node_id()
            <==> n->Expr_0 is Variable),
        n is Expr ==> (n.spec_node_id_of_val() == UnaryOperatorNode::spec_node_id() <==> n->Expr_0
            is Unary),
        n is Expr ==> (n.spec_node_id_of_val() == BinaryOperatorNode::spec_node_id() <==> n->Expr_0
            is Binary),
        n is Expr ==> (n.spec_node_id_of_val() == FunctionCallNode::spec_node_id() <==> n->Expr_0
            is Call),
{
}

} // verus!
