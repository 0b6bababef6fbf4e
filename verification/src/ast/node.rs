//! The two capability tiers of the AST — any node, and expression nodes —
//! with the identifier machinery that routes a node of statically unknown
//! type back to its concrete variant.

use vstd::prelude::*;

use crate::token::operator::Operator;
use super::nodeid::NodeId;
use super::nodes::{
    view_expr, view_proto, BinaryOperatorNode, ExprEnum, ExternFunctionNode, FloatNode,
    FunctionCallNode, FunctionNode, FunctionPrototypeNode, IdentifierNode, IntegerNode,
    UnaryOperatorNode, VariableExpressionNode,
};
use super::view::NodeView;

verus! {

/// Any AST node: an expression, or one of the non-expression forms.
#[derive(Debug)]
pub enum NodeEnum {
    Expr(ExprEnum),
    Identifier(IdentifierNode),
    Operator(Operator),
    Prototype(FunctionPrototypeNode),
    Function(FunctionNode),
    ExternFunction(ExternFunctionNode),
}

/// The view of any node.
pub open spec fn view_node(n: NodeEnum) -> NodeView {
    match n {
        NodeEnum::Expr(e) => NodeView::Expr(view_expr(e)),
        NodeEnum::Identifier(i) => NodeView::Identifier(i.identifier@),
        NodeEnum::Operator(op) => NodeView::Operator(op),
        NodeEnum::Prototype(p) => NodeView::Prototype(view_proto(p).0, view_proto(p).1),
        NodeEnum::Function(f) => NodeView::Function(
            view_proto(*f.prototype).0,
            view_proto(*f.prototype).1,
            view_expr(*f.body),
        ),
        NodeEnum::ExternFunction(x) => NodeView::ExternFunction(
            view_proto(*x.prototype).0,
            view_proto(*x.prototype).1,
        ),
    }
}

/// A node type: every value of the type answers the same identifier, unique
/// to the type.
pub trait NodeType: Sized {
    /// The identifier of this node type.
    spec fn spec_node_id() -> NodeId;

    /// Get the identifier of this node type.
    fn node_id() -> (r: NodeId)
        ensures
            r == Self::spec_node_id(),
    ;
}

/// The trait all node values offer: each value answers the identifier of its
/// concrete type.
pub trait Node {
    /// The identifier of the value's concrete type.
    spec fn spec_node_id_of_val(&self) -> NodeId;

    /// Get the identifier of the value's concrete type.
    fn node_id_of_val(&self) -> (r: NodeId)
        ensures
            r == self.spec_node_id_of_val(),
    ;
}

/// A node that participates in expression position.
pub trait ExprNode: Node {

}

impl NodeType for IdentifierNode {
    open spec fn spec_node_id() -> NodeId {
        NodeId { numeric: 2 }
    }

    fn node_id() -> NodeId {
        NodeId::new(2)
    }
}

impl NodeType for Operator {
    open spec fn spec_node_id() -> NodeId {
        NodeId { numeric: 3 }
    }

    fn node_id() -> NodeId {
        NodeId::new(3)
    }
}

impl NodeType for IntegerNode {
    open spec fn spec_node_id() -> NodeId {
        NodeId { numeric: 4 }
    }

    fn node_id() -> NodeId {
        NodeId::new(4)
    }
}

impl NodeType for FloatNode {
    open spec fn spec_node_id() -> NodeId {
        NodeId { numeric: 5 }
    }

    fn node_id() -> NodeId {
        NodeId::new(5)
    }
}

impl NodeType for UnaryOperatorNode {
    open spec fn spec_node_id() -> NodeId {
        NodeId { numeric: 6 }
    }

    fn node_id() -> NodeId {
        NodeId::new(6)
    }
}

impl NodeType for BinaryOperatorNode {
    open spec fn spec_node_id() -> NodeId {
        NodeId { numeric: 7 }
    }

    fn node_id() -> NodeId {
        NodeId::new(7)
    }
}

impl NodeType for FunctionCallNode {
    open spec fn spec_node_id() -> NodeId {
        NodeId { numeric: 11 }
    }

    fn node_id() -> NodeId {
        NodeId::new(11)
    }
}

impl NodeType for FunctionPrototypeNode {
    open spec fn spec_node_id() -> NodeId {
        NodeId { numeric: 12 }
    }

    fn node_id() -> NodeId {
        NodeId::new(12)
    }
}

impl NodeType for FunctionNode {
    open spec fn spec_node_id() -> NodeId {
        NodeId { numeric: 14 }
    }

    fn node_id() -> NodeId {
        NodeId::new(14)
    }
}

impl NodeType for VariableExpressionNode {
    open spec fn spec_node_id() -> NodeId {
        NodeId { numeric: 15 }
    }

    fn node_id() -> NodeId {
        NodeId::new(15)
    }
}

impl NodeType for ExternFunctionNode {
    open spec fn spec_node_id() -> NodeId {
        NodeId { numeric: 16 }
    }

    fn node_id() -> NodeId {
        NodeId::new(16)
    }
}

impl Node for IdentifierNode {
    open spec fn spec_node_id_of_val(&self) -> NodeId {
        Self::spec_node_id()
    }

    fn node_id_of_val(&self) -> NodeId {
        Self::node_id()
    }
}

impl Node for Operator {
    open spec fn spec_node_id_of_val(&self) -> NodeId {
        Self::spec_node_id()
    }

    fn node_id_of_val(&self) -> NodeId {
        Self::node_id()
    }
}

impl Node for IntegerNode {
    open spec fn spec_node_id_of_val(&self) -> NodeId {
        Self::spec_node_id()
    }

    fn node_id_of_val(&self) -> NodeId {
        Self::node_id()
    }
}

impl Node for FloatNode {
    open spec fn spec_node_id_of_val(&self) -> NodeId {
        Self::spec_node_id()
    }

    fn node_id_of_val(&self) -> NodeId {
        Self::node_id()
    }
}

impl Node for UnaryOperatorNode {
    open spec fn spec_node_id_of_val(&self) -> NodeId {
        Self::spec_node_id()
    }

    fn node_id_of_val(&self) -> NodeId {
        Self::node_id()
    }
}

impl Node for BinaryOperatorNode {
    open spec fn spec_node_id_of_val(&self) -> NodeId {
        Self::spec_node_id()
    }

    fn node_id_of_val(&self) -> NodeId {
        Self::node_id()
    }
}

impl Node for FunctionCallNode {
    open spec fn spec_node_id_of_val(&self) -> NodeId {
        Self::spec_node_id()
    }

    fn node_id_of_val(&self) -> NodeId {
        Self::node_id()
    }
}

impl Node for FunctionPrototypeNode {
    open spec fn spec_node_id_of_val(&self) -> NodeId {
        Self::spec_node_id()
    }

    fn node_id_of_val(&self) -> NodeId {
        Self::node_id()
    }
}

impl Node for FunctionNode {
    open spec fn spec_node_id_of_val(&self) -> NodeId {
        Self::spec_node_id()
    }

    fn node_id_of_val(&self) -> NodeId {
        Self::node_id()
    }
}

impl Node for VariableExpressionNode {
    open spec fn spec_node_id_of_val(&self) -> NodeId {
        Self::spec_node_id()
    }

    fn node_id_of_val(&self) -> NodeId {
        Self::node_id()
    }
}

impl Node for ExternFunctionNode {
    open spec fn spec_node_id_of_val(&self) -> NodeId {
        Self::spec_node_id()
    }

    fn node_id_of_val(&self) -> NodeId {
        Self::node_id()
    }
}

impl ExprNode for IntegerNode {

}

impl ExprNode for FloatNode {

}

impl ExprNode for UnaryOperatorNode {

}

impl ExprNode for BinaryOperatorNode {

}

impl ExprNode for FunctionCallNode {

}

impl ExprNode for VariableExpressionNode {

}

impl Node for ExprEnum {
    /// The identifier of the concrete variant held.
    open spec fn spec_node_id_of_val(&self) -> NodeId {
        match self {
            ExprEnum::Integer(_) => IntegerNode::spec_node_id(),
            ExprEnum::Float(_) => FloatNode::spec_node_id(),
            ExprEnum::Variable(_) => VariableExpressionNode::spec_node_id(),
            ExprEnum::Unary(_) => UnaryOperatorNode::spec_node_id(),
            ExprEnum::Binary(_) => BinaryOperatorNode::spec_node_id(),
            ExprEnum::Call(_) => FunctionCallNode::spec_node_id(),
        }
    }

    fn node_id_of_val(&self) -> NodeId {
        match self {
            ExprEnum::Integer(n) => n.node_id_of_val(),
            ExprEnum::Float(n) => n.node_id_of_val(),
            ExprEnum::Variable(n) => n.node_id_of_val(),
            ExprEnum::Unary(n) => n.node_id_of_val(),
            ExprEnum::Binary(n) => n.node_id_of_val(),
            ExprEnum::Call(n) => n.node_id_of_val(),
        }
    }
}

impl ExprNode for ExprEnum {

}

impl Node for NodeEnum {
    /// The identifier of the concrete variant held.
    open spec fn spec_node_id_of_val(&self) -> NodeId {
        match self {
            NodeEnum::Expr(e) => e.spec_node_id_of_val(),
            NodeEnum::Identifier(_) => IdentifierNode::spec_node_id(),
            NodeEnum::Operator(_) => Operator::spec_node_id(),
            NodeEnum::Prototype(_) => FunctionPrototypeNode::spec_node_id(),
            NodeEnum::Function(_) => FunctionNode::spec_node_id(),
            NodeEnum::ExternFunction(_) => ExternFunctionNode::spec_node_id(),
        }
    }

    fn node_id_of_val(&self) -> NodeId {
        match self {
            NodeEnum::Expr(e) => e.node_id_of_val(),
            NodeEnum::Identifier(n) => n.node_id_of_val(),
            NodeEnum::Operator(n) => n.node_id_of_val(),
            NodeEnum::Prototype(n) => n.node_id_of_val(),
            NodeEnum::Function(n) => n.node_id_of_val(),
            NodeEnum::ExternFunction(n) => n.node_id_of_val(),
        }
    }
}

/// Convert an expression node to a node: an expression is-a node.
pub fn upcast_expr_node(node: ExprEnum) -> (r: NodeEnum)
    ensures
        r == NodeEnum::Expr(node),
{
    NodeEnum::Expr(node)
}

impl ExprEnum {
    /// Recover the concrete integer node. Succeeds exactly when the value's
    /// identifier is the integer node type's.
    pub fn reify_integer(self) -> (r: Option<IntegerNode>)
        ensures
            r is Some <==> self.spec_node_id_of_val() == IntegerNode::spec_node_id(),
            self matches ExprEnum::Integer(n) ==> r == Some(n),
    {
        match self {
            ExprEnum::Integer(n) => Some(n),
            _ => None,
        }
    }

    /// Recover the concrete float node.
    pub fn reify_float(self) -> (r: Option<FloatNode>)
        ensures
            r is Some <==> self.spec_node_id_of_val() == FloatNode::spec_node_id(),
            self matches ExprEnum::Float(n) ==> r == Some(n),
    {
        match self {
            ExprEnum::Float(n) => Some(n),
            _ => None,
        }
    }

    /// Recover the concrete variable expression node.
    pub fn reify_variable(self) -> (r: Option<VariableExpressionNode>)
        ensures
            r is Some <==> self.spec_node_id_of_val() == VariableExpressionNode::spec_node_id(),
            self matches ExprEnum::Variable(n) ==> r == Some(n),
    {
        match self {
            ExprEnum::Variable(n) => Some(n),
            _ => None,
        }
    }

    /// Recover the concrete unary operator node.
    pub fn reify_unary(self) -> (r: Option<UnaryOperatorNode>)
        ensures
            r is Some <==> self.spec_node_id_of_val() == UnaryOperatorNode::spec_node_id(),
            self matches ExprEnum::Unary(n) ==> r is Some,
    {
        match self {
            ExprEnum::Unary(n) => Some(n),
            _ => None,
        }
    }

    /// Recover the concrete binary operator node.
    pub fn reify_binary(self) -> (r: Option<BinaryOperatorNode>)
        ensures
            r is Some <==> self.spec_node_id_of_val() == BinaryOperatorNode::spec_node_id(),
            self matches ExprEnum::Binary(n) ==> (r matches Some(b) && b == n),
    {
        match self {
            ExprEnum::Binary(n) => Some(n),
            _ => None,
        }
    }

    /// Recover the concrete function call node.
    pub fn reify_call(self) -> (r: Option<FunctionCallNode>)
        ensures
            r is Some <==> self.spec_node_id_of_val() == FunctionCallNode::spec_node_id(),
            self matches ExprEnum::Call(n) ==> (r matches Some(c) && c == n),
    {
        match self {
            ExprEnum::Call(n) => Some(n),
            _ => None,
        }
    }
}

impl NodeEnum {
    /// Recover the expression held, if the node is one.
    pub fn reify_expr(self) -> (r: Option<ExprEnum>)
        ensures
            r is Some <==> self is Expr,
            self matches NodeEnum::Expr(e) ==> (r matches Some(e2) && e2 == e),
    {
        match self {
            NodeEnum::Expr(e) => Some(e),
            _ => None,
        }
    }

    /// Recover the concrete identifier node. Succeeds exactly when the
    /// value's identifier matches the identifier node type's.
    pub fn reify_identifier(self) -> (r: Option<IdentifierNode>)
        ensures
            r is Some <==> self.spec_node_id_of_val() == IdentifierNode::spec_node_id(),
            self matches NodeEnum::Identifier(n) ==> r == Some(n),
    {
        match self {
            NodeEnum::Identifier(n) => Some(n),
            _ => None,
        }
    }

    /// Recover the concrete operator node.
    pub fn reify_operator(self) -> (r: Option<Operator>)
        ensures
            r is Some <==> self.spec_node_id_of_val() == Operator::spec_node_id(),
            self matches NodeEnum::Operator(n) ==> r == Some(n),
    {
        match self {
            NodeEnum::Operator(n) => Some(n),
            _ => None,
        }
    }

    /// Recover the concrete prototype node.
    pub fn reify_prototype(self) -> (r: Option<FunctionPrototypeNode>)
        ensures
            r is Some <==> self.spec_node_id_of_val() == FunctionPrototypeNode::spec_node_id(),
            self matches NodeEnum::Prototype(n) ==> (r matches Some(p) && p == n),
    {
        match self {
            NodeEnum::Prototype(n) => Some(n),
            _ => None,
        }
    }

    /// Recover the concrete function definition node.
    pub fn reify_function(self) -> (r: Option<FunctionNode>)
        ensures
            r is Some <==> self.spec_node_id_of_val() == FunctionNode::spec_node_id(),
            self matches NodeEnum::Function(n) ==> (r matches Some(f) && f == n),
    {
        match self {
            NodeEnum::Function(n) => Some(n),
            _ => None,
        }
    }

    /// Recover the concrete external declaration node.
    pub fn reify_extern_function(self) -> (r: Option<ExternFunctionNode>)
        ensures
            r is Some <==> self.spec_node_id_of_val() == ExternFunctionNode::spec_node_id(),
            self matches NodeEnum::ExternFunction(n) ==> (r matches Some(x) && x == n),
    {
        match self {
            NodeEnum::ExternFunction(n) => Some(n),
            _ => None,
        }
    }
}

} // verus!
