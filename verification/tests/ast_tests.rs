//! Node identifiers, reification and cloning.

use kaleidoscope::ast::node::{Node, NodeEnum, NodeType};
use kaleidoscope::ast::nodes::{
    BinaryOperatorNode, ExprEnum, ExternFunctionNode, FloatNode, FunctionCallNode, FunctionNode,
    FunctionPrototypeNode, IdentifierNode, IntegerNode, UnaryOperatorNode, VariableExpressionNode,
};
use kaleidoscope::ast::NodeId;
use kaleidoscope::token::operator::Operator;

#[test]
fn test_ensure_all_nodes_have_unique_ids() {
    let nodes: Vec<NodeId> = vec![
        BinaryOperatorNode::node_id(),
        ExternFunctionNode::node_id(),
        FloatNode::node_id(),
        FunctionCallNode::node_id(),
        FunctionPrototypeNode::node_id(),
        FunctionNode::node_id(),
        IdentifierNode::node_id(),
        IntegerNode::node_id(),
        Operator::node_id(),
        UnaryOperatorNode::node_id(),
        VariableExpressionNode::node_id(),
    ];
    for (lindex, lhs) in nodes.iter().enumerate() {
        for rhs in &nodes[lindex + 1..] {
            if lhs == rhs {
                panic!("Similar node ids! {}", lhs.get_id());
            }
        }
    }
}

#[test]
fn test_reify_node() {
    let unknown: NodeEnum = NodeEnum::Identifier(IdentifierNode::new(String::from("name")));
    let concrete: IdentifierNode = unknown.reify_identifier().unwrap();
    assert_eq!(concrete.get_identifier(), "name");

    let unknown: NodeEnum = NodeEnum::Operator(Operator::Plus);
    assert!(unknown.reify_identifier().is_none());
}

#[test]
fn test_reify_expr_node() {
    let unknown: ExprEnum = ExprEnum::Float(FloatNode::new(String::from("2.718")));
    let concrete: FloatNode = unknown.reify_float().unwrap();
    assert_eq!(concrete.get_literal().parse::<f64>().unwrap(), 2.718);

    let unknown: ExprEnum = ExprEnum::Integer(IntegerNode::new(55));
    assert!(unknown.reify_float().is_none());
}

#[test]
fn test_node_id_of_values_matches_types() {
    let n = NodeEnum::Expr(ExprEnum::Integer(IntegerNode::new(7)));
    assert_eq!(n.node_id_of_val(), IntegerNode::node_id());
    assert_ne!(n.node_id_of_val(), FloatNode::node_id());
    let p = NodeEnum::Prototype(FunctionPrototypeNode::new(
        Box::new(IdentifierNode::new(String::from("f"))),
        Vec::new(),
    ));
    assert_eq!(p.node_id_of_val(), FunctionPrototypeNode::node_id());
}

#[test]
fn test_clone_is_structurally_equal_and_independent() {
    let tree = ExprEnum::Binary(BinaryOperatorNode::new(
        Box::new(Operator::Plus),
        Box::new(ExprEnum::Integer(IntegerNode::new(1))),
        Box::new(ExprEnum::Call(FunctionCallNode::new(
            Box::new(IdentifierNode::new(String::from("f"))),
            vec![
                ExprEnum::Variable(VariableExpressionNode::new(Box::new(IdentifierNode::new(
                    String::from("x"),
                )))),
                ExprEnum::Float(FloatNode::new(String::from("1.5"))),
            ],
        ))),
    ));
    let copy = tree.clone();
    // Structural equality via the text form; independence: the original can
    // be dropped while the copy lives on.
    let copy_text = copy.to_text();
    let original_text = tree.to_text();
    assert_eq!(copy_text, original_text);
    drop(tree);
    assert_eq!(copy.to_text(), copy_text);

    let proto = FunctionPrototypeNode::new(
        Box::new(IdentifierNode::new(String::from("pow"))),
        vec![
            Box::new(IdentifierNode::new(String::from("a"))),
            Box::new(IdentifierNode::new(String::from("b"))),
        ],
    );
    let proto_copy = proto.clone();
    assert_eq!(proto, proto_copy);

    let function = FunctionNode::new(
        Box::new(proto),
        Box::new(ExprEnum::Variable(VariableExpressionNode::new(Box::new(
            IdentifierNode::new(String::from("a")),
        )))),
    );
    let function_copy = function.clone();
    assert_eq!(function.to_text(), function_copy.to_text());
}

#[test]
fn test_display_forms() {
    let call = ExprEnum::Call(FunctionCallNode::new(
        Box::new(IdentifierNode::new(String::from("f"))),
        vec![
            ExprEnum::Integer(IntegerNode::new(1)),
            ExprEnum::Integer(IntegerNode::new(-2)),
        ],
    ));
    assert_eq!(call.to_text(), "f((1), (-2))");

    let binary = ExprEnum::Binary(BinaryOperatorNode::new(
        Box::new(Operator::Multiply),
        Box::new(ExprEnum::Integer(IntegerNode::new(2))),
        Box::new(ExprEnum::Float(FloatNode::new(String::from("3.5")))),
    ));
    assert_eq!(binary.to_text(), "((2) * (3.5))");

    let unary = ExprEnum::Unary(UnaryOperatorNode::new(
        Box::new(Operator::Minus),
        Box::new(ExprEnum::Variable(VariableExpressionNode::new(Box::new(
            IdentifierNode::new(String::from("x")),
        )))),
    ));
    assert_eq!(unary.to_text(), "(-x)");

    let proto = FunctionPrototypeNode::new(
        Box::new(IdentifierNode::new(String::from("pow"))),
        vec![
            Box::new(IdentifierNode::new(String::from("a"))),
            Box::new(IdentifierNode::new(String::from("b"))),
        ],
    );
    assert_eq!(proto.to_text(), "def pow(a, b)");

    let external = ExternFunctionNode::new(Box::new(FunctionPrototypeNode::new(
        Box::new(IdentifierNode::new(String::from("sin"))),
        vec![Box::new(IdentifierNode::new(String::from("x")))],
    )));
    assert_eq!(external.to_text(), format!("ext{} def sin(x)", "ern"));
}

#[test]
fn test_prototype_display_round_trip() {
    // A well-formed prototype text parses and displays back to itself.
    let text = "def pow(a, b)";
    let mut parser = kaleidoscope::parser::parser::Parser::new();
    let mut stream = kaleidoscope::lexer::stream::CharStream::from_text(text.chars().collect());
    let mut tokenizer = kaleidoscope::lexer::tokenizer::Tokenizer::new();
    let prototype = parser
        .parse_function_prototype(&mut stream, &mut tokenizer)
        .unwrap()
        .unwrap();
    assert_eq!(prototype.to_text(), text);
}
