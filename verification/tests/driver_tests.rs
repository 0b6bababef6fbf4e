//! The driver and interpreter on whole programs.

use kaleidoscope::ast::node::NodeEnum;
use kaleidoscope::lexer::stream::CharStream;
use kaleidoscope::lexer::tokenizer::Tokenizer;
use kaleidoscope::parser::driver::{Driver, Interpreter};
use kaleidoscope::parser::parser::Parser;
use kaleidoscope::token::operator::Operator;

fn parse_one(input: &str) -> Option<NodeEnum> {
    let driver = Driver::new(false, String::from("::> "), 0);
    let mut stream = CharStream::from_text(input.chars().collect());
    let mut tokenizer = Tokenizer::new();
    let mut parser = Parser::new();
    driver
        .parse_one(&mut stream, &mut tokenizer, &mut parser)
        .unwrap()
        .map(|n| *n)
}

#[test]
fn test_parse_one_integer() {
    let node = parse_one("420").unwrap();
    let value = node
        .reify_expr()
        .unwrap()
        .reify_integer()
        .unwrap()
        .get_value();
    assert_eq!(value, 420);
}

#[test]
fn test_parse_one_float() {
    let node = parse_one("3.8").unwrap();
    let literal_value = node
        .reify_expr()
        .unwrap()
        .reify_float()
        .unwrap()
        .get_literal()
        .parse::<f64>()
        .unwrap();
    assert_eq!(literal_value, 3.8);
}

#[test]
fn test_parse_one_variable() {
    let node = parse_one("var1").unwrap();
    let variable = node.reify_expr().unwrap().reify_variable().unwrap();
    assert_eq!(variable.get_identifier().get_identifier(), "var1");
}

#[test]
fn test_parse_one_bracketed_float() {
    let node = parse_one("(5.0)").unwrap();
    let float = node.reify_expr().unwrap().reify_float().unwrap();
    assert_eq!(float.get_literal(), "5.0");
}

#[test]
fn test_parse_one_function_definition() {
    let node = parse_one("def pow(a, b) a").unwrap();
    let function = node.reify_function().unwrap();
    assert_eq!(function.get_prototype().to_text(), "def pow(a, b)");
    let body = function.get_body().clone().reify_variable().unwrap();
    assert_eq!(body.get_identifier().get_identifier(), "a");
}

#[test]
fn test_parse_one_extern_function() {
    let input = format!(
        "ext{} def iconv(cd, inbuf, inbytesleft, outbuf, outbytesleft)",
        "ern"
    );
    let node = parse_one(&input).unwrap();
    let external = node.reify_extern_function().unwrap();
    assert_eq!(external.get_prototype().count_parameters(), 5);
    assert_eq!(
        external.get_prototype().get_identifier().get_identifier(),
        "iconv"
    );
}

#[test]
fn test_parse_one_precedence_shape() {
    // `x a y b z` with b binding tighter: the tree nests to the right.
    let node = parse_one("1 + 2 * 3").unwrap();
    let top = node.reify_expr().unwrap().reify_binary().unwrap();
    assert_eq!(*top.get_operator(), Operator::Plus);
    let right = top.get_second().clone().reify_binary().unwrap();
    assert_eq!(*right.get_operator(), Operator::Multiply);

    // `x a y b z` with a binding tighter: the tree nests to the left.
    let node = parse_one("1 * 2 + 3").unwrap();
    let top = node.reify_expr().unwrap().reify_binary().unwrap();
    assert_eq!(*top.get_operator(), Operator::Plus);
    let left = top.get_first().clone().reify_binary().unwrap();
    assert_eq!(*left.get_operator(), Operator::Multiply);

    // Equal precedences associate to the left.
    let node = parse_one("1 + 2 + 3").unwrap();
    let top = node.reify_expr().unwrap().reify_binary().unwrap();
    assert_eq!(*top.get_operator(), Operator::Plus);
    let left = top.get_first().clone().reify_binary().unwrap();
    assert_eq!(*left.get_operator(), Operator::Plus);
    assert_eq!(
        left.get_second().clone().reify_integer().unwrap().get_value(),
        2
    );
}

#[test]
fn test_inorder_leaves_follow_source_order() {
    // A left-to-right inorder walk of the leaves reproduces the order of the
    // primaries in the source, whatever the tree shape.
    fn leaves(e: &kaleidoscope::ast::nodes::ExprEnum, out: &mut Vec<i128>) {
        match e.clone().reify_binary() {
            Some(b) => {
                leaves(b.get_first(), out);
                leaves(b.get_second(), out);
            }
            None => out.push(e.clone().reify_integer().unwrap().get_value()),
        }
    }
    let node = parse_one("1 + 2 * 3 / 4 - 5 < 6").unwrap();
    let expr = node.reify_expr().unwrap();
    let mut out = Vec::new();
    leaves(&expr, &mut out);
    assert_eq!(out, vec![1, 2, 3, 4, 5, 6]);
}

#[test]
fn test_interpreter_counts_statements() {
    let stream = CharStream::from_text("1 + 1; 2 * 3; def f(x) x".chars().collect());
    let mut interpreter = Interpreter::new(false, stream, 0);
    let count = interpreter.main_loop();
    assert_eq!(count, 3);
}

#[test]
fn test_interpreter_stops_on_error() {
    let stream = CharStream::from_text("1 + ; 2".chars().collect());
    let mut interpreter = Interpreter::new(false, stream, 0);
    let count = interpreter.main_loop();
    assert_eq!(count, 0);
    assert!(interpreter.get_last_error().is_some());
}

#[test]
fn test_parse_one_empty_input() {
    assert!(parse_one("").is_none());
}

#[test]
fn test_parse_one_rejects_stray_tokens() {
    // A token that opens no construct is an error, never swallowed.
    let driver = Driver::new(false, String::from("::> "), 0);
    let mut stream = CharStream::from_text(", 1".chars().collect());
    let mut tokenizer = Tokenizer::new();
    let mut parser = Parser::new();
    let result = driver.parse_one(&mut stream, &mut tokenizer, &mut parser);
    let error = result.unwrap_err();
    assert!(matches!(
        error.errorkind,
        kaleidoscope::parser::error::ErrorKind::SyntaxError
    ));
}

#[test]
fn test_parse_one_skips_leftover_semicolons() {
    let node = parse_one(";; 42").unwrap();
    let value = node
        .reify_expr()
        .unwrap()
        .reify_integer()
        .unwrap()
        .get_value();
    assert_eq!(value, 42);
}

#[test]
fn test_top_level_expression_ends_at_semicolon_only() {
    // Inside a list a comma may follow an expression, but a top-level form
    // ends only at a semicolon or the end of the input.
    let mut stream = CharStream::from_text("1 + 2, 3".chars().collect());
    let mut tokenizer = Tokenizer::new();
    let mut parser = Parser::new();
    let result = parser.parse_top_level_expression(&mut stream, &mut tokenizer);
    let error = result.unwrap_err();
    assert!(matches!(
        error.errorkind,
        kaleidoscope::parser::error::ErrorKind::SyntaxError
    ));
}

#[test]
fn test_driver_main_loop_counts() {
    let driver = Driver::new(false, String::from("::> "), 0);
    let mut stream = CharStream::from_text("1; 2; 3".chars().collect());
    let mut tokenizer = Tokenizer::new();
    let mut parser = Parser::new();
    let count = driver
        .main_loop(&mut stream, &mut tokenizer, &mut parser)
        .unwrap();
    assert_eq!(count, 3);
}
