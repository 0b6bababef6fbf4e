//! The parser on the documented scenarios.

use kaleidoscope::ast::nodes::{ExprEnum, IdentifierNode};
use kaleidoscope::lexer::stream::CharStream;
use kaleidoscope::lexer::tokenizer::Tokenizer;
use kaleidoscope::parser::parser::Parser;
use kaleidoscope::token::operator::Operator;

fn get_parser(input: &str) -> (Parser, CharStream, Tokenizer) {
    (
        Parser::new(),
        CharStream::from_text(input.chars().collect()),
        Tokenizer::new(),
    )
}

#[test]
fn test_parse_integer() {
    let (mut parser, mut stream, mut tokenizer) = get_parser("420");
    let expression = parser
        .parse_integer_expression(&mut stream, &mut tokenizer)
        .unwrap()
        .unwrap();
    let node = expression.reify_integer().unwrap();
    assert_eq!(node.get_value(), 420);
}

#[test]
fn test_parse_float() {
    let (mut parser, mut stream, mut tokenizer) = get_parser("3.8");
    let expression = parser
        .parse_float_expression(&mut stream, &mut tokenizer)
        .unwrap()
        .unwrap();
    let node = expression.reify_float().unwrap();
    assert_eq!(node.get_literal().parse::<f64>().unwrap(), 3.8);
}

#[test]
fn test_parse_variable_expression() {
    let (mut parser, mut stream, mut tokenizer) = get_parser("var1");
    let expression = parser
        .parse_variable_expression(&mut stream, &mut tokenizer)
        .unwrap()
        .unwrap();
    let node = expression.reify_variable().unwrap();
    assert_eq!(node.get_identifier().get_identifier(), "var1");
}

#[test]
fn test_round_bracket() {
    let (mut parser, mut stream, mut tokenizer) = get_parser("(5.0)");
    let expression = parser
        .parse_round_bracket_expression(&mut stream, &mut tokenizer)
        .unwrap()
        .unwrap();
    let node = expression.reify_float().unwrap();
    assert_eq!(node.get_literal().parse::<f64>().unwrap(), 5.0);
}

fn as_integer(e: &ExprEnum) -> i128 {
    e.clone().reify_integer().unwrap().get_value()
}

#[test]
fn test_binop_0() {
    let (mut parser, mut stream, mut tokenizer) = get_parser("1 + 2");
    let expression = parser
        .parse_expression(&mut stream, &mut tokenizer)
        .unwrap()
        .unwrap();
    let node = expression.reify_binary().unwrap();
    assert_eq!(*node.get_operator(), Operator::Plus);
    assert_eq!(as_integer(node.get_first()), 1);
    assert_eq!(as_integer(node.get_second()), 2);
}

#[test]
fn test_binop_1() {
    let (mut parser, mut stream, mut tokenizer) = get_parser("1 + 2 * 3");
    let expression = parser
        .parse_expression(&mut stream, &mut tokenizer)
        .unwrap()
        .unwrap();
    let node = expression.reify_binary().unwrap();
    assert_eq!(*node.get_operator(), Operator::Plus);
    assert_eq!(as_integer(node.get_first()), 1);
    let right_node = node.get_second().clone().reify_binary().unwrap();
    assert_eq!(*right_node.get_operator(), Operator::Multiply);
    assert_eq!(as_integer(right_node.get_first()), 2);
    assert_eq!(as_integer(right_node.get_second()), 3);
}

#[test]
fn test_binop_2() {
    let (mut parser, mut stream, mut tokenizer) = get_parser("1 + 2 * 3 / 4");
    let expression = parser
        .parse_expression(&mut stream, &mut tokenizer)
        .unwrap()
        .unwrap();
    let node = expression.reify_binary().unwrap();
    assert_eq!(*node.get_operator(), Operator::Plus);
    assert_eq!(as_integer(node.get_first()), 1);
    let right_node = node.get_second().clone().reify_binary().unwrap();
    assert_eq!(*right_node.get_operator(), Operator::Divide);
    let right_left_node = right_node.get_first().clone().reify_binary().unwrap();
    assert_eq!(*right_left_node.get_operator(), Operator::Multiply);
    assert_eq!(as_integer(right_left_node.get_first()), 2);
    assert_eq!(as_integer(right_left_node.get_second()), 3);
    assert_eq!(as_integer(right_node.get_second()), 4);
}

#[test]
fn test_binop_3() {
    let (mut parser, mut stream, mut tokenizer) = get_parser("1 + 2 * 3 / 4 - 5");
    let expression = parser
        .parse_expression(&mut stream, &mut tokenizer)
        .unwrap()
        .unwrap();
    let node = expression.reify_binary().unwrap();
    assert_eq!(*node.get_operator(), Operator::Minus);
    let left_node = node.get_first().clone().reify_binary().unwrap();
    assert_eq!(*left_node.get_operator(), Operator::Plus);
    assert_eq!(as_integer(left_node.get_first()), 1);
    let left_right_node = left_node.get_second().clone().reify_binary().unwrap();
    assert_eq!(*left_right_node.get_operator(), Operator::Divide);
    let left_right_left_node = left_right_node.get_first().clone().reify_binary().unwrap();
    assert_eq!(*left_right_left_node.get_operator(), Operator::Multiply);
    assert_eq!(as_integer(left_right_left_node.get_first()), 2);
    assert_eq!(as_integer(left_right_left_node.get_second()), 3);
    assert_eq!(as_integer(left_right_node.get_second()), 4);
    assert_eq!(as_integer(node.get_second()), 5);
}

#[test]
fn test_function_prototype() {
    let (mut parser, mut stream, mut tokenizer) = get_parser("def pow(a, b)");
    let prototype = parser
        .parse_function_prototype(&mut stream, &mut tokenizer)
        .unwrap()
        .unwrap();
    assert_eq!(prototype.get_identifier().get_identifier(), "pow");
    assert_eq!(
        prototype.get_parameters(),
        &["a", "b"]
            .iter()
            .map(|s| Box::new(IdentifierNode::new(s.to_string())))
            .collect::<Vec<Box<IdentifierNode>>>()
    );
}

#[test]
fn test_extern_function() {
    let input = format!(
        "ext{} def iconv(cd, inbuf, inbytesleft, outbuf, outbytesleft)",
        "ern"
    );
    let (mut parser, mut stream, mut tokenizer) = get_parser(&input);
    let external = parser
        .parse_extern_function(&mut stream, &mut tokenizer)
        .unwrap()
        .unwrap();
    let prototype = external.get_prototype();
    assert_eq!(prototype.get_identifier().get_identifier(), "iconv");
    assert_eq!(
        prototype.get_parameters(),
        &["cd", "inbuf", "inbytesleft", "outbuf", "outbytesleft"]
            .iter()
            .map(|s| Box::new(IdentifierNode::new(s.to_string())))
            .collect::<Vec<Box<IdentifierNode>>>()
    );
}

#[test]
fn test_function_definition() {
    let (mut parser, mut stream, mut tokenizer) = get_parser("def pow(a, b) a");
    let function = parser
        .parse_function(&mut stream, &mut tokenizer)
        .unwrap()
        .unwrap();
    assert_eq!(function.get_prototype().get_identifier().get_identifier(), "pow");
    assert_eq!(function.get_prototype().count_parameters(), 2);
    let body = function.get_body().clone().reify_variable().unwrap();
    assert_eq!(body.get_identifier().get_identifier(), "a");
}

#[test]
fn test_function_call() {
    let (mut parser, mut stream, mut tokenizer) = get_parser("f(1, 2, 3)");
    let expression = parser
        .parse_expression(&mut stream, &mut tokenizer)
        .unwrap()
        .unwrap();
    let call = expression.reify_call().unwrap();
    assert_eq!(call.get_identifier().get_identifier(), "f");
    let values: Vec<i128> = call.get_arguments().iter().map(as_integer).collect();
    assert_eq!(values, vec![1, 2, 3]);
}

#[test]
fn test_missing_closing_bracket() {
    let (mut parser, mut stream, mut tokenizer) = get_parser("(1 + 2");
    let result = parser.parse_expression(&mut stream, &mut tokenizer);
    let error = result.unwrap_err();
    assert!(matches!(
        error.errorkind,
        kaleidoscope::parser::error::ErrorKind::SyntaxError
    ));
}

#[test]
fn test_expression_after_comment() {
    let (mut parser, mut stream, mut tokenizer) = get_parser("# comment\n1 + 1");
    let expression = parser
        .parse_expression(&mut stream, &mut tokenizer)
        .unwrap()
        .unwrap();
    let node = expression.reify_binary().unwrap();
    assert_eq!(*node.get_operator(), Operator::Plus);
    assert_eq!(as_integer(node.get_first()), 1);
    assert_eq!(as_integer(node.get_second()), 1);
}

#[test]
fn test_trailing_comma_is_rejected() {
    let (mut parser, mut stream, mut tokenizer) = get_parser("f(1, 2,)");
    let result = parser.parse_expression(&mut stream, &mut tokenizer);
    let error = result.unwrap_err();
    assert!(matches!(
        error.errorkind,
        kaleidoscope::parser::error::ErrorKind::SyntaxError
    ));
}

#[test]
fn test_empty_argument_list_is_valid() {
    let (mut parser, mut stream, mut tokenizer) = get_parser("f()");
    let expression = parser
        .parse_expression(&mut stream, &mut tokenizer)
        .unwrap()
        .unwrap();
    let call = expression.reify_call().unwrap();
    assert_eq!(call.get_arguments().len(), 0);
}

#[test]
fn test_unterminated_expression() {
    let (mut parser, mut stream, mut tokenizer) = get_parser("1 2");
    let result = parser.parse_expression(&mut stream, &mut tokenizer);
    let error = result.unwrap_err();
    assert!(matches!(
        error.errorkind,
        kaleidoscope::parser::error::ErrorKind::SyntaxError
    ));
}
