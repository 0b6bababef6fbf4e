//! The lexer on concrete inputs: classification, spans, positions, errors.

use kaleidoscope::lexer::error::ErrorKind;
use kaleidoscope::lexer::stream::CharStream;
use kaleidoscope::lexer::tokenizer::Tokenizer;
use kaleidoscope::token::keyword::Keyword;
use kaleidoscope::token::operator::Operator;
use kaleidoscope::token::token::Token;
use kaleidoscope::token::tokenkind::TokenKind;

fn tokenize(input: &str) -> Vec<Token> {
    let mut stream = CharStream::from_text(input.chars().collect());
    let mut tokenizer = Tokenizer::new();
    let mut tokens = Vec::new();
    loop {
        let token = tokenizer.next_token(&mut stream).unwrap();
        let done = token.is_eof();
        tokens.push(token);
        if done {
            break;
        }
    }
    tokens
}

fn kinds(input: &str) -> Vec<TokenKind> {
    tokenize(input).iter().map(|t| t.token_kind).collect()
}

#[test]
fn test_tokenize_expression() {
    let tokens = tokenize("1 + 2 * 3");
    let spans: Vec<&str> = tokens.iter().map(|t| t.borrow_span()).collect();
    assert_eq!(spans, vec!["1", "+", "2", "*", "3", ""]);
    assert_eq!(tokens[1].token_kind, TokenKind::Operator(Operator::Plus));
    assert_eq!(tokens[3].token_kind, TokenKind::Operator(Operator::Multiply));
    assert!(tokens[5].is_eof());
}

#[test]
fn test_tokenize_keywords_and_identifiers() {
    let input = format!("def defx if else ext{}", "ern");
    let tokens = tokenize(&input);
    assert_eq!(tokens[0].token_kind, TokenKind::Keyword(Keyword::Def));
    assert_eq!(tokens[1].token_kind, TokenKind::Identifier);
    assert_eq!(tokens[1].borrow_span(), "defx");
    assert_eq!(tokens[2].token_kind, TokenKind::Keyword(Keyword::If));
    assert_eq!(tokens[3].token_kind, TokenKind::Keyword(Keyword::Else));
    assert_eq!(tokens[4].token_kind, TokenKind::Keyword(Keyword::Extern));
}

#[test]
fn test_tokenize_operators() {
    let ops = kinds("<= >= == < > - /");
    assert_eq!(ops[0], TokenKind::Operator(Operator::LessThanEqual));
    assert_eq!(ops[1], TokenKind::Operator(Operator::GreaterThanEqual));
    assert_eq!(ops[2], TokenKind::Operator(Operator::Equals));
    assert_eq!(ops[3], TokenKind::Operator(Operator::LessThan));
    assert_eq!(ops[4], TokenKind::Operator(Operator::GreaterThan));
    assert_eq!(ops[5], TokenKind::Operator(Operator::Minus));
    assert_eq!(ops[6], TokenKind::Operator(Operator::Divide));
}

#[test]
fn test_tokenize_single_equals_is_an_error() {
    // '=' alone is not one of the ten operator lexemes.
    let mut stream = CharStream::from_text("a = b".chars().collect());
    let mut tokenizer = Tokenizer::new();
    let first = tokenizer.next_token(&mut stream).unwrap();
    assert_eq!(first.borrow_span(), "a");
    let second = tokenizer.next_token(&mut stream);
    let error = second.unwrap_err();
    assert_eq!(*error.kind(), ErrorKind::InvalidCombo);
}

#[test]
fn test_trailing_dot_is_bad_char() {
    let mut stream = CharStream::from_text("1.".chars().collect());
    let mut tokenizer = Tokenizer::new();
    let result = tokenizer.next_token(&mut stream);
    let error = result.unwrap_err();
    assert_eq!(*error.kind(), ErrorKind::BadChar);
}

#[test]
fn test_invalid_character() {
    let mut stream = CharStream::from_text("@".chars().collect());
    let mut tokenizer = Tokenizer::new();
    let result = tokenizer.next_token(&mut stream);
    let error = result.unwrap_err();
    assert_eq!(*error.kind(), ErrorKind::InvalidChar);
}

#[test]
fn test_comment_is_skipped() {
    let spans: Vec<String> = tokenize("# a comment\n42")
        .iter()
        .map(|t| t.borrow_span().to_string())
        .collect();
    assert_eq!(spans, vec!["42".to_string(), String::new()]);
}

#[test]
fn test_comment_closes_a_token() {
    // A comment opener ends the token it follows, like any character of an
    // incompatible class; positions never run backwards.
    let tokens = tokenize("ab#comment
cd");
    let spans: Vec<&str> = tokens.iter().map(|t| t.borrow_span()).collect();
    assert_eq!(spans, vec!["ab", "cd", ""]);
    for token in &tokens {
        assert_eq!(
            token.start.get_line_number(),
            token.end.get_line_number()
        );
        assert!(token.start.get_column() <= token.end.get_column());
    }
}

#[test]
fn test_spans_reproduce_source() {
    // The token sequence, concatenated, reproduces the source up to comments
    // and whitespace collapse.
    let input = "def f(a, b) a + b * 2.5 # trailing\n";
    let significant: String = {
        let mut out = String::new();
        let mut in_comment = false;
        for c in input.chars() {
            if in_comment {
                in_comment = c != '\n';
            } else if c == '#' {
                in_comment = true;
            } else if !c.is_whitespace() {
                out.push(c);
            }
        }
        out
    };
    let concatenated: String = tokenize(input)
        .iter()
        .map(|t| t.borrow_span().to_string())
        .collect::<Vec<String>>()
        .join("");
    assert_eq!(concatenated, significant);
}

#[test]
fn test_positions_are_monotonic() {
    // Token positions are monotonic non-decreasing by start, and each token
    // starts no later than it ends.
    let tokens = tokenize("1 + 2\n * 3\n\n- 4");
    let mut previous: Option<(usize, usize)> = None;
    for token in &tokens {
        let start = (token.start.get_line_number(), token.start.get_column());
        let end = (token.end.get_line_number(), token.end.get_column());
        assert!(start <= end);
        if let Some(p) = previous {
            assert!(p <= start);
        }
        previous = Some(start);
    }
}

#[test]
fn test_eof_is_permanent() {
    let mut stream = CharStream::from_text("x".chars().collect());
    let mut tokenizer = Tokenizer::new();
    let first = tokenizer.next_token(&mut stream).unwrap();
    assert_eq!(first.borrow_span(), "x");
    let second = tokenizer.next_token(&mut stream).unwrap();
    assert!(second.is_eof());
    let third = tokenizer.next_token(&mut stream).unwrap();
    assert!(third.is_eof());
    assert!(stream.eof_reached());
}

#[test]
fn test_empty_input_yields_eof() {
    let tokens = tokenize("");
    assert_eq!(tokens.len(), 1);
    assert!(tokens[0].is_eof());
    assert!(tokens[0].is_empty());
}

#[test]
fn test_brackets_and_punctuation() {
    let ks = kinds("( ) [ ] { } , ;");
    assert!(matches!(ks[0], TokenKind::Bracket(_)));
    assert!(matches!(ks[5], TokenKind::Bracket(_)));
    assert_eq!(ks[6], TokenKind::Comma);
    assert_eq!(ks[7], TokenKind::Semicolon);
}
