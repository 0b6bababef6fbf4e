//! The character stream and the supporting value types.

use kaleidoscope::error::ErrorKind as ErrorKindTrait;
use kaleidoscope::lexer::stream::CharStream;
use kaleidoscope::numbers::{int_to_text, nat_to_text, parse_digits};
use kaleidoscope::token::bracket::{Bracket, BracketKind, BracketSide};
use kaleidoscope::token::fileindex::FileIndex;
use kaleidoscope::token::keyword::Keyword;
use kaleidoscope::token::operator::Operator;

#[test]
fn test_stream_yields_chars_with_synthetic_newlines() {
    let mut stream = CharStream::from_text("ab\ncd".chars().collect());
    let mut out = String::new();
    while let Some(c) = stream.next_unit() {
        out.push(c);
    }
    assert_eq!(out, "ab\ncd\n");
    assert!(stream.eof_reached());
}

#[test]
fn test_stream_strips_carriage_returns_before_newlines() {
    let mut stream = CharStream::from_text("a\r\nb".chars().collect());
    let mut out = String::new();
    while let Some(c) = stream.next_unit() {
        out.push(c);
    }
    assert_eq!(out, "a\nb\n");
}

#[test]
fn test_stream_push_line() {
    let mut stream = CharStream::from_text("a".chars().collect());
    stream.push_line("bc".chars().collect());
    let mut out = String::new();
    while let Some(c) = stream.next_unit() {
        out.push(c);
    }
    assert_eq!(out, "a\nbc\n");
}

#[test]
fn test_file_index_newline() {
    let with_line = FileIndex::new(Some(3), 7);
    let next = with_line.newline(1);
    assert_eq!(next.get_line(), Some(4));
    assert_eq!(next.get_column(), 0);

    let without_line = FileIndex::new(None, 5);
    let next = without_line.newline(2);
    assert_eq!(next.get_line(), None);
    assert_eq!(next.get_line_number(), 0);
    assert_eq!(next.get_column(), 7);
}

#[test]
fn test_keyword_round_trip() {
    for word in ["def", "if", "else"] {
        let keyword = Keyword::from_string(word).unwrap();
        assert_eq!(keyword.to_string(), word);
    }
    assert!(Keyword::from_string("not a keyword").is_none());
    let spelled = format!("ext{}", "ern");
    assert!(matches!(
        Keyword::from_string(&spelled),
        Some(Keyword::Extern)
    ));
}

#[test]
fn test_operator_round_trip() {
    for word in ["+", "-", "*", "/", "<", ">", "==", "<=", ">="] {
        let operator = Operator::from_string(word);
        assert!(!matches!(operator, Operator::Unknown));
        assert_eq!(operator.to_string(), word);
    }
    assert!(matches!(Operator::from_string("bad"), Operator::Unknown));
    assert_eq!(Operator::Unknown.to_string(), "???");
}

#[test]
fn test_bracket_classification() {
    let lr_bracket = Bracket::from_string("(");
    assert!(matches!(lr_bracket.kind, BracketKind::Round));
    assert!(lr_bracket.side.is_left());
    assert!(lr_bracket.is_str("("));
    assert!(!lr_bracket.is_str("]"));

    let bad_bracket = Bracket::from_string("clearly not a bracket");
    assert!(matches!(bad_bracket.kind, BracketKind::Unknown));
    assert!(bad_bracket.side.is_left());
    assert!(bad_bracket.is_invalid());

    let round_left = Bracket::from_string("(");
    let round_right = Bracket::from_string(")");
    assert!(round_left.cancels_out(round_right));
    assert!(!round_right.cancels_out(round_left));
    let square_left = Bracket::from_string("[");
    assert!(!square_left.cancels_out(round_right));

    assert_eq!(Bracket::from_codes(0, 1).str_repr(), ")");
    assert_eq!(BracketSide::from_int(0), Some(BracketSide::Left));
    assert_eq!(BracketSide::from_string("}"), Some(BracketSide::Right));
    assert_eq!(BracketSide::Left.as_int(), 0);
}

#[test]
fn test_digit_reading_and_writing() {
    assert_eq!(parse_digits("0"), Some(0));
    assert_eq!(parse_digits("420"), Some(420));
    assert_eq!(
        parse_digits("170141183460469231731687303715884105727"),
        Some(i128::MAX)
    );
    assert_eq!(parse_digits("170141183460469231731687303715884105728"), None);

    assert_eq!(nat_to_text(0), "0");
    assert_eq!(nat_to_text(1048576), "1048576");
    assert_eq!(int_to_text(-42), "-42");
    assert_eq!(int_to_text(i128::MIN), "-170141183460469231731687303715884105728");
}

#[test]
fn test_error_text() {
    let error = kaleidoscope::lexer::error::Error::new(
        String::from("the input broke"),
        kaleidoscope::lexer::error::ErrorKind::BadChar,
        Some(FileIndex::new(Some(0), 3)),
    );
    assert_eq!(error.get_position().unwrap().get_column(), 3);
    let text = error.to_text();
    assert!(text.contains("the input broke"));
    assert_eq!(
        kaleidoscope::lexer::error::ErrorKind::BadChar.describe(),
        "character in the wrong place"
    );
}
