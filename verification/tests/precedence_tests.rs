//! The precedence table orders operators as documented.

use kaleidoscope::parser::precedence::BinaryOperatorPrecedence;

#[test]
fn test_precedence() {
    let bad = BinaryOperatorPrecedence::from_string("fffirj");
    let plus = BinaryOperatorPrecedence::from_string("+");
    let multiply = BinaryOperatorPrecedence::from_string("*");
    assert!(bad < plus);
    assert!(plus < multiply);
}

#[test]
fn test_precedence_bounds() {
    assert!(matches!(
        BinaryOperatorPrecedence::get_lowest(),
        BinaryOperatorPrecedence::Unknown
    ));
    assert!(matches!(
        BinaryOperatorPrecedence::get_highest(),
        BinaryOperatorPrecedence::Exponentiation
    ));
    assert!(BinaryOperatorPrecedence::from_string("<") < BinaryOperatorPrecedence::from_string("-"));
    assert!(BinaryOperatorPrecedence::from_string("/") == BinaryOperatorPrecedence::from_string("*"));
}
