//! A token representing an operator.
//!
//! An operator is a symbol that acts like a function but has a different
//! syntax. Due to its significance, operators are given a special
//! representation in code.

use vstd::prelude::*;

use crate::strutil::push_char;

verus! {

/// A token representing an operator.
#[derive(Copy, Clone, Debug, PartialEq, Eq, Structural)]
pub enum Operator {
    /// A separate variant for inputs that are not a valid operator.
    Unknown,
    /// +
    Plus,
    /// -
    Minus,
    /// *
    Multiply,
    /// /
    Divide,
    /// <
    LessThan,
    /// >
    GreaterThan,
    /// ==
    Equals,
    /// <=
    LessThanEqual,
    /// >=
    GreaterThanEqual,
}

/// The operator whose literal form is `s`; `Unknown` when `s` is not one of
/// the ten operator lexemes.
pub open spec fn spec_operator_of(s: Seq<char>) -> Operator {
    if s.len() == 1 {
        if s[0] == '+' {
            Operator::Plus
        } else if s[0] == '-' {
            Operator::Minus
        } else if s[0] == '*' {
            Operator::Multiply
        } else if s[0] == '/' {
            Operator::Divide
        } else if s[0] == '<' {
            Operator::LessThan
        } else if s[0] == '>' {
            Operator::GreaterThan
        } else {
            Operator::Unknown
        }
    } else if s.len() == 2 && s[1] == '=' {
        if s[0] == '=' {
            Operator::Equals
        } else if s[0] == '<' {
            Operator::LessThanEqual
        } else if s[0] == '>' {
            Operator::GreaterThanEqual
        } else {
            Operator::Unknown
        }
    } else {
        Operator::Unknown
    }
}

/// The characters of an operator's literal form; "???" for `Unknown`.
pub open spec fn spec_operator_chars(op: Operator) -> Seq<char> {
    match op {
        Operator::Plus => seq!['+'],
        Operator::Minus => seq!['-'],
        Operator::Multiply => seq!['*'],
        Operator::Divide => seq!['/'],
        Operator::LessThan => seq!['<'],
        Operator::GreaterThan => seq!['>'],
        Operator::Equals => seq!['=', '='],
        Operator::LessThanEqual => seq!['<', '='],
        Operator::GreaterThanEqual => seq!['>', '='],
        Operator::Unknown => seq!['?', '?', '?'],
    }
}

impl Operator {
    /// Convert a string representation of an operator to an [`Operator`]. If
    /// an invalid input is given, [`Operator::Unknown`] is returned.
    pub fn from_string(slice: &str) -> (r: Self)
        ensures
            r == spec_operator_of(slice@),
    {
        let n = slice.unicode_len();
        if n == 1 {
            let c0 = slice.get_char(0);
            if c0 == '+' {
                Operator::Plus
            } else if c0 == '-' {
                Operator::Minus
            } else if c0 == '*' {
                Operator::Multiply
            } else if c0 == '/' {
                Operator::Divide
            } else if c0 == '<' {
                Operator::LessThan
            } else if c0 == '>' {
                Operator::GreaterThan
            } else {
                Operator::Unknown
            }
        } else if n == 2 {
            let c0 = slice.get_char(0);
            let c1 = slice.get_char(1);
            if c1 != '=' {
                Operator::Unknown
            } else if c0 == '=' {
                Operator::Equals
            } else if c0 == '<' {
                Operator::LessThanEqual
            } else if c0 == '>' {
                Operator::GreaterThanEqual
            } else {
                Operator::Unknown
            }
        } else {
            Operator::Unknown
        }
    }

    /// Convert this operator into a string representation of itself.
    pub fn to_string(&self) -> (r: String)
        ensures
            r@ == spec_operator_chars(*self),
    {
        let mut s = String::new();
        match *self {
            Operator::Plus => push_char(&mut s, '+'),
            Operator::Minus => push_char(&mut s, '-'),
            Operator::Multiply => push_char(&mut s, '*'),
            Operator::Divide => push_char(&mut s, '/'),
            Operator::LessThan => push_char(&mut s, '<'),
            Operator::GreaterThan => push_char(&mut s, '>'),
            Operator::Equals => {
                push_char(&mut s, '=');
                push_char(&mut s, '=');
            },
            Operator::LessThanEqual => {
                push_char(&mut s, '<');
                push_char(&mut s, '=');
            },
            Operator::GreaterThanEqual => {
                push_char(&mut s, '>');
                push_char(&mut s, '=');
            },
            Operator::Unknown => {
                push_char(&mut s, '?');
                push_char(&mut s, '?');
                push_char(&mut s, '?');
            },
        }
        proof {
            assert(s@ =~= spec_operator_chars(*self));
        }
        s
    }
}

} // verus!
