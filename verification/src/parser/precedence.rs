//! The precedence of binary operators.
//!
//! To let the parser organise the operators in an expression, each operator
//! is given a ranking, or precedence. Values near an operator with a larger
//! precedence coalesce around that operator rather than around an adjacent
//! operator of a lower precedence.

use vstd::prelude::*;

use crate::token::operator::{spec_operator_of, Operator};

verus! {

/// The precedence of each operator class, from the lowest to the highest.
/// The exponentiation level is reserved: no operator maps to it yet.
#[derive(Copy, Clone, Debug, PartialEq, Eq, Structural, PartialOrd, Ord)]
pub enum BinaryOperatorPrecedence {
    Unknown,
    Comparison,
    Addition,
    Multiplication,
    Exponentiation,
}

/// The numeric level of a precedence class.
pub open spec fn spec_level(p: BinaryOperatorPrecedence) -> int {
    match p {
        BinaryOperatorPrecedence::Unknown => 0,
        BinaryOperatorPrecedence::Comparison => 1,
        BinaryOperatorPrecedence::Addition => 2,
        BinaryOperatorPrecedence::Multiplication => 3,
        BinaryOperatorPrecedence::Exponentiation => 4,
    }
}

/// The precedence class of an operator.
pub open spec fn spec_precedence_of(operator: Operator) -> BinaryOperatorPrecedence {
    match operator {
        Operator::Unknown => BinaryOperatorPrecedence::Unknown,
        Operator::GreaterThan => BinaryOperatorPrecedence::Comparison,
        Operator::GreaterThanEqual => BinaryOperatorPrecedence::Comparison,
        Operator::LessThan => BinaryOperatorPrecedence::Comparison,
        Operator::LessThanEqual => BinaryOperatorPrecedence::Comparison,
        Operator::Equals => BinaryOperatorPrecedence::Comparison,
        Operator::Plus => BinaryOperatorPrecedence::Addition,
        Operator::Minus => BinaryOperatorPrecedence::Addition,
        Operator::Multiply => BinaryOperatorPrecedence::Multiplication,
        Operator::Divide => BinaryOperatorPrecedence::Multiplication,
    }
}

impl BinaryOperatorPrecedence {
    /// The numeric level of this precedence class.
    pub fn level(self) -> (r: u8)
        ensures
            r as int == spec_level(self),
    {
        match self {
            BinaryOperatorPrecedence::Unknown => 0,
            BinaryOperatorPrecedence::Comparison => 1,
            BinaryOperatorPrecedence::Addition => 2,
            BinaryOperatorPrecedence::Multiplication => 3,
            BinaryOperatorPrecedence::Exponentiation => 4,
        }
    }

    /// Whether this precedence binds less tightly than another.
    pub fn binds_less_than(self, other: Self) -> (r: bool)
        ensures
            r == (spec_level(self) < spec_level(other)),
    {
        self.level() < other.level()
    }

    /// Get the operator precedence of an operator.
    pub fn from_operator(operator: Operator) -> (r: Self)
        ensures
            r == spec_precedence_of(operator),
    {
        match operator {
            Operator::Unknown => BinaryOperatorPrecedence::Unknown,
            Operator::GreaterThan => BinaryOperatorPrecedence::Comparison,
            Operator::GreaterThanEqual => BinaryOperatorPrecedence::Comparison,
            Operator::LessThan => BinaryOperatorPrecedence::Comparison,
            Operator::LessThanEqual => BinaryOperatorPrecedence::Comparison,
            Operator::Equals => BinaryOperatorPrecedence::Comparison,
            Operator::Plus => BinaryOperatorPrecedence::Addition,
            Operator::Minus => BinaryOperatorPrecedence::Addition,
            Operator::Multiply => BinaryOperatorPrecedence::Multiplication,
            Operator::Divide => BinaryOperatorPrecedence::Multiplication,
        }
    }

    /// Get the operator precedence from the string version of the operator.
    pub fn from_string(slice: &str) -> (r: Self)
        ensures
            r == spec_precedence_of(spec_operator_of(slice@)),
    {
        Self::from_operator(Operator::from_string(slice))
    }

    /// Get the precedence variant with the lowest priority.
    pub fn get_lowest() -> (r: Self)
        ensures
            r is Unknown,
    {
        BinaryOperatorPrecedence::Unknown
    }

    /// Get the precedence variant with the highest priority.
    pub fn get_highest() -> (r: Self)
        ensures
            r is Exponentiation,
    {
        BinaryOperatorPrecedence::Exponentiation
    }
}

} // verus!
