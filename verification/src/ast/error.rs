//! Error kinds raised while building AST nodes.

use vstd::prelude::*;

use crate::error::ErrorKind as ErrorKindTrait;

verus! {

/// The kind of error encountered while building nodes.
#[derive(Copy, Clone, Debug, PartialEq, Eq, Structural)]
pub enum ErrorKind {
    /// A node was built from a token of the wrong kind.
    WrongTokenKind,
    /// A token's span could not be converted to the node's value.
    TypeCasting,
    /// Miscellaneous errors.
    Other,
}

impl ErrorKindTrait for ErrorKind {
    fn describe(&self) -> String {
        match *self {
            ErrorKind::WrongTokenKind => String::from_str("wrong token kind"),
            ErrorKind::TypeCasting => String::from_str("type casting failure"),
            ErrorKind::Other => String::from_str("other node error"),
        }
    }
}

/// The error type used while building nodes.
pub type Error = crate::error::Error<ErrorKind>;

} // verus!
