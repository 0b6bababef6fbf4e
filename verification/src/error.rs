//! A generic error type shared by every stage of the pipeline.
//!
//! Each stage supplies its own kind enum; an error couples such a kind with
//! a human-readable description and an optional source position.

use vstd::prelude::*;

use crate::token::fileindex::FileIndex;

verus! {

/// The behaviour every error-kind enum must offer: a short human-readable
/// name for the kind.
pub trait ErrorKind: Sized + Clone {
    /// A short text naming this kind of error.
    fn describe(&self) -> String;
}

/// An error: a kind classifying what happened, a human-readable description,
/// and the source position at which it happened, when one is known.
#[derive(Clone, Debug)]
pub struct Error<EK> {
    pub description: String,
    pub errorkind: EK,
    pub position: Option<FileIndex>,
}

impl<EK> Error<EK> {
    /// A new error from its parts.
    pub fn new(description: String, errorkind: EK, position: Option<FileIndex>) -> (r: Self)
        ensures
            r.errorkind == errorkind,
            r.description@ == description@,
            r.position == position,
    {
        Self { description, errorkind, position }
    }

    /// The kind of this error.
    pub fn kind(&self) -> (r: &EK)
        ensures
            r == &self.errorkind,
    {
        &self.errorkind
    }

    /// The position at which the error happened, when known.
    pub fn get_position(&self) -> (r: Option<FileIndex>)
        ensures
            r == self.position,
    {
        self.position
    }
}

impl<EK: ErrorKind> Error<EK> {
    /// Render the error as text: the kind's name, then the description.
    pub fn to_text(&self) -> String {
        let mut out = self.errorkind.describe();
        out.append(": ");
        out.append(self.description.as_str());
        out
    }
}

} // verus!
