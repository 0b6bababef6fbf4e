//! An integer identifier classifying each node type.
//!
//! The identifier helps when converting a node of statically unknown type to
//! a concrete type, by making sure the identifier of the value matches that
//! of the desired node type.

use vstd::prelude::*;

verus! {

/// An identifier for each node type: the same value for every instance of a
/// type, and a different value for each type.
#[derive(Copy, Clone, Debug, PartialEq, Eq, Structural)]
pub struct NodeId {
    pub numeric: u64,
}

impl NodeId {
    /// Create a new [`NodeId`] from a numeric identifier.
    pub fn new(id: u64) -> (r: Self)
        ensures
            r.numeric == id,
    {
        Self { numeric: id }
    }

    /// Get the raw numeric identifier.
    pub fn get_id(&self) -> (r: u64)
        ensures
            r == self.numeric,
    {
        self.numeric
    }
}

} // verus!
