//! The abstract syntax tree: the node types a Kaleidoscope program is made
//! of, their views, their identifiers and their text forms.

pub mod display;
pub mod error;
pub mod laws;
pub mod node;
pub mod nodeid;
pub mod nodes;
pub mod view;

pub use nodeid::NodeId;
