//! Types which represent a token in a Kaleidoscope program: the kind of
//! token it is and where it is found.

pub mod bracket;
pub mod fileindex;
pub mod keyword;
pub mod operator;
pub mod token;
pub mod tokenkind;

pub use bracket::{Bracket, BracketKind, BracketSide};
pub use fileindex::FileIndex;
pub use keyword::Keyword;
pub use operator::Operator;
pub use token::Token;
pub use tokenkind::TokenKind;
