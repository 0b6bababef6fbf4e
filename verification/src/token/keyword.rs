//! An enum representing a reserved word of the language.
//!
//! See [`Keyword`].

use vstd::prelude::*;

use crate::strutil::push_char;

verus! {

/// An enumerator of possible keywords that can be encountered in a
/// Kaleidoscope program.
#[derive(Copy, Clone, Debug, PartialEq, Eq, Structural)]
pub enum Keyword {
    /// Defines a function.
    Def,
    /// Declares a function whose definition lives elsewhere.
    Extern,
    /// Control flow (tokenized, but without parser support).
    If,
    /// Control flow (tokenized, but without parser support).
    Else,
    /// Control flow (tokenized, but without parser support).
    Then,
}

/// The characters of a keyword's literal form.
pub open spec fn spec_keyword_chars(k: Keyword) -> Seq<char> {
    match k {
        Keyword::Def => seq!['d', 'e', 'f'],
        Keyword::Extern => seq!['e', 'x', 't', 'e', 'r', 'n'],
        Keyword::If => seq!['i', 'f'],
        Keyword::Else => seq!['e', 'l', 's', 'e'],
        Keyword::Then => seq!['t', 'h', 'e', 'n'],
    }
}

/// The keyword whose literal form is `s`, if any.
pub open spec fn spec_keyword_of(s: Seq<char>) -> Option<Keyword> {
    if s =~= spec_keyword_chars(Keyword::Def) {
        Some(Keyword::Def)
    } else if s =~= spec_keyword_chars(Keyword::Extern) {
        Some(Keyword::Extern)
    } else if s =~= spec_keyword_chars(Keyword::If) {
        Some(Keyword::If)
    } else if s =~= spec_keyword_chars(Keyword::Else) {
        Some(Keyword::Else)
    } else if s =~= spec_keyword_chars(Keyword::Then) {
        Some(Keyword::Then)
    } else {
        None
    }
}

impl Keyword {
    /// Convert a string to a variant of the [`Keyword`] enum.
    ///
    /// If the string is not a valid keyword, [`None`] is returned.
    pub fn from_string(string: &str) -> (r: Option<Self>)
        ensures
            r == spec_keyword_of(string@),
    {
        let n = string.unicode_len();
        if n == 2 {
            let c0 = string.get_char(0);
            let c1 = string.get_char(1);
            if c0 == 'i' && c1 == 'f' {
                return Some(Keyword::If);
            }
        } else if n == 3 {
            let c0 = string.get_char(0);
            let c1 = string.get_char(1);
            let c2 = string.get_char(2);
            if c0 == 'd' && c1 == 'e' && c2 == 'f' {
                return Some(Keyword::Def);
            }
        } else if n == 4 {
            let c0 = string.get_char(0);
            let c1 = string.get_char(1);
            let c2 = string.get_char(2);
            let c3 = string.get_char(3);
            if c0 == 'e' && c1 == 'l' && c2 == 's' && c3 == 'e' {
                return Some(Keyword::Else);
            }
            if c0 == 't' && c1 == 'h' && c2 == 'e' && c3 == 'n' {
                return Some(Keyword::Then);
            }
        } else if n == 6 {
            let c0 = string.get_char(0);
            let c1 = string.get_char(1);
            let c2 = string.get_char(2);
            let c3 = string.get_char(3);
            let c4 = string.get_char(4);
            let c5 = string.get_char(5);
            if c0 == 'e' && c1 == 'x' && c2 == 't' && c3 == 'e' && c4 == 'r' && c5 == 'n' {
                return Some(Keyword::Extern);
            }
        }
        None
    }

    /// Convert the keyword into the string representation of itself.
    pub fn to_string(&self) -> (r: String)
        ensures
            r@ == spec_keyword_chars(*self),
    {
        let mut s = String::new();
        match *self {
            Keyword::Def => {
                push_char(&mut s, 'd');
                push_char(&mut s, 'e');
                push_char(&mut s, 'f');
            },
            Keyword::Extern => {
                push_char(&mut s, 'e');
                push_char(&mut s, 'x');
                push_char(&mut s, 't');
                push_char(&mut s, 'e');
                push_char(&mut s, 'r');
                push_char(&mut s, 'n');
            },
            Keyword::If => {
                push_char(&mut s, 'i');
                push_char(&mut s, 'f');
            },
            Keyword::Else => {
                push_char(&mut s, 'e');
                push_char(&mut s, 'l');
                push_char(&mut s, 's');
                push_char(&mut s, 'e');
            },
            Keyword::Then => {
                push_char(&mut s, 't');
                push_char(&mut s, 'h');
                push_char(&mut s, 'e');
                push_char(&mut s, 'n');
            },
        }
        proof {
            assert(s@ =~= spec_keyword_chars(*self));
        }
        s
    }
}

} // verus!
