//! The output formats the token-dumping tool offers, and the mapping from
//! their command-line names.

use vstd::prelude::*;

verus! {

/// The formats a token list can be written out in.
#[derive(Copy, Clone, Debug, PartialEq, Eq, Structural)]
pub enum OutputFormats {
    /// The language's own debug rendering.
    Debug,
    /// A JSON array of token records.
    Json,
    /// A TOML document holding the token records.
    Toml,
}

/// The format named `s`, if any: "debug", "json" or "toml".
pub open spec fn spec_output_format_of(s: Seq<char>) -> Option<OutputFormats> {
    if s =~= seq!['d', 'e', 'b', 'u', 'g'] {
        Some(OutputFormats::Debug)
    } else if s =~= seq!['j', 's', 'o', 'n'] {
        Some(OutputFormats::Json)
    } else if s =~= seq!['t', 'o', 'm', 'l'] {
        Some(OutputFormats::Toml)
    } else {
        None
    }
}

impl OutputFormats {
    /// Map a command-line name to its format; an unknown name maps to
    /// nothing.
    pub fn from_string(string: &str) -> (r: Option<Self>)
        ensures
            r == spec_output_format_of(string@),
    {
        let n = string.unicode_len();
        if n == 4 {
            let c0 = string.get_char(0);
            let c1 = string.get_char(1);
            let c2 = string.get_char(2);
            let c3 = string.get_char(3);
            if c0 == 'j' && c1 == 's' && c2 == 'o' && c3 == 'n' {
                return Some(OutputFormats::Json);
            }
            if c0 == 't' && c1 == 'o' && c2 == 'm' && c3 == 'l' {
                return Some(OutputFormats::Toml);
            }
        } else if n == 5 {
            let c0 = string.get_char(0);
            let c1 = string.get_char(1);
            let c2 = string.get_char(2);
            let c3 = string.get_char(3);
            let c4 = string.get_char(4);
            if c0 == 'd' && c1 == 'e' && c2 == 'b' && c3 == 'u' && c4 == 'g' {
                return Some(OutputFormats::Debug);
            }
        }
        None
    }
}

} // verus!
