//! Types representing a bracket such as `(` or `]`.
//!
//! Values of these types can also check whether they match or cancel out
//! each other, which makes sure that the brackets in a program are balanced
//! properly.

use vstd::prelude::*;

use crate::strutil::push_char;

verus! {

/// The shape of a bracket: whether it is round, square, curly or angled,
/// regardless of its orientation.
#[derive(Copy, Clone, Debug, PartialEq, Eq, Structural)]
pub enum BracketKind {
    Unknown,
    Round,
    Square,
    Curly,
    Angled,
}

/// The orientation of a bracket. Brackets classified as `Left` include `(`,
/// `[` and `{`; their counterparts `)`, `]` and `}` are `Right`.
#[derive(Copy, Clone, Debug, PartialEq, Eq, Structural)]
pub enum BracketSide {
    Left,
    Right,
}

/// A bracket, grouped by its kind and side.
#[derive(Copy, Clone, Debug, PartialEq, Eq, Structural)]
pub struct Bracket {
    pub kind: BracketKind,
    pub side: BracketSide,
}

/// The kind of the bracket written `s`.
pub open spec fn spec_bracket_kind_of(s: Seq<char>) -> BracketKind {
    if s.len() == 1 {
        if s[0] == '(' || s[0] == ')' {
            BracketKind::Round
        } else if s[0] == '[' || s[0] == ']' {
            BracketKind::Square
        } else if s[0] == '{' || s[0] == '}' {
            BracketKind::Curly
        } else if s[0] == '<' || s[0] == '>' {
            BracketKind::Angled
        } else {
            BracketKind::Unknown
        }
    } else {
        BracketKind::Unknown
    }
}

/// The side of the bracket written `s`.
pub open spec fn spec_bracket_side_of(s: Seq<char>) -> Option<BracketSide> {
    if s.len() == 1 {
        if s[0] == '(' || s[0] == '[' || s[0] == '{' || s[0] == '<' {
            Some(BracketSide::Left)
        } else if s[0] == ')' || s[0] == ']' || s[0] == '}' || s[0] == '>' {
            Some(BracketSide::Right)
        } else {
            None
        }
    } else {
        None
    }
}

/// The bracket written `s`: an unknown kind and a left side by default.
pub open spec fn spec_bracket_of(s: Seq<char>) -> Bracket {
    Bracket {
        kind: spec_bracket_kind_of(s),
        side: match spec_bracket_side_of(s) {
            Some(side) => side,
            None => BracketSide::Left,
        },
    }
}

/// The character a bracket is written as; '?' for an unknown bracket.
pub open spec fn spec_bracket_char(b: Bracket) -> char {
    match b.kind {
        BracketKind::Round => if b.side is Left {
            '('
        } else {
            ')'
        },
        BracketKind::Square => if b.side is Left {
            '['
        } else {
            ']'
        },
        BracketKind::Curly => if b.side is Left {
            '{'
        } else {
            '}'
        },
        BracketKind::Angled => if b.side is Left {
            '<'
        } else {
            '>'
        },
        BracketKind::Unknown => '?',
    }
}

impl BracketKind {
    /// Convert an integer code to a [`BracketKind`].
    pub fn from_int(code: i32) -> (r: Self)
        ensures
            code == 0 ==> r == BracketKind::Round,
            code == 1 ==> r == BracketKind::Square,
            code == 2 ==> r == BracketKind::Curly,
            code == 3 ==> r == BracketKind::Angled,
            !(0 <= code <= 3) ==> r == BracketKind::Unknown,
    {
        if code == 0 {
            BracketKind::Round
        } else if code == 1 {
            BracketKind::Square
        } else if code == 2 {
            BracketKind::Curly
        } else if code == 3 {
            BracketKind::Angled
        } else {
            BracketKind::Unknown
        }
    }

    /// Convert the string representation of a bracket to a [`BracketKind`].
    pub fn from_string(string: &str) -> (r: Self)
        ensures
            r == spec_bracket_kind_of(string@),
    {
        if string.unicode_len() != 1 {
            return BracketKind::Unknown;
        }
        let c = string.get_char(0);
        if c == '(' || c == ')' {
            BracketKind::Round
        } else if c == '[' || c == ']' {
            BracketKind::Square
        } else if c == '{' || c == '}' {
            BracketKind::Curly
        } else if c == '<' || c == '>' {
            BracketKind::Angled
        } else {
            BracketKind::Unknown
        }
    }
}

impl BracketSide {
    /// Convert an integer to a [`BracketSide`]: 0 is left and 1 is right.
    pub fn from_int(code: i32) -> (r: Option<Self>)
        ensures
            code == 0 ==> r == Some(BracketSide::Left),
            code == 1 ==> r == Some(BracketSide::Right),
            !(0 <= code <= 1) ==> r is None,
    {
        if code == 0 {
            Some(BracketSide::Left)
        } else if code == 1 {
            Some(BracketSide::Right)
        } else {
            None
        }
    }

    /// Convert the string representation of a bracket to a [`BracketSide`].
    pub fn from_string(string: &str) -> (r: Option<Self>)
        ensures
            r == spec_bracket_side_of(string@),
    {
        if string.unicode_len() != 1 {
            return None;
        }
        let c = string.get_char(0);
        if c == '(' || c == '[' || c == '{' || c == '<' {
            Some(BracketSide::Left)
        } else if c == ')' || c == ']' || c == '}' || c == '>' {
            Some(BracketSide::Right)
        } else {
            None
        }
    }

    /// Convert a [`BracketSide`] to an integer: left is 0 and right is 1.
    /// Two brackets are in the correct order when the first one's integer is
    /// smaller than the second one's.
    pub fn as_int(self) -> (r: i32)
        ensures
            r == 0 <==> self is Left,
            r == 1 <==> self is Right,
    {
        match self {
            BracketSide::Left => 0,
            BracketSide::Right => 1,
        }
    }

    /// Check whether the side is [`BracketSide::Left`].
    #[inline]
    pub fn is_left(&self) -> (r: bool)
        ensures
            r == (*self is Left),
    {
        matches!(self, BracketSide::Left)
    }

    /// Check whether the side is [`BracketSide::Right`].
    #[inline]
    pub fn is_right(&self) -> (r: bool)
        ensures
            r == (*self is Right),
    {
        matches!(self, BracketSide::Right)
    }
}

impl Default for BracketSide {
    /// The left side.
    fn default() -> (r: Self)
        ensures
            r is Left,
    {
        BracketSide::Left
    }
}

impl Bracket {
    /// A left round bracket, the one bracket the grammar uses.
    pub fn left_round() -> (r: Self)
        ensures
            r == (Bracket { kind: BracketKind::Round, side: BracketSide::Left }),
    {
        Bracket { kind: BracketKind::Round, side: BracketSide::Left }
    }

    /// Create a bracket from the corresponding [`BracketKind`] and
    /// [`BracketSide`] integer codes; an invalid side code falls back to the
    /// default left side.
    pub fn from_codes(kind: i32, side: i32) -> (r: Self)
        ensures
            kind == 0 ==> r.kind == BracketKind::Round,
            kind == 1 ==> r.kind == BracketKind::Square,
            kind == 2 ==> r.kind == BracketKind::Curly,
            kind == 3 ==> r.kind == BracketKind::Angled,
            !(0 <= kind <= 3) ==> r.kind == BracketKind::Unknown,
            side == 1 ==> r.side is Right,
            side != 1 ==> r.side is Left,
    {
        let kind = BracketKind::from_int(kind);
        let side = match BracketSide::from_int(side) {
            Some(side) => side,
            None => BracketSide::default(),
        };
        Self { kind, side }
    }

    /// Create a [`Bracket`] from a string. If the string does not contain a
    /// valid bracket, the kind becomes [`BracketKind::Unknown`] and the side
    /// resets to the default left side.
    pub fn from_string(string: &str) -> (r: Self)
        ensures
            r == spec_bracket_of(string@),
    {
        let kind = BracketKind::from_string(string);
        let side = match BracketSide::from_string(string) {
            Some(side) => side,
            None => BracketSide::default(),
        };
        Self { kind, side }
    }

    /// Return the bracket as a string representation of itself; "??" for an
    /// unknown bracket.
    pub fn str_repr(&self) -> (r: String)
        ensures
            self.kind is Unknown ==> r@ =~= seq!['?', '?'],
            !(self.kind is Unknown) ==> r@ =~= seq![spec_bracket_char(*self)],
    {
        let mut s = String::new();
        match self.kind {
            BracketKind::Unknown => {
                push_char(&mut s, '?');
                push_char(&mut s, '?');
            },
            BracketKind::Round => push_char(
                &mut s,
                if self.side.is_left() {
                    '('
                } else {
                    ')'
                },
            ),
            BracketKind::Square => push_char(
                &mut s,
                if self.side.is_left() {
                    '['
                } else {
                    ']'
                },
            ),
            BracketKind::Curly => push_char(
                &mut s,
                if self.side.is_left() {
                    '{'
                } else {
                    '}'
                },
            ),
            BracketKind::Angled => push_char(
                &mut s,
                if self.side.is_left() {
                    '<'
                } else {
                    '>'
                },
            ),
        }
        s
    }

    /// True when the bracket's kind could not be classified.
    pub fn is_invalid(&self) -> (r: bool)
        ensures
            r == (self.kind is Unknown),
    {
        matches!(self.kind, BracketKind::Unknown)
    }

    /// Check if the string representation of a bracket matches this bracket.
    ///
    /// If both `self` and the other bracket are unknown, this method still
    /// returns false for safety.
    pub fn is_str(&self, string: &str) -> (r: bool)
        ensures
            r == (!(spec_bracket_of(string@).kind is Unknown) && *self == spec_bracket_of(
                string@,
            )),
    {
        let other = Bracket::from_string(string);
        if matches!(other.kind, BracketKind::Unknown) {
            false
        } else {
            *self == other
        }
    }

    /// Checks if two brackets are of the same kind, with `self` on the left
    /// and `other` on the right, so that they cancel out.
    pub fn cancels_out(self, other: Self) -> (r: bool)
        ensures
            r == (self.kind == other.kind && self.side is Left && other.side is Right),
    {
        self.kind == other.kind && self.side.is_left() && other.side.is_right()
    }
}

} // verus!
