//! A representation of the location of a character in a file or stream.
//!
//! See [`FileIndex`].

use vstd::prelude::*;

verus! {

/// Represents the location of a character in a file or stream.
///
/// The index stores the line on which the character sits (how many newlines
/// have passed) when that datum is available, and the column of the
/// character. The first character of a line has column 0. When the number of
/// lines passed is unknown or irrelevant, [`FileIndex::line`] is `None`.
///
/// Positions are additive: advancing by a character increments the column,
/// while a newline advances the line (when known) and resets the column.
#[derive(Copy, Clone, Debug, PartialEq, Eq, Structural)]
pub struct FileIndex {
    pub line: Option<usize>,
    pub column: usize,
}

impl FileIndex {
    /// The line of the index, with an unknown line treated as 0.
    pub open spec fn spec_line_number(self) -> int {
        match self.line {
            Some(l) => l as int,
            None => 0,
        }
    }

    /// Ordering of indices: by line first, then by column.
    pub open spec fn spec_le(self, other: FileIndex) -> bool {
        self.spec_line_number() < other.spec_line_number() || (self.spec_line_number()
            == other.spec_line_number() && self.column <= other.column)
    }

    /// Create a new [`FileIndex`].
    pub fn new(line: Option<usize>, column: usize) -> (r: Self)
        ensures
            r == (FileIndex { line, column }),
    {
        Self { line, column }
    }

    /// Get the line of the character.
    pub fn get_line(&self) -> (r: Option<usize>)
        ensures
            r == self.line,
    {
        self.line
    }

    /// Get the line of the character but treat an unknown line number as 0.
    pub fn get_line_number(&self) -> (r: usize)
        ensures
            r as int == self.spec_line_number(),
    {
        match self.line {
            Some(l) => l,
            None => 0,
        }
    }

    /// Get the column of the character.
    pub fn get_column(&self) -> (r: usize)
        ensures
            r == self.column,
    {
        self.column
    }

    /// Get the position of a character after a newline.
    ///
    /// When the number of lines passed is known, the new index sits one line
    /// down at column 0. When it is unknown, the column advances by the
    /// length of the newline sequence (1 for "\n", 2 for "\r\n").
    pub fn newline(&self, newline_length: usize) -> (r: Self)
        requires
            self.line is Some ==> self.line->0 < usize::MAX,
            self.line is None ==> self.column + newline_length <= usize::MAX,
        ensures
            self.line is Some ==> r == (FileIndex {
                line: Some((self.line->0 + 1) as usize),
                column: 0,
            }),
            self.line is None ==> r == (FileIndex {
                line: None,
                column: (self.column + newline_length) as usize,
            }),
    {
        let (line, column) = match self.line {
            Some(l) => (Some(l + 1), 0),
            None => (None, self.column + newline_length),
        };
        Self { line, column }
    }

    /// Advance the column by one character.
    pub fn step(&mut self)
        requires
            old(self).column < usize::MAX,
        ensures
            *final(self) == (FileIndex {
                line: old(self).line,
                column: (old(self).column + 1) as usize,
            }),
    {
        self.column = self.column + 1;
    }
}

/// The ordering of indices composes: with it, the position guarantees of
/// successive tokens chain into monotonicity of the whole token sequence.
pub proof fn lemma_index_order_transitive(a: FileIndex, b: FileIndex, c: FileIndex)
    requires
        a.spec_le(b),
        b.spec_le(c),
    ensures
        a.spec_le(c),
{
}

impl Default for FileIndex {
    /// An index with an unknown line, at column 0.
    fn default() -> (r: Self)
        ensures
            r == (FileIndex { line: None, column: 0 }),
    {
        Self { line: None, column: 0 }
    }
}

} // verus!
