//! A stream which yields the characters of a source text one at a time,
//! together with the position of each character.
//!
//! See [`CharStream`].

use vstd::prelude::*;

use crate::token::fileindex::FileIndex;

verus! {

/// The lines of a vector of lines, as a sequence of character sequences.
pub open spec fn lines_view(lines: Seq<Vec<char>>) -> Seq<Seq<char>> {
    Seq::new(lines.len(), |i: int| lines[i]@)
}

/// Each line with a synthetic `'\n'` appended.
pub open spec fn spec_with_newlines(lines: Seq<Seq<char>>) -> Seq<Seq<char>> {
    lines.map_values(|l: Seq<char>| l.push('\n'))
}

/// The lines of a text, split at each `'\n'`. A carriage return directly
/// before a newline is dropped with it; a final segment without a newline
/// still counts as a line. `cur` holds the characters of the line being
/// collected.
pub open spec fn spec_lines_acc(text: Seq<char>, cur: Seq<char>) -> Seq<Seq<char>>
    decreases text.len(),
{
    if text.len() == 0 {
        if cur.len() == 0 {
            Seq::empty()
        } else {
            seq![cur]
        }
    } else if text[0] == '\n' {
        let line = if cur.len() > 0 && cur.last() == '\r' {
            cur.drop_last()
        } else {
            cur
        };
        seq![line] + spec_lines_acc(text.drop_first(), Seq::empty())
    } else {
        spec_lines_acc(text.drop_first(), cur.push(text[0]))
    }
}

/// The lines of a text, split at newlines.
pub open spec fn spec_lines_of(text: Seq<char>) -> Seq<Seq<char>> {
    spec_lines_acc(text, Seq::empty())
}

/// A stream over in-memory source lines which returns one character at a
/// time.
///
/// The stream holds its input as a sequence of lines; every line ends with a
/// synthetic `'\n'` so that downstream consumers see deterministic line
/// terminators regardless of OS convention. The stream also stores the index
/// of the current character: the line it sits on and its column.
pub struct CharStream {
    pub lines: Vec<Vec<char>>,
    pub li: usize,
    pub cursor: usize,
    pub index: FileIndex,
}

impl CharStream {
    /// The lines the stream holds, as character sequences.
    pub open spec fn lines_seq(&self) -> Seq<Seq<char>> {
        lines_view(self.lines@)
    }

    /// All the characters the stream has not yielded yet, in order.
    pub open spec fn remaining(&self) -> Seq<char> {
        if self.li < self.lines@.len() {
            self.lines@[self.li as int]@.skip(self.cursor as int) + self.lines_seq().skip(
                self.li + 1,
            ).flatten()
        } else {
            Seq::empty()
        }
    }

    /// Whether the stream has attempted to read past its last line.
    pub open spec fn spec_eof(&self) -> bool {
        self.li >= self.lines@.len()
    }

    /// The spec-level index of the current character.
    pub open spec fn spec_index(&self) -> FileIndex {
        self.index
    }

    /// The stream is well formed: the cursor sits inside the current line,
    /// every line ends with its synthetic terminator (so none is empty), and
    /// the index mirrors the cursor.
    pub open spec fn wf(&self) -> bool {
        &&& self.li <= self.lines@.len()
        &&& (self.li < self.lines@.len() ==> self.cursor <= self.lines@[self.li as int]@.len())
        &&& (forall|i: int|
            0 <= i < self.lines@.len() ==> #[trigger] self.lines@[i]@.len() > 0
                && self.lines@[i]@.last() == '\n')
        &&& (self.li < self.lines@.len() ==> self.index == (FileIndex {
            line: Some(self.li),
            column: self.cursor,
        }))
    }

    /// Create a stream from lines of characters. Each line is given its
    /// synthetic terminating newline here.
    pub fn new(buffer: Vec<Vec<char>>) -> (r: Self)
        ensures
            r.wf(),
            r.lines_seq() == spec_with_newlines(lines_view(buffer@)),
            r.remaining() == spec_with_newlines(lines_view(buffer@)).flatten(),
            r.spec_index().spec_line_number() == 0,
            r.spec_index().column == 0,
            !r.spec_eof() <==> buffer@.len() > 0,
    {
        let ghost orig = lines_view(buffer@);
        let mut buffer = buffer;
        let mut lines: Vec<Vec<char>> = Vec::new();
        while buffer.len() > 0
            invariant
                lines_view(lines@) =~= spec_with_newlines(orig.take(orig.len() - buffer@.len())),
                lines_view(buffer@) =~= orig.skip(orig.len() - buffer@.len()),
                buffer@.len() <= orig.len(),
            decreases buffer@.len(),
        {
            let ghost done = orig.len() - buffer@.len();
            let ghost pre_lines = lines@;
            let ghost pre_buf = buffer@;
            let mut line = buffer.remove(0);
            proof {
                assert(lines_view(pre_buf)[0] == pre_buf[0]@);
                assert(orig.skip(done as int)[0] == orig[done as int]);
                assert(line@ == orig[done as int]);
                assert forall|j: int| 0 <= j < buffer@.len() implies #[trigger] buffer@[j]@
                    == orig.skip(done + 1)[j] by {
                    assert(buffer@[j] == pre_buf[j + 1]);
                    assert(lines_view(pre_buf)[j + 1] == pre_buf[j + 1]@);
                    assert(orig.skip(done as int)[j + 1] == orig[done + 1 + j]);
                }
                assert(lines_view(buffer@) =~= orig.skip(done + 1));
            }
            line.push('\n');
            proof {
                assert(line@ =~= orig[done as int].push('\n'));
            }
            lines.push(line);
            proof {
                assert(lines_view(lines@) =~= lines_view(pre_lines).push(line@));
                assert(lines_view(lines@) =~= spec_with_newlines(orig.take(done + 1)));
            }
        }
        proof {
            assert(orig.take(orig.len() as int) =~= orig);
        }
        let eof = lines.len() == 0;
        let r = Self {
            lines,
            li: 0,
            cursor: 0,
            index: if eof {
                FileIndex::default()
            } else {
                FileIndex::new(Some(0), 0)
            },
        };
        proof {
            let lv = r.lines_seq();
            assert forall|i: int| 0 <= i < r.lines@.len() implies #[trigger] r.lines@[i]@.len()
                > 0 && r.lines@[i]@.last() == '\n' by {
                assert(lines_view(r.lines@)[i] == r.lines@[i]@);
                assert(spec_with_newlines(orig)[i] == orig[i].push('\n'));
            }
            if r.lines@.len() > 0 {
                assert(r.remaining() =~= lv[0].skip(0) + lv.skip(1).flatten());
                assert(lv.skip(1) =~= lv.drop_first());
                assert(lv.flatten() == lv.first() + lv.drop_first().flatten());
                assert(r.remaining() =~= lv.flatten());
            } else {
                assert(lv =~= Seq::<Seq<char>>::empty());
                assert(r.remaining() =~= lv.flatten());
            }
        }
        r
    }

    /// Create a stream from a flat text: the text is split into lines at
    /// each newline, a carriage return before a newline is dropped, and each
    /// line is given back its terminating newline.
    pub fn from_text(text: Vec<char>) -> (r: Self)
        ensures
            r.wf(),
            r.lines_seq() == spec_with_newlines(spec_lines_of(text@)),
            r.remaining() == spec_with_newlines(spec_lines_of(text@)).flatten(),
    {
        let mut buffer: Vec<Vec<char>> = Vec::new();
        let mut cur: Vec<char> = Vec::new();
        let mut i: usize = 0;
        proof {
            assert(text@.skip(0) =~= text@);
        }
        while i < text.len()
            invariant
                i <= text@.len(),
                spec_lines_of(text@) == lines_view(buffer@) + spec_lines_acc(
                    text@.skip(i as int),
                    cur@,
                ),
            decreases text@.len() - i,
        {
            let ghost pre_buffer = buffer@;
            let ghost pre_cur = cur@;
            let ghost s = text@.skip(i as int);
            let c = text[i];
            proof {
                assert(s[0] == text@[i as int]);
                assert(s.drop_first() =~= text@.skip(i + 1));
            }
            if c == '\n' {
                let strip = cur.len() > 0 && *cur.last().unwrap() == '\r';
                if strip {
                    cur.pop();
                }
                proof {
                    let line = if pre_cur.len() > 0 && pre_cur.last() == '\r' {
                        pre_cur.drop_last()
                    } else {
                        pre_cur
                    };
                    assert(cur@ =~= line);
                }
                buffer.push(cur);
                cur = Vec::new();
                proof {
                    let line = if pre_cur.len() > 0 && pre_cur.last() == '\r' {
                        pre_cur.drop_last()
                    } else {
                        pre_cur
                    };
                    assert(cur@ =~= Seq::<char>::empty());
                    assert(spec_lines_acc(s, pre_cur) == seq![line] + spec_lines_acc(
                        text@.skip(i + 1),
                        cur@,
                    ));
                    assert(lines_view(buffer@) =~= lines_view(pre_buffer).push(line));
                    assert(lines_view(pre_buffer) + (seq![line] + spec_lines_acc(
                        text@.skip(i + 1),
                        cur@,
                    )) =~= lines_view(buffer@) + spec_lines_acc(text@.skip(i + 1), cur@));
                }
            } else {
                cur.push(c);
                proof {
                    assert(cur@ == pre_cur.push(text@[i as int]));
                    assert(spec_lines_acc(s, pre_cur) == spec_lines_acc(text@.skip(i + 1), cur@));
                }
            }
            i = i + 1;
        }
        proof {
            assert(text@.skip(text@.len() as int) =~= Seq::<char>::empty());
        }
        if cur.len() > 0 {
            let ghost pre_buffer = buffer@;
            buffer.push(cur);
            proof {
                assert(lines_view(buffer@) =~= lines_view(pre_buffer).push(
                    spec_lines_acc(Seq::empty(), cur@)[0],
                ));
                assert(lines_view(pre_buffer) + spec_lines_acc(Seq::empty(), cur@) =~= lines_view(
                    buffer@,
                ));
            }
        } else {
            proof {
                assert(lines_view(buffer@) + spec_lines_acc(Seq::empty(), cur@) =~= lines_view(
                    buffer@,
                ));
            }
        }
        proof {
            assert(spec_lines_of(text@) == lines_view(buffer@));
        }
        Self::new(buffer)
    }

    /// Check if the stream has ended: the stream has attempted to read past
    /// its last line. When this is true nothing remains to be read.
    pub fn eof_reached(&self) -> (r: bool)
        requires
            self.wf(),
        ensures
            r == self.spec_eof(),
            r ==> self.remaining().len() == 0,
    {
        self.li >= self.lines.len()
    }

    /// The index of the current character.
    pub fn get_index(&self) -> (r: FileIndex)
        ensures
            r == self.index,
    {
        self.index
    }

    /// Read the next character in the stream. If there are no more
    /// characters, `None` is returned, and from that point on the stream
    /// reports the end of the input.
    pub fn next_unit(&mut self) -> (r: Option<char>)
        requires
            old(self).wf(),
        ensures
            final(self).wf(),
            final(self).lines == old(self).lines,
            r is None <==> old(self).remaining().len() == 0,
            r is None ==> final(self).remaining().len() == 0 && final(self).spec_eof()
                && final(self).spec_index() == old(self).spec_index(),
            r is Some ==> r == Some(old(self).remaining()[0])
                && final(self).remaining() == old(self).remaining().drop_first()
                && old(self).spec_index().spec_le(final(self).spec_index())
                && !final(self).spec_eof(),
            r is Some ==> (if old(self).cursor < old(self).lines@[old(self).li as int]@.len() {
                final(self).li == old(self).li && final(self).index == (FileIndex {
                    line: old(self).index.line,
                    column: (old(self).index.column + 1) as usize,
                })
            } else {
                final(self).li == old(self).li + 1 && final(self).index == (FileIndex {
                    line: Some(final(self).li),
                    column: 1,
                })
            }),
            (r matches Some(c) && c != '\n') ==> !final(self).spec_eof() && final(self).cursor
                < final(self).lines@[final(self).li as int]@.len(),
            old(self).spec_index().spec_le(final(self).spec_index()),
    {
        if self.li >= self.lines.len() {
            return None;
        }
        let ghost pre = *self;
        if self.cursor < self.lines[self.li].len() {
            let c = self.lines[self.li][self.cursor];
            self.cursor = self.cursor + 1;
            self.index.step();
            proof {
                assert(self.remaining() =~= pre.remaining().drop_first());
                assert(c == pre.remaining()[0]);
                if c != '\n' {
                    // A line's last character is its terminator, so a
                    // non-terminator character never ends the line.
                    assert(pre.lines@[pre.li as int]@.last() == '\n');
                    assert(pre.cursor < pre.lines@[pre.li as int]@.len() - 1);
                }
            }
            Some(c)
        } else {
            // The current line is spent: move to the next one, which is
            // nonempty, and take its first character.
            let ghost lv = pre.lines_seq();
            proof {
                assert(pre.lines@[pre.li as int]@.skip(pre.cursor as int) =~= Seq::<char>::empty());
                assert(pre.remaining() =~= lv.skip(pre.li + 1).flatten());
            }
            self.li = self.li + 1;
            if self.li >= self.lines.len() {
                proof {
                    assert(lv.skip(pre.li + 1) =~= Seq::<Seq<char>>::empty());
                    assert(pre.remaining() =~= Seq::<char>::empty());
                }
                return None;
            }
            self.cursor = 1;
            self.index = FileIndex::new(Some(self.li), 1);
            let c = self.lines[self.li][0];
            proof {
                if c != '\n' {
                    assert(pre.lines@[pre.li + 1]@.last() == '\n');
                    assert(pre.lines@[pre.li + 1]@.len() >= 2);
                }
                let rest = lv.skip(pre.li + 1);
                assert(rest.len() > 0);
                assert(rest.first() == lv[pre.li + 1]);
                assert(rest.flatten() == rest.first() + rest.drop_first().flatten());
                assert(rest.drop_first() =~= lv.skip(pre.li + 2));
                assert(lv[pre.li + 1] == pre.lines@[pre.li + 1]@);
                assert(lv[pre.li + 1].len() > 0);
                assert(self.lines_seq().skip(self.li + 1) =~= lv.skip(pre.li + 2));
                assert(self.remaining() =~= pre.lines@[pre.li + 1]@.skip(1) + lv.skip(
                    pre.li + 2,
                ).flatten());
                assert(pre.remaining() =~= lv[pre.li + 1] + lv.skip(pre.li + 2).flatten());
                assert(self.remaining() =~= pre.remaining().drop_first());
                assert(c == pre.remaining()[0]);
            }
            Some(c)
        }
    }

    /// Hand the stream one more line, before the end of the input has been
    /// observed. The line receives its synthetic terminating newline here.
    pub fn push_line(&mut self, line: Vec<char>)
        requires
            old(self).wf(),
            !old(self).spec_eof(),
        ensures
            final(self).wf(),
            !final(self).spec_eof(),
            final(self).remaining() == old(self).remaining() + line@.push('\n'),
            final(self).spec_index() == old(self).spec_index(),
    {
        let ghost pre = *self;
        let mut line = line;
        line.push('\n');
        let ghost l = line@;
        self.lines.push(line);
        proof {
            let lv = pre.lines_seq();
            let lv2 = self.lines_seq();
            assert(lv2 =~= lv.push(l));
            assert(lv2.skip(self.li + 1) =~= lv.skip(self.li + 1).push(l));
            lv.skip(self.li + 1).lemma_flatten_push(l);
            assert(lv2[self.li as int] == lv[self.li as int]);
            assert(self.remaining() =~= pre.remaining() + l);
        }
    }
}

} // verus!
