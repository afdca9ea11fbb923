//! A growable sequence of rows of colored characters.

use vstd::prelude::*;
use crate::vga::{Color, ColorCode, attribute};

verus! {

/// A character together with its color.
#[derive(Clone, Copy, PartialEq, Eq, Debug, Structural)]
pub struct BufferCharacter {
    pub character: char,
    pub color: ColorCode,
}

impl BufferCharacter {
    /// Light gray on black.
    pub fn default_color() -> (r: ColorCode)
        ensures
            r.0 == attribute(Color::LightGray, Color::Black),
    {
        ColorCode::new(Color::LightGray, Color::Black)
    }
}

/// One row of a buffer.
#[derive(Clone, Debug)]
pub struct BufferLine {
    pub chars: Vec<BufferCharacter>,
}

impl BufferLine {
    pub open spec fn view(&self) -> Seq<BufferCharacter> {
        self.chars@
    }

    pub fn empty() -> (r: BufferLine)
        ensures
            r@ == Seq::<BufferCharacter>::empty(),
    {
        BufferLine { chars: Vec::new() }
    }

    pub fn copy(&self) -> (r: BufferLine)
        ensures
            r@ == self@,
    {
        let mut chars: Vec<BufferCharacter> = Vec::new();
        let mut i: usize = 0;
        while i < self.chars.len()
            invariant
                i <= self.chars@.len(),
                chars@ == self.chars@.subrange(0, i as int),
            decreases self.chars@.len() - i,
        {
            chars.push(self.chars[i]);
            i = i + 1;
            assert(chars@ =~= self.chars@.subrange(0, i as int));
        }
        assert(chars@ =~= self.chars@);
        BufferLine { chars }
    }

    /// The row without its first `n` cells (empty when it is not longer than `n`).
    pub fn skip(&self, n: usize) -> (r: BufferLine)
        ensures
            r@ == skip_cells(self@, n as int),
    {
        let mut chars: Vec<BufferCharacter> = Vec::new();
        let mut i: usize = n;
        while i < self.chars.len()
            invariant
                n <= i,
                n < self.chars@.len() ==> i <= self.chars@.len(),
                n < self.chars@.len() ==> chars@ == self.chars@.subrange(n as int, i as int),
                n >= self.chars@.len() ==> chars@.len() == 0,
            decreases self.chars@.len() - i,
        {
            chars.push(self.chars[i]);
            i = i + 1;
            assert(chars@ =~= self.chars@.subrange(n as int, i as int));
        }
        if n < self.chars.len() {
            assert(chars@ =~= self.chars@.subrange(n as int, self.chars@.len() as int));
        } else {
            assert(chars@ =~= Seq::<BufferCharacter>::empty());
        }
        BufferLine { chars }
    }
}

/// A row with its first `n` cells removed.
pub open spec fn skip_cells(row: Seq<BufferCharacter>, n: int) -> Seq<BufferCharacter> {
    if n < row.len() {
        row.subrange(n, row.len() as int)
    } else {
        Seq::empty()
    }
}

/// The rows `from .. from + len` of `rows`, clipped at its end.
pub open spec fn window(rows: Seq<Seq<BufferCharacter>>, from: int, len: int) -> Seq<Seq<BufferCharacter>> {
    if from >= rows.len() {
        Seq::empty()
    } else if from + len > rows.len() {
        rows.subrange(from, rows.len() as int)
    } else {
        rows.subrange(from, from + len)
    }
}

/// The contents of a slice of rows.
pub open spec fn lines_view(lines: Seq<BufferLine>) -> Seq<Seq<BufferCharacter>> {
    Seq::new(lines.len(), |i: int| lines[i]@)
}

/// Rows of colored characters with a write position on the last row.
#[derive(Debug)]
pub struct Textbuffer {
    pub lines: Vec<BufferLine>,
    row: usize,
}

impl Textbuffer {
    /// The rows, as sequences of cells.
    pub closed spec fn rows(&self) -> Seq<Seq<BufferCharacter>> {
        lines_view(self.lines@)
    }

    /// The row that is written to.
    pub closed spec fn write_row(&self) -> nat {
        self.row as nat
    }

    /// At least one row exists, and writing happens on the last one.
    pub open spec fn wf(&self) -> bool {
        &&& 1 <= self.rows().len() <= usize::MAX
        &&& self.write_row() == self.rows().len() - 1
    }

    pub fn new() -> (r: Textbuffer)
        ensures
            r.wf(),
            r.rows() == seq![Seq::<BufferCharacter>::empty()],
    {
        let mut lines: Vec<BufferLine> = Vec::new();
        lines.push(BufferLine::empty());
        let r = Textbuffer { lines, row: 0 };
        assert(r.rows() =~= seq![Seq::<BufferCharacter>::empty()]);
        r
    }

    /// Drops every row and starts again from one empty row.
    pub fn flush(&mut self)
        ensures
            final(self).wf(),
            final(self).rows() == seq![Seq::<BufferCharacter>::empty()],
    {
        self.lines.clear();
        self.lines.push(BufferLine::empty());
        self.row = 0;
        assert(self.rows() =~= seq![Seq::<BufferCharacter>::empty()]);
    }

    /// Copies of the rows `from .. from + len`; rows past the end are left out.
    pub fn get_lines(&self, from: usize, len: usize) -> (r: Vec<BufferLine>)
        ensures
            lines_view(r@) == window(self.rows(), from as int, len as int),
    {
        let mut out: Vec<BufferLine> = Vec::new();
        let n = self.lines.len();
        if from >= n {
            assert(lines_view(out@) =~= window(self.rows(), from as int, len as int));
            return out;
        }
        let end: usize = if len > n - from { n } else { from + len };
        let mut i: usize = from;
        while i < end
            invariant
                from <= i <= end,
                end <= n,
                n == self.lines@.len(),
                lines_view(out@) == self.rows().subrange(from as int, i as int),
            decreases end - i,
        {
            let line = self.lines[i].copy();
            let ghost before = out@;
            out.push(line);
            assert(out@ == before.push(line));
            assert(line@ == self.rows()[i as int]);
            assert(lines_view(out@) =~= lines_view(before).push(line@));
            i = i + 1;
            assert(lines_view(out@) =~= self.rows().subrange(from as int, i as int));
        }
        assert(lines_view(out@) =~= window(self.rows(), from as int, len as int));
        out
    }

    /// The write position: the last row and its length.
    pub fn end_coord(&self) -> (r: (usize, usize))
        requires
            self.wf(),
        ensures
            r.0 == self.rows().len() - 1,
            r.1 == self.rows().last().len(),
    {
        (self.row, self.lines[self.row].chars.len())
    }

    pub fn write_char_color(&mut self, character: char, color: ColorCode)
        requires
            old(self).wf(),
        ensures
            final(self).wf(),
            final(self).rows() == old(self).rows().update(
                old(self).rows().len() - 1,
                old(self).rows().last().push(BufferCharacter { character, color }),
            ),
    {
        let c = BufferCharacter { character, color };
        let _ = self.lines.len();
        let mut line = BufferLine::empty();
        std::mem::swap(&mut line, &mut self.lines[self.row]);
        line.chars.push(c);
        std::mem::swap(&mut line, &mut self.lines[self.row]);
        assert(self.rows() =~= old(self).rows().update(
            old(self).rows().len() - 1,
            old(self).rows().last().push(c),
        ));
    }

    pub fn write_char(&mut self, character: char)
        requires
            old(self).wf(),
        ensures
            final(self).wf(),
            final(self).rows() == old(self).rows().update(
                old(self).rows().len() - 1,
                old(self).rows().last().push(
                    BufferCharacter { character, color: ColorCode(attribute(Color::LightGray, Color::Black)) },
                ),
            ),
    {
        self.write_char_color(character, BufferCharacter::default_color())
    }

    /// Starts a new, empty row and writes there from now on.
    pub fn new_line(&mut self)
        requires
            old(self).wf(),
        ensures
            final(self).wf(),
            final(self).rows() == old(self).rows().push(Seq::<BufferCharacter>::empty()),
    {
        self.lines.push(BufferLine::empty());
        self.row = self.lines.len() - 1;
        assert(self.rows() =~= old(self).rows().push(Seq::<BufferCharacter>::empty()));
    }

    /// Appends each character of `s`, in the default color, to the last row.
    pub fn write_string(&mut self, s: &str)
        requires
            old(self).wf(),
        ensures
            final(self).wf(),
            final(self).rows() == old(self).rows().update(
                old(self).rows().len() - 1,
                old(self).rows().last() + s@.map_values(|c: char| default_cell(c)),
            ),
    {
        let n = s.unicode_len();
        let mut i: usize = 0;
        while i < n
            invariant
                self.wf(),
                n == s@.len(),
                i <= n,
                old(self).wf(),
                self.rows() == old(self).rows().update(
                    old(self).rows().len() - 1,
                    old(self).rows().last() + s@.subrange(0, i as int).map_values(|c: char| default_cell(c)),
                ),
            decreases n - i,
        {
            let c = s.get_char(i);
            let ghost prev = self.rows();
            let ghost done = s@.subrange(0, i as int).map_values(|c: char| default_cell(c));
            assert(prev.last() == old(self).rows().last() + done);
            self.write_char(c);
            i = i + 1;
            assert((old(self).rows().last() + done).push(default_cell(c)) =~= old(self).rows().last() + done.push(default_cell(c)));
            assert(s@.subrange(0, i as int).map_values(|c: char| default_cell(c)) =~= s@.subrange(
                0,
                i - 1,
            ).map_values(|c: char| default_cell(c)).push(default_cell(c)));
            assert(self.rows() =~= old(self).rows().update(
                old(self).rows().len() - 1,
                old(self).rows().last() + s@.subrange(0, i as int).map_values(|c: char| default_cell(c)),
            ));
        }
        assert(s@.subrange(0, n as int) =~= s@);
    }
}

/// A character in light gray on black.
pub open spec fn default_cell(c: char) -> BufferCharacter {
    BufferCharacter { character: c, color: ColorCode(attribute(Color::LightGray, Color::Black)) }
}

} // verus!
