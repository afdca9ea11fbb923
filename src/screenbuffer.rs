//! A console with a fixed scrollback of rows of display cells, echoed to the
//! display as it is written.

use vstd::prelude::*;
use crate::vga::{Color, ColorCode, ScreenChar, attribute};
use crate::writer::{ScreenState, Writer, char_byte, mode_height};
use crate::term::clamp_sub;

verus! {

/// Rows kept in the scrollback.
pub const SCREENBUFFER_SCROLLBACK_ROWS: usize = 1000;

/// Columns and rows of the display window onto the scrollback.
pub const BUFFER_WIDTH: usize = 80;
pub const BUFFER_HEIGHT: usize = 25;

/// The highest first row of the display window.
pub const MAX_SCROLL_ROW: usize = 975;

/// Escape bytes of the scrollback console.
#[derive(Clone, Copy, PartialEq, Eq, Debug, Structural)]
pub enum EscapeChar {
    ScrollUp,
    ScrollDown,
}

impl EscapeChar {
    pub open spec fn spec_code(self) -> u8 {
        match self {
            EscapeChar::ScrollUp => 1,
            EscapeChar::ScrollDown => 2,
        }
    }

    pub fn code(self) -> (r: u8)
        ensures
            r == self.spec_code(),
    {
        match self {
            EscapeChar::ScrollUp => 1,
            EscapeChar::ScrollDown => 2,
        }
    }
}

/// An empty cell in light gray on black.
pub open spec fn blank_cell() -> ScreenChar {
    ScreenChar { ascii_character: 32, color_code: ColorCode(attribute(Color::LightGray, Color::Black)) }
}

pub open spec fn blank_line() -> Seq<ScreenChar> {
    Seq::new(BUFFER_WIDTH as nat, |c: int| blank_cell())
}

/// The scrollback console's state.
pub struct ScrollbackView {
    pub cells: Seq<Seq<ScreenChar>>,
    pub col: nat,
    pub row: nat,
    pub scroll_row: nat,
}

pub open spec fn scrollback_wf(v: ScrollbackView) -> bool {
    &&& v.cells.len() == SCREENBUFFER_SCROLLBACK_ROWS
    &&& forall|r: int| 0 <= r < v.cells.len() ==> #[trigger] v.cells[r].len() == BUFFER_WIDTH
    &&& v.row < SCREENBUFFER_SCROLLBACK_ROWS
    &&& v.col <= BUFFER_WIDTH
    &&& v.scroll_row <= MAX_SCROLL_ROW
    &&& forall|r: int, c: int|
        0 <= r < v.cells.len() && 0 <= c < v.cells[r].len() ==> (#[trigger] v.cells[r][c]).ascii_character != 10
}

/// The display's first rows show the scrollback's window.
pub open spec fn shows_window(v: ScrollbackView, s: ScreenState) -> bool {
    forall|k: int, c: int|
        0 <= k < BUFFER_HEIGHT && 0 <= c < BUFFER_WIDTH ==> #[trigger] s.cells[k][c] == v.cells[v.scroll_row + k][c]
}

/// Where a repaint leaves the display's write position: at the cursor when the
/// cursor is not above the window, else after the window's last cell.
pub open spec fn repaint_cursor(v: ScrollbackView) -> (nat, nat) {
    if v.row >= v.scroll_row {
        (v.col, (v.row - v.scroll_row) as nat)
    } else {
        (BUFFER_WIDTH as nat, (BUFFER_HEIGHT - 1) as nat)
    }
}

/// The window's first row moved to `row`, held at the last full window.
pub open spec fn scrolled_to(v: ScrollbackView, row: nat) -> ScrollbackView {
    ScrollbackView { scroll_row: if row > MAX_SCROLL_ROW { MAX_SCROLL_ROW as nat } else { row }, ..v }
}

/// The window moved so that the cursor's row is its last row, or to the top.
pub open spec fn sb_focused(v: ScrollbackView) -> ScrollbackView {
    scrolled_to(v, if v.row > BUFFER_HEIGHT - 1 { (v.row - (BUFFER_HEIGHT - 1)) as nat } else { 0 })
}

/// A line feed: the next row (the oldest row is evicted at the end of the
/// scrollback), the window following the cursor down.
pub open spec fn sb_fed(v: ScrollbackView) -> ScrollbackView {
    let u = if v.row + 1 == SCREENBUFFER_SCROLLBACK_ROWS {
        ScrollbackView { cells: v.cells.drop_first().push(blank_line()), col: 0, ..v }
    } else {
        ScrollbackView { row: v.row + 1, col: 0, ..v }
    };
    if u.row >= u.scroll_row + BUFFER_HEIGHT {
        scrolled_to(u, u.scroll_row + 1)
    } else {
        u
    }
}

/// The state after one byte.
pub open spec fn sb_written(v: ScrollbackView, b: u8) -> ScrollbackView {
    if b == 10 {
        sb_fed(v)
    } else if b == EscapeChar::ScrollDown.spec_code() {
        scrolled_to(v, v.scroll_row + 1)
    } else if b == EscapeChar::ScrollUp.spec_code() {
        scrolled_to(v, clamp_sub(v.scroll_row, 1))
    } else {
        let u = if v.col >= BUFFER_WIDTH { sb_fed(v) } else { v };
        let w = if u.row >= u.scroll_row + BUFFER_HEIGHT || u.row < u.scroll_row { sb_focused(u) } else { u };
        ScrollbackView {
            cells: w.cells.update(
                w.row as int,
                w.cells[w.row as int].update(
                    w.col as int,
                    ScreenChar { ascii_character: b, color_code: ColorCode(attribute(Color::LightGray, Color::Black)) },
                ),
            ),
            col: w.col + 1,
            ..w
        }
    }
}

/// The state after the bytes of `bytes` in order.
pub open spec fn sb_written_all(v: ScrollbackView, bytes: Seq<u8>) -> ScrollbackView
    decreases bytes.len(),
{
    if bytes.len() == 0 {
        v
    } else {
        sb_written(sb_written_all(v, bytes.drop_last()), bytes.last())
    }
}

/// The console with its scrollback.
pub struct Screenbuffer {
    scrollback: Vec<Vec<ScreenChar>>,
    col: usize,
    row: usize,
    scroll_row: usize,
}

impl Screenbuffer {
    pub closed spec fn view(&self) -> ScrollbackView {
        ScrollbackView {
            cells: Seq::new(self.scrollback@.len(), |r: int| self.scrollback@[r]@),
            col: self.col as nat,
            row: self.row as nat,
            scroll_row: self.scroll_row as nat,
        }
    }

    pub open spec fn wf(&self) -> bool {
        scrollback_wf(self@)
    }

    fn blank_line() -> (r: Vec<ScreenChar>)
        ensures
            r@ == blank_line(),
    {
        let blank = ScreenChar { ascii_character: 32u8, color_code: ColorCode::default() };
        let mut line: Vec<ScreenChar> = Vec::new();
        let mut i: usize = 0;
        while i < BUFFER_WIDTH
            invariant
                i <= BUFFER_WIDTH,
                blank == blank_cell(),
                line@ == Seq::new(i as nat, |c: int| blank_cell()),
            decreases BUFFER_WIDTH - i,
        {
            line.push(blank);
            i = i + 1;
            assert(line@ =~= Seq::new(i as nat, |c: int| blank_cell()));
        }
        line
    }

    /// An empty scrollback, shown on the display.
    pub fn new(writer: &mut Writer) -> (r: Screenbuffer)
        requires
            old(writer).wf(),
        ensures
            r.wf(),
            r@ == (ScrollbackView {
                cells: Seq::new(SCREENBUFFER_SCROLLBACK_ROWS as nat, |r: int| blank_line()),
                col: 0,
                row: 0,
                scroll_row: 0,
            }),
            final(writer).wf(),
            final(writer)@.mode == old(writer)@.mode,
            shows_window(r@, final(writer)@),
            final(writer)@.col == 0 && final(writer)@.row == 0,
    {
        let mut scrollback: Vec<Vec<ScreenChar>> = Vec::new();
        let mut i: usize = 0;
        while i < SCREENBUFFER_SCROLLBACK_ROWS
            invariant
                i <= SCREENBUFFER_SCROLLBACK_ROWS,
                Seq::new(scrollback@.len(), |r: int| scrollback@[r]@) == Seq::new(i as nat, |r: int| blank_line()),
            decreases SCREENBUFFER_SCROLLBACK_ROWS - i,
        {
            let line = Self::blank_line();
            let ghost before = scrollback@;
            scrollback.push(line);
            assert(Seq::new(scrollback@.len(), |r: int| scrollback@[r]@) =~= Seq::new(before.len(), |r: int| before[r]@).push(line@));
            i = i + 1;
            assert(Seq::new(scrollback@.len(), |r: int| scrollback@[r]@) =~= Seq::new(i as nat, |r: int| blank_line()));
        }
        let mut screenbuffer = Screenbuffer { scrollback, col: 0, row: 0, scroll_row: 0 };
        screenbuffer.scroll_to(0, writer);
        screenbuffer
    }

    /// Moves the window and repaints it, placing the cursor when it lies below the window's top.
    fn scroll_to(&mut self, row: usize, writer: &mut Writer)
        requires
            old(self).wf(),
            old(writer).wf(),
        ensures
            final(self).wf(),
            final(self)@ == scrolled_to(old(self)@, row as nat),
            final(writer).wf(),
            final(writer)@.mode == old(writer)@.mode,
            shows_window(final(self)@, final(writer)@),
            (final(writer)@.col, final(writer)@.row) == repaint_cursor(final(self)@),
    {
        self.scroll_row = if row > MAX_SCROLL_ROW {
            MAX_SCROLL_ROW
        } else {
            row
        };
        writer.move_cursor(0, 0);
        let ghost mode = writer@.mode;
        let ghost sr = self.scroll_row as int;
        let mut r: usize = self.scroll_row;
        while r < self.scroll_row + BUFFER_HEIGHT
            invariant
                self.wf(),
                sr == self.scroll_row,
                self.scroll_row <= r <= self.scroll_row + BUFFER_HEIGHT,
                writer.wf(),
                writer.on_grid(),
                writer@.mode == mode,
                mode_height(mode) >= BUFFER_HEIGHT,
                r == sr ==> writer@.row == 0 && writer@.col == 0,
                r > sr ==> writer@.row == r - sr - 1 && writer@.col == BUFFER_WIDTH,
                forall|k: int, c: int|
                    0 <= k < r - sr && 0 <= c < BUFFER_WIDTH ==> #[trigger] writer@.cells[k][c] == self@.cells[sr + k][c],
            decreases self.scroll_row + BUFFER_HEIGHT - r,
        {
            let mut c: usize = 0;
            while c < BUFFER_WIDTH
                invariant
                    self.wf(),
                    sr == self.scroll_row,
                    sr <= r < sr + BUFFER_HEIGHT,
                    r < SCREENBUFFER_SCROLLBACK_ROWS,
                    c <= BUFFER_WIDTH,
                    writer.wf(),
                    writer.on_grid(),
                    writer@.mode == mode,
                    mode_height(mode) >= BUFFER_HEIGHT,
                    c == 0 && r == sr ==> writer@.row == 0 && writer@.col == 0,
                    c == 0 && r > sr ==> writer@.row == r - sr - 1 && writer@.col == BUFFER_WIDTH,
                    c > 0 ==> writer@.row == r - sr && writer@.col == c,
                    forall|k: int, j: int|
                        0 <= k < r - sr && 0 <= j < BUFFER_WIDTH ==> #[trigger] writer@.cells[k][j] == self@.cells[sr + k][j],
                    forall|j: int| 0 <= j < c ==> #[trigger] writer@.cells[r - sr][j] == self@.cells[r as int][j],
                decreases BUFFER_WIDTH - c,
            {
                assert(self@.cells[r as int] == self.scrollback@[r as int]@);
                let ch = self.scrollback[r][c];
                assert(ch == self@.cells[r as int][c as int]);
                writer.write_screen_char(ch);
                c = c + 1;
            }
            r = r + 1;
        }
        if self.row >= self.scroll_row {
            writer.move_cursor(self.col, self.row - self.scroll_row);
        }
    }

    fn scroll(&mut self, lines: usize, down: bool, writer: &mut Writer)
        requires
            old(self).wf(),
            old(writer).wf(),
            lines <= 1,
        ensures
            final(self).wf(),
            final(self)@ == scrolled_to(
                old(self)@,
                if down {
                    old(self)@.scroll_row + lines as nat
                } else {
                    clamp_sub(old(self)@.scroll_row, lines as nat)
                },
            ),
            final(writer).wf(),
            final(writer)@.mode == old(writer)@.mode,
            shows_window(final(self)@, final(writer)@),
            (final(writer)@.col, final(writer)@.row) == repaint_cursor(final(self)@),
    {
        let mut new_scroll_row = self.scroll_row;
        if down {
            new_scroll_row = new_scroll_row + lines;
        } else if new_scroll_row >= lines {
            new_scroll_row = new_scroll_row - lines;
        } else {
            new_scroll_row = 0;
        }
        self.scroll_to(new_scroll_row, writer);
    }

    fn focus_cursor(&mut self, writer: &mut Writer)
        requires
            old(self).wf(),
            old(writer).wf(),
        ensures
            final(self).wf(),
            final(self)@ == sb_focused(old(self)@),
            final(writer).wf(),
            final(writer)@.mode == old(writer)@.mode,
            shows_window(final(self)@, final(writer)@),
            (final(writer)@.col, final(writer)@.row) == repaint_cursor(final(self)@),
    {
        let mut new_scroll_row: usize = 0;
        if self.row > BUFFER_HEIGHT - 1 {
            new_scroll_row = self.row - (BUFFER_HEIGHT - 1);
        }
        self.scroll_to(new_scroll_row, writer);
    }

    fn new_line(&mut self, writer: &mut Writer)
        requires
            old(self).wf(),
            old(writer).wf(),
        ensures
            final(self).wf(),
            final(self)@ == sb_fed(old(self)@),
            final(writer).wf(),
    {
        if self.row + 1 == SCREENBUFFER_SCROLLBACK_ROWS {
            let line = Self::blank_line();
            self.scrollback.remove(0);
            self.scrollback.push(line);
            assert(self@.cells =~= old(self)@.cells.drop_first().push(blank_line()));
        } else {
            self.row = self.row + 1;
        }
        self.col = 0;
        if self.row >= self.scroll_row + BUFFER_HEIGHT {
            self.scroll(1, true, writer);
        } else if writer.cursor().1 < writer.height() {
            writer.new_line();
        }
    }

    fn set_cell(&mut self, ch: ScreenChar)
        requires
            old(self).wf(),
            old(self).col < BUFFER_WIDTH,
            ch.ascii_character != 10,
        ensures
            final(self).wf(),
            final(self)@ == (ScrollbackView {
                cells: old(self)@.cells.update(
                    old(self)@.row as int,
                    old(self)@.cells[old(self)@.row as int].update(old(self)@.col as int, ch),
                ),
                ..old(self)@
            }),
    {
        let mut line: Vec<ScreenChar> = Vec::new();
        std::mem::swap(&mut line, &mut self.scrollback[self.row]);
        assert(line@ == old(self)@.cells[self.row as int]);
        line.set(self.col, ch);
        std::mem::swap(&mut line, &mut self.scrollback[self.row]);
        assert(self@.cells =~= old(self)@.cells.update(
            old(self)@.row as int,
            old(self)@.cells[old(self)@.row as int].update(old(self)@.col as int, ch),
        ));
    }

    /// Handles one byte: a line feed, a scroll escape (which repaints the
    /// window), or a cell written at the cursor (after wrapping and bringing
    /// the cursor into view) and echoed.
    pub fn write_byte(&mut self, byte: u8, writer: &mut Writer)
        requires
            old(self).wf(),
            old(writer).wf(),
        ensures
            final(self).wf(),
            final(self)@ == sb_written(old(self)@, byte),
            final(writer).wf(),
            byte == EscapeChar::ScrollUp.spec_code() || byte == EscapeChar::ScrollDown.spec_code() ==> {
                &&& final(writer)@.mode == old(writer)@.mode
                &&& shows_window(final(self)@, final(writer)@)
                &&& (final(writer)@.col, final(writer)@.row) == repaint_cursor(final(self)@)
            },
    {
        if byte == 10u8 {
            self.new_line(writer);
        } else if byte == EscapeChar::ScrollDown.code() {
            self.scroll(1, true, writer);
        } else if byte == EscapeChar::ScrollUp.code() {
            self.scroll(1, false, writer);
        } else {
            if self.col >= BUFFER_WIDTH {
                self.new_line(writer);
            }
            if self.row >= self.scroll_row + BUFFER_HEIGHT || self.row < self.scroll_row {
                self.focus_cursor(writer);
            }
            self.set_cell(ScreenChar { ascii_character: byte, color_code: ColorCode::default() });
            self.col = self.col + 1;
            if writer.cursor().1 < writer.height() {
                writer.write_byte(byte);
            }
        }
    }

    /// Handles each character of `s`, as its low byte.
    pub fn write_string(&mut self, s: &str, writer: &mut Writer)
        requires
            old(self).wf(),
            old(writer).wf(),
        ensures
            final(self).wf(),
            final(writer).wf(),
            final(self)@ == sb_written_all(old(self)@, s@.map_values(|c: char| char_byte(c))),
    {
        let n = s.unicode_len();
        let mut i: usize = 0;
        while i < n
            invariant
                self.wf(),
                writer.wf(),
                n == s@.len(),
                i <= n,
                self@ == sb_written_all(old(self)@, s@.subrange(0, i as int).map_values(|c: char| char_byte(c))),
            decreases n - i,
        {
            let c = s.get_char(i);
            self.write_byte((c as u32 % 256) as u8, writer);
            i = i + 1;
            let ghost done = s@.subrange(0, i as int).map_values(|c: char| char_byte(c));
            assert(done.drop_last() =~= s@.subrange(0, i - 1).map_values(|c: char| char_byte(c)));
        }
        assert(s@.subrange(0, n as int) =~= s@);
    }

    /// The cursor: row, then column.
    pub fn cursor(&self) -> (r: (usize, usize))
        ensures
            r.0 == self@.row,
            r.1 == self@.col,
    {
        (self.row, self.col)
    }

    /// The first row of the display window.
    pub fn scroll_row(&self) -> (r: usize)
        ensures
            r == self@.scroll_row,
    {
        self.scroll_row
    }

    /// The cell at a scrollback row and a column.
    pub fn cell(&self, row: usize, col: usize) -> (r: ScreenChar)
        requires
            self.wf(),
            row < SCREENBUFFER_SCROLLBACK_ROWS,
            col < BUFFER_WIDTH,
        ensures
            r == self@.cells[row as int][col as int],
    {
        assert(self@.cells[row as int] == self.scrollback@[row as int]@);
        self.scrollback[row][col]
    }
}

} // verus!
