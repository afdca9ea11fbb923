//! A model of the display device: a grid of cells in one of two addressing
//! modes, a write position, and what is drawn over the grid in pixel mode.

use vstd::prelude::*;
use crate::gui::Window;
use crate::textbuffer::{BufferLine, lines_view, BufferCharacter};
use crate::vga::{Color, ColorCode, ScreenChar, attribute};

verus! {

/// Columns and rows of the character-addressed mode.
pub const TEXT_WIDTH: usize = 80;
pub const TEXT_HEIGHT: usize = 25;

/// Columns and rows of 8x8 glyphs in the pixel-addressed mode.
pub const GRAPHICS_WIDTH: usize = 80;
pub const GRAPHICS_HEIGHT: usize = 60;

/// How the display is addressed.
#[derive(Clone, Copy, PartialEq, Eq, Debug, Structural)]
pub enum WriterMode {
    Text,
    Graphics,
}

pub open spec fn mode_width(mode: WriterMode) -> nat {
    match mode {
        WriterMode::Text => TEXT_WIDTH as nat,
        WriterMode::Graphics => GRAPHICS_WIDTH as nat,
    }
}

pub open spec fn mode_height(mode: WriterMode) -> nat {
    match mode {
        WriterMode::Text => TEXT_HEIGHT as nat,
        WriterMode::Graphics => GRAPHICS_HEIGHT as nat,
    }
}

/// The attribute of written cells: light gray on blue in text mode, white on blue in pixel mode.
pub open spec fn ink(mode: WriterMode) -> ColorCode {
    match mode {
        WriterMode::Text => ColorCode(attribute(Color::LightGray, Color::Blue)),
        WriterMode::Graphics => ColorCode(attribute(Color::White, Color::Blue)),
    }
}

/// The cell that shows the byte `b`.
pub open spec fn glyph(mode: WriterMode, b: u8) -> ScreenChar {
    ScreenChar { ascii_character: b, color_code: ink(mode) }
}

/// An empty cell.
pub open spec fn blank(mode: WriterMode) -> ScreenChar {
    glyph(mode, 32)
}

pub open spec fn blank_row(mode: WriterMode) -> Seq<ScreenChar> {
    Seq::new(mode_width(mode), |c: int| blank(mode))
}

pub open spec fn blank_grid(mode: WriterMode) -> Seq<Seq<ScreenChar>> {
    Seq::new(mode_height(mode), |r: int| blank_row(mode))
}

/// The byte that a character is shown as: its code point, truncated to eight bits.
pub open spec fn char_byte(c: char) -> u8 {
    (c as u32 % 256) as u8
}

/// The grid that shows `rows` from the top-left corner, padded with empty cells.
pub open spec fn painted(mode: WriterMode, rows: Seq<Seq<BufferCharacter>>) -> Seq<Seq<ScreenChar>> {
    Seq::new(
        mode_height(mode),
        |r: int|
            Seq::new(
                mode_width(mode),
                |c: int|
                    if r < rows.len() && c < rows[r].len() {
                        glyph(mode, char_byte(rows[r][c].character))
                    } else {
                        blank(mode)
                    },
            ),
    )
}

/// What the display shows and where it writes next.
pub struct ScreenState {
    pub mode: WriterMode,
    pub cells: Seq<Seq<ScreenChar>>,
    pub col: nat,
    pub row: nat,
    pub pointer: Option<(usize, usize)>,
    pub window: Option<Window>,
}

/// The state after a line feed: text mode scrolls the grid up at the last row,
/// pixel mode wraps to the top row and blanks the row it moves to.
pub open spec fn line_fed(s: ScreenState) -> ScreenState {
    match s.mode {
        WriterMode::Text => if s.row + 1 == mode_height(s.mode) {
            ScreenState { cells: s.cells.drop_first().push(blank_row(s.mode)), col: 0, ..s }
        } else {
            ScreenState { row: s.row + 1, col: 0, ..s }
        },
        WriterMode::Graphics => {
            let r: nat = if s.row + 1 == mode_height(s.mode) { 0 } else { s.row + 1 };
            ScreenState { cells: s.cells.update(r as int, blank_row(s.mode)), row: r, col: 0, ..s }
        },
    }
}

/// The state after writing one cell: a line feed for a newline byte; otherwise
/// the cell is written at the write position, wrapping at the right edge first.
pub open spec fn put(s: ScreenState, ch: ScreenChar) -> ScreenState {
    if ch.ascii_character == 10 {
        line_fed(s)
    } else {
        let t = if s.col >= mode_width(s.mode) { line_fed(s) } else { s };
        ScreenState {
            cells: t.cells.update(t.row as int, t.cells[t.row as int].update(t.col as int, ch)),
            col: t.col + 1,
            ..t
        }
    }
}

/// The state after writing the bytes of `bytes` in order.
pub open spec fn put_bytes(s: ScreenState, bytes: Seq<u8>) -> ScreenState
    decreases bytes.len(),
{
    if bytes.len() == 0 {
        s
    } else {
        put(put_bytes(s, bytes.drop_last()), glyph(s.mode, bytes.last()))
    }
}

/// A grid of the mode's size.
pub open spec fn grid_fits(mode: WriterMode, cells: Seq<Seq<ScreenChar>>) -> bool {
    &&& cells.len() == mode_height(mode)
    &&& forall|r: int| 0 <= r < cells.len() ==> #[trigger] cells[r].len() == mode_width(mode)
}

/// The display device.
pub struct Writer {
    mode: WriterMode,
    cells: Vec<Vec<ScreenChar>>,
    col: usize,
    row: usize,
    pointer: Option<(usize, usize)>,
    window: Option<Window>,
}

impl Writer {
    pub closed spec fn view(&self) -> ScreenState {
        ScreenState {
            mode: self.mode,
            cells: Seq::new(self.cells@.len(), |r: int| self.cells@[r]@),
            col: self.col as nat,
            row: self.row as nat,
            pointer: self.pointer,
            window: self.window,
        }
    }

    /// The grid has the size of the mode.
    pub open spec fn wf(&self) -> bool {
        grid_fits(self@.mode, self@.cells)
    }

    /// The write position is on the grid.
    pub open spec fn on_grid(&self) -> bool {
        self@.row < mode_height(self@.mode)
    }

    fn blank_cell(mode: WriterMode) -> (r: ScreenChar)
        ensures
            r == blank(mode),
    {
        ScreenChar { ascii_character: 32u8, color_code: Self::ink_of(mode) }
    }

    fn ink_of(mode: WriterMode) -> (r: ColorCode)
        ensures
            r == ink(mode),
    {
        match mode {
            WriterMode::Text => ColorCode::new(Color::LightGray, Color::Blue),
            WriterMode::Graphics => ColorCode::new(Color::White, Color::Blue),
        }
    }

    fn width_of(mode: WriterMode) -> (r: usize)
        ensures
            r == mode_width(mode),
    {
        match mode {
            WriterMode::Text => TEXT_WIDTH,
            WriterMode::Graphics => GRAPHICS_WIDTH,
        }
    }

    fn height_of(mode: WriterMode) -> (r: usize)
        ensures
            r == mode_height(mode),
    {
        match mode {
            WriterMode::Text => TEXT_HEIGHT,
            WriterMode::Graphics => GRAPHICS_HEIGHT,
        }
    }

    fn make_blank_row(mode: WriterMode) -> (r: Vec<ScreenChar>)
        ensures
            r@ == blank_row(mode),
    {
        let w = Self::width_of(mode);
        let b = Self::blank_cell(mode);
        let mut v: Vec<ScreenChar> = Vec::new();
        let mut i: usize = 0;
        while i < w
            invariant
                i <= w,
                w == mode_width(mode),
                b == blank(mode),
                v@ == Seq::new(i as nat, |c: int| blank(mode)),
            decreases w - i,
        {
            v.push(b);
            i = i + 1;
            assert(v@ =~= Seq::new(i as nat, |c: int| blank(mode)));
        }
        v
    }

    /// A display in text mode with an empty grid.
    pub fn new() -> (r: Writer)
        ensures
            r.wf(),
            r@.mode == WriterMode::Text,
            r@.cells == blank_grid(WriterMode::Text),
            r@.col == 0,
            r@.row == 0,
            r@.pointer.is_none(),
            r@.window.is_none(),
    {
        let mut w = Writer {
            mode: WriterMode::Text,
            cells: Vec::new(),
            col: 0,
            row: 0,
            pointer: None,
            window: None,
        };
        w.clear();
        w
    }

    pub fn mode(&self) -> (r: WriterMode)
        ensures
            r == self@.mode,
    {
        self.mode
    }

    /// The write position, column first.
    pub fn cursor(&self) -> (r: (usize, usize))
        ensures
            r.0 == self@.col,
            r.1 == self@.row,
    {
        (self.col, self.row)
    }

    /// Where the pointer glyph is drawn, in pixels.
    pub fn pointer(&self) -> (r: Option<(usize, usize)>)
        ensures
            r == self@.pointer,
    {
        self.pointer
    }

    /// The window drawn over the grid.
    pub fn window(&self) -> (r: Option<Window>)
        ensures
            r == self@.window,
    {
        self.window
    }

    /// The number of rows of the current mode.
    pub fn height(&self) -> (r: usize)
        ensures
            r == mode_height(self@.mode),
    {
        Self::height_of(self.mode)
    }

    /// The cell at a row and a column.
    pub fn cell(&self, row: usize, col: usize) -> (r: ScreenChar)
        requires
            self.wf(),
            row < mode_height(self@.mode),
            col < mode_width(self@.mode),
        ensures
            r == self@.cells[row as int][col as int],
    {
        assert(self@.cells[row as int] == self.cells@[row as int]@);
        self.cells[row][col]
    }

    /// Switches the addressing mode, which blanks the display.
    pub fn change_mode(&mut self, mode: WriterMode)
        ensures
            final(self).wf(),
            final(self)@ == (ScreenState {
                mode,
                cells: blank_grid(mode),
                col: 0,
                row: 0,
                pointer: None,
                window: None,
            }),
    {
        self.mode = mode;
        self.clear();
    }

    /// Moves the write position (and, in text mode, the hardware cursor).
    pub fn move_cursor(&mut self, x: usize, y: usize)
        ensures
            final(self)@ == (ScreenState { col: x as nat, row: y as nat, ..old(self)@ }),
    {
        self.row = y;
        self.col = x;
    }

    fn update_cursor(&mut self)
        ensures
            final(self)@ == old(self)@,
    {
        let (x, y) = (self.col, self.row);
        self.move_cursor(x, y);
    }

    /// Blanks the display, removes what was drawn over it and moves to the top-left corner.
    pub fn clear(&mut self)
        ensures
            final(self).wf(),
            final(self)@ == (ScreenState {
                cells: blank_grid(old(self)@.mode),
                col: 0,
                row: 0,
                pointer: None,
                window: None,
                ..old(self)@
            }),
    {
        let h = Self::height_of(self.mode);
        let mut cells: Vec<Vec<ScreenChar>> = Vec::new();
        let mut i: usize = 0;
        while i < h
            invariant
                i <= h,
                h == mode_height(self.mode),
                Seq::new(cells@.len(), |r: int| cells@[r]@) == Seq::new(i as nat, |r: int| blank_row(self.mode)),
            decreases h - i,
        {
            let row = Self::make_blank_row(self.mode);
            let ghost before = cells@;
            cells.push(row);
            assert(Seq::new(cells@.len(), |r: int| cells@[r]@) =~= Seq::new(before.len(), |r: int| before[r]@).push(row@));
            i = i + 1;
            assert(Seq::new(cells@.len(), |r: int| cells@[r]@) =~= Seq::new(i as nat, |r: int| blank_row(self.mode)));
        }
        self.cells = cells;
        self.pointer = None;
        self.window = None;
        self.move_cursor(0, 0);
        assert(self@.cells =~= blank_grid(self.mode));
    }

    fn set_cell(&mut self, row: usize, col: usize, ch: ScreenChar)
        requires
            old(self).wf(),
            row < mode_height(old(self)@.mode),
            col < mode_width(old(self)@.mode),
        ensures
            final(self).wf(),
            final(self)@ == (ScreenState {
                cells: old(self)@.cells.update(row as int, old(self)@.cells[row as int].update(col as int, ch)),
                ..old(self)@
            }),
    {
        let mut line: Vec<ScreenChar> = Vec::new();
        std::mem::swap(&mut line, &mut self.cells[row]);
        assert(line@ == old(self)@.cells[row as int]);
        line.set(col, ch);
        std::mem::swap(&mut line, &mut self.cells[row]);
        assert(self@.cells =~= old(self)@.cells.update(row as int, old(self)@.cells[row as int].update(col as int, ch)));
    }

    fn set_row(&mut self, row: usize, line: Vec<ScreenChar>)
        requires
            old(self).wf(),
            row < mode_height(old(self)@.mode),
            line@.len() == mode_width(old(self)@.mode),
        ensures
            final(self).wf(),
            final(self)@ == (ScreenState { cells: old(self)@.cells.update(row as int, line@), ..old(self)@ }),
    {
        self.cells.set(row, line);
        assert(self@.cells =~= old(self)@.cells.update(row as int, line@));
    }

    /// Blanks one row.
    pub fn clear_row(&mut self, row: usize)
        requires
            old(self).wf(),
            row < mode_height(old(self)@.mode),
        ensures
            final(self).wf(),
            final(self)@ == (ScreenState { cells: old(self)@.cells.update(row as int, blank_row(old(self)@.mode)), ..old(self)@ }),
    {
        let line = Self::make_blank_row(self.mode);
        self.set_row(row, line);
    }

    /// Moves to the start of the next row; see `line_fed`.
    pub fn new_line(&mut self)
        requires
            old(self).wf(),
            old(self).on_grid(),
        ensures
            final(self).wf(),
            final(self).on_grid(),
            final(self)@ == line_fed(old(self)@),
    {
        let h = Self::height_of(self.mode);
        match self.mode {
            WriterMode::Text => {
                if self.row == h - 1 {
                    let line = Self::make_blank_row(self.mode);
                    self.cells.remove(0);
                    self.cells.push(line);
                    assert(self@.cells =~= old(self)@.cells.drop_first().push(blank_row(self.mode)));
                } else {
                    self.row = self.row + 1;
                }
                self.col = 0;
                self.update_cursor();
            },
            WriterMode::Graphics => {
                if self.row == h - 1 {
                    self.row = 0;
                } else {
                    self.row = self.row + 1;
                }
                let r = self.row;
                self.clear_row(r);
                self.col = 0;
            },
        }
    }

    /// Writes one cell; see `put`.
    pub fn write_screen_char(&mut self, character: ScreenChar)
        requires
            old(self).wf(),
            old(self).on_grid(),
        ensures
            final(self).wf(),
            final(self).on_grid(),
            final(self)@ == put(old(self)@, character),
    {
        if character.ascii_character == 10u8 {
            self.new_line();
        } else {
            if self.col >= Self::width_of(self.mode) {
                self.new_line();
            }
            let (r, c) = (self.row, self.col);
            self.set_cell(r, c, character);
            self.col = c + 1;
            self.update_cursor();
        }
    }

    /// Writes one byte in the mode's colors.
    pub fn write_byte(&mut self, byte: u8)
        requires
            old(self).wf(),
            old(self).on_grid(),
        ensures
            final(self).wf(),
            final(self).on_grid(),
            final(self)@ == put(old(self)@, glyph(old(self)@.mode, byte)),
    {
        let ink = Self::ink_of(self.mode);
        self.write_screen_char(ScreenChar { ascii_character: byte, color_code: ink });
    }

    /// Writes the bytes of `s` in order.
    pub fn write_string(&mut self, s: &str)
        requires
            old(self).wf(),
            old(self).on_grid(),
        ensures
            final(self).wf(),
            final(self).on_grid(),
            final(self)@ == put_bytes(old(self)@, s@.map_values(|c: char| char_byte(c))),
    {
        let n = s.unicode_len();
        let mut i: usize = 0;
        while i < n
            invariant
                self.wf(),
                self.on_grid(),
                n == s@.len(),
                i <= n,
                self@.mode == old(self)@.mode,
                self@ == put_bytes(old(self)@, s@.subrange(0, i as int).map_values(|c: char| char_byte(c))),
            decreases n - i,
        {
            let c = s.get_char(i);
            let b = (c as u32 % 256) as u8;
            self.write_byte(b);
            i = i + 1;
            let ghost done = s@.subrange(0, i as int).map_values(|c: char| char_byte(c));
            assert(done.drop_last() =~= s@.subrange(0, i - 1).map_values(|c: char| char_byte(c)));
            assert(done.last() == b);
            proof {
                lemma_put_bytes_mode(old(self)@, done.drop_last());
            }
        }
        assert(s@.subrange(0, n as int) =~= s@);
    }

    /// Shows `buf` from the top-left corner; rows and columns past its end are blanked.
    pub fn print_textbuffer(&mut self, buf: &[BufferLine])
        requires
            old(self).wf(),
        ensures
            final(self).wf(),
            final(self)@ == (ScreenState { cells: painted(old(self)@.mode, lines_view(buf@)), ..old(self)@ }),
    {
        let h = Self::height_of(self.mode);
        let w = Self::width_of(self.mode);
        let color = Self::ink_of(self.mode);
        let blank_ch = Self::blank_cell(self.mode);
        let ghost rows = lines_view(buf@);
        let ghost target = painted(self.mode, rows);
        let mut cells: Vec<Vec<ScreenChar>> = Vec::new();
        let mut r: usize = 0;
        while r < h
            invariant
                r <= h,
                h == mode_height(self.mode),
                w == mode_width(self.mode),
                color == ink(self.mode),
                blank_ch == blank(self.mode),
                rows == lines_view(buf@),
                target == painted(self.mode, rows),
                cells@.len() == r,
                forall|k: int| 0 <= k < r ==> #[trigger] cells@[k]@ == target[k],
            decreases h - r,
        {
            let mut line: Vec<ScreenChar> = Vec::new();
            let mut c: usize = 0;
            while c < w
                invariant
                    r < h,
                    c <= w,
                    h == mode_height(self.mode),
                    w == mode_width(self.mode),
                    color == ink(self.mode),
                    blank_ch == blank(self.mode),
                    rows == lines_view(buf@),
                    target == painted(self.mode, rows),
                    line@.len() == c,
                    forall|k: int| 0 <= k < c ==> #[trigger] line@[k] == target[r as int][k],
                decreases w - c,
            {
                let mut ch = blank_ch;
                if r < buf.len() {
                    if c < buf[r].chars.len() {
                        let x = buf[r].chars[c].character;
                        ch = ScreenChar { ascii_character: (x as u32 % 256) as u8, color_code: color };
                    }
                }
                line.push(ch);
                c = c + 1;
            }
            assert(line@ =~= target[r as int]);
            cells.push(line);
            r = r + 1;
        }
        self.cells = cells;
        assert(self@.cells =~= target);
    }

    /// Records the pointer glyph at a pixel position.
    pub fn draw_mouse(&mut self, x: usize, y: usize)
        ensures
            final(self)@ == (ScreenState { pointer: Some((x, y)), ..old(self)@ }),
    {
        self.pointer = Some((x, y));
    }

    /// Records a window drawn over the grid.
    pub fn draw_window(&mut self, window: &Window)
        ensures
            final(self)@ == (ScreenState { window: Some(*window), ..old(self)@ }),
    {
        self.window = Some(*window);
    }
}

/// Writing bytes keeps the addressing mode.
pub proof fn lemma_put_bytes_mode(s: ScreenState, bytes: Seq<u8>)
    ensures
        put_bytes(s, bytes).mode == s.mode,
    decreases bytes.len(),
{
    if bytes.len() > 0 {
        lemma_put_bytes_mode(s, bytes.drop_last());
    }
}

} // verus!
