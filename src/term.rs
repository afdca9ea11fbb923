//! The virtual terminal multiplexer: which logical screen is shown, the
//! cursor and viewport over its content, and the in-band control bytes that
//! switch screens and scroll.

use vstd::prelude::*;
use crate::events::{PointerPacket, pushed};
use crate::gui::Window;
use crate::task::term::{CharacterStream, add_char};
use crate::textbuffer::{BufferCharacter, Textbuffer, BufferLine, default_cell, skip_cells, window, lines_view};
use crate::writer::{
    ScreenState, Writer, WriterMode, blank_grid, painted, put_bytes, lemma_put_bytes_mode, char_byte,
};

verus! {

/// Columns and rows of the default viewport.
pub const VIEWPORT_WIDTH: usize = 80;
pub const VIEWPORT_HEIGHT: usize = 25;

/// Pixels of the pointer area in the default configuration.
pub const POINTER_AREA_WIDTH: usize = 640;
pub const POINTER_AREA_HEIGHT: usize = 480;

/// Columns moved by one horizontal scroll.
pub const SCROLL_STEP: usize = 10;

/// Bytes with a fixed meaning in every terminal.
pub const NULL_BYTE: u8 = 0;
pub const BACKSPACE: u8 = 8;
pub const LINE_FEED: u8 = 10;

/// Escape bytes that move the viewport.
#[derive(Clone, Copy, PartialEq, Eq, Debug, Structural)]
pub enum EscapeChar {
    Null,
    ScrollUp,
    ScrollDown,
    ScrollHome,
    ScrollEnd,
    ScrollRight,
    ScrollLeft,
}

impl EscapeChar {
    /// The escape that a byte stands for; `Null` for every other byte.
    pub open spec fn spec_from_byte(b: u8) -> EscapeChar {
        if b == 1 {
            EscapeChar::ScrollUp
        } else if b == 2 {
            EscapeChar::ScrollDown
        } else if b == 3 {
            EscapeChar::ScrollHome
        } else if b == 4 {
            EscapeChar::ScrollEnd
        } else if b == 5 {
            EscapeChar::ScrollRight
        } else if b == 6 {
            EscapeChar::ScrollLeft
        } else {
            EscapeChar::Null
        }
    }

    pub open spec fn spec_code(self) -> u8 {
        match self {
            EscapeChar::Null => 0,
            EscapeChar::ScrollUp => 1,
            EscapeChar::ScrollDown => 2,
            EscapeChar::ScrollHome => 3,
            EscapeChar::ScrollEnd => 4,
            EscapeChar::ScrollRight => 5,
            EscapeChar::ScrollLeft => 6,
        }
    }

    pub fn from_byte(b: u8) -> (r: EscapeChar)
        ensures
            r == Self::spec_from_byte(b),
    {
        match b {
            1 => EscapeChar::ScrollUp,
            2 => EscapeChar::ScrollDown,
            3 => EscapeChar::ScrollHome,
            4 => EscapeChar::ScrollEnd,
            5 => EscapeChar::ScrollRight,
            6 => EscapeChar::ScrollLeft,
            _ => EscapeChar::Null,
        }
    }

    /// The byte that stands for this escape.
    pub fn code(self) -> (r: u8)
        ensures
            r == self.spec_code(),
            Self::spec_from_byte(r) == self,
    {
        match self {
            EscapeChar::Null => 0,
            EscapeChar::ScrollUp => 1,
            EscapeChar::ScrollDown => 2,
            EscapeChar::ScrollHome => 3,
            EscapeChar::ScrollEnd => 4,
            EscapeChar::ScrollRight => 5,
            EscapeChar::ScrollLeft => 6,
        }
    }
}

/// The logical screens, and `Unknown` for bytes that select none.
#[derive(Clone, Copy, PartialEq, Eq, Debug, Structural)]
pub enum VirtualTerminals {
    KernelLog,
    Console,
    GUI,
    ScreenTest,
    Unknown,
}

impl VirtualTerminals {
    /// The terminal that a byte selects; `Unknown` for every other byte.
    pub open spec fn spec_from_byte(b: u8) -> VirtualTerminals {
        if b == 0xF0 {
            VirtualTerminals::KernelLog
        } else if b == 0xF1 {
            VirtualTerminals::Console
        } else if b == 0xF2 {
            VirtualTerminals::GUI
        } else if b == 0xF3 {
            VirtualTerminals::ScreenTest
        } else {
            VirtualTerminals::Unknown
        }
    }

    pub open spec fn spec_code(self) -> u8 {
        match self {
            VirtualTerminals::KernelLog => 0xF0,
            VirtualTerminals::Console => 0xF1,
            VirtualTerminals::GUI => 0xF2,
            VirtualTerminals::ScreenTest => 0xF3,
            VirtualTerminals::Unknown => 0xF4,
        }
    }

    pub fn from_byte(b: u8) -> (r: VirtualTerminals)
        ensures
            r == Self::spec_from_byte(b),
    {
        match b {
            0xF0 => VirtualTerminals::KernelLog,
            0xF1 => VirtualTerminals::Console,
            0xF2 => VirtualTerminals::GUI,
            0xF3 => VirtualTerminals::ScreenTest,
            _ => VirtualTerminals::Unknown,
        }
    }

    /// The byte that selects this terminal.
    pub fn code(self) -> (r: u8)
        ensures
            r == self.spec_code(),
            Self::spec_from_byte(r) == self,
    {
        match self {
            VirtualTerminals::KernelLog => 0xF0,
            VirtualTerminals::Console => 0xF1,
            VirtualTerminals::GUI => 0xF2,
            VirtualTerminals::ScreenTest => 0xF3,
            VirtualTerminals::Unknown => 0xF4,
        }
    }
}

impl From<u8> for EscapeChar {
    fn from(b: u8) -> (r: EscapeChar) {
        EscapeChar::from_byte(b)
    }
}

impl vstd::std_specs::convert::FromSpecImpl<u8> for EscapeChar {
    open spec fn obeys_from_spec() -> bool {
        true
    }

    open spec fn from_spec(b: u8) -> EscapeChar {
        EscapeChar::spec_from_byte(b)
    }
}

impl From<u8> for VirtualTerminals {
    fn from(b: u8) -> (r: VirtualTerminals) {
        VirtualTerminals::from_byte(b)
    }
}

impl vstd::std_specs::convert::FromSpecImpl<u8> for VirtualTerminals {
    open spec fn obeys_from_spec() -> bool {
        true
    }

    open spec fn from_spec(b: u8) -> VirtualTerminals {
        VirtualTerminals::spec_from_byte(b)
    }
}

/// The multiplexer's state, as mathematical values.
pub struct TermView {
    pub active: VirtualTerminals,
    pub console: Seq<Seq<BufferCharacter>>,
    pub row: nat,
    pub col: nat,
    pub scroll_row: nat,
    pub scroll_col: nat,
    pub mouse: (nat, nat),
    pub width: nat,
    pub height: nat,
    pub pointer_area: (nat, nat),
    pub banner: Seq<u8>,
}

/// The end of a buffer's content: its last row and that row's length.
pub open spec fn end_of(rows: Seq<Seq<BufferCharacter>>) -> (nat, nat) {
    ((rows.len() - 1) as nat, rows.last().len())
}

/// A consistent state: a viewport of at least two columns and one row, a
/// pointer inside its area, a selected terminal, and in the console the cursor
/// at the end of the console's content.
pub open spec fn view_wf(v: TermView) -> bool {
    &&& 1 <= v.console.len() <= usize::MAX
    &&& 2 <= v.width < usize::MAX
    &&& 1 <= v.height < usize::MAX
    &&& v.pointer_area.0 >= 1 && v.pointer_area.1 >= 1
    &&& v.pointer_area.0 <= usize::MAX && v.pointer_area.1 <= usize::MAX
    &&& v.mouse.0 < v.pointer_area.0 && v.mouse.1 < v.pointer_area.1
    &&& v.active != VirtualTerminals::Unknown
    &&& v.row <= usize::MAX && v.col <= usize::MAX
    &&& v.scroll_row <= usize::MAX && v.scroll_col <= usize::MAX
    &&& v.active == VirtualTerminals::Console ==> (v.row, v.col) == end_of(v.console)
}

/// The cursor lies inside the viewport.
pub open spec fn cursor_visible(v: TermView) -> bool {
    &&& v.scroll_row <= v.row < v.scroll_row + v.height
    &&& v.scroll_col <= v.col < v.scroll_col + v.width
}

/// The viewport moved so that the cursor is visible, with one column of slack.
pub open spec fn focused(v: TermView) -> TermView {
    TermView {
        scroll_row: if v.row > v.height - 1 { (v.row - v.height + 1) as nat } else { 0 },
        scroll_col: if v.col > v.width - 2 { (v.col - v.width + 2) as nat } else { 0 },
        ..v
    }
}

/// `x + n`, held at the largest `usize`.
pub open spec fn sat_add(x: nat, n: nat) -> nat {
    if x + n > usize::MAX { usize::MAX as nat } else { x + n }
}

/// `x - n`, held at zero.
pub open spec fn clamp_sub(x: nat, n: nat) -> nat {
    if x >= n { (x - n) as nat } else { 0 }
}

/// The viewport after an escape.
pub open spec fn scrolled(v: TermView, e: EscapeChar) -> TermView {
    match e {
        EscapeChar::ScrollDown => TermView { scroll_row: sat_add(v.scroll_row, 1), ..v },
        EscapeChar::ScrollUp => TermView { scroll_row: clamp_sub(v.scroll_row, 1), ..v },
        EscapeChar::ScrollHome => TermView { scroll_row: 0, scroll_col: 0, ..v },
        EscapeChar::ScrollEnd => focused(v),
        EscapeChar::ScrollRight => TermView { scroll_col: sat_add(v.scroll_col, SCROLL_STEP as nat), ..v },
        EscapeChar::ScrollLeft => TermView { scroll_col: clamp_sub(v.scroll_col, SCROLL_STEP as nat), ..v },
        EscapeChar::Null => v,
    }
}

/// The state after selecting terminal `t`; `log_end` is the end of the kernel log.
pub open spec fn switched(v: TermView, t: VirtualTerminals, log_end: (nat, nat)) -> TermView {
    match t {
        VirtualTerminals::KernelLog => focused(
            TermView { active: t, row: log_end.0, col: log_end.1, ..v },
        ),
        VirtualTerminals::Console => focused(
            TermView { active: t, row: end_of(v.console).0, col: end_of(v.console).1, ..v },
        ),
        VirtualTerminals::ScreenTest => TermView {
            active: t,
            row: 0,
            col: 0,
            scroll_row: 0,
            scroll_col: 0,
            ..v
        },
        _ => TermView { active: t, ..v },
    }
}

/// The cursor lies outside the viewport.
pub open spec fn drifted(v: TermView) -> bool {
    !cursor_visible(v)
}

/// A line feed in the console: a new row, the cursor at its start, the
/// viewport following the cursor down and back to the left edge.
pub open spec fn fed(v: TermView) -> TermView {
    TermView {
        console: v.console.push(Seq::empty()),
        row: v.row + 1,
        col: 0,
        scroll_row: if v.row + 1 >= v.scroll_row + v.height { sat_add(v.scroll_row, 1) } else { v.scroll_row },
        scroll_col: 0,
        ..v
    }
}

/// A character appended in the console.
pub open spec fn typed(v: TermView, c: char) -> TermView {
    TermView {
        console: v.console.update(v.console.len() - 1, v.console.last().push(default_cell(c))),
        col: v.col + 1,
        ..v
    }
}

/// The state after one byte; `log_end` is the end of the kernel log.
pub open spec fn written(v: TermView, b: u8, log_end: (nat, nat)) -> TermView {
    let t = VirtualTerminals::spec_from_byte(b);
    let e = EscapeChar::spec_from_byte(b);
    match v.active {
        VirtualTerminals::Console => if t != VirtualTerminals::Unknown {
            switched(v, t, log_end)
        } else if e != EscapeChar::Null {
            scrolled(v, e)
        } else if b == NULL_BYTE || b == BACKSPACE {
            v
        } else {
            let u = if drifted(v) { focused(v) } else { v };
            if b == LINE_FEED { fed(u) } else { typed(u, b as char) }
        },
        VirtualTerminals::KernelLog => if t != VirtualTerminals::Unknown {
            switched(v, t, log_end)
        } else if e != EscapeChar::Null {
            scrolled(v, e)
        } else {
            v
        },
        _ => if t != VirtualTerminals::Unknown {
            switched(v, t, log_end)
        } else {
            v
        },
    }
}

/// The state after the bytes of `bytes` in order.
pub open spec fn written_all(v: TermView, bytes: Seq<u8>, log_end: (nat, nat)) -> TermView
    decreases bytes.len(),
{
    if bytes.len() == 0 {
        v
    } else {
        written(written_all(v, bytes.drop_last(), log_end), bytes.last(), log_end)
    }
}

/// Whether a byte makes the display repaint.
pub open spec fn repaints(active: VirtualTerminals, b: u8) -> bool {
    let t = VirtualTerminals::spec_from_byte(b);
    let e = EscapeChar::spec_from_byte(b);
    match active {
        VirtualTerminals::Console => b != BACKSPACE,
        VirtualTerminals::KernelLog => t != VirtualTerminals::Unknown || e != EscapeChar::Null || b == NULL_BYTE,
        VirtualTerminals::GUI => t != VirtualTerminals::Unknown || b == NULL_BYTE,
        _ => t != VirtualTerminals::Unknown,
    }
}

/// Where the display's cursor goes: relative to the viewport when the cursor
/// is visible, else parked below the last row.
pub open spec fn screen_cursor(v: TermView) -> (nat, nat) {
    if cursor_visible(v) {
        ((v.col - v.scroll_col) as nat, (v.row - v.scroll_row) as nat)
    } else {
        (0, v.height + 1)
    }
}

/// The rows of `rows` inside the viewport, each without the columns left of it.
pub open spec fn visible_rows(v: TermView, rows: Seq<Seq<BufferCharacter>>) -> Seq<Seq<BufferCharacter>> {
    let w = window(rows, v.scroll_row as int, v.height as int);
    Seq::new(w.len(), |i: int| skip_cells(w[i], v.scroll_col as int))
}

/// The display blanked in another mode.
pub open spec fn cleared(s: ScreenState, mode: WriterMode) -> ScreenState {
    ScreenState { mode, cells: blank_grid(mode), col: 0, row: 0, pointer: None, window: None }
}

/// The bytes of the diagnostic pattern after the banner: every byte value
/// below `n`, with a line feed before each multiple of fifteen.
pub open spec fn sweep(n: nat) -> Seq<u8>
    decreases n,
{
    if n == 0 {
        Seq::empty()
    } else {
        let k = (n - 1) as nat;
        if k % 15 == 0 {
            sweep(k) + seq![LINE_FEED, k as u8]
        } else {
            sweep(k).push(k as u8)
        }
    }
}

/// The window of the graphical terminal.
pub open spec fn is_test_window(w: Window) -> bool {
    w.geometry == ((80isize, 60isize), (540isize, 420isize)) && w.title@ == "Test window"@
}

/// `after` is what the display shows for the state `v`, starting from
/// `before`, with `log` the kernel log's rows.
pub open spec fn shows(v: TermView, log: Seq<Seq<BufferCharacter>>, before: ScreenState, after: ScreenState) -> bool {
    let want = if v.active == VirtualTerminals::GUI { WriterMode::Graphics } else { WriterMode::Text };
    let s0 = if before.mode != want { cleared(before, want) } else { before };
    match v.active {
        VirtualTerminals::Console => after == ScreenState {
            cells: painted(WriterMode::Text, visible_rows(v, v.console)),
            col: screen_cursor(v).0,
            row: screen_cursor(v).1,
            ..s0
        },
        VirtualTerminals::KernelLog => after == ScreenState {
            cells: painted(WriterMode::Text, visible_rows(v, log)),
            col: screen_cursor(v).0,
            row: screen_cursor(v).1,
            ..s0
        },
        VirtualTerminals::GUI => after == ScreenState { window: after.window, ..s0 } && after.window.is_some()
            && is_test_window(after.window.unwrap()),
        VirtualTerminals::ScreenTest => after == put_bytes(cleared(s0, WriterMode::Text), v.banner + sweep(255)),
        VirtualTerminals::Unknown => after == s0,
    }
}


/// `pos + delta`, held inside `0 .. bound`.
pub open spec fn clamped(pos: int, delta: int, bound: nat) -> nat {
    if pos + delta < 0 {
        0
    } else if pos + delta > bound - 1 {
        (bound - 1) as nat
    } else {
        (pos + delta) as nat
    }
}

/// The multiplexer.
pub struct Term {
    active_term: VirtualTerminals,
    console: Textbuffer,
    col: usize,
    row: usize,
    scroll_row: usize,
    scroll_col: usize,
    mouse_pos: (usize, usize),
    width: usize,
    height: usize,
    pointer_area: (usize, usize),
    banner: Vec<u8>,
}

impl Term {
    pub closed spec fn view(&self) -> TermView {
        TermView {
            active: self.active_term,
            console: self.console.rows(),
            row: self.row as nat,
            col: self.col as nat,
            scroll_row: self.scroll_row as nat,
            scroll_col: self.scroll_col as nat,
            mouse: (self.mouse_pos.0 as nat, self.mouse_pos.1 as nat),
            width: self.width as nat,
            height: self.height as nat,
            pointer_area: (self.pointer_area.0 as nat, self.pointer_area.1 as nat),
            banner: self.banner@,
        }
    }

    pub closed spec fn console_wf(&self) -> bool {
        self.console.wf()
    }

    pub open spec fn wf(&self) -> bool {
        view_wf(self@) && self.console_wf()
    }

    /// A console with an 80x25 viewport and a 640x480 pointer area.
    pub fn new() -> (r: Term)
        ensures
            r.wf(),
            r@ == (TermView {
                active: VirtualTerminals::Console,
                console: seq![Seq::<BufferCharacter>::empty()],
                row: 0,
                col: 0,
                scroll_row: 0,
                scroll_col: 0,
                mouse: (0, 0),
                width: VIEWPORT_WIDTH as nat,
                height: VIEWPORT_HEIGHT as nat,
                pointer_area: (POINTER_AREA_WIDTH as nat, POINTER_AREA_HEIGHT as nat),
                banner: Seq::empty(),
            }),
    {
        Self::with_geometry(VIEWPORT_WIDTH, VIEWPORT_HEIGHT, POINTER_AREA_WIDTH, POINTER_AREA_HEIGHT)
    }

    /// A console with the given viewport and pointer area.
    pub fn with_geometry(width: usize, height: usize, area_width: usize, area_height: usize) -> (r: Term)
        requires
            2 <= width < usize::MAX,
            1 <= height < usize::MAX,
            area_width >= 1,
            area_height >= 1,
        ensures
            r.wf(),
            r@ == (TermView {
                active: VirtualTerminals::Console,
                console: seq![Seq::<BufferCharacter>::empty()],
                row: 0,
                col: 0,
                scroll_row: 0,
                scroll_col: 0,
                mouse: (0, 0),
                width: width as nat,
                height: height as nat,
                pointer_area: (area_width as nat, area_height as nat),
                banner: Seq::empty(),
            }),
    {
        Term {
            active_term: VirtualTerminals::Console,
            console: Textbuffer::new(),
            col: 0,
            row: 0,
            scroll_row: 0,
            scroll_col: 0,
            mouse_pos: (0, 0),
            width,
            height,
            pointer_area: (area_width, area_height),
            banner: Vec::new(),
        }
    }

    /// Sets the build identification shown by the diagnostic terminal.
    pub fn set_banner(&mut self, banner: Vec<u8>)
        requires
            old(self).wf(),
        ensures
            final(self).wf(),
            final(self)@ == (TermView { banner: banner@, ..old(self)@ }),
    {
        self.banner = banner;
    }

    pub fn active_term(&self) -> (r: VirtualTerminals)
        ensures
            r == self@.active,
    {
        self.active_term
    }

    /// The cursor: row, then column.
    pub fn cursor(&self) -> (r: (usize, usize))
        ensures
            r.0 == self@.row,
            r.1 == self@.col,
    {
        (self.row, self.col)
    }

    /// The viewport's top-left corner: row, then column.
    pub fn viewport(&self) -> (r: (usize, usize))
        ensures
            r.0 == self@.scroll_row,
            r.1 == self@.scroll_col,
    {
        (self.scroll_row, self.scroll_col)
    }

    /// The pointer position in pixels: x, then y.
    pub fn mouse_pos(&self) -> (r: (usize, usize))
        ensures
            r.0 == self@.mouse.0,
            r.1 == self@.mouse.1,
    {
        self.mouse_pos
    }

    /// The console's content.
    pub fn console(&self) -> (r: &Textbuffer)
        requires
            self.wf(),
        ensures
            r.wf(),
            r.rows() == self@.console,
    {
        &self.console
    }

    fn cursor_visible(&self) -> (r: bool)
        ensures
            r == cursor_visible(self@),
    {
        self.scroll_row <= self.row && self.row - self.scroll_row < self.height && self.scroll_col <= self.col
            && self.col - self.scroll_col < self.width
    }

    /// Where the display's cursor goes; see `screen_cursor`.
    fn get_cursor(&self) -> (r: (usize, usize))
        requires
            self.wf(),
        ensures
            (r.0 as nat, r.1 as nat) == screen_cursor(self@),
    {
        if self.cursor_visible() {
            (self.col - self.scroll_col, self.row - self.scroll_row)
        } else {
            (0, self.height + 1)
        }
    }

    fn scroll_to(&mut self, row: usize)
        ensures
            final(self)@ == (TermView { scroll_row: row as nat, ..old(self)@ }),
            final(self).console_wf() == old(self).console_wf(),
    {
        self.scroll_row = row;
    }

    fn scroll(&mut self, lines: usize, down: bool)
        ensures
            final(self)@ == (TermView {
                scroll_row: if down { sat_add(old(self)@.scroll_row, lines as nat) } else { clamp_sub(old(self)@.scroll_row, lines as nat) },
                ..old(self)@
            }),
            final(self).console_wf() == old(self).console_wf(),
    {
        let new_scroll_row = if down {
            self.scroll_row.saturating_add(lines)
        } else if self.scroll_row >= lines {
            self.scroll_row - lines
        } else {
            0
        };
        self.scroll_to(new_scroll_row);
    }

    fn scroll_to_vert(&mut self, col: usize)
        ensures
            final(self)@ == (TermView { scroll_col: col as nat, ..old(self)@ }),
            final(self).console_wf() == old(self).console_wf(),
    {
        self.scroll_col = col;
    }

    fn scroll_vert(&mut self, columns: usize, right: bool)
        ensures
            final(self)@ == (TermView {
                scroll_col: if right { sat_add(old(self)@.scroll_col, columns as nat) } else { clamp_sub(old(self)@.scroll_col, columns as nat) },
                ..old(self)@
            }),
            final(self).console_wf() == old(self).console_wf(),
    {
        let new_scroll_col = if right {
            self.scroll_col.saturating_add(columns)
        } else if self.scroll_col >= columns {
            self.scroll_col - columns
        } else {
            0
        };
        self.scroll_to_vert(new_scroll_col);
    }

    fn focus_cursor(&mut self)
        requires
            view_wf(old(self)@),
        ensures
            final(self)@ == focused(old(self)@),
            final(self).console_wf() == old(self).console_wf(),
    {
        let mut new_scroll_row: usize = 0;
        if self.row > self.height - 1 {
            new_scroll_row = self.row - (self.height - 1);
        }
        let mut new_scroll_col: usize = 0;
        if self.col > self.width - 2 {
            new_scroll_col = self.col - (self.width - 2);
        }
        self.scroll_to(new_scroll_row);
        self.scroll_to_vert(new_scroll_col);
    }

    /// Paints the rows of `rows` inside the viewport and places the cursor.
    fn paint(&self, lines: Vec<BufferLine>, writer: &mut Writer)
        requires
            self.wf(),
            old(writer).wf(),
            old(writer)@.mode == WriterMode::Text,
        ensures
            final(writer).wf(),
            forall|rows: Seq<Seq<BufferCharacter>>|
                lines_view(lines@) == window(rows, self@.scroll_row as int, self@.height as int) ==>
                final(writer)@ == (ScreenState {
                    cells: painted(WriterMode::Text, visible_rows(self@, rows)),
                    col: screen_cursor(self@).0,
                    row: screen_cursor(self@).1,
                    ..old(writer)@
                }),
    {
        let mut shown: Vec<BufferLine> = Vec::new();
        let mut i: usize = 0;
        while i < lines.len()
            invariant
                i <= lines@.len(),
                lines_view(shown@) == Seq::new(i as nat, |k: int| skip_cells(lines@[k]@, self@.scroll_col as int)),
            decreases lines@.len() - i,
        {
            let line = lines[i].skip(self.scroll_col);
            let ghost before = shown@;
            shown.push(line);
            assert(lines_view(shown@) =~= lines_view(before).push(line@));
            i = i + 1;
            assert(lines_view(shown@) =~= Seq::new(i as nat, |k: int| skip_cells(lines@[k]@, self@.scroll_col as int)));
        }
        writer.print_textbuffer(shown.as_slice());
        let (x, y) = self.get_cursor();
        writer.move_cursor(x, y);
        assert forall|rows: Seq<Seq<BufferCharacter>>|
            lines_view(lines@) == window(rows, self@.scroll_row as int, self@.height as int) implies
            lines_view(shown@) == visible_rows(self@, rows) by {
            assert(lines_view(shown@) =~= visible_rows(self@, rows));
        }
    }

    /// Writes the diagnostic pattern: the banner, then every byte value below 255.
    fn paint_pattern(&self, writer: &mut Writer)
        requires
            old(writer).wf(),
            old(writer)@.mode == WriterMode::Text,
        ensures
            final(writer).wf(),
            final(writer)@ == put_bytes(cleared(old(writer)@, WriterMode::Text), self@.banner + sweep(255)),
    {
        writer.clear();
        let ghost start = writer@;
        assert(start == cleared(old(writer)@, WriterMode::Text));
        let mut i: usize = 0;
        while i < self.banner.len()
            invariant
                writer.wf(),
                writer.on_grid(),
                writer@.mode == WriterMode::Text,
                start.mode == WriterMode::Text,
                i <= self.banner@.len(),
                writer@ == put_bytes(start, self.banner@.subrange(0, i as int)),
            decreases self.banner@.len() - i,
        {
            let b = self.banner[i];
            writer.write_byte(b);
            i = i + 1;
            assert(self.banner@.subrange(0, i as int).drop_last() =~= self.banner@.subrange(0, i - 1));
        }
        assert(self.banner@.subrange(0, i as int) =~= self.banner@ + sweep(0));
        let mut k: u8 = 0;
        while k < 255u8
            invariant
                writer.wf(),
                writer.on_grid(),
                writer@.mode == WriterMode::Text,
                start.mode == WriterMode::Text,
                k <= 255,
                writer@ == put_bytes(start, self.banner@ + sweep(k as nat)),
            decreases 255 - k,
        {
            let ghost prefix = self.banner@ + sweep(k as nat);
            if k % 15 == 0 {
                writer.new_line();
                assert(prefix.push(LINE_FEED).drop_last() =~= prefix);
                proof { lemma_put_bytes_mode(start, prefix); }
                assert(writer@ == put_bytes(start, prefix.push(LINE_FEED)));
                writer.write_byte(k);
                proof { lemma_put_bytes_mode(start, prefix.push(LINE_FEED)); }
                assert(prefix.push(LINE_FEED).push(k).drop_last() =~= prefix.push(LINE_FEED));
                assert(self.banner@ + sweep((k + 1) as nat) =~= prefix.push(LINE_FEED).push(k));
            } else {
                writer.write_byte(k);
                proof { lemma_put_bytes_mode(start, prefix); }
                assert(prefix.push(k).drop_last() =~= prefix);
                assert(self.banner@ + sweep((k + 1) as nat) =~= prefix.push(k));
            }
            k = k + 1;
        }
    }

    /// Repaints the display for the active terminal; `log` is the kernel log.
    pub fn update_screen(&self, writer: &mut Writer, log: &Textbuffer)
        requires
            self.wf(),
            old(writer).wf(),
            log.wf(),
        ensures
            final(writer).wf(),
            shows(self@, log.rows(), old(writer)@, final(writer)@),
    {
        let want = if self.active_term == VirtualTerminals::GUI {
            WriterMode::Graphics
        } else {
            WriterMode::Text
        };
        if writer.mode() != want {
            writer.change_mode(want);
        }
        match self.active_term {
            VirtualTerminals::Console => {
                let lines = self.console.get_lines(self.scroll_row, self.height);
                self.paint(lines, writer);
            },
            VirtualTerminals::KernelLog => {
                let lines = log.get_lines(self.scroll_row, self.height);
                self.paint(lines, writer);
            },
            VirtualTerminals::GUI => {
                let w = Window::new();
                writer.draw_window(&w);
            },
            VirtualTerminals::ScreenTest => {
                self.paint_pattern(writer);
            },
            VirtualTerminals::Unknown => {},
        }
    }

    /// Moves a pixel position by `amount` forwards or backwards, held inside `0 .. bound`.
    fn shift(pos: usize, forward: bool, amount: usize, bound: usize) -> (r: usize)
        requires
            pos < bound,
        ensures
            forward ==> r == clamped(pos as int, amount as int, bound as nat),
            !forward ==> r == clamped(pos as int, -(amount as int), bound as nat),
    {
        if forward {
            if amount >= bound - 1 - pos {
                bound - 1
            } else {
                pos + amount
            }
        } else if amount >= pos {
            0
        } else {
            pos - amount
        }
    }

    /// The size of a negative offset.
    fn magnitude(d: isize) -> (r: usize)
        requires
            d < 0,
        ensures
            r as int == -(d as int),
    {
        (-(d + 1)) as usize + 1
    }

    /// Moves the pointer by a packet's offsets (device y points up) while the
    /// graphical terminal is active, and draws it there.
    pub fn update_mouse(&mut self, x: isize, y: isize, writer: &mut Writer)
        requires
            old(self).wf(),
        ensures
            final(self).wf(),
            old(self)@.active == VirtualTerminals::GUI ==> {
                &&& final(self)@ == (TermView {
                    mouse: (
                        clamped(old(self)@.mouse.0 as int, x as int, old(self)@.pointer_area.0),
                        clamped(old(self)@.mouse.1 as int, -(y as int), old(self)@.pointer_area.1),
                    ),
                    ..old(self)@
                })
                &&& final(writer)@ == (ScreenState {
                    pointer: Some((final(self)@.mouse.0 as usize, final(self)@.mouse.1 as usize)),
                    ..old(writer)@
                })
            },
            old(self)@.active != VirtualTerminals::GUI ==> final(self)@ == old(self)@ && final(writer)@ == old(
                writer,
            )@,
    {
        if self.active_term == VirtualTerminals::GUI {
            let (mx, my) = self.mouse_pos;
            let (w, h) = self.pointer_area;
            let nx = if x >= 0 {
                Self::shift(mx, true, x as usize, w)
            } else {
                Self::shift(mx, false, Self::magnitude(x), w)
            };
            let ny = if y >= 0 {
                Self::shift(my, false, y as usize, h)
            } else {
                Self::shift(my, true, Self::magnitude(y), h)
            };
            self.mouse_pos = (nx, ny);
            writer.draw_mouse(nx, ny);
        }
    }

    /// A line feed in the console; see `fed`.
    fn new_line(&mut self)
        requires
            old(self).wf(),
            old(self)@.active == VirtualTerminals::Console,
            cursor_visible(old(self)@),
        ensures
            final(self).wf(),
            final(self)@ == fed(old(self)@),
    {
        self.console.new_line();
        let (r, c) = self.console.end_coord();
        self.row = r;
        self.col = c;
        if self.row - self.scroll_row >= self.height {
            self.scroll(1, true);
        }
        self.scroll_to_vert(0);
        assert(self@.console == fed(old(self)@).console);
    }

    /// Shows another terminal; `Unknown` changes nothing.
    pub fn change_focus(&mut self, virtual_term: VirtualTerminals, writer: &mut Writer, log: &Textbuffer)
        requires
            old(self).wf(),
            old(writer).wf(),
            log.wf(),
        ensures
            final(self).wf(),
            final(writer).wf(),
            virtual_term == VirtualTerminals::Unknown ==> final(self)@ == old(self)@ && final(writer)@ == old(
                writer,
            )@,
            virtual_term != VirtualTerminals::Unknown ==> {
                &&& final(self)@ == switched(old(self)@, virtual_term, end_of(log.rows()))
                &&& shows(final(self)@, log.rows(), old(writer)@, final(writer)@)
            },
    {
        match virtual_term {
            VirtualTerminals::KernelLog => {
                let (row, col) = log.end_coord();
                self.active_term = virtual_term;
                self.row = row;
                self.col = col;
                self.focus_cursor();
            },
            VirtualTerminals::Console => {
                let (row, col) = self.console.end_coord();
                self.active_term = virtual_term;
                self.row = row;
                self.col = col;
                self.focus_cursor();
            },
            VirtualTerminals::GUI => {
                self.active_term = virtual_term;
            },
            VirtualTerminals::ScreenTest => {
                self.active_term = virtual_term;
                self.col = 0;
                self.row = 0;
                self.scroll_row = 0;
                self.scroll_col = 0;
            },
            VirtualTerminals::Unknown => {
                return;
            },
        }
        self.update_screen(writer, log);
    }

    fn handle_escape_char(&mut self, escape_char: EscapeChar)
        requires
            old(self).wf(),
        ensures
            final(self).wf(),
            final(self)@ == scrolled(old(self)@, escape_char),
    {
        match escape_char {
            EscapeChar::ScrollDown => self.scroll(1, true),
            EscapeChar::ScrollUp => self.scroll(1, false),
            EscapeChar::ScrollHome => {
                self.scroll_to(0);
                self.scroll_to_vert(0);
            },
            EscapeChar::ScrollEnd => self.focus_cursor(),
            EscapeChar::ScrollRight => self.scroll_vert(SCROLL_STEP, true),
            EscapeChar::ScrollLeft => self.scroll_vert(SCROLL_STEP, false),
            EscapeChar::Null => {},
        }
    }

    /// Handles one byte of the in-band stream; see `written` for the state and
    /// `repaints` for when the display is repainted.
    pub fn write_byte(&mut self, byte: u8, writer: &mut Writer, log: &Textbuffer)
        requires
            old(self).wf(),
            old(writer).wf(),
            log.wf(),
        ensures
            final(self).wf(),
            final(writer).wf(),
            final(self)@ == written(old(self)@, byte, end_of(log.rows())),
            repaints(old(self)@.active, byte) ==> shows(final(self)@, log.rows(), old(writer)@, final(writer)@),
            !repaints(old(self)@.active, byte) ==> final(writer)@ == old(writer)@,
    {
        let t = VirtualTerminals::from_byte(byte);
        let e = EscapeChar::from_byte(byte);
        match self.active_term {
            VirtualTerminals::Console => {
                if t != VirtualTerminals::Unknown {
                    self.change_focus(t, writer, log);
                } else if e != EscapeChar::Null {
                    self.handle_escape_char(e);
                    self.update_screen(writer, log);
                } else if byte == NULL_BYTE {
                    self.update_screen(writer, log);
                } else if byte == BACKSPACE {
                } else {
                    if !self.cursor_visible() {
                        self.focus_cursor();
                    }
                    if byte == LINE_FEED {
                        self.new_line();
                    } else {
                        self.console.write_char(byte as char);
                        let (_, c) = self.console.end_coord();
                        self.col = c;
                    }
                    self.update_screen(writer, log);
                }
            },
            VirtualTerminals::KernelLog => {
                if t != VirtualTerminals::Unknown {
                    self.change_focus(t, writer, log);
                } else if e != EscapeChar::Null {
                    self.handle_escape_char(e);
                    self.update_screen(writer, log);
                } else if byte == NULL_BYTE {
                    self.update_screen(writer, log);
                }
            },
            VirtualTerminals::GUI => {
                if t != VirtualTerminals::Unknown {
                    self.change_focus(t, writer, log);
                } else if byte == NULL_BYTE {
                    self.update_screen(writer, log);
                }
            },
            VirtualTerminals::ScreenTest => {
                if t != VirtualTerminals::Unknown {
                    self.change_focus(t, writer, log);
                }
            },
            VirtualTerminals::Unknown => {},
        }
    }

    /// Handles the characters of `s` in order, each as its low byte.
    pub fn write_string(&mut self, s: &str, writer: &mut Writer, log: &Textbuffer)
        requires
            old(self).wf(),
            old(writer).wf(),
            log.wf(),
        ensures
            final(self).wf(),
            final(writer).wf(),
            final(self)@ == written_all(old(self)@, s@.map_values(|c: char| char_byte(c)), end_of(log.rows())),
    {
        let n = s.unicode_len();
        let mut i: usize = 0;
        while i < n
            invariant
                self.wf(),
                writer.wf(),
                log.wf(),
                n == s@.len(),
                i <= n,
                self@ == written_all(
                    old(self)@,
                    s@.subrange(0, i as int).map_values(|c: char| char_byte(c)),
                    end_of(log.rows()),
                ),
            decreases n - i,
        {
            let c = s.get_char(i);
            self.write_byte((c as u32 % 256) as u8, writer, log);
            i = i + 1;
            let ghost done = s@.subrange(0, i as int).map_values(|c: char| char_byte(c));
            assert(done.drop_last() =~= s@.subrange(0, i - 1).map_values(|c: char| char_byte(c)));
        }
        assert(s@.subrange(0, n as int) =~= s@);
    }
}

/// After a line feed, a jump to the cursor, or a reselection of the console,
/// the console's cursor lies inside the viewport.
pub proof fn lemma_focus_shows_cursor(v: TermView, b: u8, log_end: (nat, nat))
    requires
        view_wf(v),
        v.active == VirtualTerminals::Console,
        b == LINE_FEED || b == EscapeChar::ScrollEnd.spec_code() || b == VirtualTerminals::Console.spec_code(),
    ensures
        cursor_visible(written(v, b, log_end)),
{
    let u = if drifted(v) { focused(v) } else { v };
    assert(cursor_visible(u));
}

/// A printable byte written to the console leaves the cursor inside the
/// viewport or just right of its last column.
pub proof fn lemma_typing_keeps_cursor_near(v: TermView, b: u8, log_end: (nat, nat))
    requires
        view_wf(v),
        v.active == VirtualTerminals::Console,
        VirtualTerminals::spec_from_byte(b) == VirtualTerminals::Unknown,
        EscapeChar::spec_from_byte(b) == EscapeChar::Null,
        b != NULL_BYTE && b != BACKSPACE && b != LINE_FEED,
    ensures
        ({
            let w = written(v, b, log_end);
            &&& w.scroll_row <= w.row < w.scroll_row + w.height
            &&& w.scroll_col <= w.col <= w.scroll_col + w.width
        }),
{
    let u = if drifted(v) { focused(v) } else { v };
    assert(cursor_visible(u));
}

/// The line feeds written to the console add one row each.
pub open spec fn line_feeds(k: nat) -> Seq<u8> {
    Seq::new(k, |i: int| LINE_FEED)
}

/// Writing `k` line feeds to the console adds exactly `k` rows to it.
pub proof fn lemma_line_feeds_grow_console(v: TermView, k: nat, log_end: (nat, nat))
    requires
        v.active == VirtualTerminals::Console,
    ensures
        written_all(v, line_feeds(k), log_end).console.len() == v.console.len() + k,
        written_all(v, line_feeds(k), log_end).active == VirtualTerminals::Console,
    decreases k,
{
    if k > 0 {
        let prev = (k - 1) as nat;
        assert(line_feeds(k).drop_last() =~= line_feeds(prev));
        lemma_line_feeds_grow_console(v, prev, log_end);
    }
}

/// No byte removes a row of the console.
pub proof fn lemma_console_never_shrinks(v: TermView, bytes: Seq<u8>, log_end: (nat, nat))
    ensures
        written_all(v, bytes, log_end).console.len() >= v.console.len(),
    decreases bytes.len(),
{
    if bytes.len() > 0 {
        lemma_console_never_shrinks(v, bytes.drop_last(), log_end);
    }
}

/// While another terminal is active, no byte changes the console's content.
/// (The kernel log is only ever read: `write_byte` takes it by shared reference.)
pub proof fn lemma_other_terminals_leave_console(v: TermView, b: u8, log_end: (nat, nat))
    requires
        v.active != VirtualTerminals::Console,
    ensures
        written(v, b, log_end).console == v.console,
{
}

/// A decoded key, as the terminal sees it.
#[derive(Clone, Copy, PartialEq, Eq, Debug, Structural)]
pub enum Key {
    ArrowUp,
    ArrowDown,
    Home,
    End,
    ArrowRight,
    ArrowLeft,
    F1,
    F2,
    F3,
    F12,
    /// A key that produced a character.
    Unicode(char),
    /// Any other key, by its key code.
    Raw(u8),
}

/// The character a key is sent to the terminal as: navigation keys become
/// escapes, function keys select terminals.
pub open spec fn key_char(key: Key) -> char {
    match key {
        Key::ArrowUp => EscapeChar::ScrollUp.spec_code() as char,
        Key::ArrowDown => EscapeChar::ScrollDown.spec_code() as char,
        Key::Home => EscapeChar::ScrollHome.spec_code() as char,
        Key::End => EscapeChar::ScrollEnd.spec_code() as char,
        Key::ArrowRight => EscapeChar::ScrollRight.spec_code() as char,
        Key::ArrowLeft => EscapeChar::ScrollLeft.spec_code() as char,
        Key::F1 => VirtualTerminals::KernelLog.spec_code() as char,
        Key::F2 => VirtualTerminals::Console.spec_code() as char,
        Key::F3 => VirtualTerminals::GUI.spec_code() as char,
        Key::F12 => VirtualTerminals::ScreenTest.spec_code() as char,
        Key::Unicode(c) => c,
        Key::Raw(code) => code as char,
    }
}

/// The observer that turns keys and pointer packets into terminal input.
pub struct TermInput {
    _private: (),
}

impl TermInput {
    pub fn new() -> (r: TermInput) {
        TermInput { _private: () }
    }

    /// The character for a key; see `key_char`.
    pub fn key_char(key: Key) -> (r: char)
        ensures
            r == key_char(key),
    {
        match key {
            Key::ArrowUp => EscapeChar::ScrollUp.code() as char,
            Key::ArrowDown => EscapeChar::ScrollDown.code() as char,
            Key::Home => EscapeChar::ScrollHome.code() as char,
            Key::End => EscapeChar::ScrollEnd.code() as char,
            Key::ArrowRight => EscapeChar::ScrollRight.code() as char,
            Key::ArrowLeft => EscapeChar::ScrollLeft.code() as char,
            Key::F1 => VirtualTerminals::KernelLog.code() as char,
            Key::F2 => VirtualTerminals::Console.code() as char,
            Key::F3 => VirtualTerminals::GUI.code() as char,
            Key::F12 => VirtualTerminals::ScreenTest.code() as char,
            Key::Unicode(c) => c,
            Key::Raw(code) => code as char,
        }
    }

    /// Sends a key's character to the terminal's stream; `false` when it was dropped.
    pub fn update(&self, stream: &mut CharacterStream, key: Key) -> (r: bool)
        requires
            old(stream).wf(),
        ensures
            final(stream).wf(),
            r == (old(stream)@.len() < crate::task::term::CAPACITY),
            final(stream)@ == pushed(old(stream)@, crate::task::term::CAPACITY as nat, key_char(key)),
    {
        add_char(stream, Self::key_char(key))
    }

    /// Moves the terminal's pointer by a packet's offsets.
    pub fn update_pointer(&self, term: &mut Term, writer: &mut Writer, packet: PointerPacket)
        requires
            old(term).wf(),
        ensures
            final(term).wf(),
            old(term)@.active == VirtualTerminals::GUI ==> final(term)@ == (TermView {
                mouse: (
                    clamped(old(term)@.mouse.0 as int, packet.dx as int, old(term)@.pointer_area.0),
                    clamped(old(term)@.mouse.1 as int, -(packet.dy as int), old(term)@.pointer_area.1),
                ),
                ..old(term)@
            }),
            old(term)@.active != VirtualTerminals::GUI ==> final(term)@ == old(term)@ && final(writer)@ == old(
                writer,
            )@,
    {
        term.update_mouse(packet.dx as isize, packet.dy as isize, writer);
    }
}

} // verus!
