//! Cells, frames, and the construction of a frame from what the emulator
//! reports of its visible grid.

use vstd::prelude::*;
use crate::color::{ColorOverrides, TermColor, resolve_color, DEFAULT_BG, DEFAULT_FG};

verus! {

/// One character position of the grid as it goes on the wire: the codepoint,
/// the resolved colours and the four style flags.
#[derive(Clone, Copy, Debug, PartialEq, Eq)]
pub struct Cell {
    pub c: char,
    pub fg: [u8; 3],
    pub bg: [u8; 3],
    pub bold: bool,
    pub italic: bool,
    pub underline: bool,
    pub inverse: bool,
}

impl Cell {
    /// The default cell: a space in the default colours, all flags clear.
    pub open spec fn blank() -> Cell {
        Cell {
            c: ' ',
            fg: DEFAULT_FG,
            bg: DEFAULT_BG,
            bold: false,
            italic: false,
            underline: false,
            inverse: false,
        }
    }
}

impl Default for Cell {
    fn default() -> (cell: Cell)
        ensures
            cell == Cell::blank(),
    {
        Cell {
            c: ' ',
            fg: DEFAULT_FG,
            bg: DEFAULT_BG,
            bold: false,
            italic: false,
            underline: false,
            inverse: false,
        }
    }
}

/// A full snapshot of the grid and the cursor at one instant. The cells are
/// in row-major order.
#[derive(Debug, PartialEq, Eq)]
pub struct TerminalFrame {
    pub cols: u16,
    pub rows: u16,
    pub cursor_col: u16,
    pub cursor_row: u16,
    pub cursor_visible: bool,
    pub cells: Vec<Cell>,
}

/// A frame as contracts see it: the same fields, the cells as a sequence.
pub struct FrameView {
    pub cols: u16,
    pub rows: u16,
    pub cursor_col: u16,
    pub cursor_row: u16,
    pub cursor_visible: bool,
    pub cells: Seq<Cell>,
}

impl View for TerminalFrame {
    type V = FrameView;

    open spec fn view(&self) -> FrameView {
        FrameView {
            cols: self.cols,
            rows: self.rows,
            cursor_col: self.cursor_col,
            cursor_row: self.cursor_row,
            cursor_visible: self.cursor_visible,
            cells: self.cells@,
        }
    }
}

impl Clone for TerminalFrame {
    fn clone(&self) -> (copy: TerminalFrame)
        ensures
            copy@ == self@,
    {
        TerminalFrame {
            cols: self.cols,
            rows: self.rows,
            cursor_col: self.cursor_col,
            cursor_row: self.cursor_row,
            cursor_visible: self.cursor_visible,
            cells: self.cells.clone(),
        }
    }
}

impl FrameView {
    /// There is one cell for every position of the grid.
    pub open spec fn cells_fill_grid(self) -> bool {
        self.cells.len() == self.cols as int * self.rows as int
    }

    /// A visible cursor lies inside the grid.
    pub open spec fn cursor_in_grid(self) -> bool {
        self.cursor_visible ==> self.cursor_col < self.cols && self.cursor_row < self.rows
    }

    /// The frame's invariant: a cell for every position, and a visible
    /// cursor inside the grid.
    pub open spec fn wf(self) -> bool {
        self.cells_fill_grid() && self.cursor_in_grid()
    }
}

impl TerminalFrame {
    /// The frame's invariant: a cell for every position, and a visible
    /// cursor inside the grid.
    pub open spec fn wf(self) -> bool {
        self@.wf()
    }

    /// Tests the frame's invariant.
    pub fn is_well_formed(&self) -> (ok: bool)
        ensures
            ok == self.wf(),
    {
        assert(self.cols as int * self.rows as int <= 65535 * 65535) by (nonlinear_arith)
            requires
                self.cols <= 65535,
                self.rows <= 65535,
        ;
        let total: u64 = self.cols as u64 * self.rows as u64;
        let filled: bool = self.cells.len() as u64 == total;
        let cursor_ok: bool = !self.cursor_visible || (self.cursor_col < self.cols
            && self.cursor_row < self.rows);
        filled && cursor_ok
    }
}

/// The style flags of an emulator cell that frame construction reads.
#[derive(Clone, Copy, Debug, PartialEq, Eq)]
pub struct CellFlags {
    pub inverse: bool,
    pub bold: bool,
    pub italic: bool,
    pub underline: bool,
    pub double_underline: bool,
    pub undercurl: bool,
    pub dotted_underline: bool,
    pub dashed_underline: bool,
    /// The cell is the trailing half of a double-width glyph.
    pub wide_char_spacer: bool,
}

impl CellFlags {
    /// Any of the underline variants is set.
    pub open spec fn any_underline(self) -> bool {
        self.underline || self.double_underline || self.undercurl || self.dotted_underline
            || self.dashed_underline
    }

    /// No flag set.
    pub fn none() -> (flags: CellFlags)
        ensures
            flags == (CellFlags {
                inverse: false,
                bold: false,
                italic: false,
                underline: false,
                double_underline: false,
                undercurl: false,
                dotted_underline: false,
                dashed_underline: false,
                wide_char_spacer: false,
            }),
    {
        CellFlags {
            inverse: false,
            bold: false,
            italic: false,
            underline: false,
            double_underline: false,
            undercurl: false,
            dotted_underline: false,
            dashed_underline: false,
            wide_char_spacer: false,
        }
    }
}

/// One cell of the emulator's grid: where it is, in the emulator's line
/// coordinates, and what it holds.
#[derive(Clone, Copy, Debug, PartialEq, Eq)]
pub struct RenderableCell {
    /// Line in the emulator's coordinates; negative in the scrollback.
    pub line: i32,
    pub column: usize,
    pub c: char,
    pub fg: TermColor,
    pub bg: TermColor,
    pub flags: CellFlags,
}

/// The emulator's cursor.
#[derive(Clone, Copy, Debug, PartialEq, Eq)]
pub struct CursorState {
    /// Line in the emulator's coordinates.
    pub line: i32,
    pub column: usize,
    /// The cursor's shape is "hidden".
    pub hidden: bool,
}

/// What the emulator reports of its visible grid at one instant.
#[derive(Clone, Debug, PartialEq, Eq)]
pub struct GridSnapshot {
    pub cols: u16,
    pub rows: u16,
    /// How many lines the viewport is scrolled back into the history.
    pub display_offset: usize,
    pub cells: Vec<RenderableCell>,
    pub cursor: CursorState,
    pub colors: ColorOverrides,
}

/// The wire cell of an emulator cell: colours resolved and swapped under
/// inverse, the flags copied, any underline variant counted as underline,
/// and a space in place of a wide-character spacer.
pub open spec fn converted(cell: RenderableCell, colors: ColorOverrides) -> Cell {
    let fg = colors.resolved(cell.fg);
    let bg = colors.resolved(cell.bg);
    Cell {
        c: if cell.flags.wide_char_spacer { ' ' } else { cell.c },
        fg: if cell.flags.inverse { bg } else { fg },
        bg: if cell.flags.inverse { fg } else { bg },
        bold: cell.flags.bold,
        italic: cell.flags.italic,
        underline: cell.flags.any_underline(),
        inverse: cell.flags.inverse,
    }
}

/// Converts one emulator cell to its wire form.
pub fn convert_cell(cell: &RenderableCell, colors: &ColorOverrides) -> (out: Cell)
    ensures
        out == converted(*cell, *colors),
{
    let flags: CellFlags = cell.flags;
    let mut fg: [u8; 3] = resolve_color(cell.fg, colors);
    let mut bg: [u8; 3] = resolve_color(cell.bg, colors);
    if flags.inverse {
        let held: [u8; 3] = fg;
        fg = bg;
        bg = held;
    }
    let mut c: char = cell.c;
    if flags.wide_char_spacer {
        c = ' ';
    }
    Cell {
        c,
        fg,
        bg,
        bold: flags.bold,
        italic: flags.italic,
        underline: flags.underline || flags.double_underline || flags.undercurl
            || flags.dotted_underline || flags.dashed_underline,
        inverse: flags.inverse,
    }
}

impl GridSnapshot {
    /// The on-screen row of an emulator line.
    pub open spec fn screen_row(self, line: i32) -> int {
        line as int + self.display_offset as int
    }

    /// The index in the frame's cell array that an emulator cell lands on,
    /// or `None` if it lies outside the visible region.
    pub open spec fn target(self, cell: RenderableCell) -> Option<int> {
        let row = self.screen_row(cell.line);
        if 0 <= row < self.rows && cell.column < self.cols {
            Some(row * self.cols as int + cell.column as int)
        } else {
            None
        }
    }

    /// The cell at index `idx` once the first `upto` emulator cells have
    /// been laid out: the conversion of the last of them that lands on
    /// `idx`, or the default cell if none does.
    pub open spec fn painted(self, upto: int, idx: int) -> Cell
        decreases upto,
    {
        if upto <= 0 {
            Cell::blank()
        } else if self.target(self.cells@[upto - 1]) == Some(idx) {
            converted(self.cells@[upto - 1], self.colors)
        } else {
            self.painted(upto - 1, idx)
        }
    }

    /// The cursor is shown: its shape is not "hidden" and its row is on
    /// screen.
    pub open spec fn cursor_shown(self) -> bool {
        !self.cursor.hidden && 0 <= self.screen_row(self.cursor.line) < self.rows
    }

    /// The frame of this snapshot: its dimensions, a cell array in row-major
    /// order with the emulator's cells laid over default cells, and the
    /// cursor moved by the display offset, shown only while its row is on
    /// screen and its shape is not "hidden".
    pub open spec fn frame(self) -> FrameView {
        FrameView {
            cols: self.cols,
            rows: self.rows,
            cursor_col: if self.cursor_shown() {
                (self.cursor.column % 0x10000) as u16
            } else {
                0
            },
            cursor_row: if self.cursor_shown() {
                self.screen_row(self.cursor.line) as u16
            } else {
                0
            },
            cursor_visible: self.cursor_shown(),
            cells: Seq::new(
                (self.cols as int * self.rows as int) as nat,
                |idx: int| self.painted(self.cells@.len() as int, idx),
            ),
        }
    }
}

/// Builds the frame of a snapshot of the emulator's grid.
pub fn build_frame(snap: &GridSnapshot) -> (frame: TerminalFrame)
    ensures
        frame@ == snap.frame(),
        frame@.cells_fill_grid(),
        frame.cursor_visible ==> frame.cursor_row < frame.rows,
{
    let cols: usize = snap.cols as usize;
    let rows: usize = snap.rows as usize;
    assert(cols * rows <= 65535 * 65535) by (nonlinear_arith)
        requires
            cols <= 65535,
            rows <= 65535,
    ;
    let total: usize = cols * rows;
    let mut cells: Vec<Cell> = vec![Cell::default(); total];
    let mut k: usize = 0;
    while k < snap.cells.len()
        invariant
            k <= snap.cells@.len(),
            cols == snap.cols,
            rows == snap.rows,
            total == cols * rows,
            cells@.len() == total,
            forall|idx: int| 0 <= idx < total ==> cells@[idx] == snap.painted(k as int, idx),
        decreases snap.cells@.len() - k,
    {
        let cell: &RenderableCell = &snap.cells[k];
        let row: i128 = cell.line as i128 + snap.display_offset as i128;
        if row >= 0 && row < rows as i128 && cell.column < cols {
            let r: usize = row as usize;
            assert(0 <= r * cols && r * cols + cell.column < cols * rows) by (nonlinear_arith)
                requires
                    0 <= r < rows,
                    0 <= cell.column < cols,
            ;
            let idx: usize = r * cols + cell.column;
            cells.set(idx, convert_cell(cell, &snap.colors));
        }
        k = k + 1;
    }
    let mut cursor_col: u16 = 0;
    let mut cursor_row: u16 = 0;
    let mut cursor_visible: bool = !snap.cursor.hidden;
    if cursor_visible {
        let row: i128 = snap.cursor.line as i128 + snap.display_offset as i128;
        if row < 0 || row >= rows as i128 {
            cursor_visible = false;
        } else {
            cursor_row = row as u16;
            cursor_col = (snap.cursor.column % 0x10000) as u16;
        }
    }
    let frame = TerminalFrame {
        cols: snap.cols,
        rows: snap.rows,
        cursor_col,
        cursor_row,
        cursor_visible,
        cells,
    };
    assert(frame@.cells =~= snap.frame().cells);
    frame
}

/// Every frame built from a snapshot holds exactly `cols × rows` cells.
pub proof fn lemma_frame_fills_grid(snap: GridSnapshot)
    ensures
        snap.frame().cells.len() == snap.cols as int * snap.rows as int,
        snap.frame().cells_fill_grid(),
{
    assert(snap.cols as int * snap.rows as int >= 0) by (nonlinear_arith)
        requires
            snap.cols >= 0,
            snap.rows >= 0,
    ;
}

/// A frame shows its cursor only on a row of the grid.
pub proof fn lemma_frame_cursor_on_a_row(snap: GridSnapshot)
    ensures
        snap.frame().cursor_visible ==> snap.frame().cursor_row < snap.frame().rows,
{
}

/// A shown cursor lies inside the grid, unless the emulator reports it in
/// a column that the grid does not have.
pub proof fn lemma_frame_cursor_in_grid(snap: GridSnapshot)
    requires
        snap.cursor_shown() ==> snap.cursor.column % 0x10000 < snap.cols,
    ensures
        snap.frame().cursor_in_grid(),
        snap.frame().wf(),
{
    lemma_frame_fills_grid(snap);
}

/// Right after the grid was retargeted to `cols × rows`, the frame holds
/// exactly `cols × rows` cells, whatever the emulator reports of its cells.
pub proof fn lemma_frame_after_resize(snap: GridSnapshot, cols: u16, rows: u16)
    requires
        snap.cols == cols,
        snap.rows == rows,
    ensures
        snap.frame().cols == cols,
        snap.frame().rows == rows,
        snap.frame().cells.len() == cols as int * rows as int,
{
    lemma_frame_fills_grid(snap);
}

} // verus!
