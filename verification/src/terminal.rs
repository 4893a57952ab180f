//! The client's terminal: a grid of cells with a cursor that is redrawn from
//! the server's frames and, between them, predicts the echo of what is
//! typed.

use std::collections::VecDeque;
use vstd::prelude::*;
use vstd::string::StringExecFns;
use crate::color::{ansi_color, color_256, DEFAULT_BG, DEFAULT_FG};
use crate::frame::{Cell, TerminalFrame};
use crate::screen::{
    blank_cells, cell_summary, decimal, hex_byte, hex_color, lemma_row_outside_is_empty,
    position_report, status_report, Cursor, Pen, Screen, VtEventView, MAX_SCROLLBACK,
};
use crate::text::push_char;

verus! {

/// The terminal's grid and state.
pub struct Terminal {
    cols: u16,
    rows: u16,
    grid: Vec<Cell>,
    cursor: Cursor,
    saved_cursor: Cursor,
    dirty: bool,
    pen: Pen,
    scrollback: Vec<Vec<Cell>>,
    selection_start: Option<(u16, u16)>,
    selection_end: Option<(u16, u16)>,
    selecting: bool,
    responses: VecDeque<Vec<u8>>,
}

impl View for Terminal {
    type V = Screen;

    closed spec fn view(&self) -> Screen {
        Screen {
            cols: self.cols,
            rows: self.rows,
            grid: self.grid@,
            cursor: self.cursor,
            saved_cursor: self.saved_cursor,
            dirty: self.dirty,
            pen: self.pen,
            scrollback: Seq::new(self.scrollback@.len(), |i: int| self.scrollback@[i]@),
            selection_start: self.selection_start,
            selection_end: self.selection_end,
            selecting: self.selecting,
            responses: Seq::new(self.responses@.len(), |i: int| self.responses@[i]@),
        }
    }
}

/// The product of two 16-bit numbers fits every index type.
proof fn lemma_area_bound(cols: u16, rows: u16)
    ensures
        0 <= cols as int * rows as int <= 65535 * 65535,
        cols as int * rows as int <= usize::MAX,
{
    assert(0 <= cols as int * rows as int <= 65535 * 65535) by (nonlinear_arith)
        requires
            0 <= cols <= 65535,
            0 <= rows <= 65535,
    ;
}

/// A position of the grid has an index below the number of cells.
proof fn lemma_offset_bound(col: int, row: int, cols: int, rows: int)
    requires
        0 <= col < cols,
        0 <= row < rows,
    ensures
        0 <= row * cols <= row * cols + col < cols * rows,
        row * cols + cols <= cols * rows,
{
    assert(0 <= row * cols && row * cols + cols <= cols * rows) by (nonlinear_arith)
        requires
            0 <= col < cols,
            0 <= row < rows,
    ;
}

/// A vector of `n` default cells.
fn default_cells(n: usize) -> (cells: Vec<Cell>)
    ensures
        cells@ == blank_cells(n as int),
{
    let cells: Vec<Cell> = vec![Cell::default(); n];
    cells
}

impl Terminal {
    /// The terminal's invariant, which is that of its screen.
    pub open spec fn wf(self) -> bool {
        self@.wf()
    }

    /// A terminal of the given size, with every cell default.
    pub fn new(cols: u16, rows: u16) -> (terminal: Terminal)
        requires
            cols >= 1,
            rows >= 1,
        ensures
            terminal@ == Screen::fresh(cols, rows),
            terminal.wf(),
    {
        proof {
            lemma_area_bound(cols, rows);
        }
        let size: usize = (cols as usize) * (rows as usize);
        let terminal = Terminal {
            cols,
            rows,
            grid: default_cells(size),
            cursor: Cursor::default(),
            saved_cursor: Cursor::default(),
            dirty: true,
            pen: Pen {
                fg: DEFAULT_FG,
                bg: DEFAULT_BG,
                bold: false,
                italic: false,
                underline: false,
                inverse: false,
            },
            scrollback: Vec::new(),
            selection_start: None,
            selection_end: None,
            selecting: false,
            responses: VecDeque::new(),
        };
        assert(terminal@.scrollback =~= Seq::<Seq<Cell>>::empty());
        assert(terminal@.responses =~= Seq::<Seq<u8>>::empty());
        terminal
    }

    /// The number of columns.
    pub fn cols(&self) -> (cols: u16)
        ensures
            cols == self@.cols,
    {
        self.cols
    }

    /// The number of rows.
    pub fn rows(&self) -> (rows: u16)
        ensures
            rows == self@.rows,
    {
        self.rows
    }

    /// Whether the screen changed since it was last drawn.
    pub fn is_dirty(&self) -> (dirty: bool)
        ensures
            dirty == self@.dirty,
    {
        self.dirty
    }

    /// Marks the screen as drawn.
    pub fn mark_clean(&mut self)
        ensures
            final(self)@ == (Screen { dirty: false, ..old(self)@ }),
    {
        self.dirty = false;
    }

    /// Marks the screen as changed.
    pub fn mark_dirty(&mut self)
        ensures
            final(self)@ == (Screen { dirty: true, ..old(self)@ }),
    {
        self.dirty = true;
    }

    /// The cell at a position, if the position lies in the grid.
    pub fn cell(&self, col: u16, row: u16) -> (cell: Option<&Cell>)
        requires
            self.wf(),
        ensures
            match cell {
                Some(c) => self@.cell_at(col, row) == Some(*c),
                None => self@.cell_at(col, row) is None,
            },
    {
        if col < self.cols && row < self.rows {
            proof {
                lemma_offset_bound(col as int, row as int, self.cols as int, self.rows as int);
                lemma_area_bound(self.cols, self.rows);
            }
            let idx: usize = row as usize * self.cols as usize + col as usize;
            Some(&self.grid[idx])
        } else {
            None
        }
    }

    /// The cursor's column and row.
    pub fn cursor_position(&self) -> (at: (u16, u16))
        ensures
            at == (self@.cursor.col, self@.cursor.row),
    {
        (self.cursor.col, self.cursor.row)
    }

    /// Whether the cursor shows.
    pub fn cursor_visible(&self) -> (visible: bool)
        ensures
            visible == self@.cursor.visible,
    {
        self.cursor.visible
    }
}

impl Terminal {
    /// Everything but the grid and the scrollback is as in `other`.
    spec fn same_frame(self, other: Terminal) -> bool {
        &&& self.cols == other.cols
        &&& self.rows == other.rows
        &&& self.cursor == other.cursor
        &&& self.saved_cursor == other.saved_cursor
        &&& self.dirty == other.dirty
        &&& self.pen == other.pen
        &&& self.selection_start == other.selection_start
        &&& self.selection_end == other.selection_end
        &&& self.selecting == other.selecting
        &&& self.responses == other.responses
    }

    /// Replaces the cell at a position; does nothing outside the grid. Says
    /// whether the position lies in the grid.
    fn put(&mut self, col: u16, row: u16, cell: Cell) -> (inside: bool)
        requires
            old(self).wf(),
        ensures
            final(self)@ == old(self)@.put(col, row, cell),
            inside == old(self)@.in_grid(col, row),
            final(self).wf(),
    {
        if col < self.cols && row < self.rows {
            proof {
                lemma_offset_bound(col as int, row as int, self.cols as int, self.rows as int);
                lemma_area_bound(self.cols, self.rows);
            }
            let idx: usize = row as usize * self.cols as usize + col as usize;
            self.grid.set(idx, cell);
            true
        } else {
            false
        }
    }

    /// The cell that the current pen writes for a character.
    fn pen_cell(&self, c: char) -> (cell: Cell)
        ensures
            cell == self@.pen.cell(c),
    {
        let p: Pen = self.pen;
        Cell {
            c,
            fg: if p.inverse { p.bg } else { p.fg },
            bg: if p.inverse { p.fg } else { p.bg },
            bold: p.bold,
            italic: p.italic,
            underline: p.underline,
            inverse: p.inverse,
        }
    }

    /// Makes the cells of indices `from` up to `to` default.
    fn erase(&mut self, from: usize, to: usize)
        requires
            old(self).wf(),
        ensures
            final(self)@ == old(self)@.erased(from as int, to as int),
            final(self).wf(),
    {
        let end: usize = if to < self.grid.len() {
            to
        } else {
            self.grid.len()
        };
        let mut i: usize = from;
        while i < end
            invariant
                end <= self.grid@.len(),
                end <= to,
                end == to || end == self.grid@.len(),
                from <= i,
                i <= end || i == from,
                self.grid@.len() == old(self).grid@.len(),
                forall|j: int|
                    0 <= j < self.grid@.len() ==> self.grid@[j] == (if from <= j < i {
                        Cell::blank()
                    } else {
                        old(self).grid@[j]
                    }),
                self.same_frame(*old(self)),
                self.scrollback == old(self).scrollback,
            decreases end - i,
        {
            self.grid.set(i, Cell::default());
            i = i + 1;
        }
        assert(self@.grid =~= old(self)@.erased(from as int, to as int).grid);
    }

    /// Scrolls the screen up by one line.
    fn scroll_up(&mut self)
        requires
            old(self).wf(),
        ensures
            final(self)@ == old(self)@.scrolled(),
            final(self).wf(),
    {
        proof {
            lemma_area_bound(self.cols, self.rows);
            lemma_offset_bound(0, 0, self.cols as int, self.rows as int);
        }
        let width: usize = self.cols as usize;
        let total: usize = self.grid.len();
        if self.scrollback.len() >= MAX_SCROLLBACK {
            self.scrollback.remove(0);
        }
        let mut first_line: Vec<Cell> = Vec::new();
        let mut k: usize = 0;
        while k < width
            invariant
                k <= width <= total,
                total == self.grid@.len(),
                first_line@ == self.grid@.subrange(0, k as int),
            decreases width - k,
        {
            first_line.push(self.grid[k]);
            k = k + 1;
        }
        self.scrollback.push(first_line);
        let ghost lines = self@.scrollback;
        let ghost before = old(self).grid@;
        let mut i: usize = 0;
        while i < total - width
            invariant
                width <= total,
                self.same_frame(*old(self)),
                self@.scrollback == lines,
                total == self.grid@.len(),
                before.len() == total,
                forall|j: int| 0 <= j < i ==> self.grid@[j] == before[j + width],
                forall|j: int| i <= j < total ==> self.grid@[j] == before[j],
            decreases total - i,
        {
            let moved: Cell = self.grid[i + width];
            self.grid.set(i, moved);
            i = i + 1;
        }
        let mut j: usize = total - width;
        while j < total
            invariant
                width <= total,
                total - width <= j <= total,
                self.same_frame(*old(self)),
                self@.scrollback == lines,
                total == self.grid@.len(),
                before.len() == total,
                forall|m: int| 0 <= m < total - width ==> self.grid@[m] == before[m + width],
                forall|m: int| total - width <= m < j ==> self.grid@[m] == Cell::blank(),
            decreases total - j,
        {
            self.grid.set(j, Cell::default());
            j = j + 1;
        }
        proof {
            let target = old(self)@.scrolled();
            assert(self@.grid =~= target.grid);
            assert(self@.scrollback =~= target.scrollback);
        }
    }

    /// Moves the cursor down one line, scrolling at the bottom.
    fn line_feed(&mut self)
        requires
            old(self).wf(),
        ensures
            final(self)@ == old(self)@.line_fed(),
            final(self).wf(),
    {
        if self.cursor.row + 1 >= self.rows {
            self.scroll_up();
            self.cursor.row = self.rows - 1;
        } else {
            self.cursor.row = self.cursor.row + 1;
        }
    }

    /// Writes a character at the cursor with the current pen and moves the
    /// cursor on.
    pub fn print(&mut self, c: char)
        requires
            old(self).wf(),
        ensures
            final(self)@ == old(self)@.printed(c),
            final(self).wf(),
    {
        let cell: Cell = self.pen_cell(c);
        let col: u16 = self.cursor.col;
        let row: u16 = self.cursor.row;
        self.put(col, row, cell);
        if self.cursor.col + 1 >= self.cols {
            self.cursor.col = 0;
            self.line_feed();
        } else {
            self.cursor.col = self.cursor.col + 1;
        }
    }

    /// Echoes a typed character before the server confirms it. Only
    /// printable ASCII is predicted, and the screen never scrolls for it;
    /// the next frame from the server overwrites whatever was predicted.
    /// Says whether the character was written.
    pub fn write_char_speculative(&mut self, c: char) -> (written: bool)
        requires
            old(self).wf(),
        ensures
            written == old(self)@.predicts(c),
            final(self)@ == old(self)@.speculated(c),
            final(self).wf(),
    {
        let code: u32 = c as u32;
        if code < 0x20 || code > 0x7e {
            return false;
        }
        let cell: Cell = self.pen_cell(c);
        let col: u16 = self.cursor.col;
        let row: u16 = self.cursor.row;
        if !self.put(col, row, cell) {
            return false;
        }
        if self.cursor.col + 1 >= self.cols {
            self.cursor.col = 0;
            if self.cursor.row + 1 >= self.rows {
                self.cursor.row = self.rows - 1;
            } else {
                self.cursor.row = self.cursor.row + 1;
            }
        } else {
            self.cursor.col = self.cursor.col + 1;
        }
        self.dirty = true;
        true
    }

    /// Carries out a control byte.
    pub fn execute(&mut self, byte: u8)
        requires
            old(self).wf(),
        ensures
            final(self)@ == old(self)@.executed(byte),
            final(self).wf(),
    {
        if byte == 0x08 {
            if self.cursor.col > 0 {
                self.cursor.col = self.cursor.col - 1;
            }
        } else if byte == 0x09 {
            let stop: u32 = (self.cursor.col as u32 / 8 + 1) * 8;
            let last: u32 = self.cols as u32 - 1;
            self.cursor.col = if stop <= last {
                stop as u16
            } else {
                last as u16
            };
        } else if byte >= 0x0a && byte <= 0x0c {
            self.line_feed();
        } else if byte == 0x0d {
            self.cursor.col = 0;
        }
    }
}

/// Appends the decimal digits of a number.
fn push_decimal(out: &mut Vec<u8>, n: u32)
    ensures
        final(out)@ == old(out)@ + decimal(n as nat),
    decreases n,
{
    if n < 10 {
        out.push((48 + n) as u8);
    } else {
        push_decimal(out, n / 10);
        out.push((48 + n % 10) as u8);
    }
}

/// The pen after one plain SGR parameter.
fn pen_with_attribute(pen: Pen, p: u16) -> (out: Pen)
    ensures
        out == pen.with_attribute(p),
{
    let mut out: Pen = pen;
    if p == 0 {
        out = Pen {
            fg: DEFAULT_FG,
            bg: DEFAULT_BG,
            bold: false,
            italic: false,
            underline: false,
            inverse: false,
        };
    } else if p == 1 {
        out.bold = true;
    } else if p == 3 {
        out.italic = true;
    } else if p == 4 {
        out.underline = true;
    } else if p == 7 {
        out.inverse = true;
    } else if p == 22 {
        out.bold = false;
    } else if p == 23 {
        out.italic = false;
    } else if p == 24 {
        out.underline = false;
    } else if p == 27 {
        out.inverse = false;
    } else if 30 <= p && p <= 37 {
        out.fg = ansi_color((p - 30) as u8);
    } else if p == 39 {
        out.fg = DEFAULT_FG;
    } else if 90 <= p && p <= 97 {
        out.fg = ansi_color((p - 90 + 8) as u8);
    } else if 40 <= p && p <= 47 {
        out.bg = ansi_color((p - 40) as u8);
    } else if p == 49 {
        out.bg = DEFAULT_BG;
    } else if 100 <= p && p <= 107 {
        out.bg = ansi_color((p - 100 + 8) as u8);
    }
    out
}

/// The colour that an extended colour parameter at position `i` selects.
fn extended_color(params: &[u16], i: usize) -> (out: Option<([u8; 3], usize)>)
    requires
        i < params@.len(),
    ensures
        match out {
            Some((rgb, used)) => Pen::extended_color(params@, i as int) == Some((rgb, used as int))
                && i + used < params@.len(),
            None => Pen::extended_color(params@, i as int) is None,
        },
{
    let n: usize = params.len();
    if n - i > 2 && params[i + 1] == 5 {
        Some((color_256((params[i + 2] % 256) as u8), 2))
    } else if n - i > 4 && params[i + 1] == 2 {
        Some(
            (
                [
                    (params[i + 2] % 256) as u8,
                    (params[i + 3] % 256) as u8,
                    (params[i + 4] % 256) as u8,
                ],
                4,
            ),
        )
    } else {
        None
    }
}

/// The pen after an SGR sequence.
fn pen_after_sgr(pen: Pen, params: &[u16]) -> (out: Pen)
    ensures
        out == pen.sgr(params@),
{
    if params.len() == 0 {
        return Pen {
            fg: DEFAULT_FG,
            bg: DEFAULT_BG,
            bold: false,
            italic: false,
            underline: false,
            inverse: false,
        };
    }
    let mut out: Pen = pen;
    let mut i: usize = 0;
    while i < params.len()
        invariant
            i <= params@.len(),
            out.sgr_from(params@, i as int) == pen.sgr_from(params@, 0),
        decreases params@.len() - i,
    {
        let p: u16 = params[i];
        if p == 38 || p == 48 {
            match extended_color(params, i) {
                Some((rgb, used)) => {
                    if p == 38 {
                        out.fg = rgb;
                    } else {
                        out.bg = rgb;
                    }
                    i = i + used;
                },
                None => {},
            }
        } else {
            out = pen_with_attribute(out, p);
        }
        i = i + 1;
    }
    out
}

impl Terminal {
    /// Moves the cursor for one of the cursor sequences.
    fn move_cursor(&mut self, params: &[u16], action: char)
        requires
            old(self).wf(),
            action == 'A' || action == 'B' || action == 'C' || action == 'D' || action == 'H'
                || action == 'f',
        ensures
            final(self)@ == old(self)@.cursor_moved(params@, action),
            final(self).wf(),
    {
        let n: u32 = if params.len() > 0 && params[0] >= 1 {
            params[0] as u32
        } else {
            1
        };
        let last_col: u32 = self.cols as u32 - 1;
        let last_row: u32 = self.rows as u32 - 1;
        if action == 'A' {
            let row: u32 = self.cursor.row as u32;
            self.cursor.row = if row >= n {
                (row - n) as u16
            } else {
                0
            };
        } else if action == 'B' {
            let row: u32 = self.cursor.row as u32 + n;
            self.cursor.row = if row <= last_row {
                row as u16
            } else {
                last_row as u16
            };
        } else if action == 'C' {
            let col: u32 = self.cursor.col as u32 + n;
            self.cursor.col = if col <= last_col {
                col as u16
            } else {
                last_col as u16
            };
        } else if action == 'D' {
            let col: u32 = self.cursor.col as u32;
            self.cursor.col = if col >= n {
                (col - n) as u16
            } else {
                0
            };
        } else {
            let row: u32 = n - 1;
            let second: u32 = if params.len() > 1 && params[1] >= 1 {
                params[1] as u32
            } else {
                1
            };
            let col: u32 = second - 1;
            self.cursor.row = if row <= last_row {
                row as u16
            } else {
                last_row as u16
            };
            self.cursor.col = if col <= last_col {
                col as u16
            } else {
                last_col as u16
            };
        }
    }

    /// The index of the first cell of the cursor's row, or the number of
    /// cells if the cursor is below the grid.
    fn cursor_row_start(&self) -> (start: usize)
        requires
            self.wf(),
        ensures
            start <= self.grid@.len(),
            self.cursor.row < self.rows ==> start == self@.row_start() && start + self.cols
                <= self.grid@.len(),
            self.cursor.row >= self.rows ==> start == self.grid@.len() && self@.row_start()
                >= self.grid@.len(),
    {
        proof {
            lemma_area_bound(self.cols, self.rows);
        }
        if self.cursor.row < self.rows {
            proof {
                lemma_offset_bound(0, self.cursor.row as int, self.cols as int, self.rows as int);
            }
            self.cursor.row as usize * self.cols as usize
        } else {
            proof {
                assert(self.cursor.row as int * self.cols as int >= self.cols as int
                    * self.rows as int) by (nonlinear_arith)
                    requires
                        self.cursor.row >= self.rows,
                        self.cols >= 0,
                ;
            }
            self.grid.len()
        }
    }

    /// Erases a part of the cursor's line or of the screen: `whole_screen`
    /// chooses between the two, and `mode` the part.
    fn erase_part(&mut self, whole_screen: bool, mode: u16)
        requires
            old(self).wf(),
        ensures
            final(self)@ == (if whole_screen {
                old(self)@.display_erased(mode)
            } else {
                old(self)@.line_erased(mode)
            }),
            final(self).wf(),
    {
        let total: usize = self.grid.len();
        let width: usize = self.cols as usize;
        let row_start: usize = self.cursor_row_start();
        let below: bool = self.cursor.row >= self.rows;
        let col_in: usize = if self.cursor.col < self.cols {
            self.cursor.col as usize
        } else {
            width
        };
        let col_past: usize = if self.cursor.col as usize + 1 < width {
            self.cursor.col as usize + 1
        } else {
            width
        };
        if mode == 0 {
            if below {
                self.erase(total, total);
            } else if whole_screen {
                self.erase(row_start + col_in, total);
            } else {
                self.erase(row_start + col_in, row_start + width);
            }
            assert(whole_screen ==> self@.grid =~= old(self)@.cleared_to_eos().grid);
            assert(!whole_screen ==> self@.grid =~= old(self)@.cleared_to_eol().grid);
        } else if mode == 1 {
            if below {
                if whole_screen {
                    self.erase(0, total);
                } else {
                    self.erase(total, total);
                }
            } else if whole_screen {
                self.erase(0, row_start + col_past);
            } else {
                self.erase(row_start, row_start + col_past);
            }
            assert(whole_screen ==> self@.grid =~= old(self)@.cleared_to_bos().grid);
            assert(!whole_screen ==> self@.grid =~= old(self)@.cleared_to_bol().grid);
        } else if mode == 2 || (mode == 3 && whole_screen) {
            if whole_screen {
                self.erase(0, total);
            } else if below {
                self.erase(total, total);
            } else {
                self.erase(row_start, row_start + width);
            }
            assert(!whole_screen ==> self@.grid =~= old(self)@.cleared_line().grid);
        }
    }

    /// Answers a device status request.
    fn report(&mut self, code: u16)
        requires
            old(self).wf(),
        ensures
            final(self)@ == old(self)@.reported(code),
            final(self).wf(),
    {
        if code == 5 {
            let mut reply: Vec<u8> = Vec::new();
            reply.push(0x1b);
            reply.push(0x5b);
            reply.push(0x30);
            reply.push(0x6e);
            assert(reply@ =~= status_report());
            self.responses.push_back(reply);
            assert(self@.responses =~= old(self)@.responses.push(status_report()));
        } else if code == 6 {
            let mut reply: Vec<u8> = Vec::new();
            reply.push(0x1b);
            reply.push(0x5b);
            push_decimal(&mut reply, self.cursor.row as u32 + 1);
            reply.push(0x3b);
            push_decimal(&mut reply, self.cursor.col as u32 + 1);
            reply.push(0x52);
            assert(reply@ =~= position_report(self.cursor));
            self.responses.push_back(reply);
            assert(self@.responses =~= old(self)@.responses.push(position_report(self.cursor)));
        }
    }

    /// Carries out a control sequence, given its parameters, each with its
    /// subparameters dropped, and its final character.
    pub fn csi_dispatch(&mut self, params: &[u16], action: char)
        requires
            old(self).wf(),
        ensures
            final(self)@ == old(self)@.dispatched(params@, action),
            final(self).wf(),
    {
        let first: u16 = if params.len() > 0 {
            params[0]
        } else {
            0
        };
        let private_25: bool = params.len() > 0 && params[0] == 25;
        if action == 'A' || action == 'B' || action == 'C' || action == 'D' || action == 'H'
            || action == 'f' {
            self.move_cursor(params, action);
        } else if action == 'J' {
            self.erase_part(true, first);
        } else if action == 'K' {
            self.erase_part(false, first);
        } else if action == 'm' {
            self.pen = pen_after_sgr(self.pen, params);
        } else if action == 's' {
            self.saved_cursor = self.cursor;
        } else if action == 'u' {
            self.cursor = self.saved_cursor;
        } else if action == 'h' && private_25 {
            self.cursor.visible = true;
        } else if action == 'l' && private_25 {
            self.cursor.visible = false;
        } else if action == 'n' {
            self.report(first);
        }
    }

    /// Carries out an escape sequence, given its final byte.
    pub fn esc_dispatch(&mut self, byte: u8)
        requires
            old(self).wf(),
        ensures
            final(self)@ == old(self)@.escaped(byte),
            final(self).wf(),
    {
        if byte == 0x37 {
            self.saved_cursor = self.cursor;
        } else if byte == 0x38 {
            self.cursor = self.saved_cursor;
        } else if byte == 0x63 {
            let total: usize = self.grid.len();
            self.erase(0, total);
            self.cursor = Cursor::default();
            self.pen = Pen {
                fg: DEFAULT_FG,
                bg: DEFAULT_BG,
                bold: false,
                italic: false,
                underline: false,
                inverse: false,
            };
        }
    }
}

impl Terminal {
    /// Changes the size of the grid. The cells of the region that both
    /// sizes share stay where they are.
    pub fn resize(&mut self, cols: u16, rows: u16)
        requires
            old(self).wf(),
            cols >= 1,
            rows >= 1,
        ensures
            final(self)@ == old(self)@.resized(cols, rows),
            final(self).wf(),
            final(self)@.grid.len() == cols as int * rows as int,
    {
        proof {
            lemma_area_bound(cols, rows);
            lemma_area_bound(self.cols, self.rows);
        }
        let total: usize = cols as usize * rows as usize;
        let width: usize = cols as usize;
        let old_width: usize = self.cols as usize;
        let old_height: usize = self.rows as usize;
        let mut grid: Vec<Cell> = Vec::new();
        let mut i: usize = 0;
        while i < total
            invariant
                i <= total,
                width == cols,
                width >= 1,
                old_width == self.cols,
                old_height == self.rows,
                self.grid@.len() == old_width * old_height,
                old_width * old_height <= usize::MAX,
                grid@.len() == i,
                forall|j: int|
                    0 <= j < i ==> grid@[j] == (if j % (cols as int) < self.cols && j / (
                    cols as int) < self.rows {
                        self.grid@[(j / (cols as int)) * self.cols + j % (cols as int)]
                    } else {
                        Cell::blank()
                    }),
            decreases total - i,
        {
            let c: usize = i % width;
            let r: usize = i / width;
            if c < old_width && r < old_height {
                proof {
                    lemma_offset_bound(c as int, r as int, old_width as int, old_height as int);
                }
                grid.push(self.grid[r * old_width + c]);
            } else {
                grid.push(Cell::default());
            }
            i = i + 1;
        }
        self.grid = grid;
        self.cols = cols;
        self.rows = rows;
        if self.cursor.col > cols - 1 {
            self.cursor.col = cols - 1;
        }
        if self.cursor.row > rows - 1 {
            self.cursor.row = rows - 1;
        }
        self.dirty = true;
        proof {
            let target = old(self)@.resized(cols, rows);
            assert(self@.grid =~= target.grid);
        }
    }

    /// Drops the selection.
    pub fn clear_selection(&mut self)
        ensures
            final(self)@ == old(self)@.deselected(),
    {
        if self.selection_start.is_some() {
            self.selection_start = None;
            self.selection_end = None;
            self.selecting = false;
            self.dirty = true;
        }
    }

    /// Replaces the screen with a frame from the server.
    pub fn apply_frame(&mut self, frame: TerminalFrame)
        requires
            old(self).wf(),
        ensures
            final(self)@ == old(self)@.with_frame(frame@),
            final(self).wf(),
    {
        let cols: u16 = if frame.cols < 1 {
            1
        } else {
            frame.cols
        };
        let rows: u16 = if frame.rows < 1 {
            1
        } else {
            frame.rows
        };
        proof {
            lemma_area_bound(cols, rows);
        }
        let size_changed: bool = cols != self.cols || rows != self.rows;
        let expected: usize = cols as usize * rows as usize;
        let mut grid: Vec<Cell> = Vec::new();
        let mut i: usize = 0;
        while i < expected
            invariant
                i <= expected,
                grid@.len() == i,
                forall|j: int|
                    0 <= j < i ==> grid@[j] == (if j < frame.cells@.len() {
                        frame.cells@[j]
                    } else {
                        Cell::blank()
                    }),
            decreases expected - i,
        {
            if i < frame.cells.len() {
                grid.push(frame.cells[i]);
            } else {
                grid.push(Cell::default());
            }
            i = i + 1;
        }
        self.cols = cols;
        self.rows = rows;
        self.grid = grid;
        self.cursor.col = if frame.cursor_col <= cols - 1 {
            frame.cursor_col
        } else {
            cols - 1
        };
        self.cursor.row = if frame.cursor_row <= rows - 1 {
            frame.cursor_row
        } else {
            rows - 1
        };
        self.cursor.visible = frame.cursor_visible;
        if size_changed {
            self.clear_selection();
        }
        self.dirty = true;
        proof {
            let target = old(self)@.with_frame(frame@);
            assert(self@.grid =~= target.grid);
        }
    }

    /// Begins a selection at a position of the grid.
    pub fn start_selection(&mut self, col: u16, row: u16)
        ensures
            final(self)@ == old(self)@.selection_started(col, row),
    {
        if col < self.cols && row < self.rows {
            self.selection_start = Some((row, col));
            self.selection_end = Some((row, col));
            self.selecting = true;
            self.dirty = true;
        }
    }

    /// Drags the end of the selection to a position.
    pub fn update_selection(&mut self, col: u16, row: u16)
        requires
            old(self).wf(),
        ensures
            final(self)@ == old(self)@.selection_updated(col, row),
    {
        if self.selecting {
            let col: u16 = if col <= self.cols - 1 {
                col
            } else {
                self.cols - 1
            };
            let row: u16 = if row <= self.rows - 1 {
                row
            } else {
                self.rows - 1
            };
            if let Some(current) = self.selection_end {
                if current.0 != row || current.1 != col {
                    self.selection_end = Some((row, col));
                    self.dirty = true;
                }
            }
        }
    }

    /// Ends the dragging of the selection; the selection stays.
    pub fn end_selection(&mut self)
        ensures
            final(self)@ == (Screen { selecting: false, ..old(self)@ }),
    {
        self.selecting = false;
    }

    /// The selection with its two ends in reading order, as (row, column).
    pub fn selection_range(&self) -> (range: Option<((u16, u16), (u16, u16))>)
        ensures
            range == self@.selection_range(),
    {
        match (self.selection_start, self.selection_end) {
            (Some(start), Some(end)) => {
                if start.0 < end.0 || (start.0 == end.0 && start.1 <= end.1) {
                    Some((start, end))
                } else {
                    Some((end, start))
                }
            },
            _ => None,
        }
    }

    /// The selected text, with a line break between two rows.
    pub fn get_selection(&self) -> (text: Option<String>)
        requires
            self.wf(),
        ensures
            match text {
                Some(t) => self@.selected_text() == Some(t@),
                None => self@.selected_text() is None,
            },
    {
        let range = self.selection_range();
        let (start, end) = match range {
            Some(pair) => pair,
            None => {
                return None;
            },
        };
        let mut text: String = String::new();
        let mut count: usize = 0;
        let mut row: u32 = start.0 as u32;
        let last_row: u32 = end.0 as u32;
        while row <= last_row
            invariant
                self.wf(),
                start.0 <= row <= last_row + 1,
                last_row == end.0,
                text@ == self@.span_text(row as int - 1, start, end),
                count == 0 <==> text@.len() == 0,
            decreases last_row + 1 - row,
        {
            if row > start.0 as u32 {
                push_char(&mut text, '\n');
                count = 1;
            }
            let ghost lead = text@;
            let from: u32 = if row == start.0 as u32 {
                start.1 as u32
            } else {
                0
            };
            let to: u32 = if row == last_row {
                end.1 as u32
            } else {
                self.cols as u32 - 1
            };
            let mut col: u32 = from;
            while col <= to
                invariant
                    self.wf(),
                    row <= 65535,
                    to <= 65535,
                    from <= col <= to + 1 || (col == from && from > to),
                    text@ == lead + self@.row_text(row as int, from as int, col as int - 1),
                    count == 0 <==> text@.len() == 0,
                decreases to + 1 - col,
            {
                let found: Option<&Cell> = self.cell(col as u16, row as u16);
                if let Some(cell) = found {
                    push_char(&mut text, cell.c);
                    count = 1;
                }
                col = col + 1;
            }
            proof {
                if from > to {
                    assert(self@.row_text(row as int, from as int, to as int) =~= Seq::<
                        char,
                    >::empty());
                }
            }
            row = row + 1;
        }
        if count == 0 {
            None
        } else {
            Some(text)
        }
    }

    /// Takes the oldest reply that waits to be sent to the PTY, if any.
    pub fn take_response(&mut self) -> (reply: Option<Vec<u8>>)
        ensures
            match reply {
                Some(r) => old(self)@.responses.len() > 0 && r@ == old(self)@.responses[0]
                    && final(self)@ == (Screen {
                    responses: old(self)@.responses.drop_first(),
                    ..old(self)@
                }),
                None => old(self)@.responses.len() == 0 && final(self)@ == old(self)@,
            },
    {
        let reply = self.responses.pop_front();
        proof {
            if reply is Some {
                assert(self@.responses =~= old(self)@.responses.drop_first());
            }
        }
        reply
    }

    /// Every cell with its column and row, in row-major order.
    pub fn iter_cells(&self) -> (cells: Vec<(u16, u16, Cell)>)
        requires
            self.wf(),
        ensures
            cells@.len() == self@.grid.len(),
            forall|i: int|
                0 <= i < cells@.len() ==> #[trigger] cells@[i] == ((i % (self@.cols as int)) as u16, (i
                    / (self@.cols as int)) as u16, self@.grid[i]),
    {
        proof {
            lemma_area_bound(self.cols, self.rows);
        }
        let width: usize = self.cols as usize;
        let total: usize = self.grid.len();
        let mut cells: Vec<(u16, u16, Cell)> = Vec::new();
        let mut i: usize = 0;
        while i < total
            invariant
                i <= total,
                total == self.grid@.len(),
                total == self.cols as int * self.rows as int,
                width == self.cols,
                width >= 1,
                cells@.len() == i,
                forall|j: int|
                    0 <= j < i ==> #[trigger] cells@[j] == ((j % (self.cols as int)) as u16, (j / (
                    self.cols as int)) as u16, self.grid@[j]),
            decreases total - i,
        {
            let c: usize = i % width;
            let r: usize = i / width;
            proof {
                assert(r < self.rows) by (nonlinear_arith)
                    requires
                        i < self.cols as int * self.rows as int,
                        r == i as int / (self.cols as int),
                        self.cols >= 1,
                ;
            }
            cells.push((c as u16, r as u16, self.grid[i]));
            i = i + 1;
        }
        cells
    }
}

/// Appends a colour as six hexadecimal digits.
fn push_hex_color(out: &mut String, rgb: [u8; 3])
    ensures
        final(out)@ == old(out)@ + hex_color(rgb),
{
    let mut k: usize = 0;
    while k < 3
        invariant
            k <= 3,
            out@ == old(out)@ + (if k == 0 {
                Seq::<char>::empty()
            } else if k == 1 {
                hex_byte(rgb[0])
            } else if k == 2 {
                hex_byte(rgb[0]) + hex_byte(rgb[1])
            } else {
                hex_color(rgb)
            }),
        decreases 3 - k,
    {
        let b: u8 = rgb[k];
        let hi: u8 = b / 16;
        let lo: u8 = b % 16;
        push_char(out, if hi < 10 { (48 + hi) as char } else { (87 + hi) as char });
        push_char(out, if lo < 10 { (48 + lo) as char } else { (87 + lo) as char });
        k = k + 1;
    }
}

impl Terminal {
    /// The characters of a row as text; empty for a row outside the grid.
    pub fn debug_row(&self, row: u16) -> (text: String)
        requires
            self.wf(),
        ensures
            text@ == self@.row_text(row as int, 0, self@.cols - 1),
    {
        let mut text: String = String::new();
        if row >= self.rows {
            proof {
                lemma_row_outside_is_empty(self@, row as int, 0, self@.cols - 1);
            }
            return text;
        }
        let mut col: u32 = 0;
        while col < self.cols as u32
            invariant
                self.wf(),
                row < self.rows,
                col <= self.cols,
                text@ == self@.row_text(row as int, 0, col as int - 1),
            decreases self.cols - col,
        {
            let found: Option<&Cell> = self.cell(col as u16, row);
            match found {
                Some(cell) => {
                    push_char(&mut text, cell.c);
                },
                None => {
                    push_char(&mut text, ' ');
                },
            }
            col = col + 1;
        }
        text
    }

    /// A cell in words, with its colours in hexadecimal; empty for a
    /// position outside the grid.
    pub fn debug_cell(&self, col: u16, row: u16) -> (text: String)
        requires
            self.wf(),
        ensures
            text@ == (match self@.cell_at(col, row) {
                Some(cell) => cell_summary(cell),
                None => Seq::<char>::empty(),
            }),
    {
        let found: Option<&Cell> = self.cell(col, row);
        match found {
            Some(cell) => {
                let mut text: String = String::new();
                push_char(&mut text, cell.c);
                text.append(" fg=#");
                push_hex_color(&mut text, cell.fg);
                text.append(" bg=#");
                push_hex_color(&mut text, cell.bg);
                text
            },
            None => String::new(),
        }
    }
}

/// What the VT parser reports while it reads the PTY's bytes.
#[derive(Debug, PartialEq, Eq)]
pub enum VtEvent {
    /// A character to draw.
    Print(char),
    /// A control byte to carry out.
    Execute(u8),
    /// A control sequence: its parameters, each with its subparameters
    /// dropped, and its final character.
    Csi(Vec<u16>, char),
    /// An escape sequence: its final byte.
    Esc(u8),
}

impl View for VtEvent {
    type V = VtEventView;

    open spec fn view(&self) -> VtEventView {
        match *self {
            VtEvent::Print(c) => VtEventView::Print(c),
            VtEvent::Execute(byte) => VtEventView::Execute(byte),
            VtEvent::Csi(params, action) => VtEventView::Csi(params@, action),
            VtEvent::Esc(byte) => VtEventView::Esc(byte),
        }
    }
}

/// The events as contracts see them.
pub open spec fn events_view(events: Seq<VtEvent>) -> Seq<VtEventView> {
    Seq::new(events.len(), |i: int| events[i]@)
}

impl Terminal {
    /// Carries out what the parser read off a run of bytes from the PTY,
    /// in order, and marks the screen as changed.
    pub fn process(&mut self, events: &Vec<VtEvent>)
        requires
            old(self).wf(),
        ensures
            final(self)@ == old(self)@.processed(events_view(events@)),
            final(self).wf(),
    {
        let ghost all = events_view(events@);
        let mut i: usize = 0;
        while i < events.len()
            invariant
                i <= events@.len(),
                all == events_view(events@),
                self.wf(),
                self@ == old(self)@.after_events(all, i as int),
            decreases events@.len() - i,
        {
            assert(all[i as int] == events@[i as int]@);
            match &events[i] {
                VtEvent::Print(c) => self.print(*c),
                VtEvent::Execute(byte) => self.execute(*byte),
                VtEvent::Csi(params, action) => self.csi_dispatch(params.as_slice(), *action),
                VtEvent::Esc(byte) => self.esc_dispatch(*byte),
            }
            i = i + 1;
        }
        self.dirty = true;
    }
}

} // verus!
