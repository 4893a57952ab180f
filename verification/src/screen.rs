//! The client's screen as a mathematical model: the grid, the cursor, the
//! pen and the selection, and what each terminal operation makes of them.
//! The executable terminal is proved against this model.

use vstd::prelude::*;
use crate::color::{ansi_16, palette_256, DEFAULT_BG, DEFAULT_FG};
use crate::frame::{Cell, FrameView};

verus! {

/// Most lines that the scrollback keeps.
pub const MAX_SCROLLBACK: usize = 10000;

/// The cursor: where it is and whether it shows.
#[derive(Clone, Copy, Debug, PartialEq, Eq)]
pub struct Cursor {
    pub col: u16,
    pub row: u16,
    pub visible: bool,
}

impl Cursor {
    /// The cursor of a new screen: at the top left, visible.
    pub open spec fn home() -> Cursor {
        Cursor { col: 0, row: 0, visible: true }
    }
}

impl Default for Cursor {
    fn default() -> (cursor: Cursor)
        ensures
            cursor == Cursor::home(),
    {
        Cursor { col: 0, row: 0, visible: true }
    }
}

/// The attributes that the next character is written with.
#[derive(Clone, Copy, Debug, PartialEq, Eq)]
pub struct Pen {
    pub fg: [u8; 3],
    pub bg: [u8; 3],
    pub bold: bool,
    pub italic: bool,
    pub underline: bool,
    pub inverse: bool,
}

/// The least significant byte of a parameter.
pub open spec fn low_byte(p: u16) -> u8 {
    (p % 256) as u8
}

impl Pen {
    /// The pen after a reset: default colours, no attribute.
    pub open spec fn plain() -> Pen {
        Pen {
            fg: DEFAULT_FG,
            bg: DEFAULT_BG,
            bold: false,
            italic: false,
            underline: false,
            inverse: false,
        }
    }

    /// The cell that the pen writes for a character: under inverse the two
    /// colours change places.
    pub open spec fn cell(self, c: char) -> Cell {
        Cell {
            c,
            fg: if self.inverse { self.bg } else { self.fg },
            bg: if self.inverse { self.fg } else { self.bg },
            bold: self.bold,
            italic: self.italic,
            underline: self.underline,
            inverse: self.inverse,
        }
    }

    /// The pen after one plain SGR parameter, that is, any but 38 and 48.
    pub open spec fn with_attribute(self, p: u16) -> Pen {
        if p == 0 {
            Pen::plain()
        } else if p == 1 {
            Pen { bold: true, ..self }
        } else if p == 3 {
            Pen { italic: true, ..self }
        } else if p == 4 {
            Pen { underline: true, ..self }
        } else if p == 7 {
            Pen { inverse: true, ..self }
        } else if p == 22 {
            Pen { bold: false, ..self }
        } else if p == 23 {
            Pen { italic: false, ..self }
        } else if p == 24 {
            Pen { underline: false, ..self }
        } else if p == 27 {
            Pen { inverse: false, ..self }
        } else if 30 <= p <= 37 {
            Pen { fg: ansi_16(p - 30), ..self }
        } else if p == 39 {
            Pen { fg: DEFAULT_FG, ..self }
        } else if 90 <= p <= 97 {
            Pen { fg: ansi_16(p - 90 + 8), ..self }
        } else if 40 <= p <= 47 {
            Pen { bg: ansi_16(p - 40), ..self }
        } else if p == 49 {
            Pen { bg: DEFAULT_BG, ..self }
        } else if 100 <= p <= 107 {
            Pen { bg: ansi_16(p - 100 + 8), ..self }
        } else {
            self
        }
    }

    /// The colour that an extended colour parameter at position `i` selects,
    /// with the number of parameters it takes after the first: a palette
    /// index after `5`, three channels after `2`, and nothing where the
    /// parameters that follow are too few or of another kind.
    pub open spec fn extended_color(params: Seq<u16>, i: int) -> Option<([u8; 3], int)> {
        if params.len() > i + 2 && params[i + 1] == 5 {
            Some((palette_256(low_byte(params[i + 2])), 2int))
        } else if params.len() > i + 4 && params[i + 1] == 2 {
            Some(
                (
                    [low_byte(params[i + 2]), low_byte(params[i + 3]), low_byte(params[i + 4])],
                    4int,
                ),
            )
        } else {
            None
        }
    }

    /// The pen after the SGR parameters from position `i` on.
    pub open spec fn sgr_from(self, params: Seq<u16>, i: int) -> Pen
        decreases params.len() - i,
    {
        if i < 0 || i >= params.len() {
            self
        } else if params[i] == 38 || params[i] == 48 {
            match Self::extended_color(params, i) {
                Some((rgb, used)) => (if params[i] == 38 {
                    Pen { fg: rgb, ..self }
                } else {
                    Pen { bg: rgb, ..self }
                }).sgr_from(params, i + used + 1),
                None => self.sgr_from(params, i + 1),
            }
        } else {
            self.with_attribute(params[i]).sgr_from(params, i + 1)
        }
    }

    /// The pen after an SGR sequence; one without parameters resets it.
    pub open spec fn sgr(self, params: Seq<u16>) -> Pen {
        if params.len() == 0 {
            Pen::plain()
        } else {
            self.sgr_from(params, 0)
        }
    }
}

/// A row of `n` default cells.
pub open spec fn blank_cells(n: int) -> Seq<Cell> {
    Seq::new(n as nat, |i: int| Cell::blank())
}

/// The decimal digits of a number, as bytes.
pub open spec fn decimal(n: nat) -> Seq<u8>
    decreases n,
{
    if n < 10 {
        seq![(48 + n) as u8]
    } else {
        decimal(n / 10).push((48 + n % 10) as u8)
    }
}

/// The first parameter, or `default` where there is none.
pub open spec fn first_or(params: Seq<u16>, default: u16) -> u16 {
    if params.len() > 0 {
        params[0]
    } else {
        default
    }
}

/// The second parameter, or `default` where there is none.
pub open spec fn second_or(params: Seq<u16>, default: u16) -> u16 {
    if params.len() > 1 {
        params[1]
    } else {
        default
    }
}

/// A count parameter: the first one, where none or zero stands for one.
pub open spec fn count_param(params: Seq<u16>) -> u16 {
    if first_or(params, 1) < 1 {
        1
    } else {
        first_or(params, 1)
    }
}

/// The smaller of two numbers.
pub open spec fn least(a: int, b: int) -> int {
    if a <= b {
        a
    } else {
        b
    }
}

/// The report that answers a request for the cursor position: `ESC [ r ; c
/// R` with the row and column counted from one.
pub open spec fn position_report(cursor: Cursor) -> Seq<u8> {
    seq![0x1bu8, 0x5bu8] + decimal((cursor.row + 1) as nat) + seq![0x3bu8] + decimal(
        (cursor.col + 1) as nat,
    ) + seq![0x52u8]
}

/// The report that answers a request for the device status: `ESC [ 0 n`.
pub open spec fn status_report() -> Seq<u8> {
    seq![0x1bu8, 0x5bu8, 0x30u8, 0x6eu8]
}

/// The screen of the client's terminal.
pub struct Screen {
    pub cols: u16,
    pub rows: u16,
    /// The cells, in row-major order.
    pub grid: Seq<Cell>,
    pub cursor: Cursor,
    pub saved_cursor: Cursor,
    /// The screen changed since it was last drawn.
    pub dirty: bool,
    pub pen: Pen,
    /// Lines that scrolled off the top, oldest first.
    pub scrollback: Seq<Seq<Cell>>,
    /// Where the selection began and where it ends, as (row, column).
    pub selection_start: Option<(u16, u16)>,
    pub selection_end: Option<(u16, u16)>,
    /// A selection is being dragged.
    pub selecting: bool,
    /// Replies that wait to be sent to the PTY, oldest first.
    pub responses: Seq<Seq<u8>>,
}

impl Screen {
    /// The screen's invariant: at least one column and one row, a cell for
    /// every position, cursors that can still advance by one, and a
    /// scrollback within its limit.
    pub open spec fn wf(self) -> bool {
        &&& self.cols >= 1
        &&& self.rows >= 1
        &&& self.grid.len() == self.cols as int * self.rows as int
        &&& self.cursor.col < u16::MAX
        &&& self.cursor.row < u16::MAX
        &&& self.saved_cursor.col < u16::MAX
        &&& self.saved_cursor.row < u16::MAX
        &&& self.scrollback.len() <= MAX_SCROLLBACK
    }

    /// A new screen: all cells default, the cursor at home, nothing
    /// selected, marked as changed.
    pub open spec fn fresh(cols: u16, rows: u16) -> Screen {
        Screen {
            cols,
            rows,
            grid: blank_cells(cols as int * rows as int),
            cursor: Cursor::home(),
            saved_cursor: Cursor::home(),
            dirty: true,
            pen: Pen::plain(),
            scrollback: Seq::<Seq<Cell>>::empty(),
            selection_start: None,
            selection_end: None,
            selecting: false,
            responses: Seq::<Seq<u8>>::empty(),
        }
    }

    /// Whether a position lies in the grid.
    pub open spec fn in_grid(self, col: u16, row: u16) -> bool {
        col < self.cols && row < self.rows
    }

    /// The index of a position in the cell array.
    pub open spec fn offset(self, col: u16, row: u16) -> int {
        row as int * self.cols as int + col as int
    }

    /// The cell at a position, if the position lies in the grid.
    pub open spec fn cell_at(self, col: u16, row: u16) -> Option<Cell> {
        if self.in_grid(col, row) {
            Some(self.grid[self.offset(col, row)])
        } else {
            None
        }
    }

    /// The screen with one cell replaced; unchanged for a position outside
    /// the grid.
    pub open spec fn put(self, col: u16, row: u16, cell: Cell) -> Screen {
        if self.in_grid(col, row) {
            Screen { grid: self.grid.update(self.offset(col, row), cell), ..self }
        } else {
            self
        }
    }

    /// The screen with the cells of indices `from` up to `to` made default;
    /// both ends are cut to the grid.
    pub open spec fn erased(self, from: int, to: int) -> Screen {
        Screen {
            grid: Seq::new(
                self.grid.len(),
                |i: int|
                    if from <= i < to {
                        Cell::blank()
                    } else {
                        self.grid[i]
                    },
            ),
            ..self
        }
    }

    /// The index of the first cell of the cursor's row.
    pub open spec fn row_start(self) -> int {
        self.cursor.row as int * self.cols as int
    }

    /// From the cursor to the end of its line.
    pub open spec fn cleared_to_eol(self) -> Screen {
        self.erased(
            self.row_start() + least(self.cursor.col as int, self.cols as int),
            self.row_start() + self.cols,
        )
    }

    /// From the start of the cursor's line to the cursor, inclusive.
    pub open spec fn cleared_to_bol(self) -> Screen {
        self.erased(
            self.row_start(),
            self.row_start() + least(self.cursor.col as int + 1, self.cols as int),
        )
    }

    /// The cursor's line.
    pub open spec fn cleared_line(self) -> Screen {
        self.erased(self.row_start(), self.row_start() + self.cols)
    }

    /// From the cursor to the end of the screen.
    pub open spec fn cleared_to_eos(self) -> Screen {
        self.erased(
            self.row_start() + least(self.cursor.col as int, self.cols as int),
            self.grid.len() as int,
        )
    }

    /// From the start of the screen to the cursor, inclusive.
    pub open spec fn cleared_to_bos(self) -> Screen {
        self.erased(0, self.row_start() + least(self.cursor.col as int + 1, self.cols as int))
    }

    /// The whole screen.
    pub open spec fn cleared(self) -> Screen {
        self.erased(0, self.grid.len() as int)
    }

    /// The screen scrolled up by one line: the top line goes to the
    /// scrollback, which drops its oldest line when it is full, and a
    /// default line comes in at the bottom.
    pub open spec fn scrolled(self) -> Screen {
        let kept = if self.scrollback.len() >= MAX_SCROLLBACK {
            self.scrollback.drop_first()
        } else {
            self.scrollback
        };
        Screen {
            scrollback: kept.push(self.grid.subrange(0, self.cols as int)),
            grid: self.grid.subrange(self.cols as int, self.grid.len() as int) + blank_cells(
                self.cols as int,
            ),
            ..self
        }
    }

    /// The screen with the cursor moved down one line, scrolling when it
    /// leaves the bottom.
    pub open spec fn line_fed(self) -> Screen {
        if self.cursor.row + 1 >= self.rows {
            let s = self.scrolled();
            Screen { cursor: Cursor { row: (self.rows - 1) as u16, ..self.cursor }, ..s }
        } else {
            Screen { cursor: Cursor { row: (self.cursor.row + 1) as u16, ..self.cursor }, ..self }
        }
    }

    /// The screen with the cursor moved one cell on: at the end of a line
    /// it goes to the start of the next, scrolling at the bottom.
    pub open spec fn advanced(self) -> Screen {
        if self.cursor.col + 1 >= self.cols {
            Screen { cursor: Cursor { col: 0, ..self.cursor }, ..self }.line_fed()
        } else {
            Screen { cursor: Cursor { col: (self.cursor.col + 1) as u16, ..self.cursor }, ..self }
        }
    }

    /// The screen with the cursor moved one cell on, without scrolling: at
    /// the bottom right it goes to the start of the last line.
    pub open spec fn advanced_in_place(self) -> Screen {
        if self.cursor.col + 1 >= self.cols {
            Screen {
                cursor: Cursor {
                    col: 0,
                    row: least(self.cursor.row + 1, self.rows - 1) as u16,
                    ..self.cursor
                },
                ..self
            }
        } else {
            Screen { cursor: Cursor { col: (self.cursor.col + 1) as u16, ..self.cursor }, ..self }
        }
    }

    /// A character written at the cursor with the current pen.
    pub open spec fn printed(self, c: char) -> Screen {
        self.put(self.cursor.col, self.cursor.row, self.pen.cell(c)).advanced()
    }

    /// Whether a character is echoed before the server confirms it: only
    /// printable ASCII, and only while the cursor is in the grid.
    pub open spec fn predicts(self, c: char) -> bool {
        0x20 <= c as u32 <= 0x7e && self.in_grid(self.cursor.col, self.cursor.row)
    }

    /// A character echoed speculatively: written like any other, but
    /// without scrolling, and the screen marked as changed. A character
    /// that is not predicted leaves the screen as it is.
    pub open spec fn speculated(self, c: char) -> Screen {
        if self.predicts(c) {
            Screen {
                dirty: true,
                ..self.put(self.cursor.col, self.cursor.row, self.pen.cell(c)).advanced_in_place()
            }
        } else {
            self
        }
    }

    /// The cursor's column after a tab: the next multiple of eight, at most
    /// the last column.
    pub open spec fn tab_stop(self) -> u16 {
        least((self.cursor.col / 8 + 1) * 8, self.cols - 1) as u16
    }

    /// A control byte carried out: backspace, tab, the line feeds and
    /// carriage return; any other leaves the screen as it is.
    pub open spec fn executed(self, byte: u8) -> Screen {
        if byte == 0x08 {
            if self.cursor.col > 0 {
                Screen {
                    cursor: Cursor { col: (self.cursor.col - 1) as u16, ..self.cursor },
                    ..self
                }
            } else {
                self
            }
        } else if byte == 0x09 {
            Screen { cursor: Cursor { col: self.tab_stop(), ..self.cursor }, ..self }
        } else if 0x0a <= byte <= 0x0c {
            self.line_fed()
        } else if byte == 0x0d {
            Screen { cursor: Cursor { col: 0, ..self.cursor }, ..self }
        } else {
            self
        }
    }

    /// The screen with the cursor moved to a column and a row.
    pub open spec fn cursor_to(self, col: int, row: int) -> Screen {
        Screen { cursor: Cursor { col: col as u16, row: row as u16, ..self.cursor }, ..self }
    }

    /// The screen with one more reply waiting.
    pub open spec fn replied(self, reply: Seq<u8>) -> Screen {
        Screen { responses: self.responses.push(reply), ..self }
    }

    /// The cursor moved by one of the cursor sequences: up, down, forward
    /// and back by a count, never past an edge, or to a position counted
    /// from one and pulled into the grid.
    pub open spec fn cursor_moved(self, params: Seq<u16>, action: char) -> Screen {
        let n = count_param(params) as int;
        let cur = self.cursor;
        if action == 'A' {
            self.cursor_to(cur.col as int, if cur.row >= n { cur.row - n } else { 0 })
        } else if action == 'B' {
            self.cursor_to(cur.col as int, least(cur.row + n, self.rows - 1))
        } else if action == 'C' {
            self.cursor_to(least(cur.col + n, self.cols - 1), cur.row as int)
        } else if action == 'D' {
            self.cursor_to(if cur.col >= n { cur.col - n } else { 0 }, cur.row as int)
        } else {
            let row = n - 1;
            let col = (if second_or(params, 1) < 1 { 1int } else { second_or(params, 1) as int }) - 1;
            self.cursor_to(least(col, self.cols - 1), least(row, self.rows - 1))
        }
    }

    /// Erase in display: to the end of the screen, to its start, or all of
    /// it; any other mode erases nothing.
    pub open spec fn display_erased(self, mode: u16) -> Screen {
        if mode == 0 {
            self.cleared_to_eos()
        } else if mode == 1 {
            self.cleared_to_bos()
        } else if mode == 2 || mode == 3 {
            self.cleared()
        } else {
            self
        }
    }

    /// Erase in line: to the end of the line, to its start, or all of it;
    /// any other mode erases nothing.
    pub open spec fn line_erased(self, mode: u16) -> Screen {
        if mode == 0 {
            self.cleared_to_eol()
        } else if mode == 1 {
            self.cleared_to_bol()
        } else if mode == 2 {
            self.cleared_line()
        } else {
            self
        }
    }

    /// A device status request answered: code 5 with the status report,
    /// code 6 with the cursor position; any other is ignored.
    pub open spec fn reported(self, code: u16) -> Screen {
        if code == 5 {
            self.replied(status_report())
        } else if code == 6 {
            self.replied(position_report(self.cursor))
        } else {
            self
        }
    }

    /// A control sequence carried out, given its parameters and its final
    /// character. A sequence that is not known leaves the screen as it is.
    pub open spec fn dispatched(self, params: Seq<u16>, action: char) -> Screen {
        let cur = self.cursor;
        if action == 'A' || action == 'B' || action == 'C' || action == 'D' || action == 'H'
            || action == 'f' {
            self.cursor_moved(params, action)
        } else if action == 'J' {
            self.display_erased(first_or(params, 0))
        } else if action == 'K' {
            self.line_erased(first_or(params, 0))
        } else if action == 'm' {
            Screen { pen: self.pen.sgr(params), ..self }
        } else if action == 's' {
            Screen { saved_cursor: cur, ..self }
        } else if action == 'u' {
            Screen { cursor: self.saved_cursor, ..self }
        } else if action == 'h' && params.len() > 0 && params[0] == 25 {
            Screen { cursor: Cursor { visible: true, ..cur }, ..self }
        } else if action == 'l' && params.len() > 0 && params[0] == 25 {
            Screen { cursor: Cursor { visible: false, ..cur }, ..self }
        } else if action == 'n' {
            self.reported(first_or(params, 0))
        } else {
            self
        }
    }

    /// An escape sequence carried out, given its final byte: save and
    /// restore of the cursor, and the full reset.
    pub open spec fn escaped(self, byte: u8) -> Screen {
        if byte == 0x37 {
            Screen { saved_cursor: self.cursor, ..self }
        } else if byte == 0x38 {
            Screen { cursor: self.saved_cursor, ..self }
        } else if byte == 0x63 {
            Screen { cursor: Cursor::home(), pen: Pen::plain(), ..self.cleared() }
        } else {
            self
        }
    }

    /// The screen at a new size: the cells of the region that both sizes
    /// share stay where they are, the others are default; the cursor is
    /// pulled into the grid.
    pub open spec fn resized(self, cols: u16, rows: u16) -> Screen {
        Screen {
            cols,
            rows,
            grid: Seq::new(
                (cols as int * rows as int) as nat,
                |i: int|
                    if i % (cols as int) < self.cols && i / (cols as int) < self.rows {
                        self.grid[(i / (cols as int)) * self.cols + i % (cols as int)]
                    } else {
                        Cell::blank()
                    },
            ),
            cursor: Cursor {
                col: least(self.cursor.col as int, cols - 1) as u16,
                row: least(self.cursor.row as int, rows - 1) as u16,
                ..self.cursor
            },
            dirty: true,
            ..self
        }
    }

    /// The screen without its selection.
    pub open spec fn deselected(self) -> Screen {
        if self.selection_start is Some {
            Screen {
                selection_start: None,
                selection_end: None,
                selecting: false,
                dirty: true,
                ..self
            }
        } else {
            self
        }
    }

    /// The screen replaced by a frame from the server. A dimension of zero
    /// counts as one. Where the frame's cells do not fill its grid, they
    /// are laid from the start over default cells. A change of size drops
    /// the selection.
    pub open spec fn with_frame(self, frame: FrameView) -> Screen {
        let cols = if frame.cols < 1 { 1u16 } else { frame.cols };
        let rows = if frame.rows < 1 { 1u16 } else { frame.rows };
        let total = cols as int * rows as int;
        let placed = Screen {
            cols,
            rows,
            grid: Seq::new(
                total as nat,
                |i: int|
                    if i < frame.cells.len() {
                        frame.cells[i]
                    } else {
                        Cell::blank()
                    },
            ),
            cursor: Cursor {
                col: least(frame.cursor_col as int, cols - 1) as u16,
                row: least(frame.cursor_row as int, rows - 1) as u16,
                visible: frame.cursor_visible,
            },
            ..self
        };
        let settled = if cols != self.cols || rows != self.rows {
            placed.deselected()
        } else {
            placed
        };
        Screen { dirty: true, ..settled }
    }

    /// The screen with a selection begun at a position; unchanged for a
    /// position outside the grid.
    pub open spec fn selection_started(self, col: u16, row: u16) -> Screen {
        if self.in_grid(col, row) {
            Screen {
                selection_start: Some((row, col)),
                selection_end: Some((row, col)),
                selecting: true,
                dirty: true,
                ..self
            }
        } else {
            self
        }
    }

    /// The screen with the end of the selection dragged to a position,
    /// pulled into the grid; unchanged while nothing is being selected.
    pub open spec fn selection_updated(self, col: u16, row: u16) -> Screen {
        let to = (least(row as int, self.rows - 1) as u16, least(col as int, self.cols - 1) as u16);
        if self.selecting && self.selection_end is Some && self.selection_end != Some(to) {
            Screen { selection_end: Some(to), dirty: true, ..self }
        } else {
            self
        }
    }

    /// The selection with its two ends in reading order.
    pub open spec fn selection_range(self) -> Option<((u16, u16), (u16, u16))> {
        match (self.selection_start, self.selection_end) {
            (Some(start), Some(end)) => if start.0 < end.0 || (start.0 == end.0 && start.1
                <= end.1) {
                Some((start, end))
            } else {
                Some((end, start))
            },
            _ => None,
        }
    }

    /// The characters of one row from column `from` to column `to`,
    /// inclusive, as far as they lie in the grid.
    pub open spec fn row_text(self, row: int, from: int, to: int) -> Seq<char>
        decreases to - from + 1,
    {
        if from > to {
            Seq::<char>::empty()
        } else if 0 <= to < self.cols && 0 <= row < self.rows {
            self.row_text(row, from, to - 1).push(self.grid[row * self.cols + to].c)
        } else {
            self.row_text(row, from, to - 1)
        }
    }

    /// The part of row `row` that lies between two positions in reading
    /// order: from the first position's column in its own row, to the
    /// second's in its own, and the full width in the rows between.
    pub open spec fn span_line(self, row: int, start: (u16, u16), end: (u16, u16)) -> Seq<char> {
        self.row_text(
            row,
            if row == start.0 { start.1 as int } else { 0 },
            if row == end.0 { end.1 as int } else { self.cols - 1 },
        )
    }

    /// The text between two positions in reading order, up to and with row
    /// `upto`: the part of each row, with a line break between two rows.
    pub open spec fn span_text(self, upto: int, start: (u16, u16), end: (u16, u16)) -> Seq<char>
        decreases upto - start.0 + 1,
    {
        if upto < start.0 {
            Seq::<char>::empty()
        } else if upto == start.0 {
            self.span_line(upto, start, end)
        } else {
            self.span_text(upto - 1, start, end).push('\n') + self.span_line(upto, start, end)
        }
    }

    /// The selected text, if there is a selection and it is not empty.
    pub open spec fn selected_text(self) -> Option<Seq<char>> {
        match self.selection_range() {
            Some((start, end)) => {
                let text = self.span_text(end.0 as int, start, end);
                if text.len() == 0 {
                    None
                } else {
                    Some(text)
                }
            },
            None => None,
        }
    }
}

/// A row outside the grid has no text.
pub proof fn lemma_row_outside_is_empty(screen: Screen, row: int, from: int, to: int)
    requires
        row >= screen.rows || row < 0,
    ensures
        screen.row_text(row, from, to) == Seq::<char>::empty(),
    decreases to - from + 1,
{
    if from <= to {
        lemma_row_outside_is_empty(screen, row, from, to - 1);
    }
}

/// A lower-case hexadecimal digit for a number below sixteen.
pub open spec fn hex_digit(n: int) -> char {
    if n < 10 {
        (48 + n) as char
    } else {
        (87 + n) as char
    }
}

/// A byte as two lower-case hexadecimal digits.
pub open spec fn hex_byte(b: u8) -> Seq<char> {
    seq![hex_digit(b as int / 16), hex_digit(b as int % 16)]
}

/// A colour as six hexadecimal digits.
pub open spec fn hex_color(rgb: [u8; 3]) -> Seq<char> {
    hex_byte(rgb[0]) + hex_byte(rgb[1]) + hex_byte(rgb[2])
}

/// A cell in words: its character, then its two colours as
/// `fg=#rrggbb bg=#rrggbb`.
pub open spec fn cell_summary(cell: Cell) -> Seq<char> {
    seq![cell.c] + " fg=#"@ + hex_color(cell.fg) + " bg=#"@ + hex_color(cell.bg)
}

/// What the VT parser reports while it reads the PTY's bytes, as contracts
/// see it.
pub enum VtEventView {
    /// A character to draw.
    Print(char),
    /// A control byte to carry out.
    Execute(u8),
    /// A control sequence: its parameters and its final character.
    Csi(Seq<u16>, char),
    /// An escape sequence: its final byte.
    Esc(u8),
}

impl Screen {
    /// The screen after one event of the parser.
    pub open spec fn after_event(self, event: VtEventView) -> Screen {
        match event {
            VtEventView::Print(c) => self.printed(c),
            VtEventView::Execute(byte) => self.executed(byte),
            VtEventView::Csi(params, action) => self.dispatched(params, action),
            VtEventView::Esc(byte) => self.escaped(byte),
        }
    }

    /// The screen after the first `upto` events of a run, taken in order.
    pub open spec fn after_events(self, events: Seq<VtEventView>, upto: int) -> Screen
        decreases upto,
    {
        if upto <= 0 {
            self
        } else {
            self.after_events(events, upto - 1).after_event(events[upto - 1])
        }
    }

    /// The screen after a run of events, marked as changed.
    pub open spec fn processed(self, events: Seq<VtEventView>) -> Screen {
        Screen { dirty: true, ..self.after_events(events, events.len() as int) }
    }
}

} // verus!
