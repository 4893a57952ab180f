//! What a renderer draws for each cell, in plain values: whether a cell is
//! selected or under the cursor, which flags its instance carries, and the
//! runs of equally coloured text of the grid.

use vstd::prelude::*;
use crate::color::DEFAULT_BG;
use crate::frame::Cell;
use crate::screen::Screen;
use crate::terminal::Terminal;
use crate::text::{chars_of, push_char};

verus! {

/// Whether position `a` comes before `b` in reading order, or is `b`.
/// Positions are (row, column).
pub open spec fn position_le(a: (u16, u16), b: (u16, u16)) -> bool {
    a.0 < b.0 || (a.0 == b.0 && a.1 <= b.1)
}

/// Whether a position lies in the selection, both ends included.
pub open spec fn in_selection(
    selection: Option<((u16, u16), (u16, u16))>,
    row: u16,
    col: u16,
) -> bool {
    match selection {
        Some((start, end)) => position_le(start, (row, col)) && position_le((row, col), end),
        None => false,
    }
}

/// Whether the cell at a position is selected.
pub fn cell_selected(selection: Option<((u16, u16), (u16, u16))>, row: u16, col: u16) -> (selected:
    bool)
    ensures
        selected == in_selection(selection, row, col),
{
    match selection {
        Some((start, end)) => {
            let after_start: bool = start.0 < row || (start.0 == row && start.1 <= col);
            let before_end: bool = row < end.0 || (row == end.0 && col <= end.1);
            after_start && before_end
        },
        None => false,
    }
}

/// How one cell is painted.
#[derive(Clone, Copy, Debug, PartialEq, Eq, Structural)]
pub struct CellPaint {
    /// The background has to be drawn.
    pub has_bg: bool,
    pub is_cursor: bool,
    pub is_selected: bool,
    pub underline: bool,
}

impl CellPaint {
    /// The flags of the cell's instance: bit 0 for the background, bit 1 for
    /// the cursor, bit 2 for the selection, bit 3 for the underline.
    pub open spec fn flag_bits(self) -> u32 {
        ((if self.has_bg { 1int } else { 0int }) + (if self.is_cursor { 2int } else { 0int }) + (
        if self.is_selected { 4int } else { 0int }) + (if self.underline { 8int } else { 0int }))
            as u32
    }

    /// The flags of the cell's instance.
    pub fn flags(&self) -> (bits: u32)
        ensures
            bits == self.flag_bits(),
    {
        let mut bits: u32 = 0;
        if self.has_bg {
            bits = bits + 1;
        }
        if self.is_cursor {
            bits = bits + 2;
        }
        if self.is_selected {
            bits = bits + 4;
        }
        if self.underline {
            bits = bits + 8;
        }
        bits
    }
}

/// How the cell at a position is painted: the cursor shows on its cell
/// while it is visible, and a background is drawn for the cursor, for the
/// selection and for any colour but the default.
pub open spec fn paint_of(
    cell: Cell,
    col: u16,
    row: u16,
    cursor: (u16, u16),
    cursor_visible: bool,
    selection: Option<((u16, u16), (u16, u16))>,
) -> CellPaint {
    let is_cursor = cursor_visible && col == cursor.0 && row == cursor.1;
    let is_selected = in_selection(selection, row, col);
    CellPaint {
        has_bg: is_selected || is_cursor || cell.bg != DEFAULT_BG,
        is_cursor,
        is_selected,
        underline: cell.underline,
    }
}

/// Whether two colours are the same.
pub fn same_color(a: [u8; 3], b: [u8; 3]) -> (same: bool)
    ensures
        same == (a == b),
{
    let same: bool = a[0] == b[0] && a[1] == b[1] && a[2] == b[2];
    proof {
        if same {
            assert(a =~= b);
        }
    }
    same
}

/// Decides how the cell at a position is painted. `cursor` is the cursor's
/// column and row.
pub fn cell_paint(
    cell: &Cell,
    col: u16,
    row: u16,
    cursor: (u16, u16),
    cursor_visible: bool,
    selection: Option<((u16, u16), (u16, u16))>,
) -> (paint: CellPaint)
    ensures
        paint == paint_of(*cell, col, row, cursor, cursor_visible, selection),
{
    let is_cursor: bool = cursor_visible && col == cursor.0 && row == cursor.1;
    let is_selected: bool = cell_selected(selection, row, col);
    CellPaint {
        has_bg: is_selected || is_cursor || !same_color(cell.bg, DEFAULT_BG),
        is_cursor,
        is_selected,
        underline: cell.underline,
    }
}

/// A run of text in one colour; no colour for a run of line breaks alone.
pub type Span = (Seq<char>, Option<[u8; 3]>);

/// The spans as contracts see them.
pub open spec fn spans_view(spans: Seq<(String, Option<[u8; 3]>)>) -> Seq<Span> {
    Seq::new(spans.len(), |i: int| (spans[i].0@, spans[i].1))
}

/// The character drawn at a position: the cell's, or a space for a control
/// character and for a position outside the grid.
pub open spec fn glyph_char(screen: Screen, col: u16, row: u16) -> char {
    match screen.cell_at(col, row) {
        Some(cell) => if cell.c > ' ' {
            cell.c
        } else {
            ' '
        },
        None => ' ',
    }
}

/// The colour of the text at a position: the cursor's text colour under a
/// visible cursor, else the cell's foreground, or the default outside the
/// grid.
pub open spec fn glyph_color(
    screen: Screen,
    col: u16,
    row: u16,
    cursor_text: [u8; 3],
    default_fg: [u8; 3],
) -> [u8; 3] {
    if screen.cursor.visible && col == screen.cursor.col && row == screen.cursor.row {
        cursor_text
    } else {
        match screen.cell_at(col, row) {
            Some(cell) => cell.fg,
            None => default_fg,
        }
    }
}

/// A sequence of runs with one more character: it joins the last run if
/// that has its colour, else it begins a run.
pub open spec fn runs_with(runs: Seq<Span>, c: char, color: [u8; 3]) -> Seq<Span> {
    if runs.len() > 0 && runs.last().1 == Some(color) {
        runs.drop_last().push((runs.last().0.push(c), Some(color)))
    } else {
        runs.push((seq![c], Some(color)))
    }
}

/// The runs of equally coloured text of the first `upto` columns of a row.
pub open spec fn row_runs(
    screen: Screen,
    row: u16,
    upto: int,
    cursor_text: [u8; 3],
    default_fg: [u8; 3],
) -> Seq<Span>
    decreases upto,
{
    if upto <= 0 {
        Seq::<Span>::empty()
    } else {
        runs_with(
            row_runs(screen, row, upto - 1, cursor_text, default_fg),
            glyph_char(screen, (upto - 1) as u16, row),
            glyph_color(screen, (upto - 1) as u16, row, cursor_text, default_fg),
        )
    }
}

/// The runs of a finished line: a line break joins the last run, or stands
/// alone, without a colour, where the line has no column.
pub open spec fn line_closed(runs: Seq<Span>) -> Seq<Span> {
    if runs.len() == 0 {
        seq![(seq!['\n'], None::<[u8; 3]>)]
    } else {
        runs.drop_last().push((runs.last().0.push('\n'), runs.last().1))
    }
}

/// The spans of the first `upto` rows, each `cols` columns wide.
pub open spec fn grid_spans(
    screen: Screen,
    upto: int,
    cols: u16,
    cursor_text: [u8; 3],
    default_fg: [u8; 3],
) -> Seq<Span>
    decreases upto,
{
    if upto <= 0 {
        Seq::<Span>::empty()
    } else {
        grid_spans(screen, upto - 1, cols, cursor_text, default_fg) + line_closed(
            row_runs(screen, (upto - 1) as u16, cols as int, cursor_text, default_fg),
        )
    }
}

/// Splits the text of a grid of `cols × rows` positions into spans of one
/// colour each, line by line; every line ends with a line break.
pub fn text_spans(
    terminal: &Terminal,
    cols: u16,
    rows: u16,
    cursor_text: [u8; 3],
    default_fg: [u8; 3],
) -> (spans: Vec<(String, Option<[u8; 3]>)>)
    requires
        terminal.wf(),
    ensures
        spans_view(spans@) == grid_spans(terminal@, rows as int, cols, cursor_text, default_fg),
{
    let (cursor_col, cursor_row) = terminal.cursor_position();
    let cursor_visible: bool = terminal.cursor_visible();
    let mut spans: Vec<(String, Option<[u8; 3]>)> = Vec::new();
    let mut row: u16 = 0;
    while row < rows
        invariant
            terminal.wf(),
            row <= rows,
            cursor_col == terminal@.cursor.col,
            cursor_row == terminal@.cursor.row,
            cursor_visible == terminal@.cursor.visible,
            spans_view(spans@) == grid_spans(terminal@, row as int, cols, cursor_text, default_fg),
        decreases rows - row,
    {
        let ghost done = spans_view(spans@);
        let mut segment: String = String::new();
        let mut color: Option<[u8; 3]> = None;
        let mut col: u16 = 0;
        let ghost mut pushed: Seq<Span> = Seq::<Span>::empty();
        while col < cols
            invariant
                terminal.wf(),
                col <= cols,
                row < rows,
                cursor_col == terminal@.cursor.col,
                cursor_row == terminal@.cursor.row,
                cursor_visible == terminal@.cursor.visible,
                spans_view(spans@) == done + pushed,
                col == 0 ==> pushed.len() == 0 && segment@.len() == 0 && color is None,
                col > 0 ==> color is Some && segment@.len() > 0 && row_runs(
                    terminal@,
                    row,
                    col as int,
                    cursor_text,
                    default_fg,
                ) == pushed.push((segment@, color)),
            decreases cols - col,
        {
            let found: Option<&Cell> = terminal.cell(col, row);
            let (c, cell_fg) = match found {
                Some(cell) => (cell.c, cell.fg),
                None => (' ', default_fg),
            };
            let is_cursor: bool = cursor_visible && col == cursor_col && row == cursor_row;
            let fg: [u8; 3] = if is_cursor {
                cursor_text
            } else {
                cell_fg
            };
            let ch: char = if c > ' ' {
                c
            } else {
                ' '
            };
            let same: bool = match color {
                Some(current) => same_color(current, fg),
                None => false,
            };
            if !same {
                if col > 0 {
                    let ghost held = spans_view(spans@);
                    let ghost run: Span = (segment@, color);
                    spans.push((segment, color));
                    assert(spans_view(spans@) =~= held.push(run));
                    proof {
                        pushed = pushed.push(run);
                    }
                    segment = String::new();
                }
                color = Some(fg);
            }
            push_char(&mut segment, ch);
            proof {
                if col == 0 {
                    assert(segment@ =~= seq![ch]);
                }
            }
            col = col + 1;
        }
        let ghost runs = row_runs(terminal@, row, cols as int, cursor_text, default_fg);
        let ghost held = spans_view(spans@);
        push_char(&mut segment, '\n');
        let ghost run: Span = (segment@, color);
        spans.push((segment, color));
        proof {
            if cols == 0 {
                assert(run.0 =~= seq!['\n']);
            } else {
                assert(held.push(run) =~= done + line_closed(runs));
            }
        }
        row = row + 1;
    }
    spans
}

/// The value of a hexadecimal digit, in either case.
pub open spec fn hex_value(c: char) -> Option<u8> {
    if '0' <= c <= '9' {
        Some(((c as u8) - 48) as u8)
    } else if 'a' <= c <= 'f' {
        Some(((c as u8) - 87) as u8)
    } else if 'A' <= c <= 'F' {
        Some(((c as u8) - 55) as u8)
    } else {
        None
    }
}

/// The number that two characters stand for in base sixteen: two digits,
/// or a plus sign and one digit; zero for anything else.
pub open spec fn hex_pair(a: char, b: char) -> u8 {
    match (hex_value(a), hex_value(b)) {
        (Some(high), Some(low)) => (high * 16 + low) as u8,
        (None, Some(low)) => if a == '+' {
            low
        } else {
            0
        },
        _ => 0,
    }
}

/// The colour that a CSS colour of the form `#rrggbb` stands for; black
/// for any other text.
pub open spec fn css_color(text: Seq<char>) -> [u8; 3] {
    if text.len() == 7 && text[0] == '#' && forall|i: int| 0 <= i < 7 ==> (text[i] as u32) < 0x80 {
        [hex_pair(text[1], text[2]), hex_pair(text[3], text[4]), hex_pair(text[5], text[6])]
    } else {
        [0u8, 0u8, 0u8]
    }
}

/// The value of a hexadecimal digit.
fn hex_digit_value(c: char) -> (v: Option<u8>)
    ensures
        v == hex_value(c),
        v matches Some(d) ==> d < 16,
{
    if '0' <= c && c <= '9' {
        Some((c as u8) - 48)
    } else if 'a' <= c && c <= 'f' {
        Some((c as u8) - 87)
    } else if 'A' <= c && c <= 'F' {
        Some((c as u8) - 55)
    } else {
        None
    }
}

/// The number that two characters stand for in base sixteen.
fn hex_pair_value(a: char, b: char) -> (v: u8)
    ensures
        v == hex_pair(a, b),
{
    match (hex_digit_value(a), hex_digit_value(b)) {
        (Some(high), Some(low)) => high * 16 + low,
        (None, Some(low)) => if a == '+' {
            low
        } else {
            0
        },
        _ => 0,
    }
}

/// Reads a CSS colour of the form `#rrggbb`.
pub fn parse_hex_color(text: &str) -> (rgb: [u8; 3])
    ensures
        rgb == css_color(text@),
{
    let chars: Vec<char> = chars_of(text);
    if chars.len() != 7 || chars[0] != '#' {
        return [0, 0, 0];
    }
    let mut i: usize = 0;
    while i < 7
        invariant
            i <= 7,
            chars@.len() == 7,
            chars@ == text@,
            forall|j: int| 0 <= j < i ==> (chars@[j] as u32) < 0x80,
        decreases 7 - i,
    {
        if chars[i] as u32 >= 0x80 {
            return [0, 0, 0];
        }
        i = i + 1;
    }
    [
        hex_pair_value(chars[1], chars[2]),
        hex_pair_value(chars[3], chars[4]),
        hex_pair_value(chars[5], chars[6]),
    ]
}

} // verus!
