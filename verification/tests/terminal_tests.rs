use noirtty::frame::{Cell, TerminalFrame};
use noirtty::terminal::{Terminal, VtEvent};
use vte::{Params, Parser, Perform};

#[derive(Default)]
struct Recorder {
    events: Vec<VtEvent>,
}

impl Perform for Recorder {
    fn print(&mut self, c: char) {
        self.events.push(VtEvent::Print(c));
    }

    fn execute(&mut self, byte: u8) {
        self.events.push(VtEvent::Execute(byte));
    }

    fn csi_dispatch(&mut self, params: &Params, _intermediates: &[u8], _ignore: bool, action: char) {
        let params: Vec<u16> = params.iter().map(|p| p.first().copied().unwrap_or(0)).collect();
        self.events.push(VtEvent::Csi(params, action));
    }

    fn esc_dispatch(&mut self, _intermediates: &[u8], _ignore: bool, byte: u8) {
        self.events.push(VtEvent::Esc(byte));
    }
}

fn process(terminal: &mut Terminal, parser: &mut Parser, data: &[u8]) {
    let mut recorder = Recorder::default();
    parser.advance(&mut recorder, data);
    terminal.process(&recorder.events);
}

fn type_text(terminal: &mut Terminal, text: &str) {
    for c in text.chars() {
        terminal.print(c);
    }
}

fn row_of(terminal: &Terminal, row: u16) -> String {
    terminal.debug_row(row)
}

const FG: [u8; 3] = [229, 229, 229];
const BG: [u8; 3] = [30, 30, 30];

#[test]
fn test_vte_parser() {
    let mut terminal = Terminal::new(80, 24);
    let mut parser = Parser::new();
    process(&mut terminal, &mut parser, b"\x1b[31mA\x1b[0mB");
    let a = *terminal.cell(0, 0).unwrap();
    let b = *terminal.cell(1, 0).unwrap();
    assert_eq!((a.c, a.fg), ('A', [205, 49, 49]));
    assert_eq!((b.c, b.fg), ('B', FG));
    assert_eq!(terminal.cursor_position(), (2, 0));

    // A sequence split over two reads is carried out once it is complete.
    process(&mut terminal, &mut parser, b"\x1b[5;");
    assert_eq!(terminal.cursor_position(), (2, 0));
    process(&mut terminal, &mut parser, b"10HZ");
    assert_eq!(terminal.cell(9, 4).unwrap().c, 'Z');
    assert_eq!(terminal.cursor_position(), (10, 4));

    // Private modes, cursor report and a multi-byte character.
    process(&mut terminal, &mut parser, b"\x1b[?25l");
    assert!(!terminal.cursor_visible());
    process(&mut terminal, &mut parser, b"\x1b[?25h\x1b[6n");
    assert!(terminal.cursor_visible());
    assert_eq!(terminal.take_response(), Some(b"\x1b[5;11R".to_vec()));
    assert_eq!(terminal.take_response(), None);
    process(&mut terminal, &mut parser, "\r\né".as_bytes());
    assert_eq!(terminal.cell(0, 5).unwrap().c, 'é');
    assert!(terminal.is_dirty());
}

#[test]
fn test_cursor_movement() {
    let mut t = Terminal::new(80, 24);
    assert_eq!(t.cursor_position(), (0, 0));
    assert!(t.cursor_visible());
    t.csi_dispatch(&[5, 10], 'H');
    assert_eq!(t.cursor_position(), (9, 4));
    t.csi_dispatch(&[2], 'A');
    assert_eq!(t.cursor_position(), (9, 2));
    t.csi_dispatch(&[10], 'A');
    assert_eq!(t.cursor_position(), (9, 0));
    t.csi_dispatch(&[], 'B');
    assert_eq!(t.cursor_position(), (9, 1));
    t.csi_dispatch(&[0], 'B');
    assert_eq!(t.cursor_position(), (9, 2));
    t.csi_dispatch(&[65535], 'B');
    assert_eq!(t.cursor_position(), (9, 23));
    t.csi_dispatch(&[3], 'C');
    assert_eq!(t.cursor_position(), (12, 23));
    t.csi_dispatch(&[65535], 'C');
    assert_eq!(t.cursor_position(), (79, 23));
    t.csi_dispatch(&[9], 'D');
    assert_eq!(t.cursor_position(), (70, 23));
    t.csi_dispatch(&[100], 'D');
    assert_eq!(t.cursor_position(), (0, 23));
    t.csi_dispatch(&[], 'H');
    assert_eq!(t.cursor_position(), (0, 0));
    t.csi_dispatch(&[3], 'f');
    assert_eq!(t.cursor_position(), (0, 2));
    t.csi_dispatch(&[500, 500], 'H');
    assert_eq!(t.cursor_position(), (79, 23));

    // Save and restore, both ways.
    t.csi_dispatch(&[4, 4], 'H');
    t.csi_dispatch(&[], 's');
    t.csi_dispatch(&[1, 1], 'H');
    t.csi_dispatch(&[], 'u');
    assert_eq!(t.cursor_position(), (3, 3));
    t.esc_dispatch(b'7');
    t.csi_dispatch(&[9, 9], 'H');
    t.esc_dispatch(b'8');
    assert_eq!(t.cursor_position(), (3, 3));

    // Control bytes.
    t.execute(0x0d);
    assert_eq!(t.cursor_position(), (0, 3));
    t.execute(0x08);
    assert_eq!(t.cursor_position(), (0, 3));
    t.execute(0x09);
    assert_eq!(t.cursor_position(), (8, 3));
    t.execute(0x09);
    assert_eq!(t.cursor_position(), (16, 3));
    t.execute(0x08);
    assert_eq!(t.cursor_position(), (15, 3));
    t.csi_dispatch(&[1, 78], 'H');
    t.execute(0x09);
    assert_eq!(t.cursor_position(), (79, 0));
    t.execute(0x0a);
    assert_eq!(t.cursor_position(), (79, 1));
    t.execute(0x0b);
    t.execute(0x0c);
    assert_eq!(t.cursor_position(), (79, 3));
    t.execute(0x07);
    assert_eq!(t.cursor_position(), (79, 3));

    // Show and hide need the parameter 25.
    t.csi_dispatch(&[25], 'l');
    assert!(!t.cursor_visible());
    t.csi_dispatch(&[7], 'h');
    assert!(!t.cursor_visible());
    t.csi_dispatch(&[25], 'h');
    assert!(t.cursor_visible());
}

#[test]
fn test_text_attributes() {
    let mut t = Terminal::new(80, 24);
    t.csi_dispatch(&[1, 3, 4, 31, 44], 'm');
    t.print('A');
    let a = *t.cell(0, 0).unwrap();
    assert_eq!(
        a,
        Cell {
            c: 'A',
            fg: [205, 49, 49],
            bg: [36, 114, 200],
            bold: true,
            italic: true,
            underline: true,
            inverse: false
        }
    );
    t.csi_dispatch(&[22, 23, 24], 'm');
    t.print('B');
    let b = *t.cell(1, 0).unwrap();
    assert!(!b.bold && !b.italic && !b.underline);
    assert_eq!(b.fg, [205, 49, 49]);

    // Inverse swaps the colours that are written, and 27 undoes it.
    t.csi_dispatch(&[0], 'm');
    t.csi_dispatch(&[7], 'm');
    t.print('X');
    let x = *t.cell(2, 0).unwrap();
    assert_eq!((x.fg, x.bg, x.inverse), (BG, FG, true));
    t.csi_dispatch(&[27], 'm');
    t.print('Y');
    let y = *t.cell(3, 0).unwrap();
    assert_eq!((y.fg, y.bg, y.inverse), (FG, BG, false));

    // The palette and direct colours, in one sequence.
    t.csi_dispatch(&[38, 5, 196, 48, 2, 1, 2, 3], 'm');
    t.print('C');
    let c = *t.cell(4, 0).unwrap();
    assert_eq!(c.fg, [255, 0, 0]);
    assert_eq!(c.bg, [1, 2, 3]);
    // Channels and indices keep their low byte only.
    t.csi_dispatch(&[38, 2, 256, 257, 511, 48, 5, 257], 'm');
    t.print('D');
    let d = *t.cell(5, 0).unwrap();
    assert_eq!(d.fg, [0, 1, 255]);
    assert_eq!(d.bg, [205, 49, 49]);
    // An extended colour without its parameters changes nothing.
    t.csi_dispatch(&[0], 'm');
    t.csi_dispatch(&[38, 5], 'm');
    t.csi_dispatch(&[48, 2, 1, 2], 'm');
    t.print('E');
    let e = *t.cell(6, 0).unwrap();
    assert_eq!((e.fg, e.bg, e.bold), (FG, BG, true));

    // Bright colours, defaults, and the reset without parameters.
    t.csi_dispatch(&[97, 100], 'm');
    t.print('F');
    let f = *t.cell(7, 0).unwrap();
    assert_eq!((f.fg, f.bg), ([255, 255, 255], [102, 102, 102]));
    t.csi_dispatch(&[39, 49], 'm');
    t.print('G');
    let g = *t.cell(8, 0).unwrap();
    assert_eq!((g.fg, g.bg), (FG, BG));
    t.csi_dispatch(&[1, 35], 'm');
    t.csi_dispatch(&[], 'm');
    t.print('H');
    assert_eq!(*t.cell(9, 0).unwrap(), Cell { c: 'H', ..Cell::default() });
    t.csi_dispatch(&[90, 107], 'm');
    t.print('I');
    let i = *t.cell(10, 0).unwrap();
    assert_eq!((i.fg, i.bg), ([102, 102, 102], [255, 255, 255]));
    t.csi_dispatch(&[30, 47], 'm');
    t.print('J');
    let j = *t.cell(11, 0).unwrap();
    assert_eq!((j.fg, j.bg), ([0, 0, 0], [229, 229, 229]));
    // An unknown attribute is ignored.
    t.csi_dispatch(&[0, 5, 99], 'm');
    t.print('K');
    assert_eq!(*t.cell(12, 0).unwrap(), Cell { c: 'K', ..Cell::default() });
}

#[test]
fn test_screen_buffer() {
    let mut t = Terminal::new(4, 3);
    assert_eq!(t.cols(), 4);
    assert_eq!(t.rows(), 3);
    assert!(t.is_dirty());
    t.mark_clean();
    assert!(!t.is_dirty());
    type_text(&mut t, "abcdefghij");
    assert_eq!(row_of(&t, 0), "abcd");
    assert_eq!(row_of(&t, 1), "efgh");
    assert_eq!(row_of(&t, 2), "ij  ");
    assert_eq!(row_of(&t, 3), "");
    assert_eq!(t.cursor_position(), (2, 2));
    assert!(t.cell(4, 0).is_none());
    assert!(t.cell(0, 3).is_none());
    assert_eq!(t.cell(3, 1).unwrap().c, 'h');

    let cells = t.iter_cells();
    assert_eq!(cells.len(), 12);
    assert_eq!((cells[0].0, cells[0].1, cells[0].2.c), (0, 0, 'a'));
    assert_eq!((cells[5].0, cells[5].1, cells[5].2.c), (1, 1, 'f'));
    assert_eq!((cells[11].0, cells[11].1, cells[11].2.c), (3, 2, ' '));

    // Erase in line, from the middle of the second row.
    t.csi_dispatch(&[2, 2], 'H');
    t.csi_dispatch(&[0], 'K');
    assert_eq!(row_of(&t, 1), "e   ");
    assert_eq!(row_of(&t, 0), "abcd");
    type_text(&mut t, "fgh");
    t.csi_dispatch(&[2, 2], 'H');
    t.csi_dispatch(&[1], 'K');
    assert_eq!(row_of(&t, 1), "  gh");
    t.csi_dispatch(&[2], 'K');
    assert_eq!(row_of(&t, 1), "    ");
    t.csi_dispatch(&[9], 'K');
    assert_eq!(row_of(&t, 0), "abcd");
    assert_eq!(row_of(&t, 2), "ij  ");

    // Erase in display.
    let mut t = Terminal::new(4, 3);
    type_text(&mut t, "abcdefghijk");
    t.csi_dispatch(&[2, 3], 'H');
    t.csi_dispatch(&[], 'J');
    assert_eq!((row_of(&t, 0), row_of(&t, 1), row_of(&t, 2)), ("abcd".into(), "ef  ".into(), "    ".into()));
    let mut t = Terminal::new(4, 3);
    type_text(&mut t, "abcdefghijk");
    t.csi_dispatch(&[2, 3], 'H');
    t.csi_dispatch(&[1], 'J');
    assert_eq!((row_of(&t, 0), row_of(&t, 1), row_of(&t, 2)), ("    ".into(), "   h".into(), "ijk ".into()));
    t.csi_dispatch(&[7], 'J');
    assert_eq!(row_of(&t, 2), "ijk ");
    t.csi_dispatch(&[3], 'J');
    assert_eq!((row_of(&t, 1), row_of(&t, 2)), ("    ".into(), "    ".into()));
    type_text(&mut t, "z");
    t.csi_dispatch(&[2], 'J');
    assert_eq!(row_of(&t, 1), "    ");
    assert_eq!(t.cursor_position(), (3, 1));

    // The full reset clears the screen, the cursor and the pen.
    t.csi_dispatch(&[31, 7], 'm');
    type_text(&mut t, "q");
    t.csi_dispatch(&[25], 'l');
    t.esc_dispatch(b'c');
    assert_eq!(t.cursor_position(), (0, 0));
    assert!(t.cursor_visible());
    t.print('r');
    assert_eq!(*t.cell(0, 0).unwrap(), Cell { c: 'r', ..Cell::default() });
    assert_eq!(row_of(&t, 1), "    ");
    t.esc_dispatch(b'x');
    assert_eq!(row_of(&t, 0), "r   ");

    assert_eq!(t.debug_cell(0, 0), "r fg=#e5e5e5 bg=#1e1e1e");
    assert_eq!(t.debug_cell(4, 0), "");
}

#[test]
fn test_scrollback() {
    let mut t = Terminal::new(3, 2);
    type_text(&mut t, "abcde");
    assert_eq!((row_of(&t, 0), row_of(&t, 1)), ("abc".into(), "de ".into()));
    // The sixth character fills the grid: the screen scrolls by one line.
    t.print('f');
    assert_eq!((row_of(&t, 0), row_of(&t, 1)), ("def".into(), "   ".into()));
    assert_eq!(t.cursor_position(), (0, 1));
    // A line feed on the last row scrolls too and keeps the column.
    type_text(&mut t, "gh");
    t.execute(0x0a);
    assert_eq!((row_of(&t, 0), row_of(&t, 1)), ("gh ".into(), "   ".into()));
    assert_eq!(t.cursor_position(), (2, 1));
    // Cells that scroll in are default cells, whatever the pen is.
    t.csi_dispatch(&[41], 'm');
    t.execute(0x0a);
    assert_eq!(*t.cell(0, 1).unwrap(), Cell::default());
    // Far more lines than the scrollback keeps.
    let mut t = Terminal::new(2, 1);
    for _ in 0..10_050 {
        t.print('x');
        t.execute(0x0a);
    }
    assert_eq!(row_of(&t, 0), "  ");
    assert_eq!(t.cursor_position(), (0, 0));
}

#[test]
fn test_resize() {
    let mut t = Terminal::new(4, 3);
    type_text(&mut t, "abcdefghijk");
    t.mark_clean();
    t.resize(2, 2);
    assert_eq!((t.cols(), t.rows()), (2, 2));
    assert_eq!((row_of(&t, 0), row_of(&t, 1)), ("ab".into(), "ef".into()));
    assert_eq!(t.iter_cells().len(), 4);
    assert_eq!(t.cursor_position(), (1, 1));
    assert!(t.is_dirty());
    t.resize(5, 3);
    assert_eq!(t.iter_cells().len(), 15);
    assert_eq!((row_of(&t, 0), row_of(&t, 1), row_of(&t, 2)), ("ab   ".into(), "ef   ".into(), "     ".into()));
    assert_eq!(t.cursor_position(), (1, 1));
    t.resize(1, 1);
    assert_eq!(row_of(&t, 0), "a");
    assert_eq!(t.cursor_position(), (0, 0));
    t.print('z');
    assert_eq!(row_of(&t, 0), " ");
    t.resize(300, 200);
    assert_eq!(t.iter_cells().len(), 60_000);
}

fn frame_of(cols: u16, rows: u16, text: &str) -> TerminalFrame {
    let mut cells: Vec<Cell> = text.chars().map(|c| Cell { c, ..Cell::default() }).collect();
    cells.resize(cols as usize * rows as usize, Cell::default());
    TerminalFrame { cols, rows, cursor_col: 1, cursor_row: 1, cursor_visible: true, cells }
}

#[test]
fn apply_frame_replaces_the_screen() {
    let mut t = Terminal::new(4, 3);
    type_text(&mut t, "old");
    t.start_selection(0, 0);
    t.mark_clean();
    t.apply_frame(frame_of(4, 3, "new!"));
    assert_eq!(row_of(&t, 0), "new!");
    assert_eq!(t.cursor_position(), (1, 1));
    assert!(t.is_dirty());
    // Same size: the selection stays.
    assert_eq!(t.selection_range(), Some(((0, 0), (0, 0))));
    // Another size: the selection goes.
    t.apply_frame(frame_of(2, 2, "wxyz"));
    assert_eq!((t.cols(), t.rows()), (2, 2));
    assert_eq!((row_of(&t, 0), row_of(&t, 1)), ("wx".into(), "yz".into()));
    assert_eq!(t.selection_range(), None);
}

#[test]
fn apply_frame_mends_a_malformed_frame() {
    let mut t = Terminal::new(4, 3);
    // Too few cells: laid over default cells. The cursor is pulled in.
    let short = TerminalFrame {
        cols: 3,
        rows: 2,
        cursor_col: 9,
        cursor_row: 9,
        cursor_visible: false,
        cells: vec![Cell { c: 'a', ..Cell::default() }; 2],
    };
    t.apply_frame(short);
    assert_eq!((row_of(&t, 0), row_of(&t, 1)), ("aa ".into(), "   ".into()));
    assert_eq!(t.cursor_position(), (2, 1));
    assert!(!t.cursor_visible());
    // Too many cells: the first ones are taken.
    let long = TerminalFrame {
        cols: 2,
        rows: 1,
        cursor_col: 0,
        cursor_row: 0,
        cursor_visible: true,
        cells: "abcdef".chars().map(|c| Cell { c, ..Cell::default() }).collect(),
    };
    t.apply_frame(long);
    assert_eq!(row_of(&t, 0), "ab");
    // A dimension of zero counts as one.
    let empty = TerminalFrame {
        cols: 0,
        rows: 0,
        cursor_col: 0,
        cursor_row: 0,
        cursor_visible: true,
        cells: Vec::new(),
    };
    t.apply_frame(empty);
    assert_eq!((t.cols(), t.rows()), (1, 1));
    assert_eq!(row_of(&t, 0), " ");
}

#[test]
fn selection_gives_its_text() {
    let mut t = Terminal::new(4, 3);
    type_text(&mut t, "abcdefghijk");
    assert_eq!(t.get_selection(), None);
    t.update_selection(2, 2);
    assert_eq!(t.selection_range(), None);
    t.start_selection(9, 0);
    assert_eq!(t.selection_range(), None);
    t.mark_clean();
    t.start_selection(1, 0);
    assert!(t.is_dirty());
    assert_eq!(t.get_selection(), Some("b".to_string()));
    t.update_selection(2, 1);
    assert_eq!(t.selection_range(), Some(((0, 1), (1, 2))));
    assert_eq!(t.get_selection(), Some("bcd\nefg".to_string()));
    // Dragging beyond the grid ends at its edge.
    t.update_selection(50, 50);
    assert_eq!(t.selection_range(), Some(((0, 1), (2, 3))));
    assert_eq!(t.get_selection(), Some("bcd\nefgh\nijk ".to_string()));
    // Dragging back before the start: the range comes out in order.
    t.mark_clean();
    t.update_selection(0, 0);
    assert!(t.is_dirty());
    assert_eq!(t.selection_range(), Some(((0, 0), (0, 1))));
    assert_eq!(t.get_selection(), Some("ab".to_string()));
    t.mark_clean();
    t.update_selection(0, 0);
    assert!(!t.is_dirty());
    t.end_selection();
    t.update_selection(3, 2);
    assert_eq!(t.get_selection(), Some("ab".to_string()));
    t.clear_selection();
    assert!(t.is_dirty());
    assert_eq!(t.get_selection(), None);
    t.mark_clean();
    t.clear_selection();
    assert!(!t.is_dirty());
}

#[test]
fn speculative_echo_predicts_printable_ascii_only() {
    let mut t = Terminal::new(2, 2);
    t.mark_clean();
    assert!(!t.write_char_speculative('\n'));
    assert!(!t.write_char_speculative('é'));
    assert!(!t.write_char_speculative('\x7f'));
    assert!(!t.is_dirty());
    assert!(t.write_char_speculative(' '));
    assert!(t.is_dirty());
    assert!(t.write_char_speculative('~'));
    assert_eq!(t.cursor_position(), (0, 1));
    assert!(t.write_char_speculative('a'));
    assert!(t.write_char_speculative('b'));
    // At the bottom right the cursor goes back without scrolling.
    assert_eq!(t.cursor_position(), (0, 1));
    assert_eq!((row_of(&t, 0), row_of(&t, 1)), (" ~".into(), "ab".into()));
    t.csi_dispatch(&[7, 32], 'm');
    assert!(t.write_char_speculative('c'));
    let c = *t.cell(0, 1).unwrap();
    assert_eq!((c.c, c.fg, c.bg, c.inverse), ('c', BG, [13, 188, 121], true));
}

#[test]
fn status_reports_queue_their_replies() {
    let mut t = Terminal::new(80, 24);
    t.csi_dispatch(&[5], 'n');
    t.csi_dispatch(&[24, 80], 'H');
    t.csi_dispatch(&[6], 'n');
    t.csi_dispatch(&[7], 'n');
    t.csi_dispatch(&[], 'n');
    assert_eq!(t.take_response(), Some(b"\x1b[0n".to_vec()));
    assert_eq!(t.take_response(), Some(b"\x1b[24;80R".to_vec()));
    assert_eq!(t.take_response(), None);
}

#[test]
fn restored_cursor_outside_a_shrunk_grid_writes_nothing() {
    let mut t = Terminal::new(4, 3);
    t.csi_dispatch(&[3, 4], 'H');
    t.csi_dispatch(&[], 's');
    t.resize(2, 2);
    t.csi_dispatch(&[], 'u');
    assert_eq!(t.cursor_position(), (3, 2));
    assert!(!t.write_char_speculative('a'));
    t.csi_dispatch(&[0], 'K');
    t.csi_dispatch(&[1], 'K');
    t.csi_dispatch(&[2], 'K');
    t.csi_dispatch(&[0], 'J');
    t.print('x');
    assert_eq!((row_of(&t, 0), row_of(&t, 1)), ("  ".into(), "  ".into()));
    assert_eq!(t.cursor_position(), (0, 1));
}

#[test]
fn process_carries_out_events_in_order() {
    let mut t = Terminal::new(4, 2);
    t.mark_clean();
    t.process(&Vec::new());
    assert!(t.is_dirty());
    t.mark_clean();
    t.process(&vec![
        VtEvent::Csi(vec![31], 'm'),
        VtEvent::Print('a'),
        VtEvent::Execute(0x0d),
        VtEvent::Execute(0x0a),
        VtEvent::Csi(vec![], 'm'),
        VtEvent::Print('b'),
        VtEvent::Esc(b'7'),
        VtEvent::Csi(vec![1, 4], 'H'),
        VtEvent::Print('c'),
        VtEvent::Esc(b'8'),
        VtEvent::Print('d'),
    ]);
    assert!(t.is_dirty());
    assert_eq!((row_of(&t, 0), row_of(&t, 1)), ("a  c".into(), "bd  ".into()));
    assert_eq!(t.cell(0, 0).unwrap().fg, [205, 49, 49]);
    assert_eq!(t.cell(0, 1).unwrap().fg, FG);
    assert_eq!(t.cursor_position(), (2, 1));
}
