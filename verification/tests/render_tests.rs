use noirtty::frame::Cell;
use noirtty::render::{cell_paint, cell_selected, parse_hex_color, same_color, text_spans, CellPaint};
use noirtty::terminal::Terminal;

#[test]
fn selection_runs_in_reading_order() {
    let selection = Some(((1, 3), (3, 1)));
    let picked: Vec<(u16, u16)> =
        (0..5).flat_map(|row| (0..5).map(move |col| (row, col))).filter(|&(row, col)| cell_selected(selection, row, col)).collect();
    assert_eq!(picked, vec![(1, 3), (1, 4), (2, 0), (2, 1), (2, 2), (2, 3), (2, 4), (3, 0), (3, 1)]);
    assert!(!cell_selected(None, 0, 0));
    assert!(cell_selected(Some(((2, 2), (2, 2))), 2, 2));
    assert!(!cell_selected(Some(((2, 2), (2, 2))), 2, 3));
    // A range whose ends are out of order selects nothing.
    assert!(!cell_selected(Some(((3, 1), (1, 3))), 2, 0));
    for row in 0..4u16 {
        for col in 0..4u16 {
            let (start, end) = ((1u16, 2u16), (2u16, 1u16));
            assert_eq!(cell_selected(Some((start, end)), row, col), (row, col) >= start && (row, col) <= end);
        }
    }
}

#[test]
fn paint_flags() {
    let plain = Cell::default();
    let paint = cell_paint(&plain, 1, 1, (0, 0), true, None);
    assert_eq!(paint, CellPaint { has_bg: false, is_cursor: false, is_selected: false, underline: false });
    assert_eq!(paint.flags(), 0);
    let paint = cell_paint(&plain, 0, 0, (0, 0), true, None);
    assert_eq!(paint.flags(), 0b0011);
    assert_eq!(cell_paint(&plain, 0, 0, (0, 0), false, None).flags(), 0);
    assert_eq!(cell_paint(&plain, 0, 1, (0, 0), true, None).flags(), 0);
    let paint = cell_paint(&plain, 2, 0, (0, 0), true, Some(((0, 1), (0, 5))));
    assert_eq!(paint.flags(), 0b0101);
    let styled = Cell { bg: [30, 30, 31], underline: true, ..Cell::default() };
    assert_eq!(cell_paint(&styled, 3, 3, (0, 0), true, None).flags(), 0b1001);
    assert_eq!(cell_paint(&styled, 0, 0, (0, 0), true, Some(((0, 0), (0, 0)))).flags(), 0b1111);
    for bits in 0..16u32 {
        let paint = CellPaint {
            has_bg: bits & 1 != 0,
            is_cursor: bits & 2 != 0,
            is_selected: bits & 4 != 0,
            underline: bits & 8 != 0,
        };
        assert_eq!(paint.flags(), bits);
    }
    assert!(same_color([1, 2, 3], [1, 2, 3]));
    assert!(!same_color([1, 2, 3], [1, 2, 4]));
    assert!(!same_color([0, 2, 3], [1, 2, 3]));
}

fn owned(spans: &[(&str, Option<[u8; 3]>)]) -> Vec<(String, Option<[u8; 3]>)> {
    spans.iter().map(|(s, c)| (s.to_string(), *c)).collect()
}

#[test]
fn text_is_split_into_runs_of_one_colour() {
    let fg = [229, 229, 229];
    let red = [205, 49, 49];
    let cursor_text = [1, 1, 1];
    let other = [9, 9, 9];
    let mut t = Terminal::new(4, 2);
    t.csi_dispatch(&[25], 'l');
    t.print('a');
    t.csi_dispatch(&[31], 'm');
    t.print('b');
    t.print('c');
    t.csi_dispatch(&[0], 'm');
    t.print('\x01');
    assert_eq!(
        text_spans(&t, 4, 2, cursor_text, other),
        owned(&[("a", Some(fg)), ("bc", Some(red)), (" \n", Some(fg)), ("    \n", Some(fg))])
    );
    // The cursor's cell takes the cursor's text colour while the cursor shows.
    t.csi_dispatch(&[25], 'h');
    t.csi_dispatch(&[1, 2], 'H');
    assert_eq!(
        text_spans(&t, 4, 2, cursor_text, other),
        owned(&[("a", Some(fg)), ("b", Some(cursor_text)), ("c", Some(red)), (" \n", Some(fg)), ("    \n", Some(fg))])
    );
    // A renderer that is wider and taller than the terminal draws spaces in
    // the default colour; one that is narrower draws less.
    t.csi_dispatch(&[25], 'l');
    assert_eq!(
        text_spans(&t, 5, 3, cursor_text, other),
        owned(&[
            ("a", Some(fg)),
            ("bc", Some(red)),
            (" ", Some(fg)),
            (" \n", Some(other)),
            ("    ", Some(fg)),
            (" \n", Some(other)),
            ("     \n", Some(other))
        ])
    );
    assert_eq!(text_spans(&t, 2, 1, cursor_text, other), owned(&[("a", Some(fg)), ("b\n", Some(red))]));
    assert_eq!(text_spans(&t, 0, 2, cursor_text, other), owned(&[("\n", None), ("\n", None)]));
    assert_eq!(text_spans(&t, 3, 0, cursor_text, other), Vec::new());
}

#[test]
fn css_colours() {
    assert_eq!(parse_hex_color("#1e1e1e"), [30, 30, 30]);
    assert_eq!(parse_hex_color("#FFffFf"), [255, 255, 255]);
    assert_eq!(parse_hex_color("#000000"), [0, 0, 0]);
    assert_eq!(parse_hex_color("#0a0B0c"), [10, 11, 12]);
    assert_eq!(parse_hex_color("#12345"), [0, 0, 0]);
    assert_eq!(parse_hex_color("#1234567"), [0, 0, 0]);
    assert_eq!(parse_hex_color("1e1e1e0"), [0, 0, 0]);
    assert_eq!(parse_hex_color(""), [0, 0, 0]);
    assert_eq!(parse_hex_color("red"), [0, 0, 0]);
    // A pair that is no number counts as zero, alone.
    assert_eq!(parse_hex_color("#zz10ff"), [0, 16, 255]);
    assert_eq!(parse_hex_color("#1g2 -3"), [0, 0, 0]);
    assert_eq!(parse_hex_color("#+f+0ff"), [15, 0, 255]);
    assert_eq!(parse_hex_color("#f+++-1"), [0, 0, 0]);
    for text in ["#1e1e1e", "#+a-b+c", "#  1 2 ", "#0x10ff", "#ABCDEF", "#+++f+f"] {
        let expected = [
            u8::from_str_radix(&text[1..3], 16).unwrap_or(0),
            u8::from_str_radix(&text[3..5], 16).unwrap_or(0),
            u8::from_str_radix(&text[5..7], 16).unwrap_or(0),
        ];
        assert_eq!(parse_hex_color(text), expected, "{}", text);
    }
}
