use tws::grid::{blank_grid, grid_to_text, plot, write_text_at};
use tws::renderer::{get_terminal_size, pad_end};
use tws::text::{decimal_text, join_strings, text_lines};

#[test]
fn pad_end_pads_short_text() {
    assert_eq!(pad_end("abc", 5), "abc  ");
    assert_eq!(pad_end("", 3), "   ");
    assert_eq!(pad_end("abc", 0), "abc");
}

#[test]
fn pad_end_keeps_long_text() {
    assert_eq!(pad_end("abcdef", 3), "abcdef");
    assert_eq!(pad_end("abc", 3), "abc");
}

#[test]
fn pad_end_counts_bytes_then_pads_characters() {
    // two clouds take six bytes: not padded to five
    assert_eq!(pad_end("☁☁", 5), "☁☁");
    // two bytes, one character: padded with two spaces
    assert_eq!(pad_end("é", 3), "é  ");
    assert_eq!(pad_end("é", 2), "é");
}

#[test]
fn terminal_size_fallback() {
    assert_eq!(get_terminal_size(), (80, 24));
}

#[test]
fn lines_like_std() {
    for s in ["", "a", "a\n", "a\r\nb", "a\n\nb\n", "x\r", "\n", "\r\n", "a\rb\n", "line\n\n"] {
        let ours = text_lines(s);
        let theirs: Vec<String> = s.lines().map(String::from).collect();
        assert_eq!(ours, theirs, "text {:?}", s);
    }
}

#[test]
fn join_with_separator() {
    let parts = vec!["a".to_string(), "bc".to_string(), String::new()];
    assert_eq!(join_strings(&parts, " • "), "a • bc • ");
    assert_eq!(join_strings(&Vec::new(), ","), "");
}

#[test]
fn decimal_numbers() {
    assert_eq!(decimal_text(0), "0");
    assert_eq!(decimal_text(7), "7");
    assert_eq!(decimal_text(-5), "-5");
    assert_eq!(decimal_text(1234), "1234");
    assert_eq!(decimal_text(i32::MAX), i32::MAX.to_string());
    assert_eq!(decimal_text(i32::MIN), i32::MIN.to_string());
}

#[test]
fn blank_grid_text_and_lines_round_trip() {
    let g = blank_grid(3, 2);
    let t = grid_to_text(&g);
    assert_eq!(t, "   \n   ");
    assert_eq!(text_lines(&t), vec!["   ".to_string(), "   ".to_string()]);
}

#[test]
fn rows_come_back_from_text() {
    let mut g = blank_grid(4, 3);
    plot(&mut g, 1, 1, '*', 4, 3);
    write_text_at(&mut g, "hi", 2, 2, 4, 3);
    let t = grid_to_text(&g);
    let rows: Vec<String> = g.iter().map(|r| r.iter().collect()).collect();
    assert_eq!(text_lines(&t), rows);
    assert_eq!(t, "    \n *  \n  hi");
}

#[test]
fn plot_outside_changes_nothing() {
    let mut g = blank_grid(2, 2);
    plot(&mut g, 2, 0, '#', 2, 2);
    plot(&mut g, 0, 5, '#', 2, 2);
    assert_eq!(grid_to_text(&g), "  \n  ");
}

#[test]
fn text_is_clipped_at_the_edge() {
    let mut g = blank_grid(5, 1);
    write_text_at(&mut g, "abcdef", 3, 0, 5, 1);
    assert_eq!(grid_to_text(&g), "   ab");
    write_text_at(&mut g, "zz", 0, 3, 5, 1);
    assert_eq!(grid_to_text(&g), "   ab");
}

#[test]
fn empty_grid_text() {
    let g = blank_grid(0, 0);
    assert_eq!(grid_to_text(&g), "");
}
