use bib_os::console::{Color, ColorCode, Writer, BUFFER_HEIGHT, BUFFER_WIDTH};

fn writer() -> Writer {
    Writer::new(ColorCode::new(Color::White, Color::Black))
}

fn assert_row_text(w: &Writer, row: usize, text: &str) {
    let bytes = w.get_row_bytes(row).unwrap();
    assert_eq!(bytes.len(), BUFFER_WIDTH);
    assert_eq!(&bytes[..text.len()], text.as_bytes());
    for &b in &bytes[text.len()..] {
        assert_eq!(b, b' ');
    }
}

#[test]
fn color_code_packs_background_high_foreground_low() {
    assert_eq!(ColorCode::new(Color::White, Color::Black).0, 15);
    assert_eq!(ColorCode::new(Color::LightRed, Color::Black).0, 12);
    assert_eq!(ColorCode::new(Color::Yellow, Color::Blue).0, (1 << 4) | 14);
}

#[test]
fn writes_append_on_the_bottom_row() {
    let mut w = writer();
    w.write_string("Hello");
    assert_eq!(w.column_pos, 5);
    assert_row_text(&w, BUFFER_HEIGHT - 1, "Hello");
}

#[test]
fn newline_scrolls_rows_up() {
    let mut w = writer();
    w.write_string("one\ntwo");
    assert_row_text(&w, BUFFER_HEIGHT - 2, "one");
    assert_row_text(&w, BUFFER_HEIGHT - 1, "two");
    assert_eq!(w.column_pos, 3);
}

#[test]
fn one_wrap_after_a_full_line() {
    // One byte past the width wraps exactly once, and every byte stays
    // present, split across the two bottom rows.
    let mut w = writer();
    let text = "x".repeat(BUFFER_WIDTH + 1);
    w.write_string(&text);
    assert_eq!(w.column_pos, 1);
    let full = "x".repeat(BUFFER_WIDTH);
    assert_row_text(&w, BUFFER_HEIGHT - 2, &full);
    assert_row_text(&w, BUFFER_HEIGHT - 1, "x");
    for row in 0..BUFFER_HEIGHT - 2 {
        assert_row_text(&w, row, "");
    }
}

#[test]
fn cursor_never_passes_the_width() {
    let mut w = writer();
    for _ in 0..(3 * BUFFER_WIDTH + 7) {
        w.write_byte(b'y');
        assert!(w.column_pos <= BUFFER_WIDTH);
    }
    assert_eq!(w.column_pos, 7);
}

#[test]
fn unprintable_bytes_become_the_placeholder() {
    let mut w = writer();
    w.write_string("a\u{1}b");
    let bytes = w.get_row_bytes(BUFFER_HEIGHT - 1).unwrap();
    assert_eq!(&bytes[..3], &[b'a', 0xfe, b'b']);
    // A multi-byte character is substituted byte by byte.
    let mut v = writer();
    v.write_string("é");
    let bytes = v.get_row_bytes(BUFFER_HEIGHT - 1).unwrap();
    assert_eq!(&bytes[..2], &[0xfe, 0xfe]);
}

#[test]
fn write_byte_at_is_bounds_checked() {
    let mut w = writer();
    assert_eq!(w.write_byte_at(b'Z', 3, 10), Ok(()));
    let bytes = w.get_row_bytes(3).unwrap();
    assert_eq!(bytes[10], b'Z');
    assert_eq!(w.column_pos, 0);
    assert!(w.write_byte_at(b'Z', BUFFER_HEIGHT, 0).is_err());
    assert!(w.write_byte_at(b'Z', 0, BUFFER_WIDTH).is_err());
}

#[test]
fn get_row_bytes_is_bounds_checked() {
    let w = writer();
    assert!(w.get_row_bytes(BUFFER_HEIGHT - 1).is_ok());
    assert!(w.get_row_bytes(BUFFER_HEIGHT).is_err());
}

#[test]
fn many_lines_stay_inside_the_grid() {
    let mut w = writer();
    for _ in 0..200 {
        w.write_string("test output line\n");
    }
    assert_eq!(w.column_pos, 0);
    assert_row_text(&w, BUFFER_HEIGHT - 2, "test output line");
    assert_row_text(&w, BUFFER_HEIGHT - 1, "");
}

#[test]
fn single_line_output_lands_above_the_bottom() {
    let mut w = writer();
    let s = "Some test string that fits on a single line";
    w.write_string("\n");
    w.write_string(s);
    w.write_string("\n");
    assert_row_text(&w, BUFFER_HEIGHT - 2, s);
}
