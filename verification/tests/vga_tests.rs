//! Behavior of the display driver: writing, scrollback, scrolling, and
//! frame compositing.

use kernel_core::vga::{Color, ColorCode, ScreenChar, Writer};

fn white_on_black() -> ColorCode {
    ColorCode::new(Color::White, Color::Black)
}

fn cell(b: u8, color: ColorCode) -> ScreenChar {
    ScreenChar {
        ascii_char: b,
        color_code: color,
    }
}

fn row_text(row: &[ScreenChar]) -> Vec<u8> {
    row.iter().map(|c| c.ascii_char).collect()
}

#[test]
fn color_code_packs_nibbles() {
    assert_eq!(ColorCode::new(Color::White, Color::Black).0, 0x0f);
    assert_eq!(ColorCode::new(Color::Yellow, Color::Blue).0, 0x1e);
    assert_eq!(ColorCode::new(Color::Black, Color::White).0, 0xf0);
}

#[test]
fn color_codes_cover_all_sixteen() {
    let all = [
        Color::Black,
        Color::Blue,
        Color::Green,
        Color::Cyan,
        Color::Red,
        Color::Magenta,
        Color::Brown,
        Color::LightGray,
        Color::DarkGray,
        Color::LightBlue,
        Color::LightGreen,
        Color::LightCyan,
        Color::LightRed,
        Color::Pink,
        Color::Yellow,
        Color::White,
    ];
    for (i, c) in all.iter().enumerate() {
        assert_eq!(c.code(), i as u8);
    }
}

#[test]
fn scenario_write_then_continue() {
    // Writing "Hi\n" then "Bye": row 0 holds "Hi" padded with blanks,
    // row 1 begins with "Bye", and the cursor stands at column 3.
    let color = white_on_black();
    let mut w = Writer::new(color, 100);
    w.write_string("Hi\n");
    w.write_string("Bye");
    assert_eq!(w.line_count(), 2);
    let row0 = w.get_line(0);
    assert_eq!(row0[0], cell(b'H', color));
    assert_eq!(row0[1], cell(b'i', color));
    for j in 2..80 {
        assert_eq!(row0[j], cell(b' ', color));
    }
    let row1 = w.get_line(1);
    assert_eq!(row1[0], cell(b'B', color));
    assert_eq!(row1[1], cell(b'y', color));
    assert_eq!(row1[2], cell(b'e', color));
    assert_eq!(row1[3], cell(b' ', color));
    assert_eq!(w.column_pos(), 3);
}

#[test]
fn scrollback_round_trip_full_row() {
    // A printable row of maximal width reads back identically.
    let color = white_on_black();
    let mut w = Writer::new(color, 50);
    let text: String = (0..80).map(|i| (b'!' + (i % 90) as u8) as char).collect();
    w.write_string(&text);
    let row = w.get_line(0);
    assert_eq!(row_text(&row), text.as_bytes());
    assert_eq!(w.column_pos(), 80);
}

#[test]
fn automatic_wrap_at_column_81() {
    // 81 printable characters with no newline: the 81st lands on the next
    // row at column 0.
    let color = white_on_black();
    let mut w = Writer::new(color, 100);
    let text: String = "x".repeat(80) + "Z";
    w.write_string(&text);
    assert_eq!(w.line_count(), 2);
    assert_eq!(w.get_line(0)[79], cell(b'x', color));
    assert_eq!(w.get_line(1)[0], cell(b'Z', color));
    assert_eq!(w.column_pos(), 1);
}

#[test]
fn unprintable_bytes_become_placeholder() {
    let color = white_on_black();
    let mut w = Writer::new(color, 10);
    w.write_byte(0x07);
    w.write_byte(0x1f);
    w.write_byte(0x7f);
    w.write_byte(b'A');
    let row = w.get_line(0);
    assert_eq!(row[0], cell(0xfe, color));
    assert_eq!(row[1], cell(0xfe, color));
    assert_eq!(row[2], cell(0xfe, color));
    assert_eq!(row[3], cell(b'A', color));
}

#[test]
fn carriage_return_rewinds_column() {
    let color = white_on_black();
    let mut w = Writer::new(color, 10);
    w.write_string("abc\rZ");
    let row = w.get_line(0);
    assert_eq!(row[0], cell(b'Z', color));
    assert_eq!(row[1], cell(b'b', color));
    assert_eq!(row[2], cell(b'c', color));
    assert_eq!(w.column_pos(), 1);
}

#[test]
fn scrollback_evicts_oldest_at_capacity() {
    // Capacity 3: after writing four rows the first one is gone.
    let color = white_on_black();
    let mut w = Writer::new(color, 3);
    w.write_string("one\n");
    w.write_string("two\n");
    w.write_string("three\n");
    assert_eq!(w.line_count(), 3);
    assert_eq!(row_text(&w.get_line(0))[..3], *b"two");
    assert_eq!(row_text(&w.get_line(1))[..5], *b"three");
    assert_eq!(row_text(&w.get_line(2))[0], b' ');
}

#[test]
fn scroll_offset_clamps_at_both_ends() {
    let color = white_on_black();
    let mut w = Writer::new(color, 100);
    // 30 newlines leave 31 retained rows; the clamp ceiling is 31 - 25 = 6.
    for _ in 0..30 {
        w.newline();
    }
    assert_eq!(w.line_count(), 31);
    for _ in 0..50 {
        w.scroll_down();
        assert!(w.scroll_offset() <= 6);
    }
    assert_eq!(w.scroll_offset(), 6);
    for _ in 0..50 {
        w.scroll_up();
    }
    assert_eq!(w.scroll_offset(), 0);
}

#[test]
fn scroll_stays_at_zero_while_history_fits() {
    let color = white_on_black();
    let mut w = Writer::new(color, 100);
    w.write_string("just one row");
    w.scroll_down();
    w.scroll_down();
    assert_eq!(w.scroll_offset(), 0);
    w.scroll_up();
    assert_eq!(w.scroll_offset(), 0);
}

fn frame_snapshot(w: &Writer) -> Vec<Vec<ScreenChar>> {
    (0..25).map(|r| w.frame_line(r)).collect()
}

#[test]
fn draw_frame_is_idempotent() {
    let color = white_on_black();
    let mut w = Writer::new(color, 40);
    w.write_string("alpha\nbeta\ngamma");
    w.draw_frame();
    let first = frame_snapshot(&w);
    w.draw_frame();
    let second = frame_snapshot(&w);
    assert_eq!(first, second);
}

#[test]
fn frame_shows_window_at_offset() {
    let color = white_on_black();
    let mut w = Writer::new(color, 100);
    for i in 0..30 {
        w.write_string(&format!("row{}\n", i));
    }
    // 31 rows retained; at offset 0 the frame starts at the oldest row.
    assert_eq!(w.scroll_offset(), 0);
    let frame = frame_snapshot(&w);
    assert_eq!(row_text(&frame[0])[..4], *b"row0");
    w.scroll_down();
    let frame = frame_snapshot(&w);
    assert_eq!(row_text(&frame[0])[..4], *b"row1");
}

#[test]
fn frame_pads_missing_history_with_blanks() {
    let color = white_on_black();
    let mut w = Writer::new(color, 60);
    w.write_string("top");
    let frame = frame_snapshot(&w);
    assert_eq!(row_text(&frame[0])[..3], *b"top");
    for r in 1..25 {
        assert!(frame[r].iter().all(|c| *c == cell(b' ', color)));
    }
}

#[test]
fn clear_row_blanks_one_row() {
    let color = white_on_black();
    let mut w = Writer::new(color, 10);
    w.write_string("aaa\nbbb");
    w.clear_row(0);
    assert!(w.get_line(0).iter().all(|c| *c == cell(b' ', color)));
    assert_eq!(row_text(&w.get_line(1))[..3], *b"bbb");
}

#[test]
fn newline_flushes_current_row() {
    let color = white_on_black();
    let mut w = Writer::new(color, 10);
    w.write_string("abc");
    assert_eq!(w.line_count(), 1);
    w.newline();
    assert_eq!(w.line_count(), 2);
    assert_eq!(w.column_pos(), 0);
    assert_eq!(row_text(&w.get_line(0))[..3], *b"abc");
}
