//! The plain printing helpers over the modelled text grid.

use kernel_core::common::{
    int_to_char, newline, print, print_hex, print_hex_64, print_int, Screen,
};

fn row_text(s: &Screen, r: usize) -> Vec<u8> {
    (0..80).map(|c| s.cell(r, c)).collect()
}

#[test]
fn digits_map_to_ascii() {
    assert_eq!(int_to_char(0), b'0');
    assert_eq!(int_to_char(9), b'9');
    assert_eq!(int_to_char(10), b'a');
    assert_eq!(int_to_char(15), b'f');
}

#[test]
fn fresh_screen_is_blank() {
    let s = Screen::new();
    assert_eq!(s.row(), 0);
    assert_eq!(s.col(), 0);
    for r in 0..25 {
        assert!(row_text(&s, r).iter().all(|b| *b == b' '));
    }
}

#[test]
fn print_places_bytes_at_the_cursor() {
    let mut s = Screen::new();
    print(&mut s, b"AB");
    assert_eq!(s.cell(0, 0), b'A');
    assert_eq!(s.cell(0, 1), b'B');
    assert_eq!(s.col(), 2);
    assert_eq!(s.row(), 0);
}

#[test]
fn print_handles_newline_and_carriage_return() {
    let mut s = Screen::new();
    print(&mut s, b"ab\ncd\rZ");
    assert_eq!(s.cell(0, 0), b'a');
    assert_eq!(s.cell(0, 1), b'b');
    assert_eq!(s.cell(1, 0), b'Z');
    assert_eq!(s.cell(1, 1), b'd');
    assert_eq!(s.row(), 1);
    assert_eq!(s.col(), 1);
}

#[test]
fn cursor_folds_back_at_the_grid_edges() {
    let mut s = Screen::new();
    // 25 newlines drive the row to 25; the next byte folds it back to 0.
    print(&mut s, b"\n".repeat(25).as_slice());
    assert_eq!(s.row(), 25);
    print(&mut s, b"X");
    assert_eq!(s.row(), 0);
    assert_eq!(s.cell(0, 0), b'X');
    // 80 bytes fill a row; the 81st folds the column back to 0.
    let mut s = Screen::new();
    print(&mut s, b"y".repeat(80).as_slice());
    assert_eq!(s.col(), 80);
    print(&mut s, b"Z");
    assert_eq!(s.col(), 1);
    assert_eq!(s.cell(0, 0), b'Z');
}

#[test]
fn println_moves_to_the_next_row() {
    let mut s = Screen::new();
    kernel_core::common::println(&mut s, b"hi");
    assert_eq!(s.row(), 1);
    assert_eq!(s.col(), 0);
    assert_eq!(s.cell(0, 0), b'h');
    assert_eq!(s.cell(0, 1), b'i');
    newline(&mut s);
    assert_eq!(s.row(), 2);
}

#[test]
fn print_int_writes_decimal_digits() {
    let mut s = Screen::new();
    print_int(&mut s, 12345);
    assert_eq!(&row_text(&s, 0)[..5], b"12345");
    assert_eq!(s.col(), 5);
    let mut s = Screen::new();
    print_int(&mut s, 4294967295);
    assert_eq!(&row_text(&s, 0)[..10], b"4294967295");
}

#[test]
fn print_int_of_zero_prints_nothing() {
    let mut s = Screen::new();
    print_int(&mut s, 0);
    assert_eq!(s.col(), 0);
    assert_eq!(s.cell(0, 0), b' ');
}

#[test]
fn print_hex_writes_prefixed_hex_digits() {
    let mut s = Screen::new();
    print_hex(&mut s, 0xdeadbeef);
    assert_eq!(&row_text(&s, 0)[..10], b"0xdeadbeef");
    let mut s = Screen::new();
    print_hex(&mut s, 0x1a2);
    assert_eq!(&row_text(&s, 0)[..5], b"0x1a2");
    assert_eq!(s.col(), 5);
}

#[test]
fn print_hex_of_zero_prints_only_the_prefix() {
    let mut s = Screen::new();
    print_hex(&mut s, 0);
    assert_eq!(&row_text(&s, 0)[..2], b"0x");
    assert_eq!(s.col(), 2);
}

#[test]
fn print_hex_64_handles_wide_values() {
    let mut s = Screen::new();
    print_hex_64(&mut s, 0x0123456789abcdef);
    assert_eq!(&row_text(&s, 0)[..17], b"0x123456789abcdef");
    let mut s = Screen::new();
    print_hex_64(&mut s, 0xffffffffffffffff);
    assert_eq!(&row_text(&s, 0)[..18], b"0xffffffffffffffff");
}
