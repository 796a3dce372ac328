use kilo::document::Document;
use kilo::render::{draw_welcome, push_decimal, render};
use kilo::viewport::Viewport;

fn tilde_rows(n: usize) -> String {
    let mut s = String::new();
    for _ in 0..n {
        s.push_str("\x1b[K~\r\n");
    }
    s
}

#[test]
fn empty_document_shows_banner_on_third_row() {
    let doc = Document::new();
    let vp = Viewport::new(80, 24);
    let out = render(&doc, &vp, false);
    let mut expected = String::from("\x1b[?25l\x1b[H");
    expected.push_str(&tilde_rows(8));
    expected.push_str("\x1b[K~");
    expected.push_str(&" ".repeat(24));
    expected.push_str("Kilo editor -- version 0.0.1\r\n");
    expected.push_str(&tilde_rows(14));
    expected.push_str("\x1b[1;1H\x1b[?25h");
    assert_eq!(out, expected);
}

#[test]
fn document_rows_fill_screen_from_scroll_offset() {
    let mut doc = Document::new();
    doc.load(vec![String::from("a"), String::from("b"), String::from("c"), String::from("d")]);
    let mut vp = Viewport::new(10, 4);
    vp.scroll_offset = 1;
    vp.cursor_row = 2;
    vp.cursor_col = 0;
    let out = render(&doc, &vp, false);
    assert_eq!(out, "\x1b[?25l\x1b[H\x1b[Kb\r\n\x1b[Kc\r\n\x1b[Kd\r\n\x1b[2;1H\x1b[?25h");
}

#[test]
fn rows_past_the_end_are_tildes() {
    let mut doc = Document::new();
    doc.load(vec![String::from("only")]);
    let vp = Viewport::new(10, 4);
    let out = render(&doc, &vp, false);
    assert_eq!(out, "\x1b[?25l\x1b[H\x1b[Konly\r\n\x1b[K~\r\n\x1b[K~\r\n\x1b[1;1H\x1b[?25h");
}

#[test]
fn last_frame_clears_and_says_goodbye() {
    let mut doc = Document::new();
    doc.load(vec![String::from("x")]);
    let vp = Viewport::new(10, 2);
    let out = render(&doc, &vp, true);
    assert_eq!(out, "\x1b[?25l\x1b[H\x1b[Kx\r\n\x1b[1;1H\x1b[?25h\x1b[2J\x1b[HGbye :) \r\n");
}

#[test]
fn cursor_position_is_one_based() {
    let mut doc = Document::new();
    doc.load(vec![String::from("0123456789ABCDEF"); 200]);
    let mut vp = Viewport::new(40, 20);
    vp.move_cursor(150, 12, 200, 16);
    vp.scroll_to_cursor();
    let out = render(&doc, &vp, false);
    assert!(out.ends_with("\x1b[20;13H\x1b[?25h"));
}

#[test]
fn single_row_screen_draws_no_rows() {
    let doc = Document::new();
    let vp = Viewport::new(80, 1);
    assert_eq!(render(&doc, &vp, false), "\x1b[?25l\x1b[H\x1b[1;1H\x1b[?25h");
}

#[test]
fn welcome_padding_is_half_the_free_width() {
    let mut out = String::new();
    draw_welcome(&mut out, 40);
    assert_eq!(out, "~    Kilo editor -- version 0.0.1\r\n");
}

#[test]
fn narrow_screen_welcome_keeps_one_tilde() {
    let mut out = String::new();
    draw_welcome(&mut out, 10);
    assert_eq!(out, "~Kilo editor -- version 0.0.1\r\n");
    let mut out = String::new();
    draw_welcome(&mut out, 31);
    assert_eq!(out, "~Kilo editor -- version 0.0.1\r\n");
}

#[test]
fn decimal_digits() {
    let mut out = String::from("n=");
    push_decimal(&mut out, 0);
    out.push(',');
    push_decimal(&mut out, 7);
    out.push(',');
    push_decimal(&mut out, 4096);
    out.push(',');
    push_decimal(&mut out, u64::MAX);
    assert_eq!(out, "n=0,7,4096,18446744073709551615");
}
