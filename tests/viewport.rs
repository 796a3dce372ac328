use kilo::viewport::Viewport;

#[test]
fn new_viewport_is_at_origin() {
    let v = Viewport::new(80, 24);
    assert_eq!(v.scroll_offset, 0);
    assert_eq!(v.cursor_row, 0);
    assert_eq!(v.cursor_col, 0);
    assert_eq!(v.screen_cursor(), (0, 0));
    assert_eq!(v.visible_row_range(), (0, 24));
}

#[test]
fn down_moves_to_row_fifty_scroll_to_twenty_seven() {
    let mut v = Viewport::new(80, 24);
    for _ in 0..50 {
        v.move_cursor(1, 0, 100, 10);
        v.scroll_to_cursor();
    }
    assert_eq!(v.cursor_row, 50);
    assert_eq!(v.scroll_offset, 27);
    assert_eq!(v.screen_cursor(), (23, 0));
    assert_eq!(v.visible_row_range(), (27, 51));
}

#[test]
fn home_jumps_a_full_width_and_saturates() {
    let mut v = Viewport::new(80, 24);
    v.cursor_col = 40;
    v.move_cursor(0, -80, 1, 80);
    assert_eq!(v.cursor_col, 0);
}

#[test]
fn end_stops_at_line_end_and_screen_edge() {
    let mut v = Viewport::new(80, 24);
    v.move_cursor(0, 80, 1, 12);
    assert_eq!(v.cursor_col, 12);
    v.move_cursor(0, 80, 1, 500);
    assert_eq!(v.cursor_col, 79);
}

#[test]
fn left_and_up_saturate_at_zero() {
    let mut v = Viewport::new(80, 24);
    v.move_cursor(0, -1, 10, 10);
    assert_eq!(v.cursor_col, 0);
    v.move_cursor(-1, 0, 10, 10);
    assert_eq!(v.cursor_row, 0);
    v.move_cursor(i64::MIN, i64::MIN, 10, 10);
    assert_eq!((v.cursor_row, v.cursor_col), (0, 0));
}

#[test]
fn moves_past_the_last_row_clamp() {
    let mut v = Viewport::new(80, 24);
    v.move_cursor(1000, 0, 10, 0);
    assert_eq!(v.cursor_row, 9);
    v.move_cursor(i64::MAX, 0, 10, 0);
    assert_eq!(v.cursor_row, 9);
}

#[test]
fn empty_document_keeps_cursor_on_row_zero() {
    let mut v = Viewport::new(80, 24);
    v.move_cursor(5, 3, 0, 0);
    assert_eq!((v.cursor_row, v.cursor_col), (0, 0));
}

#[test]
fn vertical_move_keeps_column() {
    let mut v = Viewport::new(80, 24);
    v.move_cursor(0, 7, 10, 20);
    v.move_cursor(3, 0, 10, 20);
    assert_eq!((v.cursor_row, v.cursor_col), (3, 7));
    v.move_cursor(1, 0, 10, 2);
    assert_eq!((v.cursor_row, v.cursor_col), (4, 7));
    v.move_cursor(-24, 0, 10, 0);
    assert_eq!((v.cursor_row, v.cursor_col), (0, 7));
}

#[test]
fn scroll_up_to_cursor_above_screen() {
    let mut v = Viewport::new(80, 10);
    v.scroll_offset = 40;
    v.cursor_row = 12;
    v.scroll_to_cursor();
    assert_eq!(v.scroll_offset, 12);
    assert_eq!(v.screen_cursor(), (0, 0));
}

#[test]
fn scroll_is_idempotent() {
    let mut v = Viewport::new(80, 10);
    v.cursor_row = 75;
    v.scroll_to_cursor();
    let once = v;
    v.scroll_to_cursor();
    assert_eq!(v, once);
    assert_eq!(v.scroll_offset, 66);
}

#[test]
fn screen_cursor_stays_in_bounds_after_scroll() {
    let mut v = Viewport::new(20, 5);
    let moves: [(i64, i64); 6] = [(3, 4), (10, 30), (-2, -1), (100, 0), (-100, 100), (1, -3)];
    for (dr, dc) in moves {
        v.move_cursor(dr, dc, 60, 40);
        v.scroll_to_cursor();
        let (row, col) = v.screen_cursor();
        assert!(v.scroll_offset <= v.cursor_row);
        assert!(v.cursor_row < v.scroll_offset + v.height);
        assert!(row < v.height);
        assert!(col < v.width);
    }
}

#[test]
fn resize_pulls_cursor_onto_smaller_screen() {
    let mut v = Viewport::new(80, 24);
    v.move_cursor(30, 70, 100, 100);
    v.scroll_to_cursor();
    assert_eq!(v.scroll_offset, 7);
    v.resize(40, 10);
    assert_eq!(v.cursor_col, 39);
    assert_eq!(v.scroll_offset, 21);
    v.scroll_to_cursor();
    assert_eq!(v.screen_cursor(), (9, 39));
}
