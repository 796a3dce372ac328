//! The viewport: screen size, vertical scroll offset and the cursor position
//! in document coordinates.

use vstd::prelude::*;

verus! {

/// `v` clamped into `[0, hi]`.
pub open spec fn clamp(v: int, hi: int) -> int {
    if v < 0 {
        0
    } else if v > hi {
        hi
    } else {
        v
    }
}

/// The last row the cursor may rest on in a document of `row_count` rows:
/// row 0 for an empty document, otherwise the last line (as far as a `u32`
/// reaches).
pub open spec fn last_row(row_count: nat) -> int {
    if row_count == 0 {
        0
    } else if row_count - 1 > u32::MAX {
        u32::MAX as int
    } else {
        row_count - 1
    }
}

/// The last column the cursor may rest on: the end of a line of `line_len`
/// characters, but never past the right edge of a screen `width` wide.
pub open spec fn last_col(width: nat, line_len: nat) -> int {
    if line_len < width - 1 {
        line_len as int
    } else {
        width - 1
    }
}

/// Screen dimensions, the first document row shown, and the cursor in
/// document coordinates.
#[derive(Clone, Copy, Debug, PartialEq, Eq, Structural)]
pub struct Viewport {
    pub width: u32,
    pub height: u32,
    pub scroll_offset: u32,
    pub cursor_row: u32,
    pub cursor_col: u32,
}

impl Viewport {
    /// A usable viewport: a non-empty screen, and the cursor inside its width.
    pub open spec fn wf(self) -> bool {
        &&& self.width >= 1
        &&& self.height >= 1
        &&& self.cursor_col < self.width
    }

    /// The cursor row lies among the rows shown.
    pub open spec fn cursor_visible(self) -> bool {
        self.scroll_offset <= self.cursor_row < self.scroll_offset + self.height
    }

    /// The viewport after moving the cursor by `(dr, dc)`, saturating at the
    /// edges of the document and of the line; a move with `dc == 0` keeps the
    /// column.
    pub open spec fn moved(self, dr: int, dc: int, row_count: nat, line_len: nat) -> Viewport {
        Viewport {
            cursor_row: clamp(self.cursor_row + dr, last_row(row_count)) as u32,
            cursor_col: if dc == 0 {
                self.cursor_col
            } else {
                clamp(self.cursor_col + dc, last_col(self.width as nat, line_len)) as u32
            },
            ..self
        }
    }

    /// The viewport with the scroll offset moved just far enough to show the
    /// cursor row.
    pub open spec fn scrolled(self) -> Viewport {
        if self.cursor_row < self.scroll_offset {
            Viewport { scroll_offset: self.cursor_row, ..self }
        } else if self.cursor_row >= self.scroll_offset + self.height {
            Viewport { scroll_offset: (self.cursor_row - self.height + 1) as u32, ..self }
        } else {
            self
        }
    }

    /// The viewport on a screen of the new size: the cursor column pulled in
    /// to the new width, then the scroll offset recomputed.
    pub open spec fn resized(self, width: u32, height: u32) -> Viewport {
        Viewport {
            width,
            height,
            cursor_col: if self.cursor_col < width { self.cursor_col } else { (width - 1) as u32 },
            ..self
        }.scrolled()
    }

    /// The cursor relative to the top left corner of the screen (a row above
    /// the shown ones counts as row 0).
    pub open spec fn screen_pos(self) -> (int, int) {
        let row = if self.cursor_row >= self.scroll_offset {
            self.cursor_row - self.scroll_offset
        } else {
            0
        };
        (row, self.cursor_col as int)
    }

    /// A viewport of the given size, scrolled to the top, with the cursor in
    /// the top left corner.
    pub fn new(width: u32, height: u32) -> (r: Viewport)
        requires
            width >= 1,
            height >= 1,
        ensures
            r.wf(),
            r.cursor_visible(),
            r == (Viewport { width, height, scroll_offset: 0, cursor_row: 0, cursor_col: 0 }),
    {
        Viewport { width, height, scroll_offset: 0, cursor_row: 0, cursor_col: 0 }
    }

    /// Moves the cursor by `delta_row` rows and `delta_col` columns. Both
    /// saturate: the row stays within the document of `row_count` rows (row 0
    /// when it is empty); a horizontal move keeps the column within
    /// `[0, line_len]` and the screen width. A vertical move (`delta_col == 0`)
    /// keeps the column as it is.
    pub fn move_cursor(&mut self, delta_row: i64, delta_col: i64, row_count: usize, line_len: usize)
        requires
            old(self).wf(),
        ensures
            *final(self) == old(self).moved(
                delta_row as int,
                delta_col as int,
                row_count as nat,
                line_len as nat,
            ),
            final(self).wf(),
    {
        self.cursor_row = saturating_step(self.cursor_row, delta_row, max_row(row_count));
        if delta_col != 0 {
            let max_col: u32 = if line_len < (self.width - 1) as usize {
                line_len as u32
            } else {
                self.width - 1
            };
            self.cursor_col = saturating_step(self.cursor_col, delta_col, max_col);
        }
    }

    /// Moves the scroll offset just far enough that the cursor row is shown:
    /// up to the cursor when it is above the screen, so that it is on the last
    /// row when it is below.
    pub fn scroll_to_cursor(&mut self)
        requires
            old(self).wf(),
        ensures
            *final(self) == old(self).scrolled(),
            final(self).wf(),
            final(self).cursor_visible(),
    {
        if self.cursor_row < self.scroll_offset {
            self.scroll_offset = self.cursor_row;
        } else if self.cursor_row - self.scroll_offset >= self.height {
            self.scroll_offset = self.cursor_row - self.height + 1;
        }
    }

    /// Changes the screen size, pulls the cursor column in to the new width
    /// and scrolls so that the cursor stays on screen.
    pub fn resize(&mut self, width: u32, height: u32)
        requires
            width >= 1,
            height >= 1,
        ensures
            *final(self) == old(self).resized(width, height),
            final(self).wf(),
            final(self).cursor_visible(),
    {
        self.width = width;
        self.height = height;
        if self.cursor_col >= width {
            self.cursor_col = width - 1;
        }
        self.scroll_to_cursor();
    }

    /// The document rows shown, as the half-open range `[first, end)`.
    pub fn visible_row_range(&self) -> (r: (u64, u64))
        ensures
            r.0 == self.scroll_offset,
            r.1 == self.scroll_offset + self.height,
    {
        (self.scroll_offset as u64, self.scroll_offset as u64 + self.height as u64)
    }

    /// The cursor on screen, as `(row, col)` from the top left corner.
    pub fn screen_cursor(&self) -> (r: (u32, u32))
        ensures
            (r.0 as int, r.1 as int) == self.screen_pos(),
            self.cursor_visible() ==> r.0 == self.cursor_row - self.scroll_offset,
    {
        (self.cursor_row.saturating_sub(self.scroll_offset), self.cursor_col)
    }
}

/// Whatever move the cursor makes, scrolling to it afterwards leaves it on
/// screen: `scroll_offset <= cursor_row < scroll_offset + height`.
pub proof fn lemma_move_then_scroll_shows_cursor(
    v: Viewport,
    dr: int,
    dc: int,
    row_count: nat,
    line_len: nat,
)
    requires
        v.wf(),
    ensures
        v.moved(dr, dc, row_count, line_len).wf(),
        v.moved(dr, dc, row_count, line_len).scrolled().cursor_visible(),
{
}

/// Cursor moves saturate: left from column 0 stays at column 0, up from row 0
/// stays at row 0, and a move past the last row stops on the last row. A move
/// down from a row of the document goes to the nearer of the target and the
/// last row; a move up from such a row, or left from a column within the
/// line, stops at 0; a vertical move keeps the column.
pub proof fn lemma_move_saturates(v: Viewport, dr: int, dc: int, row_count: nat, line_len: nat)
    requires
        v.wf(),
    ensures
        v.cursor_col == 0 && dc <= 0 ==> v.moved(dr, dc, row_count, line_len).cursor_col == 0,
        v.cursor_row == 0 && dr <= 0 ==> v.moved(dr, dc, row_count, line_len).cursor_row == 0,
        1 <= row_count <= u32::MAX + 1 && v.cursor_row + dr >= row_count - 1 ==> v.moved(
            dr,
            dc,
            row_count,
            line_len,
        ).cursor_row == row_count - 1,
        1 <= row_count <= u32::MAX + 1 && v.cursor_row <= row_count - 1 && dr >= 0 ==> v.moved(
            dr,
            dc,
            row_count,
            line_len,
        ).cursor_row == if v.cursor_row + dr < row_count - 1 {
            v.cursor_row + dr
        } else {
            row_count - 1
        },
        v.cursor_row <= last_row(row_count) && dr <= 0 ==> v.moved(
            dr,
            dc,
            row_count,
            line_len,
        ).cursor_row == if v.cursor_row + dr
            > 0 {
            v.cursor_row + dr
        } else {
            0
        },
        v.cursor_col <= last_col(v.width as nat, line_len) && dc <= 0 ==> v.moved(
            dr,
            dc,
            row_count,
            line_len,
        ).cursor_col == if v.cursor_col + dc
            > 0 {
            v.cursor_col + dc
        } else {
            0
        },
        dc == 0 ==> v.moved(dr, dc, row_count, line_len).cursor_col == v.cursor_col,
{
}

/// After a resize and a scroll to the cursor, the cursor lies on the new
/// screen: its screen row is in `[0, height)` and its column in `[0, width)`.
pub proof fn lemma_resize_then_scroll_in_bounds(v: Viewport, width: u32, height: u32)
    requires
        width >= 1,
        height >= 1,
    ensures
        v.resized(width, height).wf(),
        0 <= v.resized(width, height).scrolled().screen_pos().0 < height,
        0 <= v.resized(width, height).scrolled().screen_pos().1 < width,
{
}

/// After a scroll to the cursor, the screen cursor is inside the screen.
pub proof fn lemma_scrolled_screen_cursor_in_bounds(v: Viewport)
    requires
        v.wf(),
    ensures
        0 <= v.scrolled().screen_pos().0 < v.height,
        0 <= v.scrolled().screen_pos().1 < v.width,
{
}

/// Scrolling to the cursor a second time changes nothing.
pub proof fn lemma_scroll_idempotent(v: Viewport)
    requires
        v.wf(),
    ensures
        v.scrolled().scrolled() == v.scrolled(),
{
}

/// The last row the cursor may rest on in a document of `row_count` rows.
pub fn max_row(row_count: usize) -> (r: u32)
    ensures
        r == last_row(row_count as nat),
{
    if row_count == 0 {
        0
    } else if row_count - 1 > u32::MAX as usize {
        u32::MAX
    } else {
        (row_count - 1) as u32
    }
}

/// `pos + delta`, clamped into `[0, hi]`.
fn saturating_step(pos: u32, delta: i64, hi: u32) -> (r: u32)
    ensures
        r == clamp(pos + delta, hi as int),
{
    let target: i128 = pos as i128 + delta as i128;
    if target < 0 {
        0
    } else if target > hi as i128 {
        hi
    } else {
        target as u32
    }
}

} // verus!
