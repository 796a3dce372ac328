//! The frame renderer: one full redraw of the screen from a document and a
//! viewport, as text holding the terminal's control sequences.

use vstd::prelude::*;
use crate::document::{crlf, Document};
use crate::viewport::Viewport;

verus! {

/// Hides the terminal cursor.
pub open spec fn hide_cursor() -> Seq<char> {
    "\x1b[?25l"@
}

/// Shows the terminal cursor.
pub open spec fn show_cursor() -> Seq<char> {
    "\x1b[?25h"@
}

/// Moves the terminal cursor to the top left corner.
pub open spec fn cursor_home() -> Seq<char> {
    "\x1b[H"@
}

/// Erases from the terminal cursor to the end of its line.
pub open spec fn erase_line() -> Seq<char> {
    "\x1b[K"@
}

/// Clears the whole screen.
pub open spec fn clear_screen() -> Seq<char> {
    "\x1b[2J"@
}

/// The row drawn below the end of the document.
pub open spec fn tilde_row() -> Seq<char> {
    "~\r\n"@
}

/// The welcome banner shown in an empty document, with its line ending.
pub open spec fn banner() -> Seq<char> {
    "Kilo editor -- version 0.0.1\r\n"@
}

/// The last line written when the session ends.
pub open spec fn farewell() -> Seq<char> {
    "Gbye :) \r\n"@
}

/// The decimal digit `d`.
pub open spec fn digit(d: nat) -> char {
    "0123456789"@[d as int]
}

/// `n` in decimal, without leading zeros.
pub open spec fn decimal(n: nat) -> Seq<char>
    decreases n,
{
    if n < 10 {
        seq![digit(n)]
    } else {
        decimal(n / 10) + seq![digit(n % 10)]
    }
}

/// Moves the terminal cursor to screen row `row` and column `col`, counted
/// from 0 (the terminal counts from 1).
pub open spec fn cursor_to(row: nat, col: nat) -> Seq<char> {
    "\x1b["@ + decimal(row + 1) + ";"@ + decimal(col + 1) + "H"@
}

/// How many characters stand left of the banner on a screen `width` wide:
/// half of what the banner leaves free, and at least one.
pub open spec fn welcome_padding(width: nat) -> nat {
    if width >= 32 {
        ((width - 30) as nat / 2) as nat
    } else {
        1
    }
}

/// The banner row: a `~`, then spaces up to the padding, then the banner.
pub open spec fn welcome_row(width: nat) -> Seq<char> {
    "~"@ + Seq::new((welcome_padding(width) - 1) as nat, |i: int| ' ') + banner()
}

/// What screen row `y` shows: the document row it stands for, the banner on
/// the third of an empty document's screen, or a `~` past the end.
pub open spec fn screen_row(rows: Seq<Seq<char>>, vp: Viewport, y: nat) -> Seq<char> {
    let doc_row = y + vp.scroll_offset;
    erase_line() + if doc_row < rows.len() {
        rows[doc_row as int] + crlf()
    } else if rows.len() == 0 && y == vp.height / 3 {
        welcome_row(vp.width as nat)
    } else {
        tilde_row()
    }
}

/// The first `n` screen rows, top to bottom.
pub open spec fn screen_rows(rows: Seq<Seq<char>>, vp: Viewport, n: nat) -> Seq<char>
    decreases n,
{
    if n == 0 {
        Seq::empty()
    } else {
        screen_rows(rows, vp, (n - 1) as nat) + screen_row(rows, vp, (n - 1) as nat)
    }
}

/// One full redraw: hide the cursor, go to the top left corner, draw every
/// screen row but the last, put the cursor in place and show it; on the last
/// frame of a session also clear the screen and say goodbye.
pub open spec fn frame(rows: Seq<Seq<char>>, vp: Viewport, quitting: bool) -> Seq<char> {
    let (row, col) = vp.screen_pos();
    hide_cursor() + cursor_home() + screen_rows(rows, vp, (vp.height - 1) as nat) + cursor_to(
        row as nat,
        col as nat,
    ) + show_cursor() + if quitting {
        clear_screen() + cursor_home() + farewell()
    } else {
        Seq::empty()
    }
}

/// Appends `n` in decimal to `out`.
pub fn push_decimal(out: &mut String, n: u64)
    ensures
        final(out)@ == old(out)@ + decimal(n as nat),
    decreases n,
{
    if n >= 10 {
        push_decimal(out, n / 10);
    }
    let d: usize = (n % 10) as usize;
    let digits = "0123456789";
    proof {
        reveal_strlit("0123456789");
    }
    out.append(digits.substring_char(d, d + 1));
    assert(digits@.subrange(d as int, d + 1) =~= seq![digit(d as nat)]);
}

/// Appends the banner row for a screen `width` wide to `out`.
pub fn draw_welcome(out: &mut String, width: u32)
    ensures
        final(out)@ == old(out)@ + welcome_row(width as nat),
{
    let ghost start = out@;
    let banner_len: u32 = 30;
    proof {
        reveal_strlit("Kilo editor -- version 0.0.1\r\n");
    }
    assert("Kilo editor -- version 0.0.1\r\n"@.len() == banner_len);
    let mut padding: u32 = if width >= banner_len + 2 {
        (width - banner_len) / 2
    } else {
        1
    };
    out.append("~");
    padding = padding - 1;
    let mut i: u32 = 0;
    while i < padding
        invariant
            i <= padding,
            padding == welcome_padding(width as nat) - 1,
            out@ == start + "~"@ + Seq::new(i as nat, |k: int| ' '),
        decreases padding - i,
    {
        out.append(" ");
        proof {
            reveal_strlit(" ");
        }
        assert(out@ =~= start + "~"@ + Seq::new((i + 1) as nat, |k: int| ' '));
        i = i + 1;
    }
    out.append("Kilo editor -- version 0.0.1\r\n");
}

/// Appends every screen row but the last to `out`.
pub fn draw_rows(out: &mut String, doc: &Document, vp: &Viewport)
    requires
        vp.wf(),
    ensures
        final(out)@ == old(out)@ + screen_rows(doc@, *vp, (vp.height - 1) as nat),
{
    let ghost start = out@;
    let count: usize = doc.number_rows();
    let n_rows: u64 = count as u64;
    let mut y: u32 = 0;
    while y < vp.height - 1
        invariant
            vp.wf(),
            y <= vp.height - 1,
            n_rows == doc@.len(),
            doc@.len() <= usize::MAX,
            out@ == start + screen_rows(doc@, *vp, y as nat),
        decreases vp.height - 1 - y,
    {
        let ghost before = out@;
        out.append("\x1b[K");
        let filerow: u64 = y as u64 + vp.scroll_offset as u64;
        if filerow < n_rows {
            let row = filerow as usize;
            assert(row == filerow);
            match doc.read_row(row) {
                Ok(text) => out.append(text.as_str()),
                Err(_) => {},
            }
        } else if n_rows == 0 && y == vp.height / 3 {
            draw_welcome(out, vp.width);
        } else {
            out.append("~\r\n");
        }
        assert(out@ =~= before + screen_row(doc@, *vp, y as nat));
        y = y + 1;
    }
}

/// One full redraw of `doc` through `vp`; `quitting` marks the last frame of
/// the session.
pub fn render(doc: &Document, vp: &Viewport, quitting: bool) -> (r: String)
    requires
        vp.wf(),
    ensures
        r@ == frame(doc@, *vp, quitting),
{
    let mut out = String::new();
    out.append("\x1b[?25l");
    out.append("\x1b[H");
    draw_rows(&mut out, doc, vp);
    let (row, col) = vp.screen_cursor();
    out.append("\x1b[");
    push_decimal(&mut out, row as u64 + 1);
    out.append(";");
    push_decimal(&mut out, col as u64 + 1);
    out.append("H");
    out.append("\x1b[?25h");
    if quitting {
        out.append("\x1b[2J");
        out.append("\x1b[H");
        out.append("Gbye :) \r\n");
    }
    assert(out@ =~= frame(doc@, *vp, quitting));
    out
}

} // verus!
