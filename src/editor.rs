//! The editing session: turns key events into cursor moves, mode changes or
//! the end of the session, and draws a frame after each.

use vstd::prelude::*;
use crate::document::Document;
use crate::render::{frame, render};
use crate::viewport::{last_row, max_row, Viewport};

verus! {

/// A logical key event, as decoded from the terminal's input.
#[derive(Clone, Copy, Debug, PartialEq, Eq, Structural)]
pub enum Key {
    Left,
    Right,
    Up,
    Down,
    Home,
    End,
    PageUp,
    PageDown,
    Insert,
    Esc,
    Char(char),
    Ctrl(char),
    /// Any key that the editor does not know.
    Other,
}

/// Command mode moves the cursor; insert mode waits for `Esc`.
#[derive(Clone, Copy, Debug, PartialEq, Eq, Structural)]
pub enum Mode {
    Command,
    Insert,
}

/// A cursor movement.
#[derive(Clone, Copy, Debug, PartialEq, Eq, Structural)]
pub enum Motion {
    Left,
    Right,
    Up,
    Down,
    PageUp,
    PageDown,
    Home,
    End,
}

/// What one key event does to the session.
#[derive(Clone, Copy, Debug, PartialEq, Eq, Structural)]
pub enum Action {
    Move(Motion),
    EnterInsert,
    EnterCommand,
    Quit,
    NoOp,
}

/// The action of `key` in `mode`: `ctrl+q` quits and `Esc` returns to command
/// mode in either mode; in command mode the arrows and `h`, `j`, `k`, `l`,
/// the paging keys and `Home` / `End` move the cursor, and `i` or `Insert`
/// enters insert mode. Every other key does nothing.
pub open spec fn action_of(key: Key, mode: Mode) -> Action {
    match key {
        Key::Ctrl(c) => if c == 'q' {
            Action::Quit
        } else {
            Action::NoOp
        },
        Key::Esc => Action::EnterCommand,
        _ => if mode == Mode::Insert {
            Action::NoOp
        } else {
            match key {
                Key::Left => Action::Move(Motion::Left),
                Key::Right => Action::Move(Motion::Right),
                Key::Up => Action::Move(Motion::Up),
                Key::Down => Action::Move(Motion::Down),
                Key::PageUp => Action::Move(Motion::PageUp),
                Key::PageDown => Action::Move(Motion::PageDown),
                Key::Home => Action::Move(Motion::Home),
                Key::End => Action::Move(Motion::End),
                Key::Insert => Action::EnterInsert,
                Key::Char(c) => if c == 'h' {
                    Action::Move(Motion::Left)
                } else if c == 'l' {
                    Action::Move(Motion::Right)
                } else if c == 'k' {
                    Action::Move(Motion::Up)
                } else if c == 'j' {
                    Action::Move(Motion::Down)
                } else if c == 'i' {
                    Action::EnterInsert
                } else {
                    Action::NoOp
                },
                _ => Action::NoOp,
            }
        },
    }
}

/// The `(rows, columns)` that a motion moves by on a `width` by `height`
/// screen: one step for the arrows, a screen height for the paging keys and
/// a screen width for `Home` and `End`.
pub open spec fn motion_delta(m: Motion, width: int, height: int) -> (int, int) {
    match m {
        Motion::Left => (0, -1),
        Motion::Right => (0, 1),
        Motion::Up => (-1, 0),
        Motion::Down => (1, 0),
        Motion::PageUp => (-height, 0),
        Motion::PageDown => (height, 0),
        Motion::Home => (0, -width),
        Motion::End => (0, width),
    }
}

/// The length of document row `row`, or 0 past the end.
pub open spec fn line_len(rows: Seq<Seq<char>>, row: int) -> nat {
    if 0 <= row < rows.len() {
        rows[row].len()
    } else {
        0
    }
}

/// `vp` after motion `m` in a document with rows `rows`.
pub open spec fn after_motion(vp: Viewport, m: Motion, rows: Seq<Seq<char>>) -> Viewport {
    let (dr, dc) = motion_delta(m, vp.width as int, vp.height as int);
    vp.moved(dr, dc, rows.len(), line_len(rows, vp.cursor_row as int))
}

/// The mode after `a`.
pub open spec fn mode_after(mode: Mode, a: Action) -> Mode {
    match a {
        Action::EnterInsert => Mode::Insert,
        Action::EnterCommand => Mode::Command,
        _ => mode,
    }
}

/// The viewport after `a`, in a document with rows `rows`.
pub open spec fn viewport_after(vp: Viewport, a: Action, rows: Seq<Seq<char>>) -> Viewport {
    match a {
        Action::Move(m) => after_motion(vp, m, rows),
        _ => vp,
    }
}

/// Classifies one key event in the given mode.
pub fn dispatch(key: Key, mode: Mode) -> (r: Action)
    ensures
        r == action_of(key, mode),
{
    match key {
        Key::Ctrl(c) => if c == 'q' {
            Action::Quit
        } else {
            Action::NoOp
        },
        Key::Esc => Action::EnterCommand,
        _ => match mode {
            Mode::Insert => Action::NoOp,
            Mode::Command => match key {
                Key::Left | Key::Char('h') => Action::Move(Motion::Left),
                Key::Right | Key::Char('l') => Action::Move(Motion::Right),
                Key::Up | Key::Char('k') => Action::Move(Motion::Up),
                Key::Down | Key::Char('j') => Action::Move(Motion::Down),
                Key::PageUp => Action::Move(Motion::PageUp),
                Key::PageDown => Action::Move(Motion::PageDown),
                Key::Home => Action::Move(Motion::Home),
                Key::End => Action::Move(Motion::End),
                Key::Insert | Key::Char('i') => Action::EnterInsert,
                _ => Action::NoOp,
            },
        },
    }
}

/// The state of one editing session.
pub struct Editor {
    /// Set by `ctrl+q`; the next frame is the last.
    pub should_quit: bool,
    pub mode: Mode,
    pub viewport: Viewport,
    pub document: Document,
}

impl Editor {
    /// The cursor row lies in the document (row 0 when it is empty).
    pub open spec fn cursor_in_document(&self) -> bool {
        self.viewport.cursor_row <= last_row(self.document@.len())
    }

    /// A session on a `width` by `height` screen with an empty document, in
    /// command mode, the cursor in the top left corner.
    pub fn new(width: u32, height: u32) -> (r: Editor)
        requires
            width >= 1,
            height >= 1,
        ensures
            !r.should_quit,
            r.mode == Mode::Command,
            r.viewport == (Viewport { width, height, scroll_offset: 0, cursor_row: 0, cursor_col: 0 }),
            r.viewport.wf(),
            r.document@ == Seq::<Seq<char>>::empty(),
            r.cursor_in_document(),
    {
        Editor {
            should_quit: false,
            mode: Mode::Command,
            viewport: Viewport::new(width, height),
            document: Document::new(),
        }
    }
    /// Replaces the document by `lines` and pulls the cursor row back into
    /// it when the new document is shorter.
    pub fn load(&mut self, lines: Vec<String>)
        requires
            old(self).viewport.wf(),
        ensures
            final(self).document@ == lines@.map_values(|s: String| s@),
            final(self).viewport == (Viewport {
                cursor_row: if old(self).viewport.cursor_row <= last_row(lines@.len()) {
                    old(self).viewport.cursor_row
                } else {
                    last_row(lines@.len()) as u32
                },
                ..old(self).viewport
            }),
            final(self).viewport.wf(),
            final(self).cursor_in_document(),
            final(self).mode == old(self).mode,
            final(self).should_quit == old(self).should_quit,
    {
        let last = max_row(lines.len());
        self.document.load(lines);
        if self.viewport.cursor_row > last {
            self.viewport.cursor_row = last;
        }
    }

    /// Moves the cursor by motion `m`, saturating at the edges of the
    /// document and of the current line.
    pub fn move_cursor(&mut self, m: Motion)
        requires
            old(self).viewport.wf(),
        ensures
            final(self).viewport == after_motion(old(self).viewport, m, old(self).document@),
            final(self).viewport.wf(),
            final(self).cursor_in_document(),
            final(self).document@ == old(self).document@,
            final(self).mode == old(self).mode,
            final(self).should_quit == old(self).should_quit,
    {
        let width = self.viewport.width as i64;
        let height = self.viewport.height as i64;
        let (delta_row, delta_col): (i64, i64) = match m {
            Motion::Left => (0, -1),
            Motion::Right => (0, 1),
            Motion::Up => (-1, 0),
            Motion::Down => (1, 0),
            Motion::PageUp => (-height, 0),
            Motion::PageDown => (height, 0),
            Motion::Home => (0, -width),
            Motion::End => (0, width),
        };
        let row_count = self.document.number_rows();
        let line_len = self.document.row_len(self.viewport.cursor_row as usize);
        self.viewport.move_cursor(delta_row, delta_col, row_count, line_len);
    }

    /// Handles one key event: moves the cursor, changes mode or marks the
    /// session as ending, as `action_of` says.
    pub fn process_keypress(&mut self, key: Key)
        requires
            old(self).viewport.wf(),
        ensures
            ({
                let a = action_of(key, old(self).mode);
                &&& final(self).viewport == viewport_after(
                    old(self).viewport,
                    a,
                    old(self).document@,
                )
                &&& final(self).mode == mode_after(old(self).mode, a)
                &&& final(self).should_quit == (old(self).should_quit || a == Action::Quit)
            }),
            final(self).viewport.wf(),
            final(self).document@ == old(self).document@,
            old(self).cursor_in_document() ==> final(self).cursor_in_document(),
    {
        match dispatch(key, self.mode) {
            Action::Move(m) => self.move_cursor(m),
            Action::EnterInsert => self.mode = Mode::Insert,
            Action::EnterCommand => self.mode = Mode::Command,
            Action::Quit => self.should_quit = true,
            Action::NoOp => {},
        }
    }

    /// Scrolls so that the cursor row is on screen.
    pub fn editor_scroll(&mut self)
        requires
            old(self).viewport.wf(),
        ensures
            final(self).viewport == old(self).viewport.scrolled(),
            final(self).viewport.wf(),
            final(self).viewport.cursor_visible(),
            final(self).document@ == old(self).document@,
            old(self).cursor_in_document() ==> final(self).cursor_in_document(),
            final(self).mode == old(self).mode,
            final(self).should_quit == old(self).should_quit,
    {
        self.viewport.scroll_to_cursor();
    }

    /// Scrolls to the cursor and returns the frame to write to the terminal;
    /// once the session is ending, that frame also clears the screen and says
    /// goodbye.
    pub fn refresh_screen(&mut self) -> (r: String)
        requires
            old(self).viewport.wf(),
        ensures
            final(self).viewport == old(self).viewport.scrolled(),
            final(self).viewport.wf(),
            final(self).document@ == old(self).document@,
            final(self).mode == old(self).mode,
            final(self).should_quit == old(self).should_quit,
            r@ == frame(old(self).document@, final(self).viewport, old(self).should_quit),
    {
        self.editor_scroll();
        render(&self.document, &self.viewport, self.should_quit)
    }
}

} // verus!
