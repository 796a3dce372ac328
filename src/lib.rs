//! A minimal terminal text viewer: a read-only line buffer, a viewport that
//! keeps the cursor on screen, and a renderer that turns both into the
//! control sequences of one full redraw.

pub mod document;
pub mod editor;
pub mod render;
pub mod viewport;
