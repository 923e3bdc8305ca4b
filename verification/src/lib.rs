//! Core of a keyboard-driven single-selection list widget for text
//! terminals: a line renderer that produces each row's exact text, and a
//! selection controller that tracks the highlighted index, classifies key
//! events into navigation and confirmation, and computes the erase-and-redraw
//! output for every move.
//!
//! The controller itself performs no input or output: it consumes key events
//! handed to it one at a time and appends the rendered rows to its output
//! buffer, while returning the cursor-control text that a caller should send
//! to the terminal. The blocking event loop around it lives outside this
//! library.
use vstd::prelude::*;

pub mod ansi;
pub mod keys;
pub mod line;
pub mod select;

verus! {

/// Direction of a successful navigation move, reported to the caller after
/// each change of the highlighted index.
#[derive(Debug, PartialEq, Eq, Structural, Clone, Copy)]
pub enum SelectDialogKey {
    UpKey,
    DownKey,
}

} // verus!
