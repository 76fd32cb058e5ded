//! Core state machine of a terminal audio-file browser and player.
//!
//! The library holds the pure, verified logic: directory-listing
//! classification, path arithmetic on byte paths, navigation history,
//! and the key-driven application state machine.  All input/output
//! (terminal, audio device, filesystem) lives outside the library and
//! talks to it through plain values.

use vstd::prelude::*;

pub mod app;
pub mod history;
pub mod listing;
pub mod paths;

verus! {

/// A cursor into a list: `None` when the list is empty, otherwise a
/// valid index into it.
pub open spec fn cursor_ok(cursor: Option<usize>, len: nat) -> bool {
    match cursor {
        None => len == 0,
        Some(i) => i < len,
    }
}

} // verus!
