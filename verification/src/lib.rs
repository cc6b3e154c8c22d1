//! Core logic of a small single-window sticky-note widget.
//!
//! The library covers the three parts of the application that carry real
//! design decisions: the command detector that turns one input snapshot into
//! at most one [`command::Command`] per tick, the window-geometry controller
//! that applies zoom and resize commands under clamping invariants, and the
//! note-collection editor, a pure reducer over an ordered note list with an
//! exclusive inline-edit slot and externally driven reordering.
//!
//! Everything that touches the host toolkit (rendering, window-manager
//! requests, process spawning) stays outside; the library works on plain
//! values and hands new state back to the caller each tick.

pub mod command;
pub mod geometry;
pub mod input;
pub mod notes;
pub mod perm;
pub mod text;
