//! The command vocabulary: every discrete user intent the detector can emit.

use vstd::prelude::*;

verus! {

/// Which way to resize when a secondary-modifier arrow or `=`/`-` fires.
#[derive(Debug, Clone, Copy, PartialEq, Eq, Structural)]
pub enum ResizeDirection {
    Up,
    Down,
    Left,
    Right,
    Both,
}

/// All user-facing commands of the app.
///
/// `CopyAll`, `HideOthers` and `FocusEditor` are reserved extension points:
/// they are part of the vocabulary but no controller consumes them yet.
/// The `bool` in `Resize` is the wide-step flag: a wide step moves by 30
/// units, a normal step by 10.
#[derive(Debug, Clone, Copy, PartialEq, Eq, Structural)]
pub enum Command {
    ZoomIn,
    ZoomOut,
    ZoomReset,
    Resize(ResizeDirection, bool),
    ResetSize,
    NewWindow,
    CloseWindow,
    Duplicate,
    StartDrag,
    CopyAll,
    HideOthers,
    FocusEditor,
}

} // verus!
