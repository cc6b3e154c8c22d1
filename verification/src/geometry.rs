//! The window-geometry controller: zoom and resize as a clamped state machine.
//!
//! Geometry is kept in plain integers. Width and height are logical pixels;
//! the UI scale is kept in hundredths, so a scale value of 115 stands for a
//! factor of 1.15 and a zoom step of 10 stands for 0.10. The host converts
//! to the toolkit's floating-point units at the boundary.
//!
//! Every command application clamps rather than rejects: dimensions never
//! fall below [`MIN_DIM`], the scale never falls below [`MIN_SCALE`], and
//! growth saturates at the machine limit instead of overflowing.

use vstd::prelude::*;

use crate::command::{Command, ResizeDirection};

verus! {

/// Smallest allowed width and height, in pixels.
pub const MIN_DIM: u32 = 150;

/// Default width and height: a 200-pixel base plus two wide steps per axis.
pub const DEFAULT_DIM: u32 = 260;

/// Smallest allowed UI scale, in hundredths (0.50).
pub const MIN_SCALE: u32 = 50;

/// Default UI scale, in hundredths (1.15).
pub const DEFAULT_SCALE: u32 = 115;

/// Normal resize step, in pixels: an unshifted arrow key.
pub const STEP: u32 = 10;

/// Wide resize step, in pixels: a shifted arrow key or the `=`/`-` pair.
pub const WIDE_STEP: u32 = 30;

/// Zoom step, in hundredths of the scale factor (0.10).
pub const ZOOM_STEP: u32 = 10;

/// The window's size and UI scale, owned by this controller alone.
#[derive(Debug, Clone, Copy, PartialEq, Eq, Structural)]
pub struct WindowGeometry {
    /// Window width in pixels.
    pub width: u32,
    /// Window height in pixels.
    pub height: u32,
    /// UI scale in hundredths.
    pub scale: u32,
}

/// `a + b` clamped to the `u32` range.
pub open spec fn sat_add(a: u32, b: u32) -> u32 {
    if a + b <= u32::MAX {
        (a + b) as u32
    } else {
        u32::MAX
    }
}

/// `a - b`, but never below the floor `lo`.
pub open spec fn shrink_to(a: u32, b: u32, lo: u32) -> u32 {
    if a - b >= lo {
        (a - b) as u32
    } else {
        lo
    }
}

impl WindowGeometry {
    /// The geometry invariants: dimensions at least [`MIN_DIM`], scale at
    /// least [`MIN_SCALE`].
    pub open spec fn wf(self) -> bool {
        &&& self.width >= MIN_DIM
        &&& self.height >= MIN_DIM
        &&& self.scale >= MIN_SCALE
    }

    /// What one command does to the geometry. Commands owned by other
    /// controllers leave it untouched.
    pub open spec fn spec_apply(self, c: Command) -> WindowGeometry {
        match c {
            Command::ZoomIn => WindowGeometry { scale: sat_add(self.scale, ZOOM_STEP), ..self },
            Command::ZoomOut => WindowGeometry {
                scale: shrink_to(self.scale, ZOOM_STEP, MIN_SCALE),
                ..self
            },
            Command::ZoomReset => WindowGeometry { scale: DEFAULT_SCALE, ..self },
            Command::Resize(dir, wide) => self.spec_resize(dir, wide),
            Command::ResetSize => WindowGeometry { width: DEFAULT_DIM, height: DEFAULT_DIM, ..self },
            _ => self,
        }
    }

    /// The resize table. Arrows step by the normal or wide step; `Both`
    /// always moves both dimensions by the wide step, growing on the
    /// unshifted variant and shrinking on the shifted one, whatever the
    /// wide flag of the arrows would say — the intentional asymmetry of the
    /// `=`/`-` pair.
    pub open spec fn spec_resize(self, dir: ResizeDirection, wide: bool) -> WindowGeometry {
        let step: u32 = if wide {
            WIDE_STEP
        } else {
            STEP
        };
        match dir {
            ResizeDirection::Up => WindowGeometry {
                height: shrink_to(self.height, step, MIN_DIM),
                ..self
            },
            ResizeDirection::Down => WindowGeometry { height: sat_add(self.height, step), ..self },
            ResizeDirection::Left => WindowGeometry {
                width: shrink_to(self.width, step, MIN_DIM),
                ..self
            },
            ResizeDirection::Right => WindowGeometry { width: sat_add(self.width, step), ..self },
            ResizeDirection::Both => {
                if wide {
                    WindowGeometry {
                        width: shrink_to(self.width, WIDE_STEP, MIN_DIM),
                        height: shrink_to(self.height, WIDE_STEP, MIN_DIM),
                        ..self
                    }
                } else {
                    WindowGeometry {
                        width: sat_add(self.width, WIDE_STEP),
                        height: sat_add(self.height, WIDE_STEP),
                        ..self
                    }
                }
            },
        }
    }

    /// The startup geometry: default size and scale.
    pub fn new() -> (g: WindowGeometry)
        ensures
            g == (WindowGeometry { width: DEFAULT_DIM, height: DEFAULT_DIM, scale: DEFAULT_SCALE }),
            g.wf(),
    {
        WindowGeometry { width: DEFAULT_DIM, height: DEFAULT_DIM, scale: DEFAULT_SCALE }
    }

    /// Apply one command, clamping instead of rejecting: the invariants hold
    /// afterwards whatever the command was.
    pub fn apply_command(&mut self, c: Command)
        requires
            old(self).wf(),
        ensures
            *final(self) == old(self).spec_apply(c),
            final(self).wf(),
    {
        match c {
            Command::ZoomIn => {
                self.scale = grow(self.scale, ZOOM_STEP);
            },
            Command::ZoomOut => {
                self.scale = shrink(self.scale, ZOOM_STEP, MIN_SCALE);
            },
            Command::ZoomReset => {
                self.scale = DEFAULT_SCALE;
            },
            Command::Resize(dir, wide) => {
                self.apply_resize(dir, wide);
            },
            Command::ResetSize => {
                self.width = DEFAULT_DIM;
                self.height = DEFAULT_DIM;
            },
            _ => {},
        }
    }

    /// Apply one resize step as [`Self::spec_resize`] lays it out.
    fn apply_resize(&mut self, dir: ResizeDirection, wide: bool)
        requires
            old(self).wf(),
        ensures
            *final(self) == old(self).spec_resize(dir, wide),
            final(self).wf(),
    {
        let step: u32 = if wide {
            WIDE_STEP
        } else {
            STEP
        };
        match dir {
            ResizeDirection::Up => {
                self.height = shrink(self.height, step, MIN_DIM);
            },
            ResizeDirection::Down => {
                self.height = grow(self.height, step);
            },
            ResizeDirection::Left => {
                self.width = shrink(self.width, step, MIN_DIM);
            },
            ResizeDirection::Right => {
                self.width = grow(self.width, step);
            },
            ResizeDirection::Both => {
                if wide {
                    self.width = shrink(self.width, WIDE_STEP, MIN_DIM);
                    self.height = shrink(self.height, WIDE_STEP, MIN_DIM);
                } else {
                    self.width = grow(self.width, WIDE_STEP);
                    self.height = grow(self.height, WIDE_STEP);
                }
            },
        }
    }
}

/// Saturating growth by one step.
fn grow(a: u32, b: u32) -> (r: u32)
    ensures
        r == sat_add(a, b),
{
    if a <= u32::MAX - b {
        a + b
    } else {
        u32::MAX
    }
}

/// Shrink by one step, clamped at the floor `lo`.
fn shrink(a: u32, b: u32, lo: u32) -> (r: u32)
    ensures
        r == shrink_to(a, b, lo),
{
    if a >= b && a - b >= lo {
        a - b
    } else {
        lo
    }
}

/// The geometry after `n` applications of the same command.
pub open spec fn apply_times(g: WindowGeometry, c: Command, n: nat) -> WindowGeometry
    decreases n,
{
    if n == 0 {
        g
    } else {
        apply_times(g, c, (n - 1) as nat).spec_apply(c)
    }
}

/// Repeated upward (shrinking) resizes converge onto the floor and never
/// pass it: after `n` normal steps the height is exactly
/// `max(MIN_DIM, height - n * STEP)`, and width and scale are untouched.
/// Once the floor is reached, further steps change nothing.
pub proof fn lemma_resize_up_converges(g: WindowGeometry, n: nat)
    requires
        g.wf(),
    ensures
        ({
            let r = apply_times(g, Command::Resize(ResizeDirection::Up, false), n);
            &&& r.height == if g.height - n * STEP >= MIN_DIM {
                g.height - n * STEP
            } else {
                MIN_DIM as int
            }
            &&& r.width == g.width
            &&& r.scale == g.scale
            &&& r.wf()
        }),
    decreases n,
{
    if n > 0 {
        lemma_resize_up_converges(g, (n - 1) as nat);
    }
}

/// Repeated zoom-outs converge onto the minimum scale and never pass it:
/// after `n` steps the scale is exactly `max(MIN_SCALE, scale - n * ZOOM_STEP)`
/// and the size is untouched. Once the minimum is reached, further steps
/// change nothing.
pub proof fn lemma_zoom_out_converges(g: WindowGeometry, n: nat)
    requires
        g.wf(),
    ensures
        ({
            let r = apply_times(g, Command::ZoomOut, n);
            &&& r.scale == if g.scale - n * ZOOM_STEP >= MIN_SCALE {
                g.scale - n * ZOOM_STEP
            } else {
                MIN_SCALE as int
            }
            &&& r.width == g.width
            &&& r.height == g.height
            &&& r.wf()
        }),
    decreases n,
{
    if n > 0 {
        lemma_zoom_out_converges(g, (n - 1) as nat);
    }
}

} // verus!
