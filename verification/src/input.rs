//! The command detector: one raw input snapshot in, at most one command out.
//!
//! The host runtime captures the keys and modifiers once per tick into an
//! [`InputSnapshot`] of plain booleans and asks [`detect`] for the tick's
//! single user intent. The priority order is fixed: the accelerator-modifier
//! group is tested first, key by key; only when nothing in it matched is the
//! secondary-modifier group evaluated. The two groups are tested
//! independently — modifiers are not exclusive, so an accelerator modifier
//! that is held but matches no key of its group must not suppress the
//! secondary group.

use vstd::prelude::*;

use crate::command::{Command, ResizeDirection};

verus! {

/// The raw input state of one tick: held modifiers, keys newly pressed this
/// tick, and the primary pointer-press flag.
#[derive(Debug, Clone, Copy, PartialEq, Eq, Structural)]
pub struct InputSnapshot {
    /// The accelerator (command) modifier is held.
    pub command_held: bool,
    /// The secondary (alt/option) modifier is held.
    pub alt_held: bool,
    /// The shift modifier is held.
    pub shift_held: bool,
    /// `=` was newly pressed this tick.
    pub equals_pressed: bool,
    /// `-` was newly pressed this tick.
    pub minus_pressed: bool,
    /// `0` was newly pressed this tick.
    pub num0_pressed: bool,
    /// `N` was newly pressed this tick.
    pub n_pressed: bool,
    /// `W` was newly pressed this tick.
    pub w_pressed: bool,
    /// `D` was newly pressed this tick.
    pub d_pressed: bool,
    /// `C` was newly pressed this tick.
    pub c_pressed: bool,
    /// `H` was newly pressed this tick.
    pub h_pressed: bool,
    /// The up arrow was newly pressed this tick.
    pub arrow_up_pressed: bool,
    /// The down arrow was newly pressed this tick.
    pub arrow_down_pressed: bool,
    /// The left arrow was newly pressed this tick.
    pub arrow_left_pressed: bool,
    /// The right arrow was newly pressed this tick.
    pub arrow_right_pressed: bool,
    /// The primary pointer button was pressed this tick.
    pub pointer_primary_pressed: bool,
}

/// What the accelerator-modifier group alone would emit, first match wins.
pub open spec fn accelerator_command(s: InputSnapshot) -> Option<Command> {
    if !s.command_held {
        None
    } else if s.equals_pressed {
        Some(Command::ZoomIn)
    } else if s.minus_pressed {
        Some(Command::ZoomOut)
    } else if s.num0_pressed {
        Some(Command::ZoomReset)
    } else if s.n_pressed {
        Some(Command::NewWindow)
    } else if s.w_pressed {
        Some(Command::CloseWindow)
    } else if s.d_pressed {
        Some(Command::Duplicate)
    } else if s.shift_held && s.c_pressed {
        Some(Command::CopyAll)
    } else if s.shift_held && s.h_pressed {
        Some(Command::HideOthers)
    } else if s.pointer_primary_pressed {
        Some(Command::StartDrag)
    } else {
        None
    }
}

/// What the secondary-modifier group alone would emit, first match wins.
pub open spec fn secondary_command(s: InputSnapshot) -> Option<Command> {
    if !s.alt_held {
        None
    } else if s.num0_pressed {
        Some(Command::ResetSize)
    } else if s.arrow_up_pressed {
        Some(Command::Resize(ResizeDirection::Up, s.shift_held))
    } else if s.arrow_down_pressed {
        Some(Command::Resize(ResizeDirection::Down, s.shift_held))
    } else if s.arrow_left_pressed {
        Some(Command::Resize(ResizeDirection::Left, s.shift_held))
    } else if s.arrow_right_pressed {
        Some(Command::Resize(ResizeDirection::Right, s.shift_held))
    } else if s.equals_pressed {
        Some(Command::Resize(ResizeDirection::Both, false))
    } else if s.minus_pressed {
        Some(Command::Resize(ResizeDirection::Both, true))
    } else {
        None
    }
}

/// The tick's single command: the accelerator group wins outright, and the
/// secondary group is consulted only when the accelerator group emitted
/// nothing.
pub open spec fn spec_detect(s: InputSnapshot) -> Option<Command> {
    if accelerator_command(s) is Some {
        accelerator_command(s)
    } else {
        secondary_command(s)
    }
}

/// Inspect the snapshot and return the tick's one command, if any.
pub fn detect(s: &InputSnapshot) -> (r: Option<Command>)
    ensures
        r == spec_detect(*s),
{
    if s.command_held {
        if s.equals_pressed {
            return Some(Command::ZoomIn);
        }
        if s.minus_pressed {
            return Some(Command::ZoomOut);
        }
        if s.num0_pressed {
            return Some(Command::ZoomReset);
        }
        if s.n_pressed {
            return Some(Command::NewWindow);
        }
        if s.w_pressed {
            return Some(Command::CloseWindow);
        }
        if s.d_pressed {
            return Some(Command::Duplicate);
        }
        if s.shift_held && s.c_pressed {
            return Some(Command::CopyAll);
        }
        if s.shift_held && s.h_pressed {
            return Some(Command::HideOthers);
        }
        if s.pointer_primary_pressed {
            return Some(Command::StartDrag);
        }
    }
    if s.alt_held {
        if s.num0_pressed {
            return Some(Command::ResetSize);
        }
        if s.arrow_up_pressed {
            return Some(Command::Resize(ResizeDirection::Up, s.shift_held));
        }
        if s.arrow_down_pressed {
            return Some(Command::Resize(ResizeDirection::Down, s.shift_held));
        }
        if s.arrow_left_pressed {
            return Some(Command::Resize(ResizeDirection::Left, s.shift_held));
        }
        if s.arrow_right_pressed {
            return Some(Command::Resize(ResizeDirection::Right, s.shift_held));
        }
        if s.equals_pressed {
            return Some(Command::Resize(ResizeDirection::Both, false));
        }
        if s.minus_pressed {
            return Some(Command::Resize(ResizeDirection::Both, true));
        }
    }
    None
}

/// A tick yields one intent: whenever the accelerator group matches at all,
/// the detector's answer is exactly that group's command, whatever the
/// secondary group would have said.
pub proof fn lemma_accelerator_group_wins(s: InputSnapshot)
    requires
        accelerator_command(s) is Some,
    ensures
        spec_detect(s) == accelerator_command(s),
{
}

/// When the accelerator group matches nothing — even with its modifier held —
/// the secondary group still speaks: the two tiers are tested independently,
/// not chained by an `else`.
pub proof fn lemma_secondary_group_independent(s: InputSnapshot)
    requires
        accelerator_command(s) is None,
    ensures
        spec_detect(s) == secondary_command(s),
{
}

} // verus!
