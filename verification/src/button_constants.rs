//! The slots of the binding table: one index for each input source that can
//! carry a binding.

use vstd::prelude::*;

verus! {

pub const W_BUTTON: usize = 0;

pub const A_BUTTON: usize = 1;

pub const S_BUTTON: usize = 2;

pub const D_BUTTON: usize = 3;

pub const MOUSE_LEFT: usize = 4;

pub const MOUSE_RIGHT: usize = 5;

pub const MOUSE_MIDDLE: usize = 6;

pub const SPACE_BAR: usize = 7;

pub const CTRL: usize = 8;

pub const J_BUTTON: usize = 9;

pub const L_BUTTON: usize = 10;

/// The number of slots in a binding table.
pub const BUTTON_COUNT: usize = 11;

} // verus!
