//! The part of the shared world state that the dispatcher and the frame
//! producer decide on.

use vstd::prelude::*;
use crate::axis::CamKeyPressed;

verus! {

/// Half the width of the world that is visible at startup, in tenths of a
/// world unit. With the height below it gives the aspect ratio 16:9.
pub const STARTUP_HALF_WIDTH_TENTHS: u32 = 16;

/// Half the height of the world that is visible at startup, in tenths of a
/// world unit.
pub const STARTUP_HALF_HEIGHT_TENTHS: u32 = 9;

/// By how much one line of the mouse wheel changes the viewport half-extent
/// on both axes, in tenths of a world unit.
pub const ZOOM_STEP_TENTHS: u32 = 1;

/// The discrete world state: the window's size in pixels and the held-key
/// state of the two camera axes.
#[derive(Clone, Copy, Debug)]
pub struct GameState {
    /// Which part of the game is running.
    pub game_state_id: u8,
    /// Last known physical window size, width then height.
    pub window_dimensions: (u32, u32),
    /// Held-key state of the horizontal and of the vertical camera axis.
    pub camera_movement: (CamKeyPressed, CamKeyPressed),
}

impl PartialEq for GameState {
    fn eq(&self, other: &Self) -> (r: bool) {
        self.game_state_id == other.game_state_id
            && self.window_dimensions.0 == other.window_dimensions.0
            && self.window_dimensions.1 == other.window_dimensions.1
            && self.camera_movement.0 == other.camera_movement.0
            && self.camera_movement.1 == other.camera_movement.1
    }
}

impl Eq for GameState {

}

impl vstd::std_specs::cmp::PartialEqSpecImpl for GameState {
    open spec fn obeys_eq_spec() -> bool {
        true
    }

    open spec fn eq_spec(&self, other: &Self) -> bool {
        *self == *other
    }
}

impl GameState {
    /// The state at startup: the given window size and no movement key held.
    pub fn new(window_dimensions: (u32, u32)) -> (r: GameState)
        ensures
            r == (GameState {
                game_state_id: 1,
                window_dimensions,
                camera_movement: (CamKeyPressed::Neither, CamKeyPressed::Neither),
            }),
    {
        GameState {
            game_state_id: 1,
            window_dimensions,
            camera_movement: (CamKeyPressed::Neither, CamKeyPressed::Neither),
        }
    }
}

} // verus!
