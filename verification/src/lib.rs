//! Verified decision core of a three-thread interactive game loop: the
//! held-key reducer of the camera axes, the binding table that maps input
//! sources to actions, the dispatcher that turns one input event into a state
//! change and a request to the caller, the per-frame decisions of the frame
//! producer, the corner layout of a drawable quad and the assembly of a
//! frame's batch of vertices.
//!
//! Everything decided here is decided on integers and enums. World
//! coordinates, zoom extents and screen positions are real-valued: the
//! library hands such numbers on without computing with them, and the
//! program around it does the arithmetic that the dispatcher asks for.

pub mod axis;
pub mod button_constants;
pub mod controller_input;
pub mod game_state;
pub mod button_mapping;
pub mod controller;
pub mod primes;
pub mod drawable_object;
pub mod game_object;
pub mod frame;
