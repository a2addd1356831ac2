//! The input dispatcher and the decisions of the frame producer.
//!
//! The dispatcher takes one input event, changes the discrete world state
//! and answers with a [`Request`]: what the caller has to do to the
//! real-valued part of the world, which this library does not hold. The
//! frame producer asks once per frame whether to go on and in which
//! direction the camera moves.

use vstd::prelude::*;
use crate::axis::{AxisEvent, CamKeyPressed};
use crate::button_constants::{MOUSE_LEFT, MOUSE_MIDDLE, MOUSE_RIGHT, W_BUTTON};
use crate::button_mapping::{
    bound_function,
    default_keybinds,
    key_action_pressed,
    key_action_released,
    lookup,
    slot_of_key,
};
use crate::controller_input::{
    ControllerInput,
    ElementState,
    MouseButton,
    MouseInputType,
    MouseScrollDelta,
    VirtualKeyCode,
};
use crate::game_state::GameState;

verus! {

/// The discrete zoom levels that a binding can select.
#[derive(Clone, Copy, Debug, PartialEq, Eq, Structural)]
pub enum ZoomLevel {
    /// Half-extent 1 on both axes.
    Regular,
    /// Half-extent 2 on both axes: twice as much of the world is visible.
    Double,
    /// Half-extent one half on both axes.
    Half,
}

impl ZoomLevel {
    /// The viewport half-extent of the level in tenths of a world unit.
    pub open spec fn tenths(self) -> int {
        match self {
            ZoomLevel::Regular => 10,
            ZoomLevel::Double => 20,
            ZoomLevel::Half => 5,
        }
    }

    /// The viewport half-extent of the level, on both axes, in tenths of a
    /// world unit: 10 for `Regular`, 20 for `Double`, 5 for `Half`.
    pub fn half_extent_in_tenths(self) -> (r: u32)
        ensures
            r == self.tenths(),
            r > 0,
    {
        match self {
            ZoomLevel::Regular => 10,
            ZoomLevel::Double => 20,
            ZoomLevel::Half => 5,
        }
    }
}

/// The direction of one line of the mouse wheel.
#[derive(Clone, Copy, Debug, PartialEq, Eq, Structural)]
pub enum WheelDirection {
    /// A vertical line count of plus one.
    Up,
    /// A vertical line count of minus one.
    Down,
}

impl WheelDirection {
    /// The vertical line count that the direction stands for: 1 for `Up`,
    /// -1 for `Down`.
    pub fn lines(self) -> (r: i8)
        ensures
            self == WheelDirection::Up ==> r == 1,
            self == WheelDirection::Down ==> r == -1,
    {
        match self {
            WheelDirection::Up => 1,
            WheelDirection::Down => -1,
        }
    }
}

/// What a bound action leaves for the caller to do.
#[derive(Clone, Copy, Debug, PartialEq, Eq, Structural)]
pub enum Effect {
    /// Nothing beyond the state change the action already made.
    Nothing,
    /// Zoom by one wheel line in the given direction, then project the
    /// unmoved cursor again.
    ZoomByLine(WheelDirection),
    /// Overwrite the viewport half-extent with that of the level.
    SetViewport(ZoomLevel),
    /// Add a debug object to the dynamic objects at the cursor's world
    /// position.
    PlaceDebugObject,
}

/// What the dispatcher asks of the caller after an event.
#[derive(Debug, PartialEq)]
pub enum Request<N> {
    /// Take this pixel position as the new cursor position and project it
    /// into the world.
    MoveCursor(N, N),
    /// Zoom by this many wheel lines, then project the unmoved cursor again.
    Zoom(N),
    /// Do what the bound action left to do.
    Perform(Effect),
}

impl<N: Copy> Clone for Request<N> {
    fn clone(&self) -> (r: Self)
        ensures
            r == *self,
    {
        *self
    }
}

impl<N: Copy> Copy for Request<N> {

}

/// The actions that a slot of the binding table can hold.
#[derive(Clone, Copy, Debug, PartialEq, Eq, Structural)]
pub enum KeyboundFunction {
    /// Do nothing.
    NoAction,
    /// Press the positive key of the vertical axis.
    CameraDownAction,
    /// Press the negative key of the vertical axis.
    CameraUpAction,
    /// Press the positive key of the horizontal axis.
    CameraRightAction,
    /// Press the negative key of the horizontal axis.
    CameraLeftAction,
    /// Release the positive key of the vertical axis.
    CameraDownActionReleased,
    /// Release the negative key of the vertical axis.
    CameraUpActionReleased,
    /// Release the positive key of the horizontal axis.
    CameraRightActionReleased,
    /// Release the negative key of the horizontal axis.
    CameraLeftActionReleased,
    /// Select the regular zoom level.
    HalfScreenWidthIngameRegular,
    /// Select the zoom level that shows twice as much.
    HalfScreenWidthIngame2Times,
    /// Select the zoom level that shows half as much.
    HalfScreenWidthIngamePoint5Times,
    /// Place a debug object at the cursor.
    PlaceDebugObjectAction,
    /// Act as one wheel line up.
    SimulateMouseWheelUp,
    /// Act as one wheel line down.
    SimulateMouseWheelDown,
}

impl GameState {
    /// The state after `event` on the horizontal camera axis.
    pub open spec fn horizontal_key(self, event: AxisEvent) -> GameState {
        GameState {
            camera_movement: (self.camera_movement.0.next(event), self.camera_movement.1),
            ..self
        }
    }

    /// The state after `event` on the vertical camera axis.
    pub open spec fn vertical_key(self, event: AxisEvent) -> GameState {
        GameState {
            camera_movement: (self.camera_movement.0, self.camera_movement.1.next(event)),
            ..self
        }
    }

    /// The state after the window took the size `dimensions`.
    pub open spec fn resized(self, dimensions: (u32, u32)) -> GameState {
        GameState { window_dimensions: dimensions, ..self }
    }
}

/// What a bound action does: the state it leaves and the effect it asks for.
pub open spec fn function_outcome(function: KeyboundFunction, state: GameState) -> (
    GameState,
    Effect,
) {
    match function {
        KeyboundFunction::NoAction => (state, Effect::Nothing),
        KeyboundFunction::CameraDownAction => (
            state.vertical_key(AxisEvent::PressPositive),
            Effect::Nothing,
        ),
        KeyboundFunction::CameraUpAction => (
            state.vertical_key(AxisEvent::PressNegative),
            Effect::Nothing,
        ),
        KeyboundFunction::CameraRightAction => (
            state.horizontal_key(AxisEvent::PressPositive),
            Effect::Nothing,
        ),
        KeyboundFunction::CameraLeftAction => (
            state.horizontal_key(AxisEvent::PressNegative),
            Effect::Nothing,
        ),
        KeyboundFunction::CameraDownActionReleased => (
            state.vertical_key(AxisEvent::ReleasePositive),
            Effect::Nothing,
        ),
        KeyboundFunction::CameraUpActionReleased => (
            state.vertical_key(AxisEvent::ReleaseNegative),
            Effect::Nothing,
        ),
        KeyboundFunction::CameraRightActionReleased => (
            state.horizontal_key(AxisEvent::ReleasePositive),
            Effect::Nothing,
        ),
        KeyboundFunction::CameraLeftActionReleased => (
            state.horizontal_key(AxisEvent::ReleaseNegative),
            Effect::Nothing,
        ),
        KeyboundFunction::HalfScreenWidthIngameRegular => (
            state,
            Effect::SetViewport(ZoomLevel::Regular),
        ),
        KeyboundFunction::HalfScreenWidthIngame2Times => (
            state,
            Effect::SetViewport(ZoomLevel::Double),
        ),
        KeyboundFunction::HalfScreenWidthIngamePoint5Times => (
            state,
            Effect::SetViewport(ZoomLevel::Half),
        ),
        KeyboundFunction::PlaceDebugObjectAction => (state, Effect::PlaceDebugObject),
        KeyboundFunction::SimulateMouseWheelUp => (
            state,
            Effect::ZoomByLine(WheelDirection::Up),
        ),
        KeyboundFunction::SimulateMouseWheelDown => (
            state,
            Effect::ZoomByLine(WheelDirection::Down),
        ),
    }
}

/// What a slot's content does: a bound action runs, an empty slot changes
/// nothing.
pub open spec fn bound_outcome(bound: Option<KeyboundFunction>, state: GameState) -> (
    GameState,
    Effect,
) {
    match bound {
        Some(function) => function_outcome(function, state),
        None => (state, Effect::Nothing),
    }
}

/// The slot of the binding table that a mouse button looks up, if it has one.
pub open spec fn slot_of_button(button: MouseButton) -> Option<usize> {
    match button {
        MouseButton::Left => Some(MOUSE_LEFT),
        MouseButton::Right => Some(MOUSE_RIGHT),
        MouseButton::Middle => Some(MOUSE_MIDDLE),
        MouseButton::Other(_) => None,
    }
}

/// What the dispatcher does with a scroll event: a line delta zooms by its
/// vertical amount, a pixel delta is ignored.
pub open spec fn scroll_request<N>(delta: MouseScrollDelta<N>) -> Request<N> {
    match delta {
        MouseScrollDelta::LineDelta(_, vertical) => Request::Zoom(vertical),
        MouseScrollDelta::PixelDelta(_, _) => Request::Perform(Effect::Nothing),
    }
}

/// What the dispatcher does with a click: it runs what the button's slot
/// holds for a press or a release.
pub open spec fn click_outcome(
    button: MouseButton,
    element_state: ElementState,
    keybinds: Seq<(Option<KeyboundFunction>, Option<KeyboundFunction>)>,
    state: GameState,
) -> (GameState, Effect) {
    bound_outcome(bound_function(keybinds, slot_of_button(button), element_state), state)
}

/// What the dispatcher does with a mouse event.
pub open spec fn mouse_outcome<N>(
    action: MouseInputType<N>,
    keybinds: Seq<(Option<KeyboundFunction>, Option<KeyboundFunction>)>,
    state: GameState,
) -> (GameState, Request<N>) {
    match action {
        MouseInputType::Move(x, y) => (state, Request::MoveCursor(x, y)),
        MouseInputType::Click { button, state: element_state } => (
            click_outcome(button, element_state, keybinds, state).0,
            Request::Perform(click_outcome(button, element_state, keybinds, state).1),
        ),
        MouseInputType::Scroll { delta, phase: _ } => (state, scroll_request(delta)),
        MouseInputType::LeftWindow => (state, Request::Perform(Effect::Nothing)),
        MouseInputType::EnteredWindow => (state, Request::Perform(Effect::Nothing)),
    }
}

/// What the dispatcher does with a key event.
pub open spec fn keyboard_outcome(
    key: Option<VirtualKeyCode>,
    element_state: ElementState,
    keybinds: Seq<(Option<KeyboundFunction>, Option<KeyboundFunction>)>,
    state: GameState,
) -> (GameState, Effect) {
    match key {
        Some(code) => bound_outcome(
            bound_function(keybinds, slot_of_key(code), element_state),
            state,
        ),
        None => (state, Effect::Nothing),
    }
}

/// What the dispatcher does with an input event: the state it leaves and
/// what it asks of the caller.
pub open spec fn input_outcome<N>(
    input: ControllerInput<N>,
    keybinds: Seq<(Option<KeyboundFunction>, Option<KeyboundFunction>)>,
    state: GameState,
) -> (GameState, Request<N>) {
    match input {
        ControllerInput::MouseInput { action } => mouse_outcome(action, keybinds, state),
        ControllerInput::KeyboardInput { key, state: element_state } => (
            keyboard_outcome(key, element_state, keybinds, state).0,
            Request::Perform(keyboard_outcome(key, element_state, keybinds, state).1),
        ),
        ControllerInput::WindowResized { dimensions } => (
            state.resized(dimensions),
            Request::Perform(Effect::Nothing),
        ),
    }
}

/// Does nothing.
pub fn no_action(game_state: &mut GameState)
    ensures
        *final(game_state) == *old(game_state),
{
}

/// The key that moves the camera down went down: a press of the positive key
/// of the vertical axis.
pub fn camera_down_action(game_state: &mut GameState)
    ensures
        *final(game_state) == old(game_state).vertical_key(AxisEvent::PressPositive),
{
    match game_state.camera_movement.1 {
        CamKeyPressed::Positive => (),
        CamKeyPressed::Negative => game_state.camera_movement.1 = CamKeyPressed::Both,
        CamKeyPressed::Neither => game_state.camera_movement.1 = CamKeyPressed::Positive,
        CamKeyPressed::Both => (),
    }
}

/// The key that moves the camera up went down: a press of the negative key
/// of the vertical axis.
pub fn camera_up_action(game_state: &mut GameState)
    ensures
        *final(game_state) == old(game_state).vertical_key(AxisEvent::PressNegative),
{
    match game_state.camera_movement.1 {
        CamKeyPressed::Positive => game_state.camera_movement.1 = CamKeyPressed::Both,
        CamKeyPressed::Negative => (),
        CamKeyPressed::Neither => game_state.camera_movement.1 = CamKeyPressed::Negative,
        CamKeyPressed::Both => (),
    }
}

/// The key that moves the camera right went down: a press of the positive
/// key of the horizontal axis.
pub fn camera_right_action(game_state: &mut GameState)
    ensures
        *final(game_state) == old(game_state).horizontal_key(AxisEvent::PressPositive),
{
    match game_state.camera_movement.0 {
        CamKeyPressed::Positive => (),
        CamKeyPressed::Negative => game_state.camera_movement.0 = CamKeyPressed::Both,
        CamKeyPressed::Neither => game_state.camera_movement.0 = CamKeyPressed::Positive,
        CamKeyPressed::Both => (),
    }
}

/// The key that moves the camera left went down: a press of the negative key
/// of the horizontal axis.
pub fn camera_left_action(game_state: &mut GameState)
    ensures
        *final(game_state) == old(game_state).horizontal_key(AxisEvent::PressNegative),
{
    match game_state.camera_movement.0 {
        CamKeyPressed::Positive => game_state.camera_movement.0 = CamKeyPressed::Both,
        CamKeyPressed::Negative => (),
        CamKeyPressed::Neither => game_state.camera_movement.0 = CamKeyPressed::Negative,
        CamKeyPressed::Both => (),
    }
}

/// The key that moves the camera down went up.
pub fn camera_down_action_released(game_state: &mut GameState)
    ensures
        *final(game_state) == old(game_state).vertical_key(AxisEvent::ReleasePositive),
{
    match game_state.camera_movement.1 {
        CamKeyPressed::Positive => game_state.camera_movement.1 = CamKeyPressed::Neither,
        CamKeyPressed::Negative => (),
        CamKeyPressed::Neither => (),
        CamKeyPressed::Both => game_state.camera_movement.1 = CamKeyPressed::Negative,
    }
}

/// The key that moves the camera up went up.
pub fn camera_up_action_released(game_state: &mut GameState)
    ensures
        *final(game_state) == old(game_state).vertical_key(AxisEvent::ReleaseNegative),
{
    match game_state.camera_movement.1 {
        CamKeyPressed::Positive => (),
        CamKeyPressed::Negative => game_state.camera_movement.1 = CamKeyPressed::Neither,
        CamKeyPressed::Neither => (),
        CamKeyPressed::Both => game_state.camera_movement.1 = CamKeyPressed::Positive,
    }
}

/// The key that moves the camera right went up.
pub fn camera_right_action_released(game_state: &mut GameState)
    ensures
        *final(game_state) == old(game_state).horizontal_key(AxisEvent::ReleasePositive),
{
    match game_state.camera_movement.0 {
        CamKeyPressed::Positive => game_state.camera_movement.0 = CamKeyPressed::Neither,
        CamKeyPressed::Negative => (),
        CamKeyPressed::Neither => (),
        CamKeyPressed::Both => game_state.camera_movement.0 = CamKeyPressed::Negative,
    }
}

/// The key that moves the camera left went up.
pub fn camera_left_action_released(game_state: &mut GameState)
    ensures
        *final(game_state) == old(game_state).horizontal_key(AxisEvent::ReleaseNegative),
{
    match game_state.camera_movement.0 {
        CamKeyPressed::Positive => (),
        CamKeyPressed::Negative => game_state.camera_movement.0 = CamKeyPressed::Neither,
        CamKeyPressed::Neither => (),
        CamKeyPressed::Both => game_state.camera_movement.0 = CamKeyPressed::Positive,
    }
}

/// Selects the regular zoom level.
pub fn half_screen_width_ingame_regular() -> (effect: Effect)
    ensures
        effect == Effect::SetViewport(ZoomLevel::Regular),
{
    Effect::SetViewport(ZoomLevel::Regular)
}

/// Selects the zoom level that shows twice as much of the world.
pub fn half_screen_width_ingame_2times() -> (effect: Effect)
    ensures
        effect == Effect::SetViewport(ZoomLevel::Double),
{
    Effect::SetViewport(ZoomLevel::Double)
}

/// Selects the zoom level that shows half as much of the world.
pub fn half_screen_width_ingame_point5times() -> (effect: Effect)
    ensures
        effect == Effect::SetViewport(ZoomLevel::Half),
{
    Effect::SetViewport(ZoomLevel::Half)
}

/// Asks for a debug object at the cursor.
pub fn place_debug_object_action() -> (effect: Effect)
    ensures
        effect == Effect::PlaceDebugObject,
{
    Effect::PlaceDebugObject
}

/// Stands for one line of the wheel turned up.
pub fn simulate_mouse_wheel_up() -> (effect: Effect)
    ensures
        effect == Effect::ZoomByLine(WheelDirection::Up),
{
    Effect::ZoomByLine(WheelDirection::Up)
}

/// Stands for one line of the wheel turned down.
pub fn simulate_mouse_wheel_down() -> (effect: Effect)
    ensures
        effect == Effect::ZoomByLine(WheelDirection::Down),
{
    Effect::ZoomByLine(WheelDirection::Down)
}

/// Runs a bound action on the state and returns the effect it asks for.
pub fn run_function(function: KeyboundFunction, game_state: &mut GameState) -> (effect: Effect)
    ensures
        (*final(game_state), effect) == function_outcome(function, *old(game_state)),
{
    match function {
        KeyboundFunction::NoAction => {
            no_action(game_state);
            Effect::Nothing
        },
        KeyboundFunction::CameraDownAction => {
            camera_down_action(game_state);
            Effect::Nothing
        },
        KeyboundFunction::CameraUpAction => {
            camera_up_action(game_state);
            Effect::Nothing
        },
        KeyboundFunction::CameraRightAction => {
            camera_right_action(game_state);
            Effect::Nothing
        },
        KeyboundFunction::CameraLeftAction => {
            camera_left_action(game_state);
            Effect::Nothing
        },
        KeyboundFunction::CameraDownActionReleased => {
            camera_down_action_released(game_state);
            Effect::Nothing
        },
        KeyboundFunction::CameraUpActionReleased => {
            camera_up_action_released(game_state);
            Effect::Nothing
        },
        KeyboundFunction::CameraRightActionReleased => {
            camera_right_action_released(game_state);
            Effect::Nothing
        },
        KeyboundFunction::CameraLeftActionReleased => {
            camera_left_action_released(game_state);
            Effect::Nothing
        },
        KeyboundFunction::HalfScreenWidthIngameRegular => half_screen_width_ingame_regular(),
        KeyboundFunction::HalfScreenWidthIngame2Times => half_screen_width_ingame_2times(),
        KeyboundFunction::HalfScreenWidthIngamePoint5Times => {
            half_screen_width_ingame_point5times()
        },
        KeyboundFunction::PlaceDebugObjectAction => place_debug_object_action(),
        KeyboundFunction::SimulateMouseWheelUp => simulate_mouse_wheel_up(),
        KeyboundFunction::SimulateMouseWheelDown => simulate_mouse_wheel_down(),
    }
}

/// Runs what a slot holds: the bound action, or nothing for an empty slot.
pub fn run_bound(bound: Option<KeyboundFunction>, game_state: &mut GameState) -> (effect: Effect)
    ensures
        (*final(game_state), effect) == bound_outcome(bound, *old(game_state)),
{
    match bound {
        Some(function) => run_function(function, game_state),
        None => Effect::Nothing,
    }
}

/// The cursor moved: the state stays as it is, and the caller is asked to
/// take over the new position.
pub fn mouse_moved_action<N>(x: N, y: N) -> (request: Request<N>)
    ensures
        request == Request::MoveCursor(x, y),
{
    Request::MoveCursor(x, y)
}

/// Handles a scroll event. A line delta zooms by its vertical amount; a
/// pixel delta is ignored. The binding table has no part in this.
pub fn process_mouse_scroll<N>(delta: MouseScrollDelta<N>) -> (request: Request<N>)
    ensures
        request == scroll_request(delta),
{
    match delta {
        MouseScrollDelta::LineDelta(_, vertical) => Request::Zoom(vertical),
        MouseScrollDelta::PixelDelta(_, _) => Request::Perform(Effect::Nothing),
    }
}

/// Handles a click: runs what the button's slot holds for a press or a
/// release. A button without a slot is ignored.
pub fn process_mouse_click(
    button: MouseButton,
    state: ElementState,
    game_state: &mut GameState,
    keybinds: &Vec<(Option<KeyboundFunction>, Option<KeyboundFunction>)>,
) -> (effect: Effect)
    ensures
        (*final(game_state), effect) == click_outcome(
            button,
            state,
            keybinds@,
            *old(game_state),
        ),
{
    match button {
        MouseButton::Left => run_bound(lookup(keybinds, MOUSE_LEFT, state), game_state),
        MouseButton::Right => run_bound(lookup(keybinds, MOUSE_RIGHT, state), game_state),
        MouseButton::Middle => run_bound(lookup(keybinds, MOUSE_MIDDLE, state), game_state),
        MouseButton::Other(_) => Effect::Nothing,
    }
}

/// Handles a mouse event. A move asks for the cursor to be taken over, a
/// click runs what the button's slot holds, a scroll zooms, and entering or
/// leaving the window does nothing.
pub fn process_mouse_input<N>(
    action: MouseInputType<N>,
    game_state: &mut GameState,
    keybinds: &Vec<(Option<KeyboundFunction>, Option<KeyboundFunction>)>,
) -> (request: Request<N>)
    ensures
        (*final(game_state), request) == mouse_outcome(action, keybinds@, *old(game_state)),
{
    match action {
        MouseInputType::Move(x, y) => mouse_moved_action(x, y),
        MouseInputType::Click { button, state } => Request::Perform(
            process_mouse_click(button, state, game_state, keybinds),
        ),
        MouseInputType::Scroll { delta, phase: _ } => process_mouse_scroll(delta),
        MouseInputType::EnteredWindow => Request::Perform(Effect::Nothing),
        MouseInputType::LeftWindow => Request::Perform(Effect::Nothing),
    }
}

/// Handles a key event. A key that the platform could not name is ignored.
pub fn process_keyboard_input(
    key_input: Option<VirtualKeyCode>,
    state: ElementState,
    game_state: &mut GameState,
    keybinds: &Vec<(Option<KeyboundFunction>, Option<KeyboundFunction>)>,
) -> (effect: Effect)
    ensures
        (*final(game_state), effect) == keyboard_outcome(
            key_input,
            state,
            keybinds@,
            *old(game_state),
        ),
{
    match key_input {
        Some(key) => match state {
            ElementState::Pressed => key_action_pressed(key, game_state, keybinds),
            ElementState::Released => key_action_released(key, game_state, keybinds),
        },
        None => Effect::Nothing,
    }
}

/// Dispatches one input event: changes the state as the event and the
/// binding table say and returns what is left for the caller to do.
pub fn handle_input<N>(
    input: ControllerInput<N>,
    game_state: &mut GameState,
    keybinds: &Vec<(Option<KeyboundFunction>, Option<KeyboundFunction>)>,
) -> (request: Request<N>)
    ensures
        (*final(game_state), request) == input_outcome(input, keybinds@, *old(game_state)),
{
    match input {
        ControllerInput::MouseInput { action } => process_mouse_input(
            action,
            game_state,
            keybinds,
        ),
        ControllerInput::KeyboardInput { key, state } => Request::Perform(
            process_keyboard_input(key, state, game_state, keybinds),
        ),
        ControllerInput::WindowResized { dimensions } => {
            game_state.window_dimensions = dimensions;
            Request::Perform(Effect::Nothing)
        },
    }
}

/// How one turn of the input loop ended.
#[derive(Debug, PartialEq)]
pub enum InputTurn<N> {
    /// An event was dispatched; the loop does what is asked and goes on.
    Handled(Request<N>),
    /// The queue was closed after the run flag had been cleared: the loop
    /// ends as planned.
    Stopped,
    /// The queue was closed while the run flag was still set: the loop ends
    /// and reports the lost connection.
    Disconnected,
}

impl<N: Copy> Clone for InputTurn<N> {
    fn clone(&self) -> (r: Self)
        ensures
            r == *self,
    {
        *self
    }
}

impl<N: Copy> Copy for InputTurn<N> {

}

/// What a turn of the input loop comes to, given what the queue delivered
/// (`None` once all senders are gone) and the run flag as read after that.
pub open spec fn turn_outcome<N>(
    received: Option<ControllerInput<N>>,
    still_running: bool,
    keybinds: Seq<(Option<KeyboundFunction>, Option<KeyboundFunction>)>,
    state: GameState,
) -> (GameState, InputTurn<N>) {
    match received {
        Some(input) => (
            input_outcome(input, keybinds, state).0,
            InputTurn::Handled(input_outcome(input, keybinds, state).1),
        ),
        None => (
            state,
            if still_running {
                InputTurn::Disconnected
            } else {
                InputTurn::Stopped
            },
        ),
    }
}

/// One turn of the input loop. An event that arrived is dispatched, whatever
/// the run flag says. A closed queue ends the loop without touching the
/// state: as a planned stop if the run flag is already cleared, as a lost
/// connection otherwise.
pub fn handle_input_turn<N>(
    received: Option<ControllerInput<N>>,
    still_running: bool,
    game_state: &mut GameState,
    keybinds: &Vec<(Option<KeyboundFunction>, Option<KeyboundFunction>)>,
) -> (turn: InputTurn<N>)
    ensures
        (*final(game_state), turn) == turn_outcome(
            received,
            still_running,
            keybinds@,
            *old(game_state),
        ),
{
    match received {
        Some(input) => InputTurn::Handled(handle_input(input, game_state, keybinds)),
        None => if still_running {
            InputTurn::Disconnected
        } else {
            InputTurn::Stopped
        },
    }
}

/// What the frame producer does in one iteration.
#[derive(Clone, Copy, Debug, PartialEq, Eq, Structural)]
pub enum FrameStep {
    /// The run flag is cleared: leave the loop without publishing a batch.
    Stop,
    /// Move the camera and publish a batch. `horizontal` and `vertical` are
    /// the signs, each 1, 0 or -1, by which speed, elapsed time and viewport
    /// half-extent are multiplied to get the camera's displacement.
    Produce { horizontal: i8, vertical: i8 },
}

/// The frame producer's decision for a run flag and a state.
pub open spec fn frame_outcome(running: bool, state: GameState) -> FrameStep {
    if running {
        FrameStep::Produce {
            horizontal: state.camera_movement.0.direction() as i8,
            vertical: state.camera_movement.1.direction() as i8,
        }
    } else {
        FrameStep::Stop
    }
}

/// Decides one iteration of the frame producer: stop as soon as the run flag
/// is cleared, else produce a frame with the camera moving along each axis
/// in the direction of the key that is held alone, and not at all where no
/// key or both keys are held.
pub fn communication_step(running: bool, game_state: &GameState) -> (step: FrameStep)
    ensures
        step == frame_outcome(running, *game_state),
        running ==> (step matches FrameStep::Produce { horizontal, vertical }
            && horizontal == game_state.camera_movement.0.direction()
            && vertical == game_state.camera_movement.1.direction()),
        !running ==> step == FrameStep::Stop,
{
    if running {
        FrameStep::Produce {
            horizontal: game_state.camera_movement.0.sign(),
            vertical: game_state.camera_movement.1.sign(),
        }
    } else {
        FrameStep::Stop
    }
}

/// Dispatching never changes the game's phase; only a resize changes the
/// window size, and it changes nothing else; pointer moves, scrolls and
/// resizes never change which movement keys count as held.
pub proof fn lemma_dispatch_touches_only_its_part<N>(
    input: ControllerInput<N>,
    keybinds: Seq<(Option<KeyboundFunction>, Option<KeyboundFunction>)>,
    state: GameState,
)
    ensures
        input_outcome(input, keybinds, state).0.game_state_id == state.game_state_id,
        input is WindowResized ==> input_outcome(input, keybinds, state) == (
            state.resized(input->dimensions),
            Request::<N>::Perform(Effect::Nothing),
        ),
        !(input is WindowResized) ==> input_outcome(input, keybinds, state).0.window_dimensions
            == state.window_dimensions,
        (input is WindowResized || (input matches ControllerInput::MouseInput { action }
            && !(action is Click))) ==> input_outcome(input, keybinds, state).0.camera_movement
            == state.camera_movement,
{
}

/// An input without a binding is dropped: a key that has no slot, a button
/// that has none, a slot beyond the end of the table and an empty slot all
/// leave the state as it is and ask for nothing.
pub proof fn lemma_unbound_input_is_dropped(
    slot: Option<usize>,
    element_state: ElementState,
    keybinds: Seq<(Option<KeyboundFunction>, Option<KeyboundFunction>)>,
    state: GameState,
)
    requires
        slot matches Some(index) ==> index >= keybinds.len() || (match element_state {
            ElementState::Pressed => keybinds[index as int].0,
            ElementState::Released => keybinds[index as int].1,
        }) is None,
    ensures
        bound_outcome(bound_function(keybinds, slot, element_state), state) == (
            state,
            Effect::Nothing,
        ),
{
}

/// A key that moves the camera drives its axis by the transition table: the
/// eight camera actions are the four events of the table on the two axes,
/// and none of them asks the caller for anything.
pub proof fn lemma_camera_actions_follow_table(state: GameState)
    ensures
        function_outcome(KeyboundFunction::CameraRightAction, state) == (
            state.horizontal_key(AxisEvent::PressPositive),
            Effect::Nothing,
        ),
        function_outcome(KeyboundFunction::CameraLeftAction, state) == (
            state.horizontal_key(AxisEvent::PressNegative),
            Effect::Nothing,
        ),
        function_outcome(KeyboundFunction::CameraRightActionReleased, state) == (
            state.horizontal_key(AxisEvent::ReleasePositive),
            Effect::Nothing,
        ),
        function_outcome(KeyboundFunction::CameraLeftActionReleased, state) == (
            state.horizontal_key(AxisEvent::ReleaseNegative),
            Effect::Nothing,
        ),
        function_outcome(KeyboundFunction::CameraDownAction, state) == (
            state.vertical_key(AxisEvent::PressPositive),
            Effect::Nothing,
        ),
        function_outcome(KeyboundFunction::CameraUpAction, state) == (
            state.vertical_key(AxisEvent::PressNegative),
            Effect::Nothing,
        ),
        function_outcome(KeyboundFunction::CameraDownActionReleased, state) == (
            state.vertical_key(AxisEvent::ReleasePositive),
            Effect::Nothing,
        ),
        function_outcome(KeyboundFunction::CameraUpActionReleased, state) == (
            state.vertical_key(AxisEvent::ReleaseNegative),
            Effect::Nothing,
        ),
        state.horizontal_key(AxisEvent::PressPositive).camera_movement.1
            == state.camera_movement.1,
        state.vertical_key(AxisEvent::PressPositive).camera_movement.0
            == state.camera_movement.0,
{
}

/// Selecting a zoom level asks for the same viewport however often it is
/// repeated, and changes nothing that the dispatcher holds.
pub proof fn lemma_zoom_level_repeats(function: KeyboundFunction, state: GameState)
    requires
        function == KeyboundFunction::HalfScreenWidthIngameRegular || function
            == KeyboundFunction::HalfScreenWidthIngame2Times || function
            == KeyboundFunction::HalfScreenWidthIngamePoint5Times,
    ensures
        function_outcome(function, state).0 == state,
        function_outcome(function, state).1 is SetViewport,
        function_outcome(function, function_outcome(function, state).0) == function_outcome(
            function,
            state,
        ),
{
}

/// A pointer move that follows a resize is projected against the new window
/// size: the resize stores the size and asks for nothing, the move keeps it
/// and hands the position on as it came.
pub proof fn lemma_resize_then_move<N>(
    dimensions: (u32, u32),
    x: N,
    y: N,
    keybinds: Seq<(Option<KeyboundFunction>, Option<KeyboundFunction>)>,
    state: GameState,
)
    ensures
        ({
            let resized = input_outcome(
                ControllerInput::<N>::WindowResized { dimensions },
                keybinds,
                state,
            );
            let moved = input_outcome(
                ControllerInput::MouseInput { action: MouseInputType::Move(x, y) },
                keybinds,
                resized.0,
            );
            &&& resized.1 == Request::<N>::Perform(Effect::Nothing)
            &&& moved.1 == Request::MoveCursor(x, y)
            &&& moved.0 == state.resized(dimensions)
            &&& moved.0.window_dimensions == dimensions
        }),
{
}

/// With the default bindings and the vertical axis at rest, pressing `W`
/// makes the next frame move the camera up, by the factor -1 on the
/// vertical axis, and releasing `W` brings the factor back to 0 for every
/// frame after it. The horizontal axis is not touched.
pub proof fn lemma_w_moves_camera_while_held<N>(state: GameState)
    requires
        state.camera_movement.1 == CamKeyPressed::Neither,
    ensures
        ({
            let pressed = input_outcome(
                ControllerInput::<N>::KeyboardInput {
                    key: Some(VirtualKeyCode::W),
                    state: ElementState::Pressed,
                },
                default_keybinds(),
                state,
            );
            let released = input_outcome(
                ControllerInput::<N>::KeyboardInput {
                    key: Some(VirtualKeyCode::W),
                    state: ElementState::Released,
                },
                default_keybinds(),
                pressed.0,
            );
            &&& pressed.1 == Request::<N>::Perform(Effect::Nothing)
            &&& released.1 == Request::<N>::Perform(Effect::Nothing)
            &&& frame_outcome(true, pressed.0) == (FrameStep::Produce {
                horizontal: state.camera_movement.0.direction() as i8,
                vertical: -1i8,
            })
            &&& frame_outcome(true, released.0) == (FrameStep::Produce {
                horizontal: state.camera_movement.0.direction() as i8,
                vertical: 0i8,
            })
            &&& released.0 == state
        }),
{
    assert(default_keybinds()[W_BUTTON as int] == (
        Some(KeyboundFunction::CameraUpAction),
        Some(KeyboundFunction::CameraUpActionReleased),
    ));
}

/// The state that a run of input events leaves, dispatched first to last.
pub open spec fn state_after<N>(
    inputs: Seq<ControllerInput<N>>,
    keybinds: Seq<(Option<KeyboundFunction>, Option<KeyboundFunction>)>,
    state: GameState,
) -> GameState
    decreases inputs.len(),
{
    if inputs.len() == 0 {
        state
    } else {
        input_outcome(inputs.last(), keybinds, state_after(inputs.drop_last(), keybinds, state)).0
    }
}

/// Whether `input` is an event on `key`, and if so, which.
pub open spec fn key_event<N>(input: ControllerInput<N>, key: VirtualKeyCode) -> Option<
    ElementState,
> {
    match input {
        ControllerInput::KeyboardInput { key: Some(code), state } => if code == key {
            Some(state)
        } else {
            None
        },
        _ => None,
    }
}

/// The size that `input` gives the window, if it is a resize.
pub open spec fn resize_event<N>(input: ControllerInput<N>) -> Option<(u32, u32)> {
    match input {
        ControllerInput::WindowResized { dimensions } => Some(dimensions),
        _ => None,
    }
}

/// Whether `key` is held after a run of input events, given whether it was
/// held before: its own last event decides.
pub open spec fn held_after_inputs<N>(
    initially: bool,
    key: VirtualKeyCode,
    inputs: Seq<ControllerInput<N>>,
) -> bool
    decreases inputs.len(),
{
    if inputs.len() == 0 {
        initially
    } else {
        match key_event(inputs.last(), key) {
            Some(element_state) => element_state == ElementState::Pressed,
            None => held_after_inputs(initially, key, inputs.drop_last()),
        }
    }
}

/// The window size after a run of input events: that of the last resize, or
/// the one before the run if there was none.
pub open spec fn window_after<N>(initially: (u32, u32), inputs: Seq<ControllerInput<N>>) -> (
    u32,
    u32,
)
    decreases inputs.len(),
{
    if inputs.len() == 0 {
        initially
    } else {
        match resize_event(inputs.last()) {
            Some(dimensions) => dimensions,
            None => window_after(initially, inputs.drop_last()),
        }
    }
}

/// Under the default bindings, whatever events arrive in whatever order,
/// the camera is driven up exactly while `W` is held: the vertical axis
/// counts its negative key as held if and only if the last event on `W`
/// was a press. Nothing else touches the axes, and the window size is that
/// of the last resize.
pub proof fn lemma_default_bindings_track_w<N>(inputs: Seq<ControllerInput<N>>, state: GameState)
    ensures
        ({
            let end = state_after(inputs, default_keybinds(), state);
            &&& end.camera_movement.0 == state.camera_movement.0
            &&& end.camera_movement.1.positive_held() == state.camera_movement.1.positive_held()
            &&& end.camera_movement.1.negative_held() == held_after_inputs(
                state.camera_movement.1.negative_held(),
                VirtualKeyCode::W,
                inputs,
            )
            &&& end.window_dimensions == window_after(state.window_dimensions, inputs)
            &&& end.game_state_id == state.game_state_id
        }),
    decreases inputs.len(),
{
    if inputs.len() > 0 {
        let before = state_after(inputs.drop_last(), default_keybinds(), state);
        lemma_default_bindings_track_w(inputs.drop_last(), state);
        lemma_default_bindings_move_only_on_w(inputs.last(), before);
    }
}

/// Under the default bindings a single event changes the axes only if it is
/// an event on `W`, which presses or releases the negative key of the
/// vertical axis; it changes the window size only if it is a resize.
pub proof fn lemma_default_bindings_move_only_on_w<N>(input: ControllerInput<N>, state: GameState)
    ensures
        ({
            let end = input_outcome(input, default_keybinds(), state).0;
            &&& end.camera_movement.0 == state.camera_movement.0
            &&& end.camera_movement.1.positive_held() == state.camera_movement.1.positive_held()
            &&& end.camera_movement.1.negative_held() == (match key_event(
                input,
                VirtualKeyCode::W,
            ) {
                Some(element_state) => element_state == ElementState::Pressed,
                None => state.camera_movement.1.negative_held(),
            })
            &&& end.window_dimensions == (match resize_event(input) {
                Some(dimensions) => dimensions,
                None => state.window_dimensions,
            })
            &&& end.game_state_id == state.game_state_id
        }),
{
}

} // verus!
