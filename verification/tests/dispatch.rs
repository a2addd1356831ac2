use game_loop::axis::CamKeyPressed;
use game_loop::button_mapping::load_default_keybinds;
use game_loop::controller::{
    communication_step, handle_input, handle_input_turn, mouse_moved_action,
    process_keyboard_input, process_mouse_click, process_mouse_input, process_mouse_scroll,
    run_bound, run_function, Effect, FrameStep, InputTurn, KeyboundFunction, Request,
    WheelDirection, ZoomLevel,
};
use game_loop::controller_input::{
    window_resized, ControllerInput, ElementState, MouseButton, MouseInputType, MouseScrollDelta,
    TouchPhase, VirtualKeyCode,
};
use game_loop::game_state::{
    GameState, STARTUP_HALF_HEIGHT_TENTHS, STARTUP_HALF_WIDTH_TENTHS, ZOOM_STEP_TENTHS,
};

const NOTHING: Request<f32> = Request::Perform(Effect::Nothing);

fn key(code: VirtualKeyCode, state: ElementState) -> ControllerInput<f32> {
    ControllerInput::KeyboardInput { key: Some(code), state }
}

fn click(button: MouseButton, state: ElementState) -> ControllerInput<f32> {
    ControllerInput::MouseInput { action: MouseInputType::Click { button, state } }
}

fn frame(state: &GameState, camera: (f64, f64), delta: f64, speed: f32, half: (f64, f64)) -> (f64, f64) {
    match communication_step(true, state) {
        FrameStep::Produce { horizontal, vertical } => (
            horizontal as f64 * speed as f64 * half.0 * delta + camera.0,
            vertical as f64 * speed as f64 * half.1 * delta + camera.1,
        ),
        FrameStep::Stop => unreachable!(),
    }
}

#[test]
fn startup_viewport_and_zoom_step() {
    assert_eq!(STARTUP_HALF_WIDTH_TENTHS as f64 / 10.0, 1.6);
    assert_eq!(STARTUP_HALF_HEIGHT_TENTHS as f64 / 10.0, 0.9);
    assert_eq!(ZOOM_STEP_TENTHS as f64 / 10.0, 0.1);
    assert_eq!(STARTUP_HALF_WIDTH_TENTHS * 9, STARTUP_HALF_HEIGHT_TENTHS * 16);
}

#[test]
fn startup_state() {
    let s = GameState::new((1280, 720));
    assert_eq!(s.game_state_id, 1);
    assert_eq!(s.window_dimensions, (1280, 720));
    assert_eq!(s.camera_movement, (CamKeyPressed::Neither, CamKeyPressed::Neither));
}

#[test]
fn pointer_move_hands_the_position_on() {
    let t = load_default_keybinds();
    let start = GameState::new((800, 600));
    let mut s = start;
    let input = ControllerInput::MouseInput { action: MouseInputType::Move(12.5f32, 700.0) };
    assert_eq!(handle_input(input, &mut s, &t), Request::MoveCursor(12.5, 700.0));
    assert_eq!(s, start);
    assert_eq!(mouse_moved_action(1u8, 2u8), Request::MoveCursor(1, 2));
}

#[test]
fn resize_then_move_at_the_centre_is_relative_zero() {
    let t = load_default_keybinds();
    let mut s = GameState::new((800, 600));
    let resize: ControllerInput<f32> = ControllerInput::WindowResized { dimensions: (1024, 768) };
    assert_eq!(handle_input(resize, &mut s, &t), NOTHING);
    assert_eq!(s.window_dimensions, (1024, 768));
    let moved = ControllerInput::MouseInput { action: MouseInputType::Move(512.0f32, 384.0) };
    let (x, y) = match handle_input(moved, &mut s, &t) {
        Request::MoveCursor(x, y) => (x, y),
        other => panic!("{:?}", other),
    };
    assert_eq!(s.window_dimensions, (1024, 768));
    let w_len = s.window_dimensions.0 as f32 / 2.0;
    let h_len = s.window_dimensions.1 as f32 / 2.0;
    assert_eq!(((x - w_len) / w_len, (y - h_len) / h_len), (0.0, 0.0));
}

#[test]
fn resize_keeps_keys_and_phase() {
    let t = load_default_keybinds();
    let mut s = GameState::new((800, 600));
    s.camera_movement = (CamKeyPressed::Both, CamKeyPressed::Negative);
    handle_input(ControllerInput::<f32>::WindowResized { dimensions: (0, 0) }, &mut s, &t);
    assert_eq!(s.window_dimensions, (0, 0));
    assert_eq!(s.camera_movement, (CamKeyPressed::Both, CamKeyPressed::Negative));
    assert_eq!(s.game_state_id, 1);
}

#[test]
fn primary_button_places_an_object_on_press_only() {
    let t = load_default_keybinds();
    let start = GameState::new((800, 600));
    let mut s = start;
    assert_eq!(
        handle_input(click(MouseButton::Left, ElementState::Pressed), &mut s, &t),
        Request::Perform(Effect::PlaceDebugObject)
    );
    assert_eq!(handle_input(click(MouseButton::Left, ElementState::Released), &mut s, &t), NOTHING);
    assert_eq!(
        process_mouse_click(MouseButton::Left, ElementState::Pressed, &mut s, &t),
        Effect::PlaceDebugObject
    );
    assert_eq!(s, start);
}

#[test]
fn other_buttons_do_nothing() {
    let t = load_default_keybinds();
    let start = GameState::new((800, 600));
    let mut s = start;
    for button in [MouseButton::Right, MouseButton::Middle, MouseButton::Other(0), MouseButton::Other(9)] {
        for state in [ElementState::Pressed, ElementState::Released] {
            assert_eq!(handle_input(click(button, state), &mut s, &t), NOTHING);
            assert_eq!(s, start);
        }
    }
}

#[test]
fn a_button_runs_the_release_action_of_its_own_slot() {
    let mut t = load_default_keybinds();
    t[game_loop::button_constants::MOUSE_RIGHT] = (
        Some(KeyboundFunction::CameraRightAction),
        Some(KeyboundFunction::CameraRightActionReleased),
    );
    let mut s = GameState::new((800, 600));
    let e = process_mouse_input(
        MouseInputType::<f32>::Click { button: MouseButton::Right, state: ElementState::Pressed },
        &mut s,
        &t,
    );
    assert_eq!(e, NOTHING);
    assert_eq!(s.camera_movement.0, CamKeyPressed::Positive);
    process_mouse_input(
        MouseInputType::<f32>::Click { button: MouseButton::Right, state: ElementState::Released },
        &mut s,
        &t,
    );
    assert_eq!(s.camera_movement.0, CamKeyPressed::Neither);
}

#[test]
fn scroll_bypasses_the_table() {
    let empty = Vec::new();
    let start = GameState::new((800, 600));
    let mut s = start;
    for phase in [TouchPhase::Started, TouchPhase::Moved, TouchPhase::Ended, TouchPhase::Cancelled] {
        let e = process_mouse_input(
            MouseInputType::Scroll { delta: MouseScrollDelta::LineDelta(3.0f32, -2.5), phase },
            &mut s,
            &empty,
        );
        assert_eq!(e, Request::Zoom(-2.5));
        let e = process_mouse_input(
            MouseInputType::Scroll { delta: MouseScrollDelta::PixelDelta(3.0f32, -2.5), phase },
            &mut s,
            &empty,
        );
        assert_eq!(e, NOTHING);
    }
    assert_eq!(s, start);
    assert_eq!(process_mouse_scroll(MouseScrollDelta::LineDelta(7i32, 1)), Request::Zoom(1));
    assert_eq!(
        process_mouse_scroll(MouseScrollDelta::PixelDelta(7i32, 1)),
        Request::Perform(Effect::Nothing)
    );
}

#[test]
fn entering_and_leaving_do_nothing() {
    let t = load_default_keybinds();
    let start = GameState::new((800, 600));
    let mut s = start;
    for action in [MouseInputType::EnteredWindow, MouseInputType::LeftWindow] {
        assert_eq!(process_mouse_input(action, &mut s, &t), NOTHING);
        assert_eq!(s, start);
    }
}

#[test]
fn unnamed_key_is_ignored() {
    let t = load_default_keybinds();
    let start = GameState::new((800, 600));
    let mut s = start;
    assert_eq!(process_keyboard_input(None, ElementState::Pressed, &mut s, &t), Effect::Nothing);
    assert_eq!(process_keyboard_input(None, ElementState::Released, &mut s, &t), Effect::Nothing);
    assert_eq!(s, start);
}

#[test]
fn wheel_keys_stand_for_one_line() {
    let t = load_default_keybinds();
    let mut s = GameState::new((800, 600));
    assert_eq!(
        handle_input(key(VirtualKeyCode::J, ElementState::Pressed), &mut s, &t),
        Request::Perform(Effect::ZoomByLine(WheelDirection::Up))
    );
    assert_eq!(
        handle_input(key(VirtualKeyCode::L, ElementState::Pressed), &mut s, &t),
        Request::Perform(Effect::ZoomByLine(WheelDirection::Down))
    );
}

#[test]
fn zoom_level_twice_asks_the_same_and_keeps_the_state() {
    let t = load_default_keybinds();
    let start = GameState::new((800, 600));
    let mut s = start;
    let first = handle_input(key(VirtualKeyCode::A, ElementState::Pressed), &mut s, &t);
    let second = handle_input(key(VirtualKeyCode::A, ElementState::Pressed), &mut s, &t);
    assert_eq!(first, Request::Perform(Effect::SetViewport(ZoomLevel::Double)));
    assert_eq!(second, first);
    assert_eq!(s, start);
}

#[test]
fn wheel_directions_in_lines() {
    assert_eq!(WheelDirection::Up.lines(), 1);
    assert_eq!(WheelDirection::Down.lines(), -1);
}

#[test]
fn zoom_levels_in_tenths() {
    assert_eq!(ZoomLevel::Regular.half_extent_in_tenths(), 10);
    assert_eq!(ZoomLevel::Double.half_extent_in_tenths(), 20);
    assert_eq!(ZoomLevel::Half.half_extent_in_tenths(), 5);
    assert_eq!(ZoomLevel::Regular.half_extent_in_tenths() as f64 / 10.0, 1.0);
    assert_eq!(ZoomLevel::Double.half_extent_in_tenths() as f64 / 10.0, 2.0);
    assert_eq!(ZoomLevel::Half.half_extent_in_tenths() as f64 / 10.0, 0.5);
}

#[test]
fn every_function_does_what_its_name_says() {
    let start = GameState::new((800, 600));
    let moves = [
        (KeyboundFunction::CameraDownAction, (CamKeyPressed::Neither, CamKeyPressed::Positive)),
        (KeyboundFunction::CameraUpAction, (CamKeyPressed::Neither, CamKeyPressed::Negative)),
        (KeyboundFunction::CameraRightAction, (CamKeyPressed::Positive, CamKeyPressed::Neither)),
        (KeyboundFunction::CameraLeftAction, (CamKeyPressed::Negative, CamKeyPressed::Neither)),
    ];
    for (function, movement) in moves {
        let mut s = start;
        assert_eq!(run_function(function, &mut s), Effect::Nothing);
        assert_eq!(s.camera_movement, movement);
        assert_eq!(s.window_dimensions, start.window_dimensions);
    }
    let releases = [
        (KeyboundFunction::CameraDownActionReleased, (CamKeyPressed::Both, CamKeyPressed::Negative)),
        (KeyboundFunction::CameraUpActionReleased, (CamKeyPressed::Both, CamKeyPressed::Positive)),
        (KeyboundFunction::CameraRightActionReleased, (CamKeyPressed::Negative, CamKeyPressed::Both)),
        (KeyboundFunction::CameraLeftActionReleased, (CamKeyPressed::Positive, CamKeyPressed::Both)),
    ];
    for (function, movement) in releases {
        let mut s = start;
        s.camera_movement = (CamKeyPressed::Both, CamKeyPressed::Both);
        assert_eq!(run_function(function, &mut s), Effect::Nothing);
        assert_eq!(s.camera_movement, movement);
    }
    let mut s = start;
    assert_eq!(run_function(KeyboundFunction::NoAction, &mut s), Effect::Nothing);
    assert_eq!(
        run_function(KeyboundFunction::PlaceDebugObjectAction, &mut s),
        Effect::PlaceDebugObject
    );
    assert_eq!(run_bound(None, &mut s), Effect::Nothing);
    assert_eq!(s, start);
}

#[test]
fn holding_w_moves_the_camera_by_a_tenth_per_tenth_of_a_second() {
    let t = load_default_keybinds();
    let mut s = GameState::new((800, 600));
    let mut camera = (0.0f64, 0.0f64);
    handle_input(key(VirtualKeyCode::W, ElementState::Pressed), &mut s, &t);
    camera = frame(&s, camera, 0.1, 1.0, (1.0, 1.0));
    assert_eq!(camera, (0.0, -0.1));
    handle_input(key(VirtualKeyCode::W, ElementState::Released), &mut s, &t);
    let rest = camera;
    for _ in 0..3 {
        camera = frame(&s, camera, 0.1, 1.0, (1.0, 1.0));
        assert_eq!(camera, rest);
    }
}

#[test]
fn opposing_keys_cancel_out() {
    let mut s = GameState::new((800, 600));
    run_function(KeyboundFunction::CameraLeftAction, &mut s);
    run_function(KeyboundFunction::CameraRightAction, &mut s);
    run_function(KeyboundFunction::CameraDownAction, &mut s);
    assert_eq!(
        communication_step(true, &s),
        FrameStep::Produce { horizontal: 0, vertical: 1 }
    );
    run_function(KeyboundFunction::CameraLeftActionReleased, &mut s);
    assert_eq!(
        communication_step(true, &s),
        FrameStep::Produce { horizontal: 1, vertical: 1 }
    );
}

#[test]
fn cleared_run_flag_stops_both_loops() {
    let t = load_default_keybinds();
    let mut s = GameState::new((800, 600));
    s.camera_movement = (CamKeyPressed::Positive, CamKeyPressed::Negative);
    let before = s;
    assert_eq!(communication_step(false, &s), FrameStep::Stop);
    assert_eq!(handle_input_turn::<f32>(None, false, &mut s, &t), InputTurn::Stopped);
    assert_eq!(s, before);
}

#[test]
fn closed_queue_with_the_flag_set_is_a_lost_connection() {
    let t = load_default_keybinds();
    let start = GameState::new((800, 600));
    let mut s = start;
    assert_eq!(handle_input_turn::<f32>(None, true, &mut s, &t), InputTurn::Disconnected);
    assert_eq!(s, start);
}

#[test]
fn a_delivered_event_is_handled_whatever_the_flag() {
    let t = load_default_keybinds();
    for running in [true, false] {
        let mut s = GameState::new((800, 600));
        let turn = handle_input_turn(
            Some(click(MouseButton::Left, ElementState::Pressed)),
            running,
            &mut s,
            &t,
        );
        assert_eq!(turn, InputTurn::Handled(Request::Perform(Effect::PlaceDebugObject)));
        let turn = handle_input_turn(
            Some(ControllerInput::WindowResized { dimensions: (3, 4) }),
            running,
            &mut s,
            &t,
        );
        assert_eq!(turn, InputTurn::Handled(NOTHING));
        let turn = handle_input_turn(
            Some(ControllerInput::MouseInput { action: MouseInputType::Move(1.0, 2.0) }),
            running,
            &mut s,
            &t,
        );
        assert_eq!(turn, InputTurn::Handled(Request::MoveCursor(1.0, 2.0)));
        assert_eq!(s.window_dimensions, (3, 4));
    }
}

#[test]
fn inputs_compare_by_value() {
    assert_eq!(
        key(VirtualKeyCode::W, ElementState::Pressed),
        key(VirtualKeyCode::W, ElementState::Pressed)
    );
    assert_ne!(
        key(VirtualKeyCode::W, ElementState::Pressed),
        key(VirtualKeyCode::W, ElementState::Released)
    );
    assert_ne!(
        ControllerInput::<f32>::WindowResized { dimensions: (1, 2) },
        ControllerInput::<f32>::WindowResized { dimensions: (2, 1) }
    );
    assert_ne!(
        ControllerInput::MouseInput { action: MouseInputType::Move(0.0, 0.0) },
        ControllerInput::KeyboardInput { key: None, state: ElementState::Pressed }
    );
    let moved = ControllerInput::MouseInput { action: MouseInputType::Move(1.5, 2.5) };
    let copy = moved;
    assert_eq!(moved.clone(), copy);
    assert_ne!(GameState::new((1, 2)), GameState::new((1, 3)));
}

#[test]
fn w_is_tracked_through_mixed_events() {
    let t = load_default_keybinds();
    let mut s = GameState::new((800, 600));
    s.camera_movement = (CamKeyPressed::Negative, CamKeyPressed::Positive);
    let events = [
        (key(VirtualKeyCode::A, ElementState::Pressed), false),
        (key(VirtualKeyCode::W, ElementState::Pressed), true),
        (ControllerInput::MouseInput { action: MouseInputType::Move(3.0, 4.0) }, true),
        (key(VirtualKeyCode::S, ElementState::Pressed), true),
        (key(VirtualKeyCode::W, ElementState::Pressed), true),
        (ControllerInput::WindowResized { dimensions: (640, 480) }, true),
        (click(MouseButton::Left, ElementState::Pressed), true),
        (key(VirtualKeyCode::W, ElementState::Released), false),
        (key(VirtualKeyCode::S, ElementState::Released), false),
        (key(VirtualKeyCode::W, ElementState::Released), false),
        (key(VirtualKeyCode::W, ElementState::Pressed), true),
    ];
    for (input, w_held) in events {
        handle_input(input, &mut s, &t);
        assert_eq!(s.camera_movement.0, CamKeyPressed::Negative);
        let vertical = if w_held { CamKeyPressed::Both } else { CamKeyPressed::Positive };
        assert_eq!(s.camera_movement.1, vertical);
    }
    assert_eq!(s.window_dimensions, (640, 480));
    assert_eq!(s.game_state_id, 1);
}

#[test]
fn a_window_without_area_gives_no_resize_message() {
    assert_eq!(
        window_resized::<f32>(640, 480),
        Some(ControllerInput::WindowResized { dimensions: (640, 480) })
    );
    assert_eq!(window_resized::<f32>(1, 1), Some(ControllerInput::WindowResized { dimensions: (1, 1) }));
    assert_eq!(window_resized::<f32>(0, 480), None);
    assert_eq!(window_resized::<f32>(640, 0), None);
    assert_eq!(window_resized::<f32>(0, 0), None);
}
