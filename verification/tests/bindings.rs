use game_loop::button_constants::{
    A_BUTTON, BUTTON_COUNT, CTRL, D_BUTTON, J_BUTTON, L_BUTTON, MOUSE_LEFT, MOUSE_MIDDLE,
    MOUSE_RIGHT, SPACE_BAR, S_BUTTON, W_BUTTON,
};
use game_loop::button_mapping::{
    key_action_pressed, key_action_released, load_default_keybinds, lookup,
};
use game_loop::axis::CamKeyPressed;
use game_loop::controller::{Effect, KeyboundFunction, WheelDirection, ZoomLevel};
use game_loop::controller_input::{ElementState, VirtualKeyCode};
use game_loop::game_state::GameState;

#[test]
fn slots_are_distinct_and_inside_the_table() {
    let slots = [
        W_BUTTON, A_BUTTON, S_BUTTON, D_BUTTON, MOUSE_LEFT, MOUSE_RIGHT, MOUSE_MIDDLE, SPACE_BAR,
        CTRL, J_BUTTON, L_BUTTON,
    ];
    assert_eq!(slots.len(), BUTTON_COUNT);
    for (i, a) in slots.iter().enumerate() {
        assert!(*a < BUTTON_COUNT);
        for b in slots.iter().skip(i + 1) {
            assert_ne!(a, b);
        }
    }
}

#[test]
fn default_table_has_the_documented_bindings() {
    let t = load_default_keybinds();
    assert_eq!(t.len(), 11);
    assert_eq!(
        t[W_BUTTON],
        (
            Some(KeyboundFunction::CameraUpAction),
            Some(KeyboundFunction::CameraUpActionReleased)
        )
    );
    assert_eq!(t[A_BUTTON], (Some(KeyboundFunction::HalfScreenWidthIngame2Times), None));
    assert_eq!(t[S_BUTTON], (Some(KeyboundFunction::NoAction), None));
    assert_eq!(t[D_BUTTON], (Some(KeyboundFunction::HalfScreenWidthIngamePoint5Times), None));
    assert_eq!(t[MOUSE_LEFT], (Some(KeyboundFunction::PlaceDebugObjectAction), None));
    assert_eq!(t[MOUSE_RIGHT], (Some(KeyboundFunction::NoAction), None));
    assert_eq!(t[MOUSE_MIDDLE], (Some(KeyboundFunction::NoAction), None));
    assert_eq!(t[SPACE_BAR], (Some(KeyboundFunction::HalfScreenWidthIngameRegular), None));
    assert_eq!(t[CTRL], (None, None));
    assert_eq!(t[J_BUTTON], (Some(KeyboundFunction::SimulateMouseWheelUp), None));
    assert_eq!(t[L_BUTTON], (Some(KeyboundFunction::SimulateMouseWheelDown), None));
}

#[test]
fn lookup_tells_press_from_release() {
    let t = load_default_keybinds();
    assert_eq!(
        lookup(&t, W_BUTTON, ElementState::Pressed),
        Some(KeyboundFunction::CameraUpAction)
    );
    assert_eq!(
        lookup(&t, W_BUTTON, ElementState::Released),
        Some(KeyboundFunction::CameraUpActionReleased)
    );
    assert_eq!(lookup(&t, SPACE_BAR, ElementState::Released), None);
    assert_eq!(lookup(&t, CTRL, ElementState::Pressed), None);
}

#[test]
fn lookup_outside_the_table_finds_nothing() {
    let t = load_default_keybinds();
    assert_eq!(lookup(&t, BUTTON_COUNT, ElementState::Pressed), None);
    assert_eq!(lookup(&t, usize::MAX, ElementState::Released), None);
    let empty = Vec::new();
    assert_eq!(lookup(&empty, 0, ElementState::Pressed), None);
}

#[test]
fn mapped_keys_run_their_press_action() {
    let t = load_default_keybinds();
    let start = GameState::new((800, 600));
    let cases = [
        (VirtualKeyCode::A, Effect::SetViewport(ZoomLevel::Double)),
        (VirtualKeyCode::D, Effect::SetViewport(ZoomLevel::Half)),
        (VirtualKeyCode::Space, Effect::SetViewport(ZoomLevel::Regular)),
        (VirtualKeyCode::J, Effect::ZoomByLine(WheelDirection::Up)),
        (VirtualKeyCode::L, Effect::ZoomByLine(WheelDirection::Down)),
        (VirtualKeyCode::S, Effect::Nothing),
    ];
    for (key, effect) in cases {
        let mut s = start;
        assert_eq!(key_action_pressed(key, &mut s, &t), effect);
        assert_eq!(s, start);
    }
    let mut s = start;
    assert_eq!(key_action_pressed(VirtualKeyCode::W, &mut s, &t), Effect::Nothing);
    assert_eq!(s.camera_movement, (CamKeyPressed::Neither, CamKeyPressed::Negative));
    assert_eq!(s.window_dimensions, (800, 600));
}

#[test]
fn keys_without_a_slot_are_ignored() {
    let t = load_default_keybinds();
    let start = GameState::new((800, 600));
    for key in [
        VirtualKeyCode::Key1,
        VirtualKeyCode::B,
        VirtualKeyCode::Escape,
        VirtualKeyCode::LControl,
        VirtualKeyCode::RControl,
        VirtualKeyCode::Up,
        VirtualKeyCode::Cut,
    ] {
        let mut s = start;
        assert_eq!(key_action_pressed(key, &mut s, &t), Effect::Nothing);
        assert_eq!(s, start);
        assert_eq!(key_action_released(key, &mut s, &t), Effect::Nothing);
        assert_eq!(s, start);
    }
}

#[test]
fn release_runs_the_release_action_only() {
    let t = load_default_keybinds();
    let mut s = GameState::new((800, 600));
    s.camera_movement = (CamKeyPressed::Positive, CamKeyPressed::Both);
    assert_eq!(key_action_released(VirtualKeyCode::W, &mut s, &t), Effect::Nothing);
    assert_eq!(s.camera_movement, (CamKeyPressed::Positive, CamKeyPressed::Positive));
    let before = s;
    for key in [VirtualKeyCode::A, VirtualKeyCode::D, VirtualKeyCode::Space, VirtualKeyCode::J] {
        assert_eq!(key_action_released(key, &mut s, &t), Effect::Nothing);
        assert_eq!(s, before);
    }
}

#[test]
fn a_table_that_is_too_short_drops_the_key() {
    let t = vec![(Some(KeyboundFunction::CameraUpAction), None)];
    let start = GameState::new((1, 1));
    let mut s = start;
    assert_eq!(key_action_pressed(VirtualKeyCode::L, &mut s, &t), Effect::Nothing);
    assert_eq!(s, start);
    assert_eq!(key_action_pressed(VirtualKeyCode::W, &mut s, &t), Effect::Nothing);
    assert_eq!(s.camera_movement.1, CamKeyPressed::Negative);
}

#[test]
fn a_rebound_table_is_obeyed() {
    let mut t = load_default_keybinds();
    t[S_BUTTON] = (
        Some(KeyboundFunction::CameraDownAction),
        Some(KeyboundFunction::CameraDownActionReleased),
    );
    t[A_BUTTON] = (
        Some(KeyboundFunction::CameraLeftAction),
        Some(KeyboundFunction::CameraLeftActionReleased),
    );
    t[D_BUTTON] = (
        Some(KeyboundFunction::CameraRightAction),
        Some(KeyboundFunction::CameraRightActionReleased),
    );
    let mut s = GameState::new((800, 600));
    key_action_pressed(VirtualKeyCode::S, &mut s, &t);
    key_action_pressed(VirtualKeyCode::A, &mut s, &t);
    assert_eq!(s.camera_movement, (CamKeyPressed::Negative, CamKeyPressed::Positive));
    key_action_pressed(VirtualKeyCode::D, &mut s, &t);
    key_action_pressed(VirtualKeyCode::W, &mut s, &t);
    assert_eq!(s.camera_movement, (CamKeyPressed::Both, CamKeyPressed::Both));
    key_action_released(VirtualKeyCode::A, &mut s, &t);
    key_action_released(VirtualKeyCode::S, &mut s, &t);
    assert_eq!(s.camera_movement, (CamKeyPressed::Positive, CamKeyPressed::Negative));
}
