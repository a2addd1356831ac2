//! The binding table: which action each input source runs when it goes down
//! and when it goes up.
//!
//! A table is a vector of slots indexed by the constants of
//! `button_constants`. A slot is a pair: the action on press and the action
//! on release, each of which may be absent. A lookup outside the table finds
//! nothing.

use vstd::prelude::*;
use crate::button_constants::{
    A_BUTTON,
    BUTTON_COUNT,
    CTRL,
    D_BUTTON,
    J_BUTTON,
    L_BUTTON,
    MOUSE_LEFT,
    MOUSE_MIDDLE,
    MOUSE_RIGHT,
    SPACE_BAR,
    S_BUTTON,
    W_BUTTON,
};
use crate::controller::{bound_outcome, run_bound, Effect, KeyboundFunction};
use crate::controller_input::{ElementState, VirtualKeyCode};
use crate::game_state::GameState;

verus! {

/// The action that the table holds for `slot` and `state`: the first of the
/// slot's pair for a press, the second for a release; nothing where there is
/// no slot or the slot lies outside the table.
pub open spec fn bound_function(
    keybinds: Seq<(Option<KeyboundFunction>, Option<KeyboundFunction>)>,
    slot: Option<usize>,
    state: ElementState,
) -> Option<KeyboundFunction> {
    match slot {
        Some(index) => if index < keybinds.len() {
            match state {
                ElementState::Pressed => keybinds[index as int].0,
                ElementState::Released => keybinds[index as int].1,
            }
        } else {
            None
        },
        None => None,
    }
}

/// The slot that a key looks up, if it has one: the four movement keys, the
/// space bar and the two keys that stand for the wheel.
pub open spec fn slot_of_key(key: VirtualKeyCode) -> Option<usize> {
    match key {
        VirtualKeyCode::A => Some(A_BUTTON),
        VirtualKeyCode::D => Some(D_BUTTON),
        VirtualKeyCode::J => Some(J_BUTTON),
        VirtualKeyCode::L => Some(L_BUTTON),
        VirtualKeyCode::S => Some(S_BUTTON),
        VirtualKeyCode::W => Some(W_BUTTON),
        VirtualKeyCode::Space => Some(SPACE_BAR),
        _ => None,
    }
}

/// What the default table holds in a slot.
pub open spec fn default_binding(slot: int) -> (
    Option<KeyboundFunction>,
    Option<KeyboundFunction>,
) {
    if slot == W_BUTTON {
        (Some(KeyboundFunction::CameraUpAction), Some(KeyboundFunction::CameraUpActionReleased))
    } else if slot == A_BUTTON {
        (Some(KeyboundFunction::HalfScreenWidthIngame2Times), None)
    } else if slot == D_BUTTON {
        (Some(KeyboundFunction::HalfScreenWidthIngamePoint5Times), None)
    } else if slot == SPACE_BAR {
        (Some(KeyboundFunction::HalfScreenWidthIngameRegular), None)
    } else if slot == MOUSE_LEFT {
        (Some(KeyboundFunction::PlaceDebugObjectAction), None)
    } else if slot == J_BUTTON {
        (Some(KeyboundFunction::SimulateMouseWheelUp), None)
    } else if slot == L_BUTTON {
        (Some(KeyboundFunction::SimulateMouseWheelDown), None)
    } else if slot == S_BUTTON || slot == MOUSE_RIGHT || slot == MOUSE_MIDDLE {
        (Some(KeyboundFunction::NoAction), None)
    } else {
        (None, None)
    }
}

/// The default table: one slot for each input source.
pub open spec fn default_keybinds() -> Seq<(Option<KeyboundFunction>, Option<KeyboundFunction>)> {
    Seq::new(BUTTON_COUNT as nat, |slot: int| default_binding(slot))
}

/// Builds the default table: `W` moves the camera up while it is held, `A`
/// and `D` select the double and the half zoom level, the space bar the
/// regular one, the left mouse button places a debug object, `J` and `L`
/// stand for one wheel line up and down, and `S` and the other two mouse
/// buttons are bound to the action that does nothing. `CTRL` has no binding.
pub fn load_default_keybinds() -> (ret: Vec<(Option<KeyboundFunction>, Option<KeyboundFunction>)>)
    ensures
        ret@ == default_keybinds(),
        ret@.len() == BUTTON_COUNT,
{
    let mut ret: Vec<(Option<KeyboundFunction>, Option<KeyboundFunction>)> = Vec::new();
    let mut i: usize = 0;
    while i < BUTTON_COUNT
        invariant
            i <= BUTTON_COUNT,
            ret@.len() == i,
            forall|k: int|
                0 <= k < i ==> ret@[k] == (None::<KeyboundFunction>, None::<KeyboundFunction>),
        decreases BUTTON_COUNT - i,
    {
        ret.push((None, None));
        i = i + 1;
    }
    ret[W_BUTTON] = (
        Some(KeyboundFunction::CameraUpAction),
        Some(KeyboundFunction::CameraUpActionReleased),
    );
    ret[D_BUTTON] = (Some(KeyboundFunction::HalfScreenWidthIngamePoint5Times), None);
    ret[S_BUTTON] = (Some(KeyboundFunction::NoAction), None);
    ret[A_BUTTON] = (Some(KeyboundFunction::HalfScreenWidthIngame2Times), None);
    ret[MOUSE_LEFT] = (Some(KeyboundFunction::PlaceDebugObjectAction), None);
    ret[MOUSE_RIGHT] = (Some(KeyboundFunction::NoAction), None);
    ret[MOUSE_MIDDLE] = (Some(KeyboundFunction::NoAction), None);
    ret[SPACE_BAR] = (Some(KeyboundFunction::HalfScreenWidthIngameRegular), None);
    ret[J_BUTTON] = (Some(KeyboundFunction::SimulateMouseWheelUp), None);
    ret[L_BUTTON] = (Some(KeyboundFunction::SimulateMouseWheelDown), None);
    ret[CTRL] = (None, None);
    assert(ret@ =~= default_keybinds());
    ret
}

/// Looks up the action of a slot for a press or a release. A slot outside
/// the table holds nothing.
pub fn lookup(
    keybinds: &Vec<(Option<KeyboundFunction>, Option<KeyboundFunction>)>,
    slot: usize,
    state: ElementState,
) -> (bound: Option<KeyboundFunction>)
    ensures
        bound == bound_function(keybinds@, Some(slot), state),
{
    if slot < keybinds.len() {
        match state {
            ElementState::Pressed => keybinds[slot].0,
            ElementState::Released => keybinds[slot].1,
        }
    } else {
        None
    }
}

/// A key went down: runs the press action of the key's slot. A key without
/// a slot, a slot outside the table and an empty slot all leave the state as
/// it is and ask for nothing.
pub fn key_action_pressed(
    key: VirtualKeyCode,
    game_state: &mut GameState,
    keybinds: &Vec<(Option<KeyboundFunction>, Option<KeyboundFunction>)>,
) -> (effect: Effect)
    ensures
        (*final(game_state), effect) == bound_outcome(
            bound_function(keybinds@, slot_of_key(key), ElementState::Pressed),
            *old(game_state),
        ),
{
    match key {
        VirtualKeyCode::Key1 => Effect::Nothing,
        VirtualKeyCode::Key2 => Effect::Nothing,
        VirtualKeyCode::Key3 => Effect::Nothing,
        VirtualKeyCode::Key4 => Effect::Nothing,
        VirtualKeyCode::Key5 => Effect::Nothing,
        VirtualKeyCode::Key6 => Effect::Nothing,
        VirtualKeyCode::Key7 => Effect::Nothing,
        VirtualKeyCode::Key8 => Effect::Nothing,
        VirtualKeyCode::Key9 => Effect::Nothing,
        VirtualKeyCode::Key0 => Effect::Nothing,
        VirtualKeyCode::A => run_bound(
            lookup(keybinds, A_BUTTON, ElementState::Pressed),
            game_state,
        ),
        VirtualKeyCode::B => Effect::Nothing,
        VirtualKeyCode::C => Effect::Nothing,
        VirtualKeyCode::D => run_bound(
            lookup(keybinds, D_BUTTON, ElementState::Pressed),
            game_state,
        ),
        VirtualKeyCode::E => Effect::Nothing,
        VirtualKeyCode::F => Effect::Nothing,
        VirtualKeyCode::G => Effect::Nothing,
        VirtualKeyCode::H => Effect::Nothing,
        VirtualKeyCode::I => Effect::Nothing,
        VirtualKeyCode::J => run_bound(
            lookup(keybinds, J_BUTTON, ElementState::Pressed),
            game_state,
        ),
        VirtualKeyCode::K => Effect::Nothing,
        VirtualKeyCode::L => run_bound(
            lookup(keybinds, L_BUTTON, ElementState::Pressed),
            game_state,
        ),
        VirtualKeyCode::M => Effect::Nothing,
        VirtualKeyCode::N => Effect::Nothing,
        VirtualKeyCode::O => Effect::Nothing,
        VirtualKeyCode::P => Effect::Nothing,
        VirtualKeyCode::Q => Effect::Nothing,
        VirtualKeyCode::R => Effect::Nothing,
        VirtualKeyCode::S => run_bound(
            lookup(keybinds, S_BUTTON, ElementState::Pressed),
            game_state,
        ),
        VirtualKeyCode::T => Effect::Nothing,
        VirtualKeyCode::U => Effect::Nothing,
        VirtualKeyCode::V => Effect::Nothing,
        VirtualKeyCode::W => run_bound(
            lookup(keybinds, W_BUTTON, ElementState::Pressed),
            game_state,
        ),
        VirtualKeyCode::X => Effect::Nothing,
        VirtualKeyCode::Y => Effect::Nothing,
        VirtualKeyCode::Z => Effect::Nothing,
        VirtualKeyCode::Escape => Effect::Nothing,
        VirtualKeyCode::F1 => Effect::Nothing,
        VirtualKeyCode::F2 => Effect::Nothing,
        VirtualKeyCode::F3 => Effect::Nothing,
        VirtualKeyCode::F4 => Effect::Nothing,
        VirtualKeyCode::F5 => Effect::Nothing,
        VirtualKeyCode::F6 => Effect::Nothing,
        VirtualKeyCode::F7 => Effect::Nothing,
        VirtualKeyCode::F8 => Effect::Nothing,
        VirtualKeyCode::F9 => Effect::Nothing,
        VirtualKeyCode::F10 => Effect::Nothing,
        VirtualKeyCode::F11 => Effect::Nothing,
        VirtualKeyCode::F12 => Effect::Nothing,
        VirtualKeyCode::F13 => Effect::Nothing,
        VirtualKeyCode::F14 => Effect::Nothing,
        VirtualKeyCode::F15 => Effect::Nothing,
        VirtualKeyCode::F16 => Effect::Nothing,
        VirtualKeyCode::F17 => Effect::Nothing,
        VirtualKeyCode::F18 => Effect::Nothing,
        VirtualKeyCode::F19 => Effect::Nothing,
        VirtualKeyCode::F20 => Effect::Nothing,
        VirtualKeyCode::F21 => Effect::Nothing,
        VirtualKeyCode::F22 => Effect::Nothing,
        VirtualKeyCode::F23 => Effect::Nothing,
        VirtualKeyCode::F24 => Effect::Nothing,
        VirtualKeyCode::Snapshot => Effect::Nothing,
        VirtualKeyCode::Scroll => Effect::Nothing,
        VirtualKeyCode::Pause => Effect::Nothing,
        VirtualKeyCode::Insert => Effect::Nothing,
        VirtualKeyCode::Home => Effect::Nothing,
        VirtualKeyCode::Delete => Effect::Nothing,
        VirtualKeyCode::End => Effect::Nothing,
        VirtualKeyCode::PageDown => Effect::Nothing,
        VirtualKeyCode::PageUp => Effect::Nothing,
        VirtualKeyCode::Left => Effect::Nothing,
        VirtualKeyCode::Up => Effect::Nothing,
        VirtualKeyCode::Right => Effect::Nothing,
        VirtualKeyCode::Down => Effect::Nothing,
        VirtualKeyCode::Back => Effect::Nothing,
        VirtualKeyCode::Return => Effect::Nothing,
        VirtualKeyCode::Space => run_bound(
            lookup(keybinds, SPACE_BAR, ElementState::Pressed),
            game_state,
        ),
        VirtualKeyCode::Compose => Effect::Nothing,
        VirtualKeyCode::Caret => Effect::Nothing,
        VirtualKeyCode::Numlock => Effect::Nothing,
        VirtualKeyCode::Numpad0 => Effect::Nothing,
        VirtualKeyCode::Numpad1 => Effect::Nothing,
        VirtualKeyCode::Numpad2 => Effect::Nothing,
        VirtualKeyCode::Numpad3 => Effect::Nothing,
        VirtualKeyCode::Numpad4 => Effect::Nothing,
        VirtualKeyCode::Numpad5 => Effect::Nothing,
        VirtualKeyCode::Numpad6 => Effect::Nothing,
        VirtualKeyCode::Numpad7 => Effect::Nothing,
        VirtualKeyCode::Numpad8 => Effect::Nothing,
        VirtualKeyCode::Numpad9 => Effect::Nothing,
        VirtualKeyCode::NumpadAdd => Effect::Nothing,
        VirtualKeyCode::NumpadDivide => Effect::Nothing,
        VirtualKeyCode::NumpadDecimal => Effect::Nothing,
        VirtualKeyCode::NumpadComma => Effect::Nothing,
        VirtualKeyCode::NumpadEnter => Effect::Nothing,
        VirtualKeyCode::NumpadEquals => Effect::Nothing,
        VirtualKeyCode::NumpadMultiply => Effect::Nothing,
        VirtualKeyCode::NumpadSubtract => Effect::Nothing,
        VirtualKeyCode::AbntC1 => Effect::Nothing,
        VirtualKeyCode::AbntC2 => Effect::Nothing,
        VirtualKeyCode::Apostrophe => Effect::Nothing,
        VirtualKeyCode::Apps => Effect::Nothing,
        VirtualKeyCode::Asterisk => Effect::Nothing,
        VirtualKeyCode::At => Effect::Nothing,
        VirtualKeyCode::Ax => Effect::Nothing,
        VirtualKeyCode::Backslash => Effect::Nothing,
        VirtualKeyCode::Calculator => Effect::Nothing,
        VirtualKeyCode::Capital => Effect::Nothing,
        VirtualKeyCode::Colon => Effect::Nothing,
        VirtualKeyCode::Comma => Effect::Nothing,
        VirtualKeyCode::Convert => Effect::Nothing,
        VirtualKeyCode::Equals => Effect::Nothing,
        VirtualKeyCode::Grave => Effect::Nothing,
        VirtualKeyCode::Kana => Effect::Nothing,
        VirtualKeyCode::Kanji => Effect::Nothing,
        VirtualKeyCode::LAlt => Effect::Nothing,
        VirtualKeyCode::LBracket => Effect::Nothing,
        VirtualKeyCode::LControl => Effect::Nothing,
        VirtualKeyCode::LShift => Effect::Nothing,
        VirtualKeyCode::LWin => Effect::Nothing,
        VirtualKeyCode::Mail => Effect::Nothing,
        VirtualKeyCode::MediaSelect => Effect::Nothing,
        VirtualKeyCode::MediaStop => Effect::Nothing,
        VirtualKeyCode::Minus => Effect::Nothing,
        VirtualKeyCode::Mute => Effect::Nothing,
        VirtualKeyCode::MyComputer => Effect::Nothing,
        VirtualKeyCode::NavigateForward => Effect::Nothing,
        VirtualKeyCode::NavigateBackward => Effect::Nothing,
        VirtualKeyCode::NextTrack => Effect::Nothing,
        VirtualKeyCode::NoConvert => Effect::Nothing,
        VirtualKeyCode::OEM102 => Effect::Nothing,
        VirtualKeyCode::Period => Effect::Nothing,
        VirtualKeyCode::PlayPause => Effect::Nothing,
        VirtualKeyCode::Plus => Effect::Nothing,
        VirtualKeyCode::Power => Effect::Nothing,
        VirtualKeyCode::PrevTrack => Effect::Nothing,
        VirtualKeyCode::RAlt => Effect::Nothing,
        VirtualKeyCode::RBracket => Effect::Nothing,
        VirtualKeyCode::RControl => Effect::Nothing,
        VirtualKeyCode::RShift => Effect::Nothing,
        VirtualKeyCode::RWin => Effect::Nothing,
        VirtualKeyCode::Semicolon => Effect::Nothing,
        VirtualKeyCode::Slash => Effect::Nothing,
        VirtualKeyCode::Sleep => Effect::Nothing,
        VirtualKeyCode::Stop => Effect::Nothing,
        VirtualKeyCode::Sysrq => Effect::Nothing,
        VirtualKeyCode::Tab => Effect::Nothing,
        VirtualKeyCode::Underline => Effect::Nothing,
        VirtualKeyCode::Unlabeled => Effect::Nothing,
        VirtualKeyCode::VolumeDown => Effect::Nothing,
        VirtualKeyCode::VolumeUp => Effect::Nothing,
        VirtualKeyCode::Wake => Effect::Nothing,
        VirtualKeyCode::WebBack => Effect::Nothing,
        VirtualKeyCode::WebFavorites => Effect::Nothing,
        VirtualKeyCode::WebForward => Effect::Nothing,
        VirtualKeyCode::WebHome => Effect::Nothing,
        VirtualKeyCode::WebRefresh => Effect::Nothing,
        VirtualKeyCode::WebSearch => Effect::Nothing,
        VirtualKeyCode::WebStop => Effect::Nothing,
        VirtualKeyCode::Yen => Effect::Nothing,
        VirtualKeyCode::Copy => Effect::Nothing,
        VirtualKeyCode::Paste => Effect::Nothing,
        VirtualKeyCode::Cut => Effect::Nothing,
    }
}

/// A key went up: runs the release action of the key's slot. A key without
/// a slot, a slot outside the table and an empty slot all leave the state as
/// it is and ask for nothing.
pub fn key_action_released(
    key: VirtualKeyCode,
    game_state: &mut GameState,
    keybinds: &Vec<(Option<KeyboundFunction>, Option<KeyboundFunction>)>,
) -> (effect: Effect)
    ensures
        (*final(game_state), effect) == bound_outcome(
            bound_function(keybinds@, slot_of_key(key), ElementState::Released),
            *old(game_state),
        ),
{
    match key {
        VirtualKeyCode::A => run_bound(
            lookup(keybinds, A_BUTTON, ElementState::Released),
            game_state,
        ),
        VirtualKeyCode::D => run_bound(
            lookup(keybinds, D_BUTTON, ElementState::Released),
            game_state,
        ),
        VirtualKeyCode::J => run_bound(
            lookup(keybinds, J_BUTTON, ElementState::Released),
            game_state,
        ),
        VirtualKeyCode::L => run_bound(
            lookup(keybinds, L_BUTTON, ElementState::Released),
            game_state,
        ),
        VirtualKeyCode::S => run_bound(
            lookup(keybinds, S_BUTTON, ElementState::Released),
            game_state,
        ),
        VirtualKeyCode::W => run_bound(
            lookup(keybinds, W_BUTTON, ElementState::Released),
            game_state,
        ),
        VirtualKeyCode::Space => run_bound(
            lookup(keybinds, SPACE_BAR, ElementState::Released),
            game_state,
        ),
        _ => Effect::Nothing,
    }
}

} // verus!
