//! The input events that the dispatcher consumes.
//!
//! Pointer coordinates and scroll amounts are numbers that the dispatcher
//! hands on and never computes with, so the events are generic in the type
//! `N` of those numbers.

use vstd::prelude::*;

verus! {

/// Whether a key or button went down or up.
#[derive(Clone, Copy, Debug, PartialEq, Eq, Structural)]
pub enum ElementState {
    Pressed,
    Released,
}

/// A button of the pointing device.
#[derive(Clone, Copy, Debug, PartialEq, Eq, Structural)]
pub enum MouseButton {
    Left,
    Right,
    Middle,
    Other(u16),
}

/// A scroll amount, horizontal then vertical.
#[derive(Debug, PartialEq)]
pub enum MouseScrollDelta<N> {
    /// Lines or rows, as a mouse wheel reports them.
    LineDelta(N, N),
    /// Pixels, as a touchpad reports them.
    PixelDelta(N, N),
}

impl<N: Copy> Clone for MouseScrollDelta<N> {
    fn clone(&self) -> (r: Self)
        ensures
            r == *self,
    {
        *self
    }
}

impl<N: Copy> Copy for MouseScrollDelta<N> {

}

/// The phase of a touch or scroll gesture.
#[derive(Clone, Copy, Debug, PartialEq, Eq, Structural)]
pub enum TouchPhase {
    Started,
    Moved,
    Ended,
    Cancelled,
}

/// What happened on the pointing device.
#[derive(Debug, PartialEq)]
pub enum MouseInputType<N> {
    /// The cursor moved to this position, in pixels from the window's top
    /// left corner.
    Move(N, N),
    /// A button went down or up.
    Click { button: MouseButton, state: ElementState },
    /// The wheel turned or a scroll gesture progressed.
    Scroll { delta: MouseScrollDelta<N>, phase: TouchPhase },
    /// The cursor left the window.
    LeftWindow,
    /// The cursor entered the window.
    EnteredWindow,
}

impl<N: Copy> Clone for MouseInputType<N> {
    fn clone(&self) -> (r: Self)
        ensures
            r == *self,
    {
        *self
    }
}

impl<N: Copy> Copy for MouseInputType<N> {

}

/// One message of the input queue.
#[derive(Debug, PartialEq)]
pub enum ControllerInput<N> {
    MouseInput { action: MouseInputType<N> },
    /// A key event; `key` is `None` when the platform could not name the key.
    KeyboardInput { key: Option<VirtualKeyCode>, state: ElementState },
    /// The window has a new physical size in pixels.
    WindowResized { dimensions: (u32, u32) },
}

impl<N: Copy> Clone for ControllerInput<N> {
    fn clone(&self) -> (r: Self)
        ensures
            r == *self,
    {
        *self
    }
}

impl<N: Copy> Copy for ControllerInput<N> {

}

/// The message for a window that took the size `width` by `height`. A size
/// with a zero dimension is that of a window without a drawable area and
/// gives no message.
pub fn window_resized<N>(width: u32, height: u32) -> (message: Option<ControllerInput<N>>)
    ensures
        message == (if width > 0 && height > 0 {
            Some(ControllerInput::<N>::WindowResized { dimensions: (width, height) })
        } else {
            None
        }),
{
    if width > 0 && height > 0 {
        Some(ControllerInput::WindowResized { dimensions: (width, height) })
    } else {
        None
    }
}

/// The keys of a keyboard, by their meaning rather than their position.
#[derive(Clone, Copy, Debug, PartialEq, Eq, Structural)]
pub enum VirtualKeyCode {
    Key1,
    Key2,
    Key3,
    Key4,
    Key5,
    Key6,
    Key7,
    Key8,
    Key9,
    Key0,
    A,
    B,
    C,
    D,
    E,
    F,
    G,
    H,
    I,
    J,
    K,
    L,
    M,
    N,
    O,
    P,
    Q,
    R,
    S,
    T,
    U,
    V,
    W,
    X,
    Y,
    Z,
    Escape,
    F1,
    F2,
    F3,
    F4,
    F5,
    F6,
    F7,
    F8,
    F9,
    F10,
    F11,
    F12,
    F13,
    F14,
    F15,
    F16,
    F17,
    F18,
    F19,
    F20,
    F21,
    F22,
    F23,
    F24,
    Snapshot,
    Scroll,
    Pause,
    Insert,
    Home,
    Delete,
    End,
    PageDown,
    PageUp,
    Left,
    Up,
    Right,
    Down,
    Back,
    Return,
    Space,
    Compose,
    Caret,
    Numlock,
    Numpad0,
    Numpad1,
    Numpad2,
    Numpad3,
    Numpad4,
    Numpad5,
    Numpad6,
    Numpad7,
    Numpad8,
    Numpad9,
    NumpadAdd,
    NumpadDivide,
    NumpadDecimal,
    NumpadComma,
    NumpadEnter,
    NumpadEquals,
    NumpadMultiply,
    NumpadSubtract,
    AbntC1,
    AbntC2,
    Apostrophe,
    Apps,
    Asterisk,
    At,
    Ax,
    Backslash,
    Calculator,
    Capital,
    Colon,
    Comma,
    Convert,
    Equals,
    Grave,
    Kana,
    Kanji,
    LAlt,
    LBracket,
    LControl,
    LShift,
    LWin,
    Mail,
    MediaSelect,
    MediaStop,
    Minus,
    Mute,
    MyComputer,
    NavigateForward,
    NavigateBackward,
    NextTrack,
    NoConvert,
    OEM102,
    Period,
    PlayPause,
    Plus,
    Power,
    PrevTrack,
    RAlt,
    RBracket,
    RControl,
    RShift,
    RWin,
    Semicolon,
    Slash,
    Sleep,
    Stop,
    Sysrq,
    Tab,
    Underline,
    Unlabeled,
    VolumeDown,
    VolumeUp,
    Wake,
    WebBack,
    WebFavorites,
    WebForward,
    WebHome,
    WebRefresh,
    WebSearch,
    WebStop,
    Yen,
    Copy,
    Paste,
    Cut,
}

} // verus!
