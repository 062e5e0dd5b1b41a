//! Input events, and the keys and buttons that are held down.

use vstd::prelude::*;
use crate::math::Scalar;

verus! {

/// A button of the mouse.
#[derive(Clone, Copy, Debug, PartialEq, Eq, Hash, Structural)]
pub enum MouseButton {
    Left,
    Right,
    Middle,
    WheelUp,
    WheelDown,
    Other,
}

/// A key of the keyboard.
#[derive(Clone, Copy, Debug, PartialEq, Eq, Hash, Structural)]
pub enum Key {
    Unknown,
    LShift,
    RShift,
    Space,
    LControl,
    RControl,
    Tab,
    Backspace,
    Delete,
    Home,
    End,
    PageUp,
    PageDown,
    Insert,
    Left,
    Right,
    Up,
    Down,
    F1,
    F2,
    F3,
    F4,
    F5,
    F6,
    F7,
    F8,
    F9,
    F10,
    F11,
    F12,
    A,
    B,
    C,
    D,
    E,
    F,
    G,
    H,
    I,
    J,
    K,
    L,
    M,
    N,
    O,
    P,
    Q,
    R,
    S,
    T,
    U,
    V,
    W,
    X,
    Y,
    Z,
}

/// What an application is told of. Positions and distances are single-precision
/// numbers, held as their bits.
#[derive(Clone, Copy, Debug, PartialEq, Eq, Structural)]
pub enum Event {
    KeyUp(Key),
    KeyDown(Key),
    KeyRepeat(Key),
    MouseDown(MouseButton, Scalar, Scalar),
    MouseUp(MouseButton, Scalar, Scalar),
    MouseMove(Scalar, Scalar),
    MouseMotion(Scalar, Scalar),
    MouseWheel(Scalar, Scalar),
    MouseDrag(MouseButton, Scalar, Scalar),
    WindowResize(u32, u32),
    ReceivedCharacter(char),
}

} // verus!
