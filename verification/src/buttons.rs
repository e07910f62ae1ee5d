//! Device input catalogs: keyboard keys, mouse and gamepad buttons and axes.
//!
//! The engine treats these identifiers as opaque comparable values; it never
//! interprets them.

use vstd::prelude::*;

pub(crate) mod names;
pub(crate) mod sdl3;

verus! {

/// A physical keyboard key.
#[derive(Clone, Copy, Debug, PartialEq, Eq, Structural, PartialOrd, Ord, Hash)]
pub enum KeyboardKey {
    A,
    B,
    C,
    D,
    E,
    F,
    G,
    H,
    I,
    J,
    K,
    L,
    M,
    N,
    O,
    P,
    Q,
    R,
    S,
    T,
    U,
    V,
    W,
    X,
    Y,
    Z,
    Zero,
    One,
    Two,
    Three,
    Four,
    Five,
    Six,
    Seven,
    Eight,
    Nine,
    F1,
    F2,
    F3,
    F4,
    F5,
    F6,
    F7,
    F8,
    F9,
    F10,
    F11,
    F12,
    F13,
    F14,
    F15,
    F16,
    F17,
    F18,
    F19,
    F20,
    F21,
    F22,
    F23,
    F24,
    Up,
    Down,
    Left,
    Right,
    Tab,
    Return,
    Space,
    LShift,
    RShift,
    LControl,
    RControl,
    LAlt,
    RAlt,
    Escape,
    Delete,
}

/// A mouse button.
#[derive(Clone, Copy, Debug, PartialEq, Eq, Structural, PartialOrd, Ord, Hash)]
pub enum MouseButton {
    Button1,
    Button2,
    Button3,
    Button4,
    Button5,
}

/// A gamepad button.
#[derive(Clone, Copy, Debug, PartialEq, Eq, Structural, PartialOrd, Ord, Hash)]
pub enum GamepadButton {
    A,
    B,
    X,
    Y,
    DpadUp,
    DpadDown,
    DpadLeft,
    DpadRight,
    LeftStickLeft,
    LeftStickRight,
    LeftStickUp,
    LeftStickDown,
    RightStickLeft,
    RightStickRight,
    RightStickUp,
    RightStickDown,
    LeftShoulder,
    RightShoulder,
    LeftTrigger,
    RightTrigger,
    LeftThumb,
    RightThumb,
    Select,
    Start,
}

/// A one dimensional mouse axis.
#[derive(Clone, Copy, Debug, PartialEq, Eq, Structural, PartialOrd, Ord, Hash)]
pub enum MouseAxis1d {
    X,
    Y,
    WheelX,
    WheelY,
}

/// A one dimensional gamepad axis.
#[derive(Clone, Copy, Debug, PartialEq, Eq, Structural, PartialOrd, Ord, Hash)]
pub enum GamepadAxis1d {
    LeftStickX,
    LeftStickY,
    RightStickX,
    RightStickY,
    LeftTrigger,
    RightTrigger,
    DpadX,
    DpadY,
}

/// A two dimensional mouse axis.
#[derive(Clone, Copy, Debug, PartialEq, Eq, Structural, PartialOrd, Ord, Hash)]
pub enum MouseAxis2d {
    XY,
}

/// A two dimensional gamepad axis.
#[derive(Clone, Copy, Debug, PartialEq, Eq, Structural, PartialOrd, Ord, Hash)]
pub enum GamepadAxis2d {
    LeftStick,
    RightStick,
}

/// Any button-like device input.
#[derive(Clone, Copy, Debug, PartialEq, Eq, Structural, PartialOrd, Ord, Hash)]
pub enum Button {
    Keyboard(KeyboardKey),
    Mouse(MouseButton),
    Gamepad(GamepadButton),
}

/// Any one dimensional device axis.
#[derive(Clone, Copy, Debug, PartialEq, Eq, Structural, PartialOrd, Ord, Hash)]
pub enum Axis1d {
    Mouse(MouseAxis1d),
    Gamepad(GamepadAxis1d),
}

/// Any two dimensional device axis.
#[derive(Clone, Copy, Debug, PartialEq, Eq, Structural, PartialOrd, Ord, Hash)]
pub enum Axis2d {
    Mouse(MouseAxis2d),
    Gamepad(GamepadAxis2d),
}

impl From<KeyboardKey> for Button {
    fn from(value: KeyboardKey) -> (r: Button) {
        Button::Keyboard(value)
    }
}

impl vstd::std_specs::convert::FromSpecImpl<KeyboardKey> for Button {
    open spec fn obeys_from_spec() -> bool {
        true
    }

    open spec fn from_spec(v: KeyboardKey) -> Button {
        Button::Keyboard(v)
    }
}

impl From<MouseButton> for Button {
    fn from(value: MouseButton) -> (r: Button) {
        Button::Mouse(value)
    }
}

impl vstd::std_specs::convert::FromSpecImpl<MouseButton> for Button {
    open spec fn obeys_from_spec() -> bool {
        true
    }

    open spec fn from_spec(v: MouseButton) -> Button {
        Button::Mouse(v)
    }
}

impl From<GamepadButton> for Button {
    fn from(value: GamepadButton) -> (r: Button) {
        Button::Gamepad(value)
    }
}

impl vstd::std_specs::convert::FromSpecImpl<GamepadButton> for Button {
    open spec fn obeys_from_spec() -> bool {
        true
    }

    open spec fn from_spec(v: GamepadButton) -> Button {
        Button::Gamepad(v)
    }
}

impl From<MouseAxis1d> for Axis1d {
    fn from(value: MouseAxis1d) -> (r: Axis1d) {
        Axis1d::Mouse(value)
    }
}

impl vstd::std_specs::convert::FromSpecImpl<MouseAxis1d> for Axis1d {
    open spec fn obeys_from_spec() -> bool {
        true
    }

    open spec fn from_spec(v: MouseAxis1d) -> Axis1d {
        Axis1d::Mouse(v)
    }
}

impl From<GamepadAxis1d> for Axis1d {
    fn from(value: GamepadAxis1d) -> (r: Axis1d) {
        Axis1d::Gamepad(value)
    }
}

impl vstd::std_specs::convert::FromSpecImpl<GamepadAxis1d> for Axis1d {
    open spec fn obeys_from_spec() -> bool {
        true
    }

    open spec fn from_spec(v: GamepadAxis1d) -> Axis1d {
        Axis1d::Gamepad(v)
    }
}

impl From<MouseAxis2d> for Axis2d {
    fn from(value: MouseAxis2d) -> (r: Axis2d) {
        Axis2d::Mouse(value)
    }
}

impl vstd::std_specs::convert::FromSpecImpl<MouseAxis2d> for Axis2d {
    open spec fn obeys_from_spec() -> bool {
        true
    }

    open spec fn from_spec(v: MouseAxis2d) -> Axis2d {
        Axis2d::Mouse(v)
    }
}

impl From<GamepadAxis2d> for Axis2d {
    fn from(value: GamepadAxis2d) -> (r: Axis2d) {
        Axis2d::Gamepad(value)
    }
}

impl vstd::std_specs::convert::FromSpecImpl<GamepadAxis2d> for Axis2d {
    open spec fn obeys_from_spec() -> bool {
        true
    }

    open spec fn from_spec(v: GamepadAxis2d) -> Axis2d {
        Axis2d::Gamepad(v)
    }
}

} // verus!
