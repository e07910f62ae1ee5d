//! A stable string encoding of the device identifier catalogs, for
//! persisting binding tables: each input encodes as `"device/input"`, and
//! decoding accepts exactly the encodings.

use vstd::prelude::*;

use crate::buttons::Axis1d;
use crate::buttons::Axis2d;
use crate::buttons::Button;
use crate::buttons::GamepadAxis1d;
use crate::buttons::GamepadAxis2d;
use crate::buttons::GamepadButton;
use crate::buttons::KeyboardKey;
use crate::buttons::MouseAxis1d;
use crate::buttons::MouseAxis2d;
use crate::buttons::MouseButton;

verus! {

broadcast use vstd::string::group_string_axioms;

/// Whether a string equals a literal, by contents.
fn str_matches(a: &String, b: &str) -> (r: bool)
    ensures
        r == (a@ == b@),
{
    let owned: String = b.to_owned();
    *a == owned
}

/// The stable `"device/input"` encoding of one identifier.
pub open spec fn button_name_spec(value: Button) -> Seq<char> {
    match value {
        Button::Keyboard(KeyboardKey::A) => "keyboard/a"@,
        Button::Keyboard(KeyboardKey::B) => "keyboard/b"@,
        Button::Keyboard(KeyboardKey::C) => "keyboard/c"@,
        Button::Keyboard(KeyboardKey::D) => "keyboard/d"@,
        Button::Keyboard(KeyboardKey::E) => "keyboard/e"@,
        Button::Keyboard(KeyboardKey::F) => "keyboard/f"@,
        Button::Keyboard(KeyboardKey::G) => "keyboard/g"@,
        Button::Keyboard(KeyboardKey::H) => "keyboard/h"@,
        Button::Keyboard(KeyboardKey::I) => "keyboard/i"@,
        Button::Keyboard(KeyboardKey::J) => "keyboard/j"@,
        Button::Keyboard(KeyboardKey::K) => "keyboard/k"@,
        Button::Keyboard(KeyboardKey::L) => "keyboard/l"@,
        Button::Keyboard(KeyboardKey::M) => "keyboard/m"@,
        Button::Keyboard(KeyboardKey::N) => "keyboard/n"@,
        Button::Keyboard(KeyboardKey::O) => "keyboard/o"@,
        Button::Keyboard(KeyboardKey::P) => "keyboard/p"@,
        Button::Keyboard(KeyboardKey::Q) => "keyboard/q"@,
        Button::Keyboard(KeyboardKey::R) => "keyboard/r"@,
        Button::Keyboard(KeyboardKey::S) => "keyboard/s"@,
        Button::Keyboard(KeyboardKey::T) => "keyboard/t"@,
        Button::Keyboard(KeyboardKey::U) => "keyboard/u"@,
        Button::Keyboard(KeyboardKey::V) => "keyboard/v"@,
        Button::Keyboard(KeyboardKey::W) => "keyboard/w"@,
        Button::Keyboard(KeyboardKey::X) => "keyboard/x"@,
        Button::Keyboard(KeyboardKey::Y) => "keyboard/y"@,
        Button::Keyboard(KeyboardKey::Z) => "keyboard/z"@,
        Button::Keyboard(KeyboardKey::Zero) => "keyboard/zero"@,
        Button::Keyboard(KeyboardKey::One) => "keyboard/one"@,
        Button::Keyboard(KeyboardKey::Two) => "keyboard/two"@,
        Button::Keyboard(KeyboardKey::Three) => "keyboard/three"@,
        Button::Keyboard(KeyboardKey::Four) => "keyboard/four"@,
        Button::Keyboard(KeyboardKey::Five) => "keyboard/five"@,
        Button::Keyboard(KeyboardKey::Six) => "keyboard/six"@,
        Button::Keyboard(KeyboardKey::Seven) => "keyboard/seven"@,
        Button::Keyboard(KeyboardKey::Eight) => "keyboard/eight"@,
        Button::Keyboard(KeyboardKey::Nine) => "keyboard/nine"@,
        Button::Keyboard(KeyboardKey::F1) => "keyboard/f1"@,
        Button::Keyboard(KeyboardKey::F2) => "keyboard/f2"@,
        Button::Keyboard(KeyboardKey::F3) => "keyboard/f3"@,
        Button::Keyboard(KeyboardKey::F4) => "keyboard/f4"@,
        Button::Keyboard(KeyboardKey::F5) => "keyboard/f5"@,
        Button::Keyboard(KeyboardKey::F6) => "keyboard/f6"@,
        Button::Keyboard(KeyboardKey::F7) => "keyboard/f7"@,
        Button::Keyboard(KeyboardKey::F8) => "keyboard/f8"@,
        Button::Keyboard(KeyboardKey::F9) => "keyboard/f9"@,
        Button::Keyboard(KeyboardKey::F10) => "keyboard/f10"@,
        Button::Keyboard(KeyboardKey::F11) => "keyboard/f11"@,
        Button::Keyboard(KeyboardKey::F12) => "keyboard/f12"@,
        Button::Keyboard(KeyboardKey::F13) => "keyboard/f13"@,
        Button::Keyboard(KeyboardKey::F14) => "keyboard/f14"@,
        Button::Keyboard(KeyboardKey::F15) => "keyboard/f15"@,
        Button::Keyboard(KeyboardKey::F16) => "keyboard/f16"@,
        Button::Keyboard(KeyboardKey::F17) => "keyboard/f17"@,
        Button::Keyboard(KeyboardKey::F18) => "keyboard/f18"@,
        Button::Keyboard(KeyboardKey::F19) => "keyboard/f19"@,
        Button::Keyboard(KeyboardKey::F20) => "keyboard/f20"@,
        Button::Keyboard(KeyboardKey::F21) => "keyboard/f21"@,
        Button::Keyboard(KeyboardKey::F22) => "keyboard/f22"@,
        Button::Keyboard(KeyboardKey::F23) => "keyboard/f23"@,
        Button::Keyboard(KeyboardKey::F24) => "keyboard/f24"@,
        Button::Keyboard(KeyboardKey::Up) => "keyboard/up"@,
        Button::Keyboard(KeyboardKey::Down) => "keyboard/down"@,
        Button::Keyboard(KeyboardKey::Left) => "keyboard/left"@,
        Button::Keyboard(KeyboardKey::Right) => "keyboard/right"@,
        Button::Keyboard(KeyboardKey::Tab) => "keyboard/tab"@,
        Button::Keyboard(KeyboardKey::Return) => "keyboard/return"@,
        Button::Keyboard(KeyboardKey::Space) => "keyboard/space"@,
        Button::Keyboard(KeyboardKey::LShift) => "keyboard/leftshift"@,
        Button::Keyboard(KeyboardKey::RShift) => "keyboard/rightshift"@,
        Button::Keyboard(KeyboardKey::LControl) => "keyboard/leftctrl"@,
        Button::Keyboard(KeyboardKey::RControl) => "keyboard/rightctrl"@,
        Button::Keyboard(KeyboardKey::LAlt) => "keyboard/leftalt"@,
        Button::Keyboard(KeyboardKey::RAlt) => "keyboard/rightalt"@,
        Button::Keyboard(KeyboardKey::Escape) => "keyboard/escape"@,
        Button::Keyboard(KeyboardKey::Delete) => "keyboard/delete"@,
        Button::Mouse(MouseButton::Button1) => "mouse/button1"@,
        Button::Mouse(MouseButton::Button2) => "mouse/button2"@,
        Button::Mouse(MouseButton::Button3) => "mouse/button3"@,
        Button::Mouse(MouseButton::Button4) => "mouse/button4"@,
        Button::Mouse(MouseButton::Button5) => "mouse/button5"@,
        Button::Gamepad(GamepadButton::A) => "gamepad/a"@,
        Button::Gamepad(GamepadButton::B) => "gamepad/b"@,
        Button::Gamepad(GamepadButton::X) => "gamepad/x"@,
        Button::Gamepad(GamepadButton::Y) => "gamepad/y"@,
        Button::Gamepad(GamepadButton::DpadUp) => "gamepad/dpadup"@,
        Button::Gamepad(GamepadButton::DpadDown) => "gamepad/dpaddown"@,
        Button::Gamepad(GamepadButton::DpadLeft) => "gamepad/dpadleft"@,
        Button::Gamepad(GamepadButton::DpadRight) => "gamepad/dpadright"@,
        Button::Gamepad(GamepadButton::LeftStickLeft) => "gamepad/leftstickleft"@,
        Button::Gamepad(GamepadButton::LeftStickRight) => "gamepad/leftstickright"@,
        Button::Gamepad(GamepadButton::LeftStickUp) => "gamepad/leftstickup"@,
        Button::Gamepad(GamepadButton::LeftStickDown) => "gamepad/leftstickdown"@,
        Button::Gamepad(GamepadButton::RightStickLeft) => "gamepad/rightstickleft"@,
        Button::Gamepad(GamepadButton::RightStickRight) => "gamepad/rightstickright"@,
        Button::Gamepad(GamepadButton::RightStickUp) => "gamepad/rightstickup"@,
        Button::Gamepad(GamepadButton::RightStickDown) => "gamepad/rightstickdown"@,
        Button::Gamepad(GamepadButton::LeftShoulder) => "gamepad/leftshoulder"@,
        Button::Gamepad(GamepadButton::RightShoulder) => "gamepad/rightshoulder"@,
        Button::Gamepad(GamepadButton::LeftTrigger) => "gamepad/lefttrigger"@,
        Button::Gamepad(GamepadButton::RightTrigger) => "gamepad/righttrigger"@,
        Button::Gamepad(GamepadButton::LeftThumb) => "gamepad/leftthumb"@,
        Button::Gamepad(GamepadButton::RightThumb) => "gamepad/rightthumb"@,
        Button::Gamepad(GamepadButton::Select) => "gamepad/select"@,
        Button::Gamepad(GamepadButton::Start) => "gamepad/start"@,
    }
}

/// The identifier, if any, that a stable encoding denotes.
pub open spec fn parse_button_spec(s: Seq<char>) -> Option<Button> {
    if s == "keyboard/a"@ {
        Some(Button::Keyboard(KeyboardKey::A))
    } else if s == "keyboard/b"@ {
        Some(Button::Keyboard(KeyboardKey::B))
    } else if s == "keyboard/c"@ {
        Some(Button::Keyboard(KeyboardKey::C))
    } else if s == "keyboard/d"@ {
        Some(Button::Keyboard(KeyboardKey::D))
    } else if s == "keyboard/e"@ {
        Some(Button::Keyboard(KeyboardKey::E))
    } else if s == "keyboard/f"@ {
        Some(Button::Keyboard(KeyboardKey::F))
    } else if s == "keyboard/g"@ {
        Some(Button::Keyboard(KeyboardKey::G))
    } else if s == "keyboard/h"@ {
        Some(Button::Keyboard(KeyboardKey::H))
    } else if s == "keyboard/i"@ {
        Some(Button::Keyboard(KeyboardKey::I))
    } else if s == "keyboard/j"@ {
        Some(Button::Keyboard(KeyboardKey::J))
    } else if s == "keyboard/k"@ {
        Some(Button::Keyboard(KeyboardKey::K))
    } else if s == "keyboard/l"@ {
        Some(Button::Keyboard(KeyboardKey::L))
    } else if s == "keyboard/m"@ {
        Some(Button::Keyboard(KeyboardKey::M))
    } else if s == "keyboard/n"@ {
        Some(Button::Keyboard(KeyboardKey::N))
    } else if s == "keyboard/o"@ {
        Some(Button::Keyboard(KeyboardKey::O))
    } else if s == "keyboard/p"@ {
        Some(Button::Keyboard(KeyboardKey::P))
    } else if s == "keyboard/q"@ {
        Some(Button::Keyboard(KeyboardKey::Q))
    } else if s == "keyboard/r"@ {
        Some(Button::Keyboard(KeyboardKey::R))
    } else if s == "keyboard/s"@ {
        Some(Button::Keyboard(KeyboardKey::S))
    } else if s == "keyboard/t"@ {
        Some(Button::Keyboard(KeyboardKey::T))
    } else if s == "keyboard/u"@ {
        Some(Button::Keyboard(KeyboardKey::U))
    } else if s == "keyboard/v"@ {
        Some(Button::Keyboard(KeyboardKey::V))
    } else if s == "keyboard/w"@ {
        Some(Button::Keyboard(KeyboardKey::W))
    } else if s == "keyboard/x"@ {
        Some(Button::Keyboard(KeyboardKey::X))
    } else if s == "keyboard/y"@ {
        Some(Button::Keyboard(KeyboardKey::Y))
    } else if s == "keyboard/z"@ {
        Some(Button::Keyboard(KeyboardKey::Z))
    } else if s == "keyboard/zero"@ {
        Some(Button::Keyboard(KeyboardKey::Zero))
    } else if s == "keyboard/one"@ {
        Some(Button::Keyboard(KeyboardKey::One))
    } else if s == "keyboard/two"@ {
        Some(Button::Keyboard(KeyboardKey::Two))
    } else if s == "keyboard/three"@ {
        Some(Button::Keyboard(KeyboardKey::Three))
    } else if s == "keyboard/four"@ {
        Some(Button::Keyboard(KeyboardKey::Four))
    } else if s == "keyboard/five"@ {
        Some(Button::Keyboard(KeyboardKey::Five))
    } else if s == "keyboard/six"@ {
        Some(Button::Keyboard(KeyboardKey::Six))
    } else if s == "keyboard/seven"@ {
        Some(Button::Keyboard(KeyboardKey::Seven))
    } else if s == "keyboard/eight"@ {
        Some(Button::Keyboard(KeyboardKey::Eight))
    } else if s == "keyboard/nine"@ {
        Some(Button::Keyboard(KeyboardKey::Nine))
    } else if s == "keyboard/f1"@ {
        Some(Button::Keyboard(KeyboardKey::F1))
    } else if s == "keyboard/f2"@ {
        Some(Button::Keyboard(KeyboardKey::F2))
    } else if s == "keyboard/f3"@ {
        Some(Button::Keyboard(KeyboardKey::F3))
    } else if s == "keyboard/f4"@ {
        Some(Button::Keyboard(KeyboardKey::F4))
    } else if s == "keyboard/f5"@ {
        Some(Button::Keyboard(KeyboardKey::F5))
    } else if s == "keyboard/f6"@ {
        Some(Button::Keyboard(KeyboardKey::F6))
    } else if s == "keyboard/f7"@ {
        Some(Button::Keyboard(KeyboardKey::F7))
    } else if s == "keyboard/f8"@ {
        Some(Button::Keyboard(KeyboardKey::F8))
    } else if s == "keyboard/f9"@ {
        Some(Button::Keyboard(KeyboardKey::F9))
    } else if s == "keyboard/f10"@ {
        Some(Button::Keyboard(KeyboardKey::F10))
    } else if s == "keyboard/f11"@ {
        Some(Button::Keyboard(KeyboardKey::F11))
    } else if s == "keyboard/f12"@ {
        Some(Button::Keyboard(KeyboardKey::F12))
    } else if s == "keyboard/f13"@ {
        Some(Button::Keyboard(KeyboardKey::F13))
    } else if s == "keyboard/f14"@ {
        Some(Button::Keyboard(KeyboardKey::F14))
    } else if s == "keyboard/f15"@ {
        Some(Button::Keyboard(KeyboardKey::F15))
    } else if s == "keyboard/f16"@ {
        Some(Button::Keyboard(KeyboardKey::F16))
    } else if s == "keyboard/f17"@ {
        Some(Button::Keyboard(KeyboardKey::F17))
    } else if s == "keyboard/f18"@ {
        Some(Button::Keyboard(KeyboardKey::F18))
    } else if s == "keyboard/f19"@ {
        Some(Button::Keyboard(KeyboardKey::F19))
    } else if s == "keyboard/f20"@ {
        Some(Button::Keyboard(KeyboardKey::F20))
    } else if s == "keyboard/f21"@ {
        Some(Button::Keyboard(KeyboardKey::F21))
    } else if s == "keyboard/f22"@ {
        Some(Button::Keyboard(KeyboardKey::F22))
    } else if s == "keyboard/f23"@ {
        Some(Button::Keyboard(KeyboardKey::F23))
    } else if s == "keyboard/f24"@ {
        Some(Button::Keyboard(KeyboardKey::F24))
    } else if s == "keyboard/up"@ {
        Some(Button::Keyboard(KeyboardKey::Up))
    } else if s == "keyboard/down"@ {
        Some(Button::Keyboard(KeyboardKey::Down))
    } else if s == "keyboard/left"@ {
        Some(Button::Keyboard(KeyboardKey::Left))
    } else if s == "keyboard/right"@ {
        Some(Button::Keyboard(KeyboardKey::Right))
    } else if s == "keyboard/tab"@ {
        Some(Button::Keyboard(KeyboardKey::Tab))
    } else if s == "keyboard/return"@ {
        Some(Button::Keyboard(KeyboardKey::Return))
    } else if s == "keyboard/space"@ {
        Some(Button::Keyboard(KeyboardKey::Space))
    } else if s == "keyboard/leftshift"@ {
        Some(Button::Keyboard(KeyboardKey::LShift))
    } else if s == "keyboard/rightshift"@ {
        Some(Button::Keyboard(KeyboardKey::RShift))
    } else if s == "keyboard/leftctrl"@ {
        Some(Button::Keyboard(KeyboardKey::LControl))
    } else if s == "keyboard/rightctrl"@ {
        Some(Button::Keyboard(KeyboardKey::RControl))
    } else if s == "keyboard/leftalt"@ {
        Some(Button::Keyboard(KeyboardKey::LAlt))
    } else if s == "keyboard/rightalt"@ {
        Some(Button::Keyboard(KeyboardKey::RAlt))
    } else if s == "keyboard/escape"@ {
        Some(Button::Keyboard(KeyboardKey::Escape))
    } else if s == "keyboard/delete"@ {
        Some(Button::Keyboard(KeyboardKey::Delete))
    } else if s == "mouse/button1"@ {
        Some(Button::Mouse(MouseButton::Button1))
    } else if s == "mouse/button2"@ {
        Some(Button::Mouse(MouseButton::Button2))
    } else if s == "mouse/button3"@ {
        Some(Button::Mouse(MouseButton::Button3))
    } else if s == "mouse/button4"@ {
        Some(Button::Mouse(MouseButton::Button4))
    } else if s == "mouse/button5"@ {
        Some(Button::Mouse(MouseButton::Button5))
    } else if s == "gamepad/a"@ {
        Some(Button::Gamepad(GamepadButton::A))
    } else if s == "gamepad/b"@ {
        Some(Button::Gamepad(GamepadButton::B))
    } else if s == "gamepad/x"@ {
        Some(Button::Gamepad(GamepadButton::X))
    } else if s == "gamepad/y"@ {
        Some(Button::Gamepad(GamepadButton::Y))
    } else if s == "gamepad/dpadup"@ {
        Some(Button::Gamepad(GamepadButton::DpadUp))
    } else if s == "gamepad/dpaddown"@ {
        Some(Button::Gamepad(GamepadButton::DpadDown))
    } else if s == "gamepad/dpadleft"@ {
        Some(Button::Gamepad(GamepadButton::DpadLeft))
    } else if s == "gamepad/dpadright"@ {
        Some(Button::Gamepad(GamepadButton::DpadRight))
    } else if s == "gamepad/leftstickleft"@ {
        Some(Button::Gamepad(GamepadButton::LeftStickLeft))
    } else if s == "gamepad/leftstickright"@ {
        Some(Button::Gamepad(GamepadButton::LeftStickRight))
    } else if s == "gamepad/leftstickup"@ {
        Some(Button::Gamepad(GamepadButton::LeftStickUp))
    } else if s == "gamepad/leftstickdown"@ {
        Some(Button::Gamepad(GamepadButton::LeftStickDown))
    } else if s == "gamepad/rightstickleft"@ {
        Some(Button::Gamepad(GamepadButton::RightStickLeft))
    } else if s == "gamepad/rightstickright"@ {
        Some(Button::Gamepad(GamepadButton::RightStickRight))
    } else if s == "gamepad/rightstickup"@ {
        Some(Button::Gamepad(GamepadButton::RightStickUp))
    } else if s == "gamepad/rightstickdown"@ {
        Some(Button::Gamepad(GamepadButton::RightStickDown))
    } else if s == "gamepad/leftshoulder"@ {
        Some(Button::Gamepad(GamepadButton::LeftShoulder))
    } else if s == "gamepad/rightshoulder"@ {
        Some(Button::Gamepad(GamepadButton::RightShoulder))
    } else if s == "gamepad/lefttrigger"@ {
        Some(Button::Gamepad(GamepadButton::LeftTrigger))
    } else if s == "gamepad/righttrigger"@ {
        Some(Button::Gamepad(GamepadButton::RightTrigger))
    } else if s == "gamepad/leftthumb"@ {
        Some(Button::Gamepad(GamepadButton::LeftThumb))
    } else if s == "gamepad/rightthumb"@ {
        Some(Button::Gamepad(GamepadButton::RightThumb))
    } else if s == "gamepad/select"@ {
        Some(Button::Gamepad(GamepadButton::Select))
    } else if s == "gamepad/start"@ {
        Some(Button::Gamepad(GamepadButton::Start))
    } else {
        None
    }
}

/// The stable `"device/input"` encoding of one identifier.
pub open spec fn axis1d_name_spec(value: Axis1d) -> Seq<char> {
    match value {
        Axis1d::Mouse(MouseAxis1d::X) => "mouse/x"@,
        Axis1d::Mouse(MouseAxis1d::Y) => "mouse/y"@,
        Axis1d::Mouse(MouseAxis1d::WheelX) => "mouse/wheelx"@,
        Axis1d::Mouse(MouseAxis1d::WheelY) => "mouse/wheely"@,
        Axis1d::Gamepad(GamepadAxis1d::LeftStickX) => "gamepad/leftstickx"@,
        Axis1d::Gamepad(GamepadAxis1d::LeftStickY) => "gamepad/leftsticky"@,
        Axis1d::Gamepad(GamepadAxis1d::RightStickX) => "gamepad/rightstickx"@,
        Axis1d::Gamepad(GamepadAxis1d::RightStickY) => "gamepad/rightsticky"@,
        Axis1d::Gamepad(GamepadAxis1d::LeftTrigger) => "gamepad/lefttrigger"@,
        Axis1d::Gamepad(GamepadAxis1d::RightTrigger) => "gamepad/righttrigger"@,
        Axis1d::Gamepad(GamepadAxis1d::DpadX) => "gamepad/dpadx"@,
        Axis1d::Gamepad(GamepadAxis1d::DpadY) => "gamepad/dpady"@,
    }
}

/// The identifier, if any, that a stable encoding denotes.
pub open spec fn parse_axis1d_spec(s: Seq<char>) -> Option<Axis1d> {
    if s == "mouse/x"@ {
        Some(Axis1d::Mouse(MouseAxis1d::X))
    } else if s == "mouse/y"@ {
        Some(Axis1d::Mouse(MouseAxis1d::Y))
    } else if s == "mouse/wheelx"@ {
        Some(Axis1d::Mouse(MouseAxis1d::WheelX))
    } else if s == "mouse/wheely"@ {
        Some(Axis1d::Mouse(MouseAxis1d::WheelY))
    } else if s == "gamepad/leftstickx"@ {
        Some(Axis1d::Gamepad(GamepadAxis1d::LeftStickX))
    } else if s == "gamepad/leftsticky"@ {
        Some(Axis1d::Gamepad(GamepadAxis1d::LeftStickY))
    } else if s == "gamepad/rightstickx"@ {
        Some(Axis1d::Gamepad(GamepadAxis1d::RightStickX))
    } else if s == "gamepad/rightsticky"@ {
        Some(Axis1d::Gamepad(GamepadAxis1d::RightStickY))
    } else if s == "gamepad/lefttrigger"@ {
        Some(Axis1d::Gamepad(GamepadAxis1d::LeftTrigger))
    } else if s == "gamepad/righttrigger"@ {
        Some(Axis1d::Gamepad(GamepadAxis1d::RightTrigger))
    } else if s == "gamepad/dpadx"@ {
        Some(Axis1d::Gamepad(GamepadAxis1d::DpadX))
    } else if s == "gamepad/dpady"@ {
        Some(Axis1d::Gamepad(GamepadAxis1d::DpadY))
    } else {
        None
    }
}

/// The stable `"device/input"` encoding of one identifier.
pub open spec fn axis2d_name_spec(value: Axis2d) -> Seq<char> {
    match value {
        Axis2d::Mouse(MouseAxis2d::XY) => "mouse/xy"@,
        Axis2d::Gamepad(GamepadAxis2d::LeftStick) => "gamepad/leftstick"@,
        Axis2d::Gamepad(GamepadAxis2d::RightStick) => "gamepad/rightstick"@,
    }
}

/// The identifier, if any, that a stable encoding denotes.
pub open spec fn parse_axis2d_spec(s: Seq<char>) -> Option<Axis2d> {
    if s == "mouse/xy"@ {
        Some(Axis2d::Mouse(MouseAxis2d::XY))
    } else if s == "gamepad/leftstick"@ {
        Some(Axis2d::Gamepad(GamepadAxis2d::LeftStick))
    } else if s == "gamepad/rightstick"@ {
        Some(Axis2d::Gamepad(GamepadAxis2d::RightStick))
    } else {
        None
    }
}

impl Button {
    /// The stable `"device/input"` encoding of this identifier, for
    /// persisting binding tables.
    pub fn name(&self) -> (r: String)
        ensures
            r@ == button_name_spec(*self),
    {
        match *self {
            Button::Keyboard(KeyboardKey::A) => "keyboard/a".to_owned(),
            Button::Keyboard(KeyboardKey::B) => "keyboard/b".to_owned(),
            Button::Keyboard(KeyboardKey::C) => "keyboard/c".to_owned(),
            Button::Keyboard(KeyboardKey::D) => "keyboard/d".to_owned(),
            Button::Keyboard(KeyboardKey::E) => "keyboard/e".to_owned(),
            Button::Keyboard(KeyboardKey::F) => "keyboard/f".to_owned(),
            Button::Keyboard(KeyboardKey::G) => "keyboard/g".to_owned(),
            Button::Keyboard(KeyboardKey::H) => "keyboard/h".to_owned(),
            Button::Keyboard(KeyboardKey::I) => "keyboard/i".to_owned(),
            Button::Keyboard(KeyboardKey::J) => "keyboard/j".to_owned(),
            Button::Keyboard(KeyboardKey::K) => "keyboard/k".to_owned(),
            Button::Keyboard(KeyboardKey::L) => "keyboard/l".to_owned(),
            Button::Keyboard(KeyboardKey::M) => "keyboard/m".to_owned(),
            Button::Keyboard(KeyboardKey::N) => "keyboard/n".to_owned(),
            Button::Keyboard(KeyboardKey::O) => "keyboard/o".to_owned(),
            Button::Keyboard(KeyboardKey::P) => "keyboard/p".to_owned(),
            Button::Keyboard(KeyboardKey::Q) => "keyboard/q".to_owned(),
            Button::Keyboard(KeyboardKey::R) => "keyboard/r".to_owned(),
            Button::Keyboard(KeyboardKey::S) => "keyboard/s".to_owned(),
            Button::Keyboard(KeyboardKey::T) => "keyboard/t".to_owned(),
            Button::Keyboard(KeyboardKey::U) => "keyboard/u".to_owned(),
            Button::Keyboard(KeyboardKey::V) => "keyboard/v".to_owned(),
            Button::Keyboard(KeyboardKey::W) => "keyboard/w".to_owned(),
            Button::Keyboard(KeyboardKey::X) => "keyboard/x".to_owned(),
            Button::Keyboard(KeyboardKey::Y) => "keyboard/y".to_owned(),
            Button::Keyboard(KeyboardKey::Z) => "keyboard/z".to_owned(),
            Button::Keyboard(KeyboardKey::Zero) => "keyboard/zero".to_owned(),
            Button::Keyboard(KeyboardKey::One) => "keyboard/one".to_owned(),
            Button::Keyboard(KeyboardKey::Two) => "keyboard/two".to_owned(),
            Button::Keyboard(KeyboardKey::Three) => "keyboard/three".to_owned(),
            Button::Keyboard(KeyboardKey::Four) => "keyboard/four".to_owned(),
            Button::Keyboard(KeyboardKey::Five) => "keyboard/five".to_owned(),
            Button::Keyboard(KeyboardKey::Six) => "keyboard/six".to_owned(),
            Button::Keyboard(KeyboardKey::Seven) => "keyboard/seven".to_owned(),
            Button::Keyboard(KeyboardKey::Eight) => "keyboard/eight".to_owned(),
            Button::Keyboard(KeyboardKey::Nine) => "keyboard/nine".to_owned(),
            Button::Keyboard(KeyboardKey::F1) => "keyboard/f1".to_owned(),
            Button::Keyboard(KeyboardKey::F2) => "keyboard/f2".to_owned(),
            Button::Keyboard(KeyboardKey::F3) => "keyboard/f3".to_owned(),
            Button::Keyboard(KeyboardKey::F4) => "keyboard/f4".to_owned(),
            Button::Keyboard(KeyboardKey::F5) => "keyboard/f5".to_owned(),
            Button::Keyboard(KeyboardKey::F6) => "keyboard/f6".to_owned(),
            Button::Keyboard(KeyboardKey::F7) => "keyboard/f7".to_owned(),
            Button::Keyboard(KeyboardKey::F8) => "keyboard/f8".to_owned(),
            Button::Keyboard(KeyboardKey::F9) => "keyboard/f9".to_owned(),
            Button::Keyboard(KeyboardKey::F10) => "keyboard/f10".to_owned(),
            Button::Keyboard(KeyboardKey::F11) => "keyboard/f11".to_owned(),
            Button::Keyboard(KeyboardKey::F12) => "keyboard/f12".to_owned(),
            Button::Keyboard(KeyboardKey::F13) => "keyboard/f13".to_owned(),
            Button::Keyboard(KeyboardKey::F14) => "keyboard/f14".to_owned(),
            Button::Keyboard(KeyboardKey::F15) => "keyboard/f15".to_owned(),
            Button::Keyboard(KeyboardKey::F16) => "keyboard/f16".to_owned(),
            Button::Keyboard(KeyboardKey::F17) => "keyboard/f17".to_owned(),
            Button::Keyboard(KeyboardKey::F18) => "keyboard/f18".to_owned(),
            Button::Keyboard(KeyboardKey::F19) => "keyboard/f19".to_owned(),
            Button::Keyboard(KeyboardKey::F20) => "keyboard/f20".to_owned(),
            Button::Keyboard(KeyboardKey::F21) => "keyboard/f21".to_owned(),
            Button::Keyboard(KeyboardKey::F22) => "keyboard/f22".to_owned(),
            Button::Keyboard(KeyboardKey::F23) => "keyboard/f23".to_owned(),
            Button::Keyboard(KeyboardKey::F24) => "keyboard/f24".to_owned(),
            Button::Keyboard(KeyboardKey::Up) => "keyboard/up".to_owned(),
            Button::Keyboard(KeyboardKey::Down) => "keyboard/down".to_owned(),
            Button::Keyboard(KeyboardKey::Left) => "keyboard/left".to_owned(),
            Button::Keyboard(KeyboardKey::Right) => "keyboard/right".to_owned(),
            Button::Keyboard(KeyboardKey::Tab) => "keyboard/tab".to_owned(),
            Button::Keyboard(KeyboardKey::Return) => "keyboard/return".to_owned(),
            Button::Keyboard(KeyboardKey::Space) => "keyboard/space".to_owned(),
            Button::Keyboard(KeyboardKey::LShift) => "keyboard/leftshift".to_owned(),
            Button::Keyboard(KeyboardKey::RShift) => "keyboard/rightshift".to_owned(),
            Button::Keyboard(KeyboardKey::LControl) => "keyboard/leftctrl".to_owned(),
            Button::Keyboard(KeyboardKey::RControl) => "keyboard/rightctrl".to_owned(),
            Button::Keyboard(KeyboardKey::LAlt) => "keyboard/leftalt".to_owned(),
            Button::Keyboard(KeyboardKey::RAlt) => "keyboard/rightalt".to_owned(),
            Button::Keyboard(KeyboardKey::Escape) => "keyboard/escape".to_owned(),
            Button::Keyboard(KeyboardKey::Delete) => "keyboard/delete".to_owned(),
            Button::Mouse(MouseButton::Button1) => "mouse/button1".to_owned(),
            Button::Mouse(MouseButton::Button2) => "mouse/button2".to_owned(),
            Button::Mouse(MouseButton::Button3) => "mouse/button3".to_owned(),
            Button::Mouse(MouseButton::Button4) => "mouse/button4".to_owned(),
            Button::Mouse(MouseButton::Button5) => "mouse/button5".to_owned(),
            Button::Gamepad(GamepadButton::A) => "gamepad/a".to_owned(),
            Button::Gamepad(GamepadButton::B) => "gamepad/b".to_owned(),
            Button::Gamepad(GamepadButton::X) => "gamepad/x".to_owned(),
            Button::Gamepad(GamepadButton::Y) => "gamepad/y".to_owned(),
            Button::Gamepad(GamepadButton::DpadUp) => "gamepad/dpadup".to_owned(),
            Button::Gamepad(GamepadButton::DpadDown) => "gamepad/dpaddown".to_owned(),
            Button::Gamepad(GamepadButton::DpadLeft) => "gamepad/dpadleft".to_owned(),
            Button::Gamepad(GamepadButton::DpadRight) => "gamepad/dpadright".to_owned(),
            Button::Gamepad(GamepadButton::LeftStickLeft) => "gamepad/leftstickleft".to_owned(),
            Button::Gamepad(GamepadButton::LeftStickRight) => "gamepad/leftstickright".to_owned(),
            Button::Gamepad(GamepadButton::LeftStickUp) => "gamepad/leftstickup".to_owned(),
            Button::Gamepad(GamepadButton::LeftStickDown) => "gamepad/leftstickdown".to_owned(),
            Button::Gamepad(GamepadButton::RightStickLeft) => "gamepad/rightstickleft".to_owned(),
            Button::Gamepad(GamepadButton::RightStickRight) => "gamepad/rightstickright".to_owned(),
            Button::Gamepad(GamepadButton::RightStickUp) => "gamepad/rightstickup".to_owned(),
            Button::Gamepad(GamepadButton::RightStickDown) => "gamepad/rightstickdown".to_owned(),
            Button::Gamepad(GamepadButton::LeftShoulder) => "gamepad/leftshoulder".to_owned(),
            Button::Gamepad(GamepadButton::RightShoulder) => "gamepad/rightshoulder".to_owned(),
            Button::Gamepad(GamepadButton::LeftTrigger) => "gamepad/lefttrigger".to_owned(),
            Button::Gamepad(GamepadButton::RightTrigger) => "gamepad/righttrigger".to_owned(),
            Button::Gamepad(GamepadButton::LeftThumb) => "gamepad/leftthumb".to_owned(),
            Button::Gamepad(GamepadButton::RightThumb) => "gamepad/rightthumb".to_owned(),
            Button::Gamepad(GamepadButton::Select) => "gamepad/select".to_owned(),
            Button::Gamepad(GamepadButton::Start) => "gamepad/start".to_owned(),
        }
    }

    /// Decodes a stable `"device/input"` encoding back to an identifier.
    pub fn parse(s: &str) -> (r: Option<Button>)
        ensures
            r == parse_button_spec(s@),
    {
        let key: String = s.to_owned();
        if str_matches(&key, "keyboard/a") {
            Some(Button::Keyboard(KeyboardKey::A))
        } else if str_matches(&key, "keyboard/b") {
            Some(Button::Keyboard(KeyboardKey::B))
        } else if str_matches(&key, "keyboard/c") {
            Some(Button::Keyboard(KeyboardKey::C))
        } else if str_matches(&key, "keyboard/d") {
            Some(Button::Keyboard(KeyboardKey::D))
        } else if str_matches(&key, "keyboard/e") {
            Some(Button::Keyboard(KeyboardKey::E))
        } else if str_matches(&key, "keyboard/f") {
            Some(Button::Keyboard(KeyboardKey::F))
        } else if str_matches(&key, "keyboard/g") {
            Some(Button::Keyboard(KeyboardKey::G))
        } else if str_matches(&key, "keyboard/h") {
            Some(Button::Keyboard(KeyboardKey::H))
        } else if str_matches(&key, "keyboard/i") {
            Some(Button::Keyboard(KeyboardKey::I))
        } else if str_matches(&key, "keyboard/j") {
            Some(Button::Keyboard(KeyboardKey::J))
        } else if str_matches(&key, "keyboard/k") {
            Some(Button::Keyboard(KeyboardKey::K))
        } else if str_matches(&key, "keyboard/l") {
            Some(Button::Keyboard(KeyboardKey::L))
        } else if str_matches(&key, "keyboard/m") {
            Some(Button::Keyboard(KeyboardKey::M))
        } else if str_matches(&key, "keyboard/n") {
            Some(Button::Keyboard(KeyboardKey::N))
        } else if str_matches(&key, "keyboard/o") {
            Some(Button::Keyboard(KeyboardKey::O))
        } else if str_matches(&key, "keyboard/p") {
            Some(Button::Keyboard(KeyboardKey::P))
        } else if str_matches(&key, "keyboard/q") {
            Some(Button::Keyboard(KeyboardKey::Q))
        } else if str_matches(&key, "keyboard/r") {
            Some(Button::Keyboard(KeyboardKey::R))
        } else if str_matches(&key, "keyboard/s") {
            Some(Button::Keyboard(KeyboardKey::S))
        } else if str_matches(&key, "keyboard/t") {
            Some(Button::Keyboard(KeyboardKey::T))
        } else if str_matches(&key, "keyboard/u") {
            Some(Button::Keyboard(KeyboardKey::U))
        } else if str_matches(&key, "keyboard/v") {
            Some(Button::Keyboard(KeyboardKey::V))
        } else if str_matches(&key, "keyboard/w") {
            Some(Button::Keyboard(KeyboardKey::W))
        } else if str_matches(&key, "keyboard/x") {
            Some(Button::Keyboard(KeyboardKey::X))
        } else if str_matches(&key, "keyboard/y") {
            Some(Button::Keyboard(KeyboardKey::Y))
        } else if str_matches(&key, "keyboard/z") {
            Some(Button::Keyboard(KeyboardKey::Z))
        } else if str_matches(&key, "keyboard/zero") {
            Some(Button::Keyboard(KeyboardKey::Zero))
        } else if str_matches(&key, "keyboard/one") {
            Some(Button::Keyboard(KeyboardKey::One))
        } else if str_matches(&key, "keyboard/two") {
            Some(Button::Keyboard(KeyboardKey::Two))
        } else if str_matches(&key, "keyboard/three") {
            Some(Button::Keyboard(KeyboardKey::Three))
        } else if str_matches(&key, "keyboard/four") {
            Some(Button::Keyboard(KeyboardKey::Four))
        } else if str_matches(&key, "keyboard/five") {
            Some(Button::Keyboard(KeyboardKey::Five))
        } else if str_matches(&key, "keyboard/six") {
            Some(Button::Keyboard(KeyboardKey::Six))
        } else if str_matches(&key, "keyboard/seven") {
            Some(Button::Keyboard(KeyboardKey::Seven))
        } else if str_matches(&key, "keyboard/eight") {
            Some(Button::Keyboard(KeyboardKey::Eight))
        } else if str_matches(&key, "keyboard/nine") {
            Some(Button::Keyboard(KeyboardKey::Nine))
        } else if str_matches(&key, "keyboard/f1") {
            Some(Button::Keyboard(KeyboardKey::F1))
        } else if str_matches(&key, "keyboard/f2") {
            Some(Button::Keyboard(KeyboardKey::F2))
        } else if str_matches(&key, "keyboard/f3") {
            Some(Button::Keyboard(KeyboardKey::F3))
        } else if str_matches(&key, "keyboard/f4") {
            Some(Button::Keyboard(KeyboardKey::F4))
        } else if str_matches(&key, "keyboard/f5") {
            Some(Button::Keyboard(KeyboardKey::F5))
        } else if str_matches(&key, "keyboard/f6") {
            Some(Button::Keyboard(KeyboardKey::F6))
        } else if str_matches(&key, "keyboard/f7") {
            Some(Button::Keyboard(KeyboardKey::F7))
        } else if str_matches(&key, "keyboard/f8") {
            Some(Button::Keyboard(KeyboardKey::F8))
        } else if str_matches(&key, "keyboard/f9") {
            Some(Button::Keyboard(KeyboardKey::F9))
        } else if str_matches(&key, "keyboard/f10") {
            Some(Button::Keyboard(KeyboardKey::F10))
        } else if str_matches(&key, "keyboard/f11") {
            Some(Button::Keyboard(KeyboardKey::F11))
        } else if str_matches(&key, "keyboard/f12") {
            Some(Button::Keyboard(KeyboardKey::F12))
        } else if str_matches(&key, "keyboard/f13") {
            Some(Button::Keyboard(KeyboardKey::F13))
        } else if str_matches(&key, "keyboard/f14") {
            Some(Button::Keyboard(KeyboardKey::F14))
        } else if str_matches(&key, "keyboard/f15") {
            Some(Button::Keyboard(KeyboardKey::F15))
        } else if str_matches(&key, "keyboard/f16") {
            Some(Button::Keyboard(KeyboardKey::F16))
        } else if str_matches(&key, "keyboard/f17") {
            Some(Button::Keyboard(KeyboardKey::F17))
        } else if str_matches(&key, "keyboard/f18") {
            Some(Button::Keyboard(KeyboardKey::F18))
        } else if str_matches(&key, "keyboard/f19") {
            Some(Button::Keyboard(KeyboardKey::F19))
        } else if str_matches(&key, "keyboard/f20") {
            Some(Button::Keyboard(KeyboardKey::F20))
        } else if str_matches(&key, "keyboard/f21") {
            Some(Button::Keyboard(KeyboardKey::F21))
        } else if str_matches(&key, "keyboard/f22") {
            Some(Button::Keyboard(KeyboardKey::F22))
        } else if str_matches(&key, "keyboard/f23") {
            Some(Button::Keyboard(KeyboardKey::F23))
        } else if str_matches(&key, "keyboard/f24") {
            Some(Button::Keyboard(KeyboardKey::F24))
        } else if str_matches(&key, "keyboard/up") {
            Some(Button::Keyboard(KeyboardKey::Up))
        } else if str_matches(&key, "keyboard/down") {
            Some(Button::Keyboard(KeyboardKey::Down))
        } else if str_matches(&key, "keyboard/left") {
            Some(Button::Keyboard(KeyboardKey::Left))
        } else if str_matches(&key, "keyboard/right") {
            Some(Button::Keyboard(KeyboardKey::Right))
        } else if str_matches(&key, "keyboard/tab") {
            Some(Button::Keyboard(KeyboardKey::Tab))
        } else if str_matches(&key, "keyboard/return") {
            Some(Button::Keyboard(KeyboardKey::Return))
        } else if str_matches(&key, "keyboard/space") {
            Some(Button::Keyboard(KeyboardKey::Space))
        } else if str_matches(&key, "keyboard/leftshift") {
            Some(Button::Keyboard(KeyboardKey::LShift))
        } else if str_matches(&key, "keyboard/rightshift") {
            Some(Button::Keyboard(KeyboardKey::RShift))
        } else if str_matches(&key, "keyboard/leftctrl") {
            Some(Button::Keyboard(KeyboardKey::LControl))
        } else if str_matches(&key, "keyboard/rightctrl") {
            Some(Button::Keyboard(KeyboardKey::RControl))
        } else if str_matches(&key, "keyboard/leftalt") {
            Some(Button::Keyboard(KeyboardKey::LAlt))
        } else if str_matches(&key, "keyboard/rightalt") {
            Some(Button::Keyboard(KeyboardKey::RAlt))
        } else if str_matches(&key, "keyboard/escape") {
            Some(Button::Keyboard(KeyboardKey::Escape))
        } else if str_matches(&key, "keyboard/delete") {
            Some(Button::Keyboard(KeyboardKey::Delete))
        } else if str_matches(&key, "mouse/button1") {
            Some(Button::Mouse(MouseButton::Button1))
        } else if str_matches(&key, "mouse/button2") {
            Some(Button::Mouse(MouseButton::Button2))
        } else if str_matches(&key, "mouse/button3") {
            Some(Button::Mouse(MouseButton::Button3))
        } else if str_matches(&key, "mouse/button4") {
            Some(Button::Mouse(MouseButton::Button4))
        } else if str_matches(&key, "mouse/button5") {
            Some(Button::Mouse(MouseButton::Button5))
        } else if str_matches(&key, "gamepad/a") {
            Some(Button::Gamepad(GamepadButton::A))
        } else if str_matches(&key, "gamepad/b") {
            Some(Button::Gamepad(GamepadButton::B))
        } else if str_matches(&key, "gamepad/x") {
            Some(Button::Gamepad(GamepadButton::X))
        } else if str_matches(&key, "gamepad/y") {
            Some(Button::Gamepad(GamepadButton::Y))
        } else if str_matches(&key, "gamepad/dpadup") {
            Some(Button::Gamepad(GamepadButton::DpadUp))
        } else if str_matches(&key, "gamepad/dpaddown") {
            Some(Button::Gamepad(GamepadButton::DpadDown))
        } else if str_matches(&key, "gamepad/dpadleft") {
            Some(Button::Gamepad(GamepadButton::DpadLeft))
        } else if str_matches(&key, "gamepad/dpadright") {
            Some(Button::Gamepad(GamepadButton::DpadRight))
        } else if str_matches(&key, "gamepad/leftstickleft") {
            Some(Button::Gamepad(GamepadButton::LeftStickLeft))
        } else if str_matches(&key, "gamepad/leftstickright") {
            Some(Button::Gamepad(GamepadButton::LeftStickRight))
        } else if str_matches(&key, "gamepad/leftstickup") {
            Some(Button::Gamepad(GamepadButton::LeftStickUp))
        } else if str_matches(&key, "gamepad/leftstickdown") {
            Some(Button::Gamepad(GamepadButton::LeftStickDown))
        } else if str_matches(&key, "gamepad/rightstickleft") {
            Some(Button::Gamepad(GamepadButton::RightStickLeft))
        } else if str_matches(&key, "gamepad/rightstickright") {
            Some(Button::Gamepad(GamepadButton::RightStickRight))
        } else if str_matches(&key, "gamepad/rightstickup") {
            Some(Button::Gamepad(GamepadButton::RightStickUp))
        } else if str_matches(&key, "gamepad/rightstickdown") {
            Some(Button::Gamepad(GamepadButton::RightStickDown))
        } else if str_matches(&key, "gamepad/leftshoulder") {
            Some(Button::Gamepad(GamepadButton::LeftShoulder))
        } else if str_matches(&key, "gamepad/rightshoulder") {
            Some(Button::Gamepad(GamepadButton::RightShoulder))
        } else if str_matches(&key, "gamepad/lefttrigger") {
            Some(Button::Gamepad(GamepadButton::LeftTrigger))
        } else if str_matches(&key, "gamepad/righttrigger") {
            Some(Button::Gamepad(GamepadButton::RightTrigger))
        } else if str_matches(&key, "gamepad/leftthumb") {
            Some(Button::Gamepad(GamepadButton::LeftThumb))
        } else if str_matches(&key, "gamepad/rightthumb") {
            Some(Button::Gamepad(GamepadButton::RightThumb))
        } else if str_matches(&key, "gamepad/select") {
            Some(Button::Gamepad(GamepadButton::Select))
        } else if str_matches(&key, "gamepad/start") {
            Some(Button::Gamepad(GamepadButton::Start))
        } else {
            None
        }
    }
}

impl Axis1d {
    /// The stable `"device/input"` encoding of this identifier, for
    /// persisting binding tables.
    pub fn name(&self) -> (r: String)
        ensures
            r@ == axis1d_name_spec(*self),
    {
        match *self {
            Axis1d::Mouse(MouseAxis1d::X) => "mouse/x".to_owned(),
            Axis1d::Mouse(MouseAxis1d::Y) => "mouse/y".to_owned(),
            Axis1d::Mouse(MouseAxis1d::WheelX) => "mouse/wheelx".to_owned(),
            Axis1d::Mouse(MouseAxis1d::WheelY) => "mouse/wheely".to_owned(),
            Axis1d::Gamepad(GamepadAxis1d::LeftStickX) => "gamepad/leftstickx".to_owned(),
            Axis1d::Gamepad(GamepadAxis1d::LeftStickY) => "gamepad/leftsticky".to_owned(),
            Axis1d::Gamepad(GamepadAxis1d::RightStickX) => "gamepad/rightstickx".to_owned(),
            Axis1d::Gamepad(GamepadAxis1d::RightStickY) => "gamepad/rightsticky".to_owned(),
            Axis1d::Gamepad(GamepadAxis1d::LeftTrigger) => "gamepad/lefttrigger".to_owned(),
            Axis1d::Gamepad(GamepadAxis1d::RightTrigger) => "gamepad/righttrigger".to_owned(),
            Axis1d::Gamepad(GamepadAxis1d::DpadX) => "gamepad/dpadx".to_owned(),
            Axis1d::Gamepad(GamepadAxis1d::DpadY) => "gamepad/dpady".to_owned(),
        }
    }

    /// Decodes a stable `"device/input"` encoding back to an identifier.
    pub fn parse(s: &str) -> (r: Option<Axis1d>)
        ensures
            r == parse_axis1d_spec(s@),
    {
        let key: String = s.to_owned();
        if str_matches(&key, "mouse/x") {
            Some(Axis1d::Mouse(MouseAxis1d::X))
        } else if str_matches(&key, "mouse/y") {
            Some(Axis1d::Mouse(MouseAxis1d::Y))
        } else if str_matches(&key, "mouse/wheelx") {
            Some(Axis1d::Mouse(MouseAxis1d::WheelX))
        } else if str_matches(&key, "mouse/wheely") {
            Some(Axis1d::Mouse(MouseAxis1d::WheelY))
        } else if str_matches(&key, "gamepad/leftstickx") {
            Some(Axis1d::Gamepad(GamepadAxis1d::LeftStickX))
        } else if str_matches(&key, "gamepad/leftsticky") {
            Some(Axis1d::Gamepad(GamepadAxis1d::LeftStickY))
        } else if str_matches(&key, "gamepad/rightstickx") {
            Some(Axis1d::Gamepad(GamepadAxis1d::RightStickX))
        } else if str_matches(&key, "gamepad/rightsticky") {
            Some(Axis1d::Gamepad(GamepadAxis1d::RightStickY))
        } else if str_matches(&key, "gamepad/lefttrigger") {
            Some(Axis1d::Gamepad(GamepadAxis1d::LeftTrigger))
        } else if str_matches(&key, "gamepad/righttrigger") {
            Some(Axis1d::Gamepad(GamepadAxis1d::RightTrigger))
        } else if str_matches(&key, "gamepad/dpadx") {
            Some(Axis1d::Gamepad(GamepadAxis1d::DpadX))
        } else if str_matches(&key, "gamepad/dpady") {
            Some(Axis1d::Gamepad(GamepadAxis1d::DpadY))
        } else {
            None
        }
    }
}

impl Axis2d {
    /// The stable `"device/input"` encoding of this identifier, for
    /// persisting binding tables.
    pub fn name(&self) -> (r: String)
        ensures
            r@ == axis2d_name_spec(*self),
    {
        match *self {
            Axis2d::Mouse(MouseAxis2d::XY) => "mouse/xy".to_owned(),
            Axis2d::Gamepad(GamepadAxis2d::LeftStick) => "gamepad/leftstick".to_owned(),
            Axis2d::Gamepad(GamepadAxis2d::RightStick) => "gamepad/rightstick".to_owned(),
        }
    }

    /// Decodes a stable `"device/input"` encoding back to an identifier.
    pub fn parse(s: &str) -> (r: Option<Axis2d>)
        ensures
            r == parse_axis2d_spec(s@),
    {
        let key: String = s.to_owned();
        if str_matches(&key, "mouse/xy") {
            Some(Axis2d::Mouse(MouseAxis2d::XY))
        } else if str_matches(&key, "gamepad/leftstick") {
            Some(Axis2d::Gamepad(GamepadAxis2d::LeftStick))
        } else if str_matches(&key, "gamepad/rightstick") {
            Some(Axis2d::Gamepad(GamepadAxis2d::RightStick))
        } else {
            None
        }
    }
}


/// Decoding inverts encoding: every identifier's stable name parses back
/// to exactly that identifier.
#[verifier::rlimit(20)]
pub proof fn lemma_axis2d_name_round_trip(value: Axis2d)
    ensures
        parse_axis2d_spec(axis2d_name_spec(value)) == Some(value),
{
    reveal_strlit("mouse/xy");
    reveal_strlit("gamepad/leftstick");
    reveal_strlit("gamepad/rightstick");
    assert("mouse/xy"@.len() == 8);
    assert("gamepad/leftstick"@.len() == 17);
    assert("gamepad/rightstick"@.len() == 18);
    match value {
        Axis2d::Mouse(MouseAxis2d::XY) => {
            assert(axis2d_name_spec(value) == "mouse/xy"@);
            assert(parse_axis2d_spec("mouse/xy"@) == Some(value));
        },
        Axis2d::Gamepad(GamepadAxis2d::LeftStick) => {
            assert("gamepad/leftstick"@ != "mouse/xy"@);
            assert(parse_axis2d_spec("gamepad/leftstick"@) == Some(value));
        },
        Axis2d::Gamepad(GamepadAxis2d::RightStick) => {
            assert("gamepad/rightstick"@ != "mouse/xy"@);
            assert("gamepad/rightstick"@ != "gamepad/leftstick"@);
            assert(parse_axis2d_spec("gamepad/rightstick"@) == Some(value));
        },
    }
}

/// Decoding inverts encoding: every identifier's stable name parses back
/// to exactly that identifier.
#[verifier::rlimit(30)]
pub proof fn lemma_axis1d_name_round_trip(value: Axis1d)
    ensures
        parse_axis1d_spec(axis1d_name_spec(value)) == Some(value),
{
    reveal_strlit("mouse/x");
    reveal_strlit("mouse/y");
    reveal_strlit("mouse/wheelx");
    reveal_strlit("mouse/wheely");
    reveal_strlit("gamepad/leftstickx");
    reveal_strlit("gamepad/leftsticky");
    reveal_strlit("gamepad/rightstickx");
    reveal_strlit("gamepad/rightsticky");
    reveal_strlit("gamepad/lefttrigger");
    reveal_strlit("gamepad/righttrigger");
    reveal_strlit("gamepad/dpadx");
    reveal_strlit("gamepad/dpady");
    assert("mouse/x"@.len() == 7);
    assert("mouse/y"@.len() == 7);
    assert("mouse/wheelx"@.len() == 12);
    assert("mouse/wheely"@.len() == 12);
    assert("gamepad/leftstickx"@.len() == 18);
    assert("gamepad/leftsticky"@.len() == 18);
    assert("gamepad/rightstickx"@.len() == 19);
    assert("gamepad/rightsticky"@.len() == 19);
    assert("gamepad/lefttrigger"@.len() == 19);
    assert("gamepad/righttrigger"@.len() == 20);
    assert("gamepad/dpadx"@.len() == 13);
    assert("gamepad/dpady"@.len() == 13);
    match value {
        Axis1d::Mouse(MouseAxis1d::X) => {
            assert(parse_axis1d_spec("mouse/x"@) == Some(value));
        },
        Axis1d::Mouse(MouseAxis1d::Y) => {
            assert("mouse/y"@ != "mouse/x"@) by {
                assert("mouse/y"@[6] == 'y');
                assert("mouse/x"@[6] == 'x');
            }
            assert(parse_axis1d_spec("mouse/y"@) == Some(value));
        },
        Axis1d::Mouse(MouseAxis1d::WheelX) => {
            assert("mouse/wheelx"@ != "mouse/x"@);
            assert("mouse/wheelx"@ != "mouse/y"@);
            assert(parse_axis1d_spec("mouse/wheelx"@) == Some(value));
        },
        Axis1d::Mouse(MouseAxis1d::WheelY) => {
            assert("mouse/wheely"@ != "mouse/x"@);
            assert("mouse/wheely"@ != "mouse/y"@);
            assert("mouse/wheely"@ != "mouse/wheelx"@) by {
                assert("mouse/wheely"@[11] == 'y');
                assert("mouse/wheelx"@[11] == 'x');
            }
            assert(parse_axis1d_spec("mouse/wheely"@) == Some(value));
        },
        Axis1d::Gamepad(GamepadAxis1d::LeftStickX) => {
            assert("gamepad/leftstickx"@ != "mouse/x"@);
            assert("gamepad/leftstickx"@ != "mouse/y"@);
            assert("gamepad/leftstickx"@ != "mouse/wheelx"@);
            assert("gamepad/leftstickx"@ != "mouse/wheely"@);
            assert(parse_axis1d_spec("gamepad/leftstickx"@) == Some(value));
        },
        Axis1d::Gamepad(GamepadAxis1d::LeftStickY) => {
            assert("gamepad/leftsticky"@ != "mouse/x"@);
            assert("gamepad/leftsticky"@ != "mouse/y"@);
            assert("gamepad/leftsticky"@ != "mouse/wheelx"@);
            assert("gamepad/leftsticky"@ != "mouse/wheely"@);
            assert("gamepad/leftsticky"@ != "gamepad/leftstickx"@) by {
                assert("gamepad/leftsticky"@[17] == 'y');
                assert("gamepad/leftstickx"@[17] == 'x');
            }
            assert(parse_axis1d_spec("gamepad/leftsticky"@) == Some(value));
        },
        Axis1d::Gamepad(GamepadAxis1d::RightStickX) => {
            assert("gamepad/rightstickx"@ != "mouse/x"@);
            assert("gamepad/rightstickx"@ != "mouse/y"@);
            assert("gamepad/rightstickx"@ != "mouse/wheelx"@);
            assert("gamepad/rightstickx"@ != "mouse/wheely"@);
            assert("gamepad/rightstickx"@ != "gamepad/leftstickx"@);
            assert("gamepad/rightstickx"@ != "gamepad/leftsticky"@);
            assert(parse_axis1d_spec("gamepad/rightstickx"@) == Some(value));
        },
        Axis1d::Gamepad(GamepadAxis1d::RightStickY) => {
            assert("gamepad/rightsticky"@ != "mouse/x"@);
            assert("gamepad/rightsticky"@ != "mouse/y"@);
            assert("gamepad/rightsticky"@ != "mouse/wheelx"@);
            assert("gamepad/rightsticky"@ != "mouse/wheely"@);
            assert("gamepad/rightsticky"@ != "gamepad/leftstickx"@);
            assert("gamepad/rightsticky"@ != "gamepad/leftsticky"@);
            assert("gamepad/rightsticky"@ != "gamepad/rightstickx"@) by {
                assert("gamepad/rightsticky"@[18] == 'y');
                assert("gamepad/rightstickx"@[18] == 'x');
            }
            assert(parse_axis1d_spec("gamepad/rightsticky"@) == Some(value));
        },
        Axis1d::Gamepad(GamepadAxis1d::LeftTrigger) => {
            assert("gamepad/lefttrigger"@ != "mouse/x"@);
            assert("gamepad/lefttrigger"@ != "mouse/y"@);
            assert("gamepad/lefttrigger"@ != "mouse/wheelx"@);
            assert("gamepad/lefttrigger"@ != "mouse/wheely"@);
            assert("gamepad/lefttrigger"@ != "gamepad/leftstickx"@);
            assert("gamepad/lefttrigger"@ != "gamepad/leftsticky"@);
            assert("gamepad/lefttrigger"@ != "gamepad/rightstickx"@) by {
                assert("gamepad/lefttrigger"@[8] == 'l');
                assert("gamepad/rightstickx"@[8] == 'r');
            }
            assert("gamepad/lefttrigger"@ != "gamepad/rightsticky"@) by {
                assert("gamepad/lefttrigger"@[8] == 'l');
                assert("gamepad/rightsticky"@[8] == 'r');
            }
            assert(parse_axis1d_spec("gamepad/lefttrigger"@) == Some(value));
        },
        Axis1d::Gamepad(GamepadAxis1d::RightTrigger) => {
            assert("gamepad/righttrigger"@ != "mouse/x"@);
            assert("gamepad/righttrigger"@ != "mouse/y"@);
            assert("gamepad/righttrigger"@ != "mouse/wheelx"@);
            assert("gamepad/righttrigger"@ != "mouse/wheely"@);
            assert("gamepad/righttrigger"@ != "gamepad/leftstickx"@);
            assert("gamepad/righttrigger"@ != "gamepad/leftsticky"@);
            assert("gamepad/righttrigger"@ != "gamepad/rightstickx"@);
            assert("gamepad/righttrigger"@ != "gamepad/rightsticky"@);
            assert("gamepad/righttrigger"@ != "gamepad/lefttrigger"@);
            assert(parse_axis1d_spec("gamepad/righttrigger"@) == Some(value));
        },
        Axis1d::Gamepad(GamepadAxis1d::DpadX) => {
            assert("gamepad/dpadx"@ != "mouse/x"@);
            assert("gamepad/dpadx"@ != "mouse/y"@);
            assert("gamepad/dpadx"@ != "mouse/wheelx"@);
            assert("gamepad/dpadx"@ != "mouse/wheely"@);
            assert("gamepad/dpadx"@ != "gamepad/leftstickx"@);
            assert("gamepad/dpadx"@ != "gamepad/leftsticky"@);
            assert("gamepad/dpadx"@ != "gamepad/rightstickx"@);
            assert("gamepad/dpadx"@ != "gamepad/rightsticky"@);
            assert("gamepad/dpadx"@ != "gamepad/lefttrigger"@);
            assert("gamepad/dpadx"@ != "gamepad/righttrigger"@);
            assert(parse_axis1d_spec("gamepad/dpadx"@) == Some(value));
        },
        Axis1d::Gamepad(GamepadAxis1d::DpadY) => {
            assert("gamepad/dpady"@ != "mouse/x"@);
            assert("gamepad/dpady"@ != "mouse/y"@);
            assert("gamepad/dpady"@ != "mouse/wheelx"@);
            assert("gamepad/dpady"@ != "mouse/wheely"@);
            assert("gamepad/dpady"@ != "gamepad/leftstickx"@);
            assert("gamepad/dpady"@ != "gamepad/leftsticky"@);
            assert("gamepad/dpady"@ != "gamepad/rightstickx"@);
            assert("gamepad/dpady"@ != "gamepad/rightsticky"@);
            assert("gamepad/dpady"@ != "gamepad/lefttrigger"@);
            assert("gamepad/dpady"@ != "gamepad/righttrigger"@);
            assert("gamepad/dpady"@ != "gamepad/dpadx"@) by {
                assert("gamepad/dpady"@[12] == 'y');
                assert("gamepad/dpadx"@[12] == 'x');
            }
            assert(parse_axis1d_spec("gamepad/dpady"@) == Some(value));
        },
    }
}

/// Decoding is a partial inverse of encoding: whatever a string decodes
/// to, that identifier encodes back to the same string. Together with the
/// axis round trips and the per-identifier tests, this pins the encoding
/// down as a bijection between the catalog and its stable names.
#[verifier::rlimit(40)]
pub proof fn lemma_parse_button_inverse(s: Seq<char>, value: Button)
    requires
        parse_button_spec(s) == Some(value),
    ensures
        button_name_spec(value) == s,
{
}

/// Decoding is a partial inverse of encoding for one dimensional axes.
pub proof fn lemma_parse_axis1d_inverse(s: Seq<char>, value: Axis1d)
    requires
        parse_axis1d_spec(s) == Some(value),
    ensures
        axis1d_name_spec(value) == s,
{
}

/// Decoding is a partial inverse of encoding for two dimensional axes.
pub proof fn lemma_parse_axis2d_inverse(s: Seq<char>, value: Axis2d)
    requires
        parse_axis2d_spec(s) == Some(value),
    ensures
        axis2d_name_spec(value) == s,
{
}

} // verus!
