use keybee::Axis1d;
use keybee::Axis2d;
use keybee::Button;
use keybee::GamepadAxis1d;
use keybee::GamepadAxis2d;
use keybee::GamepadButton;
use keybee::KeyboardKey;
use keybee::MouseAxis1d;
use keybee::MouseAxis2d;
use keybee::MouseButton;

#[test]
fn button_names_are_stable() {
    assert_eq!(Button::Keyboard(KeyboardKey::Space).name(), "keyboard/space");
    assert_eq!(Button::Keyboard(KeyboardKey::LShift).name(), "keyboard/leftshift");
    assert_eq!(Button::Keyboard(KeyboardKey::Zero).name(), "keyboard/zero");
    assert_eq!(Button::Mouse(MouseButton::Button1).name(), "mouse/button1");
    assert_eq!(Button::Gamepad(GamepadButton::DpadUp).name(), "gamepad/dpadup");
    assert_eq!(Axis1d::Gamepad(GamepadAxis1d::LeftStickX).name(), "gamepad/leftstickx");
    assert_eq!(Axis1d::Mouse(MouseAxis1d::WheelY).name(), "mouse/wheely");
    assert_eq!(Axis2d::Gamepad(GamepadAxis2d::RightStick).name(), "gamepad/rightstick");
    assert_eq!(Axis2d::Mouse(MouseAxis2d::XY).name(), "mouse/xy");
}

#[test]
fn parse_inverts_name() {
    let buttons = vec![
        Button::Keyboard(KeyboardKey::A),
        Button::Keyboard(KeyboardKey::F12),
        Button::Keyboard(KeyboardKey::F24),
        Button::Keyboard(KeyboardKey::Nine),
        Button::Keyboard(KeyboardKey::Return),
        Button::Keyboard(KeyboardKey::Escape),
        Button::Mouse(MouseButton::Button5),
        Button::Gamepad(GamepadButton::LeftTrigger),
        Button::Gamepad(GamepadButton::Start),
    ];
    for button in buttons {
        assert_eq!(Button::parse(button.name().as_str()), Some(button));
    }

    let axes = vec![
        Axis1d::Mouse(MouseAxis1d::X),
        Axis1d::Mouse(MouseAxis1d::WheelX),
        Axis1d::Gamepad(GamepadAxis1d::LeftTrigger),
        Axis1d::Gamepad(GamepadAxis1d::DpadY),
    ];
    for axis in axes {
        assert_eq!(Axis1d::parse(axis.name().as_str()), Some(axis));
    }

    assert_eq!(
        Axis2d::parse("gamepad/leftstick"),
        Some(Axis2d::Gamepad(GamepadAxis2d::LeftStick))
    );
}

#[test]
fn parse_rejects_unknown_names() {
    assert_eq!(Button::parse(""), None);
    assert_eq!(Button::parse("keyboard/"), None);
    assert_eq!(Button::parse("keyboard/unknown"), None);
    assert_eq!(Button::parse("mouse/space"), None);
    assert_eq!(Button::parse("gamepad/leftstickx"), None);
    assert_eq!(Axis1d::parse("keyboard/a"), None);
    assert_eq!(Axis2d::parse("mouse/x"), None);
}

#[test]
fn namespaces_are_per_kind() {
    // The same encoded text can denote a button on one catalog and an axis
    // on another; each kind decodes within its own namespace.
    assert_eq!(
        Button::parse("gamepad/lefttrigger"),
        Some(Button::Gamepad(GamepadButton::LeftTrigger))
    );
    assert_eq!(
        Axis1d::parse("gamepad/lefttrigger"),
        Some(Axis1d::Gamepad(GamepadAxis1d::LeftTrigger))
    );
}
