use keybee::ActionKind;
use keybee::Axis1d;
use keybee::Axis1dAction;
use keybee::Axis1dBinding;
use keybee::Axis2d;
use keybee::Axis2dAction;
use keybee::Axis2dBinding;
use keybee::Axis3dAction;
use keybee::Axis3dBinding;
use keybee::Binding;
use keybee::BoolAction;
use keybee::Button;
use keybee::Clamped;
use keybee::Event;
use keybee::EventAction;
use keybee::Fixed;
use keybee::GamepadAxis1d;
use keybee::GamepadAxis2d;
use keybee::InputState;
use keybee::KeyboardKey;
use keybee::Vec2;
use keybee::Vec3;

#[test]
fn clamp_f32() {
    let mut state = InputState::new();
    let axis = Axis1d::Gamepad(GamepadAxis1d::LeftStickX);
    let binding = Binding::Axis1d(Axis1dBinding::Axis {
        axis,
        sensitivity: Fixed::one(),
    });
    let mut action = Clamped(Axis1dAction);

    assert_eq!(action.get(&state, &binding), Some(Fixed::from_int(0)));

    state.handle_event(Event::Axis1dChanged(axis, Fixed::from_int(1)));
    assert_eq!(action.get(&state, &binding), Some(Fixed::from_int(1)));

    state.handle_event(Event::Axis1dChanged(axis, Fixed::from_int(-1)));
    assert_eq!(action.get(&state, &binding), Some(Fixed::from_int(-1)));

    state.handle_event(Event::Axis1dChanged(axis, Fixed::from_raw(500_000)));
    assert_eq!(action.get(&state, &binding), Some(Fixed::from_raw(500_000)));

    state.handle_event(Event::Axis1dChanged(axis, Fixed::from_int(2)));
    assert_eq!(action.get(&state, &binding), Some(Fixed::from_int(1)));

    state.handle_event(Event::Axis1dChanged(axis, Fixed::from_raw(-3_500_000)));
    assert_eq!(action.get(&state, &binding), Some(Fixed::from_int(-1)));
}

#[test]
fn clamp_axis2d_rescales_long_vectors() {
    let mut state = InputState::new();
    let axis = Axis2d::Gamepad(GamepadAxis2d::LeftStick);
    let binding = Binding::Axis2d(Axis2dBinding::Axis {
        axis,
        sensitivity: Fixed::one(),
    });
    let mut action = Clamped(Axis2dAction);

    // Within the unit length: passes through unchanged.
    state.handle_event(Event::Axis2dChanged(
        axis,
        Vec2::new(Fixed::from_raw(600_000), Fixed::from_raw(800_000)),
    ));
    assert_eq!(
        action.get(&state, &binding),
        Some(Vec2::new(Fixed::from_raw(600_000), Fixed::from_raw(800_000)))
    );

    // A 3-4-5 triangle of length five: rescaled to exactly length one with
    // the component ratio preserved.
    state.handle_event(Event::Axis2dChanged(
        axis,
        Vec2::new(Fixed::from_int(3), Fixed::from_int(4)),
    ));
    assert_eq!(
        action.get(&state, &binding),
        Some(Vec2::new(Fixed::from_raw(600_000), Fixed::from_raw(800_000)))
    );

    // Same, pointing the other way.
    state.handle_event(Event::Axis2dChanged(
        axis,
        Vec2::new(Fixed::from_int(-3), Fixed::from_int(4)),
    ));
    assert_eq!(
        action.get(&state, &binding),
        Some(Vec2::new(Fixed::from_raw(-600_000), Fixed::from_raw(800_000)))
    );
}

#[test]
fn dual_button_axis() {
    let mut state = InputState::new();
    let neg: Button = KeyboardKey::A.into();
    let pos: Button = KeyboardKey::D.into();
    let sensitivity = Fixed::from_raw(2_500_000);
    let binding = Binding::Axis1d(Axis1dBinding::Buttons { neg, pos, sensitivity });
    let mut action = Axis1dAction;

    // Neither button: zero.
    assert_eq!(action.get(&state, &binding), Some(Fixed::from_int(0)));

    // Only the positive button: plus the sensitivity.
    state.handle_event(Event::ButtonPressed(pos));
    assert_eq!(action.get(&state, &binding), Some(Fixed::from_raw(2_500_000)));

    // Both buttons: zero again.
    state.handle_event(Event::ButtonPressed(neg));
    assert_eq!(action.get(&state, &binding), Some(Fixed::from_int(0)));

    // Only the negative button: minus the sensitivity.
    state.handle_event(Event::ButtonReleased(pos));
    state.end_update();
    assert_eq!(action.get(&state, &binding), Some(Fixed::from_raw(-2_500_000)));
}

#[test]
fn mismatched_bindings_are_skipped() {
    let state = InputState::new();
    let button_binding = Binding::Button(KeyboardKey::Space.into());
    let axis_binding = Binding::Axis1d(Axis1dBinding::Axis {
        axis: Axis1d::Gamepad(GamepadAxis1d::LeftStickX),
        sensitivity: Fixed::one(),
    });

    let mut axis_action = Axis1dAction;
    assert_eq!(axis_action.get(&state, &button_binding), None);

    let mut bool_action = BoolAction;
    assert_eq!(bool_action.get(&state, &axis_binding), None);

    let mut event_action = EventAction;
    assert_eq!(event_action.get(&state, &axis_binding), None);
}

#[test]
fn empty_reduce_identities() {
    let mut event_action = EventAction;
    assert_eq!(event_action.reduce(&[]), false);

    let mut bool_action = BoolAction;
    assert_eq!(bool_action.reduce(&[]), false);

    let mut axis1 = Axis1dAction;
    assert_eq!(axis1.reduce(&[]), Fixed::from_int(0));

    let mut axis2 = Axis2dAction;
    assert_eq!(axis2.reduce(&[]), Vec2::zero());

    let mut clamped = Clamped(Axis2dAction);
    assert_eq!(clamped.reduce(&[]), Vec2::zero());
}

#[test]
fn reduce_combines_readings() {
    let mut bool_action = BoolAction;
    assert_eq!(bool_action.reduce(&[false, true, false]), true);
    assert_eq!(bool_action.reduce(&[false, false]), false);

    let mut axis1 = Axis1dAction;
    assert_eq!(
        axis1.reduce(&[Fixed::from_int(2), Fixed::from_int(-1), Fixed::from_raw(250_000)]),
        Fixed::from_raw(1_250_000)
    );

    let mut axis2 = Axis2dAction;
    assert_eq!(
        axis2.reduce(&[
            Vec2::new(Fixed::from_int(1), Fixed::from_int(2)),
            Vec2::new(Fixed::from_int(3), Fixed::from_int(-5)),
        ]),
        Vec2::new(Fixed::from_int(4), Fixed::from_int(-3))
    );
}

#[test]
fn axis2d_individual_composes_two_axes() {
    let mut state = InputState::new();
    let horizontal = Axis1dBinding::Buttons {
        neg: KeyboardKey::A.into(),
        pos: KeyboardKey::D.into(),
        sensitivity: Fixed::one(),
    };
    let vertical = Axis1dBinding::Buttons {
        neg: KeyboardKey::S.into(),
        pos: KeyboardKey::W.into(),
        sensitivity: Fixed::one(),
    };
    let binding = Binding::Axis2d(Axis2dBinding::Individual { x: horizontal, y: vertical });
    let mut action = Axis2dAction;

    assert_eq!(action.get(&state, &binding), Some(Vec2::zero()));

    state.handle_event(Event::ButtonPressed(KeyboardKey::D.into()));
    state.handle_event(Event::ButtonPressed(KeyboardKey::S.into()));
    assert_eq!(
        action.get(&state, &binding),
        Some(Vec2::new(Fixed::from_int(1), Fixed::from_int(-1)))
    );
}

#[test]
fn axis3d_composes_three_axes() {
    let mut state = InputState::new();
    let x = Axis1dBinding::Buttons {
        neg: KeyboardKey::A.into(),
        pos: KeyboardKey::D.into(),
        sensitivity: Fixed::one(),
    };
    let y = Axis1dBinding::Buttons {
        neg: KeyboardKey::LControl.into(),
        pos: KeyboardKey::Space.into(),
        sensitivity: Fixed::one(),
    };
    let z = Axis1dBinding::Buttons {
        neg: KeyboardKey::S.into(),
        pos: KeyboardKey::W.into(),
        sensitivity: Fixed::one(),
    };
    let binding = Binding::Axis3d(Axis3dBinding::Individual { x, y, z });
    let mut action = Axis3dAction;

    assert_eq!(action.get(&state, &binding), Some(Vec3::zero()));

    state.handle_event(Event::ButtonPressed(KeyboardKey::D.into()));
    state.handle_event(Event::ButtonPressed(KeyboardKey::Space.into()));
    state.handle_event(Event::ButtonPressed(KeyboardKey::S.into()));
    assert_eq!(
        action.get(&state, &binding),
        Some(Vec3::new(Fixed::from_int(1), Fixed::from_int(1), Fixed::from_int(-1)))
    );
}

#[test]
fn axis1d_direct_axis_applies_sensitivity() {
    let mut state = InputState::new();
    let axis = Axis1d::Gamepad(GamepadAxis1d::RightTrigger);
    let binding = Binding::Axis1d(Axis1dBinding::Axis {
        axis,
        sensitivity: Fixed::from_raw(2_000_000),
    });
    let mut action = Axis1dAction;

    state.handle_event(Event::Axis1dChanged(axis, Fixed::from_raw(250_000)));
    assert_eq!(action.get(&state, &binding), Some(Fixed::from_raw(500_000)));
}
