use keybee::Axis1d;
use keybee::ButtonState;
use keybee::Event;
use keybee::Fixed;
use keybee::InputState;
use keybee::KeyboardKey;
use keybee::MouseAxis1d;
use keybee::Vec2;

#[test]
fn button_state_transition() {
    let mut state = InputState::new();
    assert_eq!(state.button_state(KeyboardKey::W.into()), ButtonState::default());

    state.handle_event(Event::ButtonPressed(KeyboardKey::W.into()));
    assert_eq!(
        state.button_state(KeyboardKey::W.into()),
        ButtonState {
            pressed: true,
            just_pressed: true,
            just_released: false,
        }
    );
    assert!(state.is_button_down(KeyboardKey::W.into()));
    assert!(state.is_button_just_down(KeyboardKey::W.into()));
    assert!(!state.is_button_just_up(KeyboardKey::W.into()));
    assert!(!state.is_button_up(KeyboardKey::W.into()));

    state.end_update();
    assert_eq!(
        state.button_state(KeyboardKey::W.into()),
        ButtonState {
            pressed: true,
            just_pressed: false,
            just_released: false,
        }
    );
    assert!(state.is_button_down(KeyboardKey::W.into()));
    assert!(!state.is_button_just_down(KeyboardKey::W.into()));
    assert!(!state.is_button_just_up(KeyboardKey::W.into()));
    assert!(!state.is_button_up(KeyboardKey::W.into()));

    state.handle_event(Event::ButtonReleased(KeyboardKey::W.into()));
    assert_eq!(
        state.button_state(KeyboardKey::W.into()),
        ButtonState {
            pressed: false,
            just_pressed: false,
            just_released: true,
        }
    );
    assert!(!state.is_button_down(KeyboardKey::W.into()));
    assert!(!state.is_button_just_down(KeyboardKey::W.into()));
    assert!(state.is_button_just_up(KeyboardKey::W.into()));
    assert!(state.is_button_up(KeyboardKey::W.into()));

    state.end_update();
    assert_eq!(state.button_state(KeyboardKey::W.into()), ButtonState::default());
    assert!(!state.is_button_down(KeyboardKey::W.into()));
    assert!(!state.is_button_just_down(KeyboardKey::W.into()));
    assert!(!state.is_button_just_up(KeyboardKey::W.into()));
    assert!(state.is_button_up(KeyboardKey::W.into()));

    state.handle_event(Event::ButtonPressed(KeyboardKey::W.into()));
    state.handle_event(Event::ButtonReleased(KeyboardKey::W.into()));
    assert_eq!(
        state.button_state(KeyboardKey::W.into()),
        ButtonState {
            pressed: false,
            just_pressed: true,
            just_released: true,
        }
    );
    assert!(state.is_button_down(KeyboardKey::W.into()));
    assert!(state.is_button_just_down(KeyboardKey::W.into()));
    assert!(state.is_button_just_up(KeyboardKey::W.into()));
    assert!(state.is_button_up(KeyboardKey::W.into()));

    state.end_update();
    assert_eq!(state.button_state(KeyboardKey::W.into()), ButtonState::default());
}

#[test]
fn mouse_motion_accumulation() {
    let mut state = InputState::new();
    assert_eq!(state.mouse_motion(), Vec2::zero());

    state.handle_event(Event::MouseMotion(Fixed::from_int(5), Fixed::from_int(5)));
    state.handle_event(Event::MouseMotion(Fixed::from_int(3), Fixed::from_int(2)));
    assert_eq!(
        state.mouse_motion(),
        Vec2::new(Fixed::from_int(8), Fixed::from_int(7))
    );

    state.end_update();
    assert_eq!(state.mouse_motion(), Vec2::zero());
}

#[test]
fn end_update_twice_keeps_held_buttons() {
    let mut state = InputState::new();
    state.handle_event(Event::ButtonPressed(KeyboardKey::Space.into()));
    state.handle_event(Event::ButtonPressed(KeyboardKey::W.into()));
    state.handle_event(Event::ButtonReleased(KeyboardKey::W.into()));

    state.end_update();
    let held = state.button_state(KeyboardKey::Space.into());
    assert_eq!(
        held,
        ButtonState {
            pressed: true,
            just_pressed: false,
            just_released: false,
        }
    );
    assert_eq!(state.button_state(KeyboardKey::W.into()), ButtonState::default());

    state.end_update();
    assert_eq!(state.button_state(KeyboardKey::Space.into()), held);
    assert_eq!(state.button_state(KeyboardKey::W.into()), ButtonState::default());
}

#[test]
fn cursor_position_translates_by_viewport() {
    let mut state = InputState::new();
    state.handle_event(Event::CursorMoved(Fixed::from_int(100), Fixed::from_int(80)));
    assert_eq!(
        state.cursor_position(),
        Vec2::new(Fixed::from_int(100), Fixed::from_int(80))
    );

    state.set_viewport_position(Vec2::new(Fixed::from_int(10), Fixed::from_int(30)));
    assert_eq!(
        state.cursor_position(),
        Vec2::new(Fixed::from_int(90), Fixed::from_int(50))
    );
}

#[test]
fn wheel_accumulates_and_resets() {
    let mut state = InputState::new();
    state.handle_event(Event::MouseWheel(Fixed::from_int(1), Fixed::from_int(-2)));
    state.handle_event(Event::MouseWheel(Fixed::from_int(0), Fixed::from_int(-1)));
    assert_eq!(state.get_axis1d(Axis1d::Mouse(MouseAxis1d::WheelX)), Fixed::from_int(1));
    assert_eq!(state.get_axis1d(Axis1d::Mouse(MouseAxis1d::WheelY)), Fixed::from_int(-3));
    state.end_update();
    assert_eq!(state.get_axis1d(Axis1d::Mouse(MouseAxis1d::WheelY)), Fixed::from_int(0));
}
