use keybee::ActionSetBindings;
use keybee::Bindings;
use keybee::BoolAction;
use keybee::Button;
use keybee::Event;
use keybee::EventAction;
use keybee::KeyboardKey;
use keybee::MouseButton;
use keybee::Session;

#[test]
fn event_action() {
    let mut session = Session::new();
    let set = session.create_action_set("gameplay");
    let jump = set.create_action("jump", EventAction);

    let mut bindings = Bindings::new();
    let mut gameplay = ActionSetBindings::new();
    gameplay.insert("jump", vec![Button::Keyboard(KeyboardKey::Space).into()]);
    bindings.insert("gameplay", gameplay);

    session.use_bindings(bindings);

    assert!(!jump.get());

    session.handle_event(Event::ButtonPressed(KeyboardKey::Space.into()));
    assert!(jump.get());

    session.end_update();
    assert!(!jump.get());

    session.handle_event(Event::ButtonReleased(KeyboardKey::Space.into()));
    session.handle_event(Event::ButtonPressed(KeyboardKey::Space.into()));
    assert!(jump.get());
}

#[test]
fn action_names() {
    let session = Session::new();
    let set = session.create_action_set("gameplay");
    assert_eq!(set.name(), "gameplay");
    let jump = set.create_action("jump", EventAction);
    assert_eq!(jump.name(), "gameplay/jump");
}

#[test]
fn use_bindings_latest_wins() {
    let mut session = Session::new();
    let set = session.create_action_set("gameplay");
    let jump = set.create_action("jump", BoolAction);
    let fire = set.create_action("fire", BoolAction);

    let mut first = Bindings::new();
    let mut gameplay = ActionSetBindings::new();
    gameplay.insert("jump", vec![Button::Keyboard(KeyboardKey::Space).into()]);
    gameplay.insert("fire", vec![Button::Mouse(MouseButton::Button1).into()]);
    first.insert("gameplay", gameplay);
    session.use_bindings(first);

    let mut second = Bindings::new();
    let mut gameplay2 = ActionSetBindings::new();
    gameplay2.insert("jump", vec![Button::Keyboard(KeyboardKey::Return).into()]);
    second.insert("gameplay", gameplay2);
    session.use_bindings(second);

    // Only the latest list is effective for the rebound action.
    session.handle_event(Event::ButtonPressed(KeyboardKey::Space.into()));
    assert!(!jump.get());
    session.handle_event(Event::ButtonPressed(KeyboardKey::Return.into()));
    assert!(jump.get());

    // An action bound in the first call but absent from the second call's
    // action set retains its original list: merging never deletes.
    assert!(!fire.get());
    session.handle_event(Event::ButtonPressed(MouseButton::Button1.into()));
    assert!(fire.get());
}

#[test]
fn disabled_set_yields_identity() {
    let mut session = Session::new();
    let set = session.create_action_set("gameplay");
    let sprint = set.create_action("sprint", BoolAction);

    let mut bindings = Bindings::new();
    let mut gameplay = ActionSetBindings::new();
    gameplay.insert("sprint", vec![Button::Keyboard(KeyboardKey::LShift).into()]);
    bindings.insert("gameplay", gameplay);
    session.use_bindings(bindings);

    session.handle_event(Event::ButtonPressed(KeyboardKey::LShift.into()));
    assert!(sprint.get());
    assert!(set.enabled());

    set.set_enabled(false);
    assert!(!set.enabled());
    assert!(!sprint.get());

    // Re-enabling immediately restores the resolved value without any
    // re-registration of bindings.
    set.set_enabled(true);
    assert!(sprint.get());
}

#[test]
fn clear_bindings_empties_the_cache() {
    let mut session = Session::new();
    let set = session.create_action_set("gameplay");
    let jump = set.create_action("jump", BoolAction);

    let mut bindings = Bindings::new();
    let mut gameplay = ActionSetBindings::new();
    gameplay.insert("jump", vec![Button::Keyboard(KeyboardKey::Space).into()]);
    bindings.insert("gameplay", gameplay);
    session.use_bindings(bindings);

    session.handle_event(Event::ButtonPressed(KeyboardKey::Space.into()));
    assert!(jump.get());

    session.clear_bindings();
    assert!(!jump.get());
}

#[test]
fn state_snapshot_reflects_events() {
    let mut session = Session::new();
    session.handle_event(Event::ButtonPressed(KeyboardKey::W.into()));
    let snapshot = session.state();
    assert!(snapshot.is_button_down(KeyboardKey::W.into()));
    assert!(!snapshot.is_button_down(KeyboardKey::S.into()));
}
