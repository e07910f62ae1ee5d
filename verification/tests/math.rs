use keybee::FX_SCALE;
use keybee::Fixed;
use keybee::KeyboardKey;
use keybee::MouseButton;
use keybee::Vec2;

#[test]
fn fixed_scale_is_one_million() {
    assert_eq!(FX_SCALE, 1_000_000);
    assert_eq!(Fixed::one(), Fixed::from_raw(FX_SCALE));
    assert_eq!(Fixed::from_int(3).raw(), 3_000_000);
}

#[test]
fn fixed_multiplication_scales_back_down() {
    // 0.5 * 0.5 == 0.25
    let half = Fixed::from_raw(500_000);
    assert_eq!(half.mul(half), Fixed::from_raw(250_000));
    // 2 * -1.5 == -3, truncating toward zero where needed
    assert_eq!(
        Fixed::from_int(2).mul(Fixed::from_raw(-1_500_000)),
        Fixed::from_int(-3)
    );
    // Truncation is toward zero for negative products.
    assert_eq!(
        Fixed::from_raw(-1).mul(Fixed::from_raw(500_000)),
        Fixed::from_raw(0)
    );
}

#[test]
fn fixed_addition_saturates() {
    assert_eq!(
        Fixed::from_raw(i64::MAX).add(Fixed::from_raw(1)),
        Fixed::from_raw(i64::MAX)
    );
    assert_eq!(
        Fixed::from_raw(i64::MIN).add(Fixed::from_raw(-1)),
        Fixed::from_raw(i64::MIN)
    );
    assert_eq!(Fixed::from_int(1).add(Fixed::from_int(2)), Fixed::from_int(3));
    assert_eq!(Fixed::from_int(5).sub(Fixed::from_int(7)), Fixed::from_int(-2));
    assert_eq!(Fixed::from_int(4).neg(), Fixed::from_int(-4));
}

#[test]
fn vec2_componentwise_addition() {
    let a = Vec2::new(Fixed::from_int(1), Fixed::from_int(-2));
    let b = Vec2::new(Fixed::from_int(3), Fixed::from_int(5));
    assert_eq!(a.add(b), Vec2::new(Fixed::from_int(4), Fixed::from_int(3)));
}

#[test]
fn mouse_button_from_sdl3_codes() {
    assert_eq!(MouseButton::from_sdl3(1), Some(MouseButton::Button1));
    assert_eq!(MouseButton::from_sdl3(3), Some(MouseButton::Button2));
    assert_eq!(MouseButton::from_sdl3(2), Some(MouseButton::Button3));
    assert_eq!(MouseButton::from_sdl3(4), Some(MouseButton::Button4));
    assert_eq!(MouseButton::from_sdl3(5), Some(MouseButton::Button5));
    assert_eq!(MouseButton::from_sdl3(0), None);
    assert_eq!(MouseButton::from_sdl3(6), None);
}

#[test]
fn keyboard_key_from_sdl3_scancodes() {
    assert_eq!(KeyboardKey::from_sdl3(4), Some(KeyboardKey::A));
    assert_eq!(KeyboardKey::from_sdl3(29), Some(KeyboardKey::Z));
    assert_eq!(KeyboardKey::from_sdl3(30), Some(KeyboardKey::One));
    assert_eq!(KeyboardKey::from_sdl3(39), Some(KeyboardKey::Zero));
    assert_eq!(KeyboardKey::from_sdl3(44), Some(KeyboardKey::Space));
    assert_eq!(KeyboardKey::from_sdl3(58), Some(KeyboardKey::F1));
    assert_eq!(KeyboardKey::from_sdl3(115), Some(KeyboardKey::F24));
    assert_eq!(KeyboardKey::from_sdl3(82), Some(KeyboardKey::Up));
    assert_eq!(KeyboardKey::from_sdl3(224), Some(KeyboardKey::LControl));
    assert_eq!(KeyboardKey::from_sdl3(0), None);
    assert_eq!(KeyboardKey::from_sdl3(42), None);
}
