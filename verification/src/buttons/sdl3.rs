//! Conversions from SDL3's raw input codes to the library's catalogs.
//!
//! SDL3 reports mouse buttons as small integers (`SDL_BUTTON_LEFT` is 1) and
//! keyboard keys as USB HID scancodes (`SDL_SCANCODE_A` is 4). These
//! functions take those raw codes so that no windowing dependency is needed
//! to resolve them.

use vstd::prelude::*;

use crate::buttons::KeyboardKey;
use crate::buttons::MouseButton;

verus! {

/// The mouse button, if any, that the SDL3 button code `sdl` denotes.
pub open spec fn mouse_button_from_sdl3_spec(sdl: u8) -> Option<MouseButton> {
    match sdl {
        1u8 => Some(MouseButton::Button1),
        3u8 => Some(MouseButton::Button2),
        2u8 => Some(MouseButton::Button3),
        4u8 => Some(MouseButton::Button4),
        5u8 => Some(MouseButton::Button5),
        _ => None,
    }
}

/// The keyboard key, if any, that the SDL3 scancode `sdl` denotes.
pub open spec fn keyboard_key_from_sdl3_spec(sdl: i32) -> Option<KeyboardKey> {
    match sdl {
        4i32 => Some(KeyboardKey::A),
        5i32 => Some(KeyboardKey::B),
        6i32 => Some(KeyboardKey::C),
        7i32 => Some(KeyboardKey::D),
        8i32 => Some(KeyboardKey::E),
        9i32 => Some(KeyboardKey::F),
        10i32 => Some(KeyboardKey::G),
        11i32 => Some(KeyboardKey::H),
        12i32 => Some(KeyboardKey::I),
        13i32 => Some(KeyboardKey::J),
        14i32 => Some(KeyboardKey::K),
        15i32 => Some(KeyboardKey::L),
        16i32 => Some(KeyboardKey::M),
        17i32 => Some(KeyboardKey::N),
        18i32 => Some(KeyboardKey::O),
        19i32 => Some(KeyboardKey::P),
        20i32 => Some(KeyboardKey::Q),
        21i32 => Some(KeyboardKey::R),
        22i32 => Some(KeyboardKey::S),
        23i32 => Some(KeyboardKey::T),
        24i32 => Some(KeyboardKey::U),
        25i32 => Some(KeyboardKey::V),
        26i32 => Some(KeyboardKey::W),
        27i32 => Some(KeyboardKey::X),
        28i32 => Some(KeyboardKey::Y),
        29i32 => Some(KeyboardKey::Z),
        30i32 => Some(KeyboardKey::One),
        31i32 => Some(KeyboardKey::Two),
        32i32 => Some(KeyboardKey::Three),
        33i32 => Some(KeyboardKey::Four),
        34i32 => Some(KeyboardKey::Five),
        35i32 => Some(KeyboardKey::Six),
        36i32 => Some(KeyboardKey::Seven),
        37i32 => Some(KeyboardKey::Eight),
        38i32 => Some(KeyboardKey::Nine),
        39i32 => Some(KeyboardKey::Zero),
        40i32 => Some(KeyboardKey::Return),
        41i32 => Some(KeyboardKey::Escape),
        43i32 => Some(KeyboardKey::Tab),
        44i32 => Some(KeyboardKey::Space),
        58i32 => Some(KeyboardKey::F1),
        59i32 => Some(KeyboardKey::F2),
        60i32 => Some(KeyboardKey::F3),
        61i32 => Some(KeyboardKey::F4),
        62i32 => Some(KeyboardKey::F5),
        63i32 => Some(KeyboardKey::F6),
        64i32 => Some(KeyboardKey::F7),
        65i32 => Some(KeyboardKey::F8),
        66i32 => Some(KeyboardKey::F9),
        67i32 => Some(KeyboardKey::F10),
        68i32 => Some(KeyboardKey::F11),
        69i32 => Some(KeyboardKey::F12),
        76i32 => Some(KeyboardKey::Delete),
        79i32 => Some(KeyboardKey::Right),
        80i32 => Some(KeyboardKey::Left),
        81i32 => Some(KeyboardKey::Down),
        82i32 => Some(KeyboardKey::Up),
        104i32 => Some(KeyboardKey::F13),
        105i32 => Some(KeyboardKey::F14),
        106i32 => Some(KeyboardKey::F15),
        107i32 => Some(KeyboardKey::F16),
        108i32 => Some(KeyboardKey::F17),
        109i32 => Some(KeyboardKey::F18),
        110i32 => Some(KeyboardKey::F19),
        111i32 => Some(KeyboardKey::F20),
        112i32 => Some(KeyboardKey::F21),
        113i32 => Some(KeyboardKey::F22),
        114i32 => Some(KeyboardKey::F23),
        115i32 => Some(KeyboardKey::F24),
        224i32 => Some(KeyboardKey::LControl),
        225i32 => Some(KeyboardKey::LShift),
        226i32 => Some(KeyboardKey::LAlt),
        228i32 => Some(KeyboardKey::RControl),
        229i32 => Some(KeyboardKey::RShift),
        230i32 => Some(KeyboardKey::RAlt),
        _ => None,
    }
}

impl MouseButton {
    /// Resolves an SDL3 mouse button code (`SDL_BUTTON_LEFT` is 1,
    /// `SDL_BUTTON_MIDDLE` 2, `SDL_BUTTON_RIGHT` 3, `SDL_BUTTON_X1` 4,
    /// `SDL_BUTTON_X2` 5) to a [`MouseButton`].
    pub fn from_sdl3(sdl: u8) -> (r: Option<Self>)
        ensures
            r == mouse_button_from_sdl3_spec(sdl),
    {
        match sdl {
            1u8 => Some(MouseButton::Button1),
            3u8 => Some(MouseButton::Button2),
            2u8 => Some(MouseButton::Button3),
            4u8 => Some(MouseButton::Button4),
            5u8 => Some(MouseButton::Button5),
            _ => None,
        }
    }
}

impl KeyboardKey {
    /// Resolves an SDL3 scancode (a USB HID usage id, `SDL_SCANCODE_A` is 4)
    /// to a [`KeyboardKey`].
    pub fn from_sdl3(sdl: i32) -> (r: Option<Self>)
        ensures
            r == keyboard_key_from_sdl3_spec(sdl),
    {
        match sdl {
            4i32 => Some(KeyboardKey::A),
            5i32 => Some(KeyboardKey::B),
            6i32 => Some(KeyboardKey::C),
            7i32 => Some(KeyboardKey::D),
            8i32 => Some(KeyboardKey::E),
            9i32 => Some(KeyboardKey::F),
            10i32 => Some(KeyboardKey::G),
            11i32 => Some(KeyboardKey::H),
            12i32 => Some(KeyboardKey::I),
            13i32 => Some(KeyboardKey::J),
            14i32 => Some(KeyboardKey::K),
            15i32 => Some(KeyboardKey::L),
            16i32 => Some(KeyboardKey::M),
            17i32 => Some(KeyboardKey::N),
            18i32 => Some(KeyboardKey::O),
            19i32 => Some(KeyboardKey::P),
            20i32 => Some(KeyboardKey::Q),
            21i32 => Some(KeyboardKey::R),
            22i32 => Some(KeyboardKey::S),
            23i32 => Some(KeyboardKey::T),
            24i32 => Some(KeyboardKey::U),
            25i32 => Some(KeyboardKey::V),
            26i32 => Some(KeyboardKey::W),
            27i32 => Some(KeyboardKey::X),
            28i32 => Some(KeyboardKey::Y),
            29i32 => Some(KeyboardKey::Z),
            30i32 => Some(KeyboardKey::One),
            31i32 => Some(KeyboardKey::Two),
            32i32 => Some(KeyboardKey::Three),
            33i32 => Some(KeyboardKey::Four),
            34i32 => Some(KeyboardKey::Five),
            35i32 => Some(KeyboardKey::Six),
            36i32 => Some(KeyboardKey::Seven),
            37i32 => Some(KeyboardKey::Eight),
            38i32 => Some(KeyboardKey::Nine),
            39i32 => Some(KeyboardKey::Zero),
            40i32 => Some(KeyboardKey::Return),
            41i32 => Some(KeyboardKey::Escape),
            43i32 => Some(KeyboardKey::Tab),
            44i32 => Some(KeyboardKey::Space),
            58i32 => Some(KeyboardKey::F1),
            59i32 => Some(KeyboardKey::F2),
            60i32 => Some(KeyboardKey::F3),
            61i32 => Some(KeyboardKey::F4),
            62i32 => Some(KeyboardKey::F5),
            63i32 => Some(KeyboardKey::F6),
            64i32 => Some(KeyboardKey::F7),
            65i32 => Some(KeyboardKey::F8),
            66i32 => Some(KeyboardKey::F9),
            67i32 => Some(KeyboardKey::F10),
            68i32 => Some(KeyboardKey::F11),
            69i32 => Some(KeyboardKey::F12),
            76i32 => Some(KeyboardKey::Delete),
            79i32 => Some(KeyboardKey::Right),
            80i32 => Some(KeyboardKey::Left),
            81i32 => Some(KeyboardKey::Down),
            82i32 => Some(KeyboardKey::Up),
            104i32 => Some(KeyboardKey::F13),
            105i32 => Some(KeyboardKey::F14),
            106i32 => Some(KeyboardKey::F15),
            107i32 => Some(KeyboardKey::F16),
            108i32 => Some(KeyboardKey::F17),
            109i32 => Some(KeyboardKey::F18),
            110i32 => Some(KeyboardKey::F19),
            111i32 => Some(KeyboardKey::F20),
            112i32 => Some(KeyboardKey::F21),
            113i32 => Some(KeyboardKey::F22),
            114i32 => Some(KeyboardKey::F23),
            115i32 => Some(KeyboardKey::F24),
            224i32 => Some(KeyboardKey::LControl),
            225i32 => Some(KeyboardKey::LShift),
            226i32 => Some(KeyboardKey::LAlt),
            228i32 => Some(KeyboardKey::RControl),
            229i32 => Some(KeyboardKey::RShift),
            230i32 => Some(KeyboardKey::RAlt),
            _ => None,
        }
    }
}

} // verus!
