//! Fixed tables from raw vendor numbers to the portable model: the event
//! classes a raw event can belong to, the key lookup, and the mouse-button
//! lookup. Codes follow the kernel input event numbering.

use vstd::prelude::*;
use crate::events::{Button, Key};

verus! {

/// Raw event class: synchronization / flush markers.
pub const KIND_SYN: u16 = 0;
/// Raw event class: keys and buttons.
pub const KIND_KEY: u16 = 1;
/// Raw event class: relative axes.
pub const KIND_REL: u16 = 2;
/// Raw event class: absolute axes.
pub const KIND_ABS: u16 = 3;
/// Raw event class: switches (lid, tablet mode, ...).
pub const KIND_SW: u16 = 5;

/// Relative-axis code: horizontal pointer motion.
pub const REL_X: u16 = 0;
/// Relative-axis code: vertical pointer motion.
pub const REL_Y: u16 = 1;
/// Relative-axis code: low-resolution horizontal wheel.
pub const REL_HWHEEL: u16 = 6;
/// Relative-axis code: low-resolution vertical wheel.
pub const REL_WHEEL: u16 = 8;
/// Relative-axis code: high-resolution vertical wheel.
pub const REL_WHEEL_HI_RES: u16 = 11;
/// Relative-axis code: high-resolution horizontal wheel.
pub const REL_HWHEEL_HI_RES: u16 = 12;

/// Key code of the left meta key, the keyboard signature capability.
pub const CODE_LEFTMETA: u16 = 125;
/// Absolute-axis code of the multi-touch vertical position, the touchpad
/// signature capability.
pub const ABS_MT_POSITION_Y: u16 = 54;
/// Switch code of the lid switch, the lid-switch signature capability.
pub const SW_LID: u16 = 0;
/// Flush marker code: a synchronization report.
pub const SYN_REPORT: u16 = 0;

/// The fixed key table: which portable key symbol a raw key code denotes,
/// or none for an unrecognized code.
pub open spec fn key_of_code(code: u16) -> Option<Key> {
    match code {
        1u16 => Some(Key::Escape),
        2u16 => Some(Key::Num1),
        3u16 => Some(Key::Num2),
        4u16 => Some(Key::Num3),
        5u16 => Some(Key::Num4),
        6u16 => Some(Key::Num5),
        7u16 => Some(Key::Num6),
        8u16 => Some(Key::Num7),
        9u16 => Some(Key::Num8),
        10u16 => Some(Key::Num9),
        11u16 => Some(Key::Num0),
        12u16 => Some(Key::Minus),
        13u16 => Some(Key::Equal),
        14u16 => Some(Key::Backspace),
        15u16 => Some(Key::Tab),
        16u16 => Some(Key::KeyQ),
        17u16 => Some(Key::KeyW),
        18u16 => Some(Key::KeyE),
        19u16 => Some(Key::KeyR),
        20u16 => Some(Key::KeyT),
        21u16 => Some(Key::KeyY),
        22u16 => Some(Key::KeyU),
        23u16 => Some(Key::KeyI),
        24u16 => Some(Key::KeyO),
        25u16 => Some(Key::KeyP),
        26u16 => Some(Key::LeftBracket),
        27u16 => Some(Key::RightBracket),
        28u16 => Some(Key::Return),
        29u16 => Some(Key::ControlLeft),
        30u16 => Some(Key::KeyA),
        31u16 => Some(Key::KeyS),
        32u16 => Some(Key::KeyD),
        33u16 => Some(Key::KeyF),
        34u16 => Some(Key::KeyG),
        35u16 => Some(Key::KeyH),
        36u16 => Some(Key::KeyJ),
        37u16 => Some(Key::KeyK),
        38u16 => Some(Key::KeyL),
        39u16 => Some(Key::SemiColon),
        40u16 => Some(Key::Quote),
        41u16 => Some(Key::BackQuote),
        42u16 => Some(Key::ShiftLeft),
        43u16 => Some(Key::BackSlash),
        44u16 => Some(Key::KeyZ),
        45u16 => Some(Key::KeyX),
        46u16 => Some(Key::KeyC),
        47u16 => Some(Key::KeyV),
        48u16 => Some(Key::KeyB),
        49u16 => Some(Key::KeyN),
        50u16 => Some(Key::KeyM),
        51u16 => Some(Key::Comma),
        52u16 => Some(Key::Dot),
        53u16 => Some(Key::Slash),
        54u16 => Some(Key::ShiftRight),
        55u16 => Some(Key::KpMultiply),
        56u16 => Some(Key::AltLeft),
        57u16 => Some(Key::Space),
        58u16 => Some(Key::CapsLock),
        59u16 => Some(Key::F1),
        60u16 => Some(Key::F2),
        61u16 => Some(Key::F3),
        62u16 => Some(Key::F4),
        63u16 => Some(Key::F5),
        64u16 => Some(Key::F6),
        65u16 => Some(Key::F7),
        66u16 => Some(Key::F8),
        67u16 => Some(Key::F9),
        68u16 => Some(Key::F10),
        69u16 => Some(Key::NumLock),
        70u16 => Some(Key::ScrollLock),
        71u16 => Some(Key::Kp7),
        72u16 => Some(Key::Kp8),
        73u16 => Some(Key::Kp9),
        74u16 => Some(Key::KpMinus),
        75u16 => Some(Key::Kp4),
        76u16 => Some(Key::Kp5),
        77u16 => Some(Key::Kp6),
        78u16 => Some(Key::KpPlus),
        79u16 => Some(Key::Kp1),
        80u16 => Some(Key::Kp2),
        81u16 => Some(Key::Kp3),
        82u16 => Some(Key::Kp0),
        87u16 => Some(Key::F11),
        88u16 => Some(Key::F12),
        96u16 => Some(Key::KpReturn),
        97u16 => Some(Key::ControlRight),
        98u16 => Some(Key::KpDivide),
        100u16 => Some(Key::AltRight),
        102u16 => Some(Key::Home),
        103u16 => Some(Key::UpArrow),
        104u16 => Some(Key::PageUp),
        105u16 => Some(Key::LeftArrow),
        106u16 => Some(Key::RightArrow),
        107u16 => Some(Key::End),
        108u16 => Some(Key::DownArrow),
        109u16 => Some(Key::PageDown),
        110u16 => Some(Key::Insert),
        111u16 => Some(Key::Delete),
        119u16 => Some(Key::Pause),
        125u16 => Some(Key::MetaLeft),
        126u16 => Some(Key::MetaRight),
        210u16 => Some(Key::PrintScreen),
        _ => None,
    }
}

/// Looks a raw key code up in the fixed key table.
pub fn key_from_code(code: u16) -> (r: Option<Key>)
    ensures
        r == key_of_code(code),
{
    match code {
        1u16 => Some(Key::Escape),
        2u16 => Some(Key::Num1),
        3u16 => Some(Key::Num2),
        4u16 => Some(Key::Num3),
        5u16 => Some(Key::Num4),
        6u16 => Some(Key::Num5),
        7u16 => Some(Key::Num6),
        8u16 => Some(Key::Num7),
        9u16 => Some(Key::Num8),
        10u16 => Some(Key::Num9),
        11u16 => Some(Key::Num0),
        12u16 => Some(Key::Minus),
        13u16 => Some(Key::Equal),
        14u16 => Some(Key::Backspace),
        15u16 => Some(Key::Tab),
        16u16 => Some(Key::KeyQ),
        17u16 => Some(Key::KeyW),
        18u16 => Some(Key::KeyE),
        19u16 => Some(Key::KeyR),
        20u16 => Some(Key::KeyT),
        21u16 => Some(Key::KeyY),
        22u16 => Some(Key::KeyU),
        23u16 => Some(Key::KeyI),
        24u16 => Some(Key::KeyO),
        25u16 => Some(Key::KeyP),
        26u16 => Some(Key::LeftBracket),
        27u16 => Some(Key::RightBracket),
        28u16 => Some(Key::Return),
        29u16 => Some(Key::ControlLeft),
        30u16 => Some(Key::KeyA),
        31u16 => Some(Key::KeyS),
        32u16 => Some(Key::KeyD),
        33u16 => Some(Key::KeyF),
        34u16 => Some(Key::KeyG),
        35u16 => Some(Key::KeyH),
        36u16 => Some(Key::KeyJ),
        37u16 => Some(Key::KeyK),
        38u16 => Some(Key::KeyL),
        39u16 => Some(Key::SemiColon),
        40u16 => Some(Key::Quote),
        41u16 => Some(Key::BackQuote),
        42u16 => Some(Key::ShiftLeft),
        43u16 => Some(Key::BackSlash),
        44u16 => Some(Key::KeyZ),
        45u16 => Some(Key::KeyX),
        46u16 => Some(Key::KeyC),
        47u16 => Some(Key::KeyV),
        48u16 => Some(Key::KeyB),
        49u16 => Some(Key::KeyN),
        50u16 => Some(Key::KeyM),
        51u16 => Some(Key::Comma),
        52u16 => Some(Key::Dot),
        53u16 => Some(Key::Slash),
        54u16 => Some(Key::ShiftRight),
        55u16 => Some(Key::KpMultiply),
        56u16 => Some(Key::AltLeft),
        57u16 => Some(Key::Space),
        58u16 => Some(Key::CapsLock),
        59u16 => Some(Key::F1),
        60u16 => Some(Key::F2),
        61u16 => Some(Key::F3),
        62u16 => Some(Key::F4),
        63u16 => Some(Key::F5),
        64u16 => Some(Key::F6),
        65u16 => Some(Key::F7),
        66u16 => Some(Key::F8),
        67u16 => Some(Key::F9),
        68u16 => Some(Key::F10),
        69u16 => Some(Key::NumLock),
        70u16 => Some(Key::ScrollLock),
        71u16 => Some(Key::Kp7),
        72u16 => Some(Key::Kp8),
        73u16 => Some(Key::Kp9),
        74u16 => Some(Key::KpMinus),
        75u16 => Some(Key::Kp4),
        76u16 => Some(Key::Kp5),
        77u16 => Some(Key::Kp6),
        78u16 => Some(Key::KpPlus),
        79u16 => Some(Key::Kp1),
        80u16 => Some(Key::Kp2),
        81u16 => Some(Key::Kp3),
        82u16 => Some(Key::Kp0),
        87u16 => Some(Key::F11),
        88u16 => Some(Key::F12),
        96u16 => Some(Key::KpReturn),
        97u16 => Some(Key::ControlRight),
        98u16 => Some(Key::KpDivide),
        100u16 => Some(Key::AltRight),
        102u16 => Some(Key::Home),
        103u16 => Some(Key::UpArrow),
        104u16 => Some(Key::PageUp),
        105u16 => Some(Key::LeftArrow),
        106u16 => Some(Key::RightArrow),
        107u16 => Some(Key::End),
        108u16 => Some(Key::DownArrow),
        109u16 => Some(Key::PageDown),
        110u16 => Some(Key::Insert),
        111u16 => Some(Key::Delete),
        119u16 => Some(Key::Pause),
        125u16 => Some(Key::MetaLeft),
        126u16 => Some(Key::MetaRight),
        210u16 => Some(Key::PrintScreen),
        _ => None,
    }
}

/// The fixed mouse-button table: left, right and middle only.
pub open spec fn button_of_code(code: u16) -> Option<Button> {
    match code {
        272u16 => Some(Button::Left),
        273u16 => Some(Button::Right),
        274u16 => Some(Button::Middle),
        _ => None,
    }
}

/// Looks a raw key code up in the fixed mouse-button table.
pub fn button_from_code(code: u16) -> (r: Option<Button>)
    ensures
        r == button_of_code(code),
{
    match code {
        272u16 => Some(Button::Left),
        273u16 => Some(Button::Right),
        274u16 => Some(Button::Middle),
        _ => None,
    }
}

} // verus!
