//! The portable event model: device classes, normalized events, key and
//! button symbols, raw-event records as plain values, and the error taxonomy
//! of a capture run.

use vstd::prelude::*;

verus! {

/// The class a raw device is assigned at discovery; never reassigned.
#[derive(Clone, Copy, Debug, PartialEq, Eq, Structural)]
pub enum DeviceType {
    Keyboard,
    Mouse,
    Touchpad,
    LidSwitch,
}

/// Whether to continue grabbing events or to stop; returned by the caller's
/// filter for each delivered event. `Stop` is terminal for the run.
#[derive(Clone, Copy, Debug, PartialEq, Eq, Hash, Structural)]
pub enum GrabStatus {
    /// Keep grabbing.
    Continue,
    /// Ungrab the devices and end the run.
    Stop,
}

/// A keyboard symbol in the stable cross-device model.
#[derive(Clone, Copy, Debug, PartialEq, Eq, Structural)]
pub enum Key {
    Escape,
    Num1,
    Num2,
    Num3,
    Num4,
    Num5,
    Num6,
    Num7,
    Num8,
    Num9,
    Num0,
    Minus,
    Equal,
    Backspace,
    Tab,
    KeyQ,
    KeyW,
    KeyE,
    KeyR,
    KeyT,
    KeyY,
    KeyU,
    KeyI,
    KeyO,
    KeyP,
    LeftBracket,
    RightBracket,
    Return,
    ControlLeft,
    KeyA,
    KeyS,
    KeyD,
    KeyF,
    KeyG,
    KeyH,
    KeyJ,
    KeyK,
    KeyL,
    SemiColon,
    Quote,
    BackQuote,
    ShiftLeft,
    BackSlash,
    KeyZ,
    KeyX,
    KeyC,
    KeyV,
    KeyB,
    KeyN,
    KeyM,
    Comma,
    Dot,
    Slash,
    ShiftRight,
    KpMultiply,
    AltLeft,
    AltRight,
    Space,
    CapsLock,
    F1,
    F2,
    F3,
    F4,
    F5,
    F6,
    F7,
    F8,
    F9,
    F10,
    NumLock,
    ScrollLock,
    Kp7,
    Kp8,
    Kp9,
    KpMinus,
    Kp4,
    Kp5,
    Kp6,
    KpPlus,
    Kp1,
    Kp2,
    Kp3,
    Kp0,
    F11,
    F12,
    KpReturn,
    ControlRight,
    KpDivide,
    AltGr,
    Home,
    UpArrow,
    PageUp,
    LeftArrow,
    RightArrow,
    End,
    DownArrow,
    PageDown,
    Insert,
    Delete,
    Pause,
    MetaLeft,
    MetaRight,
    PrintScreen,
    KpDelete,
    IntlBackslash,
}

/// A mouse button in the stable cross-device model.
#[derive(Clone, Copy, Debug, PartialEq, Eq, Structural)]
pub enum Button {
    Left,
    Right,
    Middle,
}

/// A completed gesture handed back by the external gesture recognizer.
/// Opaque to this core: only the recognizer gives its code a meaning.
#[derive(Clone, Copy, Debug, PartialEq, Eq, Structural)]
pub struct Gesture {
    pub code: u32,
}

/// A capture timestamp as the kernel reports it: seconds and microseconds.
#[derive(Clone, Copy, Debug, PartialEq, Eq, Structural)]
pub struct Timestamp {
    pub sec: i64,
    pub usec: i64,
}

/// One raw vendor event as plain values: the event class (key, relative
/// axis, absolute axis, switch, ...), the code within that class, and the
/// signed value, with the capture timestamp.
#[derive(Clone, Copy, Debug, PartialEq, Eq, Structural)]
pub struct RawEvent {
    pub time: Timestamp,
    pub kind: u16,
    pub code: u16,
    pub value: i32,
}

/// A normalized event: the closed variant set of the portable model.
/// `MouseMove` carries the full absolute position even when only one axis
/// changed; `Wheel` and `WheelHires` set only the axis that fired.
#[derive(Clone, Copy, Debug, PartialEq, Eq, Structural)]
pub enum EventType {
    KeyPress(Key),
    KeyRelease(Key),
    ButtonPress(Button),
    ButtonRelease(Button),
    MouseMove { x: i32, y: i32 },
    Wheel { delta_x: i32, delta_y: i32 },
    WheelHires { delta_x: i32, delta_y: i32 },
    Touch(Gesture),
    LidSwitch(i32),
}

/// A normalized event as delivered to the caller's filter: the event itself,
/// the capture timestamp, and the character the keyboard-state collaborator
/// resolved for it, if any.
#[derive(Clone, Debug)]
pub struct Event {
    pub time: Timestamp,
    pub chr: Option<String>,
    pub event_type: EventType,
}

/// A fatal pre-loop failure: device discovery or multiplexer construction
/// could not complete.
#[derive(Clone, Copy, Debug, PartialEq, Eq, Structural)]
pub enum SetupError {
    /// Directory listing, device open, or synthetic-device creation failed.
    Io,
    /// The device count would collide with the reserved hot-plug sentinel.
    SentinelCollision,
}

/// What the public capture entry point reports to its caller.
#[derive(Clone, Copy, Debug, PartialEq, Eq, Structural)]
pub enum GrabError {
    /// The keyboard-state collaborator could not be initialized.
    KeyboardError,
    /// Display metrics or the cursor position could not be obtained.
    MissingDisplayError,
    /// A setup or in-loop I/O failure.
    IoError,
}

} // verus!
