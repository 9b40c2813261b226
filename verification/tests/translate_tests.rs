use grabcore::events::{Button, DeviceType, EventType, Key, RawEvent, Timestamp};
use grabcore::keycodes::{key_from_code, button_from_code, KIND_ABS, KIND_KEY, KIND_REL, KIND_SW};
use grabcore::translate::{translate, PointerState};

fn at(sec: i64) -> Timestamp {
    Timestamp { sec, usec: 0 }
}

fn raw(kind: u16, code: u16, value: i32) -> RawEvent {
    RawEvent { time: at(0), kind, code, value }
}

#[test]
fn key_table_maps_known_codes() {
    assert_eq!(key_from_code(1), Some(Key::Escape));
    assert_eq!(key_from_code(30), Some(Key::KeyA));
    assert_eq!(key_from_code(57), Some(Key::Space));
    assert_eq!(key_from_code(125), Some(Key::MetaLeft));
    assert_eq!(key_from_code(210), Some(Key::PrintScreen));
    assert_eq!(key_from_code(240), None);
    assert_eq!(key_from_code(0), None);
    // codes whose alternate readings exist in the key model resolve to the
    // table's first entry
    assert_eq!(key_from_code(100), Some(Key::AltRight));
    assert_eq!(key_from_code(43), Some(Key::BackSlash));
    assert_eq!(key_from_code(111), Some(Key::Delete));
}

#[test]
fn button_table_maps_only_three_buttons() {
    assert_eq!(button_from_code(272), Some(Button::Left));
    assert_eq!(button_from_code(273), Some(Button::Right));
    assert_eq!(button_from_code(274), Some(Button::Middle));
    assert_eq!(button_from_code(275), None);
}

#[test]
fn key_down_and_up_translate_to_matching_press_and_release() {
    let mut p = PointerState::new(0, 0, 100, 100);
    let down = translate(&raw(KIND_KEY, 30, 1), DeviceType::Keyboard, &mut p);
    let up = translate(&raw(KIND_KEY, 30, 0), DeviceType::Keyboard, &mut p);
    assert_eq!(down, Some(EventType::KeyPress(Key::KeyA)));
    assert_eq!(up, Some(EventType::KeyRelease(Key::KeyA)));
    // any nonzero value is a press (key repeat reports value 2)
    let repeat = translate(&raw(KIND_KEY, 30, 2), DeviceType::Keyboard, &mut p);
    assert_eq!(repeat, Some(EventType::KeyPress(Key::KeyA)));
}

#[test]
fn unknown_key_code_has_no_mapping() {
    let mut p = PointerState::new(0, 0, 100, 100);
    assert_eq!(translate(&raw(KIND_KEY, 240, 1), DeviceType::Keyboard, &mut p), None);
    // and a relative event on a keyboard has none either
    assert_eq!(translate(&raw(KIND_REL, 0, 3), DeviceType::Keyboard, &mut p), None);
}

#[test]
fn mouse_buttons_translate_press_and_release() {
    let mut p = PointerState::new(0, 0, 100, 100);
    let down = translate(&raw(KIND_KEY, 272, 1), DeviceType::Mouse, &mut p);
    let up = translate(&raw(KIND_KEY, 272, 0), DeviceType::Mouse, &mut p);
    assert_eq!(down, Some(EventType::ButtonPress(Button::Left)));
    assert_eq!(up, Some(EventType::ButtonRelease(Button::Left)));
}

#[test]
fn example_mouse_clamps_at_right_then_top_edge() {
    // A device named "Example Mouse" with wheel capability plus relative
    // axes, on a 1920x1080 display, starting at (500, 500): a horizontal
    // delta of +5000 pins the pointer to the right edge, and a following
    // vertical delta of -700 pins it to the top edge.
    let mut p = PointerState::new(500, 500, 1920, 1080);
    let first = translate(&raw(KIND_REL, 0, 5000), DeviceType::Mouse, &mut p);
    assert_eq!(first, Some(EventType::MouseMove { x: 1920, y: 500 }));
    let second = translate(&raw(KIND_REL, 1, -700), DeviceType::Mouse, &mut p);
    assert_eq!(second, Some(EventType::MouseMove { x: 1920, y: 0 }));
}

#[test]
fn motion_coordinate_is_clamped_running_sum_not_unclamped_sum() {
    // Deltas +80, -200, +50 from x=100 in [0,120]: clamped at every step the
    // pointer lands at 50; the unclamped sum would land at 30.
    let mut p = PointerState::new(100, 0, 120, 50);
    translate(&raw(KIND_REL, 0, 80), DeviceType::Mouse, &mut p);
    translate(&raw(KIND_REL, 0, -200), DeviceType::Mouse, &mut p);
    let last = translate(&raw(KIND_REL, 0, 50), DeviceType::Mouse, &mut p);
    assert_eq!(last, Some(EventType::MouseMove { x: 50, y: 0 }));
}

#[test]
fn single_axis_motion_reports_full_position() {
    let mut p = PointerState::new(10, 20, 100, 100);
    let moved = translate(&raw(KIND_REL, 1, 5), DeviceType::Mouse, &mut p);
    // only y changed, but the event carries the full absolute position
    assert_eq!(moved, Some(EventType::MouseMove { x: 10, y: 25 }));
}

#[test]
fn wheel_codes_map_to_their_axis_and_resolution() {
    let mut p = PointerState::new(0, 0, 100, 100);
    assert_eq!(
        translate(&raw(KIND_REL, 6, 3), DeviceType::Mouse, &mut p),
        Some(EventType::Wheel { delta_x: 3, delta_y: 0 })
    );
    assert_eq!(
        translate(&raw(KIND_REL, 8, -1), DeviceType::Mouse, &mut p),
        Some(EventType::Wheel { delta_x: 0, delta_y: -1 })
    );
    assert_eq!(
        translate(&raw(KIND_REL, 12, 7), DeviceType::Mouse, &mut p),
        Some(EventType::WheelHires { delta_x: 7, delta_y: 0 })
    );
    assert_eq!(
        translate(&raw(KIND_REL, 11, -120), DeviceType::Mouse, &mut p),
        Some(EventType::WheelHires { delta_x: 0, delta_y: -120 })
    );
    // an unknown relative axis has no mapping
    assert_eq!(translate(&raw(KIND_REL, 9, 1), DeviceType::Mouse, &mut p), None);
}

#[test]
fn touchpad_events_are_never_translated_here() {
    let mut p = PointerState::new(0, 0, 100, 100);
    assert_eq!(translate(&raw(KIND_ABS, 53, 500), DeviceType::Touchpad, &mut p), None);
    assert_eq!(translate(&raw(KIND_KEY, 272, 1), DeviceType::Touchpad, &mut p), None);
    assert_eq!(translate(&raw(KIND_REL, 0, 10), DeviceType::Touchpad, &mut p), None);
}

#[test]
fn lid_switch_forwards_any_value_verbatim() {
    let mut p = PointerState::new(0, 0, 100, 100);
    assert_eq!(
        translate(&raw(KIND_SW, 0, 1), DeviceType::LidSwitch, &mut p),
        Some(EventType::LidSwitch(1))
    );
    assert_eq!(
        translate(&raw(KIND_SW, 0, 0), DeviceType::LidSwitch, &mut p),
        Some(EventType::LidSwitch(0))
    );
    assert_eq!(
        translate(&raw(KIND_KEY, 99, 17), DeviceType::LidSwitch, &mut p),
        Some(EventType::LidSwitch(17))
    );
}
