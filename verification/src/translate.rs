//! Raw-to-normalized event translation. Pure aside from the pointer-state
//! mutation on relative-motion events: each delta moves one coordinate,
//! clamps it into the display bounds, and the emitted `MouseMove` carries the
//! full current absolute position even though only one axis changed.

use vstd::prelude::*;
use crate::events::{DeviceType, EventType, RawEvent};
use crate::keycodes::{
    button_of_code, button_from_code, key_of_code, key_from_code, KIND_KEY, KIND_REL,
    REL_HWHEEL, REL_HWHEEL_HI_RES, REL_WHEEL, REL_WHEEL_HI_RES, REL_X, REL_Y,
};

verus! {

/// Absolute pointer position bounded to `[0, width] x [0, height]`.
/// `width` and `height` are captured once at run start from display metrics;
/// the position is seeded from the cursor position at run start and mutated
/// only by translation of relative-motion events.
#[derive(Clone, Copy, Debug, PartialEq, Eq, Structural)]
pub struct PointerState {
    pub x: i32,
    pub y: i32,
    pub width: i32,
    pub height: i32,
}

impl PointerState {
    /// The pointer lies inside the display bounds.
    pub open spec fn wf(self) -> bool {
        0 <= self.x <= self.width && 0 <= self.y <= self.height
    }

    /// Seeds the pointer from the cursor position and display size read at
    /// run start.
    pub fn new(x: i32, y: i32, width: i32, height: i32) -> (r: PointerState)
        requires
            0 <= x <= width,
            0 <= y <= height,
        ensures
            r == (PointerState { x, y, width, height }),
            r.wf(),
    {
        PointerState { x, y, width, height }
    }
}

/// An unbounded coordinate clamped into `[0, hi]`.
pub open spec fn clamped(v: int, hi: int) -> int {
    if v < 0 {
        0
    } else if v > hi {
        hi
    } else {
        v
    }
}

/// The pointer state after translating one raw event: only a relative-motion
/// event on a mouse moves it, one axis at a time, clamped into the bounds.
pub open spec fn pointer_after(p: PointerState, device_type: DeviceType, ev: RawEvent) -> PointerState {
    if device_type is Mouse && ev.kind == KIND_REL && ev.code == REL_X {
        PointerState { x: clamped(p.x + ev.value, p.width as int) as i32, y: p.y, width: p.width, height: p.height }
    } else if device_type is Mouse && ev.kind == KIND_REL && ev.code == REL_Y {
        PointerState { x: p.x, y: clamped(p.y + ev.value, p.height as int) as i32, width: p.width, height: p.height }
    } else {
        p
    }
}

/// What one raw event translates to, given the device's class and the
/// pointer state before the event; `None` means no mapping, and the caller
/// must forward the untouched raw event rather than drop it.
pub open spec fn translation(p: PointerState, device_type: DeviceType, ev: RawEvent) -> Option<EventType> {
    match device_type {
        DeviceType::Keyboard => {
            if ev.kind == KIND_KEY {
                match key_of_code(ev.code) {
                    Some(key) => {
                        if ev.value == 0 {
                            Some(EventType::KeyRelease(key))
                        } else {
                            Some(EventType::KeyPress(key))
                        }
                    },
                    None => None,
                }
            } else {
                None
            }
        },
        DeviceType::Mouse => {
            if ev.kind == KIND_KEY {
                match button_of_code(ev.code) {
                    Some(button) => {
                        if ev.value == 0 {
                            Some(EventType::ButtonRelease(button))
                        } else {
                            Some(EventType::ButtonPress(button))
                        }
                    },
                    None => None,
                }
            } else if ev.kind == KIND_REL && (ev.code == REL_X || ev.code == REL_Y) {
                Some(EventType::MouseMove {
                    x: pointer_after(p, device_type, ev).x,
                    y: pointer_after(p, device_type, ev).y,
                })
            } else if ev.kind == KIND_REL && ev.code == REL_HWHEEL {
                Some(EventType::Wheel { delta_x: ev.value, delta_y: 0 })
            } else if ev.kind == KIND_REL && ev.code == REL_HWHEEL_HI_RES {
                Some(EventType::WheelHires { delta_x: ev.value, delta_y: 0 })
            } else if ev.kind == KIND_REL && ev.code == REL_WHEEL {
                Some(EventType::Wheel { delta_x: 0, delta_y: ev.value })
            } else if ev.kind == KIND_REL && ev.code == REL_WHEEL_HI_RES {
                Some(EventType::WheelHires { delta_x: 0, delta_y: ev.value })
            } else {
                None
            }
        },
        DeviceType::Touchpad => None,
        DeviceType::LidSwitch => Some(EventType::LidSwitch(ev.value)),
    }
}

/// Translates one raw event for a device of the given class, updating the
/// pointer on relative motion. Keyboard keys and mouse buttons follow their
/// fixed tables with value `0` as release and any other value as press;
/// wheel codes set only the axis that fired; touchpad events are never
/// translated here; a lid switch forwards any value verbatim.
pub fn translate(ev: &RawEvent, device_type: DeviceType, pointer: &mut PointerState) -> (r: Option<EventType>)
    requires
        old(pointer).wf(),
    ensures
        *final(pointer) == pointer_after(*old(pointer), device_type, *ev),
        final(pointer).wf(),
        r == translation(*old(pointer), device_type, *ev),
{
    match device_type {
        DeviceType::Keyboard => {
            if ev.kind == KIND_KEY {
                match key_from_code(ev.code) {
                    Some(key) => {
                        if ev.value == 0 {
                            Some(EventType::KeyRelease(key))
                        } else {
                            Some(EventType::KeyPress(key))
                        }
                    },
                    None => None,
                }
            } else {
                None
            }
        },
        DeviceType::Mouse => {
            if ev.kind == KIND_KEY {
                match button_from_code(ev.code) {
                    Some(button) => {
                        if ev.value == 0 {
                            Some(EventType::ButtonRelease(button))
                        } else {
                            Some(EventType::ButtonPress(button))
                        }
                    },
                    None => None,
                }
            } else if ev.kind == KIND_REL && ev.code == REL_X {
                let moved: i64 = pointer.x as i64 + ev.value as i64;
                let limit: i64 = pointer.width as i64;
                let landed: i64 = if moved < 0 {
                    0
                } else if moved > limit {
                    limit
                } else {
                    moved
                };
                pointer.x = landed as i32;
                Some(EventType::MouseMove { x: pointer.x, y: pointer.y })
            } else if ev.kind == KIND_REL && ev.code == REL_Y {
                let moved: i64 = pointer.y as i64 + ev.value as i64;
                let limit: i64 = pointer.height as i64;
                let landed: i64 = if moved < 0 {
                    0
                } else if moved > limit {
                    limit
                } else {
                    moved
                };
                pointer.y = landed as i32;
                Some(EventType::MouseMove { x: pointer.x, y: pointer.y })
            } else if ev.kind == KIND_REL && ev.code == REL_HWHEEL {
                Some(EventType::Wheel { delta_x: ev.value, delta_y: 0 })
            } else if ev.kind == KIND_REL && ev.code == REL_HWHEEL_HI_RES {
                Some(EventType::WheelHires { delta_x: ev.value, delta_y: 0 })
            } else if ev.kind == KIND_REL && ev.code == REL_WHEEL {
                Some(EventType::Wheel { delta_x: 0, delta_y: ev.value })
            } else if ev.kind == KIND_REL && ev.code == REL_WHEEL_HI_RES {
                Some(EventType::WheelHires { delta_x: 0, delta_y: ev.value })
            } else {
                None
            }
        },
        DeviceType::Touchpad => None,
        DeviceType::LidSwitch => Some(EventType::LidSwitch(ev.value)),
    }
}

/// The pointer state after a whole sequence of raw events, in order.
pub open spec fn pointer_after_seq(p: PointerState, device_type: DeviceType, evs: Seq<RawEvent>) -> PointerState
    decreases evs.len(),
{
    if evs.len() == 0 {
        p
    } else {
        pointer_after(pointer_after_seq(p, device_type, evs.drop_last()), device_type, evs.last())
    }
}

/// The running sum of deltas over a base coordinate, clamped into `[0, hi]`
/// after every step.
pub open spec fn clamped_sum(base: int, hi: int, deltas: Seq<int>) -> int
    decreases deltas.len(),
{
    if deltas.len() == 0 {
        base
    } else {
        clamped(clamped_sum(base, hi, deltas.drop_last()) + deltas.last(), hi)
    }
}

/// Law: over any sequence of horizontal relative-motion deltas, the pointer's
/// horizontal coordinate equals the running sum of the deltas clamped into
/// `[0, width]` at every step — not the unclamped sum — and the `MouseMove`
/// emitted for the last delta carries exactly that coordinate, with the
/// vertical coordinate untouched.
pub proof fn lemma_rel_x_clamped_running_sum(p: PointerState, evs: Seq<RawEvent>)
    requires
        p.wf(),
        forall|i: int| 0 <= i < evs.len() ==> (#[trigger] evs[i]).kind == KIND_REL && evs[i].code == REL_X,
    ensures
        pointer_after_seq(p, DeviceType::Mouse, evs).x
            == clamped_sum(p.x as int, p.width as int, evs.map_values(|e: RawEvent| e.value as int)),
        pointer_after_seq(p, DeviceType::Mouse, evs).y == p.y,
        pointer_after_seq(p, DeviceType::Mouse, evs).width == p.width,
        pointer_after_seq(p, DeviceType::Mouse, evs).height == p.height,
        pointer_after_seq(p, DeviceType::Mouse, evs).wf(),
        evs.len() > 0 ==> translation(
            pointer_after_seq(p, DeviceType::Mouse, evs.drop_last()),
            DeviceType::Mouse,
            evs.last(),
        ) == Some(EventType::MouseMove {
            x: pointer_after_seq(p, DeviceType::Mouse, evs).x,
            y: p.y,
        }),
    decreases evs.len(),
{
    let deltas = evs.map_values(|e: RawEvent| e.value as int);
    if evs.len() > 0 {
        lemma_rel_x_clamped_running_sum(p, evs.drop_last());
        assert(deltas.drop_last() =~= evs.drop_last().map_values(|e: RawEvent| e.value as int));
        let prev = pointer_after_seq(p, DeviceType::Mouse, evs.drop_last());
        assert(deltas.last() == evs.last().value as int);
        assert(0 <= clamped(prev.x + evs.last().value, p.width as int) <= p.width as int);
    }
}

/// Law: the vertical counterpart — over any sequence of vertical
/// relative-motion deltas, the pointer's vertical coordinate equals the
/// running sum clamped into `[0, height]` at every step, and the horizontal
/// coordinate is untouched.
pub proof fn lemma_rel_y_clamped_running_sum(p: PointerState, evs: Seq<RawEvent>)
    requires
        p.wf(),
        forall|i: int| 0 <= i < evs.len() ==> (#[trigger] evs[i]).kind == KIND_REL && evs[i].code == REL_Y,
    ensures
        pointer_after_seq(p, DeviceType::Mouse, evs).y
            == clamped_sum(p.y as int, p.height as int, evs.map_values(|e: RawEvent| e.value as int)),
        pointer_after_seq(p, DeviceType::Mouse, evs).x == p.x,
        pointer_after_seq(p, DeviceType::Mouse, evs).width == p.width,
        pointer_after_seq(p, DeviceType::Mouse, evs).height == p.height,
        pointer_after_seq(p, DeviceType::Mouse, evs).wf(),
        evs.len() > 0 ==> translation(
            pointer_after_seq(p, DeviceType::Mouse, evs.drop_last()),
            DeviceType::Mouse,
            evs.last(),
        ) == Some(EventType::MouseMove {
            x: p.x,
            y: pointer_after_seq(p, DeviceType::Mouse, evs).y,
        }),
    decreases evs.len(),
{
    let deltas = evs.map_values(|e: RawEvent| e.value as int);
    if evs.len() > 0 {
        lemma_rel_y_clamped_running_sum(p, evs.drop_last());
        assert(deltas.drop_last() =~= evs.drop_last().map_values(|e: RawEvent| e.value as int));
        let prev = pointer_after_seq(p, DeviceType::Mouse, evs.drop_last());
        assert(deltas.last() == evs.last().value as int);
        assert(0 <= clamped(prev.y + evs.last().value, p.height as int) <= p.height as int);
    }
}

/// Law: a raw key-down (`value == 1`) for a recognized code translates to
/// `KeyPress` of some symbol, and the matching key-up (`value == 0`) for the
/// same code translates to `KeyRelease` of the same symbol, whatever the
/// pointer state.
pub proof fn lemma_key_round_trip(p: PointerState, q: PointerState, down: RawEvent, up: RawEvent)
    requires
        down.kind == KIND_KEY,
        down.value == 1,
        up.kind == KIND_KEY,
        up.code == down.code,
        up.value == 0,
        key_of_code(down.code) is Some,
    ensures
        translation(p, DeviceType::Keyboard, down)
            == Some(EventType::KeyPress(key_of_code(down.code)->Some_0)),
        translation(q, DeviceType::Keyboard, up)
            == Some(EventType::KeyRelease(key_of_code(down.code)->Some_0)),
{
}

} // verus!
