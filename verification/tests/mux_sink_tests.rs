use grabcore::events::{RawEvent, Timestamp};
use grabcore::mux::{Multiplexer, Routed, HOTPLUG_SENTINEL};
use grabcore::sink::{forward_writes, passthrough_writes, stuck_key_release_plan, SinkWrite};

fn raw(kind: u16, code: u16, value: i32) -> RawEvent {
    RawEvent { time: Timestamp { sec: 0, usec: 0 }, kind, code, value }
}

#[test]
fn wait_set_routes_devices_sentinel_and_stale() {
    let mux = Multiplexer::build(3).unwrap();
    assert_eq!(mux.slot_count(), 3);
    assert_eq!(mux.route(0), Routed::Device(0));
    assert_eq!(mux.route(2), Routed::Device(2));
    assert_eq!(mux.route(3), Routed::Stale);
    assert_eq!(mux.route(HOTPLUG_SENTINEL), Routed::Hotplug);
}

#[test]
fn removal_clears_one_slot_and_keeps_the_others() {
    let mut mux = Multiplexer::build(2).unwrap();
    mux.remove(0);
    assert_eq!(mux.route(0), Routed::Stale);
    assert_eq!(mux.route(1), Routed::Device(1));
    assert!(!mux.is_live(0));
    assert!(mux.is_live(1));
}

#[test]
fn suppression_writes_nothing() {
    let captured = raw(1, 30, 1);
    let writes = passthrough_writes(&captured, &None);
    assert_eq!(writes.len(), 0);
}

#[test]
fn passthrough_writes_event_once_then_one_flush() {
    let captured = raw(1, 30, 1);
    let writes = passthrough_writes(&captured, &Some(captured));
    assert_eq!(writes, vec![SinkWrite::Event(captured), SinkWrite::Flush]);
}

#[test]
fn passthrough_reinjects_the_captured_event() {
    // the decision's payload is not consulted: what is written is the event
    // that was captured
    let captured = raw(1, 30, 1);
    let tampered = raw(1, 31, 1);
    let writes = passthrough_writes(&captured, &Some(tampered));
    assert_eq!(writes, vec![SinkWrite::Event(captured), SinkWrite::Flush]);
}

#[test]
fn forwarding_an_unmapped_event_writes_it_with_its_flush_marker() {
    let unmapped = raw(4, 4, 458756);
    let writes = forward_writes(&unmapped);
    assert_eq!(writes, vec![SinkWrite::Event(unmapped), SinkWrite::Flush]);
}

#[test]
fn stuck_key_recovery_releases_each_modifier_with_a_flush() {
    let plan = stuck_key_release_plan();
    let codes = [125u16, 126, 29, 97, 56, 100, 42, 54];
    assert_eq!(plan.len(), 16);
    for (i, &code) in codes.iter().enumerate() {
        assert_eq!(plan[2 * i], SinkWrite::Event(raw(1, code, 0)));
        assert_eq!(plan[2 * i + 1], SinkWrite::Flush);
    }
}
