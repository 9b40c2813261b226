//! Passthrough write planning: what gets written to a device's synthetic
//! output for each per-event decision. A retained event is written exactly
//! once, followed by exactly one flush marker; a suppressed event writes
//! nothing.

use vstd::prelude::*;
use crate::events::{RawEvent, Timestamp};
use crate::keycodes::KIND_KEY;

verus! {

/// One write to a device's synthetic output.
#[derive(Clone, Copy, Debug, PartialEq, Eq, Structural)]
pub enum SinkWrite {
    /// The raw event itself.
    Event(RawEvent),
    /// The platform's flush/sync marker that closes the report.
    Flush,
}

/// The write plan a filter decision implies for the originating synthetic
/// output: suppression (no raw event returned) writes nothing; pass-through
/// writes exactly the originating raw event once, followed by exactly one
/// flush marker. The payload of the decision is not consulted: what is
/// re-injected is always the event that was captured.
pub fn passthrough_writes(raw: &RawEvent, decision: &Option<RawEvent>) -> (w: Vec<SinkWrite>)
    ensures
        decision is None ==> w@.len() == 0,
        decision is Some ==> w@ =~= seq![SinkWrite::Event(*raw), SinkWrite::Flush],
{
    match decision {
        None => Vec::new(),
        Some(_) => {
            let mut w: Vec<SinkWrite> = Vec::new();
            w.push(SinkWrite::Event(*raw));
            w.push(SinkWrite::Flush);
            w
        },
    }
}

/// The write plan for a raw event with no mapping: it is forwarded unchanged
/// with its flush marker, without consulting the filter — unknown input is
/// never silently discarded.
pub fn forward_writes(raw: &RawEvent) -> (w: Vec<SinkWrite>)
    ensures
        w@ =~= seq![SinkWrite::Event(*raw), SinkWrite::Flush],
{
    let mut w: Vec<SinkWrite> = Vec::new();
    w.push(SinkWrite::Event(*raw));
    w.push(SinkWrite::Flush);
    w
}

/// The modifier keys the stuck-key recovery helper releases, as raw key
/// codes: both metas, controls, alts and shifts.
pub open spec fn modifier_codes() -> Seq<u16> {
    seq![125u16, 126u16, 29u16, 97u16, 56u16, 100u16, 42u16, 54u16]
}

/// The release a stuck-key recovery writes for one modifier code: a key-up
/// at the zero timestamp.
pub open spec fn release_of(code: u16) -> RawEvent {
    RawEvent { time: Timestamp { sec: 0, usec: 0 }, kind: KIND_KEY, code, value: 0 }
}

/// The plan of the stuck-modifier recovery helper: for each modifier key in
/// order, one synthetic release event followed by one flush marker, written
/// into a device's synthetic output to recover from a modifier held across a
/// grab/ungrab boundary. The capture loop does not invoke it: it is a
/// documented open integration point, kept callable for embedders.
pub fn stuck_key_release_plan() -> (w: Vec<SinkWrite>)
    ensures
        w@.len() == 2 * modifier_codes().len(),
        forall|i: int| 0 <= i < modifier_codes().len()
            ==> w@[2 * i] == SinkWrite::Event(release_of(modifier_codes()[i]))
                && w@[2 * i + 1] == SinkWrite::Flush,
{
    let mut codes: Vec<u16> = Vec::new();
    codes.push(125);
    codes.push(126);
    codes.push(29);
    codes.push(97);
    codes.push(56);
    codes.push(100);
    codes.push(42);
    codes.push(54);
    proof {
        assert(codes@ =~= modifier_codes());
    }
    let mut w: Vec<SinkWrite> = Vec::new();
    let mut i: usize = 0;
    while i < codes.len()
        invariant
            codes@ == modifier_codes(),
            i <= codes@.len(),
            w@.len() == 2 * i,
            forall|k: int| 0 <= k < i
                ==> w@[2 * k] == SinkWrite::Event(release_of(modifier_codes()[k]))
                    && w@[2 * k + 1] == SinkWrite::Flush,
        decreases codes@.len() - i,
    {
        let ev = RawEvent { time: Timestamp { sec: 0, usec: 0 }, kind: KIND_KEY, code: codes[i], value: 0 };
        w.push(SinkWrite::Event(ev));
        w.push(SinkWrite::Flush);
        i += 1;
    }
    w
}

} // verus!
