//! The capture-loop decision machine. One run is a session: grab every
//! catalogued device, build the wait set, then cycle wait → dispatch →
//! translate → filter → passthrough until cancellation, a filter `Stop`, or
//! a fatal failure — and tear down on every exit path. The machine holds all
//! decisions; the caller owns the devices and performs each returned
//! directive (the one blocking point is the wait), then reports what
//! happened as the next signal. Everything the loop decides is decided here,
//! for every possible answer of the host.

use vstd::prelude::*;
use crate::events::{DeviceType, Event, EventType, Gesture, GrabError, GrabStatus, RawEvent, Timestamp};
use crate::mux::{Multiplexer, Routed, HOTPLUG_SENTINEL};
use crate::sink::{forward_writes, passthrough_writes, SinkWrite};
use crate::translate::{pointer_after, translate, translation, PointerState};

verus! {

/// Why the capture loop ended.
#[derive(Clone, Copy, Debug, PartialEq, Eq, Structural)]
pub enum LoopOutcome {
    /// Cancellation was observed at a poll.
    Cancelled,
    /// The caller's filter answered `Stop`.
    Stopped,
    /// Grabbing a device failed during setup.
    GrabFailed,
    /// The device count collided with the hot-plug sentinel.
    SentinelCollision,
    /// The blocking wait failed.
    WaitFailed,
    /// A write to a synthetic output failed.
    WriteFailed,
}

/// Where the machine stands and what it is waiting to hear.
#[derive(Debug)]
pub enum Phase {
    /// Grabbing device `next` exclusively.
    Grabbing { next: usize },
    /// About to poll cancellation before blocking.
    PollOuter,
    /// Blocked on the wait set.
    AwaitBatch,
    /// Ready identifiers not yet dispatched; polling cancellation before
    /// each one.
    PollSource { queue: Vec<u64> },
    /// Asking whether the device has a raw event pending.
    CheckPending { device: usize, queue: Vec<u64> },
    /// Reading the device's next raw event.
    AwaitRead { device: usize, queue: Vec<u64> },
    /// Offering the raw event to the gesture recognizer, which has priority
    /// over ordinary translation.
    AwaitGesture { device: usize, queue: Vec<u64>, raw: RawEvent },
    /// Asking the keyboard-state collaborator for a resolved character.
    AwaitResolve { device: usize, queue: Vec<u64>, raw: RawEvent, translated: EventType },
    /// Waiting for the filter's decision on a delivered event.
    AwaitFilter { device: usize, queue: Vec<u64>, raw: RawEvent },
    /// Waiting for the write plan to be carried out.
    AwaitWrites { device: usize, queue: Vec<u64>, stop: bool },
    /// The hot-plug watch fired; waiting for the caller to take note.
    HotplugGap { queue: Vec<u64> },
    /// Waiting for every device to be ungrabbed and the wait set released.
    Teardown { outcome: LoopOutcome },
    /// The run is over.
    Done { outcome: LoopOutcome },
}

/// What the host reports back after carrying out a directive.
#[derive(Debug)]
pub enum HostSignal {
    /// Whether cancellation was observed; a torn-off cancel channel counts
    /// as cancelled.
    Cancel(bool),
    /// The device was grabbed.
    Grabbed,
    /// The grab was denied.
    GrabDenied,
    /// The wait returned these ready identifiers.
    Batch(Vec<u64>),
    /// The wait failed.
    WaitError,
    /// Whether the device has a raw event pending.
    Pending(bool),
    /// The device's next raw event.
    Read(RawEvent),
    /// Reading from the device failed (it may have disappeared).
    ReadError,
    /// The gesture recognizer's answer, with the capture timestamp.
    GestureOutcome(Option<Gesture>, Timestamp),
    /// The keyboard collaborator's resolved character, with the capture
    /// timestamp.
    ResolveOutcome(Option<String>, Timestamp),
    /// The filter's passthrough decision and status.
    FilterOutcome(Option<RawEvent>, GrabStatus),
    /// The write plan was carried out.
    Written,
    /// A write failed.
    WriteError,
    /// A newly created device file was admitted under the catalog's exact
    /// classification logic, grabbed, and registered by the host under the
    /// next free index; more may follow.
    HotplugAdmitted(DeviceType),
    /// The hot-plug notification was taken note of and no further device
    /// file awaits admission.
    HotplugSeen,
    /// Every device was ungrabbed (best effort) and the wait set released.
    TornDown,
}

/// What the host must do next.
#[derive(Debug)]
pub enum Directive {
    /// Grab this device exclusively.
    Grab { device: usize },
    /// Poll the cancellation signal without blocking.
    PollCancel,
    /// Block on the wait set until at least one source is ready.
    Wait,
    /// Ask whether this device has a raw event pending.
    QueryPending { device: usize },
    /// Read this device's next raw event.
    Read { device: usize },
    /// Offer the raw event's timestamp, code and value to the gesture
    /// recognizer.
    OfferGesture { device: usize, raw: RawEvent },
    /// Hand the translated event to the keyboard-state collaborator.
    Resolve { device: usize, translated: EventType },
    /// Deliver this event to the caller's filter, with the device's raw
    /// handle.
    Deliver { device: usize, event: Event },
    /// Perform these writes on the device's synthetic output, in order.
    Emit { device: usize, writes: Vec<SinkWrite> },
    /// The hot-plug watch fired: the caller must not ignore it. For each
    /// newly created device file it admits — deciding with the same
    /// classification logic the catalog used — it answers once, and the
    /// machine registers the device live under the next index.
    NoteHotplug,
    /// Ungrab devices `0` up to (excluding) `devices`, ignoring errors, then
    /// release the wait set.
    UngrabAll { devices: usize },
    /// The run is over with this outcome.
    Finish { outcome: LoopOutcome },
}

/// One capture run: the catalogued device classes under their stable
/// indices, how many are currently grabbed, the wait-set model, the pointer
/// state, and the phase.
#[derive(Debug)]
pub struct Session {
    pub devices: Vec<DeviceType>,
    pub grabbed: usize,
    pub mux: Multiplexer,
    pub pointer: PointerState,
    pub phase: Phase,
}

impl Session {
    /// The wait set is built and every device is grabbed.
    pub open spec fn loop_ready(self) -> bool {
        &&& self.mux.live@.len() == self.devices@.len()
        &&& self.grabbed == self.devices@.len()
    }

    /// The session's internal invariant: the pointer is in bounds, the
    /// grabbed count never exceeds the device count, and each phase carries
    /// indices that point at catalogued devices.
    pub open spec fn wf(self) -> bool {
        &&& self.pointer.wf()
        &&& self.grabbed <= self.devices@.len()
        &&& match self.phase {
            Phase::Grabbing { next } => {
                next < self.devices@.len() && self.grabbed == next && self.mux.live@.len() == 0
            },
            Phase::PollOuter => self.loop_ready(),
            Phase::AwaitBatch => self.loop_ready(),
            Phase::PollSource { .. } => self.loop_ready(),
            Phase::CheckPending { device, .. } => self.loop_ready() && device < self.devices@.len(),
            Phase::AwaitRead { device, .. } => self.loop_ready() && device < self.devices@.len(),
            Phase::AwaitGesture { device, .. } => self.loop_ready() && device < self.devices@.len(),
            Phase::AwaitResolve { device, .. } => self.loop_ready() && device < self.devices@.len(),
            Phase::AwaitFilter { device, .. } => self.loop_ready() && device < self.devices@.len(),
            Phase::AwaitWrites { device, .. } => self.loop_ready() && device < self.devices@.len(),
            Phase::HotplugGap { .. } => self.loop_ready(),
            Phase::Teardown { .. } => true,
            Phase::Done { .. } => true,
        }
    }
}

/// Which signals answer which phase: the host reports exactly what the
/// phase's directive asked it to do.
pub open spec fn expects(phase: Phase, signal: HostSignal) -> bool {
    match phase {
        Phase::Grabbing { .. } => signal is Grabbed || signal is GrabDenied,
        Phase::PollOuter => signal is Cancel,
        Phase::AwaitBatch => signal is Batch || signal is WaitError,
        Phase::PollSource { .. } => signal is Cancel,
        Phase::CheckPending { .. } => signal is Pending,
        Phase::AwaitRead { .. } => signal is Read || signal is ReadError,
        Phase::AwaitGesture { .. } => signal is GestureOutcome,
        Phase::AwaitResolve { .. } => signal is ResolveOutcome,
        Phase::AwaitFilter { .. } => signal is FilterOutcome,
        Phase::AwaitWrites { .. } => signal is Written || signal is WriteError,
        Phase::HotplugGap { .. } => signal is HotplugSeen || signal is HotplugAdmitted,
        Phase::Teardown { .. } => signal is TornDown,
        Phase::Done { .. } => false,
    }
}

/// Everything but the phase is unchanged.
pub open spec fn same_but_phase(pre: Session, post: Session) -> bool {
    &&& post.devices == pre.devices
    &&& post.grabbed == pre.grabbed
    &&& post.mux == pre.mux
    &&& post.pointer == pre.pointer
}

/// The machine enters teardown with this outcome: nothing else changes, and
/// the host is directed to ungrab every currently grabbed device.
pub open spec fn tearing_down(pre: Session, post: Session, dir: Directive, outcome: LoopOutcome) -> bool {
    &&& same_but_phase(pre, post)
    &&& post.phase == (Phase::Teardown { outcome })
    &&& dir == (Directive::UngrabAll { devices: pre.grabbed })
}

/// The transition relation of the capture loop: for each phase and answer,
/// what the next state is and what the host must do next. This is the
/// contract of `Session::step`, one arm per transition.
pub open spec fn step_spec(pre: Session, signal: HostSignal, post: Session, dir: Directive) -> bool {
    match (pre.phase, signal) {
        (Phase::Grabbing { next }, HostSignal::Grabbed) => {
            if next + 1 < pre.devices@.len() {
                &&& post.devices == pre.devices
                &&& post.mux == pre.mux
                &&& post.pointer == pre.pointer
                &&& post.grabbed == next + 1
                &&& post.phase == (Phase::Grabbing { next: (next + 1) as usize })
                &&& dir == (Directive::Grab { device: (next + 1) as usize })
            } else if (pre.devices@.len() as u64) < HOTPLUG_SENTINEL {
                &&& post.devices == pre.devices
                &&& post.pointer == pre.pointer
                &&& post.grabbed == pre.devices@.len()
                &&& post.mux.live@ == Seq::new(pre.devices@.len(), |i: int| true)
                &&& post.phase == Phase::PollOuter
                &&& dir == Directive::PollCancel
            } else {
                &&& post.devices == pre.devices
                &&& post.pointer == pre.pointer
                &&& post.mux == pre.mux
                &&& post.grabbed == pre.devices@.len()
                &&& post.phase == (Phase::Teardown { outcome: LoopOutcome::SentinelCollision })
                &&& dir == (Directive::UngrabAll { devices: post.grabbed })
            }
        },
        (Phase::Grabbing { .. }, HostSignal::GrabDenied) => {
            tearing_down(pre, post, dir, LoopOutcome::GrabFailed)
        },
        (Phase::PollOuter, HostSignal::Cancel(cancelled)) => {
            if cancelled {
                tearing_down(pre, post, dir, LoopOutcome::Cancelled)
            } else {
                same_but_phase(pre, post) && post.phase == Phase::AwaitBatch && dir == Directive::Wait
            }
        },
        (Phase::AwaitBatch, HostSignal::Batch(batch)) => {
            &&& same_but_phase(pre, post)
            &&& post.phase matches Phase::PollSource { queue } && queue@ == batch@
            &&& dir == Directive::PollCancel
        },
        (Phase::AwaitBatch, HostSignal::WaitError) => {
            tearing_down(pre, post, dir, LoopOutcome::WaitFailed)
        },
        (Phase::PollSource { queue }, HostSignal::Cancel(cancelled)) => {
            if cancelled {
                tearing_down(pre, post, dir, LoopOutcome::Cancelled)
            } else if queue@.len() == 0 {
                same_but_phase(pre, post) && post.phase == Phase::AwaitBatch && dir == Directive::Wait
            } else {
                let data = queue@[0];
                let rest = queue@.skip(1);
                if data == HOTPLUG_SENTINEL {
                    &&& same_but_phase(pre, post)
                    &&& post.phase matches Phase::HotplugGap { queue: q } && q@ == rest
                    &&& dir == Directive::NoteHotplug
                } else if data < pre.mux.live@.len() && pre.mux.live@[data as int] {
                    &&& same_but_phase(pre, post)
                    &&& post.phase matches Phase::CheckPending { device, queue: q }
                        && device == data && q@ == rest
                    &&& dir == (Directive::QueryPending { device: data as usize })
                } else {
                    &&& same_but_phase(pre, post)
                    &&& post.phase matches Phase::PollSource { queue: q } && q@ == rest
                    &&& dir == Directive::PollCancel
                }
            }
        },
        (Phase::CheckPending { device, queue }, HostSignal::Pending(pending)) => {
            if pending {
                &&& same_but_phase(pre, post)
                &&& post.phase matches Phase::AwaitRead { device: d, queue: q }
                    && d == device && q@ == queue@
                &&& dir == (Directive::Read { device })
            } else {
                &&& same_but_phase(pre, post)
                &&& post.phase matches Phase::PollSource { queue: q } && q@ == queue@
                &&& dir == Directive::PollCancel
            }
        },
        (Phase::AwaitRead { device, queue }, HostSignal::Read(raw)) => {
            &&& same_but_phase(pre, post)
            &&& post.phase matches Phase::AwaitGesture { device: d, queue: q, raw: r }
                && d == device && q@ == queue@ && r == raw
            &&& dir matches Directive::OfferGesture { device: d, raw: r } && d == device && r == raw
        },
        (Phase::AwaitRead { device, queue }, HostSignal::ReadError) => {
            &&& post.devices == pre.devices
            &&& post.grabbed == pre.grabbed
            &&& post.pointer == pre.pointer
            &&& post.mux.live@ == pre.mux.live@.update(device as int, false)
            &&& post.phase matches Phase::PollSource { queue: q } && q@ == queue@
            &&& dir == Directive::PollCancel
        },
        (Phase::HotplugGap { queue }, HostSignal::HotplugSeen) => {
            &&& same_but_phase(pre, post)
            &&& post.phase matches Phase::PollSource { queue: q } && q@ == queue@
            &&& dir == Directive::PollCancel
        },
        (Phase::HotplugGap { queue }, HostSignal::HotplugAdmitted(admitted)) => {
            &&& post.devices@ == pre.devices@.push(admitted)
            &&& post.grabbed == pre.grabbed + 1
            &&& post.mux.live@ == pre.mux.live@.push(true)
            &&& post.pointer == pre.pointer
            &&& post.phase matches Phase::HotplugGap { queue: q } && q@ == queue@
            &&& dir == Directive::NoteHotplug
        },
        (Phase::AwaitGesture { device, queue, raw }, HostSignal::GestureOutcome(gesture, ts)) => {
            match gesture {
                Some(g) => {
                    &&& same_but_phase(pre, post)
                    &&& post.phase matches Phase::AwaitFilter { device: d, queue: q, raw: r }
                        && d == device && q@ == queue@ && r == raw
                    &&& dir matches Directive::Deliver { device: d, event } && d == device
                        && event.time == ts && event.chr is None
                        && event.event_type == EventType::Touch(g)
                },
                None => {
                    let class = pre.devices@[device as int];
                    &&& post.devices == pre.devices
                    &&& post.grabbed == pre.grabbed
                    &&& post.mux == pre.mux
                    &&& post.pointer == pointer_after(pre.pointer, class, raw)
                    &&& match translation(pre.pointer, class, raw) {
                        Some(translated) => {
                            &&& post.phase matches Phase::AwaitResolve {
                                device: d, queue: q, raw: r, translated: t,
                            } && d == device && q@ == queue@ && r == raw && t == translated
                            &&& dir matches Directive::Resolve { device: d, translated: t }
                                && d == device && t == translated
                        },
                        None => {
                            &&& post.phase matches Phase::AwaitWrites { device: d, queue: q, stop }
                                && d == device && q@ == queue@ && stop == false
                            &&& dir matches Directive::Emit { device: d, writes } && d == device
                                && writes@ =~= seq![SinkWrite::Event(raw), SinkWrite::Flush]
                        },
                    }
                },
            }
        },
        (Phase::AwaitResolve { device, queue, raw, translated }, HostSignal::ResolveOutcome(chr, ts)) => {
            &&& same_but_phase(pre, post)
            &&& post.phase matches Phase::AwaitFilter { device: d, queue: q, raw: r }
                && d == device && q@ == queue@ && r == raw
            &&& dir matches Directive::Deliver { device: d, event } && d == device
                && event.time == ts && event.chr == chr && event.event_type == translated
        },
        (Phase::AwaitFilter { device, queue, raw }, HostSignal::FilterOutcome(decision, status)) => {
            &&& same_but_phase(pre, post)
            &&& post.phase matches Phase::AwaitWrites { device: d, queue: q, stop }
                && d == device && q@ == queue@ && stop == (status is Stop)
            &&& dir matches Directive::Emit { device: d, writes } && d == device
                && (decision is None ==> writes@.len() == 0)
                && (decision is Some ==> writes@ =~= seq![SinkWrite::Event(raw), SinkWrite::Flush])
        },
        (Phase::AwaitWrites { device, queue, stop }, HostSignal::Written) => {
            if stop {
                tearing_down(pre, post, dir, LoopOutcome::Stopped)
            } else {
                &&& same_but_phase(pre, post)
                &&& post.phase matches Phase::CheckPending { device: d, queue: q }
                    && d == device && q@ == queue@
                &&& dir == (Directive::QueryPending { device })
            }
        },
        (Phase::AwaitWrites { .. }, HostSignal::WriteError) => {
            tearing_down(pre, post, dir, LoopOutcome::WriteFailed)
        },
        (Phase::Teardown { outcome }, HostSignal::TornDown) => {
            &&& same_but_phase(pre, post)
            &&& post.phase == (Phase::Done { outcome })
            &&& dir == (Directive::Finish { outcome })
        },
        _ => true,
    }
}

/// A session as `Session::new` hands it out: nothing carried over from
/// anywhere — the catalog and pointer seed are the arguments and the run
/// starts at its first grab (or, with no devices, at the first poll).
pub open spec fn fresh_session(s: Session, dir: Directive, devices: Seq<DeviceType>, pointer: PointerState) -> bool {
    &&& s.devices@ == devices
    &&& s.grabbed == 0
    &&& s.pointer == pointer
    &&& s.mux.live@.len() == 0
    &&& if devices.len() > 0 {
        s.phase == (Phase::Grabbing { next: 0 }) && dir == (Directive::Grab { device: 0 })
    } else {
        s.phase == Phase::PollOuter && dir == Directive::PollCancel
    }
}

impl Session {
    /// Starts one capture run over the catalogued device classes, with the
    /// pointer seeded from the display metrics and cursor position read at
    /// run start. Returns the fresh session and the first directive.
    pub fn new(devices: Vec<DeviceType>, pointer: PointerState) -> (r: (Session, Directive))
        requires
            pointer.wf(),
        ensures
            fresh_session(r.0, r.1, devices@, pointer),
            r.0.wf(),
    {
        if devices.len() == 0 {
            let mux = match Multiplexer::build(0) {
                Ok(m) => m,
                Err(_) => {
                    proof {
                        assert(false);
                    }
                    Multiplexer { live: Vec::new() }
                },
            };
            let session = Session { devices, grabbed: 0, mux, pointer, phase: Phase::PollOuter };
            (session, Directive::PollCancel)
        } else {
            let session = Session {
                devices,
                grabbed: 0,
                mux: Multiplexer { live: Vec::new() },
                pointer,
                phase: Phase::Grabbing { next: 0 },
            };
            (session, Directive::Grab { device: 0 })
        }
    }

    /// Feeds the machine the host's answer to the last directive and
    /// receives the next directive, as `step_spec` lays down transition by
    /// transition.
    pub fn step(&mut self, signal: HostSignal) -> (dir: Directive)
        requires
            old(self).wf(),
            expects(old(self).phase, signal),
        ensures
            final(self).wf(),
            step_spec(*old(self), signal, *final(self), dir),
    {
        let mut ph = Phase::PollOuter;
        core::mem::swap(&mut ph, &mut self.phase);
        match (ph, signal) {
            (Phase::Grabbing { next }, HostSignal::Grabbed) => {
                let count = self.devices.len();
                if next + 1 < count {
                    self.grabbed = next + 1;
                    self.phase = Phase::Grabbing { next: next + 1 };
                    Directive::Grab { device: next + 1 }
                } else {
                    self.grabbed = count;
                    match Multiplexer::build(count) {
                        Ok(m) => {
                            self.mux = m;
                            self.phase = Phase::PollOuter;
                            Directive::PollCancel
                        },
                        Err(_) => {
                            self.phase = Phase::Teardown { outcome: LoopOutcome::SentinelCollision };
                            Directive::UngrabAll { devices: self.grabbed }
                        },
                    }
                }
            },
            (Phase::Grabbing { .. }, HostSignal::GrabDenied) => {
                self.phase = Phase::Teardown { outcome: LoopOutcome::GrabFailed };
                Directive::UngrabAll { devices: self.grabbed }
            },
            (Phase::PollOuter, HostSignal::Cancel(cancelled)) => {
                if cancelled {
                    self.phase = Phase::Teardown { outcome: LoopOutcome::Cancelled };
                    Directive::UngrabAll { devices: self.grabbed }
                } else {
                    self.phase = Phase::AwaitBatch;
                    Directive::Wait
                }
            },
            (Phase::AwaitBatch, HostSignal::Batch(batch)) => {
                self.phase = Phase::PollSource { queue: batch };
                Directive::PollCancel
            },
            (Phase::AwaitBatch, HostSignal::WaitError) => {
                self.phase = Phase::Teardown { outcome: LoopOutcome::WaitFailed };
                Directive::UngrabAll { devices: self.grabbed }
            },
            (Phase::PollSource { queue }, HostSignal::Cancel(cancelled)) => {
                if cancelled {
                    self.phase = Phase::Teardown { outcome: LoopOutcome::Cancelled };
                    Directive::UngrabAll { devices: self.grabbed }
                } else if queue.len() == 0 {
                    self.phase = Phase::AwaitBatch;
                    Directive::Wait
                } else {
                    let mut queue = queue;
                    let data = queue.remove(0);
                    proof {
                        assert(queue@ =~= old(self).phase->PollSource_queue@.skip(1));
                    }
                    match self.mux.route(data) {
                        Routed::Hotplug => {
                            self.phase = Phase::HotplugGap { queue };
                            Directive::NoteHotplug
                        },
                        Routed::Device(idx) => {
                            self.phase = Phase::CheckPending { device: idx, queue };
                            Directive::QueryPending { device: idx }
                        },
                        Routed::Stale => {
                            self.phase = Phase::PollSource { queue };
                            Directive::PollCancel
                        },
                    }
                }
            },
            (Phase::CheckPending { device, queue }, HostSignal::Pending(pending)) => {
                if pending {
                    self.phase = Phase::AwaitRead { device, queue };
                    Directive::Read { device }
                } else {
                    self.phase = Phase::PollSource { queue };
                    Directive::PollCancel
                }
            },
            (Phase::AwaitRead { device, queue }, HostSignal::Read(raw)) => {
                self.phase = Phase::AwaitGesture { device, queue, raw };
                Directive::OfferGesture { device, raw }
            },
            (Phase::AwaitRead { device, queue }, HostSignal::ReadError) => {
                self.mux.remove(device);
                self.phase = Phase::PollSource { queue };
                Directive::PollCancel
            },
            (Phase::HotplugGap { queue }, HostSignal::HotplugSeen) => {
                self.phase = Phase::PollSource { queue };
                Directive::PollCancel
            },
            (Phase::HotplugGap { queue }, HostSignal::HotplugAdmitted(admitted)) => {
                self.devices.push(admitted);
                self.mux.live.push(true);
                self.grabbed = self.devices.len();
                self.phase = Phase::HotplugGap { queue };
                Directive::NoteHotplug
            },
            (Phase::AwaitGesture { device, queue, raw }, HostSignal::GestureOutcome(gesture, ts)) => {
                match gesture {
                    Some(g) => {
                        let event = Event { time: ts, chr: None, event_type: EventType::Touch(g) };
                        self.phase = Phase::AwaitFilter { device, queue, raw };
                        Directive::Deliver { device, event }
                    },
                    None => {
                        let class = self.devices[device];
                        match translate(&raw, class, &mut self.pointer) {
                            Some(translated) => {
                                self.phase = Phase::AwaitResolve { device, queue, raw, translated };
                                Directive::Resolve { device, translated }
                            },
                            None => {
                                let writes = forward_writes(&raw);
                                self.phase = Phase::AwaitWrites { device, queue, stop: false };
                                Directive::Emit { device, writes }
                            },
                        }
                    },
                }
            },
            (Phase::AwaitResolve { device, queue, raw, translated }, HostSignal::ResolveOutcome(chr, ts)) => {
                let event = Event { time: ts, chr, event_type: translated };
                self.phase = Phase::AwaitFilter { device, queue, raw };
                Directive::Deliver { device, event }
            },
            (Phase::AwaitFilter { device, queue, raw }, HostSignal::FilterOutcome(decision, status)) => {
                let writes = passthrough_writes(&raw, &decision);
                let stop = status == GrabStatus::Stop;
                self.phase = Phase::AwaitWrites { device, queue, stop };
                Directive::Emit { device, writes }
            },
            (Phase::AwaitWrites { device, queue, stop }, HostSignal::Written) => {
                if stop {
                    self.phase = Phase::Teardown { outcome: LoopOutcome::Stopped };
                    Directive::UngrabAll { devices: self.grabbed }
                } else {
                    self.phase = Phase::CheckPending { device, queue };
                    Directive::QueryPending { device }
                }
            },
            (Phase::AwaitWrites { .. }, HostSignal::WriteError) => {
                self.phase = Phase::Teardown { outcome: LoopOutcome::WriteFailed };
                Directive::UngrabAll { devices: self.grabbed }
            },
            (Phase::Teardown { outcome }, HostSignal::TornDown) => {
                self.phase = Phase::Done { outcome };
                Directive::Finish { outcome }
            },
            _ => {
                proof {
                    assert(false);
                }
                Directive::PollCancel
            },
        }
    }
}

/// What the run's caller sees for each outcome: cancellation and a filter
/// `Stop` end the run normally; everything else surfaces as a setup or I/O
/// failure.
pub fn outcome_result(outcome: LoopOutcome) -> (r: Result<(), GrabError>)
    ensures
        r == (if outcome is Cancelled || outcome is Stopped {
            Ok::<(), GrabError>(())
        } else {
            Err::<(), GrabError>(GrabError::IoError)
        }),
{
    match outcome {
        LoopOutcome::Cancelled => Ok(()),
        LoopOutcome::Stopped => Ok(()),
        _ => Err(GrabError::IoError),
    }
}

/// Law: a run only finishes through teardown, and any transition into
/// teardown directs the host to ungrab every currently grabbed device — on
/// every exit path: cancellation, a filter `Stop`, a setup failure, or a
/// fatal in-loop failure.
pub proof fn lemma_every_exit_tears_down(pre: Session, signal: HostSignal, post: Session, dir: Directive)
    requires
        pre.wf(),
        expects(pre.phase, signal),
        step_spec(pre, signal, post, dir),
    ensures
        post.phase is Done ==> pre.phase is Teardown,
        post.phase is Teardown && !(pre.phase is Teardown)
            ==> dir == (Directive::UngrabAll { devices: post.grabbed }),
{
}

/// Law: two runs started from the same catalog and the same pointer seed
/// begin in identical states with identical first directives — nothing (no
/// pointer state, no device set) leaks from one run into the next.
pub proof fn lemma_runs_start_fresh(
    a: Session,
    da: Directive,
    b: Session,
    db: Directive,
    devices: Seq<DeviceType>,
    pointer: PointerState,
)
    requires
        fresh_session(a, da, devices, pointer),
        fresh_session(b, db, devices, pointer),
    ensures
        a.devices@ == b.devices@,
        a.grabbed == b.grabbed,
        a.pointer == b.pointer,
        a.mux.live@ == b.mux.live@,
        a.phase == b.phase,
        da == db,
{
    assert(a.mux.live@ =~= b.mux.live@);
}

} // verus!
