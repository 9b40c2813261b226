//! The wait-set model: every device handle is registered for level-triggered
//! readiness under a stable index equal to its catalog position, and the
//! hot-plug watch on the device directory under a reserved sentinel
//! identifier distinct from any valid device index. Removal of a failed
//! device clears its slot and never shifts the others.

use vstd::prelude::*;
use crate::events::SetupError;

verus! {

/// The reserved readiness identifier of the hot-plug watch. Building the
/// wait set fails fast when the device count would collide with it.
pub const HOTPLUG_SENTINEL: u64 = u64::MAX;

/// Where one readiness identifier routes.
#[derive(Clone, Copy, Debug, PartialEq, Eq, Structural)]
pub enum Routed {
    /// The hot-plug watch on the device directory fired.
    Hotplug,
    /// The device registered under this index has data pending.
    Device(usize),
    /// No live device is registered under this identifier.
    Stale,
}

/// Which device indices are currently registered in the wait set.
#[derive(Clone, Debug)]
pub struct Multiplexer {
    pub live: Vec<bool>,
}

impl Multiplexer {
    /// Registers `count` devices under indices equal to their catalog
    /// positions, plus the hot-plug watch under the sentinel; fails when the
    /// device count would collide with the sentinel identifier.
    pub fn build(count: usize) -> (r: Result<Multiplexer, SetupError>)
        ensures
            (count as u64) < HOTPLUG_SENTINEL ==> r is Ok
                && r->Ok_0.live@ == Seq::new(count as nat, |i: int| true),
            (count as u64) >= HOTPLUG_SENTINEL ==> r == Err::<Multiplexer, SetupError>(
                SetupError::SentinelCollision,
            ),
    {
        if count as u64 >= HOTPLUG_SENTINEL {
            return Err(SetupError::SentinelCollision);
        }
        let mut live: Vec<bool> = Vec::new();
        let mut i: usize = 0;
        while i < count
            invariant
                i <= count,
                live@ == Seq::new(i as nat, |k: int| true),
            decreases count - i,
        {
            live.push(true);
            proof {
                assert(live@ =~= Seq::new((i + 1) as nat, |k: int| true));
            }
            i += 1;
        }
        Ok(Multiplexer { live })
    }

    /// How many slots the wait set was built with (live or removed).
    pub fn slot_count(&self) -> (n: usize)
        ensures
            n == self.live@.len(),
    {
        self.live.len()
    }

    /// Whether the device registered under `idx` is still in the wait set.
    pub fn is_live(&self, idx: usize) -> (r: bool)
        requires
            idx < self.live@.len(),
        ensures
            r == self.live@[idx as int],
    {
        self.live[idx]
    }

    /// Routes one readiness identifier: the sentinel to the hot-plug watch, a
    /// live in-range index to its device, anything else to nowhere.
    pub fn route(&self, data: u64) -> (r: Routed)
        ensures
            data == HOTPLUG_SENTINEL ==> r is Hotplug,
            data != HOTPLUG_SENTINEL && data < self.live@.len() && self.live@[data as int]
                ==> r == Routed::Device(data as usize),
            data != HOTPLUG_SENTINEL && (data >= self.live@.len() || !self.live@[data as int])
                ==> r is Stale,
    {
        if data == HOTPLUG_SENTINEL {
            Routed::Hotplug
        } else if data < self.live.len() as u64 {
            let idx = data as usize;
            if self.live[idx] {
                Routed::Device(idx)
            } else {
                Routed::Stale
            }
        } else {
            Routed::Stale
        }
    }

    /// Removes one failed device from the wait set; every other slot is
    /// untouched.
    pub fn remove(&mut self, idx: usize)
        requires
            idx < old(self).live@.len(),
        ensures
            final(self).live@ == old(self).live@.update(idx as int, false),
    {
        self.live.set(idx, false);
    }
}

} // verus!
