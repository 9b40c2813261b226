//! Core logic of a device-grabbing input interception engine: raw device
//! classification, readiness multiplexing, raw-to-normalized event
//! translation with clamped pointer state, passthrough write planning, and
//! the capture-loop decision machine. All device I/O lives outside this
//! crate; callers drive the decision machine and perform the directives it
//! returns.

pub mod events;
pub mod keycodes;
pub mod translate;
pub mod catalog;
pub mod mux;
pub mod sink;
pub mod capture;
