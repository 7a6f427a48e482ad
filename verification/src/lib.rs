//! Verified core of a per-frame GPU compute render node.
//!
//! The library models the host-side logic that drives a compute dispatch
//! once per frame: observing asynchronous pipeline compilation, selecting
//! double-buffered resources by parity, keeping a uniform value synchronized
//! through a staging buffer with a single in-flight map gate, and recording
//! the per-frame command sequence in the right order. The GPU itself, the
//! window, and the asset loader are external collaborators; an unverified
//! driver performs their calls and feeds the observed outcomes back into
//! the functions here as plain values.

pub mod bind;
pub mod config;
pub mod display;
pub mod error;
pub mod frame;
pub mod gate;
pub mod layout;
pub mod node;
pub mod pool;
pub mod sync;
pub mod uniforms;
