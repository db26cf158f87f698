//! Verified core of a bridge between Pioneer Pro DJ Link and Ableton Link.
//!
//! The crate holds the decisions of the bridge: which direction a sync mode
//! relays, which events are relayed and which are suppressed, how the
//! configuration layers combine, and how the status line is composed.
//! Network I/O, timers and floating-point tempo arithmetic live outside it.

use vstd::prelude::*;

pub mod bridge;
pub mod config;
pub mod display;
pub mod engine;
pub mod engine_laws;
pub mod sync_mode;

pub use sync_mode::SyncMode;

verus! {

} // verus!
