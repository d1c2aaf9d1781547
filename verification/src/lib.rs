//! A verified controller for an analog-keyboard monitor: the decisions and
//! the exact console text of an initialize / enumerate / poll loop, with the
//! device I/O itself left to the caller.

use vstd::prelude::*;

pub mod device;
pub mod monitor;
pub mod render;

verus! {

/// Upper bound handed to the device enumeration call.
pub const DEVICE_BUFFER_MAX: usize = 5;

/// Upper bound handed to each analog snapshot read.
pub const ANALOG_BUFFER_READ_MAX: usize = 40;

/// Fixed pause between consecutive snapshot reads, in milliseconds.
pub const POLL_INTERVAL_MS: u64 = 100;

} // verus!
