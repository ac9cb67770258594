#![verifier::loop_isolation(false)]
//! Data-plane logic of a two-sided radio remote-control link.
//!
//! A transmitter node samples joystick input, wraps the channel values in a
//! small wire envelope and radios it to a receiver node, which tracks packet
//! loss and periodically forwards the latest values to a flight controller
//! as a CRC-protected serial frame.

use vstd::prelude::*;

pub mod crc;
pub mod link;
pub mod protocol;
pub mod sumd;

verus! {

} // verus!
