//! Onboard flight controller for an autonomous stratospheric balloon probe.
//!
//! The library sequences a flight from power-on through ascent, burst,
//! descent, landing and shutdown, while coordinating a positioning receiver
//! and a cellular modem. It holds the flight state machine with its persisted
//! phase record, the positioning-receiver binary protocol (frame construction,
//! checksums, acknowledgment matching) and the modem command-session protocol
//! (command framing, response validation, SMS transmission, network-assisted
//! location lookup and battery telemetry). All hardware access (GPIO, serial
//! ports, the file system) is performed by the surrounding application, which
//! drives the session state machines defined here.

pub mod config;
pub mod error;
pub mod fona;
pub mod frame;
pub mod gps;
pub mod logic;
pub mod strutil;

use vstd::prelude::*;

verus! {

/// Configuration file name.
pub const CONFIG_FILE: &'static str = "config.toml";

/// Last state file, in the data directory.
pub const STATE_FILE: &'static str = "last_state";

} // verus!
