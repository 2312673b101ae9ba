//! Client-side protocol engine for talking to a PX4-class autopilot over a
//! packet transport: heartbeat-based target discovery, command/acknowledgement
//! correlation with a bounded deadline, a most-recent-sample telemetry cache,
//! fixed-rate setpoint construction, and a linear phase sequencer that ramps
//! a position target between altitudes.
//!
//! All wire I/O (opening UDP channels, blocking receives, sends) lives outside
//! this crate; the engine works on plain values. Coordinates are fixed-point:
//! millimetres for positions, millimetres per second for velocities, and
//! milliradians for angles.

use vstd::prelude::*;

pub mod msg;
pub mod client;
pub mod discovery;
pub mod correlator;
pub mod telemetry;
pub mod ramp;
pub mod outbound;
pub mod phase;

verus! {

/// Errors of the engine, mirroring the protocol taxonomy: channel open
/// failure, mid-session I/O failure, a deadline exceeded while waiting,
/// and an attempt to address a peer before discovery.
#[derive(Clone, Copy, Debug, PartialEq, Eq, Structural)]
pub enum ClientError {
    Connection,
    Transport,
    Timeout,
    UnknownTarget,
}

} // verus!
