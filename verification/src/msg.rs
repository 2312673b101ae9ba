//! Plain-value model of the inbound messages the engine consumes and the
//! outbound messages it constructs. The external codec's structured payloads
//! are reduced to the fields this engine reads: fixed-point coordinates
//! (millimetres, millimetres per second, milliradians) and identity bytes.

use vstd::prelude::*;

verus! {

/// Sender identity carried by every inbound frame: `(system_id, component_id)`.
/// `system_id == 0` is the sentinel for "undiscovered".
#[derive(Clone, Copy, Debug, PartialEq, Eq, Structural)]
pub struct Header {
    pub system_id: u8,
    pub component_id: u8,
}

/// An attitude sample: angles in milliradians.
#[derive(Clone, Copy, Debug, PartialEq, Eq, Structural)]
pub struct Attitude {
    pub roll_mrad: i32,
    pub pitch_mrad: i32,
    pub yaw_mrad: i32,
}

/// A local-position sample: positions in millimetres, velocities in
/// millimetres per second, in the local NED frame (z grows downward).
#[derive(Clone, Copy, Debug, PartialEq, Eq, Structural)]
pub struct Position {
    pub x_mm: i32,
    pub y_mm: i32,
    pub z_mm: i32,
    pub vx_mmps: i32,
    pub vy_mmps: i32,
    pub vz_mmps: i32,
}

/// An acknowledgement: the acknowledged command code and the result code
/// (0 = accepted; non-zero values are refusals the caller must inspect).
#[derive(Clone, Copy, Debug, PartialEq, Eq, Structural)]
pub struct Ack {
    pub command: u16,
    pub result: u8,
}

/// The message kinds this engine reads. Every other kind of inbound traffic
/// is `Other` and is discarded by every wait loop.
#[derive(Clone, Copy, Debug, PartialEq, Eq, Structural)]
pub enum Msg {
    Heartbeat,
    CommandAck(Ack),
    Attitude(Attitude),
    LocalPosition(Position),
    Other,
}

/// One inbound frame: the transport header plus the decoded payload.
#[derive(Clone, Copy, Debug, PartialEq, Eq, Structural)]
pub struct InboundMsg {
    pub header: Header,
    pub msg: Msg,
}

/// An inbound frame together with the clock reading taken when its blocking
/// receive returned, in milliseconds of the session clock. Deadline checks
/// happen only between messages, so this is the time at which a wait loop
/// learns the frame exists.
#[derive(Clone, Copy, Debug, PartialEq, Eq, Structural)]
pub struct TimedMsg {
    pub at_ms: u64,
    pub inbound: InboundMsg,
}

} // verus!
