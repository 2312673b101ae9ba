//! Session state: the local identity, the per-session sequence counter, and
//! the discovered remote identity. The transport endpoints themselves live
//! outside the engine; callers feed received frames in and carry built
//! messages out.

use vstd::prelude::*;
use crate::msg::Header;
use crate::ClientError;

verus! {

/// The system id this engine claims for itself (a ground-station id).
pub const LOCAL_SYSTEM_ID: u8 = 255;
/// The component id this engine claims for itself.
pub const LOCAL_COMPONENT_ID: u8 = 190;

/// The protocol-level state of one session: fixed local identity, a
/// wrapping sequence counter, and the remote identity learned from the
/// first heartbeat (`target_sys == 0` until discovery completes).
#[derive(Clone, Copy, Debug, PartialEq, Eq, Structural)]
pub struct ClientState {
    pub system_id: u8,
    pub component_id: u8,
    pub sequence: u8,
    pub target_sys: u8,
    pub target_comp: u8,
}

/// True of a state in which the remote identity has been discovered; no
/// targeted message may be built before this holds.
pub open spec fn target_known(st: ClientState) -> bool {
    st.target_sys != 0
}

impl ClientState {
    /// A fresh session state: local identity fixed, sequence at zero,
    /// remote identity unknown.
    pub fn new() -> (st: ClientState)
        ensures
            st.system_id == LOCAL_SYSTEM_ID,
            st.component_id == LOCAL_COMPONENT_ID,
            st.sequence == 0,
            st.target_sys == 0,
            st.target_comp == 0,
    {
        ClientState {
            system_id: LOCAL_SYSTEM_ID,
            component_id: LOCAL_COMPONENT_ID,
            sequence: 0,
            target_sys: 0,
            target_comp: 0,
        }
    }

    /// Advance the sequence counter for the next outbound frame, wrapping on
    /// overflow, and return the new value to stamp into the frame's header.
    pub fn advance_sequence(&mut self) -> (seq: u8)
        ensures
            final(self).sequence == (old(self).sequence + 1) % 256,
            seq == final(self).sequence,
            final(self).system_id == old(self).system_id,
            final(self).component_id == old(self).component_id,
            final(self).target_sys == old(self).target_sys,
            final(self).target_comp == old(self).target_comp,
    {
        self.sequence = self.sequence.wrapping_add(1);
        self.sequence
    }

    /// Record the sender of a heartbeat as the remote identity. Calling it
    /// again overwrites the previous identity with the new sender.
    pub fn record_heartbeat(&mut self, h: Header)
        ensures
            final(self).target_sys == h.system_id,
            final(self).target_comp == h.component_id,
            final(self).system_id == old(self).system_id,
            final(self).component_id == old(self).component_id,
            final(self).sequence == old(self).sequence,
    {
        self.target_sys = h.system_id;
        self.target_comp = h.component_id;
    }

    /// Guard for targeted sends: `Ok` exactly when discovery has recorded a
    /// remote identity, `Err(UnknownTarget)` otherwise.
    pub fn ensure_target(&self) -> (r: Result<(), ClientError>)
        ensures
            r is Ok <==> target_known(*self),
            !target_known(*self) ==> r == Result::<(), ClientError>::Err(ClientError::UnknownTarget),
    {
        if self.target_sys == 0 {
            Err(ClientError::UnknownTarget)
        } else {
            Ok(())
        }
    }
}

/// Reduce a total elapsed-millisecond count to the 32-bit relative timestamp
/// carried in outbound messages; the field wraps past about 49 days.
pub fn elapsed_ms_u32(total_ms: u64) -> (r: u32)
    ensures
        r == total_ms % 0x1_0000_0000,
{
    (total_ms % 0x1_0000_0000) as u32
}

} // verus!
