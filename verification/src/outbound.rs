//! Construction of the outbound messages the engine sends: position-target
//! setpoints and long-form commands. Each builder populates the sender and
//! destination identity from the session state and requires the remote
//! identity to be discovered first — no message is ever addressed to the
//! undiscovered sentinel.

use vstd::prelude::*;
use crate::client::{ClientState, target_known};

verus! {

/// Type mask for a position+yaw setpoint: velocity (bits 3..5), acceleration
/// (bits 6..8) and yaw rate (bit 11) ignored; position (bits 0..2) and yaw
/// (bit 10) used. 8+16+32 + 64+128+256 + 2048.
pub const SETPOINT_TYPE_MASK: u16 = 2552;

/// Command code: arm or disarm a component (param1 selects which).
pub const CMD_COMPONENT_ARM_DISARM: u16 = 400;
/// Command code: set the flight mode.
pub const CMD_DO_SET_MODE: u16 = 176;
/// `param1` of the set-mode command: the custom-mode flag.
pub const MODE_FLAG_CUSTOM_MODE_ENABLED: i32 = 1;
/// `param2` of the set-mode command: the autopilot's externally-controlled
/// ("offboard") main mode.
pub const CUSTOM_MAIN_MODE_OFFBOARD: i32 = 6;

/// A target pose for one setpoint tick: position in millimetres, yaw in
/// milliradians, in the local NED frame.
#[derive(Clone, Copy, Debug, PartialEq, Eq, Structural)]
pub struct SetpointTarget {
    pub x_mm: i32,
    pub y_mm: i32,
    pub z_mm: i32,
    pub yaw_mrad: i32,
}

/// One outbound position-target setpoint, ready for the codec: relative
/// timestamp, destination identity, the fixed ignore mask, and the pose.
#[derive(Clone, Copy, Debug, PartialEq, Eq, Structural)]
pub struct SetpointMsg {
    pub time_boot_ms: u32,
    pub target_system: u8,
    pub target_component: u8,
    pub type_mask: u16,
    pub x_mm: i32,
    pub y_mm: i32,
    pub z_mm: i32,
    pub yaw_mrad: i32,
}

/// One outbound long-form command: a command code and seven numeric
/// parameters, addressed to the discovered remote identity.
#[derive(Clone, Copy, Debug, PartialEq, Eq, Structural)]
pub struct CommandMsg {
    pub target_system: u8,
    pub target_component: u8,
    pub command: u16,
    pub confirmation: u8,
    pub param1: i32,
    pub param2: i32,
    pub param3: i32,
    pub param4: i32,
    pub param5: i32,
    pub param6: i32,
    pub param7: i32,
}

/// Build one setpoint message for the current tick: stamped with the
/// session-relative time, addressed to the discovered remote, mask fixed to
/// "position and yaw used; velocity, acceleration, yaw rate ignored".
pub fn build_setpoint(st: &ClientState, now_ms: u32, target: &SetpointTarget) -> (m: SetpointMsg)
    requires
        target_known(*st),
    ensures
        m.time_boot_ms == now_ms,
        m.target_system == st.target_sys,
        m.target_component == st.target_comp,
        m.type_mask == SETPOINT_TYPE_MASK,
        m.x_mm == target.x_mm,
        m.y_mm == target.y_mm,
        m.z_mm == target.z_mm,
        m.yaw_mrad == target.yaw_mrad,
{
    SetpointMsg {
        time_boot_ms: now_ms,
        target_system: st.target_sys,
        target_component: st.target_comp,
        type_mask: SETPOINT_TYPE_MASK,
        x_mm: target.x_mm,
        y_mm: target.y_mm,
        z_mm: target.z_mm,
        yaw_mrad: target.yaw_mrad,
    }
}

/// Build the arm (`arm == true`) or disarm (`arm == false`) command:
/// code 400 with param1 selecting the action, every other parameter zero.
pub fn arm_command(st: &ClientState, arm: bool) -> (c: CommandMsg)
    requires
        target_known(*st),
    ensures
        c.target_system == st.target_sys,
        c.target_component == st.target_comp,
        c.command == CMD_COMPONENT_ARM_DISARM,
        c.confirmation == 0,
        c.param1 == if arm { 1int } else { 0int },
        c.param2 == 0 && c.param3 == 0 && c.param4 == 0,
        c.param5 == 0 && c.param6 == 0 && c.param7 == 0,
{
    CommandMsg {
        target_system: st.target_sys,
        target_component: st.target_comp,
        command: CMD_COMPONENT_ARM_DISARM,
        confirmation: 0,
        param1: if arm { 1 } else { 0 },
        param2: 0,
        param3: 0,
        param4: 0,
        param5: 0,
        param6: 0,
        param7: 0,
    }
}

/// Build the switch-to-offboard command: code 176 with the custom-mode flag
/// in param1 and the offboard main mode in param2, every other parameter
/// zero.
pub fn offboard_mode_command(st: &ClientState) -> (c: CommandMsg)
    requires
        target_known(*st),
    ensures
        c.target_system == st.target_sys,
        c.target_component == st.target_comp,
        c.command == CMD_DO_SET_MODE,
        c.confirmation == 0,
        c.param1 == MODE_FLAG_CUSTOM_MODE_ENABLED,
        c.param2 == CUSTOM_MAIN_MODE_OFFBOARD,
        c.param3 == 0 && c.param4 == 0,
        c.param5 == 0 && c.param6 == 0 && c.param7 == 0,
{
    CommandMsg {
        target_system: st.target_sys,
        target_component: st.target_comp,
        command: CMD_DO_SET_MODE,
        confirmation: 0,
        param1: MODE_FLAG_CUSTOM_MODE_ENABLED,
        param2: CUSTOM_MAIN_MODE_OFFBOARD,
        param3: 0,
        param4: 0,
        param5: 0,
        param6: 0,
        param7: 0,
    }
}

} // verus!
