//! The phase sequencer: a linear state machine over a small closed set of
//! phases, executed in fixed order with no retries and no branching — a send
//! failure in any phase aborts the whole sequence, a verification miss does
//! not. The terminal state is reached after Disarm whatever the verification
//! outcome.

use vstd::prelude::*;
use crate::outbound::SetpointTarget;
use crate::ramp::{ramp_value, ramp_z, MAX_RAMP_DURATION_MS};

verus! {

/// The phases of the takeoff/land sequence, in execution order.
#[derive(Clone, Copy, Debug, PartialEq, Eq, Structural)]
pub enum Phase {
    /// Stream the captured start pose unchanged: the autopilot refuses to
    /// enter offboard mode without a recent stream of setpoints.
    PreStreamHold,
    /// Send the mode-switch and arm commands, fire-and-forget by design.
    ModeSwitchAndArm,
    /// Climb: interpolate z from the start altitude to the takeoff altitude.
    TakeoffRamp,
    /// Hold the takeoff altitude.
    Hover,
    /// Descend: interpolate z back to the start altitude.
    LandRamp,
    /// Scan inbound traffic for a position near the target altitude for a
    /// bounded time; the result is recorded, never an error.
    VerifyAltitude,
    /// Best-effort disarm; a refusal does not change the terminal outcome.
    Disarm,
    /// Terminal: reached after Disarm regardless of verification.
    Done,
}

/// Position of a phase in the fixed execution order.
pub open spec fn phase_index(p: Phase) -> int {
    match p {
        Phase::PreStreamHold => 0,
        Phase::ModeSwitchAndArm => 1,
        Phase::TakeoffRamp => 2,
        Phase::Hover => 3,
        Phase::LandRamp => 4,
        Phase::VerifyAltitude => 5,
        Phase::Disarm => 6,
        Phase::Done => 7,
    }
}

/// The phase that follows `p` in the fixed order; `Done` is terminal.
pub open spec fn spec_next_phase(p: Phase) -> Phase {
    match p {
        Phase::PreStreamHold => Phase::ModeSwitchAndArm,
        Phase::ModeSwitchAndArm => Phase::TakeoffRamp,
        Phase::TakeoffRamp => Phase::Hover,
        Phase::Hover => Phase::LandRamp,
        Phase::LandRamp => Phase::VerifyAltitude,
        Phase::VerifyAltitude => Phase::Disarm,
        Phase::Disarm => Phase::Done,
        Phase::Done => Phase::Done,
    }
}

/// The sequence is linear: each step moves one position forward until the
/// terminal phase, which repeats forever; no phase repeats, no branching.
pub proof fn lemma_phase_sequence_linear(p: Phase)
    ensures
        p is Done ==> spec_next_phase(p) is Done,
        !(p is Done) ==> phase_index(spec_next_phase(p)) == phase_index(p) + 1,
{
}

/// Advance the sequencer to the next phase.
pub fn next_phase(p: Phase) -> (r: Phase)
    ensures
        r == spec_next_phase(p),
{
    match p {
        Phase::PreStreamHold => Phase::ModeSwitchAndArm,
        Phase::ModeSwitchAndArm => Phase::TakeoffRamp,
        Phase::TakeoffRamp => Phase::Hover,
        Phase::Hover => Phase::LandRamp,
        Phase::LandRamp => Phase::VerifyAltitude,
        Phase::VerifyAltitude => Phase::Disarm,
        Phase::Disarm => Phase::Done,
        Phase::Done => Phase::Done,
    }
}

/// The phase every sequence starts in.
pub fn initial_phase() -> (p: Phase)
    ensures
        p is PreStreamHold,
{
    Phase::PreStreamHold
}

/// What the caller's loop must do while a phase runs.
#[derive(Clone, Copy, Debug, PartialEq, Eq, Structural)]
pub enum PhaseAction {
    /// Tick the streamer at the fixed rate with this phase's target.
    StreamSetpoints,
    /// Send the offboard mode-switch and arm commands, without waiting for
    /// acknowledgement.
    SwitchModeAndArm,
    /// Watch inbound traffic for a position near the target altitude.
    CheckAltitude,
    /// Send the disarm command, best-effort.
    SendDisarm,
    /// Nothing: the sequence is over.
    Finished,
}

/// The action a phase calls for.
pub fn phase_action(p: Phase) -> (a: PhaseAction)
    ensures
        a == match p {
            Phase::PreStreamHold | Phase::TakeoffRamp | Phase::Hover | Phase::LandRamp
                => PhaseAction::StreamSetpoints,
            Phase::ModeSwitchAndArm => PhaseAction::SwitchModeAndArm,
            Phase::VerifyAltitude => PhaseAction::CheckAltitude,
            Phase::Disarm => PhaseAction::SendDisarm,
            Phase::Done => PhaseAction::Finished,
        },
{
    match p {
        Phase::PreStreamHold | Phase::TakeoffRamp | Phase::Hover | Phase::LandRamp
            => PhaseAction::StreamSetpoints,
        Phase::ModeSwitchAndArm => PhaseAction::SwitchModeAndArm,
        Phase::VerifyAltitude => PhaseAction::CheckAltitude,
        Phase::Disarm => PhaseAction::SendDisarm,
        Phase::Done => PhaseAction::Finished,
    }
}

/// Durations and tolerances of one mission: phase lengths and the streaming
/// tick in milliseconds, the climb height in millimetres, and the altitude
/// tolerance of the verification scan in millimetres.
#[derive(Clone, Copy, Debug, PartialEq, Eq, Structural)]
pub struct MissionConfig {
    pub pre_stream_ms: u64,
    pub ramp_ms: u64,
    pub hover_ms: u64,
    pub land_ms: u64,
    pub verify_ms: u64,
    pub tick_ms: u64,
    pub takeoff_delta_mm: i32,
    pub verify_tol_mm: i32,
}

/// A usable configuration: every duration positive and bounded, the climb
/// height non-negative, the tolerance positive.
pub open spec fn config_ok(cfg: MissionConfig) -> bool {
    &&& 0 < cfg.pre_stream_ms <= MAX_RAMP_DURATION_MS
    &&& 0 < cfg.ramp_ms <= MAX_RAMP_DURATION_MS
    &&& 0 < cfg.hover_ms <= MAX_RAMP_DURATION_MS
    &&& 0 < cfg.land_ms <= MAX_RAMP_DURATION_MS
    &&& 0 < cfg.verify_ms <= MAX_RAMP_DURATION_MS
    &&& 0 < cfg.tick_ms
    &&& 0 <= cfg.takeoff_delta_mm
    &&& 0 < cfg.verify_tol_mm
}

/// The reference mission: two seconds of pre-stream hold, a three-second
/// climb ramp, five seconds of hover, a five-second landing ramp, a
/// one-second verification window, a 20 Hz tick, a two-metre climb, and half
/// a metre of verification tolerance.
pub fn standard_config() -> (cfg: MissionConfig)
    ensures
        cfg.pre_stream_ms == 2000,
        cfg.ramp_ms == 3000,
        cfg.hover_ms == 5000,
        cfg.land_ms == 5000,
        cfg.verify_ms == 1000,
        cfg.tick_ms == 50,
        cfg.takeoff_delta_mm == 2000,
        cfg.verify_tol_mm == 500,
        config_ok(cfg),
{
    MissionConfig {
        pre_stream_ms: 2000,
        ramp_ms: 3000,
        hover_ms: 5000,
        land_ms: 5000,
        verify_ms: 1000,
        tick_ms: 50,
        takeoff_delta_mm: 2000,
        verify_tol_mm: 500,
    }
}

/// How long a phase runs on its own wall-clock deadline; the command phases
/// take no time of their own.
pub open spec fn spec_phase_duration(p: Phase, cfg: MissionConfig) -> u64 {
    match p {
        Phase::PreStreamHold => cfg.pre_stream_ms,
        Phase::TakeoffRamp => cfg.ramp_ms,
        Phase::Hover => cfg.hover_ms,
        Phase::LandRamp => cfg.land_ms,
        Phase::VerifyAltitude => cfg.verify_ms,
        Phase::ModeSwitchAndArm | Phase::Disarm | Phase::Done => 0,
    }
}

/// The wall-clock budget of a phase.
pub fn phase_duration(p: Phase, cfg: &MissionConfig) -> (d: u64)
    ensures
        d == spec_phase_duration(p, *cfg),
{
    match p {
        Phase::PreStreamHold => cfg.pre_stream_ms,
        Phase::TakeoffRamp => cfg.ramp_ms,
        Phase::Hover => cfg.hover_ms,
        Phase::LandRamp => cfg.land_ms,
        Phase::VerifyAltitude => cfg.verify_ms,
        Phase::ModeSwitchAndArm | Phase::Disarm | Phase::Done => 0,
    }
}

/// Whether a phase's own deadline has elapsed and the sequencer must move on.
pub fn phase_complete(p: Phase, cfg: &MissionConfig, elapsed_ms: u64) -> (r: bool)
    ensures
        r == (elapsed_ms >= spec_phase_duration(p, *cfg)),
{
    elapsed_ms >= phase_duration(p, cfg)
}

/// The altitude the takeoff ramp climbs to: the captured start altitude minus
/// the climb height (z grows downward in NED).
pub open spec fn takeoff_altitude(start_z_mm: int, delta_mm: int) -> int {
    start_z_mm - delta_mm
}

/// The pose a streaming phase commands at `elapsed_ms` into the phase: the
/// captured start pose with only z interpolated — held during the pre-stream
/// hold, ramped to the takeoff altitude during the climb, held there during
/// hover, ramped back during landing. The command phases stream nothing.
pub fn phase_target(p: Phase, cfg: &MissionConfig, start: &SetpointTarget, elapsed_ms: u64)
    -> (r: Option<SetpointTarget>)
    requires
        config_ok(*cfg),
        i32::MIN <= start.z_mm - cfg.takeoff_delta_mm,
    ensures
        ({
            let z0 = start.z_mm as int;
            let zt = takeoff_altitude(z0, cfg.takeoff_delta_mm as int);
            match p {
                Phase::PreStreamHold => r == Some(*start),
                Phase::TakeoffRamp => r matches Some(t)
                    && t.x_mm == start.x_mm && t.y_mm == start.y_mm && t.yaw_mrad == start.yaw_mrad
                    && t.z_mm == ramp_value(z0, zt, elapsed_ms as int, cfg.ramp_ms as int),
                Phase::Hover => r matches Some(t)
                    && t.x_mm == start.x_mm && t.y_mm == start.y_mm && t.yaw_mrad == start.yaw_mrad
                    && t.z_mm == zt,
                Phase::LandRamp => r matches Some(t)
                    && t.x_mm == start.x_mm && t.y_mm == start.y_mm && t.yaw_mrad == start.yaw_mrad
                    && t.z_mm == ramp_value(zt, z0, elapsed_ms as int, cfg.land_ms as int),
                _ => r is None,
            }
        }),
{
    match p {
        Phase::PreStreamHold => Some(*start),
        Phase::TakeoffRamp => {
            let zt: i32 = start.z_mm - cfg.takeoff_delta_mm;
            Some(SetpointTarget {
                x_mm: start.x_mm,
                y_mm: start.y_mm,
                z_mm: ramp_z(start.z_mm, zt, elapsed_ms, cfg.ramp_ms),
                yaw_mrad: start.yaw_mrad,
            })
        },
        Phase::Hover => {
            let zt: i32 = start.z_mm - cfg.takeoff_delta_mm;
            Some(SetpointTarget {
                x_mm: start.x_mm,
                y_mm: start.y_mm,
                z_mm: zt,
                yaw_mrad: start.yaw_mrad,
            })
        },
        Phase::LandRamp => {
            let zt: i32 = start.z_mm - cfg.takeoff_delta_mm;
            Some(SetpointTarget {
                x_mm: start.x_mm,
                y_mm: start.y_mm,
                z_mm: ramp_z(zt, start.z_mm, elapsed_ms, cfg.land_ms),
                yaw_mrad: start.yaw_mrad,
            })
        },
        _ => None,
    }
}

} // verus!
