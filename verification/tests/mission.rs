use mavlink_io::client::ClientState;
use mavlink_io::discovery::run_discovery;
use mavlink_io::msg::{Attitude, Header, InboundMsg, Msg, Position};
use mavlink_io::outbound::{
    arm_command, build_setpoint, offboard_mode_command, SetpointTarget, CMD_COMPONENT_ARM_DISARM,
    CMD_DO_SET_MODE, SETPOINT_TYPE_MASK,
};
use mavlink_io::phase::{
    initial_phase, next_phase, phase_action, phase_complete, phase_duration, phase_target,
    standard_config, Phase, PhaseAction,
};
use mavlink_io::ramp::{ramp_schedule, ramp_z};
use mavlink_io::telemetry::TelemetryCache;

fn discovered_state() -> ClientState {
    let mut st = ClientState::new();
    let hb = vec![InboundMsg {
        header: Header {
            system_id: 1,
            component_id: 1,
        },
        msg: Msg::Heartbeat,
    }];
    run_discovery(&mut st, &hb).unwrap();
    st
}

fn pos(x: i32, y: i32, z: i32) -> Position {
    Position {
        x_mm: x,
        y_mm: y,
        z_mm: z,
        vx_mmps: 0,
        vy_mmps: 0,
        vz_mmps: 0,
    }
}

#[test]
fn telemetry_cache_keeps_latest_sample_per_kind() {
    let mut cache = TelemetryCache::new();
    assert!(cache.attitude.is_none() && cache.position.is_none());
    let att = Attitude {
        roll_mrad: 10,
        pitch_mrad: -20,
        yaw_mrad: 30,
    };
    cache.update(&Msg::LocalPosition(pos(1, 1, 1)));
    cache.update(&Msg::LocalPosition(pos(2, 2, 2)));
    cache.update(&Msg::Attitude(att));
    assert_eq!(cache.position, Some(pos(2, 2, 2)));
    assert_eq!(cache.attitude, Some(att));

    // The same end state when the attitude arrives between the positions.
    let mut other = TelemetryCache::new();
    other.update_all(&vec![
        Msg::LocalPosition(pos(1, 1, 1)),
        Msg::Attitude(att),
        Msg::LocalPosition(pos(2, 2, 2)),
    ]);
    assert_eq!(other, cache);
}

#[test]
fn telemetry_cache_ignores_unrelated_messages() {
    let mut cache = TelemetryCache::new();
    cache.update(&Msg::Heartbeat);
    cache.update(&Msg::Other);
    assert!(cache.attitude.is_none() && cache.position.is_none());
}

#[test]
fn ramp_hits_both_endpoints_and_mean() {
    // Climb: NED altitude from -100 mm to -2100 mm over 3000 ms.
    assert_eq!(ramp_z(-100, -2100, 0, 3000), -100);
    assert_eq!(ramp_z(-100, -2100, 3000, 3000), -2100);
    assert_eq!(ramp_z(-100, -2100, 1500, 3000), -1100);
    // Past the duration the command clamps at the target: no overshoot.
    assert_eq!(ramp_z(-100, -2100, 3001, 3000), -2100);
    assert_eq!(ramp_z(-100, -2100, 60_000, 3000), -2100);
    // A quarter in: 500 of the 2000 mm delta.
    assert_eq!(ramp_z(-100, -2100, 750, 3000), -600);
}

#[test]
fn ramp_descends_toward_higher_z() {
    assert_eq!(ramp_z(-2100, -100, 0, 5000), -2100);
    assert_eq!(ramp_z(-2100, -100, 2500, 5000), -1100);
    assert_eq!(ramp_z(-2100, -100, 5000, 5000), -100);
    assert_eq!(ramp_z(-2100, -100, 9999, 5000), -100);
}

#[test]
fn land_ramp_schedule_ticks_exactly_duration_over_interval() {
    // A 5 s landing ramp ticked every 50 ms: exactly 100 sends, interpolation
    // factor non-decreasing, so z never moves back toward the hover altitude.
    let sched = ramp_schedule(-2100, -100, 5000, 50);
    assert_eq!(sched.len(), 100);
    assert_eq!(sched[0], -2100);
    for w in sched.windows(2) {
        assert!(w[0] <= w[1]);
    }
    assert_eq!(sched[99], ramp_z(-2100, -100, 99 * 50, 5000));
    // The first tick at or past the duration would command the end altitude.
    assert_eq!(ramp_z(-2100, -100, 5000, 5000), -100);
}

#[test]
fn setpoint_carries_identity_time_and_fixed_mask() {
    let mut st = discovered_state();
    let seq_no = st.advance_sequence();
    assert_eq!(seq_no, 1);
    let target = SetpointTarget {
        x_mm: 1000,
        y_mm: -2000,
        z_mm: -3000,
        yaw_mrad: 250,
    };
    let m = build_setpoint(&st, 777, &target);
    assert_eq!(m.time_boot_ms, 777);
    assert_eq!((m.target_system, m.target_component), (1, 1));
    assert_eq!(m.type_mask, SETPOINT_TYPE_MASK);
    assert_eq!(m.type_mask, 2552);
    assert_eq!((m.x_mm, m.y_mm, m.z_mm, m.yaw_mrad), (1000, -2000, -3000, 250));
}

#[test]
fn arm_and_disarm_commands() {
    let st = discovered_state();
    let arm = arm_command(&st, true);
    assert_eq!(arm.command, CMD_COMPONENT_ARM_DISARM);
    assert_eq!(arm.command, 400);
    assert_eq!(arm.param1, 1);
    assert_eq!((arm.target_system, arm.target_component), (1, 1));
    assert_eq!(arm.confirmation, 0);
    let disarm = arm_command(&st, false);
    assert_eq!(disarm.param1, 0);
    assert_eq!(
        (disarm.param2, disarm.param3, disarm.param4, disarm.param5, disarm.param6, disarm.param7),
        (0, 0, 0, 0, 0, 0)
    );
}

#[test]
fn offboard_command_selects_custom_main_mode() {
    let st = discovered_state();
    let c = offboard_mode_command(&st);
    assert_eq!(c.command, CMD_DO_SET_MODE);
    assert_eq!(c.command, 176);
    assert_eq!(c.param1, 1);
    assert_eq!(c.param2, 6);
    assert_eq!((c.param3, c.param4, c.param5, c.param6, c.param7), (0, 0, 0, 0, 0));
}

#[test]
fn phases_run_in_fixed_order_to_a_terminal_state() {
    let order = [
        Phase::PreStreamHold,
        Phase::ModeSwitchAndArm,
        Phase::TakeoffRamp,
        Phase::Hover,
        Phase::LandRamp,
        Phase::VerifyAltitude,
        Phase::Disarm,
        Phase::Done,
    ];
    let mut p = initial_phase();
    for expected in order {
        assert_eq!(p, expected);
        p = next_phase(p);
    }
    assert_eq!(p, Phase::Done);
    assert_eq!(next_phase(Phase::Done), Phase::Done);
}

#[test]
fn phase_actions_and_durations() {
    let cfg = standard_config();
    assert_eq!(phase_action(Phase::PreStreamHold), PhaseAction::StreamSetpoints);
    assert_eq!(phase_action(Phase::ModeSwitchAndArm), PhaseAction::SwitchModeAndArm);
    assert_eq!(phase_action(Phase::Hover), PhaseAction::StreamSetpoints);
    assert_eq!(phase_action(Phase::VerifyAltitude), PhaseAction::CheckAltitude);
    assert_eq!(phase_action(Phase::Disarm), PhaseAction::SendDisarm);
    assert_eq!(phase_action(Phase::Done), PhaseAction::Finished);
    assert_eq!(phase_duration(Phase::PreStreamHold, &cfg), 2000);
    assert_eq!(phase_duration(Phase::TakeoffRamp, &cfg), 3000);
    assert_eq!(phase_duration(Phase::Hover, &cfg), 5000);
    assert_eq!(phase_duration(Phase::LandRamp, &cfg), 5000);
    assert_eq!(phase_duration(Phase::VerifyAltitude, &cfg), 1000);
    assert_eq!(phase_duration(Phase::ModeSwitchAndArm, &cfg), 0);
    assert!(!phase_complete(Phase::Hover, &cfg, 4999));
    assert!(phase_complete(Phase::Hover, &cfg, 5000));
    assert!(phase_complete(Phase::Disarm, &cfg, 0));
}

#[test]
fn phase_targets_interpolate_only_z() {
    let cfg = standard_config();
    let start = SetpointTarget {
        x_mm: 500,
        y_mm: -500,
        z_mm: -100,
        yaw_mrad: 0,
    };
    assert_eq!(phase_target(Phase::PreStreamHold, &cfg, &start, 1234), Some(start));
    let mid_climb = phase_target(Phase::TakeoffRamp, &cfg, &start, 1500).unwrap();
    assert_eq!((mid_climb.x_mm, mid_climb.y_mm, mid_climb.yaw_mrad), (500, -500, 0));
    assert_eq!(mid_climb.z_mm, -1100);
    let hover = phase_target(Phase::Hover, &cfg, &start, 0).unwrap();
    assert_eq!(hover.z_mm, -2100);
    let end_land = phase_target(Phase::LandRamp, &cfg, &start, 5000).unwrap();
    assert_eq!(end_land.z_mm, -100);
    assert_eq!(phase_target(Phase::ModeSwitchAndArm, &cfg, &start, 0), None);
    assert_eq!(phase_target(Phase::VerifyAltitude, &cfg, &start, 0), None);
    assert_eq!(phase_target(Phase::Disarm, &cfg, &start, 0), None);
    assert_eq!(phase_target(Phase::Done, &cfg, &start, 0), None);
}
