use mavlink_io::client::{elapsed_ms_u32, ClientState, LOCAL_COMPONENT_ID, LOCAL_SYSTEM_ID};
use mavlink_io::correlator::{
    await_reply, verify_altitude, wait_command_ack, wait_local_position, Query, Reply, WaitOutcome,
};
use mavlink_io::discovery::run_discovery;
use mavlink_io::msg::{Ack, Attitude, Header, InboundMsg, Msg, Position, TimedMsg};
use mavlink_io::ClientError;

fn hdr(sys: u8, comp: u8) -> Header {
    Header {
        system_id: sys,
        component_id: comp,
    }
}

fn inbound(sys: u8, comp: u8, msg: Msg) -> InboundMsg {
    InboundMsg {
        header: hdr(sys, comp),
        msg,
    }
}

fn timed(at_ms: u64, msg: Msg) -> TimedMsg {
    TimedMsg {
        at_ms,
        inbound: inbound(1, 1, msg),
    }
}

fn pos(x: i32, y: i32, z: i32) -> Position {
    Position {
        x_mm: x,
        y_mm: y,
        z_mm: z,
        vx_mmps: 0,
        vy_mmps: 0,
        vz_mmps: 0,
    }
}

#[test]
fn client_state_starts_undiscovered() {
    let st = ClientState::new();
    assert_eq!(st.system_id, LOCAL_SYSTEM_ID);
    assert_eq!(st.component_id, LOCAL_COMPONENT_ID);
    assert_eq!(st.sequence, 0);
    assert_eq!(st.target_sys, 0);
    assert_eq!(st.target_comp, 0);
    assert_eq!(st.ensure_target(), Err(ClientError::UnknownTarget));
}

#[test]
fn sequence_counter_wraps() {
    let mut st = ClientState::new();
    assert_eq!(st.advance_sequence(), 1);
    assert_eq!(st.advance_sequence(), 2);
    st.sequence = 255;
    assert_eq!(st.advance_sequence(), 0);
    assert_eq!(st.sequence, 0);
}

#[test]
fn elapsed_time_field_wraps_past_49_days() {
    assert_eq!(elapsed_ms_u32(0), 0);
    assert_eq!(elapsed_ms_u32(123_456), 123_456);
    assert_eq!(elapsed_ms_u32(0x1_0000_0000), 0);
    assert_eq!(elapsed_ms_u32(0x1_0000_0005), 5);
}

#[test]
fn discovery_skips_to_first_heartbeat() {
    let mut st = ClientState::new();
    let msgs = vec![
        inbound(7, 7, Msg::Attitude(Attitude { roll_mrad: 1, pitch_mrad: 2, yaw_mrad: 3 })),
        inbound(7, 7, Msg::Other),
        inbound(1, 1, Msg::Heartbeat),
        inbound(2, 2, Msg::Heartbeat),
    ];
    let d = run_discovery(&mut st, &msgs).expect("heartbeat present");
    assert_eq!(d.consumed, 3);
    assert_eq!(d.identity, hdr(1, 1));
    assert_eq!(st.target_sys, 1);
    assert_eq!(st.target_comp, 1);
    assert!(st.ensure_target().is_ok());
}

#[test]
fn discovery_without_heartbeat_changes_nothing() {
    let mut st = ClientState::new();
    let msgs = vec![inbound(7, 7, Msg::Other), inbound(7, 7, Msg::LocalPosition(pos(0, 0, 0)))];
    assert!(run_discovery(&mut st, &msgs).is_none());
    assert_eq!(st, ClientState::new());
}

#[test]
fn rediscovery_overwrites_identity() {
    let mut st = ClientState::new();
    let first = vec![inbound(1, 1, Msg::Heartbeat)];
    let second = vec![inbound(9, 4, Msg::Heartbeat)];
    run_discovery(&mut st, &first).unwrap();
    run_discovery(&mut st, &second).unwrap();
    assert_eq!(st.target_sys, 9);
    assert_eq!(st.target_comp, 4);
}

#[test]
fn ack_returned_despite_interleaved_traffic() {
    let events = vec![
        timed(10, Msg::LocalPosition(pos(1, 2, 3))),
        timed(20, Msg::Heartbeat),
        timed(30, Msg::CommandAck(Ack { command: 176, result: 0 })),
        timed(40, Msg::CommandAck(Ack { command: 400, result: 0 })),
    ];
    let ack = wait_command_ack(400, &events, 0, 1000).expect("matching ack arrives");
    assert_eq!(ack.command, 400);
    assert_eq!(ack.result, 0);
}

#[test]
fn rejected_ack_is_still_returned() {
    let events = vec![timed(5, Msg::CommandAck(Ack { command: 400, result: 4 }))];
    let ack = wait_command_ack(400, &events, 0, 1000).expect("a refusal is a valid outcome");
    assert_eq!(ack.result, 4);
}

#[test]
fn mock_peer_scenario_discards_wrong_code_then_returns_real_ack() {
    let mut st = ClientState::new();
    let hb = vec![inbound(1, 1, Msg::Heartbeat)];
    let d = run_discovery(&mut st, &hb).unwrap();
    assert_eq!(d.identity, hdr(1, 1));
    let events = vec![
        timed(10, Msg::CommandAck(Ack { command: 401, result: 0 })),
        timed(20, Msg::CommandAck(Ack { command: 400, result: 0 })),
    ];
    let ack = wait_command_ack(400, &events, 0, 3000).expect("real ack returned");
    assert_eq!((ack.command, ack.result), (400, 0));
}

#[test]
fn ack_wait_times_out_without_match() {
    let events = vec![
        timed(100, Msg::Heartbeat),
        timed(600, Msg::LocalPosition(pos(0, 0, 0))),
        timed(700, Msg::CommandAck(Ack { command: 400, result: 0 })),
    ];
    // The clock passes the 500 ms deadline after the second message; the
    // matching ack at 700 ms is never consumed.
    assert_eq!(wait_command_ack(400, &events, 0, 500), Err(ClientError::Timeout));
    let r = await_reply(Query::AckFor(400), &events, 0, 500);
    assert_eq!(r.outcome, WaitOutcome::TimedOut);
    assert_eq!(r.consumed, 2);
}

#[test]
fn ack_wait_reports_transport_error_on_closed_channel() {
    let events = vec![timed(10, Msg::Heartbeat)];
    assert_eq!(wait_command_ack(400, &events, 0, 1000), Err(ClientError::Transport));
}

#[test]
fn slow_receive_overshoots_deadline_by_one_message() {
    // One message arrives after the deadline: the loop only notices once the
    // blocking receive returns, so exactly that one message is consumed.
    let events = vec![
        timed(900, Msg::Heartbeat),
        timed(950, Msg::CommandAck(Ack { command: 400, result: 0 })),
    ];
    let r = await_reply(Query::AckFor(400), &events, 800, 50);
    assert_eq!(r.outcome, WaitOutcome::TimedOut);
    assert_eq!(r.consumed, 1);
}

#[test]
fn position_wait_returns_first_sample() {
    let events = vec![
        timed(10, Msg::Other),
        timed(20, Msg::LocalPosition(pos(100, 200, -300))),
        timed(30, Msg::LocalPosition(pos(1, 1, 1))),
    ];
    let p = wait_local_position(&events, 0, 5000).expect("sample arrives");
    assert_eq!(p, pos(100, 200, -300));
}

#[test]
fn position_wait_times_out() {
    let events = vec![timed(6000, Msg::Other)];
    assert_eq!(wait_local_position(&events, 0, 5000), Err(ClientError::Timeout));
}

#[test]
fn altitude_verification_accepts_within_tolerance() {
    let events = vec![
        timed(10, Msg::LocalPosition(pos(0, 0, -900))),
        timed(20, Msg::LocalPosition(pos(0, 0, -1700))),
    ];
    // Target -2000 mm, tolerance 500 mm: -900 is out, -1700 is in.
    assert_eq!(verify_altitude(&events, 0, 1000, -2000, 500), Ok(true));
    let r = await_reply(
        Query::PositionWithin { z_mm: -2000, tol_mm: 500 },
        &events,
        0,
        1000,
    );
    assert_eq!(r.consumed, 2);
    match r.outcome {
        WaitOutcome::Got(Reply::Sampled(p)) => assert_eq!(p.z_mm, -1700),
        other => panic!("unexpected outcome {:?}", other),
    }
}

#[test]
fn altitude_verification_misses_without_error() {
    let events = vec![
        timed(10, Msg::LocalPosition(pos(0, 0, -900))),
        timed(1100, Msg::LocalPosition(pos(0, 0, -900))),
        timed(1200, Msg::LocalPosition(pos(0, 0, -2000))),
    ];
    // The second off-target sample carries the clock past the deadline; the
    // matching sample after it is never consumed.
    assert_eq!(verify_altitude(&events, 0, 1000, -2000, 500), Ok(false));
}

#[test]
fn altitude_verification_tolerance_is_strict() {
    // A sample exactly on the tolerance edge does not verify; the filler
    // sample then carries the clock past the deadline.
    let exactly_on_edge = vec![
        timed(10, Msg::LocalPosition(pos(0, 0, -1500))),
        timed(1100, Msg::Other),
    ];
    assert_eq!(verify_altitude(&exactly_on_edge, 0, 1000, -2000, 500), Ok(false));
    // One millimetre inside the band verifies.
    let just_inside = vec![timed(10, Msg::LocalPosition(pos(0, 0, -1501)))];
    assert_eq!(verify_altitude(&just_inside, 0, 1000, -2000, 500), Ok(true));
}
