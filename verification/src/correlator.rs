//! Deadline-bounded wait loops over inbound traffic: command/acknowledgement
//! correlation, waiting for the first position sample, and the altitude
//! verification scan. All three share one engine: consume messages in order,
//! discard everything that does not match the query, stop at the first match
//! or once the clock (read between messages) passes the deadline.
//!
//! An acknowledgement is correlated to a command solely by command code (the
//! protocol has no request id), so at most one command of a given code may be
//! awaiting acknowledgement at a time; a second in-flight send of the same
//! code risks accepting the wrong reply.

use vstd::prelude::*;
use crate::msg::{Ack, Msg, Position, TimedMsg};
use crate::ClientError;

verus! {

/// What a wait loop is looking for among inbound traffic.
#[derive(Clone, Copy, Debug, PartialEq, Eq, Structural)]
pub enum Query {
    /// An acknowledgement whose command code equals the sent command's code,
    /// whatever its result code.
    AckFor(u16),
    /// Any local-position sample.
    AnyPosition,
    /// A local-position sample whose z is strictly within `tol_mm` of `z_mm`.
    PositionWithin { z_mm: i32, tol_mm: i32 },
}

/// The payload a successful wait hands back.
#[derive(Clone, Copy, Debug, PartialEq, Eq, Structural)]
pub enum Reply {
    Acked(Ack),
    Sampled(Position),
}

/// Whether one inbound message resolves the query.
pub open spec fn query_matches(q: Query, m: Msg) -> bool {
    match q {
        Query::AckFor(code) => m matches Msg::CommandAck(a) && a.command == code,
        Query::AnyPosition => m is LocalPosition,
        Query::PositionWithin { z_mm, tol_mm } => m matches Msg::LocalPosition(p)
            && -(tol_mm as int) < p.z_mm - z_mm < tol_mm as int,
    }
}

/// The payload carried by a matching message.
pub open spec fn reply_of(q: Query, m: Msg) -> Reply
    recommends
        query_matches(q, m),
{
    match m {
        Msg::CommandAck(a) => Reply::Acked(a),
        Msg::LocalPosition(p) => Reply::Sampled(p),
        _ => arbitrary(),
    }
}

/// How a wait over a finite trace of timed messages ends.
#[derive(Clone, Copy, Debug, PartialEq, Eq, Structural)]
pub enum WaitOutcome {
    /// A matching message arrived before the deadline.
    Got(Reply),
    /// The clock passed the deadline before any match.
    TimedOut,
    /// The trace ran out before a match or the deadline: over a real channel
    /// the next blocking receive would not return, or the channel broke.
    Closed,
}

/// A wait outcome together with how many messages the loop consumed.
#[derive(Clone, Copy, Debug, PartialEq, Eq, Structural)]
pub struct WaitResult {
    pub outcome: WaitOutcome,
    pub consumed: usize,
}

/// The outcome of the wait loop on a trace: `now` is the clock reading after
/// the most recently consumed message (the deadline is tested only there,
/// between messages, so one slow receive can overshoot the nominal deadline).
pub open spec fn wait_outcome(q: Query, events: Seq<TimedMsg>, now: u64, deadline: u64) -> WaitOutcome
    decreases events.len(),
{
    if now >= deadline {
        WaitOutcome::TimedOut
    } else if events.len() == 0 {
        WaitOutcome::Closed
    } else if query_matches(q, events[0].inbound.msg) {
        WaitOutcome::Got(reply_of(q, events[0].inbound.msg))
    } else {
        wait_outcome(q, events.drop_first(), events[0].at_ms, deadline)
    }
}

/// How many messages the wait loop consumes on a trace.
pub open spec fn wait_consumed(q: Query, events: Seq<TimedMsg>, now: u64, deadline: u64) -> nat
    decreases events.len(),
{
    if now >= deadline {
        0
    } else if events.len() == 0 {
        0
    } else if query_matches(q, events[0].inbound.msg) {
        1
    } else {
        1 + wait_consumed(q, events.drop_first(), events[0].at_ms, deadline)
    }
}

/// The clock reading the loop sees just before consuming message `j`: the
/// start of the wait for `j == 0`, afterwards the arrival time of the
/// previous message.
pub open spec fn time_before(events: Seq<TimedMsg>, start: u64, j: int) -> u64 {
    if j == 0 {
        start
    } else {
        events[j - 1].at_ms
    }
}

/// Law: a matching message at position `k`, with no earlier match and every
/// clock reading up to it still before the deadline, is returned, however
/// many non-matching messages precede it; exactly `k + 1` messages are
/// consumed.
pub proof fn lemma_wait_reaches_first_match(q: Query, events: Seq<TimedMsg>, now: u64, deadline: u64, k: int)
    requires
        0 <= k < events.len(),
        query_matches(q, events[k].inbound.msg),
        forall|j: int| 0 <= j < k ==> !query_matches(q, events[j].inbound.msg),
        forall|j: int| 0 <= j <= k ==> time_before(events, now, j) < deadline,
    ensures
        wait_outcome(q, events, now, deadline) == WaitOutcome::Got(reply_of(q, events[k].inbound.msg)),
        wait_consumed(q, events, now, deadline) == k + 1,
    decreases k,
{
    assert(time_before(events, now, 0) == now);
    if k > 0 {
        assert(!query_matches(q, events[0].inbound.msg));
        let rest = events.drop_first();
        assert forall|j: int| 0 <= j <= k - 1 implies time_before(rest, events[0].at_ms, j) < deadline by {
            assert(time_before(events, now, j + 1) < deadline);
        }
        lemma_wait_reaches_first_match(q, rest, events[0].at_ms, deadline, k - 1);
    }
}

/// Law: when no matching message is consumed before the clock passes the
/// deadline, the wait times out; it consumes exactly the messages whose
/// preceding clock reading was before the deadline (`j0` of them), so it
/// overshoots the deadline by at most one receive.
pub proof fn lemma_wait_times_out(q: Query, events: Seq<TimedMsg>, now: u64, deadline: u64, j0: int)
    requires
        0 <= j0 <= events.len(),
        time_before(events, now, j0) >= deadline,
        forall|j: int| 0 <= j < j0 ==> time_before(events, now, j) < deadline,
        forall|j: int| 0 <= j < j0 ==> !query_matches(q, events[j].inbound.msg),
    ensures
        wait_outcome(q, events, now, deadline) == WaitOutcome::TimedOut,
        wait_consumed(q, events, now, deadline) == j0,
    decreases j0,
{
    if j0 == 0 {
        assert(now >= deadline);
    } else {
        assert(time_before(events, now, 0) < deadline);
        assert(!query_matches(q, events[0].inbound.msg));
        let rest = events.drop_first();
        assert forall|j: int| 0 <= j < j0 - 1 implies time_before(rest, events[0].at_ms, j) < deadline
            && !query_matches(q, rest[j].inbound.msg) by {
            assert(time_before(events, now, j + 1) < deadline);
            assert(rest[j] == events[j + 1]);
        }
        assert(time_before(rest, events[0].at_ms, j0 - 1) >= deadline) by {
            if j0 - 1 == 0 {
                assert(time_before(events, now, 1) >= deadline);
            } else {
                assert(rest[j0 - 2] == events[j0 - 1]);
            }
        }
        lemma_wait_times_out(q, rest, events[0].at_ms, deadline, j0 - 1);
    }
}

/// Law: a command followed eventually by an acknowledgement with matching
/// code gets exactly that acknowledgement back, however many non-matching
/// messages precede it and whatever its result code says — acceptance and
/// refusal are returned alike.
pub proof fn lemma_ack_correlation(command: u16, events: Seq<TimedMsg>, now: u64, deadline: u64, k: int, a: Ack)
    requires
        0 <= k < events.len(),
        events[k].inbound.msg == Msg::CommandAck(a),
        a.command == command,
        forall|j: int| 0 <= j < k ==> !query_matches(Query::AckFor(command), events[j].inbound.msg),
        forall|j: int| 0 <= j <= k ==> time_before(events, now, j) < deadline,
    ensures
        wait_outcome(Query::AckFor(command), events, now, deadline) == WaitOutcome::Got(Reply::Acked(a)),
        wait_consumed(Query::AckFor(command), events, now, deadline) == k + 1,
{
    lemma_wait_reaches_first_match(Query::AckFor(command), events, now, deadline, k);
}

/// An acknowledgement wait only ever yields an acknowledgement, and its
/// command code equals the awaited one.
pub proof fn lemma_ack_reply_shape(command: u16, events: Seq<TimedMsg>, now: u64, deadline: u64)
    ensures
        wait_outcome(Query::AckFor(command), events, now, deadline) matches WaitOutcome::Got(rep)
            ==> rep matches Reply::Acked(a) && a.command == command,
    decreases events.len(),
{
    if now < deadline && events.len() > 0 && !query_matches(Query::AckFor(command), events[0].inbound.msg) {
        lemma_ack_reply_shape(command, events.drop_first(), events[0].at_ms, deadline);
    }
}

/// A position wait only ever yields a position sample.
pub proof fn lemma_position_reply_shape(q: Query, events: Seq<TimedMsg>, now: u64, deadline: u64)
    requires
        q is AnyPosition || q is PositionWithin,
    ensures
        wait_outcome(q, events, now, deadline) matches WaitOutcome::Got(rep) ==> rep is Sampled,
    decreases events.len(),
{
    if now < deadline && events.len() > 0 && !query_matches(q, events[0].inbound.msg) {
        lemma_position_reply_shape(q, events.drop_first(), events[0].at_ms, deadline);
    }
}

/// Whether one inbound message resolves the query (executable form).
pub fn query_match_exec(q: &Query, m: &Msg) -> (r: bool)
    ensures
        r == query_matches(*q, *m),
{
    match q {
        Query::AckFor(code) => match m {
            Msg::CommandAck(a) => a.command == *code,
            _ => false,
        },
        Query::AnyPosition => matches!(m, Msg::LocalPosition(_)),
        Query::PositionWithin { z_mm, tol_mm } => match m {
            Msg::LocalPosition(p) => {
                let d: i64 = p.z_mm as i64 - *z_mm as i64;
                let t: i64 = *tol_mm as i64;
                -t < d && d < t
            },
            _ => false,
        },
    }
}

/// Consume timed messages in order, discarding every non-matching one, until
/// the first match or until the clock reading taken after a message is at or
/// past `start_ms + timeout_ms`. The deadline is tested only between
/// messages, exactly as a loop around a blocking receive can.
pub fn await_reply(q: Query, events: &Vec<TimedMsg>, start_ms: u64, timeout_ms: u64) -> (r: WaitResult)
    requires
        start_ms + timeout_ms <= u64::MAX,
    ensures
        r.outcome == wait_outcome(q, events@, start_ms, (start_ms + timeout_ms) as u64),
        r.consumed == wait_consumed(q, events@, start_ms, (start_ms + timeout_ms) as u64),
        r.consumed <= events.len(),
{
    let deadline: u64 = start_ms + timeout_ms;
    let mut now: u64 = start_ms;
    let mut i: usize = 0;
    proof {
        assert(events@.skip(0) =~= events@);
    }
    loop
        invariant
            i <= events.len(),
            start_ms + timeout_ms <= u64::MAX,
            deadline == start_ms + timeout_ms,
            wait_outcome(q, events@, start_ms, deadline)
                == wait_outcome(q, events@.skip(i as int), now, deadline),
            wait_consumed(q, events@, start_ms, deadline)
                == i + wait_consumed(q, events@.skip(i as int), now, deadline),
        decreases events.len() - i,
    {
        if now >= deadline {
            return WaitResult { outcome: WaitOutcome::TimedOut, consumed: i };
        }
        if i >= events.len() {
            assert(events@.skip(i as int).len() == 0);
            return WaitResult { outcome: WaitOutcome::Closed, consumed: i };
        }
        let e = events[i];
        proof {
            assert(events@.skip(i as int)[0] == events@[i as int]);
            assert(events@.skip(i as int).drop_first() =~= events@.skip(i as int + 1));
        }
        i = i + 1;
        if query_match_exec(&q, &e.inbound.msg) {
            let rep = match e.inbound.msg {
                Msg::CommandAck(a) => Reply::Acked(a),
                Msg::LocalPosition(p) => Reply::Sampled(p),
                _ => {
                    proof {
                        assert(false);
                    }
                    Reply::Acked(Ack { command: 0, result: 0 })
                },
            };
            return WaitResult { outcome: WaitOutcome::Got(rep), consumed: i };
        }
        now = e.at_ms;
    }
}

/// Wait for the acknowledgement matching a just-sent command: the first
/// acknowledgement with the same command code is returned whatever its result
/// code (a refusal is a valid outcome for the caller to inspect, not an error
/// of this layer); every other message is discarded. Past the deadline the
/// wait fails with `Timeout`; a trace that ends first stands for a channel
/// that broke, `Transport`.
pub fn wait_command_ack(command: u16, events: &Vec<TimedMsg>, start_ms: u64, timeout_ms: u64)
    -> (r: Result<Ack, ClientError>)
    requires
        start_ms + timeout_ms <= u64::MAX,
    ensures
        ({
            let outcome = wait_outcome(Query::AckFor(command), events@, start_ms, (start_ms + timeout_ms) as u64);
            match r {
                Ok(a) => outcome == WaitOutcome::Got(Reply::Acked(a)) && a.command == command,
                Err(ClientError::Timeout) => outcome == WaitOutcome::TimedOut,
                Err(ClientError::Transport) => outcome == WaitOutcome::Closed,
                Err(_) => false,
            }
        }),
{
    proof {
        lemma_ack_reply_shape(command, events@, start_ms, (start_ms + timeout_ms) as u64);
    }
    let r = await_reply(Query::AckFor(command), events, start_ms, timeout_ms);
    match r.outcome {
        WaitOutcome::Got(rep) => match rep {
            Reply::Acked(a) => Ok(a),
            Reply::Sampled(_) => {
                proof {
                    assert(false);
                }
                Err(ClientError::Transport)
            },
        },
        WaitOutcome::TimedOut => Err(ClientError::Timeout),
        WaitOutcome::Closed => Err(ClientError::Transport),
    }
}

/// Wait for the first local-position sample, discarding everything else,
/// under the same deadline discipline as the acknowledgement wait.
pub fn wait_local_position(events: &Vec<TimedMsg>, start_ms: u64, timeout_ms: u64)
    -> (r: Result<Position, ClientError>)
    requires
        start_ms + timeout_ms <= u64::MAX,
    ensures
        ({
            let outcome = wait_outcome(Query::AnyPosition, events@, start_ms, (start_ms + timeout_ms) as u64);
            match r {
                Ok(p) => outcome == WaitOutcome::Got(Reply::Sampled(p)),
                Err(ClientError::Timeout) => outcome == WaitOutcome::TimedOut,
                Err(ClientError::Transport) => outcome == WaitOutcome::Closed,
                Err(_) => false,
            }
        }),
{
    proof {
        lemma_position_reply_shape(Query::AnyPosition, events@, start_ms, (start_ms + timeout_ms) as u64);
    }
    let r = await_reply(Query::AnyPosition, events, start_ms, timeout_ms);
    match r.outcome {
        WaitOutcome::Got(rep) => match rep {
            Reply::Sampled(p) => Ok(p),
            Reply::Acked(_) => {
                proof {
                    assert(false);
                }
                Err(ClientError::Transport)
            },
        },
        WaitOutcome::TimedOut => Err(ClientError::Timeout),
        WaitOutcome::Closed => Err(ClientError::Transport),
    }
}

/// Scan inbound traffic for a bounded time for a position sample whose z is
/// strictly within `tol_mm` of `target_z_mm`. `Ok(true)` when one arrives in
/// time, `Ok(false)` when the deadline passes first (failure to verify is a
/// recorded outcome, not an error); only a broken channel is an error.
pub fn verify_altitude(events: &Vec<TimedMsg>, start_ms: u64, timeout_ms: u64, target_z_mm: i32, tol_mm: i32)
    -> (r: Result<bool, ClientError>)
    requires
        start_ms + timeout_ms <= u64::MAX,
    ensures
        ({
            let outcome = wait_outcome(
                Query::PositionWithin { z_mm: target_z_mm, tol_mm },
                events@,
                start_ms,
                (start_ms + timeout_ms) as u64,
            );
            match r {
                Ok(true) => outcome is Got,
                Ok(false) => outcome == WaitOutcome::TimedOut,
                Err(ClientError::Transport) => outcome == WaitOutcome::Closed,
                Err(_) => false,
            }
        }),
{
    let r = await_reply(Query::PositionWithin { z_mm: target_z_mm, tol_mm }, events, start_ms, timeout_ms);
    match r.outcome {
        WaitOutcome::Got(_) => Ok(true),
        WaitOutcome::TimedOut => Ok(false),
        WaitOutcome::Closed => Err(ClientError::Transport),
    }
}

} // verus!
