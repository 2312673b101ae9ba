//! Target discovery: scan inbound traffic for the first heartbeat-class
//! message, record its sender as the remote identity, and report how many
//! messages were consumed. Every non-heartbeat message is discarded.

use vstd::prelude::*;
use crate::msg::{Header, InboundMsg, Msg};
use crate::client::ClientState;

verus! {

/// True of the message kinds that announce an endpoint's presence.
pub open spec fn is_heartbeat(m: Msg) -> bool {
    m is Heartbeat
}

/// What a scan of a message sequence yields: the number of messages a
/// blocking discovery loop consumes (one past the first heartbeat) and the
/// heartbeat's sender, or `None` when the sequence holds no heartbeat.
pub open spec fn discovery_result(msgs: Seq<InboundMsg>) -> Option<(int, Header)>
    decreases msgs.len(),
{
    if msgs.len() == 0 {
        None
    } else if is_heartbeat(msgs[0].msg) {
        Some((1, msgs[0].header))
    } else {
        match discovery_result(msgs.drop_first()) {
            None => None,
            Some((c, h)) => Some((c + 1, h)),
        }
    }
}

/// A heartbeat at position `k` with none before it is found by the scan,
/// which consumes exactly `k + 1` messages.
proof fn lemma_discovery_first(msgs: Seq<InboundMsg>, k: int)
    requires
        0 <= k < msgs.len(),
        is_heartbeat(msgs[k].msg),
        forall|j: int| 0 <= j < k ==> !is_heartbeat(msgs[j].msg),
    ensures
        discovery_result(msgs) == Some((k + 1, msgs[k].header)),
    decreases k,
{
    if k > 0 {
        lemma_discovery_first(msgs.drop_first(), k - 1);
    }
}

/// A sequence without a heartbeat yields nothing.
proof fn lemma_discovery_none(msgs: Seq<InboundMsg>)
    requires
        forall|j: int| 0 <= j < msgs.len() ==> !is_heartbeat(msgs[j].msg),
    ensures
        discovery_result(msgs) is None,
    decreases msgs.len(),
{
    if msgs.len() > 0 {
        lemma_discovery_none(msgs.drop_first());
    }
}

/// Law: in a message sequence holding exactly one heartbeat, at position `k`,
/// discovery consumes exactly `k + 1` messages and records that heartbeat's
/// sender identity.
pub proof fn lemma_discovery_unique_heartbeat(msgs: Seq<InboundMsg>, k: int)
    requires
        0 <= k < msgs.len(),
        is_heartbeat(msgs[k].msg),
        forall|j: int| 0 <= j < msgs.len() && j != k ==> !is_heartbeat(msgs[j].msg),
    ensures
        discovery_result(msgs) == Some((k + 1, msgs[k].header)),
{
    lemma_discovery_first(msgs, k);
}

/// What `run_discovery` reports on success.
#[derive(Clone, Copy, Debug, PartialEq, Eq, Structural)]
pub struct DiscoverOutcome {
    /// Messages consumed: one past the position of the first heartbeat.
    pub consumed: usize,
    /// The heartbeat sender, now recorded in the session state.
    pub identity: Header,
}

/// Walk inbound messages in order until the first heartbeat, record its
/// sender into the session state, and report the sender and how many
/// messages were consumed. When no heartbeat occurs the state is unchanged;
/// a live peer sends heartbeats periodically, so a blocking loop over a real
/// channel ends only by finding one.
pub fn run_discovery(st: &mut ClientState, msgs: &Vec<InboundMsg>) -> (r: Option<DiscoverOutcome>)
    ensures
        match r {
            Some(d) => {
                &&& discovery_result(msgs@) == Some((d.consumed as int, d.identity))
                &&& final(st).target_sys == d.identity.system_id
                &&& final(st).target_comp == d.identity.component_id
                &&& final(st).system_id == old(st).system_id
                &&& final(st).component_id == old(st).component_id
                &&& final(st).sequence == old(st).sequence
            },
            None => {
                &&& discovery_result(msgs@) is None
                &&& *final(st) == *old(st)
            },
        },
{
    let mut i: usize = 0;
    while i < msgs.len()
        invariant
            i <= msgs.len(),
            forall|j: int| 0 <= j < i ==> !is_heartbeat(msgs@[j].msg),
            *st == *old(st),
        decreases msgs.len() - i,
    {
        let m = msgs[i];
        if matches!(m.msg, Msg::Heartbeat) {
            proof {
                lemma_discovery_first(msgs@, i as int);
            }
            st.record_heartbeat(m.header);
            return Some(DiscoverOutcome { consumed: i + 1, identity: m.header });
        }
        i += 1;
    }
    proof {
        lemma_discovery_none(msgs@);
    }
    None
}

} // verus!
