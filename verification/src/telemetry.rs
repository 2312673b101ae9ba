//! Telemetry cache: the most recently observed attitude and position
//! samples, overwritten in place on every matching inbound message and read
//! back by the sequencer for start-position capture. No history is kept.

use vstd::prelude::*;
use crate::msg::{Attitude, Msg, Position};

verus! {

/// Last-known samples, each independently absent until first observed.
#[derive(Clone, Copy, Debug, PartialEq, Eq, Structural)]
pub struct TelemetryCache {
    pub attitude: Option<Attitude>,
    pub position: Option<Position>,
}

/// The cache after absorbing one inbound message: an attitude sample
/// overwrites the attitude slot, a position sample the position slot, and
/// every other kind leaves the cache untouched.
pub open spec fn cache_after(c: TelemetryCache, m: Msg) -> TelemetryCache {
    match m {
        Msg::Attitude(a) => TelemetryCache { attitude: Some(a), position: c.position },
        Msg::LocalPosition(p) => TelemetryCache { attitude: c.attitude, position: Some(p) },
        _ => c,
    }
}

/// The cache after absorbing a sequence of messages in order.
pub open spec fn cache_after_all(c: TelemetryCache, msgs: Seq<Msg>) -> TelemetryCache
    decreases msgs.len(),
{
    if msgs.len() == 0 {
        c
    } else {
        cache_after_all(cache_after(c, msgs[0]), msgs.drop_first())
    }
}

impl TelemetryCache {
    /// An empty cache: nothing observed yet.
    pub fn new() -> (c: TelemetryCache)
        ensures
            c.attitude is None,
            c.position is None,
    {
        TelemetryCache { attitude: None, position: None }
    }

    /// Absorb one inbound message.
    pub fn update(&mut self, m: &Msg)
        ensures
            *final(self) == cache_after(*old(self), *m),
    {
        match m {
            Msg::Attitude(a) => {
                self.attitude = Some(*a);
            },
            Msg::LocalPosition(p) => {
                self.position = Some(*p);
            },
            _ => {},
        }
    }

    /// Absorb a batch of inbound messages in order.
    pub fn update_all(&mut self, msgs: &Vec<Msg>)
        ensures
            *final(self) == cache_after_all(*old(self), msgs@),
    {
        let mut i: usize = 0;
        proof {
            assert(msgs@.skip(0) =~= msgs@);
        }
        while i < msgs.len()
            invariant
                i <= msgs.len(),
                cache_after_all(*old(self), msgs@) == cache_after_all(*self, msgs@.skip(i as int)),
            decreases msgs.len() - i,
        {
            proof {
                assert(msgs@.skip(i as int)[0] == msgs@[i as int]);
                assert(msgs@.skip(i as int).drop_first() =~= msgs@.skip(i as int + 1));
            }
            self.update(&msgs[i]);
            i = i + 1;
        }
    }
}

/// Law: the cache reflects only the most recent sample per kind. Feeding two
/// position samples and one attitude sample leaves the second position and
/// the attitude cached, whether the attitude arrives after both positions or
/// between them.
pub proof fn lemma_cache_latest_per_kind(c: TelemetryCache, p1: Position, p2: Position, a: Attitude)
    ensures
        cache_after_all(c, seq![Msg::LocalPosition(p1), Msg::LocalPosition(p2), Msg::Attitude(a)])
            == (TelemetryCache { attitude: Some(a), position: Some(p2) }),
        cache_after_all(c, seq![Msg::LocalPosition(p1), Msg::Attitude(a), Msg::LocalPosition(p2)])
            == (TelemetryCache { attitude: Some(a), position: Some(p2) }),
{
    let s1 = seq![Msg::LocalPosition(p1), Msg::LocalPosition(p2), Msg::Attitude(a)];
    let s2 = seq![Msg::LocalPosition(p1), Msg::Attitude(a), Msg::LocalPosition(p2)];
    let c1 = cache_after(c, Msg::LocalPosition(p1));
    let c12 = cache_after(c1, Msg::LocalPosition(p2));
    let c12a = cache_after(c12, Msg::Attitude(a));
    assert(s1.drop_first().drop_first().drop_first().len() == 0);
    assert(s1[0] == Msg::LocalPosition(p1));
    assert(s1.drop_first()[0] == Msg::LocalPosition(p2));
    assert(s1.drop_first().drop_first()[0] == Msg::Attitude(a));
    assert(cache_after_all(c12a, s1.drop_first().drop_first().drop_first()) == c12a);
    assert(cache_after_all(c12, s1.drop_first().drop_first()) == c12a);
    assert(cache_after_all(c1, s1.drop_first()) == c12a);
    assert(cache_after_all(c, s1) == c12a);
    let c1a = cache_after(c1, Msg::Attitude(a));
    let c1a2 = cache_after(c1a, Msg::LocalPosition(p2));
    assert(s2.drop_first().drop_first().drop_first().len() == 0);
    assert(s2[0] == Msg::LocalPosition(p1));
    assert(s2.drop_first()[0] == Msg::Attitude(a));
    assert(s2.drop_first().drop_first()[0] == Msg::LocalPosition(p2));
    assert(cache_after_all(c1a2, s2.drop_first().drop_first().drop_first()) == c1a2);
    assert(cache_after_all(c1a, s2.drop_first().drop_first()) == c1a2);
    assert(cache_after_all(c1, s2.drop_first()) == c1a2);
    assert(cache_after_all(c, s2) == c1a2);
}

} // verus!
