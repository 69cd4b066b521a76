//! The shard session supervisor.
//!
//! Owns exactly one session per shard of the assigned range and steps each
//! independently. Sessions share no mutable state: stepping one leaves every
//! other exactly as it was, so a reconnecting shard never disturbs its
//! neighbours. On shutdown every session is signalled to `Closed`, releasing
//! its transport; the shutdown is a graceful drain, in shard order.

use vstd::prelude::*;

verus! {

use crate::partition::FleetTopology;
use crate::partition::ShardRange;
use crate::partition::bucket_size;
use crate::partition::lemma_range_bounds;
use crate::partition::range_low;
use crate::session::BackoffPolicy;
use crate::session::LifecycleState;
use crate::session::SessionAction;
use crate::session::SessionEvent;
use crate::session::ShardSession;
use crate::session::spec_fresh_session;
use crate::session::spec_step;

/// One supervisor per process: the exclusive owner of this process's shard
/// sessions.
pub struct Supervisor {
    sessions: Vec<ShardSession>,
}

impl Supervisor {
    /// The sessions, in shard order.
    pub closed spec fn sessions_view(&self) -> Seq<ShardSession> {
        self.sessions@
    }

    /// Every session carries a valid backoff policy.
    pub open spec fn wf(&self) -> bool {
        forall|i: int|
            0 <= i < self.sessions_view().len() ==> (
            #[trigger] self.sessions_view()[i]).backoff.valid()
    }

    /// Start a supervisor for the owned range: one fresh `Connecting`
    /// session per shard, in shard order. An empty range (no shards owned)
    /// starts no sessions.
    pub fn new(range: Option<ShardRange>, backoff: BackoffPolicy) -> (s: Supervisor)
        requires
            backoff.valid(),
            range matches Some(r) ==> r.low <= r.high && r.high - r.low < usize::MAX,
        ensures
            s.wf(),
            match range {
                Option::None => s.sessions_view().len() == 0,
                Option::Some(r) => {
                    &&& s.sessions_view().len() == r.high - r.low + 1
                    &&& forall|i: int|
                        0 <= i < s.sessions_view().len() ==> #[trigger] s.sessions_view()[i]
                            == spec_fresh_session((r.low + i) as u64, backoff)
                },
            },
    {
        let mut sessions: Vec<ShardSession> = Vec::new();
        match range {
            Option::None => Supervisor { sessions },
            Option::Some(r) => {
                let n = r.high - r.low + 1;
                let mut k: u64 = 0;
                while k < n
                    invariant
                        backoff.valid(),
                        k <= n,
                        n == r.high - r.low + 1,
                        r.low + n - 1 <= u64::MAX,
                        sessions@.len() == k,
                        forall|i: int|
                            0 <= i < k ==> #[trigger] sessions@[i] == spec_fresh_session(
                                (r.low + i) as u64,
                                backoff,
                            ),
                    decreases n - k,
                {
                    sessions.push(ShardSession::new(r.low + k, backoff));
                    k = k + 1;
                }
                Supervisor { sessions }
            },
        }
    }

    /// Start the supervisor a topology calls for: one fresh session per
    /// owned shard — `bucket_size` many, identities rising from the owned
    /// range's low end.
    pub fn for_topology(t: &FleetTopology, backoff: BackoffPolicy) -> (s: Supervisor)
        requires
            t.valid(),
            backoff.valid(),
            t.total_shards <= usize::MAX,
        ensures
            s.wf(),
            s.sessions_view().len() == bucket_size(
                t.manager_ordinal as int,
                t.manager_count as int,
                t.total_shards as int,
            ),
            forall|i: int|
                0 <= i < s.sessions_view().len() ==> #[trigger] s.sessions_view()[i]
                    == spec_fresh_session(
                    (range_low(
                        t.manager_ordinal as int,
                        t.manager_count as int,
                        t.total_shards as int,
                    ) + i) as u64,
                    backoff,
                ),
    {
        proof {
            lemma_range_bounds(
                t.manager_ordinal as int,
                t.manager_count as int,
                t.total_shards as int,
            );
        }
        let range = t.owned_range();
        Supervisor::new(range, backoff)
    }

    /// How many sessions this supervisor owns.
    pub fn session_count(&self) -> (n: usize)
        ensures
            n == self.sessions_view().len(),
    {
        self.sessions.len()
    }

    /// A read-only copy of the session at `idx`.
    pub fn session_at(&self, idx: usize) -> (s: ShardSession)
        requires
            idx < self.sessions_view().len(),
        ensures
            s == self.sessions_view()[idx as int],
    {
        self.sessions[idx]
    }

    /// Step the session at `idx` with one event and return the action its
    /// runner must perform. Every other session is untouched: per-shard
    /// order is the only order there is.
    pub fn step_shard(&mut self, idx: usize, event: SessionEvent, now: u64) -> (a: SessionAction)
        requires
            old(self).wf(),
            idx < old(self).sessions_view().len(),
        ensures
            final(self).wf(),
            final(self).sessions_view().len() == old(self).sessions_view().len(),
            (final(self).sessions_view()[idx as int], a) == spec_step(
                old(self).sessions_view()[idx as int],
                event,
                now,
            ),
            forall|j: int|
                0 <= j < old(self).sessions_view().len() && j != idx
                    ==> final(self).sessions_view()[j] == old(self).sessions_view()[j],
    {
        self.sessions[idx].step(event, now)
    }

    /// Graceful drain: signal every session, in shard order, to `Closed`,
    /// releasing its transport. Identities and counters survive for the
    /// record; a session already closed stays exactly as it was.
    pub fn shutdown_all(&mut self)
        requires
            old(self).wf(),
        ensures
            final(self).wf(),
            final(self).sessions_view().len() == old(self).sessions_view().len(),
            forall|i: int|
                0 <= i < old(self).sessions_view().len()
                    ==> #[trigger] final(self).sessions_view()[i] == spec_step(
                    old(self).sessions_view()[i],
                    SessionEvent::ShutdownRequested,
                    0,
                ).0,
            forall|i: int|
                0 <= i < old(self).sessions_view().len()
                    ==> (#[trigger] final(self).sessions_view()[i]).state
                        == LifecycleState::Closed,
    {
        let n = self.sessions.len();
        let mut i: usize = 0;
        while i < n
            invariant
                self.wf(),
                i <= n,
                n == old(self).sessions_view().len(),
                self.sessions_view().len() == n,
                forall|j: int|
                    0 <= j < i ==> #[trigger] self.sessions_view()[j] == spec_step(
                        old(self).sessions_view()[j],
                        SessionEvent::ShutdownRequested,
                        0,
                    ).0,
                forall|j: int|
                    i <= j < n ==> #[trigger] self.sessions_view()[j]
                        == old(self).sessions_view()[j],
            decreases n - i,
        {
            let _ = self.step_shard(i, SessionEvent::ShutdownRequested, 0);
            i = i + 1;
        }
        proof {
            assert forall|i_: int|
                0 <= i_ < old(self).sessions_view().len() implies (
            #[trigger] self.sessions_view()[i_]).state == LifecycleState::Closed by {
                assert(self.sessions_view()[i_] == spec_step(
                    old(self).sessions_view()[i_],
                    SessionEvent::ShutdownRequested,
                    0,
                ).0);
            }
        }
    }
}

} // verus!
