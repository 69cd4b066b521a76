//! Per-shard session lifecycle.
//!
//! Each owned shard runs one persistent session against the remote gateway.
//! The session's behaviour is a pure transition function from (state, event)
//! to (next state, action): the runner performs the action — open a
//! transport, drive the handshake, announce liveness, dispatch a command,
//! wait out a backoff delay, close — and feeds the next event back in.
//!
//! Policy choices this module fixes:
//! - Transport and handshake failures are never fatal to the process: they
//!   move the session to `Reconnecting`, and the attempt counter grows by one
//!   per failure (saturating at the machine's limit) and resets to zero on
//!   reaching `Ready`.
//! - The backoff delay starts at the policy's initial delay and doubles per
//!   failed attempt up to the policy's cap; the runner may add jitter on top.
//! - Commands arriving before the session is `Ready` are dropped, not queued.
//! - The liveness announcement (log identity, publish the presence string)
//!   is issued on every arrival in `Ready`, which covers the first per
//!   process; it is best-effort, so no event reports its outcome and its
//!   failure cannot move the state machine.

use vstd::prelude::*;

verus! {

/// Where one shard's session stands in its life.
#[derive(Clone, Copy, PartialEq, Eq, Structural, Debug)]
pub enum LifecycleState {
    /// Opening a transport to the gateway.
    Connecting,
    /// Transport open, handshake in flight.
    Authenticating,
    /// Handshake done; no command processed yet.
    Ready,
    /// Steady state, processing inbound commands.
    Live,
    /// Lost the transport; waiting out a backoff delay.
    Reconnecting,
    /// Shut down on request. Terminal.
    Closed,
}

/// What the runner reports back to the session.
#[derive(Clone, Copy, PartialEq, Eq, Structural, Debug)]
pub enum SessionEvent {
    /// A transport to the gateway is open.
    TransportOpened,
    /// The handshake on the open transport succeeded.
    HandshakeSucceeded,
    /// The handshake failed.
    HandshakeFailed,
    /// An inbound command arrived.
    CommandReceived,
    /// The transport dropped.
    TransportDropped,
    /// The backoff delay has been waited out.
    BackoffElapsed,
    /// The process is shutting down.
    ShutdownRequested,
}

/// What the session asks the runner to do next.
#[derive(Clone, Copy, PartialEq, Eq, Structural, Debug)]
pub enum SessionAction {
    /// Open a transport to the gateway.
    OpenTransport,
    /// Drive the handshake on the open transport.
    Authenticate,
    /// Log the shard's identity and publish the presence string; best
    /// effort, outcome ignored.
    AnnounceLiveness,
    /// Hand the inbound command to the dispatch handler.
    DispatchCommand,
    /// Wait this many time units (plus any jitter the runner adds), then
    /// report `BackoffElapsed`.
    WaitBackoff(u64),
    /// Release the transport.
    CloseTransport,
    /// Nothing to do.
    Ignore,
}

/// Reconnect backoff: delays double from `initial_delay` up to `max_delay`.
#[derive(Clone, Copy, PartialEq, Eq, Structural, Debug)]
pub struct BackoffPolicy {
    pub initial_delay: u64,
    pub max_delay: u64,
}

impl BackoffPolicy {
    /// A policy needs a positive initial delay no larger than its cap.
    pub open spec fn valid(self) -> bool {
        1 <= self.initial_delay <= self.max_delay
    }
}

/// The delay before reconnect attempt number `attempt` (zero-based):
/// `initial` doubled `attempt` times, clamped to `cap`.
pub open spec fn spec_backoff(attempt: nat, initial: int, cap: int) -> int
    decreases attempt,
{
    if attempt == 0 {
        initial
    } else {
        let prev = spec_backoff((attempt - 1) as nat, initial, cap);
        if 2 * prev >= cap {
            cap
        } else {
            2 * prev
        }
    }
}

/// Once the delay reaches the cap it stays there.
proof fn lemma_backoff_at_cap(i: nat, j: nat, initial: int, cap: int)
    requires
        i <= j,
        0 <= cap,
        spec_backoff(i, initial, cap) == cap,
    ensures
        spec_backoff(j, initial, cap) == cap,
    decreases j - i,
{
    if i < j {
        lemma_backoff_at_cap(i, (j - 1) as nat, initial, cap);
    }
}

/// The delay before reconnect attempt number `attempt`, per `policy`.
pub fn backoff_delay(attempt: u64, policy: BackoffPolicy) -> (d: u64)
    requires
        policy.valid(),
    ensures
        d == spec_backoff(attempt as nat, policy.initial_delay as int, policy.max_delay as int),
        policy.initial_delay <= d <= policy.max_delay,
{
    let mut d: u64 = policy.initial_delay;
    let mut i: u64 = 0;
    while i < attempt
        invariant
            policy.valid(),
            i <= attempt,
            d == spec_backoff(i as nat, policy.initial_delay as int, policy.max_delay as int),
            policy.initial_delay <= d <= policy.max_delay,
        decreases attempt - i,
    {
        if d == policy.max_delay {
            proof {
                lemma_backoff_at_cap(
                    i as nat,
                    attempt as nat,
                    policy.initial_delay as int,
                    policy.max_delay as int,
                );
            }
            return d;
        }
        d = if d >= policy.max_delay - d {
            policy.max_delay
        } else {
            2 * d
        };
        i = i + 1;
    }
    d
}

/// One shard's session. Exclusively owned by the supervisor that created it;
/// mutated only through `step`.
#[derive(Clone, Copy, PartialEq, Eq, Structural, Debug)]
pub struct ShardSession {
    /// The shard index this session serves.
    pub shard_id: u64,
    /// Where the session stands.
    pub state: LifecycleState,
    /// Failed connection attempts since the last time the session was
    /// `Ready`.
    pub reconnect_attempt_count: u64,
    /// Whether the session has ever completed a handshake.
    pub ever_ready: bool,
    /// When it last did (runner-supplied clock); meaningful only when
    /// `ever_ready`.
    pub last_ready_at: u64,
    /// The reconnect backoff this session applies.
    pub backoff: BackoffPolicy,
}

/// One more failed attempt; the count saturates rather than wrap.
pub open spec fn spec_bump(n: u64) -> u64 {
    if n == u64::MAX {
        n
    } else {
        (n + 1) as u64
    }
}

/// The transition on a lost transport or failed handshake: count the failed
/// attempt and wait out the backoff delay for the attempt just failed.
pub open spec fn spec_reconnect(s: ShardSession) -> (ShardSession, SessionAction) {
    (
        ShardSession {
            state: LifecycleState::Reconnecting,
            reconnect_attempt_count: spec_bump(s.reconnect_attempt_count),
            ..s
        },
        SessionAction::WaitBackoff(
            spec_backoff(
                s.reconnect_attempt_count as nat,
                s.backoff.initial_delay as int,
                s.backoff.max_delay as int,
            ) as u64,
        ),
    )
}

/// The whole lifecycle: what one event does to one session, and what the
/// runner must do next. Events that make no sense in the current state are
/// ignored; in particular a command arriving before `Ready` is dropped.
pub open spec fn spec_step(s: ShardSession, event: SessionEvent, now: u64) -> (
    ShardSession,
    SessionAction,
) {
    if s.state == LifecycleState::Closed {
        (s, SessionAction::Ignore)
    } else if event == SessionEvent::ShutdownRequested {
        (ShardSession { state: LifecycleState::Closed, ..s }, SessionAction::CloseTransport)
    } else {
        match s.state {
            LifecycleState::Connecting => match event {
                SessionEvent::TransportOpened => (
                    ShardSession { state: LifecycleState::Authenticating, ..s },
                    SessionAction::Authenticate,
                ),
                SessionEvent::HandshakeFailed => spec_reconnect(s),
                SessionEvent::TransportDropped => spec_reconnect(s),
                _ => (s, SessionAction::Ignore),
            },
            LifecycleState::Authenticating => match event {
                SessionEvent::HandshakeSucceeded => (
                    ShardSession {
                        state: LifecycleState::Ready,
                        reconnect_attempt_count: 0,
                        ever_ready: true,
                        last_ready_at: now,
                        ..s
                    },
                    SessionAction::AnnounceLiveness,
                ),
                SessionEvent::HandshakeFailed => spec_reconnect(s),
                SessionEvent::TransportDropped => spec_reconnect(s),
                _ => (s, SessionAction::Ignore),
            },
            LifecycleState::Ready => match event {
                SessionEvent::CommandReceived => (
                    ShardSession { state: LifecycleState::Live, ..s },
                    SessionAction::DispatchCommand,
                ),
                SessionEvent::TransportDropped => spec_reconnect(s),
                _ => (s, SessionAction::Ignore),
            },
            LifecycleState::Live => match event {
                SessionEvent::CommandReceived => (s, SessionAction::DispatchCommand),
                SessionEvent::TransportDropped => spec_reconnect(s),
                _ => (s, SessionAction::Ignore),
            },
            LifecycleState::Reconnecting => match event {
                SessionEvent::BackoffElapsed => (
                    ShardSession { state: LifecycleState::Connecting, ..s },
                    SessionAction::OpenTransport,
                ),
                _ => (s, SessionAction::Ignore),
            },
            LifecycleState::Closed => (s, SessionAction::Ignore),
        }
    }
}

/// A fresh session for one shard: `Connecting`, no failed attempts, never
/// yet ready.
pub open spec fn spec_fresh_session(shard_id: u64, backoff: BackoffPolicy) -> ShardSession {
    ShardSession {
        shard_id,
        state: LifecycleState::Connecting,
        reconnect_attempt_count: 0,
        ever_ready: false,
        last_ready_at: 0,
        backoff,
    }
}

impl ShardSession {
    /// A fresh session for one shard, about to open its first transport.
    pub fn new(shard_id: u64, backoff: BackoffPolicy) -> (s: ShardSession)
        requires
            backoff.valid(),
        ensures
            s == spec_fresh_session(shard_id, backoff),
    {
        ShardSession {
            shard_id,
            state: LifecycleState::Connecting,
            reconnect_attempt_count: 0,
            ever_ready: false,
            last_ready_at: 0,
            backoff,
        }
    }

    /// Apply one event, with `now` the runner's clock, and return the action
    /// the runner must perform. Follows `spec_step` exactly.
    pub fn step(&mut self, event: SessionEvent, now: u64) -> (a: SessionAction)
        requires
            old(self).backoff.valid(),
        ensures
            (*final(self), a) == spec_step(*old(self), event, now),
            final(self).backoff == old(self).backoff,
            final(self).shard_id == old(self).shard_id,
    {
        if matches!(self.state, LifecycleState::Closed) {
            return SessionAction::Ignore;
        }
        if matches!(event, SessionEvent::ShutdownRequested) {
            self.state = LifecycleState::Closed;
            return SessionAction::CloseTransport;
        }
        match (self.state, event) {
            (LifecycleState::Connecting, SessionEvent::TransportOpened) => {
                self.state = LifecycleState::Authenticating;
                SessionAction::Authenticate
            },
            (LifecycleState::Connecting, SessionEvent::HandshakeFailed)
            | (LifecycleState::Connecting, SessionEvent::TransportDropped)
            | (LifecycleState::Authenticating, SessionEvent::HandshakeFailed)
            | (LifecycleState::Authenticating, SessionEvent::TransportDropped)
            | (LifecycleState::Ready, SessionEvent::TransportDropped)
            | (LifecycleState::Live, SessionEvent::TransportDropped) => {
                let delay = backoff_delay(self.reconnect_attempt_count, self.backoff);
                self.state = LifecycleState::Reconnecting;
                if self.reconnect_attempt_count < u64::MAX {
                    self.reconnect_attempt_count = self.reconnect_attempt_count + 1;
                }
                SessionAction::WaitBackoff(delay)
            },
            (LifecycleState::Authenticating, SessionEvent::HandshakeSucceeded) => {
                self.state = LifecycleState::Ready;
                self.reconnect_attempt_count = 0;
                self.ever_ready = true;
                self.last_ready_at = now;
                SessionAction::AnnounceLiveness
            },
            (LifecycleState::Ready, SessionEvent::CommandReceived) => {
                self.state = LifecycleState::Live;
                SessionAction::DispatchCommand
            },
            (LifecycleState::Live, SessionEvent::CommandReceived) => {
                SessionAction::DispatchCommand
            },
            (LifecycleState::Reconnecting, SessionEvent::BackoffElapsed) => {
                self.state = LifecycleState::Connecting;
                SessionAction::OpenTransport
            },
            _ => SessionAction::Ignore,
        }
    }
}

/// Law: a transport drop while live heals itself. The reconnect events alone
/// — the backoff elapsing, a transport opening, the handshake succeeding —
/// bring the session from `Live` back to `Ready`, with the attempt counter
/// reset to zero and the shard identity unchanged; no other intervention
/// appears anywhere in the cycle.
pub proof fn lemma_reconnect_cycle(s: ShardSession, t_drop: u64, t_ready: u64)
    requires
        s.state == LifecycleState::Live,
    ensures
        ({
            let (s1, a1) = spec_step(s, SessionEvent::TransportDropped, t_drop);
            let (s2, a2) = spec_step(s1, SessionEvent::BackoffElapsed, t_drop);
            let (s3, a3) = spec_step(s2, SessionEvent::TransportOpened, t_drop);
            let (s4, a4) = spec_step(s3, SessionEvent::HandshakeSucceeded, t_ready);
            &&& s1.state == LifecycleState::Reconnecting
            &&& s2.state == LifecycleState::Connecting
            &&& s3.state == LifecycleState::Authenticating
            &&& s4.state == LifecycleState::Ready
            &&& s4.reconnect_attempt_count == 0
            &&& s4.shard_id == s.shard_id
            &&& a1 matches SessionAction::WaitBackoff(_)
            &&& a2 == SessionAction::OpenTransport
            &&& a3 == SessionAction::Authenticate
            &&& a4 == SessionAction::AnnounceLiveness
        }),
{
}

} // verus!
