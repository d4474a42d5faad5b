//! Connection lifecycle for the event stream: the session state machine,
//! the heartbeat liveness check, and the bounded reconnection policy.
//!
//! The session manager owns a single shared connection-state value; every
//! transition (connect, disconnect, heartbeat timeout) goes through the
//! methods here.  Time is abstract: callers pass in clock readings, in
//! seconds, and perform the probes and handshakes the methods decide on.

use vstd::prelude::*;

verus! {

/// How many heartbeat intervals may pass without inbound activity before
/// the connection is presumed dead.
pub const LIVENESS_MULTIPLIER: u64 = 3;

/// Default bound on consecutive reconnection attempts.
pub const DEFAULT_MAX_RECONNECT_ATTEMPTS: u32 = 5;

/// Default delay between reconnection attempts, in seconds.
pub const DEFAULT_RECONNECT_DELAY_SECS: u64 = 2;

/// Default interval between liveness probes, in seconds.
pub const DEFAULT_HEARTBEAT_INTERVAL_SECS: u64 = 30;

#[derive(Clone, Copy, PartialEq, Eq, Structural, Debug)]
pub enum ConnectionState {
    Connected,
    Disconnected,
    Connecting,
}

/// The session manager's state: connection phase, liveness timestamp,
/// reconnection policy and the stored credential token.
pub struct WebSocketState {
    pub connection_state: ConnectionState,
    /// Clock reading of the last observed inbound activity, in seconds.
    pub last_heartbeat: u64,
    pub reconnect_attempts: u32,
    pub max_reconnect_attempts: u32,
    /// Delay between reconnection attempts, in seconds.
    pub reconnect_delay: u64,
    /// Interval between liveness probes, in seconds.
    pub heartbeat_interval: u64,
    /// Credential stored for reconnection while a session is live.
    pub auth_token: Option<String>,
}

/// What the heartbeat task must do on a tick.
pub enum HeartbeatAction {
    /// The session is no longer connected: stop the heartbeat loop.
    Stop,
    /// Send a protocol-level liveness probe; the connection is presumed alive.
    Ping,
    /// The tick's probe is still owed — the probe goes out before the
    /// liveness check — but inbound activity is overdue: the session
    /// has been transitioned to `Disconnected`, and after sending the
    /// probe the caller notifies observers and stops the loop.
    TimedOut,
}

/// True when more than `LIVENESS_MULTIPLIER` heartbeat intervals have
/// passed since the last inbound activity.
pub open spec fn liveness_expired(last: u64, interval: u64, now: u64) -> bool {
    now > last && now - last > LIVENESS_MULTIPLIER * interval
}

impl WebSocketState {
    /// A fresh, disconnected session with the default policy; `now` seeds
    /// the liveness timestamp.
    pub fn new(now: u64) -> (s: Self)
        ensures
            s.connection_state is Disconnected,
            s.last_heartbeat == now,
            s.reconnect_attempts == 0,
            s.max_reconnect_attempts == DEFAULT_MAX_RECONNECT_ATTEMPTS,
            s.reconnect_delay == DEFAULT_RECONNECT_DELAY_SECS,
            s.heartbeat_interval == DEFAULT_HEARTBEAT_INTERVAL_SECS,
            s.auth_token is None,
    {
        WebSocketState {
            connection_state: ConnectionState::Disconnected,
            last_heartbeat: now,
            reconnect_attempts: 0,
            max_reconnect_attempts: DEFAULT_MAX_RECONNECT_ATTEMPTS,
            reconnect_delay: DEFAULT_RECONNECT_DELAY_SECS,
            heartbeat_interval: DEFAULT_HEARTBEAT_INTERVAL_SECS,
            auth_token: None,
        }
    }

    /// A caller asks to connect.  The request is a no-op unless the
    /// session is `Disconnected`, which prevents duplicate concurrent
    /// connections; otherwise the session moves to `Connecting` and
    /// stores the credential, and the caller performs the handshake.
    pub fn connect_requested(&mut self, token: String) -> (started: bool)
        ensures
            started == (old(self).connection_state is Disconnected),
            started ==> *final(self) == (WebSocketState {
                connection_state: ConnectionState::Connecting,
                auth_token: Some(token),
                ..*old(self)
            }),
            !started ==> *final(self) == *old(self),
    {
        match self.connection_state {
            ConnectionState::Disconnected => {
                self.connection_state = ConnectionState::Connecting;
                self.auth_token = Some(token);
                true
            },
            _ => false,
        }
    }

    /// The handshake succeeded: the session is live, the liveness
    /// timestamp is reset to `now`, and the reconnect-attempt counter
    /// starts over.
    pub fn handshake_succeeded(&mut self, now: u64)
        ensures
            *final(self) == (WebSocketState {
                connection_state: ConnectionState::Connected,
                last_heartbeat: now,
                reconnect_attempts: 0,
                ..*old(self)
            }),
    {
        self.connection_state = ConnectionState::Connected;
        self.last_heartbeat = now;
        self.reconnect_attempts = 0;
    }

    /// The handshake failed: back to `Disconnected`.  The failure is
    /// surfaced to the caller and is not retried by the connect call
    /// itself.
    pub fn handshake_failed(&mut self)
        ensures
            *final(self) == (WebSocketState {
                connection_state: ConnectionState::Disconnected,
                ..*old(self)
            }),
    {
        self.connection_state = ConnectionState::Disconnected;
    }

    /// Any inbound frame, data or control, refreshes the liveness
    /// timestamp.
    pub fn record_inbound_activity(&mut self, now: u64)
        ensures
            *final(self) == (WebSocketState { last_heartbeat: now, ..*old(self) }),
    {
        self.last_heartbeat = now;
    }

    /// Disconnect from any state: the credential is cleared and the
    /// session is `Disconnected`.  Idempotent.
    pub fn disconnect(&mut self)
        ensures
            *final(self) == (WebSocketState {
                connection_state: ConnectionState::Disconnected,
                auth_token: None,
                ..*old(self)
            }),
    {
        self.connection_state = ConnectionState::Disconnected;
        self.auth_token = None;
    }

    /// One heartbeat tick at clock reading `now`.  While connected, a
    /// liveness probe is due on every tick — the caller sends it on
    /// `Ping` and on `TimedOut` alike, the probe going out before the
    /// liveness check.  When no inbound activity was seen for more than
    /// `LIVENESS_MULTIPLIER` heartbeat intervals, the connection is
    /// presumed dead: the session drops to `Disconnected` and the
    /// credential is cleared.
    pub fn heartbeat_tick(&mut self, now: u64) -> (action: HeartbeatAction)
        ensures
            !(old(self).connection_state is Connected) ==> {
                &&& action is Stop
                &&& *final(self) == *old(self)
            },
            old(self).connection_state is Connected
                && liveness_expired(old(self).last_heartbeat, old(self).heartbeat_interval, now)
                ==> {
                &&& action is TimedOut
                &&& *final(self) == (WebSocketState {
                    connection_state: ConnectionState::Disconnected,
                    auth_token: None,
                    ..*old(self)
                })
            },
            old(self).connection_state is Connected
                && !liveness_expired(old(self).last_heartbeat, old(self).heartbeat_interval, now)
                ==> {
                &&& action is Ping
                &&& *final(self) == *old(self)
            },
    {
        match self.connection_state {
            ConnectionState::Connected => {
                let expired = now > self.last_heartbeat
                    && (now - self.last_heartbeat) as u128
                        > (LIVENESS_MULTIPLIER as u128) * (self.heartbeat_interval as u128);
                if expired {
                    self.connection_state = ConnectionState::Disconnected;
                    self.auth_token = None;
                    HeartbeatAction::TimedOut
                } else {
                    HeartbeatAction::Ping
                }
            },
            _ => HeartbeatAction::Stop,
        }
    }

    /// A caller asks to reconnect.  The request proceeds unless a
    /// connection attempt is already in flight.
    pub fn reconnect_requested(&self) -> (proceed: bool)
        ensures
            proceed == !(self.connection_state is Connecting),
    {
        match self.connection_state {
            ConnectionState::Connecting => false,
            _ => true,
        }
    }

    /// Begin a bounded reconnection run, unless a connection attempt is
    /// already in flight (then the request is a no-op).  The caller
    /// performs one connect attempt per `ReconnectRun` step, waiting
    /// `reconnect_delay` seconds between attempts.
    pub fn start_reconnect(&self) -> (run: Option<ReconnectRun>)
        ensures
            self.connection_state is Connecting ==> run is None,
            !(self.connection_state is Connecting) ==> run
                == Some(ReconnectRun::initial(self.max_reconnect_attempts)),
    {
        match self.connection_state {
            ConnectionState::Connecting => None,
            _ => Some(ReconnectRun::begin(self.max_reconnect_attempts)),
        }
    }
}

#[derive(Clone, Copy, PartialEq, Eq, Structural, Debug)]
pub enum ReconnectStatus {
    /// Attempts remain; the caller should try to connect again.
    InProgress,
    /// An attempt succeeded; the run is over.
    Succeeded,
    /// Every allowed attempt failed; the run is over, terminally.
    Failed,
}

/// One bounded reconnection run: up to `max_attempts` connect attempts,
/// stopping at the first success.  The run is driven by the caller, who
/// performs an attempt whenever `should_attempt` says so and reports the
/// outcome through `record_attempt`.
#[derive(Clone, Copy, PartialEq, Eq, Structural, Debug)]
pub struct ReconnectRun {
    pub attempts_made: u32,
    pub max_attempts: u32,
    pub status: ReconnectStatus,
}

impl ReconnectRun {
    /// Attempts never exceed the bound, and a run still in progress has
    /// attempts left.
    pub open spec fn wf(self) -> bool {
        &&& self.attempts_made <= self.max_attempts
        &&& (self.status is InProgress ==> self.attempts_made < self.max_attempts)
    }

    pub open spec fn initial(max_attempts: u32) -> ReconnectRun {
        ReconnectRun {
            attempts_made: 0,
            max_attempts,
            status: if max_attempts == 0 {
                ReconnectStatus::Failed
            } else {
                ReconnectStatus::InProgress
            },
        }
    }

    /// The state after one attempt with the given outcome.
    pub open spec fn stepped(self, success: bool) -> ReconnectRun {
        ReconnectRun {
            attempts_made: (self.attempts_made + 1) as u32,
            max_attempts: self.max_attempts,
            status: if success {
                ReconnectStatus::Succeeded
            } else if self.attempts_made + 1 >= self.max_attempts {
                ReconnectStatus::Failed
            } else {
                ReconnectStatus::InProgress
            },
        }
    }

    /// A fresh run; with a bound of zero it is already a terminal failure.
    pub fn begin(max_attempts: u32) -> (run: Self)
        ensures
            run == Self::initial(max_attempts),
            run.wf(),
    {
        ReconnectRun {
            attempts_made: 0,
            max_attempts,
            status: if max_attempts == 0 {
                ReconnectStatus::Failed
            } else {
                ReconnectStatus::InProgress
            },
        }
    }

    /// Whether the caller should make another connect attempt.  Once the
    /// run has succeeded or failed terminally, no further attempt is made.
    pub fn should_attempt(&self) -> (r: bool)
        ensures
            r == (self.status is InProgress),
    {
        match self.status {
            ReconnectStatus::InProgress => true,
            _ => false,
        }
    }

    /// Record the outcome of one connect attempt: success ends the run
    /// successfully; the `max_attempts`-th consecutive failure ends it
    /// terminally.
    pub fn record_attempt(&mut self, success: bool)
        requires
            old(self).wf(),
            old(self).status is InProgress,
        ensures
            *final(self) == old(self).stepped(success),
            final(self).wf(),
    {
        self.attempts_made = self.attempts_made + 1;
        self.status = if success {
            ReconnectStatus::Succeeded
        } else if self.attempts_made >= self.max_attempts {
            ReconnectStatus::Failed
        } else {
            ReconnectStatus::InProgress
        };
    }
}

/// The run that results from feeding the attempt outcomes in `outcomes`,
/// in order, to a fresh run bounded by `max_attempts`; outcomes after the
/// run has ended change nothing, as `record_attempt` is only called while
/// the run is in progress.
pub open spec fn run_reconnect(max_attempts: u32, outcomes: Seq<bool>) -> ReconnectRun
    decreases outcomes.len(),
{
    if outcomes.len() == 0 {
        ReconnectRun::initial(max_attempts)
    } else {
        let prev = run_reconnect(max_attempts, outcomes.drop_last());
        if prev.status is InProgress {
            prev.stepped(outcomes.last())
        } else {
            prev
        }
    }
}

/// Law: after `max_attempts` consecutive failed attempts, a reconnection
/// run reports terminal failure, and exactly `max_attempts` attempts were
/// made — none follow, however many further outcomes are offered.
pub proof fn lemma_reconnect_terminal_failure(max_attempts: u32, outcomes: Seq<bool>)
    requires
        forall|i: int| 0 <= i < outcomes.len() ==> !outcomes[i],
    ensures
        run_reconnect(max_attempts, outcomes).max_attempts == max_attempts,
        outcomes.len() < max_attempts ==> {
            &&& run_reconnect(max_attempts, outcomes).status is InProgress
            &&& run_reconnect(max_attempts, outcomes).attempts_made == outcomes.len()
        },
        outcomes.len() >= max_attempts ==> {
            &&& run_reconnect(max_attempts, outcomes).status is Failed
            &&& run_reconnect(max_attempts, outcomes).attempts_made == max_attempts
        },
    decreases outcomes.len(),
{
    if outcomes.len() > 0 {
        let prefix = outcomes.drop_last();
        assert forall|i: int| 0 <= i < prefix.len() implies !prefix[i] by {
            assert(prefix[i] == outcomes[i]);
        }
        lemma_reconnect_terminal_failure(max_attempts, prefix);
        assert(!outcomes[outcomes.len() - 1]);
    }
}

} // verus!
