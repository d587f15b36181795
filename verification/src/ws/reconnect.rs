//! The connection loop: connect, stay connected, wait, and connect again, until
//! nobody wants the connection or too many attempts in a row have failed.

use crate::ws::config::ReconnectConfig;
use crate::ws::state::ConnectionState;
use std::time::{Duration, Instant};
use vstd::prelude::*;

verus! {

/// What the loop is waiting for.
#[derive(Debug, Clone, Copy, PartialEq, Eq)]
pub enum LoopPhase {
    /// Whether anybody still holds the sending end of the request channel.
    Checking,
    /// The outcome of an attempt to connect.
    Connecting,
    /// The end of the connection.
    Connected,
    /// The next delay of the backoff policy.
    BackingOff,
    /// The end of that delay.
    Sleeping,
    /// Nothing: the loop has ended.
    Stopped,
}

/// What happened.
#[derive(Debug, Clone, Copy, PartialEq, Eq)]
pub enum LoopEvent {
    /// The request channel was looked at.
    Checked { closed: bool },
    /// The attempt to connect succeeded, at this moment.
    Opened { since: Instant },
    /// The attempt to connect failed.
    Failed,
    /// The connection ended, with an error or without.
    Ended,
    /// The backoff policy answered: a delay, or none.
    Delay(Option<Duration>),
    /// The delay is over.
    Slept,
}

/// Something to do at once.
#[derive(Debug, Clone, Copy, PartialEq, Eq)]
pub enum LoopEffect {
    /// Take a receiver of the connection state, for the heartbeat of the next connection.
    Subscribe,
    /// Publish this connection state.
    Publish(ConnectionState),
    /// Set the backoff policy back to its first delay.
    ResetBackoff,
}

/// The states that `effects` publish, in order.
pub open spec fn published(effects: Seq<LoopEffect>) -> Seq<ConnectionState>
    decreases effects.len(),
{
    if effects.len() == 0 {
        seq![]
    } else {
        match effects.last() {
            LoopEffect::Publish(state) => published(effects.drop_last()).push(state),
            _ => published(effects.drop_last()),
        }
    }
}

/// Something to do next, whose outcome is the next event.
#[derive(Debug, Clone, Copy, PartialEq, Eq)]
pub enum LoopWork {
    /// See whether the request channel is closed.
    Check,
    /// Attempt to connect.
    Connect,
    /// Handle the connection until it ends.
    Handle,
    /// Ask the backoff policy for its next delay.
    Backoff,
    /// Wait this long.
    Sleep(Duration),
    /// End the loop.
    Stop,
}

/// What the loop decides on an event: the effects, in order, and then the work.
#[derive(Debug)]
pub struct LoopStep {
    pub effects: Vec<LoopEffect>,
    pub work: LoopWork,
}

/// The state of the connection loop.
#[derive(Debug)]
pub struct ConnectionLoop {
    max_attempts: Option<u32>,
    attempt: u32,
    phase: LoopPhase,
}

/// The state of a [`ConnectionLoop`].
pub struct LoopState {
    /// How many attempts in a row may fail, or `None` for no limit.
    pub max_attempts: Option<u32>,
    /// How many attempts have failed since the last one that succeeded.
    pub attempt: u32,
    pub phase: LoopPhase,
}

impl View for ConnectionLoop {
    type V = LoopState;

    closed spec fn view(&self) -> LoopState {
        LoopState { max_attempts: self.max_attempts, attempt: self.attempt, phase: self.phase }
    }
}

/// A decision of the loop: the state that follows, the effects and the work.
pub type Decision = (LoopState, Seq<LoopEffect>, LoopWork);

/// The loop before its first check.
pub open spec fn initial_loop(config: ReconnectConfig) -> LoopState {
    LoopState { max_attempts: config.max_attempts, attempt: 0, phase: LoopPhase::Checking }
}

impl LoopState {
    /// Whether `event` is one that the loop is waiting for.
    pub open spec fn awaits(self, event: LoopEvent) -> bool {
        match self.phase {
            LoopPhase::Checking => event is Checked,
            LoopPhase::Connecting => event is Opened || event is Failed,
            LoopPhase::Connected => event is Ended,
            LoopPhase::BackingOff => event is Delay,
            LoopPhase::Sleeping => event is Slept,
            LoopPhase::Stopped => false,
        }
    }

    /// Whether the limit on failed attempts is reached.
    pub open spec fn exhausted(self) -> bool {
        self.max_attempts is Some && self.attempt >= self.max_attempts->0
    }

    /// The state with another count of failed attempts.
    pub open spec fn with_attempt(self, attempt: u32) -> LoopState {
        LoopState { max_attempts: self.max_attempts, attempt, phase: self.phase }
    }

    /// The state in another phase.
    pub open spec fn in_phase(self, phase: LoopPhase) -> LoopState {
        LoopState { max_attempts: self.max_attempts, attempt: self.attempt, phase }
    }

    /// Whether to try again is decided once an attempt, or the connection, is over.
    pub open spec fn settle(self) -> Decision {
        if self.exhausted() {
            (
                self.in_phase(LoopPhase::Stopped),
                seq![LoopEffect::Publish(ConnectionState::Disconnected)],
                LoopWork::Stop,
            )
        } else {
            (
                self.in_phase(LoopPhase::BackingOff),
                seq![
                    LoopEffect::Publish(ConnectionState::Reconnecting { attempt: self.attempt }),
                ],
                LoopWork::Backoff,
            )
        }
    }

    /// One more failed attempt, as far as the count goes.
    pub open spec fn counted(self) -> LoopState {
        self.with_attempt(
            if self.attempt < u32::MAX {
                (self.attempt + 1) as u32
            } else {
                u32::MAX
            },
        )
    }

    /// What the loop decides on `event`.
    pub open spec fn next(self, event: LoopEvent) -> Decision
        recommends
            self.awaits(event),
    {
        match event {
            LoopEvent::Checked { closed } => if closed {
                (
                    self.in_phase(LoopPhase::Stopped),
                    seq![LoopEffect::Publish(ConnectionState::Disconnected)],
                    LoopWork::Stop,
                )
            } else {
                (
                    self.in_phase(LoopPhase::Connecting),
                    seq![
                        LoopEffect::Subscribe,
                        LoopEffect::Publish(ConnectionState::Connecting),
                    ],
                    LoopWork::Connect,
                )
            },
            LoopEvent::Opened { since } => (
                self.with_attempt(0).in_phase(LoopPhase::Connected),
                seq![
                    LoopEffect::ResetBackoff,
                    LoopEffect::Publish(ConnectionState::Connected { since }),
                ],
                LoopWork::Handle,
            ),
            LoopEvent::Failed => self.counted().settle(),
            LoopEvent::Ended => self.settle(),
            LoopEvent::Delay(Some(delay)) => (
                self.in_phase(LoopPhase::Sleeping),
                seq![],
                LoopWork::Sleep(delay),
            ),
            LoopEvent::Delay(None) | LoopEvent::Slept => (
                self.in_phase(LoopPhase::Checking),
                seq![],
                LoopWork::Check,
            ),
        }
    }
}

impl ConnectionLoop {
    /// The loop before its first check, which is its first work.
    pub fn new(config: &ReconnectConfig) -> (r: Self)
        ensures
            r@ == initial_loop(*config),
    {
        ConnectionLoop {
            max_attempts: config.max_attempts,
            attempt: 0,
            phase: LoopPhase::Checking,
        }
    }

    /// Whether `event` is one that the loop is waiting for.
    pub fn awaits(&self, event: &LoopEvent) -> (r: bool)
        ensures
            r == self@.awaits(*event),
    {
        match self.phase {
            LoopPhase::Checking => matches!(event, LoopEvent::Checked { .. }),
            LoopPhase::Connecting => matches!(event, LoopEvent::Opened { .. } | LoopEvent::Failed),
            LoopPhase::Connected => matches!(event, LoopEvent::Ended),
            LoopPhase::BackingOff => matches!(event, LoopEvent::Delay(_)),
            LoopPhase::Sleeping => matches!(event, LoopEvent::Slept),
            LoopPhase::Stopped => false,
        }
    }

    /// Decides whether to try again.
    fn settle(&mut self) -> (r: LoopStep)
        ensures
            (final(self)@, r.effects@, r.work) == old(self)@.settle(),
    {
        if let Some(max) = self.max_attempts {
            if self.attempt >= max {
                self.phase = LoopPhase::Stopped;
                return LoopStep {
                    effects: vec![LoopEffect::Publish(ConnectionState::Disconnected)],
                    work: LoopWork::Stop,
                };
            }
        }
        self.phase = LoopPhase::BackingOff;
        LoopStep {
            effects: vec![
                LoopEffect::Publish(ConnectionState::Reconnecting { attempt: self.attempt }),
            ],
            work: LoopWork::Backoff,
        }
    }

    /// Takes an event and decides what to do.
    pub fn next(&mut self, event: LoopEvent) -> (r: LoopStep)
        requires
            old(self)@.awaits(event),
        ensures
            (final(self)@, r.effects@, r.work) == old(self)@.next(event),
    {
        match event {
            LoopEvent::Checked { closed } => {
                if closed {
                    self.phase = LoopPhase::Stopped;
                    return LoopStep {
                        effects: vec![LoopEffect::Publish(ConnectionState::Disconnected)],
                        work: LoopWork::Stop,
                    };
                }
                self.phase = LoopPhase::Connecting;
                LoopStep {
                    effects: vec![
                        LoopEffect::Subscribe,
                        LoopEffect::Publish(ConnectionState::Connecting),
                    ],
                    work: LoopWork::Connect,
                }
            },
            LoopEvent::Opened { since } => {
                self.attempt = 0;
                self.phase = LoopPhase::Connected;
                LoopStep {
                    effects: vec![
                        LoopEffect::ResetBackoff,
                        LoopEffect::Publish(ConnectionState::Connected { since }),
                    ],
                    work: LoopWork::Handle,
                }
            },
            LoopEvent::Failed => {
                self.attempt = self.attempt.saturating_add(1);
                self.settle()
            },
            LoopEvent::Ended => self.settle(),
            LoopEvent::Delay(Some(delay)) => {
                self.phase = LoopPhase::Sleeping;
                LoopStep { effects: Vec::new(), work: LoopWork::Sleep(delay) }
            },
            LoopEvent::Delay(None) | LoopEvent::Slept => {
                self.phase = LoopPhase::Checking;
                LoopStep { effects: Vec::new(), work: LoopWork::Check }
            },
        }
    }
}

} // verus!
