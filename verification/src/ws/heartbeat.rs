//! The heartbeat of a connection: a PING at every tick, and a PONG in time for each.

use crate::ws::config::Config;
use crate::ws::state::ConnectionState;
use std::time::Duration;
use vstd::prelude::*;

verus! {

/// What the heartbeat does next; the outcome is its next event. Moments are counted in
/// nanoseconds of the monotonic clock.
#[derive(Debug, Clone, Copy, PartialEq, Eq)]
pub enum HeartbeatWork {
    /// Wait for the next tick.
    AwaitTick,
    /// Look at the state of the connection.
    ReadState,
    /// Mark the last PONG as seen, so that only a later one ends the wait for a PONG.
    MarkPongSeen,
    /// Look at the clock.
    ReadClock,
    /// Have a PING sent. It counts as sent at `ping_sent`.
    SendPing { ping_sent: u128 },
    /// Wait for a PONG that was not seen yet.
    AwaitPong { ping_sent: u128 },
    /// See when the last PONG arrived.
    ReadPong { ping_sent: u128 },
    /// End the heartbeat.
    Stop,
}

/// What happened.
#[derive(Debug, Clone, Copy, PartialEq, Eq)]
pub enum HeartbeatEvent {
    /// A tick.
    Ticked,
    /// The connection is in this state.
    State(ConnectionState),
    /// The last PONG is marked as seen.
    PongSeen,
    /// The clock shows this moment.
    Clock(u128),
    /// The request for a PING was taken, or there is nobody to take it.
    Requested { taken: bool },
    /// A PONG arrived.
    PongArrived,
    /// No PONG can arrive any more.
    PongsClosed,
    /// No PONG arrived in time.
    TimedOut,
    /// The last PONG arrived at this moment.
    LastPong(u128),
}

/// Whether `event` is an outcome of `work`.
pub open spec fn outcome_of(work: HeartbeatWork, event: HeartbeatEvent) -> bool {
    match work {
        HeartbeatWork::AwaitTick => event is Ticked,
        HeartbeatWork::ReadState => event is State,
        HeartbeatWork::MarkPongSeen => event is PongSeen,
        HeartbeatWork::ReadClock => event is Clock,
        HeartbeatWork::SendPing { .. } => event is Requested,
        HeartbeatWork::AwaitPong { .. } => event is PongArrived || event is PongsClosed
            || event is TimedOut,
        HeartbeatWork::ReadPong { .. } => event is LastPong,
        HeartbeatWork::Stop => false,
    }
}

/// What follows `work` when its outcome is `event`.
pub open spec fn beat(work: HeartbeatWork, event: HeartbeatEvent) -> HeartbeatWork {
    match (work, event) {
        (HeartbeatWork::AwaitTick, HeartbeatEvent::Ticked) => HeartbeatWork::ReadState,
        (HeartbeatWork::ReadState, HeartbeatEvent::State(state)) => if state is Connected {
            HeartbeatWork::MarkPongSeen
        } else {
            HeartbeatWork::Stop
        },
        (HeartbeatWork::MarkPongSeen, HeartbeatEvent::PongSeen) => HeartbeatWork::ReadClock,
        (HeartbeatWork::ReadClock, HeartbeatEvent::Clock(now)) => HeartbeatWork::SendPing {
            ping_sent: now,
        },
        (
            HeartbeatWork::SendPing { ping_sent },
            HeartbeatEvent::Requested { taken },
        ) => if taken {
            HeartbeatWork::AwaitPong { ping_sent }
        } else {
            HeartbeatWork::Stop
        },
        (
            HeartbeatWork::AwaitPong { ping_sent },
            HeartbeatEvent::PongArrived,
        ) => HeartbeatWork::ReadPong { ping_sent },
        (
            HeartbeatWork::ReadPong { ping_sent },
            HeartbeatEvent::LastPong(last_pong),
        ) => if last_pong < ping_sent {
            HeartbeatWork::Stop
        } else {
            HeartbeatWork::AwaitTick
        },
        _ => HeartbeatWork::Stop,
    }
}

/// The heartbeat of a connection.
#[derive(Debug)]
pub struct HeartbeatLoop {
    interval: Duration,
    timeout: Duration,
    work: HeartbeatWork,
}

/// The state of a [`HeartbeatLoop`].
pub struct HeartbeatState {
    /// The time from one tick to the next.
    pub interval: Duration,
    /// How long to wait for a PONG.
    pub timeout: Duration,
    /// The work that is under way.
    pub work: HeartbeatWork,
}

impl View for HeartbeatLoop {
    type V = HeartbeatState;

    closed spec fn view(&self) -> HeartbeatState {
        HeartbeatState { interval: self.interval, timeout: self.timeout, work: self.work }
    }
}

impl HeartbeatLoop {
    /// A heartbeat that waits for its first tick.
    pub fn new(config: &Config) -> (r: Self)
        ensures
            r@ == (HeartbeatState {
                interval: config.heartbeat_interval,
                timeout: config.heartbeat_timeout,
                work: HeartbeatWork::AwaitTick,
            }),
    {
        HeartbeatLoop {
            interval: config.heartbeat_interval,
            timeout: config.heartbeat_timeout,
            work: HeartbeatWork::AwaitTick,
        }
    }

    /// The time from one tick to the next.
    pub fn interval(&self) -> (r: Duration)
        ensures
            r == self@.interval,
    {
        self.interval
    }

    /// How long to wait for a PONG.
    pub fn timeout(&self) -> (r: Duration)
        ensures
            r == self@.timeout,
    {
        self.timeout
    }

    /// The work that is under way.
    pub fn work(&self) -> (r: HeartbeatWork)
        ensures
            r == self@.work,
    {
        self.work
    }

    /// Whether `event` is an outcome of the work that is under way.
    pub fn awaits(&self, event: &HeartbeatEvent) -> (r: bool)
        ensures
            r == outcome_of(self@.work, *event),
    {
        match self.work {
            HeartbeatWork::AwaitTick => matches!(event, HeartbeatEvent::Ticked),
            HeartbeatWork::ReadState => matches!(event, HeartbeatEvent::State(_)),
            HeartbeatWork::MarkPongSeen => matches!(event, HeartbeatEvent::PongSeen),
            HeartbeatWork::ReadClock => matches!(event, HeartbeatEvent::Clock(_)),
            HeartbeatWork::SendPing { .. } => matches!(event, HeartbeatEvent::Requested { .. }),
            HeartbeatWork::AwaitPong { .. } => matches!(
                event,
                HeartbeatEvent::PongArrived | HeartbeatEvent::PongsClosed | HeartbeatEvent::TimedOut
            ),
            HeartbeatWork::ReadPong { .. } => matches!(event, HeartbeatEvent::LastPong(_)),
            HeartbeatWork::Stop => false,
        }
    }

    /// Takes the outcome of the work that is under way, and decides the next.
    pub fn next(&mut self, event: HeartbeatEvent) -> (r: HeartbeatWork)
        requires
            outcome_of(old(self)@.work, event),
        ensures
            r == beat(old(self)@.work, event),
            final(self)@ == (HeartbeatState { work: r, ..old(self)@ }),
    {
        let work = match (self.work, event) {
            (HeartbeatWork::AwaitTick, HeartbeatEvent::Ticked) => HeartbeatWork::ReadState,
            (HeartbeatWork::ReadState, HeartbeatEvent::State(state)) => {
                if state.is_connected() {
                    HeartbeatWork::MarkPongSeen
                } else {
                    HeartbeatWork::Stop
                }
            },
            (HeartbeatWork::MarkPongSeen, HeartbeatEvent::PongSeen) => HeartbeatWork::ReadClock,
            (HeartbeatWork::ReadClock, HeartbeatEvent::Clock(now)) => HeartbeatWork::SendPing {
                ping_sent: now,
            },
            (HeartbeatWork::SendPing { ping_sent }, HeartbeatEvent::Requested { taken }) => {
                if taken {
                    HeartbeatWork::AwaitPong { ping_sent }
                } else {
                    // The connection is no longer handled.
                    HeartbeatWork::Stop
                }
            },
            (HeartbeatWork::AwaitPong { ping_sent }, HeartbeatEvent::PongArrived) => {
                HeartbeatWork::ReadPong { ping_sent }
            },
            (HeartbeatWork::ReadPong { ping_sent }, HeartbeatEvent::LastPong(last_pong)) => {
                if last_pong < ping_sent {
                    // A PONG to an earlier PING: the connection may be stale.
                    HeartbeatWork::Stop
                } else {
                    HeartbeatWork::AwaitTick
                }
            },
            _ => HeartbeatWork::Stop,
        };
        self.work = work;
        work
    }
}

} // verus!
