//! The realtime change-feed reconnection loop's decisions: a state machine
//! with its own capped exponential backoff and connectivity flag.
//!
//! The surrounding process connects, subscribes to UPDATE events, and polls
//! the feed with a short timeout so shutdown is observed promptly; each
//! outcome is fed in as an event. A poll that times out with no data is not
//! a failure and does not affect the backoff.

use vstd::prelude::*;
use crate::backoff::Backoff;

verus! {

/// Phase of the realtime loop.
#[derive(Clone, Copy, Debug, PartialEq, Eq, Structural)]
pub enum RealtimePhase {
    /// About to connect and subscribe.
    Connecting,
    /// Subscribed; polling for change events.
    Subscribed,
    /// Waiting out the backoff delay before the next attempt.
    BackoffSleep,
}

/// One outcome of the feed work, fed back into the machine.
#[derive(Clone, Copy, Debug, PartialEq, Eq, Structural)]
pub enum RealtimeEvent {
    /// Connected and subscribed to UPDATE events.
    ConnectSucceeded,
    ConnectFailed,
    /// A change event arrived.
    UpdateReceived,
    /// The poll timed out with no data.
    PollTimeout,
    /// The server closed the stream cleanly.
    StreamClosed,
    /// The stream ended with an error.
    StreamError,
    /// The backoff sleep ran out.
    SleepFinished,
}

/// What the loop must do next.
#[derive(Clone, Copy, Debug, PartialEq, Eq, Structural)]
pub enum RealtimeDirective {
    /// Open a new connection and subscribe.
    StartConnect,
    /// Hand the arrived change payload to the vector differ.
    HandleUpdate,
    /// Sleep this many milliseconds (in shutdown-checkable slices).
    Sleep(u64),
    /// Nothing to do; poll again.
    Ignore,
}

/// The pairs of phase and event that the machine acts on; every other pair
/// leaves the state unchanged.
pub open spec fn realtime_handles(phase: RealtimePhase, event: RealtimeEvent) -> bool {
    ||| phase == RealtimePhase::Connecting && (event == RealtimeEvent::ConnectSucceeded || event
        == RealtimeEvent::ConnectFailed)
    ||| phase == RealtimePhase::Subscribed && (event == RealtimeEvent::UpdateReceived || event
        == RealtimeEvent::PollTimeout || event == RealtimeEvent::StreamClosed || event
        == RealtimeEvent::StreamError)
    ||| phase == RealtimePhase::BackoffSleep && event == RealtimeEvent::SleepFinished
}

/// State of the realtime reconnection loop.
pub struct RealtimeLoopState {
    phase: RealtimePhase,
    backoff: Backoff,
    connected: bool,
}

impl RealtimeLoopState {
    pub closed spec fn phase(&self) -> RealtimePhase {
        self.phase
    }

    pub closed spec fn connected(&self) -> bool {
        self.connected
    }

    /// The delay the next failure will be handed, milliseconds.
    pub closed spec fn pending(&self) -> int {
        self.backoff.pending()
    }

    pub closed spec fn base(&self) -> int {
        self.backoff.base()
    }

    pub closed spec fn ceiling(&self) -> int {
        self.backoff.ceiling()
    }

    pub closed spec fn wf(&self) -> bool {
        self.backoff.wf()
    }

    /// A fresh loop starts connecting, disconnected, at the base delay.
    pub fn new(base_delay_ms: u64, ceiling_ms: u64) -> (r: RealtimeLoopState)
        requires
            1 <= base_delay_ms <= ceiling_ms,
        ensures
            r.wf(),
            r.phase() == RealtimePhase::Connecting,
            !r.connected(),
            r.base() == base_delay_ms,
            r.ceiling() == ceiling_ms,
            r.pending() == base_delay_ms,
    {
        RealtimeLoopState {
            phase: RealtimePhase::Connecting,
            backoff: Backoff::new(base_delay_ms, ceiling_ms),
            connected: false,
        }
    }

    /// The connectivity flag, as the front end's probe reads it.
    pub fn is_realtime_connected(&self) -> (r: bool)
        ensures
            r == self.connected(),
    {
        self.connected
    }

    /// Feed one event into the machine. A successful connect raises the
    /// connectivity flag and resets the backoff; a connect failure, a
    /// closed stream, or a stream error backs off with the pending delay,
    /// which doubles up to the ceiling; a poll timeout changes nothing.
    pub fn step(&mut self, event: RealtimeEvent) -> (d: RealtimeDirective)
        requires
            old(self).wf(),
        ensures
            final(self).wf(),
            final(self).base() == old(self).base(),
            final(self).ceiling() == old(self).ceiling(),
            !realtime_handles(old(self).phase(), event) ==> *final(self) == *old(self) && d
                == RealtimeDirective::Ignore,
            old(self).phase() == RealtimePhase::Connecting && event
                == RealtimeEvent::ConnectSucceeded ==> final(self).phase()
                == RealtimePhase::Subscribed && final(self).connected() && final(self).pending()
                == old(self).base() && d == RealtimeDirective::Ignore,
            realtime_handles(old(self).phase(), event) && (event == RealtimeEvent::ConnectFailed
                || event == RealtimeEvent::StreamClosed || event == RealtimeEvent::StreamError)
                ==> {
                &&& final(self).phase() == RealtimePhase::BackoffSleep
                &&& !final(self).connected()
                &&& d == RealtimeDirective::Sleep(old(self).pending() as u64)
                &&& final(self).pending() == (if 2 * old(self).pending() <= old(self).ceiling() {
                    2 * old(self).pending()
                } else {
                    old(self).ceiling()
                })
            },
            old(self).phase() == RealtimePhase::Subscribed && event
                == RealtimeEvent::UpdateReceived ==> *final(self) == *old(self) && d
                == RealtimeDirective::HandleUpdate,
            old(self).phase() == RealtimePhase::Subscribed && event == RealtimeEvent::PollTimeout
                ==> *final(self) == *old(self) && d == RealtimeDirective::Ignore,
            old(self).phase() == RealtimePhase::BackoffSleep && event
                == RealtimeEvent::SleepFinished ==> final(self).phase()
                == RealtimePhase::Connecting && !final(self).connected() && final(self).pending()
                == old(self).pending() && d == RealtimeDirective::StartConnect,
    {
        match (self.phase, event) {
            (RealtimePhase::Connecting, RealtimeEvent::ConnectSucceeded) => {
                self.phase = RealtimePhase::Subscribed;
                self.connected = true;
                self.backoff.on_success();
                RealtimeDirective::Ignore
            }
            (RealtimePhase::Connecting, RealtimeEvent::ConnectFailed) => {
                self.connected = false;
                self.phase = RealtimePhase::BackoffSleep;
                RealtimeDirective::Sleep(self.backoff.on_failure())
            }
            (RealtimePhase::Subscribed, RealtimeEvent::UpdateReceived) => {
                RealtimeDirective::HandleUpdate
            }
            (RealtimePhase::Subscribed, RealtimeEvent::PollTimeout) => RealtimeDirective::Ignore,
            (RealtimePhase::Subscribed, RealtimeEvent::StreamClosed) => {
                self.connected = false;
                self.phase = RealtimePhase::BackoffSleep;
                RealtimeDirective::Sleep(self.backoff.on_failure())
            }
            (RealtimePhase::Subscribed, RealtimeEvent::StreamError) => {
                self.connected = false;
                self.phase = RealtimePhase::BackoffSleep;
                RealtimeDirective::Sleep(self.backoff.on_failure())
            }
            (RealtimePhase::BackoffSleep, RealtimeEvent::SleepFinished) => {
                self.connected = false;
                self.phase = RealtimePhase::Connecting;
                RealtimeDirective::StartConnect
            }
            _ => RealtimeDirective::Ignore,
        }
    }
}

} // verus!
