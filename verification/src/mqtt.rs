//! The MQTT reconnection loop's decisions: a state machine over the phases
//! of one connection attempt, with capped exponential backoff and the
//! connectivity flag.
//!
//! The surrounding process performs the protocol work (connecting,
//! subscribing, reading the stream, sleeping) and feeds each outcome in as
//! an event; the machine answers with the next thing to do.

use vstd::prelude::*;
use crate::backoff::Backoff;

verus! {

/// Phase of the reconnection loop.
#[derive(Clone, Copy, Debug, PartialEq, Eq, Structural)]
pub enum MqttPhase {
    /// About to open a connection.
    Connecting,
    /// Connected; about to subscribe to the alarm topic.
    Subscribing,
    /// Subscribed; reading the event stream.
    Streaming,
    /// Waiting out the backoff delay before the next attempt.
    BackoffSleep,
}

/// One outcome of the protocol work, fed back into the machine.
#[derive(Clone, Copy, Debug, PartialEq, Eq, Structural)]
pub enum MqttEvent {
    ConnectSucceeded,
    ConnectFailed,
    SubscribeSucceeded,
    SubscribeFailed,
    /// A publish arrived on the alarm topic.
    IncomingPublish,
    /// Any other inbound packet.
    IncomingOther,
    /// An outbound packet went out.
    OutgoingPacket,
    /// The stream ended with an error.
    StreamError,
    /// The stream ended cleanly.
    StreamEnded,
    /// The backoff sleep ran out.
    SleepFinished,
}

/// What the loop must do next.
#[derive(Clone, Copy, Debug, PartialEq, Eq, Structural)]
pub enum MqttDirective {
    /// Open a new connection.
    StartConnect,
    /// Subscribe to the alarm topic.
    Subscribe,
    /// Hand the arrived publish payload to the alarm handler.
    HandlePublish,
    /// Sleep this many milliseconds (in shutdown-checkable slices).
    Sleep(u64),
    /// Nothing to do.
    Ignore,
}

/// The pairs of phase and event that the machine acts on; every other pair
/// leaves the state unchanged.
pub open spec fn mqtt_handles(phase: MqttPhase, event: MqttEvent) -> bool {
    ||| phase == MqttPhase::Connecting && (event == MqttEvent::ConnectSucceeded || event
        == MqttEvent::ConnectFailed)
    ||| phase == MqttPhase::Subscribing && (event == MqttEvent::SubscribeSucceeded || event
        == MqttEvent::SubscribeFailed)
    ||| phase == MqttPhase::Streaming && (event == MqttEvent::IncomingPublish || event
        == MqttEvent::IncomingOther || event == MqttEvent::OutgoingPacket || event
        == MqttEvent::StreamError || event == MqttEvent::StreamEnded)
    ||| phase == MqttPhase::BackoffSleep && event == MqttEvent::SleepFinished
}

/// State of the MQTT reconnection loop: its phase, its backoff, and the
/// connectivity flag that the front end's probe reads.
pub struct MqttLoopState {
    phase: MqttPhase,
    backoff: Backoff,
    connected: bool,
}

impl MqttLoopState {
    pub closed spec fn phase(&self) -> MqttPhase {
        self.phase
    }

    pub closed spec fn connected(&self) -> bool {
        self.connected
    }

    /// The delay the next failure will be handed, milliseconds.
    pub closed spec fn pending(&self) -> int {
        self.backoff.pending()
    }

    pub closed spec fn base(&self) -> int {
        self.backoff.base()
    }

    pub closed spec fn ceiling(&self) -> int {
        self.backoff.ceiling()
    }

    pub closed spec fn wf(&self) -> bool {
        self.backoff.wf()
    }

    /// A fresh loop starts connecting, disconnected, at the base delay.
    pub fn new(base_delay_ms: u64, ceiling_ms: u64) -> (r: MqttLoopState)
        requires
            1 <= base_delay_ms <= ceiling_ms,
        ensures
            r.wf(),
            r.phase() == MqttPhase::Connecting,
            !r.connected(),
            r.base() == base_delay_ms,
            r.ceiling() == ceiling_ms,
            r.pending() == base_delay_ms,
    {
        MqttLoopState {
            phase: MqttPhase::Connecting,
            backoff: Backoff::new(base_delay_ms, ceiling_ms),
            connected: false,
        }
    }

    /// The connectivity flag, as the front end's probe reads it.
    pub fn is_mqtt_connected(&self) -> (r: bool)
        ensures
            r == self.connected(),
    {
        self.connected
    }

    /// Feed one event into the machine. A connect or subscribe failure and
    /// any stream end back off with the pending delay, which doubles up to
    /// the ceiling; a successful subscribe resets the delay to the base;
    /// inbound traffic raises the connectivity flag; a stream error or a new
    /// attempt lowers it.
    pub fn step(&mut self, event: MqttEvent) -> (d: MqttDirective)
        requires
            old(self).wf(),
        ensures
            final(self).wf(),
            final(self).base() == old(self).base(),
            final(self).ceiling() == old(self).ceiling(),
            !mqtt_handles(old(self).phase(), event) ==> *final(self) == *old(self) && d
                == MqttDirective::Ignore,
            old(self).phase() == MqttPhase::Connecting && event == MqttEvent::ConnectSucceeded
                ==> final(self).phase() == MqttPhase::Subscribing && final(self).connected() == old(self).connected() && final(self).pending() == old(self).pending() && d
                == MqttDirective::Subscribe,
            mqtt_handles(old(self).phase(), event) && (event == MqttEvent::ConnectFailed || event
                == MqttEvent::SubscribeFailed || event == MqttEvent::StreamError || event
                == MqttEvent::StreamEnded) ==> {
                &&& final(self).phase() == MqttPhase::BackoffSleep
                &&& final(self).connected() == (event == MqttEvent::StreamEnded && old(self).connected())
                &&& d == MqttDirective::Sleep(old(self).pending() as u64)
                &&& final(self).pending() == (if 2 * old(self).pending() <= old(self).ceiling() {
                    2 * old(self).pending()
                } else {
                    old(self).ceiling()
                })
            },
            old(self).phase() == MqttPhase::Subscribing && event == MqttEvent::SubscribeSucceeded
                ==> final(self).phase() == MqttPhase::Streaming && final(self).connected() == old(self).connected() && final(self).pending() == old(self).base() && d
                == MqttDirective::Ignore,
            old(self).phase() == MqttPhase::Streaming && event == MqttEvent::IncomingPublish
                ==> final(self).phase() == MqttPhase::Streaming && final(self).connected() && final(self).pending() == old(self).pending() && d == MqttDirective::HandlePublish,
            old(self).phase() == MqttPhase::Streaming && event == MqttEvent::IncomingOther
                ==> final(self).phase() == MqttPhase::Streaming && final(self).connected() && final(self).pending() == old(self).pending() && d == MqttDirective::Ignore,
            old(self).phase() == MqttPhase::Streaming && event == MqttEvent::OutgoingPacket
                ==> *final(self) == *old(self) && d == MqttDirective::Ignore,
            old(self).phase() == MqttPhase::BackoffSleep && event == MqttEvent::SleepFinished
                ==> final(self).phase() == MqttPhase::Connecting && !final(self).connected()
                && final(self).pending() == old(self).pending() && d == MqttDirective::StartConnect,
    {
        match (self.phase, event) {
            (MqttPhase::Connecting, MqttEvent::ConnectSucceeded) => {
                self.phase = MqttPhase::Subscribing;
                MqttDirective::Subscribe
            }
            (MqttPhase::Connecting, MqttEvent::ConnectFailed) => {
                self.connected = false;
                self.phase = MqttPhase::BackoffSleep;
                MqttDirective::Sleep(self.backoff.on_failure())
            }
            (MqttPhase::Subscribing, MqttEvent::SubscribeSucceeded) => {
                self.phase = MqttPhase::Streaming;
                self.backoff.on_success();
                MqttDirective::Ignore
            }
            (MqttPhase::Subscribing, MqttEvent::SubscribeFailed) => {
                self.connected = false;
                self.phase = MqttPhase::BackoffSleep;
                MqttDirective::Sleep(self.backoff.on_failure())
            }
            (MqttPhase::Streaming, MqttEvent::IncomingPublish) => {
                self.connected = true;
                MqttDirective::HandlePublish
            }
            (MqttPhase::Streaming, MqttEvent::IncomingOther) => {
                self.connected = true;
                MqttDirective::Ignore
            }
            (MqttPhase::Streaming, MqttEvent::OutgoingPacket) => MqttDirective::Ignore,
            (MqttPhase::Streaming, MqttEvent::StreamError) => {
                self.connected = false;
                self.phase = MqttPhase::BackoffSleep;
                MqttDirective::Sleep(self.backoff.on_failure())
            }
            (MqttPhase::Streaming, MqttEvent::StreamEnded) => {
                self.phase = MqttPhase::BackoffSleep;
                MqttDirective::Sleep(self.backoff.on_failure())
            }
            (MqttPhase::BackoffSleep, MqttEvent::SleepFinished) => {
                self.connected = false;
                self.phase = MqttPhase::Connecting;
                MqttDirective::StartConnect
            }
            _ => MqttDirective::Ignore,
        }
    }
}

} // verus!
