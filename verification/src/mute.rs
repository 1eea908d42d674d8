//! Mute window state: the muted flag, its deadline, and the identifier of
//! the live timer task that will clear them.
//!
//! The three fields move together: the state is either fully clear
//! (unmuted, no deadline, no timer) or fully set. The timer identifier is a
//! generation token; a timer firing with a stale token is a no-op, which is
//! what makes cancellation race-free.

use vstd::prelude::*;

verus! {

/// The `{muted, deadline, timer}` triple of the mute controller.
pub struct MuteState {
    muted: bool,
    deadline_ms: Option<i64>,
    timer: Option<u64>,
}

impl MuteState {
    pub closed spec fn muted(&self) -> bool {
        self.muted
    }

    /// Epoch milliseconds at which the mute window expires.
    pub closed spec fn deadline(&self) -> Option<i64> {
        self.deadline_ms
    }

    /// Identifier of the live timer task.
    pub closed spec fn timer(&self) -> Option<u64> {
        self.timer
    }

    /// Mute invariant: muted, a set deadline, and a live timer come and go
    /// together.
    pub open spec fn wf(&self) -> bool {
        &&& self.muted() <==> self.deadline() is Some
        &&& self.muted() <==> self.timer() is Some
    }

    /// Fully clear: unmuted, no deadline, no timer.
    pub fn clear(&mut self)
        ensures
            final(self).wf(),
            !final(self).muted(),
            final(self).deadline() is None,
            final(self).timer() is None,
    {
        self.muted = false;
        self.deadline_ms = None;
        self.timer = None;
    }

    /// Fully set: muted until `deadline_ms`, watched by timer `timer_id`.
    pub fn set_muted(&mut self, deadline_ms: i64, timer_id: u64)
        ensures
            final(self).wf(),
            final(self).muted(),
            final(self).deadline() == Some(deadline_ms),
            final(self).timer() == Some(timer_id),
    {
        self.muted = true;
        self.deadline_ms = Some(deadline_ms);
        self.timer = Some(timer_id);
    }

    /// The deadline as an exec value.
    pub fn deadline_value(&self) -> (r: Option<i64>)
        ensures
            r == self.deadline(),
    {
        self.deadline_ms
    }

    /// Whether the mute window is active, as an exec value.
    pub fn is_muted(&self) -> (r: bool)
        ensures
            r == self.muted(),
    {
        self.muted
    }

    /// The live timer's identifier as an exec value.
    pub fn timer_value(&self) -> (r: Option<u64>)
        ensures
            r == self.timer(),
    {
        self.timer
    }

    /// Whether `timer_id` is the live timer.
    pub fn timer_is(&self, timer_id: u64) -> (r: bool)
        ensures
            r == (self.timer() == Some(timer_id)),
    {
        match self.timer {
            Some(t) => t == timer_id,
            None => false,
        }
    }
}

impl Default for MuteState {
    /// A fresh controller is unmuted with no deadline and no timer.
    fn default() -> (r: Self)
        ensures
            r.wf(),
            !r.muted(),
            r.deadline() is None,
            r.timer() is None,
    {
        MuteState { muted: false, deadline_ms: None, timer: None }
    }
}

} // verus!
