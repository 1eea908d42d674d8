//! Alerting and device-state core of an industrial monitoring station.
//!
//! The library keeps a canonical set of currently-active alerts, decides when
//! a physical buzzer should sound, manages a timed mute window, diffs a
//! periodic 6-bit refrigerator status vector into discrete alerts, and drives
//! two reconnecting protocol clients through explicit state machines.
//! All decisions are made here, under contracts; the surrounding process
//! performs the I/O (network traffic, timers, hardware commands, outbound
//! notifications) that the decisions call for.

pub mod backoff;
pub mod strutil;
pub mod alert;
pub mod store;
pub mod mute;
pub mod timefmt;
pub mod coordinator;
pub mod differ;
pub mod buzzer;
pub mod mqtt;
pub mod realtime;

use vstd::prelude::*;

verus! {

} // verus!
