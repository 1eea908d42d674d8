//! The alert lifecycle coordinator: it owns the alert store, the mute state
//! and the commanded buzzer state, turns inbound alarm events and user
//! commands into state transitions, and hands back the side effects to
//! perform (timer scheduling, buzzer commands, outbound notifications) as
//! explicit actions.

use vstd::prelude::*;
use crate::alert::{Alert, AlarmParams, AlarmRpcEnvelope, AlarmStatus};
use crate::alert::{alert_from_params, is_alarm_method, spec_is_alarm_method, spec_map_alert_type,
    spec_map_description};
use crate::mute::MuteState;
use crate::store::AlertStore;
use crate::timefmt::{format_deadline, format_timestamp_ms, rfc3339_utc_of};

verus! {

/// Mute status as shown outward: the flag and the formatted expiry instant.
#[derive(Debug, PartialEq)]
pub struct MuteStatus {
    pub muted: bool,
    pub expires_at: Option<String>,
}

impl Clone for MuteStatus {
    fn clone(&self) -> (r: Self)
        ensures
            r == *self,
    {
        MuteStatus {
            muted: self.muted,
            expires_at: match &self.expires_at {
                Some(s) => Some(s.clone()),
                None => None,
            },
        }
    }
}

/// Device status notification payload: the full 6-bit vector and the
/// timestamp computed for it.
#[derive(Debug, PartialEq)]
pub struct DeviceStatus {
    pub timestamp: String,
    pub status: Vec<u8>,
}

/// One side effect the caller must perform, in order.
#[derive(Debug, PartialEq)]
pub enum Action {
    /// Command the buzzer driver on or off.
    SetBuzzer(bool),
    /// Abort the mute timer task with this identifier.
    CancelMuteTimer(u64),
    /// Start a mute timer task with this identifier, firing after this many
    /// milliseconds.
    ScheduleMuteTimer(u64, i64),
    /// Notify the front end of a newly active alert.
    EmitAlertAdded(Alert),
    /// Notify the front end that the alert with this id was removed.
    EmitAlertRemoved(String),
    /// Notify the front end of the new mute status.
    EmitMuteChanged(MuteStatus),
    /// Notify the front end of the new refrigerator status vector.
    EmitDeviceStatus(DeviceStatus),
}

/// Mathematical state of the coordinator.
pub struct CoordView {
    /// Contents of the alert store.
    pub alerts: Map<Seq<char>, Alert>,
    /// The mute flag.
    pub muted: bool,
    /// Epoch milliseconds at which the mute window expires.
    pub deadline_ms: Option<i64>,
    /// Identifier of the live mute timer task.
    pub timer: Option<u64>,
    /// Identifier the next scheduled timer will get.
    pub next_timer: u64,
    /// The buzzer state last commanded.
    pub buzzer_commanded: bool,
    /// Configured mute window length, milliseconds.
    pub mute_duration_ms: i64,
    /// Last stored refrigerator status vector.
    pub fridge: Seq<u8>,
}

/// The parts of the invariant that hold even between a store mutation and
/// the buzzer command that follows it: the mute triple moves together, the
/// store is finite, the stored vector is 6 bits, and the configured mute
/// window is at least a second.
pub open spec fn coord_view_wf_core(c: CoordView) -> bool {
    &&& c.muted <==> c.deadline_ms is Some
    &&& c.muted <==> c.timer is Some
    &&& c.alerts.dom().finite()
    &&& c.fridge.len() == 6
    &&& forall|i: int| 0 <= i < 6 ==> c.fridge[i] <= 1
    &&& c.mute_duration_ms >= 1000
}

/// The coordinator state is sane: the core invariant, and the commanded
/// buzzer state is the pure function of store emptiness and mute.
pub open spec fn coord_view_wf(c: CoordView) -> bool {
    &&& coord_view_wf_core(c)
    &&& c.buzzer_commanded == (c.alerts.len() != 0 && !c.muted)
}

/// The same state with the stored refrigerator vector replaced.
pub open spec fn with_fridge(c: CoordView, v: Seq<u8>) -> CoordView {
    CoordView { fridge: v, ..c }
}

/// The mute status payload shown while unmuted.
pub open spec fn unmuted_status() -> MuteStatus {
    MuteStatus { muted: false, expires_at: None }
}

/// A mute status payload faithfully renders the mute fields: same flag, and
/// the expiry text is the RFC3339 UTC form of the deadline.
pub open spec fn mute_status_matches(st: MuteStatus, muted: bool, deadline_ms: Option<i64>) -> bool {
    &&& st.muted == muted
    &&& match st.expires_at {
        Some(s) => deadline_ms is Some && s@ == rfc3339_utc_of(deadline_ms->0 as int),
        None => deadline_ms is None,
    }
}

/// State after an alert activation: the alert is upserted, any mute window
/// is interrupted, and the buzzer is commanded on.
pub open spec fn activate_step(c: CoordView, a: Alert) -> CoordView {
    CoordView {
        alerts: c.alerts.insert(a.id@, a),
        muted: false,
        deadline_ms: None,
        timer: None,
        buzzer_commanded: true,
        ..c
    }
}

/// Actions of the activation side effects: interrupt any mute window, then
/// command the buzzer on.
pub open spec fn spec_side_actions(c: CoordView) -> Seq<Action> {
    if c.muted {
        seq![
            Action::CancelMuteTimer(c.timer->0),
            Action::EmitMuteChanged(unmuted_status()),
            Action::SetBuzzer(true),
        ]
    } else {
        seq![Action::SetBuzzer(true)]
    }
}

/// Actions of an alert activation: the side effects, then the notification
/// of the new alert.
pub open spec fn spec_activation_actions(c: CoordView, a: Alert) -> Seq<Action> {
    spec_side_actions(c) + seq![Action::EmitAlertAdded(a)]
}

/// State after clearing an id: absent ids change nothing; removing the last
/// alert also clears any mute window and commands the buzzer off.
pub open spec fn clear_step(c: CoordView, k: Seq<char>) -> CoordView {
    if !c.alerts.contains_key(k) {
        c
    } else {
        let m = c.alerts.remove(k);
        if m.len() == 0 {
            CoordView {
                alerts: m,
                muted: false,
                deadline_ms: None,
                timer: None,
                buzzer_commanded: false,
                ..c
            }
        } else {
            CoordView { alerts: m, ..c }
        }
    }
}

/// Actions when the store has just become empty: clear any mute window,
/// then command the buzzer off.
pub open spec fn spec_no_active_actions(c: CoordView) -> Seq<Action> {
    if c.muted {
        seq![
            Action::CancelMuteTimer(c.timer->0),
            Action::EmitMuteChanged(unmuted_status()),
            Action::SetBuzzer(false),
        ]
    } else {
        seq![Action::SetBuzzer(false)]
    }
}

/// Actions of clearing an id: nothing for an absent id; otherwise the
/// removal notification, and the empty-store effects when the store emptied.
pub open spec fn spec_clear_actions(c: CoordView, k: Seq<char>) -> Seq<Action> {
    if !c.alerts.contains_key(k) {
        Seq::empty()
    } else {
        let removed = c.alerts[k];
        if c.alerts.remove(k).len() == 0 {
            seq![Action::EmitAlertRemoved(removed.id)] + spec_no_active_actions(
                CoordView { alerts: c.alerts.remove(k), ..c },
            )
        } else {
            seq![Action::EmitAlertRemoved(removed.id)]
        }
    }
}

/// Deadline of a mute window started at `now_ms`: the configured duration
/// later, or `now_ms` itself when that sum does not fit the clock's range.
pub open spec fn spec_mute_deadline(now_ms: i64, duration_ms: i64) -> i64 {
    if now_ms <= i64::MAX - duration_ms {
        (now_ms + duration_ms) as i64
    } else {
        now_ms
    }
}

/// The timer identifier after one was handed out.
pub open spec fn spec_next_timer_after(t: u64) -> u64 {
    if t == u64::MAX {
        0
    } else {
        (t + 1) as u64
    }
}

/// An alert built from alarm parameters: identity, device, type and
/// description are fixed by the parameters; the timestamp text is the local
/// rendering of the creation time and is machine-dependent.
pub open spec fn alert_matches_params(a: Alert, params: AlarmParams) -> bool {
    &&& a.id == params.id.value
    &&& a.alert_type == spec_map_alert_type(params.alarm_type@)
    &&& a.device == params.originator_name
    &&& a.description@ == spec_map_description(params.alarm_type@, &params.details)
}

/// Owns the alert store, the mute controller state, the commanded buzzer
/// state, and the stored refrigerator vector.
pub struct Coordinator {
    pub(crate) store: AlertStore,
    pub(crate) mute: MuteState,
    pub(crate) next_timer: u64,
    pub(crate) buzzer_commanded: bool,
    pub(crate) mute_duration_ms: i64,
    pub(crate) fridge: Vec<u8>,
}

impl View for Coordinator {
    type V = CoordView;

    closed spec fn view(&self) -> CoordView {
        CoordView {
            alerts: self.store@,
            muted: self.mute.muted(),
            deadline_ms: self.mute.deadline(),
            timer: self.mute.timer(),
            next_timer: self.next_timer,
            buzzer_commanded: self.buzzer_commanded,
            mute_duration_ms: self.mute_duration_ms,
            fridge: self.fridge@,
        }
    }
}

impl Coordinator {
    /// The internal store never holds an id twice.
    pub closed spec fn store_wf(&self) -> bool {
        self.store.wf()
    }

    /// The core invariant, which also holds between a store mutation and the
    /// buzzer command that follows it.
    pub open spec fn wf_core(&self) -> bool {
        &&& self.store_wf()
        &&& coord_view_wf_core(self@)
    }

    pub open spec fn wf(&self) -> bool {
        &&& self.store_wf()
        &&& coord_view_wf(self@)
    }

    /// Mute invariant: the muted flag, a set deadline, and a live timer
    /// come and go together, after every operation.
    pub proof fn lemma_wf_mute_invariant(&self)
        requires
            self.wf(),
        ensures
            self@.muted <==> self@.deadline_ms is Some,
            self@.muted <==> self@.timer is Some,
    {
    }

    pub fn new(mute_duration_ms: i64) -> (r: Coordinator)
        requires
            mute_duration_ms >= 1000,
        ensures
            r.wf(),
            r@.alerts == Map::<Seq<char>, Alert>::empty(),
            !r@.muted,
            r@.deadline_ms is None,
            r@.timer is None,
            r@.next_timer == 0,
            !r@.buzzer_commanded,
            r@.mute_duration_ms == mute_duration_ms,
            r@.fridge =~= seq![0u8, 0u8, 0u8, 0u8, 0u8, 0u8],
    {
        let fridge: Vec<u8> = vec![0u8, 0u8, 0u8, 0u8, 0u8, 0u8];
        let r = Coordinator {
            store: AlertStore::new(),
            mute: MuteState::default(),
            next_timer: 0,
            buzzer_commanded: false,
            mute_duration_ms,
            fridge,
        };
        assert(r@.fridge =~= seq![0u8, 0u8, 0u8, 0u8, 0u8, 0u8]);
        r
    }

    /// Swap the stored refrigerator vector for a validated new one,
    /// returning the previous vector for comparison.
    pub fn swap_fridge(&mut self, new_vector: Vec<u8>) -> (prev: Vec<u8>)
        requires
            old(self).wf(),
            new_vector@.len() == 6,
            forall|i: int| 0 <= i < new_vector@.len() ==> new_vector@[i] <= 1,
        ensures
            final(self).wf(),
            prev@ == old(self)@.fridge,
            final(self)@ == with_fridge(old(self)@, new_vector@),
    {
        let mut v = new_vector;
        core::mem::swap(&mut self.fridge, &mut v);
        v
    }

    /// The store is non-empty: some alert condition is currently active.
    pub fn has_active_alerts(&self) -> (r: bool)
        requires
            self.store_wf(),
        ensures
            r == (self@.alerts.len() != 0),
    {
        !self.store.is_empty()
    }

    /// Unordered list of the alerts now active.
    pub fn get_active_alerts(&self) -> (r: Vec<Alert>)
        requires
            self.store_wf(),
        ensures
            r@.len() == self@.alerts.len(),
            forall|j: int|
                0 <= j < r@.len() ==> self@.alerts.contains_key(#[trigger] r@[j].id@) && r@[j]
                    == self@.alerts[r@[j].id@],
            forall|k: Seq<char>|
                self@.alerts.contains_key(k) ==> exists|j: int|
                    0 <= j < r@.len() && r@[j].id@ == k,
    {
        self.store.snapshot_alerts()
    }

    /// The mute status as shown outward.
    pub fn snapshot_mute_state(&self) -> (r: MuteStatus)
        ensures
            mute_status_matches(r, self@.muted, self@.deadline_ms),
            !self@.muted && self@.deadline_ms is None ==> r == unmuted_status(),
    {
        MuteStatus {
            muted: self.mute.is_muted(),
            expires_at: format_deadline(self.mute.deadline_value()),
        }
    }

    /// The mute status as shown outward.
    pub fn get_mute_status(&self) -> (r: MuteStatus)
        ensures
            mute_status_matches(r, self@.muted, self@.deadline_ms),
            !self@.muted && self@.deadline_ms is None ==> r == unmuted_status(),
    {
        self.snapshot_mute_state()
    }

    /// End any mute window now: cancel the timer, clear the mute fields,
    /// report the change, and command the buzzer from store emptiness again.
    /// A no-op, with no report, when no mute window is live.
    pub fn force_unmute(&mut self) -> (r: (Option<MuteStatus>, Vec<Action>))
        requires
            old(self).wf(),
        ensures
            final(self).wf(),
            final(self)@ == (CoordView {
                muted: false,
                deadline_ms: None,
                timer: None,
                buzzer_commanded: old(self)@.alerts.len() != 0,
                ..old(self)@
            }),
            old(self)@.muted ==> r.0 == Some(unmuted_status()) && r.1@ == seq![
                Action::CancelMuteTimer(old(self)@.timer->0),
                Action::EmitMuteChanged(unmuted_status()),
                Action::SetBuzzer(old(self)@.alerts.len() != 0),
            ],
            !old(self)@.muted ==> r.0 is None && r.1@ == Seq::<Action>::empty(),
    {
        if self.mute.is_muted() {
            let mut acts: Vec<Action> = Vec::new();
            match self.mute.timer_value() {
                Some(t) => acts.push(Action::CancelMuteTimer(t)),
                None => {}
            }
            self.mute.clear();
            acts.push(Action::EmitMuteChanged(MuteStatus { muted: false, expires_at: None }));
            let on = self.has_active_alerts();
            self.buzzer_commanded = on;
            acts.push(Action::SetBuzzer(on));
            assert(acts@ =~= seq![
                Action::CancelMuteTimer(old(self)@.timer->0),
                Action::EmitMuteChanged(unmuted_status()),
                Action::SetBuzzer(old(self)@.alerts.len() != 0),
            ]);
            (Some(MuteStatus { muted: false, expires_at: None }), acts)
        } else {
            (None, Vec::new())
        }
    }

    /// Interrupt any mute window, then command the buzzer on. Used on every
    /// alert activation, which presupposes a non-empty store.
    pub fn handle_alert_activation_side_effects(&mut self) -> (acts: Vec<Action>)
        requires
            old(self).wf_core(),
            old(self)@.alerts.len() != 0,
        ensures
            final(self).wf(),
            final(self)@ == (CoordView {
                muted: false,
                deadline_ms: None,
                timer: None,
                buzzer_commanded: true,
                ..old(self)@
            }),
            acts@ == spec_side_actions(old(self)@),
    {
        let mut acts: Vec<Action> = Vec::new();
        if self.mute.is_muted() {
            match self.mute.timer_value() {
                Some(t) => acts.push(Action::CancelMuteTimer(t)),
                None => {}
            }
            self.mute.clear();
            acts.push(Action::EmitMuteChanged(MuteStatus { muted: false, expires_at: None }));
        }
        self.buzzer_commanded = true;
        acts.push(Action::SetBuzzer(true));
        assert(acts@ =~= spec_side_actions(old(self)@));
        acts
    }

    /// The store has just become empty: clear any mute window, then command
    /// the buzzer off.
    pub fn handle_no_active_alerts(&mut self) -> (acts: Vec<Action>)
        requires
            old(self).wf_core(),
            old(self)@.alerts.len() == 0,
        ensures
            final(self).wf(),
            final(self)@ == (CoordView {
                muted: false,
                deadline_ms: None,
                timer: None,
                buzzer_commanded: false,
                ..old(self)@
            }),
            acts@ == spec_no_active_actions(old(self)@),
    {
        let mut acts: Vec<Action> = Vec::new();
        if self.mute.is_muted() {
            match self.mute.timer_value() {
                Some(t) => acts.push(Action::CancelMuteTimer(t)),
                None => {}
            }
            self.mute.clear();
            acts.push(Action::EmitMuteChanged(MuteStatus { muted: false, expires_at: None }));
        }
        self.buzzer_commanded = false;
        acts.push(Action::SetBuzzer(false));
        assert(acts@ =~= spec_no_active_actions(old(self)@));
        acts
    }

    /// An alarm condition became active: upsert its alert, interrupt any
    /// mute window, command the buzzer on, and notify the front end.
    pub fn handle_active_alarm(&mut self, alert: Alert) -> (acts: Vec<Action>)
        requires
            old(self).wf(),
        ensures
            final(self).wf(),
            final(self)@ == activate_step(old(self)@, alert),
            acts@ == spec_activation_actions(old(self)@, alert),
    {
        let alert_for_emit = alert.clone();
        self.store.cache_alert(alert);
        proof {
            vstd::set::axiom_set_insert_len(old(self)@.alerts.dom(), alert_for_emit.id@);
            assert(self.store@.dom() =~= old(self)@.alerts.dom().insert(alert_for_emit.id@));
        }
        let mut acts = self.handle_alert_activation_side_effects();
        acts.push(Action::EmitAlertAdded(alert_for_emit));
        assert(acts@ =~= spec_activation_actions(old(self)@, alert_for_emit));
        acts
    }

    /// An alarm condition cleared, or the user removed its alert: remove the
    /// id if present, notify, and when the store emptied also clear any mute
    /// window and command the buzzer off.
    pub fn handle_cleared_alarm(&mut self, id: &str) -> (acts: Vec<Action>)
        requires
            old(self).wf(),
        ensures
            final(self).wf(),
            final(self)@ == clear_step(old(self)@, id@),
            acts@ == spec_clear_actions(old(self)@, id@),
    {
        match self.store.remove_alert_by_id(id) {
            Some(removed) => {
                proof {
                    vstd::set::axiom_set_remove_len(old(self)@.alerts.dom(), id@);
                    assert(self.store@.dom() =~= old(self)@.alerts.dom().remove(id@));
                }
                let mut acts: Vec<Action> = Vec::new();
                acts.push(Action::EmitAlertRemoved(removed.id));
                if self.store.is_empty() {
                    let mut rest = self.handle_no_active_alerts();
                    acts.append(&mut rest);
                }
                assert(acts@ =~= spec_clear_actions(old(self)@, id@));
                acts
            }
            None => {
                proof {
                    assert(old(self)@.alerts.remove(id@) =~= old(self)@.alerts);
                }
                let acts: Vec<Action> = Vec::new();
                assert(acts@ =~= spec_clear_actions(old(self)@, id@));
                acts
            }
        }
    }

    /// User-initiated removal; reports whether the alert existed.
    pub fn remove_alert(&mut self, id: &str) -> (r: (bool, Vec<Action>))
        requires
            old(self).wf(),
        ensures
            final(self).wf(),
            final(self)@ == clear_step(old(self)@, id@),
            r.1@ == spec_clear_actions(old(self)@, id@),
            r.0 == old(self)@.alerts.contains_key(id@),
    {
        let existed = self.store.contains(id);
        let acts = self.handle_cleared_alarm(id);
        (existed, acts)
    }

    /// A live mute timer fired: if its identifier is still current, end the
    /// mute window, command the buzzer from store emptiness, and notify.
    /// A superseded timer's identifier no longer matches and the call is a
    /// no-op.
    pub fn handle_mute_timeout(&mut self, timer_id: u64) -> (acts: Vec<Action>)
        requires
            old(self).wf(),
        ensures
            final(self).wf(),
            old(self)@.timer == Some(timer_id) ==> final(self)@ == (CoordView {
                muted: false,
                deadline_ms: None,
                timer: None,
                buzzer_commanded: old(self)@.alerts.len() != 0,
                ..old(self)@
            }) && acts@ == seq![
                Action::SetBuzzer(old(self)@.alerts.len() != 0),
                Action::EmitMuteChanged(unmuted_status()),
            ],
            old(self)@.timer != Some(timer_id) ==> final(self)@ == old(self)@ && acts@
                == Seq::<Action>::empty(),
    {
        let mut acts: Vec<Action> = Vec::new();
        if self.mute.timer_is(timer_id) {
            self.mute.clear();
            let on = self.has_active_alerts();
            self.buzzer_commanded = on;
            acts.push(Action::SetBuzzer(on));
            acts.push(Action::EmitMuteChanged(MuteStatus { muted: false, expires_at: None }));
            assert(acts@ =~= seq![
                Action::SetBuzzer(old(self)@.alerts.len() != 0),
                Action::EmitMuteChanged(unmuted_status()),
            ]);
        }
        acts
    }

    /// Start a mute window at `now_ms`: schedule the deadline timer, command
    /// the buzzer off, and notify. Returns the new status.
    pub fn mute_alerts_internal(&mut self, now_ms: i64) -> (r: (MuteStatus, Vec<Action>))
        requires
            old(self).wf(),
        ensures
            final(self).wf(),
            final(self)@ == (CoordView {
                muted: true,
                deadline_ms: Some(spec_mute_deadline(now_ms, old(self)@.mute_duration_ms)),
                timer: Some(old(self)@.next_timer),
                next_timer: spec_next_timer_after(old(self)@.next_timer),
                buzzer_commanded: false,
                ..old(self)@
            }),
            mute_status_matches(
                r.0,
                true,
                Some(spec_mute_deadline(now_ms, old(self)@.mute_duration_ms)),
            ),
            r.1@.len() == (if old(self)@.muted { 4int } else { 3int }),
            r.1@[0] == Action::ScheduleMuteTimer(
                old(self)@.next_timer,
                old(self)@.mute_duration_ms,
            ),
            old(self)@.muted ==> r.1@[1] == Action::CancelMuteTimer(old(self)@.timer->0),
            r.1@[r.1@.len() - 2] == Action::SetBuzzer(false),
            r.1@[r.1@.len() - 1] == Action::EmitMuteChanged(r.0),
    {
        let duration = self.mute_duration_ms;
        let deadline = if now_ms <= i64::MAX - duration {
            now_ms + duration
        } else {
            now_ms
        };
        let timer_id = self.next_timer;
        self.next_timer = if self.next_timer == u64::MAX {
            0
        } else {
            self.next_timer + 1
        };
        let mut acts: Vec<Action> = Vec::new();
        acts.push(Action::ScheduleMuteTimer(timer_id, duration));
        if self.mute.is_muted() {
            match self.mute.timer_value() {
                Some(t) => acts.push(Action::CancelMuteTimer(t)),
                None => {}
            }
        }
        self.mute.set_muted(deadline, timer_id);
        self.buzzer_commanded = false;
        acts.push(Action::SetBuzzer(false));
        let status = self.snapshot_mute_state();
        let status_for_emit = status.clone();
        acts.push(Action::EmitMuteChanged(status_for_emit));
        (status, acts)
    }

    /// User command: while muted, end the mute window and command the buzzer
    /// from store emptiness; while unmuted with an empty store, do nothing;
    /// while unmuted with active alerts, start a mute window at `now_ms`.
    /// Returns the status after the command.
    pub fn toggle_alerts_mute(&mut self, now_ms: i64) -> (r: (MuteStatus, Vec<Action>))
        requires
            old(self).wf(),
        ensures
            final(self).wf(),
            old(self)@.muted ==> {
                &&& final(self)@ == (CoordView {
                    muted: false,
                    deadline_ms: None,
                    timer: None,
                    buzzer_commanded: old(self)@.alerts.len() != 0,
                    ..old(self)@
                })
                &&& r.1@ == seq![
                    Action::CancelMuteTimer(old(self)@.timer->0),
                    Action::EmitMuteChanged(unmuted_status()),
                    Action::SetBuzzer(old(self)@.alerts.len() != 0),
                ]
                &&& r.0 == unmuted_status()
            },
            !old(self)@.muted && old(self)@.alerts.len() == 0 ==> final(self)@ == old(self)@
                && r.1@ == Seq::<Action>::empty() && r.0 == unmuted_status(),
            !old(self)@.muted && old(self)@.alerts.len() != 0 ==> {
                &&& final(self)@ == (CoordView {
                    muted: true,
                    deadline_ms: Some(spec_mute_deadline(now_ms, old(self)@.mute_duration_ms)),
                    timer: Some(old(self)@.next_timer),
                    next_timer: spec_next_timer_after(old(self)@.next_timer),
                    buzzer_commanded: false,
                    ..old(self)@
                })
                &&& mute_status_matches(
                    r.0,
                    true,
                    Some(spec_mute_deadline(now_ms, old(self)@.mute_duration_ms)),
                )
                &&& r.1@.len() == 3
                &&& r.1@[0] == Action::ScheduleMuteTimer(
                    old(self)@.next_timer,
                    old(self)@.mute_duration_ms,
                )
                &&& r.1@[1] == Action::SetBuzzer(false)
                &&& r.1@[2] == Action::EmitMuteChanged(r.0)
            },
    {
        if self.mute.is_muted() {
            let (_, acts) = self.force_unmute();
            let status = self.snapshot_mute_state();
            (status, acts)
        } else if !self.has_active_alerts() {
            (self.snapshot_mute_state(), Vec::new())
        } else {
            self.mute_alerts_internal(now_ms)
        }
    }

    /// Handle one alarm RPC envelope: ignored unless the method is "ALARM"
    /// (case-insensitive); an active alarm activates its alert, a cleared
    /// alarm clears its id, an unknown status is ignored.
    pub fn handle_rpc_payload(&mut self, envelope: &AlarmRpcEnvelope) -> (acts: Vec<Action>)
        requires
            old(self).wf(),
        ensures
            final(self).wf(),
            !spec_is_alarm_method(envelope.method@) || envelope.params.status is Unknown
                ==> final(self)@ == old(self)@ && acts@ == Seq::<Action>::empty(),
            spec_is_alarm_method(envelope.method@) && envelope.params.status is ActiveUnack
                ==> exists|a: Alert|
                {
                    &&& #[trigger] alert_matches_params(a, envelope.params)
                    &&& final(self)@ == activate_step(old(self)@, a)
                    &&& acts@ == spec_activation_actions(old(self)@, a)
                },
            spec_is_alarm_method(envelope.method@) && envelope.params.status is ClearedUnack
                ==> final(self)@ == clear_step(old(self)@, envelope.params.id.value@) && acts@
                == spec_clear_actions(old(self)@, envelope.params.id.value@),
    {
        if !is_alarm_method(envelope.method.as_str()) {
            return Vec::new();
        }
        match envelope.params.status {
            AlarmStatus::ActiveUnack => {
                let stamp = format_timestamp_ms(envelope.params.created_time);
                let alert = alert_from_params(&envelope.params, stamp);
                let ghost witness = alert;
                let acts = self.handle_active_alarm(alert);
                proof {
                    assert(alert_matches_params(witness, envelope.params));
                }
                acts
            }
            AlarmStatus::ClearedUnack => self.handle_cleared_alarm(
                envelope.params.id.value.as_str(),
            ),
            AlarmStatus::Unknown => Vec::new(),
        }
    }
}

/// Law: an alert activation always leaves the coordinator unmuted — an
/// activation while muted immediately clears the mute window, regardless of
/// the remaining deadline.
pub proof fn lemma_activation_clears_mute(c: CoordView, a: Alert)
    ensures
        !activate_step(c, a).muted,
        activate_step(c, a).deadline_ms is None,
        activate_step(c, a).timer is None,
{
}

/// Law: the commanded buzzer state of a well-formed coordinator is the pure
/// function of store emptiness and mute: commanded on iff some alert is
/// active and no mute window is.
pub proof fn lemma_buzzer_commanded_pure(c: CoordView)
    requires
        coord_view_wf(c),
    ensures
        c.buzzer_commanded == (c.alerts.len() != 0 && !c.muted),
{
}

/// Law: the buzzer state is a pure function of store emptiness, mute, and
/// the enable flag: a driver that has carried out every command of a
/// well-formed coordinator on healthy hardware blinks exactly when the
/// buzzer is enabled, some alert is active, and no mute window is. (On
/// failing hardware the blink task cannot run, so the equation needs the
/// commands to have taken effect.)
pub proof fn lemma_buzzer_state_pure(c: CoordView, d: crate::buzzer::BuzzerDriver)
    requires
        coord_view_wf(c),
        d.blink_active() == (d.enabled() && c.buzzer_commanded),
    ensures
        d.blink_active() == crate::buzzer::spec_buzzer_should_sound(
            d.enabled(),
            c.alerts.len() == 0,
            c.muted,
        ),
{
}

} // verus!
