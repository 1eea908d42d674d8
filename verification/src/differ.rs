//! The refrigerator vector differ: validates an inbound 6-bit status
//! vector, swaps it with the stored one, and turns each bit transition into
//! a synthetic alert activation (0 to 1) or clearing (1 to 0) routed through
//! the coordinator, followed by a device-status notification.

use vstd::prelude::*;
use crate::alert::{Alert, AlertType};
use crate::coordinator::{activate_step, clear_step, spec_activation_actions, spec_clear_actions,
    with_fridge, Action, Coordinator, CoordView, DeviceStatus};
use crate::timefmt::{format_source_timestamp, utc_minus6_stamp_of};

verus! {

/// Why an inbound status payload was dropped.
#[derive(Clone, Copy, Debug, PartialEq, Eq, Structural)]
pub enum StatusVectorError {
    /// The payload is not a JSON array of bytes.
    Unparsable,
    /// The parsed array is not exactly 6 entries of 0 or 1.
    Invalid,
}

/// A status vector is exactly 6 entries, each 0 or 1.
pub open spec fn valid_status_vector(s: Seq<u8>) -> bool {
    &&& s.len() == 6
    &&& forall|i: int| 0 <= i < s.len() ==> s[i] <= 1
}

/// Accepts exactly the vectors of 6 entries, each 0 or 1.
pub fn validate_status_vector(v: &Vec<u8>) -> (r: bool)
    ensures
        r == valid_status_vector(v@),
{
    if v.len() != 6 {
        return false;
    }
    let mut i: usize = 0;
    while i < 6
        invariant
            v@.len() == 6,
            0 <= i <= 6,
            forall|j: int| 0 <= j < i ==> v@[j] <= 1,
        decreases 6 - i,
    {
        if v[i] > 1 {
            return false;
        }
        i += 1;
    }
    true
}

/// What a JSON text parses to as an array of bytes, if anything.
pub uninterp spec fn json_byte_vector_of(s: Seq<u8>) -> Option<Seq<u8>>;

/// Relies on serde_json's `from_slice` for `Vec<u8>`: what a JSON text
/// parses to depends on its bytes alone.
#[verifier::external_body]
fn parse_json_byte_vector(payload: &[u8]) -> (r: Option<Vec<u8>>)
    ensures
        match r {
            Some(v) => json_byte_vector_of(payload@) == Some(v@),
            None => json_byte_vector_of(payload@) is None,
        },
{
    serde_json::from_slice::<Vec<u8>>(payload).ok()
}

/// Synthetic alert id for refrigerator `i`.
pub open spec fn refrigerator_alert_id(i: int) -> Seq<char> {
    if i == 0 {
        "refrigerator-temp-0"@
    } else if i == 1 {
        "refrigerator-temp-1"@
    } else if i == 2 {
        "refrigerator-temp-2"@
    } else if i == 3 {
        "refrigerator-temp-3"@
    } else if i == 4 {
        "refrigerator-temp-4"@
    } else {
        "refrigerator-temp-5"@
    }
}

/// Fixed device name for refrigerator `i`.
pub open spec fn refrigerator_device(i: int) -> Seq<char> {
    if i == 0 {
        "Refrigerador 1"@
    } else if i == 1 {
        "Refrigerador 2"@
    } else if i == 2 {
        "Refrigerador 3"@
    } else if i == 3 {
        "Refrigerador 4"@
    } else if i == 4 {
        "Refrigerador 5"@
    } else {
        "Refrigerador 6"@
    }
}

/// Fixed description of a refrigerator temperature alert.
pub open spec fn refrigerator_description() -> Seq<char> {
    "Temperatura fuera de rango 2 - 8 °C"@
}

pub fn refrigerator_alert_id_value(i: usize) -> (r: String)
    requires
        i < 6,
    ensures
        r@ == refrigerator_alert_id(i as int),
{
    let s: &str = match i {
        0 => "refrigerator-temp-0",
        1 => "refrigerator-temp-1",
        2 => "refrigerator-temp-2",
        3 => "refrigerator-temp-3",
        4 => "refrigerator-temp-4",
        _ => "refrigerator-temp-5",
    };
    s.to_owned()
}

pub fn refrigerator_device_value(i: usize) -> (r: String)
    requires
        i < 6,
    ensures
        r@ == refrigerator_device(i as int),
{
    let s: &str = match i {
        0 => "Refrigerador 1",
        1 => "Refrigerador 2",
        2 => "Refrigerador 3",
        3 => "Refrigerador 4",
        4 => "Refrigerador 5",
        _ => "Refrigerador 6",
    };
    s.to_owned()
}

/// The alert synthesized for refrigerator `i` going out of range at `stamp`.
pub open spec fn is_fridge_alert(a: Alert, i: int, stamp: Seq<char>) -> bool {
    &&& a.id@ == refrigerator_alert_id(i)
    &&& a.date_time@ == stamp
    &&& a.alert_type == AlertType::TempUp
    &&& a.device@ == refrigerator_device(i)
    &&& a.description@ == refrigerator_description()
}

/// `w` lists, for every index that flips 0 to 1 between `prev` and `v`, the
/// alert synthesized for it.
pub open spec fn fridge_witnesses(w: Seq<Alert>, prev: Seq<u8>, v: Seq<u8>, stamp: Seq<char>) -> bool {
    &&& w.len() == 6
    &&& forall|i: int|
        0 <= i < 6 && prev[i] == 0 && v[i] == 1 ==> is_fridge_alert(#[trigger] w[i], i, stamp)
}

/// Coordinator state after routing the transitions of the first `k` indices
/// between `prev` and `v`: an unchanged bit does nothing, 0 to 1 activates
/// the synthesized alert `w[i]`, 1 to 0 clears the synthetic id.
pub open spec fn apply_vector_steps(
    c: CoordView,
    prev: Seq<u8>,
    v: Seq<u8>,
    w: Seq<Alert>,
    k: int,
) -> CoordView
    decreases k,
{
    if k <= 0 {
        c
    } else {
        let c1 = apply_vector_steps(c, prev, v, w, k - 1);
        let i = k - 1;
        if prev[i] == v[i] {
            c1
        } else if v[i] == 1 {
            activate_step(c1, w[i])
        } else {
            clear_step(c1, refrigerator_alert_id(i))
        }
    }
}

/// The actions of those same transitions, in index order.
pub open spec fn vector_step_actions(
    c: CoordView,
    prev: Seq<u8>,
    v: Seq<u8>,
    w: Seq<Alert>,
    k: int,
) -> Seq<Action>
    decreases k,
{
    if k <= 0 {
        Seq::empty()
    } else {
        let c1 = apply_vector_steps(c, prev, v, w, k - 1);
        let acc = vector_step_actions(c, prev, v, w, k - 1);
        let i = k - 1;
        if prev[i] == v[i] {
            acc
        } else if v[i] == 1 {
            acc + spec_activation_actions(c1, w[i])
        } else {
            acc + spec_clear_actions(c1, refrigerator_alert_id(i))
        }
    }
}

/// The fold reads only the first `k` witnesses.
pub proof fn lemma_vector_steps_prefix(
    c: CoordView,
    prev: Seq<u8>,
    v: Seq<u8>,
    w1: Seq<Alert>,
    w2: Seq<Alert>,
    k: int,
)
    requires
        forall|j: int| 0 <= j < k ==> w1[j] == w2[j],
    ensures
        apply_vector_steps(c, prev, v, w1, k) == apply_vector_steps(c, prev, v, w2, k),
        vector_step_actions(c, prev, v, w1, k) == vector_step_actions(c, prev, v, w2, k),
    decreases k,
{
    if k > 0 {
        lemma_vector_steps_prefix(c, prev, v, w1, w2, k - 1);
    }
}

/// An exact copy of a byte vector.
fn copy_status_vector(v: &Vec<u8>) -> (r: Vec<u8>)
    ensures
        r@ == v@,
{
    let mut r: Vec<u8> = Vec::new();
    let mut i: usize = 0;
    while i < v.len()
        invariant
            0 <= i <= v@.len(),
            r@ =~= v@.subrange(0, i as int),
        decreases v@.len() - i,
    {
        r.push(v[i]);
        assert(r@ =~= v@.subrange(0, i + 1));
        i += 1;
    }
    assert(r@ =~= v@);
    r
}

impl Coordinator {
    /// Apply a validated status vector stamped `stamp`: swap the stored
    /// vector for `v`, route each 0 to 1 transition through the activation
    /// path and each 1 to 0 transition through the clearing path, in index
    /// order, then report the new vector.
    pub fn apply_status_vector(&mut self, v: Vec<u8>, stamp: String) -> (acts: Vec<Action>)
        requires
            old(self).wf(),
            valid_status_vector(v@),
        ensures
            final(self).wf(),
            exists|w: Seq<Alert>|
                {
                    &&& #[trigger] fridge_witnesses(w, old(self)@.fridge, v@, stamp@)
                    &&& final(self)@ == apply_vector_steps(
                        with_fridge(old(self)@, v@),
                        old(self)@.fridge,
                        v@,
                        w,
                        6,
                    )
                    &&& acts@ == vector_step_actions(
                        with_fridge(old(self)@, v@),
                        old(self)@.fridge,
                        v@,
                        w,
                        6,
                    ) + seq![Action::EmitDeviceStatus(DeviceStatus { timestamp: stamp, status: v })]
                },
    {
        let ghost vv = v@;
        let ghost prev = self@.fridge;
        let ghost c0 = with_fridge(old(self)@, vv);
        let ghost stamp_view = stamp@;
        let new_fridge = copy_status_vector(&v);
        let prev_vec = self.swap_fridge(new_fridge);
        assert(self@ == c0);
        let mut acts: Vec<Action> = Vec::new();
        let ghost mut w: Seq<Alert> = Seq::empty();
        let mut i: usize = 0;
        while i < 6
            invariant
                self.wf(),
                0 <= i <= 6,
                w.len() == i as int,
                prev_vec@ == prev,
                v@ == vv,
                valid_status_vector(vv),
                prev.len() == 6,
                forall|j: int| 0 <= j < 6 ==> prev[j] <= 1,
                stamp@ == stamp_view,
                self@ == apply_vector_steps(c0, prev, vv, w, i as int),
                acts@ == vector_step_actions(c0, prev, vv, w, i as int),
                forall|j: int|
                    0 <= j < i && prev[j] == 0 && vv[j] == 1 ==> is_fridge_alert(
                        #[trigger] w[j],
                        j,
                        stamp_view,
                    ),
            decreases 6 - i,
        {
            let ghost w_old = w;
            let pb = prev_vec[i];
            let nb = v[i];
            if pb != nb {
                if nb == 1 {
                    let alert = Alert {
                        id: refrigerator_alert_id_value(i),
                        date_time: stamp.clone(),
                        alert_type: AlertType::TempUp,
                        device: refrigerator_device_value(i),
                        description: "Temperatura fuera de rango 2 - 8 °C".to_owned(),
                    };
                    let ghost ga = alert;
                    proof {
                        w = w.push(ga);
                    }
                    let mut sub = self.handle_active_alarm(alert);
                    acts.append(&mut sub);
                } else {
                    let id = refrigerator_alert_id_value(i);
                    proof {
                        w = w.push(vstd::pervasive::arbitrary());
                    }
                    let mut sub = self.handle_cleared_alarm(id.as_str());
                    acts.append(&mut sub);
                }
            } else {
                proof {
                    w = w.push(vstd::pervasive::arbitrary());
                }
            }
            proof {
                lemma_vector_steps_prefix(c0, prev, vv, w_old, w, i as int);
            }
            i += 1;
        }
        let ghost w_final = w;
        acts.push(Action::EmitDeviceStatus(DeviceStatus { timestamp: stamp, status: v }));
        proof {
            assert(fridge_witnesses(w_final, prev, vv, stamp_view));
            assert(acts@ == vector_step_actions(c0, prev, vv, w_final, 6) + seq![
                Action::EmitDeviceStatus(DeviceStatus { timestamp: stamp, status: v }),
            ]);
        }
        acts
    }

    /// Handle one inbound status payload: parse it as a JSON array of bytes,
    /// validate it as a 6-bit vector, compute its timestamp (the UTC-6
    /// rendering of the source timestamp, or the caller's current local
    /// stamp when that does not parse), and apply it. A payload that does
    /// not parse or validate is dropped without touching any state.
    pub fn handle_status_vector(
        &mut self,
        payload: &[u8],
        source_timestamp: &str,
        now_local_stamp: String,
    ) -> (r: Result<Vec<Action>, StatusVectorError>)
        requires
            old(self).wf(),
        ensures
            final(self).wf(),
            json_byte_vector_of(payload@) is None ==> r == Err::<
                Vec<Action>,
                StatusVectorError,
            >(StatusVectorError::Unparsable) && final(self)@ == old(self)@,
            json_byte_vector_of(payload@) matches Some(pv) ==> {
                &&& !valid_status_vector(pv) ==> r == Err::<
                    Vec<Action>,
                    StatusVectorError,
                >(StatusVectorError::Invalid) && final(self)@ == old(self)@
                &&& valid_status_vector(pv) ==> r is Ok && exists|
                    w: Seq<Alert>,
                    vec: Vec<u8>,
                    st: String,
                |
                    #![trigger fridge_witnesses(w, old(self)@.fridge, vec@, st@)]
                {
                    &&& vec@ == pv
                    &&& st@ == spec_source_stamp(source_timestamp@, now_local_stamp@)
                    &&& fridge_witnesses(w, old(self)@.fridge, pv, st@)
                    &&& final(self)@ == apply_vector_steps(
                        with_fridge(old(self)@, pv),
                        old(self)@.fridge,
                        pv,
                        w,
                        6,
                    )
                    &&& r->Ok_0@ == vector_step_actions(
                        with_fridge(old(self)@, pv),
                        old(self)@.fridge,
                        pv,
                        w,
                        6,
                    ) + seq![Action::EmitDeviceStatus(DeviceStatus { timestamp: st, status: vec })]
                }
            },
    {
        let parsed = match parse_json_byte_vector(payload) {
            Some(p) => p,
            None => {
                return Err(StatusVectorError::Unparsable);
            }
        };
        if !validate_status_vector(&parsed) {
            return Err(StatusVectorError::Invalid);
        }
        let stamp = match format_source_timestamp(source_timestamp) {
            Some(t) => t,
            None => now_local_stamp,
        };
        let ghost gv = parsed;
        let ghost gst = stamp;
        let acts = self.apply_status_vector(parsed, stamp);
        proof {
            let w0 = choose|w: Seq<Alert>|
                {
                    &&& #[trigger] fridge_witnesses(w, old(self)@.fridge, gv@, gst@)
                    &&& final(self)@ == apply_vector_steps(
                        with_fridge(old(self)@, gv@),
                        old(self)@.fridge,
                        gv@,
                        w,
                        6,
                    )
                    &&& acts@ == vector_step_actions(
                        with_fridge(old(self)@, gv@),
                        old(self)@.fridge,
                        gv@,
                        w,
                        6,
                    ) + seq![
                        Action::EmitDeviceStatus(DeviceStatus { timestamp: gst, status: gv }),
                    ]
                };
            assert(fridge_witnesses(w0, old(self)@.fridge, gv@, gst@));
        }
        Ok(acts)
    }
}

/// The timestamp text used for a status vector: the UTC-6 rendering of the
/// source timestamp when it parses as RFC3339, the caller's current local
/// stamp otherwise.
pub open spec fn spec_source_stamp(source: Seq<char>, fallback: Seq<char>) -> Seq<char> {
    match utc_minus6_stamp_of(source) {
        Some(t) => t,
        None => fallback,
    }
}

/// Law: feeding a vector equal to the stored one produces no transitions:
/// the state is unchanged and no per-index action is taken.
pub proof fn lemma_same_vector_no_transitions(c: CoordView, v: Seq<u8>, w: Seq<Alert>, k: int)
    ensures
        apply_vector_steps(c, v, v, w, k) == c,
        vector_step_actions(c, v, v, w, k) == Seq::<Action>::empty(),
    decreases k,
{
    if k > 0 {
        lemma_same_vector_no_transitions(c, v, w, k - 1);
    }
}

/// The six synthetic alert ids are pairwise distinct.
pub proof fn lemma_refrigerator_ids_distinct()
    ensures
        forall|i: int, j: int|
            0 <= i < 6 && 0 <= j < 6 && i != j ==> refrigerator_alert_id(i)
                != refrigerator_alert_id(j),
{
    broadcast use vstd::string::group_string_axioms;

    reveal_strlit("refrigerator-temp-0");
    reveal_strlit("refrigerator-temp-1");
    reveal_strlit("refrigerator-temp-2");
    reveal_strlit("refrigerator-temp-3");
    reveal_strlit("refrigerator-temp-4");
    reveal_strlit("refrigerator-temp-5");
    assert forall|i: int, j: int|
        0 <= i < 6 && 0 <= j < 6 && i != j implies refrigerator_alert_id(i)
        != refrigerator_alert_id(j) by {
        assert(refrigerator_alert_id(i).len() == 19);
        assert(refrigerator_alert_id(i)[18] != refrigerator_alert_id(j)[18]);
    }
}

/// After feeding `v` against an all-zero stored vector, the store holds what
/// it held before plus exactly the synthetic ids of the first `k` indices
/// where `v` is 1.
proof fn lemma_feed_from_zero(c: CoordView, z: Seq<u8>, v: Seq<u8>, w: Seq<Alert>, k: int)
    requires
        0 <= k <= 6,
        forall|i: int| 0 <= i < 6 ==> z[i] == 0,
        valid_status_vector(v),
        c.alerts.dom().finite(),
        forall|j: int|
            0 <= j < 6 ==> (v[j] == 1 ==> (#[trigger] w[j]).id@ == refrigerator_alert_id(j)),
    ensures
        apply_vector_steps(c, z, v, w, k).alerts.dom().finite(),
        forall|key: Seq<char>|
            apply_vector_steps(c, z, v, w, k).alerts.contains_key(key) <==> (
            c.alerts.contains_key(key) || exists|j: int|
                0 <= j < k && v[j] == 1 && key == refrigerator_alert_id(j)),
    decreases k,
{
    if k > 0 {
        lemma_feed_from_zero(c, z, v, w, k - 1);
        let i = k - 1;
        let prev_c = apply_vector_steps(c, z, v, w, k - 1);
        let cur = apply_vector_steps(c, z, v, w, k);
        if v[i] == 1 {
            assert(cur.alerts == prev_c.alerts.insert(w[i].id@, w[i]));
            assert forall|key: Seq<char>| cur.alerts.contains_key(key) implies (
            c.alerts.contains_key(key) || exists|j: int|
                0 <= j < k && v[j] == 1 && key == refrigerator_alert_id(j)) by {
                if key == w[i].id@ {
                    assert(0 <= i < k && v[i] == 1 && key == refrigerator_alert_id(i));
                }
            }
            assert forall|key: Seq<char>|
                (c.alerts.contains_key(key) || exists|j: int|
                    0 <= j < k && v[j] == 1 && key == refrigerator_alert_id(
                        j,
                    )) implies cur.alerts.contains_key(key) by {
                if !c.alerts.contains_key(key) {
                    let j = choose|j: int|
                        0 <= j < k && v[j] == 1 && key == refrigerator_alert_id(j);
                    if j < k - 1 {
                        assert(prev_c.alerts.contains_key(key));
                    } else {
                        assert(key == w[i].id@);
                    }
                }
            }
        } else {
            assert(v[i] == z[i]);
            assert(cur == prev_c);
            assert forall|key: Seq<char>|
                (c.alerts.contains_key(key) || exists|j: int|
                    0 <= j < k && v[j] == 1 && key == refrigerator_alert_id(
                        j,
                    )) implies cur.alerts.contains_key(key) by {
                if !c.alerts.contains_key(key) {
                    let j = choose|j: int|
                        0 <= j < k && v[j] == 1 && key == refrigerator_alert_id(j);
                    assert(0 <= j < k - 1 && v[j] == 1 && key == refrigerator_alert_id(j));
                }
            }
        }
    }
}

/// Feeding the all-zero vector against a stored vector `v` clears, index by
/// index, exactly the synthetic ids where `v` is 1: after `k` indices only
/// those at `k` or beyond remain.
proof fn lemma_feed_to_zero(c1: CoordView, v: Seq<u8>, z: Seq<u8>, w: Seq<Alert>, k: int)
    requires
        0 <= k <= 6,
        forall|i: int| 0 <= i < 6 ==> z[i] == 0,
        valid_status_vector(v),
        c1.alerts.dom().finite(),
        forall|key: Seq<char>|
            c1.alerts.contains_key(key) <==> exists|j: int|
                0 <= j < 6 && v[j] == 1 && key == refrigerator_alert_id(j),
    ensures
        apply_vector_steps(c1, v, z, w, k).alerts.dom().finite(),
        forall|key: Seq<char>|
            apply_vector_steps(c1, v, z, w, k).alerts.contains_key(key) <==> exists|j: int|
                k <= j < 6 && v[j] == 1 && key == refrigerator_alert_id(j),
    decreases k,
{
    lemma_refrigerator_ids_distinct();
    if k > 0 {
        lemma_feed_to_zero(c1, v, z, w, k - 1);
        let i = k - 1;
        let prev_c = apply_vector_steps(c1, v, z, w, k - 1);
        let cur = apply_vector_steps(c1, v, z, w, k);
        if v[i] == 1 {
            assert(prev_c.alerts.contains_key(refrigerator_alert_id(i))) by {
                assert(k - 1 <= i < 6 && v[i] == 1 && refrigerator_alert_id(i)
                    == refrigerator_alert_id(i));
            }
            assert(cur.alerts == prev_c.alerts.remove(refrigerator_alert_id(i)));
            assert forall|key: Seq<char>| cur.alerts.contains_key(key) implies exists|j: int|
                k <= j < 6 && v[j] == 1 && key == refrigerator_alert_id(j) by {
                let j = choose|j: int|
                    k - 1 <= j < 6 && v[j] == 1 && key == refrigerator_alert_id(j);
                assert(key != refrigerator_alert_id(i));
                assert(j != i);
                assert(k <= j < 6 && v[j] == 1 && key == refrigerator_alert_id(j));
            }
            assert forall|key: Seq<char>|
                (exists|j: int|
                    k <= j < 6 && v[j] == 1 && key == refrigerator_alert_id(
                        j,
                    )) implies cur.alerts.contains_key(key) by {
                let j = choose|j: int| k <= j < 6 && v[j] == 1 && key == refrigerator_alert_id(j);
                assert(k - 1 <= j < 6 && v[j] == 1 && key == refrigerator_alert_id(j));
                assert(prev_c.alerts.contains_key(key));
                assert(key != refrigerator_alert_id(i));
            }
        } else {
            assert(v[i] == z[i]);
            assert(cur == prev_c);
            assert forall|key: Seq<char>| cur.alerts.contains_key(key) implies exists|j: int|
                k <= j < 6 && v[j] == 1 && key == refrigerator_alert_id(j) by {
                let j = choose|j: int|
                    k - 1 <= j < 6 && v[j] == 1 && key == refrigerator_alert_id(j);
                assert(j != i);
                assert(k <= j < 6 && v[j] == 1 && key == refrigerator_alert_id(j));
            }
            assert forall|key: Seq<char>|
                (exists|j: int|
                    k <= j < 6 && v[j] == 1 && key == refrigerator_alert_id(
                        j,
                    )) implies cur.alerts.contains_key(key) by {
                let j = choose|j: int| k <= j < 6 && v[j] == 1 && key == refrigerator_alert_id(j);
                assert(k - 1 <= j < 6 && v[j] == 1 && key == refrigerator_alert_id(j));
            }
        }
    }
}

/// Law: from an empty store and an all-clear stored vector, feeding a status
/// vector and then the all-zero vector round-trips the store back to empty:
/// every synthesized alert was cleared again.
pub proof fn lemma_vector_round_trip(c: CoordView, v: Seq<u8>, w1: Seq<Alert>, w2: Seq<Alert>)
    requires
        c.alerts.dom().finite(),
        c.alerts.len() == 0,
        c.fridge.len() == 6,
        forall|i: int| 0 <= i < 6 ==> c.fridge[i] == 0,
        valid_status_vector(v),
        forall|j: int|
            0 <= j < 6 ==> (v[j] == 1 ==> (#[trigger] w1[j]).id@ == refrigerator_alert_id(j)),
    ensures
        ({
            let c1 = apply_vector_steps(with_fridge(c, v), c.fridge, v, w1, 6);
            let c2 = apply_vector_steps(with_fridge(c1, c.fridge), v, c.fridge, w2, 6);
            c2.alerts.len() == 0
        }),
{
    let c1 = apply_vector_steps(with_fridge(c, v), c.fridge, v, w1, 6);
    let c2 = apply_vector_steps(with_fridge(c1, c.fridge), v, c.fridge, w2, 6);
    c.alerts.dom().lemma_len0_is_empty();
    assert(forall|key: Seq<char>| !c.alerts.contains_key(key));
    lemma_feed_from_zero(with_fridge(c, v), c.fridge, v, w1, 6);
    assert forall|key: Seq<char>|
        c1.alerts.contains_key(key) <==> exists|j: int|
            0 <= j < 6 && v[j] == 1 && key == refrigerator_alert_id(j) by {
        assert(apply_vector_steps(with_fridge(c, v), c.fridge, v, w1, 6).alerts.contains_key(key)
            <==> (with_fridge(c, v).alerts.contains_key(key) || exists|j: int|
            0 <= j < 6 && v[j] == 1 && key == refrigerator_alert_id(j)));
        assert(!c.alerts.contains_key(key));
    }
    lemma_feed_to_zero(with_fridge(c1, c.fridge), v, c.fridge, w2, 6);
    assert(forall|key: Seq<char>| !c2.alerts.contains_key(key));
    assert(c2.alerts.dom() =~= Set::empty());
}

} // verus!
