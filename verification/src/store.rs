//! The alert store: a mapping from alert id to alert record.
//!
//! The store is held as a vector with pairwise-distinct ids and is modelled
//! as a `Map` from the id's characters to the alert. An id is present exactly
//! while its underlying condition is active and not user-removed; "has active
//! alerts" is the store being non-empty.

use vstd::prelude::*;
use crate::alert::Alert;
use crate::strutil::str_eq;

verus! {

/// Mathematical contents of a sequence of alerts: id to alert, later
/// entries overwriting earlier ones.
pub open spec fn map_of(s: Seq<Alert>) -> Map<Seq<char>, Alert>
    decreases s.len(),
{
    if s.len() == 0 {
        Map::empty()
    } else {
        map_of(s.drop_last()).insert(s.last().id@, s.last())
    }
}

/// The ids in the sequence are pairwise distinct.
pub open spec fn unique_ids(s: Seq<Alert>) -> bool {
    forall|i: int, j: int| 0 <= i < j < s.len() ==> s[i].id@ != s[j].id@
}

pub proof fn lemma_map_of_contains(s: Seq<Alert>, k: Seq<char>)
    ensures
        map_of(s).contains_key(k) <==> exists|i: int| 0 <= i < s.len() && s[i].id@ == k,
    decreases s.len(),
{
    if s.len() > 0 {
        let dl = s.drop_last();
        lemma_map_of_contains(dl, k);
        if map_of(s).contains_key(k) {
            if s.last().id@ == k {
                assert(s[s.len() - 1].id@ == k);
            } else {
                let i = choose|i: int| 0 <= i < dl.len() && dl[i].id@ == k;
                assert(s[i].id@ == k);
            }
        }
        if exists|i: int| 0 <= i < s.len() && s[i].id@ == k {
            let i = choose|i: int| 0 <= i < s.len() && s[i].id@ == k;
            if i < s.len() - 1 {
                assert(dl[i].id@ == k);
            }
        }
    }
}

pub proof fn lemma_map_of_index(s: Seq<Alert>, i: int)
    requires
        unique_ids(s),
        0 <= i < s.len(),
    ensures
        map_of(s).contains_key(s[i].id@),
        map_of(s)[s[i].id@] == s[i],
    decreases s.len(),
{
    lemma_map_of_contains(s, s[i].id@);
    if i < s.len() - 1 {
        let dl = s.drop_last();
        lemma_map_of_index(dl, i);
    }
}

pub proof fn lemma_map_of_len(s: Seq<Alert>)
    requires
        unique_ids(s),
    ensures
        map_of(s).dom().finite(),
        map_of(s).len() == s.len(),
    decreases s.len(),
{
    if s.len() > 0 {
        let dl = s.drop_last();
        lemma_map_of_len(dl);
        lemma_map_of_contains(dl, s.last().id@);
        assert(!map_of(dl).contains_key(s.last().id@));
        assert(map_of(s).dom() =~= map_of(dl).dom().insert(s.last().id@));
        vstd::set::axiom_set_insert_len(map_of(dl).dom(), s.last().id@);
    }
}

pub proof fn lemma_map_of_update(s: Seq<Alert>, i: int, a: Alert)
    requires
        unique_ids(s),
        0 <= i < s.len(),
        s[i].id@ == a.id@,
    ensures
        map_of(s.update(i, a)) =~= map_of(s).insert(a.id@, a),
    decreases s.len(),
{
    let dl = s.drop_last();
    if i == s.len() - 1 {
        assert(s.update(i, a).drop_last() =~= dl);
        assert(s.update(i, a).last() == a);
    } else {
        lemma_map_of_update(dl, i, a);
        assert(s.update(i, a).drop_last() =~= dl.update(i, a));
        assert(s.update(i, a).last() == s.last());
        assert(s[i].id@ != s.last().id@);
    }
}

pub proof fn lemma_map_of_remove(s: Seq<Alert>, i: int)
    requires
        unique_ids(s),
        0 <= i < s.len(),
    ensures
        map_of(s.remove(i)) =~= map_of(s).remove(s[i].id@),
    decreases s.len(),
{
    let dl = s.drop_last();
    if i == s.len() - 1 {
        assert(s.remove(i) =~= dl);
        lemma_map_of_contains(dl, s.last().id@);
        assert(!map_of(dl).contains_key(s.last().id@));
    } else {
        lemma_map_of_remove(dl, i);
        assert(s.remove(i).drop_last() =~= dl.remove(i));
        assert(s.remove(i).last() == s.last());
        assert(s[i].id@ != s.last().id@);
    }
}

/// Concurrent map from alert identifier to alert record; pure data, no I/O.
pub struct AlertStore {
    alerts: Vec<Alert>,
}

impl View for AlertStore {
    type V = Map<Seq<char>, Alert>;

    closed spec fn view(&self) -> Map<Seq<char>, Alert> {
        map_of(self.alerts@)
    }
}

impl AlertStore {
    /// The internal vector never holds the same id twice.
    pub closed spec fn wf(&self) -> bool {
        unique_ids(self.alerts@)
    }

    pub fn new() -> (r: AlertStore)
        ensures
            r.wf(),
            r@ == Map::<Seq<char>, Alert>::empty(),
            r@.len() == 0,
    {
        let r = AlertStore { alerts: Vec::new() };
        proof {
            lemma_map_of_len(r.alerts@);
        }
        r
    }

    /// Index of the alert with this id, if present.
    fn find_index(&self, id: &str) -> (r: Option<usize>)
        ensures
            match r {
                Some(i) => i < self.alerts@.len() && self.alerts@[i as int].id@ == id@,
                None => forall|i: int| 0 <= i < self.alerts@.len() ==> self.alerts@[i].id@ != id@,
            },
    {
        let mut i: usize = 0;
        while i < self.alerts.len()
            invariant
                0 <= i <= self.alerts@.len(),
                forall|j: int| 0 <= j < i ==> self.alerts@[j].id@ != id@,
            decreases self.alerts@.len() - i,
        {
            if str_eq(self.alerts[i].id.as_str(), id) {
                return Some(i);
            }
            i += 1;
        }
        None
    }

    /// Idempotent overwrite by id.
    pub fn cache_alert(&mut self, alert: Alert)
        requires
            old(self).wf(),
        ensures
            final(self).wf(),
            final(self)@ == old(self)@.insert(alert.id@, alert),
    {
        let ghost ghost_alert = alert;
        match self.find_index(alert.id.as_str()) {
            Some(i) => {
                proof {
                    lemma_map_of_update(self.alerts@, i as int, ghost_alert);
                }
                self.alerts.set(i, alert);
                assert(unique_ids(self.alerts@));
            }
            None => {
                proof {
                    let s = self.alerts@.push(ghost_alert);
                    assert(s.drop_last() =~= self.alerts@);
                }
                self.alerts.push(alert);
                assert(unique_ids(self.alerts@));
            }
        }
    }

    /// Remove by id; returns the removed alert when the id was present.
    pub fn remove_alert_by_id(&mut self, id: &str) -> (r: Option<Alert>)
        requires
            old(self).wf(),
        ensures
            final(self).wf(),
            final(self)@ == old(self)@.remove(id@),
            r is Some <==> old(self)@.contains_key(id@),
            r is Some ==> r->0 == old(self)@[id@] && r->0.id@ == id@,
    {
        proof {
            lemma_map_of_contains(self.alerts@, id@);
        }
        match self.find_index(id) {
            Some(i) => {
                proof {
                    lemma_map_of_remove(self.alerts@, i as int);
                    lemma_map_of_index(self.alerts@, i as int);
                }
                let a = self.alerts.remove(i);
                assert(unique_ids(self.alerts@)) by {
                    assert(forall|x: int, y: int|
                        0 <= x < y < self.alerts@.len() ==> self.alerts@[x].id@
                            != self.alerts@[y].id@);
                }
                Some(a)
            }
            None => {
                proof {
                    assert(old(self)@.remove(id@) =~= old(self)@);
                }
                None
            }
        }
    }

    /// Unordered list of the alerts now active: one entry per id in the
    /// store, each equal to the stored record.
    pub fn snapshot_alerts(&self) -> (r: Vec<Alert>)
        requires
            self.wf(),
        ensures
            r@.len() == self@.len(),
            forall|j: int|
                0 <= j < r@.len() ==> self@.contains_key(#[trigger] r@[j].id@) && r@[j]
                    == self@[r@[j].id@],
            forall|k: Seq<char>|
                self@.contains_key(k) ==> exists|j: int| 0 <= j < r@.len() && r@[j].id@ == k,
    {
        let mut r: Vec<Alert> = Vec::new();
        let mut i: usize = 0;
        while i < self.alerts.len()
            invariant
                0 <= i <= self.alerts@.len(),
                r@ =~= self.alerts@.subrange(0, i as int),
            decreases self.alerts@.len() - i,
        {
            r.push(self.alerts[i].clone());
            assert(r@ =~= self.alerts@.subrange(0, i + 1));
            i += 1;
        }
        assert(r@ =~= self.alerts@);
        proof {
            lemma_map_of_len(self.alerts@);
            assert forall|j: int| 0 <= j < r@.len() implies self@.contains_key(
                #[trigger] r@[j].id@,
            ) && r@[j] == self@[r@[j].id@] by {
                lemma_map_of_index(self.alerts@, j);
            }
            assert forall|k: Seq<char>| self@.contains_key(k) implies exists|j: int|
                0 <= j < r@.len() && r@[j].id@ == k by {
                lemma_map_of_contains(self.alerts@, k);
            }
        }
        r
    }

    /// Whether an alert with this id is in the store.
    pub fn contains(&self, id: &str) -> (r: bool)
        ensures
            r == self@.contains_key(id@),
    {
        proof {
            lemma_map_of_contains(self.alerts@, id@);
        }
        match self.find_index(id) {
            Some(_) => true,
            None => false,
        }
    }

    /// The store holds no alert.
    pub fn is_empty(&self) -> (r: bool)
        requires
            self.wf(),
        ensures
            r == (self@.len() == 0),
    {
        proof {
            lemma_map_of_len(self.alerts@);
        }
        self.alerts.len() == 0
    }
}

/// One store mutation: an activation upserts its alert; a clearing or user
/// removal removes its id.
pub enum StoreOp {
    Activate(Alert),
    Clear(Seq<char>),
}

/// The store contents after a sequence of operations.
pub open spec fn apply_store_ops(m: Map<Seq<char>, Alert>, ops: Seq<StoreOp>) -> Map<
    Seq<char>,
    Alert,
>
    decreases ops.len(),
{
    if ops.len() == 0 {
        m
    } else {
        let prev = apply_store_ops(m, ops.drop_last());
        match ops.last() {
            StoreOp::Activate(a) => prev.insert(a.id@, a),
            StoreOp::Clear(k) => prev.remove(k),
        }
    }
}

/// The net effect of a sequence of operations leaves `id` active: some
/// activation of `id` is not followed by any clearing of it.
pub open spec fn net_active(ops: Seq<StoreOp>, id: Seq<char>) -> bool
    decreases ops.len(),
{
    if ops.len() == 0 {
        false
    } else {
        match ops.last() {
            StoreOp::Activate(a) => a.id@ == id || net_active(ops.drop_last(), id),
            StoreOp::Clear(k) => k != id && net_active(ops.drop_last(), id),
        }
    }
}

/// Law: for any sequence of activate/clear operations starting from an empty
/// store, the store contains an id exactly when the net effect of the
/// sequence is "active": the last activation of the id is not matched by a
/// later clearing.
pub proof fn lemma_store_net_effect(ops: Seq<StoreOp>, id: Seq<char>)
    ensures
        apply_store_ops(Map::empty(), ops).contains_key(id) <==> net_active(ops, id),
    decreases ops.len(),
{
    if ops.len() > 0 {
        lemma_store_net_effect(ops.drop_last(), id);
    }
}

/// Law: activating the same alert twice leaves what one activation leaves.
pub proof fn lemma_activate_idempotent(m: Map<Seq<char>, Alert>, a: Alert)
    ensures
        m.insert(a.id@, a).insert(a.id@, a) == m.insert(a.id@, a),
{
    assert(m.insert(a.id@, a).insert(a.id@, a) =~= m.insert(a.id@, a));
}

/// Law: clearing an id that is not in the store leaves the store unchanged.
pub proof fn lemma_clear_absent_noop(m: Map<Seq<char>, Alert>, k: Seq<char>)
    requires
        !m.contains_key(k),
    ensures
        m.remove(k) == m,
{
    assert(m.remove(k) =~= m);
}

} // verus!
