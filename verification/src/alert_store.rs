//! Per-device store of active alerts: a mapping from alert id to message
//! text.  Absence of an id means no active alert; storing an empty text
//! clears the entry.
use crate::ids::HomieID;
use crate::lookup::{
    lemma_map_values_push, lemma_map_values_remove, lemma_map_values_update, lemma_seq_find_absent,
    lemma_seq_find_none_absent, lemma_seq_find_push, lemma_seq_find_remove, lemma_seq_find_skip,
    lemma_seq_find_update, seq_find, unique_keys,
};
use vstd::prelude::*;

verus! {

/// The outcome of storing an alert.
#[derive(Debug)]
pub enum AlertUpdate {
    New { id: HomieID, alert: String },
    Changed { id: HomieID, old_alert: String, new_alert: String },
    Cleared { id: HomieID },
    Equal,
    NoChange,
}

/// The view of one stored pair: the alert id and its message text.
pub open spec fn alert_pair_view() -> spec_fn((HomieID, String)) -> (Seq<char>, Seq<char>) {
    |p: (HomieID, String)| (p.0@, p.1@)
}

/// What storing an alert does: an empty text clears the id, a non-empty
/// text installs it, every other id is unchanged, and the report matches
/// what was there before.
pub open spec fn store_alert_post(
    old_a: Seq<(Seq<char>, Seq<char>)>,
    new_a: Seq<(Seq<char>, Seq<char>)>,
    id: Seq<char>,
    alert: Seq<char>,
    r: AlertUpdate,
) -> bool {
    &&& (alert.len() == 0 ==> (match seq_find(old_a, id) {
        Some(_) => (r matches AlertUpdate::Cleared { id: i2 } && i2@ == id) && seq_find(
            new_a,
            id,
        ) is None,
        None => r is NoChange && new_a == old_a,
    }))
    &&& (alert.len() > 0 ==> (match seq_find(old_a, id) {
        None => (r matches AlertUpdate::New { id: i2, alert: a2 } && i2@ == id && a2@ == alert)
            && seq_find(new_a, id) == Some(alert),
        Some(prev) => {
            &&& seq_find(new_a, id) == Some(alert)
            &&& (prev == alert ==> r is Equal && new_a == old_a)
            &&& (prev != alert ==> (r matches AlertUpdate::Changed {
                id: i2,
                old_alert: o,
                new_alert: n,
            } && i2@ == id && o@ == prev && n@ == alert))
        },
    }))
    &&& forall|q: Seq<char>| q != id ==> seq_find(new_a, q) == seq_find(old_a, q)
}

/// Per-device mapping from alert id to message text.
#[derive(Debug)]
pub struct AlertStore {
    entries: Vec<(HomieID, String)>,
}

impl View for AlertStore {
    type V = Seq<(Seq<char>, Seq<char>)>;

    closed spec fn view(&self) -> Seq<(Seq<char>, Seq<char>)> {
        self.entries@.map_values(alert_pair_view())
    }
}

impl Clone for AlertStore {
    fn clone(&self) -> (r: Self)
        ensures
            r@ == self@,
            r.wf() == self.wf(),
    {
        let mut entries: Vec<(HomieID, String)> = Vec::new();
        let mut i: usize = 0;
        while i < self.entries.len()
            invariant
                i <= self.entries@.len(),
                entries@.len() == i,
                forall|j: int| 0 <= j < i ==> (#[trigger] entries@[j]).0@ == self.entries@[j].0@
                    && entries@[j].1@ == self.entries@[j].1@,
            decreases self.entries@.len() - i,
        {
            let pair = &self.entries[i];
            entries.push((pair.0.clone(), pair.1.clone()));
            i = i + 1;
        }
        let r = AlertStore { entries };
        proof {
            assert(r@ =~= self@);
        }
        r
    }
}

impl AlertStore {
    /// No two entries share an alert id.
    pub open spec fn wf(&self) -> bool {
        unique_keys(self@)
    }

    /// The message stored under an alert id, if any.
    pub open spec fn spec_get(&self, k: Seq<char>) -> Option<Seq<char>> {
        seq_find(self@, k)
    }

    /// An empty store.
    pub fn new() -> (r: Self)
        ensures
            r.wf(),
            r@.len() == 0,
    {
        let r = AlertStore { entries: Vec::new() };
        proof {
            assert(r@ =~= Seq::<(Seq<char>, Seq<char>)>::empty());
        }
        r
    }

    /// How many alerts are active.
    pub fn count(&self) -> (r: usize)
        ensures
            r == self@.len(),
    {
        self.entries.len()
    }

    /// The message of the alert with the given id, if it is active.
    pub fn get_alert(&self, id: &HomieID) -> (r: Option<&String>)
        ensures
            match r {
                Some(a) => self.spec_get(id@) == Some(a@),
                None => self.spec_get(id@) is None,
            },
    {
        match self.find_index(id) {
            Some(i) => {
                proof {
                    lemma_seq_find_skip(self@, i as int, id@);
                    assert(self@.skip(i as int)[0] == self@[i as int]);
                }
                Some(&self.entries[i].1)
            },
            None => {
                proof {
                    lemma_seq_find_absent(self@, id@);
                }
                None
            },
        }
    }

    /// Index of the entry for `id`, with nothing matching before it.
    fn find_index(&self, id: &HomieID) -> (r: Option<usize>)
        ensures
            match r {
                Some(i) => i < self@.len() && self@[i as int].0 == id@ && forall|j: int|
                    0 <= j < i ==> (#[trigger] self@[j]).0 != id@,
                None => forall|j: int| 0 <= j < self@.len() ==> (#[trigger] self@[j]).0 != id@,
            },
    {
        let mut i: usize = 0;
        while i < self.entries.len()
            invariant
                i <= self.entries@.len(),
                forall|j: int| 0 <= j < i ==> (#[trigger] self@[j]).0 != id@,
            decreases self.entries@.len() - i,
        {
            if self.entries[i].0 == *id {
                return Some(i);
            }
            i = i + 1;
        }
        None
    }

    /// Stores an alert.  An empty text clears the id (`Cleared` if it was
    /// active, else `NoChange`); a non-empty text inserts (`New`), replaces
    /// (`Changed`) or leaves an identical message in place (`Equal`).
    pub fn store_alert(&mut self, id: HomieID, alert: String) -> (r: AlertUpdate)
        requires
            old(self).wf(),
        ensures
            final(self).wf(),
            store_alert_post(old(self)@, final(self)@, id@, alert@, r),
    {
        if alert.as_str().is_empty() {
            match self.find_index(&id) {
                Some(i) => {
                    let ghost old_view = self@;
                    proof {
                        lemma_seq_find_skip(self@, i as int, id@);
                        assert(self@.skip(i as int)[0] == self@[i as int]);
                        lemma_map_values_remove(self.entries@, i as int, alert_pair_view());
                        assert forall|j: int|
                            0 <= j < old_view.len() && j != i implies (#[trigger] old_view[j]).0
                            != old_view[i as int].0 by {}
                        lemma_seq_find_remove(old_view, i as int, id@);
                        assert forall|q: Seq<char>| q != id@ implies seq_find(
                            old_view.remove(i as int),
                            q,
                        ) == seq_find(old_view, q) by {
                            lemma_seq_find_remove(old_view, i as int, q);
                        }
                    }
                    self.entries.remove(i);
                    proof {
                        assert(self@ =~= old_view.remove(i as int));
                    }
                    AlertUpdate::Cleared { id }
                },
                None => {
                    proof {
                        lemma_seq_find_absent(self@, id@);
                    }
                    AlertUpdate::NoChange
                },
            }
        } else {
            match self.find_index(&id) {
                Some(i) => {
                    proof {
                        lemma_seq_find_skip(self@, i as int, id@);
                        assert(self@.skip(i as int)[0] == self@[i as int]);
                    }
                    if self.entries[i].1 == alert {
                        AlertUpdate::Equal
                    } else {
                        let key = self.entries[i].0.clone();
                        let old_alert = self.entries[i].1.clone();
                        let new_text = alert.clone();
                        let ghost old_view = self@;
                        let ghost nev = new_text@;
                        let pair = (key, new_text);
                        proof {
                            lemma_map_values_update(
                                self.entries@,
                                i as int,
                                pair,
                                alert_pair_view(),
                            );
                            lemma_seq_find_update(old_view, i as int, nev, id@);
                            assert forall|q: Seq<char>| q != id@ implies seq_find(
                                old_view.update(i as int, (old_view[i as int].0, nev)),
                                q,
                            ) == seq_find(old_view, q) by {
                                lemma_seq_find_update(old_view, i as int, nev, q);
                            }
                        }
                        self.entries[i] = pair;
                        proof {
                            assert(self@ =~= old_view.update(
                                i as int,
                                (old_view[i as int].0, nev),
                            ));
                        }
                        AlertUpdate::Changed { id, old_alert, new_alert: alert }
                    }
                },
                None => {
                    proof {
                        lemma_seq_find_absent(self@, id@);
                    }
                    let key = id.clone();
                    let text = alert.clone();
                    let ghost old_view = self@;
                    let ghost nev = text@;
                    let pair = (key, text);
                    proof {
                        lemma_map_values_push(self.entries@, pair, alert_pair_view());
                        lemma_seq_find_push(old_view, id@, nev, id@);
                        assert forall|q: Seq<char>| q != id@ implies seq_find(
                            old_view.push((id@, nev)),
                            q,
                        ) == seq_find(old_view, q) by {
                            lemma_seq_find_push(old_view, id@, nev, q);
                        }
                    }
                    self.entries.push(pair);
                    proof {
                        assert(self@ =~= old_view.push((id@, nev)));
                    }
                    AlertUpdate::New { id, alert }
                },
            }
        }
    }
}

/// Law: the alert lifecycle.  Starting from no alert under an id, storing a
/// message reports `New`; storing it again reports `Equal`; storing a
/// different message reports `Changed` carrying both texts; storing the
/// empty text reports `Cleared`; and clearing again reports `NoChange`.
pub proof fn lemma_alert_lifecycle(
    s0: Seq<(Seq<char>, Seq<char>)>,
    s1: Seq<(Seq<char>, Seq<char>)>,
    s2: Seq<(Seq<char>, Seq<char>)>,
    s3: Seq<(Seq<char>, Seq<char>)>,
    s4: Seq<(Seq<char>, Seq<char>)>,
    s5: Seq<(Seq<char>, Seq<char>)>,
    id: Seq<char>,
    x: Seq<char>,
    y: Seq<char>,
    r1: AlertUpdate,
    r2: AlertUpdate,
    r3: AlertUpdate,
    r4: AlertUpdate,
    r5: AlertUpdate,
)
    requires
        x.len() > 0,
        y.len() > 0,
        x != y,
        seq_find(s0, id) is None,
        store_alert_post(s0, s1, id, x, r1),
        store_alert_post(s1, s2, id, x, r2),
        store_alert_post(s2, s3, id, y, r3),
        store_alert_post(s3, s4, id, Seq::<char>::empty(), r4),
        store_alert_post(s4, s5, id, Seq::<char>::empty(), r5),
    ensures
        r1 matches AlertUpdate::New { id: i1, alert: a1 } && i1@ == id && a1@ == x,
        r2 is Equal,
        r3 matches AlertUpdate::Changed { id: i3, old_alert: o3, new_alert: n3 } && i3@ == id
            && o3@ == x && n3@ == y,
        r4 matches AlertUpdate::Cleared { id: i4 } && i4@ == id,
        r5 is NoChange,
{
}

} // verus!
