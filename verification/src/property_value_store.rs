//! Per-device store of the last-known value and target of each property,
//! with change detection: storing compares against what is held and reports
//! whether anything changed.
use crate::ids::{PropertyPointer, PropertyPointerView};
use crate::lookup::{
    lemma_map_values_push, lemma_map_values_update, lemma_seq_find_push, lemma_seq_find_update,
    seq_find, unique_keys,
};
use crate::value::{HomieValue, ValueView};
use vstd::prelude::*;

verus! {

/// The outcome of storing a value: unchanged, or changed with the previous
/// value (`None` on the first write).
#[derive(Debug)]
pub enum ValueUpdate<T> {
    Equal,
    Changed { old: Option<T>, new: T },
}

/// Spec-level shape of a value entry.
pub struct PropertyValueEntryView {
    pub value: Option<ValueView>,
    pub target: Option<ValueView>,
}

/// The last-known `value` and `target` of one property, each optional.
#[derive(Debug)]
pub struct PropertyValueEntry {
    pub value: Option<HomieValue>,
    pub target: Option<HomieValue>,
}

/// The view of an optional property value.
pub open spec fn opt_value_view(o: &Option<HomieValue>) -> Option<ValueView> {
    match o {
        Some(v) => Some(v@),
        None => None,
    }
}

impl View for PropertyValueEntry {
    type V = PropertyValueEntryView;

    open spec fn view(&self) -> PropertyValueEntryView {
        PropertyValueEntryView {
            value: opt_value_view(&self.value),
            target: opt_value_view(&self.target),
        }
    }
}

impl Default for PropertyValueEntry {
    /// An entry holding neither value nor target.
    fn default() -> (r: Self)
        ensures
            r@.value is None,
            r@.target is None,
    {
        PropertyValueEntry { value: None, target: None }
    }
}

fn clone_opt_value(o: &Option<HomieValue>) -> (r: Option<HomieValue>)
    ensures
        opt_value_view(&r) == opt_value_view(o),
{
    match o {
        Some(v) => Some(v.clone()),
        None => None,
    }
}

impl Clone for PropertyValueEntry {
    fn clone(&self) -> (r: Self)
        ensures
            r@ == self@,
    {
        PropertyValueEntry {
            value: clone_opt_value(&self.value),
            target: clone_opt_value(&self.target),
        }
    }
}

/// The view of one stored pair: the pointer's view and the entry's view.
pub open spec fn pv_pair_view() -> spec_fn((PropertyPointer, PropertyValueEntry)) -> (
    PropertyPointerView,
    PropertyValueEntryView,
) {
    |p: (PropertyPointer, PropertyValueEntry)| (p.0@, p.1@)
}

/// What storing a value does: the entry under `p` holds the new value with
/// its target untouched (`None` on creation), every other entry is
/// unchanged, and the report says whether and from what the value changed.
pub open spec fn store_value_post(
    old_pv: Seq<(PropertyPointerView, PropertyValueEntryView)>,
    new_pv: Seq<(PropertyPointerView, PropertyValueEntryView)>,
    p: PropertyPointerView,
    value: ValueView,
    r: ValueUpdate<HomieValue>,
) -> bool {
    &&& (match seq_find(old_pv, p) {
        None => seq_find(new_pv, p) == Some(
            PropertyValueEntryView { value: Some(value), target: None },
        ) && (r matches ValueUpdate::Changed { old: o, new: n } && o is None && n@ == value),
        Some(e) => {
            &&& seq_find(new_pv, p) == Some(
                PropertyValueEntryView { value: Some(value), target: e.target },
            )
            &&& (e.value == Some(value) ==> r is Equal && new_pv == old_pv)
            &&& (e.value != Some(value) ==> (r matches ValueUpdate::Changed { old: o, new: n }
                && opt_value_view(&o) == e.value && n@ == value))
        },
    })
    &&& forall|q: PropertyPointerView| q != p ==> seq_find(new_pv, q) == seq_find(old_pv, q)
}

/// What storing a target does: the identical shape against the `target`
/// field, independent of `value`.
pub open spec fn store_target_post(
    old_pv: Seq<(PropertyPointerView, PropertyValueEntryView)>,
    new_pv: Seq<(PropertyPointerView, PropertyValueEntryView)>,
    p: PropertyPointerView,
    target: ValueView,
    r: ValueUpdate<HomieValue>,
) -> bool {
    &&& (match seq_find(old_pv, p) {
        None => seq_find(new_pv, p) == Some(
            PropertyValueEntryView { value: None, target: Some(target) },
        ) && (r matches ValueUpdate::Changed { old: o, new: n } && o is None && n@ == target),
        Some(e) => {
            &&& seq_find(new_pv, p) == Some(
                PropertyValueEntryView { value: e.value, target: Some(target) },
            )
            &&& (e.target == Some(target) ==> r is Equal && new_pv == old_pv)
            &&& (e.target != Some(target) ==> (r matches ValueUpdate::Changed { old: o, new: n }
                && opt_value_view(&o) == e.target && n@ == target))
        },
    })
    &&& forall|q: PropertyPointerView| q != p ==> seq_find(new_pv, q) == seq_find(old_pv, q)
}

/// Per-device mapping from property pointer to value entry.  All operations
/// are total over the key space; an entry is created on demand.
#[derive(Debug)]
pub struct PropertyValueStore {
    entries: Vec<(PropertyPointer, PropertyValueEntry)>,
}

impl View for PropertyValueStore {
    type V = Seq<(PropertyPointerView, PropertyValueEntryView)>;

    closed spec fn view(&self) -> Seq<(PropertyPointerView, PropertyValueEntryView)> {
        self.entries@.map_values(pv_pair_view())
    }
}

impl Clone for PropertyValueStore {
    fn clone(&self) -> (r: Self)
        ensures
            r@ == self@,
            r.wf() == self.wf(),
    {
        let mut entries: Vec<(PropertyPointer, PropertyValueEntry)> = Vec::new();
        let mut i: usize = 0;
        while i < self.entries.len()
            invariant
                i <= self.entries@.len(),
                entries@.len() == i,
                forall|j: int| 0 <= j < i ==> (#[trigger] entries@[j]).0@ == self.entries@[j].0@
                    && entries@[j].1@ == self.entries@[j].1@,
            decreases self.entries@.len() - i,
        {
            let pair = &self.entries[i];
            entries.push((pair.0.clone(), pair.1.clone()));
            i = i + 1;
        }
        let r = PropertyValueStore { entries };
        proof {
            assert(r@ =~= self@);
        }
        r
    }
}

impl PropertyValueStore {
    /// No two entries share a property pointer.
    pub open spec fn wf(&self) -> bool {
        unique_keys(self@)
    }

    /// The entry stored under a property pointer, if any.
    pub open spec fn spec_get(&self, k: PropertyPointerView) -> Option<PropertyValueEntryView> {
        seq_find(self@, k)
    }

    /// An empty store.
    pub fn new() -> (r: Self)
        ensures
            r.wf(),
            r@.len() == 0,
    {
        let r = PropertyValueStore { entries: Vec::new() };
        proof {
            assert(r@ =~= Seq::<(PropertyPointerView, PropertyValueEntryView)>::empty());
        }
        r
    }

    /// How many properties have an entry.
    pub fn count(&self) -> (r: usize)
        ensures
            r == self@.len(),
    {
        self.entries.len()
    }

    /// Index of the entry for `prop`, with nothing matching before it.
    fn find_index(&self, prop: &PropertyPointer) -> (r: Option<usize>)
        ensures
            match r {
                Some(i) => i < self@.len() && self@[i as int].0 == prop@ && forall|j: int|
                    0 <= j < i ==> (#[trigger] self@[j]).0 != prop@,
                None => forall|j: int| 0 <= j < self@.len() ==> (#[trigger] self@[j]).0 != prop@,
            },
    {
        let mut i: usize = 0;
        while i < self.entries.len()
            invariant
                i <= self.entries@.len(),
                forall|j: int| 0 <= j < i ==> (#[trigger] self@[j]).0 != prop@,
            decreases self.entries@.len() - i,
        {
            if self.entries[i].0 == *prop {
                return Some(i);
            }
            i = i + 1;
        }
        None
    }

    /// Whether the property has an entry.
    pub fn contains_key(&self, prop: &PropertyPointer) -> (r: bool)
        ensures
            r == (self.spec_get(prop@) is Some),
    {
        let found = self.find_index(prop);
        proof {
            if found is Some {
                if self.spec_get(prop@) is None {
                    crate::lookup::lemma_seq_find_none_absent(self@, prop@);
                }
            } else {
                crate::lookup::lemma_seq_find_absent(self@, prop@);
            }
        }
        found.is_some()
    }

    /// A read-only snapshot of the entry for `prop`.
    pub fn get_value_entry(&self, prop: &PropertyPointer) -> (r: Option<&PropertyValueEntry>)
        ensures
            match r {
                Some(e) => self.spec_get(prop@) == Some(e@),
                None => self.spec_get(prop@) is None,
            },
    {
        match self.find_index(prop) {
            Some(i) => {
                proof {
                    crate::lookup::lemma_seq_find_skip(self@, i as int, prop@);
                    assert(self@.skip(i as int)[0] == self@[i as int]);
                }
                Some(&self.entries[i].1)
            },
            None => {
                proof {
                    crate::lookup::lemma_seq_find_absent(self@, prop@);
                }
                None
            },
        }
    }

    /// Stores a property's reported value.  Reports `Equal` when the stored
    /// value deep-equals the new one, else `Changed` with the previous value
    /// (`None` on first write); the target field is untouched.
    pub fn store_value(&mut self, prop: &PropertyPointer, value: HomieValue) -> (r: ValueUpdate<
        HomieValue,
    >)
        requires
            old(self).wf(),
        ensures
            final(self).wf(),
            store_value_post(old(self)@, final(self)@, prop@, value@, r),
    {
        match self.find_index(prop) {
            Some(i) => {
                proof {
                    crate::lookup::lemma_seq_find_skip(self@, i as int, prop@);
                    assert(self@.skip(i as int)[0] == self@[i as int]);
                }
                let same = match &self.entries[i].1.value {
                    Some(v) => v.same_value(&value),
                    None => false,
                };
                if same {
                    ValueUpdate::Equal
                } else {
                    let key = self.entries[i].0.clone();
                    let old_val = clone_opt_value(&self.entries[i].1.value);
                    let tgt = clone_opt_value(&self.entries[i].1.target);
                    let new_entry = PropertyValueEntry { value: Some(value.clone()), target: tgt };
                    let ghost old_view = self@;
                    let ghost nev = new_entry@;
                    let pair = (key, new_entry);
                    proof {
                        lemma_map_values_update(self.entries@, i as int, pair, pv_pair_view());
                        lemma_seq_find_update(old_view, i as int, nev, prop@);
                        assert forall|q: PropertyPointerView| q != prop@ implies seq_find(
                            old_view.update(i as int, (old_view[i as int].0, nev)),
                            q,
                        ) == seq_find(old_view, q) by {
                            lemma_seq_find_update(old_view, i as int, nev, q);
                        }
                    }
                    self.entries[i] = pair;
                    proof {
                        assert(self@ =~= old_view.update(
                            i as int,
                            (old_view[i as int].0, nev),
                        ));
                    }
                    ValueUpdate::Changed { old: old_val, new: value }
                }
            },
            None => {
                proof {
                    crate::lookup::lemma_seq_find_absent(self@, prop@);
                }
                let new_entry = PropertyValueEntry { value: Some(value.clone()), target: None };
                let ghost old_view = self@;
                let ghost nev = new_entry@;
                let pair = (prop.clone(), new_entry);
                proof {
                    lemma_map_values_push(self.entries@, pair, pv_pair_view());
                    lemma_seq_find_push(old_view, prop@, nev, prop@);
                    assert forall|q: PropertyPointerView| q != prop@ implies seq_find(
                        old_view.push((prop@, nev)),
                        q,
                    ) == seq_find(old_view, q) by {
                        lemma_seq_find_push(old_view, prop@, nev, q);
                    }
                }
                self.entries.push(pair);
                proof {
                    assert(self@ =~= old_view.push((prop@, nev)));
                }
                ValueUpdate::Changed { old: None, new: value }
            },
        }
    }

    /// Stores a property's target; the identical contract against the
    /// `target` field, independent of `value`.
    pub fn store_target(&mut self, prop: &PropertyPointer, target: HomieValue) -> (r: ValueUpdate<
        HomieValue,
    >)
        requires
            old(self).wf(),
        ensures
            final(self).wf(),
            store_target_post(old(self)@, final(self)@, prop@, target@, r),
    {
        match self.find_index(prop) {
            Some(i) => {
                proof {
                    crate::lookup::lemma_seq_find_skip(self@, i as int, prop@);
                    assert(self@.skip(i as int)[0] == self@[i as int]);
                }
                let same = match &self.entries[i].1.target {
                    Some(v) => v.same_value(&target),
                    None => false,
                };
                if same {
                    ValueUpdate::Equal
                } else {
                    let key = self.entries[i].0.clone();
                    let old_tgt = clone_opt_value(&self.entries[i].1.target);
                    let val = clone_opt_value(&self.entries[i].1.value);
                    let new_entry = PropertyValueEntry { value: val, target: Some(target.clone()) };
                    let ghost old_view = self@;
                    let ghost nev = new_entry@;
                    let pair = (key, new_entry);
                    proof {
                        lemma_map_values_update(self.entries@, i as int, pair, pv_pair_view());
                        lemma_seq_find_update(old_view, i as int, nev, prop@);
                        assert forall|q: PropertyPointerView| q != prop@ implies seq_find(
                            old_view.update(i as int, (old_view[i as int].0, nev)),
                            q,
                        ) == seq_find(old_view, q) by {
                            lemma_seq_find_update(old_view, i as int, nev, q);
                        }
                    }
                    self.entries[i] = pair;
                    proof {
                        assert(self@ =~= old_view.update(
                            i as int,
                            (old_view[i as int].0, nev),
                        ));
                    }
                    ValueUpdate::Changed { old: old_tgt, new: target }
                }
            },
            None => {
                proof {
                    crate::lookup::lemma_seq_find_absent(self@, prop@);
                }
                let new_entry = PropertyValueEntry { value: None, target: Some(target.clone()) };
                let ghost old_view = self@;
                let ghost nev = new_entry@;
                let pair = (prop.clone(), new_entry);
                proof {
                    lemma_map_values_push(self.entries@, pair, pv_pair_view());
                    lemma_seq_find_push(old_view, prop@, nev, prop@);
                    assert forall|q: PropertyPointerView| q != prop@ implies seq_find(
                        old_view.push((prop@, nev)),
                        q,
                    ) == seq_find(old_view, q) by {
                        lemma_seq_find_push(old_view, prop@, nev, q);
                    }
                }
                self.entries.push(pair);
                proof {
                    assert(self@ =~= old_view.push((prop@, nev)));
                }
                ValueUpdate::Changed { old: None, new: target }
            },
        }
    }
}

/// Law: after a value is stored under a pointer, the entry read back under
/// that pointer holds exactly that value; and storing an equal value again
/// reports `Equal` and leaves the whole store as it was.
pub proof fn lemma_store_value_round_trip(
    s0: Seq<(PropertyPointerView, PropertyValueEntryView)>,
    s1: Seq<(PropertyPointerView, PropertyValueEntryView)>,
    p: PropertyPointerView,
    v: ValueView,
    r1: ValueUpdate<HomieValue>,
)
    requires
        store_value_post(s0, s1, p, v, r1),
    ensures
        seq_find(s1, p) matches Some(e) && e.value == Some(v),
        forall|
            s2: Seq<(PropertyPointerView, PropertyValueEntryView)>,
            w: HomieValue,
            r2: ValueUpdate<HomieValue>,
        |
            w@ == v && #[trigger] store_value_post(s1, s2, p, w@, r2) ==> r2 is Equal && s2 == s1,
{
}

} // verus!
