//! Labeled groups: a named, ordered collection of sub-counters sharing one
//! label key, each sub-counter tagged with its own label value.

use vstd::prelude::*;

verus! {

use crate::contatori::{entry_model, Observable, ObservableEntry};

/// The label value of one sub-counter, as a character sequence; `None` is
/// the unlabeled (aggregate) sub-counter.
pub open spec fn label_view(l: Option<&'static str>) -> Option<Seq<char>> {
    match l {
        Some(s) => Some(s@),
        None => None,
    }
}

/// A group of named sub-counters under one metric name and one label key.
///
/// Expansion yields one entry per sub-counter, each carrying the group's
/// name and kind, and — for a labeled sub-counter — the shared key paired
/// with that sub-counter's label value.
#[derive(Debug)]
pub struct LabeledGroup<T> {
    name: &'static str,
    label_key: &'static str,
    subs: Vec<(Option<&'static str>, T)>,
}

impl<T: Observable> LabeledGroup<T> {
    /// The group's metric name.
    pub closed spec fn spec_name(&self) -> Seq<char> {
        self.name@
    }

    /// The shared label key.
    pub closed spec fn spec_label_key(&self) -> Seq<char> {
        self.label_key@
    }

    /// The `(label value, sub-counter)` pairs, in insertion order.
    pub closed spec fn spec_subs(&self) -> Seq<(Option<&'static str>, T)> {
        self.subs@
    }

    /// Well-formedness: every sub-counter is well-formed.
    pub open spec fn wf(&self) -> bool {
        forall|i: int| 0 <= i < self.spec_subs().len() ==> #[trigger] self.spec_subs()[i].1.inv()
    }

    /// Creates an empty group under `name`, whose entries will share
    /// `label_key`.
    pub fn new(name: &'static str, label_key: &'static str) -> (r: LabeledGroup<T>)
        ensures
            r.spec_name() == name@,
            r.spec_label_key() == label_key@,
            r.spec_subs() == Seq::<(Option<&'static str>, T)>::empty(),
            r.wf(),
    {
        let r = LabeledGroup { name, label_key, subs: Vec::new() };
        proof {
            assert(r.spec_subs() =~= Seq::<(Option<&'static str>, T)>::empty());
        }
        r
    }

    /// Appends a sub-counter, returning `self` for chaining; `None` makes
    /// it the unlabeled (aggregate) sub-counter.
    pub fn with_sub(self, label: Option<&'static str>, counter: T) -> (r: LabeledGroup<T>)
        requires
            self.wf(),
            counter.inv(),
        ensures
            r.spec_name() == self.spec_name(),
            r.spec_label_key() == self.spec_label_key(),
            r.spec_subs() == self.spec_subs().push((label, counter)),
            r.wf(),
    {
        let mut subs = self.subs;
        subs.push((label, counter));
        LabeledGroup { name: self.name, label_key: self.label_key, subs }
    }

    /// The number of sub-counters.
    pub fn len(&self) -> (r: usize)
        ensures
            r == self.spec_subs().len(),
    {
        self.subs.len()
    }

    /// The group's metric name.
    pub fn name(&self) -> (r: &str)
        ensures
            r@ == self.spec_name(),
    {
        self.name
    }

    /// The shared label key.
    pub fn label_key(&self) -> (r: &str)
        ensures
            r@ == self.spec_label_key(),
    {
        self.label_key
    }

    /// A reference to the sub-counter at `i`.
    pub fn sub(&self, i: usize) -> (r: &T)
        requires
            i < self.spec_subs().len(),
        ensures
            *r == self.spec_subs()[i as int].1,
    {
        &self.subs[i].1
    }

    /// A mutable reference to the sub-counter at `i`, for recording.
    pub fn sub_mut(&mut self, i: usize) -> (r: &mut T)
        requires
            i < old(self).spec_subs().len(),
        ensures
            *r == old(self).spec_subs()[i as int].1,
            final(self).spec_name() == old(self).spec_name(),
            final(self).spec_label_key() == old(self).spec_label_key(),
            final(self).spec_subs() == old(self).spec_subs().update(
                i as int,
                (old(self).spec_subs()[i as int].0, *final(r)),
            ),
    {
        let pair = &mut self.subs[i];
        proof {
            assert(old(self).spec_subs().update(
                i as int,
                (old(self).spec_subs()[i as int].0, old(self).spec_subs()[i as int].1),
            ) =~= old(self).spec_subs());
        }
        &mut pair.1
    }

    /// Expands the group: exactly one entry per sub-counter, in order,
    /// each carrying the group's name and — when the sub-counter has a
    /// label value — the shared key paired with that value.
    pub fn expand(&mut self) -> (r: Vec<ObservableEntry>)
        requires
            old(self).wf(),
        ensures
            final(self).wf(),
            final(self).spec_name() == old(self).spec_name(),
            final(self).spec_label_key() == old(self).spec_label_key(),
            final(self).spec_subs().len() == old(self).spec_subs().len(),
            forall|i: int|
                0 <= i < old(self).spec_subs().len() ==> {
                    &&& final(self).spec_subs()[i].0 == old(self).spec_subs()[i].0
                    &&& old(self).spec_subs()[i].1.read_rel(#[trigger] final(self).spec_subs()[i].1)
                },
            r@.len() == old(self).spec_subs().len(),
            forall|i: int|
                0 <= i < r@.len() ==> #[trigger] entry_model(r@[i]) == (
                    old(self).spec_name(),
                    match old(self).spec_subs()[i].0 {
                        Some(v) => Some((old(self).spec_label_key(), v@)),
                        None => None::<(Seq<char>, Seq<char>)>,
                    },
                    old(self).spec_subs()[i].1.obs_value(),
                    old(self).spec_subs()[i].1.obs_kind(),
                ),
    {
        let ghost orig = old(self).spec_subs();
        let ghost gname = old(self).spec_name();
        let ghost gkey = old(self).spec_label_key();
        let mut entries: Vec<ObservableEntry> = Vec::new();
        let mut done: Vec<(Option<&'static str>, T)> = Vec::new();
        while self.subs.len() > 0
            invariant
                self.name@ == gname,
                self.label_key@ == gkey,
                done@.len() + self.subs@.len() == orig.len(),
                entries@.len() == done@.len(),
                forall|j: int|
                    0 <= j < self.subs@.len() ==> #[trigger] self.subs@[j] == orig[j
                        + done@.len()],
                forall|j: int| 0 <= j < orig.len() ==> (#[trigger] orig[j].1).inv(),
                forall|j: int|
                    0 <= j < done@.len() ==> {
                        &&& (#[trigger] done@[j]).0 == orig[j].0
                        &&& orig[j].1.read_rel(done@[j].1)
                        &&& done@[j].1.inv()
                    },
                forall|j: int|
                    0 <= j < done@.len() ==> #[trigger] entry_model(entries@[j]) == (
                        gname,
                        match orig[j].0 {
                            Some(v) => Some((gkey, v@)),
                            None => None::<(Seq<char>, Seq<char>)>,
                        },
                        orig[j].1.obs_value(),
                        orig[j].1.obs_kind(),
                    ),
            decreases self.subs@.len(),
        {
            let ghost k = done@.len() as int;
            proof {
                assert(self.subs@[0] == orig[k]);
            }
            let pair = self.subs.remove(0);
            let lab = pair.0;
            let mut counter = pair.1;
            let kind = counter.metric_kind();
            let value = counter.value();
            let label = match lab {
                Some(v) => Some((self.label_key.to_owned(), v.to_owned())),
                None => None,
            };
            let entry = ObservableEntry {
                name: self.name.to_owned(),
                label,
                value,
                metric_kind: kind,
            };
            proof {
                assert(entry_model(entry) == (
                    gname,
                    match orig[k].0 {
                        Some(v) => Some((gkey, v@)),
                        None => None::<(Seq<char>, Seq<char>)>,
                    },
                    orig[k].1.obs_value(),
                    orig[k].1.obs_kind(),
                ));
            }
            entries.push(entry);
            done.push((lab, counter));
        }
        self.subs = done;
        entries
    }
}

} // verus!
