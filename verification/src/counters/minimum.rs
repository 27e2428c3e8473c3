//! Minimum tracker over sharded storage.

use vstd::prelude::*;

verus! {

use crate::contatori::{
    labels_model, CounterValue, MetricKind, Observable, ObservableEntry, NUM_COMPONENTS,
};
use crate::storage::{drain_min, fold_min, make_shards, min_u64};

/// A minimum tracker: every shard starts at the `u64::MAX` sentinel, an
/// observation lowers the active shard when it is strictly smaller, and
/// the aggregate is the smallest shard.
///
/// With no observation recorded the aggregate reports `u64::MAX` — the
/// documented "no data" sentinel, not an error. A read-and-reset swaps
/// every shard back to the sentinel.
#[derive(Debug)]
pub struct Minimum {
    name: &'static str,
    shards: Vec<u64>,
    slot: usize,
}

impl Minimum {
    /// The shard contents.
    pub closed spec fn shards_view(&self) -> Seq<u64> {
        self.shards@
    }

    /// The active slot, where observations from this owner land.
    pub closed spec fn active_slot(&self) -> int {
        self.slot as int
    }

    /// The tracker's name.
    pub closed spec fn spec_name(&self) -> Seq<char> {
        self.name@
    }

    /// Well-formedness: the shard count is fixed and the slot addresses one.
    pub open spec fn wf(&self) -> bool {
        &&& self.shards_view().len() == NUM_COMPONENTS
        &&& 0 <= self.active_slot() < NUM_COMPONENTS
    }

    /// The aggregate: the smallest shard, `u64::MAX` when none was lowered.
    pub open spec fn aggregate(&self) -> u64 {
        min_u64(self.shards_view())
    }

    /// Creates a tracker with every shard at the sentinel, slot `0`, no name.
    pub fn new() -> (r: Minimum)
        ensures
            r.wf(),
            r.aggregate() == u64::MAX,
            r.spec_name() == Seq::<char>::empty(),
            r.active_slot() == 0,
            forall|i: int| 0 <= i < NUM_COMPONENTS ==> r.shards_view()[i] == u64::MAX,
    {
        let shards = make_shards(NUM_COMPONENTS, u64::MAX);
        let r = Minimum { name: "", shards, slot: 0 };
        proof {
            lemma_min_sentinel(r.shards_view());
            reveal_strlit("");
            assert(r.spec_name() =~= Seq::<char>::empty());
        }
        r
    }

    /// Sets the name of this tracker, returning `self` for chaining.
    pub fn with_name(self, name: &'static str) -> (r: Minimum)
        ensures
            r.spec_name() == name@,
            r.shards_view() == self.shards_view(),
            r.active_slot() == self.active_slot(),
    {
        Minimum { name, ..self }
    }

    /// Binds this owner to a shard, as handed out by the slot assigner.
    pub fn set_active_slot(&mut self, slot: usize)
        requires
            slot < NUM_COMPONENTS,
        ensures
            final(self).active_slot() == slot,
            final(self).shards_view() == old(self).shards_view(),
            final(self).spec_name() == old(self).spec_name(),
    {
        self.slot = slot;
    }

    /// Merges an observation into the active shard: the shard becomes the
    /// smaller of its old value and `value`.
    pub fn observe(&mut self, value: u64)
        requires
            old(self).wf(),
        ensures
            final(self).wf(),
            final(self).shards_view() == old(self).shards_view().update(
                old(self).active_slot(),
                if value < old(self).shards_view()[old(self).active_slot()] {
                    value
                } else {
                    old(self).shards_view()[old(self).active_slot()]
                },
            ),
            final(self).active_slot() == old(self).active_slot(),
            final(self).spec_name() == old(self).spec_name(),
    {
        let cell = self.shards[self.slot];
        if value < cell {
            self.shards.set(self.slot, value);
        } else {
            proof {
                assert(old(self).shards_view().update(
                    old(self).active_slot(),
                    old(self).shards_view()[old(self).active_slot()],
                ) =~= old(self).shards_view());
            }
        }
    }

    /// Stores an absolute value into the active shard, bypassing the
    /// minimum merge.
    pub fn set_local_value(&mut self, value: u64)
        requires
            old(self).wf(),
        ensures
            final(self).wf(),
            final(self).shards_view() == old(self).shards_view().update(
                old(self).active_slot(),
                value,
            ),
            final(self).active_slot() == old(self).active_slot(),
            final(self).spec_name() == old(self).spec_name(),
    {
        self.shards.set(self.slot, value);
    }

    /// The value of the active shard alone.
    pub fn local_value(&self) -> (r: u64)
        requires
            self.wf(),
        ensures
            r == self.shards_view()[self.active_slot()],
    {
        self.shards[self.slot]
    }

    /// The aggregate: the smallest shard, `u64::MAX` when no observation
    /// was recorded.
    pub fn aggregate_value(&self) -> (r: u64)
        ensures
            r == self.aggregate(),
    {
        fold_min(&self.shards)
    }

    /// The aggregate; every shard is swapped back to the sentinel on the
    /// way, so the next observation starts a fresh extremum.
    pub fn aggregate_value_and_reset(&mut self) -> (r: u64)
        requires
            old(self).wf(),
        ensures
            final(self).wf(),
            r == old(self).aggregate(),
            final(self).aggregate() == u64::MAX,
            forall|i: int|
                0 <= i < NUM_COMPONENTS ==> final(self).shards_view()[i] == u64::MAX,
            final(self).active_slot() == old(self).active_slot(),
            final(self).spec_name() == old(self).spec_name(),
    {
        let r = drain_min(&mut self.shards);
        proof {
            lemma_min_sentinel(self.shards@);
        }
        r
    }
}

/// A vector of sentinels folds to the sentinel.
proof fn lemma_min_sentinel(s: Seq<u64>)
    requires
        forall|i: int| 0 <= i < s.len() ==> s[i] == u64::MAX,
    ensures
        min_u64(s) == u64::MAX,
    decreases s.len(),
{
    if s.len() > 0 {
        lemma_min_sentinel(s.drop_last());
    }
}

impl Observable for Minimum {
    open spec fn inv(&self) -> bool {
        self.wf()
    }

    open spec fn obs_name(&self) -> Seq<char> {
        self.spec_name()
    }

    open spec fn obs_value(&self) -> CounterValue {
        CounterValue::Unsigned(self.aggregate())
    }

    open spec fn read_rel(&self, post: Self) -> bool {
        post == *self
    }

    open spec fn obs_reset_value(&self) -> CounterValue {
        CounterValue::Unsigned(self.aggregate())
    }

    open spec fn reset_rel(&self, post: Self) -> bool {
        &&& post.spec_name() == self.spec_name()
        &&& post.active_slot() == self.active_slot()
        &&& post.aggregate() == u64::MAX
        &&& forall|i: int| 0 <= i < NUM_COMPONENTS ==> post.shards_view()[i] == u64::MAX
    }

    open spec fn obs_kind(&self) -> MetricKind {
        MetricKind::Gauge
    }

    open spec fn obs_labels(&self) -> Seq<(Seq<char>, Seq<char>)> {
        Seq::empty()
    }

    fn name(&self) -> (r: &str) {
        self.name
    }

    fn value(&mut self) -> (r: CounterValue) {
        CounterValue::Unsigned(self.aggregate_value())
    }

    fn value_and_reset(&mut self) -> (r: CounterValue) {
        CounterValue::Unsigned(self.aggregate_value_and_reset())
    }

    fn metric_kind(&self) -> (r: MetricKind) {
        MetricKind::Gauge
    }

    fn labels(&self) -> (r: Vec<(String, String)>) {
        let r: Vec<(String, String)> = Vec::new();
        proof {
            assert(labels_model(r@) =~= Seq::<(Seq<char>, Seq<char>)>::empty());
        }
        r
    }

    fn expand(&mut self) -> (r: Vec<ObservableEntry>) {
        let entry = ObservableEntry {
            name: self.name.to_owned(),
            label: None,
            value: CounterValue::Unsigned(self.aggregate_value()),
            metric_kind: MetricKind::Gauge,
        };
        let r: Vec<ObservableEntry> = vec![entry];
        r
    }
}

impl Default for Minimum {
    /// A fresh tracker: every shard at the sentinel, no name.
    fn default() -> (r: Self)
        ensures
            r.wf(),
            r.aggregate() == u64::MAX,
            r.spec_name() == Seq::<char>::empty(),
    {
        Minimum::new()
    }
}

} // verus!
