//! Resettable unsigned counter over sharded storage.

use vstd::prelude::*;

verus! {

use crate::contatori::{
    labels_model, CounterValue, MetricKind, Observable, ObservableEntry, NUM_COMPONENTS,
};
use crate::storage::{
    drain_sum, fold_sum, lemma_sum_u64_zero, make_shards, shard_add, shard_sub, wrapped_sum_u64,
};

/// An unsigned counter whose updates land in the active shard and whose
/// aggregate is the 64-bit wrapped sum of all shards.
///
/// A read-and-reset zeroes every shard and reports the pre-reset sum.
#[derive(Debug)]
pub struct Unsigned {
    name: &'static str,
    shards: Vec<u64>,
    slot: usize,
}

impl Unsigned {
    /// The shard contents.
    pub closed spec fn shards_view(&self) -> Seq<u64> {
        self.shards@
    }

    /// The active slot, where updates from this owner land.
    pub closed spec fn active_slot(&self) -> int {
        self.slot as int
    }

    /// The counter's name.
    pub closed spec fn spec_name(&self) -> Seq<char> {
        self.name@
    }

    /// Well-formedness: the shard count is fixed and the slot addresses one.
    pub open spec fn wf(&self) -> bool {
        &&& self.shards_view().len() == NUM_COMPONENTS
        &&& 0 <= self.active_slot() < NUM_COMPONENTS
    }

    /// The aggregate: the wrapped sum of all shards.
    pub open spec fn total(&self) -> u64 {
        wrapped_sum_u64(self.shards_view())
    }

    /// Creates a counter with every shard zero, slot `0` and no name.
    pub fn new() -> (r: Unsigned)
        ensures
            r.wf(),
            r.total() == 0,
            r.spec_name() == Seq::<char>::empty(),
            r.active_slot() == 0,
            forall|i: int| 0 <= i < NUM_COMPONENTS ==> r.shards_view()[i] == 0u64,
    {
        let shards = make_shards(NUM_COMPONENTS, 0);
        let r = Unsigned { name: "", shards, slot: 0 };
        proof {
            lemma_sum_u64_zero(r.shards_view());
            reveal_strlit("");
            assert(r.spec_name() =~= Seq::<char>::empty());
        }
        r
    }

    /// Sets the name of this counter, returning `self` for chaining.
    pub fn with_name(self, name: &'static str) -> (r: Unsigned)
        ensures
            r.spec_name() == name@,
            r.shards_view() == self.shards_view(),
            r.active_slot() == self.active_slot(),
    {
        Unsigned { name, ..self }
    }

    /// Binds this owner to a shard, as handed out by the slot assigner.
    pub fn set_active_slot(&mut self, slot: usize)
        requires
            slot < NUM_COMPONENTS,
        ensures
            final(self).active_slot() == slot,
            final(self).shards_view() == old(self).shards_view(),
            final(self).spec_name() == old(self).spec_name(),
    {
        self.slot = slot;
    }

    /// Adds a value to the active shard; the aggregate grows by `value`,
    /// wrapping at the 64-bit limit.
    pub fn add(&mut self, value: u64)
        requires
            old(self).wf(),
        ensures
            final(self).wf(),
            final(self).shards_view() == old(self).shards_view().update(
                old(self).active_slot(),
                old(self).shards_view()[old(self).active_slot()].wrapping_add(value),
            ),
            final(self).total() == ((old(self).total() + value) % 0x1_0000_0000_0000_0000) as u64,
            final(self).active_slot() == old(self).active_slot(),
            final(self).spec_name() == old(self).spec_name(),
    {
        shard_add(&mut self.shards, self.slot, value);
    }

    /// Subtracts a value from the active shard; subtraction below zero
    /// wraps, a documented semantic and not an error.
    pub fn sub(&mut self, value: u64)
        requires
            old(self).wf(),
        ensures
            final(self).wf(),
            final(self).shards_view() == old(self).shards_view().update(
                old(self).active_slot(),
                old(self).shards_view()[old(self).active_slot()].wrapping_sub(value),
            ),
            final(self).total() == (
                (old(self).total() - value) % 0x1_0000_0000_0000_0000
            ) as u64,
            final(self).active_slot() == old(self).active_slot(),
            final(self).spec_name() == old(self).spec_name(),
    {
        shard_sub(&mut self.shards, self.slot, value);
    }

    /// Stores an absolute value into the active shard; other shards keep
    /// their contributions.
    pub fn set_local_value(&mut self, value: u64)
        requires
            old(self).wf(),
        ensures
            final(self).wf(),
            final(self).shards_view() == old(self).shards_view().update(
                old(self).active_slot(),
                value,
            ),
            final(self).active_slot() == old(self).active_slot(),
            final(self).spec_name() == old(self).spec_name(),
    {
        self.shards.set(self.slot, value);
    }

    /// The value of the active shard alone.
    pub fn local_value(&self) -> (r: u64)
        requires
            self.wf(),
        ensures
            r == self.shards_view()[self.active_slot()],
    {
        self.shards[self.slot]
    }

    /// The aggregate value: the wrapped sum of all shards.
    pub fn total_value(&self) -> (r: u64)
        ensures
            r == self.total(),
    {
        fold_sum(&self.shards)
    }

    /// The aggregate value; every shard is zeroed on the way.
    pub fn total_value_and_reset(&mut self) -> (r: u64)
        requires
            old(self).wf(),
        ensures
            final(self).wf(),
            r == old(self).total(),
            final(self).total() == 0,
            forall|i: int|
                0 <= i < NUM_COMPONENTS ==> final(self).shards_view()[i] == 0u64,
            final(self).active_slot() == old(self).active_slot(),
            final(self).spec_name() == old(self).spec_name(),
    {
        let r = drain_sum(&mut self.shards, 0);
        proof {
            lemma_sum_u64_zero(self.shards@);
        }
        r
    }
}

impl Observable for Unsigned {
    open spec fn inv(&self) -> bool {
        self.wf()
    }

    open spec fn obs_name(&self) -> Seq<char> {
        self.spec_name()
    }

    open spec fn obs_value(&self) -> CounterValue {
        CounterValue::Unsigned(self.total())
    }

    open spec fn read_rel(&self, post: Self) -> bool {
        post == *self
    }

    open spec fn obs_reset_value(&self) -> CounterValue {
        CounterValue::Unsigned(self.total())
    }

    open spec fn reset_rel(&self, post: Self) -> bool {
        &&& post.spec_name() == self.spec_name()
        &&& post.active_slot() == self.active_slot()
        &&& post.total() == 0
        &&& forall|i: int| 0 <= i < NUM_COMPONENTS ==> post.shards_view()[i] == 0u64
    }

    open spec fn obs_kind(&self) -> MetricKind {
        MetricKind::Gauge
    }

    open spec fn obs_labels(&self) -> Seq<(Seq<char>, Seq<char>)> {
        Seq::empty()
    }

    fn name(&self) -> (r: &str) {
        self.name
    }

    fn value(&mut self) -> (r: CounterValue) {
        CounterValue::Unsigned(self.total_value())
    }

    fn value_and_reset(&mut self) -> (r: CounterValue) {
        CounterValue::Unsigned(self.total_value_and_reset())
    }

    fn metric_kind(&self) -> (r: MetricKind) {
        MetricKind::Gauge
    }

    fn labels(&self) -> (r: Vec<(String, String)>) {
        let r: Vec<(String, String)> = Vec::new();
        proof {
            assert(labels_model(r@) =~= Seq::<(Seq<char>, Seq<char>)>::empty());
        }
        r
    }

    fn expand(&mut self) -> (r: Vec<ObservableEntry>) {
        let entry = ObservableEntry {
            name: self.name.to_owned(),
            label: None,
            value: CounterValue::Unsigned(self.total_value()),
            metric_kind: MetricKind::Gauge,
        };
        let r: Vec<ObservableEntry> = vec![entry];
        r
    }
}

impl Default for Unsigned {
    /// A fresh counter: every shard zero, no name.
    fn default() -> (r: Self)
        ensures
            r.wf(),
            r.total() == 0,
            r.spec_name() == Seq::<char>::empty(),
    {
        Unsigned::new()
    }
}

} // verus!
