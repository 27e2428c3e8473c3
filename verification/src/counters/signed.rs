//! Signed (bidirectional) counter over sharded storage.

use vstd::prelude::*;

verus! {

use crate::contatori::{
    labels_model, CounterValue, MetricKind, Observable, ObservableEntry, NUM_COMPONENTS,
};
use crate::storage::{
    drain_sum_i64, fold_sum_i64, lemma_sum_i64_zero, make_shards_i64, shard_add_i64,
    shard_sub_i64, wrapped_sum_i64,
};

/// A signed counter: additions and subtractions land in the active shard,
/// and the aggregate — the two's-complement wrapped sum of all shards —
/// may be negative.
///
/// A read-and-reset zeroes every shard and reports the pre-reset sum.
#[derive(Debug)]
pub struct Signed {
    name: &'static str,
    shards: Vec<i64>,
    slot: usize,
}

impl Signed {
    /// The shard contents.
    pub closed spec fn shards_view(&self) -> Seq<i64> {
        self.shards@
    }

    /// The active slot, where updates from this owner land.
    pub closed spec fn active_slot(&self) -> int {
        self.slot as int
    }

    /// The counter's name.
    pub closed spec fn spec_name(&self) -> Seq<char> {
        self.name@
    }

    /// Well-formedness: the shard count is fixed and the slot addresses one.
    pub open spec fn wf(&self) -> bool {
        &&& self.shards_view().len() == NUM_COMPONENTS
        &&& 0 <= self.active_slot() < NUM_COMPONENTS
    }

    /// The aggregate: the wrapped signed sum of all shards.
    pub open spec fn total(&self) -> i64 {
        wrapped_sum_i64(self.shards_view())
    }

    /// Creates a counter with every shard zero, slot `0` and no name.
    pub fn new() -> (r: Signed)
        ensures
            r.wf(),
            r.total() == 0,
            r.spec_name() == Seq::<char>::empty(),
            r.active_slot() == 0,
            forall|i: int| 0 <= i < NUM_COMPONENTS ==> r.shards_view()[i] == 0i64,
    {
        let shards = make_shards_i64(NUM_COMPONENTS, 0);
        let r = Signed { name: "", shards, slot: 0 };
        proof {
            lemma_sum_i64_zero(r.shards_view());
            reveal_strlit("");
            assert(r.spec_name() =~= Seq::<char>::empty());
        }
        r
    }

    /// Sets the name of this counter, returning `self` for chaining.
    pub fn with_name(self, name: &'static str) -> (r: Signed)
        ensures
            r.spec_name() == name@,
            r.shards_view() == self.shards_view(),
            r.active_slot() == self.active_slot(),
    {
        Signed { name, ..self }
    }

    /// Binds this owner to a shard, as handed out by the slot assigner.
    pub fn set_active_slot(&mut self, slot: usize)
        requires
            slot < NUM_COMPONENTS,
        ensures
            final(self).active_slot() == slot,
            final(self).shards_view() == old(self).shards_view(),
            final(self).spec_name() == old(self).spec_name(),
    {
        self.slot = slot;
    }

    /// Adds a value (possibly negative) to the active shard; the aggregate
    /// moves by `value`, with two's-complement wrap.
    pub fn add(&mut self, value: i64)
        requires
            old(self).wf(),
        ensures
            final(self).wf(),
            final(self).shards_view() == old(self).shards_view().update(
                old(self).active_slot(),
                old(self).shards_view()[old(self).active_slot()].wrapping_add(value),
            ),
            final(self).total() == vstd::wrapping::i64_specs::signed_crop(
                old(self).total() + value,
            ),
            final(self).active_slot() == old(self).active_slot(),
            final(self).spec_name() == old(self).spec_name(),
    {
        shard_add_i64(&mut self.shards, self.slot, value);
    }

    /// Subtracts a value from the active shard; the aggregate moves by
    /// `-value`, with two's-complement wrap.
    pub fn sub(&mut self, value: i64)
        requires
            old(self).wf(),
        ensures
            final(self).wf(),
            final(self).shards_view() == old(self).shards_view().update(
                old(self).active_slot(),
                old(self).shards_view()[old(self).active_slot()].wrapping_sub(value),
            ),
            final(self).total() == vstd::wrapping::i64_specs::signed_crop(
                old(self).total() - value,
            ),
            final(self).active_slot() == old(self).active_slot(),
            final(self).spec_name() == old(self).spec_name(),
    {
        shard_sub_i64(&mut self.shards, self.slot, value);
    }

    /// Stores an absolute value into the active shard; other shards keep
    /// their contributions.
    pub fn set_local_value(&mut self, value: i64)
        requires
            old(self).wf(),
        ensures
            final(self).wf(),
            final(self).shards_view() == old(self).shards_view().update(
                old(self).active_slot(),
                value,
            ),
            final(self).active_slot() == old(self).active_slot(),
            final(self).spec_name() == old(self).spec_name(),
    {
        self.shards.set(self.slot, value);
    }

    /// The value of the active shard alone.
    pub fn local_value(&self) -> (r: i64)
        requires
            self.wf(),
        ensures
            r == self.shards_view()[self.active_slot()],
    {
        self.shards[self.slot]
    }

    /// The aggregate value: the wrapped signed sum of all shards.
    pub fn total_value(&self) -> (r: i64)
        ensures
            r == self.total(),
    {
        fold_sum_i64(&self.shards)
    }

    /// The aggregate value; every shard is zeroed on the way.
    pub fn total_value_and_reset(&mut self) -> (r: i64)
        requires
            old(self).wf(),
        ensures
            final(self).wf(),
            r == old(self).total(),
            final(self).total() == 0,
            forall|i: int|
                0 <= i < NUM_COMPONENTS ==> final(self).shards_view()[i] == 0i64,
            final(self).active_slot() == old(self).active_slot(),
            final(self).spec_name() == old(self).spec_name(),
    {
        let r = drain_sum_i64(&mut self.shards);
        proof {
            lemma_sum_i64_zero(self.shards@);
        }
        r
    }
}

impl Observable for Signed {
    open spec fn inv(&self) -> bool {
        self.wf()
    }

    open spec fn obs_name(&self) -> Seq<char> {
        self.spec_name()
    }

    open spec fn obs_value(&self) -> CounterValue {
        CounterValue::Signed(self.total())
    }

    open spec fn read_rel(&self, post: Self) -> bool {
        post == *self
    }

    open spec fn obs_reset_value(&self) -> CounterValue {
        CounterValue::Signed(self.total())
    }

    open spec fn reset_rel(&self, post: Self) -> bool {
        &&& post.spec_name() == self.spec_name()
        &&& post.active_slot() == self.active_slot()
        &&& post.total() == 0
        &&& forall|i: int| 0 <= i < NUM_COMPONENTS ==> post.shards_view()[i] == 0i64
    }

    open spec fn obs_kind(&self) -> MetricKind {
        MetricKind::Gauge
    }

    open spec fn obs_labels(&self) -> Seq<(Seq<char>, Seq<char>)> {
        Seq::empty()
    }

    fn name(&self) -> (r: &str) {
        self.name
    }

    fn value(&mut self) -> (r: CounterValue) {
        CounterValue::Signed(self.total_value())
    }

    fn value_and_reset(&mut self) -> (r: CounterValue) {
        CounterValue::Signed(self.total_value_and_reset())
    }

    fn metric_kind(&self) -> (r: MetricKind) {
        MetricKind::Gauge
    }

    fn labels(&self) -> (r: Vec<(String, String)>) {
        let r: Vec<(String, String)> = Vec::new();
        proof {
            assert(labels_model(r@) =~= Seq::<(Seq<char>, Seq<char>)>::empty());
        }
        r
    }

    fn expand(&mut self) -> (r: Vec<ObservableEntry>) {
        let entry = ObservableEntry {
            name: self.name.to_owned(),
            label: None,
            value: CounterValue::Signed(self.total_value()),
            metric_kind: MetricKind::Gauge,
        };
        let r: Vec<ObservableEntry> = vec![entry];
        r
    }
}

impl Default for Signed {
    /// A fresh counter: every shard zero, no name.
    fn default() -> (r: Self)
        ensures
            r.wf(),
            r.total() == 0,
            r.spec_name() == Seq::<char>::empty(),
    {
        Signed::new()
    }
}

} // verus!
