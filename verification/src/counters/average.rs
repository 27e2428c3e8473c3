//! Running average over sharded storage.

use vstd::prelude::*;

verus! {

use crate::contatori::{
    labels_model, CounterValue, MetricKind, Observable, ObservableEntry, NUM_COMPONENTS,
};
use crate::storage::{drain_sum, fold_sum, lemma_sum_u64_zero, make_shards, shard_add, shard_sub,
    wrapped_sum_u64};

/// A running average: each shard keeps a sum and a count of observations,
/// and the average is the integer ratio of the aggregated sum over the
/// aggregated count — absent while the count is zero.
///
/// Each shard's `(sum, count)` pair lives at one index of the two shard
/// vectors; keeping the pair on one cache line is a storage-layout concern
/// that does not change what the algorithms compute.
#[derive(Debug)]
pub struct Average {
    name: &'static str,
    sums: Vec<u64>,
    counts: Vec<u64>,
    slot: usize,
}

impl Average {
    /// The per-shard sums.
    pub closed spec fn sums_view(&self) -> Seq<u64> {
        self.sums@
    }

    /// The per-shard observation counts.
    pub closed spec fn counts_view(&self) -> Seq<u64> {
        self.counts@
    }

    /// The active slot, where observations from this owner land.
    pub closed spec fn active_slot(&self) -> int {
        self.slot as int
    }

    /// The counter's name.
    pub closed spec fn spec_name(&self) -> Seq<char> {
        self.name@
    }

    /// Well-formedness: both shard vectors have the fixed length and the
    /// slot addresses a shard.
    pub open spec fn wf(&self) -> bool {
        &&& self.sums_view().len() == NUM_COMPONENTS
        &&& self.counts_view().len() == NUM_COMPONENTS
        &&& 0 <= self.active_slot() < NUM_COMPONENTS
    }

    /// The aggregated sum of all observed values (64-bit wrapped).
    pub open spec fn total_sum(&self) -> u64 {
        wrapped_sum_u64(self.sums_view())
    }

    /// The aggregated number of observations (64-bit wrapped).
    pub open spec fn total_count(&self) -> u64 {
        wrapped_sum_u64(self.counts_view())
    }

    /// The average: the truncated ratio of sum over count, absent while
    /// the count is zero.
    pub open spec fn spec_average(&self) -> Option<u64> {
        if self.total_count() == 0 {
            None
        } else {
            Some((self.total_sum() as int / self.total_count() as int) as u64)
        }
    }

    /// Creates an average counter with zero sum and count everywhere.
    pub fn new() -> (r: Average)
        ensures
            r.wf(),
            r.total_sum() == 0,
            r.total_count() == 0,
            r.spec_average() == Option::<u64>::None,
            r.spec_name() == Seq::<char>::empty(),
            r.active_slot() == 0,
    {
        let sums = make_shards(NUM_COMPONENTS, 0);
        let counts = make_shards(NUM_COMPONENTS, 0);
        let r = Average { name: "", sums, counts, slot: 0 };
        proof {
            lemma_sum_u64_zero(r.sums_view());
            lemma_sum_u64_zero(r.counts_view());
            reveal_strlit("");
            assert(r.spec_name() =~= Seq::<char>::empty());
        }
        r
    }

    /// Sets the name of this counter, returning `self` for chaining.
    pub fn with_name(self, name: &'static str) -> (r: Average)
        ensures
            r.spec_name() == name@,
            r.sums_view() == self.sums_view(),
            r.counts_view() == self.counts_view(),
            r.active_slot() == self.active_slot(),
    {
        Average { name, ..self }
    }

    /// Binds this owner to a shard, as handed out by the slot assigner.
    pub fn set_active_slot(&mut self, slot: usize)
        requires
            slot < NUM_COMPONENTS,
        ensures
            final(self).active_slot() == slot,
            final(self).sums_view() == old(self).sums_view(),
            final(self).counts_view() == old(self).counts_view(),
            final(self).spec_name() == old(self).spec_name(),
    {
        self.slot = slot;
    }

    /// Records one observation: the active shard's sum grows by `value`
    /// and its count by one, both wrapping at the 64-bit limit.
    pub fn observe(&mut self, value: u64)
        requires
            old(self).wf(),
        ensures
            final(self).wf(),
            final(self).total_sum() == (
                (old(self).total_sum() + value) % 0x1_0000_0000_0000_0000
            ) as u64,
            final(self).total_count() == (
                (old(self).total_count() + 1) % 0x1_0000_0000_0000_0000
            ) as u64,
            final(self).active_slot() == old(self).active_slot(),
            final(self).spec_name() == old(self).spec_name(),
    {
        shard_add(&mut self.sums, self.slot, value);
        shard_add(&mut self.counts, self.slot, 1);
    }

    /// Records a pre-aggregated batch: `sum` joins the sums and `count`
    /// joins the counts, both wrapping at the 64-bit limit.
    pub fn observe_many(&mut self, sum: u64, count: u64)
        requires
            old(self).wf(),
        ensures
            final(self).wf(),
            final(self).total_sum() == (
                (old(self).total_sum() + sum) % 0x1_0000_0000_0000_0000
            ) as u64,
            final(self).total_count() == (
                (old(self).total_count() + count) % 0x1_0000_0000_0000_0000
            ) as u64,
            final(self).active_slot() == old(self).active_slot(),
            final(self).spec_name() == old(self).spec_name(),
    {
        shard_add(&mut self.sums, self.slot, sum);
        shard_add(&mut self.counts, self.slot, count);
    }

    /// Grows the sum alone, for callers that track sum and count apart.
    pub fn add_sum(&mut self, value: u64)
        requires
            old(self).wf(),
        ensures
            final(self).wf(),
            final(self).total_sum() == (
                (old(self).total_sum() + value) % 0x1_0000_0000_0000_0000
            ) as u64,
            final(self).total_count() == old(self).total_count(),
            final(self).active_slot() == old(self).active_slot(),
            final(self).spec_name() == old(self).spec_name(),
    {
        shard_add(&mut self.sums, self.slot, value);
    }

    /// Grows the count alone, for callers that track sum and count apart.
    pub fn add_count(&mut self, value: u64)
        requires
            old(self).wf(),
        ensures
            final(self).wf(),
            final(self).total_count() == (
                (old(self).total_count() + value) % 0x1_0000_0000_0000_0000
            ) as u64,
            final(self).total_sum() == old(self).total_sum(),
            final(self).active_slot() == old(self).active_slot(),
            final(self).spec_name() == old(self).spec_name(),
    {
        shard_add(&mut self.counts, self.slot, value);
    }

    /// Grows the count by one without touching the sum.
    pub fn incr(&mut self)
        requires
            old(self).wf(),
        ensures
            final(self).wf(),
            final(self).total_count() == (
                (old(self).total_count() + 1) % 0x1_0000_0000_0000_0000
            ) as u64,
            final(self).total_sum() == old(self).total_sum(),
            final(self).active_slot() == old(self).active_slot(),
            final(self).spec_name() == old(self).spec_name(),
    {
        shard_add(&mut self.counts, self.slot, 1);
    }

    /// Shrinks the count by one without touching the sum; a count below
    /// zero wraps, a documented semantic and not an error.
    pub fn decr(&mut self)
        requires
            old(self).wf(),
        ensures
            final(self).wf(),
            final(self).total_count() == (
                (old(self).total_count() - 1) % 0x1_0000_0000_0000_0000
            ) as u64,
            final(self).total_sum() == old(self).total_sum(),
            final(self).active_slot() == old(self).active_slot(),
            final(self).spec_name() == old(self).spec_name(),
    {
        shard_sub(&mut self.counts, self.slot, 1);
    }

    /// The aggregated sum of all observed values.
    pub fn sum(&self) -> (r: u64)
        ensures
            r == self.total_sum(),
    {
        fold_sum(&self.sums)
    }

    /// The aggregated number of observations.
    pub fn count(&self) -> (r: u64)
        ensures
            r == self.total_count(),
    {
        fold_sum(&self.counts)
    }

    /// The truncated integer average; `None` while nothing was observed.
    pub fn average(&self) -> (r: Option<u64>)
        ensures
            r == self.spec_average(),
    {
        let total_sum = self.sum();
        let total_count = self.count();
        if total_count == 0 {
            None
        } else {
            Some(total_sum / total_count)
        }
    }

    /// The aggregated sum and count, with every shard zeroed on the way.
    pub fn sum_count_and_reset(&mut self) -> (r: (u64, u64))
        requires
            old(self).wf(),
        ensures
            final(self).wf(),
            r.0 == old(self).total_sum(),
            r.1 == old(self).total_count(),
            final(self).total_sum() == 0,
            final(self).total_count() == 0,
            final(self).active_slot() == old(self).active_slot(),
            final(self).spec_name() == old(self).spec_name(),
    {
        let s = drain_sum(&mut self.sums, 0);
        let c = drain_sum(&mut self.counts, 0);
        proof {
            lemma_sum_u64_zero(self.sums@);
            lemma_sum_u64_zero(self.counts@);
        }
        (s, c)
    }

    /// The average of the period just ended, resetting the counter;
    /// `None` when the period saw no observation.
    pub fn average_and_reset(&mut self) -> (r: Option<u64>)
        requires
            old(self).wf(),
        ensures
            final(self).wf(),
            r == old(self).spec_average(),
            final(self).total_sum() == 0,
            final(self).total_count() == 0,
            final(self).active_slot() == old(self).active_slot(),
            final(self).spec_name() == old(self).spec_name(),
    {
        let sc = self.sum_count_and_reset();
        if sc.1 == 0 {
            None
        } else {
            Some(sc.0 / sc.1)
        }
    }
}

impl Observable for Average {
    open spec fn inv(&self) -> bool {
        self.wf()
    }

    open spec fn obs_name(&self) -> Seq<char> {
        self.spec_name()
    }

    /// The average, with `0` standing in for "no data".
    open spec fn obs_value(&self) -> CounterValue {
        match self.spec_average() {
            Some(a) => CounterValue::Unsigned(a),
            None => CounterValue::Unsigned(0u64),
        }
    }

    open spec fn read_rel(&self, post: Self) -> bool {
        post == *self
    }

    open spec fn obs_reset_value(&self) -> CounterValue {
        match self.spec_average() {
            Some(a) => CounterValue::Unsigned(a),
            None => CounterValue::Unsigned(0u64),
        }
    }

    open spec fn reset_rel(&self, post: Self) -> bool {
        &&& post.spec_name() == self.spec_name()
        &&& post.active_slot() == self.active_slot()
        &&& post.total_sum() == 0
        &&& post.total_count() == 0
    }

    open spec fn obs_kind(&self) -> MetricKind {
        MetricKind::Gauge
    }

    open spec fn obs_labels(&self) -> Seq<(Seq<char>, Seq<char>)> {
        Seq::empty()
    }

    fn name(&self) -> (r: &str) {
        self.name
    }

    fn value(&mut self) -> (r: CounterValue) {
        match self.average() {
            Some(a) => CounterValue::Unsigned(a),
            None => CounterValue::Unsigned(0),
        }
    }

    fn value_and_reset(&mut self) -> (r: CounterValue) {
        match self.average_and_reset() {
            Some(a) => CounterValue::Unsigned(a),
            None => CounterValue::Unsigned(0),
        }
    }

    fn metric_kind(&self) -> (r: MetricKind) {
        MetricKind::Gauge
    }

    fn labels(&self) -> (r: Vec<(String, String)>) {
        let r: Vec<(String, String)> = Vec::new();
        proof {
            assert(labels_model(r@) =~= Seq::<(Seq<char>, Seq<char>)>::empty());
        }
        r
    }

    fn expand(&mut self) -> (r: Vec<ObservableEntry>) {
        let value = match self.average() {
            Some(a) => CounterValue::Unsigned(a),
            None => CounterValue::Unsigned(0),
        };
        let entry = ObservableEntry {
            name: self.name.to_owned(),
            label: None,
            value,
            metric_kind: MetricKind::Gauge,
        };
        let r: Vec<ObservableEntry> = vec![entry];
        r
    }
}

impl Default for Average {
    /// A fresh average counter: zero sum and count, no name.
    fn default() -> (r: Self)
        ensures
            r.wf(),
            r.total_sum() == 0,
            r.total_count() == 0,
            r.spec_name() == Seq::<char>::empty(),
    {
        Average::new()
    }
}

} // verus!
