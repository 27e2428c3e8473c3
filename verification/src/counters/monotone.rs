//! Monotone (never-resetting) unsigned counter over sharded storage.

use vstd::prelude::*;

verus! {

use crate::contatori::{
    labels_model, CounterValue, MetricKind, Observable, ObservableEntry, NUM_COMPONENTS,
};
use crate::storage::{
    fold_sum, lemma_sum_u64_update, lemma_sum_u64_zero, make_shards, shard_add, sum_u64,
    wrapped_sum_u64,
};

/// A monotonically increasing counter: additions land in the active shard,
/// the aggregate is the wrapped sum of all shards, and a read-and-reset is
/// defined to equal a plain read — the counter never clears, so downstream
/// cumulative-counter consumers always see a non-decreasing value.
#[derive(Debug)]
pub struct Monotone {
    name: &'static str,
    shards: Vec<u64>,
    slot: usize,
}

impl Monotone {
    /// The shard contents.
    pub closed spec fn shards_view(&self) -> Seq<u64> {
        self.shards@
    }

    /// The active slot, where updates from this owner land.
    pub closed spec fn active_slot(&self) -> int {
        self.slot as int
    }

    /// The counter's name.
    pub closed spec fn spec_name(&self) -> Seq<char> {
        self.name@
    }

    /// Well-formedness: the shard count is fixed and the slot addresses one.
    pub open spec fn wf(&self) -> bool {
        &&& self.shards_view().len() == NUM_COMPONENTS
        &&& 0 <= self.active_slot() < NUM_COMPONENTS
    }

    /// The aggregate: the wrapped sum of all shards.
    pub open spec fn total(&self) -> u64 {
        wrapped_sum_u64(self.shards_view())
    }

    /// Creates a counter with every shard zero, slot `0` and no name.
    pub fn new() -> (r: Monotone)
        ensures
            r.wf(),
            r.total() == 0,
            r.spec_name() == Seq::<char>::empty(),
            r.active_slot() == 0,
            forall|i: int| 0 <= i < NUM_COMPONENTS ==> r.shards_view()[i] == 0u64,
    {
        let shards = make_shards(NUM_COMPONENTS, 0);
        let r = Monotone { name: "", shards, slot: 0 };
        proof {
            lemma_sum_u64_zero(r.shards_view());
            reveal_strlit("");
            assert(r.spec_name() =~= Seq::<char>::empty());
        }
        r
    }

    /// Sets the name of this counter, returning `self` for chaining.
    pub fn with_name(self, name: &'static str) -> (r: Monotone)
        ensures
            r.spec_name() == name@,
            r.shards_view() == self.shards_view(),
            r.active_slot() == self.active_slot(),
    {
        Monotone { name, ..self }
    }

    /// Binds this owner to a shard, as handed out by the slot assigner.
    pub fn set_active_slot(&mut self, slot: usize)
        requires
            slot < NUM_COMPONENTS,
        ensures
            final(self).active_slot() == slot,
            final(self).shards_view() == old(self).shards_view(),
            final(self).spec_name() == old(self).spec_name(),
    {
        self.slot = slot;
    }

    /// Adds a value to the active shard; the aggregate grows by `value`,
    /// wrapping at the 64-bit limit.
    pub fn add(&mut self, value: u64)
        requires
            old(self).wf(),
        ensures
            final(self).wf(),
            final(self).shards_view() == old(self).shards_view().update(
                old(self).active_slot(),
                old(self).shards_view()[old(self).active_slot()].wrapping_add(value),
            ),
            final(self).total() == ((old(self).total() + value) % 0x1_0000_0000_0000_0000) as u64,
            final(self).active_slot() == old(self).active_slot(),
            final(self).spec_name() == old(self).spec_name(),
    {
        shard_add(&mut self.shards, self.slot, value);
    }

    /// The value of the active shard alone.
    pub fn local_value(&self) -> (r: u64)
        requires
            self.wf(),
        ensures
            r == self.shards_view()[self.active_slot()],
    {
        self.shards[self.slot]
    }

    /// The aggregate value: the wrapped sum of all shards.
    pub fn total_value(&self) -> (r: u64)
        ensures
            r == self.total(),
    {
        fold_sum(&self.shards)
    }
}

impl Observable for Monotone {
    open spec fn inv(&self) -> bool {
        self.wf()
    }

    open spec fn obs_name(&self) -> Seq<char> {
        self.spec_name()
    }

    open spec fn obs_value(&self) -> CounterValue {
        CounterValue::Unsigned(self.total())
    }

    open spec fn read_rel(&self, post: Self) -> bool {
        post == *self
    }

    open spec fn obs_reset_value(&self) -> CounterValue {
        CounterValue::Unsigned(self.total())
    }

    /// A reset read never clears a monotone counter.
    open spec fn reset_rel(&self, post: Self) -> bool {
        post == *self
    }

    open spec fn obs_kind(&self) -> MetricKind {
        MetricKind::Counter
    }

    open spec fn obs_labels(&self) -> Seq<(Seq<char>, Seq<char>)> {
        Seq::empty()
    }

    fn name(&self) -> (r: &str) {
        self.name
    }

    fn value(&mut self) -> (r: CounterValue) {
        CounterValue::Unsigned(self.total_value())
    }

    fn value_and_reset(&mut self) -> (r: CounterValue) {
        CounterValue::Unsigned(self.total_value())
    }

    fn metric_kind(&self) -> (r: MetricKind) {
        MetricKind::Counter
    }

    fn labels(&self) -> (r: Vec<(String, String)>) {
        let r: Vec<(String, String)> = Vec::new();
        proof {
            assert(labels_model(r@) =~= Seq::<(Seq<char>, Seq<char>)>::empty());
        }
        r
    }

    fn expand(&mut self) -> (r: Vec<ObservableEntry>) {
        let entry = ObservableEntry {
            name: self.name.to_owned(),
            label: None,
            value: CounterValue::Unsigned(self.total_value()),
            metric_kind: MetricKind::Counter,
        };
        let r: Vec<ObservableEntry> = vec![entry];
        r
    }
}

impl Default for Monotone {
    /// A fresh counter: every shard zero, no name.
    fn default() -> (r: Self)
        ensures
            r.wf(),
            r.total() == 0,
            r.spec_name() == Seq::<char>::empty(),
    {
        Monotone::new()
    }
}

/// The shard contents after a sequence of unit additions, each landing in
/// the shard its worker was bound to, applied in program order.
pub open spec fn apply_unit_adds(s: Seq<u64>, ops: Seq<int>) -> Seq<u64>
    decreases ops.len(),
{
    if ops.len() == 0 {
        s
    } else {
        let s1 = apply_unit_adds(s, ops.drop_last());
        s1.update(ops.last(), s1[ops.last()].wrapping_add(1))
    }
}

/// No cell of a shard vector exceeds the vector's sum.
proof fn lemma_cell_le_sum(s: Seq<u64>, i: int)
    requires
        0 <= i < s.len(),
    ensures
        s[i] <= sum_u64(s),
        sum_u64(s) >= 0,
    decreases s.len(),
{
    if s.len() > 0 {
        if i == s.len() - 1 {
            lemma_sum_nonneg(s.drop_last());
        } else {
            lemma_cell_le_sum(s.drop_last(), i);
        }
    }
}

/// The sum of unsigned cells is never negative.
proof fn lemma_sum_nonneg(s: Seq<u64>)
    ensures
        sum_u64(s) >= 0,
    decreases s.len(),
{
    if s.len() > 0 {
        lemma_sum_nonneg(s.drop_last());
    }
}

/// Additions commute through the shard array: any interleaving of unit
/// additions — whatever order the workers ran in, and whichever shards
/// they were bound to — moves the exact sum of the shards by exactly the
/// number of additions, as long as that sum stays below the 64-bit limit.
pub proof fn lemma_unit_adds_sum(s: Seq<u64>, ops: Seq<int>)
    requires
        forall|k: int| 0 <= k < ops.len() ==> 0 <= #[trigger] ops[k] < s.len(),
        sum_u64(s) + ops.len() <= u64::MAX,
    ensures
        apply_unit_adds(s, ops).len() == s.len(),
        sum_u64(apply_unit_adds(s, ops)) == sum_u64(s) + ops.len(),
    decreases ops.len(),
{
    if ops.len() > 0 {
        let pre = apply_unit_adds(s, ops.drop_last());
        lemma_unit_adds_sum(s, ops.drop_last());
        let j = ops.last();
        lemma_cell_le_sum(pre, j);
        assert(pre[j].wrapping_add(1) == pre[j] + 1);
        lemma_sum_u64_update(pre, j, pre[j].wrapping_add(1));
    }
}

/// For `workers` concurrent workers that each perform `per_worker` unit
/// additions on a counter whose shards are all zero, the aggregate
/// afterwards is exactly `workers * per_worker`, regardless of the
/// interleaving `ops` in which the additions landed.
pub proof fn lemma_concurrent_unit_adds(s: Seq<u64>, ops: Seq<int>, workers: nat, per_worker: nat)
    requires
        s.len() == NUM_COMPONENTS,
        forall|i: int| 0 <= i < s.len() ==> s[i] == 0u64,
        forall|k: int| 0 <= k < ops.len() ==> 0 <= #[trigger] ops[k] < s.len(),
        ops.len() == workers * per_worker,
        workers * per_worker <= u64::MAX,
    ensures
        wrapped_sum_u64(apply_unit_adds(s, ops)) == workers * per_worker,
{
    lemma_sum_u64_zero(s);
    lemma_unit_adds_sum(s, ops);
    vstd::arithmetic::div_mod::lemma_small_mod(
        (workers * per_worker) as nat,
        0x1_0000_0000_0000_0000nat,
    );
}

} // verus!
