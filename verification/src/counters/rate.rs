//! Rate-of-change sampler over sharded storage.

use vstd::prelude::*;

verus! {

use crate::contatori::{
    labels_model, CounterValue, MetricKind, Observable, ObservableEntry, NUM_COMPONENTS,
};
use crate::storage::{fold_sum, lemma_sum_u64_zero, make_shards, shard_add, wrapped_sum_u64};

/// A rate sampler: a monotone shard array plus a sampling baseline — the
/// total and the instant recorded at the last sample.
///
/// A sample is the one genuinely stateful read here: it reports how much
/// the total moved since the last sample and over how long, and resets the
/// baseline to the current total and instant. Callers turn the pair into a
/// per-second figure; a pair with zero elapsed time stands for a rate of
/// zero, which also covers the very first sample.
#[derive(Debug)]
pub struct Rate {
    name: &'static str,
    shards: Vec<u64>,
    slot: usize,
    last_value: u64,
    last_nanos: Option<u64>,
}

impl Rate {
    /// The shard contents.
    pub closed spec fn shards_view(&self) -> Seq<u64> {
        self.shards@
    }

    /// The active slot, where updates from this owner land.
    pub closed spec fn active_slot(&self) -> int {
        self.slot as int
    }

    /// The counter's name.
    pub closed spec fn spec_name(&self) -> Seq<char> {
        self.name@
    }

    /// The total recorded at the last sample.
    pub closed spec fn spec_last_value(&self) -> u64 {
        self.last_value
    }

    /// The instant of the last sample, in nanoseconds; `None` before the
    /// first sample.
    pub closed spec fn spec_last_nanos(&self) -> Option<u64> {
        self.last_nanos
    }

    /// Well-formedness: the shard count is fixed and the slot addresses one.
    pub open spec fn wf(&self) -> bool {
        &&& self.shards_view().len() == NUM_COMPONENTS
        &&& 0 <= self.active_slot() < NUM_COMPONENTS
    }

    /// The aggregate: the wrapped sum of all shards.
    pub open spec fn total(&self) -> u64 {
        wrapped_sum_u64(self.shards_view())
    }

    /// Creates a counter with every shard zero and no sample taken yet.
    pub fn new() -> (r: Rate)
        ensures
            r.wf(),
            r.total() == 0,
            r.spec_name() == Seq::<char>::empty(),
            r.active_slot() == 0,
            r.spec_last_value() == 0,
            r.spec_last_nanos() == Option::<u64>::None,
    {
        let shards = make_shards(NUM_COMPONENTS, 0);
        let r = Rate { name: "", shards, slot: 0, last_value: 0, last_nanos: None };
        proof {
            lemma_sum_u64_zero(r.shards_view());
            reveal_strlit("");
            assert(r.spec_name() =~= Seq::<char>::empty());
        }
        r
    }

    /// Sets the name of this counter, returning `self` for chaining.
    pub fn with_name(self, name: &'static str) -> (r: Rate)
        ensures
            r.spec_name() == name@,
            r.shards_view() == self.shards_view(),
            r.active_slot() == self.active_slot(),
            r.spec_last_value() == self.spec_last_value(),
            r.spec_last_nanos() == self.spec_last_nanos(),
    {
        Rate { name, ..self }
    }

    /// Binds this owner to a shard, as handed out by the slot assigner.
    pub fn set_active_slot(&mut self, slot: usize)
        requires
            slot < NUM_COMPONENTS,
        ensures
            final(self).active_slot() == slot,
            final(self).shards_view() == old(self).shards_view(),
            final(self).spec_name() == old(self).spec_name(),
            final(self).spec_last_value() == old(self).spec_last_value(),
            final(self).spec_last_nanos() == old(self).spec_last_nanos(),
    {
        self.slot = slot;
    }

    /// Adds a value to the active shard; the aggregate grows by `value`,
    /// wrapping at the 64-bit limit.
    pub fn add(&mut self, value: u64)
        requires
            old(self).wf(),
        ensures
            final(self).wf(),
            final(self).total() == ((old(self).total() + value) % 0x1_0000_0000_0000_0000) as u64,
            final(self).active_slot() == old(self).active_slot(),
            final(self).spec_name() == old(self).spec_name(),
            final(self).spec_last_value() == old(self).spec_last_value(),
            final(self).spec_last_nanos() == old(self).spec_last_nanos(),
    {
        shard_add(&mut self.shards, self.slot, value);
    }

    /// The value of the active shard alone.
    pub fn local_value(&self) -> (r: u64)
        requires
            self.wf(),
        ensures
            r == self.shards_view()[self.active_slot()],
    {
        self.shards[self.slot]
    }

    /// The aggregate value: the wrapped sum of all shards, not the rate.
    pub fn total_value(&self) -> (r: u64)
        ensures
            r == self.total(),
    {
        fold_sum(&self.shards)
    }

    /// Takes a sample at `now_nanos` on a monotonic clock and returns
    /// `(delta, elapsed_nanos)`: how far the total moved since the last
    /// sample — never negative, by saturating subtraction — and how much
    /// time passed.
    ///
    /// The very first sample only records the baseline and returns
    /// `(0, 0)`. Every sample moves the baseline to the current total and
    /// instant, so sampling is not idempotent: a second sample at the same
    /// instant reports a zero rate.
    pub fn rate_sample(&mut self, now_nanos: u64) -> (r: (u64, u64))
        requires
            old(self).wf(),
        ensures
            final(self).wf(),
            final(self).shards_view() == old(self).shards_view(),
            final(self).spec_name() == old(self).spec_name(),
            final(self).active_slot() == old(self).active_slot(),
            final(self).spec_last_value() == old(self).total(),
            final(self).spec_last_nanos() == Some(now_nanos),
            match old(self).spec_last_nanos() {
                None => r == (0u64, 0u64),
                Some(then) => {
                    &&& r.0 == if old(self).total() >= old(self).spec_last_value() {
                        (old(self).total() - old(self).spec_last_value()) as u64
                    } else {
                        0u64
                    }
                    &&& r.1 == if now_nanos >= then {
                        (now_nanos - then) as u64
                    } else {
                        0u64
                    }
                },
            },
    {
        let current = self.total_value();
        match self.last_nanos {
            Some(then) => {
                let elapsed = if now_nanos >= then {
                    now_nanos - then
                } else {
                    0
                };
                let last = self.last_value;
                let delta = if current >= last {
                    current - last
                } else {
                    0
                };
                self.last_value = current;
                self.last_nanos = Some(now_nanos);
                (delta, elapsed)
            },
            None => {
                self.last_value = current;
                self.last_nanos = Some(now_nanos);
                (0, 0)
            },
        }
    }
}

impl Observable for Rate {
    open spec fn inv(&self) -> bool {
        self.wf()
    }

    open spec fn obs_name(&self) -> Seq<char> {
        self.spec_name()
    }

    /// The aggregate total; the per-second rate is a ratio of a sample's
    /// pair and is computed by callers of [`Rate::rate_sample`].
    open spec fn obs_value(&self) -> CounterValue {
        CounterValue::Unsigned(self.total())
    }

    open spec fn read_rel(&self, post: Self) -> bool {
        post == *self
    }

    open spec fn obs_reset_value(&self) -> CounterValue {
        CounterValue::Unsigned(self.total())
    }

    /// A reset read keeps the counter's state: the sampling baseline only
    /// moves through [`Rate::rate_sample`].
    open spec fn reset_rel(&self, post: Self) -> bool {
        post == *self
    }

    open spec fn obs_kind(&self) -> MetricKind {
        MetricKind::Gauge
    }

    open spec fn obs_labels(&self) -> Seq<(Seq<char>, Seq<char>)> {
        Seq::empty()
    }

    fn name(&self) -> (r: &str) {
        self.name
    }

    fn value(&mut self) -> (r: CounterValue) {
        CounterValue::Unsigned(self.total_value())
    }

    fn value_and_reset(&mut self) -> (r: CounterValue) {
        CounterValue::Unsigned(self.total_value())
    }

    fn metric_kind(&self) -> (r: MetricKind) {
        MetricKind::Gauge
    }

    fn labels(&self) -> (r: Vec<(String, String)>) {
        let r: Vec<(String, String)> = Vec::new();
        proof {
            assert(labels_model(r@) =~= Seq::<(Seq<char>, Seq<char>)>::empty());
        }
        r
    }

    fn expand(&mut self) -> (r: Vec<ObservableEntry>) {
        let entry = ObservableEntry {
            name: self.name.to_owned(),
            label: None,
            value: CounterValue::Unsigned(self.total_value()),
            metric_kind: MetricKind::Gauge,
        };
        let r: Vec<ObservableEntry> = vec![entry];
        r
    }
}

impl Default for Rate {
    /// A fresh counter: every shard zero, no sample taken, no name.
    fn default() -> (r: Self)
        ensures
            r.wf(),
            r.total() == 0,
            r.spec_name() == Seq::<char>::empty(),
            r.spec_last_nanos() == Option::<u64>::None,
    {
        Rate::new()
    }
}

} // verus!
