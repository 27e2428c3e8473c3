//! Core types shared by every counter: the aggregate value, the metric
//! kind, the uniform observation interface, and slot assignment for shards.

use vstd::prelude::*;

verus! {

/// Number of shards (slots) used by each counter.
pub const NUM_COMPONENTS: usize = 64;

/// The aggregate value of a counter: an unsigned or a signed 64-bit total.
#[derive(Debug, Clone, Copy, PartialEq, Eq, Structural)]
pub enum CounterValue {
    /// An unsigned 64-bit counter value.
    Unsigned(u64),
    /// A signed 64-bit counter value.
    Signed(i64),
}

impl CounterValue {
    /// Returns `true` if the counter value is zero.
    pub fn is_zero(&self) -> (r: bool)
        ensures
            r == (*self == CounterValue::Unsigned(0u64) || *self == CounterValue::Signed(0i64)),
    {
        match self {
            CounterValue::Unsigned(v) => *v == 0,
            CounterValue::Signed(v) => *v == 0,
        }
    }

    /// The value as an unsigned quantity; a negative signed value is clamped
    /// to zero, as exporters of cumulative counters expect.
    pub fn as_u64(&self) -> (r: u64)
        ensures
            r == self.spec_as_u64(),
    {
        match self {
            CounterValue::Unsigned(v) => *v,
            CounterValue::Signed(v) => {
                if *v < 0 {
                    0
                } else {
                    *v as u64
                }
            },
        }
    }

    /// What [`CounterValue::as_u64`] returns.
    pub open spec fn spec_as_u64(&self) -> u64 {
        match *self {
            CounterValue::Unsigned(v) => v,
            CounterValue::Signed(v) => if v < 0 {
                0u64
            } else {
                v as u64
            },
        }
    }

    /// The value as a signed quantity; an unsigned value above `i64::MAX`
    /// is clamped to `i64::MAX`.
    pub fn as_i64(&self) -> (r: i64)
        ensures
            r == self.spec_as_i64(),
    {
        match self {
            CounterValue::Unsigned(v) => {
                if *v > 0x7fff_ffff_ffff_ffffu64 {
                    i64::MAX
                } else {
                    *v as i64
                }
            },
            CounterValue::Signed(v) => *v,
        }
    }

    /// What [`CounterValue::as_i64`] returns.
    pub open spec fn spec_as_i64(&self) -> i64 {
        match *self {
            CounterValue::Unsigned(v) => if v > 0x7fff_ffff_ffff_ffffu64 {
                i64::MAX
            } else {
                v as i64
            },
            CounterValue::Signed(v) => v,
        }
    }
}

/// How an exporter should treat a counter: as a cumulative, monotonically
/// increasing counter, or as a gauge-like quantity that may move both ways.
#[derive(Debug, Clone, Copy, PartialEq, Eq, Structural)]
pub enum MetricKind {
    /// Monotonically increasing; never reset by observation.
    Counter,
    /// May increase or decrease.
    Gauge,
    /// Distribution-like; exporters here treat it as a gauge.
    Histogram,
}

/// One observation handed to an external consumer: a name, an optional
/// label pair, the aggregate value and the metric kind.
#[derive(Debug)]
pub struct ObservableEntry {
    /// The counter name; empty if the counter was never named.
    pub name: String,
    /// An optional `(key, value)` label pair.
    pub label: Option<(String, String)>,
    /// The aggregate value at observation time.
    pub value: CounterValue,
    /// How an exporter should treat the value.
    pub metric_kind: MetricKind,
}

/// The mathematical content of an optional label pair.
pub open spec fn label_pair_model(l: Option<(String, String)>) -> Option<(Seq<char>, Seq<char>)> {
    match l {
        Some(kv) => Some((kv.0@, kv.1@)),
        None => None,
    }
}

/// The mathematical content of an [`ObservableEntry`].
pub open spec fn entry_model(e: ObservableEntry) -> (Seq<char>, Option<(Seq<char>, Seq<char>)>, CounterValue, MetricKind) {
    (e.name@, label_pair_model(e.label), e.value, e.metric_kind)
}

/// The mathematical content of a label list.
pub open spec fn labels_model(l: Seq<(String, String)>) -> Seq<(Seq<char>, Seq<char>)> {
    l.map_values(|kv: (String, String)| (kv.0@, kv.1@))
}

/// The uniform observation contract: every counter variant exposes a name,
/// an aggregate read, a read-and-reset, a metric kind, labels, and an
/// expansion into [`ObservableEntry`] values.
///
/// The abstract spec functions pin each method's result and the state it
/// leaves behind, so wrappers can be specified in terms of what they wrap.
pub trait Observable: Sized {
    /// Well-formedness of the counter's state.
    spec fn inv(&self) -> bool;

    /// The counter's name.
    spec fn obs_name(&self) -> Seq<char>;

    /// What a read returns.
    spec fn obs_value(&self) -> CounterValue;

    /// How a read changes the state (reads of some variants sample state).
    spec fn read_rel(&self, post: Self) -> bool;

    /// What a read-and-reset returns.
    spec fn obs_reset_value(&self) -> CounterValue;

    /// How a read-and-reset changes the state.
    spec fn reset_rel(&self, post: Self) -> bool;

    /// The metric kind.
    spec fn obs_kind(&self) -> MetricKind;

    /// The attached labels, in order.
    spec fn obs_labels(&self) -> Seq<(Seq<char>, Seq<char>)>;

    /// Returns the name of this counter; empty if never named.
    fn name(&self) -> (r: &str)
        requires
            self.inv(),
        ensures
            r@ == self.obs_name(),
    ;

    /// Returns the current aggregate value.
    fn value(&mut self) -> (r: CounterValue)
        requires
            old(self).inv(),
        ensures
            final(self).inv(),
            r == old(self).obs_value(),
            old(self).read_rel(*final(self)),
    ;

    /// Returns the aggregate value and applies the variant's reset policy.
    fn value_and_reset(&mut self) -> (r: CounterValue)
        requires
            old(self).inv(),
        ensures
            final(self).inv(),
            r == old(self).obs_reset_value(),
            old(self).reset_rel(*final(self)),
    ;

    /// Returns the metric kind.
    fn metric_kind(&self) -> (r: MetricKind)
        ensures
            r == self.obs_kind(),
    ;

    /// Returns the attached labels, in order; empty by default.
    fn labels(&self) -> (r: Vec<(String, String)>)
        requires
            self.inv(),
        ensures
            labels_model(r@) == self.obs_labels(),
    ;

    /// Expands this counter into one entry carrying its name, value and kind.
    fn expand(&mut self) -> (r: Vec<ObservableEntry>)
        requires
            old(self).inv(),
        ensures
            final(self).inv(),
            old(self).read_rel(*final(self)),
            r@.len() == 1,
            entry_model(r@[0]) == (
                old(self).obs_name(),
                Option::<(Seq<char>, Seq<char>)>::None,
                old(self).obs_value(),
                old(self).obs_kind(),
            ),
    ;
}

/// A hand-out of shard indices: one process-wide sequence, taken modulo
/// [`NUM_COMPONENTS`], so that each worker gets a stable slot.
#[derive(Debug)]
pub struct SlotAssigner {
    /// The next raw ticket to hand out.
    pub next: u64,
}

impl SlotAssigner {
    /// Creates an assigner whose first hand-out is slot `0`.
    pub fn new() -> (r: SlotAssigner)
        ensures
            r.next == 0,
    {
        SlotAssigner { next: 0 }
    }
}

/// Hands out the next slot index, in `[0, NUM_COMPONENTS)`.
///
/// The ticket sequence is monotonically increasing (wrapping at the 64-bit
/// limit), so after [`NUM_COMPONENTS`] hand-outs the indices repeat; reuse
/// only raises contention, it never affects correctness.
pub fn get_next_slot_id(assigner: &mut SlotAssigner) -> (slot: usize)
    ensures
        slot < NUM_COMPONENTS,
        slot == old(assigner).next % (NUM_COMPONENTS as u64),
        final(assigner).next == old(assigner).next.wrapping_add(1),
{
    let ticket = assigner.next;
    assigner.next = ticket.wrapping_add(1);
    (ticket % 64) as usize
}

/// The display form of a counter: `name:value` when it has a name, or the
/// bare value otherwise.
pub fn format_observable<T: Observable>(counter: &mut T) -> (r: String)
    requires
        old(counter).inv(),
    ensures
        final(counter).inv(),
        old(counter).read_rel(*final(counter)),
        r@ == if old(counter).obs_name().len() == 0 {
            crate::text::value_chars(old(counter).obs_value())
        } else {
            old(counter).obs_name() + ":"@ + crate::text::value_chars(old(counter).obs_value())
        },
{
    let name = counter.name().to_owned();
    let value = counter.value();
    let text = crate::text::value_to_string(&value);
    if name.as_str().is_empty() {
        text
    } else {
        let mut s = name;
        s.append(":");
        s.append(text.as_str());
        s
    }
}

} // verus!
