//! Snapshots: owned, point-in-time copies of counter observations, the
//! shape handed to serializers and other external consumers.

use vstd::prelude::*;

verus! {

use crate::contatori::{label_pair_model, CounterValue, Observable, ObservableEntry};

/// A snapshot of one counter: its name, an optional label pair, and the
/// aggregate value at capture time.
#[derive(Debug)]
pub struct CounterSnapshot {
    /// The counter's name; a nameless counter is captured as `(unnamed)`.
    pub name: String,
    /// An optional `(key, value)` label pair.
    pub label: Option<(String, String)>,
    /// The aggregate value at capture time.
    pub value: CounterValue,
}

/// The name a snapshot records for an entry: the entry's own name, with
/// `(unnamed)` standing in for an empty one.
pub open spec fn snapshot_name(name: Seq<char>) -> Seq<char> {
    if name.len() == 0 {
        "(unnamed)"@
    } else {
        name
    }
}

impl CounterSnapshot {
    /// A snapshot with no label.
    pub fn new(name: &str, value: CounterValue) -> (r: CounterSnapshot)
        ensures
            r.name@ == name@,
            r.label == Option::<(String, String)>::None,
            r.value == value,
    {
        CounterSnapshot { name: name.to_owned(), label: None, value }
    }

    /// A snapshot with an optional label pair.
    pub fn with_label(name: &str, label: Option<(String, String)>, value: CounterValue) -> (r:
        CounterSnapshot)
        ensures
            r.name@ == name@,
            r.label == label,
            r.value == value,
    {
        CounterSnapshot { name: name.to_owned(), label, value }
    }

    /// Captures one observation entry, defaulting an empty name.
    pub fn from_entry(entry: ObservableEntry) -> (r: CounterSnapshot)
        ensures
            r.name@ == snapshot_name(entry.name@),
            label_pair_model(r.label) == label_pair_model(entry.label),
            r.value == entry.value,
    {
        let name = if entry.name.as_str().is_empty() {
            let unnamed: &str = "(unnamed)";
            unnamed.to_owned()
        } else {
            entry.name
        };
        CounterSnapshot { name, label: entry.label, value: entry.value }
    }

    /// Captures a counter through its observation interface: one snapshot,
    /// carrying the counter's name (defaulted if empty) and value.
    pub fn from_observable<T: Observable>(counter: &mut T) -> (r: Vec<CounterSnapshot>)
        requires
            old(counter).inv(),
        ensures
            final(counter).inv(),
            old(counter).read_rel(*final(counter)),
            r@.len() == 1,
            r@[0].name@ == snapshot_name(old(counter).obs_name()),
            r@[0].label == Option::<(String, String)>::None,
            r@[0].value == old(counter).obs_value(),
    {
        let mut entries = counter.expand();
        let entry = entries.remove(0);
        let snap = CounterSnapshot::from_entry(entry);
        let r: Vec<CounterSnapshot> = vec![snap];
        r
    }
}

/// The index of the first snapshot named `n`, or `-1` if none is.
pub open spec fn find_snapshot(s: Seq<CounterSnapshot>, n: Seq<char>) -> int
    decreases s.len(),
{
    if s.len() == 0 {
        -1
    } else if s[0].name@ == n {
        0
    } else {
        let r = find_snapshot(s.subrange(1, s.len() as int), n);
        if r < 0 {
            -1
        } else {
            r + 1
        }
    }
}

/// A point-in-time collection of counter snapshots, optionally stamped
/// with a capture time in milliseconds since the Unix epoch.
#[derive(Debug)]
pub struct MetricsSnapshot {
    /// Optional capture time, in milliseconds since the Unix epoch.
    pub timestamp_ms: Option<u64>,
    /// The captured counters.
    pub counters: Vec<CounterSnapshot>,
}

impl MetricsSnapshot {
    /// A snapshot collection without a timestamp.
    pub fn new(counters: Vec<CounterSnapshot>) -> (r: MetricsSnapshot)
        ensures
            r.timestamp_ms == Option::<u64>::None,
            r.counters == counters,
    {
        MetricsSnapshot { timestamp_ms: None, counters }
    }

    /// A snapshot collection stamped with a capture time.
    pub fn with_timestamp(counters: Vec<CounterSnapshot>, timestamp_ms: u64) -> (r:
        MetricsSnapshot)
        ensures
            r.timestamp_ms == Some(timestamp_ms),
            r.counters == counters,
    {
        MetricsSnapshot { timestamp_ms: Some(timestamp_ms), counters }
    }

    /// The first snapshot named `name`, if any.
    pub fn get(&self, name: &str) -> (r: Option<&CounterSnapshot>)
        ensures
            match r {
                Some(c) => {
                    &&& find_snapshot(self.counters@, name@) >= 0
                    &&& *c == self.counters@[find_snapshot(self.counters@, name@)]
                },
                None => find_snapshot(self.counters@, name@) < 0,
            },
    {
        proof {
            lemma_find_snapshot(self.counters@, name@);
        }
        let key = name.to_owned();
        let ghost model = self.counters@;
        let n = self.counters.len();
        let mut i: usize = 0;
        while i < n
            invariant
                n == self.counters@.len(),
                model == self.counters@,
                i <= n,
                key@ == name@,
                forall|j: int| 0 <= j < i ==> model[j].name@ != name@,
            decreases n - i,
        {
            let c = &self.counters[i];
            if c.name == key {
                proof {
                    lemma_find_snapshot(model, name@);
                    assert(find_snapshot(model, name@) == i as int) by {
                        if find_snapshot(model, name@) < i as int && find_snapshot(model, name@)
                            >= 0 {
                            assert(model[find_snapshot(model, name@)].name@ != name@);
                        }
                        if find_snapshot(model, name@) > i as int {
                            assert(forall|j: int|
                                0 <= j < find_snapshot(model, name@) ==> model[j].name@ != name@);
                        }
                        if find_snapshot(model, name@) < 0 {
                            assert(forall|j: int|
                                0 <= j < model.len() ==> model[j].name@ != name@);
                        }
                    }
                }
                return Some(c);
            }
            i = i + 1;
        }
        proof {
            lemma_find_snapshot(model, name@);
            if find_snapshot(model, name@) >= 0 {
                assert(model[find_snapshot(model, name@)].name@ == name@);
            }
        }
        None
    }

    /// Captures a batch of observation entries, one snapshot per entry and
    /// in the same order, without a timestamp.
    pub fn collect(entries: Vec<ObservableEntry>) -> (r: MetricsSnapshot)
        ensures
            r.timestamp_ms == Option::<u64>::None,
            r.counters@.len() == entries@.len(),
            forall|i: int|
                0 <= i < entries@.len() ==> {
                    &&& (#[trigger] r.counters@[i]).name@ == snapshot_name(entries@[i].name@)
                    &&& label_pair_model(r.counters@[i].label) == label_pair_model(
                        entries@[i].label,
                    )
                    &&& r.counters@[i].value == entries@[i].value
                },
    {
        MetricsSnapshot { timestamp_ms: None, counters: Self::snapshots_of(entries) }
    }

    /// Captures a batch of observation entries, stamped with a capture time.
    pub fn collect_with_timestamp(entries: Vec<ObservableEntry>, timestamp_ms: u64) -> (r:
        MetricsSnapshot)
        ensures
            r.timestamp_ms == Some(timestamp_ms),
            r.counters@.len() == entries@.len(),
            forall|i: int|
                0 <= i < entries@.len() ==> {
                    &&& (#[trigger] r.counters@[i]).name@ == snapshot_name(entries@[i].name@)
                    &&& label_pair_model(r.counters@[i].label) == label_pair_model(
                        entries@[i].label,
                    )
                    &&& r.counters@[i].value == entries@[i].value
                },
    {
        MetricsSnapshot {
            timestamp_ms: Some(timestamp_ms),
            counters: Self::snapshots_of(entries),
        }
    }

    /// One snapshot per entry, in order.
    fn snapshots_of(entries: Vec<ObservableEntry>) -> (r: Vec<CounterSnapshot>)
        ensures
            r@.len() == entries@.len(),
            forall|i: int|
                0 <= i < entries@.len() ==> {
                    &&& (#[trigger] r@[i]).name@ == snapshot_name(entries@[i].name@)
                    &&& label_pair_model(r@[i].label) == label_pair_model(entries@[i].label)
                    &&& r@[i].value == entries@[i].value
                },
    {
        let ghost orig = entries@;
        let mut entries = entries;
        let mut r: Vec<CounterSnapshot> = Vec::new();
        while entries.len() > 0
            invariant
                r@.len() + entries@.len() == orig.len(),
                forall|j: int|
                    0 <= j < entries@.len() ==> #[trigger] entries@[j] == orig[j + r@.len()],
                forall|i: int|
                    0 <= i < r@.len() ==> {
                        &&& (#[trigger] r@[i]).name@ == snapshot_name(orig[i].name@)
                        &&& label_pair_model(r@[i].label) == label_pair_model(orig[i].label)
                        &&& r@[i].value == orig[i].value
                    },
            decreases entries@.len(),
        {
            let entry = entries.remove(0);
            let snap = CounterSnapshot::from_entry(entry);
            r.push(snap);
        }
        r
    }
}

/// What [`find_snapshot`] finds: a well-placed first index of the name, or
/// a guarantee that the name occurs nowhere.
proof fn lemma_find_snapshot(s: Seq<CounterSnapshot>, n: Seq<char>)
    ensures
        find_snapshot(s, n) >= 0 ==> {
            &&& find_snapshot(s, n) < s.len()
            &&& s[find_snapshot(s, n)].name@ == n
            &&& forall|j: int| 0 <= j < find_snapshot(s, n) ==> s[j].name@ != n
        },
        find_snapshot(s, n) < 0 ==> forall|j: int| 0 <= j < s.len() ==> s[j].name@ != n,
    decreases s.len(),
{
    if s.len() > 0 && s[0].name@ != n {
        let tail = s.subrange(1, s.len() as int);
        lemma_find_snapshot(tail, n);
        if find_snapshot(tail, n) >= 0 {
            let r = find_snapshot(tail, n);
            assert(tail[r] == s[r + 1]);
            assert forall|j: int| 0 <= j < find_snapshot(s, n) implies s[j].name@ != n by {
                if j > 0 {
                    assert(tail[j - 1] == s[j]);
                }
            }
        } else {
            assert forall|j: int| 0 <= j < s.len() implies s[j].name@ != n by {
                if j > 0 {
                    assert(tail[j - 1] == s[j]);
                }
            }
        }
    }
}

} // verus!
