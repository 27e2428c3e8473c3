//! Label attachment: an adapter that carries ordered `(key, value)` string
//! pairs for any counter, without touching shard internals.

use vstd::prelude::*;

verus! {

use crate::contatori::{labels_model, CounterValue, MetricKind, Observable, ObservableEntry};

/// The index of the first pair carrying key `k`, or `-1` if none does.
pub open spec fn find_key(l: Seq<(Seq<char>, Seq<char>)>, k: Seq<char>) -> int
    decreases l.len(),
{
    if l.len() == 0 {
        -1
    } else if l[0].0 == k {
        0
    } else {
        let r = find_key(l.subrange(1, l.len() as int), k);
        if r < 0 {
            -1
        } else {
            r + 1
        }
    }
}

/// Whether some pair carries key `k`.
pub open spec fn has_key(l: Seq<(Seq<char>, Seq<char>)>, k: Seq<char>) -> bool {
    find_key(l, k) >= 0
}

/// The label list after attaching `k -> v`: an existing key is updated in
/// place, a new key is appended; insertion order is otherwise preserved.
pub open spec fn update_label(
    l: Seq<(Seq<char>, Seq<char>)>,
    k: Seq<char>,
    v: Seq<char>,
) -> Seq<(Seq<char>, Seq<char>)> {
    if has_key(l, k) {
        l.update(find_key(l, k), (k, v))
    } else {
        l.push((k, v))
    }
}

/// The label list after removing key `k`, if it was there.
pub open spec fn remove_key(
    l: Seq<(Seq<char>, Seq<char>)>,
    k: Seq<char>,
) -> Seq<(Seq<char>, Seq<char>)> {
    if has_key(l, k) {
        l.remove(find_key(l, k))
    } else {
        l
    }
}

/// No two pairs carry the same key.
pub open spec fn unique_keys(l: Seq<(Seq<char>, Seq<char>)>) -> bool {
    forall|i: int, j: int| 0 <= i < j < l.len() ==> l[i].0 != l[j].0
}

/// What [`find_key`] finds: a well-placed index of the key, before which
/// the key does not occur — or a guarantee that the key occurs nowhere.
pub proof fn lemma_find_key(l: Seq<(Seq<char>, Seq<char>)>, k: Seq<char>)
    ensures
        has_key(l, k) ==> {
            &&& 0 <= find_key(l, k) < l.len()
            &&& l[find_key(l, k)].0 == k
            &&& forall|j: int| 0 <= j < find_key(l, k) ==> l[j].0 != k
        },
        !has_key(l, k) ==> forall|j: int| 0 <= j < l.len() ==> l[j].0 != k,
    decreases l.len(),
{
    if l.len() > 0 && l[0].0 != k {
        let tail = l.subrange(1, l.len() as int);
        lemma_find_key(tail, k);
        if has_key(tail, k) {
            let r = find_key(tail, k);
            assert(tail[r] == l[r + 1]);
            assert forall|j: int| 0 <= j < find_key(l, k) implies l[j].0 != k by {
                if j > 0 {
                    assert(tail[j - 1] == l[j]);
                }
            }
        } else {
            assert forall|j: int| 0 <= j < l.len() implies l[j].0 != k by {
                if j > 0 {
                    assert(tail[j - 1] == l[j]);
                }
            }
        }
    }
}

/// Attaching twice with the same key leaves exactly one pair with that
/// key, carrying the value attached last; every pair with another key is
/// untouched, and key uniqueness is preserved.
pub proof fn lemma_update_label(l: Seq<(Seq<char>, Seq<char>)>, k: Seq<char>, v: Seq<char>)
    requires
        unique_keys(l),
    ensures
        unique_keys(update_label(l, k, v)),
        has_key(update_label(l, k, v), k),
        update_label(l, k, v)[find_key(update_label(l, k, v), k)] == (k, v),
        forall|j: int|
            0 <= j < update_label(l, k, v).len() && update_label(l, k, v)[j].0 != k
                ==> update_label(l, k, v)[j] == l[j],
        forall|i: int, j: int|
            0 <= i < j < update_label(l, k, v).len() ==> !(update_label(l, k, v)[i].0 == k
                && update_label(l, k, v)[j].0 == k),
{
    lemma_find_key(l, k);
    let l2 = update_label(l, k, v);
    lemma_find_key(l2, k);
    if has_key(l, k) {
        let i = find_key(l, k);
        assert(forall|j: int| 0 <= j < l2.len() && j != i ==> l2[j] == l[j]);
        assert(unique_keys(l2));
        assert(l2[i] == (k, v));
        let fk = find_key(l2, k);
        assert(l2[fk].0 == k);
        assert(fk == i) by {
            if fk < i {
                assert(l2[fk] == l[fk]);
                assert(l[fk].0 != k);
            }
            if fk > i {
                assert(l2[i].0 != k);
            }
        }
    } else {
        assert(forall|j: int| 0 <= j < l.len() ==> l2[j] == l[j]);
        assert(forall|j: int| 0 <= j < l.len() ==> l[j].0 != k);
        assert(unique_keys(l2));
        let fk = find_key(l2, k);
        assert(l2[l.len() as int] == (k, v));
        assert(has_key(l2, k));
        assert(fk == l.len()) by {
            if fk < l.len() {
                assert(l2[fk] == l[fk]);
            }
        }
    }
}

/// An owned copy of a label list, pair for pair.
pub fn clone_labels(l: &Vec<(String, String)>) -> (r: Vec<(String, String)>)
    ensures
        labels_model(r@) == labels_model(l@),
{
    let mut r: Vec<(String, String)> = Vec::new();
    let n = l.len();
    let mut i: usize = 0;
    while i < n
        invariant
            n == l@.len(),
            i <= n,
            r@.len() == i,
            forall|j: int|
                0 <= j < i ==> #[trigger] r@[j].0@ == l@[j].0@ && r@[j].1@ == l@[j].1@,
        decreases n - i,
    {
        let pair = &l[i];
        r.push((pair.0.clone(), pair.1.clone()));
        i = i + 1;
    }
    proof {
        assert(labels_model(r@) =~= labels_model(l@));
    }
    r
}

/// A wrapper that attaches ordered `(key, value)` labels to a counter.
///
/// Re-attaching an existing key updates its value in place; there are
/// never two pairs with one key, and insertion order is preserved.
#[derive(Debug)]
pub struct Labeled<T> {
    inner: T,
    labels: Vec<(String, String)>,
}

impl<T> Labeled<T> {
    /// The wrapped counter.
    pub closed spec fn spec_inner(&self) -> T {
        self.inner
    }

    /// The attached labels, in order.
    pub closed spec fn spec_labels(&self) -> Seq<(Seq<char>, Seq<char>)> {
        labels_model(self.labels@)
    }

    /// The label invariant: no key occurs twice.
    pub open spec fn labels_wf(&self) -> bool {
        unique_keys(self.spec_labels())
    }

    /// Wraps a counter with no labels attached.
    pub fn new(inner: T) -> (r: Labeled<T>)
        ensures
            r.spec_inner() == inner,
            r.spec_labels() == Seq::<(Seq<char>, Seq<char>)>::empty(),
            r.labels_wf(),
    {
        let r = Labeled { inner, labels: Vec::new() };
        proof {
            assert(r.spec_labels() =~= Seq::<(Seq<char>, Seq<char>)>::empty());
        }
        r
    }

    /// Wraps a counter with a pre-built label list, whose keys must be
    /// unique.
    pub fn with_labels(inner: T, labels: Vec<(String, String)>) -> (r: Labeled<T>)
        requires
            unique_keys(labels_model(labels@)),
        ensures
            r.spec_inner() == inner,
            r.spec_labels() == labels_model(labels@),
            r.labels_wf(),
    {
        Labeled { inner, labels }
    }

    /// Attaches a label, returning `self` for chaining; an existing key is
    /// updated in place.
    pub fn with_label(self, key: &str, value: &str) -> (r: Labeled<T>)
        requires
            self.labels_wf(),
        ensures
            r.spec_inner() == self.spec_inner(),
            r.spec_labels() == update_label(self.spec_labels(), key@, value@),
            r.labels_wf(),
    {
        let mut r = self;
        r.add_label(key, value);
        r
    }

    /// Attaches a label; an existing key is updated in place.
    pub fn add_label(&mut self, key: &str, value: &str)
        requires
            old(self).labels_wf(),
        ensures
            final(self).spec_inner() == old(self).spec_inner(),
            final(self).spec_labels() == update_label(old(self).spec_labels(), key@, value@),
            final(self).labels_wf(),
    {
        proof {
            lemma_find_key(old(self).spec_labels(), key@);
            lemma_update_label(old(self).spec_labels(), key@, value@);
        }
        let key_string = key.to_owned();
        let value_string = value.to_owned();
        let ghost model = old(self).spec_labels();
        let n = self.labels.len();
        let mut i: usize = 0;
        while i < n
            invariant
                n == self.labels@.len(),
                i <= n,
                *self == *old(self),
                model == old(self).spec_labels(),
                unique_keys(model),
                key_string@ == key@,
                value_string@ == value@,
                forall|j: int| 0 <= j < i ==> model[j].0 != key@,
            decreases n - i,
        {
            if self.labels[i].0 == key_string {
                proof {
                    assert(model[i as int].0 == key@);
                    assert(find_key(model, key@) == i as int) by {
                        lemma_find_key(model, key@);
                        if find_key(model, key@) < i as int {
                            assert(model[find_key(model, key@)].0 != key@);
                        }
                        if find_key(model, key@) > i as int {
                            assert(unique_keys(model));
                        }
                    }
                }
                self.labels.set(i, (key_string, value_string));
                proof {
                    lemma_update_label(model, key@, value@);
                    assert(self.spec_labels() =~= update_label(model, key@, value@));
                }
                return ;
            }
            i = i + 1;
        }
        proof {
            lemma_find_key(model, key@);
            assert(!has_key(model, key@)) by {
                if has_key(model, key@) {
                    assert(model[find_key(model, key@)].0 == key@);
                }
            }
        }
        self.labels.push((key_string, value_string));
        proof {
            assert(self.spec_labels() =~= update_label(model, key@, value@));
        }
    }

    /// Removes a label, returning its value if the key was attached.
    pub fn remove_label(&mut self, key: &str) -> (r: Option<String>)
        requires
            old(self).labels_wf(),
        ensures
            final(self).spec_inner() == old(self).spec_inner(),
            final(self).spec_labels() == remove_key(old(self).spec_labels(), key@),
            final(self).labels_wf(),
            match r {
                Some(v) => has_key(old(self).spec_labels(), key@) && v@ == old(
                    self,
                ).spec_labels()[find_key(old(self).spec_labels(), key@)].1,
                None => !has_key(old(self).spec_labels(), key@),
            },
    {
        proof {
            lemma_find_key(old(self).spec_labels(), key@);
        }
        let key_string = key.to_owned();
        let ghost model = old(self).spec_labels();
        let n = self.labels.len();
        let mut i: usize = 0;
        while i < n
            invariant
                n == self.labels@.len(),
                i <= n,
                *self == *old(self),
                model == old(self).spec_labels(),
                unique_keys(model),
                key_string@ == key@,
                forall|j: int| 0 <= j < i ==> model[j].0 != key@,
            decreases n - i,
        {
            if self.labels[i].0 == key_string {
                proof {
                    assert(model[i as int].0 == key@);
                    assert(find_key(model, key@) == i as int) by {
                        lemma_find_key(model, key@);
                        if find_key(model, key@) < i as int {
                            assert(model[find_key(model, key@)].0 != key@);
                        }
                        if find_key(model, key@) > i as int {
                            assert(unique_keys(model));
                        }
                    }
                }
                let pair = self.labels.remove(i);
                proof {
                    model.remove_ensures(i as int);
                    assert(self.spec_labels() =~= remove_key(model, key@));
                    assert(unique_keys(remove_key(model, key@))) by {
                        let l2 = remove_key(model, key@);
                        assert forall|a: int, b: int| 0 <= a < b < l2.len() implies l2[a].0
                            != l2[b].0 by {
                            if a < i as int {
                                assert(l2[a] == model[a]);
                            } else {
                                assert(l2[a] == model[a + 1]);
                            }
                            if b < i as int {
                                assert(l2[b] == model[b]);
                            } else {
                                assert(l2[b] == model[b + 1]);
                            }
                        }
                    }
                }
                return Some(pair.1);
            }
            i = i + 1;
        }
        proof {
            assert(!has_key(model, key@)) by {
                if has_key(model, key@) {
                    assert(model[find_key(model, key@)].0 == key@);
                }
            }
        }
        None
    }

    /// The value attached under `key`, if any.
    pub fn get_label(&self, key: &str) -> (r: Option<&str>)
        requires
            self.labels_wf(),
        ensures
            match r {
                Some(v) => has_key(self.spec_labels(), key@) && v@ == self.spec_labels()[find_key(
                    self.spec_labels(),
                    key@,
                )].1,
                None => !has_key(self.spec_labels(), key@),
            },
    {
        proof {
            lemma_find_key(self.spec_labels(), key@);
        }
        let key_string = key.to_owned();
        let ghost model = self.spec_labels();
        let n = self.labels.len();
        let mut i: usize = 0;
        while i < n
            invariant
                n == self.labels@.len(),
                model == self.spec_labels(),
                unique_keys(model),
                i <= n,
                key_string@ == key@,
                forall|j: int| 0 <= j < i ==> model[j].0 != key@,
            decreases n - i,
        {
            let pair = &self.labels[i];
            if pair.0 == key_string {
                proof {
                    assert(model[i as int].0 == key@);
                    assert(find_key(model, key@) == i as int) by {
                        lemma_find_key(model, key@);
                        if find_key(model, key@) < i as int {
                            assert(model[find_key(model, key@)].0 != key@);
                        }
                        if find_key(model, key@) > i as int {
                            assert(unique_keys(model));
                        }
                    }
                }
                return Some(pair.1.as_str());
            }
            i = i + 1;
        }
        proof {
            assert(!has_key(model, key@)) by {
                if has_key(model, key@) {
                    assert(model[find_key(model, key@)].0 == key@);
                }
            }
        }
        None
    }

    /// All labels, in order, as owned pairs.
    pub fn labels_iter(&self) -> (r: Vec<(String, String)>)
        ensures
            labels_model(r@) == self.spec_labels(),
    {
        let mut r: Vec<(String, String)> = Vec::new();
        let n = self.labels.len();
        let mut i: usize = 0;
        while i < n
            invariant
                n == self.labels@.len(),
                i <= n,
                r@.len() == i,
                forall|j: int|
                    0 <= j < i ==> #[trigger] r@[j].0@ == self.labels@[j].0@ && r@[j].1@
                        == self.labels@[j].1@,
            decreases n - i,
        {
            let pair = &self.labels[i];
            r.push((pair.0.clone(), pair.1.clone()));
            i = i + 1;
        }
        proof {
            assert(labels_model(r@) =~= self.spec_labels());
        }
        r
    }

    /// The number of attached labels.
    pub fn label_count(&self) -> (r: usize)
        ensures
            r == self.spec_labels().len(),
    {
        self.labels.len()
    }

    /// Whether any label is attached.
    pub fn has_labels(&self) -> (r: bool)
        ensures
            r == (self.spec_labels().len() > 0),
    {
        self.labels.len() > 0
    }

    /// The labels as a borrowed list.
    pub fn labels_slice(&self) -> (r: &Vec<(String, String)>)
        ensures
            labels_model(r@) == self.spec_labels(),
    {
        &self.labels
    }

    /// A reference to the wrapped counter.
    pub fn inner(&self) -> (r: &T)
        ensures
            *r == self.spec_inner(),
    {
        &self.inner
    }

    /// A mutable reference to the wrapped counter.
    pub fn inner_mut(&mut self) -> (r: &mut T)
        ensures
            *r == old(self).spec_inner(),
            final(self).spec_inner() == *final(r),
            final(self).spec_labels() == old(self).spec_labels(),
    {
        &mut self.inner
    }

    /// Consumes the wrapper and returns the inner counter.
    pub fn into_inner(self) -> (r: T)
        ensures
            r == self.spec_inner(),
    {
        self.inner
    }

    /// Consumes the wrapper and returns the inner counter and the labels.
    pub fn into_parts(self) -> (r: (T, Vec<(String, String)>))
        ensures
            r.0 == self.spec_inner(),
            labels_model(r.1@) == self.spec_labels(),
    {
        (self.inner, self.labels)
    }
}

impl<T: Observable> Observable for Labeled<T> {
    open spec fn inv(&self) -> bool {
        self.spec_inner().inv() && self.labels_wf()
    }

    open spec fn obs_name(&self) -> Seq<char> {
        self.spec_inner().obs_name()
    }

    open spec fn obs_value(&self) -> CounterValue {
        self.spec_inner().obs_value()
    }

    open spec fn read_rel(&self, post: Self) -> bool {
        self.spec_inner().read_rel(post.spec_inner()) && post.spec_labels() == self.spec_labels()
    }

    open spec fn obs_reset_value(&self) -> CounterValue {
        self.spec_inner().obs_reset_value()
    }

    open spec fn reset_rel(&self, post: Self) -> bool {
        self.spec_inner().reset_rel(post.spec_inner()) && post.spec_labels() == self.spec_labels()
    }

    open spec fn obs_kind(&self) -> MetricKind {
        self.spec_inner().obs_kind()
    }

    open spec fn obs_labels(&self) -> Seq<(Seq<char>, Seq<char>)> {
        self.spec_labels()
    }

    fn name(&self) -> (r: &str) {
        self.inner.name()
    }

    fn value(&mut self) -> (r: CounterValue) {
        self.inner.value()
    }

    fn value_and_reset(&mut self) -> (r: CounterValue) {
        self.inner.value_and_reset()
    }

    fn metric_kind(&self) -> (r: MetricKind) {
        self.inner.metric_kind()
    }

    fn labels(&self) -> (r: Vec<(String, String)>) {
        self.labels_iter()
    }

    fn expand(&mut self) -> (r: Vec<ObservableEntry>) {
        let name = self.inner.name().to_owned();
        let kind = self.inner.metric_kind();
        let value = self.inner.value();
        let entry = ObservableEntry { name, label: None, value, metric_kind: kind };
        let r: Vec<ObservableEntry> = vec![entry];
        r
    }
}

} // verus!
