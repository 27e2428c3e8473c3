//! Never-reset: an adapter whose read-and-reset is a plain read, keeping a
//! cumulative total alive inside an otherwise periodically reset batch.

use vstd::prelude::*;

verus! {

use crate::contatori::{CounterValue, MetricKind, Observable, ObservableEntry};

/// A wrapper that redefines `value_and_reset()` to behave exactly like
/// `value()`: the wrapped counter is never cleared through it.
#[derive(Debug)]
pub struct NonResettable<T> {
    inner: T,
}

impl<T> NonResettable<T> {
    /// The wrapped counter.
    pub closed spec fn spec_inner(&self) -> T {
        self.inner
    }

    /// Wraps a counter.
    pub fn new(inner: T) -> (r: NonResettable<T>)
        ensures
            r.spec_inner() == inner,
    {
        NonResettable { inner }
    }

    /// A reference to the wrapped counter.
    pub fn inner(&self) -> (r: &T)
        ensures
            *r == self.spec_inner(),
    {
        &self.inner
    }

    /// A mutable reference to the wrapped counter.
    pub fn inner_mut(&mut self) -> (r: &mut T)
        ensures
            *r == old(self).spec_inner(),
            final(self).spec_inner() == *final(r),
    {
        &mut self.inner
    }

    /// Consumes the wrapper and returns the inner counter.
    pub fn into_inner(self) -> (r: T)
        ensures
            r == self.spec_inner(),
    {
        self.inner
    }
}

impl<T: Observable> Observable for NonResettable<T> {
    open spec fn inv(&self) -> bool {
        self.spec_inner().inv()
    }

    open spec fn obs_name(&self) -> Seq<char> {
        self.spec_inner().obs_name()
    }

    open spec fn obs_value(&self) -> CounterValue {
        self.spec_inner().obs_value()
    }

    open spec fn read_rel(&self, post: Self) -> bool {
        self.spec_inner().read_rel(post.spec_inner())
    }

    /// A reset read reports a plain read and never clears.
    open spec fn obs_reset_value(&self) -> CounterValue {
        self.spec_inner().obs_value()
    }

    /// A reset read changes state only as a plain read would.
    open spec fn reset_rel(&self, post: Self) -> bool {
        self.spec_inner().read_rel(post.spec_inner())
    }

    open spec fn obs_kind(&self) -> MetricKind {
        self.spec_inner().obs_kind()
    }

    open spec fn obs_labels(&self) -> Seq<(Seq<char>, Seq<char>)> {
        self.spec_inner().obs_labels()
    }

    fn name(&self) -> (r: &str) {
        self.inner.name()
    }

    fn value(&mut self) -> (r: CounterValue) {
        self.inner.value()
    }

    fn value_and_reset(&mut self) -> (r: CounterValue) {
        self.inner.value()
    }

    fn metric_kind(&self) -> (r: MetricKind) {
        self.inner.metric_kind()
    }

    fn labels(&self) -> (r: Vec<(String, String)>) {
        self.inner.labels()
    }

    fn expand(&mut self) -> (r: Vec<ObservableEntry>) {
        let name = self.inner.name().to_owned();
        let kind = self.inner.metric_kind();
        let value = self.inner.value();
        let entry = ObservableEntry { name, label: None, value, metric_kind: kind };
        let r: Vec<ObservableEntry> = vec![entry];
        r
    }
}

} // verus!
