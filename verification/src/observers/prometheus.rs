//! Prometheus exposition: renders observation entries in the text format
//! that Prometheus scrapes — a `# HELP` line, a `# TYPE` line, and a
//! sample line per metric.

use vstd::prelude::*;

verus! {

use crate::adapters::labeled::{clone_labels, unique_keys, update_label, Labeled};
use crate::contatori::{entry_model, label_pair_model, CounterValue, MetricKind, ObservableEntry};
use crate::text::{dec_digits, dec_int, push_char, u64_to_string, i64_to_string};

/// An error from this observer.
#[derive(Debug)]
pub enum PrometheusError {
    /// A metric could not be created or registered.
    MetricError(String),
    /// Metrics could not be encoded to text format.
    EncodeError(String),
}

impl PrometheusError {
    /// The error's message, prefixed with its category.
    pub fn message(&self) -> (r: String)
        ensures
            match self {
                PrometheusError::MetricError(m) => r@ == "metric error: "@ + m@,
                PrometheusError::EncodeError(m) => r@ == "encode error: "@ + m@,
            },
    {
        match self {
            PrometheusError::MetricError(m) => {
                let mut s = ("metric error: ").to_owned();
                s.append(m.as_str());
                s
            },
            PrometheusError::EncodeError(m) => {
                let mut s = ("encode error: ").to_owned();
                s.append(m.as_str());
                s
            },
        }
    }
}

/// How a metric is exposed: as a cumulative counter or as a gauge.
#[derive(Debug, Clone, Copy, PartialEq, Eq, Structural)]
pub enum MetricType {
    /// A cumulative metric that only ever goes up.
    Counter,
    /// A metric that can go up and down.
    Gauge,
}

impl Default for MetricType {
    /// The default exposure is a cumulative counter.
    fn default() -> (r: Self)
        ensures
            r == MetricType::Counter,
    {
        MetricType::Counter
    }
}

/// Per-metric configuration: an explicit type (overriding kind-based
/// detection), help text, and extra labels.
pub struct MetricConfig {
    /// The exposed type; `None` detects it from the counter's kind.
    pub metric_type: Option<MetricType>,
    /// Help text; `None` derives it from the metric name.
    pub help: Option<String>,
    /// Extra labels for this metric, with unique keys.
    pub labels: Vec<(String, String)>,
}

impl MetricConfig {
    /// The mathematical content of this configuration.
    pub open spec fn view_of(&self) -> (
        Option<MetricType>,
        Option<Seq<char>>,
        Seq<(Seq<char>, Seq<char>)>,
    ) {
        (
            self.metric_type,
            match self.help {
                Some(ref h) => Some(h@),
                None => None,
            },
            crate::contatori::labels_model(self.labels@),
        )
    }

    /// Key uniqueness of the extra labels.
    pub open spec fn wf(&self) -> bool {
        unique_keys(self.view_of().2)
    }
}

impl Default for MetricConfig {
    /// No override, no help text, no extra labels.
    fn default() -> (r: Self)
        ensures
            r.view_of() == (
                Option::<MetricType>::None,
                Option::<Seq<char>>::None,
                Seq::<(Seq<char>, Seq<char>)>::empty(),
            ),
            r.wf(),
    {
        let r = MetricConfig { metric_type: None, help: None, labels: Vec::new() };
        proof {
            assert(r.view_of().2 =~= Seq::<(Seq<char>, Seq<char>)>::empty());
        }
        r
    }
}

/// Whether some configuration is registered under `name`.
pub open spec fn cfg_has(cfgs: Seq<(String, MetricConfig)>, name: Seq<char>) -> bool {
    exists|i: int| 0 <= i < cfgs.len() && cfgs[i].0@ == name
}

/// The index of the configuration registered under `name`; with unique
/// names there is at most one.
pub open spec fn cfg_index(cfgs: Seq<(String, MetricConfig)>, name: Seq<char>) -> int {
    choose|i: int| 0 <= i < cfgs.len() && cfgs[i].0@ == name
}

/// The configuration content registered under `name`, or the default
/// content when none is.
pub open spec fn cfg_of(cfgs: Seq<(String, MetricConfig)>, name: Seq<char>) -> (
    Option<MetricType>,
    Option<Seq<char>>,
    Seq<(Seq<char>, Seq<char>)>,
) {
    if cfg_has(cfgs, name) {
        cfgs[cfg_index(cfgs, name)].1.view_of()
    } else {
        (None, None, Seq::empty())
    }
}

/// Configuration names are unique and each configuration is well-formed.
pub open spec fn cfgs_wf(cfgs: Seq<(String, MetricConfig)>) -> bool {
    &&& forall|i: int, j: int| 0 <= i < j < cfgs.len() ==> cfgs[i].0@ != cfgs[j].0@
    &&& forall|i: int| 0 <= i < cfgs.len() ==> (#[trigger] cfgs[i]).1.wf()
}

/// Whether a character survives sanitization unchanged.
pub open spec fn name_char_kept(c: char) -> bool {
    ||| 'a' <= c <= 'z'
    ||| 'A' <= c <= 'Z'
    ||| '0' <= c <= '9'
    ||| c == '_'
    ||| c == ':'
}

/// Whether a character is sanitized to an underscore.
pub open spec fn name_char_mapped(c: char) -> bool {
    c == '-' || c == '.' || c == ' '
}

/// The sanitized characters of a metric name: kept characters unchanged,
/// separator-like characters as underscores, the rest dropped.
pub open spec fn sanitize_chars(s: Seq<char>) -> Seq<char>
    decreases s.len(),
{
    if s.len() == 0 {
        Seq::empty()
    } else if name_char_kept(s.last()) {
        sanitize_chars(s.drop_last()).push(s.last())
    } else if name_char_mapped(s.last()) {
        sanitize_chars(s.drop_last()).push('_')
    } else {
        sanitize_chars(s.drop_last())
    }
}

/// A sanitized metric name: the sanitized characters, with `unnamed`
/// standing in for an empty result and an underscore prepended when the
/// result would start with a digit.
pub open spec fn sanitized_name(s: Seq<char>) -> Seq<char> {
    let base = if sanitize_chars(s).len() == 0 {
        "unnamed"@
    } else {
        sanitize_chars(s)
    };
    if '0' <= base[0] <= '9' {
        seq!['_'] + base
    } else {
        base
    }
}

/// The metric name as exposed: namespace and subsystem joined to the
/// sanitized name with underscores.
pub open spec fn full_name_chars(
    ns: Option<Seq<char>>,
    ss: Option<Seq<char>>,
    name: Seq<char>,
) -> Seq<char> {
    let base = sanitized_name(name);
    match (ns, ss) {
        (Some(n), Some(s)) => n + "_"@ + s + "_"@ + base,
        (Some(n), None) => n + "_"@ + base,
        (None, Some(s)) => s + "_"@ + base,
        (None, None) => base,
    }
}

/// A label value with backslashes, quotes and line feeds escaped, as the
/// exposition format requires.
pub open spec fn escape_chars(s: Seq<char>) -> Seq<char>
    decreases s.len(),
{
    if s.len() == 0 {
        Seq::empty()
    } else if s.last() == '\\' {
        escape_chars(s.drop_last()) + seq!['\\', '\\']
    } else if s.last() == '"' {
        escape_chars(s.drop_last()) + seq!['\\', '"']
    } else if s.last() == '\n' {
        escape_chars(s.drop_last()) + seq!['\\', 'n']
    } else {
        escape_chars(s.drop_last()).push(s.last())
    }
}

/// The text of a label list: `key="value"` pairs joined by commas.
pub open spec fn labels_text(l: Seq<(Seq<char>, Seq<char>)>) -> Seq<char>
    decreases l.len(),
{
    if l.len() == 0 {
        Seq::empty()
    } else if l.len() == 1 {
        l[0].0 + "=\""@ + escape_chars(l[0].1) + "\""@
    } else {
        labels_text(l.drop_last()) + ","@ + l.last().0 + "=\""@ + escape_chars(l.last().1)
            + "\""@
    }
}

/// The label block of a sample line: empty for no labels, else the pairs
/// in braces.
pub open spec fn label_block(l: Seq<(Seq<char>, Seq<char>)>) -> Seq<char> {
    if l.len() == 0 {
        Seq::empty()
    } else {
        "{"@ + labels_text(l) + "}"@
    }
}

/// A base label list extended by further pairs, added left to right, an
/// existing key being updated in place.
pub open spec fn merge_labels(
    base: Seq<(Seq<char>, Seq<char>)>,
    adds: Seq<(Seq<char>, Seq<char>)>,
) -> Seq<(Seq<char>, Seq<char>)>
    decreases adds.len(),
{
    if adds.len() == 0 {
        base
    } else {
        update_label(merge_labels(base, adds.drop_last()), adds.last().0, adds.last().1)
    }
}

/// The rendered value of a cumulative counter: unsigned, a negative
/// signed value clamped to zero.
pub open spec fn counter_value_chars(v: CounterValue) -> Seq<char> {
    dec_digits(v.spec_as_u64() as nat)
}

/// The rendered value of a gauge: signed, an unsigned value above the
/// signed range clamped to its maximum.
pub open spec fn gauge_value_chars(v: CounterValue) -> Seq<char> {
    dec_int(v.spec_as_i64() as int)
}

/// Observer that renders observation entries in the Prometheus text
/// exposition format.
pub struct PrometheusObserver {
    namespace: Option<String>,
    subsystem: Option<String>,
    const_labels: Vec<(String, String)>,
    metric_configs: Vec<(String, MetricConfig)>,
}

impl PrometheusObserver {
    /// The namespace prefix, if set.
    pub closed spec fn spec_namespace(&self) -> Option<Seq<char>> {
        match self.namespace {
            Some(ref n) => Some(n@),
            None => None,
        }
    }

    /// The subsystem prefix, if set.
    pub closed spec fn spec_subsystem(&self) -> Option<Seq<char>> {
        match self.subsystem {
            Some(ref s) => Some(s@),
            None => None,
        }
    }

    /// The labels applied to every metric.
    pub closed spec fn spec_const_labels(&self) -> Seq<(Seq<char>, Seq<char>)> {
        crate::contatori::labels_model(self.const_labels@)
    }

    /// The per-metric configurations.
    pub closed spec fn spec_configs(&self) -> Seq<(String, MetricConfig)> {
        self.metric_configs@
    }

    /// Well-formedness: unique constant-label keys, unique configuration
    /// names, well-formed configurations.
    pub open spec fn wf(&self) -> bool {
        &&& unique_keys(self.spec_const_labels())
        &&& cfgs_wf(self.spec_configs())
    }

    /// A fresh observer: no prefixes, no constant labels, no overrides.
    pub fn new() -> (r: PrometheusObserver)
        ensures
            r.wf(),
            r.spec_namespace() == Option::<Seq<char>>::None,
            r.spec_subsystem() == Option::<Seq<char>>::None,
            r.spec_const_labels() == Seq::<(Seq<char>, Seq<char>)>::empty(),
            r.spec_configs() == Seq::<(String, MetricConfig)>::empty(),
    {
        let r = PrometheusObserver {
            namespace: None,
            subsystem: None,
            const_labels: Vec::new(),
            metric_configs: Vec::new(),
        };
        proof {
            assert(r.spec_const_labels() =~= Seq::<(Seq<char>, Seq<char>)>::empty());
            assert(r.spec_configs() =~= Seq::<(String, MetricConfig)>::empty());
        }
        r
    }

    /// Sets the namespace prefix.
    pub fn with_namespace(self, namespace: &str) -> (r: PrometheusObserver)
        ensures
            r.spec_namespace() == Some(namespace@),
            r.spec_subsystem() == self.spec_subsystem(),
            r.spec_const_labels() == self.spec_const_labels(),
            r.spec_configs() == self.spec_configs(),
    {
        PrometheusObserver { namespace: Some(namespace.to_owned()), ..self }
    }

    /// Sets the subsystem prefix.
    pub fn with_subsystem(self, subsystem: &str) -> (r: PrometheusObserver)
        ensures
            r.spec_subsystem() == Some(subsystem@),
            r.spec_namespace() == self.spec_namespace(),
            r.spec_const_labels() == self.spec_const_labels(),
            r.spec_configs() == self.spec_configs(),
    {
        PrometheusObserver { subsystem: Some(subsystem.to_owned()), ..self }
    }

    /// Adds a constant label, applied to every metric; an existing key is
    /// updated in place.
    pub fn with_const_label(self, name: &str, value: &str) -> (r: PrometheusObserver)
        requires
            self.wf(),
        ensures
            r.wf(),
            r.spec_const_labels() == update_label(self.spec_const_labels(), name@, value@),
            r.spec_namespace() == self.spec_namespace(),
            r.spec_subsystem() == self.spec_subsystem(),
            r.spec_configs() == self.spec_configs(),
    {
        let mut wrapped = Labeled::with_labels((), self.const_labels);
        wrapped.add_label(name, value);
        let parts = wrapped.into_parts();
        PrometheusObserver { const_labels: parts.1, ..self }
    }

    /// Registers the whole configuration of a metric, replacing any
    /// earlier one under the same name.
    pub fn with_metric_config(self, name: &str, config: MetricConfig) -> (r: PrometheusObserver)
        requires
            self.wf(),
            config.wf(),
        ensures
            r.wf(),
            cfg_of(r.spec_configs(), name@) == config.view_of(),
            forall|other: Seq<char>|
                other != name@ ==> #[trigger] cfg_of(r.spec_configs(), other) == cfg_of(
                    self.spec_configs(),
                    other,
                ),
            r.spec_namespace() == self.spec_namespace(),
            r.spec_subsystem() == self.spec_subsystem(),
            r.spec_const_labels() == self.spec_const_labels(),
    {
        let r = self.upsert_config(name, config);
        r
    }

    /// Overrides the exposed type of one metric.
    pub fn with_type(self, name: &str, metric_type: MetricType) -> (r: PrometheusObserver)
        requires
            self.wf(),
        ensures
            r.wf(),
            cfg_of(r.spec_configs(), name@) == (
                Some(metric_type),
                cfg_of(self.spec_configs(), name@).1,
                cfg_of(self.spec_configs(), name@).2,
            ),
            forall|other: Seq<char>|
                other != name@ ==> #[trigger] cfg_of(r.spec_configs(), other) == cfg_of(
                    self.spec_configs(),
                    other,
                ),
            r.spec_namespace() == self.spec_namespace(),
            r.spec_subsystem() == self.spec_subsystem(),
            r.spec_const_labels() == self.spec_const_labels(),
    {
        let mut config = self.take_config(name);
        config.metric_type = Some(metric_type);
        self.upsert_config(name, config)
    }

    /// Sets the help text of one metric.
    pub fn with_help(self, name: &str, help: &str) -> (r: PrometheusObserver)
        requires
            self.wf(),
        ensures
            r.wf(),
            cfg_of(r.spec_configs(), name@) == (
                cfg_of(self.spec_configs(), name@).0,
                Some(help@),
                cfg_of(self.spec_configs(), name@).2,
            ),
            forall|other: Seq<char>|
                other != name@ ==> #[trigger] cfg_of(r.spec_configs(), other) == cfg_of(
                    self.spec_configs(),
                    other,
                ),
            r.spec_namespace() == self.spec_namespace(),
            r.spec_subsystem() == self.spec_subsystem(),
            r.spec_const_labels() == self.spec_const_labels(),
    {
        let mut config = self.take_config(name);
        config.help = Some(help.to_owned());
        self.upsert_config(name, config)
    }

    /// A copy of the configuration registered under `name`, or a default.
    fn take_config(&self, name: &str) -> (r: MetricConfig)
        requires
            self.wf(),
        ensures
            r.view_of() == cfg_of(self.spec_configs(), name@),
            r.wf(),
    {
        let ghost cfgs = self.spec_configs();
        let key = name.to_owned();
        let n = self.metric_configs.len();
        let mut i: usize = 0;
        while i < n
            invariant
                n == self.metric_configs@.len(),
                cfgs == self.spec_configs(),
                cfgs_wf(cfgs),
                i <= n,
                key@ == name@,
                forall|j: int| 0 <= j < i ==> cfgs[j].0@ != name@,
            decreases n - i,
        {
            let entry = &self.metric_configs[i];
            if entry.0 == key {
                proof {
                    assert(cfg_has(cfgs, name@));
                    let c = cfg_index(cfgs, name@);
                    assert(0 <= c < cfgs.len() && cfgs[c].0@ == name@);
                    assert(c == i as int);
                }
                let config = &entry.1;
                let help = match &config.help {
                    Some(h) => Some(h.clone()),
                    None => None,
                };
                let r = MetricConfig {
                    metric_type: config.metric_type,
                    help,
                    labels: clone_labels(&config.labels),
                };
                proof {
                    assert(r.view_of() == cfgs[i as int].1.view_of());
                }
                return r;
            }
            i = i + 1;
        }
        proof {
            assert(!cfg_has(cfgs, name@));
        }
        MetricConfig::default()
    }

    /// Replaces or appends the configuration registered under `name`.
    fn upsert_config(self, name: &str, config: MetricConfig) -> (r: PrometheusObserver)
        requires
            self.wf(),
            config.wf(),
        ensures
            r.wf(),
            cfg_of(r.spec_configs(), name@) == config.view_of(),
            forall|other: Seq<char>|
                other != name@ ==> #[trigger] cfg_of(r.spec_configs(), other) == cfg_of(
                    self.spec_configs(),
                    other,
                ),
            r.spec_namespace() == self.spec_namespace(),
            r.spec_subsystem() == self.spec_subsystem(),
            r.spec_const_labels() == self.spec_const_labels(),
    {
        let ghost cfgs = self.spec_configs();
        let ghost gns = self.spec_namespace();
        let ghost gss = self.spec_subsystem();
        let ghost gcl = self.spec_const_labels();
        let key = name.to_owned();
        let ghost cview = config.view_of();
        let mut observer = self;
        let n = observer.metric_configs.len();
        let mut i: usize = 0;
        while i < n
            invariant
                n == observer.metric_configs@.len(),
                cfgs == observer.spec_configs(),
                cfgs == self.spec_configs(),
                observer.spec_namespace() == gns,
                observer.spec_subsystem() == gss,
                observer.spec_const_labels() == gcl,
                gns == self.spec_namespace(),
                gss == self.spec_subsystem(),
                gcl == self.spec_const_labels(),
                unique_keys(gcl),
                cfgs_wf(cfgs),
                i <= n,
                key@ == name@,
                forall|j: int| 0 <= j < i ==> cfgs[j].0@ != name@,
                config.wf(),
                cview == config.view_of(),
            decreases n - i,
        {
            if observer.metric_configs[i].0 == key {
                proof {
                    assert(cfgs[i as int].0@ == name@);
                }
                observer.metric_configs.set(i, (key, config));
                proof {
                    let cfgs2 = observer.spec_configs();
                    assert(cfgs2[i as int].1.view_of() == cview);
                    assert(cfgs2[i as int].0@ == name@);
                    assert(forall|j: int|
                        0 <= j < cfgs2.len() && j != i as int ==> cfgs2[j] == cfgs[j]);
                    assert(cfgs_wf(cfgs2)) by {
                        assert(forall|j: int|
                            0 <= j < cfgs2.len() ==> (#[trigger] cfgs2[j]).0@ == cfgs[j].0@);
                    }
                    assert(cfg_has(cfgs2, name@));
                    let c = cfg_index(cfgs2, name@);
                    assert(0 <= c < cfgs2.len() && cfgs2[c].0@ == name@);
                    assert(c == i as int);
                    assert(cfg_of(cfgs2, name@) == cview);
                    assert forall|other: Seq<char>| other != name@ implies cfg_of(cfgs2, other)
                        == cfg_of(cfgs, other) by {
                        lemma_cfg_other(cfgs, cfgs2, i as int, name@, other);
                    }
                }
                return observer;
            }
            i = i + 1;
        }
        proof {
            assert(!cfg_has(cfgs, name@));
        }
        observer.metric_configs.push((key, config));
        proof {
            let cfgs2 = observer.spec_configs();
            assert(cfgs2[cfgs.len() as int].1.view_of() == cview);
            assert(forall|j: int| 0 <= j < cfgs.len() ==> cfgs2[j] == cfgs[j]);
            assert(cfgs_wf(cfgs2));
            assert(cfgs2[cfgs.len() as int].0@ == name@);
            assert(cfg_has(cfgs2, name@));
            let c = cfg_index(cfgs2, name@);
            assert(0 <= c < cfgs2.len() && cfgs2[c].0@ == name@);
            assert(c == cfgs.len() as int);
            assert forall|other: Seq<char>| other != name@ implies cfg_of(cfgs2, other) == cfg_of(
                cfgs,
                other,
            ) by {
                lemma_cfg_other(cfgs, cfgs2, cfgs.len() as int, name@, other);
            }
        }
        observer
    }

    /// Sanitizes a metric name for the exposition format: letters, digits,
    /// underscores and colons survive; dashes, dots and spaces become
    /// underscores; anything else is dropped; an empty result becomes
    /// `unnamed`; a leading digit gains an underscore in front.
    pub fn sanitize_name(name: &str) -> (r: String)
        ensures
            r@ == sanitized_name(name@),
    {
        let n = name.unicode_len();
        let mut out = String::new();
        let mut i: usize = 0;
        proof {
            assert(name@.subrange(0, 0) =~= Seq::<char>::empty());
        }
        while i < n
            invariant
                n == name@.len(),
                i <= n,
                out@ == sanitize_chars(name@.subrange(0, i as int)),
            decreases n - i,
        {
            let c = name.get_char(i);
            let code = c as u32;
            proof {
                assert(name@.subrange(0, i as int + 1).drop_last() =~= name@.subrange(
                    0,
                    i as int,
                ));
            }
            if (97 <= code && code <= 122) || (65 <= code && code <= 90) || (48 <= code && code
                <= 57) || c == '_' || c == ':' {
                push_char(&mut out, c);
            } else if c == '-' || c == '.' || c == ' ' {
                push_char(&mut out, '_');
            }
            i = i + 1;
        }
        proof {
            assert(name@.subrange(0, name@.len() as int) =~= name@);
        }
        let base = if out.as_str().is_empty() {
            ("unnamed").to_owned()
        } else {
            out
        };
        proof {
            reveal_strlit("unnamed");
        }
        let first = base.as_str().get_char(0);
        let first_code = first as u32;
        if 48 <= first_code && first_code <= 57 {
            let mut prefixed = String::new();
            push_char(&mut prefixed, '_');
            prefixed.append(base.as_str());
            proof {
                assert(prefixed@ =~= sanitized_name(name@));
            }
            prefixed
        } else {
            base
        }
    }

    /// The metric name as exposed: namespace and subsystem joined to the
    /// sanitized name with underscores.
    pub fn build_full_name(&self, name: &str) -> (r: String)
        ensures
            r@ == full_name_chars(self.spec_namespace(), self.spec_subsystem(), name@),
    {
        let sanitized = Self::sanitize_name(name);
        let mut out = String::new();
        match &self.namespace {
            Some(ns) => {
                out.append(ns.as_str());
                out.append("_");
            },
            None => {},
        }
        match &self.subsystem {
            Some(ss) => {
                out.append(ss.as_str());
                out.append("_");
            },
            None => {},
        }
        out.append(sanitized.as_str());
        out
    }

    /// Renders one entry as a metric family: a help line, a type line and
    /// one sample line.
    fn render_family(&self, entry: &ObservableEntry) -> (r: String)
        requires
            self.wf(),
        ensures
            r@ == spec_family(
                self.spec_namespace(),
                self.spec_subsystem(),
                self.spec_const_labels(),
                self.spec_configs(),
                entry_model(*entry),
            ),
    {
        let raw_name: &str = if entry.name.as_str().is_empty() {
            "unnamed"
        } else {
            entry.name.as_str()
        };
        let full_name = self.build_full_name(raw_name);
        let config = self.take_config(raw_name);
        let metric_type = match config.metric_type {
            Some(t) => t,
            None => {
                match entry.metric_kind {
                    MetricKind::Counter => MetricType::Counter,
                    MetricKind::Gauge => MetricType::Gauge,
                    MetricKind::Histogram => MetricType::Gauge,
                }
            },
        };
        let help = match config.help {
            Some(h) => h,
            None => {
                let mut h = raw_name.to_owned();
                h.append(" metric");
                h
            },
        };

        // merge constant labels, configured labels, then the entry's own;
        // the label adapter carries the update-in-place logic, its unit
        // payload is unused
        let mut merged = Labeled::with_labels((), clone_labels(&self.const_labels));
        let ghost base = self.spec_const_labels();
        let cfg_labels = config.labels;
        let ghost adds = crate::contatori::labels_model(cfg_labels@);
        let m = cfg_labels.len();
        let mut j: usize = 0;
        proof {
            assert(adds.subrange(0, 0) =~= Seq::<(Seq<char>, Seq<char>)>::empty());
            assert(merge_labels(base, adds.subrange(0, 0)) == base);
        }
        while j < m
            invariant
                m == cfg_labels@.len(),
                adds == crate::contatori::labels_model(cfg_labels@),
                j <= m,
                merged.labels_wf(),
                merged.spec_labels() == merge_labels(base, adds.subrange(0, j as int)),
            decreases m - j,
        {
            let pair = &cfg_labels[j];
            proof {
                assert(adds.subrange(0, j as int + 1).drop_last() =~= adds.subrange(0, j as int));
                assert(adds[j as int] == (pair.0@, pair.1@));
            }
            merged.add_label(pair.0.as_str(), pair.1.as_str());
            j = j + 1;
        }
        proof {
            assert(adds.subrange(0, m as int) =~= adds);
        }
        match &entry.label {
            Some(kv) => {
                merged.add_label(kv.0.as_str(), kv.1.as_str());
                proof {
                    let m2 = merge_labels(base, adds);
                    let one = label_option_seq(label_pair_model(entry.label));
                    assert(one =~= seq![(kv.0@, kv.1@)]);
                    assert(one.drop_last() =~= Seq::<(Seq<char>, Seq<char>)>::empty());
                    assert(merge_labels(m2, one.drop_last()) == m2) by {
                        assert(one.drop_last().len() == 0);
                    }
                    assert(one.last() == (kv.0@, kv.1@));
                    assert(merge_labels(m2, one) == update_label(m2, kv.0@, kv.1@));
                }
            },
            None => {
                proof {
                    let m2 = merge_labels(base, adds);
                    let one = label_option_seq(label_pair_model(entry.label));
                    assert(one =~= Seq::<(Seq<char>, Seq<char>)>::empty());
                    assert(merge_labels(m2, one) == m2) by {
                        assert(one.len() == 0);
                    }
                }
            },
        }
        let labels = merged.into_parts().1;

        // value text by exposed type
        let value_text = match metric_type {
            MetricType::Counter => u64_to_string(entry.value.as_u64()),
            MetricType::Gauge => i64_to_string(entry.value.as_i64()),
        };
        let type_text: &str = match metric_type {
            MetricType::Counter => "counter",
            MetricType::Gauge => "gauge",
        };

        let mut out = String::new();
        out.append("# HELP ");
        out.append(full_name.as_str());
        out.append(" ");
        out.append(help.as_str());
        out.append("\n");
        out.append("# TYPE ");
        out.append(full_name.as_str());
        out.append(" ");
        out.append(type_text);
        out.append("\n");
        out.append(full_name.as_str());
        out.append(render_label_block(&labels).as_str());
        out.append(" ");
        out.append(value_text.as_str());
        out.append("\n");
        proof {
            assert(out@ =~= spec_family(
                self.spec_namespace(),
                self.spec_subsystem(),
                self.spec_const_labels(),
                self.spec_configs(),
                entry_model(*entry),
            ));
        }
        out
    }

    /// Renders entries to the exposition text, one family per entry in
    /// order; an empty batch renders to the empty string.
    ///
    /// Rendering itself is total: the result is always `Ok`.
    pub fn render(&self, entries: &Vec<ObservableEntry>) -> (r: Result<String, PrometheusError>)
        requires
            self.wf(),
        ensures
            match r {
                Ok(s) => s@ == spec_render_prefix(
                    self.spec_namespace(),
                    self.spec_subsystem(),
                    self.spec_const_labels(),
                    self.spec_configs(),
                    entries@,
                    entries@.len() as int,
                ),
                Err(_) => false,
            },
    {
        let mut out = String::new();
        let n = entries.len();
        let mut i: usize = 0;
        while i < n
            invariant
                n == entries@.len(),
                self.wf(),
                i <= n,
                out@ == spec_render_prefix(
                    self.spec_namespace(),
                    self.spec_subsystem(),
                    self.spec_const_labels(),
                    self.spec_configs(),
                    entries@,
                    i as int,
                ),
            decreases n - i,
        {
            let family = self.render_family(&entries[i]);
            out.append(family.as_str());
            i = i + 1;
        }
        Ok(out)
    }

    /// Renders entries to the exposition text as bytes.
    pub fn render_bytes(&self, entries: &Vec<ObservableEntry>) -> (r: Result<
        Vec<u8>,
        PrometheusError,
    >)
        requires
            self.wf(),
        ensures
            r.is_ok(),
    {
        match self.render(entries) {
            Ok(s) => Ok(s.as_str().as_bytes_vec()),
            Err(e) => Err(e),
        }
    }
}

/// The entry's label as a (possibly empty) list.
pub open spec fn label_option_seq(l: Option<(Seq<char>, Seq<char>)>) -> Seq<(Seq<char>, Seq<char>)> {
    match l {
        Some(kv) => seq![kv],
        None => Seq::empty(),
    }
}

/// Replacing one configuration entry leaves every other name's resolved
/// configuration unchanged.
proof fn lemma_cfg_other(
    cfgs: Seq<(String, MetricConfig)>,
    cfgs2: Seq<(String, MetricConfig)>,
    i: int,
    name: Seq<char>,
    other: Seq<char>,
)
    requires
        cfgs_wf(cfgs),
        cfgs_wf(cfgs2),
        0 <= i < cfgs2.len(),
        cfgs2.len() == cfgs.len() || cfgs2.len() == cfgs.len() + 1,
        i < cfgs.len() ==> cfgs2 == cfgs.update(i, cfgs2[i]),
        i == cfgs.len() ==> cfgs2 == cfgs.push(cfgs2[i]),
        cfgs2[i].0@ == name,
        i < cfgs.len() ==> cfgs[i].0@ == name,
        other != name,
    ensures
        cfg_of(cfgs2, other) == cfg_of(cfgs, other),
{
    if cfg_has(cfgs2, other) {
        let c2 = cfg_index(cfgs2, other);
        assert(0 <= c2 < cfgs2.len() && cfgs2[c2].0@ == other);
        assert(c2 != i);
        assert(cfgs[c2] == cfgs2[c2]);
        assert(cfg_has(cfgs, other));
        let c1 = cfg_index(cfgs, other);
        assert(0 <= c1 < cfgs.len() && cfgs[c1].0@ == other);
        if c1 != c2 {
            assert(cfgs[c1].0@ == cfgs[c2].0@);
        }
    } else {
        if cfg_has(cfgs, other) {
            let c1 = cfg_index(cfgs, other);
            assert(0 <= c1 < cfgs.len() && cfgs[c1].0@ == other);
            assert(c1 != i || cfgs[c1].0@ == name);
            assert(cfgs2[c1].0@ == other);
        }
    }
}

/// The resolved exposed type of one entry: an explicit override, else the
/// counter's kind.
pub open spec fn resolved_type(
    cfg: (Option<MetricType>, Option<Seq<char>>, Seq<(Seq<char>, Seq<char>)>),
    kind: MetricKind,
) -> MetricType {
    match cfg.0 {
        Some(t) => t,
        None => match kind {
            MetricKind::Counter => MetricType::Counter,
            MetricKind::Gauge => MetricType::Gauge,
            MetricKind::Histogram => MetricType::Gauge,
        },
    }
}

/// The raw (pre-sanitization) name of an entry: `unnamed` for an empty one.
pub open spec fn raw_name_of(name: Seq<char>) -> Seq<char> {
    if name.len() == 0 {
        "unnamed"@
    } else {
        name
    }
}

/// The full text of one rendered metric family.
pub open spec fn spec_family(
    ns: Option<Seq<char>>,
    ss: Option<Seq<char>>,
    consts: Seq<(Seq<char>, Seq<char>)>,
    cfgs: Seq<(String, MetricConfig)>,
    e: (Seq<char>, Option<(Seq<char>, Seq<char>)>, CounterValue, MetricKind),
) -> Seq<char> {
    let raw = raw_name_of(e.0);
    let cfg = cfg_of(cfgs, raw);
    let full = full_name_chars(ns, ss, raw);
    let help = match cfg.1 {
        Some(h) => h,
        None => raw + " metric"@,
    };
    let mtype = resolved_type(cfg, e.3);
    let type_text = match mtype {
        MetricType::Counter => "counter"@,
        MetricType::Gauge => "gauge"@,
    };
    let labels = merge_labels(merge_labels(consts, cfg.2), label_option_seq(e.1));
    let value_text = match mtype {
        MetricType::Counter => counter_value_chars(e.2),
        MetricType::Gauge => gauge_value_chars(e.2),
    };
    "# HELP "@ + full + " "@ + help + "\n"@ + "# TYPE "@ + full + " "@ + type_text + "\n"@
        + full + label_block(labels) + " "@ + value_text + "\n"@
}

/// The rendered text of the first `k` entries, in order.
pub open spec fn spec_render_prefix(
    ns: Option<Seq<char>>,
    ss: Option<Seq<char>>,
    consts: Seq<(Seq<char>, Seq<char>)>,
    cfgs: Seq<(String, MetricConfig)>,
    entries: Seq<ObservableEntry>,
    k: int,
) -> Seq<char>
    decreases k,
{
    if k <= 0 {
        Seq::empty()
    } else {
        spec_render_prefix(ns, ss, consts, cfgs, entries, k - 1) + spec_family(
            ns,
            ss,
            consts,
            cfgs,
            entry_model(entries[k - 1]),
        )
    }
}

/// The label block of a sample line, rendered.
fn render_label_block(labels: &Vec<(String, String)>) -> (r: String)
    ensures
        r@ == label_block(crate::contatori::labels_model(labels@)),
{
    let ghost model = crate::contatori::labels_model(labels@);
    let n = labels.len();
    if n == 0 {
        proof {
            assert(model.len() == 0);
        }
        return String::new();
    }
    let mut out = String::new();
    out.append("{");
    let mut i: usize = 0;
    while i < n
        invariant
            n == labels@.len(),
            model == crate::contatori::labels_model(labels@),
            n > 0,
            i <= n,
            i == 0 ==> out@ == "{"@,
            i > 0 ==> out@ == "{"@ + labels_text(model.subrange(0, i as int)),
        decreases n - i,
    {
        let pair = &labels[i];
        if i > 0 {
            out.append(",");
        }
        out.append(pair.0.as_str());
        out.append("=\"");
        let escaped = escape_value(pair.1.as_str());
        out.append(escaped.as_str());
        out.append("\"");
        proof {
            assert(model.subrange(0, i as int + 1).drop_last() =~= model.subrange(0, i as int));
            assert(model[i as int] == (pair.0@, pair.1@));
            if i == 0 {
                assert(model.subrange(0, 1).len() == 1);
                assert(model.subrange(0, 1)[0] == model[0]);
            }
        }
        i = i + 1;
    }
    out.append("}");
    proof {
        assert(model.subrange(0, n as int) =~= model);
    }
    out
}

/// A label value with backslashes, quotes and line feeds escaped.
fn escape_value(s: &str) -> (r: String)
    ensures
        r@ == escape_chars(s@),
{
    let n = s.unicode_len();
    let mut out = String::new();
    let mut i: usize = 0;
    proof {
        assert(s@.subrange(0, 0) =~= Seq::<char>::empty());
    }
    while i < n
        invariant
            n == s@.len(),
            i <= n,
            out@ == escape_chars(s@.subrange(0, i as int)),
        decreases n - i,
    {
        let c = s.get_char(i);
        proof {
            assert(s@.subrange(0, i as int + 1).drop_last() =~= s@.subrange(0, i as int));
        }
        if c == '\\' {
            push_char(&mut out, '\\');
            push_char(&mut out, '\\');
        } else if c == '"' {
            push_char(&mut out, '\\');
            push_char(&mut out, '"');
        } else if c == '\n' {
            push_char(&mut out, '\\');
            push_char(&mut out, 'n');
        } else {
            push_char(&mut out, c);
        }
        i = i + 1;
    }
    proof {
        assert(s@.subrange(0, n as int) =~= s@);
    }
    out
}

} // verus!
