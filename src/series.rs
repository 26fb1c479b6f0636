//! The series registry: prometheus metric families, held behind a small set
//! of trusted operations whose effect is stated over the contents they hold.
//!
//! Each family sits in a registry of its own, so that registering it cannot
//! collide with another family. Within a family prometheus finds a series by
//! the hash of its label value, so the contents are keyed by that hash.
use vstd::prelude::*;

verus! {

/// A key of a labelled series: the slot of its family and the hash of its
/// label value.
pub type SeriesKey = (nat, u64);

/// The hash by which prometheus finds the series of a label value in a
/// family (FNV-1a over the value's UTF-8 bytes).
pub uninterp spec fn label_hash(label: Seq<char>) -> u64;

/// A character that may stand in a metric name (`colon`) or a label name.
pub open spec fn ident_char(c: char, colon: bool) -> bool {
    ('a' <= c <= 'z') || ('A' <= c <= 'Z') || c == '_' || (colon && c == ':')
}

/// A metric name (`colon`) or label name as prometheus accepts it: a
/// non-digit name character, then name characters or digits.
pub open spec fn valid_ident(s: Seq<char>, colon: bool) -> bool {
    &&& s.len() > 0
    &&& ident_char(s[0], colon)
    &&& forall|i: int| 1 <= i < s.len() ==> ident_char(#[trigger] s[i], colon) || ('0' <= s[i] <= '9')
}

/// The labelled gauge families, the labelled counter families and the one
/// unlabelled gauge (the number of jails), each with its own registry.
/// Every labelled family has exactly one label.
#[verifier::external_body]
pub struct Series {
    gauges: Vec<(prometheus::Registry, prometheus::IntGaugeVec)>,
    counters: Vec<(prometheus::Registry, prometheus::IntCounterVec)>,
    total: (prometheus::Registry, prometheus::IntGauge),
}

/// Labelled series by family and label hash: the label a series was
/// created with, and its value.
pub type SeriesMap = Map<SeriesKey, (Seq<char>, int)>;

/// A family's metric name, help text and label name.
pub type FamilyDesc = (Seq<char>, Seq<char>, Seq<char>);

/// The labelled gauge series that exist.
pub uninterp spec fn gauge_series(s: Series) -> SeriesMap;

/// The labelled gauge families, in the order they were added.
pub uninterp spec fn gauge_descs(s: Series) -> Seq<FamilyDesc>;

/// The labelled counter series that exist.
pub uninterp spec fn counter_series(s: Series) -> SeriesMap;

/// The labelled counter families, in the order they were added.
pub uninterp spec fn counter_descs(s: Series) -> Seq<FamilyDesc>;

/// The value of the unlabelled gauge.
pub uninterp spec fn total_gauge(s: Series) -> int;

/// The metric name and help text of the unlabelled gauge.
pub uninterp spec fn total_desc(s: Series) -> (Seq<char>, Seq<char>);

/// The text exposition format of one family, as prometheus's text encoder
/// writes it after gathering: its metric name, help text, label name (none
/// for an unlabelled metric), type (counter or gauge) and series, by label
/// value. A family without series gives no text.
pub uninterp spec fn exposition_text(
    name: Seq<char>,
    help: Seq<char>,
    label_name: Option<Seq<char>>,
    counter: bool,
    series: Map<Seq<char>, int>,
) -> Seq<u8>;

/// The number of labelled gauge families.
pub open spec fn gauge_families(s: Series) -> nat {
    gauge_descs(s).len()
}

/// The number of labelled counter families.
pub open spec fn counter_families(s: Series) -> nat {
    counter_descs(s).len()
}

/// The value of a series, zero where it does not exist yet (prometheus
/// creates a missing series with the value zero on first use).
pub open spec fn series_at(m: SeriesMap, k: SeriesKey) -> int {
    if m.dom().contains(k) {
        m[k].1
    } else {
        0
    }
}

/// The series after the one at `k` takes `value`; a series created here
/// keeps `label`, an existing one keeps the label it was created with.
pub open spec fn put(m: SeriesMap, k: SeriesKey, label: Seq<char>, value: int) -> SeriesMap {
    m.insert(k, (if m.dom().contains(k) { m[k].0 } else { label }, value))
}

/// The series of family `f`, by label value.
pub open spec fn family_values(m: SeriesMap, f: nat) -> Map<Seq<char>, int> {
    Map::new(
        |l: Seq<char>| exists|h: u64| m.dom().contains((f, h)) && m[(f, h)].0 == l,
        |l: Seq<char>| m[(f, choose|h: u64| m.dom().contains((f, h)) && m[(f, h)].0 == l)].1,
    )
}

impl Series {
    /// Relies on prometheus's `IntGauge::new`, which fails only on an empty
    /// help text or an invalid name, and `Registry::register`, which cannot
    /// fail on an empty registry: a gauge at zero and no families.
    #[verifier::external_body]
    pub(crate) fn new(total_name: &str, total_help: &str) -> (r: Series)
        requires
            valid_ident(total_name@, true),
            total_help@.len() > 0,
        ensures
            gauge_series(r).dom().is_empty(),
            counter_series(r).dom().is_empty(),
            gauge_families(r) == 0,
            counter_families(r) == 0,
            total_gauge(r) == 0,
            total_desc(r) == (total_name@, total_help@),
    {
        let total = prometheus::IntGauge::new(total_name, total_help).unwrap();
        let registry = prometheus::Registry::new();
        registry.register(Box::new(total.clone())).unwrap();
        Series { gauges: Vec::new(), counters: Vec::new(), total: (registry, total) }
    }

    /// Relies on prometheus's `IntGaugeVec::new`, which fails only on an
    /// empty help text or an invalid metric or label name, and
    /// `Registry::register` on a new registry: a family with one label and
    /// no series, appended after the others.
    #[verifier::external_body]
    pub(crate) fn add_gauge_family(&mut self, name: &str, help: &str, label: &str)
        requires
            valid_ident(name@, true),
            help@.len() > 0,
            valid_ident(label@, false),
        ensures
            gauge_descs(*final(self)) == gauge_descs(*old(self)).push((name@, help@, label@)),
            gauge_series(*final(self)) == gauge_series(*old(self)),
            counter_series(*final(self)) == counter_series(*old(self)),
            counter_descs(*final(self)) == counter_descs(*old(self)),
            total_gauge(*final(self)) == total_gauge(*old(self)),
            total_desc(*final(self)) == total_desc(*old(self)),
    {
        let family = prometheus::IntGaugeVec::new(prometheus::Opts::new(name, help), &[label]).unwrap();
        let registry = prometheus::Registry::new();
        registry.register(Box::new(family.clone())).unwrap();
        self.gauges.push((registry, family));
    }

    /// Relies on prometheus's `IntCounterVec::new`, which fails only on an
    /// empty help text or an invalid metric or label name, and
    /// `Registry::register` on a new registry: a family with one label and
    /// no series, appended after the others.
    #[verifier::external_body]
    pub(crate) fn add_counter_family(&mut self, name: &str, help: &str, label: &str)
        requires
            valid_ident(name@, true),
            help@.len() > 0,
            valid_ident(label@, false),
        ensures
            counter_descs(*final(self)) == counter_descs(*old(self)).push((name@, help@, label@)),
            gauge_series(*final(self)) == gauge_series(*old(self)),
            gauge_descs(*final(self)) == gauge_descs(*old(self)),
            counter_series(*final(self)) == counter_series(*old(self)),
            total_gauge(*final(self)) == total_gauge(*old(self)),
            total_desc(*final(self)) == total_desc(*old(self)),
    {
        let family = prometheus::IntCounterVec::new(prometheus::Opts::new(name, help), &[label]).unwrap();
        let registry = prometheus::Registry::new();
        registry.register(Box::new(family.clone())).unwrap();
        self.counters.push((registry, family));
    }

    /// Relies on prometheus's `IntGaugeVec::with_label_values` and
    /// `IntGauge::set`: the series of the label's hash takes the value.
    #[verifier::external_body]
    pub(crate) fn set_gauge(&mut self, family: usize, label: &str, value: i64)
        requires
            family < gauge_families(*old(self)),
        ensures
            gauge_series(*final(self)) == put(gauge_series(*old(self)), (family as nat, label_hash(label@)), label@, value as int),
            gauge_descs(*final(self)) == gauge_descs(*old(self)),
            counter_series(*final(self)) == counter_series(*old(self)),
            counter_descs(*final(self)) == counter_descs(*old(self)),
            total_gauge(*final(self)) == total_gauge(*old(self)),
            total_desc(*final(self)) == total_desc(*old(self)),
    {
        self.gauges[family].1.with_label_values(&[label]).set(value);
    }

    /// Relies on prometheus's `IntGaugeVec::with_label_values` and
    /// `IntGauge::get`: the value of the series of the label's hash, created
    /// at zero if missing.
    #[verifier::external_body]
    pub(crate) fn gauge_value(&mut self, family: usize, label: &str) -> (r: i64)
        requires
            family < gauge_families(*old(self)),
        ensures
            r as int == series_at(gauge_series(*old(self)), (family as nat, label_hash(label@))),
            gauge_series(*final(self)) == put(gauge_series(*old(self)), (family as nat, label_hash(label@)), label@, r as int),
            gauge_descs(*final(self)) == gauge_descs(*old(self)),
            counter_series(*final(self)) == counter_series(*old(self)),
            counter_descs(*final(self)) == counter_descs(*old(self)),
            total_gauge(*final(self)) == total_gauge(*old(self)),
            total_desc(*final(self)) == total_desc(*old(self)),
    {
        self.gauges[family].1.with_label_values(&[label]).get()
    }

    /// Relies on prometheus's `IntCounterVec::with_label_values` and
    /// `IntCounter::inc_by`: the series of the label's hash grows by
    /// `delta`. The sum must fit, as the counter adds with wrap-around.
    #[verifier::external_body]
    pub(crate) fn inc_counter(&mut self, family: usize, label: &str, delta: u64)
        requires
            family < counter_families(*old(self)),
            series_at(counter_series(*old(self)), (family as nat, label_hash(label@))) + delta <= u64::MAX,
        ensures
            counter_series(*final(self)) == put(
                counter_series(*old(self)),
                (family as nat, label_hash(label@)),
                label@,
                series_at(counter_series(*old(self)), (family as nat, label_hash(label@))) + delta,
            ),
            counter_descs(*final(self)) == counter_descs(*old(self)),
            gauge_series(*final(self)) == gauge_series(*old(self)),
            gauge_descs(*final(self)) == gauge_descs(*old(self)),
            total_gauge(*final(self)) == total_gauge(*old(self)),
            total_desc(*final(self)) == total_desc(*old(self)),
    {
        self.counters[family].1.with_label_values(&[label]).inc_by(delta);
    }

    /// Relies on prometheus's `IntCounterVec::with_label_values` and
    /// `IntCounter::get`: the value of the series of the label's hash,
    /// created at zero if missing.
    #[verifier::external_body]
    pub(crate) fn counter_value(&mut self, family: usize, label: &str) -> (r: u64)
        requires
            family < counter_families(*old(self)),
        ensures
            r as int == series_at(counter_series(*old(self)), (family as nat, label_hash(label@))),
            counter_series(*final(self)) == put(counter_series(*old(self)), (family as nat, label_hash(label@)), label@, r as int),
            counter_descs(*final(self)) == counter_descs(*old(self)),
            gauge_series(*final(self)) == gauge_series(*old(self)),
            gauge_descs(*final(self)) == gauge_descs(*old(self)),
            total_gauge(*final(self)) == total_gauge(*old(self)),
            total_desc(*final(self)) == total_desc(*old(self)),
    {
        self.counters[family].1.with_label_values(&[label]).get()
    }

    /// Relies on prometheus's `IntGauge::set` on the unlabelled gauge.
    #[verifier::external_body]
    pub(crate) fn set_total(&mut self, value: i64)
        ensures
            total_gauge(*final(self)) == value as int,
            total_desc(*final(self)) == total_desc(*old(self)),
            gauge_series(*final(self)) == gauge_series(*old(self)),
            gauge_descs(*final(self)) == gauge_descs(*old(self)),
            counter_series(*final(self)) == counter_series(*old(self)),
            counter_descs(*final(self)) == counter_descs(*old(self)),
    {
        self.total.1.set(value);
    }

    /// Relies on prometheus's `IntGauge::get` on the unlabelled gauge.
    #[verifier::external_body]
    pub(crate) fn total(&self) -> (r: i64)
        ensures
            r as int == total_gauge(*self),
    {
        self.total.1.get()
    }

    /// Relies on prometheus's `Registry::gather`, which leaves out a family
    /// without series, and `TextEncoder::encode_to_string`, which fails only
    /// on a family without series or name: the text of a gauge family.
    #[verifier::external_body]
    pub(crate) fn encode_gauge_family(&self, family: usize) -> (r: Vec<u8>)
        requires
            family < gauge_families(*self),
        ensures
            r@ == exposition_text(
                gauge_descs(*self)[family as int].0,
                gauge_descs(*self)[family as int].1,
                Some(gauge_descs(*self)[family as int].2),
                false,
                family_values(gauge_series(*self), family as nat),
            ),
    {
        let families = self.gauges[family].0.gather();
        prometheus::TextEncoder::new().encode_to_string(&families).unwrap().into_bytes()
    }

    /// Relies on prometheus's `Registry::gather` and
    /// `TextEncoder::encode_to_string`, as above: the text of a counter
    /// family.
    #[verifier::external_body]
    pub(crate) fn encode_counter_family(&self, family: usize) -> (r: Vec<u8>)
        requires
            family < counter_families(*self),
        ensures
            r@ == exposition_text(
                counter_descs(*self)[family as int].0,
                counter_descs(*self)[family as int].1,
                Some(counter_descs(*self)[family as int].2),
                true,
                family_values(counter_series(*self), family as nat),
            ),
    {
        let families = self.counters[family].0.gather();
        prometheus::TextEncoder::new().encode_to_string(&families).unwrap().into_bytes()
    }

    /// Relies on prometheus's `Registry::gather` and
    /// `TextEncoder::encode_to_string`, as above: the text of the
    /// unlabelled gauge.
    #[verifier::external_body]
    pub(crate) fn encode_total(&self) -> (r: Vec<u8>)
        ensures
            r@ == exposition_text(
                total_desc(*self).0,
                total_desc(*self).1,
                None,
                false,
                Map::empty().insert(Seq::empty(), total_gauge(*self)),
            ),
    {
        let families = self.total.0.gather();
        prometheus::TextEncoder::new().encode_to_string(&families).unwrap().into_bytes()
    }
}

} // verus!
