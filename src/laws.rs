//! Properties of the metrics state machine, over its abstract model.
use vstd::prelude::*;

use crate::ledger::{book_at, rebase_delta_spec};
use crate::metrics::{
    apply_jails, apply_poll, apply_sample, apply_samples, book_of, counters_fit, gauge_of,
    JailReading, MetricsModel, BUILD_INFO_SLOT,
};
use crate::resource::{ResourceKind, Sample, SeriesClass};
use crate::series::{label_hash, series_at, SeriesKey};

verus! {

/// The last raw value of a sequence, zero for an empty one.
pub open spec fn last_raw(vs: Seq<u64>) -> int {
    if vs.len() == 0 {
        0
    } else {
        vs.last() as int
    }
}

/// The sum of the increases credited along a sequence of raw counter values,
/// starting from zero.
pub open spec fn rebased_total(vs: Seq<u64>) -> int
    decreases vs.len(),
{
    if vs.len() == 0 {
        0
    } else {
        rebased_total(vs.drop_last()) + rebase_delta_spec(last_raw(vs.drop_last()), vs.last() as int)
    }
}

/// The raw values as samples of one kind.
pub open spec fn samples_of(kind: ResourceKind, vs: Seq<u64>) -> Seq<Sample> {
    vs.map_values(|v: u64| Sample { kind, value: v })
}

/// The rebased total never falls as raw values are added.
pub proof fn lemma_rebased_total_grows(vs: Seq<u64>)
    requires
        vs.len() > 0,
    ensures
        rebased_total(vs.drop_last()) <= rebased_total(vs),
{
}

/// Fed a sequence of raw values for one kind and jail that has no series
/// and no ledger entry yet, a counter kind ends at the sum of the credited
/// increases (where that sum fits), and its ledger at the last raw value.
pub proof fn lemma_counter_is_rebased_total(m: MetricsModel, name: Seq<char>, kind: ResourceKind, vs: Seq<u64>)
    requires
        kind.class_spec() is Counter,
        series_at(m.counters, ((kind.class_spec()->Counter_0) as nat, label_hash(name))) == 0,
        book_at(book_of(m, (kind.class_spec()->Counter_0) as nat), name) == 0,
        rebased_total(vs) <= u64::MAX,
    ensures
        series_at(
            apply_samples(m, name, samples_of(kind, vs)).counters,
            ((kind.class_spec()->Counter_0) as nat, label_hash(name)),
        ) == rebased_total(vs),
        book_at(
            book_of(apply_samples(m, name, samples_of(kind, vs)), (kind.class_spec()->Counter_0) as nat),
            name,
        ) == last_raw(vs),
    decreases vs.len(),
{
    if vs.len() > 0 {
        lemma_rebased_total_grows(vs);
        lemma_counter_is_rebased_total(m, name, kind, vs.drop_last());
        assert(samples_of(kind, vs).drop_last() =~= samples_of(kind, vs.drop_last()));
    }
}

/// No sample lowers any counter.
pub proof fn lemma_counters_never_fall(m: MetricsModel, name: Seq<char>, s: Sample, k: SeriesKey)
    requires
        counters_fit(m),
    ensures
        series_at(apply_sample(m, name, s).counters, k) >= series_at(m.counters, k),
        counters_fit(apply_sample(m, name, s)),
{
}

/// The same sample twice in a row: the second credits nothing and changes
/// nothing.
pub proof fn lemma_repeat_sample(m: MetricsModel, name: Seq<char>, s: Sample)
    ensures
        apply_sample(apply_sample(m, name, s), name, s) == apply_sample(m, name, s),
        s.kind.class_spec() is Counter ==> rebase_delta_spec(
            book_at(book_of(apply_sample(m, name, s), (s.kind.class_spec()->Counter_0) as nat), name),
            s.value as int,
        ) == 0,
{
    let m1 = apply_sample(m, name, s);
    let m2 = apply_sample(m1, name, s);
    match s.kind.class_spec() {
        SeriesClass::Gauge(slot) => {
            assert(m2.gauges =~= m1.gauges);
        },
        SeriesClass::Counter(slot) => {
            assert(m2.counters =~= m1.counters);
            assert(m2.cputime_book =~= m1.cputime_book);
            assert(m2.wallclock_book =~= m1.wallclock_book);
        },
        SeriesClass::Ignored => {},
    }
}

/// A gauge set to `x` and then to `y` is where `y` alone would have left it.
pub proof fn lemma_gauge_overwrite(m: MetricsModel, name: Seq<char>, kind: ResourceKind, x: u64, y: u64)
    requires
        kind.class_spec() is Gauge,
    ensures
        apply_sample(apply_sample(m, name, Sample { kind, value: x }), name, Sample { kind, value: y })
            == apply_sample(m, name, Sample { kind, value: y }),
        series_at(
            apply_sample(m, name, Sample { kind, value: y }).gauges,
            ((kind.class_spec()->Gauge_0) as nat, label_hash(name)),
        ) == gauge_of(y),
{
    let a = apply_sample(apply_sample(m, name, Sample { kind, value: x }), name, Sample { kind, value: y });
    let b = apply_sample(m, name, Sample { kind, value: y });
    assert(a.gauges =~= b.gauges);
}

/// A sample of an ignored kind changes nothing.
pub proof fn lemma_ignored_kind(m: MetricsModel, name: Seq<char>, s: Sample)
    requires
        s.kind.class_spec() is Ignored,
    ensures
        apply_sample(m, name, s) == m,
{
}

/// One jail's samples leave every ledger entry of another jail as it was,
/// and every series of another jail whose label hashes differently
/// (prometheus finds a series by the hash of its label).
pub proof fn lemma_jails_independent(m: MetricsModel, a: Seq<char>, b: Seq<char>, ss: Seq<Sample>, slot: nat)
    requires
        a != b,
    ensures
        book_at(book_of(apply_samples(m, a, ss), slot), b) == book_at(book_of(m, slot), b),
        label_hash(a) != label_hash(b) ==> series_at(apply_samples(m, a, ss).counters, (slot, label_hash(b)))
            == series_at(m.counters, (slot, label_hash(b))),
        label_hash(a) != label_hash(b) ==> series_at(apply_samples(m, a, ss).gauges, (slot, label_hash(b)))
            == series_at(m.gauges, (slot, label_hash(b))),
    decreases ss.len(),
{
    if ss.len() > 0 {
        lemma_jails_independent(m, a, b, ss.drop_last(), slot);
    }
}

/// Samples never touch the build-info family.
proof fn lemma_samples_keep_build_info(m: MetricsModel, name: Seq<char>, ss: Seq<Sample>, version: Seq<char>)
    ensures
        series_at(apply_samples(m, name, ss).gauges, (BUILD_INFO_SLOT as nat, label_hash(version)))
            == series_at(m.gauges, (BUILD_INFO_SLOT as nat, label_hash(version))),
    decreases ss.len(),
{
    if ss.len() > 0 {
        lemma_samples_keep_build_info(m, name, ss.drop_last(), version);
    }
}

/// Jails never touch the build-info family.
proof fn lemma_jails_keep_build_info(m: MetricsModel, rs: Seq<JailReading>, version: Seq<char>)
    ensures
        series_at(apply_jails(m, rs).gauges, (BUILD_INFO_SLOT as nat, label_hash(version)))
            == series_at(m.gauges, (BUILD_INFO_SLOT as nat, label_hash(version))),
    decreases rs.len(),
{
    if rs.len() > 0 {
        lemma_jails_keep_build_info(m, rs.drop_last(), version);
        let prev = apply_jails(m, rs.drop_last());
        if rs.last().usage is Some {
            lemma_samples_keep_build_info(prev, rs.last().name->Some_0@, rs.last().usage->Some_0@, version);
        }
    }
}

/// A poll leaves every build-info series as it was.
pub proof fn lemma_poll_keeps_build_info(m: MetricsModel, rs: Seq<JailReading>, version: Seq<char>)
    ensures
        series_at(apply_poll(m, rs).gauges, (BUILD_INFO_SLOT as nat, label_hash(version)))
            == series_at(m.gauges, (BUILD_INFO_SLOT as nat, label_hash(version))),
{
    lemma_jails_keep_build_info(MetricsModel { jail_count: 0, ..m }, rs, version);
}

/// A jail's samples lower no counter.
proof fn lemma_samples_never_lower(m: MetricsModel, name: Seq<char>, ss: Seq<Sample>, k: SeriesKey)
    requires
        counters_fit(m),
    ensures
        series_at(apply_samples(m, name, ss).counters, k) >= series_at(m.counters, k),
        counters_fit(apply_samples(m, name, ss)),
    decreases ss.len(),
{
    if ss.len() > 0 {
        lemma_samples_never_lower(m, name, ss.drop_last(), k);
        lemma_counters_never_fall(apply_samples(m, name, ss.drop_last()), name, ss.last(), k);
    }
}

/// The jails of a poll lower no counter.
proof fn lemma_jails_never_lower(m: MetricsModel, rs: Seq<JailReading>, k: SeriesKey)
    requires
        counters_fit(m),
    ensures
        series_at(apply_jails(m, rs).counters, k) >= series_at(m.counters, k),
        counters_fit(apply_jails(m, rs)),
    decreases rs.len(),
{
    if rs.len() > 0 {
        lemma_jails_never_lower(m, rs.drop_last(), k);
        let prev = apply_jails(m, rs.drop_last());
        if rs.last().usage is Some {
            lemma_samples_never_lower(prev, rs.last().name->Some_0@, rs.last().usage->Some_0@, k);
        }
    }
}

/// A poll lowers no counter: every exported counter is non-decreasing from
/// poll to poll.
pub proof fn lemma_poll_never_lowers_counters(m: MetricsModel, rs: Seq<JailReading>, k: SeriesKey)
    requires
        counters_fit(m),
    ensures
        series_at(apply_poll(m, rs).counters, k) >= series_at(m.counters, k),
{
    lemma_jails_never_lower(MetricsModel { jail_count: 0, ..m }, rs, k);
}

} // verus!
