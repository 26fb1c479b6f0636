//! The metrics state machine: the series registry, the two counter ledgers,
//! the mapping of a jail's usage snapshot onto the series, and one poll over
//! all jails.
use vstd::prelude::*;

use crate::ledger::{book_at, rebase_delta, rebase_delta_spec, Ledger};
use crate::resource::{ResourceKind, Sample, SeriesClass, RESOURCE_COUNTERS, RESOURCE_GAUGES};
use crate::series::{
    counter_descs, counter_families, counter_series, exposition_text, family_values, gauge_descs,
    gauge_families, gauge_series, label_hash, put, series_at, total_desc, total_gauge,
    valid_ident, FamilyDesc, Series, SeriesKey, SeriesMap,
};

verus! {

/// Slot of the gauge family labelled by build version.
pub const BUILD_INFO_SLOT: usize = 19;

/// Slot of the gauge family that holds each jail's numeric id.
pub const JAIL_ID_SLOT: usize = 20;

/// Number of labelled gauge families.
pub const GAUGE_FAMILIES: usize = 21;

/// The version that the build-info series is labelled with.
pub const BUILD_VERSION: &'static str = "0.1.0";

/// Why a call on the metrics failed.
#[derive(Clone, Copy, Debug, PartialEq, Eq, Structural)]
pub enum MetricsError {
    /// A jail's name could not be resolved; nothing of the poll was applied.
    UnnamedJail,
}

/// What one poll read of one jail: its id, its name if that could be
/// resolved, and its usage snapshot unless the facility failed on it.
#[derive(Clone, Debug)]
pub struct JailReading {
    pub jid: i32,
    pub name: Option<String>,
    pub usage: Option<Vec<Sample>>,
}

/// The abstract state of the metrics: every labelled gauge and counter
/// series, both ledgers, and the jail-count gauge.
pub struct MetricsModel {
    pub gauges: SeriesMap,
    pub counters: SeriesMap,
    pub cputime_book: Map<Seq<char>, u64>,
    pub wallclock_book: Map<Seq<char>, u64>,
    pub jail_count: int,
    pub gauge_descs: Seq<FamilyDesc>,
    pub counter_descs: Seq<FamilyDesc>,
    pub total_desc: (Seq<char>, Seq<char>),
}

/// The value a gauge takes from a raw sample: the raw value, capped at the
/// largest value that a gauge holds.
pub open spec fn gauge_of(raw: u64) -> int {
    if raw <= i64::MAX as u64 {
        raw as int
    } else {
        i64::MAX as int
    }
}

/// The ledger that counter family `slot` is rebased against.
pub open spec fn book_of(m: MetricsModel, slot: nat) -> Map<Seq<char>, u64> {
    if slot == 0 {
        m.cputime_book
    } else {
        m.wallclock_book
    }
}

/// The new value of a counter that stood at `current` and is credited with
/// `delta`; it stops at the largest value that a counter holds.
pub open spec fn credited(current: int, delta: int) -> int {
    if current + delta <= u64::MAX {
        current + delta
    } else {
        u64::MAX as int
    }
}

/// The effect of one sample of jail `name`: a gauge kind overwrites its
/// series, a counter kind is rebased against its ledger, an ignored kind
/// changes nothing.
pub open spec fn apply_sample(m: MetricsModel, name: Seq<char>, s: Sample) -> MetricsModel {
    match s.kind.class_spec() {
        SeriesClass::Gauge(slot) => MetricsModel {
            gauges: put(m.gauges, (slot as nat, label_hash(name)), name, gauge_of(s.value)),
            ..m
        },
        SeriesClass::Counter(slot) => {
            let key = (slot as nat, label_hash(name));
            let delta = rebase_delta_spec(book_at(book_of(m, slot as nat), name), s.value as int);
            let counters = put(m.counters, key, name, credited(series_at(m.counters, key), delta));
            if slot == 0 {
                MetricsModel { counters, cputime_book: m.cputime_book.insert(name, s.value), ..m }
            } else {
                MetricsModel { counters, wallclock_book: m.wallclock_book.insert(name, s.value), ..m }
            }
        },
        SeriesClass::Ignored => m,
    }
}

/// The effect of a jail's samples, applied in order.
pub open spec fn apply_samples(m: MetricsModel, name: Seq<char>, ss: Seq<Sample>) -> MetricsModel
    decreases ss.len(),
{
    if ss.len() == 0 {
        m
    } else {
        apply_sample(apply_samples(m, name, ss.drop_last()), name, ss.last())
    }
}

/// The effect of one jail of a poll: nothing where its usage could not be
/// read, else its samples, then its id gauge.
pub open spec fn apply_jail(m: MetricsModel, r: JailReading) -> MetricsModel {
    match r.usage {
        Some(usage) => {
            let name = r.name->Some_0@;
            let after = apply_samples(m, name, usage@);
            MetricsModel {
                gauges: put(after.gauges, (JAIL_ID_SLOT as nat, label_hash(name)), name, r.jid as int),
                jail_count: after.jail_count + 1,
                ..after
            }
        },
        None => m,
    }
}

/// The effect of the jails of a poll, in order.
pub open spec fn apply_jails(m: MetricsModel, rs: Seq<JailReading>) -> MetricsModel
    decreases rs.len(),
{
    if rs.len() == 0 {
        m
    } else {
        apply_jail(apply_jails(m, rs.drop_last()), rs.last())
    }
}

/// A full poll: the jail count starts again from zero.
pub open spec fn apply_poll(m: MetricsModel, rs: Seq<JailReading>) -> MetricsModel {
    apply_jails(MetricsModel { jail_count: 0, ..m }, rs)
}

/// Every counter value fits the counter's type.
pub open spec fn counters_fit(m: MetricsModel) -> bool {
    forall|k| #[trigger] m.counters.dom().contains(k) ==> 0 <= m.counters[k].1 <= u64::MAX
}

/// Every jail in a counter's ledger has a series in that counter's family.
pub open spec fn books_have_series(m: MetricsModel) -> bool {
    &&& forall|n| #[trigger] m.cputime_book.dom().contains(n) ==> m.counters.dom().contains((0nat, label_hash(n)))
    &&& forall|n| #[trigger] m.wallclock_book.dom().contains(n) ==> m.counters.dom().contains((1nat, label_hash(n)))
}

/// Some jail in `seen` has a name whose label hash is `h`.
pub open spec fn hash_seen(seen: Set<Seq<char>>, h: u64) -> bool {
    exists|n: Seq<char>| seen.contains(n) && #[trigger] label_hash(n) == h
}

/// Every series but build-info belongs to a jail in `seen` (by its label
/// hash), and every ledger entry is of such a jail.
pub open spec fn series_from_seen(m: MetricsModel, seen: Set<Seq<char>>) -> bool {
    &&& forall|k: SeriesKey| #[trigger] m.gauges.dom().contains(k) ==> k.0 == BUILD_INFO_SLOT || hash_seen(seen, k.1)
    &&& forall|k: SeriesKey| #[trigger] m.counters.dom().contains(k) ==> hash_seen(seen, k.1)
    &&& forall|n: Seq<char>| #[trigger] m.cputime_book.dom().contains(n) ==> seen.contains(n)
    &&& forall|n: Seq<char>| #[trigger] m.wallclock_book.dom().contains(n) ==> seen.contains(n)
}

/// A sample of a seen jail keeps every series and ledger entry with seen
/// jails.
proof fn lemma_sample_seen(m: MetricsModel, seen: Set<Seq<char>>, name: Seq<char>, s: Sample)
    requires
        series_from_seen(m, seen),
        seen.contains(name),
    ensures
        series_from_seen(apply_sample(m, name, s), seen),
{
    assert(hash_seen(seen, label_hash(name)));
}

/// A gauge series of a seen jail keeps every series with seen jails.
proof fn lemma_put_gauge_seen(m: MetricsModel, seen: Set<Seq<char>>, slot: nat, name: Seq<char>, v: int)
    requires
        series_from_seen(m, seen),
        seen.contains(name),
    ensures
        series_from_seen(MetricsModel { gauges: put(m.gauges, (slot, label_hash(name)), name, v), ..m }, seen),
{
    assert(hash_seen(seen, label_hash(name)));
}

/// More seen jails keep every series with seen jails.
proof fn lemma_seen_grows(m: MetricsModel, seen: Set<Seq<char>>, name: Seq<char>)
    requires
        series_from_seen(m, seen),
    ensures
        series_from_seen(m, seen.insert(name)),
{
    assert forall|h: u64| hash_seen(seen, h) implies hash_seen(seen.insert(name), h) by {
        let n = choose|n: Seq<char>| seen.contains(n) && #[trigger] label_hash(n) == h;
        assert(seen.insert(name).contains(n));
    }
}

/// The text of the first `n` labelled gauge families, in slot order.
pub open spec fn gauge_texts(m: MetricsModel, n: nat) -> Seq<u8>
    decreases n,
{
    if n == 0 {
        Seq::empty()
    } else {
        let d = m.gauge_descs[n - 1];
        gauge_texts(m, (n - 1) as nat) + exposition_text(d.0, d.1, Some(d.2), false, family_values(m.gauges, (n - 1) as nat))
    }
}

/// The text of the first `n` counter families, in slot order.
pub open spec fn counter_texts(m: MetricsModel, n: nat) -> Seq<u8>
    decreases n,
{
    if n == 0 {
        Seq::empty()
    } else {
        let d = m.counter_descs[n - 1];
        counter_texts(m, (n - 1) as nat) + exposition_text(d.0, d.1, Some(d.2), true, family_values(m.counters, (n - 1) as nat))
    }
}

/// The exposition text of the metrics: every labelled gauge family, then
/// every counter family, then the jail count.
pub open spec fn metrics_text(m: MetricsModel) -> Seq<u8> {
    gauge_texts(m, GAUGE_FAMILIES as nat) + counter_texts(m, RESOURCE_COUNTERS as nat) + exposition_text(
        m.total_desc.0,
        m.total_desc.1,
        None,
        false,
        Map::empty().insert(Seq::empty(), m.jail_count),
    )
}

/// Every jail of the poll has a name.
pub open spec fn all_named(rs: Seq<JailReading>) -> bool {
    forall|i: int| 0 <= i < rs.len() ==> (#[trigger] rs[i]).name is Some
}

/// The number of jails whose usage was read.
pub open spec fn count_read(rs: Seq<JailReading>) -> int
    decreases rs.len(),
{
    if rs.len() == 0 {
        0
    } else {
        count_read(rs.drop_last()) + if rs.last().usage is Some { 1int } else { 0int }
    }
}

/// Samples leave the jail count alone.
proof fn lemma_samples_keep_count(m: MetricsModel, name: Seq<char>, ss: Seq<Sample>)
    ensures
        apply_samples(m, name, ss).jail_count == m.jail_count,
    decreases ss.len(),
{
    if ss.len() > 0 {
        lemma_samples_keep_count(m, name, ss.drop_last());
    }
}

/// Metric name and help text of each labelled gauge family, by slot.
pub open spec fn gauge_family_spec(slot: nat) -> (Seq<char>, Seq<char>) {
    if slot == 0 {
        ("jail_coredumpsize_bytes"@, "core dump size, in bytes"@)
    } else if slot == 1 {
        ("jail_datasize_bytes"@, "data size, in bytes"@)
    } else if slot == 2 {
        ("jail_memorylocked_bytes"@, "locked memory, in bytes"@)
    } else if slot == 3 {
        ("jail_memoryuse_bytes"@, "resident set size, in bytes"@)
    } else if slot == 4 {
        ("jail_msgqsize_bytes"@, "SysV message queue size, in bytes"@)
    } else if slot == 5 {
        ("jail_shmsize_bytes"@, "SysV shared memory size, in bytes"@)
    } else if slot == 6 {
        ("jail_stacksize_bytes"@, "stack size, in bytes"@)
    } else if slot == 7 {
        ("jail_swapuse_bytes"@, "swap space that may be reserved or used, in bytes"@)
    } else if slot == 8 {
        ("jail_vmemoryuse_bytes"@, "address space limit, in bytes"@)
    } else if slot == 9 {
        ("jail_pcpu_used"@, "%CPU, in percents of a single CPU core"@)
    } else if slot == 10 {
        ("jail_maxproc"@, "number of processes"@)
    } else if slot == 11 {
        ("jail_msgqqueued"@, "number of queued SysV messages"@)
    } else if slot == 12 {
        ("jail_nmsgq"@, "number of SysV message queues"@)
    } else if slot == 13 {
        ("jail_nsem"@, "number of SysV semaphores"@)
    } else if slot == 14 {
        ("jail_nsemop"@, "number of SysV semaphores modified in a single semop(2) call"@)
    } else if slot == 15 {
        ("jail_nshm"@, "number of SysV shared memory segments"@)
    } else if slot == 16 {
        ("jail_nthr"@, "number of threads"@)
    } else if slot == 17 {
        ("jail_openfiles"@, "file descriptor table size"@)
    } else if slot == 18 {
        ("jail_pseudoterminals"@, "number of PTYs"@)
    } else if slot == 19 {
        ("jail_exporter_build_info"@, "A metric with a constant '1' value labelled by version from which jail_exporter was built"@)
    } else {
        ("jail_id"@, "ID of the named jail."@)
    }
}

/// Label name of each labelled gauge family, by slot.
pub open spec fn gauge_label_spec(slot: nat) -> Seq<char> {
    if slot == BUILD_INFO_SLOT {
        "version"@
    } else {
        "name"@
    }
}

/// Metric name and help text of each counter family, by slot.
pub open spec fn counter_family_spec(slot: nat) -> (Seq<char>, Seq<char>) {
    if slot == 0 {
        ("jail_cputime_seconds_total"@, "CPU time, in seconds"@)
    } else {
        ("jail_wallclock_seconds_total"@, "wallclock time, in seconds"@)
    }
}

/// Name and help text of each labelled gauge family, by slot.
fn gauge_family_info(slot: usize) -> (r: (&'static str, &'static str))
    requires
        slot < GAUGE_FAMILIES,
    ensures
        valid_ident(r.0@, true),
        r.1@.len() > 0,
        (r.0@, r.1@) == gauge_family_spec(slot as nat),
{
    match slot {
        0 => {
            proof {
                reveal_strlit("jail_coredumpsize_bytes");
                reveal_strlit("core dump size, in bytes");
            }
            ("jail_coredumpsize_bytes", "core dump size, in bytes")
        },
        1 => {
            proof {
                reveal_strlit("jail_datasize_bytes");
                reveal_strlit("data size, in bytes");
            }
            ("jail_datasize_bytes", "data size, in bytes")
        },
        2 => {
            proof {
                reveal_strlit("jail_memorylocked_bytes");
                reveal_strlit("locked memory, in bytes");
            }
            ("jail_memorylocked_bytes", "locked memory, in bytes")
        },
        3 => {
            proof {
                reveal_strlit("jail_memoryuse_bytes");
                reveal_strlit("resident set size, in bytes");
            }
            ("jail_memoryuse_bytes", "resident set size, in bytes")
        },
        4 => {
            proof {
                reveal_strlit("jail_msgqsize_bytes");
                reveal_strlit("SysV message queue size, in bytes");
            }
            ("jail_msgqsize_bytes", "SysV message queue size, in bytes")
        },
        5 => {
            proof {
                reveal_strlit("jail_shmsize_bytes");
                reveal_strlit("SysV shared memory size, in bytes");
            }
            ("jail_shmsize_bytes", "SysV shared memory size, in bytes")
        },
        6 => {
            proof {
                reveal_strlit("jail_stacksize_bytes");
                reveal_strlit("stack size, in bytes");
            }
            ("jail_stacksize_bytes", "stack size, in bytes")
        },
        7 => {
            proof {
                reveal_strlit("jail_swapuse_bytes");
                reveal_strlit("swap space that may be reserved or used, in bytes");
            }
            ("jail_swapuse_bytes", "swap space that may be reserved or used, in bytes")
        },
        8 => {
            proof {
                reveal_strlit("jail_vmemoryuse_bytes");
                reveal_strlit("address space limit, in bytes");
            }
            ("jail_vmemoryuse_bytes", "address space limit, in bytes")
        },
        9 => {
            proof {
                reveal_strlit("jail_pcpu_used");
                reveal_strlit("%CPU, in percents of a single CPU core");
            }
            ("jail_pcpu_used", "%CPU, in percents of a single CPU core")
        },
        10 => {
            proof {
                reveal_strlit("jail_maxproc");
                reveal_strlit("number of processes");
            }
            ("jail_maxproc", "number of processes")
        },
        11 => {
            proof {
                reveal_strlit("jail_msgqqueued");
                reveal_strlit("number of queued SysV messages");
            }
            ("jail_msgqqueued", "number of queued SysV messages")
        },
        12 => {
            proof {
                reveal_strlit("jail_nmsgq");
                reveal_strlit("number of SysV message queues");
            }
            ("jail_nmsgq", "number of SysV message queues")
        },
        13 => {
            proof {
                reveal_strlit("jail_nsem");
                reveal_strlit("number of SysV semaphores");
            }
            ("jail_nsem", "number of SysV semaphores")
        },
        14 => {
            proof {
                reveal_strlit("jail_nsemop");
                reveal_strlit("number of SysV semaphores modified in a single semop(2) call");
            }
            ("jail_nsemop", "number of SysV semaphores modified in a single semop(2) call")
        },
        15 => {
            proof {
                reveal_strlit("jail_nshm");
                reveal_strlit("number of SysV shared memory segments");
            }
            ("jail_nshm", "number of SysV shared memory segments")
        },
        16 => {
            proof {
                reveal_strlit("jail_nthr");
                reveal_strlit("number of threads");
            }
            ("jail_nthr", "number of threads")
        },
        17 => {
            proof {
                reveal_strlit("jail_openfiles");
                reveal_strlit("file descriptor table size");
            }
            ("jail_openfiles", "file descriptor table size")
        },
        18 => {
            proof {
                reveal_strlit("jail_pseudoterminals");
                reveal_strlit("number of PTYs");
            }
            ("jail_pseudoterminals", "number of PTYs")
        },
        19 => {
            proof {
                reveal_strlit("jail_exporter_build_info");
                reveal_strlit("A metric with a constant '1' value labelled by version from which jail_exporter was built");
            }
            (
                "jail_exporter_build_info",
                "A metric with a constant '1' value labelled by version from which jail_exporter was built",
            )
        },
        _ => {
            proof {
                reveal_strlit("jail_id");
                reveal_strlit("ID of the named jail.");
            }
            ("jail_id", "ID of the named jail.")
        },
    }
}

/// The label name of each labelled gauge family, by slot.
fn gauge_family_label(slot: usize) -> (r: &'static str)
    ensures
        valid_ident(r@, false),
        r@ == gauge_label_spec(slot as nat),
{
    proof {
        reveal_strlit("version");
        reveal_strlit("name");
    }
    if slot == BUILD_INFO_SLOT {
        "version"
    } else {
        "name"
    }
}

/// Name and help text of each counter family, by slot.
fn counter_family_info(slot: usize) -> (r: (&'static str, &'static str))
    ensures
        valid_ident(r.0@, true),
        r.1@.len() > 0,
        (r.0@, r.1@) == counter_family_spec(slot as nat),
{
    proof {
        reveal_strlit("jail_cputime_seconds_total");
        reveal_strlit("CPU time, in seconds");
        reveal_strlit("jail_wallclock_seconds_total");
        reveal_strlit("wallclock time, in seconds");
    }
    if slot == 0 {
        ("jail_cputime_seconds_total", "CPU time, in seconds")
    } else {
        ("jail_wallclock_seconds_total", "wallclock time, in seconds")
    }
}

/// The jail metrics: the series registry and the counter ledgers.
pub struct Metrics {
    series: Series,
    cputime_book: Ledger,
    wallclock_book: Ledger,
    seen: Ledger,
}

impl Metrics {
    /// The abstract state.
    pub closed spec fn model(&self) -> MetricsModel {
        MetricsModel {
            gauges: gauge_series(self.series),
            counters: counter_series(self.series),
            cputime_book: self.cputime_book@,
            wallclock_book: self.wallclock_book@,
            jail_count: total_gauge(self.series),
            gauge_descs: gauge_descs(self.series),
            counter_descs: counter_descs(self.series),
            total_desc: total_desc(self.series),
        }
    }

    /// The jails whose usage snapshot was applied at least once.
    pub closed spec fn seen(&self) -> Set<Seq<char>> {
        self.seen@.dom()
    }

    /// All families exist and both ledgers are well formed.
    pub closed spec fn wf(&self) -> bool {
        &&& gauge_families(self.series) == GAUGE_FAMILIES
        &&& counter_families(self.series) == RESOURCE_COUNTERS
        &&& self.cputime_book.wf()
        &&& self.wallclock_book.wf()
        &&& self.seen.wf()
        &&& counters_fit(self.model())
        &&& books_have_series(self.model())
        &&& series_from_seen(self.model(), self.seen())
    }

    /// Every series of well-formed metrics but build-info belongs to a jail
    /// whose usage was applied.
    pub proof fn lemma_series_from_seen(&self)
        requires
            self.wf(),
        ensures
            series_from_seen(self.model(), self.seen()),
    {
    }

    /// Every counter of well-formed metrics fits its type, so the laws on
    /// counters apply to them.
    pub proof fn lemma_counters_fit(&self)
        requires
            self.wf(),
        ensures
            counters_fit(self.model()),
    {
    }

    /// The invariant carries over to a state with the same families,
    /// counters and ledgers.
    proof fn lemma_wf_frame(a: Metrics, b: Metrics)
        requires
            a.wf(),
            gauge_families(b.series) == gauge_families(a.series),
            counter_families(b.series) == counter_families(a.series),
            b.cputime_book == a.cputime_book,
            b.wallclock_book == a.wallclock_book,
            b.seen == a.seen,
            b.model().counters == a.model().counters,
            series_from_seen(b.model(), b.seen()),
        ensures
            b.wf(),
    {
        assert(b.model().cputime_book == a.model().cputime_book);
        assert(b.model().wallclock_book == a.model().wallclock_book);
    }

    /// Creates every family, each in a registry of its own, and sets the
    /// build-info series of `BUILD_VERSION` to 1; nothing else holds a
    /// series yet.
    pub fn new() -> (r: Metrics)
        ensures
            r.wf(),
            r.model().gauges == Map::<SeriesKey, (Seq<char>, int)>::empty().insert(
                (BUILD_INFO_SLOT as nat, label_hash(BUILD_VERSION@)),
                (BUILD_VERSION@, 1),
            ),
            r.model().gauge_descs.len() == GAUGE_FAMILIES,
            forall|i: int| 0 <= i < GAUGE_FAMILIES ==> #[trigger] r.model().gauge_descs[i] == (
                gauge_family_spec(i as nat).0,
                gauge_family_spec(i as nat).1,
                gauge_label_spec(i as nat),
            ),
            r.model().counter_descs.len() == RESOURCE_COUNTERS,
            forall|i: int| 0 <= i < RESOURCE_COUNTERS ==> #[trigger] r.model().counter_descs[i] == (
                counter_family_spec(i as nat).0,
                counter_family_spec(i as nat).1,
                "name"@,
            ),
            r.model().total_desc == ("jail_num"@, "Current number of running jails."@),
            r.model().counters.dom().is_empty(),
            r.model().cputime_book.dom().is_empty(),
            r.model().wallclock_book.dom().is_empty(),
            r.model().jail_count == 0,
            r.seen().is_empty(),
    {
        proof {
            reveal_strlit("jail_num");
            reveal_strlit("Current number of running jails.");
            reveal_strlit("name");
        }
        let mut series = Series::new("jail_num", "Current number of running jails.");
        let mut slot: usize = 0;
        while slot < GAUGE_FAMILIES
            invariant
                slot <= GAUGE_FAMILIES,
                gauge_families(series) == slot,
                counter_families(series) == 0,
                forall|i: int| 0 <= i < slot ==> #[trigger] gauge_descs(series)[i] == (
                    gauge_family_spec(i as nat).0,
                    gauge_family_spec(i as nat).1,
                    gauge_label_spec(i as nat),
                ),
                total_desc(series) == ("jail_num"@, "Current number of running jails."@),
                gauge_series(series).dom().is_empty(),
                counter_series(series).dom().is_empty(),
                total_gauge(series) == 0,
            decreases GAUGE_FAMILIES - slot,
        {
            let (name, help) = gauge_family_info(slot);
            series.add_gauge_family(name, help, gauge_family_label(slot));
            slot = slot + 1;
        }
        let mut slot: usize = 0;
        while slot < RESOURCE_COUNTERS
            invariant
                slot <= RESOURCE_COUNTERS,
                gauge_families(series) == GAUGE_FAMILIES,
                counter_families(series) == slot,
                forall|i: int| 0 <= i < GAUGE_FAMILIES ==> #[trigger] gauge_descs(series)[i] == (
                    gauge_family_spec(i as nat).0,
                    gauge_family_spec(i as nat).1,
                    gauge_label_spec(i as nat),
                ),
                forall|i: int| 0 <= i < slot ==> #[trigger] counter_descs(series)[i] == (
                    counter_family_spec(i as nat).0,
                    counter_family_spec(i as nat).1,
                    "name"@,
                ),
                total_desc(series) == ("jail_num"@, "Current number of running jails."@),
                gauge_series(series).dom().is_empty(),
                counter_series(series).dom().is_empty(),
                total_gauge(series) == 0,
            decreases RESOURCE_COUNTERS - slot,
        {
            let (name, help) = counter_family_info(slot);
            proof {
                reveal_strlit("name");
                assert(valid_ident("name"@, false));
            }
            series.add_counter_family(name, help, "name");
            slot = slot + 1;
        }
        series.set_gauge(BUILD_INFO_SLOT, BUILD_VERSION, 1);
        let metrics = Metrics {
            series,
            cputime_book: Ledger::new(),
            wallclock_book: Ledger::new(),
            seen: Ledger::new(),
        };
        assert(metrics.model().gauges =~= Map::<SeriesKey, (Seq<char>, int)>::empty().insert(
            (BUILD_INFO_SLOT as nat, label_hash(BUILD_VERSION@)),
            (BUILD_VERSION@, 1),
        ));
        metrics
    }

    /// Applies one sample of jail `name`.
    fn process_sample(&mut self, name: &String, s: Sample)
        requires
            old(self).wf(),
            old(self).seen().contains(name@),
        ensures
            final(self).wf(),
            final(self).model() == apply_sample(old(self).model(), name@, s),
            final(self).seen() == old(self).seen(),
    {
        match s.kind.class() {
            SeriesClass::Gauge(slot) => {
                let value: i64 = if s.value <= i64::MAX as u64 {
                    s.value as i64
                } else {
                    i64::MAX
                };
                let ghost before = *self;
                self.series.set_gauge(slot, name.as_str(), value);
                proof {
                    lemma_put_gauge_seen(before.model(), before.seen(), slot as nat, name@, value as int);
                    assert(self.model() == MetricsModel {
                        gauges: put(before.model().gauges, (slot as nat, label_hash(name@)), name@, value as int),
                        ..before.model()
                    });
                    Self::lemma_wf_frame(before, *self);
                }
            },
            SeriesClass::Counter(slot) => {
                let last = if slot == 0 {
                    self.cputime_book.get(name)
                } else {
                    self.wallclock_book.get(name)
                };
                let delta = rebase_delta(last, s.value);
                let current = self.series.counter_value(slot, name.as_str());
                let credit = if delta <= u64::MAX - current {
                    delta
                } else {
                    u64::MAX - current
                };
                self.series.inc_counter(slot, name.as_str(), credit);
                if slot == 0 {
                    self.cputime_book.record(name, s.value);
                } else {
                    self.wallclock_book.record(name, s.value);
                }
                assert(self.model().counters =~= apply_sample(old(self).model(), name@, s).counters);
                proof {
                    lemma_sample_seen(old(self).model(), old(self).seen(), name@, s);
                    let m0 = old(self).model();
                    let m1 = self.model();
                    let key = (slot as nat, label_hash(name@));
                    assert forall|k| #[trigger] m1.counters.dom().contains(k) implies 0 <= m1.counters[k].1 <= u64::MAX by {
                        if k != key {
                            assert(m0.counters.dom().contains(k));
                        }
                    }
                    assert forall|n| #[trigger] m1.cputime_book.dom().contains(n) implies m1.counters.dom().contains(
                        (0nat, label_hash(n)),
                    ) by {
                        if !(slot == 0 && n == name@) {
                            assert(m0.cputime_book.dom().contains(n));
                        }
                    }
                    assert forall|n| #[trigger] m1.wallclock_book.dom().contains(n) implies m1.counters.dom().contains(
                        (1nat, label_hash(n)),
                    ) by {
                        if !(slot == 1 && n == name@) {
                            assert(m0.wallclock_book.dom().contains(n));
                        }
                    }
                }
            },
            SeriesClass::Ignored => {},
        }
    }

    /// Applies a jail's usage snapshot to the series, sample by sample.
    pub fn process_metrics_hash(&mut self, name: &str, samples: &Vec<Sample>)
        requires
            old(self).wf(),
        ensures
            final(self).wf(),
            final(self).model() == apply_samples(old(self).model(), name@, samples@),
            final(self).seen() == old(self).seen().insert(name@),
    {
        let owned = name.to_owned();
        self.seen.record(&owned, 0);
        assert(self.seen() =~= old(self).seen().insert(name@));
        proof {
            lemma_seen_grows(old(self).model(), old(self).seen(), name@);
        }
        let mut i: usize = 0;
        while i < samples.len()
            invariant
                self.wf(),
                i <= samples@.len(),
                owned@ == name@,
                self.seen() == old(self).seen().insert(name@),
                self.model() == apply_samples(old(self).model(), name@, samples@.subrange(0, i as int)),
            decreases samples@.len() - i,
        {
            self.process_sample(&owned, samples[i]);
            assert(samples@.subrange(0, i + 1).drop_last() =~= samples@.subrange(0, i as int));
            i = i + 1;
        }
        assert(samples@.subrange(0, samples@.len() as int) =~= samples@);
    }

    /// Whether every jail of the poll has a name.
    fn check_named(jails: &Vec<JailReading>) -> (r: bool)
        ensures
            r == all_named(jails@),
    {
        let mut i: usize = 0;
        while i < jails.len()
            invariant
                i <= jails@.len(),
                forall|j: int| 0 <= j < i ==> (#[trigger] jails@[j]).name is Some,
            decreases jails@.len() - i,
        {
            if jails[i].name.is_none() {
                return false;
            }
            i = i + 1;
        }
        true
    }

    /// One poll over the jails that were read. The jail count restarts from
    /// zero; each jail whose usage was read has its samples applied and its
    /// id set, and is counted; a jail whose usage could not be read is
    /// skipped. A jail without a name fails the poll before anything changes.
    pub fn collect(&mut self, jails: &Vec<JailReading>) -> (r: Result<(), MetricsError>)
        requires
            old(self).wf(),
            jails@.len() <= i64::MAX,
        ensures
            final(self).wf(),
            r is Ok <==> all_named(jails@),
            r is Ok ==> final(self).model() == apply_poll(old(self).model(), jails@),
            r is Ok ==> final(self).model().jail_count == count_read(jails@),
            r is Err ==> r->Err_0 == MetricsError::UnnamedJail,
            r is Err ==> final(self).model() == old(self).model(),
    {
        if !Self::check_named(jails) {
            return Err(MetricsError::UnnamedJail);
        }
        self.series.set_total(0);
        proof {
            Self::lemma_wf_frame(*old(self), *self);
        }
        assert(self.model() == MetricsModel { jail_count: 0, ..old(self).model() });
        let mut i: usize = 0;
        while i < jails.len()
            invariant
                self.wf(),
                i <= jails@.len(),
                jails@.len() <= i64::MAX,
                all_named(jails@),
                self.model() == apply_poll(old(self).model(), jails@.subrange(0, i as int)),
                self.model().jail_count == count_read(jails@.subrange(0, i as int)),
                count_read(jails@.subrange(0, i as int)) <= i,
            decreases jails@.len() - i,
        {
            let reading = &jails[i];
            assert(jails@.subrange(0, i + 1).drop_last() =~= jails@.subrange(0, i as int));
            assert(jails@.subrange(0, i + 1).last() == jails@[i as int]);
            assert(jails@[i as int].name is Some);
            match (&reading.name, &reading.usage) {
                (Some(name), Some(usage)) => {
                    proof {
                        lemma_samples_keep_count(self.model(), name@, usage@);
                    }
                    self.process_metrics_hash(name.as_str(), usage);
                    let ghost before = *self;
                    self.series.set_gauge(JAIL_ID_SLOT, name.as_str(), reading.jid as i64);
                    let count = self.series.total();
                    self.series.set_total(count + 1);
                    proof {
                        lemma_put_gauge_seen(before.model(), before.seen(), JAIL_ID_SLOT as nat, name@, reading.jid as int);
                        Self::lemma_wf_frame(before, *self);
                    }
                },
                _ => {},
            }
            i = i + 1;
        }
        assert(jails@.subrange(0, jails@.len() as int) =~= jails@);
        Ok(())
    }

    /// Polls the jails, then gathers every family and encodes it in the
    /// text exposition format.
    pub fn export(&mut self, jails: &Vec<JailReading>) -> (r: Result<Vec<u8>, MetricsError>)
        requires
            old(self).wf(),
            jails@.len() <= i64::MAX,
        ensures
            final(self).wf(),
            r is Ok <==> all_named(jails@),
            r is Err ==> r->Err_0 == MetricsError::UnnamedJail,
            r is Ok ==> r->Ok_0@ == metrics_text(final(self).model()),
            all_named(jails@) ==> final(self).model() == apply_poll(old(self).model(), jails@),
            !all_named(jails@) ==> final(self).model() == old(self).model(),
    {
        match self.collect(jails) {
            Ok(()) => {},
            Err(e) => return Err(e),
        }
        let mut out: Vec<u8> = Vec::new();
        let mut slot: usize = 0;
        while slot < GAUGE_FAMILIES
            invariant
                self.wf(),
                slot <= GAUGE_FAMILIES,
                out@ == gauge_texts(self.model(), slot as nat),
            decreases GAUGE_FAMILIES - slot,
        {
            let mut text = self.series.encode_gauge_family(slot);
            out.append(&mut text);
            slot = slot + 1;
        }
        let mut slot: usize = 0;
        while slot < RESOURCE_COUNTERS
            invariant
                self.wf(),
                slot <= RESOURCE_COUNTERS,
                out@ == gauge_texts(self.model(), GAUGE_FAMILIES as nat) + counter_texts(self.model(), slot as nat),
            decreases RESOURCE_COUNTERS - slot,
        {
            let mut text = self.series.encode_counter_family(slot);
            out.append(&mut text);
            slot = slot + 1;
        }
        let mut text = self.series.encode_total();
        out.append(&mut text);
        assert(out@ =~= metrics_text(self.model()));
        Ok(out)
    }

    /// The counter of a counter kind for jail `name`: its series where the
    /// kind's ledger knows the jail, else zero (and no series is created);
    /// `None` for a kind that is not a counter.
    pub fn counter_value(&mut self, kind: ResourceKind, name: &str) -> (r: Option<u64>)
        requires
            old(self).wf(),
        ensures
            final(self).wf(),
            final(self).model() == old(self).model(),
            match kind.class_spec() {
                SeriesClass::Counter(slot) => r is Some && r->Some_0 as int == if book_of(
                    old(self).model(),
                    slot as nat,
                ).dom().contains(name@) {
                    series_at(old(self).model().counters, (slot as nat, label_hash(name@)))
                } else {
                    0
                },
                _ => r is None,
            },
    {
        match kind.class() {
            SeriesClass::Counter(slot) => {
                let owned = name.to_owned();
                let known = if slot == 0 {
                    self.cputime_book.contains(&owned)
                } else {
                    self.wallclock_book.contains(&owned)
                };
                if known {
                    let value = self.series.counter_value(slot, name);
                    assert(book_of(old(self).model(), slot as nat).dom().contains(name@));
                    assert(old(self).model().counters.dom().contains((slot as nat, label_hash(name@))));
                    assert(self.model().counters =~= old(self).model().counters);
                    proof {
                        Self::lemma_wf_frame(*old(self), *self);
                    }
                    Some(value)
                } else {
                    Some(0)
                }
            },
            _ => None,
        }
    }

    /// The gauge of a gauge kind for jail `name`: its series where the jail's
    /// usage was applied before (a series missing there is created at zero,
    /// as prometheus does on first use), else zero with nothing created;
    /// `None` for a kind that is not a gauge.
    pub fn gauge_value(&mut self, kind: ResourceKind, name: &str) -> (r: Option<i64>)
        requires
            old(self).wf(),
        ensures
            final(self).wf(),
            final(self).seen() == old(self).seen(),
            match kind.class_spec() {
                SeriesClass::Gauge(slot) => r is Some && if old(self).seen().contains(name@) {
                    &&& r->Some_0 as int == series_at(old(self).model().gauges, (slot as nat, label_hash(name@)))
                    &&& final(self).model() == (MetricsModel {
                        gauges: put(old(self).model().gauges, (slot as nat, label_hash(name@)), name@, r->Some_0 as int),
                        ..old(self).model()
                    })
                } else {
                    r->Some_0 == 0 && final(self).model() == old(self).model()
                },
                _ => r is None && final(self).model() == old(self).model(),
            },
    {
        match kind.class() {
            SeriesClass::Gauge(slot) => {
                let owned = name.to_owned();
                if self.seen.contains(&owned) {
                    let value = self.series.gauge_value(slot, name);
                    proof {
                        lemma_put_gauge_seen(old(self).model(), old(self).seen(), slot as nat, name@, value as int);
                        Self::lemma_wf_frame(*old(self), *self);
                    }
                    Some(value)
                } else {
                    Some(0)
                }
            },
            _ => None,
        }
    }

    /// The build-info series of `BUILD_VERSION`.
    pub fn build_info(&mut self) -> (r: i64)
        requires
            old(self).wf(),
        ensures
            final(self).wf(),
            final(self).seen() == old(self).seen(),
            r as int == series_at(old(self).model().gauges, (BUILD_INFO_SLOT as nat, label_hash(BUILD_VERSION@))),
            final(self).model() == (MetricsModel {
                gauges: put(
                    old(self).model().gauges,
                    (BUILD_INFO_SLOT as nat, label_hash(BUILD_VERSION@)),
                    BUILD_VERSION@,
                    r as int,
                ),
                ..old(self).model()
            }),
    {
        let value = self.series.gauge_value(BUILD_INFO_SLOT, BUILD_VERSION);
        proof {
            Self::lemma_wf_frame(*old(self), *self);
        }
        value
    }

    /// The id of jail `name`: its series where the jail's usage was applied
    /// before, else zero with nothing created.
    pub fn jail_id(&mut self, name: &str) -> (r: i64)
        requires
            old(self).wf(),
        ensures
            final(self).wf(),
            final(self).seen() == old(self).seen(),
            if old(self).seen().contains(name@) {
                &&& r as int == series_at(old(self).model().gauges, (JAIL_ID_SLOT as nat, label_hash(name@)))
                &&& final(self).model() == (MetricsModel {
                    gauges: put(old(self).model().gauges, (JAIL_ID_SLOT as nat, label_hash(name@)), name@, r as int),
                    ..old(self).model()
                })
            } else {
                r == 0 && final(self).model() == old(self).model()
            },
    {
        let owned = name.to_owned();
        if self.seen.contains(&owned) {
            let value = self.series.gauge_value(JAIL_ID_SLOT, name);
            proof {
                lemma_put_gauge_seen(old(self).model(), old(self).seen(), JAIL_ID_SLOT as nat, name@, value as int);
                Self::lemma_wf_frame(*old(self), *self);
            }
            value
        } else {
            0
        }
    }

    /// The number of jails counted by the last poll.
    pub fn jail_count(&self) -> (r: i64)
        ensures
            r as int == self.model().jail_count,
    {
        self.series.total()
    }
}

} // verus!
