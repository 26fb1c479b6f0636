use jail_exporter::ledger::rebase_delta;
use jail_exporter::{Metrics, ResourceKind, Sample};

fn one(kind: ResourceKind, value: u64) -> Vec<Sample> {
    vec![Sample { kind, value }]
}

#[test]
fn cputime_counter_increase() {
    let mut metrics = Metrics::new();
    let names = ["test", "test2"];

    for name in names.iter() {
        // Initial check, should be zero. We didn't set anything yet.
        assert_eq!(metrics.counter_value(ResourceKind::CpuTime, name), Some(0));

        // First run, adds 1000, total 1000.
        metrics.process_metrics_hash(name, &one(ResourceKind::CpuTime, 1000));
        assert_eq!(metrics.counter_value(ResourceKind::CpuTime, name), Some(1000));

        // Second, adds 20, total 1020
        metrics.process_metrics_hash(name, &one(ResourceKind::CpuTime, 1020));
        assert_eq!(metrics.counter_value(ResourceKind::CpuTime, name), Some(1020));

        // Third, counter was reset. Adds 10, total 1030.
        metrics.process_metrics_hash(name, &one(ResourceKind::CpuTime, 10));
        assert_eq!(metrics.counter_value(ResourceKind::CpuTime, name), Some(1030));

        // Fourth, adds 40, total 1070.
        metrics.process_metrics_hash(name, &one(ResourceKind::CpuTime, 50));
        assert_eq!(metrics.counter_value(ResourceKind::CpuTime, name), Some(1070));

        // Fifth, add 0, total 1070
        metrics.process_metrics_hash(name, &one(ResourceKind::CpuTime, 50));
        assert_eq!(metrics.counter_value(ResourceKind::CpuTime, name), Some(1070));
    }
}

#[test]
fn wallclock_counter_increase() {
    let mut metrics = Metrics::new();
    let names = ["test", "test2"];

    for name in names.iter() {
        // Initial check, should be zero. We didn't set anything yet.
        assert_eq!(metrics.counter_value(ResourceKind::Wallclock, name), Some(0));

        // First run, adds 1000, total 1000.
        metrics.process_metrics_hash(name, &one(ResourceKind::Wallclock, 1000));
        assert_eq!(metrics.counter_value(ResourceKind::Wallclock, name), Some(1000));

        // Second, adds 20, total 1020
        metrics.process_metrics_hash(name, &one(ResourceKind::Wallclock, 1020));
        assert_eq!(metrics.counter_value(ResourceKind::Wallclock, name), Some(1020));

        // Third, counter was reset. Adds 10, total 1030.
        metrics.process_metrics_hash(name, &one(ResourceKind::Wallclock, 10));
        assert_eq!(metrics.counter_value(ResourceKind::Wallclock, name), Some(1030));

        // Fourth, adds 40, total 1070.
        metrics.process_metrics_hash(name, &one(ResourceKind::Wallclock, 50));
        assert_eq!(metrics.counter_value(ResourceKind::Wallclock, name), Some(1070));

        // Fifth, add 0, total 1070
        metrics.process_metrics_hash(name, &one(ResourceKind::Wallclock, 50));
        assert_eq!(metrics.counter_value(ResourceKind::Wallclock, name), Some(1070));
    }
}

#[test]
fn rebased_totals_follow_the_sequence() {
    let mut metrics = Metrics::new();
    let raw = [1000u64, 1020, 10, 50, 50];
    let expected = [1000u64, 1020, 1030, 1070, 1070];
    for (v, want) in raw.iter().zip(expected.iter()) {
        metrics.process_metrics_hash("test", &one(ResourceKind::CpuTime, *v));
        assert_eq!(metrics.counter_value(ResourceKind::CpuTime, "test"), Some(*want));
    }
}

#[test]
fn same_raw_value_twice_credits_nothing() {
    let mut metrics = Metrics::new();
    metrics.process_metrics_hash("j", &one(ResourceKind::Wallclock, 300));
    metrics.process_metrics_hash("j", &one(ResourceKind::Wallclock, 300));
    assert_eq!(metrics.counter_value(ResourceKind::Wallclock, "j"), Some(300));
}

#[test]
fn jails_keep_independent_ledgers() {
    let mut metrics = Metrics::new();
    metrics.process_metrics_hash("test", &one(ResourceKind::CpuTime, 1000));
    metrics.process_metrics_hash("test2", &one(ResourceKind::CpuTime, 500));
    // "test" resets; "test2" keeps growing from its own last value.
    metrics.process_metrics_hash("test", &one(ResourceKind::CpuTime, 10));
    metrics.process_metrics_hash("test2", &one(ResourceKind::CpuTime, 600));
    assert_eq!(metrics.counter_value(ResourceKind::CpuTime, "test"), Some(1010));
    assert_eq!(metrics.counter_value(ResourceKind::CpuTime, "test2"), Some(600));
}

#[test]
fn cputime_and_wallclock_keep_separate_ledgers() {
    let mut metrics = Metrics::new();
    metrics.process_metrics_hash("j", &one(ResourceKind::CpuTime, 100));
    metrics.process_metrics_hash("j", &one(ResourceKind::Wallclock, 40));
    metrics.process_metrics_hash("j", &one(ResourceKind::CpuTime, 150));
    assert_eq!(metrics.counter_value(ResourceKind::CpuTime, "j"), Some(150));
    assert_eq!(metrics.counter_value(ResourceKind::Wallclock, "j"), Some(40));
}

#[test]
fn counter_stops_at_its_largest_value() {
    let mut metrics = Metrics::new();
    metrics.process_metrics_hash("j", &one(ResourceKind::CpuTime, u64::MAX));
    metrics.process_metrics_hash("j", &one(ResourceKind::CpuTime, 10));
    assert_eq!(metrics.counter_value(ResourceKind::CpuTime, "j"), Some(u64::MAX));
}

#[test]
fn counter_value_of_a_gauge_kind_is_none() {
    let mut metrics = Metrics::new();
    assert_eq!(metrics.counter_value(ResourceKind::MemoryUse, "j"), None);
    assert_eq!(metrics.gauge_value(ResourceKind::CpuTime, "j"), None);
}

#[test]
fn rebase_delta_values() {
    assert_eq!(rebase_delta(0, 1000), 1000);
    assert_eq!(rebase_delta(1000, 1020), 20);
    assert_eq!(rebase_delta(1020, 10), 10);
    assert_eq!(rebase_delta(50, 50), 0);
}

#[test]
fn reading_an_unknown_jail_creates_no_series() {
    let mut metrics = Metrics::new();
    assert_eq!(metrics.counter_value(ResourceKind::CpuTime, "ghost"), Some(0));
    let text = String::from_utf8(metrics.export(&vec![]).unwrap()).unwrap();
    assert!(!text.contains("ghost"));
}
