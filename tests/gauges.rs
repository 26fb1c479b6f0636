use jail_exporter::{JailReading, Metrics, MetricsError, ResourceKind, Sample, SeriesClass};

fn reading(jid: i32, name: &str, usage: Option<Vec<Sample>>) -> JailReading {
    JailReading { jid, name: Some(name.to_string()), usage }
}

#[test]
fn gauge_takes_the_last_value() {
    let mut metrics = Metrics::new();
    metrics.process_metrics_hash("j", &vec![Sample { kind: ResourceKind::MemoryUse, value: 4096 }]);
    metrics.process_metrics_hash("j", &vec![Sample { kind: ResourceKind::MemoryUse, value: 12 }]);
    assert_eq!(metrics.gauge_value(ResourceKind::MemoryUse, "j"), Some(12));
}

#[test]
fn gauge_caps_values_beyond_its_range() {
    let mut metrics = Metrics::new();
    metrics.process_metrics_hash("j", &vec![Sample { kind: ResourceKind::VMemoryUse, value: u64::MAX }]);
    assert_eq!(metrics.gauge_value(ResourceKind::VMemoryUse, "j"), Some(i64::MAX));
}

#[test]
fn ignored_sample_beside_valid_ones() {
    let mut metrics = Metrics::new();
    let samples = vec![
        Sample { kind: ResourceKind::ReadBps, value: 5 },
        Sample { kind: ResourceKind::OpenFiles, value: 64 },
        Sample { kind: ResourceKind::WriteIops, value: 9 },
        Sample { kind: ResourceKind::CpuTime, value: 7 },
    ];
    metrics.process_metrics_hash("test", &samples);
    assert_eq!(metrics.gauge_value(ResourceKind::OpenFiles, "test"), Some(64));
    assert_eq!(metrics.counter_value(ResourceKind::CpuTime, "test"), Some(7));
}

#[test]
fn ignored_kinds_create_no_series() {
    let mut metrics = Metrics::new();
    for kind in [ResourceKind::ReadBps, ResourceKind::WriteBps, ResourceKind::ReadIops, ResourceKind::WriteIops] {
        assert_eq!(kind.class(), SeriesClass::Ignored);
        metrics.process_metrics_hash("quiet", &vec![Sample { kind, value: 123 }]);
    }
    let text = String::from_utf8(metrics.export(&vec![]).unwrap()).unwrap();
    assert!(!text.contains("quiet"));
}

#[test]
fn build_info_is_one_and_survives_polls() {
    let mut metrics = Metrics::new();
    assert_eq!(metrics.build_info(), 1);
    let jails = vec![reading(1, "test", Some(vec![Sample { kind: ResourceKind::NThreads, value: 3 }]))];
    metrics.collect(&jails).unwrap();
    assert_eq!(metrics.build_info(), 1);
}

#[test]
fn poll_counts_jails_whose_usage_was_read() {
    let mut metrics = Metrics::new();
    let jails = vec![
        reading(3, "a", Some(vec![Sample { kind: ResourceKind::MaxProcesses, value: 12 }])),
        reading(4, "b", None),
        reading(5, "c", Some(vec![])),
    ];
    assert_eq!(metrics.collect(&jails), Ok(()));
    assert_eq!(metrics.jail_count(), 2);
    assert_eq!(metrics.jail_id("a"), 3);
    assert_eq!(metrics.jail_id("c"), 5);
    assert_eq!(metrics.jail_id("b"), 0);
    assert_eq!(metrics.gauge_value(ResourceKind::MaxProcesses, "a"), Some(12));

    // The count starts again from zero at each poll.
    let jails = vec![reading(3, "a", Some(vec![]))];
    metrics.collect(&jails).unwrap();
    assert_eq!(metrics.jail_count(), 1);
}

#[test]
fn unnamed_jail_fails_the_poll_untouched() {
    let mut metrics = Metrics::new();
    metrics.collect(&vec![reading(1, "a", Some(vec![]))]).unwrap();
    let jails = vec![
        reading(2, "b", Some(vec![Sample { kind: ResourceKind::NThreads, value: 3 }])),
        JailReading { jid: 9, name: None, usage: Some(vec![]) },
    ];
    assert_eq!(metrics.collect(&jails), Err(MetricsError::UnnamedJail));
    assert_eq!(metrics.export(&jails), Err(MetricsError::UnnamedJail));
    assert_eq!(metrics.jail_count(), 1);
}

#[test]
fn export_writes_the_text_format() {
    let mut metrics = Metrics::new();
    let jails = vec![reading(
        7,
        "web",
        Some(vec![
            Sample { kind: ResourceKind::MemoryUse, value: 2048 },
            Sample { kind: ResourceKind::CpuTime, value: 30 },
        ]),
    )];
    let text = String::from_utf8(metrics.export(&jails).unwrap()).unwrap();
    assert!(text.contains("jail_memoryuse_bytes{name=\"web\"} 2048"));
    assert!(text.contains("jail_cputime_seconds_total{name=\"web\"} 30"));
    assert!(text.contains("jail_id{name=\"web\"} 7"));
    assert!(text.contains("jail_num 1"));
    assert!(text.contains("jail_exporter_build_info{version=\"0.1.0\"} 1"));
    assert!(text.contains("# HELP jail_memoryuse_bytes resident set size, in bytes"));
}

#[test]
fn reading_gauges_of_an_unknown_jail_creates_no_series() {
    let mut metrics = Metrics::new();
    assert_eq!(metrics.gauge_value(ResourceKind::MemoryUse, "ghost"), Some(0));
    assert_eq!(metrics.jail_id("ghost"), 0);
    let text = String::from_utf8(metrics.export(&vec![]).unwrap()).unwrap();
    assert!(!text.contains("ghost"));
    assert!(text.contains("jail_exporter_build_info{version=\"0.1.0\"} 1"));
}
