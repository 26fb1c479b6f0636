use jail_exporter::{
    ExporterError, FileExporter, FileExporterOutput, JailReading, Metrics, MetricsError, RctlState,
    ResourceKind, Sample, SysctlReading,
};

#[test]
fn output_names_its_destination() {
    assert_eq!(FileExporterOutput::File("/var/tmp/jails.prom".to_string()).to_string(), "/var/tmp/jails.prom");
    assert_eq!(FileExporterOutput::Stdout.to_string(), "-");
}

#[test]
fn file_exporter_keeps_its_destination() {
    let exporter = FileExporter::new(FileExporterOutput::File("/tmp/m.prom".to_string()));
    assert!(matches!(exporter.dest(), FileExporterOutput::File(p) if p == "/tmp/m.prom"));
}

#[test]
fn file_exporter_produces_the_metrics_text() {
    let exporter = FileExporter::new(FileExporterOutput::Stdout);
    let mut metrics = Metrics::new();
    let jails = vec![JailReading {
        jid: 2,
        name: Some("db".to_string()),
        usage: Some(vec![Sample { kind: ResourceKind::NThreads, value: 17 }]),
    }];
    let bytes = exporter.export(&mut metrics, &jails).unwrap();
    let text = String::from_utf8(bytes).unwrap();
    assert!(text.contains("jail_nthr{name=\"db\"} 17"));

    let unnamed = vec![JailReading { jid: 3, name: None, usage: None }];
    assert_eq!(
        exporter.export(&mut metrics, &unnamed),
        Err(ExporterError::Metrics(MetricsError::UnnamedJail))
    );
}

#[test]
fn rctl_state_decisions() {
    assert_eq!(RctlState::from_readings(SysctlReading::Int(1), SysctlReading::U8(1)), RctlState::Jailed);
    assert_eq!(RctlState::from_readings(SysctlReading::Missing, SysctlReading::U8(1)), RctlState::Jailed);
    assert_eq!(RctlState::from_readings(SysctlReading::Unreadable, SysctlReading::U8(1)), RctlState::Jailed);
    assert_eq!(RctlState::from_readings(SysctlReading::Int(0), SysctlReading::U8(1)), RctlState::Enabled);
    assert_eq!(RctlState::from_readings(SysctlReading::Int(0), SysctlReading::Uint(1)), RctlState::Enabled);
    assert_eq!(RctlState::from_readings(SysctlReading::Int(0), SysctlReading::U8(0)), RctlState::Disabled);
    assert_eq!(RctlState::from_readings(SysctlReading::Int(0), SysctlReading::Int(1)), RctlState::Disabled);
    assert_eq!(RctlState::from_readings(SysctlReading::Int(0), SysctlReading::Unreadable), RctlState::Disabled);
    assert_eq!(RctlState::from_readings(SysctlReading::Int(0), SysctlReading::Missing), RctlState::NotPresent);
    assert!(!RctlState::jailed(SysctlReading::Other));
}
