use ashframe_sim::events::KindLog;
use ashframe_sim::types::EventKind;

#[test]
fn an_event_log_counts_and_finds() {
    let mut log = KindLog::new();
    log.record(EventKind::ReloadStart);
    log.record(EventKind::EnergyEmpty);
    log.record(EventKind::ReloadStart);

    assert_eq!(log.count("reload-start"), 2);
    assert_eq!(log.count("energy-empty"), 1);
    assert_eq!(log.count("destroy"), 0);
    assert!(log.any("energy-empty"));
    assert!(!log.any("destroy"));

    log.clear();
    assert_eq!(log.len(), 0);
}

#[test]
fn an_unknown_label_counts_nothing() {
    let mut log = KindLog::new();
    log.record(EventKind::Fire);
    assert_eq!(log.count("Fire"), 0);
    assert_eq!(log.count("fire "), 0);
    assert_eq!(log.count("fire"), 1);
    assert!(!log.any(""));
}
