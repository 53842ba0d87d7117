use dc_mods::netwatch::{
    begin_scan, check_technicians, plan_dispatches, DeviceCounts, DispatchKind, NetWatchState,
    ScanConfig, LOG_EVERY_SCANS, MAX_DISPATCHES_PER_SCAN,
};

fn cfg(prioritize_switches: bool, max_dispatches: u32) -> ScanConfig {
    ScanConfig {
        repair_broken_servers: true,
        repair_broken_switches: true,
        replace_eol_servers: true,
        replace_eol_switches: true,
        prioritize_switches,
        max_dispatches,
    }
}

fn counts() -> DeviceCounts {
    DeviceCounts { broken_servers: 2, broken_switches: 1, eol_servers: 0, eol_switches: 3 }
}

#[test]
fn scan_works_through_kinds_until_limit() {
    let mut st = NetWatchState::new();
    let c = cfg(false, MAX_DISPATCHES_PER_SCAN);
    assert!(begin_scan(&mut st, &c));
    assert!(check_technicians(&mut st, 3));
    let mut plan = plan_dispatches(&mut st, &c, &counts()).unwrap();

    assert_eq!(plan.next(), Some(DispatchKind::RepairServer));
    plan.record(&mut st, DispatchKind::RepairServer, Some(1));
    plan.record(&mut st, DispatchKind::RepairServer, Some(1));
    assert_eq!(plan.next(), Some(DispatchKind::RepairServer));
    plan.record(&mut st, DispatchKind::RepairServer, Some(0));
    assert_eq!(plan.next(), Some(DispatchKind::RepairSwitch));
    plan.record(&mut st, DispatchKind::RepairSwitch, None);
    assert_eq!(plan.next(), Some(DispatchKind::ReplaceServer));
    plan.record(&mut st, DispatchKind::ReplaceServer, Some(1));
    plan.record(&mut st, DispatchKind::ReplaceServer, Some(1));
    assert_eq!(plan.next(), None);

    assert_eq!(st.total_dispatches, 4);
    assert_eq!(st.broken_repairs, 2);
    assert_eq!(st.eol_replacements, 2);
    assert_eq!(st.idle_log_counter, 0);
}

#[test]
fn switches_first_when_prioritized_and_stop_on_error() {
    let mut st = NetWatchState::new();
    let c = cfg(true, 10);
    let mut plan = plan_dispatches(&mut st, &c, &counts()).unwrap();
    assert_eq!(plan.next(), Some(DispatchKind::RepairSwitch));
    plan.record(&mut st, DispatchKind::RepairSwitch, Some(0));
    assert_eq!(plan.next(), Some(DispatchKind::RepairServer));
    plan.record(&mut st, DispatchKind::RepairServer, Some(0));
    assert_eq!(plan.next(), Some(DispatchKind::ReplaceSwitch));
    plan.record(&mut st, DispatchKind::ReplaceSwitch, Some(-1));
    assert_eq!(plan.next(), None);
    assert_eq!(st.total_dispatches, 0);
}

#[test]
fn disabled_kinds_are_skipped() {
    let mut st = NetWatchState::new();
    let c = ScanConfig {
        repair_broken_servers: false,
        repair_broken_switches: false,
        replace_eol_servers: false,
        replace_eol_switches: true,
        prioritize_switches: false,
        max_dispatches: 1,
    };
    assert!(begin_scan(&mut st, &c));
    let mut plan = plan_dispatches(&mut st, &c, &counts()).unwrap();
    assert_eq!(plan.next(), Some(DispatchKind::ReplaceSwitch));
    plan.record(&mut st, DispatchKind::ReplaceSwitch, Some(1));
    assert_eq!(plan.next(), None);

    let none = ScanConfig { replace_eol_switches: false, ..c };
    assert!(!begin_scan(&mut st, &none));
}

#[test]
fn zero_limit_dispatches_nothing() {
    let mut st = NetWatchState::new();
    let plan = plan_dispatches(&mut st, &cfg(false, 0), &counts()).unwrap();
    assert_eq!(plan.next(), None);
}

#[test]
fn idle_scans_cycle_the_log_counter() {
    let mut st = NetWatchState::new();
    for _ in 0..LOG_EVERY_SCANS - 1 {
        assert!(!check_technicians(&mut st, 0));
    }
    assert_eq!(st.idle_log_counter, LOG_EVERY_SCANS - 1);
    assert!(!check_technicians(&mut st, 0));
    assert_eq!(st.idle_log_counter, 0);

    let empty = DeviceCounts { broken_servers: 0, broken_switches: 0, eol_servers: 0, eol_switches: 0 };
    assert!(plan_dispatches(&mut st, &cfg(false, 4), &empty).is_none());
    assert_eq!(st.idle_log_counter, 1);

    let c = cfg(false, 4);
    for _ in 0..LOG_EVERY_SCANS {
        begin_scan(&mut st, &c);
    }
    assert_eq!(st.config_log_counter, 0);
}
