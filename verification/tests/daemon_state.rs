use powerd::daemon::{
    CurrentProfile, DaemonConfig, DefaultProfiles, PowerProfilesDaemonProfiles, ProfileInfo,
    ReconcileAction, apply_cfg_from_file, join_profile_path, opt_profile_info_eq,
};
use powerd::ppd::{PowerProfilesDaemon, PpdMessage, PpdProfile};
use powerd::sensors::cooling_profile::{CoolingProfileConfig, CoolingProfileInfo};
use powerd::sensors::intel_dptf::{DptfConfig, DptfInfo};
use powerd::sensors::intel_pstate::{PstateConfig, PstateInfo};
use powerd::sensors::{SensorConfig, SensorInfo};

fn bare_info() -> SensorInfo {
    SensorInfo {
        rapl: Vec::new(),
        dptf: DptfInfo {
            intxx_path: "INT3400:00".to_string(),
            uuid: "device-default".to_string(),
            uuids: vec!["device-default".to_string()],
            tcc_offset: 0,
        },
        pstate: PstateInfo {
            cpus: Vec::new(),
            turbo: true,
        },
        gpus: Vec::new(),
        cooling: CoolingProfileInfo("balanced".to_string()),
    }
}

fn bare_config(ppd_name: PpdProfile, uuid: &str) -> SensorConfig {
    SensorConfig {
        rapl: Vec::new(),
        dptf: DptfConfig {
            tcc_offset: 3,
            uuid: uuid.to_string(),
        },
        pstate: PstateConfig {
            cpus: Vec::new(),
            turbo: true,
        },
        gpus: Vec::new(),
        cooling: CoolingProfileConfig("balanced".to_string()),
        ppd_name,
    }
}

fn config() -> DaemonConfig {
    DaemonConfig {
        profiles: "/etc/powerd/profiles".to_string(),
        default: Some(DefaultProfiles {
            ac: "a.json".to_string(),
            battery: "b.json".to_string(),
        }),
        ppd: PowerProfilesDaemonProfiles {
            powersave: "saver.json".to_string(),
            balanced: "balanced.json".to_string(),
            performance: "perf.json".to_string(),
        },
        poll_frequency: None,
    }
}

#[test]
fn startup_state_is_balanced_with_no_overrides() {
    let current = CurrentProfile::new();
    assert!(current.held.is_none());
    assert!(current.manual.is_none());
    assert_eq!(current.ppd_profile, PpdProfile::Balanced);
    assert!(!current.ppd_set);
    assert!(current.get_override().is_none());
}

#[test]
fn held_beats_manual() {
    let mut current = CurrentProfile::new();
    current.apply_manual(ProfileInfo {
        cfg: bare_config(PpdProfile::Performance, "u1"),
        path: "manual.json".to_string(),
    });
    current.install_snapshot(
        ProfileInfo {
            cfg: bare_config(PpdProfile::PowerSaver, "u2"),
            path: "held.json".to_string(),
        },
        true,
    );
    assert_eq!(current.get_override().unwrap().path, "held.json");
}

#[test]
fn apply_request_installs_manual_and_clears_held() {
    let mut current = CurrentProfile::new();
    current.install_snapshot(
        ProfileInfo {
            cfg: bare_config(PpdProfile::PowerSaver, "u2"),
            path: "held.json".to_string(),
        },
        true,
    );
    let mut info = bare_info();
    let applied = apply_cfg_from_file(
        &"/etc/powerd/profiles".to_string(),
        &"perf.json".to_string(),
        bare_config(PpdProfile::Performance, "perf-uuid"),
        &mut info,
    )
    .unwrap();
    assert_eq!(info.dptf.uuid, "perf-uuid");
    current.apply_manual(applied);
    assert_eq!(
        current.manual.as_ref().unwrap().path,
        "/etc/powerd/profiles/perf.json"
    );
    assert!(current.held.is_none());
    assert_eq!(current.ppd_profile, PpdProfile::Performance);
    assert!(!current.ppd_set);
}

#[test]
fn restore_clears_only_the_manual_override() {
    let mut current = CurrentProfile::new();
    current.apply_manual(ProfileInfo {
        cfg: bare_config(PpdProfile::Performance, "u1"),
        path: "manual.json".to_string(),
    });
    current.restore();
    assert!(current.manual.is_none());
    assert!(!current.ppd_set);
}

#[test]
fn reconcile_falls_through_override_then_default_then_idle() {
    let mut current = CurrentProfile::new();
    assert_eq!(current.reconcile_action(true), ReconcileAction::SelectDefault);
    assert_eq!(current.reconcile_action(false), ReconcileAction::Idle);
    current.apply_manual(ProfileInfo {
        cfg: bare_config(PpdProfile::Performance, "u1"),
        path: "manual.json".to_string(),
    });
    assert_eq!(current.reconcile_action(true), ReconcileAction::ReapplyOverride);
    assert_eq!(current.reconcile_action(false), ReconcileAction::ReapplyOverride);
}

#[test]
fn battery_selects_the_battery_default_and_declares_its_profile() {
    let cfg = config();
    let mut current = CurrentProfile::new();
    assert!(cfg.battery_aware());
    assert_eq!(current.reconcile_action(cfg.default.is_some()), ReconcileAction::SelectDefault);
    let path = cfg.default.as_ref().unwrap().select(true);
    assert_eq!(path, "b.json");
    let mut info = bare_info();
    let loaded = apply_cfg_from_file(
        &cfg.profiles,
        &path,
        bare_config(PpdProfile::PowerSaver, "battery-uuid"),
        &mut info,
    )
    .unwrap();
    assert_eq!(info.dptf.uuid, "battery-uuid");
    let declared = loaded.cfg.ppd_name;
    let changed = current.reconcile_update(true, &None, &None, Some(declared));
    assert!(changed);
    assert_eq!(current.ppd_profile, PpdProfile::PowerSaver);
    assert!(!current.ppd_set);
}

#[test]
fn mains_power_selects_the_ac_default() {
    let cfg = config();
    assert_eq!(cfg.default.as_ref().unwrap().select(false), "a.json");
}

#[test]
fn steady_state_passes_report_no_change() {
    let mut current = CurrentProfile::new();
    let changed = current.reconcile_update(false, &None, &None, Some(PpdProfile::PowerSaver));
    assert!(!changed);
    assert_eq!(current.ppd_profile, PpdProfile::Balanced);
}

#[test]
fn an_override_change_is_reported_and_recorded() {
    let mut current = CurrentProfile::new();
    current.apply_manual(ProfileInfo {
        cfg: bare_config(PpdProfile::Performance, "u1"),
        path: "manual.json".to_string(),
    });
    current.ppd_profile = PpdProfile::Balanced;
    let changed = current.reconcile_update(false, &None, &None, Some(PpdProfile::Performance));
    assert!(changed);
    assert_eq!(current.ppd_profile, PpdProfile::Performance);
    assert!(!current.ppd_set);
}

#[test]
fn profile_paths_resolve_under_the_profile_directory() {
    assert_eq!(
        join_profile_path(&"/etc/powerd".to_string(), &"perf.json".to_string()),
        "/etc/powerd/perf.json"
    );
}

#[test]
fn named_profiles_map_to_their_configured_files() {
    let cfg = config();
    assert_eq!(PpdProfile::PowerSaver.into_powerd(&cfg.ppd), "saver.json");
    assert_eq!(PpdProfile::Balanced.into_powerd(&cfg.ppd), "balanced.json");
    assert_eq!(PpdProfile::Performance.into_powerd(&cfg.ppd), "perf.json");
}

#[test]
fn set_profile_from_hold_installs_held_and_keeps_quiet_on_invalidation() {
    let ppd = PowerProfilesDaemon::new();
    let mut current = CurrentProfile::new();
    let state = ProfileInfo {
        cfg: bare_config(PpdProfile::PowerSaver, "u1"),
        path: "saver.json".to_string(),
    };
    let msg = ppd.set_profile(&mut current, state, PpdProfile::PowerSaver, true, true);
    assert!(current.held.is_some());
    assert!(current.ppd_set);
    assert_eq!(current.ppd_profile, PpdProfile::PowerSaver);
    assert_eq!(
        msg,
        PpdMessage::ProfileChanged {
            profile: PpdProfile::PowerSaver,
            external: true,
            invalidate_holds: false,
        }
    );
}

#[test]
fn explicit_profile_set_installs_manual_and_invalidates() {
    let ppd = PowerProfilesDaemon::new();
    let mut current = CurrentProfile::new();
    let state = ProfileInfo {
        cfg: bare_config(PpdProfile::Performance, "u1"),
        path: "perf.json".to_string(),
    };
    let msg = ppd.set_profile(&mut current, state, PpdProfile::Performance, false, false);
    assert!(current.manual.is_some());
    assert!(current.held.is_none());
    assert!(!current.ppd_set);
    assert_eq!(
        msg,
        PpdMessage::ProfileChanged {
            profile: PpdProfile::Performance,
            external: false,
            invalidate_holds: true,
        }
    );
    assert_eq!(ppd.get_profile(&current), PpdProfile::Performance);
}

#[test]
fn override_comparison_sees_through_allocation() {
    let a = Some(ProfileInfo {
        cfg: bare_config(PpdProfile::Performance, "u1"),
        path: "p.json".to_string(),
    });
    let b = Some(ProfileInfo {
        cfg: bare_config(PpdProfile::Performance, "u1"),
        path: "p.json".to_string(),
    });
    let c = Some(ProfileInfo {
        cfg: bare_config(PpdProfile::Performance, "u1"),
        path: "q.json".to_string(),
    });
    assert!(opt_profile_info_eq(&a, &b));
    assert!(!opt_profile_info_eq(&a, &c));
    assert!(!opt_profile_info_eq(&a, &None));
    assert!(opt_profile_info_eq(&None, &None));
}
