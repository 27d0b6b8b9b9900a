use powerd::daemon::CurrentProfile;
use powerd::ppd::{
    PowerProfilesDaemon, PpdError, PpdMessage, PpdProfile, ProfileHold, all_profiles,
    resolve_lease_target, service_name, service_path, service_version,
};

fn hold(cookie: u32, profile: PpdProfile, sender: &str) -> ProfileHold {
    ProfileHold {
        cookie,
        profile,
        reason: "testing".to_string(),
        application_id: "org.example.app".to_string(),
        sender: sender.to_string(),
    }
}

#[test]
fn power_saver_dominates_performance() {
    let holds = vec![
        hold(0, PpdProfile::Performance, ":1.1"),
        hold(1, PpdProfile::PowerSaver, ":1.2"),
        hold(2, PpdProfile::Performance, ":1.3"),
    ];
    assert_eq!(resolve_lease_target(&holds), Some(PpdProfile::PowerSaver));
}

#[test]
fn performance_without_power_saver() {
    let holds = vec![
        hold(0, PpdProfile::Performance, ":1.1"),
        hold(1, PpdProfile::Performance, ":1.2"),
    ];
    assert_eq!(resolve_lease_target(&holds), Some(PpdProfile::Performance));
}

#[test]
fn empty_lease_set_has_no_target() {
    let holds: Vec<ProfileHold> = Vec::new();
    assert_eq!(resolve_lease_target(&holds), None);
}

#[test]
fn hold_balanced_fails_and_mutates_nothing() {
    let mut ppd = PowerProfilesDaemon::new();
    let r = ppd.hold_profile(
        PpdProfile::Balanced,
        "reason".to_string(),
        "app".to_string(),
        ":1.5".to_string(),
    );
    assert_eq!(r, Err(PpdError::BalancedNotAllowed));
    assert_eq!(ppd.holds.len(), 0);
    assert_eq!(ppd.next_cookie, 0);
}

#[test]
fn hold_allocates_increasing_cookies() {
    let mut ppd = PowerProfilesDaemon::new();
    let c0 = ppd
        .hold_profile(
            PpdProfile::Performance,
            "r".to_string(),
            "a".to_string(),
            ":1.1".to_string(),
        )
        .unwrap();
    let c1 = ppd
        .hold_profile(
            PpdProfile::PowerSaver,
            "r".to_string(),
            "a".to_string(),
            ":1.2".to_string(),
        )
        .unwrap();
    assert_eq!(c0, 0);
    assert_eq!(c1, 1);
    assert_eq!(ppd.holds.len(), 2);
}

#[test]
fn release_unknown_cookie_is_noop() {
    let mut ppd = PowerProfilesDaemon::new();
    ppd.hold_profile(
        PpdProfile::Performance,
        "r".to_string(),
        "a".to_string(),
        ":1.1".to_string(),
    )
    .unwrap();
    let target_before = resolve_lease_target(&ppd.holds);
    ppd.release_profile(999);
    assert_eq!(ppd.holds.len(), 1);
    assert_eq!(resolve_lease_target(&ppd.holds), target_before);
}

#[test]
fn second_power_saver_lease_wins_and_release_reverts() {
    let mut ppd = PowerProfilesDaemon::new();
    let _perf = ppd
        .hold_profile(
            PpdProfile::Performance,
            "gaming".to_string(),
            "app1".to_string(),
            ":1.1".to_string(),
        )
        .unwrap();
    assert_eq!(resolve_lease_target(&ppd.holds), Some(PpdProfile::Performance));
    let saver = ppd
        .hold_profile(
            PpdProfile::PowerSaver,
            "low battery".to_string(),
            "app2".to_string(),
            ":1.2".to_string(),
        )
        .unwrap();
    assert_eq!(resolve_lease_target(&ppd.holds), Some(PpdProfile::PowerSaver));
    ppd.release_profile(saver);
    assert_eq!(resolve_lease_target(&ppd.holds), Some(PpdProfile::Performance));
}

#[test]
fn disconnect_releases_exactly_the_owned_lease() {
    let mut ppd = PowerProfilesDaemon::new();
    let kept = ppd
        .hold_profile(
            PpdProfile::Performance,
            "r".to_string(),
            "a".to_string(),
            ":1.1".to_string(),
        )
        .unwrap();
    let gone = ppd
        .hold_profile(
            PpdProfile::PowerSaver,
            "r".to_string(),
            "a".to_string(),
            ":1.2".to_string(),
        )
        .unwrap();
    let released = ppd.release_for_sender(&":1.2".to_string());
    assert_eq!(released, Some(gone));
    assert_eq!(ppd.holds.len(), 1);
    assert_eq!(ppd.holds[0].cookie, kept);
    assert_eq!(resolve_lease_target(&ppd.holds), Some(PpdProfile::Performance));
}

#[test]
fn disconnect_releases_the_first_lease_of_that_owner() {
    let mut ppd = PowerProfilesDaemon::new();
    let first = ppd
        .hold_profile(
            PpdProfile::Performance,
            "r".to_string(),
            "a".to_string(),
            ":1.4".to_string(),
        )
        .unwrap();
    let second = ppd
        .hold_profile(
            PpdProfile::PowerSaver,
            "r".to_string(),
            "a".to_string(),
            ":1.4".to_string(),
        )
        .unwrap();
    let released = ppd.release_for_sender(&":1.4".to_string());
    assert_eq!(released, Some(first));
    assert_eq!(ppd.holds.len(), 1);
    assert_eq!(ppd.holds[0].cookie, second);
}

#[test]
fn disconnect_of_unknown_sender_is_noop() {
    let mut ppd = PowerProfilesDaemon::new();
    ppd.hold_profile(
        PpdProfile::Performance,
        "r".to_string(),
        "a".to_string(),
        ":1.1".to_string(),
    )
    .unwrap();
    let released = ppd.release_for_sender(&":9.9".to_string());
    assert_eq!(released, None);
    assert_eq!(ppd.holds.len(), 1);
}

#[test]
fn calculate_holds_with_no_leases_clears_held() {
    let ppd = PowerProfilesDaemon::new();
    let mut current = CurrentProfile::new();
    current.install_snapshot(
        powerd::daemon::ProfileInfo {
            cfg: empty_config(PpdProfile::Performance),
            path: "p.json".to_string(),
        },
        true,
    );
    assert!(current.held.is_some());
    let target = ppd.calculate_holds(&mut current);
    assert_eq!(target, None);
    assert!(current.held.is_none());
}

#[test]
fn invalidate_holds_reports_every_owner() {
    let mut ppd = PowerProfilesDaemon::new();
    let c0 = ppd
        .hold_profile(
            PpdProfile::Performance,
            "r".to_string(),
            "a".to_string(),
            ":1.1".to_string(),
        )
        .unwrap();
    let c1 = ppd
        .hold_profile(
            PpdProfile::PowerSaver,
            "r".to_string(),
            "a".to_string(),
            ":1.2".to_string(),
        )
        .unwrap();
    let released = ppd.invalidate_holds();
    assert_eq!(released, vec![(c0, ":1.1".to_string()), (c1, ":1.2".to_string())]);
    assert_eq!(ppd.holds.len(), 0);
}

#[test]
fn external_invalidating_message_drops_leases_and_notifies() {
    let mut ppd = PowerProfilesDaemon::new();
    let c0 = ppd
        .hold_profile(
            PpdProfile::Performance,
            "r".to_string(),
            "a".to_string(),
            ":1.1".to_string(),
        )
        .unwrap();
    let msg = PpdMessage::ProfileChanged {
        profile: PpdProfile::PowerSaver,
        external: true,
        invalidate_holds: true,
    };
    let (changed, released) = ppd.handle_message(msg);
    assert_eq!(changed, Some(PpdProfile::PowerSaver));
    assert_eq!(released, vec![(c0, ":1.1".to_string())]);
    assert_eq!(ppd.holds.len(), 0);
}

#[test]
fn internal_message_is_quiet_and_keeps_leases() {
    let mut ppd = PowerProfilesDaemon::new();
    ppd.hold_profile(
        PpdProfile::Performance,
        "r".to_string(),
        "a".to_string(),
        ":1.1".to_string(),
    )
    .unwrap();
    let msg = PpdMessage::ProfileChanged {
        profile: PpdProfile::Performance,
        external: false,
        invalidate_holds: false,
    };
    let (changed, released) = ppd.handle_message(msg);
    assert_eq!(changed, None);
    assert_eq!(released.len(), 0);
    assert_eq!(ppd.holds.len(), 1);
}

#[test]
fn profile_names_round_trip() {
    for p in all_profiles() {
        assert_eq!(PpdProfile::from_name(&p.name()), Some(p));
    }
    assert_eq!(PpdProfile::PowerSaver.name(), "power-saver");
    assert_eq!(PpdProfile::Balanced.name(), "balanced");
    assert_eq!(PpdProfile::Performance.name(), "performance");
    assert_eq!(PpdProfile::from_name(&"turbo".to_string()), None);
}

#[test]
fn profile_description_lists_drivers() {
    let pairs = PpdProfile::Performance.ser();
    assert_eq!(pairs[0], ("Profile".to_string(), "performance".to_string()));
    assert_eq!(pairs[1], ("PlatformDriver".to_string(), "powerd".to_string()));
    assert_eq!(pairs[2], ("Driver".to_string(), "powerd".to_string()));
}

#[test]
fn active_holds_describe_each_lease() {
    let mut ppd = PowerProfilesDaemon::new();
    ppd.hold_profile(
        PpdProfile::PowerSaver,
        "screen dim".to_string(),
        "org.example.shell".to_string(),
        ":1.7".to_string(),
    )
    .unwrap();
    let holds = ppd.active_profile_holds();
    assert_eq!(holds.len(), 1);
    assert_eq!(
        holds[0],
        vec![
            ("ApplicationId".to_string(), "org.example.shell".to_string()),
            ("Profile".to_string(), "power-saver".to_string()),
            ("Reason".to_string(), "screen dim".to_string()),
        ]
    );
}

#[test]
fn service_identity_is_fixed() {
    assert_eq!(service_name(), "org.freedesktop.UPower.PowerProfiles");
    assert_eq!(service_path(), "/org/freedesktop/UPower/PowerProfiles");
    assert_eq!(service_version(), "0.30.0");
    let profiles = all_profiles();
    assert_eq!(
        profiles,
        vec![PpdProfile::PowerSaver, PpdProfile::Balanced, PpdProfile::Performance]
    );
}

#[test]
fn balanced_error_message() {
    assert_eq!(
        PpdError::BalancedNotAllowed.message(),
        "balanced profile not allowed to be held"
    );
}

fn empty_config(ppd_name: PpdProfile) -> powerd::sensors::SensorConfig {
    powerd::sensors::SensorConfig {
        rapl: Vec::new(),
        dptf: powerd::sensors::intel_dptf::DptfConfig {
            tcc_offset: 0,
            uuid: String::new(),
        },
        pstate: powerd::sensors::intel_pstate::PstateConfig {
            cpus: Vec::new(),
            turbo: true,
        },
        gpus: Vec::new(),
        cooling: powerd::sensors::cooling_profile::CoolingProfileConfig(String::new()),
        ppd_name,
    }
}
