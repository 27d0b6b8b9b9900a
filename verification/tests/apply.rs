use powerd::ppd::PpdProfile;
use powerd::sensors::cooling_profile::{CoolingProfileConfig, CoolingProfileInfo};
use powerd::sensors::intel_dptf::{DptfConfig, DptfInfo};
use powerd::sensors::intel_gpu::{GpuConfig, GpuInfo};
use powerd::sensors::intel_pstate::{PstateConfig, PstateCpuConfig, PstateCpuInfo, PstateInfo};
use powerd::sensors::intel_rapl::{
    RaplConstraintConfig, RaplConstraintInfo, RaplZoneConfig, RaplZoneInfo,
};
use powerd::sensors::{SensorConfig, SensorError, SensorInfo};

fn constraint(id: usize, name: &str, power_limit: u64, time_window: Option<u64>) -> RaplConstraintInfo {
    RaplConstraintInfo {
        id,
        name: name.to_string(),
        power_limit,
        time_window,
    }
}

fn cpu(id: usize) -> PstateCpuInfo {
    PstateCpuInfo {
        id,
        hw_max_freq: 4_800_000,
        hw_min_freq: 400_000,
        hw_base_freq: 2_100_000,
        hw_current_freq: 1_200_000,
        governor: "powersave".to_string(),
        epp: "balance_performance".to_string(),
        epb: 6,
        max_freq: 4_800_000,
        min_freq: 400_000,
        ctdp: 0,
        bdprochot: true,
    }
}

fn gpu(id: usize) -> GpuInfo {
    GpuInfo {
        id,
        hw_min_freq: 100,
        hw_max_freq: 1300,
        hw_eff_freq: 700,
        hw_cur_freq: 350,
        min_freq: 100,
        max_freq: 1300,
    }
}

fn snapshot() -> SensorInfo {
    SensorInfo {
        rapl: vec![RaplZoneInfo {
            path: "intel-rapl:0".to_string(),
            name: "package-0".to_string(),
            constraints: vec![
                constraint(0, "long_term", 28_000_000, Some(27_983_872)),
                constraint(1, "short_term", 64_000_000, None),
            ],
            subzones: vec![RaplZoneInfo {
                path: "intel-rapl:0:0".to_string(),
                name: "core".to_string(),
                constraints: vec![constraint(0, "long_term", 0, None)],
                subzones: Vec::new(),
            }],
        }],
        dptf: DptfInfo {
            intxx_path: "INT3400:00".to_string(),
            uuid: "device-default".to_string(),
            uuids: vec!["device-default".to_string(), "performance".to_string()],
            tcc_offset: 5,
        },
        pstate: PstateInfo {
            cpus: vec![cpu(0), cpu(1)],
            turbo: true,
        },
        gpus: vec![gpu(0)],
        cooling: CoolingProfileInfo("balanced".to_string()),
    }
}

fn profile() -> SensorConfig {
    SensorConfig {
        rapl: vec![RaplZoneConfig {
            name: "package-0".to_string(),
            constraints: vec![RaplConstraintConfig {
                id: 0,
                power_limit: Some(15_000_000),
                time_window: None,
            }],
            subzones: vec![RaplZoneConfig {
                name: "core".to_string(),
                constraints: vec![RaplConstraintConfig {
                    id: 0,
                    power_limit: Some(12_000_000),
                    time_window: Some(1_000_000),
                }],
                subzones: Vec::new(),
            }],
        }],
        dptf: DptfConfig {
            tcc_offset: 10,
            uuid: "performance".to_string(),
        },
        pstate: PstateConfig {
            cpus: vec![PstateCpuConfig {
                ids: vec![0, 1],
                governor: "performance".to_string(),
                epp: "performance".to_string(),
                epb: 0,
                max_freq: 4_800_000,
                min_freq: 1_000_000,
                ctdp: 0,
                bdprochot: false,
            }],
            turbo: true,
        },
        gpus: vec![GpuConfig {
            id: 0,
            min_freq: 300,
            max_freq: 1100,
        }],
        cooling: CoolingProfileConfig("performance".to_string()),
        ppd_name: PpdProfile::Performance,
    }
}

#[test]
fn apply_patches_every_domain() {
    let mut info = snapshot();
    let cfg = profile();
    assert_eq!(cfg.apply(&mut info), Ok(()));
    assert_eq!(info.rapl[0].constraints[0].power_limit, 15_000_000);
    // a field the patch leaves absent keeps its value
    assert_eq!(info.rapl[0].constraints[0].time_window, Some(27_983_872));
    assert_eq!(info.rapl[0].constraints[1].power_limit, 64_000_000);
    assert_eq!(info.rapl[0].subzones[0].constraints[0].power_limit, 12_000_000);
    assert_eq!(info.rapl[0].subzones[0].constraints[0].time_window, Some(1_000_000));
    assert_eq!(info.dptf.tcc_offset, 10);
    assert_eq!(info.dptf.uuid, "performance");
    assert_eq!(info.pstate.cpus[0].governor, "performance");
    assert_eq!(info.pstate.cpus[1].min_freq, 1_000_000);
    // hardware-reported fields are untouched
    assert_eq!(info.pstate.cpus[0].hw_base_freq, 2_100_000);
    assert_eq!(info.gpus[0].min_freq, 300);
    assert_eq!(info.gpus[0].max_freq, 1100);
    assert_eq!(info.gpus[0].hw_cur_freq, 350);
    assert_eq!(info.cooling.0, "performance");
}

#[test]
fn apply_twice_equals_apply_once() {
    let cfg = profile();
    let mut once = snapshot();
    assert_eq!(cfg.apply(&mut once), Ok(()));
    let mut twice = snapshot();
    assert_eq!(cfg.apply(&mut twice), Ok(()));
    assert_eq!(cfg.apply(&mut twice), Ok(()));
    assert_eq!(once, twice);
}

#[test]
fn unknown_zone_name_fails() {
    let mut info = snapshot();
    let mut cfg = profile();
    cfg.rapl[0].name = "package-7".to_string();
    assert_eq!(
        cfg.apply(&mut info),
        Err(SensorError::ZoneNotFound {
            name: "package-7".to_string()
        })
    );
}

#[test]
fn unknown_constraint_id_fails_without_rollback() {
    let mut info = snapshot();
    let mut cfg = profile();
    cfg.rapl[0].constraints.push(RaplConstraintConfig {
        id: 9,
        power_limit: Some(1),
        time_window: None,
    });
    let r = cfg.apply(&mut info);
    assert_eq!(r, Err(SensorError::ConstraintNotFound { id: 9 }));
    // the subzone patched before the failing constraint stays patched
    assert_eq!(info.rapl[0].subzones[0].constraints[0].power_limit, 12_000_000);
    // and the constraint patched before it stays patched too
    assert_eq!(info.rapl[0].constraints[0].power_limit, 15_000_000);
    // domains after the failing one are untouched
    assert_eq!(info.dptf.tcc_offset, 5);
    assert_eq!(info.cooling.0, "balanced");
}

#[test]
fn unknown_cpu_id_fails() {
    let mut info = snapshot();
    let mut cfg = profile();
    cfg.pstate.cpus[0].ids = vec![0, 5];
    assert_eq!(cfg.apply(&mut info), Err(SensorError::CpuNotFound { id: 5 }));
    // the core patched before the unknown one keeps the patch
    assert_eq!(info.pstate.cpus[0].governor, "performance");
    assert_eq!(info.pstate.cpus[1].governor, "powersave");
}

#[test]
fn unknown_gpu_id_fails() {
    let mut info = snapshot();
    let mut cfg = profile();
    cfg.gpus[0].id = 3;
    assert_eq!(cfg.apply(&mut info), Err(SensorError::GpuNotFound { id: 3 }));
    assert_eq!(info.gpus[0].min_freq, 100);
}

#[test]
fn turbo_is_left_alone_when_a_core_patch_fails() {
    let mut info = snapshot();
    let mut cfg = profile();
    cfg.pstate.turbo = false;
    cfg.pstate.cpus[0].ids = vec![9];
    assert_eq!(cfg.apply(&mut info), Err(SensorError::CpuNotFound { id: 9 }));
    assert!(info.pstate.turbo);
}

#[test]
fn snapshot_to_config_reproduces_values() {
    let info = snapshot();
    let cfg = info.to_config();
    assert_eq!(cfg.rapl.len(), 1);
    assert_eq!(cfg.rapl[0].name, "package-0");
    assert_eq!(cfg.rapl[0].constraints[0].power_limit, Some(28_000_000));
    assert_eq!(cfg.rapl[0].constraints[0].time_window, Some(27_983_872));
    assert_eq!(cfg.rapl[0].subzones[0].name, "core");
    assert_eq!(cfg.dptf.tcc_offset, 5);
    assert_eq!(cfg.dptf.uuid, "device-default");
    assert_eq!(cfg.pstate.cpus.len(), 2);
    assert_eq!(cfg.pstate.cpus[0].ids, vec![0]);
    assert_eq!(cfg.pstate.cpus[1].ids, vec![1]);
    assert!(cfg.pstate.turbo);
    assert_eq!(
        cfg.gpus,
        vec![GpuConfig {
            id: 0,
            min_freq: 100,
            max_freq: 1300
        }]
    );
    assert_eq!(cfg.cooling, CoolingProfileConfig("balanced".to_string()));
    assert_eq!(cfg.ppd_name, PpdProfile::Balanced);
}

#[test]
fn a_snapshot_reapplied_from_its_own_config_is_unchanged() {
    let info = snapshot();
    let mut cfg = info.to_config();
    cfg.cooling = CoolingProfileConfig("balanced".to_string());
    let mut redo = snapshot();
    assert_eq!(cfg.apply(&mut redo), Ok(()));
    assert_eq!(redo, snapshot());
}
