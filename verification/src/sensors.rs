//! The in-memory model of the hardware power state: one snapshot type per
//! domain, a patch (configuration) type per domain, and the patch-merge
//! logic that a profile file drives. Patches are applied domain by domain
//! and abort on the first unknown id or name, without rolling back domains
//! already patched.
pub mod cooling_profile;
pub mod intel_dptf;
pub mod intel_gpu;
pub mod intel_pstate;
pub mod intel_rapl;
pub mod throttle;

use vstd::prelude::*;

use crate::ppd::PpdProfile;
use crate::sensors::cooling_profile::{
    CoolingProfileConfig, CoolingProfileInfo, cooling_config_eq, cooling_config_eqv,
};
use crate::sensors::intel_dptf::{DptfConfig, DptfInfo, dptf_config_eq, dptf_config_eqv};
use crate::sensors::intel_gpu::{
    GpuConfig, GpuInfo, apply_gpu_configs, gpu_configs_eq, gpu_list_apply_from,
    lemma_gpu_list_apply_idempotent,
};
use crate::sensors::intel_pstate::{
    PstateConfig, PstateInfo, PstateModel, cpu_config_matches, lemma_pstate_apply_idempotent,
    pstate_apply_spec, pstate_config_eq, pstate_config_eqv, pstate_view,
};
use crate::sensors::intel_rapl::{
    RaplZoneConfig, RaplZoneInfo, RaplZoneModel, apply_zone_configs,
    lemma_zone_list_apply_idempotent, lemma_zones_view_props, zone_cfgs_distinct,
    zone_config_matches, zone_configs_eq, zone_configs_eqv, zone_list_apply_from, zones_view,
};

verus! {

/// A failure while merging a patch into a snapshot: the patch addressed a
/// domain element that the snapshot does not have.
#[derive(Clone, Debug, PartialEq, Eq)]
pub enum SensorError {
    ConstraintNotFound { id: usize },
    ZoneNotFound { name: String },
    CpuNotFound { id: usize },
    GpuNotFound { id: usize },
}

/// The full hardware state: every domain's snapshot, read together and
/// written together.
#[derive(Debug, PartialEq, Eq)]
pub struct SensorInfo {
    pub rapl: Vec<RaplZoneInfo>,
    pub dptf: DptfInfo,
    pub pstate: PstateInfo,
    pub gpus: Vec<GpuInfo>,
    pub cooling: CoolingProfileInfo,
}

/// A whole profile: one patch per domain, plus the named profile the
/// file declares itself to be for the power-profiles bus service.
#[derive(Clone, Debug, PartialEq, Eq)]
pub struct SensorConfig {
    pub rapl: Vec<RaplZoneConfig>,
    pub dptf: DptfConfig,
    pub pstate: PstateConfig,
    pub gpus: Vec<GpuConfig>,
    pub cooling: CoolingProfileConfig,
    pub ppd_name: PpdProfile,
}

/// The mathematical shape of the full hardware state.
pub ghost struct SensorModel {
    pub rapl: Seq<RaplZoneModel>,
    pub dptf: DptfInfo,
    pub pstate: PstateModel,
    pub gpus: Seq<GpuInfo>,
    pub cooling: CoolingProfileInfo,
}

/// The model of the full hardware state.
pub open spec fn sensor_view(s: SensorInfo) -> SensorModel {
    SensorModel {
        rapl: zones_view(s.rapl@),
        dptf: s.dptf,
        pstate: pstate_view(s.pstate),
        gpus: s.gpus@,
        cooling: s.cooling,
    }
}

/// The full state and outcome after one profile: power-capping zones,
/// then the thermal framework, the CPU package, the GPUs and the cooling
/// profile, in that order, stopping at the first failure without rolling
/// back the domains already patched.
pub open spec fn sensor_apply_spec(cfg: SensorConfig, m: SensorModel) -> (SensorModel, Option<
    SensorError,
>) {
    let (rapl1, e1) = zone_list_apply_from(cfg.rapl@, 0, m.rapl);
    if e1 is Some {
        (
            SensorModel {
                rapl: rapl1,
                dptf: m.dptf,
                pstate: m.pstate,
                gpus: m.gpus,
                cooling: m.cooling,
            },
            e1,
        )
    } else {
        let dptf1 = cfg.dptf.apply_spec(m.dptf);
        let (ps1, e2) = pstate_apply_spec(cfg.pstate, m.pstate);
        if e2 is Some {
            (
                SensorModel {
                    rapl: rapl1,
                    dptf: dptf1,
                    pstate: ps1,
                    gpus: m.gpus,
                    cooling: m.cooling,
                },
                e2,
            )
        } else {
            let (gpus1, e3) = gpu_list_apply_from(cfg.gpus@, 0, m.gpus);
            if e3 is Some {
                (
                    SensorModel {
                        rapl: rapl1,
                        dptf: dptf1,
                        pstate: ps1,
                        gpus: gpus1,
                        cooling: m.cooling,
                    },
                    e3,
                )
            } else {
                (
                    SensorModel {
                        rapl: rapl1,
                        dptf: dptf1,
                        pstate: ps1,
                        gpus: gpus1,
                        cooling: cfg.cooling.apply_spec(m.cooling),
                    },
                    None,
                )
            }
        }
    }
}

impl SensorConfig {
    /// Merges the whole profile into the hardware snapshot, domain by
    /// domain, aborting on the first failure without rolling back.
    pub fn apply(&self, info: &mut SensorInfo) -> (r: Result<(), SensorError>)
        ensures
            sensor_view(*final(info)) == sensor_apply_spec(*self, sensor_view(*old(info))).0,
            match r {
                Ok(()) => sensor_apply_spec(*self, sensor_view(*old(info))).1 is None,
                Err(e) => sensor_apply_spec(*self, sensor_view(*old(info))).1 == Some(e),
            },
    {
        match apply_zone_configs(&self.rapl, 0, &mut info.rapl) {
            Err(e) => {
                return Err(e);
            },
            Ok(()) => {},
        }
        match self.dptf.apply(&mut info.dptf) {
            Err(e) => {
                return Err(e);
            },
            Ok(()) => {},
        }
        match self.pstate.apply(&mut info.pstate) {
            Err(e) => {
                return Err(e);
            },
            Ok(()) => {},
        }
        match apply_gpu_configs(&self.gpus, 0, &mut info.gpus) {
            Err(e) => {
                return Err(e);
            },
            Ok(()) => {},
        }
        match self.cooling.apply(&mut info.cooling) {
            Err(e) => {
                return Err(e);
            },
            Ok(()) => {},
        }
        Ok(())
    }
}

impl SensorInfo {
    /// The whole profile that reproduces this snapshot, declared for the
    /// Balanced named profile.
    pub fn to_config(&self) -> (r: SensorConfig)
        ensures
            r.rapl@.len() == sensor_view(*self).rapl.len(),
            forall|i: int|
                0 <= i < r.rapl@.len() ==> zone_config_matches(
                    #[trigger] r.rapl@[i],
                    sensor_view(*self).rapl[i],
                ),
            r.dptf == (DptfConfig { tcc_offset: self.dptf.tcc_offset, uuid: self.dptf.uuid }),
            r.pstate.turbo == self.pstate.turbo,
            r.pstate.cpus@.len() == self.pstate.cpus@.len(),
            forall|i: int|
                0 <= i < self.pstate.cpus@.len() ==> cpu_config_matches(
                    #[trigger] r.pstate.cpus@[i],
                    self.pstate.cpus@[i],
                ),
            r.gpus@.len() == self.gpus@.len(),
            forall|i: int|
                0 <= i < self.gpus@.len() ==> #[trigger] r.gpus@[i] == (GpuConfig {
                    id: self.gpus@[i].id,
                    min_freq: self.gpus@[i].min_freq,
                    max_freq: self.gpus@[i].max_freq,
                }),
            r.cooling == CoolingProfileConfig(self.cooling.0),
            r.ppd_name == PpdProfile::Balanced,
    {
        proof {
            lemma_zones_view_props(self.rapl@);
        }
        let mut rapl: Vec<RaplZoneConfig> = Vec::new();
        let mut i: usize = 0;
        while i < self.rapl.len()
            invariant
                0 <= i <= self.rapl@.len(),
                rapl@.len() == i,
                zones_view(self.rapl@).len() == self.rapl@.len(),
                forall|m: int|
                    0 <= m < self.rapl@.len() ==> zones_view(self.rapl@)[m]
                        == crate::sensors::intel_rapl::zone_view(#[trigger] self.rapl@[m]),
                forall|k: int|
                    0 <= k < i ==> zone_config_matches(
                        #[trigger] rapl@[k],
                        zones_view(self.rapl@)[k],
                    ),
            decreases self.rapl@.len() - i,
        {
            rapl.push(self.rapl[i].to_config());
            i += 1;
        }
        let mut gpus: Vec<GpuConfig> = Vec::new();
        let mut k: usize = 0;
        while k < self.gpus.len()
            invariant
                0 <= k <= self.gpus@.len(),
                gpus@.len() == k,
                forall|m: int|
                    0 <= m < k ==> #[trigger] gpus@[m] == (GpuConfig {
                        id: self.gpus@[m].id,
                        min_freq: self.gpus@[m].min_freq,
                        max_freq: self.gpus@[m].max_freq,
                    }),
            decreases self.gpus@.len() - k,
        {
            gpus.push(self.gpus[k].to_config());
            k += 1;
        }
        SensorConfig {
            rapl,
            dptf: self.dptf.to_config(),
            pstate: self.pstate.to_config(),
            gpus,
            cooling: self.cooling.to_config(),
            ppd_name: PpdProfile::Balanced,
        }
    }
}

/// Applying the same profile twice in succession yields the same
/// hardware state as applying it once, for any profile whose zone
/// patches never name one zone twice at one level.
pub proof fn lemma_sensor_apply_idempotent(cfg: SensorConfig, m: SensorModel)
    requires
        zone_cfgs_distinct(cfg.rapl@),
        sensor_apply_spec(cfg, m).1 is None,
    ensures
        sensor_apply_spec(cfg, sensor_apply_spec(cfg, m).0) == sensor_apply_spec(cfg, m),
{
    lemma_zone_list_apply_idempotent(cfg.rapl@, 0, m.rapl);
    lemma_pstate_apply_idempotent(cfg.pstate, m.pstate);
    lemma_gpu_list_apply_idempotent(cfg.gpus@, m.gpus);
}

/// Two whole profiles that say the same thing, domain by domain.
pub open spec fn sensor_config_eqv(a: SensorConfig, b: SensorConfig) -> bool {
    &&& zone_configs_eqv(a.rapl@, b.rapl@)
    &&& dptf_config_eqv(a.dptf, b.dptf)
    &&& pstate_config_eqv(a.pstate, b.pstate)
    &&& a.gpus@ == b.gpus@
    &&& cooling_config_eqv(a.cooling, b.cooling)
    &&& a.ppd_name == b.ppd_name
}

/// Decides whether two whole profiles say the same thing.
pub fn sensor_config_eq(a: &SensorConfig, b: &SensorConfig) -> (r: bool)
    ensures
        r == sensor_config_eqv(*a, *b),
{
    zone_configs_eq(&a.rapl, &b.rapl) && dptf_config_eq(&a.dptf, &b.dptf) && pstate_config_eq(
        &a.pstate,
        &b.pstate,
    ) && gpu_configs_eq(&a.gpus, &b.gpus) && cooling_config_eq(&a.cooling, &b.cooling)
        && a.ppd_name == b.ppd_name
}

} // verus!
