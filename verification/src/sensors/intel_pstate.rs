//! CPU frequency-scaling state: per-core governor, energy preferences,
//! frequency bounds and model-specific register fields, plus the global
//! turbo switch.
use vstd::prelude::*;
use vstd::pervasive::VecAdditionalExecFns;

use crate::sensors::SensorError;

verus! {

/// One core's frequency-scaling state, addressed by core index.
#[derive(Clone, Debug, PartialEq, Eq)]
pub struct PstateCpuInfo {
    pub id: usize,
    pub hw_max_freq: u64,
    pub hw_min_freq: u64,
    pub hw_base_freq: u64,
    pub hw_current_freq: u64,
    pub governor: String,
    pub epp: String,
    pub epb: u64,
    pub max_freq: u64,
    pub min_freq: u64,
    pub ctdp: u64,
    pub bdprochot: bool,
}

/// The frequency-scaling state of the whole CPU package.
#[derive(Clone, Debug, PartialEq, Eq)]
pub struct PstateInfo {
    pub cpus: Vec<PstateCpuInfo>,
    pub turbo: bool,
}

/// A patch that sets the scaling fields of every core it lists.
#[derive(Clone, Debug, PartialEq, Eq)]
pub struct PstateCpuConfig {
    pub ids: Vec<usize>,
    pub governor: String,
    pub epp: String,
    pub epb: u64,
    pub max_freq: u64,
    pub min_freq: u64,
    pub ctdp: u64,
    pub bdprochot: bool,
}

/// A patch for the whole package: per-core patches plus the turbo switch.
#[derive(Clone, Debug, PartialEq, Eq)]
pub struct PstateConfig {
    pub cpus: Vec<PstateCpuConfig>,
    pub turbo: bool,
}

/// The mathematical shape of the package state.
pub ghost struct PstateModel {
    pub cpus: Seq<PstateCpuInfo>,
    pub turbo: bool,
}

/// The model of the package state.
pub open spec fn pstate_view(p: PstateInfo) -> PstateModel {
    PstateModel { cpus: p.cpus@, turbo: p.turbo }
}

/// The first index at or after `i` whose core has index `id`.
pub open spec fn find_cpu_from(v: Seq<PstateCpuInfo>, id: usize, i: int) -> Option<int>
    decreases v.len() - i,
{
    if i < 0 || i >= v.len() {
        None
    } else if v[i].id == id {
        Some(i)
    } else {
        find_cpu_from(v, id, i + 1)
    }
}

/// The first index whose core has index `id`.
pub open spec fn find_cpu(v: Seq<PstateCpuInfo>, id: usize) -> Option<int> {
    find_cpu_from(v, id, 0)
}

/// One core after a patch: scaling fields replaced, identity and
/// hardware-reported fields untouched.
pub open spec fn cpu_patched(cfg: PstateCpuConfig, c: PstateCpuInfo) -> PstateCpuInfo {
    PstateCpuInfo {
        id: c.id,
        hw_max_freq: c.hw_max_freq,
        hw_min_freq: c.hw_min_freq,
        hw_base_freq: c.hw_base_freq,
        hw_current_freq: c.hw_current_freq,
        governor: cfg.governor,
        epp: cfg.epp,
        epb: cfg.epb,
        max_freq: cfg.max_freq,
        min_freq: cfg.min_freq,
        ctdp: cfg.ctdp,
        bdprochot: cfg.bdprochot,
    }
}

/// The core list and outcome after patching the single core `id`.
pub open spec fn cpu_id_apply_spec(cfg: PstateCpuConfig, id: usize, v: Seq<PstateCpuInfo>) -> (
    Seq<PstateCpuInfo>,
    Option<SensorError>,
) {
    match find_cpu(v, id) {
        None => (v, Some(SensorError::CpuNotFound { id })),
        Some(j) => (v.update(j, cpu_patched(cfg, v[j])), None),
    }
}

/// The core list and outcome after patching the cores that `cfg` lists,
/// from list position `i` on, stopping at the first unknown core.
pub open spec fn cpu_ids_apply_from(cfg: PstateCpuConfig, i: int, v: Seq<PstateCpuInfo>) -> (
    Seq<PstateCpuInfo>,
    Option<SensorError>,
)
    decreases cfg.ids@.len() - i,
{
    if i < 0 || i >= cfg.ids@.len() {
        (v, None)
    } else {
        let (v1, e1) = cpu_id_apply_spec(cfg, cfg.ids@[i], v);
        if e1 is Some {
            (v1, e1)
        } else {
            cpu_ids_apply_from(cfg, i + 1, v1)
        }
    }
}

/// The core list and outcome after one whole per-core patch.
pub open spec fn cpu_cfg_apply_spec(cfg: PstateCpuConfig, v: Seq<PstateCpuInfo>) -> (
    Seq<PstateCpuInfo>,
    Option<SensorError>,
) {
    cpu_ids_apply_from(cfg, 0, v)
}

/// The core list and outcome after the per-core patches from index `i`
/// on, in order, stopping at the first failure.
pub open spec fn cpu_list_apply_from(cfgs: Seq<PstateCpuConfig>, i: int, v: Seq<PstateCpuInfo>) -> (
    Seq<PstateCpuInfo>,
    Option<SensorError>,
)
    decreases cfgs.len() - i,
{
    if i < 0 || i >= cfgs.len() {
        (v, None)
    } else {
        let (v1, e1) = cpu_cfg_apply_spec(cfgs[i], v);
        if e1 is Some {
            (v1, e1)
        } else {
            cpu_list_apply_from(cfgs, i + 1, v1)
        }
    }
}

/// The package state and outcome after a whole package patch: every
/// per-core patch in order, then the turbo switch; a failure leaves the
/// turbo switch untouched.
pub open spec fn pstate_apply_spec(cfg: PstateConfig, m: PstateModel) -> (PstateModel, Option<
    SensorError,
>) {
    let (cpus1, e) = cpu_list_apply_from(cfg.cpus@, 0, m.cpus);
    if e is Some {
        (PstateModel { cpus: cpus1, turbo: m.turbo }, e)
    } else {
        (PstateModel { cpus: cpus1, turbo: cfg.turbo }, None)
    }
}

/// Finds the position of the core with index `id`.
fn find_cpu_index(v: &Vec<PstateCpuInfo>, id: usize) -> (r: Option<usize>)
    ensures
        match r {
            Some(j) => find_cpu(v@, id) == Some(j as int) && j < v@.len(),
            None => find_cpu(v@, id) is None,
        },
{
    let mut j: usize = 0;
    while j < v.len()
        invariant
            0 <= j <= v@.len(),
            find_cpu(v@, id) == find_cpu_from(v@, id, j as int),
        decreases v@.len() - j,
    {
        if v[j].id == id {
            return Some(j);
        }
        j += 1;
    }
    None
}

impl PstateCpuConfig {
    /// Patches the single core `id`.
    fn apply_one(&self, id: usize, cpus: &mut Vec<PstateCpuInfo>) -> (r: Result<(), SensorError>)
        ensures
            final(cpus)@ == cpu_id_apply_spec(*self, id, old(cpus)@).0,
            match r {
                Ok(()) => cpu_id_apply_spec(*self, id, old(cpus)@).1 is None,
                Err(e) => cpu_id_apply_spec(*self, id, old(cpus)@).1 == Some(e),
            },
    {
        match find_cpu_index(cpus, id) {
            None => Err(SensorError::CpuNotFound { id }),
            Some(j) => {
                let cur = &cpus[j];
                let patched = PstateCpuInfo {
                    id: cur.id,
                    hw_max_freq: cur.hw_max_freq,
                    hw_min_freq: cur.hw_min_freq,
                    hw_base_freq: cur.hw_base_freq,
                    hw_current_freq: cur.hw_current_freq,
                    governor: self.governor.clone(),
                    epp: self.epp.clone(),
                    epb: self.epb,
                    max_freq: self.max_freq,
                    min_freq: self.min_freq,
                    ctdp: self.ctdp,
                    bdprochot: self.bdprochot,
                };
                cpus.set(j, patched);
                Ok(())
            },
        }
    }

    /// Patches the listed cores from list position `i` on.
    fn apply_from(&self, i: usize, cpus: &mut Vec<PstateCpuInfo>) -> (r: Result<(), SensorError>)
        ensures
            final(cpus)@ == cpu_ids_apply_from(*self, i as int, old(cpus)@).0,
            match r {
                Ok(()) => cpu_ids_apply_from(*self, i as int, old(cpus)@).1 is None,
                Err(e) => cpu_ids_apply_from(*self, i as int, old(cpus)@).1 == Some(e),
            },
        decreases self.ids@.len() - i,
    {
        if i >= self.ids.len() {
            return Ok(());
        }
        let id = self.ids[i];
        match self.apply_one(id, cpus) {
            Err(e) => Err(e),
            Ok(()) => self.apply_from(i + 1, cpus),
        }
    }

    /// Merges the per-core patch into the core list: every listed core
    /// gets the patch's scaling fields; an unknown core index aborts the
    /// merge, leaving cores already patched in place.
    pub fn apply(&self, cpus: &mut Vec<PstateCpuInfo>) -> (r: Result<(), SensorError>)
        ensures
            final(cpus)@ == cpu_cfg_apply_spec(*self, old(cpus)@).0,
            match r {
                Ok(()) => cpu_cfg_apply_spec(*self, old(cpus)@).1 is None,
                Err(e) => cpu_cfg_apply_spec(*self, old(cpus)@).1 == Some(e),
            },
    {
        self.apply_from(0, cpus)
    }
}

/// Merges every per-core patch from index `i` on, stopping at the first
/// failure.
pub fn apply_cpu_configs(
    cfgs: &Vec<PstateCpuConfig>,
    i: usize,
    cpus: &mut Vec<PstateCpuInfo>,
) -> (r: Result<(), SensorError>)
    ensures
        final(cpus)@ == cpu_list_apply_from(cfgs@, i as int, old(cpus)@).0,
        match r {
            Ok(()) => cpu_list_apply_from(cfgs@, i as int, old(cpus)@).1 is None,
            Err(e) => cpu_list_apply_from(cfgs@, i as int, old(cpus)@).1 == Some(e),
        },
    decreases cfgs@.len() - i,
{
    if i >= cfgs.len() {
        return Ok(());
    }
    match cfgs[i].apply(cpus) {
        Err(e) => Err(e),
        Ok(()) => apply_cpu_configs(cfgs, i + 1, cpus),
    }
}

impl PstateConfig {
    /// Merges the package patch into the package state: per-core patches
    /// in order, then the turbo switch; a failure leaves the turbo switch
    /// untouched.
    pub fn apply(&self, info: &mut PstateInfo) -> (r: Result<(), SensorError>)
        ensures
            pstate_view(*final(info)) == pstate_apply_spec(*self, pstate_view(*old(info))).0,
            match r {
                Ok(()) => pstate_apply_spec(*self, pstate_view(*old(info))).1 is None,
                Err(e) => pstate_apply_spec(*self, pstate_view(*old(info))).1 == Some(e),
            },
    {
        match apply_cpu_configs(&self.cpus, 0, &mut info.cpus) {
            Err(e) => Err(e),
            Ok(()) => {
                info.turbo = self.turbo;
                Ok(())
            },
        }
    }
}

/// Decides whether two core-index lists are the same.
fn ids_eq(a: &Vec<usize>, b: &Vec<usize>) -> (r: bool)
    ensures
        r == (a@ == b@),
{
    if a.len() != b.len() {
        return false;
    }
    let mut j: usize = 0;
    while j < a.len()
        invariant
            0 <= j <= a@.len(),
            a@.len() == b@.len(),
            forall|k: int| 0 <= k < j ==> a@[k] == b@[k],
        decreases a@.len() - j,
    {
        if a[j] != b[j] {
            assert(a@[j as int] != b@[j as int]);
            return false;
        }
        j += 1;
    }
    proof {
        assert(a@ =~= b@);
    }
    true
}

/// Two per-core patches that say the same thing.
pub open spec fn cpu_config_eqv(a: PstateCpuConfig, b: PstateCpuConfig) -> bool {
    &&& a.ids@ == b.ids@
    &&& a.governor@ == b.governor@
    &&& a.epp@ == b.epp@
    &&& a.epb == b.epb
    &&& a.max_freq == b.max_freq
    &&& a.min_freq == b.min_freq
    &&& a.ctdp == b.ctdp
    &&& a.bdprochot == b.bdprochot
}

/// Decides whether two per-core patches say the same thing.
pub fn cpu_config_eq(a: &PstateCpuConfig, b: &PstateCpuConfig) -> (r: bool)
    ensures
        r == cpu_config_eqv(*a, *b),
{
    ids_eq(&a.ids, &b.ids) && a.governor == b.governor && a.epp == b.epp && a.epb == b.epb
        && a.max_freq == b.max_freq && a.min_freq == b.min_freq && a.ctdp == b.ctdp
        && a.bdprochot == b.bdprochot
}

/// Two package patches that say the same thing.
pub open spec fn pstate_config_eqv(a: PstateConfig, b: PstateConfig) -> bool {
    &&& a.cpus@.len() == b.cpus@.len()
    &&& forall|i: int| 0 <= i < a.cpus@.len() ==> cpu_config_eqv(#[trigger] a.cpus@[i], b.cpus@[i])
    &&& a.turbo == b.turbo
}

/// Decides whether two package patches say the same thing.
pub fn pstate_config_eq(a: &PstateConfig, b: &PstateConfig) -> (r: bool)
    ensures
        r == pstate_config_eqv(*a, *b),
{
    if a.turbo != b.turbo {
        return false;
    }
    if a.cpus.len() != b.cpus.len() {
        return false;
    }
    let mut j: usize = 0;
    while j < a.cpus.len()
        invariant
            0 <= j <= a.cpus@.len(),
            a.cpus@.len() == b.cpus@.len(),
            a.turbo == b.turbo,
            forall|k: int| 0 <= k < j ==> cpu_config_eqv(#[trigger] a.cpus@[k], b.cpus@[k]),
        decreases a.cpus@.len() - j,
    {
        if !cpu_config_eq(&a.cpus[j], &b.cpus[j]) {
            return false;
        }
        j += 1;
    }
    true
}

impl PstateCpuInfo {
    /// The patch that reproduces this core's scaling state, addressed to
    /// this core alone.
    pub fn to_config(&self) -> (r: PstateCpuConfig)
        ensures
            r.ids@ == seq![self.id],
            r.governor == self.governor,
            r.epp == self.epp,
            r.epb == self.epb,
            r.max_freq == self.max_freq,
            r.min_freq == self.min_freq,
            r.ctdp == self.ctdp,
            r.bdprochot == self.bdprochot,
    {
        let mut ids: Vec<usize> = Vec::new();
        ids.push(self.id);
        proof {
            assert(ids@ =~= seq![self.id]);
        }
        PstateCpuConfig {
            ids,
            governor: self.governor.clone(),
            epp: self.epp.clone(),
            epb: self.epb,
            max_freq: self.max_freq,
            min_freq: self.min_freq,
            ctdp: self.ctdp,
            bdprochot: self.bdprochot,
        }
    }
}

/// A successful search lands in bounds, on a core with the wanted index.
proof fn lemma_find_cpu_bounds(v: Seq<PstateCpuInfo>, id: usize, i: int)
    ensures
        match find_cpu_from(v, id, i) {
            Some(j) => i <= j < v.len() && v[j].id == id,
            None => true,
        },
    decreases v.len() - i,
{
    if i < 0 || i >= v.len() {
    } else if v[i].id == id {
    } else {
        lemma_find_cpu_bounds(v, id, i + 1);
    }
}

/// Two core lists with the same indices at every position agree on where
/// a given core index is first found.
proof fn lemma_find_cpu_same_ids(v: Seq<PstateCpuInfo>, id: usize, i: int, w: Seq<PstateCpuInfo>)
    requires
        w.len() == v.len(),
        forall|k: int| 0 <= k < v.len() ==> w[k].id == v[k].id,
    ensures
        find_cpu_from(w, id, i) == find_cpu_from(v, id, i),
    decreases v.len() - i,
{
    if i < 0 || i >= v.len() {
    } else {
        lemma_find_cpu_same_ids(v, id, i + 1, w);
    }
}

/// Two cores that differ at most in their patched scaling fields: same
/// index and hardware-reported values.
pub open spec fn cpu_fixed_eq(a: PstateCpuInfo, b: PstateCpuInfo) -> bool {
    &&& a.id == b.id
    &&& a.hw_max_freq == b.hw_max_freq
    &&& a.hw_min_freq == b.hw_min_freq
    &&& a.hw_base_freq == b.hw_base_freq
    &&& a.hw_current_freq == b.hw_current_freq
}

/// Position `j` is targeted by one of `cfg`'s listed cores from list
/// position `m` on, located on `v`.
pub open spec fn cpu_ids_written_from(
    cfg: PstateCpuConfig,
    m: int,
    v: Seq<PstateCpuInfo>,
    j: int,
) -> bool {
    exists|t: int| m <= t < cfg.ids@.len() && find_cpu(v, cfg.ids@[t]) == Some(j)
}

/// Position `j` is targeted by one of the patches in `cfgs` from index
/// `k` on, located on `v`.
pub open spec fn cpu_list_written_from(
    cfgs: Seq<PstateCpuConfig>,
    k: int,
    v: Seq<PstateCpuInfo>,
    j: int,
) -> bool {
    exists|t: int| k <= t < cfgs.len() && cpu_ids_written_from(cfgs[t], 0, v, j)
}

/// One per-core patch behaves the same on two core lists with the same
/// identities: the same outcome, the same values at every position it
/// targets, and untouched values elsewhere.
proof fn lemma_cpu_ids_pointwise(
    cfg: PstateCpuConfig,
    m: int,
    v: Seq<PstateCpuInfo>,
    w: Seq<PstateCpuInfo>,
)
    requires
        0 <= m,
        v.len() == w.len(),
        forall|j: int| 0 <= j < v.len() ==> cpu_fixed_eq(#[trigger] w[j], v[j]),
        cpu_ids_apply_from(cfg, m, v).1 is None,
    ensures
        cpu_ids_apply_from(cfg, m, w).1 is None,
        cpu_ids_apply_from(cfg, m, v).0.len() == v.len(),
        cpu_ids_apply_from(cfg, m, w).0.len() == v.len(),
        forall|j: int|
            0 <= j < v.len() ==> cpu_fixed_eq(
                #[trigger] cpu_ids_apply_from(cfg, m, v).0[j],
                v[j],
            ) && cpu_fixed_eq(cpu_ids_apply_from(cfg, m, w).0[j], w[j]),
        forall|j: int|
            0 <= j < v.len() && cpu_ids_written_from(cfg, m, v, j) ==> #[trigger] cpu_ids_apply_from(
                cfg,
                m,
                v,
            ).0[j] == cpu_ids_apply_from(cfg, m, w).0[j],
        forall|j: int|
            0 <= j < v.len() && !cpu_ids_written_from(cfg, m, v, j) ==> #[trigger] cpu_ids_apply_from(
                cfg,
                m,
                v,
            ).0[j] == v[j] && cpu_ids_apply_from(cfg, m, w).0[j] == w[j],
    decreases cfg.ids@.len() - m,
{
    assert(forall|k: int| 0 <= k < v.len() ==> w[k].id == v[k].id);
    if m >= cfg.ids@.len() {
        assert forall|j: int|
            0 <= j < v.len() && cpu_ids_written_from(cfg, m, v, j) implies false by {
        }
    } else {
        let id = cfg.ids@[m];
        lemma_find_cpu_same_ids(v, id, 0, w);
        lemma_find_cpu_bounds(v, id, 0);
        let (v1, e1) = cpu_id_apply_spec(cfg, id, v);
        let (w1, f1) = cpu_id_apply_spec(cfg, id, w);
        assert(e1 is None);
        let jm = find_cpu(v, id)->0;
        assert(v1[jm] == cpu_patched(cfg, v[jm]));
        assert(w1[jm] == cpu_patched(cfg, w[jm]));
        assert(v1[jm] == w1[jm]);
        assert(forall|k: int| 0 <= k < v.len() ==> v1[k].id == v[k].id);
        assert forall|j: int| 0 <= j < v1.len() implies cpu_fixed_eq(#[trigger] w1[j], v1[j]) by {
            if j != jm {
                assert(w1[j] == w[j] && v1[j] == v[j]);
            }
        }
        lemma_cpu_ids_pointwise(cfg, m + 1, v1, w1);
        assert forall|j: int|
            0 <= j < v.len() implies #[trigger] cpu_ids_written_from(cfg, m + 1, v1, j)
            == cpu_ids_written_from(cfg, m + 1, v, j) by {
            assert forall|t: int| m + 1 <= t < cfg.ids@.len() implies find_cpu(
                v1,
                #[trigger] cfg.ids@[t],
            ) == find_cpu(v, cfg.ids@[t]) by {
                lemma_find_cpu_same_ids(v, cfg.ids@[t], 0, v1);
            }
        }
        assert forall|j: int|
            0 <= j < v.len() && cpu_ids_written_from(cfg, m, v, j)
            implies #[trigger] cpu_ids_apply_from(cfg, m, v).0[j] == cpu_ids_apply_from(
            cfg,
            m,
            w,
        ).0[j] by {
            if cpu_ids_written_from(cfg, m + 1, v, j) {
            } else {
                let t = choose|t: int|
                    m <= t < cfg.ids@.len() && find_cpu(v, #[trigger] cfg.ids@[t]) == Some(j);
                assert(t == m);
                assert(j == jm);
                assert(cpu_ids_apply_from(cfg, m, v).0[j] == v1[j]);
                assert(cpu_ids_apply_from(cfg, m, w).0[j] == w1[j]);
            }
        }
        assert forall|j: int|
            0 <= j < v.len() && !cpu_ids_written_from(cfg, m, v, j)
            implies #[trigger] cpu_ids_apply_from(cfg, m, v).0[j] == v[j] && cpu_ids_apply_from(
            cfg,
            m,
            w,
        ).0[j] == w[j] by {
            assert(j != jm) by {
                if j == jm {
                    assert(cpu_ids_written_from(cfg, m, v, j));
                }
            }
            assert(!cpu_ids_written_from(cfg, m + 1, v, j)) by {
                if cpu_ids_written_from(cfg, m + 1, v, j) {
                    let t = choose|t: int|
                        m + 1 <= t < cfg.ids@.len() && find_cpu(v, #[trigger] cfg.ids@[t]) == Some(
                            j,
                        );
                    assert(cpu_ids_written_from(cfg, m, v, j));
                }
            }
            assert(v1[j] == v[j] && w1[j] == w[j]);
        }
    }
}

/// A patch list behaves the same on two core lists with the same
/// identities: the same outcome, the same values at every position it
/// targets, and untouched values elsewhere.
proof fn lemma_cpu_list_pointwise(
    cfgs: Seq<PstateCpuConfig>,
    k: int,
    v: Seq<PstateCpuInfo>,
    w: Seq<PstateCpuInfo>,
)
    requires
        0 <= k,
        v.len() == w.len(),
        forall|j: int| 0 <= j < v.len() ==> cpu_fixed_eq(#[trigger] w[j], v[j]),
        cpu_list_apply_from(cfgs, k, v).1 is None,
    ensures
        cpu_list_apply_from(cfgs, k, w).1 is None,
        cpu_list_apply_from(cfgs, k, v).0.len() == v.len(),
        cpu_list_apply_from(cfgs, k, w).0.len() == v.len(),
        forall|j: int|
            0 <= j < v.len() ==> cpu_fixed_eq(
                #[trigger] cpu_list_apply_from(cfgs, k, v).0[j],
                v[j],
            ) && cpu_fixed_eq(cpu_list_apply_from(cfgs, k, w).0[j], w[j]),
        forall|j: int|
            0 <= j < v.len() && cpu_list_written_from(cfgs, k, v, j)
                ==> #[trigger] cpu_list_apply_from(cfgs, k, v).0[j] == cpu_list_apply_from(
                cfgs,
                k,
                w,
            ).0[j],
        forall|j: int|
            0 <= j < v.len() && !cpu_list_written_from(cfgs, k, v, j)
                ==> #[trigger] cpu_list_apply_from(cfgs, k, v).0[j] == v[j] && cpu_list_apply_from(
                cfgs,
                k,
                w,
            ).0[j] == w[j],
    decreases cfgs.len() - k,
{
    assert(forall|p: int| 0 <= p < v.len() ==> w[p].id == v[p].id);
    if k >= cfgs.len() {
        assert forall|j: int|
            0 <= j < v.len() && cpu_list_written_from(cfgs, k, v, j) implies false by {
        }
    } else {
        let c = cfgs[k];
        let (v1, e1) = cpu_cfg_apply_spec(c, v);
        let (w1, f1) = cpu_cfg_apply_spec(c, w);
        assert(e1 is None);
        lemma_cpu_ids_pointwise(c, 0, v, w);
        assert(f1 is None);
        lemma_cpu_list_pointwise(cfgs, k + 1, v1, w1);
        assert(forall|p: int| 0 <= p < v.len() ==> v1[p].id == v[p].id);
        assert forall|j: int|
            0 <= j < v.len() implies #[trigger] cpu_list_written_from(cfgs, k + 1, v1, j)
            == cpu_list_written_from(cfgs, k + 1, v, j) by {
            assert forall|t: int|
                k + 1 <= t < cfgs.len() implies cpu_ids_written_from(#[trigger] cfgs[t], 0, v1, j)
                == cpu_ids_written_from(cfgs[t], 0, v, j) by {
                assert forall|u: int|
                    0 <= u < cfgs[t].ids@.len() implies find_cpu(v1, #[trigger] cfgs[t].ids@[u])
                    == find_cpu(v, cfgs[t].ids@[u]) by {
                    lemma_find_cpu_same_ids(v, cfgs[t].ids@[u], 0, v1);
                }
            }
        }
        assert forall|j: int|
            0 <= j < v.len() && cpu_list_written_from(cfgs, k, v, j)
            implies #[trigger] cpu_list_apply_from(cfgs, k, v).0[j] == cpu_list_apply_from(
            cfgs,
            k,
            w,
        ).0[j] by {
            if cpu_list_written_from(cfgs, k + 1, v, j) {
            } else {
                let t = choose|t: int|
                    k <= t < cfgs.len() && cpu_ids_written_from(#[trigger] cfgs[t], 0, v, j);
                assert(t == k);
                assert(v1[j] == w1[j]);
                assert(!cpu_list_written_from(cfgs, k + 1, v1, j));
            }
        }
        assert forall|j: int|
            0 <= j < v.len() && !cpu_list_written_from(cfgs, k, v, j)
            implies #[trigger] cpu_list_apply_from(cfgs, k, v).0[j] == v[j] && cpu_list_apply_from(
            cfgs,
            k,
            w,
        ).0[j] == w[j] by {
            assert(!cpu_ids_written_from(c, 0, v, j)) by {
                if cpu_ids_written_from(c, 0, v, j) {
                    assert(cpu_list_written_from(cfgs, k, v, j));
                }
            }
            assert(!cpu_list_written_from(cfgs, k + 1, v, j)) by {
                if cpu_list_written_from(cfgs, k + 1, v, j) {
                    let t = choose|t: int|
                        k + 1 <= t < cfgs.len() && cpu_ids_written_from(#[trigger] cfgs[t], 0, v, j);
                    assert(cpu_list_written_from(cfgs, k, v, j));
                }
            }
            assert(v1[j] == v[j] && w1[j] == w[j]);
        }
    }
}

/// Merging the same per-core patch list twice gives the same core list
/// as merging it once.
pub proof fn lemma_cpu_list_apply_idempotent(cfgs: Seq<PstateCpuConfig>, v: Seq<PstateCpuInfo>)
    requires
        cpu_list_apply_from(cfgs, 0, v).1 is None,
    ensures
        cpu_list_apply_from(cfgs, 0, cpu_list_apply_from(cfgs, 0, v).0) == cpu_list_apply_from(
            cfgs,
            0,
            v,
        ),
{
    let w = cpu_list_apply_from(cfgs, 0, v).0;
    lemma_cpu_list_pointwise(cfgs, 0, v, v);
    lemma_cpu_list_pointwise(cfgs, 0, v, w);
    assert(cpu_list_apply_from(cfgs, 0, w).0 =~= w);
}

/// Merging the same package patch twice gives the same package state as
/// merging it once.
pub proof fn lemma_pstate_apply_idempotent(cfg: PstateConfig, m: PstateModel)
    requires
        pstate_apply_spec(cfg, m).1 is None,
    ensures
        pstate_apply_spec(cfg, pstate_apply_spec(cfg, m).0) == pstate_apply_spec(cfg, m),
{
    lemma_cpu_list_apply_idempotent(cfg.cpus@, m.cpus);
}

/// Whether a per-core patch reproduces one core, addressed to it alone.
pub open spec fn cpu_config_matches(c: PstateCpuConfig, info: PstateCpuInfo) -> bool {
    &&& c.ids@ == seq![info.id]
    &&& c.governor == info.governor
    &&& c.epp == info.epp
    &&& c.epb == info.epb
    &&& c.max_freq == info.max_freq
    &&& c.min_freq == info.min_freq
    &&& c.ctdp == info.ctdp
    &&& c.bdprochot == info.bdprochot
}

impl PstateInfo {
    /// The patch that reproduces the whole package state.
    pub fn to_config(&self) -> (r: PstateConfig)
        ensures
            r.turbo == self.turbo,
            r.cpus@.len() == self.cpus@.len(),
            forall|i: int|
                0 <= i < self.cpus@.len() ==> cpu_config_matches(
                    #[trigger] r.cpus@[i],
                    self.cpus@[i],
                ),
    {
        let mut cpus: Vec<PstateCpuConfig> = Vec::new();
        let mut i: usize = 0;
        while i < self.cpus.len()
            invariant
                0 <= i <= self.cpus@.len(),
                cpus@.len() == i,
                forall|k: int|
                    0 <= k < i ==> cpu_config_matches(#[trigger] cpus@[k], self.cpus@[k]),
            decreases self.cpus@.len() - i,
        {
            cpus.push(self.cpus[i].to_config());
            i += 1;
        }
        PstateConfig { cpus, turbo: self.turbo }
    }
}

} // verus!
