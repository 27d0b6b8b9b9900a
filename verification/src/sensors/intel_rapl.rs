//! Power-capping zones: a tree of named zones, each with numbered power
//! constraints and nested subzones. Patches address zones by name and
//! constraints by id.
use vstd::prelude::*;
use vstd::pervasive::VecAdditionalExecFns;

use crate::sensors::SensorError;

verus! {

/// One power constraint of a zone: a power limit in microwatts and an
/// optional time window in microseconds.
#[derive(Clone, Debug, PartialEq, Eq)]
pub struct RaplConstraintInfo {
    pub id: usize,
    pub name: String,
    pub power_limit: u64,
    pub time_window: Option<u64>,
}

/// One zone of the power-capping tree.
#[derive(Debug, PartialEq, Eq)]
pub struct RaplZoneInfo {
    pub path: String,
    pub name: String,
    pub constraints: Vec<RaplConstraintInfo>,
    pub subzones: Vec<RaplZoneInfo>,
}

/// A patch for one constraint: each field present replaces the
/// constraint's value, each field absent leaves it alone.
#[derive(Copy, Clone, Debug, PartialEq, Eq, Structural)]
pub struct RaplConstraintConfig {
    pub id: usize,
    pub power_limit: Option<u64>,
    pub time_window: Option<u64>,
}

/// A patch for one zone and, recursively, its subzones.
#[derive(Debug, PartialEq, Eq)]
pub struct RaplZoneConfig {
    pub name: String,
    pub constraints: Vec<RaplConstraintConfig>,
    pub subzones: Vec<RaplZoneConfig>,
}

/// The mathematical shape of a zone: the same record with sequences in
/// place of vectors, so that patched states can be written down in specs.
pub ghost struct RaplZoneModel {
    pub path: String,
    pub name: String,
    pub constraints: Seq<RaplConstraintInfo>,
    pub subzones: Seq<RaplZoneModel>,
}

/// The model of one zone.
pub open spec fn zone_view(z: RaplZoneInfo) -> RaplZoneModel
    decreases z,
{
    RaplZoneModel {
        path: z.path,
        name: z.name,
        constraints: z.constraints@,
        subzones: zones_view(z.subzones@),
    }
}

/// The model of a zone list.
pub open spec fn zones_view(s: Seq<RaplZoneInfo>) -> Seq<RaplZoneModel>
    decreases s,
{
    if s.len() == 0 {
        Seq::empty()
    } else {
        zones_view(s.drop_last()).push(zone_view(s.last()))
    }
}

/// The model of a zone list is the pointwise model of its zones.
pub proof fn lemma_zones_view_props(s: Seq<RaplZoneInfo>)
    ensures
        zones_view(s).len() == s.len(),
        forall|i: int| 0 <= i < s.len() ==> zones_view(s)[i] == zone_view(#[trigger] s[i]),
    decreases s,
{
    if s.len() > 0 {
        lemma_zones_view_props(s.drop_last());
        assert forall|i: int| 0 <= i < s.len() implies zones_view(s)[i] == zone_view(
            #[trigger] s[i],
        ) by {
            if i < s.len() - 1 {
                assert(s.drop_last()[i] == s[i]);
            } else {
                assert(s[i] == s.last());
            }
        }
    }
}

/// The first index at or after `i` whose constraint has id `id`.
pub open spec fn find_constraint_from(v: Seq<RaplConstraintInfo>, id: usize, i: int) -> Option<int>
    decreases v.len() - i,
{
    if i < 0 || i >= v.len() {
        None
    } else if v[i].id == id {
        Some(i)
    } else {
        find_constraint_from(v, id, i + 1)
    }
}

/// The first index whose constraint has id `id`.
pub open spec fn find_constraint(v: Seq<RaplConstraintInfo>, id: usize) -> Option<int> {
    find_constraint_from(v, id, 0)
}

/// One constraint after a patch: present fields replaced, absent fields
/// kept, id and name untouched.
pub open spec fn constraint_patched(cfg: RaplConstraintConfig, c: RaplConstraintInfo)
    -> RaplConstraintInfo {
    RaplConstraintInfo {
        id: c.id,
        name: c.name,
        power_limit: match cfg.power_limit {
            Some(p) => p,
            None => c.power_limit,
        },
        time_window: match cfg.time_window {
            Some(t) => Some(t),
            None => c.time_window,
        },
    }
}

/// The constraint list and outcome after one constraint patch.
pub open spec fn constraint_apply_spec(cfg: RaplConstraintConfig, v: Seq<RaplConstraintInfo>) -> (
    Seq<RaplConstraintInfo>,
    Option<SensorError>,
) {
    match find_constraint(v, cfg.id) {
        None => (v, Some(SensorError::ConstraintNotFound { id: cfg.id })),
        Some(j) => (v.update(j, constraint_patched(cfg, v[j])), None),
    }
}

/// The constraint list and outcome after the patches from index `i` on,
/// in order, stopping at the first failure.
pub open spec fn constraint_list_apply_from(
    cfgs: Seq<RaplConstraintConfig>,
    i: int,
    v: Seq<RaplConstraintInfo>,
) -> (Seq<RaplConstraintInfo>, Option<SensorError>)
    decreases cfgs.len() - i,
{
    if i < 0 || i >= cfgs.len() {
        (v, None)
    } else {
        let (v1, e1) = constraint_apply_spec(cfgs[i], v);
        if e1 is Some {
            (v1, e1)
        } else {
            constraint_list_apply_from(cfgs, i + 1, v1)
        }
    }
}

/// Finds the position of the constraint with id `id`.
fn find_constraint_index(v: &Vec<RaplConstraintInfo>, id: usize) -> (r: Option<usize>)
    ensures
        match r {
            Some(j) => find_constraint(v@, id) == Some(j as int) && j < v@.len(),
            None => find_constraint(v@, id) is None,
        },
{
    let mut j: usize = 0;
    while j < v.len()
        invariant
            0 <= j <= v@.len(),
            find_constraint(v@, id) == find_constraint_from(v@, id, j as int),
        decreases v@.len() - j,
    {
        if v[j].id == id {
            return Some(j);
        }
        j += 1;
    }
    None
}

impl RaplConstraintConfig {
    /// Merges the patch into the constraint list.
    pub fn apply(&self, constraints: &mut Vec<RaplConstraintInfo>) -> (r: Result<(), SensorError>)
        ensures
            final(constraints)@ == constraint_apply_spec(*self, old(constraints)@).0,
            match r {
                Ok(()) => constraint_apply_spec(*self, old(constraints)@).1 is None,
                Err(e) => constraint_apply_spec(*self, old(constraints)@).1 == Some(e),
            },
    {
        match find_constraint_index(constraints, self.id) {
            None => Err(SensorError::ConstraintNotFound { id: self.id }),
            Some(j) => {
                let cur = &constraints[j];
                let patched = RaplConstraintInfo {
                    id: cur.id,
                    name: cur.name.clone(),
                    power_limit: match self.power_limit {
                        Some(p) => p,
                        None => cur.power_limit,
                    },
                    time_window: match self.time_window {
                        Some(t) => Some(t),
                        None => cur.time_window,
                    },
                };
                constraints.set(j, patched);
                Ok(())
            },
        }
    }
}

/// Merges every constraint patch from index `i` on, stopping at the first
/// failure.
pub fn apply_constraint_configs(
    cfgs: &Vec<RaplConstraintConfig>,
    i: usize,
    constraints: &mut Vec<RaplConstraintInfo>,
) -> (r: Result<(), SensorError>)
    ensures
        final(constraints)@ == constraint_list_apply_from(cfgs@, i as int, old(constraints)@).0,
        match r {
            Ok(()) => constraint_list_apply_from(cfgs@, i as int, old(constraints)@).1 is None,
            Err(e) => constraint_list_apply_from(cfgs@, i as int, old(constraints)@).1 == Some(e),
        },
    decreases cfgs@.len() - i,
{
    if i >= cfgs.len() {
        return Ok(());
    }
    match cfgs[i].apply(constraints) {
        Err(e) => Err(e),
        Ok(()) => apply_constraint_configs(cfgs, i + 1, constraints),
    }
}

/// A successful search lands in bounds, on a constraint with the wanted
/// id.
proof fn lemma_find_constraint_bounds(v: Seq<RaplConstraintInfo>, id: usize, i: int)
    ensures
        match find_constraint_from(v, id, i) {
            Some(j) => i <= j < v.len() && v[j].id == id,
            None => true,
        },
    decreases v.len() - i,
{
    if i < 0 || i >= v.len() {
    } else if v[i].id == id {
    } else {
        lemma_find_constraint_bounds(v, id, i + 1);
    }
}

/// Two constraint lists with the same ids at every position agree on
/// where a given id is first found.
proof fn lemma_find_constraint_same_ids(
    v: Seq<RaplConstraintInfo>,
    id: usize,
    i: int,
    w: Seq<RaplConstraintInfo>,
)
    requires
        w.len() == v.len(),
        forall|k: int| 0 <= k < v.len() ==> w[k].id == v[k].id,
    ensures
        find_constraint_from(w, id, i) == find_constraint_from(v, id, i),
    decreases v.len() - i,
{
    if i < 0 || i >= v.len() {
    } else {
        lemma_find_constraint_same_ids(v, id, i + 1, w);
    }
}

/// Two constraints that differ at most in their patched values: same id
/// and name.
pub open spec fn constraint_fixed_eq(a: RaplConstraintInfo, b: RaplConstraintInfo) -> bool {
    a.id == b.id && a.name == b.name
}

/// Some patch in `cfgs` from index `i` on lands on position `j` of `v`
/// and carries a power limit.
pub open spec fn constraint_pl_written_from(
    cfgs: Seq<RaplConstraintConfig>,
    i: int,
    v: Seq<RaplConstraintInfo>,
    j: int,
) -> bool {
    exists|k: int|
        i <= k < cfgs.len() && find_constraint(v, cfgs[k].id) == Some(j) && cfgs[k].power_limit
            is Some
}

/// Some patch in `cfgs` from index `i` on lands on position `j` of `v`
/// and carries a time window.
pub open spec fn constraint_tw_written_from(
    cfgs: Seq<RaplConstraintConfig>,
    i: int,
    v: Seq<RaplConstraintInfo>,
    j: int,
) -> bool {
    exists|k: int|
        i <= k < cfgs.len() && find_constraint(v, cfgs[k].id) == Some(j) && cfgs[k].time_window
            is Some
}

/// Constraint patches never touch ids, names or the list's length.
proof fn lemma_constraint_fold_preserves_identity(
    cfgs: Seq<RaplConstraintConfig>,
    i: int,
    v: Seq<RaplConstraintInfo>,
)
    ensures
        constraint_list_apply_from(cfgs, i, v).0.len() == v.len(),
        forall|j: int|
            0 <= j < v.len() ==> constraint_fixed_eq(
                #[trigger] constraint_list_apply_from(cfgs, i, v).0[j],
                v[j],
            ),
    decreases cfgs.len() - i,
{
    if i < 0 || i >= cfgs.len() {
    } else {
        let (v1, e1) = constraint_apply_spec(cfgs[i], v);
        if e1 is Some {
        } else {
            lemma_find_constraint_bounds(v, cfgs[i].id, 0);
            lemma_constraint_fold_preserves_identity(cfgs, i + 1, v1);
        }
    }
}

/// The same patch list writes the same fields of the same positions on
/// two constraint lists with the same ids.
proof fn lemma_constraint_written_same_ids(
    cfgs: Seq<RaplConstraintConfig>,
    i: int,
    v: Seq<RaplConstraintInfo>,
    w: Seq<RaplConstraintInfo>,
    j: int,
)
    requires
        v.len() == w.len(),
        forall|k: int| 0 <= k < v.len() ==> w[k].id == v[k].id,
    ensures
        constraint_pl_written_from(cfgs, i, w, j) == constraint_pl_written_from(cfgs, i, v, j),
        constraint_tw_written_from(cfgs, i, w, j) == constraint_tw_written_from(cfgs, i, v, j),
{
    assert forall|k: int| i <= k < cfgs.len() implies find_constraint(w, #[trigger] cfgs[k].id)
        == find_constraint(v, cfgs[k].id) by {
        lemma_find_constraint_same_ids(v, cfgs[k].id, 0, w);
    }
}

/// A field that no patch writes keeps its value through the fold.
proof fn lemma_constraint_fold_frame(
    cfgs: Seq<RaplConstraintConfig>,
    i: int,
    v: Seq<RaplConstraintInfo>,
    j: int,
)
    requires
        0 <= i,
        0 <= j < v.len(),
    ensures
        !constraint_pl_written_from(cfgs, i, v, j) ==> constraint_list_apply_from(
            cfgs,
            i,
            v,
        ).0[j].power_limit == v[j].power_limit,
        !constraint_tw_written_from(cfgs, i, v, j) ==> constraint_list_apply_from(
            cfgs,
            i,
            v,
        ).0[j].time_window == v[j].time_window,
    decreases cfgs.len() - i,
{
    if i >= cfgs.len() {
    } else {
        let c = cfgs[i];
        let (v1, e1) = constraint_apply_spec(c, v);
        if e1 is Some {
        } else {
            lemma_find_constraint_bounds(v, c.id, 0);
            let jt = find_constraint(v, c.id)->0;
            assert(forall|k: int| 0 <= k < v.len() ==> v1[k].id == v[k].id);
            lemma_constraint_written_same_ids(cfgs, i + 1, v, v1, j);
            lemma_constraint_fold_frame(cfgs, i + 1, v1, j);
            if !constraint_pl_written_from(cfgs, i, v, j) {
                assert(!constraint_pl_written_from(cfgs, i + 1, v, j)) by {
                    if constraint_pl_written_from(cfgs, i + 1, v, j) {
                        let k = choose|k: int|
                            i + 1 <= k < cfgs.len() && find_constraint(v, #[trigger] cfgs[k].id)
                                == Some(j) && cfgs[k].power_limit is Some;
                        assert(constraint_pl_written_from(cfgs, i, v, j));
                    }
                }
                assert(v1[j].power_limit == v[j].power_limit) by {
                    if j == jt {
                        assert(!(c.power_limit is Some)) by {
                            if c.power_limit is Some {
                                assert(constraint_pl_written_from(cfgs, i, v, j));
                            }
                        }
                    }
                }
            }
            if !constraint_tw_written_from(cfgs, i, v, j) {
                assert(!constraint_tw_written_from(cfgs, i + 1, v, j)) by {
                    if constraint_tw_written_from(cfgs, i + 1, v, j) {
                        let k = choose|k: int|
                            i + 1 <= k < cfgs.len() && find_constraint(v, #[trigger] cfgs[k].id)
                                == Some(j) && cfgs[k].time_window is Some;
                        assert(constraint_tw_written_from(cfgs, i, v, j));
                    }
                }
                assert(v1[j].time_window == v[j].time_window) by {
                    if j == jt {
                        assert(!(c.time_window is Some)) by {
                            if c.time_window is Some {
                                assert(constraint_tw_written_from(cfgs, i, v, j));
                            }
                        }
                    }
                }
            }
        }
    }
}

/// Two constraint lists with the same identities that agree on every
/// field the patches leave alone end the fold in the same state.
proof fn lemma_constraint_fold_congruent(
    cfgs: Seq<RaplConstraintConfig>,
    i: int,
    v: Seq<RaplConstraintInfo>,
    w: Seq<RaplConstraintInfo>,
)
    requires
        0 <= i,
        v.len() == w.len(),
        forall|j: int| 0 <= j < v.len() ==> constraint_fixed_eq(#[trigger] w[j], v[j]),
        forall|j: int|
            0 <= j < v.len() && !constraint_pl_written_from(cfgs, i, v, j)
                ==> #[trigger] w[j].power_limit == v[j].power_limit,
        forall|j: int|
            0 <= j < v.len() && !constraint_tw_written_from(cfgs, i, v, j)
                ==> #[trigger] w[j].time_window == v[j].time_window,
        constraint_list_apply_from(cfgs, i, v).1 is None,
    ensures
        constraint_list_apply_from(cfgs, i, w) == constraint_list_apply_from(cfgs, i, v),
    decreases cfgs.len() - i,
{
    if i >= cfgs.len() {
        assert forall|j: int| 0 <= j < v.len() implies #[trigger] w[j] == v[j] by {
            assert(!constraint_pl_written_from(cfgs, i, v, j));
            assert(!constraint_tw_written_from(cfgs, i, v, j));
            assert(w[j].power_limit == v[j].power_limit);
            assert(w[j].time_window == v[j].time_window);
            assert(constraint_fixed_eq(w[j], v[j]));
        }
        assert(w =~= v);
    } else {
        let c = cfgs[i];
        assert(forall|k: int| 0 <= k < v.len() ==> w[k].id == v[k].id);
        lemma_find_constraint_same_ids(v, c.id, 0, w);
        lemma_find_constraint_bounds(v, c.id, 0);
        let (v1, e1) = constraint_apply_spec(c, v);
        let (w1, f1) = constraint_apply_spec(c, w);
        assert(e1 is None);
        let jt = find_constraint(v, c.id)->0;
        assert(forall|k: int| 0 <= k < v.len() ==> v1[k].id == v[k].id);
        assert forall|j: int|
            0 <= j < v1.len() implies constraint_fixed_eq(#[trigger] w1[j], v1[j]) by {
            if j != jt {
                assert(w1[j] == w[j] && v1[j] == v[j]);
            }
        }
        assert forall|j: int|
            0 <= j < v1.len() && !constraint_pl_written_from(cfgs, i + 1, v1, j)
            implies #[trigger] w1[j].power_limit == v1[j].power_limit by {
            lemma_constraint_written_same_ids(cfgs, i + 1, v, v1, j);
            assert(!constraint_pl_written_from(cfgs, i + 1, v, j));
            if j == jt {
                if c.power_limit is None {
                    assert(!constraint_pl_written_from(cfgs, i, v, j)) by {
                        if constraint_pl_written_from(cfgs, i, v, j) {
                            let k = choose|k: int|
                                i <= k < cfgs.len() && find_constraint(v, #[trigger] cfgs[k].id)
                                    == Some(j) && cfgs[k].power_limit is Some;
                            if k == i {
                                assert(false);
                            } else {
                                assert(constraint_pl_written_from(cfgs, i + 1, v, j));
                            }
                        }
                    }
                    assert(w[jt].power_limit == v[jt].power_limit);
                }
            } else {
                assert(!constraint_pl_written_from(cfgs, i, v, j)) by {
                    if constraint_pl_written_from(cfgs, i, v, j) {
                        let k = choose|k: int|
                            i <= k < cfgs.len() && find_constraint(v, #[trigger] cfgs[k].id)
                                == Some(j) && cfgs[k].power_limit is Some;
                        if k == i {
                            assert(false);
                        } else {
                            assert(constraint_pl_written_from(cfgs, i + 1, v, j));
                        }
                    }
                }
                assert(w1[j] == w[j] && v1[j] == v[j]);
            }
        }
        assert forall|j: int|
            0 <= j < v1.len() && !constraint_tw_written_from(cfgs, i + 1, v1, j)
            implies #[trigger] w1[j].time_window == v1[j].time_window by {
            lemma_constraint_written_same_ids(cfgs, i + 1, v, v1, j);
            assert(!constraint_tw_written_from(cfgs, i + 1, v, j));
            if j == jt {
                if c.time_window is None {
                    assert(!constraint_tw_written_from(cfgs, i, v, j)) by {
                        if constraint_tw_written_from(cfgs, i, v, j) {
                            let k = choose|k: int|
                                i <= k < cfgs.len() && find_constraint(v, #[trigger] cfgs[k].id)
                                    == Some(j) && cfgs[k].time_window is Some;
                            if k == i {
                                assert(false);
                            } else {
                                assert(constraint_tw_written_from(cfgs, i + 1, v, j));
                            }
                        }
                    }
                    assert(w[jt].time_window == v[jt].time_window);
                }
            } else {
                assert(!constraint_tw_written_from(cfgs, i, v, j)) by {
                    if constraint_tw_written_from(cfgs, i, v, j) {
                        let k = choose|k: int|
                            i <= k < cfgs.len() && find_constraint(v, #[trigger] cfgs[k].id)
                                == Some(j) && cfgs[k].time_window is Some;
                        if k == i {
                            assert(false);
                        } else {
                            assert(constraint_tw_written_from(cfgs, i + 1, v, j));
                        }
                    }
                }
                assert(w1[j] == w[j] && v1[j] == v[j]);
            }
        }
        lemma_constraint_fold_congruent(cfgs, i + 1, v1, w1);
    }
}

/// Merging the same constraint patch list twice gives the same list as
/// merging it once.
pub proof fn lemma_constraint_list_apply_idempotent(
    cfgs: Seq<RaplConstraintConfig>,
    v: Seq<RaplConstraintInfo>,
)
    requires
        constraint_list_apply_from(cfgs, 0, v).1 is None,
    ensures
        constraint_list_apply_from(cfgs, 0, constraint_list_apply_from(cfgs, 0, v).0)
            == constraint_list_apply_from(cfgs, 0, v),
{
    let w = constraint_list_apply_from(cfgs, 0, v).0;
    lemma_constraint_fold_preserves_identity(cfgs, 0, v);
    assert forall|j: int|
        0 <= j < v.len() && !constraint_pl_written_from(cfgs, 0, v, j)
        implies #[trigger] w[j].power_limit == v[j].power_limit by {
        lemma_constraint_fold_frame(cfgs, 0, v, j);
    }
    assert forall|j: int|
        0 <= j < v.len() && !constraint_tw_written_from(cfgs, 0, v, j)
        implies #[trigger] w[j].time_window == v[j].time_window by {
        lemma_constraint_fold_frame(cfgs, 0, v, j);
    }
    lemma_constraint_fold_congruent(cfgs, 0, v, w);
}

/// The first index at or after `i` whose zone carries `name`.
pub open spec fn find_zone_from(zones: Seq<RaplZoneModel>, name: Seq<char>, i: int) -> Option<int>
    decreases zones.len() - i,
{
    if i < 0 || i >= zones.len() {
        None
    } else if zones[i].name@ == name {
        Some(i)
    } else {
        find_zone_from(zones, name, i + 1)
    }
}

/// The first index whose zone carries `name`.
pub open spec fn find_zone(zones: Seq<RaplZoneModel>, name: Seq<char>) -> Option<int> {
    find_zone_from(zones, name, 0)
}

/// The zone list and outcome after one zone patch: the first zone with
/// the patch's name has its subzones patched first, then its constraints;
/// a failure leaves whatever was already patched in place. A patch that
/// addresses no zone fails and changes nothing.
pub open spec fn zone_apply_spec(cfg: RaplZoneConfig, zones: Seq<RaplZoneModel>) -> (
    Seq<RaplZoneModel>,
    Option<SensorError>,
)
    decreases cfg, 0int,
{
    match find_zone(zones, cfg.name@) {
        None => (zones, Some(SensorError::ZoneNotFound { name: cfg.name })),
        Some(j) => {
            let z = zones[j];
            let (subs1, e1) = zone_list_apply_from(cfg.subzones@, 0, z.subzones);
            if e1 is Some {
                (
                    zones.update(
                        j,
                        RaplZoneModel {
                            path: z.path,
                            name: z.name,
                            constraints: z.constraints,
                            subzones: subs1,
                        },
                    ),
                    e1,
                )
            } else {
                let (cons1, e2) = constraint_list_apply_from(cfg.constraints@, 0, z.constraints);
                (
                    zones.update(
                        j,
                        RaplZoneModel {
                            path: z.path,
                            name: z.name,
                            constraints: cons1,
                            subzones: subs1,
                        },
                    ),
                    e2,
                )
            }
        },
    }
}

/// The zone list and outcome after the zone patches from index `i` on,
/// in order, stopping at the first failure.
pub open spec fn zone_list_apply_from(
    cfgs: Seq<RaplZoneConfig>,
    i: int,
    zones: Seq<RaplZoneModel>,
) -> (Seq<RaplZoneModel>, Option<SensorError>)
    decreases cfgs, cfgs.len() - i,
{
    if i < 0 || i >= cfgs.len() {
        (zones, None)
    } else {
        let (z1, e1) = zone_apply_spec(cfgs[i], zones);
        if e1 is Some {
            (z1, e1)
        } else {
            zone_list_apply_from(cfgs, i + 1, z1)
        }
    }
}

/// Finds the position of the zone named `name`.
fn find_zone_index(v: &Vec<RaplZoneInfo>, name: &String) -> (r: Option<usize>)
    ensures
        match r {
            Some(j) => find_zone(zones_view(v@), name@) == Some(j as int) && j < v@.len(),
            None => find_zone(zones_view(v@), name@) is None,
        },
{
    proof {
        lemma_zones_view_props(v@);
    }
    let mut j: usize = 0;
    while j < v.len()
        invariant
            0 <= j <= v@.len(),
            zones_view(v@).len() == v@.len(),
            forall|i: int| 0 <= i < v@.len() ==> zones_view(v@)[i] == zone_view(#[trigger] v@[i]),
            find_zone(zones_view(v@), name@) == find_zone_from(zones_view(v@), name@, j as int),
        decreases v@.len() - j,
    {
        if v[j].name == *name {
            return Some(j);
        }
        j += 1;
    }
    None
}

impl RaplZoneConfig {
    /// Merges the patch into the zone list: subzones first, then the
    /// zone's own constraints, aborting on the first failure without
    /// rolling back what was already patched.
    pub fn apply(&self, zones: &mut Vec<RaplZoneInfo>) -> (r: Result<(), SensorError>)
        ensures
            zones_view(final(zones)@) == zone_apply_spec(*self, zones_view(old(zones)@)).0,
            match r {
                Ok(()) => zone_apply_spec(*self, zones_view(old(zones)@)).1 is None,
                Err(e) => zone_apply_spec(*self, zones_view(old(zones)@)).1 == Some(e),
            },
        decreases *self, 0int,
    {
        let ghost m0 = zones_view(old(zones)@);
        proof {
            lemma_zones_view_props(zones@);
        }
        let j = match find_zone_index(zones, &self.name) {
            None => {
                return Err(SensorError::ZoneNotFound { name: self.name.clone() });
            },
            Some(j) => j,
        };
        let mut zone = zones.remove(j);
        let ghost z0 = zone_view(zone);
        let sub_r = apply_zone_configs(&self.subzones, 0, &mut zone.subzones);
        let r = match sub_r {
            Err(e) => Err(e),
            Ok(()) => apply_constraint_configs(&self.constraints, 0, &mut zone.constraints),
        };
        let ghost z1 = zone_view(zone);
        zones.insert(j, zone);
        proof {
            assert(zones@ =~= old(zones)@.update(j as int, zone));
            lemma_zones_view_props(zones@);
            lemma_zones_view_props(old(zones)@);
            assert forall|k: int| 0 <= k < zones@.len() implies zones_view(zones@)[k] == m0.update(
                j as int,
                z1,
            )[k] by {
                assert(zones_view(zones@)[k] == zone_view(zones@[k]));
                if k == j as int {
                    assert(zones@[k] == zone);
                } else {
                    assert(zones@[k] == old(zones)@[k]);
                    assert(m0[k] == zone_view(old(zones)@[k]));
                }
            }
            assert(zones_view(zones@) =~= m0.update(j as int, z1));
        }
        match r {
            Err(e) => Err(e),
            Ok(()) => Ok(()),
        }
    }
}

/// Merges every zone patch from index `i` on, stopping at the first
/// failure.
pub fn apply_zone_configs(
    cfgs: &Vec<RaplZoneConfig>,
    i: usize,
    zones: &mut Vec<RaplZoneInfo>,
) -> (r: Result<(), SensorError>)
    ensures
        zones_view(final(zones)@) == zone_list_apply_from(cfgs@, i as int, zones_view(old(zones)@)).0,
        match r {
            Ok(()) => zone_list_apply_from(cfgs@, i as int, zones_view(old(zones)@)).1 is None,
            Err(e) => zone_list_apply_from(cfgs@, i as int, zones_view(old(zones)@)).1 == Some(e),
        },
    decreases cfgs@, cfgs@.len() - i,
{
    if i >= cfgs.len() {
        return Ok(());
    }
    match cfgs[i].apply(zones) {
        Err(e) => Err(e),
        Ok(()) => apply_zone_configs(cfgs, i + 1, zones),
    }
}

/// A successful search lands in bounds, on a zone with the wanted name.
proof fn lemma_find_zone_bounds(zones: Seq<RaplZoneModel>, name: Seq<char>, i: int)
    ensures
        match find_zone_from(zones, name, i) {
            Some(j) => i <= j < zones.len() && zones[j].name@ == name,
            None => true,
        },
    decreases zones.len() - i,
{
    if i < 0 || i >= zones.len() {
    } else if zones[i].name@ == name {
    } else {
        lemma_find_zone_bounds(zones, name, i + 1);
    }
}

/// Two zone lists with the same names at every position agree on where a
/// given name is first found.
proof fn lemma_find_zone_same_names(
    v: Seq<RaplZoneModel>,
    name: Seq<char>,
    i: int,
    w: Seq<RaplZoneModel>,
)
    requires
        w.len() == v.len(),
        forall|k: int| 0 <= k < v.len() ==> w[k].name@ == v[k].name@,
    ensures
        find_zone_from(w, name, i) == find_zone_from(v, name, i),
    decreases v.len() - i,
{
    if i < 0 || i >= v.len() {
    } else {
        lemma_find_zone_same_names(v, name, i + 1, w);
    }
}

/// Position `j` is the target of some zone patch in `cfgs` from index
/// `i` on, located on `v`.
pub open spec fn zone_written_from(
    cfgs: Seq<RaplZoneConfig>,
    i: int,
    v: Seq<RaplZoneModel>,
    j: int,
) -> bool {
    exists|k: int| i <= k < cfgs.len() && find_zone(v, cfgs[k].name@) == Some(j)
}

/// A zone patch list whose zone targets never collide: no two patches
/// at one level name the same zone, recursively down the subzone
/// patches.
pub open spec fn zone_cfgs_distinct(cfgs: Seq<RaplZoneConfig>) -> bool
    decreases cfgs,
{
    &&& forall|k1: int, k2: int|
        0 <= k1 < k2 < cfgs.len() ==> (#[trigger] cfgs[k1].name)@ != (#[trigger] cfgs[k2].name)@
    &&& forall|k: int| 0 <= k < cfgs.len() ==> zone_cfg_distinct(#[trigger] cfgs[k])
}

/// One zone patch whose subzone patches never collide, recursively.
pub open spec fn zone_cfg_distinct(c: RaplZoneConfig) -> bool
    decreases c,
{
    zone_cfgs_distinct(c.subzones@)
}

/// Zone patches never touch a zone's path or name, nor the length of the
/// list.
proof fn lemma_zone_fold_preserves_names(cfgs: Seq<RaplZoneConfig>, i: int, v: Seq<RaplZoneModel>)
    ensures
        zone_list_apply_from(cfgs, i, v).0.len() == v.len(),
        forall|j: int|
            0 <= j < v.len() ==> (#[trigger] zone_list_apply_from(cfgs, i, v).0[j]).name == v[j].name
                && zone_list_apply_from(cfgs, i, v).0[j].path == v[j].path,
    decreases cfgs, cfgs.len() - i,
{
    if i < 0 || i >= cfgs.len() {
    } else {
        let (v1, e1) = zone_apply_spec(cfgs[i], v);
        lemma_find_zone_bounds(v, cfgs[i].name@, 0);
        if e1 is Some {
        } else {
            lemma_zone_fold_preserves_names(cfgs, i + 1, v1);
        }
    }
}

/// A zone that no patch targets keeps its value through the fold.
proof fn lemma_zone_fold_frame(cfgs: Seq<RaplZoneConfig>, i: int, v: Seq<RaplZoneModel>, j: int)
    requires
        0 <= i,
        0 <= j < v.len(),
        !zone_written_from(cfgs, i, v, j),
    ensures
        zone_list_apply_from(cfgs, i, v).0[j] == v[j],
    decreases cfgs, cfgs.len() - i,
{
    if i >= cfgs.len() {
    } else {
        let (v1, e1) = zone_apply_spec(cfgs[i], v);
        if e1 is Some {
            if find_zone(v, cfgs[i].name@) is Some {
                let jt = find_zone(v, cfgs[i].name@)->0;
                lemma_find_zone_bounds(v, cfgs[i].name@, 0);
                assert(jt != j);
            }
        } else {
            lemma_find_zone_bounds(v, cfgs[i].name@, 0);
            let jt = find_zone(v, cfgs[i].name@)->0;
            assert(jt != j);
            assert(v1[j] == v[j]);
            assert(forall|k: int| 0 <= k < v.len() ==> v1[k].name@ == v[k].name@) by {
                lemma_find_zone_bounds(v, cfgs[i].name@, 0);
            }
            assert(!zone_written_from(cfgs, i + 1, v1, j)) by {
                if zone_written_from(cfgs, i + 1, v1, j) {
                    let k = choose|k: int|
                        i + 1 <= k < cfgs.len() && find_zone(v1, #[trigger] cfgs[k].name@) == Some(
                            j,
                        );
                    lemma_find_zone_same_names(v, cfgs[k].name@, 0, v1);
                    assert(zone_written_from(cfgs, i, v, j));
                }
            }
            lemma_zone_fold_frame(cfgs, i + 1, v1, j);
        }
    }
}

/// Merging the same zone patch list twice gives the same zone list as
/// merging it once, when the patch targets never collide.
pub proof fn lemma_zone_list_apply_idempotent(
    cfgs: Seq<RaplZoneConfig>,
    i: int,
    v: Seq<RaplZoneModel>,
)
    requires
        0 <= i,
        zone_cfgs_distinct(cfgs),
        zone_list_apply_from(cfgs, i, v).1 is None,
    ensures
        zone_list_apply_from(cfgs, i, zone_list_apply_from(cfgs, i, v).0) == zone_list_apply_from(
            cfgs,
            i,
            v,
        ),
    decreases cfgs, cfgs.len() - i,
{
    if i >= cfgs.len() {
    } else {
        let c = cfgs[i];
        assert(zone_cfg_distinct(c));
        let (v1, e1) = zone_apply_spec(c, v);
        assert(e1 is None);
        lemma_find_zone_bounds(v, c.name@, 0);
        let j = find_zone(v, c.name@)->0;
        let z = v[j];
        let (subs1, se1) = zone_list_apply_from(c.subzones@, 0, z.subzones);
        assert(se1 is None);
        let (cons1, ce1) = constraint_list_apply_from(c.constraints@, 0, z.constraints);
        assert(ce1 is None);
        let z1 = RaplZoneModel { path: z.path, name: z.name, constraints: cons1, subzones: subs1 };
        assert(v1 == v.update(j, z1));
        let bigf = zone_list_apply_from(cfgs, i + 1, v1);
        assert(bigf.1 is None);
        let ff = bigf.0;
        // the later patches never touch zone j again
        lemma_zone_fold_preserves_names(cfgs, i + 1, v1);
        assert(!zone_written_from(cfgs, i + 1, v1, j)) by {
            if zone_written_from(cfgs, i + 1, v1, j) {
                let k = choose|k: int|
                    i + 1 <= k < cfgs.len() && find_zone(v1, #[trigger] cfgs[k].name@) == Some(j);
                lemma_find_zone_bounds(v1, cfgs[k].name@, 0);
                assert(v1[j].name@ == cfgs[k].name@);
                assert(v1[j].name == z.name);
                assert(z.name@ == c.name@);
                assert(cfgs[k].name@ != c.name@);
            }
        }
        lemma_zone_fold_frame(cfgs, i + 1, v1, j);
        assert(ff[j] == z1);
        // the second pass finds the same zone
        assert(forall|k: int| 0 <= k < v.len() ==> #[trigger] ff[k].name@ == v[k].name@) by {
            lemma_find_zone_bounds(v, c.name@, 0);
        }
        lemma_find_zone_same_names(v, c.name@, 0, ff);
        assert(find_zone(ff, c.name@) == Some(j));
        // and rewrites the same values into it
        lemma_zone_list_apply_idempotent(c.subzones@, 0, z.subzones);
        assert(zone_list_apply_from(c.subzones@, 0, subs1) == (subs1, Option::<SensorError>::None));
        lemma_constraint_list_apply_idempotent(c.constraints@, z.constraints);
        assert(constraint_list_apply_from(c.constraints@, 0, cons1) == (
            cons1,
            Option::<SensorError>::None,
        ));
        let (w1, g1) = zone_apply_spec(c, ff);
        assert(g1 is None);
        assert(w1 == ff.update(j, RaplZoneModel {
            path: ff[j].path,
            name: ff[j].name,
            constraints: cons1,
            subzones: subs1,
        }));
        assert(w1 =~= ff);
        // the rest of the second pass is the first-pass tail applied to
        // its own result
        lemma_zone_list_apply_idempotent(cfgs, i + 1, v1);
        assert(zone_list_apply_from(cfgs, i, zone_list_apply_from(cfgs, i, v).0)
            == zone_list_apply_from(cfgs, i, v));
    }
}

impl RaplConstraintInfo {
    /// The patch that reproduces this constraint.
    pub fn to_config(&self) -> (r: RaplConstraintConfig)
        ensures
            r == (RaplConstraintConfig {
                id: self.id,
                power_limit: Some(self.power_limit),
                time_window: self.time_window,
            }),
    {
        RaplConstraintConfig {
            id: self.id,
            power_limit: Some(self.power_limit),
            time_window: self.time_window,
        }
    }
}

/// Decides whether two constraint patches say the same thing.
pub fn constraint_config_eq(a: &RaplConstraintConfig, b: &RaplConstraintConfig) -> (r: bool)
    ensures
        r == (*a == *b),
{
    let pl = match (a.power_limit, b.power_limit) {
        (None, None) => true,
        (Some(x), Some(y)) => x == y,
        _ => false,
    };
    let tw = match (a.time_window, b.time_window) {
        (None, None) => true,
        (Some(x), Some(y)) => x == y,
        _ => false,
    };
    a.id == b.id && pl && tw
}

/// Decides whether two constraint patch lists are the same, element by
/// element.
pub fn constraint_configs_eq(a: &Vec<RaplConstraintConfig>, b: &Vec<RaplConstraintConfig>) -> (r:
    bool)
    ensures
        r == (a@ == b@),
{
    if a.len() != b.len() {
        return false;
    }
    let mut j: usize = 0;
    while j < a.len()
        invariant
            0 <= j <= a@.len(),
            a@.len() == b@.len(),
            forall|k: int| 0 <= k < j ==> a@[k] == b@[k],
        decreases a@.len() - j,
    {
        if !constraint_config_eq(&a[j], &b[j]) {
            assert(a@[j as int] != b@[j as int]);
            return false;
        }
        j += 1;
    }
    proof {
        assert(a@ =~= b@);
    }
    true
}

/// Two zone patches that say the same thing: same name, same constraint
/// patches, and the same subzone patches, recursively.
pub open spec fn zone_config_eqv(a: RaplZoneConfig, b: RaplZoneConfig) -> bool
    decreases a,
{
    &&& a.name@ == b.name@
    &&& a.constraints@ == b.constraints@
    &&& a.subzones@.len() == b.subzones@.len()
    &&& forall|i: int|
        0 <= i < a.subzones@.len() ==> zone_config_eqv(
            #[trigger] a.subzones@[i],
            b.subzones@[i],
        )
}

/// Decides whether two zone patches say the same thing.
pub fn zone_config_eq(a: &RaplZoneConfig, b: &RaplZoneConfig) -> (r: bool)
    ensures
        r == zone_config_eqv(*a, *b),
    decreases *a,
{
    if !(a.name == b.name) {
        return false;
    }
    if !constraint_configs_eq(&a.constraints, &b.constraints) {
        return false;
    }
    if a.subzones.len() != b.subzones.len() {
        return false;
    }
    let mut j: usize = 0;
    while j < a.subzones.len()
        invariant
            0 <= j <= a.subzones@.len(),
            a.subzones@.len() == b.subzones@.len(),
            a.name@ == b.name@,
            a.constraints@ == b.constraints@,
            forall|k: int|
                0 <= k < j ==> zone_config_eqv(#[trigger] a.subzones@[k], b.subzones@[k]),
        decreases a.subzones@.len() - j,
    {
        if !zone_config_eq(&a.subzones[j], &b.subzones[j]) {
            return false;
        }
        j += 1;
    }
    true
}

/// Decides whether two zone patch lists say the same thing, element by
/// element.
pub open spec fn zone_configs_eqv(a: Seq<RaplZoneConfig>, b: Seq<RaplZoneConfig>) -> bool {
    a.len() == b.len() && forall|i: int|
        0 <= i < a.len() ==> zone_config_eqv(#[trigger] a[i], b[i])
}

/// Decides whether two zone patch lists say the same thing.
pub fn zone_configs_eq(a: &Vec<RaplZoneConfig>, b: &Vec<RaplZoneConfig>) -> (r: bool)
    ensures
        r == zone_configs_eqv(a@, b@),
{
    if a.len() != b.len() {
        return false;
    }
    let mut j: usize = 0;
    while j < a.len()
        invariant
            0 <= j <= a@.len(),
            a@.len() == b@.len(),
            forall|k: int| 0 <= k < j ==> zone_config_eqv(#[trigger] a@[k], b@[k]),
        decreases a@.len() - j,
    {
        if !zone_config_eq(&a[j], &b[j]) {
            return false;
        }
        j += 1;
    }
    true
}

/// The patch that a constraint reproduces, as a value.
pub open spec fn constraint_config_of(c: RaplConstraintInfo) -> RaplConstraintConfig {
    RaplConstraintConfig {
        id: c.id,
        power_limit: Some(c.power_limit),
        time_window: c.time_window,
    }
}

/// Whether a zone patch reproduces a zone: same name, one constraint
/// patch per constraint, and the same subzone patches, recursively.
pub open spec fn zone_config_matches(c: RaplZoneConfig, z: RaplZoneModel) -> bool
    decreases c,
{
    &&& c.name == z.name
    &&& c.constraints@.len() == z.constraints.len()
    &&& forall|i: int|
        0 <= i < z.constraints.len() ==> #[trigger] c.constraints@[i] == constraint_config_of(
            z.constraints[i],
        )
    &&& c.subzones@.len() == z.subzones.len()
    &&& forall|i: int|
        0 <= i < z.subzones.len() ==> zone_config_matches(
            #[trigger] c.subzones@[i],
            z.subzones[i],
        )
}

impl RaplZoneInfo {
    /// The patch that reproduces this zone and its subzones.
    pub fn to_config(&self) -> (r: RaplZoneConfig)
        ensures
            zone_config_matches(r, zone_view(*self)),
        decreases *self,
    {
        proof {
            lemma_zones_view_props(self.subzones@);
        }
        let mut constraints: Vec<RaplConstraintConfig> = Vec::new();
        let mut i: usize = 0;
        while i < self.constraints.len()
            invariant
                0 <= i <= self.constraints@.len(),
                constraints@.len() == i,
                forall|k: int|
                    0 <= k < i ==> #[trigger] constraints@[k] == constraint_config_of(
                        self.constraints@[k],
                    ),
            decreases self.constraints@.len() - i,
        {
            constraints.push(self.constraints[i].to_config());
            i += 1;
        }
        let mut subzones: Vec<RaplZoneConfig> = Vec::new();
        let mut k: usize = 0;
        while k < self.subzones.len()
            invariant
                0 <= k <= self.subzones@.len(),
                subzones@.len() == k,
                zones_view(self.subzones@).len() == self.subzones@.len(),
                forall|m: int|
                    0 <= m < self.subzones@.len() ==> zones_view(self.subzones@)[m] == zone_view(
                        #[trigger] self.subzones@[m],
                    ),
                forall|m: int|
                    0 <= m < k ==> zone_config_matches(
                        #[trigger] subzones@[m],
                        zones_view(self.subzones@)[m],
                    ),
            decreases self.subzones@.len() - k,
        {
            subzones.push(self.subzones[k].to_config());
            k += 1;
        }
        RaplZoneConfig { name: self.name.clone(), constraints, subzones }
    }
}

impl Clone for RaplZoneConfig {
    /// A deep copy of the zone patch.
    fn clone(&self) -> (r: Self)
        decreases *self,
    {
        let mut constraints: Vec<RaplConstraintConfig> = Vec::new();
        let mut i: usize = 0;
        while i < self.constraints.len()
            decreases self.constraints.len() - i,
        {
            constraints.push(self.constraints[i]);
            i += 1;
        }
        let mut subzones: Vec<RaplZoneConfig> = Vec::new();
        let mut k: usize = 0;
        while k < self.subzones.len()
            decreases self.subzones.len() - k,
        {
            subzones.push(self.subzones[k].clone());
            k += 1;
        }
        RaplZoneConfig { name: self.name.clone(), constraints, subzones }
    }
}

} // verus!
