//! GPU frequency state: hardware range and the requested min/max clocks,
//! one record per card.
use vstd::prelude::*;
use vstd::pervasive::VecAdditionalExecFns;

use crate::sensors::SensorError;

verus! {

/// One GPU's frequency state, addressed by card index.
#[derive(Clone, Debug, PartialEq, Eq)]
pub struct GpuInfo {
    pub id: usize,
    pub hw_min_freq: u64,
    pub hw_max_freq: u64,
    pub hw_eff_freq: u64,
    pub hw_cur_freq: u64,
    pub min_freq: u64,
    pub max_freq: u64,
}

/// A patch that sets one GPU's requested frequency range.
#[derive(Copy, Clone, Debug, PartialEq, Eq, Structural)]
pub struct GpuConfig {
    pub id: usize,
    pub min_freq: u64,
    pub max_freq: u64,
}

/// The first index at or after `i` whose GPU has card index `id`.
pub open spec fn find_gpu_from(v: Seq<GpuInfo>, id: usize, i: int) -> Option<int>
    decreases v.len() - i,
{
    if i < 0 || i >= v.len() {
        None
    } else if v[i].id == id {
        Some(i)
    } else {
        find_gpu_from(v, id, i + 1)
    }
}

/// The first index whose GPU has card index `id`.
pub open spec fn find_gpu(v: Seq<GpuInfo>, id: usize) -> Option<int> {
    find_gpu_from(v, id, 0)
}

/// The snapshot and outcome after merging one GPU patch: the first card
/// with the patch's index gets the patch's frequency range; a patch that
/// addresses no card fails and changes nothing.
pub open spec fn gpu_apply_spec(cfg: GpuConfig, v: Seq<GpuInfo>) -> (Seq<GpuInfo>, Option<
    SensorError,
>) {
    match find_gpu(v, cfg.id) {
        None => (v, Some(SensorError::GpuNotFound { id: cfg.id })),
        Some(j) => (
            v.update(
                j,
                GpuInfo {
                    id: v[j].id,
                    hw_min_freq: v[j].hw_min_freq,
                    hw_max_freq: v[j].hw_max_freq,
                    hw_eff_freq: v[j].hw_eff_freq,
                    hw_cur_freq: v[j].hw_cur_freq,
                    min_freq: cfg.min_freq,
                    max_freq: cfg.max_freq,
                },
            ),
            None,
        ),
    }
}

/// Finds the position of the card with index `id`.
fn find_gpu_index(v: &Vec<GpuInfo>, id: usize) -> (r: Option<usize>)
    ensures
        match r {
            Some(j) => find_gpu(v@, id) == Some(j as int) && j < v@.len(),
            None => find_gpu(v@, id) is None,
        },
{
    let mut j: usize = 0;
    while j < v.len()
        invariant
            0 <= j <= v@.len(),
            find_gpu(v@, id) == find_gpu_from(v@, id, j as int),
        decreases v@.len() - j,
    {
        if v[j].id == id {
            return Some(j);
        }
        j += 1;
    }
    None
}

impl GpuConfig {
    /// Merges the patch into the card list.
    pub fn apply(&self, gpus: &mut Vec<GpuInfo>) -> (r: Result<(), SensorError>)
        ensures
            final(gpus)@ == gpu_apply_spec(*self, old(gpus)@).0,
            match r {
                Ok(()) => gpu_apply_spec(*self, old(gpus)@).1 is None,
                Err(e) => gpu_apply_spec(*self, old(gpus)@).1 == Some(e),
            },
    {
        match find_gpu_index(gpus, self.id) {
            None => Err(SensorError::GpuNotFound { id: self.id }),
            Some(j) => {
                let cur = &gpus[j];
                let patched = GpuInfo {
                    id: cur.id,
                    hw_min_freq: cur.hw_min_freq,
                    hw_max_freq: cur.hw_max_freq,
                    hw_eff_freq: cur.hw_eff_freq,
                    hw_cur_freq: cur.hw_cur_freq,
                    min_freq: self.min_freq,
                    max_freq: self.max_freq,
                };
                gpus.set(j, patched);
                Ok(())
            },
        }
    }
}

impl GpuInfo {
    /// The patch that reproduces this card's requested range.
    pub fn to_config(&self) -> (r: GpuConfig)
        ensures
            r == (GpuConfig { id: self.id, min_freq: self.min_freq, max_freq: self.max_freq }),
    {
        GpuConfig { id: self.id, min_freq: self.min_freq, max_freq: self.max_freq }
    }
}

/// The snapshot and outcome after merging the GPU patches from index `i`
/// on, in order, stopping at the first failure.
pub open spec fn gpu_list_apply_from(cfgs: Seq<GpuConfig>, i: int, v: Seq<GpuInfo>) -> (
    Seq<GpuInfo>,
    Option<SensorError>,
)
    decreases cfgs.len() - i,
{
    if i < 0 || i >= cfgs.len() {
        (v, None)
    } else {
        let (v1, e1) = gpu_apply_spec(cfgs[i], v);
        if e1 is Some {
            (v1, e1)
        } else {
            gpu_list_apply_from(cfgs, i + 1, v1)
        }
    }
}

/// Merges every GPU patch from index `i` on, stopping at the first
/// failure.
pub fn apply_gpu_configs(cfgs: &Vec<GpuConfig>, i: usize, gpus: &mut Vec<GpuInfo>) -> (r: Result<
    (),
    SensorError,
>)
    ensures
        final(gpus)@ == gpu_list_apply_from(cfgs@, i as int, old(gpus)@).0,
        match r {
            Ok(()) => gpu_list_apply_from(cfgs@, i as int, old(gpus)@).1 is None,
            Err(e) => gpu_list_apply_from(cfgs@, i as int, old(gpus)@).1 == Some(e),
        },
    decreases cfgs@.len() - i,
{
    if i >= cfgs.len() {
        return Ok(());
    }
    match cfgs[i].apply(gpus) {
        Err(e) => Err(e),
        Ok(()) => apply_gpu_configs(cfgs, i + 1, gpus),
    }
}

/// Decides whether two GPU patches say the same thing.
pub fn gpu_config_eq(a: &GpuConfig, b: &GpuConfig) -> (r: bool)
    ensures
        r == (*a == *b),
{
    a.id == b.id && a.min_freq == b.min_freq && a.max_freq == b.max_freq
}

/// Decides whether two GPU patch lists are the same, element by element.
pub fn gpu_configs_eq(a: &Vec<GpuConfig>, b: &Vec<GpuConfig>) -> (r: bool)
    ensures
        r == (a@ == b@),
{
    if a.len() != b.len() {
        return false;
    }
    let mut j: usize = 0;
    while j < a.len()
        invariant
            0 <= j <= a@.len(),
            a@.len() == b@.len(),
            forall|k: int| 0 <= k < j ==> a@[k] == b@[k],
        decreases a@.len() - j,
    {
        if !gpu_config_eq(&a[j], &b[j]) {
            assert(a@[j as int] != b@[j as int]);
            return false;
        }
        j += 1;
    }
    proof {
        assert(a@ =~= b@);
    }
    true
}

/// One GPU patch is idempotent: the card it addressed now carries exactly
/// the patch's range, so patching again rewrites the same values.
pub proof fn lemma_gpu_apply_idempotent(cfg: GpuConfig, v: Seq<GpuInfo>)
    requires
        gpu_apply_spec(cfg, v).1 is None,
    ensures
        gpu_apply_spec(cfg, gpu_apply_spec(cfg, v).0) == gpu_apply_spec(cfg, v),
{
    lemma_find_gpu_bounds(v, cfg.id, 0);
    let j = find_gpu(v, cfg.id)->0;
    let v1 = gpu_apply_spec(cfg, v).0;
    lemma_find_gpu_update(v, cfg.id, j, v1);
    assert(gpu_apply_spec(cfg, v1).0 =~= v1);
}

/// A successful search lands in bounds, on a card with the wanted index.
proof fn lemma_find_gpu_bounds(v: Seq<GpuInfo>, id: usize, i: int)
    ensures
        match find_gpu_from(v, id, i) {
            Some(j) => i <= j < v.len() && v[j].id == id,
            None => true,
        },
    decreases v.len() - i,
{
    if i < 0 || i >= v.len() {
    } else if v[i].id == id {
    } else {
        lemma_find_gpu_bounds(v, id, i + 1);
    }
}

/// Two cards that differ at most in their requested range: same card
/// index and the same hardware-reported values.
pub open spec fn gpu_fixed_eq(a: GpuInfo, b: GpuInfo) -> bool {
    &&& a.id == b.id
    &&& a.hw_min_freq == b.hw_min_freq
    &&& a.hw_max_freq == b.hw_max_freq
    &&& a.hw_eff_freq == b.hw_eff_freq
    &&& a.hw_cur_freq == b.hw_cur_freq
}

/// Position `j` is the target of some patch in `cfgs` from index `i` on,
/// located on `v`.
pub open spec fn gpu_written_from(cfgs: Seq<GpuConfig>, i: int, v: Seq<GpuInfo>, j: int) -> bool {
    exists|k: int| i <= k < cfgs.len() && find_gpu(v, cfgs[k].id) == Some(j)
}

/// Patches never touch a card's index or hardware-reported values, nor
/// the length of the list.
proof fn lemma_gpu_fold_preserves_identity(cfgs: Seq<GpuConfig>, i: int, v: Seq<GpuInfo>)
    ensures
        gpu_list_apply_from(cfgs, i, v).0.len() == v.len(),
        forall|j: int|
            0 <= j < v.len() ==> gpu_fixed_eq(#[trigger] gpu_list_apply_from(cfgs, i, v).0[j], v[j]),
    decreases cfgs.len() - i,
{
    if i < 0 || i >= cfgs.len() {
    } else {
        let (v1, e1) = gpu_apply_spec(cfgs[i], v);
        if e1 is Some {
        } else {
            lemma_find_gpu_bounds(v, cfgs[i].id, 0);
            lemma_gpu_fold_preserves_identity(cfgs, i + 1, v1);
        }
    }
}

/// The same patch list finds the same targets on two lists whose cards
/// carry the same indices.
proof fn lemma_gpu_written_same_ids(
    cfgs: Seq<GpuConfig>,
    i: int,
    v: Seq<GpuInfo>,
    w: Seq<GpuInfo>,
    j: int,
)
    requires
        v.len() == w.len(),
        forall|k: int| 0 <= k < v.len() ==> w[k].id == v[k].id,
    ensures
        gpu_written_from(cfgs, i, w, j) == gpu_written_from(cfgs, i, v, j),
{
    assert forall|k: int| i <= k < cfgs.len() implies find_gpu(w, #[trigger] cfgs[k].id)
        == find_gpu(v, cfgs[k].id) by {
        lemma_find_gpu_from_same_ids(v, cfgs[k].id, 0, w);
    }
}

/// A position that no patch targets keeps its value through the fold.
proof fn lemma_gpu_fold_frame(cfgs: Seq<GpuConfig>, i: int, v: Seq<GpuInfo>, j: int)
    requires
        0 <= j < v.len(),
        !gpu_written_from(cfgs, i, v, j),
    ensures
        gpu_list_apply_from(cfgs, i, v).0[j] == v[j],
    decreases cfgs.len() - i,
{
    if i < 0 || i >= cfgs.len() {
    } else {
        let (v1, e1) = gpu_apply_spec(cfgs[i], v);
        if e1 is Some {
        } else {
            lemma_find_gpu_bounds(v, cfgs[i].id, 0);
            let jt = find_gpu(v, cfgs[i].id)->0;
            assert(jt != j);
            assert(v1[j] == v[j]);
            assert(forall|k: int| 0 <= k < v.len() ==> v1[k].id == v[k].id);
            assert(!gpu_written_from(cfgs, i + 1, v1, j)) by {
                lemma_gpu_written_same_ids(cfgs, i + 1, v, v1, j);
                assert(!gpu_written_from(cfgs, i + 1, v, j));
            }
            lemma_gpu_fold_frame(cfgs, i + 1, v1, j);
        }
    }
}

/// Two card lists with the same identities that agree outside the
/// patched positions end the fold in the same state.
proof fn lemma_gpu_fold_congruent(cfgs: Seq<GpuConfig>, i: int, v: Seq<GpuInfo>, w: Seq<GpuInfo>)
    requires
        0 <= i,
        v.len() == w.len(),
        forall|j: int| 0 <= j < v.len() ==> gpu_fixed_eq(#[trigger] w[j], v[j]),
        forall|j: int|
            0 <= j < v.len() && !gpu_written_from(cfgs, i, v, j) ==> #[trigger] w[j] == v[j],
        gpu_list_apply_from(cfgs, i, v).1 is None,
    ensures
        gpu_list_apply_from(cfgs, i, w) == gpu_list_apply_from(cfgs, i, v),
    decreases cfgs.len() - i,
{
    if i < 0 || i >= cfgs.len() {
        assert forall|j: int| 0 <= j < v.len() implies #[trigger] w[j] == v[j] by {
            assert(!gpu_written_from(cfgs, i, v, j));
        }
        assert(w =~= v);
    } else {
        let c = cfgs[i];
        assert(forall|k: int| 0 <= k < v.len() ==> w[k].id == v[k].id);
        lemma_find_gpu_from_same_ids(v, c.id, 0, w);
        lemma_find_gpu_bounds(v, c.id, 0);
        let (v1, e1) = gpu_apply_spec(c, v);
        let (w1, f1) = gpu_apply_spec(c, w);
        assert(e1 is None);
        let jt = find_gpu(v, c.id)->0;
        assert(v1 == v.update(jt, gpu_apply_spec(c, v).0[jt]));
        assert(v1[jt] == w1[jt]);
        assert forall|j: int| 0 <= j < v1.len() implies gpu_fixed_eq(#[trigger] w1[j], v1[j]) by {
            if j != jt {
                assert(w1[j] == w[j] && v1[j] == v[j]);
            }
        }
        assert forall|j: int|
            0 <= j < v1.len() && !gpu_written_from(cfgs, i + 1, v1, j) implies #[trigger] w1[j]
            == v1[j] by {
            if j != jt {
                assert(forall|k: int| 0 <= k < v.len() ==> v1[k].id == v[k].id);
                lemma_gpu_written_same_ids(cfgs, i + 1, v, v1, j);
                assert(!gpu_written_from(cfgs, i + 1, v, j));
                assert(!gpu_written_from(cfgs, i, v, j)) by {
                    if gpu_written_from(cfgs, i, v, j) {
                        let k = choose|k: int|
                            i <= k < cfgs.len() && find_gpu(v, #[trigger] cfgs[k].id) == Some(j);
                        if k == i {
                            assert(false);
                        } else {
                            assert(gpu_written_from(cfgs, i + 1, v, j));
                        }
                    }
                }
                assert(w1[j] == w[j] && v1[j] == v[j]);
            }
        }
        lemma_gpu_fold_congruent(cfgs, i + 1, v1, w1);
    }
}

/// Merging the same GPU patch list twice gives the same card list as
/// merging it once: after the first merge every targeted card already
/// carries its final range, so the second merge rewrites the same values.
pub proof fn lemma_gpu_list_apply_idempotent(cfgs: Seq<GpuConfig>, v: Seq<GpuInfo>)
    requires
        gpu_list_apply_from(cfgs, 0, v).1 is None,
    ensures
        gpu_list_apply_from(cfgs, 0, gpu_list_apply_from(cfgs, 0, v).0) == gpu_list_apply_from(
            cfgs,
            0,
            v,
        ),
{
    let w = gpu_list_apply_from(cfgs, 0, v).0;
    lemma_gpu_fold_preserves_identity(cfgs, 0, v);
    assert forall|j: int|
        0 <= j < v.len() && !gpu_written_from(cfgs, 0, v, j) implies #[trigger] w[j] == v[j] by {
        lemma_gpu_fold_frame(cfgs, 0, v, j);
    }
    lemma_gpu_fold_congruent(cfgs, 0, v, w);
}

/// Updating the found card with a record that keeps its index leaves the
/// search result unchanged.
proof fn lemma_find_gpu_update(v: Seq<GpuInfo>, id: usize, j: int, v1: Seq<GpuInfo>)
    requires
        find_gpu(v, id) == Some(j),
        v1.len() == v.len(),
        0 <= j < v.len(),
        forall|k: int| 0 <= k < v.len() ==> v1[k].id == v[k].id,
    ensures
        find_gpu(v1, id) == Some(j),
{
    lemma_find_gpu_from_same_ids(v, id, 0, v1);
}

/// Two card lists with the same indices at every position agree on where
/// a given card index is first found.
proof fn lemma_find_gpu_from_same_ids(v: Seq<GpuInfo>, id: usize, i: int, v1: Seq<GpuInfo>)
    requires
        v1.len() == v.len(),
        forall|k: int| 0 <= k < v.len() ==> v1[k].id == v[k].id,
    ensures
        find_gpu_from(v1, id, i) == find_gpu_from(v, id, i),
    decreases v.len() - i,
{
    if i < 0 || i >= v.len() {
    } else {
        lemma_find_gpu_from_same_ids(v, id, i + 1, v1);
    }
}

} // verus!
