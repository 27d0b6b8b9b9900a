//! The platform thermal framework: the active policy UUID and the thermal
//! control circuit offset.
use vstd::prelude::*;

use crate::sensors::SensorError;

verus! {

/// The thermal framework's current state: where it was found, the active
/// and available policy UUIDs, and the TCC offset in degrees Celsius.
#[derive(Clone, Debug, PartialEq, Eq)]
pub struct DptfInfo {
    pub intxx_path: String,
    pub uuid: String,
    pub uuids: Vec<String>,
    pub tcc_offset: u64,
}

/// A patch that sets the TCC offset and the active policy UUID.
#[derive(Clone, Debug, PartialEq, Eq)]
pub struct DptfConfig {
    pub tcc_offset: u64,
    pub uuid: String,
}

impl DptfConfig {
    /// The snapshot after this patch: the offset and UUID replaced, the
    /// rest untouched.
    pub open spec fn apply_spec(self, info: DptfInfo) -> DptfInfo {
        DptfInfo {
            intxx_path: info.intxx_path,
            uuid: self.uuid,
            uuids: info.uuids,
            tcc_offset: self.tcc_offset,
        }
    }

    /// Merges the patch into the snapshot; always succeeds.
    pub fn apply(&self, info: &mut DptfInfo) -> (r: Result<(), SensorError>)
        ensures
            r is Ok,
            *final(info) == self.apply_spec(*old(info)),
    {
        info.tcc_offset = self.tcc_offset;
        info.uuid = self.uuid.clone();
        Ok(())
    }
}

impl DptfInfo {
    /// The patch that reproduces this snapshot.
    pub fn to_config(&self) -> (r: DptfConfig)
        ensures
            r == (DptfConfig { tcc_offset: self.tcc_offset, uuid: self.uuid }),
    {
        DptfConfig { tcc_offset: self.tcc_offset, uuid: self.uuid.clone() }
    }
}

/// Two thermal patches with the same offset and UUID.
pub open spec fn dptf_config_eqv(a: DptfConfig, b: DptfConfig) -> bool {
    a.tcc_offset == b.tcc_offset && a.uuid@ == b.uuid@
}

/// Decides whether two thermal patches say the same thing.
pub fn dptf_config_eq(a: &DptfConfig, b: &DptfConfig) -> (r: bool)
    ensures
        r == dptf_config_eqv(*a, *b),
{
    a.tcc_offset == b.tcc_offset && a.uuid == b.uuid
}

/// Thermal patches are idempotent.
pub proof fn lemma_dptf_apply_idempotent(cfg: DptfConfig, info: DptfInfo)
    ensures
        cfg.apply_spec(cfg.apply_spec(info)) == cfg.apply_spec(info),
{
}

} // verus!
