//! The platform cooling profile: a single firmware-exposed mode string.
use vstd::prelude::*;

use crate::sensors::SensorError;

verus! {

/// The currently selected platform cooling profile.
#[derive(Clone, Debug, PartialEq, Eq)]
pub struct CoolingProfileInfo(pub String);

/// A patch that selects a platform cooling profile.
#[derive(Clone, Debug, PartialEq, Eq)]
pub struct CoolingProfileConfig(pub String);

impl CoolingProfileConfig {
    /// The snapshot after this patch: the patch's profile string.
    pub open spec fn apply_spec(self, info: CoolingProfileInfo) -> CoolingProfileInfo {
        CoolingProfileInfo(self.0)
    }

    /// Merges the patch into the snapshot; always succeeds.
    pub fn apply(&self, info: &mut CoolingProfileInfo) -> (r: Result<(), SensorError>)
        ensures
            r is Ok,
            *final(info) == self.apply_spec(*old(info)),
    {
        info.0 = self.0.clone();
        Ok(())
    }
}

impl CoolingProfileInfo {
    /// The patch that reproduces this snapshot.
    pub fn to_config(&self) -> (r: CoolingProfileConfig)
        ensures
            r == CoolingProfileConfig(self.0),
    {
        CoolingProfileConfig(self.0.clone())
    }
}

/// Two cooling patches that select the same profile string.
pub open spec fn cooling_config_eqv(a: CoolingProfileConfig, b: CoolingProfileConfig) -> bool {
    a.0@ == b.0@
}

/// Decides whether two cooling patches select the same profile.
pub fn cooling_config_eq(a: &CoolingProfileConfig, b: &CoolingProfileConfig) -> (r: bool)
    ensures
        r == cooling_config_eqv(*a, *b),
{
    a.0 == b.0
}

/// Cooling-profile patches are idempotent: a second application of the
/// same patch changes nothing.
pub proof fn lemma_cooling_apply_idempotent(cfg: CoolingProfileConfig, info: CoolingProfileInfo)
    ensures
        cfg.apply_spec(cfg.apply_spec(info)) == cfg.apply_spec(info),
{
}

} // verus!
