//! The daemon's shared state and its transitions: which profile override
//! is in force (a bus-held lease beats a manual choice), how control
//! requests and lease changes mutate it, and the decisions of one
//! reconciliation pass.
use vstd::prelude::*;
use vstd::string::StringExecFns;

use crate::ppd::PpdProfile;
use crate::sensors::{
    SensorConfig, SensorError, SensorInfo, sensor_apply_spec, sensor_config_eq, sensor_config_eqv,
    sensor_view,
};

verus! {

/// The default profile files used when no override is in force: one for
/// mains power, one for battery.
#[derive(Clone, Debug)]
pub struct DefaultProfiles {
    pub ac: String,
    pub battery: String,
}

/// The profile file behind each named profile of the bus service.
#[derive(Clone, Debug)]
pub struct PowerProfilesDaemonProfiles {
    pub powersave: String,
    pub balanced: String,
    pub performance: String,
}

/// The daemon's configuration, loaded once at startup.
#[derive(Clone, Debug)]
pub struct DaemonConfig {
    pub profiles: String,
    pub default: Option<DefaultProfiles>,
    pub ppd: PowerProfilesDaemonProfiles,
    pub poll_frequency: Option<u64>,
}

impl DaemonConfig {
    /// Whether an AC/battery default mapping is configured; this is what
    /// the bus service reports as battery awareness.
    pub fn battery_aware(&self) -> (r: bool)
        ensures
            r == (self.default is Some),
    {
        self.default.is_some()
    }
}

/// A profile as applied: the parsed patch and the file it came from, so
/// it can be reported back and re-applied on reconciliation.
#[derive(Clone, Debug, PartialEq, Eq)]
pub struct ProfileInfo {
    pub cfg: SensorConfig,
    pub path: String,
}

/// The daemon's one shared record: the bus-held override, the manual
/// override, the named profile last made active, and whether the daemon
/// itself set it (which suppresses echo notifications).
#[derive(Debug)]
pub struct CurrentProfile {
    pub held: Option<ProfileInfo>,
    pub manual: Option<ProfileInfo>,
    pub ppd_profile: PpdProfile,
    pub ppd_set: bool,
}

impl CurrentProfile {
    /// The override in force: a held lease beats a manual choice.
    pub open spec fn effective_override(self) -> Option<ProfileInfo> {
        if self.held is Some {
            self.held
        } else {
            self.manual
        }
    }

    /// The state at startup: no overrides, Balanced, externally set.
    pub fn new() -> (r: Self)
        ensures
            r.held is None,
            r.manual is None,
            r.ppd_profile == PpdProfile::Balanced,
            r.ppd_set == false,
    {
        CurrentProfile {
            held: None,
            manual: None,
            ppd_profile: PpdProfile::Balanced,
            ppd_set: false,
        }
    }

    /// The override in force, if any.
    pub fn get_override(&self) -> (r: Option<&ProfileInfo>)
        ensures
            r is Some <==> self.effective_override() is Some,
            r is Some ==> *r->0 == self.effective_override()->0,
    {
        match &self.held {
            Some(x) => Some(x),
            None => self.manual.as_ref(),
        }
    }

    /// A control request installed a manual override: it becomes the
    /// manual profile, any held lease snapshot is dropped, and the
    /// profile the file declares becomes active, marked externally set.
    pub fn apply_manual(&mut self, info: ProfileInfo)
        ensures
            final(self).ppd_profile == info.cfg.ppd_name,
            final(self).ppd_set == false,
            final(self).manual == Some(info),
            final(self).held is None,
    {
        self.ppd_profile = info.cfg.ppd_name;
        self.ppd_set = false;
        self.manual = Some(info);
        self.held = None;
    }

    /// A control request restored automatic management: the manual
    /// override is cleared.
    pub fn restore(&mut self)
        ensures
            final(self).manual is None,
            final(self).ppd_set == false,
            final(self).held == old(self).held,
            final(self).ppd_profile == old(self).ppd_profile,
    {
        self.manual = None;
        self.ppd_set = false;
    }

    /// The lease service installed a snapshot: a lease target becomes the
    /// held override, marked as the daemon's own change; an explicit
    /// profile set becomes the manual override, marked as an external
    /// change. Either way the profile the file declares becomes active.
    pub fn install_snapshot(&mut self, info: ProfileInfo, from_hold: bool)
        ensures
            final(self).ppd_set == from_hold,
            final(self).ppd_profile == info.cfg.ppd_name,
            from_hold ==> final(self).held == Some(info) && final(self).manual == old(self).manual,
            !from_hold ==> final(self).manual == Some(info) && final(self).held == old(self).held,
    {
        self.ppd_set = from_hold;
        self.ppd_profile = info.cfg.ppd_name;
        if from_hold {
            self.held = Some(info);
        } else {
            self.manual = Some(info);
        }
    }

    /// The lease set became empty: the held override is dropped.
    pub fn clear_held(&mut self)
        ensures
            final(self).held is None,
            final(self).manual == old(self).manual,
            final(self).ppd_profile == old(self).ppd_profile,
            final(self).ppd_set == old(self).ppd_set,
    {
        self.held = None;
    }
}

/// What one reconciliation pass should do, in falling priority.
#[derive(Copy, Clone, Debug, PartialEq, Eq, Structural)]
pub enum ReconcileAction {
    /// An override is in force: re-apply its stored patch.
    ReapplyOverride,
    /// No override, but a default mapping exists: pick a default file by
    /// battery state, load and apply it.
    SelectDefault,
    /// Nothing to do: leave the hardware as last applied.
    Idle,
}

impl CurrentProfile {
    /// The decision of one reconciliation pass: the override in force is
    /// re-applied; failing that a configured default is selected; failing
    /// that nothing is done.
    pub fn reconcile_action(&self, has_default: bool) -> (r: ReconcileAction)
        ensures
            self.effective_override() is Some ==> r == ReconcileAction::ReapplyOverride,
            self.effective_override() is None && has_default ==> r == ReconcileAction::SelectDefault,
            self.effective_override() is None && !has_default ==> r == ReconcileAction::Idle,
    {
        if self.held.is_some() || self.manual.is_some() {
            ReconcileAction::ReapplyOverride
        } else if has_default {
            ReconcileAction::SelectDefault
        } else {
            ReconcileAction::Idle
        }
    }
}

impl DefaultProfiles {
    /// The default profile file for the given power source.
    pub fn select(&self, on_battery: bool) -> (r: String)
        ensures
            on_battery ==> r == self.battery,
            !on_battery ==> r == self.ac,
    {
        if on_battery {
            self.battery.clone()
        } else {
            self.ac.clone()
        }
    }
}

/// A profile file path resolved against the profile directory.
pub open spec fn joined_path_spec(dir: Seq<char>, file: Seq<char>) -> Seq<char> {
    dir + "/"@ + file
}

/// Resolves a profile file name against the profile directory.
pub fn join_profile_path(dir: &String, file: &String) -> (r: String)
    ensures
        r@ == joined_path_spec(dir@, file@),
{
    let mut s = dir.clone();
    s.append("/");
    s.append(file.as_str());
    s
}

/// Applies a parsed profile file to the in-memory hardware snapshot and
/// records where it came from. The file itself is read and parsed by the
/// caller; this is the part that decides what the profile means.
pub fn apply_cfg_from_file(
    profiles: &String,
    path: &String,
    cfg: SensorConfig,
    info: &mut SensorInfo,
) -> (r: Result<ProfileInfo, SensorError>)
    ensures
        sensor_view(*final(info)) == sensor_apply_spec(cfg, sensor_view(*old(info))).0,
        match r {
            Ok(p) => sensor_apply_spec(cfg, sensor_view(*old(info))).1 is None && p.cfg == cfg
                && p.path@ == joined_path_spec(profiles@, path@),
            Err(e) => sensor_apply_spec(cfg, sensor_view(*old(info))).1 == Some(e),
        },
{
    let joined = join_profile_path(profiles, path);
    match cfg.apply(info) {
        Err(e) => Err(e),
        Ok(()) => Ok(ProfileInfo { cfg, path: joined }),
    }
}

/// Two applied profiles that say the same thing and came from the same
/// file.
pub open spec fn profile_info_eqv(a: ProfileInfo, b: ProfileInfo) -> bool {
    sensor_config_eqv(a.cfg, b.cfg) && a.path@ == b.path@
}

/// Two optional applied profiles that agree: both absent, or both present
/// and saying the same thing.
pub open spec fn opt_profile_info_eqv(a: Option<ProfileInfo>, b: Option<ProfileInfo>) -> bool {
    match (a, b) {
        (None, None) => true,
        (Some(x), Some(y)) => profile_info_eqv(x, y),
        _ => false,
    }
}

/// Decides whether two applied profiles say the same thing.
pub fn profile_info_eq(a: &ProfileInfo, b: &ProfileInfo) -> (r: bool)
    ensures
        r == profile_info_eqv(*a, *b),
{
    sensor_config_eq(&a.cfg, &b.cfg) && a.path == b.path
}

/// Decides whether two optional applied profiles agree.
pub fn opt_profile_info_eq(a: &Option<ProfileInfo>, b: &Option<ProfileInfo>) -> (r: bool)
    ensures
        r == opt_profile_info_eqv(*a, *b),
{
    match (a, b) {
        (None, None) => true,
        (Some(x), Some(y)) => profile_info_eq(x, y),
        _ => false,
    }
}

impl CurrentProfile {
    /// The change-detection step of one reconciliation pass: the pass
    /// remembers the overrides it saw last time; on the first pass, and
    /// whenever one of the overrides changed since, the pass records the
    /// newly applied named profile, marked externally changed, and
    /// reports that listeners must be told.
    pub fn reconcile_update(
        &mut self,
        first_pass: bool,
        prev_manual: &Option<ProfileInfo>,
        prev_held: &Option<ProfileInfo>,
        applied: Option<PpdProfile>,
    ) -> (changed: bool)
        ensures
            changed == (first_pass || !(opt_profile_info_eqv(*prev_manual, old(self).manual)
                && opt_profile_info_eqv(*prev_held, old(self).held))),
            changed && applied is Some ==> final(self).ppd_profile == applied->0
                && final(self).ppd_set == false && final(self).held == old(self).held
                && final(self).manual == old(self).manual,
            !(changed && applied is Some) ==> *final(self) == *old(self),
    {
        let changed = first_pass || !(opt_profile_info_eq(prev_manual, &self.manual)
            && opt_profile_info_eq(prev_held, &self.held));
        if changed {
            match applied {
                Some(p) => {
                    self.ppd_profile = p;
                    self.ppd_set = false;
                },
                None => {},
            }
        }
        changed
    }
}

} // verus!
