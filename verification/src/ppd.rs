//! The power-profiles bus service state: named profiles, hold leases, and
//! the arbitration that turns a set of live leases into one lease target.
use vstd::prelude::*;

use crate::daemon::{CurrentProfile, PowerProfilesDaemonProfiles, ProfileInfo};

verus! {

/// One of the three named profiles of the desktop power-profiles bus
/// interface, in its fixed precedence order for lease arbitration:
/// a PowerSaver lease dominates a Performance lease, and Balanced can
/// never be held.
#[derive(Copy, Clone, Debug, PartialEq, Eq, Structural)]
pub enum PpdProfile {
    PowerSaver,
    Balanced,
    Performance,
}

impl PpdProfile {
    /// The wire name of the profile, as the bus interface spells it.
    pub open spec fn name_spec(self) -> Seq<char> {
        match self {
            PpdProfile::PowerSaver => "power-saver"@,
            PpdProfile::Balanced => "balanced"@,
            PpdProfile::Performance => "performance"@,
        }
    }

    pub fn name(&self) -> (r: String)
        ensures
            r@ == self.name_spec(),
    {
        match self {
            PpdProfile::PowerSaver => "power-saver".to_owned(),
            PpdProfile::Balanced => "balanced".to_owned(),
            PpdProfile::Performance => "performance".to_owned(),
        }
    }

    /// Which profile a wire name denotes, if any.
    pub open spec fn from_name_spec(s: Seq<char>) -> Option<PpdProfile> {
        if s == "power-saver"@ {
            Some(PpdProfile::PowerSaver)
        } else if s == "balanced"@ {
            Some(PpdProfile::Balanced)
        } else if s == "performance"@ {
            Some(PpdProfile::Performance)
        } else {
            None
        }
    }

    pub fn from_name(s: &String) -> (r: Option<PpdProfile>)
        ensures
            r == Self::from_name_spec(s@),
    {
        if *s == "power-saver".to_owned() {
            Some(PpdProfile::PowerSaver)
        } else if *s == "balanced".to_owned() {
            Some(PpdProfile::Balanced)
        } else if *s == "performance".to_owned() {
            Some(PpdProfile::Performance)
        } else {
            None
        }
    }
}

/// A live hold lease: a client-held claim on a named profile, alive until
/// released by cookie or until its owner leaves the bus.
pub struct ProfileHold {
    pub cookie: u32,
    pub profile: PpdProfile,
    pub reason: String,
    pub application_id: String,
    /// The bus identity of the holder, kept for disconnect cleanup.
    pub sender: String,
}

/// Whether some lease in `holds` asks for profile `p`.
pub open spec fn has_lease_for(holds: Seq<ProfileHold>, p: PpdProfile) -> bool {
    exists|i: int| 0 <= i < holds.len() && holds[i].profile == p
}

/// The lease target of a lease set: PowerSaver if any lease asks for it,
/// else Performance if any lease asks for it, else none. The order of the
/// leases never matters.
pub open spec fn lease_target_spec(holds: Seq<ProfileHold>) -> Option<PpdProfile> {
    if has_lease_for(holds, PpdProfile::PowerSaver) {
        Some(PpdProfile::PowerSaver)
    } else if has_lease_for(holds, PpdProfile::Performance) {
        Some(PpdProfile::Performance)
    } else {
        None
    }
}

/// Computes the lease target of a lease set.
pub fn resolve_lease_target(holds: &Vec<ProfileHold>) -> (r: Option<PpdProfile>)
    ensures
        r == lease_target_spec(holds@),
{
    let mut saw_power_saver = false;
    let mut saw_performance = false;
    let mut i: usize = 0;
    while i < holds.len()
        invariant
            i <= holds.len(),
            saw_power_saver == has_lease_for(holds@.take(i as int), PpdProfile::PowerSaver),
            saw_performance == has_lease_for(holds@.take(i as int), PpdProfile::Performance),
        decreases holds.len() - i,
    {
        if holds[i].profile == PpdProfile::PowerSaver {
            saw_power_saver = true;
        }
        if holds[i].profile == PpdProfile::Performance {
            saw_performance = true;
        }
        proof {
            assert(holds@.take(i as int + 1).drop_last() == holds@.take(i as int));
            assert(holds@.take(i as int + 1).last() == holds@[i as int]);
        }
        i += 1;
    }
    proof {
        assert(holds@.take(holds@.len() as int) == holds@);
    }
    if saw_power_saver {
        Some(PpdProfile::PowerSaver)
    } else if saw_performance {
        Some(PpdProfile::Performance)
    } else {
        None
    }
}

/// An error of the lease service itself.
#[derive(Copy, Clone, Debug, PartialEq, Eq, Structural)]
pub enum PpdError {
    /// Balanced is the fallback profile and can never be held by a lease.
    BalancedNotAllowed,
}

impl PpdError {
    pub fn message(&self) -> (r: String)
        ensures
            r@ == "balanced profile not allowed to be held"@,
    {
        "balanced profile not allowed to be held".to_owned()
    }
}

/// All cookies in `holds` are pairwise distinct.
pub open spec fn unique_cookies(holds: Seq<ProfileHold>) -> bool {
    forall|i: int, j: int|
        0 <= i < j < holds.len() ==> #[trigger] holds[i].cookie != #[trigger] holds[j].cookie
}

/// The lease ledger of the power-profiles bus service: the live leases and
/// the cookie counter that names the next one.
pub struct PowerProfilesDaemon {
    pub next_cookie: u32,
    pub holds: Vec<ProfileHold>,
}

impl PowerProfilesDaemon {
    /// The ledger's invariant: every live cookie was allocated before
    /// `next_cookie`, no cookie names two leases, and no lease asks for
    /// Balanced.
    pub open spec fn wf(&self) -> bool {
        &&& forall|i: int|
            0 <= i < self.holds@.len() ==> (#[trigger] self.holds@[i].cookie) < self.next_cookie
        &&& unique_cookies(self.holds@)
        &&& forall|i: int|
            0 <= i < self.holds@.len() ==> (#[trigger] self.holds@[i].profile)
                != PpdProfile::Balanced
    }

    pub fn new() -> (r: Self)
        ensures
            r.next_cookie == 0,
            r.holds@.len() == 0,
            r.wf(),
    {
        PowerProfilesDaemon { next_cookie: 0, holds: Vec::new() }
    }

    /// Records a new lease and returns its cookie; a Balanced request
    /// always fails and leaves the ledger untouched.
    pub fn hold_profile(
        &mut self,
        profile: PpdProfile,
        reason: String,
        application_id: String,
        sender: String,
    ) -> (r: Result<u32, PpdError>)
        requires
            old(self).wf(),
            profile != PpdProfile::Balanced ==> old(self).next_cookie < u32::MAX,
        ensures
            final(self).wf(),
            profile == PpdProfile::Balanced ==> r == Result::<u32, PpdError>::Err(
                PpdError::BalancedNotAllowed,
            ) && *final(self) == *old(self),
            profile != PpdProfile::Balanced ==> r == Result::<u32, PpdError>::Ok(
                old(self).next_cookie,
            ) && final(self).next_cookie == old(self).next_cookie + 1 && final(self).holds@ == old(
                self,
            ).holds@.push(
                ProfileHold {
                    cookie: old(self).next_cookie,
                    profile,
                    reason,
                    application_id,
                    sender,
                },
            ),
    {
        if profile == PpdProfile::Balanced {
            return Err(PpdError::BalancedNotAllowed);
        }
        let cookie = self.next_cookie;
        self.next_cookie = self.next_cookie + 1;
        self.holds.push(ProfileHold { cookie, profile, reason, application_id, sender });
        Ok(cookie)
    }

    /// Drops the lease named by `cookie`, if any; releasing an unknown
    /// cookie is a no-op, not an error.
    pub fn release_profile(&mut self, cookie: u32)
        ensures
            final(self).holds@ == old(self).holds@.filter(|h: ProfileHold| h.cookie != cookie),
            final(self).next_cookie == old(self).next_cookie,
            old(self).wf() ==> final(self).wf(),
    {
        let ghost orig = self.holds@;
        let mut rest: Vec<ProfileHold> = Vec::new();
        core::mem::swap(&mut self.holds, &mut rest);
        let ghost mut k: int = 0;
        proof {
            reveal(Seq::filter);
            assert(orig.take(0).filter(|h: ProfileHold| h.cookie != cookie) =~= Seq::<
                ProfileHold,
            >::empty());
        }
        while rest.len() > 0
            invariant
                0 <= k <= orig.len(),
                rest@ == orig.skip(k),
                self.holds@ == orig.take(k).filter(|h: ProfileHold| h.cookie != cookie),
                self.next_cookie == old(self).next_cookie,
            decreases rest@.len(),
        {
            let h = rest.remove(0);
            let ghost prev = self.holds@;
            if h.cookie != cookie {
                self.holds.push(h);
            }
            proof {
                assert(orig.skip(k)[0] == orig[k]);
                assert(h == orig[k]);
                assert(rest@ =~= orig.skip(k + 1));
                let s1 = orig.take(k + 1);
                assert(s1.drop_last() =~= orig.take(k));
                assert(s1.last() == orig[k]);
                reveal(Seq::filter);
                if orig[k].cookie != cookie {
                    assert(s1.filter(|h: ProfileHold| h.cookie != cookie) == orig.take(k).filter(
                        |h: ProfileHold| h.cookie != cookie,
                    ).push(orig[k]));
                    assert(self.holds@ == prev.push(h));
                } else {
                    assert(s1.filter(|h: ProfileHold| h.cookie != cookie) == orig.take(k).filter(
                        |h: ProfileHold| h.cookie != cookie,
                    ));
                    assert(self.holds@ == prev);
                }
                k = k + 1;
                assert(self.holds@ == orig.take(k).filter(|h: ProfileHold| h.cookie != cookie));
            }
        }
        proof {
            assert(orig.take(orig.len() as int) =~= orig);
            if old(self).wf() {
                lemma_filter_subset(orig, |h: ProfileHold| h.cookie != cookie);
                lemma_filter_unique_cookies(orig, |h: ProfileHold| h.cookie != cookie);
            }
        }
    }

    /// Empties the ledger, handing back each dropped lease's cookie and
    /// owner identity so a release notification can be sent to each.
    pub fn invalidate_holds(&mut self) -> (r: Vec<(u32, String)>)
        ensures
            final(self).holds@.len() == 0,
            final(self).next_cookie == old(self).next_cookie,
            r@.len() == old(self).holds@.len(),
            forall|m: int|
                0 <= m < r@.len() ==> #[trigger] r@[m] == (
                    old(self).holds@[m].cookie,
                    old(self).holds@[m].sender,
                ),
            final(self).wf(),
    {
        let ghost orig = self.holds@;
        let mut rest: Vec<ProfileHold> = Vec::new();
        core::mem::swap(&mut self.holds, &mut rest);
        let mut out: Vec<(u32, String)> = Vec::new();
        let ghost mut k: int = 0;
        while rest.len() > 0
            invariant
                0 <= k <= orig.len(),
                rest@ == orig.skip(k),
                self.holds@.len() == 0,
                out@.len() == k,
                forall|m: int|
                    0 <= m < k ==> #[trigger] out@[m] == (orig[m].cookie, orig[m].sender),
            decreases rest@.len(),
        {
            let h = rest.remove(0);
            proof {
                assert(orig.skip(k)[0] == orig[k]);
                assert(rest@ =~= orig.skip(k + 1));
            }
            out.push((h.cookie, h.sender));
            proof {
                k = k + 1;
            }
        }
        proof {
            assert(orig.take(orig.len() as int) =~= orig);
        }
        out
    }
}

/// A lease set with at least one PowerSaver lease resolves to PowerSaver,
/// whatever else it holds.
pub proof fn lemma_power_saver_dominates(holds: Seq<ProfileHold>)
    requires
        has_lease_for(holds, PpdProfile::PowerSaver),
    ensures
        lease_target_spec(holds) == Some(PpdProfile::PowerSaver),
{
}

/// A lease set with no PowerSaver lease but at least one Performance lease
/// resolves to Performance.
pub proof fn lemma_performance_without_power_saver(holds: Seq<ProfileHold>)
    requires
        !has_lease_for(holds, PpdProfile::PowerSaver),
        has_lease_for(holds, PpdProfile::Performance),
    ensures
        lease_target_spec(holds) == Some(PpdProfile::Performance),
{
}

/// An empty lease set yields no lease target.
pub proof fn lemma_empty_leases_no_target(holds: Seq<ProfileHold>)
    requires
        holds.len() == 0,
    ensures
        lease_target_spec(holds) is None,
{
}

/// Every element of a filtered lease list is an element of the original.
proof fn lemma_filter_subset(s: Seq<ProfileHold>, pred: spec_fn(ProfileHold) -> bool)
    ensures
        forall|j: int|
            0 <= j < s.filter(pred).len() ==> s.contains(#[trigger] s.filter(pred)[j]),
    decreases s.len(),
{
    reveal(Seq::filter);
    if s.len() > 0 {
        let sub = s.drop_last();
        lemma_filter_subset(sub, pred);
        assert forall|j: int|
            0 <= j < s.filter(pred).len() implies s.contains(#[trigger] s.filter(pred)[j]) by {
            if j < sub.filter(pred).len() {
                assert(sub.contains(sub.filter(pred)[j]));
                let w = choose|w: int| 0 <= w < sub.len() && sub[w] == sub.filter(pred)[j];
                assert(s[w] == s.filter(pred)[j]);
            } else {
                assert(s.filter(pred)[j] == s.last());
                assert(s[s.len() - 1] == s.last());
            }
        }
    }
}

/// Filtering a lease list with pairwise-distinct cookies keeps the cookies
/// pairwise distinct.
proof fn lemma_filter_unique_cookies(s: Seq<ProfileHold>, pred: spec_fn(ProfileHold) -> bool)
    requires
        unique_cookies(s),
    ensures
        unique_cookies(s.filter(pred)),
    decreases s.len(),
{
    reveal(Seq::filter);
    if s.len() > 0 {
        let sub = s.drop_last();
        assert(unique_cookies(sub)) by {
            assert forall|i: int, j: int|
                0 <= i < j < sub.len() implies #[trigger] sub[i].cookie != #[trigger] sub[j].cookie by {
                assert(s[i] == sub[i] && s[j] == sub[j]);
            }
        }
        lemma_filter_unique_cookies(sub, pred);
        lemma_filter_subset(sub, pred);
        if pred(s.last()) {
            assert forall|i: int, j: int|
                0 <= i < j < s.filter(pred).len() implies #[trigger] s.filter(pred)[i].cookie
                != #[trigger] s.filter(pred)[j].cookie by {
                if j == s.filter(pred).len() - 1 {
                    assert(s.filter(pred)[j] == s.last());
                    assert(sub.contains(sub.filter(pred)[i]));
                    let w = choose|w: int| 0 <= w < sub.len() && sub[w] == sub.filter(pred)[i];
                    assert(s[w] == s.filter(pred)[i]);
                    assert(s[w].cookie != s[s.len() - 1].cookie);
                }
            }
        }
    }
}

/// Releasing a cookie that no live lease carries leaves the lease list,
/// and with it the resolved lease target, unchanged.
pub proof fn lemma_release_unknown_cookie_noop(holds: Seq<ProfileHold>, cookie: u32)
    requires
        forall|i: int| 0 <= i < holds.len() ==> (#[trigger] holds[i].cookie) != cookie,
    ensures
        holds.filter(|h: ProfileHold| h.cookie != cookie) == holds,
        lease_target_spec(holds.filter(|h: ProfileHold| h.cookie != cookie)) == lease_target_spec(
            holds,
        ),
    decreases holds.len(),
{
    reveal(Seq::filter);
    if holds.len() > 0 {
        let sub = holds.drop_last();
        lemma_release_unknown_cookie_noop(sub, cookie);
        assert(holds.filter(|h: ProfileHold| h.cookie != cookie) =~= holds);
    } else {
        assert(holds.filter(|h: ProfileHold| h.cookie != cookie) =~= holds);
    }
}

/// With pairwise-distinct cookies, releasing the cookie of the lease at
/// index `i` removes exactly that lease and no other.
pub proof fn lemma_release_removes_exactly_one(holds: Seq<ProfileHold>, i: int, cookie: u32)
    requires
        unique_cookies(holds),
        0 <= i < holds.len(),
        holds[i].cookie == cookie,
    ensures
        holds.filter(|h: ProfileHold| h.cookie != cookie) == holds.remove(i),
    decreases holds.len(),
{
    reveal(Seq::filter);
    let pred = |h: ProfileHold| h.cookie != cookie;
    let sub = holds.drop_last();
    assert(unique_cookies(sub)) by {
        assert forall|p: int, q: int|
            0 <= p < q < sub.len() implies #[trigger] sub[p].cookie != #[trigger] sub[q].cookie by {
            assert(holds[p] == sub[p] && holds[q] == sub[q]);
        }
    }
    if i == holds.len() - 1 {
        assert(!pred(holds.last()));
        assert(forall|j: int| 0 <= j < sub.len() ==> (#[trigger] sub[j].cookie) != cookie);
        lemma_release_unknown_cookie_noop(sub, cookie);
        assert(holds.remove(i) =~= sub);
    } else {
        assert(sub[i] == holds[i]);
        lemma_release_removes_exactly_one(sub, i, cookie);
        assert(pred(holds.last()));
        assert(holds.filter(pred) == sub.remove(i).push(holds.last()));
        assert(holds.remove(i) =~= sub.remove(i).push(holds.last()));
    }
}

/// The first live lease owned by `name`, scanning from index `i` on.
pub open spec fn first_hold_of_from(holds: Seq<ProfileHold>, name: Seq<char>, i: int) -> Option<
    int,
>
    decreases holds.len() - i,
{
    if i < 0 || i >= holds.len() {
        None
    } else if holds[i].sender@ == name {
        Some(i)
    } else {
        first_hold_of_from(holds, name, i + 1)
    }
}

/// The first live lease owned by `name`, if any.
pub open spec fn first_hold_of(holds: Seq<ProfileHold>, name: Seq<char>) -> Option<int> {
    first_hold_of_from(holds, name, 0)
}

impl PowerProfilesDaemon {
    /// Disconnect cleanup: when the bus identity `name` vanishes, the
    /// first lease it owns is released by its own cookie, which removes
    /// exactly that lease; an identity that owns none is a no-op.
    pub fn release_for_sender(&mut self, name: &String) -> (r: Option<u32>)
        requires
            old(self).wf(),
        ensures
            final(self).wf(),
            final(self).next_cookie == old(self).next_cookie,
            match first_hold_of(old(self).holds@, name@) {
                None => r is None && *final(self) == *old(self),
                Some(i) => r == Some(old(self).holds@[i].cookie) && final(self).holds@ == old(
                    self,
                ).holds@.remove(i),
            },
    {
        let ghost orig = self.holds@;
        let mut found: Option<u32> = None;
        let mut j: usize = 0;
        while j < self.holds.len() && found.is_none()
            invariant
                0 <= j <= self.holds.len(),
                self.holds@ == orig,
                found is None ==> first_hold_of(orig, name@) == first_hold_of_from(
                    orig,
                    name@,
                    j as int,
                ),
                found is Some ==> j < orig.len() && first_hold_of(orig, name@) == Some(j as int)
                    && found == Some(orig[j as int].cookie),
            decreases self.holds@.len() - j + (if found is None { 1int } else { 0int }),
        {
            if self.holds[j].sender == *name {
                found = Some(self.holds[j].cookie);
            } else {
                j += 1;
            }
        }
        match found {
            Some(cookie) => {
                proof {
                    lemma_release_removes_exactly_one(orig, j as int, cookie);
                }
                self.release_profile(cookie);
                Some(cookie)
            },
            None => {
                proof {
                    assert(first_hold_of(orig, name@) is None);
                }
                None
            },
        }
    }
}

/// A notification from the lease service to its bus dispatch loop: the
/// active profile changed; whether listeners must be told (an external
/// change) and whether every live lease must be invalidated (a manual
/// choice overriding client-held intents).
#[derive(Copy, Clone, Debug, PartialEq, Eq, Structural)]
pub enum PpdMessage {
    ProfileChanged { profile: PpdProfile, external: bool, invalidate_holds: bool },
}

impl PowerProfilesDaemon {
    /// The message the reconciliation loop sends when it applied a
    /// profile behind the bus service's back: listeners must be told and
    /// every lease dropped.
    pub fn profile_changed(&self, profile: PpdProfile) -> (r: PpdMessage)
        ensures
            r == (PpdMessage::ProfileChanged { profile, external: true, invalidate_holds: true }),
    {
        PpdMessage::ProfileChanged { profile, external: true, invalidate_holds: true }
    }

    /// Re-derives the lease target after a lease change. With no target
    /// left, the held override is dropped (the caller then wakes the
    /// reconciliation loop); with a target, the caller loads the target's
    /// profile file and installs it through `set_profile`.
    pub fn calculate_holds(&self, current: &mut CurrentProfile) -> (r: Option<PpdProfile>)
        ensures
            r == lease_target_spec(self.holds@),
            r is None ==> final(current).held is None
                && final(current).manual == old(current).manual
                && final(current).ppd_profile == old(current).ppd_profile
                && final(current).ppd_set == old(current).ppd_set,
            r is Some ==> *final(current) == *old(current),
    {
        match resolve_lease_target(&self.holds) {
            Some(target) => Some(target),
            None => {
                current.clear_held();
                None
            },
        }
    }

    /// Installs a freshly applied profile as the held (lease target) or
    /// manual (explicit set) override and reports the change to the
    /// dispatch loop; an explicit set invalidates the leases.
    pub fn set_profile(
        &self,
        current: &mut CurrentProfile,
        state: ProfileInfo,
        profile: PpdProfile,
        external: bool,
        from_hold: bool,
    ) -> (msg: PpdMessage)
        ensures
            final(current).ppd_set == from_hold,
            final(current).ppd_profile == state.cfg.ppd_name,
            from_hold ==> final(current).held == Some(state)
                && final(current).manual == old(current).manual,
            !from_hold ==> final(current).manual == Some(state)
                && final(current).held == old(current).held,
            msg == (PpdMessage::ProfileChanged { profile, external, invalidate_holds: !from_hold }),
    {
        current.install_snapshot(state, from_hold);
        PpdMessage::ProfileChanged { profile, external, invalidate_holds: !from_hold }
    }

    /// The named profile the bus service reports as active.
    pub fn get_profile(&self, current: &CurrentProfile) -> (r: PpdProfile)
        ensures
            r == current.ppd_profile,
    {
        current.ppd_profile
    }

    /// One step of the dispatch loop's notification pump: an external
    /// change is passed on to listeners, and an invalidating change drops
    /// every lease, handing back each dropped lease's cookie and owner so
    /// a release notification reaches each.
    pub fn handle_message(&mut self, msg: PpdMessage) -> (r: (
        Option<PpdProfile>,
        Vec<(u32, String)>,
    ))
        ensures
            final(self).next_cookie == old(self).next_cookie,
            old(self).wf() ==> final(self).wf(),
            match msg {
                PpdMessage::ProfileChanged { profile, external, invalidate_holds } => {
                    &&& r.0 == if external {
                        Some(profile)
                    } else {
                        Option::<PpdProfile>::None
                    }
                    &&& invalidate_holds ==> final(self).holds@.len() == 0
                        && r.1@.len() == old(self).holds@.len() && (forall|m: int|
                        0 <= m < r.1@.len() ==> #[trigger] r.1@[m] == (
                            old(self).holds@[m].cookie,
                            old(self).holds@[m].sender,
                        ))
                    &&& !invalidate_holds ==> *final(self) == *old(self) && r.1@.len() == 0
                },
            },
    {
        match msg {
            PpdMessage::ProfileChanged { profile, external, invalidate_holds } => {
                let changed = if external {
                    Some(profile)
                } else {
                    None
                };
                let released = if invalidate_holds {
                    self.invalidate_holds()
                } else {
                    Vec::new()
                };
                (changed, released)
            },
        }
    }
}

impl PpdProfile {
    /// The profile file configured for this named profile.
    pub fn into_powerd(&self, ppd: &PowerProfilesDaemonProfiles) -> (r: String)
        ensures
            *self == PpdProfile::PowerSaver ==> r == ppd.powersave,
            *self == PpdProfile::Balanced ==> r == ppd.balanced,
            *self == PpdProfile::Performance ==> r == ppd.performance,
    {
        match self {
            PpdProfile::PowerSaver => ppd.powersave.clone(),
            PpdProfile::Balanced => ppd.balanced.clone(),
            PpdProfile::Performance => ppd.performance.clone(),
        }
    }

    /// The bus description of this named profile: its name and the
    /// drivers that provide it.
    pub fn ser(&self) -> (r: Vec<(String, String)>)
        ensures
            r@.len() == 3,
            r@[0].0@ == "Profile"@ && r@[0].1@ == self.name_spec(),
            r@[1].0@ == "PlatformDriver"@ && r@[1].1@ == "powerd"@,
            r@[2].0@ == "Driver"@ && r@[2].1@ == "powerd"@,
    {
        let mut v: Vec<(String, String)> = Vec::new();
        v.push(("Profile".to_owned(), self.name()));
        v.push(("PlatformDriver".to_owned(), "powerd".to_owned()));
        v.push(("Driver".to_owned(), "powerd".to_owned()));
        v
    }
}

impl ProfileHold {
    /// The bus description of this lease: who holds it, for which
    /// profile, and why.
    pub fn ser(&self) -> (r: Vec<(String, String)>)
        ensures
            r@.len() == 3,
            r@[0].0@ == "ApplicationId"@ && r@[0].1@ == self.application_id@,
            r@[1].0@ == "Profile"@ && r@[1].1@ == self.profile.name_spec(),
            r@[2].0@ == "Reason"@ && r@[2].1@ == self.reason@,
    {
        let mut v: Vec<(String, String)> = Vec::new();
        v.push(("ApplicationId".to_owned(), self.application_id.clone()));
        v.push(("Profile".to_owned(), self.profile.name()));
        v.push(("Reason".to_owned(), self.reason.clone()));
        v
    }
}

impl PowerProfilesDaemon {
    /// The bus description of every live lease, in lease order.
    pub fn active_profile_holds(&self) -> (r: Vec<Vec<(String, String)>>)
        ensures
            r@.len() == self.holds@.len(),
            forall|i: int|
                0 <= i < r@.len() ==> {
                    &&& (#[trigger] r@[i])@.len() == 3
                    &&& r@[i]@[0].0@ == "ApplicationId"@
                    &&& r@[i]@[0].1@ == self.holds@[i].application_id@
                    &&& r@[i]@[1].0@ == "Profile"@
                    &&& r@[i]@[1].1@ == self.holds@[i].profile.name_spec()
                    &&& r@[i]@[2].0@ == "Reason"@
                    &&& r@[i]@[2].1@ == self.holds@[i].reason@
                },
    {
        let mut out: Vec<Vec<(String, String)>> = Vec::new();
        let mut j: usize = 0;
        while j < self.holds.len()
            invariant
                0 <= j <= self.holds@.len(),
                out@.len() == j,
                forall|i: int|
                    0 <= i < j ==> {
                        &&& (#[trigger] out@[i])@.len() == 3
                        &&& out@[i]@[0].0@ == "ApplicationId"@
                        &&& out@[i]@[0].1@ == self.holds@[i].application_id@
                        &&& out@[i]@[1].0@ == "Profile"@
                        &&& out@[i]@[1].1@ == self.holds@[i].profile.name_spec()
                        &&& out@[i]@[2].0@ == "Reason"@
                        &&& out@[i]@[2].1@ == self.holds@[i].reason@
                    },
            decreases self.holds@.len() - j,
        {
            out.push(self.holds[j].ser());
            j += 1;
        }
        out
    }
}

/// The three named profiles, in the order the bus service lists them.
pub fn all_profiles() -> (r: Vec<PpdProfile>)
    ensures
        r@ == seq![PpdProfile::PowerSaver, PpdProfile::Balanced, PpdProfile::Performance],
{
    let mut v: Vec<PpdProfile> = Vec::new();
    v.push(PpdProfile::PowerSaver);
    v.push(PpdProfile::Balanced);
    v.push(PpdProfile::Performance);
    proof {
        assert(v@ =~= seq![
            PpdProfile::PowerSaver,
            PpdProfile::Balanced,
            PpdProfile::Performance,
        ]);
    }
    v
}

/// The well-known bus name the service claims.
pub fn service_name() -> (r: String)
    ensures
        r@ == "org.freedesktop.UPower.PowerProfiles"@,
{
    "org.freedesktop.UPower.PowerProfiles".to_owned()
}

/// The object path the service is reachable under.
pub fn service_path() -> (r: String)
    ensures
        r@ == "/org/freedesktop/UPower/PowerProfiles"@,
{
    "/org/freedesktop/UPower/PowerProfiles".to_owned()
}

/// The version string the service reports.
pub fn service_version() -> (r: String)
    ensures
        r@ == "0.30.0"@,
{
    "0.30.0".to_owned()
}

} // verus!
