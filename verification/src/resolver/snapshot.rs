use vstd::prelude::*;

use super::destination::{PublishedTarget, ResolutionTarget, ResolvedDestination};
use super::{ResolutionMode, ResolverError};
use crate::addr::AddressFamily;

verus! {

/// One family's contribution to a resolution generation: a fresh address for
/// its family, or a typed failure for that family.
#[derive(Clone, Copy, Debug, PartialEq, Eq, Structural)]
pub enum FamilyCandidate {
    Address(ResolvedDestination),
    Failed(ResolverError),
}

impl FamilyCandidate {
    /// Carries an address that is still fresh at `now`. A failure never is.
    pub open spec fn fresh_at(self, now: u64) -> bool {
        self matches FamilyCandidate::Address(d) && !d.expired_at(now)
    }

    pub fn destination(&self) -> (r: Option<&ResolvedDestination>)
        ensures
            match *self {
                FamilyCandidate::Address(d) => r == Some(&d),
                FamilyCandidate::Failed(_) => r is None,
            },
    {
        match self {
            FamilyCandidate::Address(d) => Some(d),
            FamilyCandidate::Failed(_) => None,
        }
    }

    pub fn error(&self) -> (r: Option<&ResolverError>)
        ensures
            match *self {
                FamilyCandidate::Address(_) => r is None,
                FamilyCandidate::Failed(e) => r == Some(&e),
            },
    {
        match self {
            FamilyCandidate::Address(_) => None,
            FamilyCandidate::Failed(e) => Some(e),
        }
    }

    /// Whether the candidate carries an address that is still fresh at `now`.
    pub fn is_fresh(&self, now: u64) -> (r: bool)
        ensures
            r == self.fresh_at(now),
    {
        match self {
            FamilyCandidate::Address(d) => !d.is_expired(now),
            FamilyCandidate::Failed(_) => false,
        }
    }
}

pub open spec fn opt_fresh(c: Option<FamilyCandidate>, now: u64) -> bool {
    c matches Some(x) && x.fresh_at(now)
}

pub open spec fn opt_error(c: Option<FamilyCandidate>) -> Option<ResolverError> {
    match c {
        Some(FamilyCandidate::Failed(e)) => Some(e),
        _ => None,
    }
}

/// The complete result of one resolution generation for one target: the
/// generation ordinal, each queried family's candidate, and each family's typed
/// diagnostic for this generation.
#[derive(Debug, PartialEq, Eq)]
pub struct ResolutionSnapshot {
    target: ResolutionTarget,
    mode: ResolutionMode,
    generation: u64,
    ipv4: Option<FamilyCandidate>,
    ipv6: Option<FamilyCandidate>,
    ipv4_diagnostic: Option<ResolverError>,
    ipv6_diagnostic: Option<ResolverError>,
}

impl Clone for ResolutionSnapshot {
    fn clone(&self) -> (r: Self)
        ensures
            r == *self,
    {
        ResolutionSnapshot {
            target: self.target.clone(),
            mode: self.mode,
            generation: self.generation,
            ipv4: self.ipv4,
            ipv6: self.ipv6,
            ipv4_diagnostic: self.ipv4_diagnostic,
            ipv6_diagnostic: self.ipv6_diagnostic,
        }
    }
}

impl ResolutionSnapshot {
    pub closed spec fn target_spec(&self) -> ResolutionTarget {
        self.target
    }

    pub closed spec fn mode_spec(&self) -> ResolutionMode {
        self.mode
    }

    pub closed spec fn generation_spec(&self) -> u64 {
        self.generation
    }

    pub closed spec fn candidate_spec(&self, family: AddressFamily) -> Option<FamilyCandidate> {
        match family {
            AddressFamily::Ipv4 => self.ipv4,
            AddressFamily::Ipv6 => self.ipv6,
        }
    }

    pub closed spec fn diagnostic_spec(&self, family: AddressFamily) -> Option<ResolverError> {
        match family {
            AddressFamily::Ipv4 => self.ipv4_diagnostic,
            AddressFamily::Ipv6 => self.ipv6_diagnostic,
        }
    }

    /// This generation's failure for `family`: the recorded diagnostic, else
    /// the candidate's own failure.
    pub open spec fn family_error_spec(&self, family: AddressFamily) -> Option<ResolverError> {
        match self.diagnostic_spec(family) {
            Some(e) => Some(e),
            None => opt_error(self.candidate_spec(family)),
        }
    }

    /// The fresh address selected at `now`: a fresh IPv4 candidate always wins;
    /// IPv6 is selected only when no IPv4 candidate is fresh.
    pub open spec fn select_spec(&self, now: u64) -> Option<ResolvedDestination> {
        if opt_fresh(self.candidate_spec(AddressFamily::Ipv4), now) {
            Some(self.candidate_spec(AddressFamily::Ipv4)->0->Address_0)
        } else if opt_fresh(self.candidate_spec(AddressFamily::Ipv6), now) {
            Some(self.candidate_spec(AddressFamily::Ipv6)->0->Address_0)
        } else {
            None
        }
    }

    /// The selected address ignoring freshness, IPv4 first.
    pub open spec fn committed_spec(&self) -> Option<ResolvedDestination> {
        match self.candidate_spec(AddressFamily::Ipv4) {
            Some(FamilyCandidate::Address(d)) => Some(d),
            _ => match self.candidate_spec(AddressFamily::Ipv6) {
                Some(FamilyCandidate::Address(d)) => Some(d),
                _ => None,
            },
        }
    }

    pub open spec fn preferred_is_fresh_spec(&self, now: u64) -> bool {
        opt_fresh(self.candidate_spec(self.mode_spec().preferred_family_spec()), now)
    }

    pub open spec fn aggregate_error_spec(&self) -> ResolverError {
        let preferred = self.mode_spec().preferred_family_spec();
        let families = self.mode_spec().families_spec();
        if self.family_error_spec(preferred) is Some {
            self.family_error_spec(preferred)->0
        } else if self.family_error_spec(families[0]) is Some {
            self.family_error_spec(families[0])->0
        } else if families.len() > 1 && self.family_error_spec(families[1]) is Some {
            self.family_error_spec(families[1])->0
        } else {
            ResolverError::NoUsableAddress
        }
    }

    /// The diagnostic entry of one family: its failure, if it has one.
    pub open spec fn diagnostic_entry(&self, family: AddressFamily) -> Seq<
        (AddressFamily, ResolverError),
    > {
        match self.family_error_spec(family) {
            Some(e) => seq![(family, e)],
            None => seq![],
        }
    }

    /// Every recorded family failure, in the mode's family order.
    pub open spec fn diagnostics_spec(&self) -> Seq<(AddressFamily, ResolverError)> {
        let families = self.mode_spec().families_spec();
        if families.len() == 1 {
            self.diagnostic_entry(families[0])
        } else {
            self.diagnostic_entry(families[0]) + self.diagnostic_entry(families[1])
        }
    }

    /// Builds a snapshot for one target and mode, as generation zero with no
    /// recorded diagnostics.
    pub fn new(
        target: ResolutionTarget,
        mode: ResolutionMode,
        ipv4: Option<FamilyCandidate>,
        ipv6: Option<FamilyCandidate>,
    ) -> (r: Self)
        ensures
            r.target_spec() == target,
            r.mode_spec() == mode,
            r.generation_spec() == 0,
            r.candidate_spec(AddressFamily::Ipv4) == ipv4,
            r.candidate_spec(AddressFamily::Ipv6) == ipv6,
            r.diagnostic_spec(AddressFamily::Ipv4) is None,
            r.diagnostic_spec(AddressFamily::Ipv6) is None,
    {
        ResolutionSnapshot {
            target,
            mode,
            generation: 0,
            ipv4,
            ipv6,
            ipv4_diagnostic: None,
            ipv6_diagnostic: None,
        }
    }

    pub fn target(&self) -> (r: &ResolutionTarget)
        ensures
            *r == self.target_spec(),
    {
        &self.target
    }

    pub fn mode(&self) -> (r: ResolutionMode)
        ensures
            r == self.mode_spec(),
    {
        self.mode
    }

    /// The ordinal of the generation that produced this snapshot; zero means
    /// it was never published.
    pub fn generation(&self) -> (r: u64)
        ensures
            r == self.generation_spec(),
    {
        self.generation
    }

    pub(crate) fn set_generation(&mut self, generation: u64)
        ensures
            final(self).generation_spec() == generation,
            final(self).target_spec() == old(self).target_spec(),
            final(self).mode_spec() == old(self).mode_spec(),
            forall|f: AddressFamily| #[trigger]
                final(self).candidate_spec(f) == old(self).candidate_spec(f),
            forall|f: AddressFamily| #[trigger]
                final(self).diagnostic_spec(f) == old(self).diagnostic_spec(f),
    {
        self.generation = generation;
    }

    pub fn ipv4(&self) -> (r: Option<&FamilyCandidate>)
        ensures
            r == match self.candidate_spec(AddressFamily::Ipv4) {
                Some(c) => Some(&c),
                None => None::<&FamilyCandidate>,
            },
    {
        self.ipv4.as_ref()
    }

    pub fn ipv6(&self) -> (r: Option<&FamilyCandidate>)
        ensures
            r == match self.candidate_spec(AddressFamily::Ipv6) {
                Some(c) => Some(&c),
                None => None::<&FamilyCandidate>,
            },
    {
        self.ipv6.as_ref()
    }

    /// The candidate recorded for `family`, if that family was queried.
    pub fn candidate(&self, family: AddressFamily) -> (r: Option<FamilyCandidate>)
        ensures
            r == self.candidate_spec(family),
    {
        match family {
            AddressFamily::Ipv4 => self.ipv4,
            AddressFamily::Ipv6 => self.ipv6,
        }
    }

    pub(crate) fn set_candidate(&mut self, family: AddressFamily, candidate: FamilyCandidate)
        ensures
            final(self).candidate_spec(family) == Some(candidate),
            forall|f: AddressFamily|
                f != family ==> #[trigger] final(self).candidate_spec(f) == old(
                    self,
                ).candidate_spec(f),
            forall|f: AddressFamily| #[trigger]
                final(self).diagnostic_spec(f) == old(self).diagnostic_spec(f),
            final(self).target_spec() == old(self).target_spec(),
            final(self).mode_spec() == old(self).mode_spec(),
            final(self).generation_spec() == old(self).generation_spec(),
    {
        match family {
            AddressFamily::Ipv4 => self.ipv4 = Some(candidate),
            AddressFamily::Ipv6 => self.ipv6 = Some(candidate),
        }
    }

    pub(crate) fn set_diagnostic(&mut self, family: AddressFamily, error: ResolverError)
        ensures
            final(self).diagnostic_spec(family) == Some(error),
            forall|f: AddressFamily|
                f != family ==> #[trigger] final(self).diagnostic_spec(f) == old(
                    self,
                ).diagnostic_spec(f),
            forall|f: AddressFamily| #[trigger]
                final(self).candidate_spec(f) == old(self).candidate_spec(f),
            final(self).target_spec() == old(self).target_spec(),
            final(self).mode_spec() == old(self).mode_spec(),
            final(self).generation_spec() == old(self).generation_spec(),
    {
        match family {
            AddressFamily::Ipv4 => self.ipv4_diagnostic = Some(error),
            AddressFamily::Ipv6 => self.ipv6_diagnostic = Some(error),
        }
    }

    /// This generation's typed diagnostic for `family`, if that family failed.
    pub fn family_error(&self, family: AddressFamily) -> (r: Option<ResolverError>)
        ensures
            r == self.family_error_spec(family),
    {
        let explicit = match family {
            AddressFamily::Ipv4 => self.ipv4_diagnostic,
            AddressFamily::Ipv6 => self.ipv6_diagnostic,
        };
        match explicit {
            Some(e) => Some(e),
            None => match self.candidate(family) {
                Some(FamilyCandidate::Failed(e)) => Some(e),
                _ => None,
            },
        }
    }

    /// The fresh address selected for this generation at `now`, if any.
    pub fn select(&self, now: u64) -> (r: Option<ResolvedDestination>)
        ensures
            r == self.select_spec(now),
    {
        if let Some(FamilyCandidate::Address(d)) = self.ipv4 {
            if !d.is_expired(now) {
                return Some(d);
            }
        }
        if let Some(FamilyCandidate::Address(d)) = self.ipv6 {
            if !d.is_expired(now) {
                return Some(d);
            }
        }
        None
    }

    /// Whether the family this mode prefers has a fresh candidate.
    pub fn preferred_is_fresh(&self, now: u64) -> (r: bool)
        ensures
            r == self.preferred_is_fresh_spec(now),
    {
        match self.candidate(self.mode.preferred_family()) {
            Some(c) => c.is_fresh(now),
            None => false,
        }
    }

    /// The selected fresh destination as a dialable publication, if any.
    pub fn selected_target(&self, now: u64) -> (r: Option<PublishedTarget>)
        ensures
            self.select_spec(now) is None ==> r is None,
            self.select_spec(now) matches Some(d) ==> (r matches Some(p) && p.target_spec()
                == self.target_spec() && p.destination_spec() == d),
    {
        match self.select(now) {
            Some(d) => Some(PublishedTarget::new(self.target.clone(), d)),
            None => None,
        }
    }

    /// The selected destination ignoring freshness, as a publication.
    pub fn committed_target(&self) -> (r: Option<PublishedTarget>)
        ensures
            self.committed_spec() is None ==> r is None,
            self.committed_spec() matches Some(d) ==> (r matches Some(p) && p.target_spec()
                == self.target_spec() && p.destination_spec() == d),
    {
        if let Some(FamilyCandidate::Address(d)) = self.ipv4 {
            return Some(PublishedTarget::new(self.target.clone(), d));
        }
        if let Some(FamilyCandidate::Address(d)) = self.ipv6 {
            return Some(PublishedTarget::new(self.target.clone(), d));
        }
        None
    }

    /// The aggregate typed failure: the preferred family's cause, then any other
    /// recorded cause in the mode's order, else `NoUsableAddress`.
    pub fn aggregate_error(&self) -> (r: ResolverError)
        ensures
            r == self.aggregate_error_spec(),
    {
        if let Some(e) = self.family_error(self.mode.preferred_family()) {
            return e;
        }
        let families = self.mode.families();
        let mut i: usize = 0;
        while i < families.len()
            invariant
                families@ == self.mode_spec().families_spec(),
                0 <= i <= families@.len(),
                self.family_error_spec(self.mode_spec().preferred_family_spec()) is None,
                forall|j: int| 0 <= j < i ==> self.family_error_spec(#[trigger] families@[j]) is None,
            decreases families.len() - i,
        {
            if let Some(e) = self.family_error(families[i]) {
                return e;
            }
            i = i + 1;
        }
        ResolverError::NoUsableAddress
    }

    /// Every recorded family failure, in the mode's family order.
    pub fn diagnostics(&self) -> (r: Vec<(AddressFamily, ResolverError)>)
        ensures
            r@ == self.diagnostics_spec(),
    {
        let families = self.mode.families();
        let mut out: Vec<(AddressFamily, ResolverError)> = Vec::new();
        if let Some(e) = self.family_error(families[0]) {
            out.push((families[0], e));
        }
        assert(out@ == self.diagnostic_entry(families@[0]));
        if families.len() > 1 {
            let ghost before = out@;
            if let Some(e) = self.family_error(families[1]) {
                out.push((families[1], e));
            }
            assert(out@ =~= before + self.diagnostic_entry(families@[1]));
        }
        out
    }
}

} // verus!

verus! {

/// The candidate a publication keeps for one family: the incoming candidate
/// when it is fresh; otherwise a still-fresh address of the previously
/// published generation, carried forward; otherwise the incoming candidate.
pub open spec fn carried_candidate(
    previous: Option<ResolutionSnapshot>,
    incoming: Option<FamilyCandidate>,
    family: AddressFamily,
    now: u64,
) -> Option<FamilyCandidate> {
    if opt_fresh(incoming, now) {
        incoming
    } else {
        match previous {
            Some(p) => match p.candidate_spec(family) {
                Some(FamilyCandidate::Address(d)) => if !d.expired_at(now) {
                    Some(FamilyCandidate::Address(d))
                } else {
                    incoming
                },
                _ => incoming,
            },
            None => incoming,
        }
    }
}

/// The diagnostic a publication records for one family: this generation's own
/// failure for that family, captured before any carry-forward.
pub open spec fn merged_diagnostic(incoming: ResolutionSnapshot, family: AddressFamily) -> Option<
    ResolverError,
> {
    match incoming.candidate_spec(family) {
        Some(FamilyCandidate::Failed(e)) => Some(e),
        _ => incoming.diagnostic_spec(family),
    }
}

/// The owned publication state for one target/bootstrap tuple.
pub struct ResolverState {
    published: Option<ResolutionSnapshot>,
    expired: Option<ResolutionSnapshot>,
    last_error: Option<ResolverError>,
    generation: u64,
}

impl ResolverState {
    pub closed spec fn published_spec(&self) -> Option<ResolutionSnapshot> {
        self.published
    }

    pub closed spec fn expired_spec(&self) -> Option<ResolutionSnapshot> {
        self.expired
    }

    pub closed spec fn last_error_spec(&self) -> Option<ResolverError> {
        self.last_error
    }

    pub closed spec fn generation_spec(&self) -> u64 {
        self.generation
    }

    /// Creates an empty publication state.
    pub fn new() -> (r: Self)
        ensures
            r.published_spec() is None,
            r.expired_spec() is None,
            r.last_error_spec() is None,
            r.generation_spec() == 0,
    {
        ResolverState { published: None, expired: None, last_error: None, generation: 0 }
    }

    /// The published generation snapshot, fresh or not, exactly as committed.
    pub fn snapshot(&self) -> (r: Option<ResolutionSnapshot>)
        ensures
            r == self.published_spec(),
    {
        match &self.published {
            Some(s) => Some(s.clone()),
            None => None,
        }
    }

    /// The address published for the state, independent of freshness.
    pub fn published(&self) -> (r: Option<PublishedTarget>)
        ensures
            self.published_spec() is None ==> r is None,
            self.published_spec() matches Some(s) ==> (match s.committed_spec() {
                None => r is None,
                Some(d) => r matches Some(p) && p.destination_spec() == d && p.target_spec()
                    == s.target_spec(),
            }),
    {
        match &self.published {
            Some(s) => s.committed_target(),
            None => None,
        }
    }

    /// The most recent generation that expired without being replaced; it is
    /// diagnostic evidence only and is never served as success.
    pub fn last_expired(&self) -> (r: Option<PublishedTarget>)
        ensures
            self.expired_spec() is None ==> r is None,
            self.expired_spec() matches Some(s) ==> (match s.committed_spec() {
                None => r is None,
                Some(d) => r matches Some(p) && p.destination_spec() == d && p.target_spec()
                    == s.target_spec(),
            }),
    {
        match &self.expired {
            Some(s) => s.committed_target(),
            None => None,
        }
    }

    /// The last typed refresh diagnostic, if any.
    pub fn last_error(&self) -> (r: Option<ResolverError>)
        ensures
            r == self.last_error_spec(),
    {
        self.last_error
    }

    /// The ordinal of the most recently published generation; zero if none.
    pub fn generation(&self) -> (r: u64)
        ensures
            r == self.generation_spec(),
    {
        self.generation
    }

    /// Atomically publishes a complete, validated generation: assigns the next
    /// generation ordinal and clears the expired evidence and the refresh
    /// diagnostic. Returns the committed snapshot.
    pub fn publish_snapshot(&mut self, snapshot: ResolutionSnapshot) -> (r: ResolutionSnapshot)
        requires
            old(self).generation_spec() < u64::MAX,
        ensures
            final(self).generation_spec() == old(self).generation_spec() + 1,
            r.generation_spec() == final(self).generation_spec(),
            r.target_spec() == snapshot.target_spec(),
            r.mode_spec() == snapshot.mode_spec(),
            forall|f: AddressFamily| #[trigger] r.candidate_spec(f) == snapshot.candidate_spec(f),
            forall|f: AddressFamily| #[trigger] r.diagnostic_spec(f) == snapshot.diagnostic_spec(f),
            final(self).published_spec() == Some(r),
            final(self).expired_spec() is None,
            final(self).last_error_spec() is None,
    {
        let mut snapshot = snapshot;
        self.generation = self.generation + 1;
        snapshot.set_generation(self.generation);
        self.expired = None;
        self.last_error = None;
        self.published = Some(snapshot.clone());
        snapshot
    }

    /// Publishes a generation, carrying a still-fresh prior candidate forward
    /// for any family the new generation did not satisfy, and returns the merged
    /// snapshot. The generation's own failures stay recorded as diagnostics.
    pub fn publish_generation(&mut self, snapshot: ResolutionSnapshot, now: u64) -> (r:
        ResolutionSnapshot)
        requires
            old(self).generation_spec() < u64::MAX,
        ensures
            final(self).generation_spec() == old(self).generation_spec() + 1,
            r.generation_spec() == final(self).generation_spec(),
            r.target_spec() == snapshot.target_spec(),
            r.mode_spec() == snapshot.mode_spec(),
            forall|f: AddressFamily| #[trigger]
                r.candidate_spec(f) == carried_candidate(
                    old(self).published_spec(),
                    snapshot.candidate_spec(f),
                    f,
                    now,
                ),
            forall|f: AddressFamily| #[trigger]
                r.diagnostic_spec(f) == merged_diagnostic(snapshot, f),
            final(self).published_spec() == Some(r),
            final(self).expired_spec() is None,
            final(self).last_error_spec() is None,
    {
        let mut snapshot = snapshot;
        let ghost incoming = snapshot;
        if let Some(FamilyCandidate::Failed(e)) = snapshot.candidate(AddressFamily::Ipv4) {
            snapshot.set_diagnostic(AddressFamily::Ipv4, e);
        }
        if let Some(FamilyCandidate::Failed(e)) = snapshot.candidate(AddressFamily::Ipv6) {
            snapshot.set_diagnostic(AddressFamily::Ipv6, e);
        }
        assert forall|f: AddressFamily| #[trigger]
            snapshot.diagnostic_spec(f) == merged_diagnostic(incoming, f) by {
            match f {
                AddressFamily::Ipv4 => {},
                AddressFamily::Ipv6 => {},
            }
        }
        if let Some(previous) = &self.published {
            let fresh4 = match snapshot.candidate(AddressFamily::Ipv4) {
                Some(c) => c.is_fresh(now),
                None => false,
            };
            if !fresh4 {
                if let Some(FamilyCandidate::Address(d)) = previous.candidate(AddressFamily::Ipv4) {
                    if !d.is_expired(now) {
                        snapshot.set_candidate(AddressFamily::Ipv4, FamilyCandidate::Address(d));
                    }
                }
            }
            let fresh6 = match snapshot.candidate(AddressFamily::Ipv6) {
                Some(c) => c.is_fresh(now),
                None => false,
            };
            if !fresh6 {
                if let Some(FamilyCandidate::Address(d)) = previous.candidate(AddressFamily::Ipv6) {
                    if !d.is_expired(now) {
                        snapshot.set_candidate(AddressFamily::Ipv6, FamilyCandidate::Address(d));
                    }
                }
            }
        }
        assert forall|f: AddressFamily| #[trigger]
            snapshot.candidate_spec(f) == carried_candidate(
                old(self).published_spec(),
                incoming.candidate_spec(f),
                f,
                now,
            ) by {
            match f {
                AddressFamily::Ipv4 => {},
                AddressFamily::Ipv6 => {},
            }
        }
        self.generation = self.generation + 1;
        snapshot.set_generation(self.generation);
        self.expired = None;
        self.last_error = None;
        self.published = Some(snapshot.clone());
        snapshot
    }

    /// Publishes a single-family result through the same publication path.
    pub fn publish(&mut self, target: PublishedTarget) -> (r: ResolutionSnapshot)
        requires
            old(self).generation_spec() < u64::MAX,
        ensures
            final(self).generation_spec() == old(self).generation_spec() + 1,
            r.generation_spec() == final(self).generation_spec(),
            r.target_spec() == target.target_spec(),
            r.candidate_spec(target.destination_spec().family_spec()) == Some(
                FamilyCandidate::Address(target.destination_spec()),
            ),
            forall|f: AddressFamily|
                f != target.destination_spec().family_spec() ==> #[trigger] r.candidate_spec(f)
                    is None,
            forall|f: AddressFamily| #[trigger] r.diagnostic_spec(f) is None,
            target.destination_spec().family_spec() == AddressFamily::Ipv4 ==> r.mode_spec()
                == ResolutionMode::Ipv4,
            target.destination_spec().family_spec() == AddressFamily::Ipv6 ==> r.mode_spec()
                == ResolutionMode::Ipv6,
            final(self).published_spec() == Some(r),
            final(self).expired_spec() is None,
            final(self).last_error_spec() is None,
    {
        let destination = *target.destination();
        let family = destination.family();
        let (ipv4, ipv6) = match family {
            AddressFamily::Ipv4 => (Some(FamilyCandidate::Address(destination)), None),
            AddressFamily::Ipv6 => (None, Some(FamilyCandidate::Address(destination))),
        };
        let snapshot = ResolutionSnapshot::new(
            target.target().clone(),
            ResolutionMode::from_family(family),
            ipv4,
            ipv6,
        );
        let r = self.publish_snapshot(snapshot);
        assert forall|f: AddressFamily|
            f != family implies #[trigger] r.candidate_spec(f) is None by {
            match f {
                AddressFamily::Ipv4 => {},
                AddressFamily::Ipv6 => {},
            }
        }
        assert forall|f: AddressFamily| #[trigger] r.diagnostic_spec(f) is None by {
            match f {
                AddressFamily::Ipv4 => {},
                AddressFamily::Ipv6 => {},
            }
        }
        r
    }

    /// The fast path: the published result when the preferred family is fresh
    /// at `now`; otherwise `None`, so the caller runs (or joins) a refresh. A
    /// generation with no fresh family at all moves to the expired evidence
    /// slot; a partially fresh one stays published.
    pub fn serve_fresh(&mut self, now: u64) -> (r: Option<PublishedTarget>)
        ensures
            final(self).published_spec() == old(self).published_spec(),
            final(self).generation_spec() == old(self).generation_spec(),
            final(self).last_error_spec() == old(self).last_error_spec(),
            r matches Some(p) ==> !p.destination_spec().expired_at(now),
            old(self).published_spec() is None ==> r is None && final(self).expired_spec()
                == old(self).expired_spec(),
            old(self).published_spec() matches Some(s) ==> {
                if s.preferred_is_fresh_spec(now) {
                    &&& r matches Some(p)
                    &&& s.select_spec(now) == Some(p.destination_spec())
                    &&& p.target_spec() == s.target_spec()
                    &&& final(self).expired_spec() == old(self).expired_spec()
                } else if s.select_spec(now) is None {
                    r is None && final(self).expired_spec() == Some(s)
                } else {
                    r is None && final(self).expired_spec() == old(self).expired_spec()
                }
            },
    {
        let snapshot = match &self.published {
            Some(s) => s.clone(),
            None => return None,
        };
        if snapshot.preferred_is_fresh(now) {
            proof {
                law_selection_is_fresh_and_prefers_ipv4(snapshot, now);
            }
            return snapshot.selected_target(now);
        }
        if snapshot.select(now).is_none() {
            self.expired = Some(snapshot);
        }
        None
    }

    /// Records a failed refresh without touching the published generation.
    pub fn record_refresh_failure(&mut self, error: ResolverError)
        ensures
            final(self).published_spec() == old(self).published_spec(),
            final(self).expired_spec() == old(self).expired_spec(),
            final(self).generation_spec() == old(self).generation_spec(),
            final(self).last_error_spec() == Some(error),
    {
        self.last_error = Some(error);
    }
}

/// Selection only ever yields a fresh address, and a fresh IPv4 candidate is
/// always preferred over IPv6.
/// The cache serves the family the mode prefers: a snapshot for an IPv6-only
/// target whose AAAA address is still fresh counts as fresh and selects that
/// address, and one for an IPv4 or dual target counts as fresh exactly when
/// its A address is.
pub proof fn law_the_preferred_family_follows_the_mode(
    s: ResolutionSnapshot,
    d: ResolvedDestination,
    now: u64,
)
    ensures
        s.mode_spec() == ResolutionMode::Ipv6 && s.candidate_spec(AddressFamily::Ipv4) is None
            && s.candidate_spec(AddressFamily::Ipv6) == Some(FamilyCandidate::Address(d))
            && !d.expired_at(now) ==> s.preferred_is_fresh_spec(now) && s.select_spec(now) == Some(
            d,
        ),
        s.mode_spec() == ResolutionMode::Ipv6 ==> (s.preferred_is_fresh_spec(now) <==> (
        s.candidate_spec(AddressFamily::Ipv6) matches Some(FamilyCandidate::Address(a))
            && !a.expired_at(now))),
        s.mode_spec() != ResolutionMode::Ipv6 ==> (s.preferred_is_fresh_spec(now) <==> (
        s.candidate_spec(AddressFamily::Ipv4) matches Some(FamilyCandidate::Address(a))
            && !a.expired_at(now))),
{
}

pub proof fn law_selection_is_fresh_and_prefers_ipv4(s: ResolutionSnapshot, now: u64)
    ensures
        s.select_spec(now) matches Some(d) ==> !d.expired_at(now),
        opt_fresh(s.candidate_spec(AddressFamily::Ipv4), now) ==> s.select_spec(now) == Some(
            s.candidate_spec(AddressFamily::Ipv4)->0->Address_0,
        ),
        s.select_spec(now) is None ==> !opt_fresh(s.candidate_spec(AddressFamily::Ipv4), now)
            && !opt_fresh(s.candidate_spec(AddressFamily::Ipv6), now),
{
}

/// Carrying a candidate forward never hides the generation's own failure: a
/// family whose lookup failed in this generation reports that failure after
/// publication, whatever candidate it keeps.
pub proof fn law_carried_candidate_keeps_its_diagnostic(
    incoming: ResolutionSnapshot,
    family: AddressFamily,
    e: ResolverError,
)
    requires
        incoming.candidate_spec(family) == Some(FamilyCandidate::Failed(e)),
    ensures
        merged_diagnostic(incoming, family) == Some(e),
{
}

/// An expired prior address is never resurrected: any address a publication
/// keeps that did not arrive with this generation is fresh at `now`, and a
/// fresh incoming candidate is never replaced.
pub proof fn law_no_resurrection(
    previous: Option<ResolutionSnapshot>,
    incoming: Option<FamilyCandidate>,
    family: AddressFamily,
    now: u64,
)
    ensures
        carried_candidate(previous, incoming, family, now) != incoming ==> opt_fresh(
            carried_candidate(previous, incoming, family, now),
            now,
        ),
        opt_fresh(incoming, now) ==> carried_candidate(previous, incoming, family, now)
            == incoming,
        previous is None ==> carried_candidate(previous, incoming, family, now) == incoming,
{
}

} // verus!
