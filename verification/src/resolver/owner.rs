use vstd::prelude::*;

use super::bootstrap::{
    control_error_spec, BootstrapAnswer, OsIdSource, ResolutionIdSource, SteppingIdSource,
};
use super::destination::{
    BootstrapEndpoint, PublishedTarget, ResolutionTarget, ResolvedDestination,
};
use super::snapshot::ResolverState;
use super::{clamp_spec, ResolutionPolicy, ResolverError, MAX_WIRE_TTL_SECS};
use crate::addr::{family_of_spec, SocketAddress};
use crate::control::{ExchangeContext, TransportCancellation};
use crate::error::{SideEffectState, Transport, UpstreamError};
use crate::lifecycle::{
    begin_close_spec, finish_close_spec, register_spec, release_spec, CloseCompletion,
    CloseTransition, Lifecycle, LifecycleState, LifecycleView,
};
use crate::identity::ServiceIdentity;
use crate::reuse::secure::DotEndpoint;
use crate::upstream::{Endpoint, Upstream};

verus! {

/// The outcome a dropped leader publishes, so waiters never wait on a
/// generation whose leader was abandoned.
pub open spec fn abandoned_spec() -> Result<PublishedTarget, ResolverError> {
    Err(ResolverError::Cancelled)
}

fn copy_outcome(outcome: &Result<PublishedTarget, ResolverError>) -> (r: Result<
    PublishedTarget,
    ResolverError,
>)
    ensures
        r == *outcome,
{
    match outcome {
        Ok(p) => Ok(p.clone()),
        Err(e) => Err(*e),
    }
}

/// Single-flight generation state shared by one leader and its waiters.
pub struct SingleFlight {
    id: u64,
    running: bool,
    result: Option<Result<PublishedTarget, ResolverError>>,
}

impl SingleFlight {
    pub closed spec fn id_spec(&self) -> u64 {
        self.id
    }

    pub closed spec fn running_spec(&self) -> bool {
        self.running
    }

    pub closed spec fn result_spec(&self) -> Option<Result<PublishedTarget, ResolverError>> {
        self.result
    }

    pub open spec fn wait_status_spec(&self, token: u64) -> Option<
        Result<PublishedTarget, ResolverError>,
    > {
        if self.id_spec() != token {
            Some(Err(ResolverError::AlreadyResolving))
        } else if !self.running_spec() {
            match self.result_spec() {
                Some(r) => Some(r),
                None => Some(Err(ResolverError::AlreadyResolving)),
            }
        } else {
            None
        }
    }

    pub fn new() -> (r: Self)
        ensures
            r.id_spec() == 0,
            !r.running_spec(),
            r.result_spec() is None,
    {
        SingleFlight { id: 0, running: false, result: None }
    }

    /// Attempts to become the leader of a fresh generation; `None` when
    /// another caller is already leading.
    pub fn try_lead(&mut self) -> (r: Option<u64>)
        ensures
            old(self).running_spec() ==> r is None && *final(self) == *old(self),
            !old(self).running_spec() ==> {
                &&& final(self).id_spec() == (if old(self).id_spec() == u64::MAX {
                    0
                } else {
                    old(self).id_spec() + 1
                })
                &&& final(self).running_spec()
                &&& final(self).result_spec() is None
                &&& r == Some(final(self).id_spec())
            },
    {
        if self.running {
            return None;
        }
        self.id = if self.id == u64::MAX {
            0
        } else {
            self.id + 1
        };
        self.running = true;
        self.result = None;
        Some(self.id)
    }

    /// The generation a new waiter must attach to, if one is running or has an
    /// unread result.
    pub fn current_generation(&self) -> (r: Option<u64>)
        ensures
            (self.running_spec() || self.result_spec() is Some) ==> r == Some(self.id_spec()),
            !(self.running_spec() || self.result_spec() is Some) ==> r is None,
    {
        if self.running || self.result.is_some() {
            Some(self.id)
        } else {
            None
        }
    }

    /// Commits the leader's outcome for `token`. A completion for a superseded
    /// or already completed generation changes nothing.
    pub fn complete(&mut self, token: u64, result: Result<PublishedTarget, ResolverError>)
        ensures
            (old(self).id_spec() != token || !old(self).running_spec()) ==> *final(self) == *old(self),
            (old(self).id_spec() == token && old(self).running_spec()) ==> {
                &&& final(self).id_spec() == token
                &&& !final(self).running_spec()
                &&& final(self).result_spec() == Some(result)
            },
    {
        if self.id != token || !self.running {
            return;
        }
        self.running = false;
        self.result = Some(result);
    }

    /// One check of a waiter attached to `token`: `None` while that
    /// generation is still running, else its committed outcome. A waiter whose
    /// generation was superseded never adopts the newer one.
    pub fn wait_status(&self, token: u64) -> (r: Option<Result<PublishedTarget, ResolverError>>)
        ensures
            r == self.wait_status_spec(token),
    {
        if self.id != token {
            return Some(Err(ResolverError::AlreadyResolving));
        }
        if !self.running {
            return match &self.result {
                Some(outcome) => Some(copy_outcome(outcome)),
                None => Some(Err(ResolverError::AlreadyResolving)),
            };
        }
        None
    }
}

/// A superseded leader can never complete a newer generation, and a waiter
/// attached to a finished generation never observes the next one.
pub proof fn law_generations_are_isolated(f: SingleFlight, token: u64)
    requires
        f.id_spec() != token,
    ensures
        f.wait_status_spec(token) == Some(
            Err::<PublishedTarget, ResolverError>(ResolverError::AlreadyResolving),
        ),
{
}

/// A completed generation hands its waiters exactly the leader's outcome.
pub proof fn law_waiters_receive_the_leader_outcome(
    f: SingleFlight,
    result: Result<PublishedTarget, ResolverError>,
)
    requires
        !f.running_spec(),
        f.result_spec() == Some(result),
    ensures
        f.wait_status_spec(f.id_spec()) == Some(result),
{
}

/// What one synchronous resolution step decided.
pub enum ResolveStep {
    /// The resolution is complete.
    Finished(Result<PublishedTarget, ResolverError>),
    /// This caller leads the refresh generation with this token and must run
    /// the bootstrap exchange, then `finish_leader`.
    Lead(u64),
    /// This caller waits on the running generation with this token.
    Wait(u64),
}

/// `p` is the timeless publication of `target`'s IP literal: the literal
/// address in the target's family, with zero TTL and no expiry.
pub open spec fn is_literal_of(p: PublishedTarget, target: ResolutionTarget) -> bool {
    &&& target.numeric_spec() matches Some(ip)
    &&& p.target_spec() == target
    &&& p.destination_spec().address_spec() == ip
    &&& p.destination_spec().family_spec() == target.family_spec()
    &&& p.destination_spec().ttl_spec() == 0
    &&& p.destination_spec().expiry_spec() is None
}

/// The published generation's preferred family is fresh at `now`.
pub open spec fn has_fresh_publication(state: ResolverState, now: u64) -> bool {
    state.published_spec() matches Some(s) && s.preferred_is_fresh_spec(now)
}

/// The errors a control check or a commit gate can report.
pub open spec fn is_control_error(e: ResolverError) -> bool {
    e == ResolverError::Closed || e == ResolverError::Cancelled || e
        == ResolverError::BootstrapTimeout
}

/// The latest instant (milliseconds) at which a maximal TTL can still be
/// added without leaving the time base.
pub const LATEST_PUBLICATION_MS: u64 = 18446739778742256615;

/// A resolver configured for one target/bootstrap tuple.
pub struct BootstrapResolver<I: ResolutionIdSource> {
    target: ResolutionTarget,
    bootstrap: BootstrapEndpoint,
    policy: ResolutionPolicy,
    lifecycle: Lifecycle,
    cancellation: TransportCancellation,
    state: ResolverState,
    flight: SingleFlight,
    ids: I,
}

impl BootstrapResolver<OsIdSource> {
    /// Builds a production resolver whose transaction IDs come from the
    /// operating system; refuses a host with no usable entropy source.
    pub fn new(target: ResolutionTarget, bootstrap: BootstrapEndpoint, policy: ResolutionPolicy) -> (r:
        Result<Self, ResolverError>)
        ensures
            r matches Err(e) ==> e == ResolverError::UnpredictableIdsUnavailable || (e
                == ResolverError::BootstrapFamilyMismatch && target.family_spec()
                != family_of_spec(bootstrap.address_spec().ip)),
            r matches Ok(s) ==> s.target_spec() == target && s.policy_spec() == policy
                && target.family_spec() == family_of_spec(bootstrap.address_spec().ip) && s.wf(),
    {
        let ids = OsIdSource;
        if !ids.is_available() {
            return Err(ResolverError::UnpredictableIdsUnavailable);
        }
        Self::with_id_source(target, bootstrap, policy, ids)
    }
}

impl BootstrapResolver<SteppingIdSource> {
    /// Builds a resolver with deterministic, predictable transaction IDs, for
    /// tests only.
    pub fn with_deterministic_ids_for_tests(
        target: ResolutionTarget,
        bootstrap: BootstrapEndpoint,
        policy: ResolutionPolicy,
    ) -> (r: Result<Self, ResolverError>)
        ensures
            target.family_spec() != family_of_spec(bootstrap.address_spec().ip) ==> r == Err::<
                Self,
                ResolverError,
            >(ResolverError::BootstrapFamilyMismatch),
            target.family_spec() == family_of_spec(bootstrap.address_spec().ip) ==> (r matches Ok(
                s,
            ) && s.target_spec() == target && s.policy_spec() == policy && s.ids_spec().next_spec()
                == 1 && s.wf()),
    {
        Self::with_id_source(target, bootstrap, policy, SteppingIdSource::new())
    }
}

impl<I: ResolutionIdSource> BootstrapResolver<I> {
    /// Every generation this resolver publishes belongs to its own target.
    pub closed spec fn wf(&self) -> bool {
        self.state.published_spec() matches Some(s) ==> s.target_spec() == self.target
    }

    pub closed spec fn target_spec(&self) -> ResolutionTarget {
        self.target
    }

    pub closed spec fn bootstrap_spec(&self) -> BootstrapEndpoint {
        self.bootstrap
    }

    pub closed spec fn policy_spec(&self) -> ResolutionPolicy {
        self.policy
    }

    pub closed spec fn lifecycle_view(&self) -> LifecycleView {
        self.lifecycle.view()
    }

    pub closed spec fn state_spec(&self) -> ResolverState {
        self.state
    }

    pub closed spec fn flight_spec(&self) -> SingleFlight {
        self.flight
    }

    /// The transaction-ID source.
    pub closed spec fn ids_spec(&self) -> I {
        self.ids
    }

    /// Builds a resolver with an injected query-ID source; the bootstrap peer
    /// must be in the target's family.
    pub fn with_id_source(
        target: ResolutionTarget,
        bootstrap: BootstrapEndpoint,
        policy: ResolutionPolicy,
        ids: I,
    ) -> (r: Result<Self, ResolverError>)
        ensures
            target.family_spec() != family_of_spec(bootstrap.address_spec().ip) ==> r == Err::<
                Self,
                ResolverError,
            >(ResolverError::BootstrapFamilyMismatch),
            target.family_spec() == family_of_spec(bootstrap.address_spec().ip) ==> (r matches Ok(
                s,
            ) && s.target_spec() == target && s.bootstrap_spec() == bootstrap && s.policy_spec()
                == policy && s.lifecycle_view() == (LifecycleView {
                state: LifecycleState::Open,
                in_flight: 0,
            }) && s.state_spec().published_spec() is None && s.state_spec().generation_spec()
                == 0 && !s.flight_spec().running_spec() && s.ids_spec() == ids && s.wf()),
    {
        if target.family() != bootstrap.family() {
            return Err(ResolverError::BootstrapFamilyMismatch);
        }
        Ok(BootstrapResolver {
            target,
            bootstrap,
            policy,
            lifecycle: Lifecycle::new(),
            cancellation: TransportCancellation::new(),
            state: ResolverState::new(),
            flight: SingleFlight::new(),
            ids,
        })
    }

    pub fn target(&self) -> (r: &ResolutionTarget)
        ensures
            *r == self.target_spec(),
    {
        &self.target
    }

    pub fn bootstrap(&self) -> (r: BootstrapEndpoint)
        ensures
            r == self.bootstrap_spec(),
    {
        self.bootstrap
    }

    pub fn policy(&self) -> (r: &ResolutionPolicy)
        ensures
            *r == self.policy_spec(),
    {
        &self.policy
    }

    /// The publication state, so callers can observe diagnostics.
    pub fn state(&self) -> (r: &ResolverState)
        ensures
            *r == self.state_spec(),
    {
        &self.state
    }

    /// Whether this resolver draws unpredictable transaction IDs.
    pub fn uses_unpredictable_ids(&self) -> (r: bool)
        ensures
            r == self.ids_spec().unpredictable(),
    {
        self.ids.is_unpredictable()
    }

    /// Draws the transaction ID of the next bootstrap query.
    pub fn next_query_id(&mut self) -> (r: Result<u16, ResolverError>)
        requires
            old(self).wf(),
        ensures
            final(self).wf(),
            final(self).target_spec() == old(self).target_spec(),
            final(self).state_spec() == old(self).state_spec(),
            final(self).lifecycle_view() == old(self).lifecycle_view(),
            final(self).flight_spec() == old(self).flight_spec(),
            final(self).policy_spec() == old(self).policy_spec(),
            old(self).ids_spec().may_draw(r, final(self).ids_spec()),
            r matches Err(e) ==> e == ResolverError::UnpredictableIdsUnavailable,
    {
        self.ids.next_id()
    }

    /// The owner's shutdown scope.
    pub closed spec fn cancellation_spec(&self) -> TransportCancellation {
        self.cancellation
    }

    /// The owner token, so the bootstrap exchange can observe shutdown.
    pub fn owner_cancellation(&self) -> (r: TransportCancellation)
        ensures
            r == self.cancellation_spec(),
    {
        self.cancellation.clone()
    }

    pub fn lifecycle_state(&self) -> (r: LifecycleState)
        ensures
            r == self.lifecycle_view().state,
    {
        self.lifecycle.state()
    }

    /// The number of resolutions currently registered as in-flight.
    pub fn in_flight_resolutions(&self) -> (r: usize)
        ensures
            r == self.lifecycle_view().in_flight,
    {
        self.lifecycle.in_flight()
    }

    /// Begins owner shutdown and cancels owned work.
    pub fn begin_close(&mut self) -> (r: CloseTransition)
        requires
            old(self).wf(),
        ensures
            final(self).wf(),
            final(self).target_spec() == old(self).target_spec(),
            (final(self).lifecycle_view(), r) == begin_close_spec(old(self).lifecycle_view()),
            final(self).state_spec() == old(self).state_spec(),
    {
        let transition = self.lifecycle.begin_close();
        if transition == CloseTransition::BeganClosing {
            self.cancellation.cancel();
        }
        transition
    }

    /// The guarded `Closing -> Closed` transition.
    pub fn finish_close(&mut self) -> (r: CloseCompletion)
        requires
            old(self).wf(),
        ensures
            final(self).wf(),
            final(self).target_spec() == old(self).target_spec(),
            (final(self).lifecycle_view(), r) == finish_close_spec(old(self).lifecycle_view()),
            final(self).state_spec() == old(self).state_spec(),
    {
        self.lifecycle.finish_close()
    }

    /// Registers a leader or waiter so an owner close drains it too.
    pub fn register(&mut self) -> (r: Result<(), ResolverError>)
        requires
            old(self).lifecycle_view().in_flight < usize::MAX,
            old(self).wf(),
        ensures
            final(self).wf(),
            final(self).target_spec() == old(self).target_spec(),
            final(self).lifecycle_view() == register_spec(old(self).lifecycle_view()).0,
            r is Ok <==> register_spec(old(self).lifecycle_view()).1 is Ok,
            r is Err ==> r == Err::<(), ResolverError>(ResolverError::Closed),
            final(self).state_spec() == old(self).state_spec(),
    {
        match self.lifecycle.register() {
            Ok(()) => Ok(()),
            Err(_) => Err(ResolverError::Closed),
        }
    }

    /// Releases one registration.
    pub fn release(&mut self)
        requires
            old(self).lifecycle_view().in_flight > 0,
            old(self).wf(),
        ensures
            final(self).wf(),
            final(self).target_spec() == old(self).target_spec(),
            final(self).lifecycle_view() == release_spec(old(self).lifecycle_view()),
            final(self).state_spec() == old(self).state_spec(),
    {
        self.lifecycle.release()
    }

    /// Owner shutdown, then caller cancellation, then the caller's deadline.
    fn check_control(&self, context: &ExchangeContext, now: u64, side_effect: SideEffectState) -> (r:
        Result<(), ResolverError>)
        ensures
            r is Err ==> r == Err::<(), ResolverError>(ResolverError::Closed) || r == Err::<
                (),
                ResolverError,
            >(ResolverError::Cancelled) || (r == Err::<(), ResolverError>(
                ResolverError::BootstrapTimeout,
            ) && now >= context.deadline_spec()),
            r is Ok ==> now < context.deadline_spec(),
    {
        if self.cancellation.is_cancelled() {
            return Err(ResolverError::Closed);
        }
        match context.check_at(now, side_effect) {
            Ok(()) => Ok(()),
            Err(UpstreamError::Cancelled(_)) => Err(ResolverError::Cancelled),
            Err(UpstreamError::Closed(_)) => Err(ResolverError::Closed),
            Err(_) => Err(ResolverError::BootstrapTimeout),
        }
    }

    /// The lifecycle commit gate for a publication at `now`.
    fn commit_or_closed(&self, context: &ExchangeContext, now: u64) -> (r: Result<(), ResolverError>)
        ensures
            self.lifecycle_view().state != LifecycleState::Open ==> r == Err::<(), ResolverError>(
                ResolverError::Closed,
            ),
            r is Ok ==> self.lifecycle_view().state == LifecycleState::Open && now
                < context.deadline_spec(),
            r matches Err(e) ==> is_control_error(e),
    {
        let cancellation = context.cancellation();
        match self.lifecycle.commit_final_response(
            &cancellation,
            context.deadline(),
            now,
            SideEffectState::Sent,
        ) {
            Ok(()) => Ok(()),
            Err(UpstreamError::Closed(_)) => Err(ResolverError::Closed),
            Err(UpstreamError::Cancelled(_)) => Err(ResolverError::Cancelled),
            Err(_) => Err(ResolverError::BootstrapTimeout),
        }
    }

    /// The synchronous part of a resolution at `now`: a closed owner refuses;
    /// the caller's controls apply; a numeric target publishes its literal; a
    /// fresh publication is served; otherwise this caller leads or waits on one
    /// refresh generation.
    pub fn start_resolution(&mut self, context: &ExchangeContext, now: u64) -> (r: ResolveStep)
        requires
            old(self).state_spec().generation_spec() < u64::MAX,
            old(self).wf(),
        ensures
            final(self).wf(),
            old(self).lifecycle_view().state != LifecycleState::Open ==> r matches ResolveStep::Finished(
                Err(ResolverError::Closed),
            ),
            r matches ResolveStep::Finished(Err(e)) ==> *final(self) == *old(self) && is_control_error(
                e,
            ),
            r matches ResolveStep::Finished(Ok(p)) ==> !p.destination_spec().expired_at(now)
                && p.target_spec() == old(self).target_spec() && final(self).lifecycle_view().state
                == LifecycleState::Open,
            old(self).target_spec().numeric_spec() is Some ==> r is Finished,
            old(self).target_spec().numeric_spec() is Some ==> (r matches ResolveStep::Finished(Ok(p))
                ==> (is_literal_of(p, old(self).target_spec()) && (final(self).state_spec().published_spec() matches Some(
                s,
            ) && s.committed_spec() == Some(p.destination_spec())))),
            r matches ResolveStep::Lead(t) ==> final(self).flight_spec().id_spec() == t
                && final(self).flight_spec().running_spec() && !old(self).flight_spec().running_spec(),
            r matches ResolveStep::Wait(t) ==> t == old(self).flight_spec().id_spec(),
            final(self).lifecycle_view() == old(self).lifecycle_view(),
            final(self).target_spec() == old(self).target_spec(),
            final(self).policy_spec() == old(self).policy_spec(),
            final(self).state_spec().generation_spec() <= old(self).state_spec().generation_spec()
                + 1,
    {
        if self.lifecycle.ensure_open().is_err() {
            return ResolveStep::Finished(Err(ResolverError::Closed));
        }
        let control = self.check_control(context, now, SideEffectState::NotSent);
        let commit = if control.is_ok() && self.target.numeric_address().is_some() {
            self.commit_or_closed(context, now)
        } else {
            Ok(())
        };
        self.resolve_after_control(control, commit, now)
    }

    /// The resolution step once the caller's controls were checked
    /// (`control`) and, for a numeric target, the publication's commit gate
    /// (`commit`): a closed owner refuses; a failed control is returned with
    /// nothing changed; a numeric target publishes its literal if the commit
    /// succeeded; a fresh publication is served; otherwise this caller
    /// leads a new refresh generation, or waits on the running one.
    pub fn resolve_after_control(
        &mut self,
        control: Result<(), ResolverError>,
        commit: Result<(), ResolverError>,
        now: u64,
    ) -> (r: ResolveStep)
        requires
            old(self).state_spec().generation_spec() < u64::MAX,
            old(self).wf(),
        ensures
            final(self).wf(),
            final(self).lifecycle_view() == old(self).lifecycle_view(),
            final(self).target_spec() == old(self).target_spec(),
            final(self).policy_spec() == old(self).policy_spec(),
            old(self).lifecycle_view().state != LifecycleState::Open ==> r == ResolveStep::Finished(
                Err(ResolverError::Closed),
            ) && *final(self) == *old(self),
            old(self).lifecycle_view().state == LifecycleState::Open ==> (control matches Err(e) ==> (r
                == ResolveStep::Finished(Err(e)) && *final(self) == *old(self))),
            old(self).lifecycle_view().state == LifecycleState::Open && control is Ok && old(
                self,
            ).target_spec().numeric_spec() is Some ==> match commit {
                Err(e) => r == ResolveStep::Finished(Err(e)) && *final(self) == *old(self),
                Ok(()) => {
                    &&& r matches ResolveStep::Finished(Ok(p))
                    &&& is_literal_of(p, old(self).target_spec())
                    &&& final(self).state_spec().generation_spec() == old(self).state_spec().generation_spec() + 1
                    &&& final(self).state_spec().published_spec() matches Some(s)
                    &&& s.committed_spec() == Some(p.destination_spec())
                    &&& final(self).flight_spec() == old(self).flight_spec()
                },
            },
            old(self).lifecycle_view().state == LifecycleState::Open && control is Ok && old(
                self,
            ).target_spec().numeric_spec() is None ==> {
                &&& final(self).state_spec().published_spec() == old(self).state_spec().published_spec()
                &&& final(self).state_spec().generation_spec() == old(self).state_spec().generation_spec()
                &&& if has_fresh_publication(old(self).state_spec(), now) {
                    &&& r matches ResolveStep::Finished(Ok(p))
                    &&& old(self).state_spec().published_spec()->Some_0.select_spec(now) == Some(
                        p.destination_spec(),
                    )
                    &&& p.target_spec() == old(self).target_spec()
                    &&& final(self).flight_spec() == old(self).flight_spec()
                } else if old(self).flight_spec().running_spec() {
                    &&& r == ResolveStep::Wait(old(self).flight_spec().id_spec())
                    &&& final(self).flight_spec() == old(self).flight_spec()
                } else {
                    &&& r matches ResolveStep::Lead(t)
                    &&& final(self).flight_spec().id_spec() == t
                    &&& final(self).flight_spec().running_spec()
                    &&& final(self).flight_spec().result_spec() is None
                    &&& t == (if old(self).flight_spec().id_spec() == u64::MAX {
                        0
                    } else {
                        old(self).flight_spec().id_spec() + 1
                    })
                }
            },
            r matches ResolveStep::Finished(Ok(p)) ==> !p.destination_spec().expired_at(now)
                && p.target_spec() == old(self).target_spec(),
    {
        if self.lifecycle.ensure_open().is_err() {
            return ResolveStep::Finished(Err(ResolverError::Closed));
        }
        if let Err(e) = control {
            return ResolveStep::Finished(Err(e));
        }
        if let Some(address) = self.target.numeric_address() {
            if let Err(e) = commit {
                return ResolveStep::Finished(Err(e));
            }
            let published = PublishedTarget::new(
                self.target.clone(),
                ResolvedDestination::new_literal(address.ip, self.target.family()),
            );
            self.state.publish(published.clone());
            return ResolveStep::Finished(Ok(published));
        }
        if let Some(fresh) = self.state.serve_fresh(now) {
            return ResolveStep::Finished(Ok(fresh));
        }
        match self.flight.try_lead() {
            Some(token) => ResolveStep::Lead(token),
            None => ResolveStep::Wait(self.flight.id),
        }
    }
}

} // verus!

verus! {

impl<I: ResolutionIdSource> BootstrapResolver<I> {
    /// Completes a leader's generation at `now` with the bootstrap exchange's
    /// outcome: after a final control check, the answer's TTL is clamped by the
    /// policy and a fresh destination is built; a success must then win the
    /// lifecycle commit gate before it is published. A failure is recorded as
    /// the refresh diagnostic and never replaces the published value. Either
    /// outcome completes generation `token` for its waiters.
    pub fn finish_leader(
        &mut self,
        token: u64,
        exchanged: Result<BootstrapAnswer, ResolverError>,
        context: &ExchangeContext,
        now: u64,
    ) -> (r: Result<PublishedTarget, ResolverError>)
        requires
            old(self).wf(),
            old(self).state_spec().generation_spec() < u64::MAX,
            now <= LATEST_PUBLICATION_MS,
        ensures
            final(self).wf(),
            final(self).target_spec() == old(self).target_spec(),
            final(self).lifecycle_view() == old(self).lifecycle_view(),
            exchanged matches Err(e) ==> r == Err::<PublishedTarget, ResolverError>(e),
            r matches Ok(p) ==> {
                &&& exchanged matches Ok(a)
                &&& p.target_spec() == old(self).target_spec()
                &&& p.destination_spec().address_spec() == a.address
                &&& p.destination_spec().family_spec() == old(self).target_spec().family_spec()
                &&& p.destination_spec().ttl_spec() == clamp_spec(
                    a.ttl_secs as u64,
                    old(self).policy_spec().min_ttl_spec(),
                    old(self).policy_spec().max_ttl_spec(),
                )
                &&& p.destination_spec().expiry_spec() == Some(
                    (now + p.destination_spec().ttl_spec() * 1000) as u64,
                )
                &&& old(self).lifecycle_view().state == LifecycleState::Open
                &&& now < context.deadline_spec()
                &&& final(self).state_spec().generation_spec() == old(self).state_spec().generation_spec() + 1
                &&& final(self).state_spec().published_spec() matches Some(s)
                &&& s.committed_spec() == Some(p.destination_spec())
            },
            r matches Err(e) ==> {
                &&& final(self).state_spec().last_error_spec() == Some(e)
                &&& final(self).state_spec().published_spec() == old(self).state_spec().published_spec()
                &&& final(self).state_spec().generation_spec() == old(self).state_spec().generation_spec()
            },
            old(self).lifecycle_view().state != LifecycleState::Open && exchanged is Ok ==> r
                is Err,
            (old(self).flight_spec().id_spec() == token && old(self).flight_spec().running_spec())
                ==> final(self).flight_spec().result_spec() == Some(r) && !final(self).flight_spec().running_spec(),
            !(old(self).flight_spec().id_spec() == token && old(self).flight_spec().running_spec()) ==> final(self).flight_spec() == old(self).flight_spec(),
    {
        let control = match &exchanged {
            Ok(_) => self.check_control(context, now, SideEffectState::Sent),
            Err(_) => Ok(()),
        };
        let commit = self.commit_or_closed(context, now);
        self.complete_generation(token, exchanged, control, commit, now)
    }

    /// Completes generation `token` at `now` once the final control check
    /// (`control`) and the lifecycle commit gate (`commit`) were observed. A
    /// failed exchange, then a failed control, then an answer outside the
    /// target's family, then a closed owner, then a refused commit, in that
    /// order, is recorded as the refresh failure; only an answer that passes
    /// all of them is published, with its TTL clamped by the policy, as the
    /// next generation. Either outcome completes generation `token`.
    pub fn complete_generation(
        &mut self,
        token: u64,
        exchanged: Result<BootstrapAnswer, ResolverError>,
        control: Result<(), ResolverError>,
        commit: Result<(), ResolverError>,
        now: u64,
    ) -> (r: Result<PublishedTarget, ResolverError>)
        requires
            old(self).wf(),
            old(self).state_spec().generation_spec() < u64::MAX,
            now <= LATEST_PUBLICATION_MS,
        ensures
            final(self).wf(),
            final(self).target_spec() == old(self).target_spec(),
            final(self).lifecycle_view() == old(self).lifecycle_view(),
            final(self).policy_spec() == old(self).policy_spec(),
            exchanged matches Err(e) ==> r == Err::<PublishedTarget, ResolverError>(e),
            exchanged is Ok ==> (control matches Err(e) ==> r == Err::<PublishedTarget, ResolverError>(e)),
            exchanged matches Ok(a) ==> (control is Ok && family_of_spec(a.address) != old(
                self,
            ).target_spec().family_spec() ==> r == Err::<PublishedTarget, ResolverError>(
                ResolverError::FamilyMismatch,
            )),
            exchanged matches Ok(a) ==> (control is Ok && family_of_spec(a.address) == old(
                self,
            ).target_spec().family_spec() && old(self).lifecycle_view().state
                != LifecycleState::Open ==> r == Err::<PublishedTarget, ResolverError>(
                ResolverError::Closed,
            )),
            exchanged matches Ok(a) ==> (control is Ok && family_of_spec(a.address) == old(
                self,
            ).target_spec().family_spec() && old(self).lifecycle_view().state
                == LifecycleState::Open ==> (commit matches Err(e) ==> r == Err::<
                PublishedTarget,
                ResolverError,
            >(e))),
            exchanged matches Ok(a) ==> (r is Ok <==> (control is Ok && family_of_spec(a.address)
                == old(self).target_spec().family_spec() && old(self).lifecycle_view().state
                == LifecycleState::Open && commit is Ok)),
            r matches Ok(p) ==> {
                &&& exchanged matches Ok(a)
                &&& p.target_spec() == old(self).target_spec()
                &&& p.destination_spec().address_spec() == a.address
                &&& p.destination_spec().family_spec() == old(self).target_spec().family_spec()
                &&& p.destination_spec().ttl_spec() == clamp_spec(
                    a.ttl_secs as u64,
                    old(self).policy_spec().min_ttl_spec(),
                    old(self).policy_spec().max_ttl_spec(),
                )
                &&& p.destination_spec().expiry_spec() == Some(
                    (now + p.destination_spec().ttl_spec() * 1000) as u64,
                )
                &&& final(self).state_spec().generation_spec() == old(self).state_spec().generation_spec() + 1
                &&& final(self).state_spec().published_spec() matches Some(s)
                &&& s.committed_spec() == Some(p.destination_spec())
            },
            r matches Err(e) ==> {
                &&& final(self).state_spec().last_error_spec() == Some(e)
                &&& final(self).state_spec().published_spec() == old(self).state_spec().published_spec()
                &&& final(self).state_spec().generation_spec() == old(self).state_spec().generation_spec()
            },
            (old(self).flight_spec().id_spec() == token && old(self).flight_spec().running_spec())
                ==> final(self).flight_spec().result_spec() == Some(r) && !final(self).flight_spec().running_spec(),
            !(old(self).flight_spec().id_spec() == token && old(self).flight_spec().running_spec()) ==> final(self).flight_spec() == old(self).flight_spec(),
    {
        let built: Result<PublishedTarget, ResolverError> = match exchanged {
            Err(e) => Err(e),
            Ok(answer) => match control {
                Err(e) => Err(e),
                Ok(()) => {
                    let ttl = self.policy.clamp_ttl_secs(answer.ttl_secs);
                    assert(now + ttl * 1000 <= u64::MAX) by (nonlinear_arith)
                        requires
                            ttl <= MAX_WIRE_TTL_SECS,
                            now <= LATEST_PUBLICATION_MS,
                    ;
                    match ResolvedDestination::new(
                        answer.address,
                        self.target.family(),
                        ttl as u32,
                        now,
                    ) {
                        Ok(destination) => Ok(PublishedTarget::new(self.target.clone(), destination)),
                        Err(e) => Err(e),
                    }
                },
            },
        };
        let outcome = match built {
            Ok(published) => {
                let gate = match self.lifecycle.ensure_open() {
                    Err(_) => Err(ResolverError::Closed),
                    Ok(()) => commit,
                };
                match gate {
                    Ok(()) => {
                        self.state.publish(published.clone());
                        Ok(published)
                    },
                    Err(e) => {
                        self.state.record_refresh_failure(e);
                        Err(e)
                    },
                }
            },
            Err(e) => {
                self.state.record_refresh_failure(e);
                Err(e)
            },
        };
        self.flight.complete(token, copy_outcome(&outcome));
        outcome
    }

    /// Completes generation `token` for a leader that was abandoned before it
    /// produced an outcome, so its waiters never wait forever.
    pub fn abandon_leader(&mut self, token: u64)
        requires
            old(self).wf(),
        ensures
            final(self).wf(),
            final(self).target_spec() == old(self).target_spec(),
            final(self).state_spec() == old(self).state_spec(),
            final(self).lifecycle_view() == old(self).lifecycle_view(),
            (old(self).flight_spec().id_spec() == token && old(self).flight_spec().running_spec())
                ==> final(self).flight_spec().result_spec() == Some(abandoned_spec()),
            !(old(self).flight_spec().id_spec() == token && old(self).flight_spec().running_spec()) ==> final(self).flight_spec() == old(self).flight_spec(),
    {
        self.flight.complete(token, Err(ResolverError::Cancelled));
    }

    /// One check of a waiter attached to generation `token`.
    pub fn wait_status(&self, token: u64) -> (r: Option<Result<PublishedTarget, ResolverError>>)
        ensures
            r == self.flight_spec().wait_status_spec(token),
    {
        self.flight.wait_status(token)
    }
}

/// Explicit composition from a published numeric destination into the
/// numeric transport endpoints; the service identity is never rewritten.
pub struct ResolverComposition;

impl ResolverComposition {
    /// Builds a plain UDP or TCP endpoint at the resolved numeric address.
    pub fn endpoint(published: &PublishedTarget, transport: Transport) -> (r: Result<
        Endpoint,
        ResolverError,
    >)
        ensures
            published.target_spec().port_spec() == 0 ==> r == Err::<Endpoint, ResolverError>(
                ResolverError::ZeroPort,
            ),
            published.target_spec().port_spec() != 0 ==> (r matches Ok(e) && e.address_spec()
                == (SocketAddress {
                ip: published.destination_spec().address_spec(),
                port: published.target_spec().port_spec(),
            }) && e.transport_spec() == transport),
    {
        match Endpoint::new(published.dial(), transport) {
            Ok(endpoint) => Ok(endpoint),
            Err(_) => Err(ResolverError::ZeroPort),
        }
    }

    /// Builds a DoT endpoint that dials the resolved numeric address while
    /// keeping the caller's original TLS service identity.
    pub fn dot_endpoint(published: &PublishedTarget, identity: &ServiceIdentity) -> (r: Result<
        DotEndpoint,
        ResolverError,
    >)
        ensures
            published.target_spec().port_spec() == 0 ==> r == Err::<DotEndpoint, ResolverError>(
                ResolverError::ZeroPort,
            ),
            published.target_spec().port_spec() != 0 ==> (r matches Ok(e) && e.dial_spec() == (
            SocketAddress {
                ip: published.destination_spec().address_spec(),
                port: published.target_spec().port_spec(),
            }) && e.identity_spec() == identity.text_spec()),
    {
        match DotEndpoint::new(published.dial(), identity.clone()) {
            Ok(endpoint) => Ok(endpoint),
            Err(_) => Err(ResolverError::ZeroPort),
        }
    }
}

/// A resolved publication paired with the plain upstream that dials it.
pub struct ResolvedUpstream {
    upstream: Upstream,
    published: PublishedTarget,
}

impl ResolvedUpstream {
    pub closed spec fn published_spec(&self) -> PublishedTarget {
        self.published
    }

    pub closed spec fn endpoint_spec(&self) -> Endpoint {
        self.upstream.endpoint_spec()
    }

    /// Wraps a resolved publication in the plain transport it dials.
    pub fn new(published: PublishedTarget, transport: Transport) -> (r: Result<Self, ResolverError>)
        ensures
            published.target_spec().port_spec() == 0 ==> r is Err,
            published.target_spec().port_spec() != 0 ==> (r matches Ok(u) && u.published_spec()
                == published && u.endpoint_spec().address_spec() == (SocketAddress {
                ip: published.destination_spec().address_spec(),
                port: published.target_spec().port_spec(),
            }) && u.endpoint_spec().transport_spec() == transport),
    {
        let endpoint = ResolverComposition::endpoint(&published, transport)?;
        Ok(ResolvedUpstream { upstream: Upstream::new(endpoint), published })
    }

    /// The plain transport bound to the resolved numeric address.
    pub fn upstream(&self) -> (r: &Upstream)
        ensures
            r.endpoint_spec() == self.endpoint_spec(),
    {
        &self.upstream
    }

    /// The publication this upstream was built from.
    pub fn published(&self) -> (r: &PublishedTarget)
        ensures
            *r == self.published_spec(),
    {
        &self.published
    }

    /// The numeric address the transport dials.
    pub fn dial(&self) -> (r: SocketAddress)
        ensures
            r == (SocketAddress {
                ip: self.published_spec().destination_spec().address_spec(),
                port: self.published_spec().target_spec().port_spec(),
            }),
    {
        self.published.dial()
    }
}

} // verus!
