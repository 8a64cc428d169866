use vstd::prelude::*;

use super::{
    ReuseKey, ReuseKeyView, SecureKey, SecureKind, IDLE_TIMEOUT, MAX_PENDING_PER_CONNECTION,
};
use crate::addr::SocketAddress;
use crate::control::TransportCancellation;
use crate::error::{SideEffectState, Transport, UpstreamError};
use crate::identity::{ServiceIdentity, TrustPolicy};
use crate::lifecycle::{
    begin_close_spec, commit_final_spec, finish_close_spec, lifecycle_wf, register_spec,
    release_spec, CloseCompletion, CloseTransition, Lifecycle, LifecycleState, LifecycleView,
};

verus! {

/// A secure endpoint that cannot be dialed.
#[derive(Clone, Copy, Debug, PartialEq, Eq, Structural)]
pub enum SecureEndpointError {
    ZeroDialPort,
}

/// A DNS-over-TLS destination: a numeric dial address plus a separate TLS
/// service identity.
#[derive(Debug, PartialEq, Eq)]
pub struct DotEndpoint {
    dial: SocketAddress,
    identity: ServiceIdentity,
}

impl DotEndpoint {
    pub closed spec fn dial_spec(&self) -> SocketAddress {
        self.dial
    }

    pub closed spec fn identity_spec(&self) -> Seq<char> {
        self.identity.text_spec()
    }

    /// Creates a DoT endpoint without resolving the identity or opening a
    /// socket; a zero dial port is refused.
    pub fn new(dial: SocketAddress, identity: ServiceIdentity) -> (r: Result<Self, SecureEndpointError>)
        ensures
            dial.port == 0 ==> r == Err::<Self, SecureEndpointError>(SecureEndpointError::ZeroDialPort),
            dial.port != 0 ==> (r matches Ok(e) && e.dial_spec() == dial && e.identity_spec()
                == identity.text_spec()),
    {
        if dial.port == 0 {
            return Err(SecureEndpointError::ZeroDialPort);
        }
        Ok(DotEndpoint { dial, identity })
    }

    /// The numeric destination.
    pub fn dial(&self) -> (r: SocketAddress)
        ensures
            r == self.dial_spec(),
    {
        self.dial
    }

    /// The TLS service identity, independent of the dial address.
    pub fn identity(&self) -> (r: &ServiceIdentity)
        ensures
            r.text_spec() == self.identity_spec(),
    {
        &self.identity
    }
}

/// An idle entry at least `IDLE_TIMEOUT` old at `now`.
pub open spec fn session_stale(idle_since: u64, now: u64) -> bool {
    now >= idle_since && now - idle_since >= IDLE_TIMEOUT
}

pub open spec fn dec(n: nat) -> nat {
    if n > 0 {
        (n - 1) as nat
    } else {
        0
    }
}

/// Owns the reusable authenticated DoT session for one endpoint: at most one
/// idle session and at most one outstanding exchange. `S` is the session
/// handle.
pub struct SecureReuseOwner<S> {
    endpoint: DotEndpoint,
    tls: TrustPolicy,
    lifecycle: Lifecycle,
    cancellation: TransportCancellation,
    idle: Option<S>,
    idle_since: u64,
    leased: usize,
    closed: bool,
}

/// The DoT owner as plain values.
pub struct SecurePoolView<S> {
    pub lifecycle: LifecycleView,
    pub idle: Option<S>,
    pub idle_since: u64,
    pub leased: nat,
    pub closed: bool,
}

/// The DoT owner's invariant: one outstanding exchange at most, and no idle
/// session once the owner left `Open`.
pub open spec fn secure_pool_wf<S>(v: SecurePoolView<S>) -> bool {
    &&& v.leased <= MAX_PENDING_PER_CONNECTION
    &&& v.lifecycle.state != LifecycleState::Open ==> v.idle is None
    &&& lifecycle_wf(v.lifecycle)
}

impl<S> View for SecureReuseOwner<S> {
    type V = SecurePoolView<S>;

    closed spec fn view(&self) -> SecurePoolView<S> {
        SecurePoolView {
            lifecycle: self.lifecycle.view(),
            idle: self.idle,
            idle_since: self.idle_since,
            leased: self.leased as nat,
            closed: self.closed,
        }
    }
}

impl<S> SecureReuseOwner<S> {
    pub closed spec fn wf(&self) -> bool {
        secure_pool_wf(self@)
    }

    pub closed spec fn endpoint_spec(&self) -> &DotEndpoint {
        &self.endpoint
    }

    pub closed spec fn tls_spec(&self) -> TrustPolicy {
        self.tls
    }

    /// Creates an owner for one validated endpoint whose trust policy already
    /// produced a usable client configuration.
    pub fn new(endpoint: DotEndpoint, tls: TrustPolicy, now: u64) -> (r: Self)
        ensures
            r.wf(),
            *r.endpoint_spec() == endpoint,
            r.tls_spec() == tls,
            r@.lifecycle == (LifecycleView { state: LifecycleState::Open, in_flight: 0 }),
            r@.idle is None,
            r@.leased == 0,
            !r@.closed,
    {
        SecureReuseOwner {
            endpoint,
            tls,
            lifecycle: Lifecycle::new(),
            cancellation: TransportCancellation::new(),
            idle: None,
            idle_since: now,
            leased: 0,
            closed: false,
        }
    }

    /// The secure endpoint this owner reuses sessions for.
    pub fn endpoint(&self) -> (r: &DotEndpoint)
        ensures
            r == self.endpoint_spec(),
    {
        &self.endpoint
    }

    /// The reuse key of this owner's endpoint and policy: the numeric dial,
    /// DoT, the service identity, and the trust policy, never a hostname in
    /// place of the dial.
    pub fn reuse_key(&self) -> (r: Result<ReuseKey, UpstreamError>)
        ensures
            r is Ok,
            r matches Ok(k) ==> (k@.dial == self.endpoint_spec().dial_spec() && k@.transport
                == Transport::Tcp && k@.negotiated is None && k@.secure is Some),
            r matches Ok(k) ==> (k@.secure matches Some(s) && s.kind == SecureKind::Dot && s.identity
                == self.endpoint_spec().identity_spec() && s.authority is None
                && s.insecure_skip_verify == self.tls_spec().insecure_spec() && s.roots_revision
                == self.tls_spec().revision_spec()),
    {
        ReuseKey::plain_secure_endpoint(
            self.endpoint.dial(),
            SecureKey::from_identity(SecureKind::Dot, self.endpoint.identity(), None, &self.tls),
        )
    }

    /// The owner lifecycle state.
    pub fn lifecycle_state(&self) -> (r: LifecycleState)
        ensures
            r == self@.lifecycle.state,
    {
        self.lifecycle.state()
    }

    /// The number of sessions currently leased to callers.
    pub fn leased_connections(&self) -> (r: usize)
        ensures
            r == self@.leased,
    {
        self.leased
    }

    /// Whether an idle authenticated session is retained (0 or 1).
    pub fn idle_connections(&self) -> (r: usize)
        ensures
            r == (if self@.idle is Some { 1usize } else { 0usize }),
    {
        if self.idle.is_some() {
            1
        } else {
            0
        }
    }

    /// The number of in-flight exchanges registered with the lifecycle.
    pub fn in_flight_exchanges(&self) -> (r: usize)
        ensures
            r == self@.lifecycle.in_flight,
    {
        self.lifecycle.in_flight()
    }

    /// The owner's shutdown scope.
    pub closed spec fn cancellation_spec(&self) -> TransportCancellation {
        self.cancellation
    }

    /// The owner cancellation token.
    pub fn owner_cancellation(&self) -> (r: TransportCancellation)
        ensures
            r == self.cancellation_spec(),
    {
        self.cancellation.clone()
    }

    /// Begins owner shutdown; `Open -> Closing` cancels owned work and drops
    /// the idle session, which carries no registration.
    pub fn begin_close(&mut self) -> (r: CloseTransition)
        requires
            old(self).wf(),
        ensures
            final(self).wf(),
            (final(self)@.lifecycle, r) == begin_close_spec(old(self)@.lifecycle),
            r == CloseTransition::BeganClosing ==> final(self)@ == (SecurePoolView {
                lifecycle: final(self)@.lifecycle,
                idle: None,
                ..old(self)@
            }),
            r != CloseTransition::BeganClosing ==> final(self)@ == old(self)@,
    {
        let transition = self.lifecycle.begin_close();
        if transition == CloseTransition::BeganClosing {
            self.cancellation.cancel();
            self.idle = None;
        }
        transition
    }

    /// Completes close after every leased session returned.
    pub fn finish_close(&mut self) -> (r: CloseCompletion)
        requires
            old(self).wf(),
        ensures
            final(self).wf(),
            (final(self)@.lifecycle, r) == finish_close_spec(old(self)@.lifecycle),
            final(self)@ == (SecurePoolView {
                lifecycle: final(self)@.lifecycle,
                closed: true,
                ..old(self)@
            }),
    {
        self.closed = true;
        self.lifecycle.finish_close()
    }

    /// Registers one in-flight exchange.
    pub fn register(&mut self) -> (r: Result<(), UpstreamError>)
        requires
            old(self).wf(),
            old(self)@.lifecycle.in_flight < usize::MAX,
        ensures
            final(self).wf(),
            (final(self)@.lifecycle, r) == register_spec(old(self)@.lifecycle),
            final(self)@ == (SecurePoolView { lifecycle: final(self)@.lifecycle, ..old(self)@ }),
    {
        self.lifecycle.register()
    }

    /// Releases one exchange registration.
    pub fn release_registration(&mut self)
        requires
            old(self).wf(),
            old(self)@.lifecycle.in_flight > 0,
        ensures
            final(self).wf(),
            final(self)@ == (SecurePoolView { lifecycle: release_spec(old(self)@.lifecycle), ..old(self)@ }),
    {
        self.lifecycle.release()
    }

    /// Claims the single serial slot; refused when the pool is closed, the
    /// owner is not `Open`, or the slot is taken.
    pub fn admit_lease(&mut self) -> (r: bool)
        requires
            old(self).wf(),
        ensures
            final(self).wf(),
            r == (!old(self)@.closed && old(self)@.lifecycle.state == LifecycleState::Open
                && old(self)@.leased < MAX_PENDING_PER_CONNECTION),
            r ==> final(self)@ == (SecurePoolView { leased: old(self)@.leased + 1, ..old(self)@ }),
            !r ==> final(self)@ == old(self)@,
    {
        if self.closed || self.lifecycle.state() != LifecycleState::Open {
            return false;
        }
        if self.leased >= MAX_PENDING_PER_CONNECTION {
            return false;
        }
        self.leased = self.leased + 1;
        true
    }

    /// Releases the serial slot when a lease ends.
    pub fn lease_done(&mut self)
        requires
            old(self).wf(),
        ensures
            final(self).wf(),
            final(self)@ == (SecurePoolView { leased: dec(old(self)@.leased), ..old(self)@ }),
    {
        if self.leased > 0 {
            self.leased = self.leased - 1;
        }
    }

    /// Takes the idle session at `now`; a stale one is discarded rather than
    /// handed out. (The caller still probes a returned session for a peer
    /// close before writing.)
    pub fn checkout_live(&mut self, now: u64) -> (r: Option<S>)
        requires
            old(self).wf(),
        ensures
            final(self).wf(),
            final(self)@ == (SecurePoolView { idle: None, ..old(self)@ }),
            (old(self)@.idle is None || session_stale(old(self)@.idle_since, now)) ==> r is None,
            !(old(self)@.idle is None || session_stale(old(self)@.idle_since, now)) ==> r
                == old(self)@.idle,
    {
        let session = self.idle.take();
        if now >= self.idle_since && now - self.idle_since >= IDLE_TIMEOUT {
            return None;
        }
        session
    }

    /// Retains a completed session at `now`, releasing the serial slot; a
    /// closed pool or an owner past `Open` discards it instead.
    pub fn release(&mut self, session: S, now: u64)
        requires
            old(self).wf(),
        ensures
            final(self).wf(),
            final(self)@.leased == dec(old(self)@.leased),
            final(self)@.lifecycle == old(self)@.lifecycle,
            final(self)@.closed == old(self)@.closed,
            (old(self)@.closed || old(self)@.lifecycle.state != LifecycleState::Open) ==> final(self)@.idle == old(self)@.idle && final(self)@.idle_since == old(self)@.idle_since,
            !(old(self)@.closed || old(self)@.lifecycle.state != LifecycleState::Open) ==> final(self)@.idle == Some(session) && final(self)@.idle_since == now,
    {
        if self.leased > 0 {
            self.leased = self.leased - 1;
        }
        if self.closed || self.lifecycle.state() != LifecycleState::Open {
            return;
        }
        self.idle = Some(session);
        self.idle_since = now;
    }

    /// The final commit of one pooled response at `now`, applied before the
    /// session may be re-pooled; on failure the session is discarded.
    pub fn commit_pooled_response(
        &self,
        caller_cancellation: &TransportCancellation,
        deadline: u64,
        now: u64,
    ) -> (r: Result<(), UpstreamError>)
        ensures
            r == commit_final_spec(self@.lifecycle, true, now, deadline, SideEffectState::Sent) || r
                == commit_final_spec(self@.lifecycle, false, now, deadline, SideEffectState::Sent),
    {
        self.lifecycle.commit_final_response(caller_cancellation, deadline, now, SideEffectState::Sent)
    }
}

/// Whether a retained DoH session may serve a request for `base` at `now`: it
/// must not be stale, and it must have been established for the same numeric
/// dial, transport, and secure identity (the negotiated protocol is the
/// session's own and is not compared).
pub open spec fn doh_reusable(stored: ReuseKeyView, base: ReuseKeyView, idle_since: u64, now: u64) -> bool {
    &&& !session_stale(idle_since, now)
    &&& stored.dial == base.dial
    &&& stored.transport == base.transport
    &&& stored.secure == base.secure
}

/// The DoH owner as plain values: the idle session with the key it was
/// established under, the serial slot, the HTTP/2 scopes still to drain, and
/// whether the pooled teardown finished.
pub struct DohPoolView<S> {
    pub lifecycle: LifecycleView,
    pub idle: Option<(ReuseKeyView, S)>,
    pub idle_since: u64,
    pub leased: nat,
    pub closed: bool,
    pub scopes: Seq<u64>,
    pub teardown_complete: bool,
}

/// The DoH owner's invariant: one outstanding exchange at most, and each scope
/// registered once.
pub open spec fn doh_pool_wf<S>(v: DohPoolView<S>) -> bool {
    &&& v.leased <= MAX_PENDING_PER_CONNECTION
    &&& v.scopes.no_duplicates()
    &&& lifecycle_wf(v.lifecycle)
}

/// Owns the reusable authenticated DoH session for one endpoint `E`: at most
/// one idle session (kept with the key it was established under), at most one
/// outstanding exchange, and the registry of HTTP/2 scopes, by identifier,
/// that must drain before close completes. `S` is the session handle.
pub struct DohReuseOwner<E, S> {
    endpoint: E,
    tls: TrustPolicy,
    lifecycle: Lifecycle,
    cancellation: TransportCancellation,
    idle: Option<(ReuseKey, S)>,
    idle_since: u64,
    leased: usize,
    closed: bool,
    scopes: Vec<u64>,
    teardown_complete: bool,
}

pub open spec fn opt_entry_view<S>(o: Option<(ReuseKey, S)>) -> Option<(ReuseKeyView, S)> {
    match o {
        Some((k, s)) => Some((k@, s)),
        None => None,
    }
}

impl<E, S> View for DohReuseOwner<E, S> {
    type V = DohPoolView<S>;

    closed spec fn view(&self) -> DohPoolView<S> {
        DohPoolView {
            lifecycle: self.lifecycle.view(),
            idle: opt_entry_view(self.idle),
            idle_since: self.idle_since,
            leased: self.leased as nat,
            closed: self.closed,
            scopes: self.scopes@,
            teardown_complete: self.teardown_complete,
        }
    }
}

impl<E, S> DohReuseOwner<E, S> {
    pub closed spec fn wf(&self) -> bool {
        doh_pool_wf(self@)
    }

    pub closed spec fn endpoint_spec(&self) -> &E {
        &self.endpoint
    }

    pub closed spec fn tls_spec(&self) -> TrustPolicy {
        self.tls
    }

    /// Creates an owner for one validated DoH endpoint whose trust policy
    /// already produced a usable client configuration.
    pub fn new(endpoint: E, tls: TrustPolicy, now: u64) -> (r: Self)
        ensures
            r.wf(),
            *r.endpoint_spec() == endpoint,
            r.tls_spec() == tls,
            r@.lifecycle == (LifecycleView { state: LifecycleState::Open, in_flight: 0 }),
            r@.idle is None,
            r@.leased == 0,
            !r@.closed,
            r@.scopes.len() == 0,
            !r@.teardown_complete,
    {
        let r = DohReuseOwner {
            endpoint,
            tls,
            lifecycle: Lifecycle::new(),
            cancellation: TransportCancellation::new(),
            idle: None,
            idle_since: now,
            leased: 0,
            closed: false,
            scopes: Vec::new(),
            teardown_complete: false,
        };
        assert(r@.scopes.no_duplicates());
        r
    }

    /// The endpoint this owner reuses sessions for.
    pub fn endpoint(&self) -> (r: &E)
        ensures
            r == self.endpoint_spec(),
    {
        &self.endpoint
    }

    /// The trust policy sessions are authenticated under.
    pub fn tls(&self) -> (r: TrustPolicy)
        ensures
            r == self.tls_spec(),
    {
        self.tls
    }

    /// The owner lifecycle state.
    pub fn lifecycle_state(&self) -> (r: LifecycleState)
        ensures
            r == self@.lifecycle.state,
    {
        self.lifecycle.state()
    }

    /// Whether an idle authenticated session is retained (0 or 1).
    pub fn idle_connections(&self) -> (r: usize)
        ensures
            r == (if self@.idle is Some { 1usize } else { 0usize }),
    {
        if self.idle.is_some() {
            1
        } else {
            0
        }
    }

    /// The number of in-flight exchanges registered with the lifecycle.
    pub fn in_flight_exchanges(&self) -> (r: usize)
        ensures
            r == self@.lifecycle.in_flight,
    {
        self.lifecycle.in_flight()
    }

    /// The number of HTTP/2 scopes still registered for draining.
    pub fn registered_scope_count(&self) -> (r: usize)
        ensures
            r == self@.scopes.len(),
    {
        self.scopes.len()
    }

    /// The owner's shutdown scope.
    pub closed spec fn cancellation_spec(&self) -> TransportCancellation {
        self.cancellation
    }

    /// The owner cancellation token.
    pub fn owner_cancellation(&self) -> (r: TransportCancellation)
        ensures
            r == self.cancellation_spec(),
    {
        self.cancellation.clone()
    }

    /// Begins owner shutdown and cancels owned work. The idle session stays
    /// parked for the awaited teardown of close; admission is refused from
    /// now on, so it is never handed out again.
    pub fn begin_close(&mut self) -> (r: CloseTransition)
        requires
            old(self).wf(),
        ensures
            final(self).wf(),
            (final(self)@.lifecycle, r) == begin_close_spec(old(self)@.lifecycle),
            final(self)@ == (DohPoolView { lifecycle: final(self)@.lifecycle, ..old(self)@ }),
    {
        let transition = self.lifecycle.begin_close();
        if transition == CloseTransition::BeganClosing {
            self.cancellation.cancel();
        }
        transition
    }

    /// Registers one in-flight exchange.
    pub fn register(&mut self) -> (r: Result<(), UpstreamError>)
        requires
            old(self).wf(),
            old(self)@.lifecycle.in_flight < usize::MAX,
        ensures
            final(self).wf(),
            (final(self)@.lifecycle, r) == register_spec(old(self)@.lifecycle),
            final(self)@ == (DohPoolView { lifecycle: final(self)@.lifecycle, ..old(self)@ }),
    {
        self.lifecycle.register()
    }

    /// Releases one exchange registration.
    pub fn release_registration(&mut self)
        requires
            old(self).wf(),
            old(self)@.lifecycle.in_flight > 0,
        ensures
            final(self).wf(),
            final(self)@ == (DohPoolView { lifecycle: release_spec(old(self)@.lifecycle), ..old(self)@ }),
    {
        self.lifecycle.release()
    }

    /// Claims the single serial slot.
    pub fn admit_lease(&mut self) -> (r: bool)
        requires
            old(self).wf(),
        ensures
            final(self).wf(),
            r == (!old(self)@.closed && old(self)@.lifecycle.state == LifecycleState::Open
                && old(self)@.leased < MAX_PENDING_PER_CONNECTION),
            r ==> final(self)@ == (DohPoolView { leased: old(self)@.leased + 1, ..old(self)@ }),
            !r ==> final(self)@ == old(self)@,
    {
        if self.closed || self.lifecycle.state() != LifecycleState::Open {
            return false;
        }
        if self.leased >= MAX_PENDING_PER_CONNECTION {
            return false;
        }
        self.leased = self.leased + 1;
        true
    }

    /// Releases the serial slot when a lease ends.
    pub fn lease_done(&mut self)
        requires
            old(self).wf(),
        ensures
            final(self).wf(),
            final(self)@ == (DohPoolView { leased: dec(old(self)@.leased), ..old(self)@ }),
    {
        if self.leased > 0 {
            self.leased = self.leased - 1;
        }
    }

    /// Publishes a scope the owner must drain; a scope already registered is
    /// not registered twice.
    pub fn publish_scope(&mut self, scope: Option<u64>)
        requires
            old(self).wf(),
        ensures
            final(self).wf(),
            (scope is None || old(self)@.scopes.contains(scope->0)) ==> final(self)@ == old(self)@,
            scope matches Some(id) ==> (!old(self)@.scopes.contains(id) ==> final(self)@ == (
            DohPoolView { scopes: old(self)@.scopes.push(id), ..old(self)@ })),
    {
        let id = match scope {
            None => return,
            Some(id) => id,
        };
        let mut i: usize = 0;
        while i < self.scopes.len()
            invariant
                i <= self.scopes@.len(),
                self@ == old(self)@,
                self.wf(),
                scope == Some(id),
                forall|j: int| 0 <= j < i ==> self.scopes@[j] != id,
            decreases self.scopes@.len() - i,
        {
            if self.scopes[i] == id {
                assert(self@.scopes[i as int] == id);
                assert(old(self)@.scopes.contains(id));
                return;
            }
            i = i + 1;
        }
        let ghost before = self.scopes@;
        self.scopes.push(id);
        proof {
            assert forall|a: int, b: int| 0 <= a < self.scopes@.len() && 0 <= b < self.scopes@.len() && a != b
                implies self.scopes@[a] != self.scopes@[b] by {
                if a < before.len() && b < before.len() {
                    assert(before.no_duplicates());
                }
            }
        }
    }

    /// Forgets a scope once its children have drained.
    pub fn forget_scope(&mut self, scope: u64)
        requires
            old(self).wf(),
        ensures
            final(self).wf(),
            final(self)@ == (DohPoolView {
                scopes: old(self)@.scopes.filter(|s: u64| s != scope),
                ..old(self)@
            }),
    {
        let ghost before = self.scopes@;
        let mut kept: Vec<u64> = Vec::new();
        let mut i: usize = 0;
        while i < self.scopes.len()
            invariant
                i <= before.len(),
                self.scopes@ == before,
                before.no_duplicates(),
                kept@ == before.take(i as int).filter(|s: u64| s != scope),
                kept@.no_duplicates(),
                forall|k: int| 0 <= k < kept@.len() ==> before.take(i as int).contains(#[trigger] kept@[k]),
            decreases before.len() - i,
        {
            let s = self.scopes[i];
            proof {
                reveal(Seq::filter);
                assert(before.take(i + 1).drop_last() =~= before.take(i as int));
                assert(before.take(i + 1).last() == s);
            }
            if s != scope {
                proof {
                    assert forall|k: int| 0 <= k < kept@.len() implies #[trigger] kept@[k] != s by {
                        let j = choose|j: int| 0 <= j < i && before.take(i as int)[j] == kept@[k];
                        assert(before[j] == kept@[k]);
                    }
                }
                kept.push(s);
            }
            i = i + 1;
        }
        proof {
            assert(before.take(before.len() as int) == before);
        }
        self.scopes = kept;
    }

    /// The registered scopes to drain, except `keep` (the scope of the
    /// session being leased, when there is one).
    pub fn stale_scopes(&self, keep: Option<u64>) -> (r: Vec<u64>)
        ensures
            r@ == self@.scopes.filter(|s: u64| !(keep == Some(s))),
    {
        let mut stale: Vec<u64> = Vec::new();
        let mut i: usize = 0;
        while i < self.scopes.len()
            invariant
                i <= self.scopes@.len(),
                stale@ == self.scopes@.take(i as int).filter(|s: u64| !(keep == Some(s))),
            decreases self.scopes@.len() - i,
        {
            let s = self.scopes[i];
            proof {
                reveal(Seq::filter);
                assert(self.scopes@.take(i + 1).drop_last() =~= self.scopes@.take(i as int));
                assert(self.scopes@.take(i + 1).last() == s);
            }
            let skip = match keep {
                Some(k) => k == s,
                None => false,
            };
            if !skip {
                stale.push(s);
            }
            i = i + 1;
        }
        proof {
            assert(self.scopes@.take(self.scopes@.len() as int) == self.scopes@);
        }
        stale
    }

    /// Takes the idle session with the key it was established under, and the
    /// instant it was returned.
    pub fn take_idle(&mut self) -> (r: Option<(ReuseKey, S, u64)>)
        requires
            old(self).wf(),
        ensures
            final(self).wf(),
            final(self)@ == (DohPoolView { idle: None, ..old(self)@ }),
            match r {
                Some((k, s, since)) => old(self)@.idle == Some((k@, s)) && since == old(self)@.idle_since,
                None => old(self)@.idle is None,
            },
    {
        match self.idle.take() {
            Some((key, session)) => Some((key, session, self.idle_since)),
            None => None,
        }
    }

    /// Retains a completed session under `key` at `now`, releasing the serial
    /// slot. A closed pool or an owner past `Open` hands the session back, to
    /// be shut down by the caller.
    pub fn release(&mut self, key: ReuseKey, session: S, now: u64) -> (r: Option<S>)
        requires
            old(self).wf(),
        ensures
            final(self).wf(),
            final(self)@.leased == dec(old(self)@.leased),
            final(self)@.lifecycle == old(self)@.lifecycle,
            final(self)@.closed == old(self)@.closed,
            final(self)@.scopes == old(self)@.scopes,
            (old(self)@.closed || old(self)@.lifecycle.state != LifecycleState::Open) ==> r == Some(
                session,
            ) && final(self)@.idle == old(self)@.idle,
            !(old(self)@.closed || old(self)@.lifecycle.state != LifecycleState::Open) ==> r is None
                && final(self)@.idle == Some((key@, session)) && final(self)@.idle_since == now,
    {
        if self.leased > 0 {
            self.leased = self.leased - 1;
        }
        if self.closed || self.lifecycle.state() != LifecycleState::Open {
            return Some(session);
        }
        self.idle = Some((key, session));
        self.idle_since = now;
        None
    }

    /// Whether the pooled teardown has fully finished.
    pub fn teardown_complete(&self) -> (r: bool)
        ensures
            r == self@.teardown_complete,
    {
        self.teardown_complete
    }

    /// Records that the idle session was shut down and every scope drained.
    pub fn mark_teardown_complete(&mut self)
        requires
            old(self).wf(),
        ensures
            final(self).wf(),
            final(self)@ == (DohPoolView { teardown_complete: true, ..old(self)@ }),
    {
        self.teardown_complete = true;
    }

    /// Completes close: the pool is closed for good, then the guarded
    /// `Closing -> Closed` runs.
    pub fn complete_close(&mut self) -> (r: CloseCompletion)
        requires
            old(self).wf(),
        ensures
            final(self).wf(),
            (final(self)@.lifecycle, r) == finish_close_spec(old(self)@.lifecycle),
            final(self)@ == (DohPoolView {
                lifecycle: final(self)@.lifecycle,
                closed: true,
                ..old(self)@
            }),
    {
        self.closed = true;
        self.lifecycle.finish_close()
    }

    /// The final commit of one pooled response at `now`.
    pub fn commit_pooled_response(
        &self,
        caller_cancellation: &TransportCancellation,
        deadline: u64,
        now: u64,
    ) -> (r: Result<(), UpstreamError>)
        ensures
            r == commit_final_spec(self@.lifecycle, true, now, deadline, SideEffectState::Sent) || r
                == commit_final_spec(self@.lifecycle, false, now, deadline, SideEffectState::Sent),
    {
        self.lifecycle.commit_final_response(caller_cancellation, deadline, now, SideEffectState::Sent)
    }
}

/// Whether a retained DoH session may serve `base` at `now` (see
/// `doh_reusable`).
pub fn doh_session_reusable(stored: &ReuseKey, base: &ReuseKey, idle_since: u64, now: u64) -> (r: bool)
    ensures
        r == doh_reusable(stored@, base@, idle_since, now),
{
    if now >= idle_since && now - idle_since >= IDLE_TIMEOUT {
        return false;
    }
    stored.same_service(base)
}

} // verus!
