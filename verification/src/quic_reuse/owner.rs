use vstd::prelude::*;

use super::{
    EntryHealth, EntryPhase, EntryTerminal, QuicErrorClass, QuicErrorOutcome, QuicKeyView, QuicReuseKey,
    MAX_CONNECTIONS_PER_OWNER, MAX_STREAMS_PER_CONNECTION, QUIC_IDLE_TIMEOUT,
};
use crate::control::{ExchangeContext, ExchangeControl, TransportCancellation};
use crate::error::{SideEffectState, UpstreamError};
use crate::lifecycle::{
    begin_close_spec, finish_close_spec, lifecycle_wf, register_spec, CloseCompletion,
    CloseTransition, Lifecycle, LifecycleState, LifecycleView,
};

verus! {

/// One entry of the owner map, as plain values.
pub struct EntryView {
    pub key: QuicKeyView,
    pub generation: u64,
    pub phase: EntryPhase,
    pub health: EntryHealth,
    pub teardown_requested: bool,
    pub teardown_started: bool,
    pub teardown_dispatched: bool,
    pub initialized: bool,
    pub has_transport: bool,
    pub permits: nat,
    pub last_used: u64,
}

/// The owner as plain values: its lifecycle gate, the admission gate, the
/// generation counter, the caller registrations, and the map entries.
pub struct OwnerView {
    pub lifecycle: LifecycleView,
    pub accepting: bool,
    pub next_generation: u64,
    pub registrations: nat,
    pub entries: Seq<EntryView>,
}

/// The stored shape of each phase: an `Initializing` reservation is healthy,
/// unleased, uninitialized, and holds nothing; an `Active` entry is healthy
/// and initialized; a `Closing` entry is dead with its teardown requested and
/// started.
pub open spec fn entry_wf(e: EntryView, next_generation: u64) -> bool {
    &&& 1 <= e.generation <= next_generation
    &&& e.permits <= MAX_STREAMS_PER_CONNECTION
    &&& e.teardown_dispatched ==> e.teardown_started
    &&& e.phase == EntryPhase::Initializing ==> {
        &&& e.health == EntryHealth::Healthy
        &&& !e.teardown_requested
        &&& !e.teardown_started
        &&& !e.initialized
        &&& !e.has_transport
        &&& e.permits == 0
    }
    &&& e.phase == EntryPhase::Active ==> {
        &&& e.health == EntryHealth::Healthy
        &&& !e.teardown_requested
        &&& !e.teardown_started
        &&& e.initialized
    }
    &&& e.phase == EntryPhase::Closing ==> {
        &&& e.health == EntryHealth::Dead
        &&& e.teardown_requested
        &&& e.teardown_started
    }
}

pub open spec fn keys_unique(entries: Seq<EntryView>) -> bool {
    forall|i: int, j: int|
        0 <= i < entries.len() && 0 <= j < entries.len() && i != j ==> #[trigger] entries[i].key
            != #[trigger] entries[j].key
}

/// The owner's invariant: bounded entries with pairwise distinct keys, each in
/// a consistent phase; once admission stopped accepting every entry is
/// `Closing`; and the lifecycle counts one registration per caller exchange and
/// one liveness registration per entry.
pub open spec fn owner_wf(v: OwnerView) -> bool {
    &&& v.entries.len() <= MAX_CONNECTIONS_PER_OWNER
    &&& keys_unique(v.entries)
    &&& forall|i: int| 0 <= i < v.entries.len() ==> entry_wf(#[trigger] v.entries[i], v.next_generation)
    &&& !v.accepting ==> forall|i: int|
        0 <= i < v.entries.len() ==> (#[trigger] v.entries[i]).phase == EntryPhase::Closing
    &&& v.lifecycle.in_flight == v.registrations + v.entries.len()
    &&& lifecycle_wf(v.lifecycle)
}

pub open spec fn has_key(entries: Seq<EntryView>, k: QuicKeyView) -> bool {
    exists|i: int| 0 <= i < entries.len() && (#[trigger] entries[i]).key == k
}

pub open spec fn index_of_key(entries: Seq<EntryView>, k: QuicKeyView) -> int {
    choose|i: int| 0 <= i < entries.len() && (#[trigger] entries[i]).key == k
}

/// The stored entry for `k` is exactly generation `g`.
pub open spec fn matches_entry(entries: Seq<EntryView>, k: QuicKeyView, g: u64) -> bool {
    has_key(entries, k) && entries[index_of_key(entries, k)].generation == g
}

pub proof fn lemma_index_of_unique(entries: Seq<EntryView>, k: QuicKeyView, i: int)
    requires
        keys_unique(entries),
        0 <= i < entries.len(),
        entries[i].key == k,
    ensures
        has_key(entries, k),
        index_of_key(entries, k) == i,
{
    assert(has_key(entries, k));
    let j = index_of_key(entries, k);
    assert(entries[j].key == k);
}

/// The entry marked `Closing` with its teardown requested and started.
pub open spec fn mark_closing(e: EntryView) -> EntryView {
    EntryView {
        phase: EntryPhase::Closing,
        health: EntryHealth::Dead,
        teardown_requested: true,
        teardown_started: true,
        ..e
    }
}

/// A healthy, unleased `Initializing` or `Active` entry idle for at least the
/// timeout (an instant before its last use counts as no idle time).
pub open spec fn idle_expired(e: EntryView, now: u64) -> bool {
    &&& (e.phase == EntryPhase::Initializing || e.phase == EntryPhase::Active)
    &&& e.health == EntryHealth::Healthy
    &&& e.permits == 0
    &&& now >= e.last_used
    &&& now - e.last_used >= QUIC_IDLE_TIMEOUT
}

pub open spec fn expire_entries(entries: Seq<EntryView>, now: u64) -> Seq<EntryView> {
    Seq::new(
        entries.len(),
        |i: int|
            if idle_expired(entries[i], now) {
                mark_closing(entries[i])
            } else {
                entries[i]
            },
    )
}

/// The terminal outcome of a supervised teardown: `Drained` when it took an
/// acquired transport and closed it, `Failed` when nothing was left to drain.
pub fn teardown_terminal(transport_taken: bool) -> (r: EntryTerminal)
    ensures
        r == (if transport_taken {
            EntryTerminal::Drained
        } else {
            EntryTerminal::Failed
        }),
{
    if transport_taken {
        EntryTerminal::Drained
    } else {
        EntryTerminal::Failed
    }
}

/// A supervised teardown the caller must run for one exact key+generation.
/// Each generation's teardown is handed out exactly once.
#[derive(Debug, PartialEq, Eq)]
pub struct TeardownTicket {
    pub key: QuicReuseKey,
    pub generation: u64,
}

/// The outcome of the admission critical section or of a re-check after a
/// join wait.
#[derive(Clone, Copy, Debug, PartialEq, Eq, Structural)]
pub enum Admission {
    /// Refused with the typed pre-send error.
    Rejected(UpstreamError),
    /// One stream permit of this `Active` generation was leased.
    Leased { generation: u64 },
    /// The key's `Initializing` generation must be awaited.
    Joined { generation: u64 },
    /// A fresh `Initializing` reservation was installed; its initializer must
    /// be started and then awaited like a join.
    Installed { generation: u64 },
}

/// The entry with one more leased stream permit.
pub open spec fn lease_permit(e: EntryView) -> EntryView {
    EntryView { permits: e.permits + 1, ..e }
}

/// A fresh `Initializing` reservation for `k` as generation `g` at `now`.
pub open spec fn reservation(k: QuicKeyView, g: u64, now: u64) -> EntryView {
    EntryView {
        key: k,
        generation: g,
        phase: EntryPhase::Initializing,
        health: EntryHealth::Healthy,
        teardown_requested: false,
        teardown_started: false,
        teardown_dispatched: false,
        initialized: false,
        has_transport: false,
        permits: 0,
        last_used: now,
    }
}

/// The atomic admission section for key `k` at `now`: the `accepting` gate
/// first, then the lifecycle state; then idle-expired entries are marked
/// `Closing` without removal; then an existing entry is leased, joined, or
/// refused, or, under the entry bound, a fresh generation is installed.
pub open spec fn admission_spec(v: OwnerView, k: QuicKeyView, now: u64) -> (OwnerView, Admission) {
    if !v.accepting || v.lifecycle.state != LifecycleState::Open {
        (v, Admission::Rejected(UpstreamError::Closed(SideEffectState::NotSent)))
    } else {
        let entries = expire_entries(v.entries, now);
        let v1 = OwnerView { entries, ..v };
        if has_key(entries, k) {
            let i = index_of_key(entries, k);
            let e = entries[i];
            match e.phase {
                EntryPhase::Active => if e.health != EntryHealth::Healthy {
                    (v1, Admission::Rejected(UpstreamError::Closed(SideEffectState::NotSent)))
                } else if e.permits >= MAX_STREAMS_PER_CONNECTION {
                    (v1, Admission::Rejected(UpstreamError::Backpressure(SideEffectState::NotSent)))
                } else {
                    (
                        OwnerView { entries: entries.update(i, lease_permit(e)), ..v1 },
                        Admission::Leased { generation: e.generation },
                    )
                },
                EntryPhase::Initializing => (v1, Admission::Joined { generation: e.generation }),
                EntryPhase::Closing => (
                    v1,
                    Admission::Rejected(UpstreamError::Closed(SideEffectState::NotSent)),
                ),
            }
        } else if entries.len() >= MAX_CONNECTIONS_PER_OWNER {
            (v1, Admission::Rejected(UpstreamError::Backpressure(SideEffectState::NotSent)))
        } else {
            let g = (v.next_generation + 1) as u64;
            (
                OwnerView {
                    lifecycle: LifecycleView {
                        in_flight: v.lifecycle.in_flight + 1,
                        ..v.lifecycle
                    },
                    next_generation: g,
                    entries: entries.push(reservation(k, g, now)),
                    ..v1
                },
                Admission::Installed { generation: g },
            )
        }
    }
}

/// Expiry keeps the owner's invariant.
pub proof fn lemma_expire_keeps_wf(v: OwnerView, now: u64)
    requires
        owner_wf(v),
    ensures
        owner_wf(OwnerView { entries: expire_entries(v.entries, now), ..v }),
        expire_entries(v.entries, now).len() == v.entries.len(),
        forall|i: int| 0 <= i < v.entries.len() ==> (#[trigger] expire_entries(v.entries, now)[i]).key == v.entries[i].key
            && expire_entries(v.entries, now)[i].generation == v.entries[i].generation,
{
    let e = expire_entries(v.entries, now);
    assert forall|a: int, b: int| 0 <= a < e.len() && 0 <= b < e.len() && a != b
        implies #[trigger] e[a].key != #[trigger] e[b].key by {
        assert(v.entries[a].key != v.entries[b].key);
    }
    assert forall|i: int| 0 <= i < e.len() implies entry_wf(#[trigger] e[i], v.next_generation) by {
        assert(entry_wf(v.entries[i], v.next_generation));
    }
    assert forall|i: int| 0 <= i < e.len() && !v.accepting implies (#[trigger] e[i]).phase == EntryPhase::Closing by {
        assert(v.entries[i].phase == EntryPhase::Closing);
    }
}

/// The re-check after a join wait for generation `g`: a typed initializer
/// failure recorded for this generation wins; a vanished or replaced entry is
/// `Closed(NotSent)`; a healthy `Active` generation leases a permit; a still
/// `Initializing` one is joined again; anything else is `Closed(NotSent)`.
pub open spec fn after_join_spec(
    v: OwnerView,
    k: QuicKeyView,
    g: u64,
    initialization_error: Option<UpstreamError>,
) -> (OwnerView, Admission) {
    if !matches_entry(v.entries, k, g) {
        match initialization_error {
            Some(e) => (v, Admission::Rejected(e)),
            None => (v, Admission::Rejected(UpstreamError::Closed(SideEffectState::NotSent))),
        }
    } else if initialization_error is Some {
        (v, Admission::Rejected(initialization_error->0))
    } else {
        let i = index_of_key(v.entries, k);
        let e = v.entries[i];
        if e.phase == EntryPhase::Active && e.health == EntryHealth::Healthy {
            if e.permits >= MAX_STREAMS_PER_CONNECTION {
                (v, Admission::Rejected(UpstreamError::Backpressure(SideEffectState::NotSent)))
            } else {
                (
                    OwnerView { entries: v.entries.update(i, lease_permit(e)), ..v },
                    Admission::Leased { generation: g },
                )
            }
        } else if e.phase == EntryPhase::Initializing {
            (v, Admission::Joined { generation: g })
        } else {
            (v, Admission::Rejected(UpstreamError::Closed(SideEffectState::NotSent)))
        }
    }
}

/// What the single initialization completion of one generation did.
#[derive(Clone, Copy, Debug, PartialEq, Eq, Structural)]
pub enum InitializationOutcome {
    /// The entry already reached terminal or was replaced; nothing changed.
    NoMatchingEntry,
    /// The generation was published `Active`.
    Published,
    /// The whole result went to the supervised teardown; `error` is the typed
    /// initializer failure joiners must observe, when initialization itself
    /// won the lock.
    HandedToTeardown { error: Option<UpstreamError> },
}

/// The typed result of an entry-owned initializer.
pub enum InitializationResult<T> {
    /// The authenticated transport was acquired.
    Ready(T),
    /// Initialization failed before a resource was acquired.
    Failed(UpstreamError),
    /// The initializer completed without a resource or typed cause.
    NoResource,
}

/// The single publication/handoff point of generation `g`: `Active` is
/// published only when the lifecycle is `Open`, admission is accepting, this
/// exact generation is still `Initializing`, and a transport was acquired. Any
/// miss marks the entry `Closing` and hands the whole result, including a
/// late-acquired transport, to its teardown.
pub open spec fn completion_spec(
    v: OwnerView,
    k: QuicKeyView,
    g: u64,
    ready: bool,
    failure: Option<UpstreamError>,
    now: u64,
) -> (OwnerView, InitializationOutcome) {
    if !matches_entry(v.entries, k, g) {
        (v, InitializationOutcome::NoMatchingEntry)
    } else {
        let i = index_of_key(v.entries, k);
        let e = v.entries[i];
        let gate = e.phase == EntryPhase::Initializing && v.accepting && v.lifecycle.state
            == LifecycleState::Open;
        if gate && ready {
            (
                OwnerView {
                    entries: v.entries.update(
                        i,
                        EntryView {
                            phase: EntryPhase::Active,
                            health: EntryHealth::Healthy,
                            initialized: true,
                            has_transport: true,
                            last_used: now,
                            ..e
                        },
                    ),
                    ..v
                },
                InitializationOutcome::Published,
            )
        } else {
            (
                OwnerView {
                    entries: v.entries.update(
                        i,
                        EntryView {
                            initialized: true,
                            has_transport: e.has_transport || ready,
                            ..mark_closing(e)
                        },
                    ),
                    ..v
                },
                InitializationOutcome::HandedToTeardown {
                    error: if gate {
                        failure
                    } else {
                        None
                    },
                },
            )
        }
    }
}

/// Applies one classification to the exact key+generation: a stale or
/// vanished generation is untouched; a stream-local failure changes nothing;
/// an entry-terminal one marks the entry `Closing` (idempotently).
pub open spec fn apply_class_spec(v: OwnerView, k: QuicKeyView, g: u64, class: QuicErrorClass) -> (
    OwnerView,
    QuicErrorOutcome,
) {
    if !matches_entry(v.entries, k, g) {
        (v, QuicErrorOutcome::NoMatchingEntry)
    } else if class == QuicErrorClass::StreamLocal {
        (v, QuicErrorOutcome::EntryUnchanged)
    } else {
        let i = index_of_key(v.entries, k);
        (
            OwnerView { entries: v.entries.update(i, mark_closing(v.entries[i])), ..v },
            QuicErrorOutcome::EntryDeactivated,
        )
    }
}

/// Releases one permit of the exact generation; the entry's idle clock
/// restarts when its last permit of a healthy entry returns.
pub open spec fn release_permit_spec(v: OwnerView, k: QuicKeyView, g: u64, now: u64) -> OwnerView {
    if !matches_entry(v.entries, k, g) || v.entries[index_of_key(v.entries, k)].permits == 0 {
        v
    } else {
        let i = index_of_key(v.entries, k);
        let e = v.entries[i];
        let p = (e.permits - 1) as nat;
        OwnerView {
            entries: v.entries.update(
                i,
                EntryView {
                    permits: p,
                    last_used: if p == 0 && e.health == EntryHealth::Healthy {
                        now
                    } else {
                        e.last_used
                    },
                    ..e
                },
            ),
            ..v
        }
    }
}

/// The terminal removal of the exact generation, releasing its liveness
/// registration; any other key or generation is untouched.
pub open spec fn finish_teardown_spec(v: OwnerView, k: QuicKeyView, g: u64) -> (OwnerView, bool) {
    if !matches_entry(v.entries, k, g) {
        (v, false)
    } else {
        (
            OwnerView {
                lifecycle: LifecycleView { in_flight: (v.lifecycle.in_flight - 1) as nat, ..v.lifecycle },
                entries: v.entries.remove(index_of_key(v.entries, k)),
                ..v
            },
            true,
        )
    }
}

/// Close stage two: admission stops accepting and every entry is marked
/// `Closing` without removal.
pub open spec fn linearize_spec(v: OwnerView) -> OwnerView {
    OwnerView {
        accepting: false,
        entries: Seq::new(v.entries.len(), |i: int| mark_closing(v.entries[i])),
        ..v
    }
}

/// A read-only observation of one stored entry.
#[derive(Debug, PartialEq, Eq)]
pub struct EntryObservation {
    pub key: QuicReuseKey,
    pub generation: u64,
    pub phase: EntryPhase,
    pub health: EntryHealth,
    pub initialized: bool,
    pub teardown_requested: bool,
    pub permits_in_use: usize,
    pub last_used: u64,
}

struct Entry<T> {
    key: QuicReuseKey,
    generation: u64,
    phase: EntryPhase,
    health: EntryHealth,
    teardown_requested: bool,
    teardown_started: bool,
    teardown_dispatched: bool,
    initialized: bool,
    transport: Option<T>,
    permits_in_use: usize,
    last_used: u64,
}

impl<T> Entry<T> {
    spec fn view(&self) -> EntryView {
        EntryView {
            key: self.key@,
            generation: self.generation,
            phase: self.phase,
            health: self.health,
            teardown_requested: self.teardown_requested,
            teardown_started: self.teardown_started,
            teardown_dispatched: self.teardown_dispatched,
            initialized: self.initialized,
            has_transport: self.transport is Some,
            permits: self.permits_in_use as nat,
            last_used: self.last_used,
        }
    }
}

/// The QUIC-specific shared-connection owner: one physical connection per
/// validated key, bounded cross-key admission, bounded per-connection stream
/// permits, lazy idle expiry, and a two-stage close whose entry teardowns are
/// the only removal point. `T` is the entry-owned transport handle.
pub struct QuicReuseOwner<T> {
    lifecycle: Lifecycle,
    owner_cancellation: TransportCancellation,
    accepting: bool,
    entries: Vec<Entry<T>>,
    next_generation: u64,
    registrations: usize,
}

impl<T> View for QuicReuseOwner<T> {
    type V = OwnerView;

    closed spec fn view(&self) -> OwnerView {
        OwnerView {
            lifecycle: self.lifecycle.view(),
            accepting: self.accepting,
            next_generation: self.next_generation,
            registrations: self.registrations as nat,
            entries: Seq::new(self.entries@.len(), |i: int| self.entries@[i].view()),
        }
    }
}

impl<T> QuicReuseOwner<T> {
    /// The owner's invariant over its view.
    pub closed spec fn wf(&self) -> bool {
        owner_wf(self@)
    }

    /// The owner's invariant is exactly `owner_wf` of its view, so every law
    /// stated over `OwnerView` applies to a well-formed owner.
    pub proof fn lemma_wf(&self)
        ensures
            self.wf() <==> owner_wf(self@),
    {
    }

    /// The transport stored in each entry, in map order.
    pub closed spec fn transports(&self) -> Seq<Option<T>> {
        Seq::new(self.entries@.len(), |i: int| self.entries@[i].transport)
    }

    /// The stored transports line up with the entries of the view: one per
    /// entry, present exactly where the view says an entry holds one.
    pub proof fn lemma_transports(&self)
        ensures
            self.transports().len() == self@.entries.len(),
            forall|i: int|
                0 <= i < self@.entries.len() ==> (#[trigger] self.transports()[i] is Some
                    <==> self@.entries[i].has_transport),
    {
        assert forall|i: int| 0 <= i < self@.entries.len() implies (#[trigger] self.transports()[i] is Some
            <==> self@.entries[i].has_transport) by {
            assert(self@.entries[i] == self.entries@[i].view());
        }
    }

    /// An empty, accepting owner over a lifecycle with no registration.
    pub fn new(lifecycle: Lifecycle) -> (r: Self)
        requires
            lifecycle.view().in_flight == 0,
        ensures
            r.wf(),
            r@.lifecycle == lifecycle.view(),
            r@.accepting,
            r@.next_generation == 0,
            r@.registrations == 0,
            r@.entries.len() == 0,
    {
        let _ = lifecycle.state();
        let r = QuicReuseOwner {
            lifecycle,
            owner_cancellation: TransportCancellation::new(),
            accepting: true,
            entries: Vec::new(),
            next_generation: 0,
            registrations: 0,
        };
        assert(r@.entries.len() == 0);
        r
    }

    /// The current lifecycle state.
    pub fn lifecycle_state(&self) -> (r: LifecycleState)
        ensures
            r == self@.lifecycle.state,
    {
        self.lifecycle.state()
    }

    /// The number of lifecycle registrations outstanding: caller exchanges
    /// plus one liveness registration per live entry.
    pub fn in_flight_exchanges(&self) -> (r: usize)
        ensures
            r == self@.lifecycle.in_flight,
    {
        self.lifecycle.in_flight()
    }

    /// The generation counter: the last generation installed.
    pub fn next_generation(&self) -> (r: u64)
        ensures
            r == self@.next_generation,
    {
        self.next_generation
    }

    /// Whether owner-map admission still accepts new reservations.
    pub fn is_accepting(&self) -> (r: bool)
        ensures
            r == self@.accepting,
    {
        self.accepting
    }

    /// The number of live entries, including `Initializing` and `Closing`
    /// ones.
    pub fn entry_count(&self) -> (r: usize)
        ensures
            r == self@.entries.len(),
    {
        self.entries.len()
    }

    /// The per-exchange control carrying this owner's cancellation token.
    pub fn exchange_control(&self, context: ExchangeContext) -> (r: ExchangeControl)
        ensures
            r.deadline_spec() == context.deadline_spec(),
            r.caller_spec() == context.cancellation_spec(),
            r.owner_spec() == self.cancellation_spec(),
    {
        ExchangeControl::new(context, self.owner_cancellation.clone())
    }

    /// The owner's shutdown scope, cancelled by close stage one.
    pub closed spec fn cancellation_spec(&self) -> TransportCancellation {
        self.owner_cancellation
    }

    pub fn owner_cancellation(&self) -> (r: TransportCancellation)
        ensures
            r == self.cancellation_spec(),
    {
        self.owner_cancellation.clone()
    }

    fn find(&self, key: &QuicReuseKey) -> (r: Option<usize>)
        requires
            self.wf(),
        ensures
            r matches Some(i) ==> i < self@.entries.len() && self@.entries[i as int].key == key@
                && index_of_key(self@.entries, key@) == i && has_key(self@.entries, key@),
            r is None ==> !has_key(self@.entries, key@),
    {
        let mut i: usize = 0;
        while i < self.entries.len()
            invariant
                i <= self@.entries.len(),
                self@.entries.len() == self.entries@.len(),
                self.wf(),
                forall|j: int| 0 <= j < i ==> (#[trigger] self@.entries[j]).key != key@,
            decreases self.entries@.len() - i,
        {
            if self.entries[i].key.same_key(key) {
                proof {
                    assert(self@.entries[i as int] == self.entries@[i as int].view());
                    lemma_index_of_unique(self@.entries, key@, i as int);
                }
                return Some(i);
            }
            assert(self@.entries[i as int] == self.entries@[i as int].view());
            i = i + 1;
        }
        proof {
            if has_key(self@.entries, key@) {
                let j = choose|j: int| 0 <= j < self@.entries.len() && (#[trigger] self@.entries[j]).key == key@;
                assert(self@.entries[j].key == key@);
            }
        }
        None
    }

    /// Admission step one: registers one caller exchange under the lifecycle;
    /// refused with `Closed(NotSent)` once the owner is closing.
    pub fn register(&mut self) -> (r: Result<(), UpstreamError>)
        requires
            old(self).wf(),
            old(self)@.lifecycle.in_flight < usize::MAX,
        ensures
            final(self).wf(),
            (final(self)@.lifecycle, r) == register_spec(old(self)@.lifecycle),
            r is Ok ==> final(self)@ == (OwnerView {
                lifecycle: final(self)@.lifecycle,
                registrations: old(self)@.registrations + 1,
                ..old(self)@
            }),
            r is Err ==> final(self)@ == old(self)@,
            final(self).cancellation_spec() == old(self).cancellation_spec(),
            final(self).transports() == old(self).transports(),
    {
        let r = self.lifecycle.register();
        if r.is_ok() {
            self.registrations = self.registrations + 1;
        }
        r
    }

    /// Releases one caller registration (a no-op when none is held).
    pub fn release_registration(&mut self)
        requires
            old(self).wf(),
        ensures
            final(self).wf(),
            old(self)@.registrations > 0 ==> final(self)@ == (OwnerView {
                lifecycle: LifecycleView {
                    in_flight: (old(self)@.lifecycle.in_flight - 1) as nat,
                    ..old(self)@.lifecycle
                },
                registrations: (old(self)@.registrations - 1) as nat,
                ..old(self)@
            }),
            old(self)@.registrations == 0 ==> final(self)@ == old(self)@,
            final(self).transports() == old(self).transports(),
    {
        if self.registrations > 0 {
            self.registrations = self.registrations - 1;
            self.lifecycle.release();
        }
    }

    /// Owner-close stage one: the lifecycle's `Open -> Closing` plus the owner
    /// token cancellation; the map is not touched.
    pub fn begin_close(&mut self) -> (r: CloseTransition)
        requires
            old(self).wf(),
        ensures
            final(self).wf(),
            (final(self)@.lifecycle, r) == begin_close_spec(old(self)@.lifecycle),
            final(self)@ == (OwnerView { lifecycle: final(self)@.lifecycle, ..old(self)@ }),
            final(self).transports() == old(self).transports(),
    {
        let transition = self.lifecycle.begin_close();
        if transition == CloseTransition::BeganClosing {
            self.owner_cancellation.cancel();
        }
        transition
    }

    /// The guarded `Closing -> Closed` transition, after every registration
    /// (caller exchanges and entry liveness) has drained.
    pub fn finish_close(&mut self) -> (r: CloseCompletion)
        requires
            old(self).wf(),
        ensures
            final(self).wf(),
            (final(self)@.lifecycle, r) == finish_close_spec(old(self)@.lifecycle),
            final(self)@ == (OwnerView { lifecycle: final(self)@.lifecycle, ..old(self)@ }),
            final(self).transports() == old(self).transports(),
    {
        self.lifecycle.finish_close()
    }
    /// Marks entry `i` `Closing` with its teardown requested and started.
    fn mark_closing_at(&mut self, i: usize)
        requires
            i < old(self)@.entries.len(),
        ensures
            final(self).entries@.len() == old(self).entries@.len(),
            final(self)@ == (OwnerView {
                entries: old(self)@.entries.update(i as int, mark_closing(old(self)@.entries[i as int])),
                ..old(self)@
            }),
            final(self).transports() == old(self).transports(),
    {
        let ghost tb = self.transports();
        let ghost before = self@.entries;
        self.entries[i].phase = EntryPhase::Closing;
        self.entries[i].health = EntryHealth::Dead;
        self.entries[i].teardown_requested = true;
        self.entries[i].teardown_started = true;
        proof {
            assert(self.transports() =~= tb);
            assert(self@.entries =~= before.update(i as int, mark_closing(before[i as int]))) by {
                assert forall|j: int| 0 <= j < before.len() implies #[trigger] self@.entries[j] == before.update(i as int, mark_closing(before[i as int]))[j] by {
                    assert(self@.entries[j] == self.entries@[j].view());
                }
            }
        }
    }

    /// Marks every idle-expired entry `Closing` without removing it; their
    /// teardowns start.
    fn expire_idle(&mut self, now: u64)
        requires
            old(self).wf(),
        ensures
            final(self).wf(),
            final(self)@ == (OwnerView {
                entries: expire_entries(old(self)@.entries, now),
                ..old(self)@
            }),
            final(self).transports() == old(self).transports(),
    {
        let ghost before = self@.entries;
        let mut i: usize = 0;
        while i < self.entries.len()
            invariant
                self.transports() == old(self).transports(),
                i <= before.len(),
                self.entries@.len() == before.len(),
                self@ == (OwnerView { entries: self@.entries, ..old(self)@ }),
                self@.entries.len() == before.len(),
                forall|j: int|
                    0 <= j < i ==> #[trigger] self@.entries[j] == (if idle_expired(before[j], now) {
                        mark_closing(before[j])
                    } else {
                        before[j]
                    }),
                forall|j: int| i <= j < before.len() ==> #[trigger] self@.entries[j] == before[j],
            decreases before.len() - i,
        {
            assert(self@.entries[i as int] == self.entries@[i as int].view());
            let expired = {
                let e = &self.entries[i];
                (e.phase == EntryPhase::Initializing || e.phase == EntryPhase::Active) && e.health
                    == EntryHealth::Healthy && e.permits_in_use == 0 && now >= e.last_used && now
                    - e.last_used >= QUIC_IDLE_TIMEOUT
            };
            if expired {
                self.mark_closing_at(i);
            }
            i = i + 1;
        }
        proof {
            assert(self@.entries =~= expire_entries(before, now));
            lemma_expire_keeps_wf(old(self)@, now);
        }
    }
    /// Leases one more stream permit of entry `i`.
    fn lease_at(&mut self, i: usize)
        requires
            i < old(self)@.entries.len(),
            old(self)@.entries[i as int].permits < MAX_STREAMS_PER_CONNECTION,
        ensures
            final(self).entries@.len() == old(self).entries@.len(),
            final(self)@ == (OwnerView {
                entries: old(self)@.entries.update(i as int, lease_permit(old(self)@.entries[i as int])),
                ..old(self)@
            }),
            final(self).transports() == old(self).transports(),
    {
        let ghost tb = self.transports();
        let ghost before = self@.entries;
        assert(self@.entries[i as int] == self.entries@[i as int].view());
        self.entries[i].permits_in_use = self.entries[i].permits_in_use + 1;
        proof {
            assert(self.transports() =~= tb);
            assert(self@.entries =~= before.update(i as int, lease_permit(before[i as int]))) by {
                assert forall|j: int| 0 <= j < before.len() implies #[trigger] self@.entries[j] == before.update(i as int, lease_permit(before[i as int]))[j] by {
                    assert(self@.entries[j] == self.entries@[j].view());
                }
            }
        }
    }

    /// The atomic, no-`await` admission section for `key` at `now`.
    ///
    /// It checks `accepting` first and the lifecycle second, marks idle-expired
    /// entries `Closing` without removing them, and then leases a permit of a
    /// healthy `Active` entry, joins an `Initializing` one, refuses a `Closing`
    /// one with `Closed(NotSent)`, or, under the entry bound, installs a fresh
    /// `Initializing` generation holding one liveness registration. Every
    /// refusal is a typed pre-send error; nothing is ever queued.
    pub fn atomic_admission(&mut self, key: &QuicReuseKey, now: u64) -> (r: Admission)
        requires
            old(self).wf(),
            old(self)@.next_generation < u64::MAX,
            old(self)@.lifecycle.in_flight < usize::MAX,
        ensures
            final(self).wf(),
            (final(self)@, r) == admission_spec(old(self)@, key@, now),
            r is Installed ==> final(self).transports() == old(self).transports().push(None),
            !(r is Installed) ==> final(self).transports() == old(self).transports(),
    {
        if !self.accepting {
            return Admission::Rejected(UpstreamError::Closed(SideEffectState::NotSent));
        }
        if self.lifecycle.state() != LifecycleState::Open {
            return Admission::Rejected(UpstreamError::Closed(SideEffectState::NotSent));
        }
        self.expire_idle(now);
        let ghost expired = self@;
        match self.find(key) {
            Some(i) => {
                assert(self@.entries[i as int] == self.entries@[i as int].view());
                match self.entries[i].phase {
                    EntryPhase::Active => {
                        if self.entries[i].health != EntryHealth::Healthy {
                            return Admission::Rejected(UpstreamError::Closed(SideEffectState::NotSent));
                        }
                        if self.entries[i].permits_in_use >= MAX_STREAMS_PER_CONNECTION {
                            return Admission::Rejected(
                                UpstreamError::Backpressure(SideEffectState::NotSent),
                            );
                        }
                        let generation = self.entries[i].generation;
                        self.lease_at(i);
                        proof {
                            let e = expired.entries;
                            let f = self@.entries;
                            assert forall|a: int, b: int| 0 <= a < f.len() && 0 <= b < f.len() && a != b
                                implies #[trigger] f[a].key != #[trigger] f[b].key by {
                                assert(e[a].key != e[b].key);
                            }
                            assert forall|j: int| 0 <= j < f.len() implies entry_wf(#[trigger] f[j], self@.next_generation) by {
                                assert(entry_wf(e[j], self@.next_generation));
                            }
                        }
                        Admission::Leased { generation }
                    },
                    EntryPhase::Initializing => Admission::Joined {
                        generation: self.entries[i].generation,
                    },
                    EntryPhase::Closing => Admission::Rejected(
                        UpstreamError::Closed(SideEffectState::NotSent),
                    ),
                }
            },
            None => {
                if self.entries.len() >= MAX_CONNECTIONS_PER_OWNER {
                    return Admission::Rejected(UpstreamError::Backpressure(SideEffectState::NotSent));
                }
                self.next_generation = self.next_generation + 1;
                let generation = self.next_generation;
                match self.lifecycle.register() {
                    Err(_) => {
                        return Admission::Rejected(UpstreamError::Closed(SideEffectState::NotSent));
                    },
                    Ok(()) => {},
                }
                let ghost tb = self.transports();
                self.entries.push(
                    Entry {
                        key: key.clone(),
                        generation,
                        phase: EntryPhase::Initializing,
                        health: EntryHealth::Healthy,
                        teardown_requested: false,
                        teardown_started: false,
                        teardown_dispatched: false,
                        initialized: false,
                        transport: None,
                        permits_in_use: 0,
                        last_used: now,
                    },
                );
                proof {
                    assert(self.transports() =~= tb.push(None));
                    let e = expired.entries;
                    let f = self@.entries;
                    assert(f =~= e.push(reservation(key@, generation, now))) by {
                        assert forall|j: int| 0 <= j < f.len() implies #[trigger] f[j] == e.push(reservation(key@, generation, now))[j] by {
                            assert(f[j] == self.entries@[j].view());
                        }
                    }
                    assert forall|a: int, b: int| 0 <= a < f.len() && 0 <= b < f.len() && a != b
                        implies #[trigger] f[a].key != #[trigger] f[b].key by {
                        if a < e.len() && b < e.len() {
                            assert(e[a].key != e[b].key);
                        } else if a < e.len() {
                            assert(e[a].key != key@);
                        } else {
                            assert(e[b].key != key@);
                        }
                    }
                    assert forall|j: int| 0 <= j < f.len() implies entry_wf(#[trigger] f[j], self@.next_generation) by {
                        if j < e.len() {
                            assert(entry_wf(e[j], expired.next_generation));
                        }
                    }
                }
                Admission::Installed { generation }
            },
        }
    }
    /// Re-checks the entry after a join wait for generation `generation`,
    /// given the typed initializer failure recorded for that generation.
    pub fn after_join(
        &mut self,
        key: &QuicReuseKey,
        generation: u64,
        initialization_error: Option<UpstreamError>,
    ) -> (r: Admission)
        requires
            old(self).wf(),
        ensures
            final(self).wf(),
            (final(self)@, r) == after_join_spec(old(self)@, key@, generation, initialization_error),
            final(self).transports() == old(self).transports(),
    {
        let i = match self.find(key) {
            None => {
                return match initialization_error {
                    Some(e) => Admission::Rejected(e),
                    None => Admission::Rejected(UpstreamError::Closed(SideEffectState::NotSent)),
                };
            },
            Some(i) => i,
        };
        assert(self@.entries[i as int] == self.entries@[i as int].view());
        if self.entries[i].generation != generation {
            return match initialization_error {
                Some(e) => Admission::Rejected(e),
                None => Admission::Rejected(UpstreamError::Closed(SideEffectState::NotSent)),
            };
        }
        if let Some(e) = initialization_error {
            return Admission::Rejected(e);
        }
        if self.entries[i].phase == EntryPhase::Active && self.entries[i].health == EntryHealth::Healthy {
            if self.entries[i].permits_in_use >= MAX_STREAMS_PER_CONNECTION {
                return Admission::Rejected(UpstreamError::Backpressure(SideEffectState::NotSent));
            }
            let ghost before = self@;
            self.lease_at(i);
            proof {
                let e = before.entries;
                let f = self@.entries;
                assert forall|a: int, b: int| 0 <= a < f.len() && 0 <= b < f.len() && a != b
                    implies #[trigger] f[a].key != #[trigger] f[b].key by {
                    assert(e[a].key != e[b].key);
                }
                assert forall|j: int| 0 <= j < f.len() implies entry_wf(#[trigger] f[j], self@.next_generation) by {
                    assert(entry_wf(e[j], self@.next_generation));
                }
            }
            Admission::Leased { generation }
        } else if self.entries[i].phase == EntryPhase::Initializing {
            Admission::Joined { generation }
        } else {
            Admission::Rejected(UpstreamError::Closed(SideEffectState::NotSent))
        }
    }

    /// Delivers the single initialization completion of generation
    /// `generation` at `now` (see `completion_spec`). A result for a vanished
    /// or replaced generation is dropped without touching the map.
    pub fn complete_initialization(
        &mut self,
        key: &QuicReuseKey,
        generation: u64,
        result: InitializationResult<T>,
        now: u64,
    ) -> (r: InitializationOutcome)
        requires
            old(self).wf(),
        ensures
            final(self).wf(),
            (final(self)@, r) == completion_spec(
                old(self)@,
                key@,
                generation,
                result is Ready,
                match result {
                    InitializationResult::Failed(e) => Some(e),
                    _ => None,
                },
                now,
            ),
            !matches_entry(old(self)@.entries, key@, generation) ==> final(self).transports() == old(
                self,
            ).transports(),
            matches_entry(old(self)@.entries, key@, generation) ==> final(self).transports() == (match result {
                InitializationResult::Ready(t) => old(self).transports().update(
                    index_of_key(old(self)@.entries, key@),
                    Some(t),
                ),
                _ => old(self).transports(),
            }),
    {
        let ghost tb = self.transports();
        let ghost result_g = result;
        let i = match self.find(key) {
            None => return InitializationOutcome::NoMatchingEntry,
            Some(i) => i,
        };
        assert(self@.entries[i as int] == self.entries@[i as int].view());
        if self.entries[i].generation != generation {
            return InitializationOutcome::NoMatchingEntry;
        }
        let ghost before = self@;
        let ghost ready = result is Ready;
        let ghost failure_g = match result {
            InitializationResult::Failed(e) => Some(e),
            _ => None,
        };
        let lifecycle_open = self.lifecycle.state() == LifecycleState::Open;
        let gate = self.entries[i].phase == EntryPhase::Initializing && self.accepting
            && lifecycle_open;
        let (transport, failure) = match result {
            InitializationResult::Ready(t) => (Some(t), None),
            InitializationResult::Failed(e) => (None, Some(e)),
            InitializationResult::NoResource => (None, None),
        };
        self.entries[i].initialized = true;
        let outcome = if gate && transport.is_some() {
            self.entries[i].transport = transport;
            self.entries[i].phase = EntryPhase::Active;
            self.entries[i].health = EntryHealth::Healthy;
            self.entries[i].last_used = now;
            InitializationOutcome::Published
        } else {
            if transport.is_some() {
                self.entries[i].transport = transport;
            }
            self.entries[i].phase = EntryPhase::Closing;
            self.entries[i].health = EntryHealth::Dead;
            self.entries[i].teardown_requested = true;
            self.entries[i].teardown_started = true;
            InitializationOutcome::HandedToTeardown {
                error: if gate {
                    failure
                } else {
                    None
                },
            }
        };
        proof {
            match result_g {
                InitializationResult::Ready(t) => {
                    assert(self.transports() =~= tb.update(i as int, Some(t)));
                },
                _ => {
                    assert(self.transports() =~= tb);
                },
            }
            let e = before.entries;
            let f = self@.entries;
            let (sv, so) = completion_spec(before, key@, generation, ready, failure_g, now);
            assert(f =~= sv.entries) by {
                assert forall|j: int| 0 <= j < f.len() implies #[trigger] f[j] == sv.entries[j] by {
                    assert(f[j] == self.entries@[j].view());
                }
            }
            assert forall|a: int, b: int| 0 <= a < f.len() && 0 <= b < f.len() && a != b
                implies #[trigger] f[a].key != #[trigger] f[b].key by {
                assert(e[a].key != e[b].key);
            }
            assert forall|j: int| 0 <= j < f.len() implies entry_wf(#[trigger] f[j], self@.next_generation) by {
                assert(entry_wf(e[j], self@.next_generation));
            }
            assert forall|j: int| 0 <= j < f.len() && !self@.accepting implies (#[trigger] f[j]).phase == EntryPhase::Closing by {
                assert(e[j].phase == EntryPhase::Closing);
            }
        }
        outcome
    }

    /// Removes the exact generation's transport and cancels its outstanding
    /// stream permits, returning both (teardown only).
    pub fn take_transport_for_teardown(&mut self, key: &QuicReuseKey, generation: u64) -> (r: (
        Option<T>,
        usize,
    ))
        requires
            old(self).wf(),
        ensures
            final(self).wf(),
            !matches_entry(old(self)@.entries, key@, generation) ==> final(self)@ == old(self)@
                && r.0 is None && r.1 == 0,
            matches_entry(old(self)@.entries, key@, generation) ==> {
                let i = index_of_key(old(self)@.entries, key@);
                let e = old(self)@.entries[i];
                &&& final(self)@ == (OwnerView {
                    entries: old(self)@.entries.update(
                        i,
                        EntryView { permits: 0, has_transport: false, ..e },
                    ),
                    ..old(self)@
                })
                &&& r.1 == e.permits
                &&& (r.0 is Some <==> e.has_transport)
                &&& r.0 == old(self).transports()[i]
                &&& final(self).transports() == old(self).transports().update(i, None)
            },
            !matches_entry(old(self)@.entries, key@, generation) ==> final(self).transports() == old(
                self,
            ).transports(),
    {
        let ghost tb = self.transports();
        let i = match self.find(key) {
            None => return (None, 0),
            Some(i) => i,
        };
        assert(self@.entries[i as int] == self.entries@[i as int].view());
        if self.entries[i].generation != generation {
            return (None, 0);
        }
        let ghost before = self@;
        let cancelled = self.entries[i].permits_in_use;
        self.entries[i].permits_in_use = 0;
        let transport = self.entries[i].transport.take();
        proof {
            assert(self.transports() =~= tb.update(i as int, None));
            let e = before.entries;
            let f = self@.entries;
            let target = e.update(i as int, EntryView { permits: 0, has_transport: false, ..e[i as int] });
            assert(f =~= target) by {
                assert forall|j: int| 0 <= j < f.len() implies #[trigger] f[j] == target[j] by {
                    assert(f[j] == self.entries@[j].view());
                }
            }
            assert forall|a: int, b: int| 0 <= a < f.len() && 0 <= b < f.len() && a != b
                implies #[trigger] f[a].key != #[trigger] f[b].key by {
                assert(e[a].key != e[b].key);
            }
            assert forall|j: int| 0 <= j < f.len() implies entry_wf(#[trigger] f[j], self@.next_generation) by {
                assert(entry_wf(e[j], self@.next_generation));
            }
        }
        (transport, cancelled)
    }

    /// The only entry-removal path: the terminal outcome `terminal` of the
    /// exact generation removes it, releases its liveness registration, and is
    /// reported back; any other key or generation is untouched and nothing is
    /// reported.
    pub fn finish_teardown(&mut self, key: &QuicReuseKey, generation: u64, terminal: EntryTerminal) -> (r:
        Option<EntryTerminal>)
        requires
            old(self).wf(),
        ensures
            final(self).wf(),
            (final(self)@, r is Some) == finish_teardown_spec(old(self)@, key@, generation),
            r is Some ==> r == Some(terminal),
            r is Some ==> final(self).transports() == old(self).transports().remove(
                index_of_key(old(self)@.entries, key@),
            ),
            r is None ==> final(self).transports() == old(self).transports(),
    {
        let ghost tb = self.transports();
        let i = match self.find(key) {
            None => return None,
            Some(i) => i,
        };
        assert(self@.entries[i as int] == self.entries@[i as int].view());
        if self.entries[i].generation != generation {
            return None;
        }
        let ghost before = self@;
        let _removed = self.entries.remove(i);
        self.lifecycle.release();
        proof {
            assert(self.transports() =~= tb.remove(i as int));
            let e = before.entries;
            let f = self@.entries;
            let target = e.remove(i as int);
            assert(f =~= target) by {
                assert forall|j: int| 0 <= j < f.len() implies #[trigger] f[j] == target[j] by {
                    assert(f[j] == self.entries@[j].view());
                }
            }
            assert forall|a: int, b: int| 0 <= a < f.len() && 0 <= b < f.len() && a != b
                implies #[trigger] f[a].key != #[trigger] f[b].key by {
                let a0 = if a < i { a } else { a + 1 };
                let b0 = if b < i { b } else { b + 1 };
                assert(f[a] == e[a0]);
                assert(f[b] == e[b0]);
                assert(e[a0].key != e[b0].key);
            }
            assert forall|j: int| 0 <= j < f.len() implies entry_wf(#[trigger] f[j], self@.next_generation) by {
                let j0 = if j < i { j } else { j + 1 };
                assert(f[j] == e[j0]);
                assert(entry_wf(e[j0], self@.next_generation));
            }
            assert forall|j: int| 0 <= j < f.len() && !self@.accepting implies (#[trigger] f[j]).phase == EntryPhase::Closing by {
                let j0 = if j < i { j } else { j + 1 };
                assert(f[j] == e[j0]);
                assert(e[j0].phase == EntryPhase::Closing);
            }
        }
        Some(terminal)
    }

    /// Returns one stream permit of the exact generation at `now`.
    pub fn release_permit(&mut self, key: &QuicReuseKey, generation: u64, now: u64)
        requires
            old(self).wf(),
        ensures
            final(self).wf(),
            final(self)@ == release_permit_spec(old(self)@, key@, generation, now),
            final(self).transports() == old(self).transports(),
    {
        let ghost tb = self.transports();
        let i = match self.find(key) {
            None => return,
            Some(i) => i,
        };
        assert(self@.entries[i as int] == self.entries@[i as int].view());
        if self.entries[i].generation != generation || self.entries[i].permits_in_use == 0 {
            return;
        }
        let ghost before = self@;
        self.entries[i].permits_in_use = self.entries[i].permits_in_use - 1;
        if self.entries[i].permits_in_use == 0 && self.entries[i].health == EntryHealth::Healthy {
            self.entries[i].last_used = now;
        }
        proof {
            assert(self.transports() =~= tb);
            let e = before.entries;
            let f = self@.entries;
            let target = release_permit_spec(before, key@, generation, now).entries;
            assert(f =~= target) by {
                assert forall|j: int| 0 <= j < f.len() implies #[trigger] f[j] == target[j] by {
                    assert(f[j] == self.entries@[j].view());
                }
            }
            assert forall|a: int, b: int| 0 <= a < f.len() && 0 <= b < f.len() && a != b
                implies #[trigger] f[a].key != #[trigger] f[b].key by {
                assert(e[a].key != e[b].key);
            }
            assert forall|j: int| 0 <= j < f.len() implies entry_wf(#[trigger] f[j], self@.next_generation) by {
                assert(entry_wf(e[j], self@.next_generation));
            }
        }
    }

    /// Applies one classification to the exact key+generation; the only
    /// logical-deactivation path besides close and idle expiry.
    pub fn apply_error_class(&mut self, key: &QuicReuseKey, generation: u64, class: QuicErrorClass) -> (r:
        QuicErrorOutcome)
        requires
            old(self).wf(),
        ensures
            final(self).wf(),
            (final(self)@, r) == apply_class_spec(old(self)@, key@, generation, class),
            final(self).transports() == old(self).transports(),
    {
        let i = match self.find(key) {
            None => return QuicErrorOutcome::NoMatchingEntry,
            Some(i) => i,
        };
        assert(self@.entries[i as int] == self.entries@[i as int].view());
        if self.entries[i].generation != generation {
            return QuicErrorOutcome::NoMatchingEntry;
        }
        if class == QuicErrorClass::StreamLocal {
            return QuicErrorOutcome::EntryUnchanged;
        }
        let ghost before = self@;
        self.mark_closing_at(i);
        proof {
            let e = before.entries;
            let f = self@.entries;
            assert forall|a: int, b: int| 0 <= a < f.len() && 0 <= b < f.len() && a != b
                implies #[trigger] f[a].key != #[trigger] f[b].key by {
                assert(e[a].key != e[b].key);
            }
            assert forall|j: int| 0 <= j < f.len() implies entry_wf(#[trigger] f[j], self@.next_generation) by {
                assert(entry_wf(e[j], self@.next_generation));
            }
        }
        QuicErrorOutcome::EntryDeactivated
    }

    /// Owner-close stage two, the sole map-side admission-versus-close
    /// linearization: admission stops accepting, and every entry is marked
    /// `Closing` without removal. Returns each entry's key and generation, in
    /// map order, so the caller can await their terminal completions.
    pub fn linearize_close(&mut self) -> (r: Vec<TeardownTicket>)
        requires
            old(self).wf(),
        ensures
            final(self).wf(),
            final(self)@ == linearize_spec(old(self)@),
            r@.len() == old(self)@.entries.len(),
            forall|i: int| 0 <= i < r@.len() ==> (#[trigger] r@[i]).key@ == old(self)@.entries[i].key
                && r@[i].generation == old(self)@.entries[i].generation,
            final(self).transports() == old(self).transports(),
    {
        let ghost before = self@.entries;
        self.accepting = false;
        let mut captured: Vec<TeardownTicket> = Vec::new();
        let mut i: usize = 0;
        while i < self.entries.len()
            invariant
                i <= before.len(),
                self.entries@.len() == before.len(),
                self@ == (OwnerView { entries: self@.entries, accepting: false, ..old(self)@ }),
                self.transports() == old(self).transports(),
                self@.entries.len() == before.len(),
                forall|j: int| 0 <= j < i ==> #[trigger] self@.entries[j] == mark_closing(before[j]),
                forall|j: int| i <= j < before.len() ==> #[trigger] self@.entries[j] == before[j],
                captured@.len() == i,
                forall|j: int| 0 <= j < i ==> (#[trigger] captured@[j]).key@ == before[j].key
                    && captured@[j].generation == before[j].generation,
            decreases before.len() - i,
        {
            assert(self@.entries[i as int] == self.entries@[i as int].view());
            captured.push(
                TeardownTicket { key: self.entries[i].key.clone(), generation: self.entries[i].generation },
            );
            self.mark_closing_at(i);
            i = i + 1;
        }
        proof {
            let f = self@.entries;
            assert(f =~= linearize_spec(old(self)@).entries);
            assert forall|a: int, b: int| 0 <= a < f.len() && 0 <= b < f.len() && a != b
                implies #[trigger] f[a].key != #[trigger] f[b].key by {
                assert(before[a].key != before[b].key);
            }
            assert forall|j: int| 0 <= j < f.len() implies entry_wf(#[trigger] f[j], self@.next_generation) by {
                assert(entry_wf(before[j], self@.next_generation));
            }
        }
        captured
    }

    /// Lazy maintenance at `now`: expires idle entries without removing them.
    pub fn maintain(&mut self, now: u64)
        requires
            old(self).wf(),
        ensures
            final(self).wf(),
            final(self)@ == (OwnerView {
                entries: expire_entries(old(self)@.entries, now),
                ..old(self)@
            }),
            final(self).transports() == old(self).transports(),
    {
        self.expire_idle(now)
    }

    /// Hands out the next started but not yet dispatched teardown, marking it
    /// dispatched, so each generation's supervised teardown runs exactly once.
    pub fn next_teardown(&mut self) -> (r: Option<TeardownTicket>)
        requires
            old(self).wf(),
        ensures
            final(self).wf(),
            r is None ==> final(self)@ == old(self)@ && forall|i: int|
                0 <= i < old(self)@.entries.len() ==> !((#[trigger] old(self)@.entries[i]).teardown_started
                    && !old(self)@.entries[i].teardown_dispatched),
            r matches Some(t) ==> exists|i: int|
                0 <= i < old(self)@.entries.len() && (#[trigger] old(self)@.entries[i]).teardown_started
                    && !old(self)@.entries[i].teardown_dispatched && t.key@ == old(self)@.entries[i].key
                    && t.generation == old(self)@.entries[i].generation && final(self)@ == (OwnerView {
                    entries: old(self)@.entries.update(
                        i,
                        EntryView { teardown_dispatched: true, ..old(self)@.entries[i] },
                    ),
                    ..old(self)@
                }),
            final(self).transports() == old(self).transports(),
    {
        let ghost before = self@;
        let ghost tb = self.transports();
        let mut i: usize = 0;
        while i < self.entries.len()
            invariant
                i <= self.entries@.len(),
                self@ == before,
                before == old(self)@,
                self.transports() == tb,
                tb == old(self).transports(),
                owner_wf(before),
                self@.entries.len() == self.entries@.len(),
                forall|j: int| 0 <= j < i ==> !((#[trigger] before.entries[j]).teardown_started
                    && !before.entries[j].teardown_dispatched),
            decreases self.entries@.len() - i,
        {
            assert(self@.entries[i as int] == self.entries@[i as int].view());
            if self.entries[i].teardown_started && !self.entries[i].teardown_dispatched {
                self.entries[i].teardown_dispatched = true;
                assert(self.transports() =~= tb);
                let ticket = TeardownTicket { key: self.entries[i].key.clone(), generation: self.entries[i].generation };
                proof {
                    let e = before.entries;
                    let f = self@.entries;
                    let target = e.update(i as int, EntryView { teardown_dispatched: true, ..e[i as int] });
                    assert(f =~= target) by {
                        assert forall|j: int| 0 <= j < f.len() implies #[trigger] f[j] == target[j] by {
                            assert(f[j] == self.entries@[j].view());
                        }
                    }
                    assert forall|a: int, b: int| 0 <= a < f.len() && 0 <= b < f.len() && a != b
                        implies #[trigger] f[a].key != #[trigger] f[b].key by {
                        assert(e[a].key != e[b].key);
                    }
                    assert forall|j: int| 0 <= j < f.len() implies entry_wf(#[trigger] f[j], self@.next_generation) by {
                        assert(entry_wf(e[j], self@.next_generation));
                    }
                    assert forall|j: int| 0 <= j < f.len() && !self@.accepting implies (#[trigger] f[j]).phase == EntryPhase::Closing by {
                        assert(e[j].phase == EntryPhase::Closing);
                    }
                    assert(ticket.key@ == e[i as int].key);
                    assert(e[i as int].teardown_started && !e[i as int].teardown_dispatched);
                    assert(self@ == (OwnerView { entries: target, ..before }));
                    assert(before == old(self)@);
                    assert(old(self)@.entries[i as int].teardown_started);
                }
                return Some(ticket);
            }
            i = i + 1;
        }
        None
    }

    /// A read-only observation of the stored entry for `key`, if any.
    pub fn observe(&self, key: &QuicReuseKey) -> (r: Option<EntryObservation>)
        requires
            self.wf(),
        ensures
            !has_key(self@.entries, key@) ==> r is None,
            has_key(self@.entries, key@) ==> (r matches Some(o) && {
                let e = self@.entries[index_of_key(self@.entries, key@)];
                &&& o.key@ == e.key
                &&& o.generation == e.generation
                &&& o.phase == e.phase
                &&& o.health == e.health
                &&& o.initialized == e.initialized
                &&& o.teardown_requested == e.teardown_requested
                &&& o.permits_in_use == e.permits
                &&& o.last_used == e.last_used
            }),
    {
        match self.find(key) {
            None => None,
            Some(i) => {
                assert(self@.entries[i as int] == self.entries@[i as int].view());
                let e = &self.entries[i];
                Some(
                    EntryObservation {
                        key: e.key.clone(),
                        generation: e.generation,
                        phase: e.phase,
                        health: e.health,
                        initialized: e.initialized,
                        teardown_requested: e.teardown_requested,
                        permits_in_use: e.permits_in_use,
                        last_used: e.last_used,
                    },
                )
            },
        }
    }

    /// The transport of the exact generation, while the map still holds it.
    pub fn transport(&self, key: &QuicReuseKey, generation: u64) -> (r: Option<&T>)
        requires
            self.wf(),
        ensures
            r is Some <==> (matches_entry(self@.entries, key@, generation)
                && self@.entries[index_of_key(self@.entries, key@)].has_transport),
            r matches Some(t) ==> self.transports()[index_of_key(self@.entries, key@)] == Some(*t),
    {
        match self.find(key) {
            None => None,
            Some(i) => {
                assert(self@.entries[i as int] == self.entries@[i as int].view());
                if self.entries[i].generation != generation {
                    None
                } else {
                    self.entries[i].transport.as_ref()
                }
            },
        }
    }
}

} // verus!

verus! {

/// Once close stage two ran (admission no longer accepting), every admission
/// is refused with `Closed(NotSent)` and changes nothing.
pub proof fn law_closed_admission_refuses(v: OwnerView, k: QuicKeyView, now: u64)
    requires
        !v.accepting,
    ensures
        admission_spec(v, k, now) == (v, Admission::Rejected(
            UpstreamError::Closed(SideEffectState::NotSent),
        )),
{
}

/// Close stage two leaves no leasable entry, refuses every later admission,
/// and no later initialization completion can publish `Active`.
pub proof fn law_no_admission_or_publication_after_linearize(
    v: OwnerView,
    k: QuicKeyView,
    g: u64,
    ready: bool,
    failure: Option<UpstreamError>,
    now: u64,
)
    requires
        owner_wf(v),
    ensures
        forall|i: int|
            0 <= i < linearize_spec(v).entries.len() ==> (#[trigger] linearize_spec(v).entries[i]).phase
                == EntryPhase::Closing,
        admission_spec(linearize_spec(v), k, now).1 == Admission::Rejected(
            UpstreamError::Closed(SideEffectState::NotSent),
        ),
        completion_spec(linearize_spec(v), k, g, ready, failure, now).1
            != InitializationOutcome::Published,
{
}

/// A key whose entry is `Closing` is refused with `Closed(NotSent)`: no second
/// generation is installed for it, and nothing waits for its drain.
pub proof fn law_closing_key_is_refused_without_new_generation(v: OwnerView, k: QuicKeyView, now: u64)
    requires
        owner_wf(v),
        has_key(v.entries, k),
        v.entries[index_of_key(v.entries, k)].phase == EntryPhase::Closing,
    ensures
        admission_spec(v, k, now).1 == Admission::Rejected(
            UpstreamError::Closed(SideEffectState::NotSent),
        ),
        admission_spec(v, k, now).0.next_generation == v.next_generation,
        admission_spec(v, k, now).0.entries.len() == v.entries.len(),
{
    let i = index_of_key(v.entries, k);
    let e = expire_entries(v.entries, now);
    lemma_expire_keeps_wf(v, now);
    assert(e[i].key == k);
    lemma_index_of_unique(e, k, i);
}

/// A freshly installed generation is newer than every generation already in
/// the map, so a callback for an older generation can never touch it.
pub proof fn law_installed_generation_is_fresh(v: OwnerView, k: QuicKeyView, now: u64)
    requires
        owner_wf(v),
        v.next_generation < u64::MAX,
        admission_spec(v, k, now).1 matches Admission::Installed { .. },
    ensures
        forall|i: int|
            0 <= i < v.entries.len() ==> (#[trigger] v.entries[i]).generation
                < admission_spec(v, k, now).1->Installed_generation,
        !has_key(v.entries, k),
{
    assert forall|i: int| 0 <= i < v.entries.len() implies (#[trigger] v.entries[i]).generation
        < admission_spec(v, k, now).1->Installed_generation by {
        assert(entry_wf(v.entries[i], v.next_generation));
    }
    lemma_expire_keeps_wf(v, now);
    if has_key(v.entries, k) {
        let i = index_of_key(v.entries, k);
        assert(expire_entries(v.entries, now)[i].key == k);
    }
}

/// A callback for a vanished or replaced generation never changes the map:
/// not a classification, a completion, a permit release, a transport take,
/// nor a terminal removal.
pub proof fn law_stale_generation_is_untouched(
    v: OwnerView,
    k: QuicKeyView,
    g: u64,
    class: QuicErrorClass,
    ready: bool,
    failure: Option<UpstreamError>,
    now: u64,
)
    requires
        !matches_entry(v.entries, k, g),
    ensures
        apply_class_spec(v, k, g, class) == (v, QuicErrorOutcome::NoMatchingEntry),
        completion_spec(v, k, g, ready, failure, now) == (v, InitializationOutcome::NoMatchingEntry),
        release_permit_spec(v, k, g, now) == v,
        finish_teardown_spec(v, k, g) == (v, false),
{
}

/// One key shares one connection: while the owner is open, an admission for
/// a key whose entry is a healthy `Active` generation with a free stream
/// permit, not idled out, leases that same generation; one whose entry is
/// still `Initializing` joins that generation. Neither installs a second one.
pub proof fn law_one_connection_per_key(v: OwnerView, k: QuicKeyView, now: u64, i: int)
    requires
        owner_wf(v),
        v.accepting,
        v.lifecycle.state == LifecycleState::Open,
        0 <= i < v.entries.len(),
        v.entries[i].key == k,
        !idle_expired(v.entries[i], now),
        v.entries[i].phase == EntryPhase::Initializing || v.entries[i].permits
            < MAX_STREAMS_PER_CONNECTION,
        v.entries[i].phase != EntryPhase::Closing,
    ensures
        v.entries[i].phase == EntryPhase::Active ==> admission_spec(v, k, now).1
            == (Admission::Leased { generation: v.entries[i].generation }),
        v.entries[i].phase == EntryPhase::Initializing ==> admission_spec(v, k, now).1
            == (Admission::Joined { generation: v.entries[i].generation }),
        admission_spec(v, k, now).0.next_generation == v.next_generation,
        admission_spec(v, k, now).0.entries.len() == v.entries.len(),
{
    let e = expire_entries(v.entries, now);
    lemma_expire_keeps_wf(v, now);
    assert(e[i] == v.entries[i]);
    lemma_index_of_unique(e, k, i);
    assert(entry_wf(v.entries[i], v.next_generation));
}

/// A stream-local failure never changes the shared entry.
pub proof fn law_stream_local_failure_keeps_the_entry(v: OwnerView, k: QuicKeyView, g: u64)
    ensures
        apply_class_spec(v, k, g, QuicErrorClass::StreamLocal).0 == v,
{
}

/// `Closing` is permanent: admission, completion, classification, permit
/// release, and close stage two never move a `Closing` entry back; an entry
/// leaves `Closing` only by its terminal removal.
pub proof fn law_closing_is_permanent(
    v: OwnerView,
    k: QuicKeyView,
    g: u64,
    class: QuicErrorClass,
    ready: bool,
    failure: Option<UpstreamError>,
    now: u64,
    i: int,
)
    requires
        owner_wf(v),
        0 <= i < v.entries.len(),
        v.entries[i].phase == EntryPhase::Closing,
    ensures
        admission_spec(v, k, now).0.entries[i].phase == EntryPhase::Closing,
        completion_spec(v, k, g, ready, failure, now).0.entries[i].phase == EntryPhase::Closing,
        apply_class_spec(v, k, g, class).0.entries[i].phase == EntryPhase::Closing,
        release_permit_spec(v, k, g, now).entries[i].phase == EntryPhase::Closing,
        linearize_spec(v).entries[i].phase == EntryPhase::Closing,
{
    lemma_expire_keeps_wf(v, now);
    assert(entry_wf(v.entries[i], v.next_generation));
}

/// Every operation keeps the owner within its bounds: at most
/// `MAX_CONNECTIONS_PER_OWNER` entries, at most `MAX_STREAMS_PER_CONNECTION`
/// permits per entry, and one entry per key.
pub proof fn law_bounds_hold(v: OwnerView)
    requires
        owner_wf(v),
    ensures
        v.entries.len() <= MAX_CONNECTIONS_PER_OWNER,
        forall|i: int| 0 <= i < v.entries.len() ==> (#[trigger] v.entries[i]).permits
            <= MAX_STREAMS_PER_CONNECTION,
        keys_unique(v.entries),
{
    assert forall|i: int| 0 <= i < v.entries.len() implies (#[trigger] v.entries[i]).permits
        <= MAX_STREAMS_PER_CONNECTION by {
        assert(entry_wf(v.entries[i], v.next_generation));
    }
}

} // verus!
