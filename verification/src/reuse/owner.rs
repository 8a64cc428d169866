use vstd::prelude::*;

use super::{
    PoolError, ReuseKey, ReuseKeyView, IDLE_TIMEOUT, MAX_IDLE_TOTAL, MAX_PENDING_PER_CONNECTION,
};
use crate::control::TransportCancellation;
use crate::error::{SideEffectState, Transport, UpstreamError};
use crate::lifecycle::{
    begin_close_spec, commit_final_spec, finish_close_spec, lifecycle_wf, register_spec,
    release_spec, CloseCompletion, CloseTransition, Lifecycle, LifecycleState, LifecycleView,
};
use crate::upstream::Endpoint;

verus! {

/// One retained idle connection, as plain values.
pub struct IdleView<C> {
    pub key: ReuseKeyView,
    pub conn: C,
    pub idle_since: u64,
}

/// The reuse owner as plain values.
pub struct PoolView<C> {
    pub endpoint: Endpoint,
    pub lifecycle: LifecycleView,
    pub idle: Seq<IdleView<C>>,
    pub leased: nat,
    pub closed: bool,
}

pub open spec fn idle_keys_unique<C>(idle: Seq<IdleView<C>>) -> bool {
    forall|i: int, j: int|
        0 <= i < idle.len() && 0 <= j < idle.len() && i != j ==> #[trigger] idle[i].key
            != #[trigger] idle[j].key
}

/// The owner's invariant: a bounded idle set with at most one entry per key,
/// at most one outstanding exchange, nothing retained once the owner left
/// `Open`, and a TCP endpoint.
pub open spec fn pool_wf<C>(v: PoolView<C>) -> bool {
    &&& v.idle.len() <= MAX_IDLE_TOTAL
    &&& idle_keys_unique(v.idle)
    &&& v.leased <= MAX_PENDING_PER_CONNECTION
    &&& v.lifecycle.state != LifecycleState::Open ==> v.idle.len() == 0
    &&& lifecycle_wf(v.lifecycle)
    &&& v.endpoint.transport_spec() == Transport::Tcp
}

pub open spec fn has_idle_key<C>(idle: Seq<IdleView<C>>, k: ReuseKeyView) -> bool {
    exists|i: int| 0 <= i < idle.len() && (#[trigger] idle[i]).key == k
}

pub open spec fn idle_index<C>(idle: Seq<IdleView<C>>, k: ReuseKeyView) -> int {
    choose|i: int| 0 <= i < idle.len() && (#[trigger] idle[i]).key == k
}

/// Entry `j` was returned no later than any other idle entry.
pub open spec fn is_oldest<C>(idle: Seq<IdleView<C>>, j: int) -> bool {
    &&& 0 <= j < idle.len()
    &&& forall|k: int| 0 <= k < idle.len() ==> idle[j].idle_since <= (#[trigger] idle[k]).idle_since
}

/// An idle entry at least `IDLE_TIMEOUT` old at `now` (an instant before its
/// return counts as no idle time).
pub open spec fn idle_stale<C>(e: IdleView<C>, now: u64) -> bool {
    now >= e.idle_since && now - e.idle_since >= IDLE_TIMEOUT
}

pub open spec fn saturating_dec(n: nat) -> nat {
    if n > 0 {
        (n - 1) as nat
    } else {
        0
    }
}

/// What returning a connection does: the serial slot is released; the
/// connection is retained only when it is reusable, the pool is not closed,
/// and the owner is `Open`; a newer entry replaces the key's older one, and a
/// full idle set first evicts an entry returned no later than any other.
pub open spec fn released<C>(
    before: PoolView<C>,
    after: PoolView<C>,
    k: ReuseKeyView,
    conn: C,
    reusable: bool,
    now: u64,
) -> bool {
    let fresh = IdleView { key: k, conn, idle_since: now };
    let idle = before.idle;
    &&& after.leased == saturating_dec(before.leased)
    &&& after.endpoint == before.endpoint
    &&& after.lifecycle == before.lifecycle
    &&& after.closed == before.closed
    &&& (!reusable || before.closed || before.lifecycle.state != LifecycleState::Open)
        ==> after.idle == idle
    &&& (reusable && !before.closed && before.lifecycle.state == LifecycleState::Open) ==> {
        &&& has_idle_key(idle, k) ==> after.idle == idle.update(idle_index(idle, k), fresh)
        &&& !has_idle_key(idle, k) && idle.len() < MAX_IDLE_TOTAL ==> after.idle == idle.push(
            fresh,
        )
        &&& !has_idle_key(idle, k) && idle.len() >= MAX_IDLE_TOTAL ==> exists|j: int|
            is_oldest(idle, j) && after.idle == idle.remove(j).push(fresh)
    }
}

proof fn lemma_idle_index<C>(idle: Seq<IdleView<C>>, k: ReuseKeyView, i: int)
    requires
        idle_keys_unique(idle),
        0 <= i < idle.len(),
        idle[i].key == k,
    ensures
        has_idle_key(idle, k),
        idle_index(idle, k) == i,
{
    assert(has_idle_key(idle, k));
    let j = idle_index(idle, k);
    assert(idle[j].key == k);
}

struct IdleConnection<C> {
    key: ReuseKey,
    conn: C,
    idle_since: u64,
}

/// Owns the reusable connections for one numeric TCP endpoint.
///
/// A reused connection carries at most one outstanding query; a second
/// concurrent request for a busy key is refused rather than queued. Owner
/// close refuses further checkouts and drops every idle entry, and a
/// connection returning after close began is discarded. `C` is the
/// connection handle.
pub struct ReuseOwner<C> {
    endpoint: Endpoint,
    lifecycle: Lifecycle,
    cancellation: TransportCancellation,
    idle: Vec<IdleConnection<C>>,
    leased: usize,
    closed: bool,
}

impl<C> View for ReuseOwner<C> {
    type V = PoolView<C>;

    closed spec fn view(&self) -> PoolView<C> {
        PoolView {
            endpoint: self.endpoint,
            lifecycle: self.lifecycle.view(),
            idle: Seq::new(
                self.idle@.len(),
                |i: int|
                    IdleView {
                        key: self.idle@[i].key@,
                        conn: self.idle@[i].conn,
                        idle_since: self.idle@[i].idle_since,
                    },
            ),
            leased: self.leased as nat,
            closed: self.closed,
        }
    }
}

impl<C> ReuseOwner<C> {
    /// The owner's invariant over its view.
    pub closed spec fn wf(&self) -> bool {
        pool_wf(self@)
    }

    /// Creates an owner for one validated TCP endpoint.
    pub fn new(endpoint: Endpoint) -> (r: Self)
        requires
            endpoint.transport_spec() == Transport::Tcp,
        ensures
            r.wf(),
            r@.endpoint == endpoint,
            r@.lifecycle == (LifecycleView { state: LifecycleState::Open, in_flight: 0 }),
            r@.idle.len() == 0,
            r@.leased == 0,
            !r@.closed,
    {
        let r = ReuseOwner {
            endpoint,
            lifecycle: Lifecycle::new(),
            cancellation: TransportCancellation::new(),
            idle: Vec::new(),
            leased: 0,
            closed: false,
        };
        assert(r@.idle.len() == 0);
        r
    }

    /// Creates an owner for one validated numeric endpoint; UDP has no
    /// connection to reuse.
    pub fn try_new(endpoint: Endpoint) -> (r: Result<Self, PoolError>)
        ensures
            endpoint.transport_spec() == Transport::Udp ==> r == Err::<Self, PoolError>(
                PoolError::NotReusable,
            ),
            endpoint.transport_spec() == Transport::Tcp ==> (r matches Ok(o) && o.wf()
                && o@.endpoint == endpoint && o@.lifecycle == (LifecycleView {
                state: LifecycleState::Open,
                in_flight: 0,
            }) && o@.idle.len() == 0 && o@.leased == 0 && !o@.closed),
    {
        if endpoint.transport() == Transport::Udp {
            return Err(PoolError::NotReusable);
        }
        Ok(Self::new(endpoint))
    }

    /// The numeric endpoint this owner reuses connections for.
    pub fn endpoint(&self) -> (r: Endpoint)
        ensures
            r == self@.endpoint,
    {
        self.endpoint
    }

    /// The owner lifecycle state.
    pub fn lifecycle_state(&self) -> (r: LifecycleState)
        ensures
            r == self@.lifecycle.state,
    {
        self.lifecycle.state()
    }

    /// The number of connections currently leased to callers.
    pub fn leased_connections(&self) -> (r: usize)
        ensures
            r == self@.leased,
    {
        self.leased
    }

    /// The number of idle (reusable) connections retained.
    pub fn idle_connections(&self) -> (r: usize)
        ensures
            r == self@.idle.len(),
    {
        self.idle.len()
    }

    /// The number of in-flight exchanges registered with the lifecycle.
    pub fn in_flight_exchanges(&self) -> (r: usize)
        ensures
            r == self@.lifecycle.in_flight,
    {
        self.lifecycle.in_flight()
    }

    /// The owner's shutdown scope.
    pub closed spec fn cancellation_spec(&self) -> TransportCancellation {
        self.cancellation
    }

    /// The owner cancellation token, cancelled when close begins.
    pub fn owner_cancellation(&self) -> (r: TransportCancellation)
        ensures
            r == self.cancellation_spec(),
    {
        self.cancellation.clone()
    }

    /// Begins owner shutdown: `Open -> Closing` cancels owned work and drops
    /// every idle connection, since nothing else would release them.
    pub fn begin_close(&mut self) -> (r: CloseTransition)
        requires
            old(self).wf(),
        ensures
            final(self).wf(),
            (final(self)@.lifecycle, r) == begin_close_spec(old(self)@.lifecycle),
            r == CloseTransition::BeganClosing ==> final(self)@ == (PoolView {
                lifecycle: final(self)@.lifecycle,
                idle: Seq::empty(),
                ..old(self)@
            }),
            r != CloseTransition::BeganClosing ==> final(self)@ == old(self)@,
    {
        let transition = self.lifecycle.begin_close();
        if transition == CloseTransition::BeganClosing {
            self.cancellation.cancel();
            self.idle.clear();
            assert(self@.idle =~= Seq::empty());
        }
        transition
    }

    /// Completes close after every leased connection returned: the pool is
    /// marked closed for good, then the guarded `Closing -> Closed` runs.
    pub fn finish_close(&mut self) -> (r: CloseCompletion)
        requires
            old(self).wf(),
        ensures
            final(self).wf(),
            (final(self)@.lifecycle, r) == finish_close_spec(old(self)@.lifecycle),
            final(self)@ == (PoolView {
                lifecycle: final(self)@.lifecycle,
                closed: true,
                ..old(self)@
            }),
    {
        self.closed = true;
        self.lifecycle.finish_close()
    }

    /// Registers one in-flight exchange (the admission step, serialized with
    /// `Open -> Closing`).
    pub fn register(&mut self) -> (r: Result<(), UpstreamError>)
        requires
            old(self).wf(),
            old(self)@.lifecycle.in_flight < usize::MAX,
        ensures
            final(self).wf(),
            (final(self)@.lifecycle, r) == register_spec(old(self)@.lifecycle),
            final(self)@ == (PoolView { lifecycle: final(self)@.lifecycle, ..old(self)@ }),
    {
        self.lifecycle.register()
    }

    /// Releases one exchange registration.
    pub fn release_registration(&mut self)
        requires
            old(self).wf(),
            old(self)@.lifecycle.in_flight > 0,
        ensures
            final(self).wf(),
            final(self)@ == (PoolView {
                lifecycle: release_spec(old(self)@.lifecycle),
                ..old(self)@
            }),
    {
        self.lifecycle.release()
    }

    /// Claims the single serial slot; refused (`false`) when the pool is
    /// closed, the owner is not `Open`, or the slot is taken. No queue exists.
    pub fn admit_lease(&mut self) -> (r: bool)
        requires
            old(self).wf(),
        ensures
            final(self).wf(),
            r == (!old(self)@.closed && old(self)@.lifecycle.state == LifecycleState::Open
                && old(self)@.leased < MAX_PENDING_PER_CONNECTION),
            r ==> final(self)@ == (PoolView { leased: old(self)@.leased + 1, ..old(self)@ }),
            !r ==> final(self)@ == old(self)@,
    {
        if self.closed || self.lifecycle.state() != LifecycleState::Open {
            return false;
        }
        if self.leased >= MAX_PENDING_PER_CONNECTION {
            return false;
        }
        self.leased = self.leased + 1;
        true
    }

    /// Releases the serial slot when a lease ends (a no-op when none is held).
    pub fn lease_done(&mut self)
        requires
            old(self).wf(),
        ensures
            final(self).wf(),
            final(self)@ == (PoolView { leased: saturating_dec(old(self)@.leased), ..old(self)@ }),
    {
        if self.leased > 0 {
            self.leased = self.leased - 1;
        }
    }

    fn find(&self, key: &ReuseKey) -> (r: Option<usize>)
        requires
            self.wf(),
        ensures
            r matches Some(i) ==> i < self@.idle.len() && self@.idle[i as int].key == key@
                && idle_index(self@.idle, key@) == i && has_idle_key(self@.idle, key@),
            r is None ==> !has_idle_key(self@.idle, key@),
    {
        let mut i: usize = 0;
        while i < self.idle.len()
            invariant
                i <= self@.idle.len(),
                self@.idle.len() == self.idle@.len(),
                self.wf(),
                forall|j: int| 0 <= j < i ==> (#[trigger] self@.idle[j]).key != key@,
            decreases self.idle@.len() - i,
        {
            if self.idle[i].key.same_key(key) {
                proof {
                    lemma_idle_index(self@.idle, key@, i as int);
                }
                return Some(i);
            }
            i = i + 1;
        }
        proof {
            if has_idle_key(self@.idle, key@) {
                let j = choose|j: int| 0 <= j < self@.idle.len() && (#[trigger] self@.idle[j]).key == key@;
                assert(self@.idle[j].key == key@);
            }
        }
        None
    }

    fn oldest(&self) -> (r: usize)
        requires
            self@.idle.len() > 0,
        ensures
            is_oldest(self@.idle, r as int),
    {
        let mut best: usize = 0;
        let mut i: usize = 1;
        while i < self.idle.len()
            invariant
                self@.idle.len() == self.idle@.len(),
                self@.idle.len() > 0,
                best < i <= self@.idle.len(),
                forall|k: int| 0 <= k < i ==> self@.idle[best as int].idle_since <= (
                #[trigger] self@.idle[k]).idle_since,
            decreases self.idle@.len() - i,
        {
            if self.idle[i].idle_since < self.idle[best].idle_since {
                best = i;
            }
            i = i + 1;
        }
        best
    }

    /// Takes the idle connection for `key` at `now`, removing it from the
    /// idle set. An entry older than `IDLE_TIMEOUT` is discarded rather than
    /// handed out. (The caller still probes a returned connection for a peer
    /// close before writing any DNS byte.)
    pub fn checkout_live(&mut self, key: &ReuseKey, now: u64) -> (r: Option<C>)
        requires
            old(self).wf(),
        ensures
            final(self).wf(),
            !has_idle_key(old(self)@.idle, key@) ==> final(self)@ == old(self)@ && r is None,
            has_idle_key(old(self)@.idle, key@) ==> {
                let i = idle_index(old(self)@.idle, key@);
                &&& final(self)@ == (PoolView { idle: old(self)@.idle.remove(i), ..old(self)@ })
                &&& idle_stale(old(self)@.idle[i], now) ==> r is None
                &&& !idle_stale(old(self)@.idle[i], now) ==> r == Some(old(self)@.idle[i].conn)
            },
    {
        let i = match self.find(key) {
            None => return None,
            Some(i) => i,
        };
        let ghost before = self@;
        let entry = self.idle.remove(i);
        proof {
            let f = self@.idle;
            let target = before.idle.remove(i as int);
            assert(f =~= target);
            assert forall|a: int, b: int| 0 <= a < f.len() && 0 <= b < f.len() && a != b
                implies #[trigger] f[a].key != #[trigger] f[b].key by {
                let a0 = if a < i { a } else { a + 1 };
                let b0 = if b < i { b } else { b + 1 };
                assert(before.idle[a0].key != before.idle[b0].key);
            }
        }
        if now >= entry.idle_since && now - entry.idle_since >= IDLE_TIMEOUT {
            return None;
        }
        Some(entry.conn)
    }

    /// Returns a finished connection to the idle set at `now`, releasing the
    /// serial slot. It is retained only when the exchange completed cleanly,
    /// the pool is not closed, and the owner is still `Open`: a newer entry
    /// replaces an older one for the same key, and when the idle set is full
    /// the oldest returned entry is evicted first.
    pub fn release(&mut self, key: ReuseKey, conn: C, reusable: bool, now: u64)
        requires
            old(self).wf(),
        ensures
            final(self).wf(),
            released(old(self)@, final(self)@, key@, conn, reusable, now),
    {
        if self.leased > 0 {
            self.leased = self.leased - 1;
        }
        if !reusable || self.closed || self.lifecycle.state() != LifecycleState::Open {
            return;
        }
        let ghost before = self@;
        let ghost fresh = IdleView { key: key@, conn, idle_since: now };
        match self.find(&key) {
            Some(i) => {
                self.idle.set(i, IdleConnection { key, conn, idle_since: now });
                proof {
                    let f = self@.idle;
                    let target = before.idle.update(i as int, fresh);
                    assert(f =~= target);
                    assert forall|a: int, b: int| 0 <= a < f.len() && 0 <= b < f.len() && a != b
                        implies #[trigger] f[a].key != #[trigger] f[b].key by {
                        assert(before.idle[a].key != before.idle[b].key);
                    }
                }
            },
            None => {
                if self.idle.len() >= MAX_IDLE_TOTAL {
                    let j = self.oldest();
                    let _evicted = self.idle.remove(j);
                    self.idle.push(IdleConnection { key, conn, idle_since: now });
                    proof {
                        let f = self@.idle;
                        let target = before.idle.remove(j as int).push(fresh);
                        assert(f =~= target);
                        assert forall|a: int, b: int| 0 <= a < f.len() && 0 <= b < f.len() && a != b
                            implies #[trigger] f[a].key != #[trigger] f[b].key by {
                            let r = before.idle.remove(j as int);
                            if a < r.len() && b < r.len() {
                                let a0 = if a < j { a } else { a + 1 };
                                let b0 = if b < j { b } else { b + 1 };
                                assert(before.idle[a0].key != before.idle[b0].key);
                            } else if a < r.len() {
                                let a0 = if a < j { a } else { a + 1 };
                                assert(before.idle[a0].key != key@);
                            } else {
                                let b0 = if b < j { b } else { b + 1 };
                                assert(before.idle[b0].key != key@);
                            }
                        }
                    }
                } else {
                    self.idle.push(IdleConnection { key, conn, idle_since: now });
                    proof {
                        let f = self@.idle;
                        let target = before.idle.push(fresh);
                        assert(f =~= target);
                        assert forall|a: int, b: int| 0 <= a < f.len() && 0 <= b < f.len() && a != b
                            implies #[trigger] f[a].key != #[trigger] f[b].key by {
                            if a < before.idle.len() && b < before.idle.len() {
                                assert(before.idle[a].key != before.idle[b].key);
                            } else if a < before.idle.len() {
                                assert(before.idle[a].key != key@);
                            } else {
                                assert(before.idle[b].key != key@);
                            }
                        }
                    }
                }
            },
        }
    }

    /// The single control-aware commit of a validated response at `now`:
    /// owner close first, then caller cancellation, then the original
    /// absolute deadline, then success.
    pub fn commit_final_response(
        &self,
        caller_cancellation: &TransportCancellation,
        deadline: u64,
        now: u64,
    ) -> (r: Result<(), UpstreamError>)
        ensures
            r == commit_final_spec(self@.lifecycle, true, now, deadline, SideEffectState::Sent) || r
                == commit_final_spec(self@.lifecycle, false, now, deadline, SideEffectState::Sent),
    {
        self.lifecycle.commit_final_response(caller_cancellation, deadline, now, SideEffectState::Sent)
    }
}

/// How one framed attempt on a retained or fresh connection ended.
#[derive(Clone, Copy, Debug, PartialEq, Eq, Structural)]
pub enum AttemptKind {
    /// The exchange completed and the connection may be retained.
    Success,
    /// The attempt failed with no DNS byte written, so one replacement dial
    /// is allowed (for a retained connection only).
    Unwritten,
    /// The attempt failed terminally; the connection must be discarded.
    Terminal,
}

/// The kind of a failed frame write: only a `Send(NotSent)` failure provably
/// left no byte with the peer.
pub open spec fn write_failure_kind(error: UpstreamError) -> AttemptKind {
    if error == UpstreamError::Send(SideEffectState::NotSent) {
        AttemptKind::Unwritten
    } else {
        AttemptKind::Terminal
    }
}

/// Classifies a failed frame write: only a `Send(NotSent)` failure provably
/// left no byte with the peer; every other failure may have sent bytes.
pub fn classify_write_failure(error: UpstreamError) -> (r: AttemptKind)
    ensures
        error == UpstreamError::Send(SideEffectState::NotSent) ==> r == AttemptKind::Unwritten,
        error != UpstreamError::Send(SideEffectState::NotSent) ==> r == AttemptKind::Terminal,
        r == write_failure_kind(error),
{
    match error {
        UpstreamError::Send(SideEffectState::NotSent) => AttemptKind::Unwritten,
        _ => AttemptKind::Terminal,
    }
}

/// Which connection one attempt of a pooled exchange ran on.
#[derive(Clone, Copy, Debug, PartialEq, Eq, Structural)]
pub enum AttemptSource {
    /// A live connection checked out of the idle pool.
    Retained,
    /// A connection dialled for this exchange.
    Fresh,
}

/// What a pooled exchange does once one attempt ended.
#[derive(Clone, Copy, Debug, PartialEq, Eq, Structural)]
pub enum AttemptStep {
    /// Finish with the response and return the connection to the pool.
    Retain,
    /// Discard the connection and dial one replacement.
    DialReplacement,
    /// Discard the connection and fail with the attempt's error.
    Fail,
}

/// The retry-once rule: a success keeps the connection; only a retained
/// connection that failed with nothing written is replaced by one fresh dial;
/// every other failure is terminal, so a fresh connection is never rebuilt
/// and no query is ever sent twice.
pub open spec fn after_attempt_spec(source: AttemptSource, kind: AttemptKind) -> AttemptStep {
    match kind {
        AttemptKind::Success => AttemptStep::Retain,
        AttemptKind::Unwritten => if source == AttemptSource::Retained {
            AttemptStep::DialReplacement
        } else {
            AttemptStep::Fail
        },
        AttemptKind::Terminal => AttemptStep::Fail,
    }
}

/// Decides the next step of a pooled exchange after one attempt.
pub fn after_attempt(source: AttemptSource, kind: AttemptKind) -> (r: AttemptStep)
    ensures
        r == after_attempt_spec(source, kind),
{
    match kind {
        AttemptKind::Success => AttemptStep::Retain,
        AttemptKind::Unwritten => match source {
            AttemptSource::Retained => AttemptStep::DialReplacement,
            AttemptSource::Fresh => AttemptStep::Fail,
        },
        AttemptKind::Terminal => AttemptStep::Fail,
    }
}

} // verus!

verus! {

/// A pooled exchange dials at most one replacement, and only for a retained
/// connection whose failed write left no byte with the peer: the query is
/// never sent twice, and a fresh connection is never rebuilt.
pub proof fn law_replacement_only_after_unwritten_write(source: AttemptSource, error: UpstreamError)
    ensures
        after_attempt_spec(source, write_failure_kind(error)) == AttemptStep::DialReplacement
            <==> (source == AttemptSource::Retained && error == UpstreamError::Send(
            SideEffectState::NotSent,
        )),
        after_attempt_spec(AttemptSource::Fresh, write_failure_kind(error)) == AttemptStep::Fail,
{
}

/// A connection returned to an open pool is what the next checkout of its key
/// hands out, as long as it is checked out before `IDLE_TIMEOUT` elapses: the
/// next sequential exchange on the key reuses it instead of dialing again.
pub proof fn law_returned_connection_is_reused<C>(
    before: PoolView<C>,
    after: PoolView<C>,
    k: ReuseKeyView,
    conn: C,
    now: u64,
    later: u64,
)
    requires
        pool_wf(before),
        pool_wf(after),
        !before.closed,
        before.lifecycle.state == LifecycleState::Open,
        released(before, after, k, conn, true, now),
        now <= later < now + IDLE_TIMEOUT,
    ensures
        has_idle_key(after.idle, k),
        after.idle[idle_index(after.idle, k)].conn == conn,
        !idle_stale(after.idle[idle_index(after.idle, k)], later),
{
    let idle = before.idle;
    let fresh = IdleView { key: k, conn, idle_since: now };
    if has_idle_key(idle, k) {
        let i = idle_index(idle, k);
        assert(after.idle[i] == fresh);
        lemma_idle_index(after.idle, k, i);
    } else if idle.len() < MAX_IDLE_TOTAL {
        assert(after.idle[idle.len() as int] == fresh);
        lemma_idle_index(after.idle, k, idle.len() as int);
    } else {
        let j = choose|j: int| is_oldest(idle, j) && after.idle == idle.remove(j).push(fresh);
        let last = (idle.len() - 1) as int;
        assert(after.idle[last] == fresh);
        lemma_idle_index(after.idle, k, last);
    }
}

/// Every reachable owner keeps its bounds: at most `MAX_IDLE_TOTAL` idle
/// connections, at most `MAX_IDLE_PER_KEY` (one) per key, at most one
/// outstanding exchange, and no idle connection once the owner left `Open`.
pub proof fn law_pool_bounds<C>(v: PoolView<C>, k: ReuseKeyView)
    requires
        pool_wf(v),
    ensures
        v.idle.len() <= MAX_IDLE_TOTAL,
        v.leased <= MAX_PENDING_PER_CONNECTION,
        v.lifecycle.state != LifecycleState::Open ==> v.idle.len() == 0,
        forall|i: int, j: int|
            0 <= i < v.idle.len() && 0 <= j < v.idle.len() && (#[trigger] v.idle[i]).key == k
                && (#[trigger] v.idle[j]).key == k ==> i == j,
{
}

} // verus!
