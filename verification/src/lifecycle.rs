use vstd::prelude::*;

use crate::control::{control_outcome, TransportCancellation};
use crate::error::{SideEffectState, UpstreamError};

verus! {

/// Lifecycle state for an upstream owner.
#[derive(Clone, Copy, Debug, PartialEq, Eq, Structural)]
pub enum LifecycleState {
    Open,
    Closing,
    Closed,
}

/// Result of attempting to start owner shutdown.
#[derive(Clone, Copy, Debug, PartialEq, Eq, Structural)]
pub enum CloseTransition {
    BeganClosing,
    AlreadyClosing,
    AlreadyClosed,
}

/// Result of attempting to complete owner shutdown. Completion only succeeds
/// from `Closing` after the in-flight registration count has reached zero.
#[derive(Clone, Copy, Debug, PartialEq, Eq, Structural)]
pub enum CloseCompletion {
    Closed,
    NotClosing,
    InFlight,
    AlreadyClosed,
}

/// Result of a complete awaitable close.
#[derive(Clone, Copy, Debug, PartialEq, Eq, Structural)]
pub enum CloseResult {
    Closed,
    AlreadyClosing,
    AlreadyClosed,
}

/// The abstract owner gate: its state and the in-flight registration count.
pub struct LifecycleView {
    pub state: LifecycleState,
    pub in_flight: nat,
}

/// The order in which lifecycle states may be visited.
pub open spec fn state_rank(s: LifecycleState) -> int {
    match s {
        LifecycleState::Open => 0,
        LifecycleState::Closing => 1,
        LifecycleState::Closed => 2,
    }
}

/// The lifecycle's well-formedness: it never reports `Closed` while an exchange is
/// still registered.
pub open spec fn lifecycle_wf(v: LifecycleView) -> bool {
    v.state == LifecycleState::Closed ==> v.in_flight == 0
}

pub open spec fn begin_close_spec(v: LifecycleView) -> (LifecycleView, CloseTransition) {
    match v.state {
        LifecycleState::Open => (
            LifecycleView { state: LifecycleState::Closing, in_flight: v.in_flight },
            CloseTransition::BeganClosing,
        ),
        LifecycleState::Closing => (v, CloseTransition::AlreadyClosing),
        LifecycleState::Closed => (v, CloseTransition::AlreadyClosed),
    }
}

pub open spec fn finish_close_spec(v: LifecycleView) -> (LifecycleView, CloseCompletion) {
    match v.state {
        LifecycleState::Open => (v, CloseCompletion::NotClosing),
        LifecycleState::Closed => (v, CloseCompletion::AlreadyClosed),
        LifecycleState::Closing => if v.in_flight > 0 {
            (v, CloseCompletion::InFlight)
        } else {
            (
                LifecycleView { state: LifecycleState::Closed, in_flight: 0 },
                CloseCompletion::Closed,
            )
        },
    }
}

pub open spec fn register_spec(v: LifecycleView) -> (LifecycleView, Result<(), UpstreamError>) {
    if v.state != LifecycleState::Open {
        (v, Err(UpstreamError::Closed(SideEffectState::NotSent)))
    } else {
        (LifecycleView { state: v.state, in_flight: v.in_flight + 1 }, Ok(()))
    }
}

pub open spec fn release_spec(v: LifecycleView) -> LifecycleView {
    LifecycleView { state: v.state, in_flight: (v.in_flight - 1) as nat }
}

pub open spec fn commit_response_spec(v: LifecycleView) -> Result<(), UpstreamError> {
    if v.state == LifecycleState::Open {
        Ok(())
    } else {
        Err(UpstreamError::Closed(SideEffectState::Sent))
    }
}

/// The final control-aware commit for one observed caller-token state: owner
/// state first, then caller cancellation, then the original absolute deadline,
/// then success.
pub open spec fn commit_final_spec(
    v: LifecycleView,
    caller_cancelled: bool,
    now: u64,
    deadline: u64,
    side_effect: SideEffectState,
) -> Result<(), UpstreamError> {
    control_outcome(v.state != LifecycleState::Open, caller_cancelled, now, deadline, side_effect)
}

pub open spec fn ensure_open_spec(v: LifecycleView) -> Result<(), UpstreamError> {
    if v.state == LifecycleState::Open {
        Ok(())
    } else {
        Err(UpstreamError::Closed(SideEffectState::NotSent))
    }
}

/// The first step of an awaitable close: an owner that was already `Closed`
/// when close began reports so at once; otherwise close drains.
pub open spec fn close_start_spec(t: CloseTransition) -> Option<CloseResult> {
    match t {
        CloseTransition::AlreadyClosed => Some(CloseResult::AlreadyClosed),
        _ => None,
    }
}

/// The last step of an awaitable close, after draining: another close call may
/// have completed the guarded transition meanwhile; either way it is `Closed`.
pub open spec fn close_finish_spec(c: CloseCompletion) -> CloseResult {
    match c {
        CloseCompletion::Closed => CloseResult::Closed,
        CloseCompletion::AlreadyClosed => CloseResult::Closed,
        _ => CloseResult::AlreadyClosing,
    }
}

/// No gate operation ever moves the state backwards along
/// `Open -> Closing -> Closed`.
pub proof fn law_state_never_regresses(v: LifecycleView)
    ensures
        state_rank(begin_close_spec(v).0.state) >= state_rank(v.state),
        state_rank(finish_close_spec(v).0.state) >= state_rank(v.state),
        state_rank(register_spec(v).0.state) == state_rank(v.state),
        state_rank(release_spec(v).state) == state_rank(v.state),
{
}

/// Every gate operation keeps the lifecycle well formed: `Closed` is only ever
/// reported with zero registrations, and `finish_close` completes only from
/// `Closing` with nothing in flight.
pub proof fn law_closed_only_when_drained(v: LifecycleView)
    requires
        lifecycle_wf(v),
    ensures
        lifecycle_wf(begin_close_spec(v).0),
        lifecycle_wf(finish_close_spec(v).0),
        lifecycle_wf(register_spec(v).0),
        v.in_flight > 0 ==> lifecycle_wf(release_spec(v)),
        finish_close_spec(v).1 == CloseCompletion::Closed ==> v.state == LifecycleState::Closing
            && v.in_flight == 0,
        v.state == LifecycleState::Closing && v.in_flight > 0 ==> finish_close_spec(v)
            == (v, CloseCompletion::InFlight),
{
}

/// Once close has begun, nothing new is admitted and no response commits:
/// registration is refused as `Closed(NotSent)` without changing the count,
/// and a validated response loses the commit gate as `Closed(Sent)`.
pub proof fn law_close_refuses_admission_and_commit(v: LifecycleView)
    requires
        v.state != LifecycleState::Open,
    ensures
        register_spec(v) == (v, Err::<(), UpstreamError>(
            UpstreamError::Closed(SideEffectState::NotSent),
        )),
        commit_response_spec(v) == Err::<(), UpstreamError>(
            UpstreamError::Closed(SideEffectState::Sent),
        ),
        ensure_open_spec(v) == Err::<(), UpstreamError>(
            UpstreamError::Closed(SideEffectState::NotSent),
        ),
        forall|c: bool, now: u64, deadline: u64, s: SideEffectState|
            #[trigger] commit_final_spec(v, c, now, deadline, s) == Err::<(), UpstreamError>(
                UpstreamError::Closed(s),
            ),
{
}

/// The complete close protocol on an open gate: `begin_close` reports
/// `BeganClosing`, and once every registration is released `finish_close`
/// reports `Closed`; a second close then finds it already closed.
pub proof fn law_close_protocol(v: LifecycleView)
    requires
        v.state == LifecycleState::Open,
        v.in_flight == 0,
    ensures
        begin_close_spec(v).1 == CloseTransition::BeganClosing,
        finish_close_spec(begin_close_spec(v).0) == (
            LifecycleView { state: LifecycleState::Closed, in_flight: 0 },
            CloseCompletion::Closed,
        ),
        begin_close_spec(finish_close_spec(begin_close_spec(v).0).0).1
            == CloseTransition::AlreadyClosed,
        close_start_spec(CloseTransition::AlreadyClosed) == Some(CloseResult::AlreadyClosed),
        close_finish_spec(CloseCompletion::Closed) == CloseResult::Closed,
{
}

/// A registration admitted while open and then released leaves the lifecycle
/// exactly as it was.
pub proof fn law_register_release_roundtrip(v: LifecycleView)
    requires
        v.state == LifecycleState::Open,
    ensures
        register_spec(v).1 == Ok::<(), UpstreamError>(()),
        release_spec(register_spec(v).0) == v,
{
}

/// The commit gate is the linearization point between a response and owner
/// close: on an open gate a response commits, and a close that begins
/// afterwards cannot reverse it (it still performs `Open -> Closing`); if the
/// close wins first, the response loses with `Closed(Sent)`.
pub proof fn law_commit_versus_close(v: LifecycleView)
    requires
        v.state == LifecycleState::Open,
    ensures
        commit_response_spec(v) == Ok::<(), UpstreamError>(()),
        begin_close_spec(v).1 == CloseTransition::BeganClosing,
        commit_response_spec(begin_close_spec(v).0) == Err::<(), UpstreamError>(
            UpstreamError::Closed(SideEffectState::Sent),
        ),
{
}

/// Lifecycle gate for an upstream owner: the owner state machine and the
/// in-flight registration count, changed together so admission is atomic with
/// registration.
pub struct Lifecycle {
    state: LifecycleState,
    in_flight: usize,
}

impl Default for Lifecycle {
    /// An open gate with nothing in flight, the same value as `new()`.
    fn default() -> (r: Self)
        ensures
            r.view() == (LifecycleView { state: LifecycleState::Open, in_flight: 0 }),
    {
        Lifecycle::new()
    }
}

impl Lifecycle {
    #[verifier::type_invariant]
    spec fn inv(self) -> bool {
        self.state == LifecycleState::Closed ==> self.in_flight == 0
    }

    pub closed spec fn view(&self) -> LifecycleView {
        LifecycleView { state: self.state, in_flight: self.in_flight as nat }
    }

    pub fn new() -> (r: Self)
        ensures
            r.view() == (LifecycleView { state: LifecycleState::Open, in_flight: 0 }),
    {
        Lifecycle { state: LifecycleState::Open, in_flight: 0 }
    }

    pub fn state(&self) -> (r: LifecycleState)
        ensures
            r == self.view().state,
            lifecycle_wf(self.view()),
    {
        proof {
            use_type_invariant(self);
        }
        self.state
    }

    pub fn in_flight(&self) -> (r: usize)
        ensures
            r == self.view().in_flight,
    {
        self.in_flight
    }

    /// `Open -> Closing`; any other state is reported unchanged.
    pub fn begin_close(&mut self) -> (r: CloseTransition)
        ensures
            (final(self).view(), r) == begin_close_spec(old(self).view()),
            lifecycle_wf(final(self).view()),
    {
        proof {
            use_type_invariant(&*self);
        }
        match self.state {
            LifecycleState::Open => {
                self.state = LifecycleState::Closing;
                CloseTransition::BeganClosing
            },
            LifecycleState::Closing => CloseTransition::AlreadyClosing,
            LifecycleState::Closed => CloseTransition::AlreadyClosed,
        }
    }

    /// The response-commit decision: `Open` commits, while `Closing`/`Closed`
    /// loses with `Closed(Sent)`.
    pub fn commit_response(&self) -> (r: Result<(), UpstreamError>)
        ensures
            r == commit_response_spec(self.view()),
    {
        if self.state == LifecycleState::Open {
            Ok(())
        } else {
            Err(UpstreamError::Closed(SideEffectState::Sent))
        }
    }

    /// The single final control-aware response commit at instant `now`.
    pub fn commit_final_response(
        &self,
        caller_cancellation: &TransportCancellation,
        deadline: u64,
        now: u64,
        side_effect: SideEffectState,
    ) -> (r: Result<(), UpstreamError>)
        ensures
            r == commit_final_spec(self.view(), true, now, deadline, side_effect) || r
                == commit_final_spec(self.view(), false, now, deadline, side_effect),
    {
        if self.state != LifecycleState::Open {
            return Err(UpstreamError::Closed(side_effect));
        }
        let cancelled = caller_cancellation.is_cancelled();
        self.commit_final_observed(cancelled, deadline, now, side_effect)
    }

    /// The final commit once the caller's token was observed
    /// (`caller_cancelled`): owner close first, then caller cancellation, then
    /// the absolute deadline, then success. Nothing changes.
    pub fn commit_final_observed(
        &self,
        caller_cancelled: bool,
        deadline: u64,
        now: u64,
        side_effect: SideEffectState,
    ) -> (r: Result<(), UpstreamError>)
        ensures
            r == commit_final_spec(self.view(), caller_cancelled, now, deadline, side_effect),
    {
        if self.state != LifecycleState::Open {
            return Err(UpstreamError::Closed(side_effect));
        }
        if caller_cancelled {
            return Err(UpstreamError::Cancelled(side_effect));
        }
        if now >= deadline {
            return Err(UpstreamError::DeadlineExceeded(side_effect));
        }
        Ok(())
    }

    /// The guarded `Closing -> Closed` transition.
    pub fn finish_close(&mut self) -> (r: CloseCompletion)
        ensures
            (final(self).view(), r) == finish_close_spec(old(self).view()),
            lifecycle_wf(final(self).view()),
    {
        proof {
            use_type_invariant(&*self);
        }
        match self.state {
            LifecycleState::Open => CloseCompletion::NotClosing,
            LifecycleState::Closed => CloseCompletion::AlreadyClosed,
            LifecycleState::Closing => {
                if self.in_flight > 0 {
                    CloseCompletion::InFlight
                } else {
                    self.state = LifecycleState::Closed;
                    CloseCompletion::Closed
                }
            },
        }
    }

    pub fn ensure_open(&self) -> (r: Result<(), UpstreamError>)
        ensures
            r == ensure_open_spec(self.view()),
    {
        if self.state == LifecycleState::Open {
            Ok(())
        } else {
            Err(UpstreamError::Closed(SideEffectState::NotSent))
        }
    }

    /// Registers one in-flight exchange. A rejected registration leaves the
    /// count untouched.
    pub fn register(&mut self) -> (r: Result<(), UpstreamError>)
        requires
            old(self).view().in_flight < usize::MAX,
        ensures
            (final(self).view(), r) == register_spec(old(self).view()),
            lifecycle_wf(final(self).view()),
    {
        proof {
            use_type_invariant(&*self);
        }
        if self.state != LifecycleState::Open {
            return Err(UpstreamError::Closed(SideEffectState::NotSent));
        }
        self.in_flight = self.in_flight + 1;
        Ok(())
    }

    /// Releases one registration made by a successful `register`.
    pub fn release(&mut self)
        requires
            old(self).view().in_flight > 0,
        ensures
            final(self).view() == release_spec(old(self).view()),
            lifecycle_wf(final(self).view()),
    {
        proof {
            use_type_invariant(&*self);
        }
        self.in_flight = self.in_flight - 1;
    }
}

/// The first step of an awaitable close, given the result of `begin_close`.
pub fn close_start(transition: CloseTransition) -> (r: Option<CloseResult>)
    ensures
        r == close_start_spec(transition),
{
    match transition {
        CloseTransition::AlreadyClosed => Some(CloseResult::AlreadyClosed),
        _ => None,
    }
}

/// The last step of an awaitable close, given the result of `finish_close`
/// after the drain.
pub fn close_finish(completion: CloseCompletion) -> (r: CloseResult)
    ensures
        r == close_finish_spec(completion),
{
    match completion {
        CloseCompletion::Closed | CloseCompletion::AlreadyClosed => CloseResult::Closed,
        _ => CloseResult::AlreadyClosing,
    }
}

} // verus!
