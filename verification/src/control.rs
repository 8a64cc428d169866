use vstd::prelude::*;

use tokio_util::sync::CancellationToken;

use crate::error::{SideEffectState, UpstreamError};

verus! {

/// `tokio_util::sync::CancellationToken`, carried opaquely: nothing inside a
/// token is visible to the proofs.
#[verifier::external_type_specification]
#[verifier::external_body]
pub struct ExCancellationToken(CancellationToken);

/// `CancellationToken::clone`: a handle to the same shared cancellation state
/// (the same `Arc`), which the crate's own `==` counts as equal to the
/// original. As a value the clone is the original handle; the shared state
/// behind it (whether it is cancelled) is not modelled.
pub assume_specification[ <CancellationToken as Clone>::clone ](
    token: &CancellationToken,
) -> (r: CancellationToken)
    ensures
        r == *token,
;

/// `CancellationToken::new`: a fresh token in the non-cancelled state. The
/// token's state is shared with its clones and children and changes through
/// `&self`, so nothing about it is stated here.
#[verifier::external_body]
fn new_token() -> CancellationToken {
    CancellationToken::new()
}

/// `CancellationToken::child_token`: a token cancelled whenever `parent` is.
/// The relation lives in shared state, so nothing about it is stated here.
#[verifier::external_body]
fn child_of(parent: &CancellationToken) -> CancellationToken {
    parent.child_token()
}

/// `CancellationToken::cancel`: cancels the token and its children.
#[verifier::external_body]
fn cancel_token(token: &CancellationToken) {
    token.cancel()
}

/// `CancellationToken::is_cancelled`. The answer depends on calls made
/// elsewhere on shared state (other clones, parents, other threads), so no
/// value is promised.
#[verifier::external_body]
fn token_is_cancelled(token: &CancellationToken) -> bool {
    token.is_cancelled()
}

/// A transport cancellation token. Child cancellation is local; parent
/// cancellation propagates to all descendants.
pub struct TransportCancellation {
    token: CancellationToken,
}

impl Clone for TransportCancellation {
    /// A handle to the same cancellation scope.
    fn clone(&self) -> (r: Self)
        ensures
            r == *self,
    {
        TransportCancellation { token: self.token.clone() }
    }
}

impl TransportCancellation {
    /// The underlying shared token.
    pub closed spec fn token_spec(&self) -> CancellationToken {
        self.token
    }

    pub fn new() -> Self {
        TransportCancellation { token: new_token() }
    }

    pub fn child_token(&self) -> Self {
        TransportCancellation { token: child_of(&self.token) }
    }

    pub fn cancel(&self) {
        cancel_token(&self.token)
    }

    pub fn is_cancelled(&self) -> bool {
        token_is_cancelled(&self.token)
    }

    /// The underlying token, so an async caller can await its cancellation.
    pub fn token(&self) -> (r: &CancellationToken)
        ensures
            *r == self.token_spec(),
    {
        &self.token
    }
}

/// The fixed terminal-control precedence: owner shutdown, then caller
/// cancellation, then the absolute deadline (`now >= deadline`), then success.
pub open spec fn control_outcome(
    owner_cancelled: bool,
    caller_cancelled: bool,
    now: u64,
    deadline: u64,
    side_effect: SideEffectState,
) -> Result<(), UpstreamError> {
    if owner_cancelled {
        Err(UpstreamError::Closed(side_effect))
    } else if caller_cancelled {
        Err(UpstreamError::Cancelled(side_effect))
    } else if now >= deadline {
        Err(UpstreamError::DeadlineExceeded(side_effect))
    } else {
        Ok(())
    }
}

/// Decides one terminal-control check from the observed token states.
pub fn check_control(
    owner_cancelled: bool,
    caller_cancelled: bool,
    now: u64,
    deadline: u64,
    side_effect: SideEffectState,
) -> (r: Result<(), UpstreamError>)
    ensures
        r == control_outcome(owner_cancelled, caller_cancelled, now, deadline, side_effect),
{
    if owner_cancelled {
        Err(UpstreamError::Closed(side_effect))
    } else if caller_cancelled {
        Err(UpstreamError::Cancelled(side_effect))
    } else if now >= deadline {
        Err(UpstreamError::DeadlineExceeded(side_effect))
    } else {
        Ok(())
    }
}

/// The outcomes a check without an owner token can produce, whatever the
/// caller token reported.
pub open spec fn caller_check_outcome(
    r: Result<(), UpstreamError>,
    now: u64,
    deadline: u64,
    side_effect: SideEffectState,
) -> bool {
    r == control_outcome(false, true, now, deadline, side_effect) || r == control_outcome(
        false,
        false,
        now,
        deadline,
        side_effect,
    )
}

/// The outcomes a full owner-and-caller check can produce, whatever the two
/// tokens reported.
pub open spec fn full_check_outcome(
    r: Result<(), UpstreamError>,
    now: u64,
    deadline: u64,
    side_effect: SideEffectState,
) -> bool {
    r == control_outcome(true, true, now, deadline, side_effect) || caller_check_outcome(
        r,
        now,
        deadline,
        side_effect,
    )
}

/// One absolute deadline (milliseconds on the caller's monotonic time base) and
/// one transport cancellation scope for an exchange.
pub struct ExchangeContext {
    deadline: u64,
    cancellation: TransportCancellation,
}

impl Clone for ExchangeContext {
    /// The same absolute deadline and a handle to the same cancellation scope.
    fn clone(&self) -> (r: Self)
        ensures
            r.deadline_spec() == self.deadline_spec(),
            r.cancellation_spec() == self.cancellation_spec(),
    {
        ExchangeContext { deadline: self.deadline, cancellation: self.cancellation.clone() }
    }
}

impl ExchangeContext {
    pub closed spec fn deadline_spec(&self) -> u64 {
        self.deadline
    }

    /// The caller's cancellation scope.
    pub closed spec fn cancellation_spec(&self) -> TransportCancellation {
        self.cancellation
    }

    pub fn new(deadline: u64, cancellation: TransportCancellation) -> (r: Self)
        ensures
            r.deadline_spec() == deadline,
            r.cancellation_spec() == cancellation,
    {
        ExchangeContext { deadline, cancellation }
    }

    pub fn deadline(&self) -> (r: u64)
        ensures
            r == self.deadline_spec(),
    {
        self.deadline
    }

    /// A handle to the caller's cancellation scope.
    pub fn cancellation(&self) -> (r: TransportCancellation)
        ensures
            r == self.cancellation_spec(),
    {
        self.cancellation.clone()
    }

    /// Checks terminal readiness. Cancellation is tested first, so it wins when
    /// cancellation and the deadline become ready together.
    pub fn check_at(&self, now: u64, side_effect: SideEffectState) -> (r: Result<(), UpstreamError>)
        ensures
            caller_check_outcome(r, now, self.deadline_spec(), side_effect),
    {
        let cancelled = self.cancellation.is_cancelled();
        check_control(false, cancelled, now, self.deadline, side_effect)
    }
}

/// Distinguishes caller cancellation from owner shutdown for a prepared
/// exchange.
#[derive(Clone)]
pub struct ExchangeControl {
    context: ExchangeContext,
    owner_cancellation: TransportCancellation,
}

impl ExchangeControl {
    pub closed spec fn deadline_spec(&self) -> u64 {
        self.context.deadline_spec()
    }

    /// The caller's cancellation scope, carried by the context.
    pub closed spec fn caller_spec(&self) -> TransportCancellation {
        self.context.cancellation_spec()
    }

    /// The owner's shutdown scope.
    pub closed spec fn owner_spec(&self) -> TransportCancellation {
        self.owner_cancellation
    }

    pub fn new(context: ExchangeContext, owner_cancellation: TransportCancellation) -> (r: Self)
        ensures
            r.deadline_spec() == context.deadline_spec(),
            r.caller_spec() == context.cancellation_spec(),
            r.owner_spec() == owner_cancellation,
    {
        ExchangeControl { context, owner_cancellation }
    }

    pub fn context(&self) -> (r: &ExchangeContext)
        ensures
            r.deadline_spec() == self.deadline_spec(),
            r.cancellation_spec() == self.caller_spec(),
    {
        &self.context
    }

    /// A handle to the caller's cancellation scope.
    pub fn caller_cancellation(&self) -> (r: TransportCancellation)
        ensures
            r == self.caller_spec(),
    {
        self.context.cancellation()
    }

    /// A handle to the owner's shutdown scope.
    pub fn owner_cancellation(&self) -> (r: TransportCancellation)
        ensures
            r == self.owner_spec(),
    {
        self.owner_cancellation.clone()
    }

    /// Checks owner shutdown before caller cancellation, then the shared
    /// absolute deadline. Owner shutdown is `Closed`; caller cancellation stays
    /// `Cancelled`.
    pub fn check_at(&self, now: u64, side_effect: SideEffectState) -> (r: Result<(), UpstreamError>)
        ensures
            full_check_outcome(r, now, self.deadline_spec(), side_effect),
    {
        if self.owner_cancellation.is_cancelled() {
            return Err(UpstreamError::Closed(side_effect));
        }
        self.context.check_at(now, side_effect)
    }
}

} // verus!
