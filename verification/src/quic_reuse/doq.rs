use vstd::prelude::*;

use super::owner::{owner_wf, OwnerView, QuicReuseOwner};
use super::{QuicErrorClass, QuicReuseKey, QuicKeyView, QuicProtocol};
use crate::control::{caller_check_outcome, full_check_outcome, ExchangeContext, ExchangeControl};
use crate::error::{SideEffectState, UpstreamError};
use crate::identity::TrustPolicy;
use crate::lifecycle::{register_spec, Lifecycle, LifecycleState, LifecycleView};
use crate::quic::{is_local_control_spec, DoqEndpoint, QuinnReadToEndError, QuinnReadError};
use super::classify::classify_quinn_read_to_end_error;
use super::tls_mode_of;

verus! {

/// A shared-connection DoQ upstream: one authenticated QUIC connection per
/// validated DoQ key, each exchange leasing only a stream slot. `T` is the
/// shared connection handle.
pub struct DoqReuseUpstream<T> {
    endpoint: DoqEndpoint,
    tls: TrustPolicy,
    owner: QuicReuseOwner<T>,
}

impl<T> DoqReuseUpstream<T> {
    pub closed spec fn endpoint_spec(&self) -> DoqEndpoint {
        self.endpoint
    }

    pub closed spec fn tls_spec(&self) -> TrustPolicy {
        self.tls
    }

    pub closed spec fn owner_spec(&self) -> QuicReuseOwner<T> {
        self.owner
    }

    /// Creates a shared DoQ owner for an endpoint whose trust policy already
    /// produced a usable `doq` client configuration.
    pub fn new(endpoint: DoqEndpoint, tls: TrustPolicy) -> (r: Self)
        ensures
            r.endpoint_spec() == endpoint,
            r.tls_spec() == tls,
            r.owner_spec().wf(),
            r.owner_spec()@.accepting,
            r.owner_spec()@.lifecycle == (LifecycleView { state: LifecycleState::Open, in_flight: 0 }),
            r.owner_spec()@.entries.len() == 0,
    {
        DoqReuseUpstream { endpoint, tls, owner: QuicReuseOwner::new(Lifecycle::new()) }
    }

    /// The validated endpoint.
    pub fn endpoint(&self) -> (r: &DoqEndpoint)
        ensures
            *r == self.endpoint_spec(),
    {
        &self.endpoint
    }

    /// The reuse key every exchange of this upstream uses.
    pub fn key(&self) -> (r: QuicReuseKey)
        ensures
            r@ == (QuicKeyView {
                dial: self.endpoint_spec().dial_spec(),
                protocol: QuicProtocol::Doq,
                identity: self.endpoint_spec().identity_spec(),
                tls_mode: tls_mode_of(self.tls_spec()),
                roots_revision: self.tls_spec().revision_spec(),
                doh3_authority: None,
            }),
    {
        QuicReuseKey::from_doq(&self.endpoint, &self.tls)
    }

    /// The shared-connection owner.
    pub fn owner(&self) -> (r: &QuicReuseOwner<T>)
        ensures
            *r == self.owner_spec(),
    {
        &self.owner
    }

    /// The shared-connection owner, for the admission and teardown steps.
    pub fn owner_mut(&mut self) -> (r: &mut QuicReuseOwner<T>)
        ensures
            *r == old(self).owner_spec(),
            final(self).owner_spec() == *final(r),
            final(self).endpoint_spec() == old(self).endpoint_spec(),
            final(self).tls_spec() == old(self).tls_spec(),
    {
        &mut self.owner
    }

    /// Physical connection generations still in the owner map.
    pub fn entry_count(&self) -> (r: usize)
        ensures
            r == self.owner_spec()@.entries.len(),
    {
        self.owner.entry_count()
    }

    /// Caller exchanges and entry liveness registrations still held.
    pub fn in_flight_exchanges(&self) -> (r: usize)
        ensures
            r == self.owner_spec()@.lifecycle.in_flight,
    {
        self.owner.in_flight_exchanges()
    }

    /// The pre-send checks of one exchange at `now`: the query must fit the
    /// two-byte stream prefix, the control (owner token, caller cancellation,
    /// deadline) must not have fired, and the owner must register it.
    pub fn prepare_exchange(&mut self, query_len: usize, context: &ExchangeContext, now: u64) -> (r:
        Result<ExchangeControl, UpstreamError>)
        requires
            old(self).owner_spec().wf(),
            old(self).owner_spec()@.lifecycle.in_flight < usize::MAX,
        ensures
            final(self).owner_spec().wf(),
            final(self).endpoint_spec() == old(self).endpoint_spec(),
            final(self).tls_spec() == old(self).tls_spec(),
            query_len > 65535 ==> r == Err::<ExchangeControl, UpstreamError>(UpstreamError::FrameTooLarge)
                && final(self).owner_spec()@ == old(self).owner_spec()@,
            query_len <= 65535 && r is Err ==> (r->Err_0 == UpstreamError::Closed(SideEffectState::NotSent)
                || full_check_outcome(match r { Ok(_) => Ok(()), Err(e) => Err(e) }, now, context.deadline_spec(), SideEffectState::NotSent)),
            old(self).owner_spec()@.lifecycle.state != LifecycleState::Open ==> r is Err,
            query_len <= 65535 && r is Err ==> final(self).owner_spec()@ == old(self).owner_spec()@,
            r matches Ok(c) ==> c.deadline_spec() == context.deadline_spec()
                && final(self).owner_spec()@.registrations == old(self).owner_spec()@.registrations + 1
                && old(self).owner_spec()@.lifecycle.state == LifecycleState::Open
                && c.caller_spec() == context.cancellation_spec()
                && c.owner_spec() == old(self).owner_spec().cancellation_spec(),
    {
        if query_len > 65535 {
            return Err(UpstreamError::FrameTooLarge);
        }
        let control = self.owner.exchange_control(context.clone());
        let checked = control.check_at(now, SideEffectState::NotSent);
        match self.register_checked(checked) {
            Ok(()) => Ok(control),
            Err(e) => Err(e),
        }
    }

    /// Registers one exchange whose pre-send control check gave `checked`: a
    /// refused check is returned as it is, with the owner untouched; a passed
    /// check registers the exchange with the owner, which refuses it as
    /// `Closed(NotSent)` once close has begun.
    pub fn register_checked(&mut self, checked: Result<(), UpstreamError>) -> (r: Result<
        (),
        UpstreamError,
    >)
        requires
            old(self).owner_spec().wf(),
            old(self).owner_spec()@.lifecycle.in_flight < usize::MAX,
        ensures
            final(self).owner_spec().wf(),
            final(self).endpoint_spec() == old(self).endpoint_spec(),
            final(self).tls_spec() == old(self).tls_spec(),
            final(self).owner_spec().cancellation_spec() == old(self).owner_spec().cancellation_spec(),
            checked matches Err(e) ==> r == Err::<(), UpstreamError>(e) && final(self).owner_spec()@
                == old(self).owner_spec()@,
            checked is Ok ==> (final(self).owner_spec()@.lifecycle, r) == register_spec(
                old(self).owner_spec()@.lifecycle,
            ),
            checked is Ok && r is Ok ==> final(self).owner_spec()@ == (OwnerView {
                lifecycle: final(self).owner_spec()@.lifecycle,
                registrations: old(self).owner_spec()@.registrations + 1,
                ..old(self).owner_spec()@
            }),
            r is Err ==> final(self).owner_spec()@ == old(self).owner_spec()@,
    {
        match checked {
            Err(e) => Err(e),
            Ok(()) => self.owner.register(),
        }
    }
}

/// The class to apply to the shared entry after a failed stream open: any
/// failure other than a local control decision proves the connection unusable.
pub fn open_failure_class(error: UpstreamError) -> (r: Option<QuicErrorClass>)
    ensures
        is_local_control_spec(error) ==> r is None,
        !is_local_control_spec(error) ==> r == Some(QuicErrorClass::EntryTerminal),
{
    if super::is_local_control(&error) {
        None
    } else {
        Some(QuicErrorClass::EntryTerminal)
    }
}

/// The class to apply after a failed request write or request-side FIN: the
/// entry is deactivated only when the failure is not a local control decision
/// and the connection itself reports a close reason.
pub fn send_failure_class(error: UpstreamError, connection_closed: bool) -> (r: Option<QuicErrorClass>)
    ensures
        (!is_local_control_spec(error) && connection_closed) ==> r == Some(QuicErrorClass::EntryTerminal),
        !(!is_local_control_spec(error) && connection_closed) ==> r is None,
{
    if !super::is_local_control(&error) && connection_closed {
        Some(QuicErrorClass::EntryTerminal)
    } else {
        None
    }
}

/// The class to apply after a failed response read: the read failure's own
/// class is entry-terminal, or the connection reports a close reason.
pub fn read_failure_class(error: QuinnReadToEndError, connection_closed: bool) -> (r: Option<QuicErrorClass>)
    ensures
        r is Some <==> (connection_closed || error matches QuinnReadToEndError::Read(QuinnReadError::ConnectionLost(_))
            || error == QuinnReadToEndError::Read(QuinnReadError::ZeroRttRejected)),
        r is Some ==> r == Some(QuicErrorClass::EntryTerminal),
{
    if classify_quinn_read_to_end_error(&error) == QuicErrorClass::EntryTerminal || connection_closed {
        Some(QuicErrorClass::EntryTerminal)
    } else {
        None
    }
}

/// Whether a failed exchange must stop the receive side with
/// `DOQ_REQUEST_CANCELLED`: only a local control decision does.
pub fn stops_receive_side(error: UpstreamError) -> (r: bool)
    ensures
        r == is_local_control_spec(error),
{
    super::is_local_control(&error)
}

} // verus!
