use vstd::prelude::*;

use crate::addr::SocketAddress;
use crate::control::{
    caller_check_outcome, full_check_outcome, ExchangeContext, ExchangeControl,
    TransportCancellation,
};
use crate::error::{EndpointError, SideEffectState, Transport, UpstreamError};
use crate::exchange::ExchangeRequest;
use crate::lifecycle::{
    begin_close_spec, commit_final_spec, finish_close_spec, register_spec, release_spec,
    CloseCompletion, CloseTransition, Lifecycle, LifecycleState, LifecycleView,
};

verus! {

/// The largest query a two-byte stream length prefix can frame.
pub const MAX_FRAMED_QUERY: usize = 65535;

/// A validated numeric upstream endpoint.
#[derive(Clone, Copy, Debug, PartialEq, Eq, Structural)]
pub struct Endpoint {
    address: SocketAddress,
    transport: Transport,
}

impl Endpoint {
    pub closed spec fn address_spec(self) -> SocketAddress {
        self.address
    }

    pub closed spec fn transport_spec(self) -> Transport {
        self.transport
    }

    /// Creates an endpoint without hostname resolution or socket setup.
    pub fn new(address: SocketAddress, transport: Transport) -> (r: Result<Self, UpstreamError>)
        ensures
            address.port == 0 ==> r == Err::<Self, UpstreamError>(
                UpstreamError::InvalidEndpoint(EndpointError::ZeroPort),
            ),
            address.port != 0 ==> (r matches Ok(e) && e.address_spec() == address
                && e.transport_spec() == transport),
    {
        if address.port == 0 {
            return Err(UpstreamError::InvalidEndpoint(EndpointError::ZeroPort));
        }
        Ok(Endpoint { address, transport })
    }

    pub fn address(self) -> (r: SocketAddress)
        ensures
            r == self.address_spec(),
    {
        self.address
    }

    pub fn transport(self) -> (r: Transport)
        ensures
            r == self.transport_spec(),
    {
        self.transport
    }
}

/// Validated exchange inputs held until the selected transport primitive runs.
pub struct PreparedExchange<'q> {
    endpoint: Endpoint,
    request: ExchangeRequest<'q>,
    control: ExchangeControl,
}

impl<'q> PreparedExchange<'q> {
    pub closed spec fn endpoint_spec(&self) -> Endpoint {
        self.endpoint
    }

    pub closed spec fn request_spec(&self) -> ExchangeRequest<'q> {
        self.request
    }

    pub closed spec fn deadline_spec(&self) -> u64 {
        self.control.deadline_spec()
    }

    /// The owner's shutdown scope this exchange observes.
    pub closed spec fn owner_spec(&self) -> TransportCancellation {
        self.control.owner_spec()
    }

    /// The caller's cancellation scope this exchange observes.
    pub closed spec fn caller_spec(&self) -> TransportCancellation {
        self.control.caller_spec()
    }

    pub fn endpoint(&self) -> (r: Endpoint)
        ensures
            r == self.endpoint_spec(),
    {
        self.endpoint
    }

    pub fn request(&self) -> (r: &ExchangeRequest<'q>)
        ensures
            *r == self.request_spec(),
    {
        &self.request
    }

    pub fn context(&self) -> (r: &ExchangeContext)
        ensures
            r.deadline_spec() == self.deadline_spec(),
    {
        self.control.context()
    }

    /// A handle to the owner's shutdown scope.
    pub fn owner_cancellation(&self) -> (r: TransportCancellation)
        ensures
            r == self.owner_spec(),
    {
        self.control.owner_cancellation()
    }

    /// Checks owner shutdown, caller cancellation, and the shared deadline in
    /// that order.
    pub fn check_at(&self, now: u64, side_effect: SideEffectState) -> (r: Result<(), UpstreamError>)
        ensures
            full_check_outcome(r, now, self.deadline_spec(), side_effect),
    {
        self.control.check_at(now, side_effect)
    }
}

/// Whether a query is too large for the endpoint's framing.
pub open spec fn frame_too_large(transport: Transport, query_len: nat) -> bool {
    transport == Transport::Tcp && query_len > MAX_FRAMED_QUERY
}

/// A single-transport upstream owner: one numeric endpoint, one lifecycle
/// gate, and one owner cancellation token.
pub struct Upstream {
    endpoint: Endpoint,
    lifecycle: Lifecycle,
    cancellation: TransportCancellation,
}

impl Upstream {
    pub closed spec fn endpoint_spec(&self) -> Endpoint {
        self.endpoint
    }

    pub closed spec fn lifecycle_view(&self) -> LifecycleView {
        self.lifecycle.view()
    }

    /// The owner's shutdown scope, shared by every exchange it prepares.
    pub closed spec fn cancellation_spec(&self) -> TransportCancellation {
        self.cancellation
    }

    pub fn new(endpoint: Endpoint) -> (r: Self)
        ensures
            r.endpoint_spec() == endpoint,
            r.lifecycle_view() == (LifecycleView { state: LifecycleState::Open, in_flight: 0 }),
    {
        Upstream {
            endpoint,
            lifecycle: Lifecycle::new(),
            cancellation: TransportCancellation::new(),
        }
    }

    pub fn endpoint(&self) -> (r: Endpoint)
        ensures
            r == self.endpoint_spec(),
    {
        self.endpoint
    }

    pub fn lifecycle_state(&self) -> (r: LifecycleState)
        ensures
            r == self.lifecycle_view().state,
    {
        self.lifecycle.state()
    }

    /// Number of exchanges currently registered as in-flight.
    pub fn in_flight_exchanges(&self) -> (r: usize)
        ensures
            r == self.lifecycle_view().in_flight,
    {
        self.lifecycle.in_flight()
    }

    /// Begins owner shutdown; the owner token is cancelled when this call
    /// performed `Open -> Closing`.
    pub fn begin_close(&mut self) -> (r: CloseTransition)
        ensures
            (final(self).lifecycle_view(), r) == begin_close_spec(old(self).lifecycle_view()),
            final(self).endpoint_spec() == old(self).endpoint_spec(),
    {
        let transition = self.lifecycle.begin_close();
        if transition == CloseTransition::BeganClosing {
            self.cancellation.cancel();
        }
        transition
    }

    /// Performs only the guarded `Closing -> Closed` transition.
    pub fn finish_close(&mut self) -> (r: CloseCompletion)
        ensures
            (final(self).lifecycle_view(), r) == finish_close_spec(old(self).lifecycle_view()),
            final(self).endpoint_spec() == old(self).endpoint_spec(),
    {
        self.lifecycle.finish_close()
    }

    /// Registers one in-flight exchange under the lifecycle that serializes
    /// `Open -> Closing`.
    pub fn register(&mut self) -> (r: Result<(), UpstreamError>)
        requires
            old(self).lifecycle_view().in_flight < usize::MAX,
        ensures
            (final(self).lifecycle_view(), r) == register_spec(old(self).lifecycle_view()),
            final(self).endpoint_spec() == old(self).endpoint_spec(),
    {
        self.lifecycle.register()
    }

    /// Releases one registration.
    pub fn release(&mut self)
        requires
            old(self).lifecycle_view().in_flight > 0,
        ensures
            final(self).lifecycle_view() == release_spec(old(self).lifecycle_view()),
            final(self).endpoint_spec() == old(self).endpoint_spec(),
    {
        self.lifecycle.release()
    }

    /// The final control-aware response commit at instant `now`.
    pub fn commit_final_response(
        &self,
        caller_cancellation: &TransportCancellation,
        deadline: u64,
        now: u64,
        side_effect: SideEffectState,
    ) -> (r: Result<(), UpstreamError>)
        ensures
            r == commit_final_spec(self.lifecycle_view(), true, now, deadline, side_effect) || r
                == commit_final_spec(self.lifecycle_view(), false, now, deadline, side_effect),
    {
        self.lifecycle.commit_final_response(caller_cancellation, deadline, now, side_effect)
    }

    /// Validates and prepares an exchange at instant `now`, before any socket
    /// action: the owner must be open, a TCP query must fit a two-byte frame,
    /// and the caller's context must not already be cancelled or expired.
    pub fn prepare_exchange<'q>(
        &self,
        request: ExchangeRequest<'q>,
        context: ExchangeContext,
        now: u64,
    ) -> (r: Result<PreparedExchange<'q>, UpstreamError>)
        ensures
            self.lifecycle_view().state != LifecycleState::Open ==> r == Err::<
                PreparedExchange<'q>,
                UpstreamError,
            >(UpstreamError::Closed(SideEffectState::NotSent)),
            self.lifecycle_view().state == LifecycleState::Open && frame_too_large(
                self.endpoint_spec().transport_spec(),
                request.query_spec().len(),
            ) ==> r == Err::<PreparedExchange<'q>, UpstreamError>(UpstreamError::FrameTooLarge),
            self.lifecycle_view().state == LifecycleState::Open && !frame_too_large(
                self.endpoint_spec().transport_spec(),
                request.query_spec().len(),
            ) ==> caller_check_outcome(
                match r {
                    Ok(_) => Ok(()),
                    Err(e) => Err(e),
                },
                now,
                context.deadline_spec(),
                SideEffectState::NotSent,
            ),
            r matches Ok(p) ==> p.endpoint_spec() == self.endpoint_spec() && p.request_spec()
                == request && p.deadline_spec() == context.deadline_spec() && p.owner_spec()
                == self.cancellation_spec() && p.caller_spec() == context.cancellation_spec(),
    {
        self.lifecycle.ensure_open()?;
        if self.endpoint.transport == Transport::Tcp && request.query().len() > MAX_FRAMED_QUERY {
            return Err(UpstreamError::FrameTooLarge);
        }
        context.check_at(now, SideEffectState::NotSent)?;
        Ok(PreparedExchange {
            endpoint: self.endpoint,
            request,
            control: ExchangeControl::new(context, self.cancellation.clone()),
        })
    }
}

} // verus!
