//! The UDP-first composite policy with at most one fresh TCP fallback after a
//! validated truncated (TC) observation.

use vstd::prelude::*;

use crate::control::{caller_check_outcome, ExchangeContext};
use crate::error::{SideEffectState, Transport, UpstreamError};
use crate::exchange::ExchangeResponse;
use crate::lifecycle::{LifecycleState, LifecycleView};
use crate::upstream::{Endpoint, Upstream};

verus! {

/// The prior truncated UDP observation retained when TCP takes over: the
/// original request ID, the matching UDP response ID, the TC flag, and the
/// overall prior side-effect state.
#[derive(Clone, Copy, Debug, PartialEq, Eq, Structural)]
pub struct TcpFallbackContext {
    pub request_id: u16,
    pub response_id: u16,
    pub truncated: bool,
    pub side_effect: SideEffectState,
}

impl TcpFallbackContext {
    pub fn new(request_id: u16, response_id: u16, truncated: bool, side_effect: SideEffectState) -> (r:
        Self)
        ensures
            r == (TcpFallbackContext { request_id, response_id, truncated, side_effect }),
    {
        TcpFallbackContext { request_id, response_id, truncated, side_effect }
    }
}

/// A composite failure: a leg's typed failure unchanged, or the single TCP
/// leg's typed failure nested under the prior TC observation.
#[derive(Clone, Copy, Debug, PartialEq, Eq, Structural)]
pub enum CompositeError {
    Leg(UpstreamError),
    TcpFallback { prior: TcpFallbackContext, cause: UpstreamError },
}

/// What the policy does after the UDP leg.
pub enum FallbackStep {
    /// The exchange is finished with this outcome; no TCP work happens.
    Done(Result<ExchangeResponse, CompositeError>),
    /// Run exactly one fresh TCP exchange with the same request and context.
    Tcp(TcpFallbackContext),
}

/// UDP-first policy over two single-transport owners that target the same
/// numeric address; it holds no socket, timer, or runtime of its own.
pub struct UdpTcpPolicy {
    udp: Upstream,
    tcp: Upstream,
}

impl UdpTcpPolicy {
    pub closed spec fn udp_spec(&self) -> Upstream {
        self.udp
    }

    pub closed spec fn tcp_spec(&self) -> Upstream {
        self.tcp
    }

    /// Creates the policy over a validated numeric UDP endpoint; the TCP
    /// fallback reuses the exact same address, so no divergent fallback target
    /// can be supplied.
    pub fn new(udp_endpoint: Endpoint) -> (r: Self)
        requires
            udp_endpoint.transport_spec() == Transport::Udp,
            udp_endpoint.address_spec().port != 0,
        ensures
            r.udp_spec().endpoint_spec() == udp_endpoint,
            r.tcp_spec().endpoint_spec().address_spec() == udp_endpoint.address_spec(),
            r.tcp_spec().endpoint_spec().transport_spec() == Transport::Tcp,
            r.udp_spec().lifecycle_view() == (LifecycleView { state: LifecycleState::Open, in_flight: 0 }),
            r.tcp_spec().lifecycle_view() == (LifecycleView { state: LifecycleState::Open, in_flight: 0 }),
    {
        let tcp_endpoint = Endpoint::new(udp_endpoint.address(), Transport::Tcp).unwrap();
        UdpTcpPolicy { udp: Upstream::new(udp_endpoint), tcp: Upstream::new(tcp_endpoint) }
    }

    /// The UDP leg's owner.
    pub fn udp(&self) -> (r: &Upstream)
        ensures
            *r == self.udp_spec(),
    {
        &self.udp
    }

    /// The TCP leg's owner.
    pub fn tcp(&self) -> (r: &Upstream)
        ensures
            *r == self.tcp_spec(),
    {
        &self.tcp
    }

    /// The UDP leg's owner, for registration and close.
    pub fn udp_mut(&mut self) -> (r: &mut Upstream)
        ensures
            *r == old(self).udp_spec(),
            final(self).udp_spec() == *final(r),
            final(self).tcp_spec() == old(self).tcp_spec(),
    {
        &mut self.udp
    }

    /// The TCP leg's owner, for registration and close.
    pub fn tcp_mut(&mut self) -> (r: &mut Upstream)
        ensures
            *r == old(self).tcp_spec(),
            final(self).tcp_spec() == *final(r),
            final(self).udp_spec() == old(self).udp_spec(),
    {
        &mut self.tcp
    }
}

/// The decision after the UDP leg, at instant `now`: a UDP failure is returned
/// unchanged (a malformed or undersized datagram never triggers TCP); a
/// complete answer is returned unchanged; a TC observation is retained and the
/// caller context is re-checked with the overall `Sent` state before any TCP
/// work.
pub fn after_udp(udp: Result<ExchangeResponse, UpstreamError>, context: &ExchangeContext, now: u64) -> (r:
    FallbackStep)
    ensures
        udp matches Err(e) ==> (r matches FallbackStep::Done(Err(CompositeError::Leg(x))) && x == e),
        udp matches Ok(resp) ==> (!resp.truncated_spec() ==> (r matches FallbackStep::Done(Ok(x))
            && x == resp)),
        udp matches Ok(resp) ==> (resp.truncated_spec() ==> {
            &&& caller_check_outcome(
                match r {
                    FallbackStep::Tcp(_) => Ok(()),
                    FallbackStep::Done(Err(CompositeError::Leg(e))) => Err(e),
                    _ => Err(UpstreamError::Connect),
                },
                now,
                context.deadline_spec(),
                SideEffectState::Sent,
            )
            &&& r matches FallbackStep::Tcp(prior) ==> prior == (TcpFallbackContext {
                request_id: resp.request_id_spec(),
                response_id: resp.response_id_spec(),
                truncated: true,
                side_effect: SideEffectState::Sent,
            })
        }),
{
    match udp {
        Err(e) => FallbackStep::Done(Err(CompositeError::Leg(e))),
        Ok(response) => {
            if !response.truncated() {
                return FallbackStep::Done(Ok(response));
            }
            let prior = TcpFallbackContext::new(
                response.request_id(),
                response.response_id(),
                response.truncated(),
                SideEffectState::Sent,
            );
            match context.check_at(now, SideEffectState::Sent) {
                Err(e) => FallbackStep::Done(Err(CompositeError::Leg(e))),
                Ok(()) => FallbackStep::Tcp(prior),
            }
        },
    }
}

/// The outcome of the single TCP leg: a success is returned unchanged, and a
/// typed failure keeps its original cause nested under the prior TC
/// observation; nothing is retried.
pub fn after_tcp(prior: TcpFallbackContext, tcp: Result<ExchangeResponse, UpstreamError>) -> (r:
    Result<ExchangeResponse, CompositeError>)
    ensures
        tcp matches Ok(resp) ==> (r matches Ok(x) && x == resp),
        tcp matches Err(cause) ==> r == Err::<ExchangeResponse, CompositeError>(
            CompositeError::TcpFallback { prior, cause },
        ),
{
    match tcp {
        Ok(response) => Ok(response),
        Err(cause) => Err(CompositeError::TcpFallback { prior, cause }),
    }
}

} // verus!
