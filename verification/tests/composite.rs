use upstream_core::addr::{IpAddress, SocketAddress};
use upstream_core::composite::{
    after_tcp, after_udp, CompositeError, FallbackStep, TcpFallbackContext, UdpTcpPolicy,
};
use upstream_core::control::{ExchangeContext, TransportCancellation};
use upstream_core::error::{SideEffectState, Transport, UpstreamError};
use upstream_core::exchange::ExchangeResponse;
use upstream_core::upstream::Endpoint;

const NOW: u64 = 50_000;

fn response(truncated: bool) -> ExchangeResponse {
    ExchangeResponse::new(vec![0x12, 0x34, 0x82, 0], 0x1234, 0x1234, Transport::Udp, truncated)
}

#[test]
fn the_tcp_leg_targets_the_same_address() {
    let address = SocketAddress { ip: IpAddress::V4(0xc000_0205), port: 53 };
    let policy = UdpTcpPolicy::new(Endpoint::new(address, Transport::Udp).expect("endpoint"));
    assert_eq!(policy.udp().endpoint().transport(), Transport::Udp);
    assert_eq!(policy.tcp().endpoint().address(), address);
    assert_eq!(policy.tcp().endpoint().transport(), Transport::Tcp);
}

#[test]
fn a_complete_udp_answer_needs_no_tcp() {
    let context = ExchangeContext::new(NOW + 1_000, TransportCancellation::new());
    match after_udp(Ok(response(false)), &context, NOW) {
        FallbackStep::Done(Ok(answer)) => assert!(!answer.truncated()),
        _ => panic!("a complete answer is returned unchanged"),
    }
}

#[test]
fn a_udp_failure_is_returned_unchanged() {
    let context = ExchangeContext::new(NOW + 1_000, TransportCancellation::new());
    match after_udp(Err(UpstreamError::MalformedResponse), &context, NOW) {
        FallbackStep::Done(Err(error)) => {
            assert_eq!(error, CompositeError::Leg(UpstreamError::MalformedResponse))
        }
        _ => panic!("a malformed datagram never triggers TCP"),
    }
}

#[test]
fn a_truncated_answer_falls_back_once() {
    let context = ExchangeContext::new(NOW + 1_000, TransportCancellation::new());
    let prior = match after_udp(Ok(response(true)), &context, NOW) {
        FallbackStep::Tcp(prior) => prior,
        _ => panic!("a TC observation is not a final answer"),
    };
    assert_eq!(
        prior,
        TcpFallbackContext::new(0x1234, 0x1234, true, SideEffectState::Sent)
    );
    let failed = after_tcp(prior, Err(UpstreamError::Connect));
    assert_eq!(
        failed.err(),
        Some(CompositeError::TcpFallback { prior, cause: UpstreamError::Connect })
    );
    let answered = after_tcp(prior, Ok(response(false)));
    assert!(answered.is_ok());
}

#[test]
fn an_expired_context_stops_before_tcp() {
    let context = ExchangeContext::new(NOW, TransportCancellation::new());
    match after_udp(Ok(response(true)), &context, NOW) {
        FallbackStep::Done(Err(error)) => assert_eq!(
            error,
            CompositeError::Leg(UpstreamError::DeadlineExceeded(SideEffectState::Sent))
        ),
        _ => panic!("no TCP work after the deadline"),
    }
    let cancelled = TransportCancellation::new();
    cancelled.cancel();
    let context = ExchangeContext::new(NOW, cancelled);
    match after_udp(Ok(response(true)), &context, NOW) {
        FallbackStep::Done(Err(error)) => assert_eq!(
            error,
            CompositeError::Leg(UpstreamError::Cancelled(SideEffectState::Sent))
        ),
        _ => panic!("cancellation wins the tie with the deadline"),
    }
}
