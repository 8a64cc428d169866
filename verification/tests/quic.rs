use upstream_core::addr::{IpAddress, SocketAddress};
use upstream_core::control::{ExchangeContext, TransportCancellation};
use upstream_core::error::{RequestError, SideEffectState, UpstreamError};
use upstream_core::exchange::{check_stream_response, frame_length, frame_message, ExchangeRequest};
use upstream_core::identity::{ServiceIdentity, TrustPolicy};
use upstream_core::lifecycle::{CloseTransition, Lifecycle, LifecycleState};
use upstream_core::quic::{
    classify_connect_error, classify_doq_read_error, decode_doq_response, is_local_control_error,
    zero_outbound_query_id, DoqConnectFailure, DoqEndpoint, DoqError, DoqUpstream,
    QuinnConnectError, QuinnConnectionError, QuinnReadError, QuinnReadToEndError, DOQ_ALPN,
    H3_ALPN,
};
use upstream_core::quic_reuse::classify::{
    classify_h3_quinn_stream_error, classify_quinn_read_error, classify_quinn_read_to_end_error,
    classify_quinn_write_error, pinned_error_class, pinned_error_classification_table,
    H3ConnectionErrorIncoming, H3StreamErrorIncoming,
};
use upstream_core::quic_reuse::doq::{
    open_failure_class, read_failure_class, send_failure_class, stops_receive_side,
    DoqReuseUpstream,
};
use upstream_core::quic_reuse::owner::{
    teardown_terminal, Admission, InitializationOutcome, InitializationResult, QuicReuseOwner,
};
use upstream_core::quic_reuse::{
    classify_h3_request_outcome, h3_cancellation_decision, h3_cancellation_effect,
    h3_error_shape_for_observation, is_local_control, side_effect_of, EntryHealth, EntryPhase,
    EntryTerminal,
    H3CancellationAction, H3ErrorObservation, H3ErrorShape, H3RequestPhase, ManualClock,
    QuicErrorClass, QuicErrorOutcome, QuicExchangePhase, QuicProtocol, QuicReuseKey, QuicTlsMode,
    MAX_CONNECTIONS_PER_OWNER, MAX_STREAMS_PER_CONNECTION, QUIC_IDLE_TIMEOUT,
};

const NOW: u64 = 10_000_000;

fn loopback(port: u16) -> SocketAddress {
    SocketAddress { ip: IpAddress::V4(0x7f00_0001), port }
}

fn endpoint(port: u16) -> DoqEndpoint {
    let identity = ServiceIdentity::new("dns.example", None).expect("synthetic identity");
    DoqEndpoint::new(loopback(port), identity).expect("synthetic endpoint")
}

fn key(port: u16) -> QuicReuseKey {
    QuicReuseKey::from_doq(&endpoint(port), &TrustPolicy::insecure_skip_verify())
}

fn owner() -> QuicReuseOwner<u64> {
    QuicReuseOwner::new(Lifecycle::new())
}

fn installed(admission: Admission) -> u64 {
    match admission {
        Admission::Installed { generation } => generation,
        other => panic!("expected an installed reservation, got {:?}", other),
    }
}

#[test]
fn close_protocol_is_begin_close_then_linearize_close() {
    let mut owner = owner();
    let key = key(9001);

    owner.register().expect("open");
    let generation = installed(owner.atomic_admission(&key, NOW));
    assert_eq!(
        owner.complete_initialization(&key, generation, InitializationResult::Ready(1), NOW),
        InitializationOutcome::Published
    );
    assert_eq!(owner.after_join(&key, generation, None), Admission::Leased { generation });
    owner.release_permit(&key, generation, NOW);
    owner.release_registration();

    assert_eq!(owner.begin_close(), CloseTransition::BeganClosing);
    assert_eq!(owner.lifecycle_state(), LifecycleState::Closing);
    assert!(owner.is_accepting());

    let captured = owner.linearize_close();
    assert!(!owner.is_accepting());
    assert_eq!(captured.len(), 1);
    assert_eq!(
        owner.observe(&key).expect("entry").phase,
        EntryPhase::Closing,
        "stage two marks without removing"
    );

    let ticket = owner.next_teardown().expect("one teardown");
    assert_eq!(ticket.generation, generation);
    assert!(owner.next_teardown().is_none(), "a teardown is handed out once");
    let (transport, cancelled) = owner.take_transport_for_teardown(&ticket.key, generation);
    assert_eq!(transport, Some(1));
    assert_eq!(cancelled, 0);
    assert_eq!(
        owner.finish_teardown(&ticket.key, generation, teardown_terminal(transport.is_some())),
        Some(EntryTerminal::Drained)
    );
    assert!(owner.observe(&key).is_none(), "terminal-only removal");
    assert_eq!(owner.in_flight_exchanges(), 0);
}

#[test]
fn inverse_order_publication_fails_without_a_public_stage_two() {
    let mut owner = owner();
    let key = key(9002);

    owner.register().expect("open");
    let generation = installed(owner.atomic_admission(&key, NOW));
    assert_eq!(owner.observe(&key).expect("reservation").phase, EntryPhase::Initializing);

    assert_eq!(owner.lifecycle_state(), LifecycleState::Open);
    let captured = owner.linearize_close();
    assert!(!owner.is_accepting());
    assert_eq!(captured.len(), 1);

    assert_eq!(
        owner.complete_initialization(&key, generation, InitializationResult::NoResource, NOW),
        InitializationOutcome::HandedToTeardown { error: None }
    );
    assert_eq!(owner.observe(&key).expect("entry").phase, EntryPhase::Closing);

    let ticket = owner.next_teardown().expect("teardown");
    let (transport, _) = owner.take_transport_for_teardown(&ticket.key, ticket.generation);
    assert!(transport.is_none(), "no resource was ever produced");
    assert_eq!(
        owner.finish_teardown(&ticket.key, ticket.generation, teardown_terminal(transport.is_some())),
        Some(EntryTerminal::Failed)
    );
    assert!(owner.observe(&key).is_none());
    assert_eq!(
        owner.after_join(&key, generation, None),
        Admission::Rejected(UpstreamError::Closed(SideEffectState::NotSent)),
        "the joiner sees only the typed pre-send closed result"
    );
}

#[test]
fn terminal_classification_refuses_after_owner_close() {
    let mut owner = owner();
    let key = key(9003);
    assert_eq!(owner.begin_close(), CloseTransition::BeganClosing);
    let captured = owner.linearize_close();
    assert!(captured.is_empty(), "no entries were installed");
    assert_eq!(
        owner.apply_error_class(&key, 1, QuicErrorClass::StreamLocal),
        QuicErrorOutcome::NoMatchingEntry
    );
}

#[test]
fn admission_is_refused_once_the_lifecycle_is_closing() {
    let mut owner = owner();
    assert_eq!(owner.begin_close(), CloseTransition::BeganClosing);
    assert_eq!(
        owner.atomic_admission(&key(9004), NOW),
        Admission::Rejected(UpstreamError::Closed(SideEffectState::NotSent))
    );
    assert_eq!(owner.entry_count(), 0);
    assert_eq!(
        owner.register(),
        Err(UpstreamError::Closed(SideEffectState::NotSent))
    );
}

#[test]
fn the_entry_bound_counts_every_live_entry() {
    let mut owner = owner();
    for index in 0..MAX_CONNECTIONS_PER_OWNER {
        let port = 9100 + index as u16;
        installed(owner.atomic_admission(&key(port), NOW));
    }
    assert_eq!(owner.entry_count(), MAX_CONNECTIONS_PER_OWNER);
    assert_eq!(
        owner.atomic_admission(&key(9999), NOW),
        Admission::Rejected(UpstreamError::Backpressure(SideEffectState::NotSent))
    );
    assert_eq!(owner.in_flight_exchanges(), MAX_CONNECTIONS_PER_OWNER);
}

#[test]
fn a_joiner_waits_on_an_initializing_entry() {
    let mut owner = owner();
    let key = key(9005);
    let generation = installed(owner.atomic_admission(&key, NOW));
    assert_eq!(owner.atomic_admission(&key, NOW), Admission::Joined { generation });
    assert_eq!(owner.after_join(&key, generation, None), Admission::Joined { generation });
}

#[test]
fn stream_permits_are_bounded_per_connection() {
    let mut owner = owner();
    let key = key(9006);
    let generation = installed(owner.atomic_admission(&key, NOW));
    owner.complete_initialization(&key, generation, InitializationResult::Ready(7), NOW);
    for _ in 0..MAX_STREAMS_PER_CONNECTION {
        assert_eq!(owner.atomic_admission(&key, NOW), Admission::Leased { generation });
    }
    assert_eq!(
        owner.atomic_admission(&key, NOW),
        Admission::Rejected(UpstreamError::Backpressure(SideEffectState::NotSent))
    );
    assert_eq!(
        owner.observe(&key).expect("entry").permits_in_use,
        MAX_STREAMS_PER_CONNECTION
    );
    assert_eq!(owner.transport(&key, generation), Some(&7));
}

#[test]
fn an_idle_entry_expires_and_is_refused_without_a_new_generation() {
    let mut owner = owner();
    let key = key(9007);
    let generation = installed(owner.atomic_admission(&key, NOW));
    owner.complete_initialization(&key, generation, InitializationResult::Ready(1), NOW);

    let later = NOW + QUIC_IDLE_TIMEOUT;
    assert_eq!(
        owner.atomic_admission(&key, later),
        Admission::Rejected(UpstreamError::Closed(SideEffectState::NotSent)),
        "an expired entry is Closing: no drain wait, no second generation"
    );
    let observed = owner.observe(&key).expect("still discoverable");
    assert_eq!(observed.phase, EntryPhase::Closing);
    assert_eq!(observed.generation, generation);
    assert_eq!(observed.health, EntryHealth::Dead);
    assert_eq!(owner.entry_count(), 1);
}

#[test]
fn a_recently_used_entry_does_not_expire() {
    let mut owner = owner();
    let key = key(9008);
    let generation = installed(owner.atomic_admission(&key, NOW));
    owner.complete_initialization(&key, generation, InitializationResult::Ready(1), NOW);
    owner.maintain(NOW + QUIC_IDLE_TIMEOUT - 1);
    assert_eq!(owner.observe(&key).expect("entry").phase, EntryPhase::Active);
    assert!(owner.next_teardown().is_none());
    owner.maintain(NOW + QUIC_IDLE_TIMEOUT);
    assert_eq!(owner.observe(&key).expect("entry").phase, EntryPhase::Closing);
    assert_eq!(owner.next_teardown().map(|t| t.generation), Some(generation));
}

#[test]
fn classification_is_stream_local_or_entry_terminal_for_the_exact_generation() {
    let mut owner = owner();
    let key = key(9009);
    let generation = installed(owner.atomic_admission(&key, NOW));
    owner.complete_initialization(&key, generation, InitializationResult::Ready(1), NOW);

    assert_eq!(
        owner.apply_error_class(&key, generation, QuicErrorClass::StreamLocal),
        QuicErrorOutcome::EntryUnchanged
    );
    assert_eq!(owner.observe(&key).expect("entry").phase, EntryPhase::Active);
    assert_eq!(
        owner.apply_error_class(&key, generation + 1, QuicErrorClass::EntryTerminal),
        QuicErrorOutcome::NoMatchingEntry,
        "a stale generation never touches the entry"
    );
    assert_eq!(
        owner.apply_error_class(&key, generation, QuicErrorClass::EntryTerminal),
        QuicErrorOutcome::EntryDeactivated
    );
    assert_eq!(owner.observe(&key).expect("entry").phase, EntryPhase::Closing);
    assert_eq!(
        owner.apply_error_class(&key, generation, QuicErrorClass::EntryTerminal),
        QuicErrorOutcome::EntryDeactivated
    );
    assert!(owner.next_teardown().is_some());
    assert!(owner.next_teardown().is_none(), "deactivating twice starts one teardown");
}

#[test]
fn a_failed_initializer_is_visible_to_joiners() {
    let mut owner = owner();
    let key = key(9010);
    let generation = installed(owner.atomic_admission(&key, NOW));
    assert_eq!(
        owner.complete_initialization(
            &key,
            generation,
            InitializationResult::Failed(UpstreamError::Connect),
            NOW
        ),
        InitializationOutcome::HandedToTeardown { error: Some(UpstreamError::Connect) }
    );
    assert_eq!(
        owner.after_join(&key, generation, Some(UpstreamError::Connect)),
        Admission::Rejected(UpstreamError::Connect)
    );
}

#[test]
fn a_stale_completion_is_dropped() {
    let mut owner = owner();
    let key = key(9011);
    let generation = installed(owner.atomic_admission(&key, NOW));
    assert_eq!(
        owner.complete_initialization(&key, generation + 5, InitializationResult::Ready(1), NOW),
        InitializationOutcome::NoMatchingEntry
    );
    assert_eq!(owner.observe(&key).expect("entry").phase, EntryPhase::Initializing);
}

#[test]
fn releasing_the_last_permit_restarts_the_idle_clock() {
    let mut owner = owner();
    let key = key(9012);
    let generation = installed(owner.atomic_admission(&key, NOW));
    owner.complete_initialization(&key, generation, InitializationResult::Ready(1), NOW);
    assert_eq!(owner.atomic_admission(&key, NOW), Admission::Leased { generation });
    owner.release_permit(&key, generation, NOW + 5_000);
    let observed = owner.observe(&key).expect("entry");
    assert_eq!(observed.permits_in_use, 0);
    assert_eq!(observed.last_used, NOW + 5_000);
}

#[test]
fn keys_isolate_every_dimension() {
    let identity = ServiceIdentity::new("dns.example", None).unwrap();
    let insecure = TrustPolicy::insecure_skip_verify();
    let verified = TrustPolicy::verified(3).expect("minted revision");
    let doq = QuicReuseKey::from_doq(&endpoint(853), &insecure);
    assert_eq!(doq.protocol(), QuicProtocol::Doq);
    assert_eq!(doq.tls_mode(), QuicTlsMode::InsecureSkipVerify);
    assert_eq!(doq.identity(), "dns.example");
    assert_eq!(doq.doh3_authority(), None);
    assert_ne!(doq, QuicReuseKey::from_doq(&endpoint(853), &verified));
    assert_ne!(doq, QuicReuseKey::from_doq(&endpoint(854), &insecure));
    let doh3 = QuicReuseKey::from_doh3(loopback(853), &identity, "dns.example", &insecure);
    assert_eq!(doh3.doh3_authority(), Some("dns.example"));
    assert_ne!(doq, doh3);
    assert_ne!(
        doh3,
        QuicReuseKey::from_doh3(loopback(853), &identity, "dns.example:8443", &insecure)
    );
    assert!(doq.same_key(&doq.clone()));
    assert!(!doq.same_key(&doh3));
    assert_eq!(QuicTlsMode::of(&verified), QuicTlsMode::Verified);
    assert_eq!(verified.roots_revision(), 3);
    assert!(TrustPolicy::verified(0).is_none());
}

#[test]
fn alpn_offers_are_exact() {
    assert_eq!(QuicProtocol::Doq.alpn(), "doq");
    assert_eq!(QuicProtocol::Doh3.alpn(), "h3");
    assert_eq!(DOQ_ALPN.as_bytes(), b"doq");
    assert_eq!(H3_ALPN.as_bytes(), b"h3");
}

#[test]
fn h3_cancellation_never_selects_the_receive_side_stop() {
    let before = h3_cancellation_decision(H3RequestPhase::BeforeSend);
    assert_eq!(before.phase(), H3RequestPhase::BeforeSend);
    assert_eq!(before.action(), H3CancellationAction::StopSendSide);
    assert!(!before.recv_stream_may_be_in_flight());
    for phase in [
        H3RequestPhase::AfterRequestFin,
        H3RequestPhase::ResponseHead,
        H3RequestPhase::BodyRead,
    ] {
        let decision = h3_cancellation_decision(phase);
        assert_eq!(decision.action(), H3CancellationAction::DropOnly);
        assert!(decision.recv_stream_may_be_in_flight());
        assert!(!decision.selects_pinned_recv_stop());
        let effect = h3_cancellation_effect(phase);
        assert_eq!(effect.entry_phase_after, EntryPhase::Active);
        assert!(effect.connection_healthy_after && effect.entry_leasable_after);
    }
    assert!(!before.selects_pinned_recv_stop());
}

#[test]
fn h3_observations_route_to_one_class() {
    assert_eq!(
        classify_h3_request_outcome(H3ErrorObservation::PeerClosing),
        QuicErrorClass::EntryTerminal
    );
    assert_eq!(
        classify_h3_request_outcome(H3ErrorObservation::BackendConnection),
        QuicErrorClass::EntryTerminal
    );
    assert_eq!(
        classify_h3_request_outcome(H3ErrorObservation::DriverConnection),
        QuicErrorClass::EntryTerminal
    );
    assert_eq!(
        classify_h3_request_outcome(H3ErrorObservation::StreamScoped),
        QuicErrorClass::StreamLocal
    );
    assert_eq!(
        classify_h3_request_outcome(H3ErrorObservation::Unobserved),
        QuicErrorClass::StreamLocal
    );
    assert_eq!(
        h3_error_shape_for_observation(H3ErrorObservation::PeerClosing),
        H3ErrorShape::PeerClosing
    );
    assert_eq!(
        h3_error_shape_for_observation(H3ErrorObservation::Unobserved),
        H3ErrorShape::Unobserved
    );
}

#[test]
fn quinn_classification_routes_connection_loss_to_the_entry() {
    assert_eq!(
        classify_quinn_read_error(&QuinnReadError::Reset),
        QuicErrorClass::StreamLocal
    );
    assert_eq!(
        classify_quinn_read_error(&QuinnReadError::ConnectionLost(QuinnConnectionError::TimedOut)),
        QuicErrorClass::EntryTerminal
    );
    assert_eq!(
        classify_quinn_write_error(&upstream_core::quic::QuinnWriteError::Stopped),
        QuicErrorClass::StreamLocal
    );
    assert_eq!(
        classify_quinn_write_error(&upstream_core::quic::QuinnWriteError::ZeroRttRejected),
        QuicErrorClass::EntryTerminal
    );
    assert_eq!(
        classify_quinn_read_to_end_error(&QuinnReadToEndError::TooLong),
        QuicErrorClass::StreamLocal
    );
    assert_eq!(
        classify_h3_quinn_stream_error(&H3StreamErrorIncoming::ConnectionErrorIncoming(
            H3ConnectionErrorIncoming::Timeout
        )),
        QuicErrorClass::EntryTerminal
    );
    assert_eq!(
        classify_h3_quinn_stream_error(&H3StreamErrorIncoming::StreamTerminated),
        QuicErrorClass::StreamLocal
    );
}

#[test]
fn the_pinned_table_is_looked_up_by_the_exact_triple() {
    assert_eq!(
        pinned_error_class("quinn", "quinn::ConnectionError", "Reset"),
        Some(QuicErrorClass::EntryTerminal)
    );
    assert_eq!(
        pinned_error_class("quinn", "quinn::ReadError", "Reset"),
        Some(QuicErrorClass::StreamLocal),
        "the same item name in another type has another class"
    );
    assert_eq!(pinned_error_class("quinn", "quinn::ReadError", "Nope"), None);
    assert_eq!(pinned_error_class("", "", "Reset"), None);
    assert_eq!(pinned_error_classification_table().len(), 40);
}

#[test]
fn side_effect_follows_the_phase() {
    assert_eq!(side_effect_of(QuicExchangePhase::PreSend), SideEffectState::NotSent);
    assert_eq!(side_effect_of(QuicExchangePhase::Connect), SideEffectState::NotSent);
    assert_eq!(side_effect_of(QuicExchangePhase::SendUncertain), SideEffectState::MaybeSent);
    assert_eq!(side_effect_of(QuicExchangePhase::RequestFin), SideEffectState::Sent);
    assert_eq!(side_effect_of(QuicExchangePhase::ResponseRead), SideEffectState::Sent);
    assert!(is_local_control(&UpstreamError::Cancelled(SideEffectState::Sent)));
    assert!(!is_local_control(&UpstreamError::Connect));
}

#[test]
fn manual_clock_moves_only_when_told() {
    let mut clock = ManualClock::new(100);
    assert_eq!(clock.now(), 100);
    clock.advance(50);
    assert_eq!(clock.lock(), 150);
    clock.set(7);
    assert_eq!(clock.now(), 7);
}

#[test]
fn the_outbound_copy_has_its_id_zeroed() {
    let mut outbound = vec![0x12, 0x34, 1, 0];
    zero_outbound_query_id(&mut outbound);
    assert_eq!(outbound, vec![0, 0, 1, 0]);
    let mut short = vec![9];
    zero_outbound_query_id(&mut short);
    assert_eq!(short, vec![9]);
}

#[test]
fn a_doq_response_is_unframed_and_gets_the_caller_id() {
    let complete = [0u8, 4, 0, 0, 0x81, 0x80];
    assert_eq!(decode_doq_response(&complete, 0xbeef), Ok(vec![0xbe, 0xef, 0x81, 0x80]));
}

#[test]
fn malformed_doq_streams_are_refused() {
    assert_eq!(
        decode_doq_response(&[0], 1),
        Err(DoqError::Transport(UpstreamError::TruncatedFrame))
    );
    assert_eq!(
        decode_doq_response(&[0, 0], 1),
        Err(DoqError::Transport(UpstreamError::MalformedResponse))
    );
    assert_eq!(
        decode_doq_response(&[0, 4, 0, 0, 1], 1),
        Err(DoqError::Transport(UpstreamError::TruncatedFrame))
    );
    assert_eq!(
        decode_doq_response(&[0, 2, 0, 0, 7], 1),
        Err(DoqError::TrailingResponse)
    );
    assert_eq!(
        decode_doq_response(&[0, 1, 0], 1),
        Err(DoqError::Transport(UpstreamError::MalformedResponse))
    );
    assert_eq!(
        decode_doq_response(&[0, 2, 0, 9], 1),
        Err(DoqError::Transport(UpstreamError::ResponseMismatch))
    );
}

#[test]
fn doq_read_and_connect_failures_are_typed() {
    assert_eq!(
        classify_doq_read_error(QuinnReadToEndError::TooLong),
        DoqError::Transport(UpstreamError::FrameTooLarge)
    );
    assert_eq!(
        classify_doq_read_error(QuinnReadToEndError::Read(QuinnReadError::Reset)),
        DoqError::MissingResponseFin
    );
    assert_eq!(
        classify_doq_read_error(QuinnReadToEndError::Read(QuinnReadError::ClosedStream)),
        DoqError::Transport(UpstreamError::Receive(SideEffectState::Sent))
    );
    assert_eq!(
        classify_connect_error(QuinnConnectError::InvalidServerName),
        DoqConnectFailure::InvalidIdentity
    );
    assert!(is_local_control_error(&DoqError::Transport(UpstreamError::Closed(
        SideEffectState::Sent
    ))));
    assert!(!is_local_control_error(&DoqError::TrailingResponse));
}

#[test]
fn doq_endpoints_refuse_port_zero() {
    let identity = ServiceIdentity::new("dns.example", None).unwrap();
    assert_eq!(DoqEndpoint::new(loopback(0), identity), Err(DoqError::ZeroDialPort));
    assert_eq!(endpoint(853).dial(), loopback(853));
    assert_eq!(endpoint(853).identity().as_str(), "dns.example");
}

#[test]
fn a_one_shot_doq_owner_prepares_and_closes() {
    let mut upstream = DoqUpstream::new(endpoint(853));
    let query = [0x12u8, 0x34, 1, 0, 0, 1, 0, 0, 0, 0, 0, 0];
    let request = ExchangeRequest::new(&query, true).expect("request");
    let context = ExchangeContext::new(NOW + 5_000, TransportCancellation::new());
    assert!(upstream.prepare_exchange(&request, &context, NOW).is_ok());
    assert_eq!(upstream.in_flight_exchanges(), 1);
    let late = upstream.prepare_exchange(&request, &context, NOW + 5_000);
    assert_eq!(
        late.err(),
        Some(DoqError::Transport(UpstreamError::DeadlineExceeded(SideEffectState::NotSent)))
    );
    assert_eq!(upstream.in_flight_exchanges(), 1, "a refused exchange leaves no registration");
    assert_eq!(upstream.begin_close(), CloseTransition::BeganClosing);
    upstream.release();
    assert_eq!(
        upstream.finish_close(),
        upstream_core::lifecycle::CloseCompletion::Closed
    );
}

#[test]
fn shared_doq_failures_deactivate_only_on_connection_evidence() {
    assert_eq!(open_failure_class(UpstreamError::Connect), Some(QuicErrorClass::EntryTerminal));
    assert_eq!(open_failure_class(UpstreamError::Cancelled(SideEffectState::NotSent)), None);
    assert_eq!(
        send_failure_class(UpstreamError::Send(SideEffectState::MaybeSent), true),
        Some(QuicErrorClass::EntryTerminal)
    );
    assert_eq!(send_failure_class(UpstreamError::Send(SideEffectState::MaybeSent), false), None);
    assert_eq!(
        read_failure_class(QuinnReadToEndError::Read(QuinnReadError::Reset), false),
        None
    );
    assert_eq!(
        read_failure_class(
            QuinnReadToEndError::Read(QuinnReadError::ConnectionLost(QuinnConnectionError::Reset)),
            false
        ),
        Some(QuicErrorClass::EntryTerminal)
    );
    assert!(stops_receive_side(UpstreamError::DeadlineExceeded(SideEffectState::Sent)));
    assert!(!stops_receive_side(UpstreamError::Receive(SideEffectState::Sent)));
}

#[test]
fn a_shared_doq_upstream_prepares_with_the_owner_gate() {
    let mut upstream: DoqReuseUpstream<u64> =
        DoqReuseUpstream::new(endpoint(853), TrustPolicy::insecure_skip_verify());
    let context = ExchangeContext::new(NOW + 5_000, TransportCancellation::new());
    assert_eq!(
        upstream.prepare_exchange(70_000, &context, NOW).err(),
        Some(UpstreamError::FrameTooLarge)
    );
    assert!(upstream.prepare_exchange(12, &context, NOW).is_ok());
    assert_eq!(upstream.in_flight_exchanges(), 1);
    assert_eq!(upstream.key(), key(853));
    assert_eq!(upstream.entry_count(), 0);
}

#[test]
fn a_one_shot_doh3_owner_refuses_after_close() {
    let mut upstream = upstream_core::quic::Doh3Upstream::new("https://doh.example/dns-query");
    let context = ExchangeContext::new(NOW + 5_000, TransportCancellation::new());
    assert!(upstream.prepare_exchange(&context, NOW).is_ok());
    assert_eq!(upstream.in_flight_exchanges(), 1);
    assert_eq!(*upstream.endpoint(), "https://doh.example/dns-query");
    assert_eq!(upstream.begin_close(), CloseTransition::BeganClosing);
    assert_eq!(
        upstream.prepare_exchange(&context, NOW).err(),
        Some(UpstreamError::Closed(SideEffectState::NotSent))
    );
    assert_eq!(
        upstream.finish_close(),
        upstream_core::lifecycle::CloseCompletion::InFlight
    );
    upstream.release();
    assert_eq!(upstream.finish_close(), upstream_core::lifecycle::CloseCompletion::Closed);
    assert_eq!(upstream.lifecycle_state(), LifecycleState::Closed);
}

#[test]
fn a_cancelled_caller_is_refused_before_registration() {
    let mut upstream: DoqReuseUpstream<u64> =
        DoqReuseUpstream::new(endpoint(853), TrustPolicy::insecure_skip_verify());
    let token = TransportCancellation::new();
    token.cancel();
    let context = ExchangeContext::new(NOW + 5_000, token);
    assert_eq!(
        upstream.prepare_exchange(12, &context, NOW).err(),
        Some(UpstreamError::Cancelled(SideEffectState::NotSent))
    );
    assert_eq!(
        upstream.prepare_exchange(70_000, &context, NOW).err(),
        Some(UpstreamError::FrameTooLarge)
    );
    assert_eq!(upstream.in_flight_exchanges(), 0);
    assert_eq!(upstream.entry_count(), 0);
    assert_eq!(
        upstream.register_checked(Err(UpstreamError::Closed(SideEffectState::NotSent))),
        Err(UpstreamError::Closed(SideEffectState::NotSent))
    );
    assert_eq!(upstream.in_flight_exchanges(), 0);
    assert_eq!(upstream.register_checked(Ok(())), Ok(()));
    assert_eq!(upstream.in_flight_exchanges(), 1);
}

#[test]
fn the_request_id_is_the_query_header_id() {
    let query = [0xabu8, 0xcd, 1, 0, 0, 1, 0, 0, 0, 0, 0, 0];
    let request = ExchangeRequest::new(&query, true).expect("request");
    assert_eq!(request.request_id(), 0xabcd);
    assert_eq!(
        ExchangeRequest::new(&query[..4], true).err(),
        Some(UpstreamError::InvalidRequest(RequestError::Malformed))
    );
    assert_eq!(
        ExchangeRequest::new(&query, false).err(),
        Some(UpstreamError::InvalidRequest(RequestError::Malformed))
    );
    assert_eq!(
        ExchangeRequest::new(&[], true).err(),
        Some(UpstreamError::InvalidRequest(RequestError::Empty))
    );
}

#[test]
fn teardown_reports_a_terminal_outcome_and_the_stored_transport() {
    let mut owner = owner();
    let key = key(9010);
    owner.register().expect("open");
    let generation = installed(owner.atomic_admission(&key, NOW));
    assert_eq!(owner.transport(&key, generation), None);
    owner.complete_initialization(&key, generation, InitializationResult::Ready(77), NOW);
    assert_eq!(owner.transport(&key, generation), Some(&77));
    assert_eq!(owner.transport(&key, generation + 1), None);
    owner.apply_error_class(&key, generation, QuicErrorClass::EntryTerminal);
    let ticket = owner.next_teardown().expect("teardown");
    let (transport, _) = owner.take_transport_for_teardown(&ticket.key, ticket.generation);
    assert_eq!(transport, Some(77));
    assert_eq!(owner.transport(&key, generation), None);
    assert_eq!(teardown_terminal(false), EntryTerminal::Failed);
    assert_eq!(owner.finish_teardown(&key, generation + 1, EntryTerminal::Drained), None);
    assert_eq!(
        owner.finish_teardown(&key, generation, teardown_terminal(transport.is_some())),
        Some(EntryTerminal::Drained)
    );
    assert!(owner.observe(&key).is_none());
}

#[test]
fn stream_messages_are_length_framed_and_checked() {
    let query = [0x12u8, 0x34, 1, 0, 0, 1, 0, 0, 0, 0, 0, 0];
    let framed = frame_message(&query);
    assert_eq!(&framed[..2], &[0, 12]);
    assert_eq!(&framed[2..], &query);
    assert_eq!(frame_length(1, 2), 258);
    let mut response = query;
    response[2] |= 0x80;
    assert_eq!(check_stream_response(&response, 0x1234), Ok(()));
    assert_eq!(check_stream_response(&response, 0x1235), Err(UpstreamError::ResponseMismatch));
    assert_eq!(check_stream_response(&query, 0x1234), Err(UpstreamError::MalformedResponse));
    assert_eq!(check_stream_response(&response[..11], 0x1234), Err(UpstreamError::MalformedResponse));
}
