use upstream_core::addr::{IpAddress, SocketAddress};
use upstream_core::control::TransportCancellation;
use upstream_core::error::{RequestError, SideEffectState, Transport, UpstreamError};
use upstream_core::identity::TrustPolicy;
use upstream_core::lifecycle::{CloseCompletion, CloseTransition, LifecycleState};
use upstream_core::reuse::owner::{
    after_attempt, classify_write_failure, AttemptKind, AttemptSource, AttemptStep, ReuseOwner,
};
use upstream_core::reuse::{
    PoolError, ReuseKey, SecureKey, SecureKind, IDLE_TIMEOUT, MAX_IDLE_PER_KEY, MAX_IDLE_TOTAL,
};
use upstream_core::upstream::Endpoint;

fn loopback(port: u16) -> SocketAddress {
    SocketAddress { ip: IpAddress::V4(0x7f00_0001), port }
}

fn tcp_key(port: u16) -> ReuseKey {
    ReuseKey::from_endpoint(Endpoint::new(loopback(port), Transport::Tcp).expect("endpoint"))
}

/// A clock the test advances by hand (milliseconds).
struct ManualClock(u64);

impl ManualClock {
    fn new() -> Self {
        Self(1_000_000)
    }

    fn now(&self) -> u64 {
        self.0
    }

    fn advance(&mut self, seconds: u64) {
        self.0 += seconds * 1_000;
    }
}

fn pool() -> ReuseOwner<u32> {
    ReuseOwner::new(Endpoint::new(loopback(853), Transport::Tcp).expect("endpoint"))
}

#[test]
fn the_global_idle_bound_evicts_the_oldest_entry_across_keys() {
    let mut clock = ManualClock::new();
    let mut owner = pool();
    let mut keys = Vec::new();

    for index in 0..(MAX_IDLE_TOTAL + 1) {
        let key = tcp_key(9000 + u16::try_from(index).expect("port"));
        clock.advance(1);
        owner.release(key.clone(), index as u32, true, clock.now());
        keys.push(key);
    }

    assert_eq!(owner.idle_connections(), MAX_IDLE_TOTAL, "the global bound is never exceeded");
    assert!(
        owner.checkout_live(&keys[0], clock.now()).is_none(),
        "the oldest idle entry is evicted once the global bound is reached"
    );
    assert!(
        owner.checkout_live(&keys[MAX_IDLE_TOTAL], clock.now()).is_some(),
        "the most recently returned entry is retained"
    );
}

#[test]
fn the_per_key_bound_keeps_exactly_one_entry() {
    let mut clock = ManualClock::new();
    let mut owner = pool();
    let key = tcp_key(9100);
    for connection in 0..3 {
        clock.advance(1);
        owner.release(key.clone(), connection, true, clock.now());
    }
    assert_eq!(
        owner.idle_connections(),
        MAX_IDLE_PER_KEY,
        "a key never holds more than the per-key bound"
    );
    assert_eq!(owner.checkout_live(&key, clock.now()), Some(2), "the newest entry replaced the older");
}

#[test]
fn a_stale_entry_past_the_idle_timeout_is_not_handed_out() {
    let mut clock = ManualClock::new();
    let mut owner = pool();
    let key = tcp_key(9200);
    owner.release(key.clone(), 1, true, clock.now());
    assert!(owner.checkout_live(&key, clock.now()).is_some(), "fresh entry is live");

    owner.release(key.clone(), 2, true, clock.now());
    clock.advance(IDLE_TIMEOUT / 1_000 + 1);
    assert!(
        owner.checkout_live(&key, clock.now()).is_none(),
        "an entry past IDLE_TIMEOUT is discarded, not handed out"
    );
    assert_eq!(owner.idle_connections(), 0);
}

#[test]
fn a_closed_owner_discards_returned_connections() {
    let clock = ManualClock::new();
    let mut owner = pool();

    let _ = owner.begin_close();
    owner.release(tcp_key(9300), 1, false, clock.now());
    assert_eq!(owner.idle_connections(), 0, "a non-reusable or closed-pool return is discarded");
    owner.release(tcp_key(9301), 2, true, clock.now());
    assert_eq!(owner.idle_connections(), 0, "a closing owner never retains");
}

#[test]
fn begin_close_drops_idle_connections_and_refuses_leases() {
    let clock = ManualClock::new();
    let mut owner = pool();
    owner.release(tcp_key(9400), 1, true, clock.now());
    assert_eq!(owner.idle_connections(), 1);
    assert!(owner.admit_lease());
    assert!(!owner.admit_lease(), "one outstanding exchange per connection");
    owner.lease_done();
    assert_eq!(owner.begin_close(), CloseTransition::BeganClosing);
    assert_eq!(owner.idle_connections(), 0);
    assert!(!owner.admit_lease());
    assert_eq!(owner.lifecycle_state(), LifecycleState::Closing);
    assert_eq!(owner.finish_close(), CloseCompletion::Closed);
}

#[test]
fn a_udp_endpoint_is_not_reusable() {
    let udp = Endpoint::new(loopback(53), Transport::Udp).expect("endpoint");
    assert!(matches!(ReuseOwner::<u32>::try_new(udp), Err(PoolError::NotReusable)));
    assert_eq!(
        ReuseKey::try_from_endpoint(udp).err(),
        Some(UpstreamError::InvalidRequest(RequestError::Malformed))
    );
}

#[test]
fn pool_errors_map_to_typed_transport_errors() {
    assert_eq!(
        UpstreamError::from(PoolError::Busy),
        UpstreamError::Runtime(SideEffectState::NotSent)
    );
    assert_eq!(
        UpstreamError::from(PoolError::Closed),
        UpstreamError::Closed(SideEffectState::NotSent)
    );
    assert_eq!(
        UpstreamError::from(PoolError::NotReusable),
        UpstreamError::InvalidRequest(RequestError::Malformed)
    );
    assert_eq!(PoolError::Busy.message(), "this key already has an outstanding exchange");
}

#[test]
fn only_an_unsent_write_failure_allows_a_replacement_dial() {
    assert_eq!(
        classify_write_failure(UpstreamError::Send(SideEffectState::NotSent)),
        AttemptKind::Unwritten
    );
    assert_eq!(
        classify_write_failure(UpstreamError::Send(SideEffectState::MaybeSent)),
        AttemptKind::Terminal
    );
}

#[test]
fn a_doh_secure_key_discriminates_authority_and_policy() {
    let dial = SocketAddress { ip: IpAddress::V4(0x7f00_0001), port: 443 };
    let key = |authority: &str, insecure: bool| {
        ReuseKey::plain_secure_endpoint(
            dial,
            SecureKey::new(SecureKind::Doh, "dns.example", None, Some(authority), insecure),
        )
        .expect("key")
    };
    assert_ne!(
        key("dns.example", false),
        key("dns.example:8443", false),
        "a different authority is a different key"
    );
    assert_ne!(
        key("dns.example", false),
        key("dns.example", true),
        "a different TLS policy is a different key"
    );
}

#[test]
fn two_separately_constructed_verified_policies_do_not_share_a_key() {
    let dial = loopback(853);
    let first_policy = TrustPolicy::verified(11).expect("minted");
    let second_policy = TrustPolicy::verified(12).expect("minted");

    let first = ReuseKey::plain_secure_endpoint(
        dial,
        SecureKey::from_policy(SecureKind::Dot, "dns.example", None, None, &first_policy),
    )
    .expect("first key");
    let second = ReuseKey::plain_secure_endpoint(
        dial,
        SecureKey::from_policy(SecureKind::Dot, "dns.example", None, None, &second_policy),
    )
    .expect("second key");
    assert_ne!(first, second, "two trust configurations never share a connection");

    let again = ReuseKey::plain_secure_endpoint(
        dial,
        SecureKey::from_policy(SecureKind::Dot, "dns.example", None, None, &first_policy),
    )
    .expect("key from the same policy");
    assert_eq!(first, again, "one policy must always produce the same key");

    let cloned = first_policy.clone();
    let from_clone = ReuseKey::plain_secure_endpoint(
        dial,
        SecureKey::from_policy(SecureKind::Dot, "dns.example", None, None, &cloned),
    )
    .expect("key from the cloned policy");
    assert_eq!(first, from_clone, "cloning a policy must preserve its roots revision");

    let insecure = ReuseKey::plain_secure_endpoint(
        dial,
        SecureKey::from_policy(
            SecureKind::Dot,
            "dns.example",
            None,
            None,
            &TrustPolicy::insecure_skip_verify(),
        ),
    )
    .expect("insecure key");
    assert_ne!(first, insecure, "insecure must differ from verified");
}

#[test]
fn the_policy_agnostic_key_stays_compatible_and_distinct() {
    let dial = loopback(853);
    let legacy = ReuseKey::plain_secure_endpoint(
        dial,
        SecureKey::new(SecureKind::Dot, "dns.example", None, None, false),
    )
    .expect("legacy verified key");
    let same_again = ReuseKey::plain_secure_endpoint(
        dial,
        SecureKey::new(SecureKind::Dot, "dns.example", None, None, false),
    )
    .expect("legacy verified key again");
    assert_eq!(legacy, same_again, "the compatibility path is stable");

    let policy = TrustPolicy::verified(21).expect("minted");
    let from_policy = ReuseKey::plain_secure_endpoint(
        dial,
        SecureKey::from_policy(SecureKind::Dot, "dns.example", None, None, &policy),
    )
    .expect("policy key");
    assert_ne!(legacy, from_policy);

    let legacy_insecure = ReuseKey::plain_secure_endpoint(
        dial,
        SecureKey::new(SecureKind::Dot, "dns.example", None, None, true),
    )
    .expect("legacy insecure key");
    let insecure_policy_key = ReuseKey::plain_secure_endpoint(
        dial,
        SecureKey::from_policy(
            SecureKind::Dot,
            "dns.example",
            None,
            None,
            &TrustPolicy::insecure_skip_verify(),
        ),
    )
    .expect("insecure policy key");
    assert_eq!(legacy_insecure, insecure_policy_key, "both insecure forms describe the same configuration");
}

#[test]
fn an_unusable_identity_is_refused() {
    assert_eq!(
        SecureKey::try_new(SecureKind::Dot, "bad..example", None, None, false).err(),
        Some(UpstreamError::InvalidRequest(RequestError::Malformed))
    );
    let key = SecureKey::try_new(SecureKind::Dot, "DNS.Example.", None, None, false).expect("valid");
    assert_eq!(key.identity(), "dns.example");
    assert_eq!(key.kind(), SecureKind::Dot);
    assert_eq!(key.authority(), None);
    assert!(!key.is_insecure_skip_verify());
    let negotiated = ReuseKey::plain_secure_endpoint(loopback(443), key)
        .expect("key")
        .with_negotiated_protocol(Some("h2".to_string()));
    assert_eq!(negotiated.negotiated_protocol(), Some("h2"));
    assert_eq!(negotiated.transport(), Transport::Tcp);
    assert_eq!(negotiated.dial(), loopback(443));
}


use upstream_core::identity::ServiceIdentity;
use upstream_core::reuse::secure::{
    doh_session_reusable, DohReuseOwner, DotEndpoint, SecureEndpointError, SecureReuseOwner,
};

fn dot_endpoint() -> DotEndpoint {
    DotEndpoint::new(loopback(853), ServiceIdentity::new("dns.example", None).unwrap())
        .expect("endpoint")
}

#[test]
fn a_dot_owner_keys_on_the_dial_identity_and_policy() {
    let owner: SecureReuseOwner<u32> =
        SecureReuseOwner::new(dot_endpoint(), TrustPolicy::verified(5).unwrap(), 0);
    let key = owner.reuse_key().expect("key");
    assert_eq!(key.dial(), loopback(853));
    let secure = key.secure().expect("secure half");
    assert_eq!(secure.kind(), SecureKind::Dot);
    assert_eq!(secure.identity(), "dns.example");
    assert_eq!(secure.roots_revision(), 5);
    assert_eq!(
        DotEndpoint::new(loopback(0), ServiceIdentity::new("dns.example", None).unwrap()),
        Err(SecureEndpointError::ZeroDialPort)
    );
}

#[test]
fn a_dot_owner_retains_one_fresh_session() {
    let mut owner: SecureReuseOwner<u32> =
        SecureReuseOwner::new(dot_endpoint(), TrustPolicy::insecure_skip_verify(), 0);
    assert!(owner.admit_lease());
    assert!(!owner.admit_lease(), "serial per session");
    owner.release(7, 1_000);
    assert_eq!(owner.leased_connections(), 0);
    assert_eq!(owner.idle_connections(), 1);
    assert_eq!(owner.checkout_live(1_000 + IDLE_TIMEOUT - 1), Some(7));
    owner.release(8, 2_000);
    assert_eq!(owner.checkout_live(2_000 + IDLE_TIMEOUT), None, "a stale session is discarded");
    assert_eq!(owner.idle_connections(), 0);
    owner.release(9, 3_000);
    assert_eq!(owner.begin_close(), CloseTransition::BeganClosing);
    assert_eq!(owner.idle_connections(), 0, "close drops the idle session");
    owner.release(10, 3_000);
    assert_eq!(owner.idle_connections(), 0, "a closing owner never re-pools");
    assert_eq!(owner.finish_close(), CloseCompletion::Closed);
}

#[test]
fn a_doh_owner_registers_each_scope_once_and_drains_the_others() {
    let mut owner: DohReuseOwner<&str, u32> =
        DohReuseOwner::new("https://doh.example/dns-query", TrustPolicy::insecure_skip_verify(), 0);
    owner.publish_scope(Some(1));
    owner.publish_scope(Some(2));
    owner.publish_scope(Some(1));
    owner.publish_scope(None);
    assert_eq!(owner.registered_scope_count(), 2);
    assert_eq!(owner.stale_scopes(Some(2)), vec![1]);
    assert_eq!(owner.stale_scopes(None), vec![1, 2]);
    owner.forget_scope(1);
    assert_eq!(owner.stale_scopes(None), vec![2]);
    owner.forget_scope(9);
    assert_eq!(owner.registered_scope_count(), 1);
}

#[test]
fn a_doh_session_is_reused_only_for_the_same_service() {
    let identity = || SecureKey::new(SecureKind::Doh, "dns.example", None, Some("dns.example"), false);
    let base = ReuseKey::plain_secure_endpoint(loopback(443), identity()).unwrap();
    let stored = base.clone().with_negotiated_protocol(Some("h2".to_string()));
    assert!(doh_session_reusable(&stored, &base, 0, IDLE_TIMEOUT - 1));
    assert!(!doh_session_reusable(&stored, &base, 0, IDLE_TIMEOUT));
    let other = ReuseKey::plain_secure_endpoint(loopback(8443), identity()).unwrap();
    assert!(!doh_session_reusable(&other, &base, 0, 1));
}

#[test]
fn a_closing_doh_owner_hands_returned_sessions_back() {
    let mut owner: DohReuseOwner<&str, u32> =
        DohReuseOwner::new("https://doh.example/dns-query", TrustPolicy::insecure_skip_verify(), 0);
    let key = ReuseKey::plain_secure_endpoint(
        loopback(443),
        SecureKey::new(SecureKind::Doh, "dns.example", None, Some("dns.example"), false),
    )
    .unwrap();
    assert!(owner.admit_lease());
    assert_eq!(owner.release(key.clone(), 4, 100), None);
    assert_eq!(owner.idle_connections(), 1);
    let (stored, session, since) = owner.take_idle().expect("idle");
    assert_eq!((stored, session, since), (key.clone(), 4, 100));
    assert_eq!(owner.begin_close(), CloseTransition::BeganClosing);
    assert_eq!(owner.release(key, 5, 200), Some(5), "the caller shuts the session down");
    assert!(!owner.teardown_complete());
    owner.mark_teardown_complete();
    assert!(owner.teardown_complete());
    assert_eq!(owner.complete_close(), CloseCompletion::Closed);
}

#[test]
fn a_pooled_exchange_dials_one_replacement_only_after_an_unwritten_retained_attempt() {
    let unwritten = classify_write_failure(UpstreamError::Send(SideEffectState::NotSent));
    let maybe_sent = classify_write_failure(UpstreamError::Send(SideEffectState::MaybeSent));
    assert_eq!(after_attempt(AttemptSource::Retained, unwritten), AttemptStep::DialReplacement);
    assert_eq!(after_attempt(AttemptSource::Fresh, unwritten), AttemptStep::Fail);
    assert_eq!(after_attempt(AttemptSource::Retained, maybe_sent), AttemptStep::Fail);
    assert_eq!(after_attempt(AttemptSource::Fresh, AttemptKind::Success), AttemptStep::Retain);
    assert_eq!(after_attempt(AttemptSource::Retained, AttemptKind::Success), AttemptStep::Retain);
}

fn doh_owner() -> DohReuseOwner<&'static str, u32> {
    DohReuseOwner::new("https://dns.example/dns-query", TrustPolicy::insecure_skip_verify(), 0)
}

fn doh_key() -> ReuseKey {
    ReuseKey::plain_secure_endpoint(
        loopback(443),
        SecureKey::new(SecureKind::Doh, "dns.example", None, Some("dns.example"), false),
    )
    .unwrap()
}

#[test]
fn a_pooled_dot_response_loses_the_commit_gate_to_owner_close() {
    let mut owner: SecureReuseOwner<u32> =
        SecureReuseOwner::new(dot_endpoint(), TrustPolicy::insecure_skip_verify(), 0);
    owner.register().expect("open");
    assert!(owner.admit_lease());
    assert_eq!(owner.begin_close(), CloseTransition::BeganClosing);
    assert_eq!(owner.lifecycle_state(), LifecycleState::Closing);
    let outcome = owner.commit_pooled_response(&TransportCancellation::new(), 10_000, 1_000);
    assert_eq!(outcome, Err(UpstreamError::Closed(SideEffectState::Sent)));
    owner.lease_done();
    assert_eq!(owner.idle_connections(), 0, "a response that lost the commit gate is never re-pooled");
    owner.release_registration();
    assert_eq!(owner.finish_close(), CloseCompletion::Closed, "the begun close still converges");
    assert_eq!(owner.in_flight_exchanges(), 0);
    assert_eq!(owner.leased_connections(), 0, "the lease was released");
}

#[test]
fn a_pooled_dot_response_loses_the_commit_gate_to_caller_cancellation() {
    let mut owner: SecureReuseOwner<u32> =
        SecureReuseOwner::new(dot_endpoint(), TrustPolicy::insecure_skip_verify(), 0);
    owner.register().expect("open");
    assert!(owner.admit_lease());
    let caller = TransportCancellation::new();
    caller.cancel();
    assert_eq!(
        owner.commit_pooled_response(&caller, 10_000, 1_000),
        Err(UpstreamError::Cancelled(SideEffectState::Sent))
    );
    owner.lease_done();
    assert_eq!(owner.idle_connections(), 0, "a cancelled pooled response is never re-pooled");
}

#[test]
fn a_pooled_doh_response_loses_the_commit_gate_to_owner_close() {
    let mut owner = doh_owner();
    owner.register().expect("open");
    assert!(owner.admit_lease());
    assert_eq!(owner.begin_close(), CloseTransition::BeganClosing);
    assert_eq!(
        owner.commit_pooled_response(&TransportCancellation::new(), 10_000, 1_000),
        Err(UpstreamError::Closed(SideEffectState::Sent))
    );
    owner.lease_done();
    assert_eq!(owner.idle_connections(), 0, "a DoH response that lost the commit gate is never re-pooled");
    owner.release_registration();
    assert_eq!(owner.in_flight_exchanges(), 0, "the failed commit released its registration");
}

#[test]
fn a_pooled_h2_close_waits_for_tracked_children_to_drain() {
    let mut owner = doh_owner();
    owner.register().expect("exchange");
    assert!(owner.admit_lease());
    owner.register().expect("child liveness");
    owner.publish_scope(Some(1));
    assert_eq!(owner.release(doh_key(), 7, 100), None, "an h2 session is retained");
    owner.release_registration();
    assert_eq!(owner.begin_close(), CloseTransition::BeganClosing);
    assert_eq!(owner.complete_close(), CloseCompletion::InFlight, "children are still live");
    let (_, session, _) = owner.take_idle().expect("the retained session");
    assert_eq!(session, 7);
    owner.forget_scope(1);
    owner.release_registration();
    owner.mark_teardown_complete();
    assert_eq!(owner.complete_close(), CloseCompletion::Closed, "close finishes once children drain");
    assert_eq!(owner.registered_scope_count(), 0, "the drained scope is gone");
}

#[test]
fn an_aborted_pooled_h2_exchange_still_drains_before_close_completes() {
    let mut owner = doh_owner();
    owner.register().expect("child liveness");
    assert!(owner.admit_lease());
    owner.publish_scope(Some(1));
    owner.lease_done();
    assert_eq!(owner.registered_scope_count(), 1, "the scope stays registered after the abort");
    assert_eq!(owner.begin_close(), CloseTransition::BeganClosing);
    assert_eq!(owner.complete_close(), CloseCompletion::InFlight);
    assert_eq!(owner.stale_scopes(None), vec![1]);
    owner.forget_scope(1);
    owner.release_registration();
    assert_eq!(owner.complete_close(), CloseCompletion::Closed);
    assert_eq!(owner.registered_scope_count(), 0, "the drained scope is forgotten");
}

#[test]
fn concurrent_pooled_h2_closes_share_one_teardown() {
    let mut owner = doh_owner();
    owner.register().expect("child liveness");
    owner.publish_scope(Some(1));
    assert_eq!(owner.begin_close(), CloseTransition::BeganClosing);
    assert_eq!(owner.begin_close(), CloseTransition::AlreadyClosing, "the second close joins");
    assert_eq!(owner.complete_close(), CloseCompletion::InFlight);
    owner.forget_scope(1);
    owner.release_registration();
    owner.mark_teardown_complete();
    assert_eq!(owner.complete_close(), CloseCompletion::Closed);
    assert_eq!(owner.complete_close(), CloseCompletion::AlreadyClosed);
}

#[test]
fn a_new_attempt_drains_the_stale_attempt_handle_before_replacing_it() {
    let mut owner = doh_owner();
    owner.publish_scope(Some(1));
    let stale = owner.stale_scopes(Some(2));
    assert_eq!(stale, vec![1], "the aborted attempt's handle is drained first");
    for scope in stale {
        owner.forget_scope(scope);
    }
    owner.publish_scope(Some(2));
    assert_eq!(owner.registered_scope_count(), 1);
    assert_eq!(owner.stale_scopes(Some(2)), Vec::<u64>::new());
}

#[test]
fn aborting_during_the_stale_handle_recovery_keeps_the_waiter() {
    let mut owner = doh_owner();
    owner.register().expect("child liveness");
    owner.publish_scope(Some(1));
    let _stale = owner.stale_scopes(None);
    assert_eq!(owner.registered_scope_count(), 1, "an aborted sweep leaves the scope registered");
    assert_eq!(owner.begin_close(), CloseTransition::BeganClosing);
    assert_eq!(owner.complete_close(), CloseCompletion::InFlight, "close waits on the stale scope");
    owner.forget_scope(1);
    owner.release_registration();
    assert_eq!(owner.complete_close(), CloseCompletion::Closed);
}

#[test]
fn aborting_the_close_leader_lets_a_later_close_take_over() {
    let mut owner = doh_owner();
    owner.register().expect("child liveness");
    assert_eq!(owner.begin_close(), CloseTransition::BeganClosing);
    assert_eq!(owner.complete_close(), CloseCompletion::InFlight);
    assert_eq!(owner.begin_close(), CloseTransition::AlreadyClosing, "a later close takes over");
    owner.release_registration();
    assert_eq!(owner.complete_close(), CloseCompletion::Closed);
}

#[test]
fn a_scope_less_new_attempt_still_drains_a_stale_handle() {
    let mut owner = doh_owner();
    owner.publish_scope(Some(1));
    owner.publish_scope(None);
    assert_eq!(owner.stale_scopes(None), vec![1], "a scope-less attempt still sees the stale scope");
    owner.forget_scope(1);
    assert_eq!(owner.registered_scope_count(), 0);
}

#[test]
fn reusing_one_session_does_not_grow_the_scope_registry() {
    let mut owner = doh_owner();
    assert!(owner.admit_lease());
    owner.publish_scope(Some(1));
    assert_eq!(owner.release(doh_key(), 7, 100), None);
    for round in 0..5u64 {
        let (key, session, since) = owner.take_idle().expect("the retained session");
        assert!(doh_session_reusable(&key, &doh_key(), since, 100 + round));
        assert!(owner.admit_lease());
        owner.publish_scope(Some(1));
        assert_eq!(owner.release(key, session, 100 + round), None);
        assert_eq!(owner.registered_scope_count(), 1, "one session means exactly one scope");
    }
}
