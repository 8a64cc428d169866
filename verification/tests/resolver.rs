use upstream_core::addr::{AddressFamily, IpAddress, SocketAddress};
use upstream_core::identity::ServiceIdentity;
use upstream_core::error::Transport;
use upstream_core::control::{ExchangeContext, TransportCancellation};
use upstream_core::error::SideEffectState;
use upstream_core::resolver::bootstrap::{
    bootstrap_step, BootstrapAnswer, BootstrapEvent, BootstrapStep, ReplyAction,
    ResolutionIdSource, RetransmitState, SteppingIdSource,
};
use upstream_core::resolver::destination::{
    resolve_numeric, BootstrapEndpoint, IpLiteral, PublishedTarget, ResolutionTarget,
    ResolvedDestination,
};
use upstream_core::resolver::owner::{
    BootstrapResolver, ResolveStep, ResolverComposition, SingleFlight,
};
use upstream_core::resolver::snapshot::{FamilyCandidate, ResolutionSnapshot, ResolverState};
use upstream_core::resolver::{
    Clock, ConfigVersion, ResolutionMode, ResolutionPolicy, ResolverError, SystemClock,
};

const SECOND: u64 = 1_000;

fn v4(a: u8, b: u8, c: u8, d: u8) -> IpAddress {
    IpAddress::V4(u32::from_be_bytes([a, b, c, d]))
}

fn literal(address: IpAddress, text: &str) -> IpLiteral {
    IpLiteral { address, text: text.to_string() }
}

/// A clock the test advances by hand (milliseconds).
struct SteppingClock {
    now: u64,
}

impl SteppingClock {
    fn new() -> Self {
        Self { now: 5_000_000 }
    }

    fn now(&self) -> u64 {
        self.now
    }

    fn advance(&mut self, seconds: u64) {
        self.now += seconds * SECOND;
    }
}

#[test]
fn stepping_id_source_advances() {
    let mut source = SteppingIdSource::new();
    assert_eq!(source.next_id(), Ok(1));
    assert_eq!(source.next_id(), Ok(2));
    assert_eq!(source.next_id(), Ok(3));
}

#[test]
fn default_policy_clamps_both_ends() {
    let policy = ResolutionPolicy::default();
    assert_eq!(policy.clamp_ttl_secs(1), 300);
    assert_eq!(policy.clamp_ttl_secs(600), 600);
    assert_eq!(policy.clamp_ttl_secs(u32::MAX), 604_800);
}

#[test]
fn zero_and_four_both_select_ipv4() {
    assert_eq!(ConfigVersion::from_u8(0).unwrap().family(), AddressFamily::Ipv4);
    assert_eq!(ConfigVersion::from_u8(4).unwrap().family(), AddressFamily::Ipv4);
    assert_eq!(ConfigVersion::from_u8(6).unwrap().family(), AddressFamily::Ipv6);
}

#[test]
fn literal_publication_never_expires() {
    let mut state = ResolverState::new();
    let now = 1_000;
    let target = ResolutionTarget::new(
        "192.0.2.1",
        Some(literal(v4(192, 0, 2, 1), "192.0.2.1")),
        853,
        AddressFamily::Ipv4,
    )
    .unwrap();
    state.publish(PublishedTarget::new(
        target,
        ResolvedDestination::new_literal(v4(192, 0, 2, 1), AddressFamily::Ipv4),
    ));
    assert!(state.serve_fresh(now + 1_000_000 * SECOND).is_some());
}

#[test]
fn system_clock_is_monotonic_enough_to_order_calls() {
    let clock = SystemClock;
    let first = clock.now();
    let second = clock.now();
    assert!(second >= first);
}

fn bootstrap_target() -> ResolutionTarget {
    ResolutionTarget::new("bootstrap.example.org", None, 853, AddressFamily::Ipv4)
        .expect("valid target")
}

#[test]
fn resolver_state_starts_empty_and_never_serves_a_stale_value() {
    let mut clock = SteppingClock::new();
    let mut state = ResolverState::new();
    assert!(state.published().is_none());

    let now = clock.now();
    let destination = ResolvedDestination::new(v4(192, 0, 2, 1), AddressFamily::Ipv4, 600, now)
        .expect("valid destination");
    state.publish(PublishedTarget::new(bootstrap_target(), destination));

    assert!(state.serve_fresh(now).is_some());
    assert!(state.published().is_some());

    clock.advance(600);
    let expired_at = clock.now();
    assert!(state.serve_fresh(expired_at).is_none());
    assert!(
        state.published().is_some(),
        "the expired value is retained as evidence, not served"
    );
    assert!(state.last_expired().is_some());
}

#[test]
fn a_failed_refresh_never_replaces_a_published_value() {
    let mut clock = SteppingClock::new();
    let mut state = ResolverState::new();
    let target = bootstrap_target();
    let now = clock.now();
    state.publish(PublishedTarget::new(
        target.clone(),
        ResolvedDestination::new(v4(192, 0, 2, 1), AddressFamily::Ipv4, 600, now)
            .expect("valid destination"),
    ));
    let published_before = state.published().expect("published");

    state.record_refresh_failure(ResolverError::BootstrapTimeout);
    let after = state.published().expect("the old value survives");
    assert_eq!(after.address(), published_before.address());
    assert_eq!(
        state.last_error(),
        Some(ResolverError::BootstrapTimeout),
        "the diagnostic is observable"
    );

    clock.advance(10);
    state.publish(PublishedTarget::new(
        target,
        ResolvedDestination::new(v4(192, 0, 2, 2), AddressFamily::Ipv4, 900, clock.now())
            .expect("valid destination"),
    ));
    assert_eq!(state.published().expect("published").address(), v4(192, 0, 2, 2));
}

#[test]
fn resolver_state_never_serves_an_expired_value_as_success() {
    let clock = SteppingClock::new();
    let mut state = ResolverState::new();
    let now = clock.now();
    state.publish(PublishedTarget::new(
        bootstrap_target(),
        ResolvedDestination::new(v4(192, 0, 2, 1), AddressFamily::Ipv4, 300, now)
            .expect("valid destination"),
    ));
    assert!(state.serve_fresh(now + 299 * SECOND).is_some());
    assert!(state.serve_fresh(now + 300 * SECOND).is_none());
    assert!(state.serve_fresh(now + 301 * SECOND).is_none());
}

fn dual_target() -> ResolutionTarget {
    ResolutionTarget::new("dual.example.org", None, 853, AddressFamily::Ipv4).expect("valid target")
}

fn a_candidate(ttl_secs: u32, now: u64) -> FamilyCandidate {
    FamilyCandidate::Address(
        ResolvedDestination::new(v4(192, 0, 2, 10), AddressFamily::Ipv4, ttl_secs, now)
            .expect("valid A"),
    )
}

fn aaaa_candidate(ttl_secs: u32, now: u64) -> FamilyCandidate {
    FamilyCandidate::Address(
        ResolvedDestination::new(
            IpAddress::V6(0x2001_0db8_0000_0000_0000_0000_0000_0010),
            AddressFamily::Ipv6,
            ttl_secs,
            now,
        )
        .expect("valid AAAA"),
    )
}

fn a_failure(error: ResolverError) -> FamilyCandidate {
    FamilyCandidate::Failed(error)
}

fn dual_snapshot(
    target: &ResolutionTarget,
    ipv4: Option<FamilyCandidate>,
    ipv6: Option<FamilyCandidate>,
) -> ResolutionSnapshot {
    ResolutionSnapshot::new(target.clone(), ResolutionMode::PreferIpv4Dual, ipv4, ipv6)
}

#[test]
fn a_carried_forward_candidate_keeps_its_familys_new_diagnostic() {
    let mut clock = SteppingClock::new();
    let mut state = ResolverState::new();
    let target = dual_target();
    let now = clock.now();

    let first = dual_snapshot(&target, Some(a_candidate(300, now)), Some(aaaa_candidate(900, now)));
    let first = state.publish_generation(first, now);
    assert_eq!(first.generation(), 1, "the first publication is generation 1");

    clock.advance(100);
    let second_now = clock.now();
    let second = dual_snapshot(
        &target,
        Some(a_failure(ResolverError::BootstrapRcode(2))),
        Some(aaaa_candidate(900, second_now)),
    );
    let merged = state.publish_generation(second, second_now);

    assert!(
        merged
            .candidate(AddressFamily::Ipv4)
            .is_some_and(|candidate| candidate.destination().is_some()),
        "the still-fresh prior A is carried forward"
    );
    assert_eq!(
        merged.family_error(AddressFamily::Ipv4),
        Some(ResolverError::BootstrapRcode(2)),
        "the carried-forward address must not hide this generation's failure"
    );
    assert_eq!(
        merged.diagnostics(),
        vec![(AddressFamily::Ipv4, ResolverError::BootstrapRcode(2))]
    );
    assert_eq!(
        merged.select(second_now).map(|d| d.family()),
        Some(AddressFamily::Ipv4)
    );
}

#[test]
fn a_generation_succeeds_through_the_merged_snapshot() {
    let mut clock = SteppingClock::new();
    let mut state = ResolverState::new();
    let target = dual_target();
    let now = clock.now();

    let first = dual_snapshot(
        &target,
        Some(a_failure(ResolverError::BootstrapRcode(3))),
        Some(aaaa_candidate(300, now)),
    );
    state.publish_generation(first, now);

    clock.advance(100);
    let second_now = clock.now();
    let second = dual_snapshot(
        &target,
        Some(a_failure(ResolverError::BootstrapRcode(3))),
        Some(a_failure(ResolverError::BootstrapTimeout)),
    );
    let pre_merge_selection = second.selected_target(second_now);
    assert!(
        pre_merge_selection.is_none(),
        "the unmerged snapshot alone has no usable address"
    );

    let merged = state.publish_generation(second, second_now);
    assert!(
        merged.selected_target(second_now).is_some(),
        "the merged snapshot is serviceable via the carried-forward AAAA"
    );
    assert_eq!(
        merged.select(second_now).map(|d| d.family()),
        Some(AddressFamily::Ipv6)
    );
    assert_eq!(merged.diagnostics().len(), 2);
}

#[test]
fn an_expired_prior_candidate_is_never_resurrected_by_a_failed_refresh() {
    let mut clock = SteppingClock::new();
    let mut state = ResolverState::new();
    let target = dual_target();
    let now = clock.now();

    let first = dual_snapshot(&target, Some(a_candidate(300, now)), Some(aaaa_candidate(300, now)));
    state.publish_generation(first, now);

    clock.advance(400);
    let later = clock.now();
    let second = dual_snapshot(
        &target,
        Some(a_failure(ResolverError::BootstrapTimeout)),
        Some(a_failure(ResolverError::BootstrapTimeout)),
    );
    let merged = state.publish_generation(second, later);

    assert!(
        merged.selected_target(later).is_none(),
        "an expired candidate must never be carried forward as fresh"
    );
    assert!(
        merged.committed_target().is_none(),
        "the expired addresses are not retained as candidates at all"
    );
    assert_eq!(
        merged.aggregate_error(),
        ResolverError::BootstrapTimeout,
        "the aggregate failure is reported instead"
    );
}

#[test]
fn publication_assigns_monotonic_generation_metadata() {
    let clock = SteppingClock::new();
    let mut state = ResolverState::new();
    let target = dual_target();
    let now = clock.now();

    assert_eq!(state.generation(), 0, "an empty state has no generation");

    let first = state.publish_generation(
        dual_snapshot(&target, Some(a_candidate(300, now)), Some(aaaa_candidate(300, now))),
        now,
    );
    assert_eq!(first.generation(), 1);
    assert_eq!(state.generation(), 1);

    let second = state.publish_generation(
        dual_snapshot(&target, Some(a_candidate(300, now)), Some(aaaa_candidate(300, now))),
        now,
    );
    assert_eq!(second.generation(), 2, "each publication advances the ordinal");
    assert_eq!(state.generation(), 2);

    assert_eq!(first.generation(), 1);
    assert_eq!(
        state.snapshot().expect("published").generation(),
        2,
        "the published snapshot carries the newest ordinal"
    );
    assert_ne!(
        first.generation(),
        state.generation(),
        "a superseded generation is distinguishable from the current one"
    );
}

#[test]
fn a_fresh_sibling_does_not_mask_an_expired_preferred_family() {
    let clock = SteppingClock::new();
    let mut state = ResolverState::new();
    let target = dual_target();
    let now = clock.now();

    state.publish_generation(
        dual_snapshot(&target, Some(a_candidate(300, now)), Some(aaaa_candidate(900, now))),
        now,
    );

    let early = state.serve_fresh(now + 100 * SECOND).expect("fresh A");
    assert_eq!(early.family(), AddressFamily::Ipv4);

    assert!(
        state.serve_fresh(now + 400 * SECOND).is_none(),
        "an expired preferred family must make the fast path miss"
    );
    let snapshot = state.snapshot().expect("still published");
    assert!(
        snapshot.select(now + 400 * SECOND).is_some(),
        "the fresh AAAA remains available for selection"
    );
    assert!(
        state.last_expired().is_none(),
        "a partially fresh generation is not treated as expired"
    );

    assert!(state.serve_fresh(now + 1000 * SECOND).is_none());
    assert!(state.last_expired().is_some());
}

#[test]
fn a_later_generation_can_refresh_a_and_still_serve_the_fresh_aaaa() {
    let mut clock = SteppingClock::new();
    let mut state = ResolverState::new();
    let target = dual_target();
    let now = clock.now();

    state.publish_generation(
        dual_snapshot(&target, Some(a_candidate(300, now)), Some(aaaa_candidate(900, now))),
        now,
    );

    clock.advance(400);
    let later = clock.now();
    let refresh = dual_snapshot(
        &target,
        Some(a_failure(ResolverError::BootstrapRcode(2))),
        Some(aaaa_candidate(900, later)),
    );
    let merged = state.publish_generation(refresh, later);

    assert_eq!(
        merged.select(later).map(|d| d.family()),
        Some(AddressFamily::Ipv6),
        "the expired A is not resurrected; the fresh AAAA serves"
    );
    assert_eq!(
        merged.family_error(AddressFamily::Ipv4),
        Some(ResolverError::BootstrapRcode(2))
    );
}

fn loopback_bootstrap() -> BootstrapEndpoint {
    BootstrapEndpoint::new(Some(v4(127, 0, 0, 1)), 53).expect("bootstrap")
}

#[test]
fn numeric_target_composes_without_dns() {
    let resolver = BootstrapResolver::new(
        ResolutionTarget::new(
            "192.0.2.5",
            Some(literal(v4(192, 0, 2, 5), "192.0.2.5")),
            853,
            AddressFamily::Ipv4,
        )
        .expect("target"),
        loopback_bootstrap(),
        ResolutionPolicy::default(),
    );
    let resolver = match resolver {
        Ok(resolver) => resolver,
        Err(error) => {
            assert_eq!(error, ResolverError::UnpredictableIdsUnavailable);
            return;
        }
    };
    let published = resolve_numeric(literal(v4(192, 0, 2, 5), "192.0.2.5"), 853).expect("literal");
    assert_eq!(resolver.policy().min_ttl(), 300);
    let endpoint = ResolverComposition::endpoint(&published, Transport::Udp).expect("endpoint");
    assert_eq!(endpoint.address(), SocketAddress { ip: v4(192, 0, 2, 5), port: 853 });
}

#[test]
fn bootstrap_family_must_match_the_target_family() {
    let error = BootstrapResolver::with_deterministic_ids_for_tests(
        ResolutionTarget::new("bootstrap.example.org", None, 853, AddressFamily::Ipv6)
            .expect("target"),
        loopback_bootstrap(),
        ResolutionPolicy::default(),
    )
    .err()
    .expect("family mismatch");
    assert_eq!(error, ResolverError::BootstrapFamilyMismatch);
}

fn published_literal() -> PublishedTarget {
    let target = ResolutionTarget::new(
        "192.0.2.1",
        Some(literal(v4(192, 0, 2, 1), "192.0.2.1")),
        853,
        AddressFamily::Ipv4,
    )
    .expect("target");
    PublishedTarget::new(
        target,
        ResolvedDestination::new_literal(v4(192, 0, 2, 1), AddressFamily::Ipv4),
    )
}

#[test]
fn a_waiter_attached_to_a_finished_generation_cannot_adopt_the_next_one() {
    let mut flight = SingleFlight::new();

    let first = flight.try_lead().expect("leader of generation 1");
    flight.complete(first, Err(ResolverError::BootstrapTimeout));

    let second = flight.try_lead().expect("leader of generation 2");
    assert_ne!(first, second, "generation 2 has its own token");

    assert_eq!(
        flight.wait_status(first),
        Some(Err(ResolverError::AlreadyResolving)),
        "a superseded generation is never adopted by its old waiter"
    );

    let published = published_literal();
    flight.complete(second, Ok(published.clone()));
    assert_eq!(flight.wait_status(second), Some(Ok(published)));
}

#[test]
fn a_waiter_attached_to_a_finished_generation_receives_its_result() {
    let mut flight = SingleFlight::new();
    let token = flight.try_lead().expect("leader");
    flight.complete(token, Err(ResolverError::BootstrapTimeout));
    assert_eq!(
        flight.wait_status(token),
        Some(Err(ResolverError::BootstrapTimeout)),
        "the waiter sees its own generation's typed failure"
    );
}

#[test]
fn a_superseded_leader_cannot_complete_a_newer_generation() {
    let mut flight = SingleFlight::new();
    let first = flight.try_lead().expect("generation 1");
    flight.complete(first, Err(ResolverError::BootstrapTimeout));
    let second = flight.try_lead().expect("generation 2");

    flight.complete(first, Err(ResolverError::Cancelled));
    assert_eq!(flight.current_generation(), Some(second));
    assert_eq!(flight.wait_status(second), None, "generation 2 is still running");
}

#[test]
fn the_default_construction_uses_unpredictable_ids() {
    let target = || {
        ResolutionTarget::new("bootstrap.example.org", None, 53, AddressFamily::Ipv4).expect("t")
    };
    match BootstrapResolver::new(target(), loopback_bootstrap(), ResolutionPolicy::default()) {
        Ok(resolver) => assert!(resolver.uses_unpredictable_ids()),
        Err(error) => assert_eq!(error, ResolverError::UnpredictableIdsUnavailable),
    }
    let deterministic = BootstrapResolver::with_deterministic_ids_for_tests(
        target(),
        loopback_bootstrap(),
        ResolutionPolicy::default(),
    )
    .expect("resolver");
    assert!(!deterministic.uses_unpredictable_ids());
}

#[test]
fn config_version_family_is_reused_by_the_resolver_model() {
    assert_eq!(ConfigVersion::from_u8(4).unwrap().family(), AddressFamily::Ipv4);
}

#[test]
fn unsupported_config_versions_are_refused() {
    assert_eq!(
        ConfigVersion::from_u8(5),
        Err(ResolverError::UnsupportedConfigVersion(5))
    );
    assert_eq!(ConfigVersion::from_optional(None), Ok(ConfigVersion::Ipv4));
    assert!(ConfigVersion::Zero.mode().is_dual());
    assert!(!ConfigVersion::Ipv6.mode().is_dual());
}

#[test]
fn policy_bounds_are_validated() {
    assert_eq!(ResolutionPolicy::new(0, 10), Err(ResolverError::InvalidPolicy));
    assert_eq!(ResolutionPolicy::new(20, 10), Err(ResolverError::InvalidPolicy));
    let policy = ResolutionPolicy::new(10, 20).expect("usable bounds");
    assert_eq!(policy.min_ttl(), 10);
    assert_eq!(policy.max_ttl(), 20);
    assert_eq!(policy.clamp_ttl_secs(15), 15);
    assert_eq!(policy.retransmit_interval(), 1_000);
}

#[test]
fn hostnames_are_normalized_and_validated() {
    assert_eq!(
        upstream_core::resolver::hostname::normalize_hostname("DNS.Example.ORG.").as_deref(),
        Ok("dns.example.org")
    );
    assert_eq!(
        upstream_core::resolver::hostname::normalize_hostname("-bad.example"),
        Err(ResolverError::InvalidHostname)
    );
    assert_eq!(
        upstream_core::resolver::hostname::normalize_hostname(""),
        Err(ResolverError::InvalidHostname)
    );
    let long_label = "a".repeat(64);
    assert_eq!(
        upstream_core::resolver::hostname::normalize_hostname(&long_label),
        Err(ResolverError::InvalidHostname)
    );
}

#[test]
fn a_zero_ttl_and_a_wrong_family_are_refused() {
    assert_eq!(
        ResolvedDestination::new(v4(192, 0, 2, 1), AddressFamily::Ipv4, 0, 0),
        Err(ResolverError::InvalidTtl)
    );
    assert_eq!(
        ResolvedDestination::new(v4(192, 0, 2, 1), AddressFamily::Ipv6, 60, 0),
        Err(ResolverError::FamilyMismatch)
    );
    let destination =
        ResolvedDestination::new(v4(192, 0, 2, 1), AddressFamily::Ipv4, 60, 1_000).unwrap();
    assert_eq!(destination.expiry(), Some(61_000));
    assert!(!destination.is_expired(60_999));
    assert!(destination.is_expired(61_000));
}

fn numeric_resolver() -> BootstrapResolver<SteppingIdSource> {
    BootstrapResolver::with_deterministic_ids_for_tests(
        ResolutionTarget::new(
            "192.0.2.5",
            Some(literal(v4(192, 0, 2, 5), "192.0.2.5")),
            853,
            AddressFamily::Ipv4,
        )
        .expect("target"),
        loopback_bootstrap(),
        ResolutionPolicy::default(),
    )
    .expect("resolver")
}

fn named_resolver() -> BootstrapResolver<SteppingIdSource> {
    BootstrapResolver::with_deterministic_ids_for_tests(
        bootstrap_target(),
        loopback_bootstrap(),
        ResolutionPolicy::default(),
    )
    .expect("resolver")
}

#[test]
fn resolving_a_numeric_target_publishes_its_literal_without_a_bootstrap_exchange() {
    let mut resolver = numeric_resolver();
    let context = ExchangeContext::new(10_000, TransportCancellation::new());
    let expected = resolve_numeric(literal(v4(192, 0, 2, 5), "192.0.2.5"), 853).expect("literal");
    match resolver.start_resolution(&context, 1_000) {
        ResolveStep::Finished(Ok(published)) => assert_eq!(published, expected),
        _ => panic!("a numeric target finishes at once"),
    }
    assert_eq!(resolver.state().published(), Some(expected));
    assert_eq!(resolver.state().generation(), 1);
}

#[test]
fn a_closed_resolver_refuses_and_leaves_its_state() {
    let mut resolver = numeric_resolver();
    resolver.begin_close();
    let context = ExchangeContext::new(10_000, TransportCancellation::new());
    assert!(matches!(
        resolver.start_resolution(&context, 1_000),
        ResolveStep::Finished(Err(ResolverError::Closed))
    ));
    assert_eq!(resolver.state().generation(), 0);
    assert!(resolver.state().published().is_none());
}

#[test]
fn a_failed_control_is_returned_unchanged_and_a_cancelled_caller_is_refused() {
    let mut resolver = named_resolver();
    assert!(matches!(
        resolver.resolve_after_control(Err(ResolverError::BootstrapTimeout), Ok(()), 1_000),
        ResolveStep::Finished(Err(ResolverError::BootstrapTimeout))
    ));
    let token = TransportCancellation::new();
    token.cancel();
    let context = ExchangeContext::new(10_000, token);
    assert!(matches!(
        resolver.start_resolution(&context, 1_000),
        ResolveStep::Finished(Err(ResolverError::Cancelled))
    ));
    assert_eq!(resolver.state().generation(), 0);
}

#[test]
fn a_named_target_leads_then_waits_then_publishes_the_answer() {
    let mut resolver = named_resolver();
    let leader = match resolver.resolve_after_control(Ok(()), Ok(()), 1_000) {
        ResolveStep::Lead(token) => token,
        _ => panic!("the first caller leads"),
    };
    assert!(matches!(
        resolver.resolve_after_control(Ok(()), Ok(()), 1_000),
        ResolveStep::Wait(token) if token == leader
    ));
    let answer = BootstrapAnswer { address: v4(192, 0, 2, 7), ttl_secs: 600 };
    let published = resolver
        .complete_generation(leader, Ok(answer), Ok(()), Ok(()), 1_000)
        .expect("published");
    assert_eq!(published.destination().address(), v4(192, 0, 2, 7));
    assert_eq!(published.destination().ttl(), 600);
    assert_eq!(published.destination().expiry(), Some(1_000 + 600 * SECOND));
    assert_eq!(resolver.state().generation(), 1);
    assert_eq!(resolver.wait_status(leader), Some(Ok(published.clone())));
    assert!(matches!(
        resolver.resolve_after_control(Ok(()), Ok(()), 2_000),
        ResolveStep::Finished(Ok(p)) if p == published
    ));
}

#[test]
fn a_refused_commit_records_the_failure_and_publishes_nothing() {
    let mut resolver = named_resolver();
    let leader = match resolver.resolve_after_control(Ok(()), Ok(()), 1_000) {
        ResolveStep::Lead(token) => token,
        _ => panic!("the first caller leads"),
    };
    let answer = BootstrapAnswer { address: v4(192, 0, 2, 7), ttl_secs: 600 };
    assert_eq!(
        resolver.complete_generation(leader, Ok(answer), Ok(()), Err(ResolverError::Cancelled), 1_000),
        Err(ResolverError::Cancelled)
    );
    assert_eq!(resolver.state().generation(), 0);
    assert_eq!(resolver.state().last_error(), Some(ResolverError::Cancelled));
    let wrong = BootstrapAnswer { address: IpAddress::V6(1), ttl_secs: 600 };
    let leader = match resolver.resolve_after_control(Ok(()), Ok(()), 1_000) {
        ResolveStep::Lead(token) => token,
        _ => panic!("a new generation is led"),
    };
    assert_eq!(
        resolver.complete_generation(leader, Ok(wrong), Ok(()), Ok(()), 1_000),
        Err(ResolverError::FamilyMismatch)
    );
}

#[test]
fn the_deterministic_resolver_draws_stepping_ids() {
    let mut resolver = named_resolver();
    assert!(!resolver.uses_unpredictable_ids());
    assert_eq!(resolver.next_query_id(), Ok(1));
    assert_eq!(resolver.next_query_id(), Ok(2));
}

#[test]
fn policies_from_durations_refuse_sub_second_bounds() {
    assert!(ResolutionPolicy::from_duration_parts(300, 0, 600, 0).is_ok());
    assert_eq!(
        ResolutionPolicy::from_duration_parts(300, 1, 600, 0).err(),
        Some(ResolverError::InvalidPolicy)
    );
    assert_eq!(
        ResolutionPolicy::from_duration_parts(0, 500_000_000, 600, 0).err(),
        Some(ResolverError::InvalidPolicy)
    );
}

#[test]
fn the_bootstrap_loop_sends_once_then_retransmits_at_the_interval() {
    let start = RetransmitState::start(1_000);
    assert!(start.send_due(1_000));
    assert!(!start.listens());
    assert_eq!(start.side_effect(), SideEffectState::NotSent);
    let sent = match bootstrap_step(start, BootstrapEvent::Transmitted(Some(40)), 40, 1_000, 1_000) {
        BootstrapStep::Continue(state) => state,
        other => panic!("unexpected {:?}", other),
    };
    assert_eq!(sent, RetransmitState { sent: true, next_send: 2_000 });
    assert_eq!(sent.side_effect(), SideEffectState::Sent);
    assert!(!sent.send_due(1_999));
    assert!(sent.send_due(2_000));
    assert_eq!(
        bootstrap_step(sent, BootstrapEvent::Datagram(ReplyAction::Ignore), 40, 1_500, 1_000),
        BootstrapStep::Continue(sent)
    );
    assert_eq!(
        bootstrap_step(sent, BootstrapEvent::Transmitted(Some(39)), 40, 2_000, 1_000),
        BootstrapStep::Done(Err(ResolverError::BootstrapSend))
    );
    assert_eq!(
        bootstrap_step(sent, BootstrapEvent::ReceiveFailed, 40, 2_000, 1_000),
        BootstrapStep::Done(Err(ResolverError::BootstrapReceive))
    );
    let answer = BootstrapAnswer { address: v4(192, 0, 2, 7), ttl_secs: 60 };
    assert_eq!(
        bootstrap_step(sent, BootstrapEvent::Datagram(ReplyAction::Accept(answer)), 40, 1_500, 1_000),
        BootstrapStep::Done(Ok(answer))
    );
}

#[test]
fn dot_composition_keeps_the_service_identity() {
    let published = resolve_numeric(literal(v4(192, 0, 2, 5), "192.0.2.5"), 853).expect("literal");
    let identity = ServiceIdentity::new("bootstrap.example.org", None).expect("identity");
    let dot = ResolverComposition::dot_endpoint(&published, &identity).expect("dot");
    assert_eq!(dot.dial(), SocketAddress { ip: v4(192, 0, 2, 5), port: 853 });
    assert_eq!(dot.identity().as_str(), "bootstrap.example.org");
}
