//! The QUIC shared-connection model: validated reuse keys, the entry
//! lifecycle vocabulary, the per-phase H3 cancellation decisions, the
//! connection-level versus stream-level error classification, and the owner
//! map that admits, publishes, deactivates, and tears down entries.

use vstd::prelude::*;

use crate::addr::SocketAddress;
use crate::error::{SideEffectState, UpstreamError};
use crate::identity::{ServiceIdentity, TrustPolicy};
use crate::quic::{
    is_local_control_spec, DoqEndpoint, QuinnConnectionError, QuinnReadError,
    QuinnReadToEndError, QuinnWriteError, DOQ_ALPN, H3_ALPN,
};

pub mod classify;
pub mod doq;
pub mod owner;

verus! {

/// The `h3` request-stream error code a safe active send-side cancellation
/// uses (RFC 9114 §7.2.3 `H3_REQUEST_CANCELLED`).
pub const H3_REQUEST_CANCELLED: u64 = 0x010c;

/// Maximum concurrent stream permits one QUIC connection entry hands out.
pub const MAX_STREAMS_PER_CONNECTION: usize = 32;

/// Maximum live QUIC connection entries one owner may hold across all keys;
/// `Initializing`, `Closing`, and `Active` entries all count until terminal.
pub const MAX_CONNECTIONS_PER_OWNER: usize = 8;

/// Lazy idle expiry (milliseconds) for an unused, healthy entry with no
/// outstanding permit. No timer exists: expiry is evaluated on admission and
/// maintenance.
pub const QUIC_IDLE_TIMEOUT: u64 = 30000;

/// The closed QUIC protocol/ALPN discriminator.
#[derive(Clone, Copy, Debug, PartialEq, Eq, Structural)]
pub enum QuicProtocol {
    /// DNS-over-QUIC (RFC 9250).
    Doq,
    /// DNS-over-HTTP/3 (RFC 9114).
    Doh3,
}

impl QuicProtocol {
    /// The exact ALPN this protocol offers, and the only one.
    pub fn alpn(self) -> (r: &'static str)
        ensures
            self == QuicProtocol::Doq ==> r == DOQ_ALPN,
            self == QuicProtocol::Doh3 ==> r == H3_ALPN,
    {
        match self {
            QuicProtocol::Doq => DOQ_ALPN,
            QuicProtocol::Doh3 => H3_ALPN,
        }
    }
}

/// The TLS trust mode of a reuse key.
#[derive(Clone, Copy, Debug, PartialEq, Eq, Structural)]
pub enum QuicTlsMode {
    /// Certificate chain, name, and validity verification against explicit
    /// roots.
    Verified,
    /// The explicit opt-in policy that skips verification.
    InsecureSkipVerify,
}

pub open spec fn tls_mode_of(policy: TrustPolicy) -> QuicTlsMode {
    if policy.insecure_spec() {
        QuicTlsMode::InsecureSkipVerify
    } else {
        QuicTlsMode::Verified
    }
}

impl QuicTlsMode {
    /// The mode of a trust policy.
    pub fn of(policy: &TrustPolicy) -> (r: Self)
        ensures
            r == tls_mode_of(*policy),
    {
        if policy.is_insecure_skip_verify() {
            QuicTlsMode::InsecureSkipVerify
        } else {
            QuicTlsMode::Verified
        }
    }
}

/// Every isolation dimension of a reuse key, as plain values.
pub struct QuicKeyView {
    pub dial: SocketAddress,
    pub protocol: QuicProtocol,
    pub identity: Seq<char>,
    pub tls_mode: QuicTlsMode,
    pub roots_revision: u64,
    pub doh3_authority: Option<Seq<char>>,
}

/// A validated QUIC connection-reuse key. Two keys are equal only when every
/// isolation dimension agrees: the numeric dial address and port, the closed
/// protocol, the canonical service identity, the TLS mode with the opaque
/// roots revision, and the DoH3 HTTP authority (absent for DoQ).
#[derive(Debug, PartialEq, Eq)]
pub struct QuicReuseKey {
    dial: SocketAddress,
    protocol: QuicProtocol,
    identity: String,
    tls_mode: QuicTlsMode,
    roots_revision: u64,
    doh3_authority: Option<String>,
}

pub open spec fn opt_string_view(o: Option<String>) -> Option<Seq<char>> {
    match o {
        Some(s) => Some(s@),
        None => None,
    }
}

impl View for QuicReuseKey {
    type V = QuicKeyView;

    closed spec fn view(&self) -> QuicKeyView {
        QuicKeyView {
            dial: self.dial,
            protocol: self.protocol,
            identity: self.identity@,
            tls_mode: self.tls_mode,
            roots_revision: self.roots_revision,
            doh3_authority: opt_string_view(self.doh3_authority),
        }
    }
}

fn clone_opt_string(o: &Option<String>) -> (r: Option<String>)
    ensures
        opt_string_view(r) == opt_string_view(*o),
{
    match o {
        Some(s) => Some(s.clone()),
        None => None,
    }
}

fn same_opt_string(a: &Option<String>, b: &Option<String>) -> (r: bool)
    ensures
        r == (opt_string_view(*a) == opt_string_view(*b)),
{
    match (a, b) {
        (Some(x), Some(y)) => *x == *y,
        (None, None) => true,
        _ => false,
    }
}

impl Clone for QuicReuseKey {
    fn clone(&self) -> (r: Self)
        ensures
            r@ == self@,
    {
        QuicReuseKey {
            dial: self.dial,
            protocol: self.protocol,
            identity: self.identity.clone(),
            tls_mode: self.tls_mode,
            roots_revision: self.roots_revision,
            doh3_authority: clone_opt_string(&self.doh3_authority),
        }
    }
}

impl QuicReuseKey {
    /// The DoQ reuse key for a validated endpoint and trust policy.
    pub fn from_doq(endpoint: &DoqEndpoint, policy: &TrustPolicy) -> (r: Self)
        ensures
            r@ == (QuicKeyView {
                dial: endpoint.dial_spec(),
                protocol: QuicProtocol::Doq,
                identity: endpoint.identity_spec(),
                tls_mode: tls_mode_of(*policy),
                roots_revision: policy.revision_spec(),
                doh3_authority: None,
            }),
    {
        QuicReuseKey {
            dial: endpoint.dial(),
            protocol: QuicProtocol::Doq,
            identity: endpoint.identity().as_str().to_owned(),
            tls_mode: QuicTlsMode::of(policy),
            roots_revision: policy.roots_revision(),
            doh3_authority: None,
        }
    }

    /// The DoH3 reuse key for a validated DoH endpoint (numeric dial, service
    /// identity, and origin authority) and trust policy. The authority is part
    /// of the key: a connection authenticated for one origin never serves a
    /// different one.
    pub fn from_doh3(
        dial: SocketAddress,
        identity: &ServiceIdentity,
        authority: &str,
        policy: &TrustPolicy,
    ) -> (r: Self)
        ensures
            r@ == (QuicKeyView {
                dial: dial,
                protocol: QuicProtocol::Doh3,
                identity: identity.text_spec(),
                tls_mode: tls_mode_of(*policy),
                roots_revision: policy.revision_spec(),
                doh3_authority: Some(authority@),
            }),
    {
        QuicReuseKey {
            dial,
            protocol: QuicProtocol::Doh3,
            identity: identity.as_str().to_owned(),
            tls_mode: QuicTlsMode::of(policy),
            roots_revision: policy.roots_revision(),
            doh3_authority: Some(authority.to_owned()),
        }
    }

    /// The numeric destination this key opens exactly one connection to.
    pub fn dial(&self) -> (r: SocketAddress)
        ensures
            r == self@.dial,
    {
        self.dial
    }

    /// The closed protocol/ALPN discriminator.
    pub fn protocol(&self) -> (r: QuicProtocol)
        ensures
            r == self@.protocol,
    {
        self.protocol
    }

    /// The canonical service identity text.
    pub fn identity(&self) -> (r: &str)
        ensures
            r@ == self@.identity,
    {
        self.identity.as_str()
    }

    /// The TLS trust mode.
    pub fn tls_mode(&self) -> (r: QuicTlsMode)
        ensures
            r == self@.tls_mode,
    {
        self.tls_mode
    }

    /// The opaque roots revision identifying the exact trust configuration.
    pub fn roots_revision(&self) -> (r: u64)
        ensures
            r == self@.roots_revision,
    {
        self.roots_revision
    }

    /// The validated DoH3 HTTP authority, absent for DoQ.
    pub fn doh3_authority(&self) -> (r: Option<&str>)
        ensures
            match r {
                Some(a) => self@.doh3_authority == Some(a@),
                None => self@.doh3_authority is None,
            },
    {
        match &self.doh3_authority {
            Some(a) => Some(a.as_str()),
            None => None,
        }
    }

    /// Whether two keys agree on every isolation dimension.
    pub fn same_key(&self, other: &Self) -> (r: bool)
        ensures
            r == (self@ == other@),
    {
        self.dial == other.dial && self.protocol == other.protocol && self.identity
            == other.identity && self.tls_mode == other.tls_mode && self.roots_revision
            == other.roots_revision && same_opt_string(&self.doh3_authority, &other.doh3_authority)
    }
}

/// The stored phase of one connection entry. `Drained` and `Failed` are
/// terminal outcomes, not stored phases: terminal is the only removal point.
#[derive(Clone, Copy, Debug, PartialEq, Eq, Structural)]
pub enum EntryPhase {
    /// Reserved placeholder: one key+generation, one initializer, no leases.
    Initializing,
    /// Published and leasable; reachable only from `Initializing`.
    Active,
    /// Unleasable but still in the map and discoverable until terminal.
    Closing,
}

/// The terminal outcome of one entry generation.
#[derive(Clone, Copy, Debug, PartialEq, Eq, Structural)]
pub enum EntryTerminal {
    /// The acquired transport was closed by the supervised teardown.
    Drained,
    /// Nothing was left to drain.
    Failed,
}

/// The leaseability health of an entry.
#[derive(Clone, Copy, Debug, PartialEq, Eq, Structural)]
pub enum EntryHealth {
    Healthy,
    Dead,
}

/// The four phases of one H3 request stream at which a local control decision
/// can win.
#[derive(Clone, Copy, Debug, PartialEq, Eq, Structural)]
pub enum H3RequestPhase {
    /// No request byte has been written.
    BeforeSend,
    /// The request side reached STREAM FIN.
    AfterRequestFin,
    /// The response head is being read.
    ResponseHead,
    /// The response body is being read.
    BodyRead,
}

/// The safe local cancellation action for one H3 request phase.
#[derive(Clone, Copy, Debug, PartialEq, Eq, Structural)]
pub enum H3CancellationAction {
    /// Abort the send side with `H3_REQUEST_CANCELLED`, then drop the stream.
    StopSendSide,
    /// Return the unchanged typed control error and drop the stream.
    DropOnly,
    /// The receive-side stop that panics once an aborted read has taken the
    /// inner stream. Never selected; named so the model can forbid it.
    StopRecvSide,
}

/// The frozen decision for one H3 request phase.
#[derive(Clone, Copy, Debug, PartialEq, Eq, Structural)]
pub struct H3CancellationDecision {
    phase: H3RequestPhase,
    action: H3CancellationAction,
    recv_stream_may_be_in_flight: bool,
}

impl H3CancellationDecision {
    pub closed spec fn phase_spec(self) -> H3RequestPhase {
        self.phase
    }

    pub closed spec fn action_spec(self) -> H3CancellationAction {
        self.action
    }

    pub closed spec fn in_flight_spec(self) -> bool {
        self.recv_stream_may_be_in_flight
    }

    /// The phase this decision was made for.
    pub fn phase(self) -> (r: H3RequestPhase)
        ensures
            r == self.phase_spec(),
    {
        self.phase
    }

    /// The safe action for this phase.
    pub fn action(self) -> (r: H3CancellationAction)
        ensures
            r == self.action_spec(),
    {
        self.action
    }

    /// Whether a read future may already hold the inner receive stream, in
    /// which case an explicit receive-side stop is the panic path.
    pub fn recv_stream_may_be_in_flight(self) -> (r: bool)
        ensures
            r == self.in_flight_spec(),
    {
        self.recv_stream_may_be_in_flight
    }

    /// Whether this decision selects the pinned receive-side stop.
    pub fn selects_pinned_recv_stop(self) -> (r: bool)
        ensures
            r == (self.action_spec() == H3CancellationAction::StopRecvSide),
    {
        match self.action {
            H3CancellationAction::StopRecvSide => true,
            _ => false,
        }
    }
}

/// The frozen decision for each phase.
pub closed spec fn h3_decision_spec(phase: H3RequestPhase) -> H3CancellationDecision {
    match phase {
        H3RequestPhase::BeforeSend => H3CancellationDecision {
            phase,
            action: H3CancellationAction::StopSendSide,
            recv_stream_may_be_in_flight: false,
        },
        _ => H3CancellationDecision {
            phase,
            action: H3CancellationAction::DropOnly,
            recv_stream_may_be_in_flight: true,
        },
    }
}

/// The per-phase local cancellation decision for one H3 request stream: only
/// the phase before any request byte may stop the send side; every later phase
/// is drop-only, because a read future may already hold the receive stream.
pub fn h3_cancellation_decision(phase: H3RequestPhase) -> (r: H3CancellationDecision)
    ensures
        r == h3_decision_spec(phase),
        r.phase_spec() == phase,
        phase == H3RequestPhase::BeforeSend ==> r.action_spec()
            == H3CancellationAction::StopSendSide && !r.in_flight_spec(),
        phase != H3RequestPhase::BeforeSend ==> r.action_spec() == H3CancellationAction::DropOnly
            && r.in_flight_spec(),
{
    match phase {
        H3RequestPhase::BeforeSend => H3CancellationDecision {
            phase,
            action: H3CancellationAction::StopSendSide,
            recv_stream_may_be_in_flight: false,
        },
        _ => H3CancellationDecision {
            phase,
            action: H3CancellationAction::DropOnly,
            recv_stream_may_be_in_flight: true,
        },
    }
}

/// No phase's decision selects the pinned receive-side stop, and a receive
/// stream that may be held by an in-flight read is never stopped actively.
pub proof fn law_no_phase_selects_the_pinned_recv_stop(phase: H3RequestPhase)
    ensures
        h3_decision_spec(phase).action_spec() != H3CancellationAction::StopRecvSide,
        h3_decision_spec(phase).in_flight_spec() ==> h3_decision_spec(phase).action_spec()
            == H3CancellationAction::DropOnly,
{
}

/// The logical effect of one local request-stream cancellation.
#[derive(Clone, Copy, Debug, PartialEq, Eq, Structural)]
pub struct H3CancellationEffect {
    /// The shared entry's phase afterwards: always `Active`.
    pub entry_phase_after: EntryPhase,
    /// Whether the shared connection is still healthy afterwards.
    pub connection_healthy_after: bool,
    /// Whether the entry can still be leased for a later independent query.
    pub entry_leasable_after: bool,
}

/// The effect of a local request-stream cancellation on the shared entry,
/// independent of the phase: the phase decides how the stream is torn down,
/// never whether the shared entry survives.
pub fn h3_cancellation_effect(phase: H3RequestPhase) -> (r: H3CancellationEffect)
    ensures
        r == (H3CancellationEffect {
            entry_phase_after: EntryPhase::Active,
            connection_healthy_after: true,
            entry_leasable_after: true,
        }),
{
    H3CancellationEffect {
        entry_phase_after: EntryPhase::Active,
        connection_healthy_after: true,
        entry_leasable_after: true,
    }
}

/// The authoritative classification of one pinned QUIC/H3 error.
#[derive(Clone, Copy, Debug, PartialEq, Eq, Structural)]
pub enum QuicErrorClass {
    /// The physical connection is proven terminal: the exact key+generation
    /// is deactivated and removed only at terminal.
    EntryTerminal,
    /// Only this request stream failed; a healthy entry stays reusable.
    StreamLocal,
}

/// The shape of one request-stream failure.
#[derive(Clone, Copy, Debug, PartialEq, Eq, Structural)]
pub enum H3ErrorShape {
    StreamScoped,
    BackendConnection,
    DriverConnection,
    PeerClosing,
    Unobserved,
}

/// What a call site that owns a real H3 driver observed for one failed
/// request: the backend/operation provenance and the driver's close outcome.
#[derive(Clone, Copy, Debug, PartialEq, Eq, Structural)]
pub enum H3ErrorObservation {
    /// A known request-stream outcome with no connection evidence.
    StreamScoped,
    /// A backend connection error crossed into a stream operation.
    BackendConnection,
    /// A request was rejected by the peer's GOAWAY shutdown check.
    PeerClosing,
    /// The driver's `poll_close` reported a connection error.
    DriverConnection,
    /// An opaque non-exhaustive remainder with no connection observation.
    Unobserved,
}

/// Classifies one request-stream failure by its explicit observation: backend
/// connection errors, a peer GOAWAY, and a driver connection error are
/// entry-terminal; everything else is stream-local.
pub fn classify_h3_request_outcome(observation: H3ErrorObservation) -> (r: QuicErrorClass)
    ensures
        r == (match observation {
            H3ErrorObservation::BackendConnection => QuicErrorClass::EntryTerminal,
            H3ErrorObservation::PeerClosing => QuicErrorClass::EntryTerminal,
            H3ErrorObservation::DriverConnection => QuicErrorClass::EntryTerminal,
            H3ErrorObservation::StreamScoped => QuicErrorClass::StreamLocal,
            H3ErrorObservation::Unobserved => QuicErrorClass::StreamLocal,
        }),
{
    match observation {
        H3ErrorObservation::BackendConnection
        | H3ErrorObservation::PeerClosing
        | H3ErrorObservation::DriverConnection => QuicErrorClass::EntryTerminal,
        H3ErrorObservation::StreamScoped | H3ErrorObservation::Unobserved => {
            QuicErrorClass::StreamLocal
        },
    }
}

/// Names the shape of one request-stream failure for its observation.
pub fn h3_error_shape_for_observation(observation: H3ErrorObservation) -> (r: H3ErrorShape)
    ensures
        r == (match observation {
            H3ErrorObservation::StreamScoped => H3ErrorShape::StreamScoped,
            H3ErrorObservation::BackendConnection => H3ErrorShape::BackendConnection,
            H3ErrorObservation::PeerClosing => H3ErrorShape::PeerClosing,
            H3ErrorObservation::DriverConnection => H3ErrorShape::DriverConnection,
            H3ErrorObservation::Unobserved => H3ErrorShape::Unobserved,
        }),
{
    match observation {
        H3ErrorObservation::StreamScoped => H3ErrorShape::StreamScoped,
        H3ErrorObservation::BackendConnection => H3ErrorShape::BackendConnection,
        H3ErrorObservation::PeerClosing => H3ErrorShape::PeerClosing,
        H3ErrorObservation::DriverConnection => H3ErrorShape::DriverConnection,
        H3ErrorObservation::Unobserved => H3ErrorShape::Unobserved,
    }
}

/// The recorded effect of applying one class to the owner.
#[derive(Clone, Copy, Debug, PartialEq, Eq, Structural)]
pub enum QuicErrorOutcome {
    /// Stream-local: the entry is unchanged, healthy, and reusable.
    EntryUnchanged,
    /// Entry-terminal: the exact key+generation is now `Closing`.
    EntryDeactivated,
    /// No entry with this exact key+generation.
    NoMatchingEntry,
}

/// The exchange phase in which a local error was observed.
#[derive(Clone, Copy, Debug, PartialEq, Eq, Structural)]
pub enum QuicExchangePhase {
    /// Before any request byte or stream exists.
    PreSend,
    /// Connection handshake / single-flight initialization.
    Connect,
    /// Stream open or request write has begun and its completion is unknown.
    SendUncertain,
    /// The request side reached STREAM FIN.
    RequestFin,
    /// A response byte was read or validated.
    ResponseRead,
}

/// The recorded side-effect state of one exchange phase; it is derived from
/// the phase, never from an error shape.
pub fn side_effect_of(phase: QuicExchangePhase) -> (r: SideEffectState)
    ensures
        r == (match phase {
            QuicExchangePhase::PreSend => SideEffectState::NotSent,
            QuicExchangePhase::Connect => SideEffectState::NotSent,
            QuicExchangePhase::SendUncertain => SideEffectState::MaybeSent,
            QuicExchangePhase::RequestFin => SideEffectState::Sent,
            QuicExchangePhase::ResponseRead => SideEffectState::Sent,
        }),
{
    match phase {
        QuicExchangePhase::PreSend | QuicExchangePhase::Connect => SideEffectState::NotSent,
        QuicExchangePhase::SendUncertain => SideEffectState::MaybeSent,
        QuicExchangePhase::RequestFin | QuicExchangePhase::ResponseRead => SideEffectState::Sent,
    }
}

/// Whether a transport failure is one of the three local control outcomes:
/// owner close, caller cancellation, or the shared absolute deadline.
pub fn is_local_control(error: &UpstreamError) -> (r: bool)
    ensures
        r == is_local_control_spec(*error),
{
    match error {
        UpstreamError::Closed(_) | UpstreamError::Cancelled(_) | UpstreamError::DeadlineExceeded(
            _,
        ) => true,
        _ => false,
    }
}

/// A test-controlled clock (milliseconds): the owner's lazy maintenance only
/// ever compares instants, so advancing this clock is enough to expire an
/// entry.
pub struct ManualClock {
    now: u64,
}

impl ManualClock {
    pub closed spec fn now_spec(&self) -> u64 {
        self.now
    }

    /// A clock reading `origin` until it is advanced.
    pub fn new(origin: u64) -> (r: Self)
        ensures
            r.now_spec() == origin,
    {
        ManualClock { now: origin }
    }

    /// Moves the clock forward by `by` milliseconds.
    pub fn advance(&mut self, by: u64)
        requires
            old(self).now_spec() + by <= u64::MAX,
        ensures
            final(self).now_spec() == old(self).now_spec() + by,
    {
        self.now = self.now + by;
    }

    /// Sets the clock to an absolute instant.
    pub fn set(&mut self, at: u64)
        ensures
            final(self).now_spec() == at,
    {
        self.now = at;
    }

    /// The current reading.
    pub fn lock(&self) -> (r: u64)
        ensures
            r == self.now_spec(),
    {
        self.now
    }

    /// The current instant according to this clock.
    pub fn now(&self) -> (r: u64)
        ensures
            r == self.now_spec(),
    {
        self.now
    }
}

} // verus!
