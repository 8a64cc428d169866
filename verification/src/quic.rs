use vstd::prelude::*;

use crate::addr::SocketAddress;
use crate::control::{caller_check_outcome, ExchangeContext, ExchangeControl, TransportCancellation};
use crate::error::{SideEffectState, UpstreamError};
use crate::exchange::{length_framed, ExchangeRequest};
use crate::identity::ServiceIdentity;
use crate::lifecycle::{
    begin_close_spec, commit_final_spec, finish_close_spec, register_spec, release_spec,
    CloseCompletion, CloseTransition, Lifecycle, LifecycleState, LifecycleView,
};

verus! {

/// The exact ALPN offer for DNS-over-QUIC (RFC 9250 §3).
pub const DOQ_ALPN: &'static str = "doq";

/// The exact ALPN offer for DNS-over-HTTP/3 (RFC 9114).
pub const H3_ALPN: &'static str = "h3";

/// RFC 9250 §4.3 `DOQ_REQUEST_CANCELLED`: the application error code sent on
/// the request stream when a local control decision wins while the response is
/// still outstanding.
pub const DOQ_REQUEST_CANCELLED: u32 = 3;

/// The largest complete DoQ stream message: the DNS wire upper bound plus the
/// two-byte big-endian stream length prefix.
pub const MAX_DOQ_MESSAGE: usize = 65537;


/// The secure-transport failures of the DoQ path.
#[derive(Clone, Copy, Debug, PartialEq, Eq, Structural)]
pub enum DoqError {
    /// The exact typed transport failure.
    Transport(UpstreamError),
    /// The numeric dial address has port zero.
    ZeroDialPort,
    /// The service identity cannot be used as a TLS server name.
    InvalidIdentity,
    /// The response stream carried bytes after the first declared frame.
    TrailingResponse,
    /// The response stream ended without a normal STREAM FIN.
    MissingResponseFin,
}

/// Zeroes the DNS transaction ID bytes of an owned outbound DoQ copy
/// (RFC 9250 §4.2.1); a copy shorter than an ID is left unchanged.
pub fn zero_outbound_query_id(outbound: &mut [u8])
    ensures
        old(outbound)@.len() >= 2 ==> final(outbound)@ == old(outbound)@.update(0, 0u8).update(
            1,
            0u8,
        ),
        old(outbound)@.len() < 2 ==> final(outbound)@ == old(outbound)@,
{
    if outbound.len() >= 2 {
        outbound[0] = 0;
        outbound[1] = 0;
    }
}

/// The big-endian value of a two-byte prefix.
pub open spec fn be16(hi: u8, lo: u8) -> int {
    hi * 256 + lo
}

/// The two big-endian bytes of a DNS ID.
pub open spec fn id_bytes(id: u16) -> Seq<u8> {
    seq![(id / 256) as u8, (id % 256) as u8]
}

/// What one complete DoQ response stream (read up to its FIN) decodes to: a
/// framed body of the declared length, nothing after it, a zero wire ID, and
/// then the caller's original ID restored into an owned copy.
pub open spec fn doq_payload_spec(complete: Seq<u8>, request_id: u16) -> Result<Seq<u8>, DoqError> {
    if complete.len() < 2 {
        Err(DoqError::Transport(UpstreamError::TruncatedFrame))
    } else if be16(complete[0], complete[1]) == 0 {
        Err(DoqError::Transport(UpstreamError::MalformedResponse))
    } else if complete.len() < 2 + be16(complete[0], complete[1]) {
        Err(DoqError::Transport(UpstreamError::TruncatedFrame))
    } else if complete.len() != 2 + be16(complete[0], complete[1]) {
        Err(DoqError::TrailingResponse)
    } else if complete.len() < 4 {
        Err(DoqError::Transport(UpstreamError::MalformedResponse))
    } else if complete[2] != 0 || complete[3] != 0 {
        Err(DoqError::Transport(UpstreamError::ResponseMismatch))
    } else {
        Ok(id_bytes(request_id) + complete.subrange(4, complete.len() as int))
    }
}

/// Unframes one complete DoQ response stream and restores the caller's ID.
///
/// The response must be exactly one two-byte length-prefixed frame; the peer's
/// wire ID must be zero (RFC 9250 §4.2.1) and is checked before the caller's
/// original ID is written into the owned copy.
pub fn decode_doq_response(complete: &[u8], request_id: u16) -> (r: Result<Vec<u8>, DoqError>)
    ensures
        match r {
            Ok(body) => doq_payload_spec(complete@, request_id) == Ok::<Seq<u8>, DoqError>(body@),
            Err(e) => doq_payload_spec(complete@, request_id) == Err::<Seq<u8>, DoqError>(e),
        },
{
    if complete.len() < 2 {
        return Err(DoqError::Transport(UpstreamError::TruncatedFrame));
    }
    let length: usize = (complete[0] as usize) * 256 + (complete[1] as usize);
    if length == 0 {
        return Err(DoqError::Transport(UpstreamError::MalformedResponse));
    }
    if complete.len() - 2 < length {
        return Err(DoqError::Transport(UpstreamError::TruncatedFrame));
    }
    if complete.len() - 2 != length {
        return Err(DoqError::TrailingResponse);
    }
    if complete.len() < 4 {
        return Err(DoqError::Transport(UpstreamError::MalformedResponse));
    }
    if complete[2] != 0 || complete[3] != 0 {
        return Err(DoqError::Transport(UpstreamError::ResponseMismatch));
    }
    let mut body: Vec<u8> = Vec::new();
    body.push((request_id / 256) as u8);
    body.push((request_id % 256) as u8);
    let mut i: usize = 4;
    while i < complete.len()
        invariant
            4 <= i <= complete@.len(),
            body@ == id_bytes(request_id) + complete@.subrange(4, i as int),
        decreases complete@.len() - i,
    {
        body.push(complete[i]);
        proof {
            assert(complete@.subrange(4, i + 1) == complete@.subrange(4, i as int).push(
                complete@[i as int],
            ));
        }
        i = i + 1;
    }
    Ok(body)
}

/// A Quinn connection-level failure, by variant (payloads are not read).
#[derive(Clone, Copy, Debug, PartialEq, Eq, Structural)]
pub enum QuinnConnectionError {
    VersionMismatch,
    TransportError,
    ConnectionClosed,
    ApplicationClosed,
    Reset,
    TimedOut,
    LocallyClosed,
    CidsExhausted,
}

/// A Quinn stream write failure, by variant.
#[derive(Clone, Copy, Debug, PartialEq, Eq, Structural)]
pub enum QuinnWriteError {
    Stopped,
    ConnectionLost(QuinnConnectionError),
    ClosedStream,
    ZeroRttRejected,
}

/// A Quinn stream read failure, by variant.
#[derive(Clone, Copy, Debug, PartialEq, Eq, Structural)]
pub enum QuinnReadError {
    Reset,
    ConnectionLost(QuinnConnectionError),
    ClosedStream,
    IllegalOrderedRead,
    ZeroRttRejected,
}

/// A Quinn read-to-FIN failure, by variant.
#[derive(Clone, Copy, Debug, PartialEq, Eq, Structural)]
pub enum QuinnReadToEndError {
    Read(QuinnReadError),
    TooLong,
}

/// Classifies a stream read-to-FIN failure of the one-shot DoQ exchange.
///
/// A message above the bound is `FrameTooLarge`; a peer reset or a lost
/// connection proves the response stream never finished normally, which is the
/// typed missing-FIN protocol error; every other read failure is a terminal
/// receive failure with the request already sent.
pub fn classify_doq_read_error(error: QuinnReadToEndError) -> (r: DoqError)
    ensures
        r == (match error {
            QuinnReadToEndError::TooLong => DoqError::Transport(UpstreamError::FrameTooLarge),
            QuinnReadToEndError::Read(QuinnReadError::Reset) => DoqError::MissingResponseFin,
            QuinnReadToEndError::Read(QuinnReadError::ConnectionLost(_)) => DoqError::MissingResponseFin,
            QuinnReadToEndError::Read(_) => DoqError::Transport(UpstreamError::Receive(SideEffectState::Sent)),
        }),
{
    match error {
        QuinnReadToEndError::TooLong => DoqError::Transport(UpstreamError::FrameTooLarge),
        QuinnReadToEndError::Read(QuinnReadError::Reset) => DoqError::MissingResponseFin,
        QuinnReadToEndError::Read(QuinnReadError::ConnectionLost(_)) => DoqError::MissingResponseFin,
        QuinnReadToEndError::Read(_) => DoqError::Transport(
            UpstreamError::Receive(SideEffectState::Sent),
        ),
    }
}

/// A DoQ connect/setup failure before any byte: a malformed server name, or
/// any other setup failure.
#[derive(Clone, Copy, Debug, PartialEq, Eq, Structural)]
pub enum QuinnConnectError {
    InvalidServerName,
    Other,
}

/// The typed result of a QUIC connect/setup failure: a malformed server name
/// is a pre-I/O identity defect, every other failure a `Connect` failure.
pub fn classify_connect_error(error: QuinnConnectError) -> (r: DoqConnectFailure)
    ensures
        error == QuinnConnectError::InvalidServerName ==> r == DoqConnectFailure::InvalidIdentity,
        error == QuinnConnectError::Other ==> r == DoqConnectFailure::Transport(
            UpstreamError::Connect,
        ),
{
    match error {
        QuinnConnectError::InvalidServerName => DoqConnectFailure::InvalidIdentity,
        QuinnConnectError::Other => DoqConnectFailure::Transport(UpstreamError::Connect),
    }
}

/// How a QUIC connect/setup failure is reported.
#[derive(Clone, Copy, Debug, PartialEq, Eq, Structural)]
pub enum DoqConnectFailure {
    InvalidIdentity,
    Transport(UpstreamError),
}

pub open spec fn is_local_control_spec(error: UpstreamError) -> bool {
    error matches UpstreamError::Closed(_) || error matches UpstreamError::Cancelled(_)
        || error matches UpstreamError::DeadlineExceeded(_)
}

/// Whether a DoQ failure is one of the three local control outcomes that can
/// win a post-`open_bi` race: owner close, caller cancellation, or the shared
/// absolute deadline. Only those make the exchange stop the receive side.
pub fn is_local_control_error(error: &DoqError) -> (r: bool)
    ensures
        r == (*error matches DoqError::Transport(e) && is_local_control_spec(e)),
{
    match error {
        DoqError::Transport(UpstreamError::Closed(_)) => true,
        DoqError::Transport(UpstreamError::Cancelled(_)) => true,
        DoqError::Transport(UpstreamError::DeadlineExceeded(_)) => true,
        _ => false,
    }
}

/// A DNS-over-QUIC destination: a numeric dial address plus a separate TLS
/// service identity.
#[derive(Debug, PartialEq, Eq)]
pub struct DoqEndpoint {
    dial: SocketAddress,
    identity: ServiceIdentity,
}

impl DoqEndpoint {
    pub closed spec fn dial_spec(&self) -> SocketAddress {
        self.dial
    }

    pub closed spec fn identity_spec(&self) -> Seq<char> {
        self.identity.text_spec()
    }

    /// Creates a DoQ endpoint without resolving the identity or opening a
    /// socket; a zero dial port is refused.
    pub fn new(dial: SocketAddress, identity: ServiceIdentity) -> (r: Result<Self, DoqError>)
        ensures
            dial.port == 0 ==> r == Err::<Self, DoqError>(DoqError::ZeroDialPort),
            dial.port != 0 ==> (r matches Ok(e) && e.dial_spec() == dial && e.identity_spec()
                == identity.text_spec()),
    {
        if dial.port == 0 {
            return Err(DoqError::ZeroDialPort);
        }
        Ok(DoqEndpoint { dial, identity })
    }

    /// The numeric destination a DoQ connection is opened to.
    pub fn dial(&self) -> (r: SocketAddress)
        ensures
            r == self.dial_spec(),
    {
        self.dial
    }

    /// The TLS service identity, independent of the dial address.
    pub fn identity(&self) -> (r: &ServiceIdentity)
        ensures
            r.text_spec() == self.identity_spec(),
    {
        &self.identity
    }
}

impl Clone for DoqEndpoint {
    fn clone(&self) -> (r: Self)
        ensures
            r.dial_spec() == self.dial_spec(),
            r.identity_spec() == self.identity_spec(),
    {
        DoqEndpoint { dial: self.dial, identity: self.identity.clone() }
    }
}

/// A one-shot DNS-over-QUIC owner: one endpoint, the shared lifecycle gate,
/// and one owner cancellation token. Every exchange uses a fresh connection.
pub struct DoqUpstream {
    endpoint: DoqEndpoint,
    lifecycle: Lifecycle,
    cancellation: TransportCancellation,
}

impl DoqUpstream {
    pub closed spec fn endpoint_spec(&self) -> DoqEndpoint {
        self.endpoint
    }

    pub closed spec fn lifecycle_view(&self) -> LifecycleView {
        self.lifecycle.view()
    }

    /// Creates an owner for a validated endpoint whose TLS policy already
    /// produced a usable `doq` client configuration.
    pub fn new(endpoint: DoqEndpoint) -> (r: Self)
        ensures
            r.endpoint_spec() == endpoint,
            r.lifecycle_view() == (LifecycleView { state: LifecycleState::Open, in_flight: 0 }),
    {
        DoqUpstream { endpoint, lifecycle: Lifecycle::new(), cancellation: TransportCancellation::new() }
    }

    /// The validated DoQ endpoint.
    pub fn endpoint(&self) -> (r: &DoqEndpoint)
        ensures
            *r == self.endpoint_spec(),
    {
        &self.endpoint
    }

    pub fn lifecycle_state(&self) -> (r: LifecycleState)
        ensures
            r == self.lifecycle_view().state,
    {
        self.lifecycle.state()
    }

    /// Number of exchanges currently registered as in-flight.
    pub fn in_flight_exchanges(&self) -> (r: usize)
        ensures
            r == self.lifecycle_view().in_flight,
    {
        self.lifecycle.in_flight()
    }

    /// Begins owner shutdown; the owner token is cancelled when this call
    /// performed `Open -> Closing`.
    pub fn begin_close(&mut self) -> (r: CloseTransition)
        ensures
            (final(self).lifecycle_view(), r) == begin_close_spec(old(self).lifecycle_view()),
            final(self).endpoint_spec() == old(self).endpoint_spec(),
    {
        let transition = self.lifecycle.begin_close();
        if transition == CloseTransition::BeganClosing {
            self.cancellation.cancel();
        }
        transition
    }

    /// Performs only the guarded `Closing -> Closed` transition.
    pub fn finish_close(&mut self) -> (r: CloseCompletion)
        ensures
            (final(self).lifecycle_view(), r) == finish_close_spec(old(self).lifecycle_view()),
            final(self).endpoint_spec() == old(self).endpoint_spec(),
    {
        self.lifecycle.finish_close()
    }

    /// Registers one exchange, checks that its query fits the two-byte DoQ
    /// stream prefix, and checks the caller's control at `now`. A refused
    /// exchange leaves no registration behind.
    pub fn prepare_exchange(
        &mut self,
        request: &ExchangeRequest,
        context: &ExchangeContext,
        now: u64,
    ) -> (r: Result<ExchangeControl, DoqError>)
        requires
            old(self).lifecycle_view().in_flight < usize::MAX,
        ensures
            final(self).endpoint_spec() == old(self).endpoint_spec(),
            old(self).lifecycle_view().state != LifecycleState::Open ==> r == Err::<
                ExchangeControl,
                DoqError,
            >(DoqError::Transport(UpstreamError::Closed(SideEffectState::NotSent))),
            old(self).lifecycle_view().state == LifecycleState::Open && request.query_spec().len()
                > 65535 ==> r == Err::<ExchangeControl, DoqError>(
                DoqError::Transport(UpstreamError::FrameTooLarge),
            ),
            old(self).lifecycle_view().state == LifecycleState::Open && request.query_spec().len()
                <= 65535 ==> caller_check_outcome(
                match r {
                    Ok(_) => Ok(()),
                    Err(DoqError::Transport(e)) => Err(e),
                    Err(_) => Err(UpstreamError::Connect),
                },
                now,
                context.deadline_spec(),
                SideEffectState::NotSent,
            ),
            r is Ok ==> final(self).lifecycle_view() == register_spec(old(self).lifecycle_view()).0,
            r is Err ==> final(self).lifecycle_view() == old(self).lifecycle_view(),
            r matches Ok(c) ==> c.deadline_spec() == context.deadline_spec(),
    {
        match self.lifecycle.register() {
            Err(e) => return Err(DoqError::Transport(e)),
            Ok(()) => {},
        }
        if request.query().len() > 65535 {
            self.lifecycle.release();
            return Err(DoqError::Transport(UpstreamError::FrameTooLarge));
        }
        match context.check_at(now, SideEffectState::NotSent) {
            Err(e) => {
                self.lifecycle.release();
                Err(DoqError::Transport(e))
            },
            Ok(()) => Ok(ExchangeControl::new(context.clone(), self.cancellation.clone())),
        }
    }

    /// Releases the registration of a finished exchange.
    pub fn release(&mut self)
        requires
            old(self).lifecycle_view().in_flight > 0,
        ensures
            final(self).lifecycle_view() == release_spec(old(self).lifecycle_view()),
            final(self).endpoint_spec() == old(self).endpoint_spec(),
    {
        self.lifecycle.release()
    }

    /// The single control-aware commit of a validated DoQ response at `now`:
    /// owner first, then caller cancellation, then the original deadline.
    pub fn commit_final_response(
        &self,
        caller_cancellation: &TransportCancellation,
        deadline: u64,
        now: u64,
    ) -> (r: Result<(), UpstreamError>)
        ensures
            r == commit_final_spec(self.lifecycle_view(), true, now, deadline, SideEffectState::Sent)
                || r == commit_final_spec(
                self.lifecycle_view(),
                false,
                now,
                deadline,
                SideEffectState::Sent,
            ),
    {
        self.lifecycle.commit_final_response(caller_cancellation, deadline, now, SideEffectState::Sent)
    }
}

/// A one-shot DNS-over-HTTP/3 owner: the validated DoH endpoint `E` (numeric
/// dial, service identity, origin authority, and request encoder), the shared
/// lifecycle gate, and one owner cancellation token.
pub struct Doh3Upstream<E> {
    endpoint: E,
    lifecycle: Lifecycle,
    cancellation: TransportCancellation,
}

impl<E> Doh3Upstream<E> {
    pub closed spec fn endpoint_spec(&self) -> E {
        self.endpoint
    }

    pub closed spec fn lifecycle_view(&self) -> LifecycleView {
        self.lifecycle.view()
    }

    /// Creates an owner for a validated endpoint whose TLS policy already
    /// produced a usable `h3` client configuration.
    pub fn new(endpoint: E) -> (r: Self)
        ensures
            r.endpoint_spec() == endpoint,
            r.lifecycle_view() == (LifecycleView { state: LifecycleState::Open, in_flight: 0 }),
    {
        Doh3Upstream { endpoint, lifecycle: Lifecycle::new(), cancellation: TransportCancellation::new() }
    }

    /// The validated DoH endpoint whose authority and encoder this owner uses.
    pub fn endpoint(&self) -> (r: &E)
        ensures
            *r == self.endpoint_spec(),
    {
        &self.endpoint
    }

    pub fn lifecycle_state(&self) -> (r: LifecycleState)
        ensures
            r == self.lifecycle_view().state,
    {
        self.lifecycle.state()
    }

    /// Number of exchanges currently registered as in-flight.
    pub fn in_flight_exchanges(&self) -> (r: usize)
        ensures
            r == self.lifecycle_view().in_flight,
    {
        self.lifecycle.in_flight()
    }

    /// Begins owner shutdown; the owner token is cancelled when this call
    /// performed `Open -> Closing`.
    pub fn begin_close(&mut self) -> (r: CloseTransition)
        ensures
            (final(self).lifecycle_view(), r) == begin_close_spec(old(self).lifecycle_view()),
            final(self).endpoint_spec() == old(self).endpoint_spec(),
    {
        let transition = self.lifecycle.begin_close();
        if transition == CloseTransition::BeganClosing {
            self.cancellation.cancel();
        }
        transition
    }

    /// Performs only the guarded `Closing -> Closed` transition.
    pub fn finish_close(&mut self) -> (r: CloseCompletion)
        ensures
            (final(self).lifecycle_view(), r) == finish_close_spec(old(self).lifecycle_view()),
            final(self).endpoint_spec() == old(self).endpoint_spec(),
    {
        self.lifecycle.finish_close()
    }

    /// Registers one exchange and checks the caller's control at `now`,
    /// before any socket action; a refused exchange leaves no registration.
    pub fn prepare_exchange(&mut self, context: &ExchangeContext, now: u64) -> (r: Result<
        ExchangeControl,
        UpstreamError,
    >)
        requires
            old(self).lifecycle_view().in_flight < usize::MAX,
        ensures
            final(self).endpoint_spec() == old(self).endpoint_spec(),
            old(self).lifecycle_view().state != LifecycleState::Open ==> r == Err::<
                ExchangeControl,
                UpstreamError,
            >(UpstreamError::Closed(SideEffectState::NotSent)),
            old(self).lifecycle_view().state == LifecycleState::Open ==> caller_check_outcome(
                match r {
                    Ok(_) => Ok(()),
                    Err(e) => Err(e),
                },
                now,
                context.deadline_spec(),
                SideEffectState::NotSent,
            ),
            r is Ok ==> final(self).lifecycle_view() == register_spec(old(self).lifecycle_view()).0,
            r is Err ==> final(self).lifecycle_view() == old(self).lifecycle_view(),
            r matches Ok(c) ==> c.deadline_spec() == context.deadline_spec(),
    {
        self.lifecycle.register()?;
        match context.check_at(now, SideEffectState::NotSent) {
            Err(e) => {
                self.lifecycle.release();
                Err(e)
            },
            Ok(()) => Ok(ExchangeControl::new(context.clone(), self.cancellation.clone())),
        }
    }

    /// Releases the registration of a finished exchange.
    pub fn release(&mut self)
        requires
            old(self).lifecycle_view().in_flight > 0,
        ensures
            final(self).lifecycle_view() == release_spec(old(self).lifecycle_view()),
            final(self).endpoint_spec() == old(self).endpoint_spec(),
    {
        self.lifecycle.release()
    }

    /// The single control-aware commit of a validated response at `now`.
    pub fn commit_final_response(
        &self,
        caller_cancellation: &TransportCancellation,
        deadline: u64,
        now: u64,
    ) -> (r: Result<(), UpstreamError>)
        ensures
            r == commit_final_spec(self.lifecycle_view(), true, now, deadline, SideEffectState::Sent)
                || r == commit_final_spec(
                self.lifecycle_view(),
                false,
                now,
                deadline,
                SideEffectState::Sent,
            ),
    {
        self.lifecycle.commit_final_response(caller_cancellation, deadline, now, SideEffectState::Sent)
    }
}


/// Decoding undoes the stream framing: for every DNS message `m` of at least
/// two bytes that fits the two-byte prefix and carries the zero DoQ wire ID,
/// the decoded length-prefixed stream is exactly `m` with the caller's ID in
/// its first two bytes. The declared length is both prefix bytes read
/// big-endian, so messages of 256 bytes and more decode too.
pub proof fn law_decode_undoes_framing(m: Seq<u8>, request_id: u16)
    requires
        2 <= m.len() <= 65535,
        m[0] == 0,
        m[1] == 0,
    ensures
        doq_payload_spec(length_framed(m), request_id) == Ok::<Seq<u8>, DoqError>(
            id_bytes(request_id) + m.subrange(2, m.len() as int),
        ),
{
    let f = length_framed(m);
    let n = m.len();
    assert(f[0] == (n / 256) as u8);
    assert(f[1] == (n % 256) as u8);
    assert((n / 256) * 256 + n % 256 == n) by (nonlinear_arith);
    assert(0 <= n / 256 < 256) by (nonlinear_arith)
        requires
            n <= 65535,
    ;
    assert(be16(f[0], f[1]) == n);
    assert(f.len() == n + 2);
    assert(f[2] == m[0]);
    assert(f[3] == m[1]);
    assert(f.subrange(4, f.len() as int) =~= m.subrange(2, n as int));
}

} // verus!
