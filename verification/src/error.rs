use vstd::prelude::*;

verus! {

/// The direct transport kinds.
#[derive(Clone, Copy, Debug, PartialEq, Eq, Structural)]
pub enum Transport {
    Udp,
    Tcp,
}

/// The closed side-effect vocabulary used by all terminal transport errors.
#[derive(Clone, Copy, Debug, PartialEq, Eq, Structural)]
pub enum SideEffectState {
    NotSent,
    MaybeSent,
    Sent,
}

/// Endpoint defects that can be identified before any socket operation.
#[derive(Clone, Copy, Debug, PartialEq, Eq, Structural)]
pub enum EndpointError {
    ZeroPort,
}

/// Query defects identified by the pure request boundary.
#[derive(Clone, Copy, Debug, PartialEq, Eq, Structural)]
pub enum RequestError {
    Empty,
    Malformed,
}

/// Ignored UDP datagrams observed while an exchange was still waiting for an
/// accepted response.
///
/// Both observations are diagnostic only: they never replace the terminal
/// primary cause and never change the recorded side-effect state.
#[derive(Clone, Copy, Debug, PartialEq, Eq, Structural)]
pub struct IgnoredDatagrams {
    unexpected_peer: bool,
    response_id_mismatch: bool,
}

impl Default for IgnoredDatagrams {
    /// No datagram ignored, the same value as `none()`.
    fn default() -> (r: Self)
        ensures
            !r.unexpected_peer_spec(),
            !r.response_id_mismatch_spec(),
    {
        IgnoredDatagrams::none()
    }
}

impl IgnoredDatagrams {
    /// No datagram was ignored before the exchange terminated.
    pub fn none() -> (r: Self)
        ensures
            !r.unexpected_peer_spec(),
            !r.response_id_mismatch_spec(),
    {
        IgnoredDatagrams { unexpected_peer: false, response_id_mismatch: false }
    }

    pub closed spec fn unexpected_peer_spec(self) -> bool {
        self.unexpected_peer
    }

    pub closed spec fn response_id_mismatch_spec(self) -> bool {
        self.response_id_mismatch
    }

    /// Whether a datagram from a peer other than the configured endpoint was
    /// ignored.
    pub fn unexpected_peer(self) -> (r: bool)
        ensures
            r == self.unexpected_peer_spec(),
    {
        self.unexpected_peer
    }

    /// Whether an expected-peer datagram whose header ID did not match the
    /// request was ignored.
    pub fn response_id_mismatch(self) -> (r: bool)
        ensures
            r == self.response_id_mismatch_spec(),
    {
        self.response_id_mismatch
    }

    /// Whether at least one datagram was ignored.
    pub fn any(self) -> (r: bool)
        ensures
            r == (self.unexpected_peer_spec() || self.response_id_mismatch_spec()),
    {
        self.unexpected_peer || self.response_id_mismatch
    }

    /// Records an ignored datagram from a peer other than the endpoint.
    pub fn record_unexpected_peer(&mut self)
        ensures
            final(self).unexpected_peer_spec(),
            final(self).response_id_mismatch_spec() == old(self).response_id_mismatch_spec(),
    {
        self.unexpected_peer = true;
    }

    /// Records an ignored expected-peer datagram with a mismatched header ID.
    pub fn record_response_id_mismatch(&mut self)
        ensures
            final(self).response_id_mismatch_spec(),
            final(self).unexpected_peer_spec() == old(self).unexpected_peer_spec(),
    {
        self.response_id_mismatch = true;
    }
}

/// The truthful primary terminal cause of an exchange that also retained
/// ignored-datagram diagnostics.
#[derive(Clone, Copy, Debug, PartialEq, Eq, Structural)]
pub enum TerminalError {
    DeadlineExceeded(SideEffectState),
    Cancelled(SideEffectState),
    Closed(SideEffectState),
    Receive(SideEffectState),
}

impl TerminalError {
    pub open spec fn side_effect_spec(self) -> SideEffectState {
        match self {
            TerminalError::DeadlineExceeded(s) => s,
            TerminalError::Cancelled(s) => s,
            TerminalError::Closed(s) => s,
            TerminalError::Receive(s) => s,
        }
    }

    /// The recorded side-effect state of this terminal cause.
    pub fn side_effect(self) -> (r: SideEffectState)
        ensures
            r == self.side_effect_spec(),
    {
        match self {
            TerminalError::DeadlineExceeded(s) => s,
            TerminalError::Cancelled(s) => s,
            TerminalError::Closed(s) => s,
            TerminalError::Receive(s) => s,
        }
    }

    /// The human-readable name of this terminal cause.
    pub fn name(self) -> (r: &'static str)
        ensures
            r@ == self.name_spec(),
    {
        match self {
            TerminalError::DeadlineExceeded(_) => "deadline exceeded",
            TerminalError::Cancelled(_) => "cancelled",
            TerminalError::Closed(_) => "closed",
            TerminalError::Receive(_) => "receive failure",
        }
    }
}

/// Typed transport failure categories. No error variant carries an unknown
/// side-effect state; runtime failures retain the last tracked state.
#[derive(Clone, Copy, Debug, PartialEq, Eq, Structural)]
pub enum UpstreamError {
    InvalidRequest(RequestError),
    InvalidEndpoint(EndpointError),
    Cancelled(SideEffectState),
    DeadlineExceeded(SideEffectState),
    Connect,
    Send(SideEffectState),
    Receive(SideEffectState),
    MalformedResponse,
    UnexpectedPeer,
    ResponseMismatch,
    TruncatedFrame,
    FrameTooLarge,
    Closed(SideEffectState),
    Runtime(SideEffectState),
    /// A bounded admission (a connection slot or a stream permit) is exhausted.
    Backpressure(SideEffectState),
    /// A terminal failure that retained at least one ignored-datagram
    /// diagnostic. `cause` is always the truthful primary terminal category.
    Diagnosed { cause: TerminalError, ignored: IgnoredDatagrams },
}

impl UpstreamError {
    pub open spec fn side_effect_spec(self) -> SideEffectState {
        match self {
            UpstreamError::InvalidRequest(_) => SideEffectState::NotSent,
            UpstreamError::InvalidEndpoint(_) => SideEffectState::NotSent,
            UpstreamError::Connect => SideEffectState::NotSent,
            UpstreamError::FrameTooLarge => SideEffectState::NotSent,
            UpstreamError::Cancelled(s) => s,
            UpstreamError::DeadlineExceeded(s) => s,
            UpstreamError::Send(s) => s,
            UpstreamError::Receive(s) => s,
            UpstreamError::Closed(s) => s,
            UpstreamError::Runtime(s) => s,
            UpstreamError::Backpressure(s) => s,
            UpstreamError::MalformedResponse => SideEffectState::Sent,
            UpstreamError::UnexpectedPeer => SideEffectState::Sent,
            UpstreamError::ResponseMismatch => SideEffectState::Sent,
            UpstreamError::TruncatedFrame => SideEffectState::Sent,
            UpstreamError::Diagnosed { cause, .. } => cause.side_effect_spec(),
        }
    }

    /// The recorded side-effect state of this failure.
    pub fn side_effect(self) -> (r: SideEffectState)
        ensures
            r == self.side_effect_spec(),
    {
        match self {
            UpstreamError::InvalidRequest(_)
            | UpstreamError::InvalidEndpoint(_)
            | UpstreamError::Connect
            | UpstreamError::FrameTooLarge => SideEffectState::NotSent,
            UpstreamError::Cancelled(s)
            | UpstreamError::DeadlineExceeded(s)
            | UpstreamError::Send(s)
            | UpstreamError::Receive(s)
            | UpstreamError::Closed(s)
            | UpstreamError::Runtime(s)
            | UpstreamError::Backpressure(s) => s,
            UpstreamError::MalformedResponse
            | UpstreamError::UnexpectedPeer
            | UpstreamError::ResponseMismatch
            | UpstreamError::TruncatedFrame => SideEffectState::Sent,
            UpstreamError::Diagnosed { cause, .. } => cause.side_effect(),
        }
    }

    pub open spec fn terminal_cause_spec(self) -> Option<TerminalError> {
        match self {
            UpstreamError::Cancelled(s) => Some(TerminalError::Cancelled(s)),
            UpstreamError::DeadlineExceeded(s) => Some(TerminalError::DeadlineExceeded(s)),
            UpstreamError::Receive(s) => Some(TerminalError::Receive(s)),
            UpstreamError::Closed(s) => Some(TerminalError::Closed(s)),
            UpstreamError::Diagnosed { cause, .. } => Some(cause),
            _ => None,
        }
    }

    /// The truthful primary terminal cause, when this error terminated an
    /// exchange by deadline, cancellation, close, or receive failure.
    pub fn terminal_cause(self) -> (r: Option<TerminalError>)
        ensures
            r == self.terminal_cause_spec(),
    {
        match self {
            UpstreamError::Cancelled(s) => Some(TerminalError::Cancelled(s)),
            UpstreamError::DeadlineExceeded(s) => Some(TerminalError::DeadlineExceeded(s)),
            UpstreamError::Receive(s) => Some(TerminalError::Receive(s)),
            UpstreamError::Closed(s) => Some(TerminalError::Closed(s)),
            UpstreamError::Diagnosed { cause, .. } => Some(cause),
            _ => None,
        }
    }

    /// The ignored datagrams retained with this error; none for every
    /// undiagnosed error.
    pub fn ignored_datagrams(self) -> (r: IgnoredDatagrams)
        ensures
            match self {
                UpstreamError::Diagnosed { ignored, .. } => r == ignored,
                _ => !r.unexpected_peer_spec() && !r.response_id_mismatch_spec(),
            },
    {
        match self {
            UpstreamError::Diagnosed { ignored, .. } => ignored,
            _ => IgnoredDatagrams::none(),
        }
    }

    /// The human-readable category name of this failure.
    pub fn name(self) -> (r: &'static str)
        ensures
            self is Diagnosed ==> r@ == self->cause.name_spec(),
            self is Closed ==> r@ == "closed"@,
            self is Cancelled ==> r@ == "cancelled"@,
            self is DeadlineExceeded ==> r@ == "deadline exceeded"@,
    {
        match self {
            UpstreamError::InvalidRequest(_) => "invalid request",
            UpstreamError::InvalidEndpoint(_) => "invalid endpoint",
            UpstreamError::Cancelled(_) => "cancelled",
            UpstreamError::DeadlineExceeded(_) => "deadline exceeded",
            UpstreamError::Connect => "connect failure",
            UpstreamError::Send(_) => "send failure",
            UpstreamError::Receive(_) => "receive failure",
            UpstreamError::MalformedResponse => "malformed response",
            UpstreamError::UnexpectedPeer => "unexpected peer",
            UpstreamError::ResponseMismatch => "response mismatch",
            UpstreamError::TruncatedFrame => "truncated frame",
            UpstreamError::FrameTooLarge => "frame too large",
            UpstreamError::Closed(_) => "closed",
            UpstreamError::Runtime(_) => "runtime failure",
            UpstreamError::Backpressure(_) => "backpressure",
            UpstreamError::Diagnosed { cause, .. } => cause.name(),
        }
    }
}

impl TerminalError {
    pub open spec fn name_spec(self) -> Seq<char> {
        match self {
            TerminalError::DeadlineExceeded(_) => "deadline exceeded"@,
            TerminalError::Cancelled(_) => "cancelled"@,
            TerminalError::Closed(_) => "closed"@,
            TerminalError::Receive(_) => "receive failure"@,
        }
    }
}

} // verus!
