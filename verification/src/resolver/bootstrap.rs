use vstd::prelude::*;

use super::ResolverError;
use crate::addr::IpAddress;
use crate::error::{SideEffectState, UpstreamError};

verus! {

/// A per-exchange DNS transaction ID source.
pub trait ResolutionIdSource: Sized {
    /// Whether this source's IDs are unpredictable.
    spec fn unpredictable(&self) -> bool;

    /// Whether one draw from this state may return `r` and leave the source
    /// as `after`.
    spec fn may_draw(&self, r: Result<u16, ResolverError>, after: Self) -> bool;

    /// Draws the transaction ID for the next bootstrap query, or a typed error
    /// when no unpredictable ID can be drawn.
    fn next_id(&mut self) -> (r: Result<u16, ResolverError>)
        ensures
            old(self).may_draw(r, *final(self)),
            r matches Err(e) ==> e == ResolverError::UnpredictableIdsUnavailable,
    ;

    /// Whether this source's IDs are unpredictable.
    fn is_unpredictable(&self) -> (r: bool)
        ensures
            r == self.unpredictable(),
    ;
}

/// `getrandom::fill` on two bytes, read as one native-endian `u16`. The value
/// is operating-system entropy, and whether the draw succeeds depends on the
/// host, so nothing is promised about the result.
#[verifier::external_body]
fn draw_random_u16() -> Option<u16> {
    let mut bytes = [0u8; 2];
    match getrandom::fill(&mut bytes) {
        Ok(()) => Some(u16::from_ne_bytes(bytes)),
        Err(_) => None,
    }
}

/// The production ID source: unpredictable transaction IDs from the operating
/// system.
#[derive(Debug, Default)]
pub struct OsIdSource;

impl OsIdSource {
    /// Whether this host can actually supply unpredictable bytes: one probe
    /// draw is taken.
    pub fn is_available(&self) -> bool {
        draw_random_u16().is_some()
    }
}

impl ResolutionIdSource for OsIdSource {
    /// Operating-system entropy is unpredictable.
    open spec fn unpredictable(&self) -> bool {
        true
    }

    /// Any ID may come back; the only failure is the typed unavailability, and
    /// the source itself holds no state.
    open spec fn may_draw(&self, r: Result<u16, ResolverError>, after: Self) -> bool {
        r matches Err(e) ==> e == ResolverError::UnpredictableIdsUnavailable
    }

    fn next_id(&mut self) -> (r: Result<u16, ResolverError>) {
        match draw_random_u16() {
            Some(id) => Ok(id),
            None => Err(ResolverError::UnpredictableIdsUnavailable),
        }
    }

    fn is_unpredictable(&self) -> (r: bool) {
        true
    }
}

/// An ID source that never draws, used to exercise the failure contract.
#[derive(Debug, Default)]
pub struct FailingIdSource;

impl FailingIdSource {
    pub fn draw(&mut self) -> (r: Result<u16, ResolverError>)
        ensures
            r == Err::<u16, ResolverError>(ResolverError::UnpredictableIdsUnavailable),
    {
        Err(ResolverError::UnpredictableIdsUnavailable)
    }
}

impl ResolutionIdSource for FailingIdSource {
    open spec fn unpredictable(&self) -> bool {
        false
    }

    /// Every draw fails with the typed unavailability.
    open spec fn may_draw(&self, r: Result<u16, ResolverError>, after: Self) -> bool {
        r == Err::<u16, ResolverError>(ResolverError::UnpredictableIdsUnavailable)
    }

    fn next_id(&mut self) -> (r: Result<u16, ResolverError>) {
        self.draw()
    }

    fn is_unpredictable(&self) -> (r: bool) {
        false
    }
}

/// A monotonically stepping, non-cryptographic ID source for tests.
#[derive(Debug)]
pub struct SteppingIdSource {
    next: u16,
}

impl SteppingIdSource {
    pub closed spec fn next_spec(&self) -> u16 {
        self.next
    }

    /// Creates a stepping source starting at one.
    pub fn new() -> (r: Self)
        ensures
            r.next_spec() == 1,
    {
        SteppingIdSource { next: 1 }
    }

    /// Returns the current ID and steps to the next, wrapping at `u16::MAX`.
    pub fn draw(&mut self) -> (r: Result<u16, ResolverError>)
        ensures
            r == Ok::<u16, ResolverError>(old(self).next_spec()),
            final(self).next_spec() == (if old(self).next_spec() == u16::MAX {
                0
            } else {
                old(self).next_spec() + 1
            }),
    {
        let id = self.next;
        self.next = if self.next == u16::MAX {
            0
        } else {
            self.next + 1
        };
        Ok(id)
    }
}

impl ResolutionIdSource for SteppingIdSource {
    open spec fn unpredictable(&self) -> bool {
        false
    }

    /// The current ID comes back and the source steps to the next one,
    /// wrapping at `u16::MAX`.
    open spec fn may_draw(&self, r: Result<u16, ResolverError>, after: Self) -> bool {
        &&& r == Ok::<u16, ResolverError>(self.next_spec())
        &&& after.next_spec() == (if self.next_spec() == u16::MAX {
            0
        } else {
            self.next_spec() + 1
        })
    }

    fn next_id(&mut self) -> (r: Result<u16, ResolverError>) {
        self.draw()
    }

    fn is_unpredictable(&self) -> (r: bool) {
        false
    }
}

pub open spec fn control_error_spec(error: UpstreamError) -> ResolverError {
    match error {
        UpstreamError::Closed(_) => ResolverError::Closed,
        UpstreamError::Cancelled(_) => ResolverError::Cancelled,
        UpstreamError::DeadlineExceeded(_) => ResolverError::BootstrapTimeout,
        _ => ResolverError::BootstrapReceive,
    }
}

/// Maps a transport control failure onto the resolver's typed vocabulary.
pub fn control_error(error: UpstreamError) -> (r: ResolverError)
    ensures
        r == control_error_spec(error),
{
    match error {
        UpstreamError::Closed(_) => ResolverError::Closed,
        UpstreamError::Cancelled(_) => ResolverError::Cancelled,
        UpstreamError::DeadlineExceeded(_) => ResolverError::BootstrapTimeout,
        _ => ResolverError::BootstrapReceive,
    }
}

/// The DNS wire parser's verdict on one bootstrap datagram that did not yield
/// a usable answer.
#[derive(Clone, Copy, Debug, PartialEq, Eq, Structural)]
pub enum ResolverWireError {
    /// A correlated reply with a non-`NOERROR` rcode.
    Rcode(u16),
    /// A correlated reply without a usable address of the requested family.
    NoUsableAnswer,
    /// A correlated reply with the TC flag set.
    Truncated,
    /// The reply's transaction ID differs from the query's.
    MismatchedId,
    /// The reply's question differs from the query's.
    QuestionMismatch,
    /// The datagram is not a DNS response.
    NotAResponse,
    /// The reply carries an unexpected opcode.
    UnexpectedOpcode(u8),
    /// Any other malformed reply.
    Malformed,
}

/// The usable answer one correlated bootstrap reply carries.
#[derive(Clone, Copy, Debug, PartialEq, Eq, Structural)]
pub struct BootstrapAnswer {
    pub address: IpAddress,
    pub ttl_secs: u32,
}

/// What the bootstrap exchange does with one received datagram.
#[derive(Clone, Copy, Debug, PartialEq, Eq, Structural)]
pub enum ReplyAction {
    /// A correlated usable answer: the exchange completes with it.
    Accept(BootstrapAnswer),
    /// Not a correlated reply: ignored while the caller's budget remains.
    Ignore,
    /// A correlated terminal failure.
    Fail(ResolverError),
}

pub open spec fn wire_error_spec(error: ResolverWireError) -> ResolverError {
    match error {
        ResolverWireError::Rcode(code) => ResolverError::BootstrapRcode(code),
        ResolverWireError::NoUsableAnswer => ResolverError::NoUsableAddress,
        ResolverWireError::Truncated => ResolverError::Truncated,
        _ => ResolverError::MalformedBootstrapResponse,
    }
}

/// Maps a DNS wire failure onto the resolver's typed vocabulary, preserving
/// the terminal rcode and the truncation observation.
pub fn wire_error(error: ResolverWireError) -> (r: ResolverError)
    ensures
        r == wire_error_spec(error),
{
    match error {
        ResolverWireError::Rcode(code) => ResolverError::BootstrapRcode(code),
        ResolverWireError::NoUsableAnswer => ResolverError::NoUsableAddress,
        ResolverWireError::Truncated => ResolverError::Truncated,
        _ => ResolverError::MalformedBootstrapResponse,
    }
}

/// A datagram the connected peer sent that is not a correlated reply.
pub open spec fn is_uncorrelated(error: ResolverWireError) -> bool {
    error is MismatchedId || error is QuestionMismatch || error is NotAResponse
        || error is UnexpectedOpcode
}

/// What the bootstrap exchange does with one parsed datagram.
pub open spec fn reply_action_spec(parsed: Result<BootstrapAnswer, ResolverWireError>) -> ReplyAction {
    match parsed {
        Ok(a) => ReplyAction::Accept(a),
        Err(e) => if is_uncorrelated(e) {
            ReplyAction::Ignore
        } else {
            ReplyAction::Fail(wire_error_spec(e))
        },
    }
}

/// Decides what the bootstrap exchange does with one parsed datagram.
pub fn classify_reply(parsed: Result<BootstrapAnswer, ResolverWireError>) -> (r: ReplyAction)
    ensures
        r == reply_action_spec(parsed),
        parsed matches Ok(a) ==> r == ReplyAction::Accept(a),
        parsed matches Err(e) ==> (if is_uncorrelated(e) {
            r == ReplyAction::Ignore
        } else {
            r == ReplyAction::Fail(wire_error_spec(e))
        }),
{
    match parsed {
        Ok(answer) => ReplyAction::Accept(answer),
        Err(ResolverWireError::MismatchedId)
        | Err(ResolverWireError::QuestionMismatch)
        | Err(ResolverWireError::NotAResponse)
        | Err(ResolverWireError::UnexpectedOpcode(_)) => ReplyAction::Ignore,
        Err(error) => ReplyAction::Fail(wire_error(error)),
    }
}


/// The send schedule of one bootstrap exchange. The transaction ID is drawn
/// once and one query is encoded once; every transmission sends those
/// identical bytes.
#[derive(Clone, Copy, Debug, PartialEq, Eq, Structural)]
pub struct RetransmitState {
    /// Whether the query was written at least once.
    pub sent: bool,
    /// When (milliseconds) the next transmission is due.
    pub next_send: u64,
}

/// What happened in one round of the bootstrap exchange loop.
#[derive(Clone, Copy, Debug, PartialEq, Eq, Structural)]
pub enum BootstrapEvent {
    /// The send timer fired and the query was handed to the socket, which
    /// wrote this many bytes (`None`: the send failed).
    Transmitted(Option<usize>),
    /// A datagram from the connected peer arrived and was classified.
    Datagram(ReplyAction),
    /// Receiving from the socket failed.
    ReceiveFailed,
}

/// The exchange loop's next step.
#[derive(Clone, Copy, Debug, PartialEq, Eq)]
pub enum BootstrapStep {
    /// Keep waiting, with this schedule.
    Continue(RetransmitState),
    /// The exchange ends with this outcome.
    Done(Result<BootstrapAnswer, ResolverError>),
}

/// `now + interval`, held at the end of the time base.
pub open spec fn later_spec(now: u64, interval: u64) -> u64 {
    if now + interval > u64::MAX {
        u64::MAX
    } else {
        (now + interval) as u64
    }
}

/// One round of the exchange at `now` for a query of `query_len` bytes: a
/// complete write marks the query sent and schedules the identical
/// retransmission one `interval` later; a failed or short write fails with
/// `BootstrapSend`; a correlated answer or failure ends the exchange; an
/// uncorrelated datagram changes nothing; a receive failure ends it with
/// `BootstrapReceive`.
pub open spec fn bootstrap_step_spec(
    state: RetransmitState,
    event: BootstrapEvent,
    query_len: usize,
    now: u64,
    interval: u64,
) -> BootstrapStep {
    match event {
        BootstrapEvent::Transmitted(None) => BootstrapStep::Done(Err(ResolverError::BootstrapSend)),
        BootstrapEvent::Transmitted(Some(written)) => if written != query_len {
            BootstrapStep::Done(Err(ResolverError::BootstrapSend))
        } else {
            BootstrapStep::Continue(
                RetransmitState { sent: true, next_send: later_spec(now, interval) },
            )
        },
        BootstrapEvent::Datagram(ReplyAction::Accept(a)) => BootstrapStep::Done(Ok(a)),
        BootstrapEvent::Datagram(ReplyAction::Ignore) => BootstrapStep::Continue(state),
        BootstrapEvent::Datagram(ReplyAction::Fail(e)) => BootstrapStep::Done(Err(e)),
        BootstrapEvent::ReceiveFailed => BootstrapStep::Done(Err(ResolverError::BootstrapReceive)),
    }
}

impl RetransmitState {
    /// The schedule before the first transmission: nothing sent, the first
    /// send due at once.
    pub fn start(now: u64) -> (r: Self)
        ensures
            r == (RetransmitState { sent: false, next_send: now }),
    {
        RetransmitState { sent: false, next_send: now }
    }

    /// The side-effect state a control failure reports: `NotSent` until the
    /// first write, `Sent` from then on.
    pub fn side_effect(&self) -> (r: SideEffectState)
        ensures
            r == (if self.sent {
                SideEffectState::Sent
            } else {
                SideEffectState::NotSent
            }),
    {
        if self.sent {
            SideEffectState::Sent
        } else {
            SideEffectState::NotSent
        }
    }

    /// Whether the (re)transmission is due at `now`.
    pub fn send_due(&self, now: u64) -> (r: bool)
        ensures
            r == (now >= self.next_send),
    {
        now >= self.next_send
    }

    /// Whether a received datagram may be waited for: only once the query
    /// has been sent.
    pub fn listens(&self) -> (r: bool)
        ensures
            r == self.sent,
    {
        self.sent
    }
}

/// Decides one round of the bootstrap exchange loop.
pub fn bootstrap_step(
    state: RetransmitState,
    event: BootstrapEvent,
    query_len: usize,
    now: u64,
    interval: u64,
) -> (r: BootstrapStep)
    ensures
        r == bootstrap_step_spec(state, event, query_len, now, interval),
{
    match event {
        BootstrapEvent::Transmitted(None) => BootstrapStep::Done(Err(ResolverError::BootstrapSend)),
        BootstrapEvent::Transmitted(Some(written)) => {
            if written != query_len {
                BootstrapStep::Done(Err(ResolverError::BootstrapSend))
            } else {
                let next_send = now.saturating_add(interval);
                BootstrapStep::Continue(RetransmitState { sent: true, next_send })
            }
        },
        BootstrapEvent::Datagram(ReplyAction::Accept(a)) => BootstrapStep::Done(Ok(a)),
        BootstrapEvent::Datagram(ReplyAction::Ignore) => BootstrapStep::Continue(state),
        BootstrapEvent::Datagram(ReplyAction::Fail(e)) => BootstrapStep::Done(Err(e)),
        BootstrapEvent::ReceiveFailed => BootstrapStep::Done(Err(ResolverError::BootstrapReceive)),
    }
}

/// A correlated reply ends the exchange: a negative rcode fails it with that
/// rcode, a truncated reply with `Truncated`, a reply without a usable address
/// with `NoUsableAddress`. Only a datagram that is not a correlated reply (a
/// mismatched ID or question, a non-response, an unexpected opcode) is ignored
/// while the caller's budget remains; a usable answer is accepted as is.
pub proof fn law_correlated_replies_end_the_exchange(
    parsed: Result<BootstrapAnswer, ResolverWireError>,
    code: u16,
)
    ensures
        reply_action_spec(Err(ResolverWireError::Rcode(code))) == ReplyAction::Fail(
            ResolverError::BootstrapRcode(code),
        ),
        reply_action_spec(Err(ResolverWireError::Truncated)) == ReplyAction::Fail(
            ResolverError::Truncated,
        ),
        reply_action_spec(Err(ResolverWireError::NoUsableAnswer)) == ReplyAction::Fail(
            ResolverError::NoUsableAddress,
        ),
        reply_action_spec(Err(ResolverWireError::Malformed)) == ReplyAction::Fail(
            ResolverError::MalformedBootstrapResponse,
        ),
        reply_action_spec(parsed) == ReplyAction::Ignore <==> (parsed matches Err(e) && (e
            == ResolverWireError::MismatchedId || e == ResolverWireError::QuestionMismatch || e
            == ResolverWireError::NotAResponse || e matches ResolverWireError::UnexpectedOpcode(_))),
        parsed matches Ok(a) ==> reply_action_spec(parsed) == ReplyAction::Accept(a),
{
}

/// Once the query was sent it stays sent: no step of the exchange returns to
/// `NotSent`, so a later control failure always reports `Sent`. A complete
/// write always schedules the next identical transmission exactly one
/// interval later.
pub proof fn law_sent_is_permanent(
    state: RetransmitState,
    event: BootstrapEvent,
    query_len: usize,
    now: u64,
    interval: u64,
)
    ensures
        state.sent ==> (bootstrap_step_spec(state, event, query_len, now, interval) matches BootstrapStep::Continue(
            next,
        ) ==> next.sent),
        event == BootstrapEvent::Transmitted(Some(query_len)) && now + interval <= u64::MAX
            ==> bootstrap_step_spec(state, event, query_len, now, interval) == BootstrapStep::Continue(
            RetransmitState { sent: true, next_send: (now + interval) as u64 },
        ),
{
}

} // verus!
