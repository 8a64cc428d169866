use vstd::prelude::*;

use crate::error::{RequestError, Transport, UpstreamError};

verus! {

/// The length of a DNS message header in bytes.
pub const DNS_HEADER_LEN: usize = 12;

/// The DNS transaction ID of a message: its first two bytes, big-endian.
pub open spec fn header_id_spec(wire: Seq<u8>) -> u16 {
    (wire[0] * 256 + wire[1]) as u16
}

/// The largest DNS message a two-byte length prefix can carry.
pub const MAX_FRAMED_MESSAGE: usize = 65535;

/// A DNS message behind its two-byte big-endian length, as DNS over TCP, DoT
/// and DoQ streams carry it.
pub open spec fn length_framed(message: Seq<u8>) -> Seq<u8> {
    seq![(message.len() / 256) as u8, (message.len() % 256) as u8] + message
}

/// Frames one DNS message with its two-byte big-endian length.
pub fn frame_message(message: &[u8]) -> (r: Vec<u8>)
    requires
        message@.len() <= MAX_FRAMED_MESSAGE,
    ensures
        r@ == length_framed(message@),
{
    let len = message.len();
    let mut framed: Vec<u8> = Vec::with_capacity(len + 2);
    framed.push((len / 256) as u8);
    framed.push((len % 256) as u8);
    let mut i: usize = 0;
    while i < len
        invariant
            len == message@.len(),
            len <= MAX_FRAMED_MESSAGE,
            i <= len,
            framed@ == seq![(len / 256) as u8, (len % 256) as u8] + message@.subrange(0, i as int),
        decreases len - i,
    {
        framed.push(message[i]);
        i = i + 1;
        proof {
            assert(message@.subrange(0, i as int) == message@.subrange(0, i - 1).push(message@[i - 1]));
        }
    }
    proof {
        assert(message@.subrange(0, len as int) == message@);
    }
    framed
}

/// The length a two-byte big-endian frame prefix declares.
pub fn frame_length(hi: u8, lo: u8) -> (r: usize)
    ensures
        r == hi * 256 + lo,
{
    (hi as usize) * 256 + (lo as usize)
}

/// What a stream transport accepts as the response to request `request_id`:
/// a body shorter than the DNS header or with the QR bit clear is no
/// response; a response with another ID does not answer this request.
pub open spec fn stream_response_spec(body: Seq<u8>, request_id: u16) -> Result<(), UpstreamError> {
    if body.len() < DNS_HEADER_LEN || body[2] < 128 {
        Err(UpstreamError::MalformedResponse)
    } else if header_id_spec(body) != request_id {
        Err(UpstreamError::ResponseMismatch)
    } else {
        Ok(())
    }
}

/// Checks that a framed stream body is a response to request `request_id`.
pub fn check_stream_response(body: &[u8], request_id: u16) -> (r: Result<(), UpstreamError>)
    ensures
        r == stream_response_spec(body@, request_id),
{
    if body.len() < DNS_HEADER_LEN || body[2] < 128 {
        return Err(UpstreamError::MalformedResponse);
    }
    let id: u16 = (body[0] as u16) * 256 + (body[1] as u16);
    if id != request_id {
        return Err(UpstreamError::ResponseMismatch);
    }
    Ok(())
}

/// A borrowed, read-only DNS query with its original transaction ID recorded.
///
/// `Copy` lets one validated request be handed to two transport primitive
/// calls unchanged; only the borrowed reference and the recorded ID are copied.
#[derive(Clone, Copy)]
pub struct ExchangeRequest<'q> {
    query: &'q [u8],
    request_id: u16,
}

impl<'q> ExchangeRequest<'q> {
    pub closed spec fn query_spec(self) -> Seq<u8> {
        self.query@
    }

    pub closed spec fn request_id_spec(self) -> u16 {
        self.request_id
    }

    /// Validates the query without retaining or modifying caller-owned bytes
    /// and records its DNS transaction ID, the first two header bytes read
    /// big-endian.
    ///
    /// `parses` is the DNS wire parser's verdict on `query`; a query shorter
    /// than the twelve-byte DNS header is malformed whatever the verdict.
    pub fn new(query: &'q [u8], parses: bool) -> (r: Result<Self, UpstreamError>)
        ensures
            query@.len() == 0 ==> r == Err::<Self, UpstreamError>(
                UpstreamError::InvalidRequest(RequestError::Empty),
            ),
            query@.len() != 0 && (!parses || query@.len() < DNS_HEADER_LEN) ==> r == Err::<
                Self,
                UpstreamError,
            >(UpstreamError::InvalidRequest(RequestError::Malformed)),
            query@.len() >= DNS_HEADER_LEN && parses ==> (r matches Ok(req) && req.query_spec()
                == query@ && req.request_id_spec() == header_id_spec(query@)),
    {
        if query.len() == 0 {
            return Err(UpstreamError::InvalidRequest(RequestError::Empty));
        }
        if !parses || query.len() < DNS_HEADER_LEN {
            return Err(UpstreamError::InvalidRequest(RequestError::Malformed));
        }
        let id: u16 = (query[0] as u16) * 256 + (query[1] as u16);
        Ok(ExchangeRequest { query, request_id: id })
    }

    /// The borrowed query bytes, exactly as supplied.
    pub fn query(&self) -> (r: &'q [u8])
        ensures
            r@ == self.query_spec(),
    {
        self.query
    }

    /// The original DNS transaction ID of the query.
    pub fn request_id(&self) -> (r: u16)
        ensures
            r == self.request_id_spec(),
    {
        self.request_id
    }
}

/// A response owns the complete wire returned by a transport.
#[derive(Debug, PartialEq, Eq)]
pub struct ExchangeResponse {
    wire: Vec<u8>,
    request_id: u16,
    response_id: u16,
    transport: Transport,
    truncated: bool,
}

impl ExchangeResponse {
    pub closed spec fn wire_spec(&self) -> Seq<u8> {
        self.wire@
    }

    pub closed spec fn request_id_spec(&self) -> u16 {
        self.request_id
    }

    pub closed spec fn response_id_spec(&self) -> u16 {
        self.response_id
    }

    pub closed spec fn transport_spec(&self) -> Transport {
        self.transport
    }

    pub closed spec fn truncated_spec(&self) -> bool {
        self.truncated
    }

    pub fn new(
        wire: Vec<u8>,
        request_id: u16,
        response_id: u16,
        transport: Transport,
        truncated: bool,
    ) -> (r: Self)
        ensures
            r.wire_spec() == wire@,
            r.request_id_spec() == request_id,
            r.response_id_spec() == response_id,
            r.transport_spec() == transport,
            r.truncated_spec() == truncated,
    {
        ExchangeResponse { wire, request_id, response_id, transport, truncated }
    }

    pub fn wire(&self) -> (r: &[u8])
        ensures
            r@ == self.wire_spec(),
    {
        self.wire.as_slice()
    }

    pub fn into_wire(self) -> (r: Vec<u8>)
        ensures
            r@ == self.wire_spec(),
    {
        self.wire
    }

    pub fn request_id(&self) -> (r: u16)
        ensures
            r == self.request_id_spec(),
    {
        self.request_id
    }

    pub fn response_id(&self) -> (r: u16)
        ensures
            r == self.response_id_spec(),
    {
        self.response_id
    }

    pub fn transport(&self) -> (r: Transport)
        ensures
            r == self.transport_spec(),
    {
        self.transport
    }

    pub fn truncated(&self) -> (r: bool)
        ensures
            r == self.truncated_spec(),
    {
        self.truncated
    }
}


/// A stream response is accepted for request `request_id` exactly when it is
/// at least a DNS header long, has the QR bit set, and both of its first two
/// bytes carry that ID, high byte first: a response with another ID, even one
/// differing only in its high byte, is never accepted.
pub proof fn law_accepted_response_carries_the_request_id(body: Seq<u8>, request_id: u16)
    ensures
        stream_response_spec(body, request_id) is Ok <==> (body.len() >= DNS_HEADER_LEN && body[2]
            >= 128 && body[0] == request_id / 256 && body[1] == request_id % 256),
{
    if body.len() >= DNS_HEADER_LEN {
        let b0 = body[0];
        let b1 = body[1];
        assert(((b0 * 256 + b1) as u16 == request_id) <==> (b0 == request_id / 256 && b1
            == request_id % 256)) by (nonlinear_arith)
            requires
                0 <= b0 < 256,
                0 <= b1 < 256,
                0 <= request_id < 65536,
                0 <= b0 * 256 + b1 < 65536,
                (b0 * 256 + b1) as u16 == b0 * 256 + b1,
        ;
    }
}

} // verus!
