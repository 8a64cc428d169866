use vstd::prelude::*;

use crate::error::{SideEffectState, UpstreamError};
use crate::exchange::DNS_HEADER_LEN;

verus! {

/// DoH response-contract violations.
#[derive(Clone, Copy, Debug, PartialEq, Eq, Structural)]
pub enum DohProtocolError {
    /// The response head carries more fields than the bound allows.
    ResponseHeadTooLarge,
    /// No response head arrived: the stream or connection ended first.
    ResponseHeadNotReceived,
    /// The body grew past the DNS message bound.
    BodyTooLarge,
    /// The body ended early, is empty, disagrees with its declared length, or
    /// is shorter than a DNS header.
    IncompleteBody,
}

/// The failure of one DoH3 exchange: a transport outcome or a violation of
/// the DoH response contract.
#[derive(Clone, Copy, Debug, PartialEq, Eq, Structural)]
pub enum Doh3Error {
    Transport(UpstreamError),
    Protocol(DohProtocolError),
}

/// The response head carries at most `max_headers` fields; the h3 client
/// layer imposes no header-count limit of its own.
pub fn h3_head_within_bound(header_count: usize, max_headers: usize) -> (r: Result<(), DohProtocolError>)
    ensures
        r is Err <==> header_count > max_headers,
        r is Err ==> r == Err::<(), DohProtocolError>(DohProtocolError::ResponseHeadTooLarge),
{
    if header_count > max_headers {
        Err(DohProtocolError::ResponseHeadTooLarge)
    } else {
        Ok(())
    }
}

/// One received DATA chunk of `chunk_len` bytes after `collected_len` bytes:
/// the bound is enforced on the bytes actually received, so a peer cannot
/// evade it by omitting or understating a declared length.
pub fn h3_body_step(collected_len: usize, chunk_len: usize, max_body: usize) -> (r: Result<
    (),
    DohProtocolError,
>)
    ensures
        r is Err <==> collected_len + chunk_len > max_body,
        r is Err ==> r == Err::<(), DohProtocolError>(DohProtocolError::BodyTooLarge),
{
    if chunk_len > max_body || collected_len > max_body - chunk_len {
        Err(DohProtocolError::BodyTooLarge)
    } else {
        Ok(())
    }
}

/// Whether a complete body of `body_len` bytes is accepted: an empty body, one
/// that disagrees with the declared length, or one shorter than a DNS header
/// is incomplete, never a silently accepted prefix.
pub open spec fn h3_body_complete_spec(body_len: usize, declared: Option<u64>) -> Result<
    (),
    DohProtocolError,
> {
    if body_len == 0 || (declared matches Some(d) && d != body_len) || body_len < DNS_HEADER_LEN {
        Err(DohProtocolError::IncompleteBody)
    } else {
        Ok(())
    }
}

/// Checks a complete body against its declared length and the DNS header.
pub fn h3_body_complete(body_len: usize, declared: Option<u64>) -> (r: Result<(), DohProtocolError>)
    ensures
        r == h3_body_complete_spec(body_len, declared),
{
    if body_len == 0 {
        return Err(DohProtocolError::IncompleteBody);
    }
    if let Some(d) = declared {
        if d != body_len as u64 {
            return Err(DohProtocolError::IncompleteBody);
        }
    }
    if body_len < DNS_HEADER_LEN {
        return Err(DohProtocolError::IncompleteBody);
    }
    Ok(())
}

/// The body of one DoH3 response, collected chunk by chunk under a bound.
pub struct H3BodyCollector {
    collected: Vec<u8>,
    max_body: usize,
}

impl H3BodyCollector {
    /// The bytes collected so far.
    pub closed spec fn collected_spec(&self) -> Seq<u8> {
        self.collected@
    }

    /// The body bound this collector enforces.
    pub closed spec fn max_body_spec(&self) -> usize {
        self.max_body
    }

    /// Nothing collected yet, and never more than the bound.
    pub open spec fn wf(&self) -> bool {
        self.collected_spec().len() <= self.max_body_spec()
    }

    /// An empty collector for a body of at most `max_body` bytes.
    pub fn new(max_body: usize) -> (r: Self)
        ensures
            r.collected_spec() == Seq::<u8>::empty(),
            r.max_body_spec() == max_body,
            r.wf(),
    {
        H3BodyCollector { collected: Vec::new(), max_body }
    }

    /// Adds one received DATA chunk; a chunk that would take the body past
    /// the bound is refused with `BodyTooLarge` and nothing is kept of it.
    pub fn push_chunk(&mut self, chunk: &[u8]) -> (r: Result<(), DohProtocolError>)
        requires
            old(self).wf(),
        ensures
            final(self).wf(),
            final(self).max_body_spec() == old(self).max_body_spec(),
            old(self).collected_spec().len() + chunk@.len() > old(self).max_body_spec() ==> (r
                == Err::<(), DohProtocolError>(DohProtocolError::BodyTooLarge) && final(self).collected_spec()
                == old(self).collected_spec()),
            old(self).collected_spec().len() + chunk@.len() <= old(self).max_body_spec() ==> (r is Ok
                && final(self).collected_spec() == old(self).collected_spec() + chunk@),
    {
        h3_body_step(self.collected.len(), chunk.len(), self.max_body)?;
        let ghost before = self.collected@;
        let ghost max0 = self.max_body;
        let mut i: usize = 0;
        while i < chunk.len()
            invariant
                self.max_body == max0,
                max0 == old(self).max_body,
                before == old(self).collected@,
                i <= chunk@.len(),
                before.len() + chunk@.len() <= self.max_body,
                self.collected@ == before + chunk@.subrange(0, i as int),
            decreases chunk@.len() - i,
        {
            self.collected.push(chunk[i]);
            i = i + 1;
            proof {
                assert(chunk@.subrange(0, i as int) == chunk@.subrange(0, i - 1).push(chunk@[i - 1]));
            }
        }
        proof {
            assert(chunk@.subrange(0, chunk@.len() as int) == chunk@);
        }
        Ok(())
    }

    /// The end of the body: the collected bytes when they form a complete
    /// body for the declared length, else `IncompleteBody`.
    pub fn finish(self, declared: Option<u64>) -> (r: Result<Vec<u8>, DohProtocolError>)
        ensures
            match h3_body_complete_spec(self.collected_spec().len() as usize, declared) {
                Ok(()) => r matches Ok(body) && body@ == self.collected_spec(),
                Err(e) => r == Err::<Vec<u8>, DohProtocolError>(e),
            },
    {
        match h3_body_complete(self.collected.len(), declared) {
            Ok(()) => Ok(self.collected),
            Err(e) => Err(e),
        }
    }
}

/// How receiving a response head failed, as far as the DoH contract tells
/// failures apart.
#[derive(Clone, Copy, Debug, PartialEq, Eq, Structural)]
pub enum H3HeadFailure {
    /// The field section exceeded the advertised size bound.
    HeaderTooBig,
    /// The stream or connection ended, or any other message error.
    Other,
}

/// Classifies a response-head failure: a field section above the bound is
/// the head-size violation; anything else is conservatively a head that was
/// not received.
pub fn classify_h3_head_failure(failure: H3HeadFailure) -> (r: Doh3Error)
    ensures
        failure == H3HeadFailure::HeaderTooBig ==> r == Doh3Error::Protocol(
            DohProtocolError::ResponseHeadTooLarge,
        ),
        failure == H3HeadFailure::Other ==> r == Doh3Error::Protocol(
            DohProtocolError::ResponseHeadNotReceived,
        ),
{
    match failure {
        H3HeadFailure::HeaderTooBig => Doh3Error::Protocol(DohProtocolError::ResponseHeadTooLarge),
        H3HeadFailure::Other => Doh3Error::Protocol(DohProtocolError::ResponseHeadNotReceived),
    }
}

/// Classifies an h3 connection-build failure: only the control and QPACK
/// streams were opened, so it is a connect failure with nothing sent.
pub fn classify_h3_setup_error(error: &h3::error::ConnectionError) -> (r: Doh3Error)
    ensures
        r == Doh3Error::Transport(UpstreamError::Connect),
{
    Doh3Error::Transport(UpstreamError::Connect)
}

/// Classifies a request-send or request-finish failure: the request may have
/// been partly written, so it is a send failure with `MaybeSent`.
pub fn classify_h3_send_error(error: &h3::error::StreamError) -> (r: Doh3Error)
    ensures
        r == Doh3Error::Transport(UpstreamError::Send(SideEffectState::MaybeSent)),
{
    Doh3Error::Transport(UpstreamError::Send(SideEffectState::MaybeSent))
}

/// Classifies a body-read failure: the head was observed, so the request was
/// sent, and any read failure proves the body did not complete.
pub fn classify_h3_body_error(error: &h3::error::StreamError) -> (r: Doh3Error)
    ensures
        r == Doh3Error::Protocol(DohProtocolError::IncompleteBody),
{
    Doh3Error::Protocol(DohProtocolError::IncompleteBody)
}

} // verus!
