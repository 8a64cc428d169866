//! Controlled serial connection reuse for the plain-TCP and secure upstreams:
//! the reuse key, the typed pool errors, and the idle-connection owner.

use vstd::prelude::*;

use crate::addr::SocketAddress;
use crate::error::{RequestError, SideEffectState, Transport, UpstreamError};
use crate::identity::{identity_acceptable, identity_text, ServiceIdentity, TrustPolicy, NO_ROOTS_REVISION};
use crate::resolver::destination::IpLiteral;
use crate::upstream::Endpoint;
use vstd::std_specs::convert::FromSpecImpl;

pub mod owner;
pub mod secure;

pub use crate::resolver::{Clock, SystemClock};

verus! {

/// Retained idle connections for one reuse key.
pub const MAX_IDLE_PER_KEY: usize = 1;

/// Retained idle connections across all keys.
pub const MAX_IDLE_TOTAL: usize = 8;

/// Maximum age (milliseconds) of an idle entry, evaluated lazily at checkout
/// from the caller's clock; no timer exists.
pub const IDLE_TIMEOUT: u64 = 10000;

/// Concurrent outstanding queries on one reused connection: serial.
pub const MAX_PENDING_PER_CONNECTION: usize = 1;

/// Which secure protocol a pooled connection speaks.
#[derive(Clone, Copy, Debug, PartialEq, Eq, Structural)]
pub enum SecureKind {
    /// DNS-over-TLS.
    Dot,
    /// DNS-over-HTTPS.
    Doh,
}

/// The secure half of a reuse key, as plain values.
pub struct SecureKeyView {
    pub kind: SecureKind,
    pub identity: Seq<char>,
    pub authority: Option<Seq<char>>,
    pub insecure_skip_verify: bool,
    pub roots_revision: u64,
}

/// The secure half of a reuse key: the protocol, the normalized service
/// identity, the DoH URL authority, and the trust policy identified by both
/// its mode and its opaque roots revision, so a connection authenticated under
/// one trust configuration is never reused under another.
#[derive(Debug, PartialEq, Eq)]
pub struct SecureKey {
    kind: SecureKind,
    identity: String,
    authority: Option<String>,
    insecure_skip_verify: bool,
    roots_revision: u64,
}

pub open spec fn opt_str_view(o: Option<&str>) -> Option<Seq<char>> {
    match o {
        Some(s) => Some(s@),
        None => None,
    }
}

pub open spec fn opt_string_view(o: Option<String>) -> Option<Seq<char>> {
    match o {
        Some(s) => Some(s@),
        None => None,
    }
}

fn owned_opt(o: Option<&str>) -> (r: Option<String>)
    ensures
        opt_string_view(r) == opt_str_view(o),
{
    match o {
        Some(s) => Some(s.to_owned()),
        None => None,
    }
}

fn clone_opt(o: &Option<String>) -> (r: Option<String>)
    ensures
        opt_string_view(r) == opt_string_view(*o),
{
    match o {
        Some(s) => Some(s.clone()),
        None => None,
    }
}

fn same_opt(a: &Option<String>, b: &Option<String>) -> (r: bool)
    ensures
        r == (opt_string_view(*a) == opt_string_view(*b)),
{
    match (a, b) {
        (Some(x), Some(y)) => *x == *y,
        (None, None) => true,
        _ => false,
    }
}

fn borrow_opt(o: &Option<String>) -> (r: Option<&str>)
    ensures
        opt_str_view(r) == opt_string_view(*o),
{
    match o {
        Some(s) => Some(s.as_str()),
        None => None,
    }
}

impl View for SecureKey {
    type V = SecureKeyView;

    closed spec fn view(&self) -> SecureKeyView {
        SecureKeyView {
            kind: self.kind,
            identity: self.identity@,
            authority: opt_string_view(self.authority),
            insecure_skip_verify: self.insecure_skip_verify,
            roots_revision: self.roots_revision,
        }
    }
}

impl Clone for SecureKey {
    fn clone(&self) -> (r: Self)
        ensures
            r@ == self@,
    {
        SecureKey {
            kind: self.kind,
            identity: self.identity.clone(),
            authority: clone_opt(&self.authority),
            insecure_skip_verify: self.insecure_skip_verify,
            roots_revision: self.roots_revision,
        }
    }
}

/// The key a successful construction describes.
pub open spec fn secure_key_spec(
    kind: SecureKind,
    identity: &str,
    literal: Option<IpLiteral>,
    authority: Option<&str>,
    insecure_skip_verify: bool,
    roots_revision: u64,
) -> SecureKeyView {
    SecureKeyView {
        kind,
        identity: identity_text(identity, literal),
        authority: opt_str_view(authority),
        insecure_skip_verify,
        roots_revision,
    }
}

impl SecureKey {
    /// Builds a policy-agnostic secure key: it records only whether
    /// verification is skipped, with the no-roots revision. `literal` is the
    /// platform address parser's reading of `identity`. The identity must be a
    /// valid DNS name or an IP literal.
    pub fn new(
        kind: SecureKind,
        identity: &str,
        literal: Option<IpLiteral>,
        authority: Option<&str>,
        insecure_skip_verify: bool,
    ) -> (r: Self)
        requires
            identity_acceptable(identity, literal),
        ensures
            r@ == secure_key_spec(
                kind,
                identity,
                literal,
                authority,
                insecure_skip_verify,
                NO_ROOTS_REVISION,
            ),
    {
        Self::try_new(kind, identity, literal, authority, insecure_skip_verify).unwrap()
    }

    /// Builds a policy-agnostic secure key, rejecting an unusable identity
    /// with `InvalidRequest(Malformed)`.
    pub fn try_new(
        kind: SecureKind,
        identity: &str,
        literal: Option<IpLiteral>,
        authority: Option<&str>,
        insecure_skip_verify: bool,
    ) -> (r: Result<Self, UpstreamError>)
        ensures
            !identity_acceptable(identity, literal) ==> r == Err::<Self, UpstreamError>(
                UpstreamError::InvalidRequest(RequestError::Malformed),
            ),
            identity_acceptable(identity, literal) ==> (r matches Ok(k) && k@ == secure_key_spec(
                kind,
                identity,
                literal,
                authority,
                insecure_skip_verify,
                NO_ROOTS_REVISION,
            )),
    {
        Self::try_new_with_revision(
            kind,
            identity,
            literal,
            authority,
            insecure_skip_verify,
            NO_ROOTS_REVISION,
        )
    }

    /// Builds a secure key from a service identity and a trust policy, which
    /// supplies both the verification mode and its roots revision.
    pub fn from_policy(
        kind: SecureKind,
        identity: &str,
        literal: Option<IpLiteral>,
        authority: Option<&str>,
        policy: &TrustPolicy,
    ) -> (r: Self)
        requires
            identity_acceptable(identity, literal),
        ensures
            r@ == secure_key_spec(
                kind,
                identity,
                literal,
                authority,
                policy.insecure_spec(),
                policy.revision_spec(),
            ),
    {
        Self::try_new_with_revision(
            kind,
            identity,
            literal,
            authority,
            policy.is_insecure_skip_verify(),
            policy.roots_revision(),
        ).unwrap()
    }

    /// The secure key of an already validated service identity under a trust
    /// policy.
    pub fn from_identity(
        kind: SecureKind,
        identity: &ServiceIdentity,
        authority: Option<&str>,
        policy: &TrustPolicy,
    ) -> (r: Self)
        ensures
            r@ == (SecureKeyView {
                kind,
                identity: identity.text_spec(),
                authority: opt_str_view(authority),
                insecure_skip_verify: policy.insecure_spec(),
                roots_revision: policy.revision_spec(),
            }),
    {
        SecureKey {
            kind,
            identity: identity.as_str().to_owned(),
            authority: owned_opt(authority),
            insecure_skip_verify: policy.is_insecure_skip_verify(),
            roots_revision: policy.roots_revision(),
        }
    }

    /// Builds a secure key with an explicit roots revision, rejecting an
    /// unusable identity with `InvalidRequest(Malformed)`.
    pub fn try_new_with_revision(
        kind: SecureKind,
        identity: &str,
        literal: Option<IpLiteral>,
        authority: Option<&str>,
        insecure_skip_verify: bool,
        roots_revision: u64,
    ) -> (r: Result<Self, UpstreamError>)
        ensures
            !identity_acceptable(identity, literal) ==> r == Err::<Self, UpstreamError>(
                UpstreamError::InvalidRequest(RequestError::Malformed),
            ),
            identity_acceptable(identity, literal) ==> (r matches Ok(k) && k@ == secure_key_spec(
                kind,
                identity,
                literal,
                authority,
                insecure_skip_verify,
                roots_revision,
            )),
    {
        let identity = match ServiceIdentity::new(identity, literal) {
            Ok(identity) => identity,
            Err(_) => return Err(UpstreamError::InvalidRequest(RequestError::Malformed)),
        };
        Ok(
            SecureKey {
                kind,
                identity: identity.as_str().to_owned(),
                authority: owned_opt(authority),
                insecure_skip_verify,
                roots_revision,
            },
        )
    }

    /// The secure protocol this key describes.
    pub fn kind(&self) -> (r: SecureKind)
        ensures
            r == self@.kind,
    {
        self.kind
    }

    /// The normalized TLS service identity text.
    pub fn identity(&self) -> (r: &str)
        ensures
            r@ == self@.identity,
    {
        self.identity.as_str()
    }

    /// The DoH URL authority, when the service is HTTPS.
    pub fn authority(&self) -> (r: Option<&str>)
        ensures
            opt_str_view(r) == self@.authority,
    {
        borrow_opt(&self.authority)
    }

    /// Whether the connection was opened under an insecure-skip-verify policy.
    pub fn is_insecure_skip_verify(&self) -> (r: bool)
        ensures
            r == self@.insecure_skip_verify,
    {
        self.insecure_skip_verify
    }

    /// The opaque roots revision of the trust configuration.
    pub fn roots_revision(&self) -> (r: u64)
        ensures
            r == self@.roots_revision,
    {
        self.roots_revision
    }

    /// Whether two secure keys agree on every field.
    pub fn same_key(&self, other: &Self) -> (r: bool)
        ensures
            r == (self@ == other@),
    {
        self.kind == other.kind && self.identity == other.identity && same_opt(
            &self.authority,
            &other.authority,
        ) && self.insecure_skip_verify == other.insecure_skip_verify && self.roots_revision
            == other.roots_revision
    }
}

/// A reuse key as plain values.
pub struct ReuseKeyView {
    pub dial: SocketAddress,
    pub transport: Transport,
    pub secure: Option<SecureKeyView>,
    pub negotiated: Option<Seq<char>>,
}

/// The identity of one reusable connection, built only from a validated
/// numeric endpoint plus the secure identity material: a hostname never
/// appears, the numeric dial is the destination, and the negotiated protocol
/// is part of the key.
#[derive(Debug, PartialEq, Eq)]
pub struct ReuseKey {
    dial: SocketAddress,
    transport: Transport,
    secure: Option<SecureKey>,
    negotiated: Option<String>,
}

pub open spec fn opt_secure_view(o: Option<SecureKey>) -> Option<SecureKeyView> {
    match o {
        Some(s) => Some(s@),
        None => None,
    }
}

impl View for ReuseKey {
    type V = ReuseKeyView;

    closed spec fn view(&self) -> ReuseKeyView {
        ReuseKeyView {
            dial: self.dial,
            transport: self.transport,
            secure: opt_secure_view(self.secure),
            negotiated: opt_string_view(self.negotiated),
        }
    }
}

impl Clone for ReuseKey {
    fn clone(&self) -> (r: Self)
        ensures
            r@ == self@,
    {
        ReuseKey {
            dial: self.dial,
            transport: self.transport,
            secure: match &self.secure {
                Some(s) => Some(s.clone()),
                None => None,
            },
            negotiated: clone_opt(&self.negotiated),
        }
    }
}

impl ReuseKey {
    /// The key of a validated numeric endpoint.
    pub fn from_endpoint(endpoint: Endpoint) -> (r: Self)
        ensures
            r@ == (ReuseKeyView {
                dial: endpoint.address_spec(),
                transport: endpoint.transport_spec(),
                secure: None,
                negotiated: None,
            }),
    {
        ReuseKey {
            dial: endpoint.address(),
            transport: endpoint.transport(),
            secure: None,
            negotiated: None,
        }
    }

    /// The key of a validated numeric endpoint; UDP is connectionless, so it
    /// is refused with `InvalidRequest(Malformed)`.
    pub fn try_from_endpoint(endpoint: Endpoint) -> (r: Result<Self, UpstreamError>)
        ensures
            endpoint.transport_spec() == Transport::Udp ==> r == Err::<Self, UpstreamError>(
                UpstreamError::InvalidRequest(RequestError::Malformed),
            ),
            endpoint.transport_spec() == Transport::Tcp ==> (r matches Ok(k) && k@ == (ReuseKeyView {
                dial: endpoint.address_spec(),
                transport: Transport::Tcp,
                secure: None,
                negotiated: None,
            })),
    {
        if endpoint.transport() == Transport::Udp {
            return Err(UpstreamError::InvalidRequest(RequestError::Malformed));
        }
        Ok(Self::from_endpoint(endpoint))
    }

    /// A provisional key for a secure endpoint: TCP, with no negotiated
    /// protocol until a handshake reports one. A provisional key can only ever
    /// miss a lookup.
    pub fn plain_secure_endpoint(dial: SocketAddress, secure: SecureKey) -> (r: Result<
        Self,
        UpstreamError,
    >)
        ensures
            r matches Ok(k) && k@ == (ReuseKeyView {
                dial,
                transport: Transport::Tcp,
                secure: Some(secure@),
                negotiated: None,
            }),
    {
        Ok(ReuseKey { dial, transport: Transport::Tcp, secure: Some(secure), negotiated: None })
    }

    /// Refines this key with the protocol a handshake negotiated.
    pub fn with_negotiated_protocol(self, negotiated: Option<String>) -> (r: Self)
        ensures
            r@ == (ReuseKeyView { negotiated: opt_string_view(negotiated), ..self@ }),
    {
        ReuseKey { negotiated, ..self }
    }

    /// The numeric destination the connection was opened to.
    pub fn dial(&self) -> (r: SocketAddress)
        ensures
            r == self@.dial,
    {
        self.dial
    }

    /// The transport this connection speaks.
    pub fn transport(&self) -> (r: Transport)
        ensures
            r == self@.transport,
    {
        self.transport
    }

    /// The secure half of the key, or `None` for plain TCP.
    pub fn secure(&self) -> (r: Option<&SecureKey>)
        ensures
            match r {
                Some(s) => self@.secure == Some(s@),
                None => self@.secure is None,
            },
    {
        match &self.secure {
            Some(s) => Some(s),
            None => None,
        }
    }

    /// The protocol negotiated on the connection, if any.
    pub fn negotiated_protocol(&self) -> (r: Option<&str>)
        ensures
            opt_str_view(r) == self@.negotiated,
    {
        borrow_opt(&self.negotiated)
    }

    /// Whether two keys name the same service: the same numeric dial, the same
    /// transport, and the same secure half, whatever protocol was negotiated.
    pub fn same_service(&self, other: &Self) -> (r: bool)
        ensures
            r == (self@.dial == other@.dial && self@.transport == other@.transport
                && self@.secure == other@.secure),
    {
        let secure_same = match (&self.secure, &other.secure) {
            (Some(a), Some(b)) => a.same_key(b),
            (None, None) => true,
            _ => false,
        };
        self.dial == other.dial && self.transport == other.transport && secure_same
    }

    /// Whether two keys agree on every isolation dimension.
    pub fn same_key(&self, other: &Self) -> (r: bool)
        ensures
            r == (self@ == other@),
    {
        let secure_same = match (&self.secure, &other.secure) {
            (Some(a), Some(b)) => a.same_key(b),
            (None, None) => true,
            _ => false,
        };
        self.dial == other.dial && self.transport == other.transport && secure_same && same_opt(
            &self.negotiated,
            &other.negotiated,
        )
    }
}

/// A typed connection-reuse failure; it never relabels a transport failure.
#[derive(Clone, Copy, Debug, PartialEq, Eq, Structural)]
pub enum PoolError {
    /// The key already has an outstanding exchange; nothing is queued.
    Busy,
    /// The owner is closing or closed.
    Closed,
    /// A connectionless endpoint cannot be pooled.
    NotReusable,
}

pub open spec fn pool_error_message_spec(e: PoolError) -> &'static str {
    match e {
        PoolError::Busy => "this key already has an outstanding exchange",
        PoolError::Closed => "the reuse owner is closed",
        PoolError::NotReusable => "a connectionless endpoint cannot be pooled",
    }
}

impl PoolError {
    /// The human-readable description.
    pub fn message(self) -> (r: &'static str)
        ensures
            r == pool_error_message_spec(self),
    {
        match self {
            PoolError::Busy => "this key already has an outstanding exchange",
            PoolError::Closed => "the reuse owner is closed",
            PoolError::NotReusable => "a connectionless endpoint cannot be pooled",
        }
    }
}

/// The transport error a pool failure is reported as: a busy key wrote
/// nothing (`Runtime(NotSent)`), a closed owner is `Closed(NotSent)`, and an
/// unpoolable endpoint is a malformed request.
pub open spec fn pool_error_to_upstream(e: PoolError) -> UpstreamError {
    match e {
        PoolError::Busy => UpstreamError::Runtime(SideEffectState::NotSent),
        PoolError::Closed => UpstreamError::Closed(SideEffectState::NotSent),
        PoolError::NotReusable => UpstreamError::InvalidRequest(RequestError::Malformed),
    }
}

impl From<PoolError> for UpstreamError {
    fn from(error: PoolError) -> (r: Self) {
        match error {
            PoolError::Busy => UpstreamError::Runtime(SideEffectState::NotSent),
            PoolError::Closed => UpstreamError::Closed(SideEffectState::NotSent),
            PoolError::NotReusable => UpstreamError::InvalidRequest(RequestError::Malformed),
        }
    }
}

impl FromSpecImpl<PoolError> for UpstreamError {
    open spec fn obeys_from_spec() -> bool {
        true
    }

    open spec fn from_spec(v: PoolError) -> UpstreamError {
        pool_error_to_upstream(v)
    }
}

} // verus!
