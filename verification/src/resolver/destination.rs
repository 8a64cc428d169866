use vstd::prelude::*;

use super::hostname::{normalize_hostname, normalized_hostname, trim_root_dot, valid_hostname};
use super::ResolverError;
use crate::addr::{family_of_spec, AddressFamily, IpAddress, SocketAddress};
use vstd::string::StringSliceAdditionalSpecFns;

verus! {

/// An IP literal as the platform's address parser reads it: the address and
/// its canonical text.
#[derive(Debug, PartialEq, Eq)]
pub struct IpLiteral {
    pub address: IpAddress,
    pub text: String,
}

/// A validated resolution input: a normalized hostname or numeric literal, a
/// nonzero port, and the selected address family.
#[derive(Debug, PartialEq, Eq)]
pub struct ResolutionTarget {
    host: String,
    port: u16,
    family: AddressFamily,
    numeric: Option<IpAddress>,
}

impl Clone for ResolutionTarget {
    fn clone(&self) -> (r: Self)
        ensures
            r == *self,
    {
        proof {
            use_type_invariant(self);
        }
        ResolutionTarget {
            host: self.host.clone(),
            port: self.port,
            family: self.family,
            numeric: self.numeric,
        }
    }
}

impl ResolutionTarget {
    #[verifier::type_invariant]
    spec fn literal_matches_family(self) -> bool {
        self.numeric matches Some(ip) ==> family_of_spec(ip) == self.family
    }

    pub closed spec fn host_spec(&self) -> Seq<char> {
        self.host@
    }

    pub closed spec fn port_spec(&self) -> u16 {
        self.port
    }

    pub closed spec fn family_spec(&self) -> AddressFamily {
        self.family
    }

    pub closed spec fn numeric_spec(&self) -> Option<IpAddress> {
        self.numeric
    }

    /// Validates and normalizes a target.
    ///
    /// `host` may be a DNS hostname or an IP literal; `literal` is the platform
    /// address parser's reading of `host` (`None` when it is not a literal). A
    /// literal bypasses resolution and keeps its canonical text; a hostname is
    /// normalized to lowercase without a trailing root dot.
    pub fn new(host: &str, literal: Option<IpLiteral>, port: u16, family: AddressFamily) -> (r:
        Result<Self, ResolverError>)
        ensures
            port == 0 ==> r == Err::<Self, ResolverError>(ResolverError::ZeroPort),
            port != 0 && literal is Some && family_of_spec(literal->0.address) != family ==> r
                == Err::<Self, ResolverError>(ResolverError::FamilyMismatch),
            port != 0 && literal is Some && family_of_spec(literal->0.address) == family ==> (
            r matches Ok(t) && t.host_spec() == literal->0.text@ && t.port_spec() == port
                && t.family_spec() == family && t.numeric_spec() == Some(literal->0.address)),
            port != 0 && literal is None && !valid_hostname(trim_root_dot(host.spec_bytes()))
                ==> r == Err::<Self, ResolverError>(ResolverError::InvalidHostname),
            port != 0 && literal is None && valid_hostname(trim_root_dot(host.spec_bytes())) ==> (
            r matches Ok(t) && t.host_spec() == normalized_hostname(host.spec_bytes())
                && t.port_spec() == port && t.family_spec() == family && t.numeric_spec()
                is None),
    {
        if port == 0 {
            return Err(ResolverError::ZeroPort);
        }
        match literal {
            Some(literal) => {
                if literal.address.family() != family {
                    return Err(ResolverError::FamilyMismatch);
                }
                Ok(ResolutionTarget {
                    host: literal.text,
                    port,
                    family,
                    numeric: Some(literal.address),
                })
            },
            None => {
                let normalized = normalize_hostname(host)?;
                Ok(ResolutionTarget { host: normalized, port, family, numeric: None })
            },
        }
    }

    /// The normalized hostname, or the canonical literal text.
    pub fn host(&self) -> (r: &str)
        ensures
            r@ == self.host_spec(),
    {
        self.host.as_str()
    }

    pub fn port(&self) -> (r: u16)
        ensures
            r == self.port_spec(),
    {
        self.port
    }

    pub fn family(&self) -> (r: AddressFamily)
        ensures
            r == self.family_spec(),
    {
        self.family
    }

    /// Whether this target is an IP literal that bypasses DNS resolution.
    pub fn is_numeric(&self) -> (r: bool)
        ensures
            r == self.numeric_spec() is Some,
    {
        self.numeric.is_some()
    }

    /// The already-usable numeric destination for a literal target.
    pub fn numeric_address(&self) -> (r: Option<SocketAddress>)
        ensures
            self.numeric_spec() is None ==> r is None,
            self.numeric_spec() matches Some(ip) ==> r == Some(
                SocketAddress { ip, port: self.port_spec() },
            ),
            r matches Some(a) ==> family_of_spec(a.ip) == self.family_spec(),
    {
        proof {
            use_type_invariant(self);
        }
        match self.numeric {
            Some(ip) => Some(SocketAddress { ip, port: self.port }),
            None => None,
        }
    }
}

/// A validated numeric UDP bootstrap peer.
#[derive(Clone, Copy, Debug, PartialEq, Eq, Structural)]
pub struct BootstrapEndpoint {
    address: SocketAddress,
}

impl BootstrapEndpoint {
    pub closed spec fn address_spec(self) -> SocketAddress {
        self.address
    }

    /// Validates a numeric bootstrap peer. `literal` is the platform address
    /// parser's reading of the configured host (`None` when the host is not an
    /// IP literal, including a literal with an embedded `:port`).
    pub fn new(literal: Option<IpAddress>, port: u16) -> (r: Result<Self, ResolverError>)
        ensures
            port == 0 ==> r == Err::<Self, ResolverError>(ResolverError::ZeroPort),
            port != 0 && literal is None ==> r == Err::<Self, ResolverError>(
                ResolverError::BootstrapNotNumeric,
            ),
            port != 0 && literal is Some ==> (r matches Ok(b) && b.address_spec()
                == SocketAddress { ip: literal->0, port }),
    {
        if port == 0 {
            return Err(ResolverError::ZeroPort);
        }
        match literal {
            Some(ip) => Ok(BootstrapEndpoint { address: SocketAddress { ip, port } }),
            None => Err(ResolverError::BootstrapNotNumeric),
        }
    }

    /// The numeric UDP peer address.
    pub fn address(self) -> (r: SocketAddress)
        ensures
            r == self.address_spec(),
    {
        self.address
    }

    /// The peer's address family.
    pub fn family(self) -> (r: AddressFamily)
        ensures
            r == family_of_spec(self.address_spec().ip),
    {
        self.address.ip.family()
    }
}

/// A validated numeric address with its freshness metadata (instants in
/// milliseconds on the caller's monotonic time base).
#[derive(Clone, Copy, Debug, PartialEq, Eq, Structural)]
pub struct ResolvedDestination {
    address: IpAddress,
    family: AddressFamily,
    ttl_secs: u64,
    expires_at: Option<u64>,
}

impl ResolvedDestination {
    pub closed spec fn address_spec(self) -> IpAddress {
        self.address
    }

    pub closed spec fn family_spec(self) -> AddressFamily {
        self.family
    }

    pub closed spec fn ttl_spec(self) -> u64 {
        self.ttl_secs
    }

    pub closed spec fn expiry_spec(self) -> Option<u64> {
        self.expires_at
    }

    /// Not fresh at `now`: it has an expiry and `now` has reached it.
    pub open spec fn expired_at(self, now: u64) -> bool {
        self.expiry_spec() matches Some(e) && now >= e
    }

    /// Builds a DNS-derived destination whose freshness starts at `now`.
    pub fn new(address: IpAddress, family: AddressFamily, ttl_secs: u32, now: u64) -> (r: Result<
        Self,
        ResolverError,
    >)
        requires
            now + ttl_secs * 1000 <= u64::MAX,
        ensures
            family_of_spec(address) != family ==> r == Err::<Self, ResolverError>(
                ResolverError::FamilyMismatch,
            ),
            family_of_spec(address) == family && ttl_secs == 0 ==> r == Err::<Self, ResolverError>(
                ResolverError::InvalidTtl,
            ),
            family_of_spec(address) == family && ttl_secs != 0 ==> (r matches Ok(d)
                && d.address_spec() == address && d.family_spec() == family && d.ttl_spec()
                == ttl_secs && d.expiry_spec() == Some((now + ttl_secs * 1000) as u64)),
    {
        if address.family() != family {
            return Err(ResolverError::FamilyMismatch);
        }
        if ttl_secs == 0 {
            return Err(ResolverError::InvalidTtl);
        }
        let ttl = ttl_secs as u64;
        Ok(ResolvedDestination { address, family, ttl_secs: ttl, expires_at: Some(now + ttl * 1000) })
    }

    /// Builds the timeless destination of an IP literal: zero TTL, no expiry.
    pub fn new_literal(address: IpAddress, family: AddressFamily) -> (r: Self)
        requires
            family_of_spec(address) == family,
        ensures
            r.address_spec() == address,
            r.family_spec() == family,
            r.ttl_spec() == 0,
            r.expiry_spec() is None,
    {
        ResolvedDestination { address, family, ttl_secs: 0, expires_at: None }
    }

    pub fn address(&self) -> (r: IpAddress)
        ensures
            r == self.address_spec(),
    {
        self.address
    }

    pub fn family(&self) -> (r: AddressFamily)
        ensures
            r == self.family_spec(),
    {
        self.family
    }

    /// The effective TTL in seconds; zero for a literal.
    pub fn ttl(&self) -> (r: u64)
        ensures
            r == self.ttl_spec(),
    {
        self.ttl_secs
    }

    /// The instant this destination stops being fresh; `None` for a literal.
    pub fn expiry(&self) -> (r: Option<u64>)
        ensures
            r == self.expiry_spec(),
    {
        self.expires_at
    }

    /// Whether the destination is no longer fresh. A literal is never expired.
    pub fn is_expired(&self, now: u64) -> (r: bool)
        ensures
            r == self.expired_at(now),
    {
        match self.expires_at {
            Some(expiry) => now >= expiry,
            None => false,
        }
    }
}

/// A resolved destination together with the validated target it belongs to.
#[derive(Debug, PartialEq, Eq)]
pub struct PublishedTarget {
    target: ResolutionTarget,
    destination: ResolvedDestination,
}

impl Clone for PublishedTarget {
    fn clone(&self) -> (r: Self)
        ensures
            r == *self,
    {
        PublishedTarget { target: self.target.clone(), destination: self.destination }
    }
}

impl PublishedTarget {
    pub closed spec fn target_spec(&self) -> ResolutionTarget {
        self.target
    }

    pub closed spec fn destination_spec(&self) -> ResolvedDestination {
        self.destination
    }

    /// Publishes a destination for a validated target.
    pub fn new(target: ResolutionTarget, destination: ResolvedDestination) -> (r: Self)
        ensures
            r.target_spec() == target,
            r.destination_spec() == destination,
    {
        PublishedTarget { target, destination }
    }

    pub fn target(&self) -> (r: &ResolutionTarget)
        ensures
            *r == self.target_spec(),
    {
        &self.target
    }

    pub fn destination(&self) -> (r: &ResolvedDestination)
        ensures
            *r == self.destination_spec(),
    {
        &self.destination
    }

    pub fn address(&self) -> (r: IpAddress)
        ensures
            r == self.destination_spec().address_spec(),
    {
        self.destination.address()
    }

    /// The numeric address the transport dials: the resolved address at the
    /// target's port.
    pub fn dial(&self) -> (r: SocketAddress)
        ensures
            r == (SocketAddress {
                ip: self.destination_spec().address_spec(),
                port: self.target_spec().port_spec(),
            }),
    {
        SocketAddress { ip: self.destination.address(), port: self.target.port() }
    }

    pub fn port(&self) -> (r: u16)
        ensures
            r == self.target_spec().port_spec(),
    {
        self.target.port()
    }

    pub fn family(&self) -> (r: AddressFamily)
        ensures
            r == self.destination_spec().family_spec(),
    {
        self.destination.family()
    }

    pub fn ttl(&self) -> (r: u64)
        ensures
            r == self.destination_spec().ttl_spec(),
    {
        self.destination.ttl()
    }

    pub fn expiry(&self) -> (r: Option<u64>)
        ensures
            r == self.destination_spec().expiry_spec(),
    {
        self.destination.expiry()
    }

    pub fn is_expired(&self, now: u64) -> (r: bool)
        ensures
            r == self.destination_spec().expired_at(now),
    {
        self.destination.is_expired(now)
    }
}

/// Turns an IP literal into an immediately usable published target: no DNS
/// socket, no bootstrap traffic, and no TTL.
pub fn resolve_numeric(literal: IpLiteral, port: u16) -> (r: Result<PublishedTarget, ResolverError>)
    ensures
        port == 0 ==> r == Err::<PublishedTarget, ResolverError>(ResolverError::ZeroPort),
        port != 0 ==> (r matches Ok(p) && p.target_spec().host_spec() == literal.text@
            && p.target_spec().port_spec() == port && p.target_spec().numeric_spec() == Some(
            literal.address,
        ) && p.target_spec().family_spec() == family_of_spec(literal.address)
            && p.destination_spec().address_spec() == literal.address
            && p.destination_spec().family_spec() == family_of_spec(literal.address)
            && p.destination_spec().expiry_spec() is None),
{
    let address = literal.address;
    let family = address.family();
    let text = literal.text;
    let target = ResolutionTarget::new(text.as_str(), Some(IpLiteral { address, text: text.clone() }), port, family)?;
    Ok(PublishedTarget::new(target, ResolvedDestination::new_literal(address, family)))
}

} // verus!
