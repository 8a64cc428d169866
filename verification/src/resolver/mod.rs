//! Endpoint resolution: typed target/bootstrap/policy inputs, config-version
//! mapping, numeric dial bypass, deterministic expiry metadata, and the
//! multi-family publication state.

use vstd::prelude::*;

use crate::addr::AddressFamily;
use std::time::Instant;

pub mod bootstrap;
pub mod destination;
pub mod hostname;
pub mod owner;
pub mod snapshot;

verus! {

/// `std::time::Instant`, carried opaquely: nothing about a reading is
/// visible to the proofs.
#[verifier::external_type_specification]
#[verifier::external_body]
pub struct ExInstant(Instant);

/// `Instant::now`: the current reading of the process's monotonic clock. It
/// depends on the time of the call, so nothing is stated about it.
#[verifier::external_body]
fn instant_now() -> Instant {
    Instant::now()
}

/// An injected time source, so refresh and expiry stay deterministic under
/// test and the caller keeps control of the time base.
pub trait Clock {
    /// The current instant.
    fn now(&self) -> Instant;
}

/// The production clock, reading the process time base.
#[derive(Clone, Copy, Debug, Default)]
pub struct SystemClock;

impl Clock for SystemClock {
    fn now(&self) -> Instant {
        instant_now()
    }
}

/// A typed resolver/bootstrap failure.
#[derive(Clone, Copy, Debug, PartialEq, Eq, Structural)]
pub enum ResolverError {
    /// The hostname is empty, over 253 octets, or not plain hostname syntax.
    InvalidHostname,
    /// A port of zero cannot become a dial destination.
    ZeroPort,
    /// The configured `bootstrap_version` value is not defined.
    UnsupportedConfigVersion(u8),
    /// A bootstrap server must be a numeric address.
    BootstrapNotNumeric,
    /// An address disagrees with the family it was validated or published for.
    FamilyMismatch,
    /// The TTL/policy bounds are unusable.
    InvalidPolicy,
    /// A zero TTL would publish an already-dead result.
    InvalidTtl,
    /// The bootstrap peer's family cannot serve the target's family.
    BootstrapFamilyMismatch,
    /// The bootstrap exchange reached the caller's absolute deadline.
    BootstrapTimeout,
    /// The caller cancelled the resolution.
    Cancelled,
    /// The resolver owner was shut down.
    Closed,
    /// The bootstrap UDP socket could not be set up.
    BootstrapConnect,
    /// The bootstrap UDP send failed.
    BootstrapSend,
    /// The bootstrap UDP receive failed.
    BootstrapReceive,
    /// The bootstrap reply was not a valid, correlated DNS response.
    MalformedBootstrapResponse,
    /// The bootstrap reply carried the DNS truncation (TC) flag.
    Truncated,
    /// The bootstrap reply carried no usable address of the requested family.
    NoUsableAddress,
    /// The bootstrap reply's DNS rcode was not `NOERROR`.
    BootstrapRcode(u16),
    /// A refresh generation was already running and this caller attached to it.
    AlreadyResolving,
    /// Unpredictable bootstrap transaction IDs are unavailable on this host.
    UnpredictableIdsUnavailable,
    /// An IPv6 bootstrap socket could not be prepared on this host.
    BootstrapUnavailable,
}

/// The typed product-level `bootstrap_version` selection.
#[derive(Clone, Copy, Debug, PartialEq, Eq, Structural)]
pub enum ConfigVersion {
    /// Explicit version `0`: collect A and AAAA, preferring A.
    Zero,
    /// Version `4`: A records.
    Ipv4,
    /// Version `6`: AAAA records.
    Ipv6,
}

/// The effective set of families a resolution will query.
#[derive(Clone, Copy, Debug, PartialEq, Eq, Structural)]
pub enum ResolutionMode {
    /// A only.
    Ipv4,
    /// AAAA only.
    Ipv6,
    /// Collect A and AAAA independently; prefer a usable A.
    PreferIpv4Dual,
}

pub open spec fn config_version_spec(version: u8) -> Result<ConfigVersion, ResolverError> {
    if version == 0 {
        Ok(ConfigVersion::Zero)
    } else if version == 4 {
        Ok(ConfigVersion::Ipv4)
    } else if version == 6 {
        Ok(ConfigVersion::Ipv6)
    } else {
        Err(ResolverError::UnsupportedConfigVersion(version))
    }
}

impl ConfigVersion {
    /// Maps the configured numeric version, rejecting undefined values instead
    /// of silently defaulting them.
    pub fn from_u8(version: u8) -> (r: Result<Self, ResolverError>)
        ensures
            r == config_version_spec(version),
    {
        match version {
            0 => Ok(ConfigVersion::Zero),
            4 => Ok(ConfigVersion::Ipv4),
            6 => Ok(ConfigVersion::Ipv6),
            other => Err(ResolverError::UnsupportedConfigVersion(other)),
        }
    }

    /// Maps an omitted configuration value to the product default of `4`; an
    /// explicit `0` stays the dual-stack entry.
    pub fn from_optional(version: Option<u8>) -> (r: Result<Self, ResolverError>)
        ensures
            version is None ==> r == Ok::<Self, ResolverError>(ConfigVersion::Ipv4),
            version matches Some(v) ==> r == config_version_spec(v),
    {
        match version {
            None => Ok(ConfigVersion::Ipv4),
            Some(value) => Self::from_u8(value),
        }
    }

    pub open spec fn family_spec(self) -> AddressFamily {
        match self {
            ConfigVersion::Zero => AddressFamily::Ipv4,
            ConfigVersion::Ipv4 => AddressFamily::Ipv4,
            ConfigVersion::Ipv6 => AddressFamily::Ipv6,
        }
    }

    /// The address family this version prefers. `0` and `4` prefer IPv4.
    pub fn family(self) -> (r: AddressFamily)
        ensures
            r == self.family_spec(),
    {
        match self {
            ConfigVersion::Zero | ConfigVersion::Ipv4 => AddressFamily::Ipv4,
            ConfigVersion::Ipv6 => AddressFamily::Ipv6,
        }
    }

    pub open spec fn mode_spec(self) -> ResolutionMode {
        match self {
            ConfigVersion::Zero => ResolutionMode::PreferIpv4Dual,
            ConfigVersion::Ipv4 => ResolutionMode::Ipv4,
            ConfigVersion::Ipv6 => ResolutionMode::Ipv6,
        }
    }

    /// The effective lookup mode for this version.
    pub fn mode(self) -> (r: ResolutionMode)
        ensures
            r == self.mode_spec(),
    {
        match self {
            ConfigVersion::Zero => ResolutionMode::PreferIpv4Dual,
            ConfigVersion::Ipv4 => ResolutionMode::Ipv4,
            ConfigVersion::Ipv6 => ResolutionMode::Ipv6,
        }
    }
}

impl Default for ConfigVersion {
    /// The product default when no version is configured: `4`, A-only.
    fn default() -> (r: Self)
        ensures
            r == ConfigVersion::Ipv4,
    {
        ConfigVersion::Ipv4
    }
}

impl ResolutionMode {
    /// The mode implied by a target's single declared family.
    pub fn from_family(family: AddressFamily) -> (r: Self)
        ensures
            family == AddressFamily::Ipv4 ==> r == ResolutionMode::Ipv4,
            family == AddressFamily::Ipv6 ==> r == ResolutionMode::Ipv6,
    {
        match family {
            AddressFamily::Ipv4 => ResolutionMode::Ipv4,
            AddressFamily::Ipv6 => ResolutionMode::Ipv6,
        }
    }

    pub open spec fn families_spec(self) -> Seq<AddressFamily> {
        match self {
            ResolutionMode::Ipv4 => seq![AddressFamily::Ipv4],
            ResolutionMode::Ipv6 => seq![AddressFamily::Ipv6],
            ResolutionMode::PreferIpv4Dual => seq![AddressFamily::Ipv4, AddressFamily::Ipv6],
        }
    }

    /// Every family this mode queries, in query order.
    pub fn families(self) -> (r: Vec<AddressFamily>)
        ensures
            r@ == self.families_spec(),
    {
        match self {
            ResolutionMode::Ipv4 => vec![AddressFamily::Ipv4],
            ResolutionMode::Ipv6 => vec![AddressFamily::Ipv6],
            ResolutionMode::PreferIpv4Dual => vec![AddressFamily::Ipv4, AddressFamily::Ipv6],
        }
    }

    /// Whether this mode issues more than one DNS lookup for a hostname target.
    pub fn is_dual(self) -> (r: bool)
        ensures
            r == (self == ResolutionMode::PreferIpv4Dual),
    {
        match self {
            ResolutionMode::PreferIpv4Dual => true,
            _ => false,
        }
    }

    pub open spec fn preferred_family_spec(self) -> AddressFamily {
        match self {
            ResolutionMode::Ipv6 => AddressFamily::Ipv6,
            _ => AddressFamily::Ipv4,
        }
    }

    /// The family a fresh candidate is preferred from.
    pub fn preferred_family(self) -> (r: AddressFamily)
        ensures
            r == self.preferred_family_spec(),
    {
        match self {
            ResolutionMode::Ipv6 => AddressFamily::Ipv6,
            ResolutionMode::Ipv4 | ResolutionMode::PreferIpv4Dual => AddressFamily::Ipv4,
        }
    }
}

/// The largest TTL the DNS wire's unsigned 32-bit field can carry.
pub const MAX_WIRE_TTL_SECS: u64 = 4294967295;

/// The reviewed resolution policy: whole-second TTL bounds and the retransmit
/// interval (milliseconds).
#[derive(Clone, Copy, Debug, PartialEq, Eq, Structural)]
pub struct ResolutionPolicy {
    min_ttl_secs: u64,
    max_ttl_secs: u64,
    retransmit_interval_ms: u64,
}

pub open spec fn clamp_spec(value: u64, low: u64, high: u64) -> u64 {
    if value < low {
        low
    } else if value > high {
        high
    } else {
        value
    }
}

impl ResolutionPolicy {
    #[verifier::type_invariant]
    spec fn bounds_usable(self) -> bool {
        0 < self.min_ttl_secs <= self.max_ttl_secs <= MAX_WIRE_TTL_SECS
    }

    pub closed spec fn min_ttl_spec(self) -> u64 {
        self.min_ttl_secs
    }

    pub closed spec fn max_ttl_spec(self) -> u64 {
        self.max_ttl_secs
    }

    pub closed spec fn retransmit_spec(self) -> u64 {
        self.retransmit_interval_ms
    }

    /// A usable policy: a positive floor no larger than the ceiling, and a
    /// ceiling the wire's 32-bit TTL field can carry.
    pub open spec fn wf(self) -> bool {
        0 < self.min_ttl_spec() <= self.max_ttl_spec() <= MAX_WIRE_TTL_SECS
    }

    /// Builds a policy from whole-second bounds, rejecting unusable bounds
    /// instead of clamping silently.
    pub fn new(min_ttl_secs: u64, max_ttl_secs: u64) -> (r: Result<Self, ResolverError>)
        ensures
            (min_ttl_secs == 0 || min_ttl_secs > max_ttl_secs || max_ttl_secs > MAX_WIRE_TTL_SECS)
                ==> r == Err::<Self, ResolverError>(ResolverError::InvalidPolicy),
            !(min_ttl_secs == 0 || min_ttl_secs > max_ttl_secs || max_ttl_secs
                > MAX_WIRE_TTL_SECS) ==> (r matches Ok(p) && p.min_ttl_spec() == min_ttl_secs
                && p.max_ttl_spec() == max_ttl_secs && p.retransmit_spec() == 1000 && p.wf()),
    {
        if min_ttl_secs == 0 || min_ttl_secs > max_ttl_secs {
            return Err(ResolverError::InvalidPolicy);
        }
        if max_ttl_secs > MAX_WIRE_TTL_SECS {
            return Err(ResolverError::InvalidPolicy);
        }
        Ok(ResolutionPolicy { min_ttl_secs, max_ttl_secs, retransmit_interval_ms: 1000 })
    }

    /// Builds a policy from duration bounds given as whole seconds plus a
    /// sub-second nanosecond part. The bounds are second-granular DNS TTLs, so
    /// a bound with a sub-second part is refused rather than rounded; the
    /// whole-second bounds are then checked as by `new`.
    pub fn from_duration_parts(min_secs: u64, min_nanos: u32, max_secs: u64, max_nanos: u32) -> (r:
        Result<Self, ResolverError>)
        ensures
            (min_nanos != 0 || max_nanos != 0 || min_secs == 0 || min_secs > max_secs || max_secs
                > MAX_WIRE_TTL_SECS) ==> r == Err::<Self, ResolverError>(ResolverError::InvalidPolicy),
            !(min_nanos != 0 || max_nanos != 0 || min_secs == 0 || min_secs > max_secs || max_secs
                > MAX_WIRE_TTL_SECS) ==> (r matches Ok(p) && p.min_ttl_spec() == min_secs
                && p.max_ttl_spec() == max_secs && p.retransmit_spec() == 1000 && p.wf()),
    {
        if min_nanos != 0 || max_nanos != 0 {
            return Err(ResolverError::InvalidPolicy);
        }
        ResolutionPolicy::new(min_secs, max_secs)
    }

    /// The lower clamp (seconds) applied to an observed positive TTL.
    pub fn min_ttl(&self) -> (r: u64)
        ensures
            r == self.min_ttl_spec(),
            self.wf(),
    {
        proof {
            use_type_invariant(self);
        }
        self.min_ttl_secs
    }

    /// The upper clamp (seconds) applied to an observed TTL.
    pub fn max_ttl(&self) -> (r: u64)
        ensures
            r == self.max_ttl_spec(),
            self.wf(),
    {
        proof {
            use_type_invariant(self);
        }
        self.max_ttl_secs
    }

    /// The interval (milliseconds) between retransmissions of the same query.
    pub fn retransmit_interval(&self) -> (r: u64)
        ensures
            r == self.retransmit_spec(),
    {
        self.retransmit_interval_ms
    }

    /// Applies the explicit clamp to an observed TTL in seconds.
    pub fn clamp_ttl_secs(&self, ttl_secs: u32) -> (r: u64)
        ensures
            self.wf(),
            r == clamp_spec(ttl_secs as u64, self.min_ttl_spec(), self.max_ttl_spec()),
            self.min_ttl_spec() <= r <= self.max_ttl_spec(),
    {
        proof {
            use_type_invariant(self);
        }
        let observed = ttl_secs as u64;
        if observed < self.min_ttl_secs {
            self.min_ttl_secs
        } else if observed > self.max_ttl_secs {
            self.max_ttl_secs
        } else {
            observed
        }
    }
}

impl Default for ResolutionPolicy {
    /// A five-minute positive floor and a seven-day ceiling.
    fn default() -> (r: Self)
        ensures
            r.min_ttl_spec() == 300,
            r.max_ttl_spec() == 604800,
            r.retransmit_spec() == 1000,
            r.wf(),
    {
        ResolutionPolicy { min_ttl_secs: 300, max_ttl_secs: 604800, retransmit_interval_ms: 1000 }
    }
}

} // verus!
