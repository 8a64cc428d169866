use vstd::prelude::*;

use crate::resolver::destination::IpLiteral;
use crate::resolver::hostname::{normalize_hostname, normalized_hostname, trim_root_dot, valid_hostname};
use vstd::string::StringSliceAdditionalSpecFns;

verus! {

/// A TLS service identity that cannot be represented.
#[derive(Clone, Copy, Debug, PartialEq, Eq, Structural)]
pub enum IdentityError {
    Malformed,
}

/// The identity a secure connection authenticates: a normalized DNS name, or
/// the canonical text of an IP literal. It is never resolved and never selects
/// the destination.
#[derive(Debug, PartialEq, Eq)]
pub struct ServiceIdentity {
    text: String,
}

/// Whether `identity` is acceptable as a service identity, given the platform
/// address parser's reading of it (`literal`).
pub open spec fn identity_acceptable(identity: &str, literal: Option<IpLiteral>) -> bool {
    literal is Some || valid_hostname(trim_root_dot(identity.spec_bytes()))
}

/// The stored text of an acceptable identity.
pub open spec fn identity_text(identity: &str, literal: Option<IpLiteral>) -> Seq<char> {
    match literal {
        Some(l) => l.text@,
        None => normalized_hostname(identity.spec_bytes()),
    }
}

impl ServiceIdentity {
    pub closed spec fn text_spec(&self) -> Seq<char> {
        self.text@
    }

    /// Validates and normalizes a service identity. `literal` is the platform
    /// address parser's reading of `identity` (`None` when it is not an IP
    /// literal); a literal keeps its canonical text, and a DNS name is checked
    /// label by label and normalized to lowercase without a trailing root dot.
    pub fn new(identity: &str, literal: Option<IpLiteral>) -> (r: Result<Self, IdentityError>)
        ensures
            !identity_acceptable(identity, literal) ==> r == Err::<Self, IdentityError>(
                IdentityError::Malformed,
            ),
            identity_acceptable(identity, literal) ==> (r matches Ok(s) && s.text_spec()
                == identity_text(identity, literal)),
    {
        match literal {
            Some(l) => Ok(ServiceIdentity { text: l.text }),
            None => match normalize_hostname(identity) {
                Ok(text) => Ok(ServiceIdentity { text }),
                Err(_) => Err(IdentityError::Malformed),
            },
        }
    }

    /// The normalized identity text.
    pub fn as_str(&self) -> (r: &str)
        ensures
            r@ == self.text_spec(),
    {
        self.text.as_str()
    }
}

impl Clone for ServiceIdentity {
    fn clone(&self) -> (r: Self)
        ensures
            r.text_spec() == self.text_spec(),
    {
        ServiceIdentity { text: self.text.clone() }
    }
}

/// The sentinel roots revision of a trust configuration that names no root
/// store (the insecure mode, and keys built without a policy).
pub const NO_ROOTS_REVISION: u64 = 0;

/// The trust half of a TLS policy: whether verification is skipped, and the
/// opaque revision identifying the exact root store it verifies against. No
/// certificate material is held here.
#[derive(Clone, Copy, Debug, PartialEq, Eq, Structural)]
pub struct TrustPolicy {
    insecure_skip_verify: bool,
    roots_revision: u64,
}

impl TrustPolicy {
    pub closed spec fn insecure_spec(self) -> bool {
        self.insecure_skip_verify
    }

    pub closed spec fn revision_spec(self) -> u64 {
        self.roots_revision
    }

    /// The explicit opt-in policy that skips verification; it names no root
    /// store.
    pub fn insecure_skip_verify() -> (r: Self)
        ensures
            r.insecure_spec(),
            r.revision_spec() == NO_ROOTS_REVISION,
    {
        TrustPolicy { insecure_skip_verify: true, roots_revision: NO_ROOTS_REVISION }
    }

    /// A verified policy over the root store minted as `roots_revision`. The
    /// sentinel revision names no root store and is refused.
    pub fn verified(roots_revision: u64) -> (r: Option<Self>)
        ensures
            roots_revision == NO_ROOTS_REVISION ==> r is None,
            roots_revision != NO_ROOTS_REVISION ==> (r matches Some(p) && !p.insecure_spec()
                && p.revision_spec() == roots_revision),
    {
        if roots_revision == NO_ROOTS_REVISION {
            None
        } else {
            Some(TrustPolicy { insecure_skip_verify: false, roots_revision })
        }
    }

    /// Whether this policy skips certificate verification.
    pub fn is_insecure_skip_verify(&self) -> (r: bool)
        ensures
            r == self.insecure_spec(),
    {
        self.insecure_skip_verify
    }

    /// The opaque roots revision.
    pub fn roots_revision(&self) -> (r: u64)
        ensures
            r == self.revision_spec(),
    {
        self.roots_revision
    }
}

} // verus!
