//! Identity verification: validating a peer's certificate chain against a
//! configured trust anchor and binding the outcome to a session.
//!
//! Certificate parsing and the cryptographic signature check happen outside
//! this crate (a PEM loader is assumed to exist); what reaches this module is
//! the validated structure of each certificate: who it names, who signed it,
//! and its validity window.  Fingerprints stand in for distinguished names.

use vstd::prelude::*;

verus! {

/// The validated content of one certificate, as produced by the loader:
/// the fingerprint of the subject it names, the fingerprint of the issuer
/// whose signature it carries, and its validity window in seconds since the
/// epoch.
#[derive(Clone, Copy, PartialEq, Eq, Structural, Debug)]
pub struct Certificate {
    pub subject: u64,
    pub issuer: u64,
    pub not_before: u64,
    pub not_after: u64,
}

/// A verified peer identity, established once per connection by [`verify`]
/// and immutable afterwards.  It carries the fingerprint of the leaf
/// certificate the peer presented.
#[derive(Clone, Copy, PartialEq, Eq, Structural, Debug)]
pub struct Identity {
    pub fingerprint: u64,
}

/// The server's own identity certificate together with the anchors that
/// peer certificates must chain to.  Loaded once at process start and
/// read-only for the lifetime of the server.
#[derive(Clone, PartialEq, Eq, Debug)]
pub struct TrustConfiguration {
    pub server_certificate: Certificate,
    pub anchors: Vec<Certificate>,
}

/// Why a peer was rejected.  The first three arise while verifying a
/// certificate chain; the last two arise at the authorization guard.
#[derive(Clone, Copy, PartialEq, Eq, Structural, Debug)]
pub enum AuthError {
    NoCertificatePresented,
    UntrustedChain,
    Expired,
    Unauthenticated,
    Unauthorized,
}

/// The certificate is inside its validity window at time `now`.
pub open spec fn cert_valid_at(cert: Certificate, now: u64) -> bool {
    cert.not_before <= now <= cert.not_after
}

/// Every certificate of the chain is inside its validity window at `now`.
pub open spec fn chain_valid_at(chain: Seq<Certificate>, now: u64) -> bool {
    forall|i: int| 0 <= i < chain.len() ==> cert_valid_at(#[trigger] chain[i], now)
}

/// Each certificate is signed by the next one: the chain runs from the leaf
/// at index 0 towards the root.
pub open spec fn chain_linked(chain: Seq<Certificate>) -> bool {
    forall|i: int| 0 < i < chain.len() ==> (#[trigger] chain[i]).subject == chain[i - 1].issuer
}

/// The last certificate of the chain is signed by one of the anchors.
pub open spec fn chain_rooted(chain: Seq<Certificate>, anchors: Seq<Certificate>) -> bool {
    exists|i: int| 0 <= i < anchors.len() && (#[trigger] anchors[i]).subject == chain.last().issuer
}

/// The chain is well-formed with respect to the anchors: internally linked
/// and rooted in one of them.
pub open spec fn chain_trusted(chain: Seq<Certificate>, anchors: Seq<Certificate>) -> bool {
    chain_linked(chain) && chain_rooted(chain, anchors)
}

/// What [`verify`] returns: the checks run in a fixed order, so exactly one
/// error can arise for a given chain.  An empty chain means the peer
/// presented no certificate; an unlinked or unrooted chain is untrusted; a
/// trusted chain with a certificate outside its validity window is expired;
/// anything else yields the identity of the leaf certificate.
pub open spec fn verify_spec(
    chain: Seq<Certificate>,
    anchors: Seq<Certificate>,
    now: u64,
) -> Result<Identity, AuthError> {
    if chain.len() == 0 {
        Err(AuthError::NoCertificatePresented)
    } else if !chain_trusted(chain, anchors) {
        Err(AuthError::UntrustedChain)
    } else if !chain_valid_at(chain, now) {
        Err(AuthError::Expired)
    } else {
        Ok(Identity { fingerprint: chain[0].subject })
    }
}

/// Validates the certificate chain a peer presented against the trust
/// anchors, at wall-clock time `now`.  Both sides of a connection run this:
/// the server on the client's chain and the client on the server's chain —
/// mutual verification is what makes the transport trustworthy.
///
/// On success the peer's identity is the fingerprint of the leaf
/// certificate.  On failure the caller must reject the connection and must
/// not proceed to any further protocol step.
pub fn verify(
    chain: &Vec<Certificate>,
    trust: &TrustConfiguration,
    now: u64,
) -> (r: Result<Identity, AuthError>)
    ensures
        r == verify_spec(chain@, trust.anchors@, now),
{
    if chain.len() == 0 {
        return Err(AuthError::NoCertificatePresented);
    }
    let mut i: usize = 1;
    while i < chain.len()
        invariant
            1 <= i <= chain@.len(),
            forall|j: int| 0 < j < i ==> (#[trigger] chain@[j]).subject == chain@[j - 1].issuer,
            chain@.len() > 0,
        decreases chain@.len() - i,
    {
        if chain[i].subject != chain[i - 1].issuer {
            assert(!chain_linked(chain@));
            return Err(AuthError::UntrustedChain);
        }
        i = i + 1;
    }
    let root_issuer = chain[chain.len() - 1].issuer;
    let mut rooted = false;
    let mut a: usize = 0;
    while a < trust.anchors.len()
        invariant
            0 <= a <= trust.anchors@.len(),
            rooted == exists|j: int|
                0 <= j < a && (#[trigger] trust.anchors@[j]).subject == root_issuer,
            chain@.len() > 0,
            root_issuer == chain@.last().issuer,
        decreases trust.anchors@.len() - a,
    {
        if trust.anchors[a].subject == root_issuer {
            rooted = true;
        }
        a = a + 1;
    }
    if !rooted {
        return Err(AuthError::UntrustedChain);
    }
    let mut k: usize = 0;
    while k < chain.len()
        invariant
            0 <= k <= chain@.len(),
            forall|j: int| 0 <= j < k ==> cert_valid_at(#[trigger] chain@[j], now),
            chain@.len() > 0,
            chain_trusted(chain@, trust.anchors@),
        decreases chain@.len() - k,
    {
        if now < chain[k].not_before || now > chain[k].not_after {
            assert(!cert_valid_at(chain@[k as int], now));
            return Err(AuthError::Expired);
        }
        k = k + 1;
    }
    Ok(Identity { fingerprint: chain[0].subject })
}

/// The authenticated context bound to one network connection.  A session
/// either carries the identity that [`verify`] established when the
/// connection was opened, or no identity at all; it never outlives the
/// connection and is never shared across connections.
#[derive(Clone, Copy, PartialEq, Eq, Structural, Debug)]
pub struct Session {
    pub identity: Option<Identity>,
}

impl Session {
    /// Binds a connection to the outcome of the handshake: a verified
    /// identity yields an authenticated session, any failure an anonymous
    /// one.
    pub fn establish(outcome: &Result<Identity, AuthError>) -> (s: Session)
        ensures
            s.identity == (match *outcome {
                Ok(id) => Some(id),
                Err(_) => None::<Identity>,
            }),
    {
        match outcome {
            Ok(id) => Session { identity: Some(*id) },
            Err(_) => Session { identity: None },
        }
    }

    /// Whether the handshake produced a verified identity.
    pub fn is_authenticated(&self) -> (b: bool)
        ensures
            b == (self.identity is Some),
    {
        self.identity.is_some()
    }
}

} // verus!
