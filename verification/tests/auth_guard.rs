use remotecli::auth::AuthError;
use remotecli::auth::Certificate;
use remotecli::auth::Identity;
use remotecli::auth::Session;
use remotecli::auth::TrustConfiguration;
use remotecli::auth::verify;
use remotecli::descriptor::CommandDescriptor;
use remotecli::policy::Policy;
use remotecli::policy::PolicyEntry;
use remotecli::policy::authorize;
use remotecli::policy::is_authorized;

fn cert(subject: u64, issuer: u64, not_before: u64, not_after: u64) -> Certificate {
    Certificate { subject, issuer, not_before, not_after }
}

fn anchor() -> Certificate {
    cert(1, 1, 0, 10_000)
}

fn trust() -> TrustConfiguration {
    TrustConfiguration { server_certificate: cert(2, 1, 0, 10_000), anchors: vec![anchor()] }
}

fn descriptor(program: &str) -> CommandDescriptor {
    CommandDescriptor { program: program.to_string(), arguments: Vec::new(), verbose: false }
}

#[test]
fn verify_accepts_chain_rooted_in_anchor() {
    let chain = vec![cert(10, 5, 0, 1000), cert(5, 1, 0, 1000)];
    let r = verify(&chain, &trust(), 500);
    assert_eq!(r, Ok(Identity { fingerprint: 10 }));
}

#[test]
fn verify_rejects_empty_chain() {
    let chain: Vec<Certificate> = Vec::new();
    let r = verify(&chain, &trust(), 500);
    assert_eq!(r, Err(AuthError::NoCertificatePresented));
}

#[test]
fn verify_rejects_unrooted_chain() {
    // The root of this chain is signed by fingerprint 9, which no anchor names.
    let chain = vec![cert(10, 5, 0, 1000), cert(5, 9, 0, 1000)];
    let r = verify(&chain, &trust(), 500);
    assert_eq!(r, Err(AuthError::UntrustedChain));
}

#[test]
fn verify_rejects_broken_link() {
    // The leaf claims issuer 7 but the next certificate names subject 5.
    let chain = vec![cert(10, 7, 0, 1000), cert(5, 1, 0, 1000)];
    let r = verify(&chain, &trust(), 500);
    assert_eq!(r, Err(AuthError::UntrustedChain));
}

#[test]
fn verify_rejects_expired_certificate() {
    let chain = vec![cert(10, 1, 0, 100)];
    let r = verify(&chain, &trust(), 500);
    assert_eq!(r, Err(AuthError::Expired));
}

#[test]
fn verify_rejects_certificate_not_yet_valid() {
    let chain = vec![cert(10, 1, 600, 1000)];
    let r = verify(&chain, &trust(), 500);
    assert_eq!(r, Err(AuthError::Expired));
}

#[test]
fn session_from_verified_identity_is_authenticated() {
    let s = Session::establish(&Ok(Identity { fingerprint: 10 }));
    assert_eq!(s.identity, Some(Identity { fingerprint: 10 }));
    assert!(s.is_authenticated());
}

#[test]
fn session_from_failed_handshake_is_anonymous() {
    let s = Session::establish(&Err(AuthError::UntrustedChain));
    assert_eq!(s.identity, None);
    assert!(!s.is_authenticated());
}

#[test]
fn allow_all_permits_any_identity() {
    let id = Identity { fingerprint: 42 };
    assert!(is_authorized(&Policy::AllowAll, &id, &descriptor("reboot")));
}

#[test]
fn allow_list_permits_listed_program() {
    let policy = Policy::AllowList(vec![PolicyEntry {
        fingerprint: 42,
        programs: vec!["ls".to_string(), "date".to_string()],
    }]);
    let id = Identity { fingerprint: 42 };
    assert!(is_authorized(&policy, &id, &descriptor("date")));
}

#[test]
fn allow_list_rejects_unlisted_program() {
    let policy = Policy::AllowList(vec![PolicyEntry {
        fingerprint: 42,
        programs: vec!["ls".to_string()],
    }]);
    let id = Identity { fingerprint: 42 };
    assert!(!is_authorized(&policy, &id, &descriptor("reboot")));
}

#[test]
fn allow_list_without_entry_means_authorized() {
    // A verified identity with no explicit policy entry is authorized.
    let policy = Policy::AllowList(vec![PolicyEntry {
        fingerprint: 7,
        programs: vec!["ls".to_string()],
    }]);
    let id = Identity { fingerprint: 42 };
    assert!(is_authorized(&policy, &id, &descriptor("reboot")));
}

#[test]
fn guard_rejects_anonymous_session() {
    let session = Session { identity: None };
    let r = authorize(&Policy::AllowAll, &session, &descriptor("ls"));
    assert_eq!(r, Err(AuthError::Unauthenticated));
}

#[test]
fn guard_rejects_unpermitted_identity() {
    let policy = Policy::AllowList(vec![PolicyEntry {
        fingerprint: 42,
        programs: vec!["ls".to_string()],
    }]);
    let session = Session { identity: Some(Identity { fingerprint: 42 }) };
    let r = authorize(&policy, &session, &descriptor("reboot"));
    assert_eq!(r, Err(AuthError::Unauthorized));
}

#[test]
fn guard_passes_permitted_identity() {
    let session = Session { identity: Some(Identity { fingerprint: 42 }) };
    let r = authorize(&Policy::AllowAll, &session, &descriptor("ls"));
    assert_eq!(r, Ok(Identity { fingerprint: 42 }));
}
