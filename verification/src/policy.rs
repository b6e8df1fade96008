//! The authorization guard: every inbound request passes through it before
//! any business logic runs.
//!
//! A policy maps a verified identity to a permitted-command predicate.  The
//! absence of an explicit entry for an identity means "verified identity
//! implies authorized"; an explicit entry restricts that identity to the
//! programs it lists.

use vstd::prelude::*;

use crate::auth::AuthError;
use crate::auth::Identity;
use crate::auth::Session;
use crate::descriptor::CommandDescriptor;

verus! {

/// The programs one identity is permitted to run.
#[derive(Clone, PartialEq, Eq, Debug)]
pub struct PolicyEntry {
    pub fingerprint: u64,
    pub programs: Vec<String>,
}

/// A pluggable authorization policy: either every verified identity may run
/// every command, or an allow-list restricts the identities it names.
#[derive(Clone, PartialEq, Eq, Debug)]
pub enum Policy {
    AllowAll,
    AllowList(Vec<PolicyEntry>),
}

/// The program appears in the list.
pub open spec fn program_listed(programs: Seq<String>, program: Seq<char>) -> bool {
    exists|j: int| 0 <= j < programs.len() && (#[trigger] programs[j])@ == program
}

/// Some entry of the allow-list names this fingerprint.
pub open spec fn has_entry(entries: Seq<PolicyEntry>, fingerprint: u64) -> bool {
    exists|i: int| 0 <= i < entries.len() && (#[trigger] entries[i]).fingerprint == fingerprint
}

/// Some entry names this fingerprint and lists this program.
pub open spec fn entry_permits(entries: Seq<PolicyEntry>, fingerprint: u64, program: Seq<char>) -> bool {
    exists|i: int|
        0 <= i < entries.len() && (#[trigger] entries[i]).fingerprint == fingerprint
            && program_listed(entries[i].programs@, program)
}

/// Whether the policy permits the identity with this fingerprint to run
/// this program.  An identity without an explicit allow-list entry is
/// authorized; one with entries is authorized only for a program that one
/// of its entries lists.
pub open spec fn allows(policy: Policy, fingerprint: u64, program: Seq<char>) -> bool {
    match policy {
        Policy::AllowAll => true,
        Policy::AllowList(entries) => {
            if has_entry(entries@, fingerprint) {
                entry_permits(entries@, fingerprint, program)
            } else {
                true
            }
        },
    }
}

/// The program appears in the list.
fn program_in(programs: &Vec<String>, program: &String) -> (b: bool)
    ensures
        b == program_listed(programs@, program@),
{
    let mut j: usize = 0;
    while j < programs.len()
        invariant
            0 <= j <= programs@.len(),
            !(exists|l: int| 0 <= l < j && (#[trigger] programs@[l])@ == program@),
        decreases programs@.len() - j,
    {
        if programs[j].eq(program) {
            return true;
        }
        j = j + 1;
    }
    false
}

/// The capability interface of the guard: may `identity` invoke the command
/// the descriptor names?
pub fn is_authorized(policy: &Policy, identity: &Identity, descriptor: &CommandDescriptor) -> (b: bool)
    ensures
        b == allows(*policy, identity.fingerprint, descriptor.program@),
{
    match policy {
        Policy::AllowAll => true,
        Policy::AllowList(entries) => {
            let mut found = false;
            let mut permitted = false;
            let mut i: usize = 0;
            while i < entries.len()
                invariant
                    0 <= i <= entries@.len(),
                    found == exists|l: int|
                        0 <= l < i && (#[trigger] entries@[l]).fingerprint == identity.fingerprint,
                    permitted == exists|l: int|
                        0 <= l < i && (#[trigger] entries@[l]).fingerprint == identity.fingerprint
                            && program_listed(entries@[l].programs@, descriptor.program@),
                decreases entries@.len() - i,
            {
                if entries[i].fingerprint == identity.fingerprint {
                    found = true;
                    if program_in(&entries[i].programs, &descriptor.program) {
                        permitted = true;
                    }
                }
                i = i + 1;
            }
            !found || permitted
        },
    }
}

/// What the guard decides for a session and a descriptor: a session without
/// an identity is rejected as unauthenticated, one whose identity the
/// policy does not permit as unauthorized, and any other passes with its
/// identity.
pub open spec fn authorize_spec(
    policy: Policy,
    session: Session,
    program: Seq<char>,
) -> Result<Identity, AuthError> {
    match session.identity {
        None => Err(AuthError::Unauthenticated),
        Some(id) => {
            if allows(policy, id.fingerprint, program) {
                Ok(id)
            } else {
                Err(AuthError::Unauthorized)
            }
        },
    }
}

/// The authorization guard itself.  It stands unconditionally between the
/// transport and the command service: a request reaches the execution
/// engine only with the identity this function returned.
pub fn authorize(
    policy: &Policy,
    session: &Session,
    descriptor: &CommandDescriptor,
) -> (r: Result<Identity, AuthError>)
    ensures
        r == authorize_spec(*policy, *session, descriptor.program@),
{
    match session.identity {
        None => Err(AuthError::Unauthenticated),
        Some(id) => {
            if is_authorized(policy, &id, descriptor) {
                Ok(id)
            } else {
                Err(AuthError::Unauthorized)
            }
        },
    }
}

} // verus!
