//! The command service: the request/response contract exposed over the
//! authenticated channel.
//!
//! One stateless operation: accept a command descriptor, pass the
//! authorization guard, validate the descriptor, drive the execution engine,
//! and answer with a typed result.  The request lifecycle is an explicit
//! state machine with a transition function, not mutation of shared fields.

use vstd::prelude::*;
use vstd::string::StringExecFns;

use crate::auth::AuthError;
use crate::auth::Certificate;
use crate::auth::Session;
use crate::auth::chain_trusted;
use crate::auth::verify_spec;
use crate::descriptor::CommandDescriptor;
use crate::engine::ChildEvent;
use crate::engine::EngineConfig;
use crate::engine::ErrorKind;
use crate::engine::ExecutionResult;
use crate::engine::Outcome;
use crate::engine::drive;
use crate::engine::run_spec;
use crate::policy::Policy;
use crate::policy::authorize;
use crate::policy::authorize_spec;

verus! {

/// The phases one request passes through, in order.  There is no state
/// beyond these per request and no state at all across requests.
#[derive(Clone, Copy, PartialEq, Eq, Structural, Debug)]
pub enum RequestState {
    Received,
    Authorizing,
    Executing,
    Completed,
    Failed,
}

/// What moves a request from one phase to the next.
#[derive(Clone, Copy, PartialEq, Eq, Structural, Debug)]
pub enum RequestEvent {
    Submitted,
    Authorized,
    Rejected,
    ExecutionSucceeded,
    ExecutionFailed,
}

/// The transition table of the request lifecycle: the next phase for each
/// admissible pair, and nothing for every other pair.  In particular no
/// event leads from `Received` or `Authorizing` to `Executing` except a
/// successful authorization — the guard cannot be stepped around.
pub open spec fn dispatch_spec(state: RequestState, event: RequestEvent) -> Option<RequestState> {
    match (state, event) {
        (RequestState::Received, RequestEvent::Submitted) => Some(RequestState::Authorizing),
        (RequestState::Authorizing, RequestEvent::Authorized) => Some(RequestState::Executing),
        (RequestState::Authorizing, RequestEvent::Rejected) => Some(RequestState::Failed),
        (RequestState::Executing, RequestEvent::ExecutionSucceeded) => Some(
            RequestState::Completed,
        ),
        (RequestState::Executing, RequestEvent::ExecutionFailed) => Some(RequestState::Failed),
        _ => None,
    }
}

/// Advances the request lifecycle by one event, exactly as the transition
/// table prescribes; an event that the current phase does not admit is an
/// error and leaves the lifecycle where it was.
pub fn dispatch(state: RequestState, event: RequestEvent) -> (r: Result<RequestState, ()>)
    ensures
        dispatch_spec(state, event) matches Some(next) ==> r == Ok::<RequestState, ()>(next),
        dispatch_spec(state, event) is None ==> r == Err::<RequestState, ()>(()),
{
    match (state, event) {
        (RequestState::Received, RequestEvent::Submitted) => Ok(RequestState::Authorizing),
        (RequestState::Authorizing, RequestEvent::Authorized) => Ok(RequestState::Executing),
        (RequestState::Authorizing, RequestEvent::Rejected) => Ok(RequestState::Failed),
        (RequestState::Executing, RequestEvent::ExecutionSucceeded) => Ok(RequestState::Completed),
        (RequestState::Executing, RequestEvent::ExecutionFailed) => Ok(RequestState::Failed),
        _ => Err(()),
    }
}

/// The single concrete type implementing the command service contract,
/// holding the shared policy and the per-request execution limits.
#[derive(Clone, PartialEq, Eq, Debug)]
pub struct CommandService {
    pub policy: Policy,
    pub config: EngineConfig,
}

/// What one request answers, as a function of the guard's decision, the
/// descriptor and the observed child behaviour.  A session the guard
/// rejects fails as `Unauthenticated` or `Unauthorized` without the engine
/// ever being consulted; a descriptor naming no program fails as
/// `SpawnFailed` before any process exists; everything else is the
/// engine's fold over the observations.
pub open spec fn handle_spec(
    policy: Policy,
    session: Session,
    descriptor: CommandDescriptor,
    cfg: EngineConfig,
    events: Seq<ChildEvent>,
) -> Outcome {
    match authorize_spec(policy, session, descriptor.program@) {
        Err(AuthError::Unauthorized) => Outcome::Failure {
            kind: ErrorKind::Unauthorized,
            reason: "the policy does not permit this identity to run this command"@,
        },
        Err(_) => Outcome::Failure {
            kind: ErrorKind::Unauthenticated,
            reason: "the session carries no verified identity"@,
        },
        Ok(_) => {
            if descriptor.program@.len() == 0 {
                Outcome::Failure {
                    kind: ErrorKind::SpawnFailed,
                    reason: "the descriptor names no program"@,
                }
            } else {
                run_spec(cfg, events)
            }
        },
    }
}

impl CommandService {
    /// Builds the service from the shared context's policy and limits.
    pub fn new(policy: Policy, config: EngineConfig) -> (s: CommandService)
        ensures
            s.policy == policy,
            s.config == config,
    {
        CommandService { policy, config }
    }

    /// The RPC-facing operation: one authorized command in, one typed
    /// result out.  `events` is what the supervising caller observed of
    /// the child process; for a request the guard rejects, no child may be
    /// spawned at all, and the result indeed ignores the observations.
    pub fn handle(
        &self,
        session: &Session,
        descriptor: &CommandDescriptor,
        events: Vec<ChildEvent>,
    ) -> (r: ExecutionResult)
        ensures
            r@ == handle_spec(self.policy, *session, *descriptor, self.config, events@),
    {
        match authorize(&self.policy, session, descriptor) {
            Err(AuthError::Unauthorized) => ExecutionResult::Failure {
                kind: ErrorKind::Unauthorized,
                reason: String::from_str(
                    "the policy does not permit this identity to run this command",
                ),
            },
            Err(_) => ExecutionResult::Failure {
                kind: ErrorKind::Unauthenticated,
                reason: String::from_str("the session carries no verified identity"),
            },
            Ok(_) => {
                if descriptor.program.as_str().is_empty() {
                    ExecutionResult::Failure {
                        kind: ErrorKind::SpawnFailed,
                        reason: String::from_str("the descriptor names no program"),
                    }
                } else {
                    drive(&self.config, events)
                }
            },
        }
    }
}

/// The deadline applied to one request: the configured timeout, or the
/// inbound request's own deadline where that is tighter.
pub open spec fn effective_timeout_spec(configured_ms: u64, request_deadline_ms: Option<u64>) -> u64 {
    match request_deadline_ms {
        Some(deadline) => if deadline < configured_ms {
            deadline
        } else {
            configured_ms
        },
        None => configured_ms,
    }
}

/// Derives the per-request deadline from the configuration and the inbound
/// request's own deadline, whichever is tighter.
pub fn effective_timeout(configured_ms: u64, request_deadline_ms: Option<u64>) -> (t: u64)
    ensures
        t == effective_timeout_spec(configured_ms, request_deadline_ms),
        t <= configured_ms,
{
    match request_deadline_ms {
        Some(deadline) => if deadline < configured_ms {
            deadline
        } else {
            configured_ms
        },
        None => configured_ms,
    }
}

/// The externally visible status code of a result, so a caller can tell
/// "not allowed" from "the command failed" from "the command timed out"
/// without parsing the reason text.  Success is 0 whatever the exit code;
/// each failure kind has its own nonzero code, following the usual RPC
/// status numbering.
pub open spec fn status_code_spec(outcome: Outcome) -> u32 {
    match outcome {
        Outcome::Success { .. } => 0u32,
        Outcome::Failure { kind, .. } => match kind {
            ErrorKind::Unauthenticated => 16u32,
            ErrorKind::Unauthorized => 7u32,
            ErrorKind::SpawnFailed => 5u32,
            ErrorKind::TimedOut => 4u32,
            ErrorKind::OutputTooLarge => 8u32,
            ErrorKind::IoError => 13u32,
        },
    }
}

/// Maps a result onto its externally visible status code.
pub fn status_code(result: &ExecutionResult) -> (c: u32)
    ensures
        c == status_code_spec(result@),
{
    match result {
        ExecutionResult::Success { .. } => 0,
        ExecutionResult::Failure { kind, .. } => match kind {
            ErrorKind::Unauthenticated => 16,
            ErrorKind::Unauthorized => 7,
            ErrorKind::SpawnFailed => 5,
            ErrorKind::TimedOut => 4,
            ErrorKind::OutputTooLarge => 8,
            ErrorKind::IoError => 13,
        },
    }
}

/// Law: authorization is strictly a precondition.  A session without a
/// verified identity is answered `Unauthenticated`, and the answer is the
/// same whatever child observations are supplied — no request from such a
/// session ever reaches the execution engine.
pub proof fn lemma_unauthenticated_never_executes(
    policy: Policy,
    descriptor: CommandDescriptor,
    cfg: EngineConfig,
    some_events: Seq<ChildEvent>,
    other_events: Seq<ChildEvent>,
)
    ensures
        handle_spec(policy, (Session { identity: None }), descriptor, cfg, some_events)
            == handle_spec(policy, (Session { identity: None }), descriptor, cfg, other_events),
        handle_spec(policy, (Session { identity: None }), descriptor, cfg, some_events)
            matches Outcome::Failure { kind: ErrorKind::Unauthenticated, .. },
{
}

/// Law: a certificate chain that is not rooted in the configured trust
/// anchors never leads to an execution.  Verification refuses it, the
/// session established from that refusal carries no identity, and a
/// request on such a session is answered `Unauthenticated` independently
/// of any child observations.
pub proof fn lemma_untrusted_chain_never_executes(
    chain: Seq<Certificate>,
    anchors: Seq<Certificate>,
    now: u64,
    policy: Policy,
    descriptor: CommandDescriptor,
    cfg: EngineConfig,
    some_events: Seq<ChildEvent>,
    other_events: Seq<ChildEvent>,
)
    requires
        !chain_trusted(chain, anchors),
    ensures
        verify_spec(chain, anchors, now) is Err,
        handle_spec(policy, (Session { identity: None }), descriptor, cfg, some_events)
            == handle_spec(policy, (Session { identity: None }), descriptor, cfg, other_events),
        handle_spec(policy, (Session { identity: None }), descriptor, cfg, some_events)
            matches Outcome::Failure { kind: ErrorKind::Unauthenticated, .. },
{
}

/// Law: a descriptor with an empty program name is rejected before any
/// process is spawned.  Whatever the session, the answer is a failure and
/// is the same whatever child observations are supplied; for an authorized
/// session the failure is `SpawnFailed`.
pub proof fn lemma_empty_program_never_spawns(
    policy: Policy,
    session: Session,
    descriptor: CommandDescriptor,
    cfg: EngineConfig,
    some_events: Seq<ChildEvent>,
    other_events: Seq<ChildEvent>,
)
    requires
        descriptor.program@.len() == 0,
    ensures
        handle_spec(policy, session, descriptor, cfg, some_events) == handle_spec(
            policy,
            session,
            descriptor,
            cfg,
            other_events,
        ),
        handle_spec(policy, session, descriptor, cfg, some_events) matches Outcome::Failure { .. },
        authorize_spec(policy, session, descriptor.program@) is Ok ==> handle_spec(
            policy,
            session,
            descriptor,
            cfg,
            some_events,
        ) matches Outcome::Failure { kind: ErrorKind::SpawnFailed, .. },
{
}

} // verus!
