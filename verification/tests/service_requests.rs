use remotecli::auth::Identity;
use remotecli::auth::Session;
use remotecli::descriptor::CommandDescriptor;
use remotecli::descriptor::build;
use remotecli::engine::ChildEvent;
use remotecli::engine::EngineConfig;
use remotecli::engine::ErrorKind;
use remotecli::engine::ExecutionResult;
use remotecli::policy::Policy;
use remotecli::policy::PolicyEntry;
use remotecli::service::CommandService;
use remotecli::service::RequestEvent;
use remotecli::service::RequestState;
use remotecli::service::dispatch;
use remotecli::service::effective_timeout;
use remotecli::service::status_code;

fn config() -> EngineConfig {
    EngineConfig { timeout_ms: 1000, max_captured_bytes: 1024 }
}

fn service() -> CommandService {
    CommandService::new(Policy::AllowAll, config())
}

fn authenticated() -> Session {
    Session { identity: Some(Identity { fingerprint: 42 }) }
}

fn echo_hello() -> CommandDescriptor {
    build(vec!["echo".to_string(), "hello".to_string()], false).expect("echo is a valid command")
}

fn failure_kind(r: ExecutionResult) -> ErrorKind {
    match r {
        ExecutionResult::Failure { kind, .. } => kind,
        ExecutionResult::Success { .. } => panic!("expected a failure, got a success"),
    }
}

#[test]
fn authenticated_echo_succeeds() {
    let events = vec![ChildEvent::Stdout(b"hello\n".to_vec()), ChildEvent::Exited(0)];
    let r = service().handle(&authenticated(), &echo_hello(), events);
    assert_eq!(
        r,
        ExecutionResult::Success {
            exit_code: 0,
            stdout: b"hello\n".to_vec(),
            stderr: Vec::new(),
        }
    );
}

#[test]
fn unauthenticated_request_is_rejected() {
    // However the child would have behaved, an anonymous session is
    // answered Unauthenticated: the engine is never consulted.
    let session = Session { identity: None };
    let events = vec![ChildEvent::Stdout(b"hello\n".to_vec()), ChildEvent::Exited(0)];
    let r = service().handle(&session, &echo_hello(), events);
    assert_eq!(failure_kind(r), ErrorKind::Unauthenticated);
    let r = service().handle(&session, &echo_hello(), Vec::new());
    assert_eq!(failure_kind(r), ErrorKind::Unauthenticated);
}

#[test]
fn unpermitted_identity_is_rejected() {
    let policy = Policy::AllowList(vec![PolicyEntry {
        fingerprint: 42,
        programs: vec!["ls".to_string()],
    }]);
    let service = CommandService::new(policy, config());
    let r = service.handle(&authenticated(), &echo_hello(), Vec::new());
    assert_eq!(failure_kind(r), ErrorKind::Unauthorized);
}

#[test]
fn sleep_past_deadline_times_out() {
    let d = build(vec!["sleep".to_string(), "100".to_string()], false).expect("valid command");
    let events = vec![ChildEvent::Elapsed(1000)];
    let r = service().handle(&authenticated(), &d, events);
    assert_eq!(failure_kind(r), ErrorKind::TimedOut);
}

#[test]
fn nonexistent_binary_fails_to_spawn() {
    let d = build(vec!["nonexistent-binary-xyz".to_string()], false).expect("valid command");
    let r = service().handle(&authenticated(), &d, vec![ChildEvent::SpawnError]);
    assert_eq!(failure_kind(r), ErrorKind::SpawnFailed);
}

#[test]
fn empty_program_is_rejected_before_any_event() {
    let d = CommandDescriptor { program: String::new(), arguments: Vec::new(), verbose: false };
    let events = vec![ChildEvent::Stdout(b"never\n".to_vec()), ChildEvent::Exited(0)];
    let r = service().handle(&authenticated(), &d, events);
    assert_eq!(failure_kind(r), ErrorKind::SpawnFailed);
}

#[test]
fn repeated_reads_capture_the_same_stdout() {
    // A side-effect-free command produces the same observations each time,
    // and the service answers each invocation with the same stdout.
    let observed = vec![ChildEvent::Stdout(b"config: ok\n".to_vec()), ChildEvent::Exited(0)];
    let first = service().handle(&authenticated(), &echo_hello(), observed.clone());
    let second = service().handle(&authenticated(), &echo_hello(), observed.clone());
    let third = service().handle(&authenticated(), &echo_hello(), observed);
    assert_eq!(first, second);
    assert_eq!(second, third);
}

#[test]
fn status_codes_distinguish_the_failures() {
    let ok = ExecutionResult::Success { exit_code: 7, stdout: Vec::new(), stderr: Vec::new() };
    assert_eq!(status_code(&ok), 0);
    let kinds = [
        (ErrorKind::Unauthenticated, 16),
        (ErrorKind::Unauthorized, 7),
        (ErrorKind::SpawnFailed, 5),
        (ErrorKind::TimedOut, 4),
        (ErrorKind::OutputTooLarge, 8),
        (ErrorKind::IoError, 13),
    ];
    for (kind, expected) in kinds {
        let r = ExecutionResult::Failure { kind, reason: String::new() };
        assert_eq!(status_code(&r), expected);
    }
}

#[test]
fn lifecycle_follows_the_transition_table() {
    let s = RequestState::Received;
    let s = dispatch(s, RequestEvent::Submitted).expect("submission starts authorization");
    assert_eq!(s, RequestState::Authorizing);
    let s = dispatch(s, RequestEvent::Authorized).expect("authorization starts execution");
    assert_eq!(s, RequestState::Executing);
    let s = dispatch(s, RequestEvent::ExecutionSucceeded).expect("execution completes");
    assert_eq!(s, RequestState::Completed);
}

#[test]
fn lifecycle_rejection_path_fails() {
    let s = dispatch(RequestState::Authorizing, RequestEvent::Rejected).expect("valid transition");
    assert_eq!(s, RequestState::Failed);
    let s = dispatch(RequestState::Executing, RequestEvent::ExecutionFailed)
        .expect("valid transition");
    assert_eq!(s, RequestState::Failed);
}

#[test]
fn lifecycle_rejects_skipping_the_guard() {
    // No event takes a request from Received straight to Executing.
    assert_eq!(dispatch(RequestState::Received, RequestEvent::Authorized), Err(()));
    assert_eq!(dispatch(RequestState::Received, RequestEvent::ExecutionSucceeded), Err(()));
    assert_eq!(dispatch(RequestState::Completed, RequestEvent::Submitted), Err(()));
}

#[test]
fn request_deadline_tightens_the_timeout() {
    assert_eq!(effective_timeout(10_000, None), 10_000);
    assert_eq!(effective_timeout(10_000, Some(2_000)), 2_000);
    assert_eq!(effective_timeout(10_000, Some(60_000)), 10_000);
}
