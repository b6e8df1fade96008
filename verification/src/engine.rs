//! The execution engine: the supervised lifecycle of one subprocess.
//!
//! Spawning a child, reading its pipes and killing it are operating-system
//! work and happen outside this crate.  The caller reports what it observed
//! as a stream of [`ChildEvent`]s; the engine is the verified transition
//! function over those observations.  It decides what to capture, when the
//! child must be terminated, and what typed result the request ends with.
//! The engine holds no state across requests: each request folds its own
//! event stream from [`start`].

use vstd::prelude::*;
use vstd::string::StringExecFns;

verus! {

/// Why a request failed.  `Unauthenticated` and `Unauthorized` come from
/// the guard; the rest are engine conditions under which no exit status
/// could be obtained or trusted.
#[derive(Clone, Copy, PartialEq, Eq, Structural, Debug)]
pub enum ErrorKind {
    Unauthenticated,
    Unauthorized,
    SpawnFailed,
    TimedOut,
    OutputTooLarge,
    IoError,
}

/// The typed result of one request.  A normal exit is a `Success` whatever
/// the exit code — a non-zero code is the command's answer, not an engine
/// failure.  `Failure` is reserved for requests where the engine could not
/// obtain or trust a result.
#[derive(Clone, PartialEq, Eq, Debug)]
pub enum ExecutionResult {
    Success { exit_code: i32, stdout: Vec<u8>, stderr: Vec<u8> },
    Failure { kind: ErrorKind, reason: String },
}

/// The mathematical value of an [`ExecutionResult`].
#[verifier::ext_equal]
pub enum Outcome {
    Success { exit_code: i32, stdout: Seq<u8>, stderr: Seq<u8> },
    Failure { kind: ErrorKind, reason: Seq<char> },
}

impl View for ExecutionResult {
    type V = Outcome;

    open spec fn view(&self) -> Outcome {
        match self {
            ExecutionResult::Success { exit_code, stdout, stderr } => Outcome::Success {
                exit_code: *exit_code,
                stdout: stdout@,
                stderr: stderr@,
            },
            ExecutionResult::Failure { kind, reason } => Outcome::Failure {
                kind: *kind,
                reason: reason@,
            },
        }
    }
}

/// Per-request limits, drawn from server configuration: the wall-clock
/// deadline and the cap on how many bytes of each output stream are
/// captured.
#[derive(Clone, Copy, PartialEq, Eq, Structural, Debug)]
pub struct EngineConfig {
    pub timeout_ms: u64,
    pub max_captured_bytes: usize,
}

/// One observation the supervising caller made of the child process.
/// `Elapsed` carries the total wall-clock milliseconds since the spawn;
/// `SpawnError` means the process could not be created at all; `ReadError`
/// that an output stream failed mid-read.
#[derive(Clone, PartialEq, Eq, Debug)]
pub enum ChildEvent {
    SpawnError,
    Stdout(Vec<u8>),
    Stderr(Vec<u8>),
    Elapsed(u64),
    Exited(i32),
    ReadError,
}

/// What the caller must do to the child after handing the engine an event.
/// `Kill` obliges it to terminate and reap the process — the engine demands
/// that on every path that abandons a live child.
#[derive(Clone, Copy, PartialEq, Eq, Structural, Debug)]
pub enum Action {
    Proceed,
    Kill,
}

/// The engine between two events: still supervising a child whose output
/// captured so far fills the two buffers, or finished with a result.
#[derive(Clone, PartialEq, Eq, Debug)]
pub enum EngineState {
    Running { stdout: Vec<u8>, stderr: Vec<u8> },
    Done(ExecutionResult),
}

/// The mathematical value of an [`EngineState`].
#[verifier::ext_equal]
pub enum EngineView {
    Running { stdout: Seq<u8>, stderr: Seq<u8> },
    Done(Outcome),
}

impl View for EngineState {
    type V = EngineView;

    open spec fn view(&self) -> EngineView {
        match self {
            EngineState::Running { stdout, stderr } => EngineView::Running {
                stdout: stdout@,
                stderr: stderr@,
            },
            EngineState::Done(result) => EngineView::Done(result@),
        }
    }
}

/// The state every request begins in: a supervised child with nothing
/// captured yet.
pub open spec fn initial_view() -> EngineView {
    EngineView::Running { stdout: Seq::empty(), stderr: Seq::empty() }
}

/// The transition table of the engine, one event at a time.  A finished
/// engine absorbs further events unchanged.  While running:
/// - a spawn error ends the request with `SpawnFailed` (there is no child
///   to kill);
/// - an output chunk is appended to its stream, unless it would push that
///   stream past the configured cap, which kills the child and ends the
///   request with `OutputTooLarge`;
/// - reaching the deadline kills the child and ends the request with
///   `TimedOut`;
/// - a normal exit ends the request with `Success`, carrying the exit code
///   and both captured streams;
/// - a failed read kills the child and ends the request with `IoError`.
pub open spec fn step_spec(cfg: EngineConfig, s: EngineView, e: ChildEvent) -> (EngineView, Action) {
    match s {
        EngineView::Done(_) => (s, Action::Proceed),
        EngineView::Running { stdout, stderr } => match e {
            ChildEvent::SpawnError => (
                EngineView::Done(Outcome::Failure {
                    kind: ErrorKind::SpawnFailed,
                    reason: "the program could not be spawned"@,
                }),
                Action::Proceed,
            ),
            ChildEvent::Stdout(chunk) => {
                if stdout.len() + chunk@.len() > cfg.max_captured_bytes {
                    (
                        EngineView::Done(Outcome::Failure {
                            kind: ErrorKind::OutputTooLarge,
                            reason: "captured output exceeded the configured limit"@,
                        }),
                        Action::Kill,
                    )
                } else {
                    (EngineView::Running { stdout: stdout + chunk@, stderr }, Action::Proceed)
                }
            },
            ChildEvent::Stderr(chunk) => {
                if stderr.len() + chunk@.len() > cfg.max_captured_bytes {
                    (
                        EngineView::Done(Outcome::Failure {
                            kind: ErrorKind::OutputTooLarge,
                            reason: "captured output exceeded the configured limit"@,
                        }),
                        Action::Kill,
                    )
                } else {
                    (EngineView::Running { stdout, stderr: stderr + chunk@ }, Action::Proceed)
                }
            },
            ChildEvent::Elapsed(t) => {
                if t >= cfg.timeout_ms {
                    (
                        EngineView::Done(Outcome::Failure {
                            kind: ErrorKind::TimedOut,
                            reason: "the deadline expired before the command finished"@,
                        }),
                        Action::Kill,
                    )
                } else {
                    (s, Action::Proceed)
                }
            },
            ChildEvent::Exited(code) => (
                EngineView::Done(Outcome::Success { exit_code: code, stdout, stderr }),
                Action::Proceed,
            ),
            ChildEvent::ReadError => (
                EngineView::Done(Outcome::Failure {
                    kind: ErrorKind::IoError,
                    reason: "an output stream could not be read"@,
                }),
                Action::Kill,
            ),
        },
    }
}

/// The engine state a request begins in.
pub fn start() -> (s: EngineState)
    ensures
        s@ == initial_view(),
{
    let s = EngineState::Running { stdout: Vec::new(), stderr: Vec::new() };
    assert(s@ =~= initial_view());
    s
}

/// Feeds one observation to the engine.  Returns the next state and the
/// action the caller owes the child; the pair is exactly what
/// [`step_spec`] prescribes.
pub fn step(cfg: &EngineConfig, state: EngineState, event: ChildEvent) -> (r: (EngineState, Action))
    ensures
        r.0@ == step_spec(*cfg, state@, event).0,
        r.1 == step_spec(*cfg, state@, event).1,
{
    match state {
        EngineState::Done(result) => (EngineState::Done(result), Action::Proceed),
        EngineState::Running { stdout, stderr } => match event {
            ChildEvent::SpawnError => (
                EngineState::Done(ExecutionResult::Failure {
                    kind: ErrorKind::SpawnFailed,
                    reason: String::from_str("the program could not be spawned"),
                }),
                Action::Proceed,
            ),
            ChildEvent::Stdout(chunk) => {
                let mut stdout = stdout;
                let mut chunk = chunk;
                if chunk.len() > cfg.max_captured_bytes
                    || stdout.len() > cfg.max_captured_bytes - chunk.len() {
                    (
                        EngineState::Done(ExecutionResult::Failure {
                            kind: ErrorKind::OutputTooLarge,
                            reason: String::from_str(
                                "captured output exceeded the configured limit",
                            ),
                        }),
                        Action::Kill,
                    )
                } else {
                    stdout.append(&mut chunk);
                    (EngineState::Running { stdout, stderr }, Action::Proceed)
                }
            },
            ChildEvent::Stderr(chunk) => {
                let mut stderr = stderr;
                let mut chunk = chunk;
                if chunk.len() > cfg.max_captured_bytes
                    || stderr.len() > cfg.max_captured_bytes - chunk.len() {
                    (
                        EngineState::Done(ExecutionResult::Failure {
                            kind: ErrorKind::OutputTooLarge,
                            reason: String::from_str(
                                "captured output exceeded the configured limit",
                            ),
                        }),
                        Action::Kill,
                    )
                } else {
                    stderr.append(&mut chunk);
                    (EngineState::Running { stdout, stderr }, Action::Proceed)
                }
            },
            ChildEvent::Elapsed(t) => {
                if t >= cfg.timeout_ms {
                    (
                        EngineState::Done(ExecutionResult::Failure {
                            kind: ErrorKind::TimedOut,
                            reason: String::from_str(
                                "the deadline expired before the command finished",
                            ),
                        }),
                        Action::Kill,
                    )
                } else {
                    (EngineState::Running { stdout, stderr }, Action::Proceed)
                }
            },
            ChildEvent::Exited(code) => (
                EngineState::Done(ExecutionResult::Success { exit_code: code, stdout, stderr }),
                Action::Proceed,
            ),
            ChildEvent::ReadError => (
                EngineState::Done(ExecutionResult::Failure {
                    kind: ErrorKind::IoError,
                    reason: String::from_str("an output stream could not be read"),
                }),
                Action::Kill,
            ),
        },
    }
}

/// The fold of [`step_spec`] over a whole event stream.
pub open spec fn drive_spec(cfg: EngineConfig, s: EngineView, events: Seq<ChildEvent>) -> EngineView
    decreases events.len(),
{
    if events.len() == 0 {
        s
    } else {
        drive_spec(cfg, step_spec(cfg, s, events[0]).0, events.drop_first())
    }
}

/// The result a whole event stream ends in, from the initial state.  A
/// stream that runs out while the child is still being supervised means the
/// caller lost sight of the child: that is an I/O failure, never a partial
/// success.
pub open spec fn run_spec(cfg: EngineConfig, events: Seq<ChildEvent>) -> Outcome {
    match drive_spec(cfg, initial_view(), events) {
        EngineView::Done(outcome) => outcome,
        EngineView::Running { .. } => Outcome::Failure {
            kind: ErrorKind::IoError,
            reason: "the event stream ended before the command exited"@,
        },
    }
}

/// Folds a complete stream of observations into the typed result of the
/// request, exactly as [`run_spec`] prescribes.
pub fn drive(cfg: &EngineConfig, events: Vec<ChildEvent>) -> (r: ExecutionResult)
    ensures
        r@ == run_spec(*cfg, events@),
{
    let ghost all = events@;
    let mut events = events;
    let mut state = start();
    while events.len() > 0
        invariant
            drive_spec(*cfg, state@, events@) == drive_spec(*cfg, initial_view(), all),
        decreases events@.len(),
    {
        let ghost before = events@;
        let event = events.remove(0);
        assert(events@ =~= before.drop_first());
        let (next, _action) = step(cfg, state, event);
        state = next;
    }
    match state {
        EngineState::Done(result) => result,
        EngineState::Running { .. } => ExecutionResult::Failure {
            kind: ErrorKind::IoError,
            reason: String::from_str("the event stream ended before the command exited"),
        },
    }
}

/// A finished engine never changes again, whatever is observed afterwards.
proof fn lemma_done_absorbs(cfg: EngineConfig, outcome: Outcome, events: Seq<ChildEvent>)
    ensures
        drive_spec(cfg, EngineView::Done(outcome), events) == EngineView::Done(outcome),
    decreases events.len(),
{
    if events.len() > 0 {
        lemma_done_absorbs(cfg, outcome, events.drop_first());
    }
}

/// Folding a concatenated stream is folding each part in turn.
proof fn lemma_drive_append(
    cfg: EngineConfig,
    s: EngineView,
    first: Seq<ChildEvent>,
    second: Seq<ChildEvent>,
)
    ensures
        drive_spec(cfg, s, first + second) == drive_spec(cfg, drive_spec(cfg, s, first), second),
    decreases first.len(),
{
    if first.len() == 0 {
        assert(first + second =~= second);
    } else {
        assert((first + second).drop_first() =~= first.drop_first() + second);
        assert((first + second)[0] == first[0]);
        lemma_drive_append(cfg, step_spec(cfg, s, first[0]).0, first.drop_first(), second);
    }
}

/// Both captured streams of the state stay within the configured cap.
pub open spec fn capture_bounded(cfg: EngineConfig, s: EngineView) -> bool {
    match s {
        EngineView::Running { stdout, stderr } => stdout.len() <= cfg.max_captured_bytes
            && stderr.len() <= cfg.max_captured_bytes,
        EngineView::Done(outcome) => match outcome {
            Outcome::Success { stdout, stderr, .. } => stdout.len() <= cfg.max_captured_bytes
                && stderr.len() <= cfg.max_captured_bytes,
            Outcome::Failure { .. } => true,
        },
    }
}

proof fn lemma_drive_preserves_bound(cfg: EngineConfig, s: EngineView, events: Seq<ChildEvent>)
    requires
        capture_bounded(cfg, s),
    ensures
        capture_bounded(cfg, drive_spec(cfg, s, events)),
    decreases events.len(),
{
    if events.len() > 0 {
        assert(capture_bounded(cfg, step_spec(cfg, s, events[0]).0));
        lemma_drive_preserves_bound(cfg, step_spec(cfg, s, events[0]).0, events.drop_first());
    }
}

/// Law: captured output is bounded.  However much the child writes, a
/// successful result never carries more than the configured cap on either
/// stream; a stream that would grow past the cap ends the request as a
/// failure instead.
pub proof fn lemma_output_bounded(cfg: EngineConfig, events: Seq<ChildEvent>)
    ensures
        run_spec(cfg, events) matches Outcome::Success { stdout, stderr, .. } ==> stdout.len()
            <= cfg.max_captured_bytes && stderr.len() <= cfg.max_captured_bytes,
{
    lemma_drive_preserves_bound(cfg, initial_view(), events);
}

/// Law: the deadline decides.  Once the caller observes that the timeout
/// has expired while the command is still being supervised, the request
/// ends in `TimedOut` no matter what is observed afterwards, and the
/// engine orders the child killed at that very step.
pub proof fn lemma_timeout_decides(cfg: EngineConfig, events: Seq<ChildEvent>, i: int)
    requires
        0 <= i < events.len(),
        events[i] matches ChildEvent::Elapsed(t) && t >= cfg.timeout_ms,
        drive_spec(cfg, initial_view(), events.take(i)) matches EngineView::Running { .. },
    ensures
        run_spec(cfg, events) == (Outcome::Failure {
            kind: ErrorKind::TimedOut,
            reason: "the deadline expired before the command finished"@,
        }),
        step_spec(cfg, drive_spec(cfg, initial_view(), events.take(i)), events[i]).1
            == Action::Kill,
{
    let prefix = events.take(i);
    let rest = events.skip(i);
    assert(events =~= prefix + rest);
    lemma_drive_append(cfg, initial_view(), prefix, rest);
    let reached = drive_spec(cfg, initial_view(), prefix);
    let timed_out = Outcome::Failure {
        kind: ErrorKind::TimedOut,
        reason: "the deadline expired before the command finished"@,
    };
    assert(rest[0] == events[i]);
    assert(step_spec(cfg, reached, rest[0]).0 == EngineView::Done(timed_out));
    lemma_done_absorbs(cfg, timed_out, rest.drop_first());
}

/// The concatenation of the stdout chunks among the events, in order.
pub open spec fn stdout_observed(events: Seq<ChildEvent>) -> Seq<u8>
    decreases events.len(),
{
    if events.len() == 0 {
        Seq::empty()
    } else {
        match events[0] {
            ChildEvent::Stdout(chunk) => chunk@ + stdout_observed(events.drop_first()),
            _ => stdout_observed(events.drop_first()),
        }
    }
}

proof fn lemma_running_stdout_concat(
    cfg: EngineConfig,
    out: Seq<u8>,
    err: Seq<u8>,
    events: Seq<ChildEvent>,
)
    ensures
        drive_spec(cfg, (EngineView::Running { stdout: out, stderr: err }), events) matches
            EngineView::Done(Outcome::Success { stdout: so, .. }) ==> exists|k: int|
            0 <= k < events.len() && (#[trigger] events[k] matches ChildEvent::Exited(_)) && so
                == out + stdout_observed(events.take(k)),
    decreases events.len(),
{
    let s = EngineView::Running { stdout: out, stderr: err };
    if events.len() > 0 {
        let e = events[0];
        let rest = events.drop_first();
        let stepped = step_spec(cfg, s, e).0;
        match stepped {
            EngineView::Done(outcome) => {
                lemma_done_absorbs(cfg, outcome, rest);
                match outcome {
                    Outcome::Success { stdout: so, .. } => {
                        assert(e matches ChildEvent::Exited(_));
                        assert(events.take(0) =~= Seq::<ChildEvent>::empty());
                        assert(so == out + stdout_observed(events.take(0)));
                    },
                    Outcome::Failure { .. } => {},
                }
            },
            EngineView::Running { stdout: out2, stderr: err2 } => {
                lemma_running_stdout_concat(cfg, out2, err2, rest);
                match drive_spec(cfg, stepped, rest) {
                    EngineView::Done(Outcome::Success { stdout: so, .. }) => {
                        let k2 = choose|k2: int|
                            0 <= k2 < rest.len() && (#[trigger] rest[k2] matches
                                ChildEvent::Exited(_)) && so == out2 + stdout_observed(
                                rest.take(k2),
                            );
                        let k = k2 + 1;
                        assert(events[k] == rest[k2]);
                        assert(events.take(k).drop_first() =~= rest.take(k2));
                        assert(events.take(k)[0] == e);
                        match e {
                            ChildEvent::Stdout(chunk) => {
                                assert(out2 == out + chunk@);
                                assert(stdout_observed(events.take(k)) == chunk@
                                    + stdout_observed(rest.take(k2)));
                                assert((out + chunk@) + stdout_observed(rest.take(k2)) =~= out + (
                                chunk@ + stdout_observed(rest.take(k2))));
                            },
                            _ => {
                                assert(out2 == out);
                                assert(stdout_observed(events.take(k)) == stdout_observed(
                                    rest.take(k2),
                                ));
                            },
                        }
                        assert(so == out + stdout_observed(events.take(k)));
                    },
                    _ => {},
                }
            },
        }
    }
}

/// Law: a successful run captures exactly what was observed.  The stdout a
/// `Success` carries is the concatenation, in order, of the stdout chunks
/// observed before the exit — nothing dropped, nothing added.  Two runs of
/// a side-effect-free command produce the same observations, so each run
/// yields the same stdout.
pub proof fn lemma_stdout_is_what_was_observed(cfg: EngineConfig, events: Seq<ChildEvent>)
    ensures
        run_spec(cfg, events) matches Outcome::Success { stdout: so, .. } ==> exists|k: int|
            0 <= k < events.len() && (#[trigger] events[k] matches ChildEvent::Exited(_)) && so
                == stdout_observed(events.take(k)),
{
    lemma_running_stdout_concat(cfg, Seq::empty(), Seq::empty(), events);
    match run_spec(cfg, events) {
        Outcome::Success { stdout: so, .. } => {
            let k = choose|k: int|
                0 <= k < events.len() && (#[trigger] events[k] matches ChildEvent::Exited(_))
                    && so == Seq::<u8>::empty() + stdout_observed(events.take(k));
            assert(Seq::<u8>::empty() + stdout_observed(events.take(k)) =~= stdout_observed(
                events.take(k),
            ));
        },
        Outcome::Failure { .. } => {},
    }
}

/// Law: execution is reproducible.  The result of a request is a pure
/// function of the configuration and the observed child behaviour; the
/// engine adds no nondeterminism of its own.  Invoking a side-effect-free
/// command again reproduces the same observations and therefore captures
/// the same stdout.
pub proof fn lemma_rerun_reproducible(
    cfg: EngineConfig,
    first: Seq<ChildEvent>,
    second: Seq<ChildEvent>,
)
    requires
        first == second,
    ensures
        run_spec(cfg, first) == run_spec(cfg, second),
{
}

} // verus!
