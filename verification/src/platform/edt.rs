//! Execution of EDT commands: what is asked of the outside at each point, and what follows.

use vstd::prelude::*;
use crate::mcp::edt_session::{session_error_text, EdtSessionError, EdtSessionErrorView};
use crate::platform::edt_command::{render_interactive_session_command, session_command};
use crate::platform::interactive::{
    interactive_error_text, InteractiveProcessError, InteractiveProcessErrorView,
};
use crate::platform::process::{
    default_policy, process_error_text, ProcessError, ProcessErrorView, ProcessExecutionPolicy,
    ProcessInterruptionReason,
};
use crate::platform::process_run::{interruption_failure, process_error_from_reason};
use crate::text::{cat2, cat4};
use crate::text_scan::{contains, text_contains};
use crate::time::{shorter, time_until, whole_millis, Moment, Span};

verus! {

/// Failures of an EDT command.
#[derive(Debug, PartialEq, Eq)]
pub enum EdtError {
    PrepareWorkspace { path: String, source: String },
    Spawn(ProcessError),
    Interactive(InteractiveProcessError),
    SharedSession(EdtSessionError),
}

/// Mathematical value of [`EdtError`].
pub enum EdtErrorView {
    PrepareWorkspace { path: Seq<char>, source: Seq<char> },
    Spawn(ProcessErrorView),
    Interactive(InteractiveProcessErrorView),
    SharedSession(EdtSessionErrorView),
}

impl View for EdtError {
    type V = EdtErrorView;

    open spec fn view(&self) -> EdtErrorView {
        match *self {
            EdtError::PrepareWorkspace { path, source } => EdtErrorView::PrepareWorkspace {
                path: path@,
                source: source@,
            },
            EdtError::Spawn(x0) => EdtErrorView::Spawn(x0@),
            EdtError::Interactive(x0) => EdtErrorView::Interactive(x0@),
            EdtError::SharedSession(x0) => EdtErrorView::SharedSession(x0@),
        }
    }
}

/// Text shown for an EDT failure.
pub open spec fn edt_error_text(error: EdtErrorView) -> Seq<char> {
    match error {
        EdtErrorView::PrepareWorkspace { path, source } => "failed to prepare edt workspace '"@
            + path + "': "@ + source,
        EdtErrorView::Spawn(e) => "failed to execute edt process: "@ + process_error_text(e),
        EdtErrorView::Interactive(e) => "failed to execute interactive edt process: "@
            + interactive_error_text(e),
        EdtErrorView::SharedSession(e) => "failed to execute shared edt session: "@
            + session_error_text(e),
    }
}

impl EdtError {
    /// Text shown to the user.
    pub fn message(&self) -> (r: String)
        ensures
            r@ == edt_error_text(self@),
    {
        match self {
            EdtError::PrepareWorkspace { path, source } => cat4(
                "failed to prepare edt workspace '",
                path.as_str(),
                "': ",
                source.as_str(),
            ),
            EdtError::Spawn(e) => cat2("failed to execute edt process: ", e.message().as_str()),
            EdtError::Interactive(e) => cat2(
                "failed to execute interactive edt process: ",
                e.message().as_str(),
            ),
            EdtError::SharedSession(e) => cat2(
                "failed to execute shared edt session: ",
                e.message().as_str(),
            ),
        }
    }
}

/// How commands reach EDT.
#[derive(Clone, Copy, Debug, PartialEq, Eq, Structural)]
pub enum EdtBackend {
    /// A process per command.
    OneShot,
    /// A session that belongs to this DSL.
    Interactive { command_timeout: Span, shutdown_timeout: Span },
    /// The session that is shared by all callers.
    SharedSession { startup_timeout: Span, command_timeout: Span },
}

/// Longest wait for a session to shut down, in milliseconds.
pub const SESSION_SHUTDOWN_LIMIT_MS: u64 = 5000;

/// Access to `1cedtcli` in one workspace.
#[derive(Debug, PartialEq, Eq)]
pub struct EdtDsl {
    pub binary: String,
    pub workspace: String,
    pub backend: EdtBackend,
    /// Cap on the execution of a command.
    pub timeout: Option<Span>,
    pub execution_policy: ProcessExecutionPolicy,
    /// When the time budget started to run.
    pub budget_started_at: Moment,
}

/// Mathematical value of [`EdtDsl`].
pub struct EdtDslView {
    pub binary: Seq<char>,
    pub workspace: Seq<char>,
    pub backend: EdtBackend,
    pub timeout: Option<Span>,
    pub execution_policy: ProcessExecutionPolicy,
    pub budget_started_at: Moment,
}

impl View for EdtDsl {
    type V = EdtDslView;

    open spec fn view(&self) -> EdtDslView {
        EdtDslView {
            binary: self.binary@,
            workspace: self.workspace@,
            backend: self.backend,
            timeout: self.timeout,
            execution_policy: self.execution_policy,
            budget_started_at: self.budget_started_at,
        }
    }
}

/// Marker that the EDT command line prints after a failed command.
pub open spec fn interactive_error_marker() -> Seq<char> {
    "Run '$exception printStackTrace' for error details"@
}

/// Exit code of an interactive command: the prompt has none, so a failure is told by the marker.
pub open spec fn interactive_exit_code(stdout: Seq<char>, stderr: Seq<char>) -> i32 {
    if contains(stdout, interactive_error_marker()) || contains(stderr, interactive_error_marker()) {
        1
    } else {
        0
    }
}

/// Whether the output of an interactive command tells of a failure.
pub fn output_indicates_interactive_command_error(stdout: &str, stderr: &str) -> (r: bool)
    ensures
        r == (interactive_exit_code(stdout@, stderr@) == 1),
{
    text_contains(stdout, "Run '$exception printStackTrace' for error details") || text_contains(
        stderr,
        "Run '$exception printStackTrace' for error details",
    )
}

/// What is left at `now` of a time that has run since `started`.
pub open spec fn budget_left(limit: Span, started: Moment, now: Moment) -> Span {
    let elapsed = time_until(now, started);
    if limit.nanos > elapsed.nanos {
        Span { nanos: (limit.nanos - elapsed.nanos) as u128 }
    } else {
        Span { nanos: 0 }
    }
}

/// What is left at `now` of a time that has run since `started`.
pub fn remaining_budget(limit: Span, started: Moment, now: Moment) -> (r: Span)
    ensures
        r == budget_left(limit, started, now),
{
    let elapsed = now.since(started);
    if limit.nanos > elapsed.nanos {
        Span { nanos: limit.nanos - elapsed.nanos }
    } else {
        Span { nanos: 0 }
    }
}

/// What is left of an optional limit.
pub open spec fn cap_left(limit: Option<Span>, started: Moment, now: Moment) -> Option<Span> {
    match limit {
        Some(l) => Some(budget_left(l, started, now)),
        None => None,
    }
}

/// Shorter of two optional limits; `None` is no limit.
pub open spec fn tighter(a: Option<Span>, b: Option<Span>) -> Option<Span> {
    match (a, b) {
        (Some(x), Some(y)) => Some(shorter(x, y)),
        (Some(x), None) => Some(x),
        (None, y) => y,
    }
}

/// Time for a command over a session: the DSL's own timeout takes the place of the command timeout
/// and the policy caps either.
pub open spec fn session_timeout(
    command_timeout: Span,
    timeout: Option<Span>,
    cap: Option<Span>,
) -> Span {
    match (timeout, cap) {
        (Some(t), Some(c)) => shorter(t, c),
        (Some(t), None) => t,
        (None, Some(c)) => shorter(command_timeout, c),
        (None, None) => command_timeout,
    }
}

impl EdtDsl {
    /// DSL that starts a process per command.
    pub fn new(binary: String, workspace: String, now: Moment) -> (r: Self)
        ensures
            r.binary == binary,
            r.workspace == workspace,
            r.backend == EdtBackend::OneShot,
            r.timeout is None,
            r.execution_policy == default_policy(),
            r.budget_started_at == now,
    {
        EdtDsl {
            binary,
            workspace,
            backend: EdtBackend::OneShot,
            timeout: None,
            execution_policy: ProcessExecutionPolicy::default(),
            budget_started_at: now,
        }
    }

    /// DSL over a session of its own, which is shut down within the command timeout or five
    /// seconds, whichever is shorter.
    pub fn new_interactive(binary: String, workspace: String, command_timeout: Span, now: Moment)
        -> (r: Self)
        ensures
            r.binary == binary,
            r.workspace == workspace,
            r.backend == (EdtBackend::Interactive {
                command_timeout,
                shutdown_timeout: shorter(command_timeout, crate::time::millis_span(5000)),
            }),
            r.timeout is None,
            r.execution_policy == default_policy(),
            r.budget_started_at == now,
    {
        EdtDsl {
            binary,
            workspace,
            backend: EdtBackend::Interactive {
                command_timeout,
                shutdown_timeout: command_timeout.min(Span::from_millis(SESSION_SHUTDOWN_LIMIT_MS)),
            },
            timeout: None,
            execution_policy: ProcessExecutionPolicy::default(),
            budget_started_at: now,
        }
    }

    /// DSL over the shared session.
    pub fn new_shared_session(
        binary: String,
        workspace: String,
        startup_timeout: Span,
        command_timeout: Span,
        now: Moment,
    ) -> (r: Self)
        ensures
            r.binary == binary,
            r.workspace == workspace,
            r.backend == (EdtBackend::SharedSession { startup_timeout, command_timeout }),
            r.timeout is None,
            r.execution_policy == default_policy(),
            r.budget_started_at == now,
    {
        EdtDsl {
            binary,
            workspace,
            backend: EdtBackend::SharedSession { startup_timeout, command_timeout },
            timeout: None,
            execution_policy: ProcessExecutionPolicy::default(),
            budget_started_at: now,
        }
    }

    /// The DSL with another timeout cap; the budget starts anew.
    pub fn with_timeout(self, timeout: Option<Span>, now: Moment) -> (r: Self)
        ensures
            r == (EdtDsl { timeout, budget_started_at: now, ..self }),
    {
        EdtDsl { timeout, budget_started_at: now, ..self }
    }

    /// The DSL with another execution policy; the budget starts anew.
    pub fn with_execution_policy(self, execution_policy: ProcessExecutionPolicy, now: Moment) -> (r:
        Self)
        ensures
            r == (EdtDsl { execution_policy, budget_started_at: now, ..self }),
    {
        EdtDsl { execution_policy, budget_started_at: now, ..self }
    }

    /// What is left at `now` of an optional limit.
    pub(crate) fn remaining_budget_cap(&self, limit: Option<Span>, now: Moment) -> (r: Option<Span>)
        ensures
            r == cap_left(limit, self.budget_started_at, now),
    {
        match limit {
            Some(l) => Some(remaining_budget(l, self.budget_started_at, now)),
            None => None,
        }
    }

    /// Time for a command over a session.
    pub(crate) fn effective_timeout(&self, command_timeout: Span, now: Moment) -> (r: Span)
        ensures
            r == effective(self@, command_timeout, now),
    {
        let timeout = self.remaining_budget_cap(self.timeout, now);
        let cap = self.remaining_budget_cap(self.execution_policy.timeout, now);
        match (timeout, cap) {
            (Some(t), Some(c)) => t.min(c),
            (Some(t), None) => t,
            (None, Some(c)) => command_timeout.min(c),
            (None, None) => command_timeout,
        }
    }
}

/// Time for a command over a session, at `now`.
pub open spec fn effective(dsl: EdtDslView, command_timeout: Span, now: Moment) -> Span {
    session_timeout(
        command_timeout,
        cap_left(dsl.timeout, dsl.budget_started_at, now),
        cap_left(dsl.execution_policy.timeout, dsl.budget_started_at, now),
    )
}

// ---------------------------------------------------------------------------------------------
// Failure mapping

/// EDT failure for a failed session command: cancellation and timeout become process failures.
pub open spec fn interactive_failure(
    binary: Seq<char>,
    workspace: Seq<char>,
    command: Seq<char>,
    error: InteractiveProcessErrorView,
) -> EdtErrorView {
    let cmd = session_command(binary, workspace, command);
    match error {
        InteractiveProcessErrorView::CommandCancelled { .. } => EdtErrorView::Spawn(
            ProcessErrorView::Cancelled { cmd },
        ),
        InteractiveProcessErrorView::CommandTimeout { timeout_ms, .. } => EdtErrorView::Spawn(
            ProcessErrorView::TimedOut { cmd, timeout_ms },
        ),
        _ => EdtErrorView::Interactive(error),
    }
}

/// EDT failure for a failed session command.
pub fn map_interactive_command_error(
    binary: &str,
    workspace: &str,
    command: &str,
    error: InteractiveProcessError,
) -> (r: EdtError)
    ensures
        r@ == interactive_failure(binary@, workspace@, command@, error@),
{
    match error {
        InteractiveProcessError::CommandCancelled { .. } => EdtError::Spawn(
            ProcessError::Cancelled {
                cmd: render_interactive_session_command(binary, workspace, command),
            },
        ),
        InteractiveProcessError::CommandTimeout { timeout_ms, .. } => EdtError::Spawn(
            ProcessError::TimedOut {
                cmd: render_interactive_session_command(binary, workspace, command),
                timeout_ms,
            },
        ),
        other => EdtError::Interactive(other),
    }
}

/// EDT failure for a failed command of the shared session.
pub open spec fn shared_failure(
    binary: Seq<char>,
    workspace: Seq<char>,
    command: Seq<char>,
    error: EdtSessionErrorView,
    timeout: Span,
) -> EdtErrorView {
    let cmd = session_command(binary, workspace, command);
    match error {
        EdtSessionErrorView::QueuedCancelled | EdtSessionErrorView::RunningCancelled =>
            EdtErrorView::Spawn(ProcessErrorView::Cancelled { cmd }),
        EdtSessionErrorView::QueuedTimeout | EdtSessionErrorView::RunningTimeout =>
            EdtErrorView::Spawn(
            ProcessErrorView::TimedOut { cmd, timeout_ms: whole_millis(timeout) },
        ),
        _ => EdtErrorView::SharedSession(error),
    }
}

/// EDT failure for a failed command of the shared session.
pub fn map_shared_session_error(
    binary: &str,
    workspace: &str,
    command: &str,
    error: EdtSessionError,
    timeout: Span,
) -> (r: EdtError)
    ensures
        r@ == shared_failure(binary@, workspace@, command@, error@, timeout),
{
    match error {
        EdtSessionError::QueuedCancelled | EdtSessionError::RunningCancelled => EdtError::Spawn(
            ProcessError::Cancelled {
                cmd: render_interactive_session_command(binary, workspace, command),
            },
        ),
        EdtSessionError::QueuedTimeout | EdtSessionError::RunningTimeout => EdtError::Spawn(
            ProcessError::TimedOut {
                cmd: render_interactive_session_command(binary, workspace, command),
                timeout_ms: timeout.as_millis(),
            },
        ),
        other => EdtError::SharedSession(other),
    }
}

/// Process failure for an interruption that was observed before the command itself was sent.
pub fn process_error_from_interruption(
    binary: &str,
    workspace: &str,
    command: &str,
    reason: ProcessInterruptionReason,
    timeout: Span,
) -> (r: ProcessError)
    ensures
        r@ == interruption_failure(
            session_command(binary@, workspace@, command@),
            Some(timeout),
            reason,
        ),
{
    let cmd = render_interactive_session_command(binary, workspace, command);
    process_error_from_reason(cmd.as_str(), Some(timeout), reason)
}

} // verus!
