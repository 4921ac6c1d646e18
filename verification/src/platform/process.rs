//! Process requests, rendering of command lines, and the decisions taken while a child runs.

use vstd::prelude::*;
use crate::text::{
    cat2, cat3, cat5, clone_opt, clone_texts, join_texts, join_with, opt_text, push_text, texts,
};
use crate::text_number::{decimal, decimal_i32, decimal_u64, signed_decimal};
use crate::text_scan::{ascii_lowered, split_once, text_eq_ignore_ascii_case, text_split_once};
use crate::time::{millis_span, Span};

verus! {

/// Request for launching an external utility.
#[derive(Debug, PartialEq, Eq)]
pub struct ProcessRequest {
    /// Absolute path of the executable to run.
    pub program: String,
    /// Command-line arguments passed to the executable.
    pub args: Vec<String>,
    /// Working directory of the child process.
    pub workdir: Option<String>,
    /// Path where captured stdout is mirrored.
    pub stdout_log_path: Option<String>,
    /// Path where captured stderr is mirrored.
    pub stderr_log_path: Option<String>,
    /// Grace period used to detect immediate startup failures of a detached process.
    pub startup_probe: Option<Span>,
}

/// Mathematical value of [`ProcessRequest`].
pub struct ProcessRequestView {
    pub program: Seq<char>,
    pub args: Seq<Seq<char>>,
    pub workdir: Option<Seq<char>>,
    pub stdout_log_path: Option<Seq<char>>,
    pub stderr_log_path: Option<Seq<char>>,
    pub startup_probe: Option<Span>,
}

impl View for ProcessRequest {
    type V = ProcessRequestView;

    open spec fn view(&self) -> ProcessRequestView {
        ProcessRequestView {
            program: self.program@,
            args: texts(self.args@),
            workdir: opt_text(self.workdir),
            stdout_log_path: opt_text(self.stdout_log_path),
            stderr_log_path: opt_text(self.stderr_log_path),
            startup_probe: self.startup_probe,
        }
    }
}

impl Clone for ProcessRequest {
    fn clone(&self) -> (r: Self)
        ensures
            r@ == self@,
    {
        ProcessRequest {
            program: self.program.clone(),
            args: clone_texts(&self.args),
            workdir: clone_opt(&self.workdir),
            stdout_log_path: clone_opt(&self.stdout_log_path),
            stderr_log_path: clone_opt(&self.stderr_log_path),
            startup_probe: self.startup_probe,
        }
    }
}

/// Result of a completed run.
#[derive(Debug, PartialEq, Eq)]
pub struct ProcessResult {
    /// Child exit code.
    pub exit_code: i32,
    /// Captured stdout, decoded as UTF-8.
    pub stdout: String,
    /// Captured stderr, decoded as UTF-8.
    pub stderr: String,
    /// Interruption observed while the child was running.
    pub interruption: Option<ProcessInterruption>,
}

/// Mathematical value of [`ProcessResult`].
pub struct ProcessResultView {
    pub exit_code: i32,
    pub stdout: Seq<char>,
    pub stderr: Seq<char>,
    pub interruption: Option<ProcessInterruption>,
}

impl View for ProcessResult {
    type V = ProcessResultView;

    open spec fn view(&self) -> ProcessResultView {
        ProcessResultView {
            exit_code: self.exit_code,
            stdout: self.stdout@,
            stderr: self.stderr@,
            interruption: self.interruption,
        }
    }
}

/// Result of starting a detached process.
#[derive(Debug, PartialEq, Eq)]
pub struct SpawnResult {
    /// Operating system process identifier.
    pub pid: u32,
    /// Binary that was used to start the process.
    pub binary: String,
}

/// Mathematical value of [`SpawnResult`].
pub struct SpawnResultView {
    pub pid: u32,
    pub binary: Seq<char>,
}

impl View for SpawnResult {
    type V = SpawnResultView;

    open spec fn view(&self) -> SpawnResultView {
        SpawnResultView {
            pid: self.pid,
            binary: self.binary@,
        }
    }
}

/// What may be done to a child when an interruption arrives.
#[derive(Clone, Copy, Debug, PartialEq, Eq, Structural)]
pub enum ProcessInterruptionSafety {
    Interruptible,
    GracefulThenKill,
    CriticalNonAbortable,
}

/// Why a child is interrupted.
#[derive(Clone, Copy, Debug, PartialEq, Eq, Structural)]
pub enum ProcessInterruptionReason {
    Cancelled,
    TimedOut,
}

/// How an interruption was handled.
#[derive(Clone, Copy, Debug, PartialEq, Eq, Structural)]
pub enum ProcessInterruptionAction {
    Deferred,
}

/// Interruption observed during process execution.
#[derive(Clone, Copy, Debug, PartialEq, Eq, Structural)]
pub struct ProcessInterruption {
    pub reason: ProcessInterruptionReason,
    pub action: ProcessInterruptionAction,
}

/// Execution policy of one process run. Whether the run has been cancelled is told with each poll.
#[derive(Clone, Copy, Debug, PartialEq, Eq, Structural)]
pub struct ProcessExecutionPolicy {
    pub timeout: Option<Span>,
    pub safety: ProcessInterruptionSafety,
    pub graceful_shutdown_timeout: Span,
}

/// No timeout, interruptible, a quarter of a second to stop.
pub open spec fn default_policy() -> ProcessExecutionPolicy {
    ProcessExecutionPolicy {
        timeout: None,
        safety: ProcessInterruptionSafety::Interruptible,
        graceful_shutdown_timeout: millis_span(250),
    }
}

impl Default for ProcessExecutionPolicy {
    fn default() -> (r: Self)
        ensures
            r == default_policy(),
    {
        ProcessExecutionPolicy {
            timeout: None,
            safety: ProcessInterruptionSafety::Interruptible,
            graceful_shutdown_timeout: Span::from_millis(250),
        }
    }
}

impl ProcessExecutionPolicy {
    /// Policy with the default grace period.
    pub fn new(timeout: Option<Span>, safety: ProcessInterruptionSafety) -> (r: Self)
        ensures
            r == (ProcessExecutionPolicy {
                timeout,
                safety,
                graceful_shutdown_timeout: millis_span(250),
            }),
    {
        ProcessExecutionPolicy {
            timeout,
            safety,
            graceful_shutdown_timeout: Span::from_millis(250),
        }
    }
}

/// Process execution failures.
#[derive(Debug, PartialEq, Eq)]
pub enum ProcessError {
    SpawnFailed { cmd: String, source: String },
    StartupCheckFailed { cmd: String, source: String },
    ExitedEarly { cmd: String, exit_code: i32 },
    StdoutLogIo { path: String, source: String },
    StderrLogIo { path: String, source: String },
    Cancelled { cmd: String },
    TimedOut { cmd: String, timeout_ms: u64 },
}

/// Mathematical value of [`ProcessError`].
pub enum ProcessErrorView {
    SpawnFailed { cmd: Seq<char>, source: Seq<char> },
    StartupCheckFailed { cmd: Seq<char>, source: Seq<char> },
    ExitedEarly { cmd: Seq<char>, exit_code: i32 },
    StdoutLogIo { path: Seq<char>, source: Seq<char> },
    StderrLogIo { path: Seq<char>, source: Seq<char> },
    Cancelled { cmd: Seq<char> },
    TimedOut { cmd: Seq<char>, timeout_ms: u64 },
}

impl View for ProcessError {
    type V = ProcessErrorView;

    open spec fn view(&self) -> ProcessErrorView {
        match *self {
            ProcessError::SpawnFailed { cmd, source } => ProcessErrorView::SpawnFailed {
                cmd: cmd@,
                source: source@,
            },
            ProcessError::StartupCheckFailed {
                cmd,
                source,
            } => ProcessErrorView::StartupCheckFailed {
                cmd: cmd@,
                source: source@,
            },
            ProcessError::ExitedEarly { cmd, exit_code } => ProcessErrorView::ExitedEarly {
                cmd: cmd@,
                exit_code,
            },
            ProcessError::StdoutLogIo { path, source } => ProcessErrorView::StdoutLogIo {
                path: path@,
                source: source@,
            },
            ProcessError::StderrLogIo { path, source } => ProcessErrorView::StderrLogIo {
                path: path@,
                source: source@,
            },
            ProcessError::Cancelled { cmd } => ProcessErrorView::Cancelled { cmd: cmd@ },
            ProcessError::TimedOut { cmd, timeout_ms } => ProcessErrorView::TimedOut {
                cmd: cmd@,
                timeout_ms,
            },
        }
    }
}

impl Clone for ProcessError {
    fn clone(&self) -> (r: Self)
        ensures
            r@ == self@,
    {
        match self {
            ProcessError::SpawnFailed { cmd, source } => ProcessError::SpawnFailed {
                cmd: cmd.clone(),
                source: source.clone(),
            },
            ProcessError::StartupCheckFailed { cmd, source } => ProcessError::StartupCheckFailed {
                cmd: cmd.clone(),
                source: source.clone(),
            },
            ProcessError::ExitedEarly { cmd, exit_code } => ProcessError::ExitedEarly {
                cmd: cmd.clone(),
                exit_code: *exit_code,
            },
            ProcessError::StdoutLogIo { path, source } => ProcessError::StdoutLogIo {
                path: path.clone(),
                source: source.clone(),
            },
            ProcessError::StderrLogIo { path, source } => ProcessError::StderrLogIo {
                path: path.clone(),
                source: source.clone(),
            },
            ProcessError::Cancelled { cmd } => ProcessError::Cancelled { cmd: cmd.clone() },
            ProcessError::TimedOut { cmd, timeout_ms } => ProcessError::TimedOut {
                cmd: cmd.clone(),
                timeout_ms: *timeout_ms,
            },
        }
    }
}

/// Text shown for a process failure.
pub open spec fn process_error_text(error: ProcessErrorView) -> Seq<char> {
    match error {
        ProcessErrorView::SpawnFailed { cmd, source } => "failed to spawn process '"@ + cmd + "': "@
            + source,
        ProcessErrorView::StartupCheckFailed { cmd, source } =>
            "failed to observe process startup '"@ + cmd + "': "@ + source,
        ProcessErrorView::ExitedEarly { cmd, exit_code } =>
            "process exited before startup completed '"@ + cmd + "' (exit "@ + signed_decimal(
            exit_code as int,
        ) + ")"@,
        ProcessErrorView::StdoutLogIo { path, source } => "failed to write stdout log '"@ + path
            + "': "@ + source,
        ProcessErrorView::StderrLogIo { path, source } => "failed to write stderr log '"@ + path
            + "': "@ + source,
        ProcessErrorView::Cancelled { cmd } => "process cancelled '"@ + cmd
            + "' before reaching a safe completion point"@,
        ProcessErrorView::TimedOut { cmd, timeout_ms } => "process timed out '"@ + cmd
            + "' after "@ + decimal(timeout_ms as nat) + "ms"@,
    }
}

impl ProcessError {
    /// Text shown to the user.
    pub fn message(&self) -> (r: String)
        ensures
            r@ == process_error_text(self@),
    {
        match self {
            ProcessError::SpawnFailed { cmd, source } => {
                crate::text::cat4("failed to spawn process '", cmd.as_str(), "': ", source.as_str())
            },
            ProcessError::StartupCheckFailed { cmd, source } => {
                crate::text::cat4(
                    "failed to observe process startup '",
                    cmd.as_str(),
                    "': ",
                    source.as_str(),
                )
            },
            ProcessError::ExitedEarly { cmd, exit_code } => {
                let code = decimal_i32(*exit_code);
                cat5(
                    "process exited before startup completed '",
                    cmd.as_str(),
                    "' (exit ",
                    code.as_str(),
                    ")",
                )
            },
            ProcessError::StdoutLogIo { path, source } => {
                crate::text::cat4(
                    "failed to write stdout log '",
                    path.as_str(),
                    "': ",
                    source.as_str(),
                )
            },
            ProcessError::StderrLogIo { path, source } => {
                crate::text::cat4(
                    "failed to write stderr log '",
                    path.as_str(),
                    "': ",
                    source.as_str(),
                )
            },
            ProcessError::Cancelled { cmd } => {
                cat3(
                    "process cancelled '",
                    cmd.as_str(),
                    "' before reaching a safe completion point",
                )
            },
            ProcessError::TimedOut { cmd, timeout_ms } => {
                let ms = decimal_u64(*timeout_ms);
                cat5("process timed out '", cmd.as_str(), "' after ", ms.as_str(), "ms")
            },
        }
    }
}

// ---------------------------------------------------------------------------------------------
// Command rendering

/// `arg` is `flag`, ASCII case aside.
pub open spec fn same_flag(arg: Seq<char>, flag: Seq<char>) -> bool {
    ascii_lowered(arg) == ascii_lowered(flag)
}

/// `arg` is a flag whose value is a secret: a password or an infobase unlock code.
pub open spec fn sensitive_flag(arg: Seq<char>) -> bool {
    ||| same_flag(arg, "/P"@)
    ||| same_flag(arg, "-P"@)
    ||| same_flag(arg, "--password"@)
    ||| same_flag(arg, "--database-password"@)
    ||| same_flag(arg, "--db-pwd"@)
    ||| same_flag(arg, "--target-database-password"@)
    ||| same_flag(arg, "--target-db-pwd"@)
    ||| same_flag(arg, "/UC"@)
    ||| same_flag(arg, "-UC"@)
}

/// Whether `arg` is a flag whose value is a secret.
pub fn is_sensitive_flag(arg: &str) -> (r: bool)
    ensures
        r == sensitive_flag(arg@),
{
    text_eq_ignore_ascii_case(arg, "/P") || text_eq_ignore_ascii_case(arg, "-P")
        || text_eq_ignore_ascii_case(arg, "--password") || text_eq_ignore_ascii_case(
        arg,
        "--database-password",
    ) || text_eq_ignore_ascii_case(arg, "--db-pwd") || text_eq_ignore_ascii_case(
        arg,
        "--target-database-password",
    ) || text_eq_ignore_ascii_case(arg, "--target-db-pwd") || text_eq_ignore_ascii_case(arg, "/UC")
        || text_eq_ignore_ascii_case(arg, "-UC")
}

/// Key and value of `key=value` where the key is a sensitive flag.
pub open spec fn sensitive_assignment(arg: Seq<char>) -> Option<(Seq<char>, Seq<char>)> {
    match split_once(arg, '=') {
        Some((key, value)) => if sensitive_flag(key) {
            Some((key, value))
        } else {
            None
        },
        None => None,
    }
}

/// Splits `key=value` where the key is a sensitive flag.
pub fn split_sensitive_assignment(arg: &str) -> (r: Option<(String, String)>)
    ensures
        match r {
            Some(p) => sensitive_assignment(arg@) == Some((p.0@, p.1@)),
            None => sensitive_assignment(arg@) is None,
        },
{
    match text_split_once(arg, '=') {
        Some((key, value)) => if is_sensitive_flag(key.as_str()) {
            Some((key, value))
        } else {
            None
        },
        None => None,
    }
}

/// Argument `i` is the value of a sensitive flag that stands right before it.
pub open spec fn is_secret_value(args: Seq<Seq<char>>, i: int) -> bool
    decreases i,
{
    i > 0 && !is_secret_value(args, i - 1) && sensitive_flag(args[i - 1])
}

/// Argument `i` as it is shown.
pub open spec fn shown_arg(args: Seq<Seq<char>>, i: int) -> Seq<char> {
    if is_secret_value(args, i) {
        "***"@
    } else if sensitive_flag(args[i]) {
        args[i]
    } else {
        match sensitive_assignment(args[i]) {
            Some((key, _)) => key + "=***"@,
            None => args[i],
        }
    }
}

/// Arguments as they are shown, with secrets masked.
pub open spec fn shown_args(args: Seq<Seq<char>>) -> Seq<Seq<char>> {
    Seq::new(args.len(), |i: int| shown_arg(args, i))
}

/// Command line as it is shown in messages.
pub open spec fn rendered_command(program: Seq<char>, args: Seq<Seq<char>>) -> Seq<char> {
    join_with(seq![program] + shown_args(args), " "@)
}

/// Renders the command line of a request with secrets masked.
pub fn render_command(request: &ProcessRequest) -> (r: String)
    ensures
        r@ == rendered_command(request.program@, texts(request.args@)),
{
    let mut parts: Vec<String> = Vec::new();
    push_text(&mut parts, request.program.as_str());
    let mut skip_next = false;
    let mut i: usize = 0;
    let ghost args = texts(request.args@);
    assert(texts(parts@) =~= seq![request.program@] + shown_args(args).take(0));
    while i < request.args.len()
        invariant
            i <= request.args.len(),
            args == texts(request.args@),
            skip_next == is_secret_value(args, i as int),
            texts(parts@) == seq![request.program@] + shown_args(args).take(i as int),
        decreases request.args.len() - i,
    {
        let arg = request.args[i].as_str();
        assert(arg@ == args[i as int]);
        let ghost before = texts(parts@);
        if skip_next {
            push_text(&mut parts, "***");
            skip_next = false;
        } else if is_sensitive_flag(arg) {
            push_text(&mut parts, arg);
            skip_next = true;
        } else {
            match split_sensitive_assignment(arg) {
                Some((key, value)) => {
                    let shown = cat2(key.as_str(), "=***");
                    push_text(&mut parts, shown.as_str());
                },
                None => {
                    push_text(&mut parts, arg);
                },
            }
        }
        assert(texts(parts@) =~= before.push(shown_arg(args, i as int)));
        assert(seq![request.program@] + shown_args(args).take(i + 1) =~= before.push(
            shown_arg(args, i as int),
        ));
        i += 1;
    }
    assert(shown_args(args).take(args.len() as int) =~= shown_args(args));
    join_texts(&parts, " ")
}

/// Two argument lists that differ in secrets only: in the value of a sensitive flag, or behind the
/// `=` of a sensitive assignment.
pub open spec fn same_but_secrets(a: Seq<Seq<char>>, b: Seq<Seq<char>>) -> bool {
    &&& a.len() == b.len()
    &&& forall|i: int|
        0 <= i < a.len() ==> {
            ||| #[trigger] a[i] == b[i]
            ||| is_secret_value(a, i) && is_secret_value(b, i)
            ||| {
                &&& !sensitive_flag(a[i]) && !sensitive_flag(b[i])
                &&& sensitive_assignment(a[i]) is Some && sensitive_assignment(b[i]) is Some
                &&& (sensitive_assignment(a[i])->0).0 == (sensitive_assignment(b[i])->0).0
            }
        }
}

proof fn lemma_secret_positions(a: Seq<Seq<char>>, b: Seq<Seq<char>>, i: int)
    requires
        same_but_secrets(a, b),
        0 <= i <= a.len(),
    ensures
        is_secret_value(a, i) == is_secret_value(b, i),
    decreases i,
{
    if i > 0 {
        lemma_secret_positions(a, b, i - 1);
        assert(a[i - 1] == a[i - 1]);
    }
}

/// A rendered command line reveals nothing of the secrets: requests that differ in secrets only are
/// rendered alike.
pub proof fn rendering_hides_secrets(program: Seq<char>, a: Seq<Seq<char>>, b: Seq<Seq<char>>)
    requires
        same_but_secrets(a, b),
    ensures
        rendered_command(program, a) == rendered_command(program, b),
{
    assert forall|i: int| 0 <= i < a.len() implies shown_arg(a, i) == shown_arg(b, i) by {
        lemma_secret_positions(a, b, i);
        assert(a[i] == a[i]);
    }
    assert(shown_args(a) =~= shown_args(b));
}

} // verus!
