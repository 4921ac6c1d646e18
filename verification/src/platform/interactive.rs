//! Interactive, prompt-delimited process sessions: types, and the decisions of one prompt wait.

use vstd::prelude::*;
use crate::platform::process::ProcessInterruption;
use crate::platform::process_run::{EXECUTABLE_BUSY_MAX_RETRIES, EXECUTABLE_BUSY_RETRY_DELAY_MS};
use crate::text::{
    cat2, cat3, cat4, cat5, join_texts, join_with, opt_text, push_text, push_texts, texts,
};
use crate::text_number::{decimal, decimal_i32, decimal_u64, signed_decimal};
use crate::time::{millis_span, Span};

verus! {

/// Longest wait for one reader event, in milliseconds.
pub const IO_POLL_INTERVAL_MS: u64 = 10;

/// Time given to output that trails a prompt, in milliseconds.
pub const PROMPT_DRAIN_GRACE_MS: u64 = 20;

/// Prompt of the EDT command line: `1C:EDT>`.
pub open spec fn default_prompt() -> Seq<u8> {
    seq![0x31u8, 0x43u8, 0x3au8, 0x45u8, 0x44u8, 0x54u8, 0x3eu8]
}

/// Bytes of the EDT prompt.
pub fn default_prompt_bytes() -> (r: Vec<u8>)
    ensures
        r@ == default_prompt(),
{
    let mut out: Vec<u8> = Vec::new();
    out.push(0x31);
    out.push(0x43);
    out.push(0x3a);
    out.push(0x45);
    out.push(0x44);
    out.push(0x54);
    out.push(0x3e);
    out
}

/// How to start an interactive child process.
#[derive(Debug, PartialEq, Eq)]
pub struct InteractiveProcessRequest {
    /// Executable path.
    pub program: String,
    /// Command-line arguments passed to the executable.
    pub args: Vec<String>,
    /// Working directory of the child process.
    pub workdir: Option<String>,
    /// Prompt token that delimits command completion.
    pub prompt: Vec<u8>,
}

/// Mathematical value of [`InteractiveProcessRequest`].
pub struct InteractiveProcessRequestView {
    pub program: Seq<char>,
    pub args: Seq<Seq<char>>,
    pub workdir: Option<Seq<char>>,
    pub prompt: Seq<u8>,
}

impl View for InteractiveProcessRequest {
    type V = InteractiveProcessRequestView;

    open spec fn view(&self) -> InteractiveProcessRequestView {
        InteractiveProcessRequestView {
            program: self.program@,
            args: texts(self.args@),
            workdir: opt_text(self.workdir),
            prompt: self.prompt@,
        }
    }
}

impl InteractiveProcessRequest {
    /// Request for the executable with the EDT prompt and no arguments.
    pub fn new(program: String) -> (r: Self)
        ensures
            r@ == (InteractiveProcessRequestView {
                program: program@,
                args: Seq::empty(),
                workdir: None,
                prompt: default_prompt(),
            }),
    {
        let args: Vec<String> = Vec::new();
        assert(texts(args@) =~= Seq::<Seq<char>>::empty());
        InteractiveProcessRequest { program, args, workdir: None, prompt: default_prompt_bytes() }
    }

    /// The request with other arguments.
    pub fn with_args(self, args: Vec<String>) -> (r: Self)
        ensures
            r@ == (InteractiveProcessRequestView { args: texts(args@), ..self@ }),
    {
        InteractiveProcessRequest {
            program: self.program,
            args,
            workdir: self.workdir,
            prompt: self.prompt,
        }
    }
}

/// Output captured for one interactive command.
#[derive(Debug, PartialEq, Eq)]
pub struct InteractiveCommandOutput {
    /// Captured stdout without the trailing prompt.
    pub stdout: String,
    /// Captured stderr without the trailing prompt.
    pub stderr: String,
}

/// Mathematical value of [`InteractiveCommandOutput`].
pub struct InteractiveCommandOutputView {
    pub stdout: Seq<char>,
    pub stderr: Seq<char>,
}

impl View for InteractiveCommandOutput {
    type V = InteractiveCommandOutputView;

    open spec fn view(&self) -> InteractiveCommandOutputView {
        InteractiveCommandOutputView {
            stdout: self.stdout@,
            stderr: self.stderr@,
        }
    }
}

/// Output of a command that ran under an execution policy.
#[derive(Debug, PartialEq, Eq)]
pub struct InteractiveCommandExecution {
    pub output: InteractiveCommandOutput,
    pub interruption: Option<ProcessInterruption>,
}

/// Mathematical value of [`InteractiveCommandExecution`].
pub struct InteractiveCommandExecutionView {
    pub output: InteractiveCommandOutputView,
    pub interruption: Option<ProcessInterruption>,
}

impl View for InteractiveCommandExecution {
    type V = InteractiveCommandExecutionView;

    open spec fn view(&self) -> InteractiveCommandExecutionView {
        InteractiveCommandExecutionView {
            output: self.output@,
            interruption: self.interruption,
        }
    }
}

/// Stream of the child.
#[derive(Clone, Copy, Debug, PartialEq, Eq, Structural)]
pub enum InteractiveStream {
    Stdout,
    Stderr,
}

/// Name of a stream.
pub open spec fn stream_name(stream: InteractiveStream) -> Seq<char> {
    match stream {
        InteractiveStream::Stdout => "stdout"@,
        InteractiveStream::Stderr => "stderr"@,
    }
}

impl InteractiveStream {
    /// Name of the stream.
    pub fn as_str(self) -> (r: &'static str)
        ensures
            r@ == stream_name(self),
    {
        match self {
            InteractiveStream::Stdout => "stdout",
            InteractiveStream::Stderr => "stderr",
        }
    }
}

/// Result of shutting the interactive process down.
#[derive(Clone, Copy, Debug, PartialEq, Eq, Structural)]
pub enum ShutdownOutcome {
    /// The child exited after stdin was closed.
    Graceful { exit_code: i32 },
    /// The child outlived the shutdown window and was killed.
    ForcedKill,
}

/// Failures of an interactive process.
#[derive(Debug, PartialEq, Eq)]
pub enum InteractiveProcessError {
    SpawnFailed { cmd: String, source: String },
    MissingStdin { cmd: String },
    MissingStdout { cmd: String },
    MissingStderr { cmd: String },
    StartupTimeout { timeout_ms: u64, stdout: String, stderr: String },
    CommandTimeout { command: String, timeout_ms: u64, stdout: String, stderr: String },
    CommandCancelled { command: String, stdout: String, stderr: String },
    ProcessExited { exit_code: i32, stdout: String, stderr: String },
    Poisoned,
    Terminated,
    StdinWriteFailed { command: String, source: String },
    StdinFlushFailed { command: String, source: String },
    StreamReadFailed { stream: InteractiveStream, message: String },
    WaitFailed { source: String },
    KillFailed { source: String },
}

/// Mathematical value of [`InteractiveProcessError`].
pub enum InteractiveProcessErrorView {
    SpawnFailed { cmd: Seq<char>, source: Seq<char> },
    MissingStdin { cmd: Seq<char> },
    MissingStdout { cmd: Seq<char> },
    MissingStderr { cmd: Seq<char> },
    StartupTimeout { timeout_ms: u64, stdout: Seq<char>, stderr: Seq<char> },
    CommandTimeout { command: Seq<char>, timeout_ms: u64, stdout: Seq<char>, stderr: Seq<char> },
    CommandCancelled { command: Seq<char>, stdout: Seq<char>, stderr: Seq<char> },
    ProcessExited { exit_code: i32, stdout: Seq<char>, stderr: Seq<char> },
    Poisoned,
    Terminated,
    StdinWriteFailed { command: Seq<char>, source: Seq<char> },
    StdinFlushFailed { command: Seq<char>, source: Seq<char> },
    StreamReadFailed { stream: InteractiveStream, message: Seq<char> },
    WaitFailed { source: Seq<char> },
    KillFailed { source: Seq<char> },
}

impl View for InteractiveProcessError {
    type V = InteractiveProcessErrorView;

    open spec fn view(&self) -> InteractiveProcessErrorView {
        match *self {
            InteractiveProcessError::SpawnFailed {
                cmd,
                source,
            } => InteractiveProcessErrorView::SpawnFailed {
                cmd: cmd@,
                source: source@,
            },
            InteractiveProcessError::MissingStdin {
                cmd,
            } => InteractiveProcessErrorView::MissingStdin {
                cmd: cmd@,
            },
            InteractiveProcessError::MissingStdout {
                cmd,
            } => InteractiveProcessErrorView::MissingStdout {
                cmd: cmd@,
            },
            InteractiveProcessError::MissingStderr {
                cmd,
            } => InteractiveProcessErrorView::MissingStderr {
                cmd: cmd@,
            },
            InteractiveProcessError::StartupTimeout {
                timeout_ms,
                stdout,
                stderr,
            } => InteractiveProcessErrorView::StartupTimeout {
                timeout_ms,
                stdout: stdout@,
                stderr: stderr@,
            },
            InteractiveProcessError::CommandTimeout {
                command,
                timeout_ms,
                stdout,
                stderr,
            } => InteractiveProcessErrorView::CommandTimeout {
                command: command@,
                timeout_ms,
                stdout: stdout@,
                stderr: stderr@,
            },
            InteractiveProcessError::CommandCancelled {
                command,
                stdout,
                stderr,
            } => InteractiveProcessErrorView::CommandCancelled {
                command: command@,
                stdout: stdout@,
                stderr: stderr@,
            },
            InteractiveProcessError::ProcessExited {
                exit_code,
                stdout,
                stderr,
            } => InteractiveProcessErrorView::ProcessExited {
                exit_code,
                stdout: stdout@,
                stderr: stderr@,
            },
            InteractiveProcessError::Poisoned => InteractiveProcessErrorView::Poisoned,
            InteractiveProcessError::Terminated => InteractiveProcessErrorView::Terminated,
            InteractiveProcessError::StdinWriteFailed {
                command,
                source,
            } => InteractiveProcessErrorView::StdinWriteFailed {
                command: command@,
                source: source@,
            },
            InteractiveProcessError::StdinFlushFailed {
                command,
                source,
            } => InteractiveProcessErrorView::StdinFlushFailed {
                command: command@,
                source: source@,
            },
            InteractiveProcessError::StreamReadFailed {
                stream,
                message,
            } => InteractiveProcessErrorView::StreamReadFailed {
                stream,
                message: message@,
            },
            InteractiveProcessError::WaitFailed {
                source,
            } => InteractiveProcessErrorView::WaitFailed {
                source: source@,
            },
            InteractiveProcessError::KillFailed {
                source,
            } => InteractiveProcessErrorView::KillFailed {
                source: source@,
            },
        }
    }
}

/// Text shown for an interactive failure.
pub open spec fn interactive_error_text(error: InteractiveProcessErrorView) -> Seq<char> {
    match error {
        InteractiveProcessErrorView::SpawnFailed { cmd, source } =>
            "failed to spawn interactive process '"@ + cmd + "': "@ + source,
        InteractiveProcessErrorView::MissingStdin { cmd } => "interactive process '"@ + cmd
            + "' is missing stdin"@,
        InteractiveProcessErrorView::MissingStdout { cmd } => "interactive process '"@ + cmd
            + "' is missing stdout"@,
        InteractiveProcessErrorView::MissingStderr { cmd } => "interactive process '"@ + cmd
            + "' is missing stderr"@,
        InteractiveProcessErrorView::StartupTimeout { timeout_ms, .. } =>
            "interactive process startup timed out after "@ + decimal(timeout_ms as nat)
            + "ms while waiting for prompt"@,
        InteractiveProcessErrorView::CommandTimeout { command, timeout_ms, .. } =>
            "interactive command '"@ + command + "' timed out after "@ + decimal(timeout_ms as nat)
            + "ms while waiting for prompt"@,
        InteractiveProcessErrorView::CommandCancelled { command, .. } => "interactive command '"@
            + command + "' was cancelled before reaching a safe completion point"@,
        InteractiveProcessErrorView::ProcessExited { exit_code, .. } =>
            "interactive process exited before the next prompt (exit "@ + signed_decimal(
            exit_code as int,
        ) + ")"@,
        InteractiveProcessErrorView::Poisoned =>
            "interactive process is no longer usable after a previous failure"@,
        InteractiveProcessErrorView::Terminated =>
            "interactive process has already been terminated"@,
        InteractiveProcessErrorView::StdinWriteFailed { command, source } =>
            "failed to write interactive command '"@ + command + "': "@ + source,
        InteractiveProcessErrorView::StdinFlushFailed { command, source } =>
            "failed to flush interactive command '"@ + command + "': "@ + source,
        InteractiveProcessErrorView::StreamReadFailed { stream, message } =>
            "failed to read interactive "@ + stream_name(stream) + ": "@ + message,
        InteractiveProcessErrorView::WaitFailed { source } =>
            "failed to observe interactive process shutdown: "@ + source,
        InteractiveProcessErrorView::KillFailed { source } =>
            "failed to terminate interactive process: "@ + source,
    }
}

impl InteractiveProcessError {
    /// Text shown to the user.
    pub fn message(&self) -> (r: String)
        ensures
            r@ == interactive_error_text(self@),
    {
        match self {
            InteractiveProcessError::SpawnFailed { cmd, source } => cat4(
                "failed to spawn interactive process '",
                cmd.as_str(),
                "': ",
                source.as_str(),
            ),
            InteractiveProcessError::MissingStdin { cmd } => cat3(
                "interactive process '",
                cmd.as_str(),
                "' is missing stdin",
            ),
            InteractiveProcessError::MissingStdout { cmd } => cat3(
                "interactive process '",
                cmd.as_str(),
                "' is missing stdout",
            ),
            InteractiveProcessError::MissingStderr { cmd } => cat3(
                "interactive process '",
                cmd.as_str(),
                "' is missing stderr",
            ),
            InteractiveProcessError::StartupTimeout { timeout_ms, .. } => cat3(
                "interactive process startup timed out after ",
                decimal_u64(*timeout_ms).as_str(),
                "ms while waiting for prompt",
            ),
            InteractiveProcessError::CommandTimeout { command, timeout_ms, .. } => cat5(
                "interactive command '",
                command.as_str(),
                "' timed out after ",
                decimal_u64(*timeout_ms).as_str(),
                "ms while waiting for prompt",
            ),
            InteractiveProcessError::CommandCancelled { command, .. } => cat3(
                "interactive command '",
                command.as_str(),
                "' was cancelled before reaching a safe completion point",
            ),
            InteractiveProcessError::ProcessExited { exit_code, .. } => cat3(
                "interactive process exited before the next prompt (exit ",
                decimal_i32(*exit_code).as_str(),
                ")",
            ),
            InteractiveProcessError::Poisoned =>
                "interactive process is no longer usable after a previous failure".to_owned(),
            InteractiveProcessError::Terminated =>
                "interactive process has already been terminated".to_owned(),
            InteractiveProcessError::StdinWriteFailed { command, source } => cat4(
                "failed to write interactive command '",
                command.as_str(),
                "': ",
                source.as_str(),
            ),
            InteractiveProcessError::StdinFlushFailed { command, source } => cat4(
                "failed to flush interactive command '",
                command.as_str(),
                "': ",
                source.as_str(),
            ),
            InteractiveProcessError::StreamReadFailed { stream, message } => cat4(
                "failed to read interactive ",
                stream.as_str(),
                ": ",
                message.as_str(),
            ),
            InteractiveProcessError::WaitFailed { source } => cat2(
                "failed to observe interactive process shutdown: ",
                source.as_str(),
            ),
            InteractiveProcessError::KillFailed { source } => cat2(
                "failed to terminate interactive process: ",
                source.as_str(),
            ),
        }
    }
}

/// Command line of an interactive request, as it is shown in messages.
pub fn render_command(request: &InteractiveProcessRequest) -> (r: String)
    ensures
        r@ == join_with(seq![request@.program] + request@.args, " "@),
{
    let mut parts: Vec<String> = Vec::new();
    push_text(&mut parts, request.program.as_str());
    push_texts(&mut parts, &request.args);
    assert(texts(parts@) =~= seq![request@.program] + request@.args);
    join_texts(&parts, " ")
}

/// What follows a failed attempt to start the interactive executable.
#[derive(Debug, PartialEq, Eq)]
pub enum InteractiveSpawnRetry {
    /// Try again after the pause.
    After { pause: Span },
    /// Give up.
    GiveUp { error: InteractiveProcessError },
}

/// Decides what follows failed attempt number `attempt`, counted from zero: a busy executable is
/// tried again up to the limit, any other failure is final.
pub fn after_interactive_spawn_failure(cmd: &str, attempt: u64, busy: bool, source: &str) -> (r:
    InteractiveSpawnRetry)
    ensures
        match r {
            InteractiveSpawnRetry::After { pause } => busy && attempt < EXECUTABLE_BUSY_MAX_RETRIES
                && pause == millis_span(10),
            InteractiveSpawnRetry::GiveUp { error } => !(busy && attempt
                < EXECUTABLE_BUSY_MAX_RETRIES) && error@
                == (InteractiveProcessErrorView::SpawnFailed { cmd: cmd@, source: source@ }),
        },
{
    if busy && attempt < EXECUTABLE_BUSY_MAX_RETRIES {
        InteractiveSpawnRetry::After { pause: Span::from_millis(EXECUTABLE_BUSY_RETRY_DELAY_MS) }
    } else {
        InteractiveSpawnRetry::GiveUp {
            error: InteractiveProcessError::SpawnFailed {
                cmd: cmd.to_owned(),
                source: source.to_owned(),
            },
        }
    }
}

} // verus!
