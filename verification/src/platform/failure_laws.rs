//! Laws of the texts of failures: a failure that has another for its reason ends with its text.

use vstd::prelude::*;
use crate::mcp::edt_session::{
    session_error_text, shutdown_error_text, EdtSessionErrorView, EdtSessionShutdownErrorView,
};
use crate::parsers::junit::{junit_error_text, JunitErrorView};
use crate::platform::designer::{designer_error_text, DesignerErrorView};
use crate::platform::edt::{edt_error_text, EdtErrorView};
use crate::platform::ibcmd::{ibcmd_error_text, IbcmdErrorView};
use crate::platform::interactive::{
    interactive_error_text, InteractiveProcessErrorView, InteractiveStream,
};
use crate::platform::process::{process_error_text, ProcessErrorView};
use crate::text_number::{decimal, signed_decimal};

verus! {

/// A failure of a process is told under the utility that was run.
pub proof fn failure_of_a_process_is_told_under_its_utility(
    e: ProcessErrorView,
    i: InteractiveProcessErrorView,
    s: EdtSessionErrorView,
    what: Seq<char>,
    source: Seq<char>,
)
    ensures
        edt_error_text(EdtErrorView::Spawn(e)) == "failed to execute edt process: "@
            + process_error_text(e),
        edt_error_text(EdtErrorView::Interactive(i))
            == "failed to execute interactive edt process: "@ + interactive_error_text(i),
        edt_error_text(EdtErrorView::SharedSession(s)) == "failed to execute shared edt session: "@
            + session_error_text(s),
        edt_error_text(EdtErrorView::PrepareWorkspace { path: what, source })
            == "failed to prepare edt workspace '"@ + what + "': "@ + source,
        designer_error_text(DesignerErrorView::Spawn(e)) == "failed to execute designer process: "@
            + process_error_text(e),
        designer_error_text(DesignerErrorView::UtilityNotFound(what))
            == "designer utility not found: "@ + what,
        ibcmd_error_text(IbcmdErrorView::Spawn(e)) == "failed to execute ibcmd process: "@
            + process_error_text(e),
        ibcmd_error_text(IbcmdErrorView::MissingServerDbmsField(what))
            == "server-based IBCMD connection requires infobase.dbms."@ + what,
{
}

/// A failure of a command at the prompt tells the command, and why it failed or how long it had.
pub proof fn failure_at_the_prompt_tells_the_command(
    command: Seq<char>,
    source: Seq<char>,
    stdout: Seq<char>,
    stderr: Seq<char>,
    timeout_ms: u64,
    exit_code: i32,
)
    ensures
        interactive_error_text(
            InteractiveProcessErrorView::CommandTimeout { command, timeout_ms, stdout, stderr },
        ) == "interactive command '"@ + command + "' timed out after "@ + decimal(timeout_ms as nat)
            + "ms while waiting for prompt"@,
        interactive_error_text(
            InteractiveProcessErrorView::CommandCancelled { command, stdout, stderr },
        ) == "interactive command '"@ + command
            + "' was cancelled before reaching a safe completion point"@,
        interactive_error_text(
            InteractiveProcessErrorView::StartupTimeout { timeout_ms, stdout, stderr },
        ) == "interactive process startup timed out after "@ + decimal(timeout_ms as nat)
            + "ms while waiting for prompt"@,
        interactive_error_text(
            InteractiveProcessErrorView::ProcessExited { exit_code, stdout, stderr },
        ) == "interactive process exited before the next prompt (exit "@ + signed_decimal(
            exit_code as int,
        ) + ")"@,
        interactive_error_text(InteractiveProcessErrorView::StdinWriteFailed { command, source })
            == "failed to write interactive command '"@ + command + "': "@ + source,
        interactive_error_text(InteractiveProcessErrorView::StdinFlushFailed { command, source })
            == "failed to flush interactive command '"@ + command + "': "@ + source,
        interactive_error_text(
            InteractiveProcessErrorView::StreamReadFailed {
                stream: InteractiveStream::Stdout,
                message: source,
            },
        ) == "failed to read interactive "@ + "stdout"@ + ": "@ + source,
        interactive_error_text(
            InteractiveProcessErrorView::StreamReadFailed {
                stream: InteractiveStream::Stderr,
                message: source,
            },
        ) == "failed to read interactive "@ + "stderr"@ + ": "@ + source,
        interactive_error_text(InteractiveProcessErrorView::KillFailed { source })
            == "failed to terminate interactive process: "@ + source,
        interactive_error_text(InteractiveProcessErrorView::WaitFailed { source })
            == "failed to observe interactive process shutdown: "@ + source,
{
}

/// A failure of the shared session tells whether its request waited or ran.
pub proof fn failure_of_the_session_tells_how_far_it_came(message: Seq<char>, timeout_ms: u64)
    ensures
        session_error_text(EdtSessionErrorView::QueueFull) == "shared EDT queue is full"@,
        session_error_text(EdtSessionErrorView::StartupFailed { message })
            == "failed to start shared EDT session: "@ + message,
        session_error_text(EdtSessionErrorView::SessionFailed { message })
            == "shared EDT session failed: "@ + message,
        session_error_text(EdtSessionErrorView::InternalFailure { message })
            == "shared EDT actor failed internally: "@ + message,
        session_error_text(EdtSessionErrorView::QueuedCancelled)
            == "shared EDT request was cancelled while queued"@,
        session_error_text(EdtSessionErrorView::QueuedTimeout)
            == "shared EDT request timed out while queued"@,
        session_error_text(EdtSessionErrorView::RunningCancelled)
            == "shared EDT request was cancelled while running"@,
        session_error_text(EdtSessionErrorView::RunningTimeout)
            == "shared EDT request timed out while running"@,
        shutdown_error_text(EdtSessionShutdownErrorView::TimedOut { timeout_ms })
            == "shared EDT actor did not stop within "@ + decimal(timeout_ms as nat) + "ms"@,
        shutdown_error_text(EdtSessionShutdownErrorView::Internal { message })
            == "shared EDT actor failed internally during shutdown: "@ + message,
        junit_error_text(JunitErrorView::Malformed(message)) == "failed to parse junit xml: "@
            + message,
{
}

} // verus!
