//! Laws of a run of a process: how it begins, how it is interrupted and what it ends with.

use vstd::prelude::*;
use crate::outside::lossy_text;
use crate::platform::process::{
    default_policy, process_error_text, rendered_command, ProcessErrorView, ProcessExecutionPolicy,
    ProcessInterruption, ProcessInterruptionAction, ProcessInterruptionReason, ProcessRequestView,
    ProcessResultView, SpawnResultView,
};
use crate::platform::process_executor::{
    run_begins, run_step, ProcessAskView, ProcessEventView, ProcessIoMode, ProcessOutcomeView,
    ProcessPhaseView, ProcessRunView,
};
use crate::platform::process_run::ChildStatusView;
use crate::platform::result::platform_result;
use crate::text_number::{decimal, signed_decimal};
use crate::time::{whole_millis, Moment, Span};

verus! {

/// The run in a phase.
pub open spec fn in_phase(run: ProcessRunView, phase: ProcessPhaseView) -> ProcessRunView {
    ProcessRunView { phase, ..run }
}

/// The run while its child is watched, no interruption seen yet.
pub open spec fn watching(run: ProcessRunView, started: Moment) -> ProcessRunView {
    in_phase(run, ProcessPhaseView::Watching { observed: None, started })
}

/// What the run is over with.
pub open spec fn over_with(outcome: ProcessOutcomeView) -> ProcessAskView {
    ProcessAskView::Done { outcome }
}

// ---------------------------------------------------------------------------------------------
// Beginnings

/// A run that is cancelled before it begins, or that has no time at all, is never started;
/// any other starts its executable with its output captured, and its child is looked at as soon as
/// it has started.
pub proof fn run_starts_unless_it_may_not(
    request: ProcessRequestView,
    policy: ProcessExecutionPolicy,
    pid: u32,
    now: Moment,
)
    ensures
        ({
            let cmd = rendered_command(request.program, request.args);
            let refused = run_begins(request, policy, true);
            let begun = run_begins(request, policy, false);
            let no_time = policy.timeout is Some && policy.timeout->0.nanos == 0;
            &&& refused.ask == over_with(
                ProcessOutcomeView::Failed(ProcessErrorView::Cancelled { cmd }),
            )
            &&& no_time ==> begun.ask == over_with(
                ProcessOutcomeView::Failed(ProcessErrorView::TimedOut { cmd, timeout_ms: 0 }),
            )
            &&& !no_time ==> begun.ask == (ProcessAskView::Start {
                io_mode: ProcessIoMode::Captured,
            })
            &&& !no_time ==> {
                let step = run_step(begun.run, ProcessEventView::Started { pid }, now);
                &&& step.ask is Look
                &&& step.run == watching(begun.run, now)
            }
            &&& begun.run.cmd == cmd && begun.run.policy == policy
            &&& begun.run.stdout_log_path == request.stdout_log_path
            &&& begun.run.stderr_log_path == request.stderr_log_path
        }),
{
}

/// An executable that is busy is tried again after a short pause, five times at most; any other
/// failure to start it is final.
pub proof fn busy_executable_is_tried_again(
    run: ProcessRunView,
    attempt: u64,
    source: Seq<char>,
    now: Moment,
)
    ensures
        ({
            let starting = in_phase(run, ProcessPhaseView::Starting { attempt });
            let busy = run_step(
                starting,
                ProcessEventView::StartFailed { busy: true, source },
                now,
            );
            let broken = run_step(
                starting,
                ProcessEventView::StartFailed { busy: false, source },
                now,
            );
            let failed = over_with(
                ProcessOutcomeView::Failed(ProcessErrorView::SpawnFailed { cmd: run.cmd, source }),
            );
            &&& attempt < 5 ==> busy.ask is StartAgain && busy.ask->pause.nanos == 10_000_000
                && busy.ask->StartAgain_io_mode == run.io_mode && busy.run == in_phase(
                run,
                ProcessPhaseView::Starting { attempt: (attempt + 1) as u64 },
            )
            &&& attempt >= 5 ==> busy.ask == failed
            &&& broken.ask == failed
        }),
{
}

/// A detached child is let go at once, or, with a startup probe, after it: one that is still running
/// then has started, one that has exited or cannot be seen has not.
pub proof fn detached_child_is_probed(
    run: ProcessRunView,
    pid: u32,
    wait: Span,
    code: i32,
    source: Seq<char>,
    cancelled: bool,
    now: Moment,
)
    requires
        run.io_mode is Detached,
        run.phase is Starting,
    ensures
        ({
            let plain = ProcessRunView { startup_probe: None, ..run };
            let probed = ProcessRunView { startup_probe: Some(wait), ..run };
            let event = ProcessEventView::Started { pid };
            let spawned = over_with(
                ProcessOutcomeView::Spawned(SpawnResultView { pid, binary: run.program }),
            );
            let waiting = run_step(probed, event, now);
            let look = |status: ChildStatusView|
                run_step(waiting.run, ProcessEventView::Seen { status, cancelled }, now).ask;
            &&& run_step(plain, event, now).ask == spawned
            &&& waiting.ask == (ProcessAskView::Pause { wait })
            &&& look(ChildStatusView::Running) == spawned
            &&& look(ChildStatusView::Exited { code: Some(code) }) == over_with(
                ProcessOutcomeView::Failed(
                    ProcessErrorView::ExitedEarly { cmd: run.cmd, exit_code: code },
                ),
            )
            &&& look(ChildStatusView::Exited { code: None }) == over_with(
                ProcessOutcomeView::Failed(
                    ProcessErrorView::ExitedEarly { cmd: run.cmd, exit_code: -1i32 },
                ),
            )
            &&& look(ChildStatusView::Unknown { source }) == over_with(
                ProcessOutcomeView::Failed(
                    ProcessErrorView::StartupCheckFailed { cmd: run.cmd, source },
                ),
            )
        }),
{
}

// ---------------------------------------------------------------------------------------------
// Ends

/// A child that exits of its own accord ends the run with its exit code and with its output, each
/// stream as itself. One that a signal ended has the code -1.
pub proof fn child_that_exits_gives_its_output(
    run: ProcessRunView,
    started: Moment,
    code: i32,
    stdout: Seq<u8>,
    stderr: Seq<u8>,
    cancelled: bool,
    now: Moment,
)
    requires
        run.stdout_log_path is None,
        run.stderr_log_path is None,
    ensures
        ({
            let exited = run_step(
                watching(run, started),
                ProcessEventView::Seen {
                    status: ChildStatusView::Exited { code: Some(code) },
                    cancelled,
                },
                now,
            );
            let killed = run_step(
                watching(run, started),
                ProcessEventView::Seen { status: ChildStatusView::Exited { code: None }, cancelled },
                now,
            );
            let output = ProcessEventView::Output { stdout, stderr };
            let result = |exit_code: i32|
                ProcessOutcomeView::Finished(
                    ProcessResultView {
                        exit_code,
                        stdout: lossy_text(stdout),
                        stderr: lossy_text(stderr),
                        interruption: None,
                    },
                );
            &&& exited.ask is Collect && killed.ask is Collect
            &&& run_step(exited.run, output, now).ask == over_with(result(code))
            &&& run_step(killed.run, output, now).ask == over_with(result(-1i32))
        }),
{
}

/// Where logs are asked for, each stream is written to its own, stdout first, before the run is
/// over; a log that cannot be written fails the run under that log's name.
pub proof fn streams_are_written_to_their_logs(
    run: ProcessRunView,
    exit_code: i32,
    interruption: Option<ProcessInterruption>,
    out_path: Seq<char>,
    err_path: Seq<char>,
    stdout: Seq<u8>,
    stderr: Seq<u8>,
    source: Seq<char>,
    now: Moment,
)
    requires
        run.phase == (ProcessPhaseView::Collecting { exit_code, interruption }),
    ensures
        ({
            let both = ProcessRunView {
                stdout_log_path: Some(out_path),
                stderr_log_path: Some(err_path),
                ..run
            };
            let first = ProcessRunView {
                stdout_log_path: Some(out_path),
                stderr_log_path: None,
                ..run
            };
            let second = ProcessRunView {
                stdout_log_path: None,
                stderr_log_path: Some(err_path),
                ..run
            };
            let output = ProcessEventView::Output { stdout, stderr };
            let written = ProcessEventView::LogWritten { failure: None };
            let unwritten = ProcessEventView::LogWritten { failure: Some(source) };
            let done = over_with(
                ProcessOutcomeView::Finished(
                    ProcessResultView {
                        exit_code,
                        stdout: lossy_text(stdout),
                        stderr: lossy_text(stderr),
                        interruption,
                    },
                ),
            );
            let to_out = ProcessAskView::WriteLog { path: out_path, bytes: stdout };
            let to_err = ProcessAskView::WriteLog { path: err_path, bytes: stderr };
            let a = run_step(both, output, now);
            let b = run_step(a.run, written, now);
            let c = run_step(first, output, now);
            let d = run_step(second, output, now);
            &&& a.ask == to_out && b.ask == to_err
            &&& run_step(b.run, written, now).ask == done
            &&& c.ask == to_out && run_step(c.run, written, now).ask == done
            &&& d.ask == to_err && run_step(d.run, written, now).ask == done
            &&& run_step(a.run, unwritten, now).ask == over_with(
                ProcessOutcomeView::Failed(
                    ProcessErrorView::StdoutLogIo { path: out_path, source },
                ),
            )
            &&& run_step(b.run, unwritten, now).ask == over_with(
                ProcessOutcomeView::Failed(
                    ProcessErrorView::StderrLogIo { path: err_path, source },
                ),
            )
        }),
{
}

// ---------------------------------------------------------------------------------------------
// Interruptions

/// A running child is left alone while it is not cancelled and has time left, and is looked at again
/// shortly.
pub proof fn child_within_its_time_is_left_alone(
    run: ProcessRunView,
    started: Moment,
    now: Moment,
)
    requires
        started.nanos <= now.nanos,
        run.policy.timeout is Some ==> now.nanos - started.nanos < run.policy.timeout->0.nanos,
    ensures
        ({
            let step = run_step(
                watching(run, started),
                ProcessEventView::Seen { status: ChildStatusView::Running, cancelled: false },
                now,
            );
            &&& step.ask is Pause && step.ask->wait.nanos == 10_000_000
            &&& step.run == watching(run, started)
        }),
{
}

/// A child that is cancelled, or whose time is up, is interrupted by its policy: killed at once,
/// asked to stop first, or left to its end. Killed or stopped, the run fails for the reason it was
/// interrupted for.
pub proof fn interruption_goes_by_the_policy(
    run: ProcessRunView,
    started: Moment,
    cancelled: bool,
    now: Moment,
)
    requires
        started.nanos <= now.nanos,
        cancelled || (run.policy.timeout is Some && now.nanos - started.nanos
            >= run.policy.timeout->0.nanos),
    ensures
        ({
            let step = run_step(
                watching(run, started),
                ProcessEventView::Seen { status: ChildStatusView::Running, cancelled },
                now,
            );
            let error = if cancelled {
                ProcessErrorView::Cancelled { cmd: run.cmd }
            } else {
                ProcessErrorView::TimedOut {
                    cmd: run.cmd,
                    timeout_ms: whole_millis(run.policy.timeout->0),
                }
            };
            let failed = over_with(ProcessOutcomeView::Failed(error));
            &&& run.policy.safety is Interruptible ==> step.ask is Kill && run_step(
                step.run,
                ProcessEventView::Gone,
                now,
            ).ask == failed
            &&& run.policy.safety is GracefulThenKill ==> step.ask is Terminate && step.run
                == in_phase(
                run,
                ProcessPhaseView::Stopping {
                    error,
                    since: now,
                    grace: run.policy.graceful_shutdown_timeout,
                },
            )
            &&& run.policy.safety is CriticalNonAbortable ==> step.ask is Pause && step.run.phase
                == (ProcessPhaseView::Watching {
                observed: Some(
                    if cancelled {
                        ProcessInterruptionReason::Cancelled
                    } else {
                        ProcessInterruptionReason::TimedOut
                    },
                ),
                started,
            })
        }),
{
}

/// A child that was asked to stop is given its grace period; it is killed where it is still there at
/// the end of it or is lost sight of, and only waited for where it has stopped. The run then fails.
pub proof fn stopping_child_has_its_grace(
    run: ProcessRunView,
    error: ProcessErrorView,
    since: Moment,
    grace: Span,
    code: Option<i32>,
    source: Seq<char>,
    cancelled: bool,
    now: Moment,
)
    requires
        since.nanos <= now.nanos,
    ensures
        ({
            let phase = ProcessPhaseView::Stopping { error, since, grace };
            let stopping = in_phase(run, phase);
            let look = |status: ChildStatusView|
                run_step(stopping, ProcessEventView::Seen { status, cancelled }, now);
            let passed = now.nanos - since.nanos >= grace.nanos;
            &&& !passed ==> look(ChildStatusView::Running).ask is Pause && look(
                ChildStatusView::Running,
            ).run == stopping
            &&& passed ==> look(ChildStatusView::Running).ask is Kill
            &&& look(ChildStatusView::Unknown { source }).ask is Kill
            &&& !passed ==> look(ChildStatusView::Exited { code }).ask is Reap
            &&& passed ==> look(ChildStatusView::Running).run == in_phase(
                run,
                ProcessPhaseView::Ending { error },
            )
            &&& run_step(
                in_phase(run, ProcessPhaseView::Ending { error }),
                ProcessEventView::Gone,
                now,
            ).ask == over_with(ProcessOutcomeView::Failed(error))
        }),
{
}

/// A child that must not be aborted is waited for after it was interrupted, and its output counts;
/// the result tells of the interruption. Any other child that exits once it was interrupted has
/// failed.
pub proof fn critical_child_comes_to_its_end(
    run: ProcessRunView,
    started: Moment,
    reason: ProcessInterruptionReason,
    code: i32,
    cancelled: bool,
    now: Moment,
)
    ensures
        ({
            let seen = in_phase(
                run,
                ProcessPhaseView::Watching { observed: Some(reason), started },
            );
            let exit = ProcessEventView::Seen {
                status: ChildStatusView::Exited { code: Some(code) },
                cancelled,
            };
            let running = ProcessEventView::Seen { status: ChildStatusView::Running, cancelled };
            let step = run_step(seen, exit, now);
            &&& run_step(seen, running, now).ask is Pause
            &&& run_step(seen, running, now).run == seen
            &&& run.policy.safety is CriticalNonAbortable ==> {
                &&& step.ask is Collect
                &&& step.run.phase == (ProcessPhaseView::Collecting {
                    exit_code: code,
                    interruption: Some(
                        ProcessInterruption { reason, action: ProcessInterruptionAction::Deferred },
                    ),
                })
            }
            &&& !(run.policy.safety is CriticalNonAbortable) ==> step.ask is Done
                && step.ask->outcome is Failed
        }),
{
}

// ---------------------------------------------------------------------------------------------
// Texts and logs

/// The text of a failure tells which command failed and why.
pub proof fn text_of_a_failure_tells_command_and_reason(
    cmd: Seq<char>,
    source: Seq<char>,
    exit_code: i32,
    timeout_ms: u64,
)
    ensures
        ({
            &&& process_error_text(ProcessErrorView::SpawnFailed { cmd, source })
                == "failed to spawn process '"@ + cmd + "': "@ + source
            &&& process_error_text(ProcessErrorView::StartupCheckFailed { cmd, source })
                == "failed to observe process startup '"@ + cmd + "': "@ + source
            &&& process_error_text(ProcessErrorView::ExitedEarly { cmd, exit_code })
                == "process exited before startup completed '"@ + cmd + "' (exit "@
                + signed_decimal(exit_code as int) + ")"@
            &&& process_error_text(ProcessErrorView::StdoutLogIo { path: cmd, source })
                == "failed to write stdout log '"@ + cmd + "': "@ + source
            &&& process_error_text(ProcessErrorView::StderrLogIo { path: cmd, source })
                == "failed to write stderr log '"@ + cmd + "': "@ + source
            &&& process_error_text(ProcessErrorView::Cancelled { cmd }) == "process cancelled '"@
                + cmd + "' before reaching a safe completion point"@
            &&& process_error_text(ProcessErrorView::TimedOut { cmd, timeout_ms })
                == "process timed out '"@ + cmd + "' after "@ + decimal(timeout_ms as nat) + "ms"@
        }),
{
}

/// A command without a log has only its process to tell of. One with a log names it, and holds its
/// text or why it could not be read, never both.
pub proof fn log_is_told_or_why_not(
    process: ProcessResultView,
    path: Seq<char>,
    text: Seq<char>,
    source: Seq<char>,
    failure: Seq<char>,
)
    ensures
        ({
            let none = platform_result(process, None, Ok(text), failure);
            let read = platform_result(process, Some(path), Ok(text), failure);
            let lost = platform_result(process, Some(path), Err(source), failure);
            &&& none.process == process && read.process == process && lost.process == process
            &&& none.platform_log_path is None && none.platform_log is None
            &&& none.platform_log_read_error is None
            &&& read.platform_log_path == Some(path) && read.platform_log == Some(text)
            &&& read.platform_log_read_error is None
            &&& lost.platform_log_path == Some(path) && lost.platform_log is None
            &&& lost.platform_log_read_error == Some(failure + path + "': "@ + source)
        }),
{
}

/// Left to itself, a process has no limit, may be interrupted at any time, and has a quarter of a
/// second to stop.
pub proof fn process_left_to_itself_has_no_limit()
    ensures
        default_policy().timeout is None,
        default_policy().safety is Interruptible,
        default_policy().graceful_shutdown_timeout.nanos == 250_000_000,
{
}

} // verus!
