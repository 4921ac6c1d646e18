//! Laws of a run over the interactive session: how a command begins, and how it comes to its end.

use vstd::prelude::*;
use crate::outside::lossy_text;
use crate::platform::interactive::{
    InteractiveCommandExecutionView, InteractiveCommandOutputView, InteractiveProcessErrorView,
    InteractiveStream,
};
use crate::platform::interactive_finish::{
    command_refusal, policy_refusal, prompt_concluded, ReceivedView,
};
use crate::platform::interactive_run::{
    command_begins, fresh_command, run_step, InteractiveAskView, InteractiveEventView,
    InteractivePhaseView, InteractiveRunView, KillFaultView, StdinFaultView,
};
use crate::platform::interactive_session::{
    ended, prompt_taken, spoiled, InteractiveSessionView, PromptWaitView, ReaderEventView,
    WaitModeView,
};
use crate::platform::process::{
    ProcessExecutionPolicy, ProcessInterruption, ProcessInterruptionAction,
    ProcessInterruptionReason,
};
use crate::platform::process_run::ChildStatusView;
use crate::time::{Moment, Span};

verus! {

/// The run in a phase.
pub open spec fn in_phase(run: InteractiveRunView, phase: InteractivePhaseView) ->
    InteractiveRunView {
    InteractiveRunView { phase, ..run }
}

/// The run is over with the failure.
pub open spec fn failed_with(error: InteractiveProcessErrorView) -> InteractiveAskView {
    InteractiveAskView::Done { result: Err(error) }
}

// ---------------------------------------------------------------------------------------------
// Beginnings

/// A session takes a command exactly where it is sound, alive and can be written to. A spoiled one
/// says so before all else; under a policy a cancelled command comes next after one without a
/// child, and then one without any time.
pub proof fn command_is_taken_by_a_sound_session(
    s: InteractiveSessionView,
    command: Seq<char>,
    timeout: Span,
    cancelled: bool,
)
    ensures
        ({
            let plain = command_refusal(s);
            let ruled = policy_refusal(s, command, timeout, cancelled);
            let alive = !s.terminated && s.live;
            &&& plain is None <==> !s.poisoned && alive && s.stdin_open
            &&& ruled is None <==> !s.poisoned && alive && s.stdin_open && !cancelled
                && timeout.nanos > 0
            &&& s.poisoned ==> plain->0 is Poisoned && ruled->0 is Poisoned
            &&& !s.poisoned && !alive ==> plain->0 is Terminated && ruled->0 is Terminated
            &&& !s.poisoned && alive && !s.stdin_open ==> plain->0 is Terminated
            &&& !s.poisoned && alive && cancelled ==> ruled->0 is CommandCancelled
                && ruled->0->CommandCancelled_command == command
            &&& !s.poisoned && alive && !cancelled && timeout.nanos == 0 ==> ruled->0
                is CommandTimeout && ruled->0->CommandTimeout_command == command
                && ruled->0->CommandTimeout_timeout_ms == 0
            &&& !s.poisoned && alive && !cancelled && timeout.nanos > 0 && !s.stdin_open
                ==> ruled->0 is Terminated
        }),
{
}

/// A command is written as it is; its time begins once it has been written, and the output of the
/// command before is forgotten. A refused one is never written.
pub proof fn command_is_written_and_waited_for(
    s: InteractiveSessionView,
    command: Seq<char>,
    timeout: Span,
    policy: Option<ProcessExecutionPolicy>,
    error: InteractiveProcessErrorView,
    now: Moment,
)
    requires
        now.nanos + timeout.nanos <= u128::MAX,
    ensures
        ({
            let first = command_begins(command, timeout, policy, None);
            let begun = run_step(
                s,
                first.run,
                InteractiveEventView::Written { fault: None },
                now,
            );
            &&& first.ask == (InteractiveAskView::Write { command })
            &&& begun.1.ask is Look && begun.1.run.phase is Looking
            &&& begun.1.run.wait.deadline.nanos == now.nanos + timeout.nanos
            &&& begun.1.run.wait.mode == (WaitModeView::Command { command })
            &&& begun.1.run.wait.observed is None && begun.1.run.policy == policy
            &&& begun.0.stdout.len() == 0 && begun.0.stderr.len() == 0
            &&& begun.0.stdout_pending == s.stdout_pending
            &&& command_begins(command, timeout, policy, Some(error)).ask == failed_with(error)
        }),
{
}

/// A command that could not be written, or not be flushed, fails so, under its own words.
pub proof fn unwritten_command_fails(
    s: InteractiveSessionView,
    command: Seq<char>,
    timeout: Span,
    policy: Option<ProcessExecutionPolicy>,
    source: Seq<char>,
    now: Moment,
)
    ensures
        ({
            let run = fresh_command(command, timeout, policy);
            let write = InteractiveEventView::Written {
                fault: Some(StdinFaultView::Write { source }),
            };
            let flush = InteractiveEventView::Written {
                fault: Some(StdinFaultView::Flush { source }),
            };
            &&& run_step(s, run, write, now).1.ask == failed_with(
                InteractiveProcessErrorView::StdinWriteFailed { command, source },
            )
            &&& run_step(s, run, flush, now).1.ask == failed_with(
                InteractiveProcessErrorView::StdinFlushFailed { command, source },
            )
        }),
{
}

// ---------------------------------------------------------------------------------------------
// The way to the end

/// Once the prompt is seen, what trails it is listened for, for a short time and never longer than
/// is left of it; what comes stands behind the rest of its stream. Then the child is looked at.
pub proof fn what_trails_the_prompt_is_listened_for(
    s: InteractiveSessionView,
    run: InteractiveRunView,
    bytes: Seq<u8>,
    deadline: Moment,
    cancelled: bool,
    status: ChildStatusView,
    now: Moment,
)
    requires
        run.phase is Looking,
        prompt_taken(s) is Some,
        now.nanos + 20_000_000 <= u128::MAX,
    ensures
        ({
            let seen = run_step(s, run, InteractiveEventView::Seen { cancelled, status }, now);
            let draining = in_phase(run, InteractivePhaseView::Draining { deadline });
            let more = run_step(
                s,
                draining,
                InteractiveEventView::Received {
                    what: ReceivedView::Event(
                        ReaderEventView::Chunk(InteractiveStream::Stdout, bytes),
                    ),
                },
                now,
            );
            let quiet = run_step(
                s,
                draining,
                InteractiveEventView::Received { what: ReceivedView::Timeout },
                now,
            );
            &&& seen.1.ask is Receive && seen.1.ask->Receive_wait.nanos == 10_000_000
            &&& seen.1.run.phase is Draining
            &&& seen.1.run.phase->Draining_deadline.nanos == now.nanos + 20_000_000
            &&& seen.0 == prompt_taken(s)->0
            &&& more.0.stdout_pending == s.stdout_pending + bytes
            &&& more.0.stderr_pending == s.stderr_pending && more.0.stdout == s.stdout
            &&& now.nanos < deadline.nanos ==> more.1.ask is Receive && now.nanos
                + more.1.ask->Receive_wait.nanos <= deadline.nanos
            &&& now.nanos >= deadline.nanos ==> more.1.ask is LookAtChild
            &&& quiet.1.ask is LookAtChild && quiet.0 == s
        }),
{
}

/// A command whose child still runs ends with all its output, each stream as itself. An interruption
/// that was put off on the way is told with it.
pub proof fn command_ends_with_its_output(
    s: InteractiveSessionView,
    run: InteractiveRunView,
    reason: ProcessInterruptionReason,
    now: Moment,
)
    requires
        s.live,
    ensures
        ({
            let output = InteractiveCommandOutputView {
                stdout: lossy_text(s.stdout + s.stdout_pending),
                stderr: lossy_text(s.stderr + s.stderr_pending),
            };
            let checked = |observed: Option<ProcessInterruptionReason>|
                run_step(
                    s,
                    InteractiveRunView {
                        wait: PromptWaitView { observed, ..run.wait },
                        phase: InteractivePhaseView::Checking,
                        ..run
                    },
                    InteractiveEventView::Child { status: ChildStatusView::Running },
                    now,
                );
            &&& checked(None).1.ask == (InteractiveAskView::Done {
                result: Ok(InteractiveCommandExecutionView { output, interruption: None }),
            })
            &&& checked(Some(reason)).1.ask == (InteractiveAskView::Done {
                result: Ok(
                    InteractiveCommandExecutionView {
                        output,
                        interruption: Some(
                            ProcessInterruption {
                                reason,
                                action: ProcessInterruptionAction::Deferred,
                            },
                        ),
                    },
                ),
            })
            &&& checked(None).0.stdout_pending.len() == 0
            &&& checked(None).0.live && checked(None).0.poisoned == s.poisoned
        }),
{
}

/// A child that is gone when the prompt was seen fails the command with its exit code, and one that
/// cannot be seen fails it too.
pub proof fn child_gone_at_the_prompt_fails_the_command(
    s: InteractiveSessionView,
    code: i32,
    source: Seq<char>,
)
    requires
        s.live,
    ensures
        ({
            let gone = prompt_concluded(s, ChildStatusView::Exited { code: Some(code) });
            let lost = prompt_concluded(s, ChildStatusView::Unknown { source });
            &&& gone.1 == Err::<InteractiveCommandOutputView, _>(
                InteractiveProcessErrorView::ProcessExited {
                    exit_code: code,
                    stdout: lossy_text(s.stdout + s.stdout_pending),
                    stderr: lossy_text(s.stderr + s.stderr_pending),
                },
            )
            &&& gone.0.poisoned && gone.0.terminated && !gone.0.live
            &&& lost.1 == Err::<InteractiveCommandOutputView, _>(
                InteractiveProcessErrorView::WaitFailed { source },
            )
        }),
{
}

/// Streams that are closed on both sides end the command like a child that exited without a code,
/// with all the output there is; a wait in which nothing came changes nothing.
pub proof fn closed_streams_end_the_command(
    s: InteractiveSessionView,
    run: InteractiveRunView,
    now: Moment,
)
    requires
        run.phase is Receiving,
    ensures
        ({
            let closed = run_step(
                s,
                run,
                InteractiveEventView::Received { what: ReceivedView::Disconnected },
                now,
            );
            let quiet = run_step(
                s,
                run,
                InteractiveEventView::Received { what: ReceivedView::Timeout },
                now,
            );
            &&& closed.1.ask is Kill
            &&& closed.1.run.phase == (InteractivePhaseView::TryKilling {
                error: InteractiveProcessErrorView::ProcessExited {
                    exit_code: -1i32,
                    stdout: lossy_text(s.stdout + s.stdout_pending),
                    stderr: lossy_text(s.stderr + s.stderr_pending),
                },
            })
            &&& closed.0.poisoned
            &&& quiet.0 == s && quiet.1.ask is Look && quiet.1.run.phase is Looking
        }),
{
}

// ---------------------------------------------------------------------------------------------
// Killing and shutting down

/// Where a child has to be killed, the command fails for its own reason once that is done, and for
/// that of the kill where it is not. Where it need not succeed, the command's own reason counts.
pub proof fn kill_that_has_to_succeed_is_told_where_it_does_not(
    s: InteractiveSessionView,
    run: InteractiveRunView,
    error: InteractiveProcessErrorView,
    source: Seq<char>,
    now: Moment,
)
    requires
        run.wait.mode is Command,
    ensures
        ({
            let kill = |phase: InteractivePhaseView, failure: Option<KillFaultView>|
                run_step(s, in_phase(run, phase), InteractiveEventView::Killed { failure }, now);
            let must = InteractivePhaseView::Killing { error };
            let force = InteractivePhaseView::ForcingDown { error };
            let may = InteractivePhaseView::TryKilling { error };
            let unkilled = Some(KillFaultView::Kill { source });
            let unseen = Some(KillFaultView::Wait { source });
            &&& kill(must, None).1.ask == failed_with(error)
            &&& kill(must, None).0 == spoiled(ended(s))
            &&& kill(force, None).1.ask == failed_with(error)
            &&& kill(may, None).1.ask == failed_with(error)
            &&& kill(may, unkilled).1.ask == failed_with(error)
            &&& kill(may, unkilled).0.poisoned && kill(may, unkilled).0.live == s.live
            &&& kill(must, unkilled).1.ask == failed_with(
                InteractiveProcessErrorView::KillFailed { source },
            )
            &&& kill(must, unseen).1.ask == failed_with(
                InteractiveProcessErrorView::WaitFailed { source },
            )
            &&& kill(force, unkilled).1.ask == failed_with(
                InteractiveProcessErrorView::KillFailed { source },
            )
        }),
{
}

/// A child that is shut down is looked at until its time is up, and then killed. Where it exits in
/// time the command fails for its own reason, and the session is closed.
pub proof fn shutdown_gives_the_child_its_time(
    s: InteractiveSessionView,
    run: InteractiveRunView,
    error: InteractiveProcessErrorView,
    deadline: Moment,
    code: Option<i32>,
    source: Seq<char>,
    now: Moment,
)
    requires
        run.wait.mode is Command,
        s.live,
    ensures
        ({
            let phase = InteractivePhaseView::ShuttingDown { error, deadline };
            let look = |status: ChildStatusView|
                run_step(s, in_phase(run, phase), InteractiveEventView::Child { status }, now);
            let running = look(ChildStatusView::Running);
            let exited = look(ChildStatusView::Exited { code });
            &&& now.nanos < deadline.nanos ==> running.1.ask is Pause && running.1.run == in_phase(
                run,
                phase,
            )
            &&& now.nanos >= deadline.nanos ==> running.1.ask is Kill && running.1.run.phase == (
            InteractivePhaseView::ForcingDown { error })
            &&& running.0 == s
            &&& exited.1.ask == failed_with(error)
            &&& exited.0.poisoned && exited.0.terminated && !exited.0.live
            &&& look(ChildStatusView::Unknown { source }).1.ask == failed_with(
                InteractiveProcessErrorView::WaitFailed { source },
            )
        }),
{
}

/// A shutdown begins with the end of the input and gives the child its grace from then on; where
/// there is no child any more the command fails at once, and the session is spoiled.
pub proof fn shutdown_begins_with_the_end_of_the_input(
    s: InteractiveSessionView,
    run: InteractiveRunView,
    policy: ProcessExecutionPolicy,
    command: Seq<char>,
    now: Moment,
)
    requires
        run.phase is Looking,
        run.policy == Some(policy),
        policy.safety is GracefulThenKill,
        run.wait.mode == (WaitModeView::Command { command }),
        run.wait.observed is None,
        prompt_taken(s) is None,
        s.live,
        now.nanos + policy.graceful_shutdown_timeout.nanos <= u128::MAX,
    ensures
        ({
            let step = run_step(
                s,
                run,
                InteractiveEventView::Seen { cancelled: true, status: ChildStatusView::Running },
                now,
            );
            &&& !s.terminated ==> {
                &&& step.1.ask is CloseStdin
                &&& !step.0.stdin_open
                &&& step.1.run.phase is ShuttingDown
                &&& step.1.run.phase->ShuttingDown_error is CommandCancelled
                &&& step.1.run.phase->ShuttingDown_deadline.nanos == now.nanos
                    + policy.graceful_shutdown_timeout.nanos
            }
            &&& s.terminated ==> step.1.ask is Done && step.0.poisoned
        }),
{
}

} // verus!
