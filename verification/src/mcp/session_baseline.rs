//! Bringing the shared EDT session to its baseline before a request, and waiting for its worker.

use vstd::prelude::*;
use crate::mcp::edt_session::{
    EdtSessionError, EdtSessionErrorView, EdtSessionShutdownError, EdtSessionShutdownErrorView,
};
use crate::mcp::session_worker::is_queued_failure;
use crate::path::{path_same_place, same_place, HostPlatform};
use crate::platform::edt_command::{
    change_dir_line, render_interactive_change_dir_command,
    render_interactive_probe_workdir_command,
};
use crate::platform::interactive::{
    interactive_error_text, InteractiveCommandOutput, InteractiveCommandOutputView,
    InteractiveProcessError, InteractiveProcessErrorView,
};
use crate::text::{cat4, cat5, is_blank, trim, trimmed, unit_view};
use crate::time::{millis_span, shorter, time_until, whole_millis, Moment, Span};


verus! {

/// Longest time for one baseline command, in milliseconds.
pub const BASELINE_RESET_TIMEOUT_CAP_MS: u64 = 1000;

/// Pause between two looks at the worker, in milliseconds.
pub const JOIN_POLL_INTERVAL_MS: u64 = 10;

/// Time for one baseline command.
#[derive(Clone, Copy, Debug, PartialEq, Eq, Structural)]
pub struct BaselineTimeoutBudget {
    pub duration: Span,
    /// The request's own deadline sets the time.
    pub clamped_by_budget: bool,
}

/// Time for one baseline command, `None` where the request has none left.
pub open spec fn baseline_budget(deadline: Moment, now: Moment, cap: Span) -> Option<
    BaselineTimeoutBudget,
> {
    let remaining = time_until(deadline, now);
    if remaining.nanos == 0 {
        None
    } else {
        Some(
            BaselineTimeoutBudget {
                duration: shorter(remaining, cap),
                clamped_by_budget: remaining.nanos <= cap.nanos,
            },
        )
    }
}

/// Time for one baseline command.
pub fn baseline_timeout_budget(deadline: Moment, now: Moment, cap: Span) -> (r: Result<
    BaselineTimeoutBudget,
    EdtSessionError,
>)
    ensures
        match r {
            Ok(b) => baseline_budget(deadline, now, cap) == Some(b),
            Err(e) => baseline_budget(deadline, now, cap) is None && e@
                == EdtSessionErrorView::QueuedTimeout,
        },
{
    let remaining = deadline.since(now);
    if remaining.is_zero() {
        return Err(EdtSessionError::QueuedTimeout);
    }
    Ok(
        BaselineTimeoutBudget {
            duration: remaining.min(cap),
            clamped_by_budget: remaining.nanos <= cap.nanos,
        },
    )
}

/// Failure of a baseline command: a timeout that the request's own deadline has set is the
/// request's, any other failure is the session's.
pub open spec fn baseline_failure(
    step: Seq<char>,
    error: InteractiveProcessErrorView,
    clamped_by_budget: bool,
) -> EdtSessionErrorView {
    if error is CommandTimeout && clamped_by_budget {
        EdtSessionErrorView::QueuedTimeout
    } else {
        EdtSessionErrorView::SessionFailed {
            message: "shared EDT baseline "@ + step + " failed: "@ + interactive_error_text(error),
        }
    }
}

/// Failure of a baseline command.
pub fn baseline_error(step: &str, error: InteractiveProcessError, clamped_by_budget: bool) -> (r:
    EdtSessionError)
    ensures
        r@ == baseline_failure(step@, error@, clamped_by_budget),
{
    if clamped_by_budget {
        if let InteractiveProcessError::CommandTimeout { .. } = error {
            return EdtSessionError::QueuedTimeout;
        }
    }
    EdtSessionError::SessionFailed {
        message: cat4("shared EDT baseline ", step, " failed: ", error.message().as_str()),
    }
}

/// The session stands in the workspace: it printed a path that names it, in letters or on the disk.
pub open spec fn in_workspace(
    host: HostPlatform,
    printed: Seq<char>,
    workspace: Seq<char>,
    same_on_disk: bool,
) -> bool {
    !is_blank(printed) && (same_place(host, trim(printed), workspace) || same_on_disk)
}

/// Whether the printed path names the workspace. `same_on_disk` tells whether both resolve to the
/// same directory.
pub fn workspace_paths_match(
    host: HostPlatform,
    printed: &str,
    workspace: &str,
    same_on_disk: bool,
) -> (r: bool)
    ensures
        r == in_workspace(host, printed@, workspace@, same_on_disk),
{
    let actual = trimmed(printed);
    if actual.as_str().is_empty() {
        return false;
    }
    path_same_place(host, actual.as_str(), workspace) || same_on_disk
}

/// A line for the session, with its time.
#[derive(Debug, PartialEq, Eq)]
pub struct BaselineCommand {
    pub line: String,
    pub budget: BaselineTimeoutBudget,
}

/// Mathematical value of [`BaselineCommand`].
pub struct BaselineCommandView {
    pub line: Seq<char>,
    pub budget: BaselineTimeoutBudget,
}

impl View for BaselineCommand {
    type V = BaselineCommandView;

    open spec fn view(&self) -> BaselineCommandView {
        BaselineCommandView {
            line: self.line@,
            budget: self.budget,
        }
    }
}

/// Next baseline command, from the state of the request.
pub open spec fn baseline_command(
    line: Seq<char>,
    cancelled: bool,
    deadline: Moment,
    now: Moment,
    cap: Span,
) -> Result<BaselineCommandView, EdtSessionErrorView> {
    if cancelled {
        Err(EdtSessionErrorView::QueuedCancelled)
    } else {
        match baseline_budget(deadline, now, cap) {
            Some(budget) => Ok(BaselineCommandView { line, budget }),
            None => Err(EdtSessionErrorView::QueuedTimeout),
        }
    }
}

fn next_command(line: String, cancelled: bool, deadline: Moment, now: Moment, cap: Span) -> (r:
    Result<BaselineCommand, EdtSessionError>)
    ensures
        match r {
            Ok(c) => baseline_command(line@, cancelled, deadline, now, cap) == Ok::<
                BaselineCommandView,
                EdtSessionErrorView,
            >(c@),
            Err(e) => baseline_command(line@, cancelled, deadline, now, cap) == Err::<
                BaselineCommandView,
                EdtSessionErrorView,
            >(e@),
        },
{
    if cancelled {
        return Err(EdtSessionError::QueuedCancelled);
    }
    match baseline_timeout_budget(deadline, now, cap) {
        Ok(budget) => Ok(BaselineCommand { line, budget }),
        Err(e) => Err(e),
    }
}

/// Failure of a baseline command that ran: a command that failed, or that printed to stderr.
pub open spec fn baseline_reply_failure(
    step: Seq<char>,
    outcome: Result<InteractiveCommandOutputView, InteractiveProcessErrorView>,
    clamped_by_budget: bool,
) -> Option<EdtSessionErrorView> {
    match outcome {
        Err(error) => Some(baseline_failure(step, error, clamped_by_budget)),
        Ok(output) => if is_blank(output.stderr) {
            None
        } else {
            Some(
                EdtSessionErrorView::SessionFailed {
                    message: "shared EDT baseline "@ + step + " produced stderr: "@ + trim(
                        output.stderr,
                    ),
                },
            )
        },
    }
}

/// View of what came of a baseline command.
pub open spec fn outcome_view(
    outcome: Result<InteractiveCommandOutput, InteractiveProcessError>,
) -> Result<InteractiveCommandOutputView, InteractiveProcessErrorView> {
    match outcome {
        Ok(x) => Ok(x@),
        Err(e) => Err(e@),
    }
}

fn check_reply(
    step: &str,
    outcome: Result<InteractiveCommandOutput, InteractiveProcessError>,
    clamped_by_budget: bool,
) -> (r: Result<InteractiveCommandOutput, EdtSessionError>)
    ensures
        match r {
            Ok(out) => baseline_reply_failure(step@, outcome_view(outcome), clamped_by_budget)
                is None && outcome == Ok::<InteractiveCommandOutput, InteractiveProcessError>(out),
            Err(e) => baseline_reply_failure(step@, outcome_view(outcome), clamped_by_budget)
                == Some(e@),
        },
{
    match outcome {
        Err(error) => Err(baseline_error(step, error, clamped_by_budget)),
        Ok(output) => {
            let printed = trimmed(output.stderr.as_str());
            if printed.as_str().is_empty() {
                Ok(output)
            } else {
                Err(
                    EdtSessionError::SessionFailed {
                        message: cat4(
                            "shared EDT baseline ",
                            step,
                            " produced stderr: ",
                            printed.as_str(),
                        ),
                    },
                )
            }
        },
    }
}

/// First baseline command: change into the workspace.
pub fn baseline_reset(
    workspace: &str,
    cancelled: bool,
    deadline: Moment,
    now: Moment,
    cap: Span,
) -> (r: Result<BaselineCommand, EdtSessionError>)
    ensures
        match r {
            Ok(c) => baseline_command(change_dir_line(workspace@), cancelled, deadline, now, cap)
                == Ok::<BaselineCommandView, EdtSessionErrorView>(c@),
            Err(e) => baseline_command(change_dir_line(workspace@), cancelled, deadline, now, cap)
                == Err::<BaselineCommandView, EdtSessionErrorView>(e@),
        },
{
    next_command(render_interactive_change_dir_command(workspace), cancelled, deadline, now, cap)
}

/// Second baseline command: have the session print where it stands.
pub fn baseline_probe(
    reset: Result<InteractiveCommandOutput, InteractiveProcessError>,
    clamped_by_budget: bool,
    cancelled: bool,
    deadline: Moment,
    now: Moment,
    cap: Span,
) -> (r: Result<BaselineCommand, EdtSessionError>)
    ensures
        ({
            let owed = match baseline_reply_failure(
                "reset"@,
                outcome_view(reset),
                clamped_by_budget,
            ) {
                Some(error) => Err(error),
                None => baseline_command("cd"@, cancelled, deadline, now, cap),
            };
            match r {
                Ok(c) => owed == Ok::<BaselineCommandView, EdtSessionErrorView>(c@),
                Err(e) => owed == Err::<BaselineCommandView, EdtSessionErrorView>(e@),
            }
        }),
{
    match check_reply("reset", reset, clamped_by_budget) {
        Err(e) => Err(e),
        Ok(_) => next_command(
            render_interactive_probe_workdir_command(),
            cancelled,
            deadline,
            now,
            cap,
        ),
    }
}

/// Failure of the baseline after its second command: the command failed, or the session does not
/// stand in the workspace.
pub open spec fn probe_failure(
    probe: Result<InteractiveCommandOutputView, InteractiveProcessErrorView>,
    clamped_by_budget: bool,
    host: HostPlatform,
    workspace: Seq<char>,
    same_on_disk: bool,
) -> Option<EdtSessionErrorView> {
    match baseline_reply_failure("probe"@, probe, clamped_by_budget) {
        Some(error) => Some(error),
        None => {
            let printed = probe->Ok_0.stdout;
            if in_workspace(host, trim(printed), workspace, same_on_disk) {
                None
            } else {
                Some(
                    EdtSessionErrorView::SessionFailed {
                        message: "shared EDT baseline probe returned '"@ + trim(printed)
                            + "' instead of '"@ + workspace + "'"@,
                    },
                )
            }
        },
    }
}

/// Verdict on the baseline after its second command.
pub fn run_baseline_reset(
    probe: Result<InteractiveCommandOutput, InteractiveProcessError>,
    clamped_by_budget: bool,
    host: HostPlatform,
    workspace: &str,
    same_on_disk: bool,
) -> (r: Result<(), EdtSessionError>)
    ensures
        match r {
            Ok(_) => probe_failure(
                outcome_view(probe),
                clamped_by_budget,
                host,
                workspace@,
                same_on_disk,
            ) is None,
            Err(e) => probe_failure(
                outcome_view(probe),
                clamped_by_budget,
                host,
                workspace@,
                same_on_disk,
            ) == Some(e@),
        },
{
    match check_reply("probe", probe, clamped_by_budget) {
        Err(e) => Err(e),
        Ok(output) => {
            let printed = trimmed(output.stdout.as_str());
            if workspace_paths_match(host, printed.as_str(), workspace, same_on_disk) {
                Ok(())
            } else {
                Err(
                    EdtSessionError::SessionFailed {
                        message: cat5(
                            "shared EDT baseline probe returned '",
                            printed.as_str(),
                            "' instead of '",
                            workspace,
                            "'",
                        ),
                    },
                )
            }
        },
    }
}

// ---------------------------------------------------------------------------------------------
// Waiting for the worker

/// What to do after a look at the worker.
#[derive(Clone, Copy, Debug, PartialEq, Eq, Structural)]
pub enum WorkerWait {
    Finished,
    TimedOut,
    Sleep { pause: Span },
}

/// Decides after a look at the worker.
pub fn wait_for_worker(finished: bool, now: Moment, deadline: Moment) -> (r: WorkerWait)
    ensures
        r == (if finished {
            WorkerWait::Finished
        } else if now.nanos >= deadline.nanos {
            WorkerWait::TimedOut
        } else {
            WorkerWait::Sleep { pause: shorter(millis_span(10), time_until(deadline, now)) }
        }),
{
    if finished {
        WorkerWait::Finished
    } else if now.nanos >= deadline.nanos {
        WorkerWait::TimedOut
    } else {
        WorkerWait::Sleep {
            pause: Span::from_millis(JOIN_POLL_INTERVAL_MS).min(deadline.since(now)),
        }
    }
}

/// How far the shutdown of the worker has come.
#[derive(Clone, Copy, Debug, PartialEq, Eq, Structural)]
pub enum JoinPhase {
    /// The worker is given its time.
    Waiting,
    /// The session's process group has been killed and the worker is given its time again.
    Killed,
}

/// What a wait for the worker has come to.
#[derive(Clone, Copy, Debug, PartialEq, Eq, Structural)]
pub enum JoinOutcome {
    /// The worker has returned.
    Joined,
    /// The worker has panicked.
    Panicked,
    /// The worker has not stopped in time.
    TimedOut,
}

/// What follows.
#[derive(Debug, PartialEq, Eq)]
pub enum JoinStep {
    /// The shutdown is over.
    Done { result: Result<(), EdtSessionShutdownError> },
    /// Kill the session's process group and wait again.
    KillAndWait,
    /// Remember that the shutdown has failed, and report it.
    GiveUp { error: EdtSessionShutdownError },
}

/// Mathematical value of [`JoinStep`].
pub enum JoinStepView {
    Done { result: Result<(), EdtSessionShutdownErrorView> },
    KillAndWait,
    GiveUp { error: EdtSessionShutdownErrorView },
}

impl View for JoinStep {
    type V = JoinStepView;

    open spec fn view(&self) -> JoinStepView {
        match *self {
            JoinStep::Done { result } => JoinStepView::Done { result: unit_view(result) },
            JoinStep::KillAndWait => JoinStepView::KillAndWait,
            JoinStep::GiveUp { error } => JoinStepView::GiveUp { error: error@ },
        }
    }
}

/// What follows a wait for the worker.
pub open spec fn join_step(phase: JoinPhase, outcome: JoinOutcome, timeout: Span) -> JoinStepView {
    match outcome {
        JoinOutcome::Joined => JoinStepView::Done { result: Ok(()) },
        JoinOutcome::Panicked => JoinStepView::Done {
            result: Err(EdtSessionShutdownErrorView::WorkerPanicked),
        },
        JoinOutcome::TimedOut => match phase {
            JoinPhase::Waiting => JoinStepView::KillAndWait,
            JoinPhase::Killed => JoinStepView::GiveUp {
                error: EdtSessionShutdownErrorView::TimedOut { timeout_ms: whole_millis(timeout) },
            },
        },
    }
}

/// Decides what follows a wait for the worker.
pub fn join_worker(phase: JoinPhase, outcome: JoinOutcome, timeout: Span) -> (r: JoinStep)
    ensures
        r@ == join_step(phase, outcome, timeout),
{
    match outcome {
        JoinOutcome::Joined => JoinStep::Done { result: Ok(()) },
        JoinOutcome::Panicked => JoinStep::Done {
            result: Err(EdtSessionShutdownError::WorkerPanicked),
        },
        JoinOutcome::TimedOut => match phase {
            JoinPhase::Waiting => JoinStep::KillAndWait,
            JoinPhase::Killed => JoinStep::GiveUp {
                error: EdtSessionShutdownError::TimedOut { timeout_ms: timeout.as_millis() },
            },
        },
    }
}

/// Whether the worker still has to be waited for. A shutdown that has timed out once keeps failing,
/// and one whose worker is gone already succeeds.
pub fn begin_join(timed_out: bool, has_worker: bool, timeout: Span) -> (r: Option<
    Result<(), EdtSessionShutdownError>,
>)
    ensures
        match r {
            Some(Err(e)) => timed_out && e@ == (EdtSessionShutdownErrorView::TimedOut {
                timeout_ms: whole_millis(timeout),
            }),
            Some(Ok(_)) => !timed_out && !has_worker,
            None => !timed_out && has_worker,
        },
{
    if timed_out {
        Some(Err(EdtSessionShutdownError::TimedOut { timeout_ms: timeout.as_millis() }))
    } else if !has_worker {
        Some(Ok(()))
    } else {
        None
    }
}

// ---------------------------------------------------------------------------------------------
// Laws

/// A baseline command never gets more time than the request has left, nor more than the cap.
pub proof fn baseline_stays_within_the_deadline(deadline: Moment, now: Moment, cap: Span)
    requires
        baseline_budget(deadline, now, cap) is Some,
    ensures
        (baseline_budget(deadline, now, cap)->0).duration.nanos <= time_until(deadline, now).nanos,
        (baseline_budget(deadline, now, cap)->0).duration.nanos <= cap.nanos,
{
}

/// A baseline command that times out costs the session only where the cap, not the request's own
/// deadline, has set its time.
pub proof fn own_deadline_spares_the_session(
    step: Seq<char>,
    error: InteractiveProcessErrorView,
    clamped_by_budget: bool,
)
    requires
        error is CommandTimeout,
    ensures
        is_queued_failure(baseline_failure(step, error, clamped_by_budget)) <==> clamped_by_budget,
{
}

} // verus!
