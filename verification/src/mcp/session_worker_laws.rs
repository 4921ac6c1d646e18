//! Laws of the shared session's worker: what becomes of each request, and of the session.

use vstd::prelude::*;
use crate::config::AppConfigView;
use crate::mcp::edt_session::{
    EdtSessionDrainReason, EdtSessionErrorView, EdtSessionResponseView,
    EdtSessionShutdownErrorView,
};
use crate::mcp::session_baseline::{
    baseline_command, baseline_failure, baseline_reply_failure, join_step, probe_failure,
    JoinOutcome, JoinPhase, JoinStepView,
};
use crate::mcp::session_board::{
    admission_refusal, caller_step, is_active, is_waiting, released, BoardView, CallerActionView,
    CallerEventView,
};
use crate::mcp::session_start::host_options;
use crate::mcp::session_worker::{
    worker_step, EdtRestartReason, EdtWorkerView, WorkerAsk, WorkerEffectView, WorkerEventView,
    WorkerPhaseView,
};
use crate::path::{joined, same_place, HostPlatform};
use crate::platform::interactive::{
    interactive_error_text, InteractiveCommandOutputView, InteractiveProcessErrorView,
};
use crate::text::{is_blank, trim};
use crate::time::{whole_millis, Moment, Span};

verus! {

/// The worker in a phase.
pub open spec fn in_phase(w: EdtWorkerView, phase: WorkerPhaseView) -> EdtWorkerView {
    EdtWorkerView { phase, ..w }
}

/// The request is answered with the failure.
pub open spec fn refused(id: u64, error: EdtSessionErrorView) -> WorkerEffectView {
    WorkerEffectView::Reply { id, result: Err(error) }
}

// ---------------------------------------------------------------------------------------------
// Callers

/// A request is admitted while there is room and the session is not shutting down, and told why it
/// is not where it is not.
pub proof fn request_is_admitted_while_there_is_room(b: BoardView)
    ensures
        admission_refusal(b) is None <==> !b.shutdown && b.live.dom().len() < b.capacity,
        b.shutdown ==> admission_refusal(b) == Some(
            EdtSessionErrorView::DrainedByRestartOrShutdown {
                reason: EdtSessionDrainReason::Shutdown,
            },
        ),
        !b.shutdown && b.live.dom().len() >= b.capacity ==> admission_refusal(b) == Some(
            EdtSessionErrorView::QueueFull,
        ),
{
}

/// The worker's answer is the caller's result. A caller that gives up is told how far its request
/// had come: one that still waited leaves the board at once, one that runs is left to its end, and
/// one that is over is answered by the worker.
pub proof fn caller_is_told_how_far_its_request_came(
    b: BoardView,
    id: u64,
    answer: Result<EdtSessionResponseView, EdtSessionErrorView>,
)
    ensures
        caller_step(b, id, CallerEventView::Response(Some(answer))) == (
            b,
            CallerActionView::Ready { result: answer },
        ),
        ({
            let cancelled = caller_step(b, id, CallerEventView::Cancelled);
            let late = caller_step(b, id, CallerEventView::DeadlinePassed);
            let closing = caller_step(b, id, CallerEventView::ShuttingDown);
            let lost = caller_step(b, id, CallerEventView::Response(None));
            &&& lost.1 is Ready && lost.1->Ready_result is Err
                && lost.1->Ready_result->Err_0 is InternalFailure
            &&& is_waiting(b, id) ==> {
                &&& cancelled.1 == (CallerActionView::Ready {
                    result: Err(EdtSessionErrorView::QueuedCancelled),
                })
                &&& late.1 == (CallerActionView::Ready {
                    result: Err(EdtSessionErrorView::QueuedTimeout),
                })
                &&& closing.1 == (CallerActionView::Ready {
                    result: Err(
                        EdtSessionErrorView::DrainedByRestartOrShutdown {
                            reason: EdtSessionDrainReason::Shutdown,
                        },
                    ),
                })
                &&& !cancelled.0.live.contains_key(id) && !late.0.live.contains_key(id)
                &&& !closing.0.live.contains_key(id)
                &&& !cancelled.0.queue.contains(id) && !late.0.queue.contains(id)
            }
            &&& is_active(b, id) ==> {
                &&& cancelled == (
                    b,
                    CallerActionView::Abandon { result: Err(EdtSessionErrorView::RunningCancelled) },
                )
                &&& late == (
                    b,
                    CallerActionView::Abandon { result: Err(EdtSessionErrorView::RunningTimeout) },
                )
                &&& closing == (b, CallerActionView::WaitPastShutdown)
            }
            &&& !b.live.contains_key(id) ==> cancelled == (b, CallerActionView::Wait) && late == (
                b,
                CallerActionView::Wait,
            )
        }),
{
    let keep = |x: u64| x != id;
    let rest = b.queue.filter(keep);
    if rest.contains(id) {
        let i = choose|i: int| 0 <= i < rest.len() && rest[i] == id;
        b.queue.lemma_filter_pred(keep, i);
    }
}

// ---------------------------------------------------------------------------------------------
// Requests

/// A request that is taken up is looked at first: one that was cancelled, or whose time is up, is
/// refused as such and the worker goes on to the next. Any other has the session brought to its
/// baseline, and started before where there is none.
pub proof fn request_taken_up_is_looked_at_first(w: EdtWorkerView, b: BoardView, id: u64)
    requires
        w.phase is Idle,
    ensures
        ({
            let take = |cancelled: bool, expired: bool|
                worker_step(
                    w,
                    b,
                    WorkerEventView::Dequeued { id, shutdown: false, cancelled, expired },
                );
            &&& take(true, false).effects == seq![
                refused(id, EdtSessionErrorView::QueuedCancelled),
            ]
            &&& take(true, true).effects == seq![refused(id, EdtSessionErrorView::QueuedCancelled)]
            &&& take(false, true).effects == seq![refused(id, EdtSessionErrorView::QueuedTimeout)]
            &&& take(true, false).ask is NextRequest && take(false, true).ask is NextRequest
            &&& take(false, true).worker == w
            &&& take(false, true).board == released(b, id)
            &&& take(false, false).effects.len() == 0 && take(false, false).board == b
            &&& w.has_session ==> take(false, false).ask == (WorkerAsk::PreDispatch { id })
            &&& !w.has_session ==> take(false, false).ask is Spawn
                && take(false, false).worker.phase == (WorkerPhaseView::SpawningFor { id })
        }),
{
}

/// A request taken up during a shutdown is dropped with all that wait behind it, each with that
/// answer, and the session is shut down.
pub proof fn shutdown_drops_every_request(
    w: EdtWorkerView,
    b: BoardView,
    id: u64,
    cancelled: bool,
    expired: bool,
    i: int,
)
    requires
        w.phase is Idle,
        0 <= i < b.queue.len(),
    ensures
        ({
            let out = worker_step(
                w,
                b,
                WorkerEventView::Dequeued { id, shutdown: true, cancelled, expired },
            );
            let dropped = EdtSessionErrorView::DrainedByRestartOrShutdown {
                reason: EdtSessionDrainReason::Shutdown,
            };
            &&& out.effects.len() == 2 + b.queue.len()
            &&& out.effects[0] == refused(id, dropped)
            &&& out.effects[2 + i] == refused(b.queue[i], dropped)
            &&& out.ask == (WorkerAsk::ShutDownSession {
                has_session: w.has_session,
                pid: w.active_pid,
            })
            &&& out.worker.phase is ShuttingDown
        }),
{
}

/// A session that was started serves the request it was started for, under the number of its
/// process. Where it could not be started, the request is told why, and those behind it are dropped.
pub proof fn started_session_serves_its_request(
    w: EdtWorkerView,
    b: BoardView,
    id: u64,
    pid: u32,
    error: EdtSessionErrorView,
    i: int,
)
    requires
        w.phase == (WorkerPhaseView::SpawningFor { id }),
        0 <= i < b.queue.len(),
    ensures
        ({
            let up = worker_step(w, b, WorkerEventView::Spawned { pid: Some(pid) });
            let down = worker_step(w, b, WorkerEventView::SpawnFailed { error });
            &&& up.ask == (WorkerAsk::PreDispatch { id })
            &&& up.worker.has_session && up.worker.active_pid == pid
            &&& up.effects.len() == 0
            &&& down.effects.len() == 2 + b.queue.len()
            &&& down.effects[0] == refused(id, error)
            &&& down.effects[1] is RecordStartupFailure
            &&& down.effects[2 + i] == refused(
                b.queue[i],
                EdtSessionErrorView::DrainedByRestartOrShutdown {
                    reason: EdtSessionDrainReason::Restart,
                },
            )
            &&& down.ask is NextRequest && down.worker.active_pid == 0
        }),
{
}

/// A session at its baseline has the request looked at once more; one that cannot be brought there
/// is killed, unless the request itself ran out of time or was cancelled.
pub proof fn baseline_is_needed_for_a_request(
    w: EdtWorkerView,
    b: BoardView,
    id: u64,
    error: EdtSessionErrorView,
)
    requires
        w.phase == (WorkerPhaseView::PreDispatching { id }),
    ensures
        ({
            let up = worker_step(w, b, WorkerEventView::PreDispatched { outcome: Ok(()) });
            let down = worker_step(w, b, WorkerEventView::PreDispatched { outcome: Err(error) });
            let own = error is QueuedCancelled || error is QueuedTimeout;
            &&& up.ask == (WorkerAsk::Recheck { id }) && up.effects.len() == 0
            &&& down.effects == seq![refused(id, error)]
            &&& own ==> down.ask is NextRequest
            &&& !own ==> down.ask == (WorkerAsk::KillSession {
                has_session: w.has_session,
                pid: w.active_pid,
            })
            &&& !own ==> down.worker.phase == (WorkerPhaseView::Killing {
                reason: EdtRestartReason::BaselineFailure,
                owed: None,
                error: None,
            })
        }),
{
}

/// A request starts only where it still waits, is not cancelled and has time left; it is then
/// executed within that time. One that was withdrawn meanwhile is passed over.
pub proof fn request_starts_within_its_time(
    w: EdtWorkerView,
    b: BoardView,
    id: u64,
    remaining: Span,
)
    requires
        w.phase == (WorkerPhaseView::Rechecking { id }),
        remaining.nanos > 0,
    ensures
        ({
            let gone = worker_step(w, b, WorkerEventView::Rechecked { cancelled: true, remaining });
            let late = worker_step(
                w,
                b,
                WorkerEventView::Rechecked { cancelled: false, remaining: Span { nanos: 0 } },
            );
            let go = worker_step(w, b, WorkerEventView::Rechecked { cancelled: false, remaining });
            let run = worker_step(go.worker, go.board, WorkerEventView::Looked { cancelled: false });
            let stop = worker_step(go.worker, go.board, WorkerEventView::Looked { cancelled: true });
            &&& gone.effects == seq![refused(id, EdtSessionErrorView::QueuedCancelled)]
            &&& late.effects == seq![refused(id, EdtSessionErrorView::QueuedTimeout)]
            &&& is_waiting(b, id) ==> {
                &&& go.ask == (WorkerAsk::Look { id }) && is_active(go.board, id)
                &&& run.ask == (WorkerAsk::Execute { id, timeout: remaining })
                &&& stop.effects == seq![refused(id, EdtSessionErrorView::RunningCancelled)]
                &&& !stop.board.live.contains_key(id) && stop.ask is NextRequest
            }
            &&& !is_waiting(b, id) ==> go.ask is NextRequest && go.effects.len() == 0 && go.board
                == b
        }),
{
}

/// The output of a request is its answer, and the session stays for the next. A request that failed
/// costs the session its child: it is killed, and the request is then told why.
pub proof fn executed_request_is_answered(
    w: EdtWorkerView,
    b: BoardView,
    id: u64,
    output: InteractiveCommandOutputView,
    error: InteractiveProcessErrorView,
)
    requires
        w.phase == (WorkerPhaseView::Executing { id }),
    ensures
        ({
            let done = worker_step(w, b, WorkerEventView::Executed { execution: Ok(output) });
            let failed = worker_step(w, b, WorkerEventView::Executed { execution: Err(error) });
            &&& done.effects == seq![
                WorkerEffectView::Reply {
                    id,
                    result: Ok(
                        EdtSessionResponseView { stdout: output.stdout, stderr: output.stderr },
                    ),
                },
            ]
            &&& done.worker == in_phase(w, WorkerPhaseView::Idle) && done.ask is NextRequest
            &&& !done.board.live.contains_key(id) && done.board.queue == b.queue
            &&& failed.effects.len() == 0 && failed.board == b
            &&& failed.ask == (WorkerAsk::KillSession {
                has_session: w.has_session,
                pid: w.active_pid,
            })
            &&& error is CommandTimeout ==> failed.worker.phase == (WorkerPhaseView::Killing {
                reason: EdtRestartReason::CommandTimeout,
                owed: Some(id),
                error: Some(EdtSessionErrorView::RunningTimeout),
            })
            &&& !(error is CommandTimeout) ==> failed.worker.phase == (WorkerPhaseView::Killing {
                reason: EdtRestartReason::SessionFailure,
                owed: Some(id),
                error: Some(
                    EdtSessionErrorView::SessionFailed { message: interactive_error_text(error) },
                ),
            })
        }),
{
}

/// A session that was killed is counted as one, all that waited are dropped, and last the request
/// that cost it is told why. There is no session then.
pub proof fn killed_session_is_counted_and_told(
    w: EdtWorkerView,
    b: BoardView,
    id: u64,
    reason: EdtRestartReason,
    error: EdtSessionErrorView,
    i: int,
)
    requires
        w.phase == (WorkerPhaseView::Killing { reason, owed: Some(id), error: Some(error) }),
        w.has_session,
        0 <= i < b.queue.len(),
    ensures
        ({
            let out = worker_step(w, b, WorkerEventView::Killed);
            &&& out.effects.len() == b.queue.len() + 2
            &&& out.effects[0] == (WorkerEffectView::RecordRestart { reason })
            &&& out.effects[1 + i] == refused(
                b.queue[i],
                EdtSessionErrorView::DrainedByRestartOrShutdown {
                    reason: EdtSessionDrainReason::Restart,
                },
            )
            &&& out.effects.last() == refused(id, error)
            &&& !out.worker.has_session && out.worker.active_pid == 0
            &&& out.worker.phase is Idle && out.ask is NextRequest
            &&& !out.board.live.contains_key(id)
        }),
{
}

/// A session that is started ahead of all requests is kept; where it cannot be started that is
/// counted, and the worker waits for requests all the same. A closed queue shuts the session down,
/// and with that the worker is over.
pub proof fn worker_begins_and_ends(w: EdtWorkerView, b: BoardView, pid: u32, error: EdtSessionErrorView)
    ensures
        ({
            let warming = in_phase(w, WorkerPhaseView::Prewarming);
            let idle = in_phase(w, WorkerPhaseView::Idle);
            let up = worker_step(warming, b, WorkerEventView::Spawned { pid: Some(pid) });
            let down = worker_step(warming, b, WorkerEventView::SpawnFailed { error });
            let closed = worker_step(idle, b, WorkerEventView::QueueClosed);
            let over = worker_step(closed.worker, b, WorkerEventView::ShutDown);
            &&& up.worker.has_session && up.worker.active_pid == pid && up.ask is NextRequest
            &&& up.effects.len() == 0 && up.board == b
            &&& down.effects == seq![WorkerEffectView::RecordStartupFailure]
            &&& down.ask is NextRequest && down.board == b
            &&& closed.ask == (WorkerAsk::ShutDownSession {
                has_session: w.has_session,
                pid: w.active_pid,
            })
            &&& over.ask is Stop && over.worker.phase is Stopped && !over.worker.has_session
        }),
{
}

// ---------------------------------------------------------------------------------------------
// Baseline

/// A baseline command has what is left of the request's time and no more than the cap; where the
/// request's time is what bounds it, running out of it is the request's failure and not the
/// session's.
pub proof fn baseline_command_has_its_time(
    line: Seq<char>,
    deadline: Moment,
    now: Moment,
    cap: Span,
    step: Seq<char>,
    error: InteractiveProcessErrorView,
)
    ensures
        ({
            let asked = baseline_command(line, false, deadline, now, cap);
            let told = |clamped: bool| baseline_failure(step, error, clamped);
            &&& baseline_command(line, true, deadline, now, cap)->Err_0 is QueuedCancelled
            &&& baseline_command(line, true, deadline, now, cap) is Err
            &&& now.nanos >= deadline.nanos ==> asked is Err && asked->Err_0 is QueuedTimeout
            &&& now.nanos < deadline.nanos ==> {
                let budget = asked->Ok_0.budget;
                &&& asked is Ok && asked->Ok_0.line == line
                &&& now.nanos + budget.duration.nanos <= deadline.nanos
                &&& budget.duration.nanos <= cap.nanos
                &&& budget.duration == cap || now.nanos + budget.duration.nanos == deadline.nanos
                &&& budget.clamped_by_budget <==> deadline.nanos - now.nanos <= cap.nanos
            }
            &&& error is CommandTimeout ==> told(true) is QueuedTimeout
            &&& !(error is CommandTimeout) ==> told(true) == told(false)
            &&& told(false) == (EdtSessionErrorView::SessionFailed {
                message: "shared EDT baseline "@ + step + " failed: "@ + interactive_error_text(
                    error,
                ),
            })
        }),
{
}

/// A baseline command that printed to stderr has failed, with what it printed; one that did not is
/// sound, and the probe is too where it names the workspace, in letters or on the disk.
pub proof fn baseline_is_the_workspace(
    step: Seq<char>,
    stdout: Seq<char>,
    stderr: Seq<char>,
    clamped: bool,
    host: HostPlatform,
    workspace: Seq<char>,
    same_on_disk: bool,
)
    ensures
        ({
            let output = Ok::<InteractiveCommandOutputView, InteractiveProcessErrorView>(
                InteractiveCommandOutputView { stdout, stderr },
            );
            let reply = baseline_reply_failure(step, output, clamped);
            let probe = probe_failure(output, clamped, host, workspace, same_on_disk);
            &&& reply is None <==> is_blank(stderr)
            &&& !is_blank(stderr) ==> reply == Some(
                EdtSessionErrorView::SessionFailed {
                    message: "shared EDT baseline "@ + step + " produced stderr: "@ + trim(stderr),
                },
            )
            &&& probe is None ==> is_blank(stderr)
            &&& is_blank(stderr) ==> (probe is None <==> !is_blank(trim(stdout)) && (same_place(
                host,
                trim(trim(stdout)),
                workspace,
            ) || same_on_disk))
            &&& is_blank(stderr) && probe is Some ==> probe == Some(
                EdtSessionErrorView::SessionFailed {
                    message: "shared EDT baseline probe returned '"@ + trim(stdout)
                        + "' instead of '"@ + workspace + "'"@,
                },
            )
        }),
{
}

/// A worker that returns ends the shutdown well, one that panicked ends it badly. One that does not
/// return in time has its session killed first, and is given up after that.
pub proof fn shutdown_kills_before_it_gives_up(phase: JoinPhase, timeout: Span)
    ensures
        join_step(phase, JoinOutcome::Joined, timeout) == (JoinStepView::Done { result: Ok(()) }),
        join_step(phase, JoinOutcome::Panicked, timeout) == (JoinStepView::Done {
            result: Err(EdtSessionShutdownErrorView::WorkerPanicked),
        }),
        join_step(JoinPhase::Waiting, JoinOutcome::TimedOut, timeout) is KillAndWait,
        join_step(JoinPhase::Killed, JoinOutcome::TimedOut, timeout) == (JoinStepView::GiveUp {
            error: EdtSessionShutdownErrorView::TimedOut { timeout_ms: whole_millis(timeout) },
        }),
{
}

/// The shared session has room for as many requests as calls may run, and for one at least; its
/// shutdown has the grace period, and a second at least; it stands in its workspace below the work
/// directory.
pub proof fn session_is_set_up_as_configured(config: AppConfigView, host: HostPlatform)
    ensures
        ({
            let o = host_options(config, host);
            let calls = config.mcp.execution.max_concurrent_calls;
            let grace = config.mcp.execution.shutdown_grace_period_secs;
            &&& calls >= 1 ==> o.queue_capacity == calls
            &&& calls == 0 ==> o.queue_capacity == 1
            &&& grace >= 1 ==> o.shutdown_timeout.nanos == grace * 1_000_000_000
            &&& grace == 0 ==> o.shutdown_timeout.nanos == 1_000_000_000
            &&& o.startup_timeout.nanos == config.tools.edt_cli.startup_timeout_ms * 1_000_000
            &&& o.workspace == joined(host, config.work_path, "edt-workspace"@)
        }),
{
}

} // verus!
