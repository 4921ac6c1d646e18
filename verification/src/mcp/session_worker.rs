//! The worker of the shared EDT session: it takes requests from the board one by one, keeps the
//! session alive between them, and answers each.

use vstd::prelude::*;
use crate::mcp::edt_session::{
    EdtSessionDrainReason, EdtSessionError, EdtSessionErrorView, EdtSessionResponse,
    EdtSessionResponseView,
};
use crate::mcp::session_board::{board_ok, drained, is_waiting, released, BoardView, SessionBoard};
use crate::platform::interactive::{
    interactive_error_text, InteractiveCommandOutput, InteractiveCommandOutputView,
    InteractiveProcessError, InteractiveProcessErrorView,
};
use crate::text::{opt_view, result_view, unit_view, views};
use crate::time::Span;



verus! {

/// Why the session was killed.
#[derive(Clone, Copy, Debug, PartialEq, Eq, Structural)]
pub enum EdtRestartReason {
    BaselineFailure,
    CommandTimeout,
    SessionFailure,
}

/// What the worker is waiting for.
#[derive(Debug, PartialEq, Eq)]
pub enum WorkerPhase {
    /// The session is being started before there is any request.
    Prewarming,
    /// The next request is awaited.
    Idle,
    /// The session is being started for a request.
    SpawningFor { id: u64 },
    /// The session is being brought to its baseline for a request.
    PreDispatching { id: u64 },
    /// A last look is taken at a request before it starts.
    Rechecking { id: u64 },
    /// A look is taken at a request that has just been started.
    Marked { id: u64, remaining: Span },
    /// The session executes the request.
    Executing { id: u64 },
    /// The session is being killed; an answer that is still owed comes afterwards.
    Killing { reason: EdtRestartReason, owed: Option<u64>, error: Option<EdtSessionError> },
    /// The session is being shut down.
    ShuttingDown,
    /// The worker is over.
    Stopped,
}

/// Mathematical value of [`WorkerPhase`].
pub enum WorkerPhaseView {
    Prewarming,
    Idle,
    SpawningFor { id: u64 },
    PreDispatching { id: u64 },
    Rechecking { id: u64 },
    Marked { id: u64, remaining: Span },
    Executing { id: u64 },
    Killing { reason: EdtRestartReason, owed: Option<u64>, error: Option<EdtSessionErrorView> },
    ShuttingDown,
    Stopped,
}

impl View for WorkerPhase {
    type V = WorkerPhaseView;

    open spec fn view(&self) -> WorkerPhaseView {
        match *self {
            WorkerPhase::Prewarming => WorkerPhaseView::Prewarming,
            WorkerPhase::Idle => WorkerPhaseView::Idle,
            WorkerPhase::SpawningFor { id } => WorkerPhaseView::SpawningFor { id },
            WorkerPhase::PreDispatching { id } => WorkerPhaseView::PreDispatching { id },
            WorkerPhase::Rechecking { id } => WorkerPhaseView::Rechecking { id },
            WorkerPhase::Marked { id, remaining } => WorkerPhaseView::Marked { id, remaining },
            WorkerPhase::Executing { id } => WorkerPhaseView::Executing { id },
            WorkerPhase::Killing { reason, owed, error } => WorkerPhaseView::Killing {
                reason,
                owed,
                error: opt_view(error),
            },
            WorkerPhase::ShuttingDown => WorkerPhaseView::ShuttingDown,
            WorkerPhase::Stopped => WorkerPhaseView::Stopped,
        }
    }
}

/// What the outside answers.
#[derive(Debug, PartialEq, Eq)]
pub enum WorkerEvent {
    /// The session has been started.
    Spawned { pid: Option<u32> },
    /// The session could not be started.
    SpawnFailed { error: EdtSessionError },
    /// A request has been taken from the queue.
    Dequeued { id: u64, shutdown: bool, cancelled: bool, expired: bool },
    /// There is no request left and none will come.
    QueueClosed,
    /// The session has been brought to its baseline, or not.
    PreDispatched { outcome: Result<(), EdtSessionError> },
    /// What the last look at the request shows.
    Rechecked { cancelled: bool, remaining: Span },
    /// What the look at the started request shows.
    Looked { cancelled: bool },
    /// The session has executed the request, or not.
    Executed { execution: Result<InteractiveCommandOutput, InteractiveProcessError> },
    /// The session has been killed as far as possible.
    Killed,
    /// The session has been shut down as far as possible.
    ShutDown,
}

/// Mathematical value of [`WorkerEvent`].
pub enum WorkerEventView {
    Spawned { pid: Option<u32> },
    SpawnFailed { error: EdtSessionErrorView },
    Dequeued { id: u64, shutdown: bool, cancelled: bool, expired: bool },
    QueueClosed,
    PreDispatched { outcome: Result<(), EdtSessionErrorView> },
    Rechecked { cancelled: bool, remaining: Span },
    Looked { cancelled: bool },
    Executed { execution: Result<InteractiveCommandOutputView, InteractiveProcessErrorView> },
    Killed,
    ShutDown,
}

impl View for WorkerEvent {
    type V = WorkerEventView;

    open spec fn view(&self) -> WorkerEventView {
        match *self {
            WorkerEvent::Spawned { pid } => WorkerEventView::Spawned { pid },
            WorkerEvent::SpawnFailed { error } => WorkerEventView::SpawnFailed { error: error@ },
            WorkerEvent::Dequeued {
                id,
                shutdown,
                cancelled,
                expired,
            } => WorkerEventView::Dequeued {
                id,
                shutdown,
                cancelled,
                expired,
            },
            WorkerEvent::QueueClosed => WorkerEventView::QueueClosed,
            WorkerEvent::PreDispatched { outcome } => WorkerEventView::PreDispatched {
                outcome: unit_view(outcome),
            },
            WorkerEvent::Rechecked { cancelled, remaining } => WorkerEventView::Rechecked {
                cancelled,
                remaining,
            },
            WorkerEvent::Looked { cancelled } => WorkerEventView::Looked { cancelled },
            WorkerEvent::Executed { execution } => WorkerEventView::Executed {
                execution: result_view(execution),
            },
            WorkerEvent::Killed => WorkerEventView::Killed,
            WorkerEvent::ShutDown => WorkerEventView::ShutDown,
        }
    }
}

/// What the outside is asked.
#[derive(Clone, Copy, Debug, PartialEq, Eq, Structural)]
pub enum WorkerAsk {
    /// Start the session.
    Spawn,
    /// Wait for the next request.
    NextRequest,
    /// Bring the session to its baseline for the request.
    PreDispatch { id: u64 },
    /// Take a last look at the request.
    Recheck { id: u64 },
    /// Take a look at the started request.
    Look { id: u64 },
    /// Execute the request within the time.
    Execute { id: u64, timeout: Span },
    /// Kill the session, and its process group where the session cannot do it.
    KillSession { has_session: bool, pid: u32 },
    /// Shut the session down, or kill its process group where there is none.
    ShutDownSession { has_session: bool, pid: u32 },
    /// Nothing: the worker is over.
    Stop,
    /// The answer does not belong to the question; the question stands.
    Repeat,
}

/// What is done without an answer.
#[derive(Debug, PartialEq, Eq)]
pub enum WorkerEffect {
    /// Answer a request.
    Reply { id: u64, result: Result<EdtSessionResponse, EdtSessionError> },
    /// Count a failed start.
    RecordStartupFailure,
    /// Count requests that were dropped.
    RecordDrain { cause: EdtSessionDrainReason, count: u64 },
    /// Count a killed session.
    RecordRestart { reason: EdtRestartReason },
}

/// Mathematical value of [`WorkerEffect`].
pub enum WorkerEffectView {
    Reply { id: u64, result: Result<EdtSessionResponseView, EdtSessionErrorView> },
    RecordStartupFailure,
    RecordDrain { cause: EdtSessionDrainReason, count: u64 },
    RecordRestart { reason: EdtRestartReason },
}

impl View for WorkerEffect {
    type V = WorkerEffectView;

    open spec fn view(&self) -> WorkerEffectView {
        match *self {
            WorkerEffect::Reply { id, result } => WorkerEffectView::Reply {
                id,
                result: result_view(result),
            },
            WorkerEffect::RecordStartupFailure => WorkerEffectView::RecordStartupFailure,
            WorkerEffect::RecordDrain { cause, count } => WorkerEffectView::RecordDrain {
                cause,
                count,
            },
            WorkerEffect::RecordRestart { reason } => WorkerEffectView::RecordRestart { reason },
        }
    }
}

/// The worker.
#[derive(Debug, PartialEq, Eq)]
pub struct EdtWorker {
    /// There is a session.
    pub has_session: bool,
    /// Process of the session, zero where there is none.
    pub active_pid: u32,
    /// What the worker is waiting for.
    pub phase: WorkerPhase,
}

/// Mathematical value of [`EdtWorker`].
pub struct EdtWorkerView {
    pub has_session: bool,
    pub active_pid: u32,
    pub phase: WorkerPhaseView,
}

impl View for EdtWorker {
    type V = EdtWorkerView;

    open spec fn view(&self) -> EdtWorkerView {
        EdtWorkerView {
            has_session: self.has_session,
            active_pid: self.active_pid,
            phase: self.phase@,
        }
    }
}

/// Outcome of one step: worker, board, what is done, what is asked.
pub struct WorkerOutcome {
    pub worker: EdtWorkerView,
    pub board: BoardView,
    pub effects: Seq<WorkerEffectView>,
    pub ask: WorkerAsk,
}

// ---------------------------------------------------------------------------------------------
// Steps

/// Failure answer.
pub open spec fn refusal(id: u64, error: EdtSessionErrorView) -> WorkerEffectView {
    WorkerEffectView::Reply { id, result: Err(error) }
}

/// Failure of a request that was dropped.
pub open spec fn dropped(reason: EdtSessionDrainReason) -> EdtSessionErrorView {
    EdtSessionErrorView::DrainedByRestartOrShutdown { reason }
}

/// Answers to requests that were dropped.
pub open spec fn drop_replies(ids: Seq<u64>, reason: EdtSessionDrainReason) -> Seq<
    WorkerEffectView,
> {
    ids.map_values(|id: u64| refusal(id, dropped(reason)))
}

/// The worker waits for the next request.
pub open spec fn back_to_idle(
    w: EdtWorkerView,
    board: BoardView,
    effects: Seq<WorkerEffectView>,
) -> WorkerOutcome {
    WorkerOutcome {
        worker: EdtWorkerView { phase: WorkerPhaseView::Idle, ..w },
        board,
        effects,
        ask: WorkerAsk::NextRequest,
    }
}

/// The request is withdrawn and refused; the worker waits for the next one.
pub open spec fn turn_down(
    w: EdtWorkerView,
    b: BoardView,
    id: u64,
    error: EdtSessionErrorView,
) -> WorkerOutcome {
    back_to_idle(w, released(b, id), seq![refusal(id, error)])
}

/// The session is brought to its baseline for the request.
pub open spec fn pre_dispatch(w: EdtWorkerView, b: BoardView, id: u64) -> WorkerOutcome {
    WorkerOutcome {
        worker: EdtWorkerView { phase: WorkerPhaseView::PreDispatching { id }, ..w },
        board: b,
        effects: Seq::empty(),
        ask: WorkerAsk::PreDispatch { id },
    }
}

/// The session is killed; `owed` is answered with `error` afterwards.
pub open spec fn kill_session(
    w: EdtWorkerView,
    b: BoardView,
    effects: Seq<WorkerEffectView>,
    reason: EdtRestartReason,
    owed: Option<u64>,
    error: Option<EdtSessionErrorView>,
) -> WorkerOutcome {
    WorkerOutcome {
        worker: EdtWorkerView { phase: WorkerPhaseView::Killing { reason, owed, error }, ..w },
        board: b,
        effects,
        ask: WorkerAsk::KillSession { has_session: w.has_session, pid: w.active_pid },
    }
}

/// A request has been taken from the queue.
pub open spec fn on_dequeued(
    w: EdtWorkerView,
    b: BoardView,
    id: u64,
    shutdown: bool,
    cancelled: bool,
    expired: bool,
) -> WorkerOutcome {
    if shutdown {
        WorkerOutcome {
            worker: EdtWorkerView { phase: WorkerPhaseView::ShuttingDown, ..w },
            board: drained(released(b, id)),
            effects: seq![
                refusal(id, dropped(EdtSessionDrainReason::Shutdown)),
                WorkerEffectView::RecordDrain { cause: EdtSessionDrainReason::Shutdown, count: 1 },
            ] + drop_replies(b.queue, EdtSessionDrainReason::Shutdown),
            ask: WorkerAsk::ShutDownSession { has_session: w.has_session, pid: w.active_pid },
        }
    } else if cancelled {
        turn_down(w, b, id, EdtSessionErrorView::QueuedCancelled)
    } else if expired {
        turn_down(w, b, id, EdtSessionErrorView::QueuedTimeout)
    } else if w.has_session {
        pre_dispatch(w, b, id)
    } else {
        WorkerOutcome {
            worker: EdtWorkerView { phase: WorkerPhaseView::SpawningFor { id }, ..w },
            board: b,
            effects: Seq::empty(),
            ask: WorkerAsk::Spawn,
        }
    }
}

/// Process number kept for a session that has been started.
pub open spec fn kept_pid(pid: Option<u32>) -> u32 {
    match pid {
        Some(p) => p,
        None => 0,
    }
}

/// The failure leaves the session usable: the request ran out of time or was cancelled.
pub open spec fn is_queued_failure(error: EdtSessionErrorView) -> bool {
    error is QueuedCancelled || error is QueuedTimeout
}

/// The session has been killed.
pub open spec fn on_killed(
    w: EdtWorkerView,
    b: BoardView,
    reason: EdtRestartReason,
    owed: Option<u64>,
    error: Option<EdtSessionErrorView>,
) -> WorkerOutcome {
    let counted = if w.has_session || w.active_pid != 0 {
        seq![WorkerEffectView::RecordRestart { reason }]
    } else {
        Seq::empty()
    };
    let drains = drop_replies(b.queue, EdtSessionDrainReason::Restart);
    let gone = EdtWorkerView { has_session: false, active_pid: 0, ..w };
    match (owed, error) {
        (Some(id), Some(e)) => back_to_idle(
            gone,
            BoardView { live: drained(b).live.remove(id), ..drained(b) },
            (counted + drains).push(refusal(id, e)),
        ),
        _ => back_to_idle(gone, drained(b), counted + drains),
    }
}

/// One step of the worker.
pub open spec fn worker_step(
    w: EdtWorkerView,
    b: BoardView,
    event: WorkerEventView,
) -> WorkerOutcome {
    match (w.phase, event) {
        (WorkerPhaseView::Prewarming, WorkerEventView::Spawned { pid }) => back_to_idle(
            EdtWorkerView { has_session: true, active_pid: kept_pid(pid), ..w },
            b,
            Seq::empty(),
        ),
        (WorkerPhaseView::Prewarming, WorkerEventView::SpawnFailed { .. }) => back_to_idle(
            EdtWorkerView { active_pid: 0, ..w },
            b,
            seq![WorkerEffectView::RecordStartupFailure],
        ),
        (
            WorkerPhaseView::Idle,
            WorkerEventView::Dequeued { id, shutdown, cancelled, expired },
        ) => on_dequeued(w, b, id, shutdown, cancelled, expired),
        (WorkerPhaseView::Idle, WorkerEventView::QueueClosed) => WorkerOutcome {
            worker: EdtWorkerView { phase: WorkerPhaseView::ShuttingDown, ..w },
            board: b,
            effects: Seq::empty(),
            ask: WorkerAsk::ShutDownSession { has_session: w.has_session, pid: w.active_pid },
        },
        (WorkerPhaseView::SpawningFor { id }, WorkerEventView::Spawned { pid }) => pre_dispatch(
            EdtWorkerView { has_session: true, active_pid: kept_pid(pid), ..w },
            b,
            id,
        ),
        (WorkerPhaseView::SpawningFor { id }, WorkerEventView::SpawnFailed { error }) =>
            back_to_idle(
            EdtWorkerView { active_pid: 0, ..w },
            drained(released(b, id)),
            seq![refusal(id, error), WorkerEffectView::RecordStartupFailure] + drop_replies(
                b.queue,
                EdtSessionDrainReason::Restart,
            ),
        ),
        (WorkerPhaseView::PreDispatching { id }, WorkerEventView::PreDispatched { outcome }) =>
            match outcome {
            Ok(_) => WorkerOutcome {
                worker: EdtWorkerView { phase: WorkerPhaseView::Rechecking { id }, ..w },
                board: b,
                effects: Seq::empty(),
                ask: WorkerAsk::Recheck { id },
            },
            Err(error) => if is_queued_failure(error) {
                turn_down(w, b, id, error)
            } else {
                kill_session(
                    w,
                    released(b, id),
                    seq![refusal(id, error)],
                    EdtRestartReason::BaselineFailure,
                    None,
                    None,
                )
            },
        },
        (WorkerPhaseView::Rechecking { id }, WorkerEventView::Rechecked { cancelled, remaining }) =>
            if cancelled {
            turn_down(w, b, id, EdtSessionErrorView::QueuedCancelled)
        } else if remaining.nanos == 0 {
            turn_down(w, b, id, EdtSessionErrorView::QueuedTimeout)
        } else if is_waiting(b, id) {
            WorkerOutcome {
                worker: EdtWorkerView { phase: WorkerPhaseView::Marked { id, remaining }, ..w },
                board: BoardView { live: b.live.insert(id, true), ..b },
                effects: Seq::empty(),
                ask: WorkerAsk::Look { id },
            }
        } else {
            back_to_idle(w, b, Seq::empty())
        },
        (WorkerPhaseView::Marked { id, remaining }, WorkerEventView::Looked { cancelled }) =>
            if cancelled {
            back_to_idle(
                w,
                BoardView { live: b.live.remove(id), ..b },
                seq![refusal(id, EdtSessionErrorView::RunningCancelled)],
            )
        } else {
            WorkerOutcome {
                worker: EdtWorkerView { phase: WorkerPhaseView::Executing { id }, ..w },
                board: b,
                effects: Seq::empty(),
                ask: WorkerAsk::Execute { id, timeout: remaining },
            }
        },
        (WorkerPhaseView::Executing { id }, WorkerEventView::Executed { execution }) => match execution {
            Ok(output) => back_to_idle(
                w,
                BoardView { live: b.live.remove(id), ..b },
                seq![
                    WorkerEffectView::Reply {
                        id,
                        result: Ok(
                            EdtSessionResponseView {
                                stdout: output.stdout,
                                stderr: output.stderr,
                            },
                        ),
                    },
                ],
            ),
            Err(error) => if error is CommandTimeout {
                kill_session(
                    w,
                    b,
                    Seq::empty(),
                    EdtRestartReason::CommandTimeout,
                    Some(id),
                    Some(EdtSessionErrorView::RunningTimeout),
                )
            } else {
                kill_session(
                    w,
                    b,
                    Seq::empty(),
                    EdtRestartReason::SessionFailure,
                    Some(id),
                    Some(
                        EdtSessionErrorView::SessionFailed {
                            message: interactive_error_text(error),
                        },
                    ),
                )
            },
        },
        (WorkerPhaseView::Killing { reason, owed, error }, WorkerEventView::Killed) => on_killed(
            w,
            b,
            reason,
            owed,
            error,
        ),
        (WorkerPhaseView::ShuttingDown, WorkerEventView::ShutDown) => WorkerOutcome {
            worker: EdtWorkerView {
                has_session: false,
                active_pid: 0,
                phase: WorkerPhaseView::Stopped,
            },
            board: b,
            effects: Seq::empty(),
            ask: WorkerAsk::Stop,
        },
        _ => WorkerOutcome { worker: w, board: b, effects: Seq::empty(), ask: WorkerAsk::Repeat },
    }
}


/// Row of effects with the answers to dropped requests added.
fn push_drop_replies(
    effects: &mut Vec<WorkerEffect>,
    ids: &Vec<u64>,
    reason: EdtSessionDrainReason,
)
    ensures
        views(final(effects)@) == views(old(effects)@) + drop_replies(ids@, reason),
{
    let ghost before = views(effects@);
    let mut i: usize = 0;
    assert(before =~= before + drop_replies(ids@, reason).take(0));
    while i < ids.len()
        invariant
            i <= ids.len(),
            views(effects@) == before + drop_replies(ids@, reason).take(i as int),
        decreases ids.len() - i,
    {
        let ghost now = effects@;
        effects.push(
            WorkerEffect::Reply {
                id: ids[i],
                result: Err(EdtSessionError::DrainedByRestartOrShutdown { reason }),
            },
        );
        proof {
            let r = refusal(ids@[i as int], dropped(reason));
            assert(views(effects@) =~= views(now).push(r));
            assert(before + drop_replies(ids@, reason).take(i + 1) =~= (before + drop_replies(
                ids@,
                reason,
            ).take(i as int)).push(r));
        }
        i += 1;
    }
    assert(drop_replies(ids@, reason).take(ids@.len() as int) =~= drop_replies(ids@, reason));
}

fn one_effect(effect: WorkerEffect) -> (r: Vec<WorkerEffect>)
    ensures
        views(r@) == seq![effect@],
{
    let mut effects: Vec<WorkerEffect> = Vec::new();
    effects.push(effect);
    assert(views(effects@) =~= seq![effect@]);
    effects
}

fn no_effects() -> (r: Vec<WorkerEffect>)
    ensures
        views(r@) == Seq::<WorkerEffectView>::empty(),
{
    let effects: Vec<WorkerEffect> = Vec::new();
    assert(views(effects@) =~= Seq::empty());
    effects
}

impl EdtWorker {
    /// Worker that has not done anything yet, and its first question. With `prewarm` the session is
    /// started before there is any request, unless the shutdown has begun.
    pub fn start(prewarm: bool, shutdown: bool) -> (r: (Self, WorkerAsk))
        ensures
            r.0@ == (EdtWorkerView {
                has_session: false,
                active_pid: 0,
                phase: if prewarm && !shutdown {
                    WorkerPhaseView::Prewarming
                } else {
                    WorkerPhaseView::Idle
                },
            }),
            r.1 == (if prewarm && !shutdown {
                WorkerAsk::Spawn
            } else {
                WorkerAsk::NextRequest
            }),
    {
        if prewarm && !shutdown {
            (
                EdtWorker { has_session: false, active_pid: 0, phase: WorkerPhase::Prewarming },
                WorkerAsk::Spawn,
            )
        } else {
            (
                EdtWorker { has_session: false, active_pid: 0, phase: WorkerPhase::Idle },
                WorkerAsk::NextRequest,
            )
        }
    }

    fn pid_of(pid: Option<u32>) -> (r: u32)
        ensures
            r == kept_pid(pid),
    {
        match pid {
            Some(p) => p,
            None => 0,
        }
    }

    fn refuse(&mut self, board: &mut SessionBoard, id: u64, error: EdtSessionError) -> (r: (
        Vec<WorkerEffect>,
        WorkerAsk,
    ))
        requires
            board_ok(old(board)@),
        ensures
            board_ok(final(board)@),
            final(self)@ == turn_down(old(self)@, old(board)@, id, error@).worker,
            final(board)@ == turn_down(old(self)@, old(board)@, id, error@).board,
            views(r.0@) == turn_down(old(self)@, old(board)@, id, error@).effects,
            r.1 == turn_down(old(self)@, old(board)@, id, error@).ask,
    {
        let _waiting = board.release_queued(id);
        self.phase = WorkerPhase::Idle;
        (
            one_effect(WorkerEffect::Reply { id, result: Err(error) }),
            WorkerAsk::NextRequest,
        )
    }

    fn take_up(
        &mut self,
        board: &mut SessionBoard,
        id: u64,
        shutdown: bool,
        cancelled: bool,
        expired: bool,
    ) -> (r: (Vec<WorkerEffect>, WorkerAsk))
        requires
            board_ok(old(board)@),
        ensures
            board_ok(final(board)@),
            ({
                let o = on_dequeued(old(self)@, old(board)@, id, shutdown, cancelled, expired);
                &&& final(self)@ == o.worker
                &&& final(board)@ == o.board
                &&& views(r.0@) == o.effects
                &&& r.1 == o.ask
            }),
    {
        if shutdown {
            let _waiting = board.release_queued(id);
            let mut effects = one_effect(
                WorkerEffect::Reply {
                    id,
                    result: Err(
                        EdtSessionError::DrainedByRestartOrShutdown {
                            reason: EdtSessionDrainReason::Shutdown,
                        },
                    ),
                },
            );
            let ghost first = views(effects@);
            effects.push(
                WorkerEffect::RecordDrain { cause: EdtSessionDrainReason::Shutdown, count: 1 },
            );
            assert(views(effects@) =~= first.push(
                WorkerEffectView::RecordDrain { cause: EdtSessionDrainReason::Shutdown, count: 1 },
            ));
            let ids = board.drain_pending();
            push_drop_replies(&mut effects, &ids, EdtSessionDrainReason::Shutdown);
            self.phase = WorkerPhase::ShuttingDown;
            return (
                effects,
                WorkerAsk::ShutDownSession { has_session: self.has_session, pid: self.active_pid },
            );
        }
        if cancelled {
            return self.refuse(board, id, EdtSessionError::QueuedCancelled);
        }
        if expired {
            return self.refuse(board, id, EdtSessionError::QueuedTimeout);
        }
        if self.has_session {
            self.phase = WorkerPhase::PreDispatching { id };
            (no_effects(), WorkerAsk::PreDispatch { id })
        } else {
            self.phase = WorkerPhase::SpawningFor { id };
            (no_effects(), WorkerAsk::Spawn)
        }
    }

    fn after_kill(
        &mut self,
        board: &mut SessionBoard,
        reason: EdtRestartReason,
        owed: Option<u64>,
        error: Option<EdtSessionError>,
    ) -> (r: (Vec<WorkerEffect>, WorkerAsk))
        requires
            board_ok(old(board)@),
        ensures
            board_ok(final(board)@),
            ({
                let o = on_killed(old(self)@, old(board)@, reason, owed, opt_view(error));
                &&& final(self)@ == o.worker
                &&& final(board)@ == o.board
                &&& views(r.0@) == o.effects
                &&& r.1 == o.ask
            }),
    {
        let mut effects = no_effects();
        if self.has_session || self.active_pid != 0 {
            effects = one_effect(WorkerEffect::RecordRestart { reason });
        }
        self.has_session = false;
        self.active_pid = 0;
        let ids = board.drain_pending();
        push_drop_replies(&mut effects, &ids, EdtSessionDrainReason::Restart);
        if let (Some(id), Some(e)) = (owed, error) {
            board.finish(id);
            let ghost before = views(effects@);
            effects.push(WorkerEffect::Reply { id, result: Err(e) });
            assert(views(effects@) =~= before.push(refusal(id, e@)));
        }
        self.phase = WorkerPhase::Idle;
        (effects, WorkerAsk::NextRequest)
    }

    /// Takes in the answer to the last question: what is done at once, and what is asked next.
    pub fn run_worker(&mut self, board: &mut SessionBoard, event: WorkerEvent) -> (r: (
        Vec<WorkerEffect>,
        WorkerAsk,
    ))
        requires
            board_ok(old(board)@),
        ensures
            board_ok(final(board)@),
            final(self)@ == worker_step(old(self)@, old(board)@, event@).worker,
            final(board)@ == worker_step(old(self)@, old(board)@, event@).board,
            views(r.0@) == worker_step(old(self)@, old(board)@, event@).effects,
            r.1 == worker_step(old(self)@, old(board)@, event@).ask,
    {
        let mut phase = WorkerPhase::Stopped;
        std::mem::swap(&mut phase, &mut self.phase);
        match (phase, event) {
            (WorkerPhase::Prewarming, WorkerEvent::Spawned { pid }) => {
                self.has_session = true;
                self.active_pid = EdtWorker::pid_of(pid);
                self.phase = WorkerPhase::Idle;
                (no_effects(), WorkerAsk::NextRequest)
            },
            (WorkerPhase::Prewarming, WorkerEvent::SpawnFailed { .. }) => {
                self.active_pid = 0;
                self.phase = WorkerPhase::Idle;
                (one_effect(WorkerEffect::RecordStartupFailure), WorkerAsk::NextRequest)
            },
            (WorkerPhase::Idle, WorkerEvent::Dequeued { id, shutdown, cancelled, expired }) => {
                self.phase = WorkerPhase::Idle;
                self.take_up(board, id, shutdown, cancelled, expired)
            },
            (WorkerPhase::Idle, WorkerEvent::QueueClosed) => {
                self.phase = WorkerPhase::ShuttingDown;
                (
                    no_effects(),
                    WorkerAsk::ShutDownSession {
                        has_session: self.has_session,
                        pid: self.active_pid,
                    },
                )
            },
            (WorkerPhase::SpawningFor { id }, WorkerEvent::Spawned { pid }) => {
                self.has_session = true;
                self.active_pid = EdtWorker::pid_of(pid);
                self.phase = WorkerPhase::PreDispatching { id };
                (no_effects(), WorkerAsk::PreDispatch { id })
            },
            (WorkerPhase::SpawningFor { id }, WorkerEvent::SpawnFailed { error }) => {
                let _waiting = board.release_queued(id);
                let mut effects = one_effect(WorkerEffect::Reply { id, result: Err(error) });
                let ghost first = views(effects@);
                effects.push(WorkerEffect::RecordStartupFailure);
                assert(views(effects@) =~= first.push(WorkerEffectView::RecordStartupFailure));
                let ids = board.drain_pending();
                push_drop_replies(&mut effects, &ids, EdtSessionDrainReason::Restart);
                self.active_pid = 0;
                self.phase = WorkerPhase::Idle;
                (effects, WorkerAsk::NextRequest)
            },
            (WorkerPhase::PreDispatching { id }, WorkerEvent::PreDispatched { outcome }) => {
                match outcome {
                    Ok(_) => {
                        self.phase = WorkerPhase::Rechecking { id };
                        (no_effects(), WorkerAsk::Recheck { id })
                    },
                    Err(error) => {
                        let usable = match &error {
                            EdtSessionError::QueuedCancelled => true,
                            EdtSessionError::QueuedTimeout => true,
                            _ => false,
                        };
                        if usable {
                            return self.refuse(board, id, error);
                        }
                        let _waiting = board.release_queued(id);
                        self.phase = WorkerPhase::Killing {
                            reason: EdtRestartReason::BaselineFailure,
                            owed: None,
                            error: None,
                        };
                        (
                            one_effect(WorkerEffect::Reply { id, result: Err(error) }),
                            WorkerAsk::KillSession {
                                has_session: self.has_session,
                                pid: self.active_pid,
                            },
                        )
                    },
                }
            },
            (
                WorkerPhase::Rechecking { id },
                WorkerEvent::Rechecked { cancelled, remaining },
            ) => {
                if cancelled {
                    return self.refuse(board, id, EdtSessionError::QueuedCancelled);
                }
                if remaining.is_zero() {
                    return self.refuse(board, id, EdtSessionError::QueuedTimeout);
                }
                if board.try_mark_running(id) {
                    self.phase = WorkerPhase::Marked { id, remaining };
                    (no_effects(), WorkerAsk::Look { id })
                } else {
                    self.phase = WorkerPhase::Idle;
                    (no_effects(), WorkerAsk::NextRequest)
                }
            },
            (WorkerPhase::Marked { id, remaining }, WorkerEvent::Looked { cancelled }) => {
                if cancelled {
                    board.finish(id);
                    self.phase = WorkerPhase::Idle;
                    (
                        one_effect(
                            WorkerEffect::Reply {
                                id,
                                result: Err(EdtSessionError::RunningCancelled),
                            },
                        ),
                        WorkerAsk::NextRequest,
                    )
                } else {
                    self.phase = WorkerPhase::Executing { id };
                    (no_effects(), WorkerAsk::Execute { id, timeout: remaining })
                }
            },
            (WorkerPhase::Executing { id }, WorkerEvent::Executed { execution }) => {
                match execution {
                    Ok(output) => {
                        board.finish(id);
                        self.phase = WorkerPhase::Idle;
                        let response = EdtSessionResponse {
                            stdout: output.stdout,
                            stderr: output.stderr,
                        };
                        (
                            one_effect(WorkerEffect::Reply { id, result: Ok(response) }),
                            WorkerAsk::NextRequest,
                        )
                    },
                    Err(failure) => {
                        let (reason, error) = match &failure {
                            InteractiveProcessError::CommandTimeout { .. } => (
                                EdtRestartReason::CommandTimeout,
                                EdtSessionError::RunningTimeout,
                            ),
                            _ => (
                                EdtRestartReason::SessionFailure,
                                EdtSessionError::SessionFailed { message: failure.message() },
                            ),
                        };
                        self.phase = WorkerPhase::Killing {
                            reason,
                            owed: Some(id),
                            error: Some(error),
                        };
                        (
                            no_effects(),
                            WorkerAsk::KillSession {
                                has_session: self.has_session,
                                pid: self.active_pid,
                            },
                        )
                    },
                }
            },
            (WorkerPhase::Killing { reason, owed, error }, WorkerEvent::Killed) => {
                self.after_kill(board, reason, owed, error)
            },
            (WorkerPhase::ShuttingDown, WorkerEvent::ShutDown) => {
                self.has_session = false;
                self.active_pid = 0;
                self.phase = WorkerPhase::Stopped;
                (no_effects(), WorkerAsk::Stop)
            },
            (phase, _) => {
                self.phase = phase;
                (no_effects(), WorkerAsk::Repeat)
            },
        }
    }
}

} // verus!
