//! What the shared EDT session promises to its callers, whatever the outside answers.

use vstd::prelude::*;
use crate::mcp::edt_session::{EdtSessionDrainReason, EdtSessionErrorView};
use crate::mcp::session_board::{board_ok, is_waiting, released, BoardView};
use crate::mcp::session_worker::{
    drop_replies, dropped, refusal, worker_step, EdtWorkerView, WorkerAsk, WorkerEffectView,
    WorkerEventView, WorkerPhaseView,
};

verus! {

/// Request that the worker has taken up and not answered.
pub open spec fn owes(phase: WorkerPhaseView) -> Option<u64> {
    match phase {
        WorkerPhaseView::SpawningFor { id } => Some(id),
        WorkerPhaseView::PreDispatching { id } => Some(id),
        WorkerPhaseView::Rechecking { id } => Some(id),
        WorkerPhaseView::Marked { id, .. } => Some(id),
        WorkerPhaseView::Executing { id } => Some(id),
        WorkerPhaseView::Killing { owed, .. } => owed,
        _ => None,
    }
}

/// The worker knows what it will answer to a request that it still owes after a kill.
pub open spec fn phase_ok(phase: WorkerPhaseView) -> bool {
    phase is Killing ==> (phase->owed is Some <==> phase->Killing_error is Some)
}

/// The effect answers the request.
pub open spec fn answers(effect: WorkerEffectView, id: u64) -> bool {
    effect matches WorkerEffectView::Reply { id: i, .. } && i == id
}

/// Number of answers to the request.
pub open spec fn answer_count(effects: Seq<WorkerEffectView>, id: u64) -> nat
    decreases effects.len(),
{
    if effects.len() == 0 {
        0
    } else if answers(effects.last(), id) {
        answer_count(effects.drop_last(), id) + 1
    } else {
        answer_count(effects.drop_last(), id)
    }
}

proof fn lemma_count_push(effects: Seq<WorkerEffectView>, e: WorkerEffectView, id: u64)
    ensures
        answer_count(effects.push(e), id) == answer_count(effects, id) + (if answers(e, id) {
            1nat
        } else {
            0
        }),
{
    assert(effects.push(e).drop_last() =~= effects);
}

proof fn lemma_count_add(a: Seq<WorkerEffectView>, b: Seq<WorkerEffectView>, id: u64)
    ensures
        answer_count(a + b, id) == answer_count(a, id) + answer_count(b, id),
    decreases b.len(),
{
    if b.len() == 0 {
        assert(a + b =~= a);
    } else {
        lemma_count_add(a, b.drop_last(), id);
        assert((a + b).drop_last() =~= a + b.drop_last());
    }
}

proof fn lemma_count_empty(id: u64)
    ensures
        answer_count(Seq::empty(), id) == 0,
{
}

proof fn lemma_count_one(e: WorkerEffectView, id: u64)
    ensures
        answer_count(seq![e], id) == (if answers(e, id) {
            1nat
        } else {
            0
        }),
{
    assert(seq![e] =~= Seq::<WorkerEffectView>::empty().push(e));
    lemma_count_push(Seq::empty(), e, id);
}

proof fn lemma_count_two(e: WorkerEffectView, f: WorkerEffectView, id: u64)
    ensures
        answer_count(seq![e, f], id) == (if answers(e, id) {
            1nat
        } else {
            0
        }) + (if answers(f, id) {
            1nat
        } else {
            0
        }),
{
    assert(seq![e, f] =~= seq![e].push(f));
    lemma_count_one(e, id);
    lemma_count_push(seq![e], f, id);
}

proof fn lemma_count_drops(ids: Seq<u64>, reason: EdtSessionDrainReason, id: u64)
    requires
        ids.no_duplicates(),
    ensures
        answer_count(drop_replies(ids, reason), id) == (if ids.contains(id) {
            1nat
        } else {
            0
        }),
    decreases ids.len(),
{
    let effects = drop_replies(ids, reason);
    if ids.len() > 0 {
        let rest = ids.drop_last();
        assert(rest.no_duplicates()) by {
            assert forall|i: int, j: int| 0 <= i < rest.len() && 0 <= j < rest.len() && i
                != j implies rest[i] != rest[j] by {
                assert(ids[i] != ids[j]);
            }
        }
        lemma_count_drops(rest, reason, id);
        assert(effects.drop_last() =~= drop_replies(rest, reason));
        assert(effects.last() == refusal(ids.last(), dropped(reason)));
        if ids.last() == id {
            assert(ids[ids.len() - 1] == id);
            assert(!rest.contains(id)) by {
                if rest.contains(id) {
                    let k = choose|k: int| 0 <= k < rest.len() && rest[k] == id;
                    assert(ids[k] == ids[ids.len() - 1]);
                }
            }
        } else if ids.contains(id) {
            let k = choose|k: int| 0 <= k < ids.len() && ids[k] == id;
            assert(rest[k] == id);
        } else if rest.contains(id) {
            let k = choose|k: int| 0 <= k < rest.len() && rest[k] == id;
            assert(ids[k] == id);
        }
    }
}

proof fn lemma_counts(w: EdtWorkerView, b: BoardView, event: WorkerEventView, id: u64)
    requires
        b.queue.no_duplicates(),
    ensures
        ({
            let o = worker_step(w, b, event);
            let in_queue: nat = if b.queue.contains(id) {
                1
            } else {
                0
            };
            match (w.phase, event) {
                (WorkerPhaseView::Prewarming, _) => answer_count(o.effects, id) == 0,
                (
                    WorkerPhaseView::Idle,
                    WorkerEventView::Dequeued { id: i, shutdown, cancelled, expired },
                ) => answer_count(o.effects, id) == (if id == i && (shutdown || cancelled
                    || expired) {
                    1nat
                } else {
                    0
                }) + (if shutdown {
                    in_queue
                } else {
                    0
                }),
                (WorkerPhaseView::SpawningFor { id: i }, WorkerEventView::SpawnFailed { .. }) =>
                    answer_count(o.effects, id) == (if id == i {
                    1nat
                } else {
                    0
                }) + in_queue,
                (
                    WorkerPhaseView::PreDispatching { id: i },
                    WorkerEventView::PreDispatched { outcome },
                ) => answer_count(o.effects, id) == (if id == i && outcome is Err {
                    1nat
                } else {
                    0
                }),
                (
                    WorkerPhaseView::Rechecking { id: i },
                    WorkerEventView::Rechecked { cancelled, remaining },
                ) => answer_count(o.effects, id) == (if id == i && (cancelled || remaining.nanos
                    == 0) {
                    1nat
                } else {
                    0
                }),
                (WorkerPhaseView::Marked { id: i, .. }, WorkerEventView::Looked { cancelled }) =>
                    answer_count(o.effects, id) == (if id == i && cancelled {
                    1nat
                } else {
                    0
                }),
                (WorkerPhaseView::Executing { id: i }, WorkerEventView::Executed { execution }) =>
                    answer_count(o.effects, id) == (if id == i && execution is Ok {
                    1nat
                } else {
                    0
                }),
                (WorkerPhaseView::Killing { owed, error, .. }, WorkerEventView::Killed) =>
                    answer_count(o.effects, id) == in_queue + (if owed == Some(id) && error is Some {
                    1nat
                } else {
                    0
                }),
                _ => answer_count(o.effects, id) == 0,
            }
        }),
{
    let o = worker_step(w, b, event);
    lemma_count_empty(id);
    match (w.phase, event) {
        (WorkerPhaseView::Prewarming, WorkerEventView::SpawnFailed { .. }) => {
            lemma_count_one(WorkerEffectView::RecordStartupFailure, id);
        },
        (
            WorkerPhaseView::Idle,
            WorkerEventView::Dequeued { id: i, shutdown, cancelled, expired },
        ) => {
            if shutdown {
                let first = refusal(i, dropped(EdtSessionDrainReason::Shutdown));
                let second = WorkerEffectView::RecordDrain {
                    cause: EdtSessionDrainReason::Shutdown,
                    count: 1,
                };
                lemma_count_two(first, second, id);
                lemma_count_drops(b.queue, EdtSessionDrainReason::Shutdown, id);
                lemma_count_add(
                    seq![first, second],
                    drop_replies(b.queue, EdtSessionDrainReason::Shutdown),
                    id,
                );
            } else if cancelled {
                lemma_count_one(refusal(i, EdtSessionErrorView::QueuedCancelled), id);
            } else if expired {
                lemma_count_one(refusal(i, EdtSessionErrorView::QueuedTimeout), id);
            }
        },
        (WorkerPhaseView::SpawningFor { id: i }, WorkerEventView::SpawnFailed { error }) => {
            let first = refusal(i, error);
            lemma_count_two(first, WorkerEffectView::RecordStartupFailure, id);
            lemma_count_drops(b.queue, EdtSessionDrainReason::Restart, id);
            lemma_count_add(
                seq![first, WorkerEffectView::RecordStartupFailure],
                drop_replies(b.queue, EdtSessionDrainReason::Restart),
                id,
            );
        },
        (
            WorkerPhaseView::PreDispatching { id: i },
            WorkerEventView::PreDispatched { outcome },
        ) => {
            if outcome is Err {
                lemma_count_one(refusal(i, outcome->Err_0), id);
            }
        },
        (WorkerPhaseView::Rechecking { id: i }, WorkerEventView::Rechecked { .. }) => {
            lemma_count_one(refusal(i, EdtSessionErrorView::QueuedCancelled), id);
            lemma_count_one(refusal(i, EdtSessionErrorView::QueuedTimeout), id);
        },
        (WorkerPhaseView::Marked { id: i, .. }, WorkerEventView::Looked { .. }) => {
            lemma_count_one(refusal(i, EdtSessionErrorView::RunningCancelled), id);
        },
        (WorkerPhaseView::Executing { id: i }, WorkerEventView::Executed { execution }) => {
            if execution is Ok {
                lemma_count_one(o.effects[0], id);
                assert(o.effects =~= seq![o.effects[0]]);
            }
        },
        (WorkerPhaseView::Killing { reason, owed, error }, WorkerEventView::Killed) => {
            let counted = if w.has_session || w.active_pid != 0 {
                seq![WorkerEffectView::RecordRestart { reason }]
            } else {
                Seq::empty()
            };
            let drains = drop_replies(b.queue, EdtSessionDrainReason::Restart);
            lemma_count_one(WorkerEffectView::RecordRestart { reason }, id);
            lemma_count_drops(b.queue, EdtSessionDrainReason::Restart, id);
            lemma_count_add(counted, drains, id);
            if owed is Some && error is Some {
                lemma_count_push(counted + drains, refusal(owed->0, error->0), id);
            }
        },
        _ => {},
    }
}

/// A request is answered exactly once. While the worker owes an answer it gives none; when it stops
/// owing it has given exactly one, but for a request that its caller has withdrawn at the last
/// moment, which the caller has answered.
pub proof fn every_request_is_answered_once(
    w: EdtWorkerView,
    b: BoardView,
    event: WorkerEventView,
    id: u64,
)
    requires
        board_ok(b),
        phase_ok(w.phase),
        owes(w.phase) == Some(id),
        !b.queue.contains(id),
    ensures
        ({
            let o = worker_step(w, b, event);
            &&& phase_ok(o.worker.phase)
            &&& owes(o.worker.phase) == Some(id) ==> answer_count(o.effects, id) == 0
            &&& owes(o.worker.phase) != Some(id) ==> owes(o.worker.phase) is None && {
                ||| answer_count(o.effects, id) == 1
                ||| w.phase is Rechecking && !is_waiting(b, id) && answer_count(o.effects, id) == 0
            }
        }),
{
    lemma_counts(w, b, event, id);
}

/// A request that is taken up is either answered at once or owed an answer.
pub proof fn taken_up_request_is_answered_or_owed(
    w: EdtWorkerView,
    b: BoardView,
    id: u64,
    shutdown: bool,
    cancelled: bool,
    expired: bool,
)
    requires
        board_ok(b),
        w.phase is Idle,
        !b.queue.contains(id),
    ensures
        ({
            let o = worker_step(
                w,
                b,
                WorkerEventView::Dequeued { id, shutdown, cancelled, expired },
            );
            &&& phase_ok(o.worker.phase)
            &&& answer_count(o.effects, id) == 1 && owes(o.worker.phase) is None || answer_count(
                o.effects,
                id,
            ) == 0 && owes(o.worker.phase) == Some(id)
        }),
{
    lemma_counts(
        w,
        b,
        WorkerEventView::Dequeued { id, shutdown, cancelled, expired },
        id,
    );
}

/// No request is dropped in silence: one that leaves the queue in a step of the worker is answered
/// exactly once in that step.
pub proof fn dropped_request_is_answered(
    w: EdtWorkerView,
    b: BoardView,
    event: WorkerEventView,
    id: u64,
)
    requires
        board_ok(b),
        phase_ok(w.phase),
        b.queue.contains(id),
        owes(w.phase) != Some(id),
        event is Dequeued ==> event->Dequeued_id != id,
    ensures
        ({
            let o = worker_step(w, b, event);
            ||| o.board.queue.contains(id) && answer_count(o.effects, id) == 0
            ||| !o.board.queue.contains(id) && answer_count(o.effects, id) == 1
        }),
{
    lemma_counts(w, b, event, id);
    crate::mcp::session_board::draining_releases_the_queue(b);
    let o = worker_step(w, b, event);
    match (w.phase, event) {
        (WorkerPhaseView::Idle, WorkerEventView::Dequeued { id: i, .. }) => {
            assert(board_ok(released(b, i)));
            crate::mcp::session_board::draining_releases_the_queue(released(b, i));
        },
        (WorkerPhaseView::SpawningFor { id: i }, _) => {
            assert(board_ok(released(b, i)));
            crate::mcp::session_board::draining_releases_the_queue(released(b, i));
        },
        _ => {},
    }
}

/// A session that failed or timed out is not used again: after the kill there is none, and the next
/// request that is neither late nor cancelled has one started.
pub proof fn killed_session_is_replaced(
    w: EdtWorkerView,
    b: BoardView,
    id: u64,
    later: BoardView,
)
    requires
        w.phase is Killing,
    ensures
        ({
            let idle = worker_step(w, b, WorkerEventView::Killed).worker;
            let next = worker_step(
                idle,
                later,
                WorkerEventView::Dequeued { id, shutdown: false, cancelled: false, expired: false },
            );
            &&& idle.phase is Idle
            &&& !idle.has_session
            &&& idle.active_pid == 0
            &&& next.ask == WorkerAsk::Spawn
        }),
{
}

/// A request that timed out, was cancelled or expired in the queue does not cost the session.
pub proof fn queued_failure_spares_the_session(
    w: EdtWorkerView,
    b: BoardView,
    event: WorkerEventView,
)
    requires
        w.phase is Idle || w.phase is PreDispatching || w.phase is Rechecking || w.phase is Marked,
        worker_step(w, b, event).ask == WorkerAsk::NextRequest,
    ensures
        worker_step(w, b, event).worker.has_session == w.has_session,
        worker_step(w, b, event).worker.active_pid == w.active_pid,
{
}

} // verus!
