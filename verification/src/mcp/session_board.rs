//! Admission, queue and request stages of the shared EDT session.

use std::collections::HashMap;
use vstd::prelude::*;
use crate::mcp::edt_session::{
    EdtSessionDrainReason, EdtSessionError, EdtSessionErrorView, EdtSessionResponse,
    EdtSessionResponseView,
};
use crate::text::result_view;


verus! {

broadcast use vstd::std_specs::hash::group_hash_axioms;

/// Requests of the shared session: which are admitted and unfinished, and which wait in the queue.
/// A request holds its admission from [`SessionBoard::enlist`] until it is released or finished.
#[derive(Debug)]
pub struct SessionBoard {
    capacity: usize,
    next_id: u64,
    live: HashMap<u64, bool>,
    queue: Vec<u64>,
    shutdown: bool,
}

/// Mathematical value of [`SessionBoard`].
#[verifier::ext_equal]
pub struct BoardView {
    /// Greatest number of unfinished requests.
    pub capacity: nat,
    /// Number given to the next request.
    pub next_id: nat,
    /// Unfinished requests; the flag tells that the request is running.
    pub live: Map<u64, bool>,
    /// Requests that wait to be taken up, first come first.
    pub queue: Seq<u64>,
    /// Admission has been stopped.
    pub shutdown: bool,
}

impl View for SessionBoard {
    type V = BoardView;

    closed spec fn view(&self) -> BoardView {
        BoardView {
            capacity: self.capacity as nat,
            next_id: self.next_id as nat,
            live: self.live@,
            queue: self.queue@,
            shutdown: self.shutdown,
        }
    }
}

/// What holds of the board at all times: there is room for one request, no more requests are
/// unfinished than there is room for, and every number on the board has been given once.
pub open spec fn board_ok(b: BoardView) -> bool {
    &&& b.capacity >= 1
    &&& b.live.dom().finite()
    &&& b.live.dom().len() <= b.capacity
    &&& forall|id: u64| b.live.contains_key(id) ==> id < b.next_id
    &&& forall|i: int| 0 <= i < b.queue.len() ==> #[trigger] b.queue[i] < b.next_id
    &&& b.queue.no_duplicates()
}

/// The request is unfinished and has not been started.
pub open spec fn is_waiting(b: BoardView, id: u64) -> bool {
    b.live.contains_key(id) && !b.live[id]
}

/// The request is running.
pub open spec fn is_active(b: BoardView, id: u64) -> bool {
    b.live.contains_key(id) && b.live[id]
}

/// Board after the request has been withdrawn, provided that it has not been started.
pub open spec fn released(b: BoardView, id: u64) -> BoardView {
    if is_waiting(b, id) {
        BoardView { live: b.live.remove(id), ..b }
    } else {
        b
    }
}

/// Board after a row of requests has been withdrawn.
pub open spec fn released_all(b: BoardView, ids: Seq<u64>) -> BoardView
    decreases ids.len(),
{
    if ids.len() == 0 {
        b
    } else {
        released(released_all(b, ids.drop_last()), ids.last())
    }
}

/// Board after the queue has been emptied and its requests withdrawn.
pub open spec fn drained(b: BoardView) -> BoardView {
    released_all(BoardView { queue: Seq::empty(), ..b }, b.queue)
}

/// Failure of a request that cannot be admitted.
pub open spec fn admission_refusal(b: BoardView) -> Option<EdtSessionErrorView> {
    if b.shutdown {
        Some(
            EdtSessionErrorView::DrainedByRestartOrShutdown {
                reason: EdtSessionDrainReason::Shutdown,
            },
        )
    } else if b.live.dom().len() >= b.capacity {
        Some(EdtSessionErrorView::QueueFull)
    } else {
        None
    }
}

proof fn lemma_released_ok(b: BoardView, id: u64)
    requires
        board_ok(b),
    ensures
        board_ok(released(b, id)),
{
}

proof fn lemma_released_all_ok(b: BoardView, ids: Seq<u64>)
    requires
        board_ok(b),
    ensures
        board_ok(released_all(b, ids)),
        released_all(b, ids).queue == b.queue,
        released_all(b, ids).capacity == b.capacity,
        released_all(b, ids).next_id == b.next_id,
        released_all(b, ids).shutdown == b.shutdown,
        forall|id: u64|
            #[trigger] released_all(b, ids).live.contains_key(id) <==> b.live.contains_key(id) && !(
            is_waiting(b, id) && ids.contains(id)),
        forall|id: u64| #[trigger]
            released_all(b, ids).live.contains_key(id) ==> released_all(b, ids).live[id]
                == b.live[id],
    decreases ids.len(),
{
    if ids.len() > 0 {
        let rest = ids.drop_last();
        lemma_released_all_ok(b, rest);
        let mid = released_all(b, rest);
        lemma_released_ok(mid, ids.last());
        assert forall|id: u64| ids.contains(id) <==> rest.contains(id) || id == ids.last() by {
            if ids.contains(id) && id != ids.last() {
                let k = choose|k: int| 0 <= k < ids.len() && ids[k] == id;
                assert(rest[k] == id);
            }
            if rest.contains(id) {
                let k = choose|k: int| 0 <= k < rest.len() && rest[k] == id;
                assert(ids[k] == id);
            }
            assert(ids[ids.len() - 1] == ids.last());
        }
    }
}

impl SessionBoard {
    /// Board with room for `queue_capacity` unfinished requests, but at least one.
    pub fn new(queue_capacity: usize) -> (r: Self)
        ensures
            board_ok(r@),
            r@ == (BoardView {
                capacity: if queue_capacity == 0 {
                    1
                } else {
                    queue_capacity as nat
                },
                next_id: 0,
                live: Map::empty(),
                queue: Seq::empty(),
                shutdown: false,
            }),
    {
        let capacity: usize = if queue_capacity == 0 {
            1
        } else {
            queue_capacity
        };
        let r = SessionBoard {
            capacity,
            next_id: 0,
            live: HashMap::new(),
            queue: Vec::new(),
            shutdown: false,
        };
        assert(r@.live =~= Map::empty());
        assert(r@.live.dom() =~= Set::empty());
        r
    }

    /// Whether admission has been stopped.
    pub fn is_shutdown(&self) -> (r: bool)
        ensures
            r == self@.shutdown,
    {
        self.shutdown
    }

    /// Number of requests that wait in the queue.
    pub fn queued_len(&self) -> (r: usize)
        ensures
            r == self@.queue.len(),
    {
        self.queue.len()
    }

    /// Whether there is a number left for another request.
    pub fn has_number(&self) -> (r: bool)
        ensures
            r == (self@.next_id < u64::MAX),
    {
        self.next_id < u64::MAX
    }

    /// Admits a request and puts it at the end of the queue.
    pub fn enlist(&mut self) -> (r: Result<u64, EdtSessionError>)
        requires
            board_ok(old(self)@),
            admission_refusal(old(self)@) is None ==> old(self)@.next_id < u64::MAX,
        ensures
            board_ok(final(self)@),
            match r {
                Ok(id) => {
                    &&& admission_refusal(old(self)@) is None
                    &&& id == old(self)@.next_id
                    &&& final(self)@ == (BoardView {
                        next_id: old(self)@.next_id + 1,
                        live: old(self)@.live.insert(id, false),
                        queue: old(self)@.queue.push(id),
                        ..old(self)@
                    })
                },
                Err(e) => {
                    &&& admission_refusal(old(self)@) == Some(e@)
                    &&& final(self)@ == old(self)@
                },
            },
    {
        if self.shutdown {
            return Err(
                EdtSessionError::DrainedByRestartOrShutdown {
                    reason: EdtSessionDrainReason::Shutdown,
                },
            );
        }
        if self.live.len() >= self.capacity {
            return Err(EdtSessionError::QueueFull);
        }
        let id: u64 = self.next_id;
        self.next_id = id + 1;
        self.live.insert(id, false);
        self.queue.push(id);
        proof {
            let q = self@.queue;
            assert forall|i: int, j: int| 0 <= i < q.len() && 0 <= j < q.len() && i != j implies q[i]
                != q[j] by {
                let o = old(self)@.queue;
                if i < o.len() {
                    assert(o[i] < id);
                }
                if j < o.len() {
                    assert(o[j] < id);
                }
            }
        }
        Ok(id)
    }

    /// Withdraws a request that has not been started. Tells whether it was still waiting.
    pub fn release_queued(&mut self, id: u64) -> (r: bool)
        requires
            board_ok(old(self)@),
        ensures
            board_ok(final(self)@),
            r == is_waiting(old(self)@, id),
            final(self)@ == released(old(self)@, id),
    {
        let waiting = match self.live.get(&id) {
            Some(running) => !*running,
            None => false,
        };
        if waiting {
            self.live.remove(&id);
        }
        proof {
            lemma_released_ok(old(self)@, id);
        }
        waiting
    }

    /// Starts a request that is still waiting. Tells whether it was.
    pub fn try_mark_running(&mut self, id: u64) -> (r: bool)
        requires
            board_ok(old(self)@),
        ensures
            board_ok(final(self)@),
            r == is_waiting(old(self)@, id),
            final(self)@ == (if is_waiting(old(self)@, id) {
                BoardView { live: old(self)@.live.insert(id, true), ..old(self)@ }
            } else {
                old(self)@
            }),
    {
        let waiting = match self.live.get(&id) {
            Some(running) => !*running,
            None => false,
        };
        if waiting {
            self.live.insert(id, true);
            assert(self@.live.dom() =~= old(self)@.live.dom());
        }
        waiting
    }

    /// Whether the request is running.
    pub fn is_running(&self, id: u64) -> (r: bool)
        ensures
            r == is_active(self@, id),
    {
        match self.live.get(&id) {
            Some(running) => *running,
            None => false,
        }
    }

    /// Whether the request has been released or finished.
    pub fn is_finished(&self, id: u64) -> (r: bool)
        ensures
            r == !self@.live.contains_key(id),
    {
        !self.live.contains_key(&id)
    }

    /// Finishes a request, whatever its stage.
    pub fn finish(&mut self, id: u64)
        requires
            board_ok(old(self)@),
        ensures
            board_ok(final(self)@),
            final(self)@ == (BoardView { live: old(self)@.live.remove(id), ..old(self)@ }),
    {
        self.live.remove(&id);
        proof {
            if !old(self)@.live.contains_key(id) {
                assert(old(self)@.live.remove(id) =~= old(self)@.live);
            }
        }
    }

    /// Takes the request out of the queue. Tells whether it was there.
    pub fn remove_queued(&mut self, id: u64) -> (r: bool)
        requires
            board_ok(old(self)@),
        ensures
            board_ok(final(self)@),
            r == old(self)@.queue.contains(id),
            final(self)@ == (BoardView { queue: without(old(self)@.queue, id), ..old(self)@ }),
    {
        let ghost q = self.queue@;
        let mut i: usize = 0;
        while i < self.queue.len()
            invariant
                i <= self.queue.len(),
                self.queue@ == q,
                self@ == old(self)@,
                old(self)@.queue == q,
                board_ok(old(self)@),
                forall|k: int| 0 <= k < i ==> q[k] != id,
            decreases self.queue.len() - i,
        {
            if self.queue[i] == id {
                proof {
                    assert(q[i as int] == id);
                    lemma_without_found(q, id, i as int);
                }
                self.queue.remove(i);
                proof {
                    let n = self@.queue;
                    assert forall|a: int| 0 <= a < n.len() implies #[trigger] n[a]
                        < self@.next_id by {
                        assert(n[a] == q[if a < i { a } else { a + 1 }]);
                    }
                    assert(n.no_duplicates());
                }
                return true;
            }
            i += 1;
        }
        proof {
            lemma_without_missing(q, id);
        }
        false
    }

    /// Takes up the request that has waited longest.
    pub fn next_request(&mut self) -> (r: Option<u64>)
        requires
            board_ok(old(self)@),
        ensures
            board_ok(final(self)@),
            match r {
                Some(id) => old(self)@.queue.len() > 0 && id == old(self)@.queue[0] && final(self)@
                    == (BoardView {
                    queue: old(self)@.queue.subrange(1, old(self)@.queue.len() as int),
                    ..old(self)@
                }),
                None => old(self)@.queue.len() == 0 && final(self)@ == old(self)@,
            },
    {
        if self.queue.len() == 0 {
            return None;
        }
        let ghost q = self.queue@;
        let id = self.queue.remove(0);
        proof {
            assert(self.queue@ =~= q.subrange(1, q.len() as int));
            let n = self@.queue;
            assert forall|a: int| 0 <= a < n.len() implies #[trigger] n[a] < self@.next_id by {
                assert(n[a] == q[a + 1]);
            }
        }
        Some(id)
    }

    /// Empties the queue and withdraws its requests, which are returned in order.
    pub fn drain_pending(&mut self) -> (r: Vec<u64>)
        requires
            board_ok(old(self)@),
        ensures
            board_ok(final(self)@),
            r@ == old(self)@.queue,
            final(self)@ == drained(old(self)@),
    {
        let ghost start = BoardView { queue: Seq::empty(), ..self@ };
        let mut ids: Vec<u64> = Vec::new();
        ids.append(&mut self.queue);
        assert(ids@ =~= old(self)@.queue);
        let mut i: usize = 0;
        assert(ids@.take(0) =~= Seq::empty());
        assert(self@ =~= start);
        while i < ids.len()
            invariant
                i <= ids.len(),
                board_ok(self@),
                self@ == released_all(start, ids@.take(i as int)),
            decreases ids.len() - i,
        {
            let ghost next = ids@.take(i + 1);
            assert(next.drop_last() =~= ids@.take(i as int));
            self.release_queued(ids[i]);
            i += 1;
        }
        assert(ids@.take(ids@.len() as int) =~= ids@);
        ids
    }

    /// Stops admission. Tells whether it was open.
    pub fn begin_shutdown(&mut self) -> (r: bool)
        requires
            board_ok(old(self)@),
        ensures
            board_ok(final(self)@),
            r == !old(self)@.shutdown,
            final(self)@ == (BoardView { shutdown: true, ..old(self)@ }),
    {
        let first = !self.shutdown;
        self.shutdown = true;
        first
    }
}

/// Queue without the request.
pub open spec fn without(queue: Seq<u64>, id: u64) -> Seq<u64> {
    queue.filter(|x: u64| x != id)
}

proof fn lemma_without_missing(q: Seq<u64>, id: u64)
    requires
        !q.contains(id),
    ensures
        without(q, id) == q,
    decreases q.len(),
{
    reveal(Seq::filter);
    if q.len() > 0 {
        let rest = q.drop_last();
        assert forall|k: int| 0 <= k < rest.len() implies rest[k] != id by {
            assert(q[k] != id);
        }
        lemma_without_missing(rest, id);
        assert(q.contains(q.last()));
        assert(q =~= rest.push(q.last()));
    } else {
        assert(without(q, id) =~= q);
    }
}

proof fn lemma_without_drops(q: Seq<u64>, id: u64)
    ensures
        !without(q, id).contains(id),
    decreases q.len(),
{
    reveal(Seq::filter);
    if q.len() > 0 {
        let rest = q.drop_last();
        lemma_without_drops(rest, id);
        if without(q, id).contains(id) {
            let k = choose|k: int| 0 <= k < without(q, id).len() && without(q, id)[k] == id;
            if k < without(rest, id).len() {
                assert(without(rest, id)[k] == id);
            }
        }
    }
}

proof fn lemma_without_found(q: Seq<u64>, id: u64, i: int)
    requires
        0 <= i < q.len(),
        q[i] == id,
        q.no_duplicates(),
    ensures
        without(q, id) == q.remove(i),
    decreases q.len(),
{
    reveal(Seq::filter);
    let rest = q.drop_last();
    if i == q.len() - 1 {
        assert forall|k: int| 0 <= k < rest.len() implies rest[k] != id by {
            assert(q[k] != q[i]);
        }
        lemma_without_missing(rest, id);
        assert(rest =~= q.remove(i));
    } else {
        assert(rest[i] == id);
        assert(q.last() != id);
        lemma_without_found(rest, id, i);
        assert(rest.remove(i).push(q.last()) =~= q.remove(i));
    }
}

// ---------------------------------------------------------------------------------------------
// The waiting caller

/// What the caller of a request observes while it waits. Where several things hold at once, the
/// earlier in this list counts.
#[derive(Debug, PartialEq, Eq)]
pub enum CallerEvent {
    /// The worker has answered, or dropped the request without an answer.
    Response(Option<Result<EdtSessionResponse, EdtSessionError>>),
    /// The request has been cancelled.
    Cancelled,
    /// The request's deadline has passed.
    DeadlinePassed,
    /// The session is shutting down.
    ShuttingDown,
}

/// Mathematical value of [`CallerEvent`].
pub enum CallerEventView {
    Response(Option<Result<EdtSessionResponseView, EdtSessionErrorView>>),
    Cancelled,
    DeadlinePassed,
    ShuttingDown,
}

impl View for CallerEvent {
    type V = CallerEventView;

    open spec fn view(&self) -> CallerEventView {
        match *self {
            CallerEvent::Response(x0) => CallerEventView::Response(
                match x0 {
                    Some(x) => Some(result_view(x)),
                    None => None,
                },
            ),
            CallerEvent::Cancelled => CallerEventView::Cancelled,
            CallerEvent::DeadlinePassed => CallerEventView::DeadlinePassed,
            CallerEvent::ShuttingDown => CallerEventView::ShuttingDown,
        }
    }
}

/// What the caller does.
#[derive(Debug, PartialEq, Eq)]
pub enum CallerAction {
    /// Return the result; the request is over.
    Ready { result: Result<EdtSessionResponse, EdtSessionError> },
    /// Return the result while the request is still running.
    Abandon { result: Result<EdtSessionResponse, EdtSessionError> },
    /// Go on waiting.
    Wait,
    /// Go on waiting without looking at the shutdown any more.
    WaitPastShutdown,
}

/// Mathematical value of [`CallerAction`].
pub enum CallerActionView {
    Ready { result: Result<EdtSessionResponseView, EdtSessionErrorView> },
    Abandon { result: Result<EdtSessionResponseView, EdtSessionErrorView> },
    Wait,
    WaitPastShutdown,
}

impl View for CallerAction {
    type V = CallerActionView;

    open spec fn view(&self) -> CallerActionView {
        match *self {
            CallerAction::Ready { result } => CallerActionView::Ready {
                result: result_view(result),
            },
            CallerAction::Abandon { result } => CallerActionView::Abandon {
                result: result_view(result),
            },
            CallerAction::Wait => CallerActionView::Wait,
            CallerAction::WaitPastShutdown => CallerActionView::WaitPastShutdown,
        }
    }
}

/// Board and action after a withdrawal: a waiting request leaves the board with `queued`, a running
/// one is abandoned with `running`, anything else is answered by the worker.
pub open spec fn withdrawn(
    b: BoardView,
    id: u64,
    queued: EdtSessionErrorView,
    running: EdtSessionErrorView,
) -> (BoardView, CallerActionView) {
    if is_waiting(b, id) {
        (
            BoardView { queue: without(b.queue, id), ..released(b, id) },
            CallerActionView::Ready { result: Err(queued) },
        )
    } else if is_active(b, id) {
        (b, CallerActionView::Abandon { result: Err(running) })
    } else {
        (b, CallerActionView::Wait)
    }
}

/// Board and action after the caller's observation.
pub open spec fn caller_step(b: BoardView, id: u64, event: CallerEventView) -> (
    BoardView,
    CallerActionView,
) {
    match event {
        CallerEventView::Response(Some(result)) => (b, CallerActionView::Ready { result }),
        CallerEventView::Response(None) => (
            b,
            CallerActionView::Ready {
                result: Err(
                    EdtSessionErrorView::InternalFailure {
                        message: "shared EDT worker dropped response channel"@,
                    },
                ),
            },
        ),
        CallerEventView::Cancelled => withdrawn(
            b,
            id,
            EdtSessionErrorView::QueuedCancelled,
            EdtSessionErrorView::RunningCancelled,
        ),
        CallerEventView::DeadlinePassed => withdrawn(
            b,
            id,
            EdtSessionErrorView::QueuedTimeout,
            EdtSessionErrorView::RunningTimeout,
        ),
        CallerEventView::ShuttingDown => if is_waiting(b, id) {
            (
                BoardView { queue: without(b.queue, id), ..released(b, id) },
                CallerActionView::Ready {
                    result: Err(
                        EdtSessionErrorView::DrainedByRestartOrShutdown {
                            reason: EdtSessionDrainReason::Shutdown,
                        },
                    ),
                },
            )
        } else {
            (b, CallerActionView::WaitPastShutdown)
        },
    }
}

impl SessionBoard {
    fn withdraw(&mut self, id: u64, queued: EdtSessionError, running: EdtSessionError) -> (r:
        CallerAction)
        requires
            board_ok(old(self)@),
        ensures
            board_ok(final(self)@),
            (final(self)@, r@) == withdrawn(old(self)@, id, queued@, running@),
    {
        if self.release_queued(id) {
            let _removed = self.remove_queued(id);
            return CallerAction::Ready { result: Err(queued) };
        }
        if self.is_running(id) {
            return CallerAction::Abandon { result: Err(running) };
        }
        CallerAction::Wait
    }

    /// Takes in what the caller of request `id` observes.
    pub fn execute_observed(&mut self, id: u64, event: CallerEvent) -> (r: CallerAction)
        requires
            board_ok(old(self)@),
        ensures
            board_ok(final(self)@),
            (final(self)@, r@) == caller_step(old(self)@, id, event@),
    {
        match event {
            CallerEvent::Response(Some(result)) => CallerAction::Ready { result },
            CallerEvent::Response(None) => CallerAction::Ready {
                result: Err(
                    EdtSessionError::InternalFailure {
                        message: "shared EDT worker dropped response channel".to_owned(),
                    },
                ),
            },
            CallerEvent::Cancelled => self.withdraw(
                id,
                EdtSessionError::QueuedCancelled,
                EdtSessionError::RunningCancelled,
            ),
            CallerEvent::DeadlinePassed => self.withdraw(
                id,
                EdtSessionError::QueuedTimeout,
                EdtSessionError::RunningTimeout,
            ),
            CallerEvent::ShuttingDown => {
                if self.release_queued(id) {
                    let _removed = self.remove_queued(id);
                    CallerAction::Ready {
                        result: Err(
                            EdtSessionError::DrainedByRestartOrShutdown {
                                reason: EdtSessionDrainReason::Shutdown,
                            },
                        ),
                    }
                } else {
                    CallerAction::WaitPastShutdown
                }
            },
        }
    }
}

// ---------------------------------------------------------------------------------------------
// Laws

/// A request is either withdrawn or started, never both: once it has been withdrawn it can no
/// longer be started, and once it has been started it can no longer be withdrawn.
pub proof fn withdrawn_or_started(b: BoardView, id: u64)
    requires
        is_waiting(b, id),
    ensures
        !is_waiting(released(b, id), id),
        !is_waiting(BoardView { live: b.live.insert(id, true), ..b }, id),
{
}

/// A request that a caller withdraws leaves neither an admission nor a place in the queue behind.
pub proof fn withdrawal_leaves_nothing_behind(b: BoardView, id: u64, event: CallerEventView)
    requires
        board_ok(b),
        is_waiting(b, id),
        !(event is Response),
    ensures
        !caller_step(b, id, event).0.live.contains_key(id),
        !caller_step(b, id, event).0.queue.contains(id),
        caller_step(b, id, event).0.live.dom().len() == b.live.dom().len() - 1,
{
    lemma_without_drops(b.queue, id);
}

/// A full board refuses the next request, and one whose admission was stopped refuses every request.
/// A running request counts until it is finished, even where its caller no longer waits for it.
pub proof fn full_board_refuses(b: BoardView, id: u64, event: CallerEventView)
    requires
        board_ok(b),
        b.live.dom().len() == b.capacity,
        is_active(b, id),
    ensures
        admission_refusal(b) == Some(
            if b.shutdown {
                EdtSessionErrorView::DrainedByRestartOrShutdown {
                    reason: EdtSessionDrainReason::Shutdown,
                }
            } else {
                EdtSessionErrorView::QueueFull
            },
        ),
        admission_refusal(caller_step(b, id, event).0) == admission_refusal(b),
{
}

/// A full board whose caller withdraws a request that was not started admits the next one.
pub proof fn withdrawn_request_makes_room(b: BoardView, id: u64, event: CallerEventView)
    requires
        board_ok(b),
        !b.shutdown,
        is_waiting(b, id),
        !(event is Response),
    ensures
        admission_refusal(caller_step(b, id, event).0) is None,
{
    withdrawal_leaves_nothing_behind(b, id, event);
}

/// An admission is free again as soon as its request is finished: a full board admits the next
/// request.
pub proof fn finished_request_makes_room(b: BoardView, id: u64)
    requires
        board_ok(b),
        !b.shutdown,
        b.live.contains_key(id),
    ensures
        admission_refusal(BoardView { live: b.live.remove(id), ..b }) is None,
{
}

/// Draining leaves the queue empty and none of its requests waiting, and touches no other request.
pub proof fn draining_releases_the_queue(b: BoardView)
    requires
        board_ok(b),
    ensures
        drained(b).queue.len() == 0,
        forall|id: u64| b.queue.contains(id) ==> !is_waiting(drained(b), id),
        forall|id: u64| !b.queue.contains(id) ==> (drained(b).live.contains_key(id)
            <==> b.live.contains_key(id)),
{
    let start = BoardView { queue: Seq::empty(), ..b };
    assert(board_ok(start));
    lemma_released_all_ok(start, b.queue);
    assert forall|id: u64| b.queue.contains(id) implies !is_waiting(drained(b), id) by {
        if drained(b).live.contains_key(id) {
            assert(released_all(start, b.queue).live.contains_key(id));
        }
    }
    assert forall|id: u64| !b.queue.contains(id) implies (drained(b).live.contains_key(id)
        <==> b.live.contains_key(id)) by {
        assert(released_all(start, b.queue).live.contains_key(id) <==> start.live.contains_key(id)
            && !(is_waiting(start, id) && b.queue.contains(id)));
    }
}

} // verus!
