//! State of one interactive session and the decisions taken while it waits for a prompt.

use vstd::prelude::*;
use crate::outside::{decode_lossy, lossy_text};
use crate::platform::interactive::{
    default_prompt, default_prompt_bytes, IO_POLL_INTERVAL_MS, InteractiveProcessError,
    InteractiveProcessErrorView, InteractiveStream,
};
use crate::platform::process::{
    ProcessExecutionPolicy, ProcessInterruptionReason, ProcessInterruptionSafety,
};
use crate::platform::process_run::{exit_code_of, reported_code, ChildStatus, ChildStatusView};
use crate::platform::prompt::{
    consume_until_prompt, consumed, flush_completed_bytes, flush_pending, fresh_after, kept,
    last_prompt, prompt_does_not_depend_on_the_split, settled, settling_in_steps_comes_to_the_same,
};
use crate::text::views;
use crate::time::{millis_span, shorter, time_until, whole_millis, Moment, Span};

verus! {

/// What the wait is for.
#[derive(Debug, PartialEq, Eq)]
pub enum WaitMode {
    /// First prompt after the start of the process.
    Startup,
    /// Prompt after a command.
    Command { command: String },
}

/// Mathematical value of [`WaitMode`].
pub enum WaitModeView {
    Startup,
    Command { command: Seq<char> },
}

impl View for WaitMode {
    type V = WaitModeView;

    open spec fn view(&self) -> WaitModeView {
        match *self {
            WaitMode::Startup => WaitModeView::Startup,
            WaitMode::Command { command } => WaitModeView::Command { command: command@ },
        }
    }
}

/// What a stream reader delivers.
#[derive(Debug, PartialEq, Eq)]
pub enum ReaderEvent {
    Chunk(InteractiveStream, Vec<u8>),
    Closed,
    ReadError(InteractiveStream, String),
}

/// Mathematical value of [`ReaderEvent`].
pub enum ReaderEventView {
    Chunk(InteractiveStream, Seq<u8>),
    Closed,
    ReadError(InteractiveStream, Seq<char>),
}

impl View for ReaderEvent {
    type V = ReaderEventView;

    open spec fn view(&self) -> ReaderEventView {
        match *self {
            ReaderEvent::Chunk(x0, x1) => ReaderEventView::Chunk(x0, x1@),
            ReaderEvent::Closed => ReaderEventView::Closed,
            ReaderEvent::ReadError(x0, x1) => ReaderEventView::ReadError(x0, x1@),
        }
    }
}

/// Executor of prompt-delimited commands: one session with an interactive process.
#[derive(Debug, PartialEq, Eq)]
pub struct InteractiveProcessExecutor {
    /// Identifier of the child.
    pub child_id: u32,
    /// Prompt token.
    pub prompt: Vec<u8>,
    /// Stdout bytes that have not been settled.
    pub stdout_pending: Vec<u8>,
    /// Stderr bytes that have not been settled.
    pub stderr_pending: Vec<u8>,
    /// The stdout bytes that have not been settled begin a line.
    pub stdout_fresh: bool,
    /// The stderr bytes that have not been settled begin a line.
    pub stderr_fresh: bool,
    /// Stdout of the current wait.
    pub stdout: Vec<u8>,
    /// Stderr of the current wait.
    pub stderr: Vec<u8>,
    /// The child has not been given up.
    pub live: bool,
    /// The child's stdin is open.
    pub stdin_open: bool,
    /// A failure has made the session unusable.
    pub poisoned: bool,
    /// The child has been terminated.
    pub terminated: bool,
}

/// Mathematical value of [`InteractiveProcessExecutor`].
pub struct InteractiveSessionView {
    pub child_id: u32,
    pub prompt: Seq<u8>,
    pub stdout_pending: Seq<u8>,
    pub stderr_pending: Seq<u8>,
    pub stdout_fresh: bool,
    pub stderr_fresh: bool,
    pub stdout: Seq<u8>,
    pub stderr: Seq<u8>,
    pub live: bool,
    pub stdin_open: bool,
    pub poisoned: bool,
    pub terminated: bool,
}

impl View for InteractiveProcessExecutor {
    type V = InteractiveSessionView;

    open spec fn view(&self) -> InteractiveSessionView {
        InteractiveSessionView {
            child_id: self.child_id,
            prompt: self.prompt@,
            stdout_pending: self.stdout_pending@,
            stderr_pending: self.stderr_pending@,
            stdout_fresh: self.stdout_fresh,
            stderr_fresh: self.stderr_fresh,
            stdout: self.stdout@,
            stderr: self.stderr@,
            live: self.live,
            stdin_open: self.stdin_open,
            poisoned: self.poisoned,
            terminated: self.terminated,
        }
    }
}

// ---------------------------------------------------------------------------------------------
// State changes

/// State after the prompt has been taken out of stdout or, failing that, out of stderr.
pub open spec fn prompt_taken(s: InteractiveSessionView) -> Option<InteractiveSessionView> {
    match consumed(s.stdout_fresh, s.stdout_pending, s.stdout, s.prompt) {
        Some((rest, out)) => Some(
            InteractiveSessionView {
                stdout_fresh: true,
                stdout_pending: rest,
                stdout: out,
                ..s
            },
        ),
        None => match consumed(s.stderr_fresh, s.stderr_pending, s.stderr, s.prompt) {
            Some((rest, out)) => Some(
                InteractiveSessionView {
                    stderr_fresh: true,
                    stderr_pending: rest,
                    stderr: out,
                    ..s
                },
            ),
            None => None,
        },
    }
}

/// State after everything that cannot belong to a coming prompt has moved to the output.
pub open spec fn settled_streams(s: InteractiveSessionView) -> InteractiveSessionView {
    InteractiveSessionView {
        stdout: s.stdout + settled(s.stdout_pending, s.prompt.len()),
        stdout_pending: kept(s.stdout_pending, s.prompt.len()),
        stderr: s.stderr + settled(s.stderr_pending, s.prompt.len()),
        stderr_pending: kept(s.stderr_pending, s.prompt.len()),
        stdout_fresh: fresh_after(s.stdout_fresh, settled(s.stdout_pending, s.prompt.len())),
        stderr_fresh: fresh_after(s.stderr_fresh, settled(s.stderr_pending, s.prompt.len())),
        ..s
    }
}

/// State after all pending bytes have moved to the output.
pub open spec fn flushed(s: InteractiveSessionView) -> InteractiveSessionView {
    InteractiveSessionView {
        stdout: s.stdout + s.stdout_pending,
        stdout_pending: Seq::empty(),
        stderr: s.stderr + s.stderr_pending,
        stderr_pending: Seq::empty(),
        stdout_fresh: fresh_after(s.stdout_fresh, s.stdout_pending),
        stderr_fresh: fresh_after(s.stderr_fresh, s.stderr_pending),
        ..s
    }
}

/// State at the beginning of a wait: the output of the previous one is forgotten, and what comes
/// begins a line, unless bytes are left over that do not.
pub open spec fn waiting_anew(s: InteractiveSessionView) -> InteractiveSessionView {
    InteractiveSessionView {
        stdout: Seq::empty(),
        stderr: Seq::empty(),
        stdout_fresh: s.stdout_fresh || s.stdout_pending.len() == 0,
        stderr_fresh: s.stderr_fresh || s.stderr_pending.len() == 0,
        ..s
    }
}

/// A session that has been given up has no child.
pub open spec fn is_coherent(s: InteractiveSessionView) -> bool {
    s.terminated ==> !s.live
}

/// State of a session whose child is gone.
pub open spec fn ended(s: InteractiveSessionView) -> InteractiveSessionView {
    InteractiveSessionView { live: false, stdin_open: false, terminated: true, ..s }
}

/// State of a session that is no longer usable.
pub open spec fn spoiled(s: InteractiveSessionView) -> InteractiveSessionView {
    InteractiveSessionView { poisoned: true, ..s }
}

/// State and failure after one reader event.
pub open spec fn fed(s: InteractiveSessionView, event: ReaderEventView) -> (
    InteractiveSessionView,
    Option<InteractiveProcessErrorView>,
) {
    match event {
        ReaderEventView::Chunk(InteractiveStream::Stdout, bytes) => (
            InteractiveSessionView { stdout_pending: s.stdout_pending + bytes, ..s },
            None,
        ),
        ReaderEventView::Chunk(InteractiveStream::Stderr, bytes) => (
            InteractiveSessionView { stderr_pending: s.stderr_pending + bytes, ..s },
            None,
        ),
        ReaderEventView::Closed => (s, None),
        ReaderEventView::ReadError(stream, message) => (
            spoiled(s),
            Some(InteractiveProcessErrorView::StreamReadFailed { stream, message }),
        ),
    }
}

/// State and failure after a row of reader events; the first failure ends the row.
pub open spec fn fed_all(s: InteractiveSessionView, events: Seq<ReaderEventView>) -> (
    InteractiveSessionView,
    Option<InteractiveProcessErrorView>,
)
    decreases events.len(),
{
    if events.len() == 0 {
        (s, None)
    } else {
        let (before, failure) = fed_all(s, events.drop_last());
        match failure {
            Some(_) => (before, failure),
            None => fed(before, events.last()),
        }
    }
}

/// Failure reported for a child that has exited.
pub open spec fn exit_failure(
    s: InteractiveSessionView,
    exit_code: i32,
) -> InteractiveProcessErrorView {
    InteractiveProcessErrorView::ProcessExited {
        exit_code,
        stdout: lossy_text(s.stdout),
        stderr: lossy_text(s.stderr),
    }
}

/// Status that counts: a session without a child counts as exited without a code.
pub open spec fn counted_status(live: bool, status: ChildStatusView) -> ChildStatusView {
    if live {
        status
    } else {
        ChildStatusView::Exited { code: None }
    }
}

impl InteractiveProcessExecutor {
    /// Session with a process that has just been started. An empty prompt stands for that of EDT.
    pub fn new(prompt: Vec<u8>, child_id: u32) -> (r: Self)
        ensures
            is_coherent(r@),
            r@ == (InteractiveSessionView {
                child_id,
                prompt: if prompt@.len() == 0 {
                    default_prompt()
                } else {
                    prompt@
                },
                stdout_pending: Seq::empty(),
                stderr_pending: Seq::empty(),
                stdout_fresh: true,
                stderr_fresh: true,
                stdout: Seq::empty(),
                stderr: Seq::empty(),
                live: true,
                stdin_open: true,
                poisoned: false,
                terminated: false,
            }),
    {
        let token = if prompt.len() == 0 {
            default_prompt_bytes()
        } else {
            prompt
        };
        InteractiveProcessExecutor {
            child_id,
            prompt: token,
            stdout_pending: Vec::new(),
            stderr_pending: Vec::new(),
            stdout_fresh: true,
            stderr_fresh: true,
            stdout: Vec::new(),
            stderr: Vec::new(),
            live: true,
            stdin_open: true,
            poisoned: false,
            terminated: false,
        }
    }

    /// Identifier of the child while the executor is live.
    pub fn pid(&self) -> (r: Option<u32>)
        ensures
            r == (if self@.live {
                Some(self@.child_id)
            } else {
                None
            }),
    {
        if self.live {
            Some(self.child_id)
        } else {
            None
        }
    }

    /// Forgets the output of the previous wait.
    pub fn begin_wait(&mut self)
        ensures
            final(self)@ == waiting_anew(old(self)@),
    {
        self.stdout.clear();
        self.stderr.clear();
        if self.stdout_pending.len() == 0 {
            self.stdout_fresh = true;
        }
        if self.stderr_pending.len() == 0 {
            self.stderr_fresh = true;
        }
    }

    /// Takes a prompt out of the pending bytes, if one ends a stream.
    fn take_prompt(&mut self) -> (r: bool)
        ensures
            match prompt_taken(old(self)@) {
                Some(s) => r && final(self)@ == s,
                None => !r && final(self)@ == old(self)@,
            },
    {
        if consume_until_prompt(
            &mut self.stdout_fresh,
            &mut self.stdout_pending,
            &mut self.stdout,
            &self.prompt,
        ) {
            true
        } else {
            consume_until_prompt(
                &mut self.stderr_fresh,
                &mut self.stderr_pending,
                &mut self.stderr,
                &self.prompt,
            )
        }
    }

    fn settle(&mut self)
        ensures
            final(self)@ == settled_streams(old(self)@),
    {
        let n: usize = self.prompt.len();
        flush_completed_bytes(
            &mut self.stdout_fresh,
            &mut self.stdout_pending,
            &mut self.stdout,
            n,
        );
        flush_completed_bytes(
            &mut self.stderr_fresh,
            &mut self.stderr_pending,
            &mut self.stderr,
            n,
        );
    }

    pub(crate) fn flush(&mut self)
        ensures
            final(self)@ == flushed(old(self)@),
    {
        flush_pending(&mut self.stdout_fresh, &mut self.stdout_pending, &mut self.stdout);
        flush_pending(&mut self.stderr_fresh, &mut self.stderr_pending, &mut self.stderr);
        assert(self.stdout_pending@ =~= Seq::<u8>::empty());
        assert(self.stderr_pending@ =~= Seq::<u8>::empty());
    }

    pub(crate) fn end(&mut self)
        ensures
            final(self)@ == ended(old(self)@),
    {
        self.live = false;
        self.stdin_open = false;
        self.terminated = true;
    }

    /// Takes in one reader event.
    pub fn apply_event(&mut self, event: ReaderEvent) -> (r: Result<(), InteractiveProcessError>)
        ensures
            final(self)@ == fed(old(self)@, event@).0,
            match r {
                Ok(_) => fed(old(self)@, event@).1 is None,
                Err(e) => fed(old(self)@, event@).1 == Some(e@),
            },
    {
        match event {
            ReaderEvent::Chunk(InteractiveStream::Stdout, bytes) => {
                let mut more = bytes;
                self.stdout_pending.append(&mut more);
                Ok(())
            },
            ReaderEvent::Chunk(InteractiveStream::Stderr, bytes) => {
                let mut more = bytes;
                self.stderr_pending.append(&mut more);
                Ok(())
            },
            ReaderEvent::Closed => Ok(()),
            ReaderEvent::ReadError(stream, message) => {
                self.poisoned = true;
                Err(InteractiveProcessError::StreamReadFailed { stream, message })
            },
        }
    }

    /// Takes in the reader events that are ready.
    fn drain_ready_events(&mut self, events: Vec<ReaderEvent>) -> (r: Result<
        (),
        InteractiveProcessError,
    >)
        ensures
            final(self)@ == fed_all(old(self)@, views(events@)).0,
            match r {
                Ok(_) => fed_all(old(self)@, views(events@)).1 is None,
                Err(e) => fed_all(old(self)@, views(events@)).1 == Some(e@),
            },
    {
        let ghost all = views(events@);
        assert(all.take(0) =~= Seq::empty());
        for event in it: events
            invariant
                all == views(it.seq()),
                self@ == fed_all(old(self)@, all.take(it.index())).0,
                fed_all(old(self)@, all.take(it.index())).1 is None,
        {
            let ghost k = it.index();
            proof {
                let next = all.take(k + 1);
                assert(next.drop_last() =~= all.take(k));
                assert(next.last() == event@);
            }
            match self.apply_event(event) {
                Ok(_) => {},
                Err(e) => {
                    proof {
                        lemma_first_failure_ends_row(old(self)@, all, k + 1);
                    }
                    return Err(e);
                },
            }
        }
        assert(all.take(all.len() as int) =~= all);
        Ok(())
    }
}

proof fn lemma_first_failure_ends_row(
    s: InteractiveSessionView,
    events: Seq<ReaderEventView>,
    k: int,
)
    requires
        0 <= k <= events.len(),
        fed_all(s, events.take(k)).1 is Some,
    ensures
        fed_all(s, events) == fed_all(s, events.take(k)),
    decreases events.len() - k,
{
    if k == events.len() {
        assert(events.take(k) =~= events);
    } else {
        assert(events.take(k + 1).drop_last() =~= events.take(k));
        lemma_first_failure_ends_row(s, events, k + 1);
    }
}


// ---------------------------------------------------------------------------------------------
// One turn of a prompt wait

/// What the world shows at the beginning of a turn.
#[derive(Debug, PartialEq, Eq)]
pub struct TurnInput {
    /// Current time.
    pub now: Moment,
    /// The command has been cancelled.
    pub cancelled: bool,
    /// State of the child.
    pub status: ChildStatus,
}

/// Mathematical value of [`TurnInput`].
pub struct TurnInputView {
    pub now: Moment,
    pub cancelled: bool,
    pub status: ChildStatusView,
}

impl View for TurnInput {
    type V = TurnInputView;

    open spec fn view(&self) -> TurnInputView {
        TurnInputView {
            now: self.now,
            cancelled: self.cancelled,
            status: self.status@,
        }
    }
}

/// A wait for the prompt.
#[derive(Debug, PartialEq, Eq)]
pub struct PromptWait {
    /// What the wait is for.
    pub mode: WaitMode,
    /// Time given to the wait.
    pub timeout: Span,
    /// End of that time.
    pub deadline: Moment,
    /// Interruption observed so far.
    pub observed: Option<ProcessInterruptionReason>,
}

/// Mathematical value of [`PromptWait`].
pub struct PromptWaitView {
    pub mode: WaitModeView,
    pub timeout: Span,
    pub deadline: Moment,
    pub observed: Option<ProcessInterruptionReason>,
}

impl View for PromptWait {
    type V = PromptWaitView;

    open spec fn view(&self) -> PromptWaitView {
        PromptWaitView {
            mode: self.mode@,
            timeout: self.timeout,
            deadline: self.deadline,
            observed: self.observed,
        }
    }
}

/// What to do after the first half of a turn.
#[derive(Debug, PartialEq, Eq)]
pub enum TurnAction {
    /// The prompt has been seen: gather what trails it, then conclude.
    Drain,
    /// Wait for one reader event.
    Receive { wait: Span },
    /// The child has exited: gather the reader events that are ready, then conclude.
    Gather { code: Option<i32> },
    /// The wait fails.
    Fail { error: InteractiveProcessError },
    /// Kill the child; the wait fails, with the failure of the kill where that fails.
    KillThenFail { error: InteractiveProcessError },
    /// Kill the child, whether that succeeds or not; the wait fails.
    TryKillThenFail { error: InteractiveProcessError },
    /// Shut the child down within the grace period; the wait fails.
    ShutdownThenFail { grace: Span, error: InteractiveProcessError },
}

/// Mathematical value of [`TurnAction`].
pub enum TurnActionView {
    Drain,
    Receive { wait: Span },
    Gather { code: Option<i32> },
    Fail { error: InteractiveProcessErrorView },
    KillThenFail { error: InteractiveProcessErrorView },
    TryKillThenFail { error: InteractiveProcessErrorView },
    ShutdownThenFail { grace: Span, error: InteractiveProcessErrorView },
}

impl View for TurnAction {
    type V = TurnActionView;

    open spec fn view(&self) -> TurnActionView {
        match *self {
            TurnAction::Drain => TurnActionView::Drain,
            TurnAction::Receive { wait } => TurnActionView::Receive { wait },
            TurnAction::Gather { code } => TurnActionView::Gather { code },
            TurnAction::Fail { error } => TurnActionView::Fail { error: error@ },
            TurnAction::KillThenFail { error } => TurnActionView::KillThenFail { error: error@ },
            TurnAction::TryKillThenFail { error } => TurnActionView::TryKillThenFail {
                error: error@,
            },
            TurnAction::ShutdownThenFail { grace, error } => TurnActionView::ShutdownThenFail {
                grace,
                error: error@,
            },
        }
    }
}

/// Failure of a wait that has run out of time.
pub open spec fn timeout_failure(
    s: InteractiveSessionView,
    wait: PromptWaitView,
) -> InteractiveProcessErrorView {
    match wait.mode {
        WaitModeView::Startup => InteractiveProcessErrorView::StartupTimeout {
            timeout_ms: whole_millis(wait.timeout),
            stdout: lossy_text(s.stdout),
            stderr: lossy_text(s.stderr),
        },
        WaitModeView::Command { command } => InteractiveProcessErrorView::CommandTimeout {
            command,
            timeout_ms: whole_millis(wait.timeout),
            stdout: lossy_text(s.stdout),
            stderr: lossy_text(s.stderr),
        },
    }
}

/// Second half of a turn whose child has exited: what is ready is taken in, a prompt is still taken
/// out, and the wait fails all the same.
pub open spec fn exit_turn(
    s: InteractiveSessionView,
    code: Option<i32>,
    ready: Seq<ReaderEventView>,
) -> (InteractiveSessionView, TurnActionView) {
    let (drained, failure) = fed_all(s, ready);
    match failure {
        Some(error) => (drained, TurnActionView::TryKillThenFail { error }),
        None => {
            let taken = match prompt_taken(drained) {
                Some(t) => t,
                None => drained,
            };
            let last = flushed(spoiled(ended(taken)));
            (last, TurnActionView::Fail { error: exit_failure(last, reported_code(code)) })
        },
    }
}

/// First half of a turn of a wait without a policy.
pub open spec fn plain_turn(
    s: InteractiveSessionView,
    wait: PromptWaitView,
    input: TurnInputView,
) -> (InteractiveSessionView, TurnActionView) {
    match prompt_taken(s) {
        Some(taken) => (taken, TurnActionView::Drain),
        None => {
            let held = settled_streams(s);
            if input.now.nanos >= wait.deadline.nanos {
                let last = flushed(held);
                (last, TurnActionView::KillThenFail { error: timeout_failure(last, wait) })
            } else {
                match counted_status(s.live, input.status) {
                    ChildStatusView::Unknown { source } => (
                        held,
                        TurnActionView::Fail {
                            error: InteractiveProcessErrorView::WaitFailed { source },
                        },
                    ),
                    ChildStatusView::Exited { code } => (held, TurnActionView::Gather { code }),
                    ChildStatusView::Running => (
                        held,
                        TurnActionView::Receive {
                            wait: shorter(time_until(wait.deadline, input.now), millis_span(10)),
                        },
                    ),
                }
            }
        },
    }
}

/// Interruption that a turn reveals: cancellation comes before the deadline.
pub open spec fn turn_interruption(wait: PromptWaitView, input: TurnInputView) -> Option<
    ProcessInterruptionReason,
> {
    if wait.observed is Some {
        None
    } else if input.cancelled {
        Some(ProcessInterruptionReason::Cancelled)
    } else if input.now.nanos >= wait.deadline.nanos {
        Some(ProcessInterruptionReason::TimedOut)
    } else {
        None
    }
}

/// Failure of an interrupted command.
pub open spec fn reason_failure(
    s: InteractiveSessionView,
    command: Seq<char>,
    timeout: Span,
    reason: ProcessInterruptionReason,
) -> InteractiveProcessErrorView {
    match reason {
        ProcessInterruptionReason::Cancelled => InteractiveProcessErrorView::CommandCancelled {
            command,
            stdout: lossy_text(s.stdout),
            stderr: lossy_text(s.stderr),
        },
        ProcessInterruptionReason::TimedOut => InteractiveProcessErrorView::CommandTimeout {
            command,
            timeout_ms: whole_millis(timeout),
            stdout: lossy_text(s.stdout),
            stderr: lossy_text(s.stderr),
        },
    }
}

/// State and action that an interruption calls for, `None` where the wait goes on.
pub open spec fn interrupted_turn(
    s: InteractiveSessionView,
    wait: PromptWaitView,
    policy: ProcessExecutionPolicy,
    reason: ProcessInterruptionReason,
) -> Option<(InteractiveSessionView, TurnActionView)> {
    match wait.mode {
        WaitModeView::Startup => None,
        WaitModeView::Command { command } => {
            let last = flushed(s);
            let error = reason_failure(last, command, wait.timeout, reason);
            match policy.safety {
                ProcessInterruptionSafety::CriticalNonAbortable => None,
                ProcessInterruptionSafety::Interruptible => Some(
                    (last, TurnActionView::KillThenFail { error }),
                ),
                ProcessInterruptionSafety::GracefulThenKill => Some(
                    (
                        last,
                        TurnActionView::ShutdownThenFail {
                            grace: policy.graceful_shutdown_timeout,
                            error,
                        },
                    ),
                ),
            }
        },
    }
}

/// First half of a turn of a wait under a policy: state, observed interruption and action.
pub open spec fn policy_turn(
    s: InteractiveSessionView,
    wait: PromptWaitView,
    policy: ProcessExecutionPolicy,
    input: TurnInputView,
) -> (InteractiveSessionView, Option<ProcessInterruptionReason>, TurnActionView) {
    match prompt_taken(s) {
        Some(taken) => (taken, wait.observed, TurnActionView::Drain),
        None => {
            let held = settled_streams(s);
            match counted_status(s.live, input.status) {
                ChildStatusView::Unknown { source } => (
                    held,
                    wait.observed,
                    TurnActionView::Fail {
                        error: InteractiveProcessErrorView::WaitFailed { source },
                    },
                ),
                ChildStatusView::Exited { code } => (
                    held,
                    wait.observed,
                    TurnActionView::Gather { code },
                ),
                ChildStatusView::Running => match turn_interruption(wait, input) {
                    Some(reason) => match interrupted_turn(held, wait, policy, reason) {
                        Some((last, action)) => (last, Some(reason), action),
                        None => (
                            held,
                            Some(reason),
                            TurnActionView::Receive { wait: millis_span(10) },
                        ),
                    },
                    None => (
                        held,
                        wait.observed,
                        TurnActionView::Receive {
                            wait: if wait.observed is Some {
                                millis_span(10)
                            } else {
                                shorter(time_until(wait.deadline, input.now), millis_span(10))
                            },
                        },
                    ),
                },
            }
        },
    }
}

/// Failure of an interrupted command.
pub fn interactive_error_from_reason(
    command: &str,
    timeout: Span,
    reason: ProcessInterruptionReason,
    stdout: &Vec<u8>,
    stderr: &Vec<u8>,
) -> (r: InteractiveProcessError)
    ensures
        r@ == (match reason {
            ProcessInterruptionReason::Cancelled => InteractiveProcessErrorView::CommandCancelled {
                command: command@,
                stdout: lossy_text(stdout@),
                stderr: lossy_text(stderr@),
            },
            ProcessInterruptionReason::TimedOut => InteractiveProcessErrorView::CommandTimeout {
                command: command@,
                timeout_ms: whole_millis(timeout),
                stdout: lossy_text(stdout@),
                stderr: lossy_text(stderr@),
            },
        }),
{
    match reason {
        ProcessInterruptionReason::Cancelled => InteractiveProcessError::CommandCancelled {
            command: command.to_owned(),
            stdout: decode_lossy(stdout),
            stderr: decode_lossy(stderr),
        },
        ProcessInterruptionReason::TimedOut => InteractiveProcessError::CommandTimeout {
            command: command.to_owned(),
            timeout_ms: timeout.as_millis(),
            stdout: decode_lossy(stdout),
            stderr: decode_lossy(stderr),
        },
    }
}

impl InteractiveProcessExecutor {
    /// Failure of a wait whose child has exited.
    pub(crate) fn exit_error(&self, exit_code: i32) -> (r: InteractiveProcessError)
        ensures
            r@ == exit_failure(self@, exit_code),
    {
        InteractiveProcessError::ProcessExited {
            exit_code,
            stdout: decode_lossy(&self.stdout),
            stderr: decode_lossy(&self.stderr),
        }
    }

    /// Second half of a turn whose child has exited.
    pub fn after_exit(&mut self, code: Option<i32>, ready: Vec<ReaderEvent>) -> (r: TurnAction)
        ensures
            (final(self)@, r@) == exit_turn(old(self)@, code, views(ready@)),
    {
        match self.drain_ready_events(ready) {
            Err(error) => TurnAction::TryKillThenFail { error },
            Ok(_) => {
                let _seen = self.take_prompt();
                self.end();
                self.poisoned = true;
                self.flush();
                TurnAction::Fail { error: self.exit_error(exit_code_of(code)) }
            },
        }
    }

    /// First half of a turn of a wait without a policy.
    pub fn wait_for_prompt(&mut self, wait: &PromptWait, input: TurnInput) -> (r: TurnAction)
        ensures
            (final(self)@, r@) == plain_turn(old(self)@, wait@, input@),
    {
        if self.take_prompt() {
            return TurnAction::Drain;
        }
        self.settle();
        if input.now.nanos >= wait.deadline.nanos {
            self.flush();
            let stdout = decode_lossy(&self.stdout);
            let stderr = decode_lossy(&self.stderr);
            let timeout_ms: u64 = wait.timeout.as_millis();
            let error = match &wait.mode {
                WaitMode::Startup => InteractiveProcessError::StartupTimeout {
                    timeout_ms,
                    stdout,
                    stderr,
                },
                WaitMode::Command { command } => InteractiveProcessError::CommandTimeout {
                    command: command.clone(),
                    timeout_ms,
                    stdout,
                    stderr,
                },
            };
            return TurnAction::KillThenFail { error };
        }
        let status = if self.live {
            input.status
        } else {
            ChildStatus::Exited { code: None }
        };
        match status {
            ChildStatus::Unknown { source } => TurnAction::Fail {
                error: InteractiveProcessError::WaitFailed { source },
            },
            ChildStatus::Exited { code } => TurnAction::Gather { code },
            ChildStatus::Running => TurnAction::Receive {
                wait: wait.deadline.since(input.now).min(Span::from_millis(IO_POLL_INTERVAL_MS)),
            },
        }
    }

    /// Action that an interruption calls for, `None` where the wait goes on.
    fn interrupt_with_policy(
        &mut self,
        wait: &PromptWait,
        policy: &ProcessExecutionPolicy,
        reason: ProcessInterruptionReason,
    ) -> (r: Option<TurnAction>)
        ensures
            match r {
                Some(action) => interrupted_turn(old(self)@, wait@, *policy, reason) == Some(
                    (final(self)@, action@),
                ),
                None => interrupted_turn(old(self)@, wait@, *policy, reason) is None && final(self)@
                    == old(self)@,
            },
    {
        let command = match &wait.mode {
            WaitMode::Startup => {
                return None;
            },
            WaitMode::Command { command } => command,
        };
        match policy.safety {
            ProcessInterruptionSafety::CriticalNonAbortable => None,
            ProcessInterruptionSafety::Interruptible => {
                self.flush();
                let error = interactive_error_from_reason(
                    command.as_str(),
                    wait.timeout,
                    reason,
                    &self.stdout,
                    &self.stderr,
                );
                Some(TurnAction::KillThenFail { error })
            },
            ProcessInterruptionSafety::GracefulThenKill => {
                self.flush();
                let error = interactive_error_from_reason(
                    command.as_str(),
                    wait.timeout,
                    reason,
                    &self.stdout,
                    &self.stderr,
                );
                Some(
                    TurnAction::ShutdownThenFail { grace: policy.graceful_shutdown_timeout, error },
                )
            },
        }
    }

    /// First half of a turn of a wait under an execution policy.
    pub fn wait_for_prompt_with_policy(
        &mut self,
        wait: &mut PromptWait,
        policy: &ProcessExecutionPolicy,
        input: TurnInput,
    ) -> (r: TurnAction)
        ensures
            final(wait)@ == (PromptWaitView { observed: final(wait)@.observed, ..old(wait)@ }),
            (final(self)@, final(wait)@.observed, r@) == policy_turn(
                old(self)@,
                old(wait)@,
                *policy,
                input@,
            ),
    {
        if self.take_prompt() {
            return TurnAction::Drain;
        }
        self.settle();
        let status = if self.live {
            input.status
        } else {
            ChildStatus::Exited { code: None }
        };
        match status {
            ChildStatus::Unknown { source } => {
                return TurnAction::Fail { error: InteractiveProcessError::WaitFailed { source } };
            },
            ChildStatus::Exited { code } => {
                return TurnAction::Gather { code };
            },
            ChildStatus::Running => {},
        }
        let due = if wait.observed.is_some() {
            None
        } else if input.cancelled {
            Some(ProcessInterruptionReason::Cancelled)
        } else if input.now.nanos >= wait.deadline.nanos {
            Some(ProcessInterruptionReason::TimedOut)
        } else {
            None
        };
        match due {
            Some(reason) => {
                let interrupted = self.interrupt_with_policy(wait, policy, reason);
                wait.observed = Some(reason);
                match interrupted {
                    Some(action) => action,
                    None => TurnAction::Receive { wait: Span::from_millis(IO_POLL_INTERVAL_MS) },
                }
            },
            None => if wait.observed.is_some() {
                TurnAction::Receive { wait: Span::from_millis(IO_POLL_INTERVAL_MS) }
            } else {
                TurnAction::Receive {
                    wait: wait.deadline.since(input.now).min(
                        Span::from_millis(IO_POLL_INTERVAL_MS),
                    ),
                }
            },
        }
    }
}

// ---------------------------------------------------------------------------------------------
// Laws

/// Bytes that an event brings on a stream.
pub open spec fn bytes_in(stream: InteractiveStream, event: ReaderEventView) -> Seq<u8> {
    match event {
        ReaderEventView::Chunk(own, bytes) => if own == stream {
            bytes
        } else {
            Seq::empty()
        },
        _ => Seq::empty(),
    }
}

/// Bytes of a stream among the first `k` reader events.
pub open spec fn bytes_on(
    stream: InteractiveStream,
    events: Seq<ReaderEventView>,
    k: int,
) -> Seq<u8>
    decreases k,
{
    if k <= 0 {
        Seq::empty()
    } else {
        bytes_on(stream, events, k - 1) + bytes_in(stream, events[k - 1])
    }
}

/// State of a wait after its first `k` reader events, each taken in by a turn of its own.
pub open spec fn held_after(
    s: InteractiveSessionView,
    events: Seq<ReaderEventView>,
    k: int,
) -> InteractiveSessionView
    decreases k,
{
    if k <= 0 {
        s
    } else {
        fed(settled_streams(held_after(s, events, k - 1)), events[k - 1]).0
    }
}

/// Nothing has been received, and what comes begins a line.
pub open spec fn is_quiet(s: InteractiveSessionView) -> bool {
    &&& s.stdout.len() == 0
    &&& s.stderr.len() == 0
    &&& s.stdout_pending.len() == 0
    &&& s.stderr_pending.len() == 0
    &&& s.stdout_fresh
    &&& s.stderr_fresh
}

proof fn lemma_fed_streams(s: InteractiveSessionView, event: ReaderEventView)
    ensures
        ({
            let now = fed(s, event).0;
            &&& now.prompt == s.prompt
            &&& now.stdout == s.stdout
            &&& now.stderr == s.stderr
            &&& now.stdout_fresh == s.stdout_fresh
            &&& now.stderr_fresh == s.stderr_fresh
            &&& now.stdout_pending == s.stdout_pending + bytes_in(InteractiveStream::Stdout, event)
            &&& now.stderr_pending == s.stderr_pending + bytes_in(InteractiveStream::Stderr, event)
        }),
{
    let now = fed(s, event).0;
    assert(now.stdout_pending =~= s.stdout_pending + bytes_in(InteractiveStream::Stdout, event));
    assert(now.stderr_pending =~= s.stderr_pending + bytes_in(InteractiveStream::Stderr, event));
}

/// Settled, a stream stands as if all its bytes had come at once.
proof fn lemma_streams_after(s: InteractiveSessionView, events: Seq<ReaderEventView>, k: int)
    requires
        is_quiet(s),
        0 <= k <= events.len(),
    ensures
        ({
            let now = settled_streams(held_after(s, events, k));
            let out = bytes_on(InteractiveStream::Stdout, events, k);
            let err = bytes_on(InteractiveStream::Stderr, events, k);
            let n = s.prompt.len();
            &&& now.prompt == s.prompt
            &&& now.stdout == settled(out, n)
            &&& now.stdout_pending == kept(out, n)
            &&& now.stdout_fresh == fresh_after(true, settled(out, n))
            &&& now.stderr == settled(err, n)
            &&& now.stderr_pending == kept(err, n)
            &&& now.stderr_fresh == fresh_after(true, settled(err, n))
        }),
    decreases k,
{
    let n = s.prompt.len();
    let none = Seq::<u8>::empty();
    if k <= 0 {
        assert(s.stdout_pending =~= none);
        assert(s.stderr_pending =~= none);
        assert(settled(none, n) =~= none);
        assert(s.stdout + none =~= none);
        assert(s.stderr + none =~= none);
    } else {
        lemma_streams_after(s, events, k - 1);
        let event = events[k - 1];
        lemma_fed_streams(settled_streams(held_after(s, events, k - 1)), event);
        let out = bytes_on(InteractiveStream::Stdout, events, k - 1);
        let err = bytes_on(InteractiveStream::Stderr, events, k - 1);
        settling_in_steps_comes_to_the_same(
            true,
            out,
            bytes_in(InteractiveStream::Stdout, event),
            n,
        );
        settling_in_steps_comes_to_the_same(
            true,
            err,
            bytes_in(InteractiveStream::Stderr, event),
            n,
        );
    }
}

/// Where the first bytes do not end with a prompt, the rest shows one exactly where the whole does.
proof fn lemma_rest_shows_prompt(first: Seq<u8>, rest: Seq<u8>, prompt: Seq<u8>)
    requires
        last_prompt(true, first, prompt) is None,
    ensures
        ({
            let head = settled(first, prompt.len());
            let tail = kept(first, prompt.len()) + rest;
            &&& consumed(fresh_after(true, head), tail, head, prompt) is Some <==> last_prompt(
                true,
                first + rest,
                prompt,
            ) is Some
            &&& head + tail == first + rest
        }),
{
    prompt_does_not_depend_on_the_split(true, first, rest, prompt);
    let head = settled(first, prompt.len());
    let tail = kept(first, prompt.len()) + rest;
    assert(head + tail =~= first + rest);
}

/// A wait sees a prompt exactly where one of its streams, taken as a whole, ends with one: it does
/// not matter how the output was cut into chunks, and text in the middle of a line is never taken
/// for a prompt. No byte is lost on the way.
pub proof fn prompt_is_seen_as_in_the_whole(
    s: InteractiveSessionView,
    events: Seq<ReaderEventView>,
    k: int,
)
    requires
        is_quiet(s),
        0 <= k <= events.len(),
        forall|j: int| 0 <= j < k ==> prompt_taken(#[trigger] held_after(s, events, j)) is None,
    ensures
        ({
            let now = held_after(s, events, k);
            let out = bytes_on(InteractiveStream::Stdout, events, k);
            let err = bytes_on(InteractiveStream::Stderr, events, k);
            &&& prompt_taken(now) is Some <==> last_prompt(true, out, s.prompt) is Some
                || last_prompt(true, err, s.prompt) is Some
            &&& now.stdout + now.stdout_pending == out
            &&& now.stderr + now.stderr_pending == err
        }),
    decreases k,
{
    if k <= 0 {
        let none = Seq::<u8>::empty();
        assert(s.stdout_pending =~= none);
        assert(s.stderr_pending =~= none);
        assert(s.stdout + s.stdout_pending =~= none);
        assert(s.stderr + s.stderr_pending =~= none);
    } else {
        prompt_is_seen_as_in_the_whole(s, events, k - 1);
        assert(prompt_taken(held_after(s, events, k - 1)) is None);
        lemma_streams_after(s, events, k - 1);
        let event = events[k - 1];
        lemma_fed_streams(settled_streams(held_after(s, events, k - 1)), event);
        lemma_rest_shows_prompt(
            bytes_on(InteractiveStream::Stdout, events, k - 1),
            bytes_in(InteractiveStream::Stdout, event),
            s.prompt,
        );
        lemma_rest_shows_prompt(
            bytes_on(InteractiveStream::Stderr, events, k - 1),
            bytes_in(InteractiveStream::Stderr, event),
            s.prompt,
        );
    }
}

} // verus!
