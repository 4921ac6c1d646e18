//! Admission of commands, the second half of a wait turn, and the end of an interactive session.

use vstd::prelude::*;
use crate::outside::{decode_lossy, lossy_text};
use crate::platform::interactive::{
    IO_POLL_INTERVAL_MS, InteractiveCommandExecution, InteractiveCommandOutput,
    InteractiveCommandOutputView, InteractiveProcessError, InteractiveProcessErrorView,
    ShutdownOutcome,
};
use crate::platform::interactive_session::{
    counted_status, ended, exit_failure, exit_turn, fed, fed_all, flushed, is_quiet, plain_turn,
    policy_turn, spoiled, waiting_anew, InteractiveProcessExecutor, InteractiveSessionView,
    PromptWaitView, ReaderEvent, ReaderEventView, TurnActionView, TurnInputView,
};
use crate::platform::process::{
    ProcessExecutionPolicy, ProcessInterruption, ProcessInterruptionAction,
    ProcessInterruptionReason, ProcessInterruptionSafety,
};
use crate::platform::process_run::{exit_code_of, reported_code, ChildStatus, ChildStatusView};
use crate::time::{millis_span, shorter, time_until, Moment, Span};

verus! {

/// Failure of a command that the session must not take.
pub open spec fn command_refusal(s: InteractiveSessionView) -> Option<InteractiveProcessErrorView> {
    if s.poisoned {
        Some(InteractiveProcessErrorView::Poisoned)
    } else if s.terminated || !s.live || !s.stdin_open {
        Some(InteractiveProcessErrorView::Terminated)
    } else {
        None
    }
}

/// Failure of a command that the session must not take under a policy. A session that is unusable
/// comes first, then cancellation, then a command without any time.
pub open spec fn policy_refusal(
    s: InteractiveSessionView,
    command: Seq<char>,
    timeout: Span,
    cancelled: bool,
) -> Option<InteractiveProcessErrorView> {
    if s.poisoned {
        Some(InteractiveProcessErrorView::Poisoned)
    } else if s.terminated || !s.live {
        Some(InteractiveProcessErrorView::Terminated)
    } else if cancelled {
        Some(
            InteractiveProcessErrorView::CommandCancelled {
                command,
                stdout: Seq::empty(),
                stderr: Seq::empty(),
            },
        )
    } else if timeout.nanos == 0 {
        Some(
            InteractiveProcessErrorView::CommandTimeout {
                command,
                timeout_ms: 0,
                stdout: Seq::empty(),
                stderr: Seq::empty(),
            },
        )
    } else if !s.stdin_open {
        Some(InteractiveProcessErrorView::Terminated)
    } else {
        None
    }
}

/// What came of waiting for one reader event.
#[derive(Debug, PartialEq, Eq)]
pub enum Received {
    Event(ReaderEvent),
    Timeout,
    Disconnected,
}

/// Mathematical value of [`Received`].
pub enum ReceivedView {
    Event(ReaderEventView),
    Timeout,
    Disconnected,
}

impl View for Received {
    type V = ReceivedView;

    open spec fn view(&self) -> ReceivedView {
        match *self {
            Received::Event(x0) => ReceivedView::Event(x0@),
            Received::Timeout => ReceivedView::Timeout,
            Received::Disconnected => ReceivedView::Disconnected,
        }
    }
}

/// State and failure after the second half of a turn. A failure calls for an attempt to kill the
/// child.
pub open spec fn received(s: InteractiveSessionView, what: ReceivedView) -> (
    InteractiveSessionView,
    Option<InteractiveProcessErrorView>,
) {
    match what {
        ReceivedView::Event(event) => fed(s, event),
        ReceivedView::Timeout => (s, None),
        ReceivedView::Disconnected => {
            let last = spoiled(flushed(s));
            (last, Some(exit_failure(last, -1i32)))
        },
    }
}

/// State after an attempt to kill the child.
pub open spec fn kill_tried(s: InteractiveSessionView, killed: bool) -> InteractiveSessionView {
    if killed {
        ended(s)
    } else {
        s
    }
}

/// State and result once what trails the prompt has been gathered.
pub open spec fn prompt_concluded(s: InteractiveSessionView, status: ChildStatusView) -> (
    InteractiveSessionView,
    Result<InteractiveCommandOutputView, InteractiveProcessErrorView>,
) {
    let all = flushed(s);
    match counted_status(s.live, status) {
        ChildStatusView::Unknown { source } => (
            all,
            Err(InteractiveProcessErrorView::WaitFailed { source }),
        ),
        ChildStatusView::Exited { code } => {
            let last = spoiled(ended(all));
            (last, Err(exit_failure(last, reported_code(code))))
        },
        ChildStatusView::Running => (
            all,
            Ok(
                InteractiveCommandOutputView {
                    stdout: lossy_text(all.stdout),
                    stderr: lossy_text(all.stderr),
                },
            ),
        ),
    }
}

impl InteractiveProcessExecutor {
    /// Decides whether a command may be sent.
    pub fn admit_command(&self) -> (r: Result<(), InteractiveProcessError>)
        ensures
            match r {
                Ok(_) => command_refusal(self@) is None,
                Err(e) => command_refusal(self@) == Some(e@),
            },
    {
        if self.poisoned {
            Err(InteractiveProcessError::Poisoned)
        } else if self.terminated || !self.live || !self.stdin_open {
            Err(InteractiveProcessError::Terminated)
        } else {
            Ok(())
        }
    }

    /// Decides whether a command may be sent under a policy.
    pub fn admit_command_with_policy(&self, command: &str, timeout: Span, cancelled: bool) -> (r:
        Result<(), InteractiveProcessError>)
        ensures
            match r {
                Ok(_) => policy_refusal(self@, command@, timeout, cancelled) is None,
                Err(e) => policy_refusal(self@, command@, timeout, cancelled) == Some(e@),
            },
    {
        if self.poisoned {
            Err(InteractiveProcessError::Poisoned)
        } else if self.terminated || !self.live {
            Err(InteractiveProcessError::Terminated)
        } else if cancelled {
            Err(
                InteractiveProcessError::CommandCancelled {
                    command: command.to_owned(),
                    stdout: String::new(),
                    stderr: String::new(),
                },
            )
        } else if timeout.is_zero() {
            Err(
                InteractiveProcessError::CommandTimeout {
                    command: command.to_owned(),
                    timeout_ms: 0,
                    stdout: String::new(),
                    stderr: String::new(),
                },
            )
        } else if !self.stdin_open {
            Err(InteractiveProcessError::Terminated)
        } else {
            Ok(())
        }
    }

    /// Second half of a turn. On a failure an attempt to kill the child is due, and then
    /// [`InteractiveProcessExecutor::after_try_kill`].
    pub fn receive(&mut self, what: Received) -> (r: Result<(), InteractiveProcessError>)
        ensures
            final(self)@ == received(old(self)@, what@).0,
            match r {
                Ok(_) => received(old(self)@, what@).1 is None,
                Err(e) => received(old(self)@, what@).1 == Some(e@),
            },
    {
        match what {
            Received::Event(event) => self.apply_event(event),
            Received::Timeout => Ok(()),
            Received::Disconnected => {
                self.flush();
                self.poisoned = true;
                Err(self.exit_error(-1i32))
            },
        }
    }

    /// Takes in what came of killing the child.
    pub fn kill_internal(&mut self, outcome: Result<(), InteractiveProcessError>) -> (r: Result<
        (),
        InteractiveProcessError,
    >)
        ensures
            r == outcome,
            final(self)@ == kill_tried(old(self)@, outcome is Ok),
    {
        if outcome.is_ok() {
            self.end();
        }
        outcome
    }

    /// Result of a wait that fails after a kill that had to succeed.
    pub fn after_kill(
        &mut self,
        outcome: Result<(), InteractiveProcessError>,
        error: InteractiveProcessError,
    ) -> (r: InteractiveProcessError)
        ensures
            match outcome {
                Ok(_) => r == error && final(self)@ == spoiled(ended(old(self)@)),
                Err(e) => r == e && final(self)@ == old(self)@,
            },
    {
        match outcome {
            Ok(_) => {
                self.end();
                self.poisoned = true;
                error
            },
            Err(e) => e,
        }
    }

    /// Takes in an attempt to kill the child after which the wait fails in any case.
    pub fn after_try_kill(&mut self, killed: bool)
        ensures
            final(self)@ == spoiled(kill_tried(old(self)@, killed)),
    {
        if killed {
            self.end();
        }
        self.poisoned = true;
    }

    /// Result of a wait that fails after the child has been shut down.
    pub fn after_shutdown(
        &mut self,
        outcome: Result<ShutdownOutcome, InteractiveProcessError>,
        error: InteractiveProcessError,
    ) -> (r: InteractiveProcessError)
        ensures
            match outcome {
                Err(e) => if e@ is Terminated {
                    r == error && final(self)@ == spoiled(old(self)@)
                } else {
                    r == e && final(self)@ == old(self)@
                },
                Ok(_) => r == error && final(self)@ == spoiled(old(self)@),
            },
    {
        match outcome {
            Ok(_) => {
                self.poisoned = true;
                error
            },
            Err(InteractiveProcessError::Terminated) => {
                self.poisoned = true;
                error
            },
            Err(e) => e,
        }
    }

    /// Result of a wait whose prompt has been seen, once what trails it has been gathered.
    pub fn finish_prompt_wait(&mut self, status: ChildStatus) -> (r: Result<
        InteractiveCommandOutput,
        InteractiveProcessError,
    >)
        ensures
            final(self)@ == prompt_concluded(old(self)@, status@).0,
            match r {
                Ok(out) => prompt_concluded(old(self)@, status@).1 == Ok::<
                    InteractiveCommandOutputView,
                    InteractiveProcessErrorView,
                >(out@),
                Err(e) => prompt_concluded(old(self)@, status@).1 == Err::<
                    InteractiveCommandOutputView,
                    InteractiveProcessErrorView,
                >(e@),
            },
    {
        self.flush();
        let counted = if self.live {
            status
        } else {
            ChildStatus::Exited { code: None }
        };
        match counted {
            ChildStatus::Unknown { source } => Err(InteractiveProcessError::WaitFailed { source }),
            ChildStatus::Exited { code } => {
                self.end();
                self.poisoned = true;
                Err(self.exit_error(exit_code_of(code)))
            },
            ChildStatus::Running => Ok(
                InteractiveCommandOutput {
                    stdout: decode_lossy(&self.stdout),
                    stderr: decode_lossy(&self.stderr),
                },
            ),
        }
    }
}

/// Time to wait for the next event that trails the prompt, `None` where the grace period is over.
pub fn drain_wait(drain_deadline: Moment, now: Moment) -> (r: Option<Span>)
    ensures
        r == (if time_until(drain_deadline, now).nanos == 0 {
            None::<Span>
        } else {
            Some(shorter(time_until(drain_deadline, now), millis_span(10)))
        }),
{
    let remaining = drain_deadline.since(now);
    if remaining.is_zero() {
        None
    } else {
        Some(remaining.min(Span::from_millis(IO_POLL_INTERVAL_MS)))
    }
}

/// Result of a command under a policy: an interruption that was observed on the way is reported as
/// deferred.
pub fn conclude_execution(
    output: InteractiveCommandOutput,
    observed: Option<ProcessInterruptionReason>,
) -> (r: InteractiveCommandExecution)
    ensures
        r.output == output,
        r.interruption == (match observed {
            Some(reason) => Some(
                ProcessInterruption { reason, action: ProcessInterruptionAction::Deferred },
            ),
            None => None,
        }),
{
    InteractiveCommandExecution {
        output,
        interruption: match observed {
            Some(reason) => Some(
                ProcessInterruption { reason, action: ProcessInterruptionAction::Deferred },
            ),
            None => None,
        },
    }
}

// ---------------------------------------------------------------------------------------------
// Shutdown

/// What to do after a look at a child that is being shut down.
#[derive(Debug, PartialEq, Eq)]
pub enum ShutdownStep {
    /// Look again after the poll interval.
    Sleep,
    /// The shutdown is over.
    Done { outcome: ShutdownOutcome },
    /// Kill the child, then report a forced kill.
    Kill,
    /// The shutdown fails.
    Fail { error: InteractiveProcessError },
}

/// Mathematical value of [`ShutdownStep`].
pub enum ShutdownStepView {
    Sleep,
    Done { outcome: ShutdownOutcome },
    Kill,
    Fail { error: InteractiveProcessErrorView },
}

impl View for ShutdownStep {
    type V = ShutdownStepView;

    open spec fn view(&self) -> ShutdownStepView {
        match *self {
            ShutdownStep::Sleep => ShutdownStepView::Sleep,
            ShutdownStep::Done { outcome } => ShutdownStepView::Done { outcome },
            ShutdownStep::Kill => ShutdownStepView::Kill,
            ShutdownStep::Fail { error } => ShutdownStepView::Fail { error: error@ },
        }
    }
}

impl InteractiveProcessExecutor {
    /// Closes stdin. A session without a child cannot be shut down.
    pub fn begin_shutdown(&mut self) -> (r: Result<(), InteractiveProcessError>)
        ensures
            match r {
                Ok(_) => !old(self)@.terminated && old(self)@.live && final(self)@
                    == (InteractiveSessionView { stdin_open: false, ..old(self)@ }),
                Err(e) => (old(self)@.terminated || !old(self)@.live) && e@
                    == InteractiveProcessErrorView::Terminated && final(self)@ == old(self)@,
            },
    {
        if self.terminated || !self.live {
            return Err(InteractiveProcessError::Terminated);
        }
        self.stdin_open = false;
        Ok(())
    }

    /// Takes one look at a child whose stdin has been closed.
    pub fn shutdown(&mut self, status: ChildStatus, now: Moment, deadline: Moment) -> (r:
        ShutdownStep)
        requires
            old(self)@.live,
        ensures
            match status@ {
                ChildStatusView::Exited { code } => r@ == (ShutdownStepView::Done {
                    outcome: ShutdownOutcome::Graceful { exit_code: reported_code(code) },
                }) && final(self)@ == (InteractiveSessionView {
                    live: false,
                    terminated: true,
                    poisoned: false,
                    ..old(self)@
                }),
                ChildStatusView::Running => final(self)@ == old(self)@ && r@ == (if now.nanos
                    >= deadline.nanos {
                    ShutdownStepView::Kill
                } else {
                    ShutdownStepView::Sleep
                }),
                ChildStatusView::Unknown { source } => final(self)@ == old(self)@ && r@ == (
                ShutdownStepView::Fail {
                    error: InteractiveProcessErrorView::WaitFailed { source },
                }),
            },
    {
        match status {
            ChildStatus::Exited { code } => {
                self.live = false;
                self.terminated = true;
                self.poisoned = false;
                ShutdownStep::Done {
                    outcome: ShutdownOutcome::Graceful { exit_code: exit_code_of(code) },
                }
            },
            ChildStatus::Running => if now.nanos >= deadline.nanos {
                ShutdownStep::Kill
            } else {
                ShutdownStep::Sleep
            },
            ChildStatus::Unknown { source } => ShutdownStep::Fail {
                error: InteractiveProcessError::WaitFailed { source },
            },
        }
    }

    /// Result of a shutdown that had to kill the child.
    pub fn after_shutdown_kill(&mut self, outcome: Result<(), InteractiveProcessError>) -> (r:
        Result<ShutdownOutcome, InteractiveProcessError>)
        ensures
            match outcome {
                Ok(_) => r == Ok::<ShutdownOutcome, InteractiveProcessError>(
                    ShutdownOutcome::ForcedKill,
                ) && final(self)@ == ended(old(self)@),
                Err(e) => r == Err::<ShutdownOutcome, InteractiveProcessError>(e) && final(self)@
                    == old(self)@,
            },
    {
        match outcome {
            Ok(_) => {
                self.end();
                Ok(ShutdownOutcome::ForcedKill)
            },
            Err(e) => Err(e),
        }
    }

    /// Whether there is a child to kill. If so, it is killed, and
    /// [`InteractiveProcessExecutor::kill_internal`] takes in what came of it.
    pub fn kill(&self) -> (r: bool)
        ensures
            r == (!self@.terminated && self@.live),
    {
        !(self.terminated || !self.live)
    }
}

// ---------------------------------------------------------------------------------------------
// Laws

/// The session takes no further command.
pub open spec fn is_closed(s: InteractiveSessionView) -> bool {
    command_refusal(s) is Some
}

/// A command that has run out of time leaves a session that takes no further command, once its
/// child has been killed.
pub proof fn timed_out_session_is_closed(
    s: InteractiveSessionView,
    wait: PromptWaitView,
    input: TurnInputView,
)
    requires
        plain_turn(s, wait, input).1 is KillThenFail,
    ensures
        input.now.nanos >= wait.deadline.nanos,
        is_closed(spoiled(ended(plain_turn(s, wait, input).0))),
{
}

/// A child that has exited fails the wait even where its last output ends with a prompt, and the
/// session takes no further command. The failure is the child's exit, unless its last output could
/// not be read.
pub proof fn exited_child_closes_session(
    s: InteractiveSessionView,
    code: Option<i32>,
    ready: Seq<ReaderEventView>,
)
    ensures
        ({
            let (last, action) = exit_turn(s, code, ready);
            let failure = fed_all(s, ready).1;
            &&& is_closed(last)
            &&& failure is None ==> action == TurnActionView::Fail {
                error: exit_failure(last, reported_code(code)),
            }
            &&& failure is Some ==> action == TurnActionView::TryKillThenFail {
                error: failure->0,
            }
        }),
{
    lemma_unread_output_closes(s, ready);
}

proof fn lemma_unread_output_closes(s: InteractiveSessionView, events: Seq<ReaderEventView>)
    ensures
        fed_all(s, events).1 is Some ==> is_closed(fed_all(s, events).0),
    decreases events.len(),
{
    if events.len() > 0 {
        lemma_unread_output_closes(s, events.drop_last());
    }
}

/// After a command that was concluded, the next wait begins with nothing received and at the start
/// of a line.
pub proof fn concluded_command_leaves_nothing_behind(
    s: InteractiveSessionView,
    status: ChildStatusView,
)
    ensures
        is_quiet(waiting_anew(prompt_concluded(s, status).0)),
{
}

/// A critical command is never killed or shut down by its policy.
pub proof fn critical_command_is_left_alone(
    s: InteractiveSessionView,
    wait: PromptWaitView,
    policy: ProcessExecutionPolicy,
    input: TurnInputView,
)
    requires
        policy.safety == ProcessInterruptionSafety::CriticalNonAbortable,
    ensures
        policy_turn(s, wait, policy, input).2 !is KillThenFail,
        policy_turn(s, wait, policy, input).2 !is ShutdownThenFail,
{
}

/// The interruption observed first stays the observed one.
pub proof fn observed_interruption_stays(
    s: InteractiveSessionView,
    wait: PromptWaitView,
    policy: ProcessExecutionPolicy,
    input: TurnInputView,
)
    requires
        wait.observed is Some,
    ensures
        policy_turn(s, wait, policy, input).1 == wait.observed,
{
}

/// A poisoned session stays poisoned through everything but a graceful shutdown, and after that its
/// child is gone: it never takes a command again.
pub proof fn closed_session_stays_closed(
    s: InteractiveSessionView,
    wait: PromptWaitView,
    policy: ProcessExecutionPolicy,
    input: TurnInputView,
    code: Option<i32>,
    ready: Seq<ReaderEventView>,
    what: ReceivedView,
    status: ChildStatusView,
    killed: bool,
)
    requires
        is_closed(s),
    ensures
        is_closed(plain_turn(s, wait, input).0),
        is_closed(policy_turn(s, wait, policy, input).0),
        is_closed(exit_turn(s, code, ready).0),
        is_closed(received(s, what).0),
        is_closed(prompt_concluded(s, status).0),
        is_closed(kill_tried(s, killed)),
        is_closed(InteractiveSessionView { stdin_open: false, ..s }),
        is_closed(
            InteractiveSessionView { live: false, terminated: true, poisoned: false, ..s },
        ),
{
    lemma_feeding_keeps_closed(s, ready);
}

proof fn lemma_feeding_keeps_closed(s: InteractiveSessionView, events: Seq<ReaderEventView>)
    requires
        is_closed(s),
    ensures
        is_closed(fed_all(s, events).0),
    decreases events.len(),
{
    if events.len() > 0 {
        lemma_feeding_keeps_closed(s, events.drop_last());
    }
}

} // verus!
