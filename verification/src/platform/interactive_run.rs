//! One command of an interactive session from beginning to end, one question to the outside world
//! at a time. The start of a session is such a run too.

use vstd::prelude::*;
use crate::outside::lossy_text;
use crate::platform::interactive::{
    IO_POLL_INTERVAL_MS, InteractiveCommandExecution, InteractiveCommandExecutionView,
    InteractiveCommandOutputView, InteractiveProcessError, InteractiveProcessErrorView,
    InteractiveStream, PROMPT_DRAIN_GRACE_MS,
};
use crate::platform::interactive_finish::{
    command_refusal, conclude_execution, drain_wait, is_closed, kill_tried, policy_refusal,
    prompt_concluded, received, Received, ReceivedView, ShutdownStep,
};
use crate::platform::interactive_session::{
    bytes_on, ended, exit_turn, fed, fed_all, is_coherent, plain_turn, policy_turn, spoiled,
    waiting_anew, InteractiveProcessExecutor, InteractiveSessionView, PromptWait, PromptWaitView,
    ReaderEvent, ReaderEventView, TurnAction, TurnActionView, TurnInput, TurnInputView, WaitMode,
    WaitModeView,
};
use crate::platform::process::{
    ProcessExecutionPolicy, ProcessInterruption, ProcessInterruptionAction,
    ProcessInterruptionReason, ProcessInterruptionSafety,
};
use crate::platform::process_run::{reported_code, ChildStatus, ChildStatusView};
use crate::text::{opt_view, result_view, views};
use crate::time::{millis_span, shorter, time_until, Moment, Span};


verus! {

/// Where a run stands.
#[derive(Debug, PartialEq, Eq)]
pub enum InteractivePhase {
    /// The command is written to the child.
    Writing,
    /// A turn of the wait begins.
    Looking,
    /// A turn waits for a reader event.
    Receiving,
    /// The child has exited, and the reader events that are ready are gathered.
    Gathering { code: Option<i32> },
    /// The prompt was seen, and what trails it is gathered.
    Draining { deadline: Moment },
    /// What trails the prompt was gathered, and the child is looked at once more.
    Checking,
    /// The child is killed, which has to succeed.
    Killing { error: InteractiveProcessError },
    /// The child is killed, whether that succeeds or not.
    TryKilling { error: InteractiveProcessError },
    /// The child is shut down.
    ShuttingDown { error: InteractiveProcessError, deadline: Moment },
    /// The child was not shut down in time, and is killed.
    ForcingDown { error: InteractiveProcessError },
    /// The start failed, and the child is killed, whether that succeeds or not.
    Abandoning { error: InteractiveProcessError },
    /// The result was given.
    Over,
}

/// Mathematical value of [`InteractivePhase`].
pub enum InteractivePhaseView {
    Writing,
    Looking,
    Receiving,
    Gathering { code: Option<i32> },
    Draining { deadline: Moment },
    Checking,
    Killing { error: InteractiveProcessErrorView },
    TryKilling { error: InteractiveProcessErrorView },
    ShuttingDown { error: InteractiveProcessErrorView, deadline: Moment },
    ForcingDown { error: InteractiveProcessErrorView },
    Abandoning { error: InteractiveProcessErrorView },
    Over,
}

impl View for InteractivePhase {
    type V = InteractivePhaseView;

    open spec fn view(&self) -> InteractivePhaseView {
        match *self {
            InteractivePhase::Writing => InteractivePhaseView::Writing,
            InteractivePhase::Looking => InteractivePhaseView::Looking,
            InteractivePhase::Receiving => InteractivePhaseView::Receiving,
            InteractivePhase::Gathering { code } => InteractivePhaseView::Gathering { code },
            InteractivePhase::Draining { deadline } => InteractivePhaseView::Draining { deadline },
            InteractivePhase::Checking => InteractivePhaseView::Checking,
            InteractivePhase::Killing { error } => InteractivePhaseView::Killing { error: error@ },
            InteractivePhase::TryKilling { error } => InteractivePhaseView::TryKilling {
                error: error@,
            },
            InteractivePhase::ShuttingDown {
                error,
                deadline,
            } => InteractivePhaseView::ShuttingDown {
                error: error@,
                deadline,
            },
            InteractivePhase::ForcingDown { error } => InteractivePhaseView::ForcingDown {
                error: error@,
            },
            InteractivePhase::Abandoning { error } => InteractivePhaseView::Abandoning {
                error: error@,
            },
            InteractivePhase::Over => InteractivePhaseView::Over,
        }
    }
}

/// Run of one command, or of the start of a session.
#[derive(Debug, PartialEq, Eq)]
pub struct InteractiveRun {
    pub wait: PromptWait,
    pub policy: Option<ProcessExecutionPolicy>,
    pub phase: InteractivePhase,
}

/// Mathematical value of [`InteractiveRun`].
pub struct InteractiveRunView {
    pub wait: PromptWaitView,
    pub policy: Option<ProcessExecutionPolicy>,
    pub phase: InteractivePhaseView,
}

impl View for InteractiveRun {
    type V = InteractiveRunView;

    open spec fn view(&self) -> InteractiveRunView {
        InteractiveRunView {
            wait: self.wait@,
            policy: self.policy,
            phase: self.phase@,
        }
    }
}

/// How writing a command to the child failed.
#[derive(Debug, PartialEq, Eq)]
pub enum StdinFault {
    Write { source: String },
    Flush { source: String },
}

/// Mathematical value of [`StdinFault`].
pub enum StdinFaultView {
    Write { source: Seq<char> },
    Flush { source: Seq<char> },
}

impl View for StdinFault {
    type V = StdinFaultView;

    open spec fn view(&self) -> StdinFaultView {
        match *self {
            StdinFault::Write { source } => StdinFaultView::Write { source: source@ },
            StdinFault::Flush { source } => StdinFaultView::Flush { source: source@ },
        }
    }
}

/// How killing a child failed.
#[derive(Debug, PartialEq, Eq)]
pub enum KillFault {
    Kill { source: String },
    Wait { source: String },
}

/// Mathematical value of [`KillFault`].
pub enum KillFaultView {
    Kill { source: Seq<char> },
    Wait { source: Seq<char> },
}

impl View for KillFault {
    type V = KillFaultView;

    open spec fn view(&self) -> KillFaultView {
        match *self {
            KillFault::Kill { source } => KillFaultView::Kill { source: source@ },
            KillFault::Wait { source } => KillFaultView::Wait { source: source@ },
        }
    }
}

/// What a run asks for.
#[derive(Debug, PartialEq, Eq)]
pub enum InteractiveAsk {
    /// Write the command and a line feed to the child, and flush.
    Write { command: String },
    /// Look at the child and the cancellation.
    Look,
    /// Wait for one reader event.
    Receive { wait: Span },
    /// Take the reader events that are ready, without waiting.
    TakeReady,
    /// Look at the child.
    LookAtChild,
    /// Close the child's stdin, then look at the child.
    CloseStdin,
    /// Pause, then look at the child.
    Pause { wait: Span },
    /// Kill the child with all its children, and wait for its end.
    Kill,
    /// Nothing more: the run is over.
    Done { result: Result<InteractiveCommandExecution, InteractiveProcessError> },
    /// The event answers another question. The last one stands.
    Repeat,
}

/// Mathematical value of [`InteractiveAsk`].
pub enum InteractiveAskView {
    Write { command: Seq<char> },
    Look,
    Receive { wait: Span },
    TakeReady,
    LookAtChild,
    CloseStdin,
    Pause { wait: Span },
    Kill,
    Done { result: Result<InteractiveCommandExecutionView, InteractiveProcessErrorView> },
    Repeat,
}

impl View for InteractiveAsk {
    type V = InteractiveAskView;

    open spec fn view(&self) -> InteractiveAskView {
        match *self {
            InteractiveAsk::Write { command } => InteractiveAskView::Write { command: command@ },
            InteractiveAsk::Look => InteractiveAskView::Look,
            InteractiveAsk::Receive { wait } => InteractiveAskView::Receive { wait },
            InteractiveAsk::TakeReady => InteractiveAskView::TakeReady,
            InteractiveAsk::LookAtChild => InteractiveAskView::LookAtChild,
            InteractiveAsk::CloseStdin => InteractiveAskView::CloseStdin,
            InteractiveAsk::Pause { wait } => InteractiveAskView::Pause { wait },
            InteractiveAsk::Kill => InteractiveAskView::Kill,
            InteractiveAsk::Done { result } => InteractiveAskView::Done {
                result: result_view(result),
            },
            InteractiveAsk::Repeat => InteractiveAskView::Repeat,
        }
    }
}

/// What the outside world answers.
#[derive(Debug, PartialEq, Eq)]
pub enum InteractiveEvent {
    Written { fault: Option<StdinFault> },
    Seen { cancelled: bool, status: ChildStatus },
    Received { what: Received },
    Ready { events: Vec<ReaderEvent> },
    Child { status: ChildStatus },
    Killed { failure: Option<KillFault> },
}

/// Mathematical value of [`InteractiveEvent`].
pub enum InteractiveEventView {
    Written { fault: Option<StdinFaultView> },
    Seen { cancelled: bool, status: ChildStatusView },
    Received { what: ReceivedView },
    Ready { events: Seq<ReaderEventView> },
    Child { status: ChildStatusView },
    Killed { failure: Option<KillFaultView> },
}

impl View for InteractiveEvent {
    type V = InteractiveEventView;

    open spec fn view(&self) -> InteractiveEventView {
        match *self {
            InteractiveEvent::Written { fault } => InteractiveEventView::Written {
                fault: opt_view(fault),
            },
            InteractiveEvent::Seen { cancelled, status } => InteractiveEventView::Seen {
                cancelled,
                status: status@,
            },
            InteractiveEvent::Received { what } => InteractiveEventView::Received { what: what@ },
            InteractiveEvent::Ready { events } => InteractiveEventView::Ready {
                events: views(events@),
            },
            InteractiveEvent::Child { status } => InteractiveEventView::Child { status: status@ },
            InteractiveEvent::Killed { failure } => InteractiveEventView::Killed {
                failure: opt_view(failure),
            },
        }
    }
}

/// A run after an event, and what it asks for.
#[derive(Debug, PartialEq, Eq)]
pub struct InteractiveStep {
    pub run: InteractiveRun,
    pub ask: InteractiveAsk,
}

/// Mathematical value of [`InteractiveStep`].
pub struct InteractiveStepView {
    pub run: InteractiveRunView,
    pub ask: InteractiveAskView,
}

impl View for InteractiveStep {
    type V = InteractiveStepView;

    open spec fn view(&self) -> InteractiveStepView {
        InteractiveStepView {
            run: self.run@,
            ask: self.ask@,
        }
    }
}

// ---------------------------------------------------------------------------------------------
// Transitions

/// A run moves to a phase and asks.
pub open spec fn asking(
    run: InteractiveRunView,
    phase: InteractivePhaseView,
    ask: InteractiveAskView,
) -> InteractiveStepView {
    InteractiveStepView { run: InteractiveRunView { phase, ..run }, ask }
}

/// State of the session, and of the run with its question.
pub open spec fn asks(
    s: InteractiveSessionView,
    run: InteractiveRunView,
    phase: InteractivePhaseView,
    ask: InteractiveAskView,
) -> (InteractiveSessionView, InteractiveStepView) {
    (s, asking(run, phase, ask))
}

/// A run fails. A session that failed to start is given up with its child.
pub open spec fn failing(live: bool, run: InteractiveRunView, error: InteractiveProcessErrorView) ->
    InteractiveStepView {
    if run.wait.mode is Startup && live {
        asking(run, InteractivePhaseView::Abandoning { error }, InteractiveAskView::Kill)
    } else {
        asking(run, InteractivePhaseView::Over, InteractiveAskView::Done { result: Err(error) })
    }
}

/// State of the session, and of the run that fails.
pub open spec fn fails(
    s: InteractiveSessionView,
    run: InteractiveRunView,
    error: InteractiveProcessErrorView,
) -> (InteractiveSessionView, InteractiveStepView) {
    (s, failing(s.live, run, error))
}

/// The wait for what trails the prompt goes on, or is over.
pub open spec fn draining(run: InteractiveRunView, deadline: Moment, now: Moment) ->
    InteractiveStepView {
    let left = time_until(deadline, now);
    if left.nanos == 0 {
        asking(run, InteractivePhaseView::Checking, InteractiveAskView::LookAtChild)
    } else {
        asking(
            run,
            InteractivePhaseView::Draining { deadline },
            InteractiveAskView::Receive { wait: shorter(left, millis_span(10)) },
        )
    }
}

/// What the first half of a turn leads to.
pub open spec fn acts(
    s: InteractiveSessionView,
    run: InteractiveRunView,
    action: TurnActionView,
    now: Moment,
) -> (InteractiveSessionView, InteractiveStepView) {
    match action {
        TurnActionView::Drain => (
            s,
            draining(run, Moment { nanos: (now.nanos + millis_span(20).nanos) as u128 }, now),
        ),
        TurnActionView::Receive { wait } => asks(
            s,
            run,
            InteractivePhaseView::Receiving,
            InteractiveAskView::Receive { wait },
        ),
        TurnActionView::Gather { code } => asks(
            s,
            run,
            InteractivePhaseView::Gathering { code },
            InteractiveAskView::TakeReady,
        ),
        TurnActionView::Fail { error } => fails(s, run, error),
        TurnActionView::KillThenFail { error } => asks(
            s,
            run,
            InteractivePhaseView::Killing { error },
            InteractiveAskView::Kill,
        ),
        TurnActionView::TryKillThenFail { error } => asks(
            s,
            run,
            InteractivePhaseView::TryKilling { error },
            InteractiveAskView::Kill,
        ),
        TurnActionView::ShutdownThenFail { grace, error } => {
            if s.terminated || !s.live {
                fails(spoiled(s), run, error)
            } else {
                asks(
                    InteractiveSessionView { stdin_open: false, ..s },
                    run,
                    InteractivePhaseView::ShuttingDown {
                        error,
                        deadline: Moment { nanos: (now.nanos + grace.nanos) as u128 },
                    },
                    InteractiveAskView::CloseStdin,
                )
            }
        },
    }
}

/// One look at a child that is being shut down.
pub open spec fn shuts_down(
    s: InteractiveSessionView,
    run: InteractiveRunView,
    error: InteractiveProcessErrorView,
    deadline: Moment,
    status: ChildStatusView,
    now: Moment,
) -> (InteractiveSessionView, InteractiveStepView) {
    if !s.live {
        fails(spoiled(s), run, error)
    } else {
        match status {
            ChildStatusView::Exited { code } => fails(
                spoiled(InteractiveSessionView { live: false, terminated: true, ..s }),
                run,
                error,
            ),
            ChildStatusView::Running => if now.nanos >= deadline.nanos {
                asks(
                    s,
                    run,
                    InteractivePhaseView::ForcingDown { error },
                    InteractiveAskView::Kill,
                )
            } else {
                asks(
                    s,
                    run,
                    InteractivePhaseView::ShuttingDown { error, deadline },
                    InteractiveAskView::Pause { wait: millis_span(10) },
                )
            },
            ChildStatusView::Unknown { source } => fails(
                s,
                run,
                InteractiveProcessErrorView::WaitFailed { source },
            ),
        }
    }
}

/// Result of a run whose prompt was seen: an interruption observed on the way is reported as
/// deferred.
pub open spec fn execution(
    output: InteractiveCommandOutputView,
    observed: Option<ProcessInterruptionReason>,
) -> InteractiveCommandExecutionView {
    InteractiveCommandExecutionView {
        output,
        interruption: match observed {
            Some(reason) => Some(
                ProcessInterruption { reason, action: ProcessInterruptionAction::Deferred },
            ),
            None => None,
        },
    }
}

/// First half of a turn of the run.
pub open spec fn turns(
    s: InteractiveSessionView,
    run: InteractiveRunView,
    input: TurnInputView,
) -> (InteractiveSessionView, InteractiveStepView) {
    match run.policy {
        Some(policy) => {
            let (next, observed, action) = policy_turn(s, run.wait, policy, input);
            acts(
                next,
                InteractiveRunView { wait: PromptWaitView { observed, ..run.wait }, ..run },
                action,
                input.now,
            )
        },
        None => {
            let (next, action) = plain_turn(s, run.wait, input);
            acts(next, run, action, input.now)
        },
    }
}

/// Failure of a command that could not be written.
pub open spec fn stdin_failure(mode: WaitModeView, fault: StdinFaultView) ->
    InteractiveProcessErrorView {
    let command = match mode {
        WaitModeView::Startup => Seq::empty(),
        WaitModeView::Command { command } => command,
    };
    match fault {
        StdinFaultView::Write { source } => InteractiveProcessErrorView::StdinWriteFailed {
            command,
            source,
        },
        StdinFaultView::Flush { source } => InteractiveProcessErrorView::StdinFlushFailed {
            command,
            source,
        },
    }
}

/// Failure of a child that could not be killed.
pub open spec fn kill_failure(fault: KillFaultView) -> InteractiveProcessErrorView {
    match fault {
        KillFaultView::Kill { source } => InteractiveProcessErrorView::KillFailed { source },
        KillFaultView::Wait { source } => InteractiveProcessErrorView::WaitFailed { source },
    }
}

/// Session whose previous output is forgotten, and the run whose time begins.
pub open spec fn begins(s: InteractiveSessionView, run: InteractiveRunView, now: Moment) -> (
    InteractiveSessionView,
    InteractiveStepView,
) {
    asks(
        waiting_anew(s),
        InteractiveRunView {
            wait: PromptWaitView {
                deadline: Moment { nanos: (now.nanos + run.wait.timeout.nanos) as u128 },
                ..run.wait
            },
            ..run
        },
        InteractivePhaseView::Looking,
        InteractiveAskView::Look,
    )
}

/// Step of a run on an event.
pub open spec fn run_step(
    s: InteractiveSessionView,
    run: InteractiveRunView,
    event: InteractiveEventView,
    now: Moment,
) -> (InteractiveSessionView, InteractiveStepView) {
    match (run.phase, event) {
        (InteractivePhaseView::Writing, InteractiveEventView::Written { fault }) => match fault {
            None => begins(s, run, now),
            Some(fault) => fails(s, run, stdin_failure(run.wait.mode, fault)),
        },
        (InteractivePhaseView::Looking, InteractiveEventView::Seen { cancelled, status }) => turns(
            s,
            run,
            TurnInputView { now, cancelled, status },
        ),
        (InteractivePhaseView::Gathering { code }, InteractiveEventView::Ready { events }) => {
            let (next, action) = exit_turn(s, code, events);
            acts(next, run, action, now)
        },
        (InteractivePhaseView::Receiving, InteractiveEventView::Received { what }) => {
            let (next, failure) = received(s, what);
            match failure {
                Some(error) => asks(
                    next,
                    run,
                    InteractivePhaseView::TryKilling { error },
                    InteractiveAskView::Kill,
                ),
                None => asks(next, run, InteractivePhaseView::Looking, InteractiveAskView::Look),
            }
        },
        (InteractivePhaseView::Draining { deadline }, InteractiveEventView::Received { what }) => {
            match what {
                ReceivedView::Event(trailing) => {
                    let (next, failure) = fed(s, trailing);
                    match failure {
                        Some(error) => fails(next, run, error),
                        None => (next, draining(run, deadline, now)),
                    }
                },
                _ => asks(s, run, InteractivePhaseView::Checking, InteractiveAskView::LookAtChild),
            }
        },
        (InteractivePhaseView::Checking, InteractiveEventView::Child { status }) => {
            let (next, result) = prompt_concluded(s, status);
            match result {
                Ok(output) => asks(
                    next,
                    run,
                    InteractivePhaseView::Over,
                    InteractiveAskView::Done { result: Ok(execution(output, run.wait.observed)) },
                ),
                Err(error) => fails(next, run, error),
            }
        },
        (InteractivePhaseView::Killing { error }, InteractiveEventView::Killed { failure }) => {
            match failure {
                None => fails(spoiled(ended(s)), run, error),
                Some(fault) => fails(s, run, kill_failure(fault)),
            }
        },
        (InteractivePhaseView::TryKilling { error }, InteractiveEventView::Killed { failure }) => {
            fails(spoiled(kill_tried(s, failure is None)), run, error)
        },
        (
            InteractivePhaseView::ShuttingDown { error, deadline },
            InteractiveEventView::Child { status },
        ) => shuts_down(s, run, error, deadline, status, now),
        (InteractivePhaseView::ForcingDown { error }, InteractiveEventView::Killed { failure }) => {
            match failure {
                None => fails(spoiled(ended(s)), run, error),
                Some(fault) => fails(s, run, kill_failure(fault)),
            }
        },
        (InteractivePhaseView::Abandoning { error }, InteractiveEventView::Killed { failure }) => {
            asks(
                kill_tried(s, failure is None),
                run,
                InteractivePhaseView::Over,
                InteractiveAskView::Done { result: Err(error) },
            )
        },
        _ => asks(s, run, run.phase, InteractiveAskView::Repeat),
    }
}

/// The points in time that a step may compute can be told on the clock.
pub open spec fn clock_suffices(run: InteractiveRunView, now: Moment) -> bool {
    &&& now.nanos + run.wait.timeout.nanos <= u128::MAX
    &&& now.nanos + 20_000_000 <= u128::MAX
    &&& match run.policy {
        Some(policy) => now.nanos + policy.graceful_shutdown_timeout.nanos <= u128::MAX,
        None => true,
    }
}

/// Run of a command that has been admitted.
pub open spec fn fresh_command(
    command: Seq<char>,
    timeout: Span,
    policy: Option<ProcessExecutionPolicy>,
) -> InteractiveRunView {
    InteractiveRunView {
        wait: PromptWaitView {
            mode: WaitModeView::Command { command },
            timeout,
            deadline: Moment { nanos: 0 },
            observed: None,
        },
        policy,
        phase: InteractivePhaseView::Writing,
    }
}

/// How a command begins: it is refused, or written to the child.
pub open spec fn command_begins(
    command: Seq<char>,
    timeout: Span,
    policy: Option<ProcessExecutionPolicy>,
    refusal: Option<InteractiveProcessErrorView>,
) -> InteractiveStepView {
    let run = fresh_command(command, timeout, policy);
    match refusal {
        Some(error) => asking(
            run,
            InteractivePhaseView::Over,
            InteractiveAskView::Done { result: Err(error) },
        ),
        None => asking(run, run.phase, InteractiveAskView::Write { command }),
    }
}

impl InteractiveRun {
    fn asked(self, phase: InteractivePhase, ask: InteractiveAsk) -> (r: InteractiveStep)
        ensures
            r@ == asking(self@, phase@, ask@),
    {
        InteractiveStep { run: InteractiveRun { phase, ..self }, ask }
    }

    fn failed(self, live: bool, error: InteractiveProcessError) -> (r: InteractiveStep)
        ensures
            r@ == failing(live, self@, error@),
    {
        match self.wait.mode {
            WaitMode::Startup if live => self.asked(
                InteractivePhase::Abandoning { error },
                InteractiveAsk::Kill,
            ),
            _ => self.asked(InteractivePhase::Over, InteractiveAsk::Done { result: Err(error) }),
        }
    }

    fn drained(self, deadline: Moment, now: Moment) -> (r: InteractiveStep)
        ensures
            r@ == draining(self@, deadline, now),
    {
        match drain_wait(deadline, now) {
            Some(wait) => self.asked(
                InteractivePhase::Draining { deadline },
                InteractiveAsk::Receive { wait },
            ),
            None => self.asked(InteractivePhase::Checking, InteractiveAsk::LookAtChild),
        }
    }
}

impl InteractiveProcessExecutor {
    /// Begins the run of a command without a policy.
    pub fn execute(&self, command: &str, timeout: Span) -> (r: InteractiveStep)
        ensures
            r@ == command_begins(command@, timeout, None, command_refusal(self@)),
    {
        let run = fresh_run(command, timeout, None);
        match self.admit_command() {
            Err(error) => run.asked(
                InteractivePhase::Over,
                InteractiveAsk::Done { result: Err(error) },
            ),
            Ok(_) => run.asked(
                InteractivePhase::Writing,
                InteractiveAsk::Write { command: command.to_owned() },
            ),
        }
    }

    /// Begins the run of a command under a policy.
    pub fn execute_with_policy(
        &self,
        command: &str,
        timeout: Span,
        policy: ProcessExecutionPolicy,
        cancelled: bool,
    ) -> (r: InteractiveStep)
        ensures
            r@ == command_begins(
                command@,
                timeout,
                Some(policy),
                policy_refusal(self@, command@, timeout, cancelled),
            ),
    {
        let run = fresh_run(command, timeout, Some(policy));
        match self.admit_command_with_policy(command, timeout, cancelled) {
            Err(error) => run.asked(
                InteractivePhase::Over,
                InteractiveAsk::Done { result: Err(error) },
            ),
            Ok(_) => run.asked(
                InteractivePhase::Writing,
                InteractiveAsk::Write { command: command.to_owned() },
            ),
        }
    }

    /// Begins the wait for the first prompt of a child that was just started.
    pub fn spawn(&mut self, startup_timeout: Span, now: Moment) -> (r: InteractiveStep)
        requires
            now.nanos + startup_timeout.nanos <= u128::MAX,
        ensures
            (final(self)@, r@) == begins(
                old(self)@,
                InteractiveRunView {
                    wait: PromptWaitView {
                        mode: WaitModeView::Startup,
                        timeout: startup_timeout,
                        deadline: now,
                        observed: None,
                    },
                    policy: None,
                    phase: InteractivePhaseView::Looking,
                },
                now,
            ),
    {
        self.begin_wait();
        InteractiveStep {
            run: InteractiveRun {
                wait: PromptWait {
                    mode: WaitMode::Startup,
                    timeout: startup_timeout,
                    deadline: now.plus(startup_timeout),
                    observed: None,
                },
                policy: None,
                phase: InteractivePhase::Looking,
            },
            ask: InteractiveAsk::Look,
        }
    }

    fn act(&mut self, run: InteractiveRun, action: TurnAction, now: Moment) -> (r: InteractiveStep)
        requires
            now.nanos + 20_000_000 <= u128::MAX,
            action@ is ShutdownThenFail ==> now.nanos + action@->grace.nanos <= u128::MAX,
        ensures
            (final(self)@, r@) == acts(old(self)@, run@, action@, now),
    {
        match action {
            TurnAction::Drain => run.drained(
                now.plus(Span::from_millis(PROMPT_DRAIN_GRACE_MS)),
                now,
            ),
            TurnAction::Receive { wait } => run.asked(
                InteractivePhase::Receiving,
                InteractiveAsk::Receive { wait },
            ),
            TurnAction::Gather { code } => run.asked(
                InteractivePhase::Gathering { code },
                InteractiveAsk::TakeReady,
            ),
            TurnAction::Fail { error } => run.failed(self.live, error),
            TurnAction::KillThenFail { error } => run.asked(
                InteractivePhase::Killing { error },
                InteractiveAsk::Kill,
            ),
            TurnAction::TryKillThenFail { error } => run.asked(
                InteractivePhase::TryKilling { error },
                InteractiveAsk::Kill,
            ),
            TurnAction::ShutdownThenFail { grace, error } => match self.begin_shutdown() {
                Err(refusal) => {
                    let error = self.after_shutdown(Err(refusal), error);
                    run.failed(self.live, error)
                },
                Ok(_) => run.asked(
                    InteractivePhase::ShuttingDown { error, deadline: now.plus(grace) },
                    InteractiveAsk::CloseStdin,
                ),
            },
        }
    }

    fn look(
        &mut self,
        run: InteractiveRun,
        input: TurnInput,
    ) -> (r: InteractiveStep)
        requires
            clock_suffices(run@, input@.now),
        ensures
            (final(self)@, r@) == turns(old(self)@, run@, input@),
    {
        let now = input.now;
        let mut run = run;
        match run.policy {
            Some(policy) => {
                let action = self.wait_for_prompt_with_policy(&mut run.wait, &policy, input);
                self.act(run, action, now)
            },
            None => {
                let action = self.wait_for_prompt(&run.wait, input);
                self.act(run, action, now)
            },
        }
    }

    fn look_at_shutdown(
        &mut self,
        run: InteractiveRun,
        error: InteractiveProcessError,
        deadline: Moment,
        status: ChildStatus,
        now: Moment,
    ) -> (r: InteractiveStep)
        ensures
            (final(self)@, r@) == shuts_down(old(self)@, run@, error@, deadline, status@, now),
    {
        if !self.live {
            self.poisoned = true;
            return run.failed(false, error);
        }
        match self.shutdown(status, now, deadline) {
            ShutdownStep::Sleep => run.asked(
                InteractivePhase::ShuttingDown { error, deadline },
                InteractiveAsk::Pause { wait: Span::from_millis(IO_POLL_INTERVAL_MS) },
            ),
            ShutdownStep::Kill => run.asked(
                InteractivePhase::ForcingDown { error },
                InteractiveAsk::Kill,
            ),
            ShutdownStep::Fail { error } => run.failed(self.live, error),
            ShutdownStep::Done { outcome } => {
                let error = self.after_shutdown(Ok(outcome), error);
                run.failed(self.live, error)
            },
        }
    }

    /// Takes an event of a run.
    pub fn step(&mut self, run: InteractiveRun, event: InteractiveEvent, now: Moment) -> (r:
        InteractiveStep)
        requires
            clock_suffices(run@, now),
        ensures
            (final(self)@, r@) == run_step(old(self)@, run@, event@, now),
    {
        let InteractiveRun { wait, policy, phase } = run;
        let idle = InteractiveRun { wait, policy, phase: InteractivePhase::Over };
        match (phase, event) {
            (InteractivePhase::Writing, InteractiveEvent::Written { fault }) => match fault {
                None => {
                    let mut idle = idle;
                    self.begin_wait();
                    idle.wait.deadline = now.plus(idle.wait.timeout);
                    idle.asked(InteractivePhase::Looking, InteractiveAsk::Look)
                },
                Some(fault) => {
                    let error = stdin_error(&idle.wait.mode, fault);
                    idle.failed(self.live, error)
                },
            },
            (InteractivePhase::Looking, InteractiveEvent::Seen { cancelled, status }) => self.look(
                InteractiveRun { phase: InteractivePhase::Looking, ..idle },
                TurnInput { now, cancelled, status },
            ),
            (InteractivePhase::Gathering { code }, InteractiveEvent::Ready { events }) => {
                let action = self.after_exit(code, events);
                self.act(idle, action, now)
            },
            (InteractivePhase::Receiving, InteractiveEvent::Received { what }) => {
                match self.receive(what) {
                    Err(error) => idle.asked(
                        InteractivePhase::TryKilling { error },
                        InteractiveAsk::Kill,
                    ),
                    Ok(_) => idle.asked(InteractivePhase::Looking, InteractiveAsk::Look),
                }
            },
            (InteractivePhase::Draining { deadline }, InteractiveEvent::Received { what }) => {
                match what {
                    Received::Event(trailing) => match self.apply_event(trailing) {
                        Err(error) => idle.failed(self.live, error),
                        Ok(_) => idle.drained(deadline, now),
                    },
                    _ => idle.asked(InteractivePhase::Checking, InteractiveAsk::LookAtChild),
                }
            },
            (InteractivePhase::Checking, InteractiveEvent::Child { status }) => {
                match self.finish_prompt_wait(status) {
                    Ok(output) => {
                        let result = conclude_execution(output, idle.wait.observed);
                        idle.asked(
                            InteractivePhase::Over,
                            InteractiveAsk::Done { result: Ok(result) },
                        )
                    },
                    Err(error) => idle.failed(self.live, error),
                }
            },
            (InteractivePhase::Killing { error }, InteractiveEvent::Killed { failure }) => {
                let outcome = match failure {
                    None => Ok(()),
                    Some(fault) => Err(fault.into_error()),
                };
                let error = self.after_kill(outcome, error);
                idle.failed(self.live, error)
            },
            (InteractivePhase::TryKilling { error }, InteractiveEvent::Killed { failure }) => {
                self.after_try_kill(failure.is_none());
                idle.failed(self.live, error)
            },
            (
                InteractivePhase::ShuttingDown { error, deadline },
                InteractiveEvent::Child { status },
            ) => {
                self.look_at_shutdown(idle, error, deadline, status, now)
            },
            (InteractivePhase::ForcingDown { error }, InteractiveEvent::Killed { failure }) => {
                let outcome = match failure {
                    None => Ok(()),
                    Some(fault) => Err(fault.into_error()),
                };
                let shut = self.after_shutdown_kill(outcome);
                let error = self.after_shutdown(shut, error);
                idle.failed(self.live, error)
            },
            (InteractivePhase::Abandoning { error }, InteractiveEvent::Killed { failure }) => {
                if failure.is_none() {
                    self.end();
                }
                idle.asked(InteractivePhase::Over, InteractiveAsk::Done { result: Err(error) })
            },
            (phase, _) => idle.asked(phase, InteractiveAsk::Repeat),
        }
    }
}

fn fresh_run(command: &str, timeout: Span, policy: Option<ProcessExecutionPolicy>) -> (r:
    InteractiveRun)
    ensures
        r@ == fresh_command(command@, timeout, policy),
{
    InteractiveRun {
        wait: PromptWait {
            mode: WaitMode::Command { command: command.to_owned() },
            timeout,
            deadline: Moment { nanos: 0 },
            observed: None,
        },
        policy,
        phase: InteractivePhase::Writing,
    }
}

fn stdin_error(mode: &WaitMode, fault: StdinFault) -> (r: InteractiveProcessError)
    ensures
        r@ == stdin_failure(mode@, fault@),
{
    let command = match mode {
        WaitMode::Startup => String::new(),
        WaitMode::Command { command } => command.clone(),
    };
    match fault {
        StdinFault::Write { source } => InteractiveProcessError::StdinWriteFailed {
            command,
            source,
        },
        StdinFault::Flush { source } => InteractiveProcessError::StdinFlushFailed {
            command,
            source,
        },
    }
}

impl KillFault {
    /// Failure of a child that could not be killed.
    pub fn into_error(self) -> (r: InteractiveProcessError)
        ensures
            r@ == kill_failure(self@),
    {
        match self {
            KillFault::Kill { source } => InteractiveProcessError::KillFailed { source },
            KillFault::Wait { source } => InteractiveProcessError::WaitFailed { source },
        }
    }
}

// ---------------------------------------------------------------------------------------------
// Laws

/// Once its child has been killed, a session takes no further command.
pub proof fn killed_child_closes_the_session(
    s: InteractiveSessionView,
    run: InteractiveRunView,
    now: Moment,
)
    requires
        run.phase is Killing || run.phase is TryKilling || run.phase is ForcingDown
            || run.phase is Abandoning,
    ensures
        is_closed(run_step(s, run, InteractiveEventView::Killed { failure: None }, now).0),
{
}

/// A session that fails to start never leaves its child behind: as long as there is one, the
/// failure is given only after an attempt to kill it.
pub proof fn failed_start_gives_the_child_up(
    s: InteractiveSessionView,
    run: InteractiveRunView,
    event: InteractiveEventView,
    now: Moment,
)
    requires
        run.wait.mode is Startup,
        !(run.phase is Abandoning),
    ensures
        ({
            let (next, step) = run_step(s, run, event, now);
            step.ask is Done && step.ask->result is Err ==> !next.live
        }),
{
}

/// A critical command is neither killed nor shut down while its child runs, whatever its policy
/// observes.
pub proof fn critical_run_is_left_alone(
    s: InteractiveSessionView,
    run: InteractiveRunView,
    policy: ProcessExecutionPolicy,
    cancelled: bool,
    now: Moment,
)
    requires
        run.phase is Looking,
        run.policy == Some(policy),
        policy.safety == ProcessInterruptionSafety::CriticalNonAbortable,
        s.live,
    ensures
        ({
            let event = InteractiveEventView::Seen { cancelled, status: ChildStatusView::Running };
            let phase = run_step(s, run, event, now).1.run.phase;
            phase is Receiving || phase is Draining || phase is Checking
        }),
{
}

/// A run that is over stays over, whatever comes.
pub proof fn ended_run_stays_ended(
    s: InteractiveSessionView,
    run: InteractiveRunView,
    event: InteractiveEventView,
    now: Moment,
)
    requires
        run.phase is Over,
    ensures
        run_step(s, run, event, now) == asks(s, run, run.phase, InteractiveAskView::Repeat),
{
}

/// A closed session takes no command: the run is over before anything is written.
pub proof fn closed_session_refuses(
    s: InteractiveSessionView,
    command: Seq<char>,
    timeout: Span,
    policy: ProcessExecutionPolicy,
    cancelled: bool,
)
    requires
        is_closed(s),
    ensures
        command_begins(command, timeout, None, command_refusal(s)).ask is Done,
        command_begins(
            command,
            timeout,
            Some(policy),
            policy_refusal(s, command, timeout, cancelled),
        ).ask is Done,
{
}

/// Session, run and last question after a row of events, each with its time.
pub open spec fn run_after(
    s: InteractiveSessionView,
    first: InteractiveStepView,
    events: Seq<(InteractiveEventView, Moment)>,
) -> (InteractiveSessionView, InteractiveStepView)
    decreases events.len(),
{
    if events.len() == 0 {
        (s, first)
    } else {
        let (before, step) = run_after(s, first, events.drop_last());
        run_step(before, step.run, events.last().0, events.last().1)
    }
}

/// A row of reader events, each received at its time.
pub open spec fn received_row(row: Seq<(ReaderEventView, Moment)>) -> Seq<
    (InteractiveEventView, Moment),
> {
    Seq::new(
        row.len(),
        |i: int|
            (InteractiveEventView::Received { what: ReceivedView::Event(row[i].0) }, row[i].1),
    )
}

/// The reader events of a row.
pub open spec fn events_of(row: Seq<(ReaderEventView, Moment)>) -> Seq<ReaderEventView> {
    Seq::new(row.len(), |i: int| row[i].0)
}

/// Session after a row of readable events has been gathered behind the prompt: their bytes follow
/// what was pending.
pub open spec fn gathered(s: InteractiveSessionView, events: Seq<ReaderEventView>, k: int) ->
    InteractiveSessionView {
    InteractiveSessionView {
        stdout_pending: s.stdout_pending + bytes_on(InteractiveStream::Stdout, events, k),
        stderr_pending: s.stderr_pending + bytes_on(InteractiveStream::Stderr, events, k),
        ..s
    }
}

proof fn lemma_gathering(
    s: InteractiveSessionView,
    first: InteractiveStepView,
    deadline: Moment,
    row: Seq<(ReaderEventView, Moment)>,
    k: int,
)
    requires
        0 <= k <= row.len(),
        first.run.phase == (InteractivePhaseView::Draining { deadline }),
        forall|i: int|
            0 <= i < row.len() ==> !((#[trigger] row[i]).0 is ReadError) && row[i].1.nanos
                < deadline.nanos,
    ensures
        run_after(s, first, received_row(row).take(k)).0 == gathered(s, events_of(row), k),
        run_after(s, first, received_row(row).take(k)).1.run == first.run,
    decreases k,
{
    let events = events_of(row);
    if k == 0 {
        assert(gathered(s, events, 0).stdout_pending =~= s.stdout_pending);
        assert(gathered(s, events, 0).stderr_pending =~= s.stderr_pending);
    } else {
        let part = received_row(row).take(k);
        lemma_gathering(s, first, deadline, row, k - 1);
        assert(part.drop_last() =~= received_row(row).take(k - 1));
        assert(part.last() == received_row(row)[k - 1]);
        let before = gathered(s, events, k - 1);
        let after = gathered(s, events, k);
        let next = fed(before, row[k - 1].0).0;
        assert(!(row[k - 1].0 is ReadError));
        assert(next.stdout_pending =~= after.stdout_pending);
        assert(next.stderr_pending =~= after.stderr_pending);
    }
}

/// Everything that comes behind the prompt within the time for it is reported, in its order, after
/// what came before: with the result of the command, or with the exit of a child that has gone.
pub proof fn output_behind_the_prompt_is_reported(
    s: InteractiveSessionView,
    first: InteractiveStepView,
    deadline: Moment,
    row: Seq<(ReaderEventView, Moment)>,
    code: Option<i32>,
    now: Moment,
)
    requires
        s.live,
        first.run.phase == (InteractivePhaseView::Draining { deadline }),
        forall|i: int|
            0 <= i < row.len() ==> !((#[trigger] row[i]).0 is ReadError) && row[i].1.nanos
                < deadline.nanos,
    ensures
        ({
            let n = row.len() as int;
            let stdout = lossy_text(
                s.stdout + s.stdout_pending + bytes_on(
                    InteractiveStream::Stdout,
                    events_of(row),
                    n,
                ),
            );
            let stderr = lossy_text(
                s.stderr + s.stderr_pending + bytes_on(
                    InteractiveStream::Stderr,
                    events_of(row),
                    n,
                ),
            );
            let (after, step) = run_after(s, first, received_row(row));
            let quiet = InteractiveEventView::Received { what: ReceivedView::Timeout };
            let (checked, check) = run_step(after, step.run, quiet, now);
            let running = InteractiveEventView::Child { status: ChildStatusView::Running };
            let exited = InteractiveEventView::Child { status: ChildStatusView::Exited { code } };
            &&& check.ask is LookAtChild
            &&& run_step(checked, check.run, running, now).1.ask == InteractiveAskView::Done {
                result: Ok(
                    execution(
                        InteractiveCommandOutputView { stdout, stderr },
                        first.run.wait.observed,
                    ),
                ),
            }
            &&& run_step(checked, check.run, exited, now).1.ask == InteractiveAskView::Done {
                result: Err(
                    InteractiveProcessErrorView::ProcessExited {
                        exit_code: reported_code(code),
                        stdout,
                        stderr,
                    },
                ),
            }
        }),
{
    let n = row.len() as int;
    let events = events_of(row);
    lemma_gathering(s, first, deadline, row, n);
    assert(received_row(row).take(n) =~= received_row(row));
    let after = gathered(s, events, n);
    assert(after.stdout + after.stdout_pending =~= s.stdout + s.stdout_pending + bytes_on(
        InteractiveStream::Stdout,
        events,
        n,
    ));
    assert(after.stderr + after.stderr_pending =~= s.stderr + s.stderr_pending + bytes_on(
        InteractiveStream::Stderr,
        events,
        n,
    ));
}

/// Failures after which a session is of no use.
pub open spec fn is_fatal(error: InteractiveProcessErrorView) -> bool {
    error is CommandTimeout || error is ProcessExited || error is StreamReadFailed
}

/// Run of a command. Running out of time is no reason to kill a child whether that succeeds or not.
pub open spec fn is_command_run(run: InteractiveRunView) -> bool {
    &&& run.wait.mode is Command
    &&& !(run.phase is Abandoning)
    &&& run.phase matches InteractivePhaseView::TryKilling { error } ==> !(error is CommandTimeout)
}

proof fn lemma_feeding(s: InteractiveSessionView, events: Seq<ReaderEventView>)
    ensures
        ({
            let (next, failure) = fed_all(s, events);
            &&& next.live == s.live
            &&& next.terminated == s.terminated
            &&& failure is Some ==> failure->0 is StreamReadFailed && next.poisoned
        }),
    decreases events.len(),
{
    if events.len() > 0 {
        lemma_feeding(s, events.drop_last());
    }
}

/// What holds after a step of a command's run.
pub open spec fn is_sound_step(s: InteractiveSessionView, step: InteractiveStepView) -> bool {
    &&& is_coherent(s)
    &&& is_command_run(step.run)
    &&& step.ask matches InteractiveAskView::Done { result: Err(error) } ==> {
        &&& is_fatal(error) ==> is_closed(s)
        &&& error is CommandTimeout ==> !s.live
    }
}

proof fn lemma_turn_closes(
    s: InteractiveSessionView,
    run: InteractiveRunView,
    input: TurnInputView,
)
    requires
        is_coherent(s),
        is_command_run(run),
    ensures
        is_sound_step(turns(s, run, input).0, turns(s, run, input).1),
{
}

proof fn lemma_exit_closes(
    s: InteractiveSessionView,
    run: InteractiveRunView,
    code: Option<i32>,
    events: Seq<ReaderEventView>,
    now: Moment,
)
    requires
        is_coherent(s),
        is_command_run(run),
    ensures
        ({
            let (last, action) = exit_turn(s, code, events);
            is_sound_step(acts(last, run, action, now).0, acts(last, run, action, now).1)
        }),
{
    lemma_feeding(s, events);
}

proof fn lemma_step_closes(
    s: InteractiveSessionView,
    run: InteractiveRunView,
    event: InteractiveEventView,
    now: Moment,
)
    requires
        is_coherent(s),
        is_command_run(run),
    ensures
        is_sound_step(run_step(s, run, event, now).0, run_step(s, run, event, now).1),
{
    match (run.phase, event) {
        (InteractivePhaseView::Looking, InteractiveEventView::Seen { cancelled, status }) => {
            lemma_turn_closes(s, run, TurnInputView { now, cancelled, status });
        },
        (InteractivePhaseView::Gathering { code }, InteractiveEventView::Ready { events }) => {
            lemma_exit_closes(s, run, code, events, now);
        },
        _ => {},
    }
}

/// Whatever a run goes through, and whatever a kill or a shutdown outside of a run does, a session
/// that has been given up has no child.
pub proof fn session_stays_coherent(
    s: InteractiveSessionView,
    run: InteractiveRunView,
    event: InteractiveEventView,
    now: Moment,
    killed: bool,
    poisoned: bool,
)
    requires
        is_coherent(s),
    ensures
        is_coherent(run_step(s, run, event, now).0),
        is_coherent(begins(s, run, now).0),
        is_coherent(kill_tried(s, killed)),
        is_coherent(InteractiveSessionView { stdin_open: false, ..s }),
        is_coherent(InteractiveSessionView { live: false, terminated: true, poisoned, ..s }),
{
    match (run.phase, event) {
        (InteractivePhaseView::Gathering { code }, InteractiveEventView::Ready { events }) => {
            lemma_feeding(s, events);
        },
        _ => {},
    }
}

/// A command that ran out of time, lost its child or could not be read leaves a session that
/// refuses every later command at once and writes nothing to the child; after a command that ran
/// out of time the session has no child either. This holds however the run went.
pub proof fn failed_command_closes_the_session(
    s: InteractiveSessionView,
    command: Seq<char>,
    timeout: Span,
    policy: Option<ProcessExecutionPolicy>,
    events: Seq<(InteractiveEventView, Moment)>,
    later: Seq<char>,
    later_timeout: Span,
)
    requires
        is_coherent(s),
        ({
            let end = run_after(s, command_begins(command, timeout, policy, None), events).1.ask;
            end matches InteractiveAskView::Done { result: Err(error) } && is_fatal(error)
        }),
    ensures
        ({
            let (after, step) = run_after(
                s,
                command_begins(command, timeout, policy, None),
                events,
            );
            let refused = command_begins(later, later_timeout, None, command_refusal(after));
            &&& refused.ask == (InteractiveAskView::Done {
                result: Err(InteractiveProcessErrorView::Poisoned),
            }) || refused.ask == (InteractiveAskView::Done {
                result: Err(InteractiveProcessErrorView::Terminated),
            })
            &&& step.ask->result->Err_0 is CommandTimeout ==> !after.live
        }),
{
    lemma_run_closes(s, command_begins(command, timeout, policy, None), events);
}

proof fn lemma_run_closes(
    s: InteractiveSessionView,
    first: InteractiveStepView,
    events: Seq<(InteractiveEventView, Moment)>,
)
    requires
        is_coherent(s),
        is_command_run(first.run),
        !(first.ask is Done),
    ensures
        ({
            let (after, step) = run_after(s, first, events);
            is_sound_step(after, step)
        }),
    decreases events.len(),
{
    if events.len() > 0 {
        let rest = events.drop_last();
        lemma_run_closes(s, first, rest);
        let (before, step) = run_after(s, first, rest);
        lemma_step_closes(before, step.run, events.last().0, events.last().1);
    }
}

} // verus!
