//! One call of a tool from beginning to end: the wait for a slot, the command or the check over the
//! shared EDT session, and the reply.

use vstd::prelude::*;
use crate::config::{AppConfig, AppConfigView};
use crate::mcp::context::McpCallContext;
use crate::mcp::edt_syntax_check::{EdtSyntaxOutcome, EdtSyntaxOutcomeView};
use crate::mcp::envelope::{Envelope, EnvelopeView};
use crate::mcp::error::McpServiceError;
use crate::mcp::service_map::{service_view, ServiceErrorView};
use crate::mcp::tool_call::{
    conclude_edt_call, early_end, edt_call_timeout, edt_reply, left_for, map_tool_result,
    reply_view, run_step, slot_wait, tool_reply, uses_shared_session, CallFault, CallFaultView,
    ErrorReason, ExecutionStage, McpTool, QueuedCall, RunStep, RunStepView, RunningCall,
    SemaphoreWaitOutcome, SlotPoll, SlotPollView, SlotWait, SlotWaitView, TaskPoll, ToolReply,
    ToolReplyView,
};
use crate::time::{millis_span, shorter, time_until, Moment, Span};

verus! {

/// Where a call stands.
#[derive(Clone, Copy, Debug, PartialEq, Eq, Structural)]
pub enum ToolPhase {
    /// It waits for a slot.
    Queued { call: QueuedCall },
    /// Its command runs.
    Running { call: RunningCall },
    /// Its check runs over the shared EDT session.
    Checking { call: RunningCall },
    /// The caller was given its reply.
    Over,
}

/// Call of a tool.
#[derive(Clone, Copy, Debug, PartialEq, Eq, Structural)]
pub struct ToolCall {
    pub context: McpCallContext,
    /// The call is a check over the shared EDT session, whose commands may take so long.
    pub shared_session: Option<u64>,
    /// How the wait for a slot ended.
    pub waited: Option<SemaphoreWaitOutcome>,
    pub phase: ToolPhase,
}

/// What a call asks for.
#[derive(Debug)]
pub enum ToolAsk {
    /// Wait for a slot, the cancellation or the deadline.
    WaitForSlot { deadline: Option<Moment> },
    /// Run the command, and wait for its end, the cancellation or the deadline.
    Run { context: McpCallContext, deadline: Option<Moment> },
    /// Check the projects over the shared EDT session.
    Check { timeout: Span },
    /// Wait on for the end of the command; with a deadline, for that or the cancellation as well.
    Watch { deadline: Option<Moment> },
    /// Tell the command to stop, and wait for its end.
    Cancel,
    /// Nothing more: the caller gets its reply, and the slot is free.
    Done { reply: Result<ToolReply, CallFault> },
    /// The event answers another question. The last one stands.
    Repeat,
}

/// Mathematical value of [`ToolAsk`].
pub enum ToolAskView {
    WaitForSlot { deadline: Option<Moment> },
    Run { context: McpCallContext, deadline: Option<Moment> },
    Check { timeout: Span },
    Watch { deadline: Option<Moment> },
    Cancel,
    Done { reply: Result<ToolReplyView, CallFaultView> },
    Repeat,
}

impl View for ToolAsk {
    type V = ToolAskView;

    open spec fn view(&self) -> ToolAskView {
        match *self {
            ToolAsk::WaitForSlot { deadline } => ToolAskView::WaitForSlot { deadline },
            ToolAsk::Run { context, deadline } => ToolAskView::Run { context, deadline },
            ToolAsk::Check { timeout } => ToolAskView::Check { timeout },
            ToolAsk::Watch { deadline } => ToolAskView::Watch { deadline },
            ToolAsk::Cancel => ToolAskView::Cancel,
            ToolAsk::Done { reply } => ToolAskView::Done { reply: reply_view(reply) },
            ToolAsk::Repeat => ToolAskView::Repeat,
        }
    }
}

/// What the outside world answers.
#[derive(Debug)]
pub enum ToolEvent {
    /// What the slots offer.
    Slot { slot: SlotPoll, cancelled: bool },
    /// The command still runs.
    Pending { cancelled: bool },
    /// The command has ended.
    Ended { result: Result<Envelope, McpServiceError<Envelope>> },
    /// The command ended without a result.
    Lost,
    /// The check has ended.
    Checked { outcome: EdtSyntaxOutcome },
}

/// Mathematical value of [`ToolEvent`].
pub enum ToolEventView {
    Slot { slot: SlotPollView, cancelled: bool },
    Pending { cancelled: bool },
    Ended { result: Result<EnvelopeView, ServiceErrorView> },
    Lost,
    Checked { outcome: EdtSyntaxOutcomeView },
}

impl View for ToolEvent {
    type V = ToolEventView;

    open spec fn view(&self) -> ToolEventView {
        match *self {
            ToolEvent::Slot { slot, cancelled } => ToolEventView::Slot { slot: slot@, cancelled },
            ToolEvent::Pending { cancelled } => ToolEventView::Pending { cancelled },
            ToolEvent::Ended { result } => ToolEventView::Ended { result: service_view(result) },
            ToolEvent::Lost => ToolEventView::Lost,
            ToolEvent::Checked { outcome } => ToolEventView::Checked { outcome: outcome@ },
        }
    }
}

/// A call after an event, and what it asks for.
#[derive(Debug)]
pub struct ToolStep {
    pub call: ToolCall,
    pub ask: ToolAsk,
}

/// Mathematical value of [`ToolStep`].
pub struct ToolStepView {
    pub call: ToolCall,
    pub ask: ToolAskView,
}

impl View for ToolStep {
    type V = ToolStepView;

    open spec fn view(&self) -> ToolStepView {
        ToolStepView { call: self.call, ask: self.ask@ }
    }
}

/// A call moves to a phase and asks.
pub open spec fn moves(call: ToolCall, phase: ToolPhase, ask: ToolAskView) -> ToolStepView {
    ToolStepView { call: ToolCall { phase, ..call }, ask }
}

/// A call ends.
pub open spec fn ends(call: ToolCall, reply: Result<ToolReplyView, CallFaultView>) ->
    ToolStepView {
    moves(call, ToolPhase::Over, ToolAskView::Done { reply })
}

/// How a call begins: it queues, with the time that the configuration gives it.
pub open spec fn call_begins(
    tool: McpTool,
    config: AppConfigView,
    context: McpCallContext,
    now: Moment,
) -> ToolStepView {
    let timeout = millis_span(config.execution_timeout as nat);
    let deadline = Some(Moment { nanos: (now.nanos + timeout.nanos) as u128 });
    ToolStepView {
        call: ToolCall {
            context,
            shared_session: if tool == McpTool::CheckSyntaxEdt
                && config.tools.edt_cli.interactive_mode {
                Some(config.tools.edt_cli.command_timeout_ms)
            } else {
                None
            },
            waited: None,
            phase: ToolPhase::Queued { call: QueuedCall { timeout: Some(timeout), deadline } },
        },
        ask: ToolAskView::WaitForSlot { deadline },
    }
}

/// Call that begins to run.
pub open spec fn running_call(queued: QueuedCall, now: Moment) -> RunningCall {
    RunningCall {
        timeout: queued.timeout,
        deadline: queued.deadline,
        remaining: left_for(queued, now),
        interrupted: None,
    }
}

/// Step of a call that has taken a slot: one that was cancelled or has no time left ends, and the
/// rest run.
pub open spec fn starts(call: ToolCall, queued: QueuedCall, cancelled: bool, now: Moment) ->
    ToolStepView {
    let running = running_call(queued, now);
    if cancelled {
        ends(
            call,
            Err(early_end(ErrorReason::Cancelled, ExecutionStage::Queued, queued.timeout)),
        )
    } else if queued.deadline is Some && time_until(queued.deadline->0, now).nanos == 0 {
        ends(call, Err(early_end(ErrorReason::Timeout, ExecutionStage::Queued, queued.timeout)))
    } else {
        match call.shared_session {
            Some(command_timeout_ms) => moves(
                call,
                ToolPhase::Checking { call: running },
                ToolAskView::Check {
                    timeout: match running.remaining {
                        Some(left) => shorter(left, millis_span(command_timeout_ms as nat)),
                        None => millis_span(1),
                    },
                },
            ),
            None => moves(
                call,
                ToolPhase::Running { call: running },
                ToolAskView::Run {
                    context: McpCallContext {
                        deadline: running.deadline,
                        edt_timeout: running.remaining,
                        ..call.context
                    },
                    deadline: running.deadline,
                },
            ),
        }
    }
}

/// Step of a call that waits for a slot.
pub open spec fn queues(
    call: ToolCall,
    queued: QueuedCall,
    slot: SlotPollView,
    cancelled: bool,
    now: Moment,
) -> ToolStepView {
    match slot_wait(queued, cancelled, now, slot) {
        SlotWaitView::Waiting => moves(
            call,
            call.phase,
            ToolAskView::WaitForSlot { deadline: queued.deadline },
        ),
        SlotWaitView::Taken => starts(
            ToolCall { waited: Some(SemaphoreWaitOutcome::Acquired), ..call },
            queued,
            cancelled,
            now,
        ),
        SlotWaitView::Given { outcome, fault } => ends(
            ToolCall { waited: Some(outcome), ..call },
            Err(fault),
        ),
    }
}

/// Deadline that is still watched: none once the command was told of an interruption.
pub open spec fn watched_deadline(running: RunningCall) -> Option<Moment> {
    if running.interrupted is Some {
        None
    } else {
        running.deadline
    }
}

/// Step of a call whose command still runs.
pub open spec fn watches(call: ToolCall, running: RunningCall, cancelled: bool, now: Moment) ->
    ToolStepView {
    let (next, step) = run_step(running, TaskPoll::Pending, cancelled, now);
    match step {
        RunStepView::Cancel => moves(
            call,
            ToolPhase::Running { call: next },
            ToolAskView::Cancel,
        ),
        _ => moves(
            call,
            ToolPhase::Running { call: next },
            ToolAskView::Watch { deadline: watched_deadline(next) },
        ),
    }
}

/// Step of a call on an event.
pub open spec fn call_step(call: ToolCall, event: ToolEventView, now: Moment) -> ToolStepView {
    match (call.phase, event) {
        (ToolPhase::Queued { call: queued }, ToolEventView::Slot { slot, cancelled }) => queues(
            call,
            queued,
            slot,
            cancelled,
            now,
        ),
        (ToolPhase::Running { call: running }, ToolEventView::Pending { cancelled }) => watches(
            call,
            running,
            cancelled,
            now,
        ),
        (ToolPhase::Running { call: running }, ToolEventView::Ended { result }) => ends(
            call,
            tool_reply(result),
        ),
        (ToolPhase::Running { call: running }, ToolEventView::Lost) => ends(
            call,
            Err(early_end(ErrorReason::JoinFailure, ExecutionStage::Running, running.timeout)),
        ),
        (ToolPhase::Checking { call: running }, ToolEventView::Checked { outcome }) => ends(
            call,
            edt_reply(outcome, running.timeout),
        ),
        _ => moves(call, call.phase, ToolAskView::Repeat),
    }
}

impl ToolCall {
    fn moved(self, phase: ToolPhase, ask: ToolAsk) -> (r: ToolStep)
        ensures
            r@ == moves(self, phase, ask@),
    {
        ToolStep { call: ToolCall { phase, ..self }, ask }
    }

    fn ended(self, reply: Result<ToolReply, CallFault>) -> (r: ToolStep)
        ensures
            r@ == ends(self, reply_view(reply)),
    {
        self.moved(ToolPhase::Over, ToolAsk::Done { reply })
    }

    /// Begins a call.
    pub fn begin(tool: McpTool, config: &AppConfig, context: McpCallContext, now: Moment) -> (r:
        ToolStep)
        requires
            now.nanos + config@.execution_timeout * 1_000_000 <= u128::MAX,
        ensures
            r@ == call_begins(tool, config@, context, now),
    {
        let queued = QueuedCall::new(tool.execution_policy(config), now);
        let shared_session = if tool == McpTool::CheckSyntaxEdt && uses_shared_session(config) {
            Some(config.tools.edt_cli.command_timeout_ms)
        } else {
            None
        };
        ToolStep {
            call: ToolCall {
                context,
                shared_session,
                waited: None,
                phase: ToolPhase::Queued { call: queued },
            },
            ask: ToolAsk::WaitForSlot { deadline: queued.deadline },
        }
    }

    fn start(self, queued: QueuedCall, cancelled: bool, now: Moment) -> (r: ToolStep)
        ensures
            r@ == starts(self, queued, cancelled, now),
    {
        match queued.start(cancelled, now) {
            Err(fault) => self.ended(Err(fault)),
            Ok(running) => match self.shared_session {
                Some(command_timeout_ms) => self.moved(
                    ToolPhase::Checking { call: running },
                    ToolAsk::Check {
                        timeout: edt_call_timeout(running.remaining, command_timeout_ms),
                    },
                ),
                None => self.moved(
                    ToolPhase::Running { call: running },
                    ToolAsk::Run {
                        context: running.context(self.context),
                        deadline: running.deadline,
                    },
                ),
            },
        }
    }

    fn queue(self, queued: QueuedCall, slot: SlotPoll, cancelled: bool, now: Moment) -> (r:
        ToolStep)
        requires
            self.phase == (ToolPhase::Queued { call: queued }),
        ensures
            r@ == queues(self, queued, slot@, cancelled, now),
    {
        match queued.acquire_execution_slot(cancelled, now, slot) {
            SlotWait::Waiting => self.moved(
                ToolPhase::Queued { call: queued },
                ToolAsk::WaitForSlot { deadline: queued.deadline },
            ),
            SlotWait::Taken => {
                let call = ToolCall { waited: Some(SemaphoreWaitOutcome::Acquired), ..self };
                call.start(queued, cancelled, now)
            },
            SlotWait::Given { outcome, fault } => {
                let call = ToolCall { waited: Some(outcome), ..self };
                call.ended(Err(fault))
            },
        }
    }

    fn watch(self, running: RunningCall, cancelled: bool, now: Moment) -> (r: ToolStep)
        ensures
            r@ == watches(self, running, cancelled, now),
    {
        let mut next = running;
        let step = next.poll(TaskPoll::Pending, cancelled, now);
        match step {
            RunStep::Cancel => self.moved(ToolPhase::Running { call: next }, ToolAsk::Cancel),
            _ => {
                let deadline = if next.interrupted.is_some() {
                    None
                } else {
                    next.deadline
                };
                self.moved(ToolPhase::Running { call: next }, ToolAsk::Watch { deadline })
            },
        }
    }

    /// Takes an event.
    pub fn step(self, event: ToolEvent, now: Moment) -> (r: ToolStep)
        ensures
            r@ == call_step(self, event@, now),
    {
        match (self.phase, event) {
            (ToolPhase::Queued { call: queued }, ToolEvent::Slot { slot, cancelled }) => {
                self.queue(queued, slot, cancelled, now)
            },
            (ToolPhase::Running { call: running }, ToolEvent::Pending { cancelled }) => {
                self.watch(running, cancelled, now)
            },
            (ToolPhase::Running { .. }, ToolEvent::Ended { result }) => self.ended(
                map_tool_result(result),
            ),
            (ToolPhase::Running { call: running }, ToolEvent::Lost) => {
                let mut last = running;
                match last.poll(TaskPoll::Failed, false, now) {
                    RunStep::Fault(fault) => self.ended(Err(fault)),
                    _ => self.moved(ToolPhase::Running { call: running }, ToolAsk::Repeat),
                }
            },
            (ToolPhase::Checking { call: running }, ToolEvent::Checked { outcome }) => self.ended(
                conclude_edt_call(outcome, running.timeout),
            ),
            (phase, _) => self.moved(phase, ToolAsk::Repeat),
        }
    }
}

// ---------------------------------------------------------------------------------------------
// Laws

/// A call whose command or check runs gets its reply only from the end of that command or check:
/// neither cancellation nor the deadline answers it before.
pub proof fn running_call_is_answered_by_its_end(
    call: ToolCall,
    event: ToolEventView,
    now: Moment,
)
    requires
        call.phase is Running || call.phase is Checking,
        call_step(call, event, now).ask is Done,
    ensures
        event is Ended || event is Lost || event is Checked,
{
}

/// The command is told to stop at most once, and only because of the deadline.
pub proof fn command_is_stopped_once(
    call: ToolCall,
    running: RunningCall,
    cancelled: bool,
    later_cancelled: bool,
    now: Moment,
    later: Moment,
)
    requires
        call.phase == (ToolPhase::Running { call: running }),
        call_step(call, ToolEventView::Pending { cancelled }, now).ask is Cancel,
    ensures
        !cancelled,
        running.deadline is Some,
        running.deadline->0.nanos <= now.nanos,
        call_step(
            call_step(call, ToolEventView::Pending { cancelled }, now).call,
            ToolEventView::Pending { cancelled: later_cancelled },
            later,
        ).ask == (ToolAskView::Watch { deadline: None }),
{
}

/// A call that was cancelled or whose time ran out while it queued runs nothing.
pub proof fn withdrawn_call_runs_nothing(
    call: ToolCall,
    queued: QueuedCall,
    slot: SlotPollView,
    cancelled: bool,
    now: Moment,
)
    requires
        call.phase == (ToolPhase::Queued { call: queued }),
        cancelled || (queued.deadline is Some && queued.deadline->0.nanos <= now.nanos),
    ensures
        ({
            let step = call_step(call, ToolEventView::Slot { slot, cancelled }, now);
            &&& step.ask is Done
            &&& step.ask->reply is Err
            &&& step.call.phase is Over
        }),
{
}

/// What a check over the shared session is given never exceeds what is left of the call.
pub proof fn check_fits_into_the_call(
    call: ToolCall,
    queued: QueuedCall,
    slot: SlotPollView,
    cancelled: bool,
    now: Moment,
)
    requires
        call.phase == (ToolPhase::Queued { call: queued }),
        queued.deadline is Some,
        call_step(call, ToolEventView::Slot { slot, cancelled }, now).ask is Check,
    ensures
        call_step(call, ToolEventView::Slot { slot, cancelled }, now).ask->timeout.nanos
            <= time_until(queued.deadline->0, now).nanos,
{
}

} // verus!
