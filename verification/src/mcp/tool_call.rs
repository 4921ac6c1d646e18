//! Call of a tool: the wait for a slot, the run, and what the caller is told.

use vstd::prelude::*;
use crate::config::AppConfig;
use crate::mcp::context::McpCallContext;
use crate::mcp::edt_syntax_check::{EdtSyntaxOutcome, EdtSyntaxOutcomeView};
use crate::mcp::edt_syntax_run::EdtSyntaxTransportError;
use crate::mcp::envelope::{Envelope, EnvelopeView};
use crate::mcp::error::{McpBusinessError, McpBusinessErrorView, McpServiceError};
use crate::mcp::service::{map_syntax_use_case_result, syntax_outcome};
use crate::mcp::service_map::{service_view, ServiceErrorView};
use crate::time::{capped_millis, millis_span, shorter, time_until, Moment, Span};
use crate::use_cases::UseCaseFailure;

verus! {

/// Tool of the MCP server.
#[derive(Clone, Copy, Debug, PartialEq, Eq, Structural)]
pub enum McpTool {
    RunAllTests,
    RunModuleTests,
    BuildProject,
    DumpConfig,
    LaunchApp,
    CheckSyntaxEdt,
    CheckSyntaxDesignerConfig,
    CheckSyntaxDesignerModules,
}

/// Name of a tool.
pub open spec fn tool_name(tool: McpTool) -> Seq<char> {
    match tool {
        McpTool::RunAllTests => "run_all_tests"@,
        McpTool::RunModuleTests => "run_module_tests"@,
        McpTool::BuildProject => "build_project"@,
        McpTool::DumpConfig => "dump_config"@,
        McpTool::LaunchApp => "launch_app"@,
        McpTool::CheckSyntaxEdt => "check_syntax_edt"@,
        McpTool::CheckSyntaxDesignerConfig => "check_syntax_designer_config"@,
        McpTool::CheckSyntaxDesignerModules => "check_syntax_designer_modules"@,
    }
}

/// Limits on a call.
#[derive(Clone, Copy, Debug, PartialEq, Eq, Structural)]
pub struct ExecutionPolicy {
    pub timeout: Option<Span>,
}

impl ExecutionPolicy {
    /// Call that has to end in time.
    pub fn bounded(timeout: Span) -> (r: Self)
        ensures
            r == (ExecutionPolicy { timeout: Some(timeout) }),
    {
        ExecutionPolicy { timeout: Some(timeout) }
    }
}

impl McpTool {
    /// Name of the tool.
    pub fn as_str(self) -> (r: &'static str)
        ensures
            r@ == tool_name(self),
    {
        match self {
            McpTool::RunAllTests => "run_all_tests",
            McpTool::RunModuleTests => "run_module_tests",
            McpTool::BuildProject => "build_project",
            McpTool::DumpConfig => "dump_config",
            McpTool::LaunchApp => "launch_app",
            McpTool::CheckSyntaxEdt => "check_syntax_edt",
            McpTool::CheckSyntaxDesignerConfig => "check_syntax_designer_config",
            McpTool::CheckSyntaxDesignerModules => "check_syntax_designer_modules",
        }
    }

    /// Limits on a call of the tool: those of the configuration, whichever the tool.
    pub fn execution_policy(self, config: &AppConfig) -> (r: ExecutionPolicy)
        ensures
            r == (ExecutionPolicy {
                timeout: Some(millis_span(config@.execution_timeout as nat)),
            }),
    {
        ExecutionPolicy::bounded(config.execution_timeout_duration())
    }
}

// ---------------------------------------------------------------------------------------------
// Faults

/// How far a call had come.
#[derive(Clone, Copy, Debug, PartialEq, Eq, Structural)]
pub enum ExecutionStage {
    Queued,
    Running,
}

/// Why a call ended early.
#[derive(Clone, Copy, Debug, PartialEq, Eq, Structural)]
pub enum ErrorReason {
    Cancelled,
    Timeout,
    JoinFailure,
}

/// Name of a stage.
pub open spec fn stage_name(stage: ExecutionStage) -> Seq<char> {
    match stage {
        ExecutionStage::Queued => "queued"@,
        ExecutionStage::Running => "running"@,
    }
}

/// Name of a reason.
pub open spec fn reason_name(reason: ErrorReason) -> Seq<char> {
    match reason {
        ErrorReason::Cancelled => "cancelled"@,
        ErrorReason::Timeout => "timeout"@,
        ErrorReason::JoinFailure => "join_failure"@,
    }
}

impl ExecutionStage {
    /// Name of the stage.
    pub fn as_str(self) -> (r: &'static str)
        ensures
            r@ == stage_name(self),
    {
        match self {
            ExecutionStage::Queued => "queued",
            ExecutionStage::Running => "running",
        }
    }
}

impl ErrorReason {
    /// Name of the reason.
    pub fn as_str(self) -> (r: &'static str)
        ensures
            r@ == reason_name(self),
    {
        match self {
            ErrorReason::Cancelled => "cancelled",
            ErrorReason::Timeout => "timeout",
            ErrorReason::JoinFailure => "join_failure",
        }
    }
}

/// Fault of the transport: the call gave no response. Where the call ended early, it says why,
/// how far it had come and under which limit.
#[derive(Debug, PartialEq, Eq)]
pub struct CallFault {
    pub message: String,
    pub reason: Option<ErrorReason>,
    pub stage: Option<ExecutionStage>,
    pub timeout_ms: Option<u64>,
}

/// Mathematical value of [`CallFault`].
pub struct CallFaultView {
    pub message: Seq<char>,
    pub reason: Option<ErrorReason>,
    pub stage: Option<ExecutionStage>,
    pub timeout_ms: Option<u64>,
}

impl View for CallFault {
    type V = CallFaultView;

    open spec fn view(&self) -> CallFaultView {
        CallFaultView {
            message: self.message@,
            reason: self.reason,
            stage: self.stage,
            timeout_ms: self.timeout_ms,
        }
    }
}

/// Message of a call that ended early.
pub open spec fn early_end_message(reason: ErrorReason, stage: ExecutionStage) -> Seq<char> {
    match (reason, stage) {
        (ErrorReason::Cancelled, ExecutionStage::Queued) =>
            "MCP call cancelled while waiting for execution slot"@,
        (ErrorReason::Cancelled, ExecutionStage::Running) => "MCP call cancelled during execution"@,
        (ErrorReason::Timeout, ExecutionStage::Queued) =>
            "MCP call timed out while waiting for execution slot"@,
        (ErrorReason::Timeout, ExecutionStage::Running) => "MCP call timed out during execution"@,
        (ErrorReason::JoinFailure, ExecutionStage::Queued) => "MCP queue task failed unexpectedly"@,
        (ErrorReason::JoinFailure, ExecutionStage::Running) =>
            "MCP execution task failed unexpectedly"@,
    }
}

/// Fault of a call that ended early.
pub open spec fn early_end(
    reason: ErrorReason,
    stage: ExecutionStage,
    timeout: Option<Span>,
) -> CallFaultView {
    CallFaultView {
        message: early_end_message(reason, stage),
        reason: Some(reason),
        stage: Some(stage),
        timeout_ms: match timeout {
            Some(t) => Some(capped_millis(t)),
            None => None,
        },
    }
}

/// Fault of a call that ended early.
pub fn execution_error(reason: ErrorReason, stage: ExecutionStage, timeout: Option<Span>) -> (r:
    CallFault)
    ensures
        r@ == early_end(reason, stage, timeout),
{
    let message = match (reason, stage) {
        (ErrorReason::Cancelled, ExecutionStage::Queued) =>
            "MCP call cancelled while waiting for execution slot",
        (ErrorReason::Cancelled, ExecutionStage::Running) => "MCP call cancelled during execution",
        (ErrorReason::Timeout, ExecutionStage::Queued) =>
            "MCP call timed out while waiting for execution slot",
        (ErrorReason::Timeout, ExecutionStage::Running) => "MCP call timed out during execution",
        (ErrorReason::JoinFailure, ExecutionStage::Queued) => "MCP queue task failed unexpectedly",
        (ErrorReason::JoinFailure, ExecutionStage::Running) =>
            "MCP execution task failed unexpectedly",
    };
    let timeout_ms = match timeout {
        Some(t) => Some(t.saturating_millis()),
        None => None,
    };
    CallFault { message: message.to_owned(), reason: Some(reason), stage: Some(stage), timeout_ms }
}

/// Fault that is not the end of a call.
pub open spec fn internal_fault(message: Seq<char>) -> CallFaultView {
    CallFaultView { message, reason: None, stage: None, timeout_ms: None }
}

/// Fault that is not the end of a call.
pub fn internal_error(message: String) -> (r: CallFault)
    ensures
        r@ == internal_fault(message@),
{
    CallFault { message, reason: None, stage: None, timeout_ms: None }
}

// ---------------------------------------------------------------------------------------------
// Wait for a slot

/// What the slots offer.
#[derive(Debug, PartialEq, Eq)]
pub enum SlotPoll {
    Pending,
    Granted,
    Closed { message: String },
}

/// Mathematical value of [`SlotPoll`].
pub enum SlotPollView {
    Pending,
    Granted,
    Closed { message: Seq<char> },
}

impl View for SlotPoll {
    type V = SlotPollView;

    open spec fn view(&self) -> SlotPollView {
        match *self {
            SlotPoll::Pending => SlotPollView::Pending,
            SlotPoll::Granted => SlotPollView::Granted,
            SlotPoll::Closed { message } => SlotPollView::Closed { message: message@ },
        }
    }
}

/// How a wait for a slot ended, as it is counted.
#[derive(Clone, Copy, Debug, PartialEq, Eq, Structural)]
pub enum SemaphoreWaitOutcome {
    Acquired,
    Cancelled,
    Timeout,
    InternalError,
}

/// Where a wait for a slot stands.
#[derive(Debug, PartialEq, Eq)]
pub enum SlotWait {
    Waiting,
    Taken,
    Given { outcome: SemaphoreWaitOutcome, fault: CallFault },
}

/// Mathematical value of [`SlotWait`].
pub enum SlotWaitView {
    Waiting,
    Taken,
    Given { outcome: SemaphoreWaitOutcome, fault: CallFaultView },
}

impl View for SlotWait {
    type V = SlotWaitView;

    open spec fn view(&self) -> SlotWaitView {
        match *self {
            SlotWait::Waiting => SlotWaitView::Waiting,
            SlotWait::Taken => SlotWaitView::Taken,
            SlotWait::Given { outcome, fault } => SlotWaitView::Given { outcome, fault: fault@ },
        }
    }
}

/// Call of a tool that has not begun to run.
#[derive(Clone, Copy, Debug, PartialEq, Eq, Structural)]
pub struct QueuedCall {
    pub timeout: Option<Span>,
    pub deadline: Option<Moment>,
}

/// Where a wait for a slot stands: a cancelled call gives up, then one whose deadline has passed,
/// and only then a slot is taken.
pub open spec fn slot_wait(
    call: QueuedCall,
    cancelled: bool,
    now: Moment,
    slot: SlotPollView,
) -> SlotWaitView {
    if cancelled {
        SlotWaitView::Given {
            outcome: SemaphoreWaitOutcome::Cancelled,
            fault: early_end(ErrorReason::Cancelled, ExecutionStage::Queued, call.timeout),
        }
    } else if call.deadline is Some && call.deadline->0.nanos <= now.nanos {
        SlotWaitView::Given {
            outcome: SemaphoreWaitOutcome::Timeout,
            fault: early_end(ErrorReason::Timeout, ExecutionStage::Queued, call.timeout),
        }
    } else {
        match slot {
            SlotPollView::Pending => SlotWaitView::Waiting,
            SlotPollView::Granted => SlotWaitView::Taken,
            SlotPollView::Closed { message } => SlotWaitView::Given {
                outcome: SemaphoreWaitOutcome::InternalError,
                fault: internal_fault(message),
            },
        }
    }
}

/// Time left for a call.
pub open spec fn left_for(call: QueuedCall, now: Moment) -> Option<Span> {
    match call.deadline {
        Some(deadline) => Some(time_until(deadline, now)),
        None => None,
    }
}

impl QueuedCall {
    /// Call under the policy, made at `now`.
    pub fn new(policy: ExecutionPolicy, now: Moment) -> (r: Self)
        requires
            policy.timeout is Some ==> now.nanos + policy.timeout->0.nanos <= u128::MAX,
        ensures
            r.timeout == policy.timeout,
            match policy.timeout {
                Some(t) => r.deadline is Some && r.deadline->0.nanos == now.nanos + t.nanos,
                None => r.deadline is None,
            },
    {
        QueuedCall {
            timeout: policy.timeout,
            deadline: match policy.timeout {
                Some(t) => Some(now.plus(t)),
                None => None,
            },
        }
    }

    /// Where the wait for a slot stands.
    pub fn acquire_execution_slot(&self, cancelled: bool, now: Moment, slot: SlotPoll) -> (r:
        SlotWait)
        ensures
            r@ == slot_wait(*self, cancelled, now, slot@),
    {
        if cancelled {
            return SlotWait::Given {
                outcome: SemaphoreWaitOutcome::Cancelled,
                fault: execution_error(
                    ErrorReason::Cancelled,
                    ExecutionStage::Queued,
                    self.timeout,
                ),
            };
        }
        if let Some(deadline) = self.deadline {
            if deadline.nanos <= now.nanos {
                return SlotWait::Given {
                    outcome: SemaphoreWaitOutcome::Timeout,
                    fault: execution_error(
                        ErrorReason::Timeout,
                        ExecutionStage::Queued,
                        self.timeout,
                    ),
                };
            }
        }
        match slot {
            SlotPoll::Pending => SlotWait::Waiting,
            SlotPoll::Granted => SlotWait::Taken,
            SlotPoll::Closed { message } => SlotWait::Given {
                outcome: SemaphoreWaitOutcome::InternalError,
                fault: internal_error(message),
            },
        }
    }

    /// Time left for the call.
    pub fn remaining_timeout(&self, now: Moment) -> (r: Option<Span>)
        ensures
            r == left_for(*self, now),
    {
        match self.deadline {
            Some(deadline) => Some(deadline.since(now)),
            None => None,
        }
    }

    /// Begins to run, with a slot taken: a call that was cancelled or has no time left ends here.
    pub fn start(&self, cancelled: bool, now: Moment) -> (r: Result<RunningCall, CallFault>)
        ensures
            match r {
                Ok(run) => !cancelled && (self.deadline is Some ==> time_until(
                    self.deadline->0,
                    now,
                ).nanos > 0) && run == (RunningCall {
                    timeout: self.timeout,
                    deadline: self.deadline,
                    remaining: left_for(*self, now),
                    interrupted: None,
                }),
                Err(fault) => if cancelled {
                    fault@ == early_end(
                        ErrorReason::Cancelled,
                        ExecutionStage::Queued,
                        self.timeout,
                    )
                } else {
                    &&& self.deadline is Some
                    &&& time_until(self.deadline->0, now).nanos == 0
                    &&& fault@ == early_end(
                        ErrorReason::Timeout,
                        ExecutionStage::Queued,
                        self.timeout,
                    )
                },
            },
    {
        let remaining = self.remaining_timeout(now);
        if cancelled {
            return Err(
                execution_error(ErrorReason::Cancelled, ExecutionStage::Queued, self.timeout),
            );
        }
        if let Some(left) = remaining {
            if left.is_zero() {
                return Err(
                    execution_error(ErrorReason::Timeout, ExecutionStage::Queued, self.timeout),
                );
            }
        }
        Ok(
            RunningCall {
                timeout: self.timeout,
                deadline: self.deadline,
                remaining,
                interrupted: None,
            },
        )
    }
}

// ---------------------------------------------------------------------------------------------
// Run

/// Call of a tool that runs.
#[derive(Clone, Copy, Debug, PartialEq, Eq, Structural)]
pub struct RunningCall {
    pub timeout: Option<Span>,
    pub deadline: Option<Moment>,
    /// Time that was left when it began to run.
    pub remaining: Option<Span>,
    /// Interruption that the command was told of.
    pub interrupted: Option<ErrorReason>,
}

/// Where the command that a call runs stands.
#[derive(Clone, Copy, Debug, PartialEq, Eq, Structural)]
pub enum TaskPoll {
    Pending,
    Ended,
    Failed,
}

/// What is done next about a running call.
#[derive(Debug, PartialEq, Eq)]
pub enum RunStep {
    /// Waits on.
    Wait,
    /// Tells the command to stop, and waits on.
    Cancel,
    /// Gives the response of the command.
    Deliver,
    /// Ends without a response.
    Fault(CallFault),
}

/// Mathematical value of [`RunStep`].
pub enum RunStepView {
    Wait,
    Cancel,
    Deliver,
    Fault(CallFaultView),
}

impl View for RunStep {
    type V = RunStepView;

    open spec fn view(&self) -> RunStepView {
        match *self {
            RunStep::Wait => RunStepView::Wait,
            RunStep::Cancel => RunStepView::Cancel,
            RunStep::Deliver => RunStepView::Deliver,
            RunStep::Fault(x0) => RunStepView::Fault(x0@),
        }
    }
}

/// What is done next about a running call. Only the end of the command ends the call: an
/// interruption is passed on to the command once, and then waited out.
pub open spec fn run_step(
    call: RunningCall,
    task: TaskPoll,
    cancelled: bool,
    now: Moment,
) -> (RunningCall, RunStepView) {
    match task {
        TaskPoll::Ended => (call, RunStepView::Deliver),
        TaskPoll::Failed => (
            call,
            RunStepView::Fault(
                early_end(ErrorReason::JoinFailure, ExecutionStage::Running, call.timeout),
            ),
        ),
        TaskPoll::Pending => if call.interrupted is Some {
            (call, RunStepView::Wait)
        } else if cancelled {
            (
                RunningCall { interrupted: Some(ErrorReason::Cancelled), ..call },
                RunStepView::Wait,
            )
        } else if call.deadline is Some && call.deadline->0.nanos <= now.nanos {
            (RunningCall { interrupted: Some(ErrorReason::Timeout), ..call }, RunStepView::Cancel)
        } else {
            (call, RunStepView::Wait)
        },
    }
}

impl RunningCall {
    /// Circumstances under which the command runs.
    pub fn context(&self, call: McpCallContext) -> (r: McpCallContext)
        ensures
            r == (McpCallContext { deadline: self.deadline, edt_timeout: self.remaining, ..call }),
    {
        call.with_deadline(self.deadline).with_edt_timeout(self.remaining)
    }

    /// What is done next about the call.
    pub fn poll(&mut self, task: TaskPoll, cancelled: bool, now: Moment) -> (r: RunStep)
        ensures
            (*final(self), r@) == run_step(*old(self), task, cancelled, now),
    {
        match task {
            TaskPoll::Ended => RunStep::Deliver,
            TaskPoll::Failed => RunStep::Fault(
                execution_error(ErrorReason::JoinFailure, ExecutionStage::Running, self.timeout),
            ),
            TaskPoll::Pending => {
                if self.interrupted.is_some() {
                    return RunStep::Wait;
                }
                if cancelled {
                    self.interrupted = Some(ErrorReason::Cancelled);
                    return RunStep::Wait;
                }
                if let Some(deadline) = self.deadline {
                    if deadline.nanos <= now.nanos {
                        self.interrupted = Some(ErrorReason::Timeout);
                        return RunStep::Cancel;
                    }
                }
                RunStep::Wait
            },
        }
    }
}

// ---------------------------------------------------------------------------------------------
// Reply

/// What the caller of a tool gets.
#[derive(Debug, PartialEq, Eq)]
pub enum ToolReply {
    Success(Envelope),
    BusinessFailure { error: McpBusinessError, response: Envelope },
}

/// Mathematical value of [`ToolReply`].
pub enum ToolReplyView {
    Success(EnvelopeView),
    BusinessFailure { error: McpBusinessErrorView, response: EnvelopeView },
}

impl View for ToolReply {
    type V = ToolReplyView;

    open spec fn view(&self) -> ToolReplyView {
        match *self {
            ToolReply::Success(x0) => ToolReplyView::Success(x0@),
            ToolReply::BusinessFailure { error, response } => ToolReplyView::BusinessFailure {
                error: error@,
                response: response@,
            },
        }
    }
}

/// What the caller gets for the result of a call: a failure of the command is a reply, a failure of
/// the service is a fault.
pub open spec fn tool_reply(result: Result<EnvelopeView, ServiceErrorView>) -> Result<
    ToolReplyView,
    CallFaultView,
> {
    match result {
        Ok(envelope) => Ok(ToolReplyView::Success(envelope)),
        Err(ServiceErrorView::Business { error, response }) => Ok(
            ToolReplyView::BusinessFailure { error, response },
        ),
        Err(ServiceErrorView::Internal { failure }) => Err(internal_fault(failure.message)),
    }
}

/// Mathematical value of what the caller gets.
pub open spec fn reply_view(reply: Result<ToolReply, CallFault>) -> Result<
    ToolReplyView,
    CallFaultView,
> {
    match reply {
        Ok(r) => Ok(r@),
        Err(f) => Err(f@),
    }
}

/// What the caller gets for the result of a call.
pub fn map_tool_result(result: Result<Envelope, McpServiceError<Envelope>>) -> (r: Result<
    ToolReply,
    CallFault,
>)
    ensures
        reply_view(r) == tool_reply(service_view(result)),
{
    match result {
        Ok(envelope) => Ok(ToolReply::Success(envelope)),
        Err(McpServiceError::Business(failure)) => Ok(
            ToolReply::BusinessFailure { error: failure.error, response: failure.response },
        ),
        Err(McpServiceError::Internal(error)) => Err(internal_error(error.message)),
    }
}

// ---------------------------------------------------------------------------------------------
// Check of EDT projects over the shared session

/// Whether EDT projects are checked over the shared session.
pub fn uses_shared_session(config: &AppConfig) -> (r: bool)
    ensures
        r == config@.tools.edt_cli.interactive_mode,
{
    config.tools.edt_cli.interactive_mode
}

/// Limit on a check over the shared session: what is left of the call, but no more than a command
/// of the session may take.
pub fn edt_call_timeout(remaining: Option<Span>, command_timeout_ms: u64) -> (r: Span)
    ensures
        r == (match remaining {
            Some(left) => shorter(left, millis_span(command_timeout_ms as nat)),
            None => millis_span(1),
        }),
{
    match remaining {
        Some(left) => left.min(Span::from_millis(command_timeout_ms)),
        None => Span::from_millis(1),
    }
}

/// What the caller gets for a check over the shared session.
pub open spec fn edt_reply(outcome: EdtSyntaxOutcomeView, timeout: Option<Span>) -> Result<
    ToolReplyView,
    CallFaultView,
> {
    match outcome {
        EdtSyntaxOutcomeView::Clean(result) => tool_reply(
            syntax_outcome("check_syntax_edt"@, Ok(result)),
        ),
        EdtSyntaxOutcomeView::Failed { error, payload } => tool_reply(
            syntax_outcome("check_syntax_edt"@, Err((error, payload))),
        ),
        EdtSyntaxOutcomeView::Refused(EdtSyntaxTransportError::QueuedCancelled) => Err(
            early_end(ErrorReason::Cancelled, ExecutionStage::Queued, timeout),
        ),
        EdtSyntaxOutcomeView::Refused(EdtSyntaxTransportError::QueuedTimeout) => Err(
            early_end(ErrorReason::Timeout, ExecutionStage::Queued, timeout),
        ),
    }
}

/// What the caller gets for a check over the shared session.
pub fn conclude_edt_call(outcome: EdtSyntaxOutcome, timeout: Option<Span>) -> (r: Result<
    ToolReply,
    CallFault,
>)
    ensures
        reply_view(r) == edt_reply(outcome@, timeout),
{
    match outcome {
        EdtSyntaxOutcome::Clean(result) => map_tool_result(map_syntax_use_case_result(Ok(result))),
        EdtSyntaxOutcome::Failed { error, payload } => map_tool_result(
            map_syntax_use_case_result(Err(UseCaseFailure { error, payload })),
        ),
        EdtSyntaxOutcome::Refused(EdtSyntaxTransportError::QueuedCancelled) => Err(
            execution_error(ErrorReason::Cancelled, ExecutionStage::Queued, timeout),
        ),
        EdtSyntaxOutcome::Refused(EdtSyntaxTransportError::QueuedTimeout) => Err(
            execution_error(ErrorReason::Timeout, ExecutionStage::Queued, timeout),
        ),
    }
}

// ---------------------------------------------------------------------------------------------
// Limits of the server

/// Number of calls that may run at once, at least one.
pub fn max_concurrent_calls(config: &AppConfig) -> (r: usize)
    ensures
        r == (if config@.mcp.execution.max_concurrent_calls < 1 {
            1
        } else {
            config@.mcp.execution.max_concurrent_calls
        }),
{
    if config.mcp.execution.max_concurrent_calls < 1 {
        1
    } else {
        config.mcp.execution.max_concurrent_calls
    }
}

/// Time that the server takes to stop, at least one second.
pub fn shutdown_grace_period(config: &AppConfig) -> (r: Span)
    ensures
        r.nanos == (if config@.mcp.execution.shutdown_grace_period_secs < 1 {
            1
        } else {
            config@.mcp.execution.shutdown_grace_period_secs as int
        }) * 1_000_000_000,
{
    if config.mcp.execution.shutdown_grace_period_secs < 1 {
        Span::from_secs(1)
    } else {
        Span::from_secs(config.mcp.execution.shutdown_grace_period_secs)
    }
}

// ---------------------------------------------------------------------------------------------
// Laws

/// State of a running call after the first `n` polls.
pub open spec fn after_polls(
    call: RunningCall,
    polls: Seq<(TaskPoll, bool, Moment)>,
    n: int,
) -> RunningCall
    decreases n,
{
    if n <= 0 {
        call
    } else {
        run_step(
            after_polls(call, polls, n - 1),
            polls[n - 1].0,
            polls[n - 1].1,
            polls[n - 1].2,
        ).0
    }
}

/// A running call is never abandoned: as long as its command has not ended, the call is not over,
/// whatever was cancelled and however late it is.
pub proof fn running_call_is_never_abandoned(
    call: RunningCall,
    task: TaskPoll,
    cancelled: bool,
    now: Moment,
)
    ensures
        run_step(call, task, cancelled, now).1 is Deliver <==> task is Ended,
        run_step(call, task, cancelled, now).1 is Fault <==> task is Failed,
{
}

/// The command is told to stop at most once: after an interruption has been noted it stays the one
/// that was noted, and no further cancellation is asked for.
pub proof fn interruption_is_noted_once(
    call: RunningCall,
    polls: Seq<(TaskPoll, bool, Moment)>,
    m: int,
    n: int,
)
    requires
        0 <= m < n <= polls.len(),
        after_polls(call, polls, m).interrupted is Some,
    ensures
        after_polls(call, polls, n).interrupted == after_polls(call, polls, m).interrupted,
        !(run_step(
            after_polls(call, polls, n - 1),
            polls[n - 1].0,
            polls[n - 1].1,
            polls[n - 1].2,
        ).1 is Cancel),
    decreases n,
{
    if m < n - 1 {
        interruption_is_noted_once(call, polls, m, n - 1);
    }
}

/// A call that was cancelled, or whose time is up, while it waited for a slot never runs; and
/// cancellation is told before the deadline.
pub proof fn ended_wait_takes_no_slot(
    call: QueuedCall,
    cancelled: bool,
    now: Moment,
    slot: SlotPollView,
)
    requires
        cancelled || (call.deadline is Some && call.deadline->0.nanos <= now.nanos),
    ensures
        match slot_wait(call, cancelled, now, slot) {
            SlotWaitView::Given { fault, .. } => fault == early_end(
                if cancelled {
                    ErrorReason::Cancelled
                } else {
                    ErrorReason::Timeout
                },
                ExecutionStage::Queued,
                call.timeout,
            ),
            _ => false,
        },
{
}

/// A check over the shared session may take no longer than what is left of its call.
pub proof fn edt_check_stays_within_the_call(left: Span, command_timeout_ms: u64)
    ensures
        shorter(left, millis_span(command_timeout_ms as nat)).nanos <= left.nanos,
{
}

} // verus!
