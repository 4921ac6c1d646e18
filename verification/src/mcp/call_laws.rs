//! Laws of the calls: which requests of the HTTP transport are passed on, and how the call of a tool
//! goes from its slot to its reply.

use vstd::prelude::*;
use crate::config::AppConfigView;
use crate::mcp::context::McpCallContext;
use crate::mcp::edt_syntax_check::EdtSyntaxOutcomeView;
use crate::mcp::edt_syntax_run::EdtSyntaxTransportError;
use crate::mcp::envelope::EnvelopeView;
use crate::mcp::error::{McpBusinessErrorView, McpInternalErrorView};
use crate::mcp::http_admission::{
    post_headers_valid, rpc_method_in, HttpMethod, HttpSessionAdmissionView,
};
use crate::mcp::http_call;
use crate::mcp::http_call::{inspected, HttpCallView, HttpEventView, HttpPhase};
use crate::mcp::service_map::ServiceErrorView;
use crate::mcp::tool_call::{
    early_end, edt_reply, reason_name, run_step, slot_wait, stage_name, tool_name, tool_reply,
    CallFaultView,
    ErrorReason, ExecutionStage, McpTool, QueuedCall, RunStepView, RunningCall,
    SemaphoreWaitOutcome, SlotPollView, TaskPoll, ToolReplyView,
};
use crate::mcp::tool_run::{call_begins, call_step, ToolCall, ToolEventView, ToolPhase};
use crate::text_laws::text_holds_its_middle;
use crate::text_scan::{contains, starts_with};
use crate::time::{capped_millis, Moment, Span};

verus! {

// ---------------------------------------------------------------------------------------------
// HTTP requests

/// Only a post outside of any session is inspected, where sessions are kept and its headers are in
/// order; every other request is passed on as it is.
pub proof fn only_a_post_outside_a_session_is_inspected(
    stateful: bool,
    method: HttpMethod,
    session_id: Option<Seq<char>>,
    accept: Option<Seq<char>>,
    content_type: Option<Seq<char>>,
)
    ensures
        ({
            let first = http_call::call_begins(stateful, method, session_id, accept, content_type);
            let inspects = stateful && method is Post && session_id is None && post_headers_valid(
                accept,
                content_type,
            );
            &&& inspects ==> first.ask is ReadBody && first.call.phase is Reading
            &&& !inspects ==> first.ask is Forward && first.call.phase == (HttpPhase::Forwarded {
                reserved: false,
            })
            &&& first.call.method == method && first.call.session_id == session_id
        }),
{
}

/// The headers are in order where both kinds of answer are accepted, in whatever order and among
/// whatever else, and the content is JSON.
pub proof fn headers_in_order(
    before: Seq<char>,
    between: Seq<char>,
    after: Seq<char>,
    parameters: Seq<char>,
    accept: Option<Seq<char>>,
    content_type: Option<Seq<char>>,
)
    ensures
        post_headers_valid(
            Some(before + "application/json"@ + between + "text/event-stream"@ + after),
            Some("application/json"@ + parameters),
        ),
        post_headers_valid(
            Some(before + "text/event-stream"@ + between + "application/json"@ + after),
            Some("application/json"@ + parameters),
        ),
        accept is None ==> !post_headers_valid(accept, content_type),
        content_type is None ==> !post_headers_valid(accept, content_type),
        accept is Some && !contains(accept->0, "application/json"@) ==> !post_headers_valid(
            accept,
            content_type,
        ),
        accept is Some && !contains(accept->0, "text/event-stream"@) ==> !post_headers_valid(
            accept,
            content_type,
        ),
        content_type is Some && !starts_with(content_type->0, "application/json"@)
            ==> !post_headers_valid(accept, content_type),
{
    let json = "application/json"@;
    let stream = "text/event-stream"@;
    let a = before + json + between + stream + after;
    let b = before + stream + between + json + after;
    text_holds_its_middle(before, json, between + stream + after);
    assert(before + json + (between + stream + after) =~= a);
    text_holds_its_middle(before + json + between, stream, after);
    text_holds_its_middle(before, stream, between + json + after);
    assert(before + stream + (between + json + after) =~= b);
    text_holds_its_middle(before + stream + between, json, after);
    let content = json + parameters;
    assert(content.subrange(0, json.len() as int) =~= json);
}

/// A body that calls `initialize` asks for a place, any other is refused, and so is one that is too
/// long.
pub proof fn session_is_opened_by_initialize(
    s: HttpSessionAdmissionView,
    call: HttpCallView,
    members: Map<Seq<char>, Seq<char>>,
    source: Seq<char>,
)
    requires
        call.phase is Reading,
    ensures
        ({
            let named = members.contains_key("method"@) && members["method"@] == "initialize"@;
            let step = inspected(call, rpc_method_in(Some(members)));
            let broken = inspected(call, rpc_method_in(None));
            let long = http_call::call_step(s, call, HttpEventView::Body { body: Err(source) });
            &&& named ==> step.ask is ListSessions && step.call.phase is Admitting
            &&& !named ==> step.ask is Answer && step.ask->answer.status == 400
            &&& broken.ask is Answer && broken.ask->answer.status == 400
            &&& long.0 == s && long.1.ask is Answer && long.1.ask->answer.status == 413
            &&& long.1.ask->answer.body == "Payload Too Large: "@ + source
        }),
{
}

/// A request that opens a session is passed on where there is room, and a place is taken for it;
/// where there is none it is refused, and none is taken.
pub proof fn session_needs_a_place(
    s: HttpSessionAdmissionView,
    call: HttpCallView,
    live: Seq<Seq<char>>,
)
    requires
        call.phase is Admitting,
    ensures
        ({
            let (next, step) = http_call::call_step(s, call, HttpEventView::Sessions { live });
            let room = s.active.intersect(live.to_set()).len() + s.reserved < s.max_sessions;
            &&& room ==> step.ask is Forward && step.call.phase == (HttpPhase::Forwarded {
                reserved: true,
            }) && next.reserved == s.reserved + 1
            &&& !room ==> step.ask is Answer && step.ask->answer.status == 503 && next.reserved
                == s.reserved
            &&& next.active == s.active.intersect(live.to_set())
            &&& next.max_sessions == s.max_sessions
        }),
{
}

/// The answer to a request is passed back whatever it is. A place that was taken becomes the session
/// that the answer names, where it opened one, and is given back otherwise; a session that was
/// closed is forgotten.
pub proof fn answer_settles_the_place(
    s: HttpSessionAdmissionView,
    call: HttpCallView,
    status: u16,
    id: Seq<char>,
)
    requires
        s.reserved > 0,
    ensures
        ({
            let taken = HttpCallView { phase: HttpPhase::Forwarded { reserved: true }, ..call };
            let plain = HttpCallView { phase: HttpPhase::Forwarded { reserved: false }, ..call };
            let answer = |c: HttpCallView, named: Option<Seq<char>>|
                http_call::call_step(s, c, HttpEventView::Response { status, session_id: named });
            let closes = call.method is Delete && status == 202 && call.session_id is Some;
            &&& answer(taken, Some(id)).1.ask is PassBack && answer(plain, None).1.ask is PassBack
            &&& status == 200 ==> answer(taken, Some(id)).0.active == s.active.insert(id)
            &&& status != 200 ==> answer(taken, Some(id)).0.active == s.active
            &&& answer(taken, None).0.active == s.active
            &&& answer(taken, Some(id)).0.reserved == s.reserved - 1
            &&& answer(taken, None).0.reserved == s.reserved - 1
            &&& closes ==> answer(plain, None).0.active == s.active.remove(call.session_id->0)
            &&& !closes ==> answer(plain, None).0 == s
            &&& answer(plain, Some(id)).0.reserved == s.reserved
            &&& http_call::call_step(s, taken, HttpEventView::Dropped).0.reserved == s.reserved - 1
            &&& http_call::call_step(s, plain, HttpEventView::Dropped).0 == s
            &&& http_call::call_step(s, taken, HttpEventView::Dropped).1.ask is Quit
        }),
{
}

// ---------------------------------------------------------------------------------------------
// Slots

/// A call queues with the time that the configuration gives; a check by EDT runs over the shared
/// session where EDT is interactive, and no other tool does.
pub proof fn call_queues_with_its_time(
    tool: McpTool,
    config: AppConfigView,
    context: McpCallContext,
    now: Moment,
)
    requires
        now.nanos + config.execution_timeout * 1_000_000 <= u128::MAX,
    ensures
        ({
            let first = call_begins(tool, config, context, now);
            let shared = tool is CheckSyntaxEdt && config.tools.edt_cli.interactive_mode;
            &&& first.ask is WaitForSlot
            &&& first.ask->WaitForSlot_deadline is Some
            &&& first.ask->WaitForSlot_deadline->0.nanos == now.nanos + config.execution_timeout
                * 1_000_000
            &&& first.call.phase is Queued
            &&& first.call.phase->Queued_call.deadline == first.ask->WaitForSlot_deadline
            &&& first.call.phase->Queued_call.timeout is Some
            &&& first.call.phase->Queued_call.timeout->0.nanos == config.execution_timeout
                * 1_000_000
            &&& shared ==> first.call.shared_session == Some(
                config.tools.edt_cli.command_timeout_ms,
            )
            &&& !shared ==> first.call.shared_session is None
            &&& first.call.context == context
        }),
{
}

/// A call that waits gives up where it is cancelled or its deadline has passed, whatever the slots
/// offer, and takes a slot only before that. It is told which of the two, in the queue, and the time
/// it had.
pub proof fn waiting_call_gives_up_before_it_takes_a_slot(
    call: QueuedCall,
    now: Moment,
    slot: SlotPollView,
    message: Seq<char>,
)
    ensures
        ({
            let late = call.deadline is Some && call.deadline->0.nanos <= now.nanos;
            let cancelled = slot_wait(call, true, now, slot);
            let waited = slot_wait(call, false, now, slot);
            &&& cancelled is Given && cancelled->outcome is Cancelled
            &&& cancelled->fault.reason == Some(ErrorReason::Cancelled)
            &&& cancelled->fault.stage == Some(ExecutionStage::Queued)
            &&& late ==> waited is Given && waited->outcome is Timeout && waited->fault.reason
                == Some(ErrorReason::Timeout) && waited->fault.stage == Some(
                ExecutionStage::Queued,
            )
            &&& call.timeout is Some ==> cancelled->fault.timeout_ms == Some(
                capped_millis(call.timeout->0),
            )
            &&& call.timeout is None ==> cancelled->fault.timeout_ms is None
            &&& !late && slot is Pending ==> waited is Waiting
            &&& !late && slot is Granted ==> waited is Taken
            &&& !late && slot == (SlotPollView::Closed { message }) ==> waited is Given
                && waited->outcome is InternalError && waited->fault.message == message
                && waited->fault.reason is None
        }),
{
}

/// A call that takes its slot in time runs its command, which is told the deadline of the call and
/// what is left of its time. Over the shared session it has no more time than a command of EDT.
pub proof fn call_runs_with_what_is_left(
    call: ToolCall,
    queued: QueuedCall,
    deadline: Moment,
    limit_ms: u64,
    now: Moment,
)
    requires
        call.phase == (ToolPhase::Queued { call: queued }),
        queued.deadline == Some(deadline),
        now.nanos < deadline.nanos,
    ensures
        ({
            let granted = ToolEventView::Slot { slot: SlotPollView::Granted, cancelled: false };
            let own = call_step(ToolCall { shared_session: None, ..call }, granted, now);
            let shared = call_step(
                ToolCall { shared_session: Some(limit_ms), ..call },
                granted,
                now,
            );
            &&& own.ask is Run && own.ask->Run_deadline == Some(deadline)
            &&& own.ask->context.deadline == Some(deadline)
            &&& own.ask->context.edt_timeout is Some
            &&& now.nanos + own.ask->context.edt_timeout->0.nanos == deadline.nanos
            &&& own.call.phase is Running && own.call.waited == Some(SemaphoreWaitOutcome::Acquired)
            &&& shared.ask is Check
            &&& now.nanos + shared.ask->timeout.nanos <= deadline.nanos
            &&& shared.ask->timeout.nanos <= limit_ms * 1_000_000
            &&& shared.ask->timeout.nanos == limit_ms * 1_000_000 || now.nanos
                + shared.ask->timeout.nanos == deadline.nanos
            &&& shared.call.phase is Checking
        }),
{
}

// ---------------------------------------------------------------------------------------------
// Running calls

/// The end of the command is the end of the call, whatever has happened by then. Until then a call
/// whose deadline has passed tells its command to stop, once, and one that is cancelled only notes
/// it.
pub proof fn command_ends_the_call(
    call: RunningCall,
    cancelled: bool,
    now: Moment,
)
    ensures
        ({
            let late = call.deadline is Some && call.deadline->0.nanos <= now.nanos;
            let pending = run_step(call, TaskPoll::Pending, cancelled, now);
            let failed = run_step(call, TaskPoll::Failed, cancelled, now);
            &&& run_step(call, TaskPoll::Ended, cancelled, now) == (call, RunStepView::Deliver)
            &&& failed.1 is Fault && failed.1->Fault_0.reason == Some(ErrorReason::JoinFailure)
                && failed.1->Fault_0.stage == Some(ExecutionStage::Running)
            &&& call.interrupted is Some ==> pending == (call, RunStepView::Wait)
            &&& call.interrupted is None && cancelled ==> pending.1 is Wait
                && pending.0.interrupted == Some(ErrorReason::Cancelled)
            &&& call.interrupted is None && !cancelled && late ==> pending.1 is Cancel
                && pending.0.interrupted == Some(ErrorReason::Timeout)
            &&& call.interrupted is None && !cancelled && !late ==> pending == (
                call,
                RunStepView::Wait,
            )
        }),
{
}

/// A command's own result is the reply, be it a success or a failure of the command; a failure of
/// the service is a fault in its own words.
pub proof fn result_of_a_command_is_the_reply(
    envelope: EnvelopeView,
    error: McpBusinessErrorView,
    failure: McpInternalErrorView,
)
    ensures
        tool_reply(Ok(envelope)) == Ok::<ToolReplyView, CallFaultView>(
            ToolReplyView::Success(envelope),
        ),
        tool_reply(Err(ServiceErrorView::Business { error, response: envelope })) == Ok::<
            ToolReplyView,
            CallFaultView,
        >(ToolReplyView::BusinessFailure { error, response: envelope }),
        ({
            let fault = tool_reply(Err(ServiceErrorView::Internal { failure }));
            &&& fault is Err
            &&& fault->Err_0.message == failure.message
            &&& fault->Err_0.reason is None && fault->Err_0.stage is None
        }),
{
}

/// A check that never left the queue of the shared session is told as a call that ended there.
pub proof fn refused_check_ended_in_the_queue(timeout: Option<Span>)
    ensures
        ({
            let cancelled = edt_reply(
                EdtSyntaxOutcomeView::Refused(EdtSyntaxTransportError::QueuedCancelled),
                timeout,
            );
            let late = edt_reply(
                EdtSyntaxOutcomeView::Refused(EdtSyntaxTransportError::QueuedTimeout),
                timeout,
            );
            &&& cancelled is Err && cancelled->Err_0.reason == Some(ErrorReason::Cancelled)
            &&& late is Err && late->Err_0.reason == Some(ErrorReason::Timeout)
            &&& cancelled->Err_0.stage == Some(ExecutionStage::Queued)
            &&& late->Err_0.stage == Some(ExecutionStage::Queued)
        }),
{
}

/// No two tools, stages or reasons share a name, and an early end is told under its own.
pub proof fn names_tell_apart(
    a: McpTool,
    b: McpTool,
    s: ExecutionStage,
    t: ExecutionStage,
    p: ErrorReason,
    q: ErrorReason,
    timeout: Option<Span>,
)
    ensures
        tool_name(a) == tool_name(b) <==> a == b,
        stage_name(s) == stage_name(t) <==> s == t,
        reason_name(p) == reason_name(q) <==> p == q,
        early_end(p, s, timeout).reason == Some(p),
        early_end(p, s, timeout).stage == Some(s),
{
    reveal_strlit("run_all_tests");
    reveal_strlit("run_module_tests");
    reveal_strlit("build_project");
    reveal_strlit("dump_config");
    reveal_strlit("launch_app");
    reveal_strlit("check_syntax_edt");
    reveal_strlit("check_syntax_designer_config");
    reveal_strlit("check_syntax_designer_modules");
    reveal_strlit("queued");
    reveal_strlit("running");
    reveal_strlit("cancelled");
    reveal_strlit("timeout");
    reveal_strlit("join_failure");
    assert("run_all_tests"@.len() == 13 && "run_all_tests"@[0] == 'r');
    assert("run_module_tests"@.len() == 16 && "run_module_tests"@[0] == 'r');
    assert("build_project"@.len() == 13 && "build_project"@[0] == 'b');
    assert("dump_config"@.len() == 11);
    assert("launch_app"@.len() == 10);
    assert("check_syntax_edt"@.len() == 16 && "check_syntax_edt"@[0] == 'c');
    assert("check_syntax_designer_config"@.len() == 28);
    assert("check_syntax_designer_modules"@.len() == 29);
    assert("queued"@.len() == 6 && "running"@.len() == 7);
    assert("cancelled"@.len() == 9 && "timeout"@.len() == 7 && "join_failure"@.len() == 12);
}

} // verus!
