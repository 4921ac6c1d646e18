use v8_runner::config::{
    AppConfig, BuildConfig, BuilderBackend, EdtCliConfig, EnterpriseToolConfig, InfobaseConfig,
    McpConfig, McpExecutionConfig, McpHttpConfig, PlatformToolConfig, SourceFormat,
    SourceSetConfig, SourceSetPurpose, TestsConfig, ToolsConfig, VanessaToolConfig,
};
use v8_runner::domain::{SyntaxCheckResult, SyntaxCheckStatus, SyntaxIssueSummary};
use v8_runner::mcp::context::McpCallContext;
use v8_runner::mcp::edt_session::EdtSessionShutdownError;
use v8_runner::mcp::edt_syntax_check::EdtSyntaxOutcome;
use v8_runner::mcp::edt_syntax_run::EdtSyntaxTransportError;
use v8_runner::mcp::envelope::{ok_envelope, CommandData};
use v8_runner::mcp::error::{McpInternalError, McpServiceError};
use v8_runner::mcp::http_admission::{
    closes_session, conclude_initialize, http_rpc_method, is_initialize,
    missing_initialize_response, overload_response, payload_too_large_response, route_request,
    valid_streamable_post_headers, HttpMethod, HttpOverloadError, HttpRoute, HttpSessionAdmission,
    ReservationEnd,
};
use v8_runner::mcp::http_call::{HttpAsk, HttpCall, HttpEvent, HttpStep};
use v8_runner::mcp::server::{session_keep_alive, McpServerError};
use v8_runner::mcp::session_start::{
    session_not_located, session_not_started, EdtSessionHostOptions, EdtSessionRequest,
};
use v8_runner::mcp::tool_call::{
    conclude_edt_call, edt_call_timeout, execution_error, map_tool_result, max_concurrent_calls,
    shutdown_grace_period, uses_shared_session, CallFault, ErrorReason, ExecutionStage, McpTool,
    QueuedCall, RunStep, SemaphoreWaitOutcome, SlotPoll, SlotWait, TaskPoll, ToolReply,
};
use v8_runner::mcp::tool_run::{ToolAsk, ToolCall, ToolEvent};
use v8_runner::platform::interactive::InteractiveProcessError;
use v8_runner::path::HostPlatform;
use v8_runner::platform::locator::{LocatorError, UtilityType};
use v8_runner::time::{Moment, Span};
use v8_runner::use_cases::CommandName;

fn at(millis: u64) -> Moment {
    Moment {
        nanos: u128::from(millis) * 1_000_000,
    }
}

/// How a call ended.
#[derive(Debug, PartialEq)]
enum End {
    Delivered { at: u64 },
    Faulted { at: u64, fault: CallFault },
}

/// A call on a clock of its own, in milliseconds.
struct Call {
    call: ToolCall,
    started_at: Option<u64>,
    duration: u64,
    cancel_at: Option<u64>,
    told_to_stop: bool,
    end: Option<End>,
}

/// Server with so many slots.
struct Server {
    config: AppConfig,
    free: usize,
    now: u64,
    active: usize,
    max_active: usize,
    calls: Vec<Call>,
}

impl Server {
    fn new(config: AppConfig) -> Self {
        let free = max_concurrent_calls(&config);
        Server {
            config,
            free,
            now: 0,
            active: 0,
            max_active: 0,
            calls: vec![],
        }
    }

    fn call(&mut self, tool: McpTool, duration: u64, cancel_at: Option<u64>) -> usize {
        let step = ToolCall::begin(tool, &self.config, McpCallContext::stdio(), at(self.now));
        assert!(matches!(step.ask, ToolAsk::WaitForSlot { .. }));
        self.calls.push(Call {
            call: step.call,
            started_at: None,
            duration,
            cancel_at,
            told_to_stop: false,
            end: None,
        });
        self.calls.len() - 1
    }

    fn tick(&mut self) {
        for call in &mut self.calls {
            if call.end.is_some() {
                continue;
            }
            let cancelled = call
                .cancel_at
                .map(|moment| moment <= self.now)
                .unwrap_or(false);
            let event = match call.started_at {
                None if self.free > 0 => ToolEvent::Slot {
                    slot: SlotPoll::Granted,
                    cancelled,
                },
                None => ToolEvent::Slot {
                    slot: SlotPoll::Pending,
                    cancelled,
                },
                Some(started_at) if self.now >= started_at + call.duration => ToolEvent::Ended {
                    result: Ok(ok_envelope(
                        CommandName::Syntax,
                        5,
                        CommandData::Syntax(syntax_result()),
                    )),
                },
                Some(_) => ToolEvent::Pending { cancelled },
            };
            let step = call.call.step(event, at(self.now));
            call.call = step.call;
            match step.ask {
                ToolAsk::WaitForSlot { .. } | ToolAsk::Watch { .. } => {}
                ToolAsk::Run { .. } => {
                    call.started_at = Some(self.now);
                    self.free -= 1;
                    self.active += 1;
                    self.max_active = self.max_active.max(self.active);
                }
                ToolAsk::Cancel => {
                    assert!(!call.told_to_stop);
                    call.told_to_stop = true;
                }
                ToolAsk::Done { reply } => {
                    if call.started_at.is_some() {
                        self.free += 1;
                        self.active -= 1;
                    }
                    call.end = Some(match reply {
                        Ok(_) => End::Delivered { at: self.now },
                        Err(fault) => End::Faulted {
                            at: self.now,
                            fault,
                        },
                    });
                }
                ToolAsk::Check { .. } | ToolAsk::Repeat => panic!("event out of turn"),
            }
        }
    }

    fn run_until(&mut self, moment: u64) {
        while self.now < moment {
            self.tick();
            self.now += 1;
        }
    }

    fn run_to_the_end(&mut self) {
        while self.calls.iter().any(|call| call.end.is_none()) {
            self.tick();
            self.now += 1;
        }
    }
}

fn test_config(max_concurrent_calls: usize, shutdown_grace_period_secs: u64) -> AppConfig {
    test_config_with_edt_timeout(max_concurrent_calls, shutdown_grace_period_secs, 300_000)
}

fn test_config_with_edt_timeout(
    max_concurrent_calls: usize,
    shutdown_grace_period_secs: u64,
    edt_timeout_ms: u64,
) -> AppConfig {
    AppConfig {
        base_path: "/tmp/project".to_owned(),
        work_path: "/tmp/work".to_owned(),
        execution_timeout: edt_timeout_ms,
        format: SourceFormat::Designer,
        builder: BuilderBackend::Designer,
        infobase: InfobaseConfig::file("File=/tmp/ib"),
        source_sets: vec![SourceSetConfig {
            name: "main".to_owned(),
            purpose: SourceSetPurpose::Configuration,
            path: ".".to_owned(),
            depends_on: vec![],
        }],
        build: BuildConfig::default(),
        tools: ToolsConfig {
            platform: PlatformToolConfig::default(),
            enterprise: EnterpriseToolConfig::default(),
            edt_cli: EdtCliConfig {
                command_timeout_ms: edt_timeout_ms,
                ..EdtCliConfig::default()
            },
            va: VanessaToolConfig::default(),
        },
        mcp: McpConfig {
            http: McpHttpConfig::default(),
            execution: McpExecutionConfig {
                max_concurrent_calls,
                shutdown_grace_period_secs,
            },
        },
        tests: TestsConfig::default(),
    }
}

#[test]
fn execute_tool_respects_configured_concurrency_limit() {
    let mut server = Server::new(test_config(1, 9));
    let first = server.call(McpTool::RunAllTests, 50, None);
    let second = server.call(McpTool::CheckSyntaxEdt, 50, None);

    server.run_to_the_end();

    assert!(matches!(
        server.calls[first].end,
        Some(End::Delivered { .. })
    ));
    assert!(matches!(
        server.calls[second].end,
        Some(End::Delivered { .. })
    ));
    assert_eq!(server.max_active, 1);
}

#[test]
fn shutdown_grace_period_uses_configured_value() {
    let config = test_config(3, 42);

    assert_eq!(max_concurrent_calls(&config), 3);
    assert_eq!(shutdown_grace_period(&config), Span::from_secs(42));
}

#[test]
fn limits_of_zero_count_as_one() {
    let config = test_config(0, 0);

    assert_eq!(max_concurrent_calls(&config), 1);
    assert_eq!(shutdown_grace_period(&config), Span::from_secs(1));
}

#[test]
fn queued_cancellation_returns_transport_error_without_running_call() {
    let mut server = Server::new(test_config(1, 9));
    server.call(McpTool::RunAllTests, 50, None);
    server.run_until(10);
    let second = server.call(McpTool::RunAllTests, 50, Some(20));

    server.run_to_the_end();

    assert_eq!(
        server.calls[second].end,
        Some(End::Faulted {
            at: 20,
            fault: execution_error(
                ErrorReason::Cancelled,
                ExecutionStage::Queued,
                Some(Span::from_millis(300_000)),
            )
        })
    );
    assert!(server.calls[second].started_at.is_none());
    assert_eq!(
        server.calls[second].call.waited,
        Some(SemaphoreWaitOutcome::Cancelled)
    );
}

#[test]
fn queued_timeout_returns_transport_error() {
    let mut server = Server::new(test_config_with_edt_timeout(1, 9, 20));
    server.call(McpTool::RunAllTests, 50, None);
    server.run_until(10);
    let second = server.call(McpTool::CheckSyntaxEdt, 50, None);

    server.run_to_the_end();

    assert_eq!(
        server.calls[second].end,
        Some(End::Faulted {
            at: 30,
            fault: execution_error(
                ErrorReason::Timeout,
                ExecutionStage::Queued,
                Some(Span::from_millis(20)),
            )
        })
    );
    assert!(server.calls[second].started_at.is_none());
    assert_eq!(
        server.calls[second].call.waited,
        Some(SemaphoreWaitOutcome::Timeout)
    );
}

#[test]
fn bounded_queued_cancellation_wins_before_deadline() {
    let mut server = Server::new(test_config_with_edt_timeout(1, 9, 80));
    server.call(McpTool::RunAllTests, 50, None);
    server.run_until(10);
    let second = server.call(McpTool::CheckSyntaxEdt, 50, Some(30));

    server.run_to_the_end();

    assert_eq!(
        server.calls[second].end,
        Some(End::Faulted {
            at: 30,
            fault: execution_error(
                ErrorReason::Cancelled,
                ExecutionStage::Queued,
                Some(Span::from_millis(80)),
            )
        })
    );
    assert!(server.calls[second].started_at.is_none());
}

#[test]
fn standard_tools_ignore_edt_timeout_budget_when_not_cancelled() {
    let mut server = Server::new(test_config_with_edt_timeout(1, 9, 20));
    let call = server.call(McpTool::RunAllTests, 40, None);

    server.run_to_the_end();

    assert_eq!(server.calls[call].end, Some(End::Delivered { at: 40 }));
    assert_eq!(
        server.calls[call].call.waited,
        Some(SemaphoreWaitOutcome::Acquired)
    );
}

#[test]
fn standard_running_cancellation_waits_for_terminal_state_and_releases_capacity() {
    let mut server = Server::new(test_config(1, 9));
    let first = server.call(McpTool::RunAllTests, 80, Some(15));
    server.run_to_the_end();
    assert_eq!(server.calls[first].end, Some(End::Delivered { at: 80 }));

    let second = server.call(McpTool::CheckSyntaxEdt, 50, None);
    server.run_to_the_end();

    assert!(matches!(
        server.calls[second].end,
        Some(End::Delivered { .. })
    ));
    assert_eq!(server.max_active, 1);
}

#[test]
fn running_cancellation_waits_for_terminal_state_and_releases_capacity() {
    let mut server = Server::new(test_config_with_edt_timeout(1, 9, 500));
    let first = server.call(McpTool::CheckSyntaxEdt, 80, Some(15));
    server.run_to_the_end();
    assert_eq!(server.calls[first].end, Some(End::Delivered { at: 80 }));
    assert!(!server.calls[first].told_to_stop);

    let second = server.call(McpTool::RunAllTests, 50, None);
    server.run_to_the_end();

    assert!(matches!(
        server.calls[second].end,
        Some(End::Delivered { .. })
    ));
    assert_eq!(server.max_active, 1);
}

#[test]
fn running_timeout_waits_for_terminal_state_and_capacity_recovers() {
    let mut server = Server::new(test_config_with_edt_timeout(1, 9, 20));

    for _ in 0..2 {
        let begun = server.now;
        let call = server.call(McpTool::CheckSyntaxEdt, 60, None);
        server.run_to_the_end();
        assert_eq!(
            server.calls[call].end,
            Some(End::Delivered { at: begun + 60 })
        );
        assert!(server.calls[call].told_to_stop);
    }

    let call = server.call(McpTool::RunAllTests, 50, None);
    server.run_to_the_end();
    assert!(matches!(
        server.calls[call].end,
        Some(End::Delivered { .. })
    ));
}

#[test]
fn failed_task_and_closed_queue_are_faults() {
    let policy = McpTool::BuildProject.execution_policy(&test_config(1, 9));
    let call = QueuedCall::new(policy, at(0));
    match call.acquire_execution_slot(
        false,
        at(1),
        SlotPoll::Closed {
            message: "semaphore closed".to_owned(),
        },
    ) {
        SlotWait::Given { outcome, fault } => {
            assert_eq!(outcome, SemaphoreWaitOutcome::InternalError);
            assert_eq!(fault.message, "semaphore closed");
            assert_eq!(fault.reason, None);
        }
        other => panic!("unexpected wait: {other:?}"),
    }
    let mut running = call.start(false, at(1)).expect("running");
    assert_eq!(
        running.poll(TaskPoll::Failed, false, at(2)),
        RunStep::Fault(execution_error(
            ErrorReason::JoinFailure,
            ExecutionStage::Running,
            Some(Span::from_millis(300_000)),
        ))
    );
}

#[test]
fn lost_command_is_a_fault() {
    let config = test_config(1, 9);
    let step = ToolCall::begin(McpTool::BuildProject, &config, McpCallContext::http(), at(0));
    let step = step.call.step(
        ToolEvent::Slot {
            slot: SlotPoll::Granted,
            cancelled: false,
        },
        at(1),
    );
    match step.ask {
        ToolAsk::Run { context, deadline } => {
            assert_eq!(context.deadline(), Some(at(300_000)));
            assert_eq!(context.edt_timeout(), Some(Span::from_millis(299_999)));
            assert_eq!(deadline, Some(at(300_000)));
        }
        other => panic!("unexpected question: {other:?}"),
    }
    let step = step.call.step(ToolEvent::Lost, at(2));
    match step.ask {
        ToolAsk::Done { reply: Err(fault) } => {
            assert_eq!(fault.reason, Some(ErrorReason::JoinFailure));
        }
        other => panic!("unexpected question: {other:?}"),
    }
    let step = step.call.step(ToolEvent::Lost, at(3));
    assert!(matches!(step.ask, ToolAsk::Repeat));
}

#[test]
fn check_over_the_shared_session_is_a_call_of_its_own() {
    let mut config = test_config_with_edt_timeout(1, 9, 100);
    config.tools.edt_cli.interactive_mode = true;
    config.tools.edt_cli.command_timeout_ms = 50;
    let context = McpCallContext::stdio();
    let granted = || ToolEvent::Slot {
        slot: SlotPoll::Granted,
        cancelled: false,
    };
    let step = ToolCall::begin(McpTool::CheckSyntaxEdt, &config, context, at(0));
    let step = step.call.step(granted(), at(70));
    match step.ask {
        ToolAsk::Check { timeout } => assert_eq!(timeout, Span::from_millis(30)),
        other => panic!("unexpected question: {other:?}"),
    }
    let step = step.call.step(
        ToolEvent::Checked {
            outcome: EdtSyntaxOutcome::Clean(syntax_result()),
        },
        at(80),
    );
    assert!(matches!(
        step.ask,
        ToolAsk::Done {
            reply: Ok(ToolReply::Success(_))
        }
    ));
    let step = ToolCall::begin(McpTool::BuildProject, &config, context, at(0));
    let step = step.call.step(granted(), at(70));
    assert!(matches!(step.ask, ToolAsk::Run { .. }));
}

#[test]
fn early_ends_have_their_messages() {
    let message = |reason, stage| execution_error(reason, stage, None).message;
    assert_eq!(
        message(ErrorReason::Cancelled, ExecutionStage::Queued),
        "MCP call cancelled while waiting for execution slot"
    );
    assert_eq!(
        message(ErrorReason::Cancelled, ExecutionStage::Running),
        "MCP call cancelled during execution"
    );
    assert_eq!(
        message(ErrorReason::Timeout, ExecutionStage::Queued),
        "MCP call timed out while waiting for execution slot"
    );
    assert_eq!(
        message(ErrorReason::Timeout, ExecutionStage::Running),
        "MCP call timed out during execution"
    );
    assert_eq!(
        message(ErrorReason::JoinFailure, ExecutionStage::Queued),
        "MCP queue task failed unexpectedly"
    );
    assert_eq!(
        message(ErrorReason::JoinFailure, ExecutionStage::Running),
        "MCP execution task failed unexpectedly"
    );
    assert_eq!(ErrorReason::Timeout.as_str(), "timeout");
    assert_eq!(ExecutionStage::Queued.as_str(), "queued");
}

#[test]
fn running_call_passes_its_deadline_on() {
    let policy = McpTool::CheckSyntaxEdt.execution_policy(&test_config_with_edt_timeout(1, 9, 100));
    let call = QueuedCall::new(policy, at(0));
    let running = call.start(false, at(30)).expect("running");
    let context = running.context(McpCallContext::http());
    assert_eq!(context.edt_timeout(), Some(Span::from_millis(70)));
    assert_eq!(context.deadline(), Some(at(100)));
    assert_eq!(
        edt_call_timeout(context.edt_timeout(), 50),
        Span::from_millis(50)
    );
    assert_eq!(edt_call_timeout(None, 50), Span::from_millis(1));
}

fn syntax_result() -> SyntaxCheckResult {
    SyntaxCheckResult {
        status: SyntaxCheckStatus::Clean,
        exit_code: 0,
        check_name: "edt".to_owned(),
        issues: vec![],
        summary: SyntaxIssueSummary {
            errors: 0,
            warnings: 0,
            info: 0,
        },
        duration_ms: 5,
        platform_log_path: None,
        stderr: None,
        log_read_warning: None,
    }
}

#[test]
fn edt_check_that_never_ran_is_a_fault() {
    let limit = Some(Span::from_millis(20));
    assert_eq!(
        conclude_edt_call(
            EdtSyntaxOutcome::Refused(EdtSyntaxTransportError::QueuedCancelled),
            limit
        ),
        Err(execution_error(
            ErrorReason::Cancelled,
            ExecutionStage::Queued,
            limit
        ))
    );
    assert_eq!(
        conclude_edt_call(
            EdtSyntaxOutcome::Refused(EdtSyntaxTransportError::QueuedTimeout),
            limit
        ),
        Err(execution_error(
            ErrorReason::Timeout,
            ExecutionStage::Queued,
            limit
        ))
    );
    match conclude_edt_call(EdtSyntaxOutcome::Clean(syntax_result()), limit) {
        Ok(ToolReply::Success(envelope)) => assert_eq!(envelope.command, "syntax"),
        other => panic!("unexpected reply: {other:?}"),
    }
}

#[test]
fn internal_failure_of_the_service_is_a_fault() {
    let fault = map_tool_result(Err(McpServiceError::Internal(McpInternalError::new(
        "broken".to_owned(),
    ))))
    .expect_err("fault");
    assert_eq!(fault.message, "broken");
    let envelope = ok_envelope(CommandName::Syntax, 5, CommandData::Syntax(syntax_result()));
    assert!(matches!(
        map_tool_result(Ok(envelope)),
        Ok(ToolReply::Success(_))
    ));
}

#[test]
fn shared_session_is_used_in_interactive_mode() {
    let mut config = test_config(1, 9);
    assert!(!uses_shared_session(&config));
    config.tools.edt_cli.interactive_mode = true;
    assert!(uses_shared_session(&config));
}

// HTTP

#[test]
fn http_session_reservation_drop_releases_capacity() {
    let mut admission = HttpSessionAdmission::new(1);
    let live: Vec<String> = vec![];

    admission
        .reserve_initialize(&live)
        .expect("first reservation");
    admission.release();

    admission
        .reserve_initialize(&live)
        .expect("capacity should recover after drop");
}

#[test]
fn http_session_reservation_prunes_stale_confirmed_sessions() {
    let mut admission = HttpSessionAdmission::new(1);
    let live: Vec<String> = vec![];

    admission
        .reserve_initialize(&live)
        .expect("first reservation");
    admission.confirm("stale-session");

    admission
        .reserve_initialize(&live)
        .expect("stale confirmed session should be pruned");
}

#[test]
fn http_sessions_never_exceed_their_capacity() {
    let mut admission = HttpSessionAdmission::new(1);
    let live = vec!["one".to_owned()];
    admission.reserve_initialize(&live).expect("reservation");
    assert_eq!(
        admission.reserve_initialize(&live),
        Err(HttpOverloadError)
    );
    admission.confirm("one");
    assert_eq!(
        admission.reserve_initialize(&live),
        Err(HttpOverloadError)
    );
    admission.remove("one");
    admission.reserve_initialize(&live).expect("free again");
}

#[test]
fn http_capacity_is_at_least_one() {
    let mut admission = HttpSessionAdmission::new(0);
    assert!(admission.reserve_initialize(&vec![]).is_ok());
    assert!(admission.reserve_initialize(&vec![]).is_err());
}

#[test]
fn http_body_names_its_call() {
    let method = |body: &str| http_rpc_method(&body.as_bytes().to_vec());
    assert_eq!(
        method("{\"jsonrpc\":\"2.0\",\"method\":\"initialize\"}").as_deref(),
        Some("initialize")
    );
    assert_eq!(method("{\"method\":1}"), None);
    assert_eq!(method("[\"method\"]"), None);
    assert_eq!(method("not json"), None);
    assert!(is_initialize(Some("initialize")));
    assert!(!is_initialize(Some("tools/list")));
    assert!(!is_initialize(None));
}

#[test]
fn http_post_outside_a_session_is_inspected() {
    let json = "application/json";
    let both = "application/json, text/event-stream";
    assert!(valid_streamable_post_headers(Some(both), Some(json)));
    assert!(!valid_streamable_post_headers(Some(json), Some(json)));
    assert!(!valid_streamable_post_headers(None, Some(json)));
    assert!(!valid_streamable_post_headers(Some(both), Some("text/plain")));
    assert_eq!(
        route_request(true, HttpMethod::Post, false, true),
        HttpRoute::Inspect
    );
    assert_eq!(
        route_request(true, HttpMethod::Post, true, true),
        HttpRoute::Forward
    );
    assert_eq!(
        route_request(false, HttpMethod::Post, false, true),
        HttpRoute::Forward
    );
    assert_eq!(
        route_request(true, HttpMethod::Delete, false, true),
        HttpRoute::Forward
    );
    assert_eq!(
        route_request(true, HttpMethod::Post, false, false),
        HttpRoute::Forward
    );
}

#[test]
fn http_session_opens_with_a_name_and_closes_when_deleted() {
    assert_eq!(
        conclude_initialize(200, Some("id".to_owned())),
        ReservationEnd::Confirm {
            session_id: "id".to_owned()
        }
    );
    assert_eq!(conclude_initialize(200, None), ReservationEnd::Release);
    assert_eq!(
        conclude_initialize(500, Some("id".to_owned())),
        ReservationEnd::Release
    );
    assert!(closes_session(HttpMethod::Delete, 202));
    assert!(!closes_session(HttpMethod::Delete, 404));
    assert!(!closes_session(HttpMethod::Post, 202));
}

#[test]
fn http_refusals_are_plain_answers() {
    assert_eq!(overload_response().status, 503);
    assert_eq!(missing_initialize_response().status, 400);
    let answer = payload_too_large_response("length limit exceeded");
    assert_eq!(answer.status, 413);
    assert_eq!(answer.body, "Payload Too Large: length limit exceeded");
}

const BOTH: Option<&str> = Some("application/json, text/event-stream");
const JSON: Option<&str> = Some("application/json");

fn http_post() -> HttpStep {
    HttpCall::begin(true, HttpMethod::Post, None, BOTH, JSON)
}

fn body(text: &str) -> HttpEvent {
    HttpEvent::Body {
        body: Ok(text.as_bytes().to_vec()),
    }
}

/// Opens a session, or tells how the request was answered.
fn open_session(admission: &mut HttpSessionAdmission, live: &[&str], id: &str) -> HttpAsk {
    let step = http_post();
    assert_eq!(step.ask, HttpAsk::ReadBody);
    let step = step.call.step(admission, body("{\"method\":\"initialize\"}"));
    assert_eq!(step.ask, HttpAsk::ListSessions);
    let step = step.call.step(
        admission,
        HttpEvent::Sessions {
            live: live.iter().map(|id| (*id).to_owned()).collect(),
        },
    );
    if step.ask != HttpAsk::Forward {
        return step.ask;
    }
    step.call
        .step(
            admission,
            HttpEvent::Response {
                status: 200,
                session_id: Some(id.to_owned()),
            },
        )
        .ask
}

#[test]
fn http_request_opens_a_session_while_there_is_room() {
    let mut admission = HttpSessionAdmission::new(1);
    assert_eq!(open_session(&mut admission, &[], "one"), HttpAsk::PassBack);
    match open_session(&mut admission, &["one"], "two") {
        HttpAsk::Answer { answer } => assert_eq!(answer.status, 503),
        other => panic!("unexpected question: {other:?}"),
    }
    let step = HttpCall::begin(true, HttpMethod::Delete, Some("one".to_owned()), None, None);
    assert_eq!(step.ask, HttpAsk::Forward);
    let step = step.call.step(
        &mut admission,
        HttpEvent::Response {
            status: 202,
            session_id: None,
        },
    );
    assert_eq!(step.ask, HttpAsk::PassBack);
    assert_eq!(
        open_session(&mut admission, &["one"], "two"),
        HttpAsk::PassBack
    );
}

#[test]
fn http_request_that_is_dropped_gives_its_place_back() {
    let mut admission = HttpSessionAdmission::new(1);
    let step = http_post()
        .call
        .step(&mut admission, body("{\"method\":\"initialize\"}"));
    let step = step
        .call
        .step(&mut admission, HttpEvent::Sessions { live: vec![] });
    assert_eq!(step.ask, HttpAsk::Forward);
    assert!(admission.reserve_initialize(&vec![]).is_err());
    let step = step.call.step(&mut admission, HttpEvent::Dropped);
    assert_eq!(step.ask, HttpAsk::Quit);
    assert!(admission.reserve_initialize(&vec![]).is_ok());
}

#[test]
fn http_request_outside_a_session_has_to_open_one() {
    let mut admission = HttpSessionAdmission::new(1);
    let step = http_post()
        .call
        .step(&mut admission, body("{\"method\":\"tools/list\"}"));
    match step.ask {
        HttpAsk::Answer { answer } => assert_eq!(answer.status, 400),
        other => panic!("unexpected question: {other:?}"),
    }
    let step = http_post().call.step(
        &mut admission,
        HttpEvent::Body {
            body: Err("length limit exceeded".to_owned()),
        },
    );
    match step.ask {
        HttpAsk::Answer { answer } => {
            assert_eq!(answer.status, 413);
            assert_eq!(answer.body, "Payload Too Large: length limit exceeded");
        }
        other => panic!("unexpected question: {other:?}"),
    }
    let step = HttpCall::begin(false, HttpMethod::Post, None, BOTH, JSON);
    assert_eq!(step.ask, HttpAsk::Forward);
    let step = HttpCall::begin(true, HttpMethod::Post, None, JSON, JSON);
    assert_eq!(step.ask, HttpAsk::Forward);
    let step = step.call.step(&mut admission, body("{}"));
    assert_eq!(step.ask, HttpAsk::Repeat);
}

#[test]
fn shared_session_is_set_up_from_the_configuration() {
    let mut config = test_config(0, 0);
    config.work_path = "/tmp/work".to_owned();
    config.tools.edt_cli.startup_timeout_ms = 1500;
    let options = EdtSessionHostOptions::for_config(&config, HostPlatform::Linux);
    assert_eq!(options.queue_capacity, 1);
    assert_eq!(options.shutdown_timeout, Span::from_secs(1));
    assert_eq!(options.startup_timeout, Span::from_millis(1500));
    let request = options.process_request("/opt/1cedtcli".to_owned());
    assert_eq!(request.program, "/opt/1cedtcli");
    assert_eq!(request.args, vec!["-data", "/tmp/work/edt-workspace"]);
    assert_eq!(request.prompt, b"1C:EDT>".to_vec());
}

#[test]
fn shared_session_that_does_not_start_says_why() {
    let error = LocatorError::NotFound(UtilityType::EdtCli);
    assert_eq!(
        session_not_located(&error, HostPlatform::Linux).message(),
        "failed to start shared EDT session: utility '1cedtcli' was not found"
    );
    assert_eq!(
        session_not_started(&InteractiveProcessError::Poisoned).message(),
        "failed to start shared EDT session: interactive process is no longer usable after a previous failure"
    );
    let request = EdtSessionRequest::new("cd".to_owned(), at(10));
    assert!(!request.is_deadline_exhausted(at(9)));
    assert!(request.is_deadline_exhausted(at(10)));
}

#[test]
fn idle_sessions_are_kept_for_the_configured_time() {
    let mut config = test_config(1, 9);
    config.mcp.http.stateful_sessions = true;
    config.mcp.http.idle_ttl_secs = 30;
    assert_eq!(session_keep_alive(&config), Some(Span::from_secs(30)));
    config.mcp.http.idle_ttl_secs = 0;
    assert_eq!(session_keep_alive(&config), Some(Span::from_secs(1)));
    config.mcp.http.stateful_sessions = false;
    assert_eq!(session_keep_alive(&config), None);
}

#[test]
fn server_errors_have_their_messages() {
    let text = |error: McpServerError| error.message();
    assert_eq!(
        text(McpServerError::BindHttp {
            address: "127.0.0.1:1".to_owned(),
            source: "denied".to_owned()
        }),
        "failed to bind MCP HTTP listener on 127.0.0.1:1: denied"
    );
    assert_eq!(
        text(McpServerError::BuildRuntime("x".to_owned())),
        "failed to build tokio runtime for MCP transport: x"
    );
    assert_eq!(
        text(McpServerError::Bootstrap("x".to_owned())),
        "failed to initialize MCP transport: x"
    );
    assert_eq!(
        text(McpServerError::Start("x".to_owned())),
        "failed to start MCP transport: x"
    );
    assert_eq!(
        text(McpServerError::from_shutdown(
            &EdtSessionShutdownError::WorkerPanicked
        )),
        "MCP transport task failed: shared EDT actor worker thread panicked"
    );
}
