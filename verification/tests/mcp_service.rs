use std::cell::RefCell;

use v8_runner::adapter_input::normalize_extension_scope;
use v8_runner::config::{
    AppConfig, BuildConfig, BuilderBackend, EdtCliConfig, EnterpriseToolConfig, InfobaseConfig,
    McpConfig, PlatformToolConfig, SourceFormat, SourceSetConfig, SourceSetPurpose, TestsConfig,
    ToolsConfig, VanessaProfileConfig, VanessaToolConfig,
};
use v8_runner::domain::{
    BuildMode, BuildResult, BuildStep, DumpMode, DumpResult, ExecutionError, ExecutionStatus, Issue,
    IssueSeverity, LaunchMode, LaunchResult, ModuleIssue, StepResult, SyntaxCheckResult,
    SyntaxCheckStatus, SyntaxIssueSummary, TestCase, TestExecution, TestReport, TestRunResult,
    TestStatus, TestSuite, TestSummary,
};
use v8_runner::mcp::context::McpCallContext;
use v8_runner::mcp::envelope::{CommandData, Envelope};
use v8_runner::mcp::error::{McpErrorCode, McpServiceError};
use v8_runner::mcp::port::{with_workspace_lock, McpUseCasePort};
use v8_runner::mcp::request::{
    McpBuildProjectRequest, McpCheckSyntaxDesignerConfigRequest,
    McpCheckSyntaxDesignerModulesRequest, McpCheckSyntaxEdtRequest, McpDumpConfigRequest,
    McpLaunchAppRequest, McpRunAllTestsRequest, McpRunModuleTestsRequest,
};
use v8_runner::mcp::service::McpService;
use v8_runner::use_cases::{
    BuildRequest, ClientMcpAddonRequest, ClientMcpMode, ClientMcpOptionsRequest, CommandName,
    DesignerClientScope, DesignerConfigSyntaxRequest, DesignerModulesSyntaxRequest,
    DumpModeRequest, DumpRequest, ExecutionContext, ExecutionTransport, LaunchRequest,
    LaunchTargetRequest, RunnerKind, RunnerProfile, ScenarioExecutionRequest, SyntaxExtensionScope,
    SyntaxRequest, SyntaxTargetRequest, TestRequest, TestScopeRequest, UseCaseError,
    UseCaseErrorKind, UseCaseFailure,
};

type UseCaseResult<T> = Result<T, UseCaseFailure<T>>;

#[derive(Default)]
struct StubPort {
    build_result: RefCell<Option<UseCaseResult<BuildResult>>>,
    test_result: RefCell<Option<UseCaseResult<TestRunResult>>>,
    dump_result: RefCell<Option<UseCaseResult<DumpResult>>>,
    launch_result: RefCell<Option<UseCaseResult<LaunchResult>>>,
    syntax_result: RefCell<Option<UseCaseResult<SyntaxCheckResult>>>,
    build_requests: RefCell<Vec<(ExecutionContext, BuildRequest)>>,
    test_requests: RefCell<Vec<(ExecutionContext, TestRequest)>>,
    test_configs: RefCell<Vec<AppConfig>>,
    dump_requests: RefCell<Vec<(ExecutionContext, DumpRequest)>>,
    launch_requests: RefCell<Vec<(ExecutionContext, LaunchRequest)>>,
    syntax_requests: RefCell<Vec<(ExecutionContext, SyntaxRequest)>>,
}

impl StubPort {
    fn with_build_result(result: UseCaseResult<BuildResult>) -> Self {
        Self {
            build_result: RefCell::new(Some(result)),
            ..Self::default()
        }
    }

    fn with_test_result(result: UseCaseResult<TestRunResult>) -> Self {
        Self {
            test_result: RefCell::new(Some(result)),
            ..Self::default()
        }
    }

    fn with_dump_result(result: UseCaseResult<DumpResult>) -> Self {
        Self {
            dump_result: RefCell::new(Some(result)),
            ..Self::default()
        }
    }

    fn with_launch_result(result: UseCaseResult<LaunchResult>) -> Self {
        Self {
            launch_result: RefCell::new(Some(result)),
            ..Self::default()
        }
    }

    fn with_syntax_result(result: UseCaseResult<SyntaxCheckResult>) -> Self {
        Self {
            syntax_result: RefCell::new(Some(result)),
            ..Self::default()
        }
    }
}

impl McpUseCasePort for StubPort {
    fn build_project(
        &self,
        context: &ExecutionContext,
        _config: &AppConfig,
        request: &BuildRequest,
    ) -> UseCaseResult<BuildResult> {
        self.build_requests
            .borrow_mut()
            .push((*context, request.clone()));
        self.build_result
            .borrow_mut()
            .take()
            .expect("missing build result")
    }

    fn run_tests(
        &self,
        context: &ExecutionContext,
        config: &AppConfig,
        request: &TestRequest,
    ) -> UseCaseResult<TestRunResult> {
        self.test_requests
            .borrow_mut()
            .push((*context, copy_test_request(request)));
        self.test_configs.borrow_mut().push(config.clone());
        self.test_result
            .borrow_mut()
            .take()
            .expect("missing test result")
    }

    fn dump_config(
        &self,
        context: &ExecutionContext,
        _config: &AppConfig,
        request: &DumpRequest,
    ) -> UseCaseResult<DumpResult> {
        self.dump_requests
            .borrow_mut()
            .push((*context, request.clone()));
        self.dump_result
            .borrow_mut()
            .take()
            .expect("missing dump result")
    }

    fn launch_app(
        &self,
        context: &ExecutionContext,
        _config: &AppConfig,
        request: &LaunchRequest,
    ) -> UseCaseResult<LaunchResult> {
        self.launch_requests
            .borrow_mut()
            .push((*context, request.clone()));
        self.launch_result
            .borrow_mut()
            .take()
            .expect("missing launch result")
    }

    fn check_syntax(
        &self,
        context: &ExecutionContext,
        _config: &AppConfig,
        request: &SyntaxRequest,
    ) -> UseCaseResult<SyntaxCheckResult> {
        self.syntax_requests
            .borrow_mut()
            .push((*context, copy_syntax_request(request)));
        self.syntax_result
            .borrow_mut()
            .take()
            .expect("missing syntax result")
    }
}

#[test]
fn build_project_maps_success_request_and_response() {
    let port = StubPort::with_build_result(Ok(BuildResult {
        ok: true,
        steps: vec![BuildStep {
            source_set: "main".to_owned(),
            mode: BuildMode::Full,
            ok: true,
            message: Some("loaded".to_owned()),
            duration_ms: 17,
        }],
        duration_ms: 42,
    }));
    let config = sample_config();
    let service = McpService::with_port(&config, port);

    let response = service
        .build_project(
            McpCallContext::stdio(),
            &McpBuildProjectRequest {
                full_rebuild: Some(true),
                source_set: Some("main".to_owned()),
                ..McpBuildProjectRequest::default()
            },
        )
        .expect("success");

    assert!(response.ok);
    assert_eq!(response.command, "build");
    assert_eq!(response.duration_ms, 42);
    assert_eq!(text(&response, "ok").as_deref(), Some("true"));
    assert_eq!(text(&response, "steps/0/mode").as_deref(), Some("full"));
    let requests = service.port.build_requests.borrow();
    assert_eq!(requests.len(), 1);
    assert_eq!(requests[0].0.command(), CommandName::Build);
    assert_eq!(requests[0].0.transport(), ExecutionTransport::McpStdio);
    assert_eq!(requests[0].1.full_rebuild, true);
    assert_eq!(requests[0].1.source_set.as_deref(), Some("main"));
}

#[test]
fn build_project_maps_failure_payload_into_business_failure() {
    let port = StubPort::with_build_result(Err(UseCaseFailure::with_payload(
        UseCaseError::new(UseCaseErrorKind::Runtime, "builder failed"),
        BuildResult {
            ok: false,
            steps: vec![BuildStep {
                source_set: "main".to_owned(),
                mode: BuildMode::Full,
                ok: false,
                message: Some("broken".to_owned()),
                duration_ms: 9,
            }],
            duration_ms: 19,
        },
    )));
    let config = sample_config();
    let service = McpService::with_port(&config, port);

    let error = service
        .build_project(McpCallContext::http(), &McpBuildProjectRequest::default())
        .expect_err("expected failure");

    match error {
        McpServiceError::Business(failure) => {
            assert_eq!(failure.error.code, McpErrorCode::RuntimeFailure);
            assert!(!failure.response.ok);
            assert_eq!(failure.response.command, "build");
            assert_eq!(failure.response.duration_ms, 19);
            assert_eq!(text(&failure.response, "steps/0/ok").as_deref(), Some("false"));
            assert_eq!(
                failure
                    .response
                    .error
                    .as_ref()
                    .map(|error| error.code.as_str()),
                Some("runtime_failure")
            );
        }
        other => panic!("unexpected error: {other:?}"),
    }
}

#[test]
fn run_all_tests_maps_success_response() {
    let mut result = sample_test_result(true);
    if let Some(report) = result.execution.payload.as_mut() {
        report.summary.errors = 2;
    }
    let port = StubPort::with_test_result(Ok(result));
    let config = sample_config();
    let service = McpService::with_port(&config, port);

    let response = service
        .run_all_tests(
            McpCallContext::stdio(),
            &McpRunAllTestsRequest {
                full: Some(true),
                ..McpRunAllTestsRequest::default()
            },
        )
        .expect("success");

    assert!(response.ok);
    assert_eq!(response.command, "test");
    assert_eq!(response.duration_ms, 120);
    assert_eq!(summary(&response).total, 3);
    assert_eq!(summary(&response).passed, 2);
    assert_eq!(summary(&response).failed, 1);
    assert!(response.error.is_none());
    let requests = service.port.test_requests.borrow();
    assert_eq!(requests[0].1.full, true);
    assert_eq!(requests[0].1.scope, TestScopeRequest::All);
    assert_eq!(requests[0].1.execution.profile.kind, RunnerKind::YaXUnit);
}

#[test]
fn run_all_tests_maps_vanessa_request_with_profile_overrides() {
    let port = StubPort::with_test_result(Ok(sample_test_result(true)));
    let mut config = sample_config();
    config.tools.va.epf_path = Some("/tmp/va.epf".to_owned());
    config.tests.va.params_path = Some("/tmp/va.json".to_owned());
    config.tests.va.profile = Some("smoke".to_owned());
    config.tests.va.profiles.insert(
        "acceptance".to_owned(),
        VanessaProfileConfig::default(),
    );
    let service = McpService::with_port(&config, port);

    let response = service
        .run_all_tests(
            McpCallContext::stdio(),
            &McpRunAllTestsRequest {
                full: Some(true),
                runner: Some("vanessa".to_owned()),
                profile: Some("acceptance".to_owned()),
                feature: vec!["login".to_owned(), " ".to_owned()],
                filter_tag: vec!["@smoke".to_owned()],
                ignore_tag: vec!["@draft".to_owned()],
                scenario_filter: vec!["Проверка логина".to_owned()],
            },
        )
        .expect("success");

    assert!(response.ok);
    let requests = service.port.test_requests.borrow();
    assert_eq!(requests[0].1.full, true);
    assert_eq!(requests[0].1.scope, TestScopeRequest::All);
    assert_eq!(requests[0].1.execution.profile.kind, RunnerKind::Vanessa);
    assert_eq!(requests[0].1.execution.profile.id, "acceptance");
    assert_eq!(
        requests[0].1.execution.launch.c.as_deref(),
        Some("StartFeaturePlayer;VAParams={params_path}")
    );
    assert_eq!(
        requests[0].1.execution.launch.execute.as_deref(),
        Some("{epf_path}")
    );

    let configs = service.port.test_configs.borrow();
    let profile = configs[0]
        .tests
        .va
        .profiles
        .get("acceptance")
        .expect("acceptance profile");
    assert_eq!(profile.features_to_run, ["login"]);
    assert_eq!(profile.filter_tags, ["@smoke"]);
    assert_eq!(profile.ignore_tags, ["@draft"]);
    assert_eq!(profile.scenario_filter, ["Проверка логина"]);
}

#[test]
fn run_all_tests_rejects_vanessa_options_for_yaxunit() {
    let config = sample_config();
    let service = McpService::with_port(
        &config,
        StubPort::with_test_result(Ok(sample_test_result(true))),
    );

    let error = service
        .run_all_tests(
            McpCallContext::stdio(),
            &McpRunAllTestsRequest {
                profile: Some("smoke".to_owned()),
                ..McpRunAllTestsRequest::default()
            },
        )
        .expect_err("expected validation failure");

    match error {
        McpServiceError::Business(failure) => {
            assert_eq!(failure.error.code, McpErrorCode::InvalidArgument);
            assert_eq!(failure.response.command, "test");
            assert_eq!(text(&failure.response, "field").as_deref(), Some("runner"));
            assert_eq!(service.port.test_requests.borrow().len(), 0);
        }
        other => panic!("unexpected error: {other:?}"),
    }
}

#[test]
fn run_all_tests_ignores_blank_vanessa_options_for_yaxunit() {
    let config = sample_config();
    let service = McpService::with_port(
        &config,
        StubPort::with_test_result(Ok(sample_test_result(true))),
    );

    let response = service
        .run_all_tests(
            McpCallContext::stdio(),
            &McpRunAllTestsRequest {
                profile: Some(" ".to_owned()),
                feature: vec![" ".to_owned()],
                filter_tag: vec!["".to_owned()],
                ignore_tag: vec![" \t ".to_owned()],
                scenario_filter: vec![" ".to_owned()],
                ..McpRunAllTestsRequest::default()
            },
        )
        .expect("blank Vanessa options are omitted");

    assert!(response.ok);
    let requests = service.port.test_requests.borrow();
    assert_eq!(requests.len(), 1);
    assert_eq!(requests[0].1.execution.profile.kind, RunnerKind::YaXUnit);
}

#[test]
fn run_all_tests_maps_failure_payload_into_business_failure() {
    let mut result = sample_test_result(false);
    result
        .execution
        .diagnostics
        .push("enterprise exited non-zero".to_owned());
    let port = StubPort::with_test_result(Err(UseCaseFailure::with_payload(
        UseCaseError::new(UseCaseErrorKind::Runtime, "tests failed"),
        result,
    )));
    let config = sample_config();
    let service = McpService::with_port(&config, port);

    let error = service
        .run_all_tests(McpCallContext::stdio(), &McpRunAllTestsRequest::default())
        .expect_err("expected failure");

    match error {
        McpServiceError::Business(failure) => {
            assert_eq!(failure.error.code, McpErrorCode::RuntimeFailure);
            assert!(!failure.response.ok);
            assert_eq!(failure.response.command, "test");
            assert!(diagnostics(&failure.response).contains(&"enterprise exited non-zero".to_owned()));
            assert_eq!(
                failure
                    .response
                    .error
                    .as_ref()
                    .map(|error| error.code.as_str()),
                Some("runtime_failure")
            );
        }
        other => panic!("unexpected error: {other:?}"),
    }
}

#[test]
fn run_module_tests_maps_success_module_scope() {
    let port = StubPort::with_test_result(Ok(sample_test_result(true)));
    let config = sample_config();
    let service = McpService::with_port(&config, port);

    let response = service
        .run_module_tests(
            McpCallContext::http(),
            &McpRunModuleTestsRequest {
                module_name: "Smoke".to_owned(),
                full: Some(false),
            },
        )
        .expect("success");

    assert!(response.ok);
    assert_eq!(response.command, "test");
    let requests = service.port.test_requests.borrow();
    assert_eq!(requests[0].0.transport(), ExecutionTransport::McpHttp);
    assert_eq!(
        requests[0].1.scope,
        TestScopeRequest::Module {
            name: "Smoke".to_owned()
        }
    );
}

#[test]
fn run_module_tests_rejects_blank_module_name_as_business_failure() {
    let config = sample_config();
    let service = McpService::with_port(
        &config,
        StubPort::with_test_result(Ok(sample_test_result(true))),
    );

    let error = service
        .run_module_tests(
            McpCallContext::stdio(),
            &McpRunModuleTestsRequest {
                module_name: "   ".to_owned(),
                full: None,
            },
        )
        .expect_err("expected failure");

    match error {
        McpServiceError::Business(failure) => {
            assert_eq!(failure.error.code, McpErrorCode::InvalidArgument);
            assert_eq!(failure.response.command, "test");
            assert_eq!(text(&failure.response, "message").as_deref(), Some("module_name must not be blank"));
            assert_eq!(text(&failure.response, "tool").as_deref(), Some("run_module_tests"));
        }
        other => panic!("unexpected error: {other:?}"),
    }
}

#[test]
fn dump_config_maps_success_and_incremental_default_mode() {
    let port = StubPort::with_dump_result(Ok(DumpResult {
        ok: true,
        source_set: Some("main".to_owned()),
        extension: None,
        selectors: None,
        mode: DumpMode::Incremental,
        target_path: "/tmp/out".to_owned(),
        platform_log_path: None,
        duration_ms: 33,
        message: None,
    }));
    let config = sample_config();
    let service = McpService::with_port(&config, port);

    let response = service
        .dump_config(
            McpCallContext::stdio(),
            &McpDumpConfigRequest {
                mode: None,
                extension: Some(" ".to_owned()),
                objects: vec!["Catalog.Item".to_owned()],
            },
        )
        .expect("success");

    assert!(response.ok);
    assert_eq!(response.command, "dump");
    assert_eq!(text(&response, "mode").as_deref(), Some("INCREMENTAL"));
    let requests = service.port.dump_requests.borrow();
    assert_eq!(requests[0].1.mode, DumpModeRequest::Incremental);
    assert_eq!(requests[0].1.extension, None);
    assert_eq!(requests[0].1.objects, vec!["Catalog.Item".to_owned()]);
}

#[test]
fn dump_config_failure_with_missing_mode_keeps_incremental_request_and_payload_mode() {
    let config = sample_config();
    let service = McpService::with_port(
        &config,
        StubPort::with_dump_result(Err(UseCaseFailure::with_payload(
            UseCaseError::new(UseCaseErrorKind::Runtime, "dump failed"),
            DumpResult {
                ok: false,
                source_set: Some("main".to_owned()),
                extension: None,
                selectors: None,
                mode: DumpMode::Incremental,
                target_path: "/tmp/out".to_owned(),
                platform_log_path: None,
                duration_ms: 3,
                message: Some("dump failed".to_owned()),
            },
        ))),
    );

    let error = service
        .dump_config(
            McpCallContext::stdio(),
            &McpDumpConfigRequest {
                mode: None,
                extension: None,
                objects: vec![],
            },
        )
        .expect_err("expected failure");

    let requests = service.port.dump_requests.borrow();
    assert_eq!(requests[0].1.mode, DumpModeRequest::Incremental);
    match error {
        McpServiceError::Business(failure) => {
            assert_eq!(failure.response.command, "dump");
            assert_eq!(text(&failure.response, "mode").as_deref(), Some("INCREMENTAL"));
            assert_eq!(text(&failure.response, "message").as_deref(), Some("dump failed"));
        }
        other => panic!("unexpected error: {other:?}"),
    }
}

#[test]
fn dump_config_failure_with_blank_mode_uses_incremental_fallback_response() {
    let config = sample_config();
    let service = McpService::with_port(
        &config,
        StubPort::with_dump_result(Err(UseCaseFailure::without_payload(UseCaseError::new(
            UseCaseErrorKind::Validation,
            "dump failed",
        )))),
    );

    let error = service
        .dump_config(
            McpCallContext::stdio(),
            &McpDumpConfigRequest {
                mode: Some("   ".to_owned()),
                extension: None,
                objects: vec![],
            },
        )
        .expect_err("expected failure");

    let requests = service.port.dump_requests.borrow();
    assert_eq!(requests[0].1.mode, DumpModeRequest::Incremental);
    match error {
        McpServiceError::Business(failure) => {
            assert_eq!(failure.response.command, "dump");
            assert_eq!(text(&failure.response, "mode").as_deref(), Some("INCREMENTAL"));
            assert_eq!(text(&failure.response, "message").as_deref(), Some("dump failed"));
            assert_eq!(text(&failure.response, "tool").as_deref(), Some("dump_config"));
        }
        other => panic!("unexpected error: {other:?}"),
    }
}

#[test]
fn dump_config_rejects_invalid_mode_as_business_failure() {
    let config = sample_config();
    let service = McpService::with_port(
        &config,
        StubPort::with_dump_result(Ok(DumpResult {
            ok: true,
            source_set: None,
            extension: None,
            selectors: None,
            mode: DumpMode::Incremental,
            target_path: "/tmp/out".to_owned(),
            platform_log_path: None,
            duration_ms: 1,
            message: None,
        })),
    );

    let error = service
        .dump_config(
            McpCallContext::stdio(),
            &McpDumpConfigRequest {
                mode: Some("garbage".to_owned()),
                extension: None,
                objects: vec![],
            },
        )
        .expect_err("expected failure");

    match error {
        McpServiceError::Business(failure) => {
            assert_eq!(failure.error.code, McpErrorCode::UnsupportedValue);
            assert_eq!(failure.response.command, "dump");
            assert_eq!(text(&failure.response, "mode").as_deref(), Some("garbage"));
            assert_eq!(text(&failure.response, "errors/0").as_deref(), Some("unsupported dump mode: garbage"));
            assert_eq!(
                failure
                    .response
                    .error
                    .as_ref()
                    .map(|error| error.code.as_str()),
                Some("unsupported_value")
            );
        }
        other => panic!("unexpected error: {other:?}"),
    }
}

#[test]
fn dump_config_partial_success_preserves_partial_mode_and_warning_message() {
    let port = StubPort::with_dump_result(Ok(DumpResult {
        ok: true,
        source_set: Some("main".to_owned()),
        extension: None,
        selectors: None,
        mode: DumpMode::Partial,
        target_path: "/tmp/out".to_owned(),
        platform_log_path: None,
        duration_ms: 14,
        message: Some(
            "IBCMD does not support object-scoped partial dump; ran incremental export for source-set 'main' instead"
                .to_owned(),
        ),
    }));
    let config = sample_config();
    let service = McpService::with_port(&config, port);

    let response = service
        .dump_config(
            McpCallContext::stdio(),
            &McpDumpConfigRequest {
                mode: Some("PARTIAL".to_owned()),
                extension: None,
                objects: vec!["  Catalog.Item  ".to_owned()],
            },
        )
        .expect("success");

    assert!(response.ok);
    assert_eq!(text(&response, "mode").as_deref(), Some("PARTIAL"));
    assert!(text(&response, "message")
            .expect("message")
            .contains("IBCMD does not support object-scoped partial dump"));
    let requests = service.port.dump_requests.borrow();
    assert_eq!(requests[0].1.mode, DumpModeRequest::Partial);
    assert_eq!(requests[0].1.objects, vec!["  Catalog.Item  ".to_owned()]);
}

#[test]
fn dump_config_partial_failure_payload_preserves_partial_mode_and_warning() {
    let config = sample_config();
    let service = McpService::with_port(
        &config,
        StubPort::with_dump_result(Err(UseCaseFailure::with_payload(
            UseCaseError::new(
                UseCaseErrorKind::Platform,
                "IBCMD does not support object-scoped partial dump; export failed",
            ),
            DumpResult {
                ok: false,
                source_set: Some("main".to_owned()),
                extension: None,
                selectors: None,
                mode: DumpMode::Partial,
                target_path: "/tmp/out".to_owned(),
                platform_log_path: None,
                duration_ms: 3,
                message: Some(
                    "IBCMD does not support object-scoped partial dump; export failed"
                        .to_owned(),
                ),
            },
        ))),
    );

    let error = service
        .dump_config(
            McpCallContext::stdio(),
            &McpDumpConfigRequest {
                mode: Some("PARTIAL".to_owned()),
                extension: None,
                objects: vec!["Catalog.Item".to_owned()],
            },
        )
        .expect_err("expected failure");

    match error {
        McpServiceError::Business(failure) => {
            assert_eq!(text(&failure.response, "mode").as_deref(), Some("PARTIAL"));
            assert!(text(&failure.response, "message")
            .expect("message")
            .contains("IBCMD does not support object-scoped partial dump"));
        }
        other => panic!("unexpected error: {other:?}"),
    }
}

#[test]
fn launch_app_maps_supported_aliases() {
    let cases = [
        (
            "designer",
            LaunchMode::Designer,
            LaunchTargetRequest::designer(),
        ),
        (
            "configurator",
            LaunchMode::Designer,
            LaunchTargetRequest::designer(),
        ),
        (
            " 1CV8 ",
            LaunchMode::Designer,
            LaunchTargetRequest::designer(),
        ),
        (
            "конфигуратор",
            LaunchMode::Designer,
            LaunchTargetRequest::designer(),
        ),
        ("thin", LaunchMode::Thin, LaunchTargetRequest::thin_client()),
        (
            "thin-client",
            LaunchMode::Thin,
            LaunchTargetRequest::thin_client(),
        ),
        (
            "thin client",
            LaunchMode::Thin,
            LaunchTargetRequest::thin_client(),
        ),
        (
            "THIN_CLIENT",
            LaunchMode::Thin,
            LaunchTargetRequest::thin_client(),
        ),
        ("tc", LaunchMode::Thin, LaunchTargetRequest::thin_client()),
        (
            "1cv8c",
            LaunchMode::Thin,
            LaunchTargetRequest::thin_client(),
        ),
        (
            "  тонкий клиент  ",
            LaunchMode::Thin,
            LaunchTargetRequest::thin_client(),
        ),
        (
            "тонкий",
            LaunchMode::Thin,
            LaunchTargetRequest::thin_client(),
        ),
        (
            "thick",
            LaunchMode::Thick,
            LaunchTargetRequest::thick_client(),
        ),
        (
            "thick-client",
            LaunchMode::Thick,
            LaunchTargetRequest::thick_client(),
        ),
        (
            "thick client",
            LaunchMode::Thick,
            LaunchTargetRequest::thick_client(),
        ),
        (
            "THICK_CLIENT",
            LaunchMode::Thick,
            LaunchTargetRequest::thick_client(),
        ),
        (
            " толстый клиент ",
            LaunchMode::Thick,
            LaunchTargetRequest::thick_client(),
        ),
        (
            "толстый",
            LaunchMode::Thick,
            LaunchTargetRequest::thick_client(),
        ),
    ];

    for (alias, result_mode, request_mode) in cases {
        let port = StubPort::with_launch_result(Ok(LaunchResult {
            ok: true,
            mode: result_mode,
            pid: Some(42),
            binary: "/opt/1cv8".to_owned(),
            message: None,
            mcp_readiness: None,
            external_epf_wait: None,
        }));
        let config = sample_config();
        let service = McpService::with_port(&config, port);

        let response = service
            .launch_app(
                McpCallContext::http(),
                &McpLaunchAppRequest {
                    utility_type: alias.to_owned(),
                    ..McpLaunchAppRequest::default()
                },
            )
            .expect("success");

        assert!(response.ok, "alias {alias}");
        assert_eq!(response.command, "launch");
        let requests = service.port.launch_requests.borrow();
        assert_eq!(requests[0].1.target, request_mode, "alias {alias}");
    }
}

#[test]
fn launch_app_maps_client_mcp_vanessa_options() {
    let port = StubPort::with_launch_result(Ok(LaunchResult {
        ok: true,
        mode: LaunchMode::Mcp,
        pid: Some(42),
        binary: "/opt/1cv8".to_owned(),
        message: None,
        mcp_readiness: None,
        external_epf_wait: None,
    }));
    let config = sample_config();
    let service = McpService::with_port(&config, port);

    let response = service
        .launch_app(
            McpCallContext::http(),
            &McpLaunchAppRequest {
                utility_type: "mcp".to_owned(),
                mcp_scenario: Some("va".to_owned()),
                mode: Some("ordinary".to_owned()),
                mcp_config: Some("/tmp/mcp.json".to_owned()),
                mcp_port: Some(1550),
                wait_ready: Some(true),
            },
        )
        .expect("success");

    assert!(response.ok);
    let requests = service.port.launch_requests.borrow();
    assert_eq!(
        requests[0].1.target,
        LaunchTargetRequest::client_mcp_with_mode(ClientMcpMode::Ordinary)
    );
    assert_eq!(
        requests[0].1.client_mcp.as_ref().expect("client mcp"),
        &ClientMcpOptionsRequest {
            config_path: Some("/tmp/mcp.json".to_owned()),
            port: Some(1550),
            addon: Some(ClientMcpAddonRequest::VanessaAutomation),
            wait_ready: true,
        }
    );
}

#[test]
fn launch_app_rejects_mcp_options_for_non_mcp_utility() {
    let config = sample_config();
    let service = McpService::with_port(
        &config,
        StubPort::with_launch_result(Ok(LaunchResult {
            ok: true,
            mode: LaunchMode::Thin,
            pid: Some(42),
            binary: "/opt/1cv8c".to_owned(),
            message: None,
            mcp_readiness: None,
            external_epf_wait: None,
        })),
    );

    let error = service
        .launch_app(
            McpCallContext::http(),
            &McpLaunchAppRequest {
                utility_type: "thin".to_owned(),
                wait_ready: Some(true),
                ..McpLaunchAppRequest::default()
            },
        )
        .expect_err("expected mcp-only option failure");

    match error {
        McpServiceError::Business(failure) => {
            assert_eq!(failure.error.code, McpErrorCode::UnsupportedValue);
            assert_eq!(text(&failure.response, "message").as_deref(), Some("mcpConfig, mcpPort, mode, mcpScenario, and waitReady are supported only when utilityType is mcp"));
            assert_eq!(text(&failure.response, "field").as_deref(), Some("utilityType"));
            assert_eq!(service.port.launch_requests.borrow().len(), 0);
        }
        other => panic!("unexpected error: {other:?}"),
    }
}

#[test]
fn launch_app_ignores_blank_mcp_string_options_for_non_mcp_utility() {
    let config = sample_config();
    let service = McpService::with_port(
        &config,
        StubPort::with_launch_result(Ok(LaunchResult {
            ok: true,
            mode: LaunchMode::Thin,
            pid: Some(42),
            binary: "/opt/1cv8c".to_owned(),
            message: None,
            mcp_readiness: None,
            external_epf_wait: None,
        })),
    );

    let response = service
        .launch_app(
            McpCallContext::http(),
            &McpLaunchAppRequest {
                utility_type: "thin".to_owned(),
                mcp_config: Some(" ".to_owned()),
                mode: Some("".to_owned()),
                mcp_scenario: Some(" \t ".to_owned()),
                ..McpLaunchAppRequest::default()
            },
        )
        .expect("blank MCP string options are omitted");

    assert!(response.ok);
    let requests = service.port.launch_requests.borrow();
    assert_eq!(requests.len(), 1);
    assert_eq!(requests[0].1.target, LaunchTargetRequest::thin_client());
}

#[test]
fn launch_app_rejects_semicolon_in_mcp_config_path() {
    let config = sample_config();
    let service = McpService::with_port(
        &config,
        StubPort::with_launch_result(Ok(LaunchResult {
            ok: true,
            mode: LaunchMode::Mcp,
            pid: Some(42),
            binary: "/opt/1cv8".to_owned(),
            message: None,
            mcp_readiness: None,
            external_epf_wait: None,
        })),
    );

    let error = service
        .launch_app(
            McpCallContext::http(),
            &McpLaunchAppRequest {
                utility_type: "mcp".to_owned(),
                mcp_config: Some("/tmp/mcp.json;debug=true".to_owned()),
                ..McpLaunchAppRequest::default()
            },
        )
        .expect_err("expected mcp config validation failure");

    match error {
        McpServiceError::Business(failure) => {
            assert_eq!(failure.error.code, McpErrorCode::UnsupportedValue);
            assert_eq!(text(&failure.response, "message").as_deref(), Some("mcpConfig must not contain ';' because the /C runMcp payload is semicolon-delimited"));
            assert_eq!(service.port.launch_requests.borrow().len(), 0);
        }
        other => panic!("unexpected error: {other:?}"),
    }
}

#[test]
fn launch_app_rejects_zero_mcp_port() {
    let config = sample_config();
    let service = McpService::with_port(
        &config,
        StubPort::with_launch_result(Ok(LaunchResult {
            ok: true,
            mode: LaunchMode::Mcp,
            pid: Some(42),
            binary: "/opt/1cv8".to_owned(),
            message: None,
            mcp_readiness: None,
            external_epf_wait: None,
        })),
    );

    let error = service
        .launch_app(
            McpCallContext::http(),
            &McpLaunchAppRequest {
                utility_type: "mcp".to_owned(),
                mcp_port: Some(0),
                ..McpLaunchAppRequest::default()
            },
        )
        .expect_err("expected mcp port validation failure");

    match error {
        McpServiceError::Business(failure) => {
            assert_eq!(failure.error.code, McpErrorCode::UnsupportedValue);
            assert_eq!(text(&failure.response, "message").as_deref(), Some("mcpPort must be greater than or equal to 1"));
            assert_eq!(service.port.launch_requests.borrow().len(), 0);
        }
        other => panic!("unexpected error: {other:?}"),
    }
}

#[test]
fn launch_app_rejects_blank_alias_with_consistent_validation_message() {
    let config = sample_config();
    let service = McpService::with_port(
        &config,
        StubPort::with_launch_result(Ok(LaunchResult {
            ok: true,
            mode: LaunchMode::Designer,
            pid: None,
            binary: "/opt/1cv8".to_owned(),
            message: None,
            mcp_readiness: None,
            external_epf_wait: None,
        })),
    );

    let error = service
        .launch_app(
            McpCallContext::stdio(),
            &McpLaunchAppRequest {
                utility_type: "   ".to_owned(),
                ..McpLaunchAppRequest::default()
            },
        )
        .expect_err("expected failure");

    match error {
        McpServiceError::Business(failure) => {
            assert_eq!(failure.error.code, McpErrorCode::InvalidArgument);
            assert_eq!(failure.error.message, "utilityType must not be blank");
            assert_eq!(text(&failure.response, "message").as_deref(), Some("utilityType must not be blank"));
            assert_eq!(text(&failure.response, "tool").as_deref(), Some("launch_app"));
            assert_eq!(text(&failure.response, "field").as_deref(), Some("utilityType"));
        }
        other => panic!("unexpected error: {other:?}"),
    }
}

#[test]
fn launch_app_rejects_unknown_alias_as_business_failure() {
    let config = sample_config();
    let service = McpService::with_port(
        &config,
        StubPort::with_launch_result(Ok(LaunchResult {
            ok: true,
            mode: LaunchMode::Designer,
            pid: None,
            binary: "/opt/1cv8".to_owned(),
            message: None,
            mcp_readiness: None,
            external_epf_wait: None,
        })),
    );

    let error = service
        .launch_app(
            McpCallContext::stdio(),
            &McpLaunchAppRequest {
                utility_type: "unknown".to_owned(),
                ..McpLaunchAppRequest::default()
            },
        )
        .expect_err("expected failure");

    match error {
        McpServiceError::Business(failure) => {
            assert_eq!(failure.error.code, McpErrorCode::UnsupportedValue);
            assert_eq!(text(&failure.response, "message").as_deref(), Some("unsupported launch utilityType: unknown"));
            assert_eq!(text(&failure.response, "field").as_deref(), Some("utilityType"));
        }
        other => panic!("unexpected error: {other:?}"),
    }
}

#[test]
fn check_syntax_edt_maps_blank_project_to_all_projects() {
    let port = StubPort::with_syntax_result(Ok(sample_syntax_result(SyntaxCheckStatus::Clean)));
    let config = sample_config();
    let service = McpService::with_port(&config, port);

    let response = service
        .check_syntax_edt(
            McpCallContext::stdio(),
            &McpCheckSyntaxEdtRequest {
                project_name: Some(" ".to_owned()),
            },
        )
        .expect("success");

    assert!(response.ok);
    assert_eq!(response.command, "syntax");
    let requests = service.port.syntax_requests.borrow();
    assert_eq!(
        requests[0].1.target,
        SyntaxTargetRequest::Edt { projects: vec![] }
    );
}

#[test]
fn check_syntax_edt_maps_failure_without_payload() {
    let port = StubPort::with_syntax_result(Err(UseCaseFailure::without_payload(
        UseCaseError::new(UseCaseErrorKind::Validation, "edt project not found"),
    )));
    let config = sample_config();
    let service = McpService::with_port(&config, port);

    let error = service
        .check_syntax_edt(
            McpCallContext::stdio(),
            &McpCheckSyntaxEdtRequest::default(),
        )
        .expect_err("expected failure");

    match error {
        McpServiceError::Business(failure) => {
            assert_eq!(failure.error.code, McpErrorCode::InvalidArgument);
            assert_eq!(text(&failure.response, "message").as_deref(), Some("edt project not found"));
            assert_eq!(text(&failure.response, "tool").as_deref(), Some("check_syntax_edt"));
        }
        other => panic!("unexpected error: {other:?}"),
    }
}

#[test]
fn normalize_extension_scope_covers_tri_state_matrix() {
    let cases = [
        (None, None, SyntaxExtensionScope::AllExtensions),
        (None, Some(false), SyntaxExtensionScope::MainConfiguration),
        (None, Some(true), SyntaxExtensionScope::AllExtensions),
        (
            Some(" Ext "),
            None,
            SyntaxExtensionScope::SingleExtension {
                name: "Ext".to_owned(),
            },
        ),
        (
            Some(" Ext "),
            Some(false),
            SyntaxExtensionScope::SingleExtension {
                name: "Ext".to_owned(),
            },
        ),
        (
            Some(" Ext "),
            Some(true),
            SyntaxExtensionScope::SingleExtensionAndAll {
                name: "Ext".to_owned(),
            },
        ),
        (Some(" "), None, SyntaxExtensionScope::AllExtensions),
    ];

    for (extension, all_extensions, expected) in cases {
        assert_eq!(
            normalize_extension_scope(extension, all_extensions),
            expected
        );
    }
}

#[test]
fn check_syntax_designer_config_maps_normalized_defaults() {
    let port = StubPort::with_syntax_result(Ok(sample_syntax_result(SyntaxCheckStatus::Clean)));
    let config = sample_config();
    let service = McpService::with_port(&config, port);

    let response = service
        .check_syntax_designer_config(
            McpCallContext::http(),
            &McpCheckSyntaxDesignerConfigRequest {
                extension: None,
                ..McpCheckSyntaxDesignerConfigRequest::default()
            },
        )
        .expect("success");

    assert!(response.ok);
    assert_eq!(response.command, "syntax");
    let requests = service.port.syntax_requests.borrow();
    match &requests[0].1.target {
        SyntaxTargetRequest::DesignerConfig(request) => {
            assert!(request.has_client_scope(DesignerClientScope::ThinClient));
            assert!(request.has_client_scope(DesignerClientScope::Server));
            assert!(request.extended_modules().is_enabled());
            assert!(request.extension_scope().includes_all_extensions());
        }
        other => panic!("unexpected target: {other:?}"),
    }
}

#[test]
fn check_syntax_designer_config_uses_extension_scope_helper() {
    let port = StubPort::with_syntax_result(Ok(sample_syntax_result(SyntaxCheckStatus::Clean)));
    let config = sample_config();
    let service = McpService::with_port(&config, port);

    service
        .check_syntax_designer_config(
            McpCallContext::http(),
            &McpCheckSyntaxDesignerConfigRequest {
                extension: Some(" Ext ".to_owned()),
                all_extensions: Some(true),
                ..McpCheckSyntaxDesignerConfigRequest::default()
            },
        )
        .expect("success");

    let requests = service.port.syntax_requests.borrow();
    match &requests[0].1.target {
        SyntaxTargetRequest::DesignerConfig(request) => {
            assert_eq!(request.extension_scope().extension(), Some("Ext"));
            assert!(request.extension_scope().includes_all_extensions());
        }
        other => panic!("unexpected target: {other:?}"),
    }
}

#[test]
fn check_syntax_designer_config_rejects_sync_dependency_without_calling_use_case() {
    let port = StubPort::with_syntax_result(Ok(sample_syntax_result(SyntaxCheckStatus::Clean)));
    let config = sample_config();
    let service = McpService::with_port(&config, port);

    let error = service
        .check_syntax_designer_config(
            McpCallContext::stdio(),
            &McpCheckSyntaxDesignerConfigRequest {
                extended_modules_check: Some(false),
                check_use_synchronous_calls: Some(true),
                ..McpCheckSyntaxDesignerConfigRequest::default()
            },
        )
        .expect_err("expected failure");

    assert!(service.port.syntax_requests.borrow().is_empty());
    match error {
        McpServiceError::Business(failure) => {
            assert_eq!(failure.error.code, McpErrorCode::InvalidArgument);
            assert_eq!(text(&failure.response, "message").as_deref(), Some("checkUseSynchronousCalls requires extendedModulesCheck=true"));
            assert_eq!(text(&failure.response, "errors/0").as_deref(), Some("checkUseSynchronousCalls requires extendedModulesCheck=true"));
        }
        other => panic!("unexpected error: {other:?}"),
    }
}

#[test]
fn check_syntax_designer_config_rejects_modality_dependency_without_calling_use_case() {
    let port = StubPort::with_syntax_result(Ok(sample_syntax_result(SyntaxCheckStatus::Clean)));
    let config = sample_config();
    let service = McpService::with_port(&config, port);

    let error = service
        .check_syntax_designer_config(
            McpCallContext::stdio(),
            &McpCheckSyntaxDesignerConfigRequest {
                extended_modules_check: Some(false),
                check_use_modality: Some(true),
                ..McpCheckSyntaxDesignerConfigRequest::default()
            },
        )
        .expect_err("expected failure");

    assert!(service.port.syntax_requests.borrow().is_empty());
    match error {
        McpServiceError::Business(failure) => {
            assert_eq!(failure.error.code, McpErrorCode::InvalidArgument);
            assert_eq!(text(&failure.response, "message").as_deref(), Some("checkUseModality requires extendedModulesCheck=true"));
            assert_eq!(text(&failure.response, "errors/0").as_deref(), Some("checkUseModality requires extendedModulesCheck=true"));
        }
        other => panic!("unexpected error: {other:?}"),
    }
}

#[test]
fn check_syntax_designer_config_maps_failure_payload_into_business_failure() {
    let port = StubPort::with_syntax_result(Err(UseCaseFailure::with_payload(
        UseCaseError::new(UseCaseErrorKind::Platform, "designer failed"),
        sample_syntax_result(SyntaxCheckStatus::ToolFailed),
    )));
    let config = sample_config();
    let service = McpService::with_port(&config, port);

    let error = service
        .check_syntax_designer_config(
            McpCallContext::stdio(),
            &McpCheckSyntaxDesignerConfigRequest::default(),
        )
        .expect_err("expected failure");

    match error {
        McpServiceError::Business(failure) => {
            assert_eq!(failure.error.code, McpErrorCode::PlatformFailure);
            assert_eq!(text(&failure.response, "status").as_deref(), Some("tool_failed"));
            assert_eq!(text(&failure.response, "stderr").as_deref(), Some("designer stderr"));
            assert_eq!(text(&failure.response, "log_read_warning").as_deref(), Some("log truncated"));
        }
        other => panic!("unexpected error: {other:?}"),
    }
}

#[test]
fn check_syntax_designer_modules_maps_success_request() {
    let port =
        StubPort::with_syntax_result(Ok(sample_syntax_result(SyntaxCheckStatus::IssuesFound)));
    let config = sample_config();
    let service = McpService::with_port(&config, port);

    let response = service
        .check_syntax_designer_modules(
            McpCallContext::http(),
            &McpCheckSyntaxDesignerModulesRequest {
                extension: Some("Ext".to_owned()),
                all_extensions: Some(false),
                ..McpCheckSyntaxDesignerModulesRequest::default()
            },
        )
        .expect("success");

    assert!(response.ok);
    assert_eq!(text(&response, "status").as_deref(), Some("issues_found"));
    let requests = service.port.syntax_requests.borrow();
    match &requests[0].1.target {
        SyntaxTargetRequest::DesignerModules(request) => {
            assert!(request.has_client_scope(DesignerClientScope::ThinClient));
            assert!(request.has_client_scope(DesignerClientScope::Server));
            assert_eq!(request.extension_scope().extension(), Some("Ext"));
            assert!(!request.extension_scope().includes_all_extensions());
        }
        other => panic!("unexpected target: {other:?}"),
    }
}

#[test]
fn check_syntax_designer_modules_uses_extension_scope_helper() {
    let port = StubPort::with_syntax_result(Ok(sample_syntax_result(SyntaxCheckStatus::Clean)));
    let config = sample_config();
    let service = McpService::with_port(&config, port);

    service
        .check_syntax_designer_modules(
            McpCallContext::http(),
            &McpCheckSyntaxDesignerModulesRequest {
                extension: Some(" ".to_owned()),
                all_extensions: None,
                ..McpCheckSyntaxDesignerModulesRequest::default()
            },
        )
        .expect("success");

    let requests = service.port.syntax_requests.borrow();
    match &requests[0].1.target {
        SyntaxTargetRequest::DesignerModules(request) => {
            assert_eq!(request.extension_scope().extension(), None);
            assert!(request.extension_scope().includes_all_extensions());
        }
        other => panic!("unexpected target: {other:?}"),
    }
}

#[test]
fn check_syntax_designer_modules_maps_failure_without_payload() {
    let port = StubPort::with_syntax_result(Err(UseCaseFailure::without_payload(
        UseCaseError::new(UseCaseErrorKind::Validation, "no syntax modes selected"),
    )));
    let config = sample_config();
    let service = McpService::with_port(&config, port);

    let error = service
        .check_syntax_designer_modules(
            McpCallContext::stdio(),
            &McpCheckSyntaxDesignerModulesRequest::default(),
        )
        .expect_err("expected failure");

    match error {
        McpServiceError::Business(failure) => {
            assert_eq!(failure.error.code, McpErrorCode::InvalidArgument);
            assert_eq!(text(&failure.response, "message").as_deref(), Some("no syntax modes selected"));
            assert_eq!(text(&failure.response, "tool").as_deref(), Some("check_syntax_designer_modules"));
        }
        other => panic!("unexpected error: {other:?}"),
    }
}

#[test]
fn rejects_non_mcp_transport_as_internal_error() {
    let config = sample_config();
    let service = McpService::with_port(
        &config,
        StubPort::with_build_result(Ok(BuildResult {
            ok: true,
            steps: vec![],
            duration_ms: 0,
        })),
    );

    let error = service
        .build_project(
            McpCallContext::new(ExecutionTransport::Cli),
            &McpBuildProjectRequest::default(),
        )
        .expect_err("expected failure");

    match error {
        McpServiceError::Internal(error) => {
            assert_eq!(error.code, McpErrorCode::Internal);
            assert!(error.message.contains("non-MCP transport"));
        }
        other => panic!("unexpected error: {other:?}"),
    }
}

#[test]
fn internal_error_is_not_confused_with_business_failure() {
    let config = sample_config();
    let service = McpService::with_port(
        &config,
        StubPort::with_build_result(Ok(BuildResult {
            ok: true,
            steps: vec![],
            duration_ms: 0,
        })),
    );

    let error = service
        .build_project(
            McpCallContext::new(ExecutionTransport::Cli),
            &McpBuildProjectRequest::default(),
        )
        .expect_err("expected failure");

    assert!(matches!(error, McpServiceError::Internal(_)));
    assert!(!matches!(error, McpServiceError::Business(_)));
}

#[test]
fn failed_launch_without_a_result_tells_tool_and_message() {
    let port = StubPort::with_launch_result(Err(UseCaseFailure::without_payload(
        UseCaseError::new(UseCaseErrorKind::Platform, "1cv8c was not found"),
    )));
    let config = sample_config();
    let service = McpService::with_port(&config, port);

    let error = service
        .launch_app(
            McpCallContext::stdio(),
            &McpLaunchAppRequest {
                utility_type: "thin".to_owned(),
                ..McpLaunchAppRequest::default()
            },
        )
        .expect_err("expected failure");

    match error {
        McpServiceError::Business(failure) => {
            assert_eq!(failure.error.code, McpErrorCode::PlatformFailure);
            assert_eq!(failure.response.command, "launch");
            assert_eq!(
                text(&failure.response, "message").as_deref(),
                Some("1cv8c was not found")
            );
            assert_eq!(text(&failure.response, "tool").as_deref(), Some("launch_app"));
        }
        other => panic!("unexpected error: {other:?}"),
    }
}

#[test]
fn launch_duration_is_measured_by_a_real_clock() {
    let port = StubPort::with_launch_result(Ok(LaunchResult {
        ok: true,
        mode: LaunchMode::Thin,
        pid: Some(7),
        binary: "/opt/1cv8c".to_owned(),
        message: None,
        mcp_readiness: None,
        external_epf_wait: None,
    }));
    let config = sample_config();
    let service = McpService::with_port(&config, port);

    let response = service
        .launch_app(
            McpCallContext::stdio(),
            &McpLaunchAppRequest {
                utility_type: "thin".to_owned(),
                ..McpLaunchAppRequest::default()
            },
        )
        .expect("success");

    assert!(response.duration_ms < 20_000);
}

fn copy_test_request(request: &TestRequest) -> TestRequest {
    let execution = &request.execution;
    TestRequest {
        execution: ScenarioExecutionRequest {
            profile: RunnerProfile {
                id: execution.profile.id.clone(),
                kind: execution.profile.kind,
                output_formats: execution.profile.output_formats.clone(),
                backend_hint: execution.profile.backend_hint.clone(),
            },
            client_mode: execution.client_mode,
            timeouts: execution.timeouts,
            policy: execution.policy,
            launch: execution.launch.clone(),
        },
        full: request.full,
        scope: match &request.scope {
            TestScopeRequest::All => TestScopeRequest::All,
            TestScopeRequest::Module { name } => TestScopeRequest::Module { name: name.clone() },
        },
    }
}

fn copy_extension_scope(scope: &SyntaxExtensionScope) -> SyntaxExtensionScope {
    match scope {
        SyntaxExtensionScope::MainConfiguration => SyntaxExtensionScope::MainConfiguration,
        SyntaxExtensionScope::AllExtensions => SyntaxExtensionScope::AllExtensions,
        SyntaxExtensionScope::SingleExtension { name } => {
            SyntaxExtensionScope::SingleExtension { name: name.clone() }
        }
        SyntaxExtensionScope::SingleExtensionAndAll { name } => {
            SyntaxExtensionScope::SingleExtensionAndAll { name: name.clone() }
        }
    }
}

fn copy_syntax_request(request: &SyntaxRequest) -> SyntaxRequest {
    SyntaxRequest {
        target: match &request.target {
            SyntaxTargetRequest::Edt { projects } => SyntaxTargetRequest::Edt {
                projects: projects.clone(),
            },
            SyntaxTargetRequest::DesignerConfig(r) => {
                SyntaxTargetRequest::DesignerConfig(DesignerConfigSyntaxRequest {
                    checks: r.checks.clone(),
                    scopes: r.scopes.clone(),
                    extended_modules: r.extended_modules,
                    extension_scope: copy_extension_scope(&r.extension_scope),
                })
            }
            SyntaxTargetRequest::DesignerModules(r) => {
                SyntaxTargetRequest::DesignerModules(DesignerModulesSyntaxRequest {
                    scopes: r.scopes.clone(),
                    extended_modules: r.extended_modules,
                    extension_scope: copy_extension_scope(&r.extension_scope),
                })
            }
        },
    }
}

/// Text of a member of the response's data.
fn text(response: &Envelope, member: &str) -> Option<String> {
    match &response.data {
        CommandData::Build(x) => match member {
            "ok" => Some(x.ok.to_string()),
            "steps/0/mode" => Some(x.steps[0].mode.as_str().to_owned()),
            "steps/0/ok" => Some(x.steps[0].ok.to_string()),
            _ => None,
        },
        CommandData::Test(_) => None,
        CommandData::Dump(x) => match member {
            "mode" => Some(x.mode.as_str().to_owned()),
            "message" => x.message.clone(),
            _ => None,
        },
        CommandData::Launch(x) => match member {
            "message" => x.message.clone(),
            _ => None,
        },
        CommandData::Syntax(x) => match member {
            "status" => Some(x.status.as_str().to_owned()),
            "stderr" => x.stderr.clone(),
            "log_read_warning" => x.log_read_warning.clone(),
            _ => None,
        },
        CommandData::Error(x) => match member {
            "message" => Some(x.message.clone()),
            "tool" => Some(x.tool.clone()),
            "field" => x.field.clone(),
            "mode" => x.mode.clone(),
            "errors/0" => x.errors.as_ref().map(|errors| errors[0].clone()),
            _ => None,
        },
    }
}

fn summary(response: &Envelope) -> TestSummary {
    match &response.data {
        CommandData::Test(x) => x.report.as_ref().expect("report").summary,
        other => panic!("unexpected data: {other:?}"),
    }
}

fn diagnostics(response: &Envelope) -> &Vec<String> {
    match &response.data {
        CommandData::Test(x) => &x.diagnostics,
        other => panic!("unexpected data: {other:?}"),
    }
}

fn sample_config() -> AppConfig {
    AppConfig {
        base_path: "/tmp/project".to_owned(),
        work_path: "/tmp/work".to_owned(),
        execution_timeout: 300_000,
        format: SourceFormat::Designer,
        builder: BuilderBackend::Designer,
        infobase: InfobaseConfig::file("File=/tmp/ib"),
        source_sets: vec![SourceSetConfig {
            name: "main".to_owned(),
            purpose: SourceSetPurpose::Configuration,
            path: "src".to_owned(),
            depends_on: Vec::new(),
        }],
        build: BuildConfig::default(),
        tools: ToolsConfig {
            platform: PlatformToolConfig::default(),
            enterprise: EnterpriseToolConfig::default(),
            edt_cli: EdtCliConfig::default(),
            va: VanessaToolConfig::default(),
        },
        mcp: McpConfig::default(),
        tests: TestsConfig::default(),
    }
}

fn sample_test_result(ok: bool) -> TestRunResult {
    let report = TestReport {
        summary: TestSummary {
            total: 3,
            passed: 2,
            failed: 1,
            skipped: 0,
            errors: 0,
        },
        suites: vec![TestSuite {
            name: "Smoke".to_owned(),
            cases: vec![
                TestCase {
                    name: "ok".to_owned(),
                    class_name: None,
                    status: TestStatus::Passed,
                    duration_ms: 10,
                    failure_message: None,
                    stack_trace: None,
                },
                TestCase {
                    name: "fail".to_owned(),
                    class_name: Some("Smoke".to_owned()),
                    status: TestStatus::Failed,
                    duration_ms: 11,
                    failure_message: Some("assert".to_owned()),
                    stack_trace: Some("trace".to_owned()),
                },
            ],
            duration_ms: 21,
        }],
        extracted_errors: if ok { vec![] } else { vec!["assert".to_owned()] },
    };
    TestRunResult {
        execution: TestExecution {
            status: if ok {
                ExecutionStatus::Succeeded
            } else {
                ExecutionStatus::Failed
            },
            payload: Some(report),
            diagnostics: vec![],
            errors: if ok {
                vec![]
            } else {
                vec![ExecutionError::new("test_failures", "Tests failed".to_owned())]
            },
        },
        warnings: vec![],
        steps: if ok {
            vec![]
        } else {
            vec![StepResult {
                name: "test".to_owned(),
                ok: false,
                duration_ms: 120,
                message: Some("boom".to_owned()),
            }]
        },
        duration_ms: 120,
    }
}

fn sample_syntax_result(status: SyntaxCheckStatus) -> SyntaxCheckResult {
    SyntaxCheckResult {
        status,
        exit_code: if status == SyntaxCheckStatus::Clean { 0 } else { 1 },
        check_name: "CheckConfig".to_owned(),
        issues: if status == SyntaxCheckStatus::IssuesFound {
            vec![Issue::Module(ModuleIssue {
                path: "src/CommonModule.bsl".to_owned(),
                line: Some(10),
                column: Some(4),
                message: "broken".to_owned(),
                severity: IssueSeverity::Error,
            })]
        } else {
            vec![]
        },
        summary: SyntaxIssueSummary {
            errors: usize::from(status == SyntaxCheckStatus::IssuesFound),
            warnings: 0,
            info: 0,
        },
        duration_ms: 55,
        platform_log_path: None,
        stderr: if status == SyntaxCheckStatus::ToolFailed {
            Some("designer stderr".to_owned())
        } else {
            None
        },
        log_read_warning: if status == SyntaxCheckStatus::ToolFailed {
            Some("log truncated".to_owned())
        } else {
            None
        },
    }
}

#[test]
fn busy_workspace_fails_the_command_without_a_result() {
    let busy = UseCaseError::new(
        UseCaseErrorKind::Runtime,
        "workspace is already used by another command",
    );

    let failure = with_workspace_lock::<u32>(Err(busy)).expect_err("busy workspace");
    assert_eq!(failure.error.kind(), UseCaseErrorKind::Runtime);
    assert!(failure.error.message.contains("workspace"));
    assert!(failure.error.message.contains("already"));
    assert_eq!(failure.payload, None);

    assert_eq!(with_workspace_lock::<u32>(Ok(Ok(5))), Ok(5));
}
