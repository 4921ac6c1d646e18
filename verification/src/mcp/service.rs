//! MCP service: tools over the commands.

use vstd::prelude::*;
use crate::config::AppConfig;
use crate::domain::{
    BuildResult, BuildResultView, DumpResult, DumpResultView, LaunchResult, LaunchResultView,
    SyntaxCheckResult, SyntaxCheckResultView, TestRunResult, TestRunResultView,
};
use crate::mcp::context::McpCallContext;
use crate::mcp::envelope::{
    err_envelope, ok_envelope, plain_envelope, test_envelope, test_envelope_view, with_error_view,
    CommandData, CommandDataView, Envelope, EnvelopeView, ErrorData, ErrorDataView,
};
use crate::mcp::error::{business_of, McpBusinessError, McpBusinessFailure, McpServiceError};
use crate::mcp::port::{
    may_build, may_check, may_dump, may_launch, may_test, use_case_view, McpUseCasePort,
};
use crate::mcp::request::{
    McpBuildProjectRequest, McpCheckSyntaxDesignerConfigRequest,
    McpCheckSyntaxDesignerModulesRequest, McpCheckSyntaxEdtRequest, McpDumpConfigRequest,
    McpLaunchAppRequest, McpRunAllTestsRequest, McpRunModuleTestsRequest,
};
use crate::mcp::service_map::{
    build_request, context_of, designer_config_request, designer_modules_request, dump_mode_text,
    dump_request, edt_request, execution_context, invalid_syntax_request, launch_refusal,
    launch_request, map_build_request, map_designer_config_request, map_designer_modules_request,
    map_dump_request, map_launch_app_request, map_run_all_tests_request,
    map_run_module_tests_request, normalize_check_syntax_edt_request, render_dump_mode,
    run_all_refusal, run_all_request, run_module_request, service_view, syntax_refusal,
    ServiceErrorView,
};
use crate::outside::{clock_reading, elapsed_millis};
use crate::text::opt_text;
use crate::use_cases::{
    CommandName, DumpModeRequest, SyntaxRequest, SyntaxRequestView, SyntaxTargetRequest,
    SyntaxTargetRequestView, UseCaseError, UseCaseErrorView, UseCaseFailure,
};

verus! {

// ---------------------------------------------------------------------------------------------
// Responses

/// Response to the end of a command, given the response that its result makes: a failure carries
/// its error, and where it has no result the response names message and tool.
pub open spec fn response(
    command: CommandName,
    tool: Seq<char>,
    mode: Option<Seq<char>>,
    end: Result<EnvelopeView, (UseCaseErrorView, Option<EnvelopeView>)>,
) -> Result<EnvelopeView, ServiceErrorView> {
    match end {
        Ok(envelope) => Ok(envelope),
        Err((error, made)) => {
            let told = match made {
                Some(envelope) => envelope,
                None => plain_envelope(
                    false,
                    command,
                    0,
                    CommandDataView::Error(
                        ErrorDataView {
                            message: error.message,
                            tool,
                            field: None,
                            mode,
                            errors: None,
                        },
                    ),
                ),
            };
            Err(
                ServiceErrorView::Business {
                    error: business_of(error),
                    response: with_error_view(told, business_of(error)),
                },
            )
        },
    }
}

fn respond_failure(
    command: CommandName,
    tool: &str,
    mode: Option<String>,
    error: UseCaseError,
    made: Option<Envelope>,
) -> (r: McpServiceError<Envelope>)
    ensures
        Err::<EnvelopeView, ServiceErrorView>(crate::mcp::service_map::service_error_view(r))
            == response(
            command,
            tool@,
            opt_text(mode),
            Err(
                (
                    error@,
                    match made {
                        Some(envelope) => Some(envelope@),
                        None => None,
                    },
                ),
            ),
        ),
{
    let business_error = McpBusinessError::from_use_case(&error);
    let told = match made {
        Some(envelope) => envelope,
        None => err_envelope(
            command,
            0,
            CommandData::Error(
                ErrorData {
                    message: error.message().to_owned(),
                    tool: tool.to_owned(),
                    field: None,
                    mode,
                    errors: None,
                },
            ),
        ),
    };
    let told = told.with_error(&business_error);
    McpServiceError::Business(McpBusinessFailure::new(business_error, told))
}

/// Response to a build.
pub open spec fn build_outcome(
    outcome: Result<BuildResultView, (UseCaseErrorView, Option<BuildResultView>)>,
) -> Result<EnvelopeView, ServiceErrorView> {
    response(
        CommandName::Build,
        "build_project"@,
        None,
        match outcome {
            Ok(x) => Ok(
                plain_envelope(true, CommandName::Build, x.duration_ms, CommandDataView::Build(x)),
            ),
            Err((error, None)) => Err((error, None)),
            Err((error, Some(x))) => Err(
                (
                    error,
                    Some(
                        plain_envelope(
                            false,
                            CommandName::Build,
                            x.duration_ms,
                            CommandDataView::Build(x),
                        ),
                    ),
                ),
            ),
        },
    )
}

/// Response to a build.
pub fn build_response(result: Result<BuildResult, UseCaseFailure<BuildResult>>) -> (r: Result<
    Envelope,
    McpServiceError<Envelope>,
>)
    ensures
        service_view(r) == build_outcome(use_case_view(result)),
{
    match result {
        Ok(x) => Ok(ok_envelope(CommandName::Build, x.duration_ms, CommandData::Build(x))),
        Err(failure) => {
            let made = match failure.payload {
                Some(x) => Some(
                    err_envelope(CommandName::Build, x.duration_ms, CommandData::Build(x)),
                ),
                None => None,
            };
            Err(respond_failure(CommandName::Build, "build_project", None, failure.error, made))
        },
    }
}

/// Response to a test run.
pub open spec fn test_outcome(
    tool: Seq<char>,
    outcome: Result<TestRunResultView, (UseCaseErrorView, Option<TestRunResultView>)>,
) -> Result<EnvelopeView, ServiceErrorView> {
    response(
        CommandName::Test,
        tool,
        None,
        match outcome {
            Ok(x) => Ok(test_envelope_view(x)),
            Err((error, None)) => Err((error, None)),
            Err((error, Some(x))) => Err((error, Some(test_envelope_view(x)))),
        },
    )
}

/// Response to a test run.
pub fn test_response(
    tool: &str,
    result: Result<TestRunResult, UseCaseFailure<TestRunResult>>,
) -> (r: Result<Envelope, McpServiceError<Envelope>>)
    ensures
        service_view(r) == test_outcome(tool@, use_case_view(result)),
{
    match result {
        Ok(x) => Ok(test_envelope(x)),
        Err(failure) => {
            let made = match failure.payload {
                Some(x) => Some(test_envelope(x)),
                None => None,
            };
            Err(respond_failure(CommandName::Test, tool, None, failure.error, made))
        },
    }
}

/// Response to a dump.
pub open spec fn dump_outcome(
    mode: DumpModeRequest,
    outcome: Result<DumpResultView, (UseCaseErrorView, Option<DumpResultView>)>,
) -> Result<EnvelopeView, ServiceErrorView> {
    response(
        CommandName::Dump,
        "dump_config"@,
        Some(dump_mode_text(mode)),
        match outcome {
            Ok(x) => Ok(
                plain_envelope(true, CommandName::Dump, x.duration_ms, CommandDataView::Dump(x)),
            ),
            Err((error, None)) => Err((error, None)),
            Err((error, Some(x))) => Err(
                (
                    error,
                    Some(
                        plain_envelope(
                            false,
                            CommandName::Dump,
                            x.duration_ms,
                            CommandDataView::Dump(x),
                        ),
                    ),
                ),
            ),
        },
    )
}

/// Response to a dump.
pub fn dump_response(
    mode: DumpModeRequest,
    result: Result<DumpResult, UseCaseFailure<DumpResult>>,
) -> (r: Result<Envelope, McpServiceError<Envelope>>)
    ensures
        service_view(r) == dump_outcome(mode, use_case_view(result)),
{
    match result {
        Ok(x) => Ok(ok_envelope(CommandName::Dump, x.duration_ms, CommandData::Dump(x))),
        Err(failure) => {
            let made = match failure.payload {
                Some(x) => Some(
                    err_envelope(CommandName::Dump, x.duration_ms, CommandData::Dump(x)),
                ),
                None => None,
            };
            let mode = Some(render_dump_mode(mode).to_owned());
            Err(respond_failure(CommandName::Dump, "dump_config", mode, failure.error, made))
        },
    }
}

/// Response to a launch that took the milliseconds.
pub open spec fn launch_outcome(
    duration_ms: u64,
    outcome: Result<LaunchResultView, (UseCaseErrorView, Option<LaunchResultView>)>,
) -> Result<EnvelopeView, ServiceErrorView> {
    response(
        CommandName::Launch,
        "launch_app"@,
        None,
        match outcome {
            Ok(x) => Ok(
                plain_envelope(true, CommandName::Launch, duration_ms, CommandDataView::Launch(x)),
            ),
            Err((error, None)) => Err((error, None)),
            Err((error, Some(x))) => Err(
                (
                    error,
                    Some(
                        plain_envelope(
                            false,
                            CommandName::Launch,
                            duration_ms,
                            CommandDataView::Launch(x),
                        ),
                    ),
                ),
            ),
        },
    )
}

/// Response to a launch that took the milliseconds.
pub fn launch_response(
    duration_ms: u64,
    result: Result<LaunchResult, UseCaseFailure<LaunchResult>>,
) -> (r: Result<Envelope, McpServiceError<Envelope>>)
    ensures
        service_view(r) == launch_outcome(duration_ms, use_case_view(result)),
{
    match result {
        Ok(x) => Ok(ok_envelope(CommandName::Launch, duration_ms, CommandData::Launch(x))),
        Err(failure) => {
            let made = match failure.payload {
                Some(x) => Some(
                    err_envelope(CommandName::Launch, duration_ms, CommandData::Launch(x)),
                ),
                None => None,
            };
            Err(respond_failure(CommandName::Launch, "launch_app", None, failure.error, made))
        },
    }
}

/// Response to a syntax check.
pub open spec fn syntax_outcome(
    tool: Seq<char>,
    outcome: Result<SyntaxCheckResultView, (UseCaseErrorView, Option<SyntaxCheckResultView>)>,
) -> Result<EnvelopeView, ServiceErrorView> {
    response(
        CommandName::Syntax,
        tool,
        None,
        match outcome {
            Ok(x) => Ok(
                plain_envelope(
                    true,
                    CommandName::Syntax,
                    x.duration_ms,
                    CommandDataView::Syntax(x),
                ),
            ),
            Err((error, None)) => Err((error, None)),
            Err((error, Some(x))) => Err(
                (
                    error,
                    Some(
                        plain_envelope(
                            false,
                            CommandName::Syntax,
                            x.duration_ms,
                            CommandDataView::Syntax(x),
                        ),
                    ),
                ),
            ),
        },
    )
}

/// Response to a syntax check.
pub fn syntax_response(
    tool: &str,
    result: Result<SyntaxCheckResult, UseCaseFailure<SyntaxCheckResult>>,
) -> (r: Result<Envelope, McpServiceError<Envelope>>)
    ensures
        service_view(r) == syntax_outcome(tool@, use_case_view(result)),
{
    match result {
        Ok(x) => Ok(ok_envelope(CommandName::Syntax, x.duration_ms, CommandData::Syntax(x))),
        Err(failure) => {
            let made = match failure.payload {
                Some(x) => Some(
                    err_envelope(CommandName::Syntax, x.duration_ms, CommandData::Syntax(x)),
                ),
                None => None,
            };
            Err(respond_failure(CommandName::Syntax, tool, None, failure.error, made))
        },
    }
}

/// Response to the check of EDT projects.
pub fn map_syntax_use_case_result(
    result: Result<SyntaxCheckResult, UseCaseFailure<SyntaxCheckResult>>,
) -> (r: Result<Envelope, McpServiceError<Envelope>>)
    ensures
        service_view(r) == syntax_outcome("check_syntax_edt"@, use_case_view(result)),
{
    syntax_response("check_syntax_edt", result)
}

// ---------------------------------------------------------------------------------------------
// Service

/// MCP service over a configuration and a port to the commands.
#[derive(Debug)]
pub struct McpService<'a, P> {
    pub config: &'a AppConfig,
    pub port: P,
}

impl<'a, P> McpService<'a, P> {
    /// Service over the configuration and the port.
    pub fn with_port(config: &'a AppConfig, port: P) -> (r: Self)
        ensures
            r.config == config,
            r.port == port,
    {
        McpService { config, port }
    }
}

impl<'a, P: McpUseCasePort> McpService<'a, P> {
    /// `build_project`: passes the build on, and responds with how it ended.
    pub fn build_project(
        &self,
        call_context: McpCallContext,
        request: &McpBuildProjectRequest,
    ) -> (r: Result<Envelope, McpServiceError<Envelope>>)
        ensures
            match context_of(call_context, CommandName::Build) {
                Err(e) => service_view(r) == Err::<EnvelopeView, ServiceErrorView>(e),
                Ok(context) => exists|
                    outcome: Result<BuildResultView, (UseCaseErrorView, Option<BuildResultView>)>,
                | #[trigger]
                    may_build(self.port, context, self.config@, build_request(request@), outcome)
                        && service_view(r) == build_outcome(outcome),
            },
    {
        let context = match execution_context(call_context, CommandName::Build) {
            Ok(context) => context,
            Err(e) => {
                return Err(e);
            },
        };
        let mapped = map_build_request(request);
        let result = self.port.build_project(&context, self.config, &mapped);
        assert(may_build(
            self.port,
            context,
            self.config@,
            mapped@,
            use_case_view(result),
        ));
        build_response(result)
    }

    /// `run_all_tests`: refuses a call that is not in order, else passes the run on.
    pub fn run_all_tests(
        &self,
        call_context: McpCallContext,
        request: &McpRunAllTestsRequest,
    ) -> (r: Result<Envelope, McpServiceError<Envelope>>)
        ensures
            match context_of(call_context, CommandName::Test) {
                Err(e) => service_view(r) == Err::<EnvelopeView, ServiceErrorView>(e),
                Ok(context) => match run_all_request(self.config@, request@) {
                    Err(why) => service_view(r) == Err::<EnvelopeView, ServiceErrorView>(
                        run_all_refusal(why),
                    ),
                    Ok((config, mapped)) => exists|
                        outcome: Result<
                            TestRunResultView,
                            (UseCaseErrorView, Option<TestRunResultView>),
                        >,
                    | #[trigger]
                        may_test(self.port, context, config, mapped, outcome) && service_view(r)
                            == test_outcome("run_all_tests"@, outcome),
                },
            },
    {
        let context = match execution_context(call_context, CommandName::Test) {
            Ok(context) => context,
            Err(e) => {
                return Err(e);
            },
        };
        let (config, mapped) = match map_run_all_tests_request(self.config, request) {
            Ok(x) => x,
            Err(e) => {
                return Err(e);
            },
        };
        let result = self.port.run_tests(&context, &config, &mapped);
        assert(may_test(
            self.port,
            context,
            config@,
            mapped@,
            use_case_view(result),
        ));
        test_response("run_all_tests", result)
    }

    /// `run_module_tests`: refuses a call without a module, else passes the run on.
    pub fn run_module_tests(
        &self,
        call_context: McpCallContext,
        request: &McpRunModuleTestsRequest,
    ) -> (r: Result<Envelope, McpServiceError<Envelope>>)
        ensures
            match context_of(call_context, CommandName::Test) {
                Err(e) => service_view(r) == Err::<EnvelopeView, ServiceErrorView>(e),
                Ok(context) => match run_module_request(request@) {
                    Err(e) => service_view(r) == Err::<EnvelopeView, ServiceErrorView>(e),
                    Ok(mapped) => exists|
                        outcome: Result<
                            TestRunResultView,
                            (UseCaseErrorView, Option<TestRunResultView>),
                        >,
                    | #[trigger]
                        may_test(self.port, context, self.config@, mapped, outcome) && service_view(
                            r,
                        ) == test_outcome("run_module_tests"@, outcome),
                },
            },
    {
        let context = match execution_context(call_context, CommandName::Test) {
            Ok(context) => context,
            Err(e) => {
                return Err(e);
            },
        };
        let mapped = match map_run_module_tests_request(request) {
            Ok(x) => x,
            Err(e) => {
                return Err(e);
            },
        };
        let result = self.port.run_tests(&context, self.config, &mapped);
        assert(may_test(
            self.port,
            context,
            self.config@,
            mapped@,
            use_case_view(result),
        ));
        test_response("run_module_tests", result)
    }

    /// `dump_config`: refuses a mode that is not known, else passes the dump on.
    pub fn dump_config(&self, call_context: McpCallContext, request: &McpDumpConfigRequest) -> (r:
        Result<Envelope, McpServiceError<Envelope>>)
        ensures
            match context_of(call_context, CommandName::Dump) {
                Err(e) => service_view(r) == Err::<EnvelopeView, ServiceErrorView>(e),
                Ok(context) => match dump_request(request@) {
                    Err(e) => service_view(r) == Err::<EnvelopeView, ServiceErrorView>(e),
                    Ok(mapped) => exists|
                        outcome: Result<DumpResultView, (UseCaseErrorView, Option<DumpResultView>)>,
                    | #[trigger]
                        may_dump(self.port, context, self.config@, mapped, outcome) && service_view(
                            r,
                        ) == dump_outcome(mapped.mode, outcome),
                },
            },
    {
        let context = match execution_context(call_context, CommandName::Dump) {
            Ok(context) => context,
            Err(e) => {
                return Err(e);
            },
        };
        let mapped = match map_dump_request(request) {
            Ok(x) => x,
            Err(e) => {
                return Err(e);
            },
        };
        let result = self.port.dump_config(&context, self.config, &mapped);
        assert(may_dump(
            self.port,
            context,
            self.config@,
            mapped@,
            use_case_view(result),
        ));
        dump_response(mapped.mode, result)
    }

    /// `launch_app`: refuses a call that is not in order, else passes the launch on. The duration
    /// in the response is read off the clock.
    pub fn launch_app(&self, call_context: McpCallContext, request: &McpLaunchAppRequest) -> (r:
        Result<Envelope, McpServiceError<Envelope>>)
        ensures
            match context_of(call_context, CommandName::Launch) {
                Err(e) => service_view(r) == Err::<EnvelopeView, ServiceErrorView>(e),
                Ok(context) => match launch_request(request@) {
                    Err(why) => service_view(r) == Err::<EnvelopeView, ServiceErrorView>(
                        launch_refusal(why.0, why.1),
                    ),
                    Ok(mapped) => exists|
                        outcome: Result<
                            LaunchResultView,
                            (UseCaseErrorView, Option<LaunchResultView>),
                        >,
                        duration_ms: u64,
                    | #[trigger]
                        may_launch(self.port, context, self.config@, mapped, outcome)
                            && service_view(r) == #[trigger] launch_outcome(duration_ms, outcome),
                },
            },
    {
        let context = match execution_context(call_context, CommandName::Launch) {
            Ok(context) => context,
            Err(e) => {
                return Err(e);
            },
        };
        let mapped = match map_launch_app_request(request) {
            Ok(x) => x,
            Err(e) => {
                return Err(e);
            },
        };
        let started = clock_reading();
        let result = self.port.launch_app(&context, self.config, &mapped);
        assert(may_launch(
            self.port,
            context,
            self.config@,
            mapped@,
            use_case_view(result),
        ));
        let duration_ms: u64 = elapsed_millis(&started);
        launch_response(duration_ms, result)
    }

    /// `check_syntax_edt`: passes the check on.
    pub fn check_syntax_edt(
        &self,
        call_context: McpCallContext,
        request: &McpCheckSyntaxEdtRequest,
    ) -> (r: Result<Envelope, McpServiceError<Envelope>>)
        ensures
            match context_of(call_context, CommandName::Syntax) {
                Err(e) => service_view(r) == Err::<EnvelopeView, ServiceErrorView>(e),
                Ok(context) => exists|
                    outcome: Result<
                        SyntaxCheckResultView,
                        (UseCaseErrorView, Option<SyntaxCheckResultView>),
                    >,
                | #[trigger]
                    may_check(self.port, context, self.config@, edt_request(request@), outcome)
                        && service_view(r) == syntax_outcome("check_syntax_edt"@, outcome),
            },
    {
        let context = match execution_context(call_context, CommandName::Syntax) {
            Ok(context) => context,
            Err(e) => {
                return Err(e);
            },
        };
        let mapped = normalize_check_syntax_edt_request(request);
        let result = self.port.check_syntax(&context, self.config, &mapped);
        assert(may_check(
            self.port,
            context,
            self.config@,
            mapped@,
            use_case_view(result),
        ));
        map_syntax_use_case_result(result)
    }

    /// `check_syntax_designer_config`: refuses flags that do not go together, else passes the
    /// check on.
    pub fn check_syntax_designer_config(
        &self,
        call_context: McpCallContext,
        request: &McpCheckSyntaxDesignerConfigRequest,
    ) -> (r: Result<Envelope, McpServiceError<Envelope>>)
        ensures
            match context_of(call_context, CommandName::Syntax) {
                Err(e) => service_view(r) == Err::<EnvelopeView, ServiceErrorView>(e),
                Ok(context) => match designer_config_request(request@) {
                    Err(message) => service_view(r) == Err::<EnvelopeView, ServiceErrorView>(
                        syntax_refusal("check_syntax_designer_config"@, message),
                    ),
                    Ok(mapped) => exists|
                        outcome: Result<
                            SyntaxCheckResultView,
                            (UseCaseErrorView, Option<SyntaxCheckResultView>),
                        >,
                    | #[trigger]
                        may_check(self.port, context,
                            self.config@,
                            SyntaxRequestView {
                                target: SyntaxTargetRequestView::DesignerConfig(mapped),
                            },
                            outcome,
                        ) && service_view(r) == syntax_outcome(
                            "check_syntax_designer_config"@,
                            outcome,
                        ),
                },
            },
    {
        let context = match execution_context(call_context, CommandName::Syntax) {
            Ok(context) => context,
            Err(e) => {
                return Err(e);
            },
        };
        let mapped = match map_designer_config_request(request) {
            Ok(x) => x,
            Err(error) => {
                return Err(invalid_syntax_request(&error, "check_syntax_designer_config"));
            },
        };
        let mapped = SyntaxRequest { target: SyntaxTargetRequest::DesignerConfig(mapped) };
        let result = self.port.check_syntax(&context, self.config, &mapped);
        assert(may_check(
            self.port,
            context,
            self.config@,
            mapped@,
            use_case_view(result),
        ));
        syntax_response("check_syntax_designer_config", result)
    }

    /// `check_syntax_designer_modules`: refuses a call that checks nothing, else passes the check
    /// on.
    pub fn check_syntax_designer_modules(
        &self,
        call_context: McpCallContext,
        request: &McpCheckSyntaxDesignerModulesRequest,
    ) -> (r: Result<Envelope, McpServiceError<Envelope>>)
        ensures
            match context_of(call_context, CommandName::Syntax) {
                Err(e) => service_view(r) == Err::<EnvelopeView, ServiceErrorView>(e),
                Ok(context) => match designer_modules_request(request@) {
                    Err(message) => service_view(r) == Err::<EnvelopeView, ServiceErrorView>(
                        syntax_refusal("check_syntax_designer_modules"@, message),
                    ),
                    Ok(mapped) => exists|
                        outcome: Result<
                            SyntaxCheckResultView,
                            (UseCaseErrorView, Option<SyntaxCheckResultView>),
                        >,
                    | #[trigger]
                        may_check(self.port, context,
                            self.config@,
                            SyntaxRequestView {
                                target: SyntaxTargetRequestView::DesignerModules(mapped),
                            },
                            outcome,
                        ) && service_view(r) == syntax_outcome(
                            "check_syntax_designer_modules"@,
                            outcome,
                        ),
                },
            },
    {
        let context = match execution_context(call_context, CommandName::Syntax) {
            Ok(context) => context,
            Err(e) => {
                return Err(e);
            },
        };
        let mapped = match map_designer_modules_request(request) {
            Ok(x) => x,
            Err(error) => {
                return Err(invalid_syntax_request(&error, "check_syntax_designer_modules"));
            },
        };
        let mapped = SyntaxRequest { target: SyntaxTargetRequest::DesignerModules(mapped) };
        let result = self.port.check_syntax(&context, self.config, &mapped);
        assert(may_check(
            self.port,
            context,
            self.config@,
            mapped@,
            use_case_view(result),
        ));
        syntax_response("check_syntax_designer_modules", result)
    }
}

// ---------------------------------------------------------------------------------------------
// Laws

/// A failed build is never told as a success: whether or not it left a result, the response is not
/// `ok`, and both the failure and the error in the response carry the build's own message.
pub proof fn failed_build_is_told(error: UseCaseErrorView, payload: Option<BuildResultView>)
    ensures
        match build_outcome(Err((error, payload))) {
            Ok(_) => false,
            Err(ServiceErrorView::Internal { .. }) => false,
            Err(ServiceErrorView::Business { error: told, response }) => {
                &&& !response.ok
                &&& told.message == error.message
                &&& response.error is Some
                &&& response.error->0.message == error.message
            },
        },
{
}

/// The same of a dump; and where the dump left no result, the response names the mode asked for.
pub proof fn failed_dump_is_told(
    mode: DumpModeRequest,
    error: UseCaseErrorView,
    payload: Option<DumpResultView>,
)
    ensures
        match dump_outcome(mode, Err((error, payload))) {
            Ok(_) => false,
            Err(ServiceErrorView::Internal { .. }) => false,
            Err(ServiceErrorView::Business { error: told, response }) => {
                &&& !response.ok
                &&& told.message == error.message
                &&& response.error is Some
                &&& payload is None ==> response.data == CommandDataView::Error(
                    (ErrorDataView {
                        message: error.message,
                        tool: "dump_config"@,
                        field: None,
                        mode: Some(dump_mode_text(mode)),
                        errors: None,
                    }),
                )
            },
        },
{
}

/// The same of a syntax check, whichever tool asked for it.
pub proof fn failed_check_is_told(
    tool: Seq<char>,
    error: UseCaseErrorView,
    payload: Option<SyntaxCheckResultView>,
)
    ensures
        match syntax_outcome(tool, Err((error, payload))) {
            Ok(_) => false,
            Err(ServiceErrorView::Internal { .. }) => false,
            Err(ServiceErrorView::Business { error: told, response }) => !response.ok
                && told.message == error.message && response.error is Some,
        },
{
}

} // verus!
