//! Laws of the responses: what a caller is told of the end of a command.

use vstd::prelude::*;
use crate::domain::{
    BuildResultView, DumpResultView, LaunchResultView, SyntaxCheckResultView, TestRunResultView,
};
use crate::mcp::envelope::{envelope_error_of, CommandDataView, EnvelopeView, ErrorDataView};
use crate::mcp::error::business_of;
use crate::mcp::server::{server_error_text, McpServerErrorView};
use crate::mcp::service::{
    build_outcome, dump_outcome, launch_outcome, syntax_outcome, test_outcome,
};
use crate::mcp::service_map::dump_mode_text;
use crate::use_cases::{use_case_error_text, DumpModeRequest, UseCaseErrorKind, UseCaseErrorView};

verus! {

/// The response is that of a success under the command's name: it took the milliseconds, holds the
/// data, and has nothing else to tell.
pub open spec fn succeeds_with(
    response: EnvelopeView,
    command: Seq<char>,
    duration_ms: u64,
    data: CommandDataView,
) -> bool {
    &&& response.ok
    &&& response.command == command
    &&& response.duration_ms == duration_ms
    &&& response.data == data
    &&& response.warnings.len() == 0
    &&& response.steps.len() == 0
    &&& response.error is None
}

/// A command that succeeded is told so, under its own name, with its own result and the time it
/// took.
pub proof fn success_is_told_with_its_result(
    build: BuildResultView,
    mode: DumpModeRequest,
    dump: DumpResultView,
    launch: LaunchResultView,
    duration_ms: u64,
    tool: Seq<char>,
    check: SyntaxCheckResultView,
)
    ensures
        build_outcome(Ok(build)) is Ok,
        succeeds_with(
            build_outcome(Ok(build))->Ok_0,
            "build"@,
            build.duration_ms,
            CommandDataView::Build(build),
        ),
        dump_outcome(mode, Ok(dump)) is Ok,
        succeeds_with(
            dump_outcome(mode, Ok(dump))->Ok_0,
            "dump"@,
            dump.duration_ms,
            CommandDataView::Dump(dump),
        ),
        launch_outcome(duration_ms, Ok(launch)) is Ok,
        succeeds_with(
            launch_outcome(duration_ms, Ok(launch))->Ok_0,
            "launch"@,
            duration_ms,
            CommandDataView::Launch(launch),
        ),
        syntax_outcome(tool, Ok(check)) is Ok,
        succeeds_with(
            syntax_outcome(tool, Ok(check))->Ok_0,
            "syntax"@,
            check.duration_ms,
            CommandDataView::Syntax(check),
        ),
{
}

/// A test run is told with its report, its diagnostics, its warnings and its steps, and as a success
/// exactly where its execution succeeded, whether or not an error goes with it.
pub proof fn test_run_is_told_with_its_report(
    tool: Seq<char>,
    result: TestRunResultView,
    error: UseCaseErrorView,
)
    ensures
        test_outcome(tool, Ok(result)) is Ok,
        test_outcome(tool, Err((error, Some(result)))) is Err,
        ({
            let told = test_outcome(tool, Ok(result))->Ok_0;
            let failed = test_outcome(tool, Err((error, Some(result))))->Err_0;
            &&& told.ok <==> result.execution.status is Succeeded
            &&& told.command == "test"@
            &&& told.duration_ms == result.duration_ms
            &&& told.warnings == result.warnings
            &&& told.steps == result.steps
            &&& told.error is None
            &&& told.data is Test
            &&& told.data->Test_0.report == result.execution.payload
            &&& told.data->Test_0.diagnostics == result.execution.diagnostics
            &&& failed is Business
            &&& failed->response.error is Some
            &&& failed->response.error->0.message == error.message
            &&& failed->response == (EnvelopeView { error: failed->response.error, ..told })
        }),
{
}

/// A failure without a result is told in the words of the failure, under the tool that was called,
/// and as nothing but a failure.
pub proof fn failure_without_result_names_the_tool(
    tool: Seq<char>,
    mode: DumpModeRequest,
    duration_ms: u64,
    error: UseCaseErrorView,
)
    ensures
        ({
            let build = build_outcome(Err((error, None)));
            let test = test_outcome(tool, Err((error, None)));
            let dump = dump_outcome(mode, Err((error, None)));
            let launch = launch_outcome(duration_ms, Err((error, None)));
            let check = syntax_outcome(tool, Err((error, None)));
            let bare = |name: Seq<char>, m: Option<Seq<char>>|
                CommandDataView::Error(
                    ErrorDataView {
                        message: error.message,
                        tool: name,
                        field: None,
                        mode: m,
                        errors: None,
                    },
                );
            &&& build is Err && build->Err_0->response.data == bare("build_project"@, None)
            &&& test is Err && test->Err_0->response.data == bare(tool, None)
            &&& dump is Err && dump->Err_0->response.data == bare(
                "dump_config"@,
                Some(dump_mode_text(mode)),
            )
            &&& launch is Err && launch->Err_0->response.data == bare("launch_app"@, None)
            &&& check is Err && check->Err_0->response.data == bare(tool, None)
            &&& !build->Err_0->response.ok && !test->Err_0->response.ok
            &&& !dump->Err_0->response.ok && !launch->Err_0->response.ok
            &&& !check->Err_0->response.ok
            &&& build->Err_0->response.command == "build"@
            &&& test->Err_0->response.command == "test"@
            &&& dump->Err_0->response.command == "dump"@
            &&& launch->Err_0->response.command == "launch"@
            &&& check->Err_0->response.command == "syntax"@
            &&& test->Err_0->response.duration_ms == 0
        }),
{
}

/// A failure that left a result is told with it.
pub proof fn failure_keeps_its_result(
    mode: DumpModeRequest,
    tool: Seq<char>,
    duration_ms: u64,
    error: UseCaseErrorView,
    build: BuildResultView,
    dump: DumpResultView,
    launch: LaunchResultView,
    check: SyntaxCheckResultView,
)
    ensures
        ({
            let b = build_outcome(Err((error, Some(build))))->Err_0->response;
            let d = dump_outcome(mode, Err((error, Some(dump))))->Err_0->response;
            let l = launch_outcome(duration_ms, Err((error, Some(launch))))->Err_0->response;
            let c = syntax_outcome(tool, Err((error, Some(check))))->Err_0->response;
            &&& b.data == CommandDataView::Build(build) && b.duration_ms == build.duration_ms
            &&& d.data == CommandDataView::Dump(dump) && d.duration_ms == dump.duration_ms
            &&& l.data == CommandDataView::Launch(launch) && l.duration_ms == duration_ms
            &&& c.data == CommandDataView::Syntax(check) && c.duration_ms == check.duration_ms
            &&& !b.ok && !d.ok && !l.ok && !c.ok
            &&& b.command == "build"@ && d.command == "dump"@
            &&& l.command == "launch"@ && c.command == "syntax"@
            &&& b.error is Some && d.error is Some && l.error is Some && c.error is Some
            &&& b.error->0.message == error.message && d.error->0.message == error.message
            &&& l.error->0.message == error.message && c.error->0.message == error.message
        }),
{
}

/// The caller is told of each class of failures under the names of that class, and in the words of
/// the failure.
pub proof fn failure_is_told_under_its_class(message: Seq<char>)
    ensures
        ({
            let validation = business_of(
                UseCaseErrorView { kind: UseCaseErrorKind::Validation, message },
            );
            let runtime = business_of(UseCaseErrorView { kind: UseCaseErrorKind::Runtime, message });
            let platform = business_of(
                UseCaseErrorView { kind: UseCaseErrorKind::Platform, message },
            );
            &&& validation.code is InvalidArgument && validation.kind is Validation
            &&& runtime.code is RuntimeFailure && runtime.kind is Runtime
            &&& platform.code is PlatformFailure && platform.kind is Platform
            &&& validation.message == message && runtime.message == message
            &&& platform.message == message
            &&& envelope_error_of(validation).code == "invalid_argument"@
            &&& envelope_error_of(validation).kind == "validation"@
            &&& envelope_error_of(runtime).code == "runtime_failure"@
            &&& envelope_error_of(runtime).kind == "runtime"@
            &&& envelope_error_of(platform).code == "platform_failure"@
            &&& envelope_error_of(platform).kind == "platform"@
            &&& envelope_error_of(runtime).message == message
        }),
{
}

/// The text of a failure names its class before its message.
pub proof fn text_of_a_failure_names_its_class(message: Seq<char>)
    ensures
        use_case_error_text(UseCaseErrorView { kind: UseCaseErrorKind::Validation, message })
            == "validation error: "@ + message,
        use_case_error_text(UseCaseErrorView { kind: UseCaseErrorKind::Runtime, message })
            == "runtime error: "@ + message,
        use_case_error_text(UseCaseErrorView { kind: UseCaseErrorKind::Platform, message })
            == "platform error: "@ + message,
{
}

/// The text of a failure of the server tells what it failed at, and why.
pub proof fn text_of_a_server_failure_tells_why(address: Seq<char>, source: Seq<char>)
    ensures
        server_error_text(McpServerErrorView::BindHttp { address, source })
            == "failed to bind MCP HTTP listener on "@ + address + ": "@ + source,
        server_error_text(McpServerErrorView::BuildRuntime(source))
            == "failed to build tokio runtime for MCP transport: "@ + source,
        server_error_text(McpServerErrorView::Bootstrap(source))
            == "failed to initialize MCP transport: "@ + source,
        server_error_text(McpServerErrorView::Start(source)) == "failed to start MCP transport: "@
            + source,
        server_error_text(McpServerErrorView::Task(source)) == "MCP transport task failed: "@
            + source,
{
}

} // verus!
