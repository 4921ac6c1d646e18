//! Way from the MCP service to the commands.

use std::sync::Arc;
use vstd::prelude::*;
use crate::config::{AppConfig, AppConfigView};
use crate::domain::{
    BuildResult, BuildResultView, DumpResult, DumpResultView, LaunchResult, LaunchResultView,
    SyntaxCheckResult, SyntaxCheckResultView, TestRunResult, TestRunResultView,
};
use crate::use_cases::{
    BuildRequest, BuildRequestView, DumpRequest, DumpRequestView, ExecutionContext, LaunchRequest,
    LaunchRequestView, SyntaxRequest, SyntaxRequestView, TestRequest, TestRequestView,
    UseCaseError, UseCaseErrorView, UseCaseFailure,
};

verus! {

/// Mathematical value of the result of a command.
pub open spec fn use_case_view<T: View>(result: Result<T, UseCaseFailure<T>>) -> Result<
    T::V,
    (UseCaseErrorView, Option<T::V>),
> {
    match result {
        Ok(value) => Ok(value@),
        Err(failure) => Err(
            (
                failure.error@,
                match failure.payload {
                    Some(p) => Some(p@),
                    None => None,
                },
            ),
        ),
    }
}

/// Way from the MCP service to the commands.
pub trait McpUseCasePort {
    /// Builds.
    fn build_project(
        &self,
        context: &ExecutionContext,
        config: &AppConfig,
        request: &BuildRequest,
    ) -> Result<BuildResult, UseCaseFailure<BuildResult>>;

    /// Runs tests.
    fn run_tests(
        &self,
        context: &ExecutionContext,
        config: &AppConfig,
        request: &TestRequest,
    ) -> Result<TestRunResult, UseCaseFailure<TestRunResult>>;

    /// Dumps.
    fn dump_config(
        &self,
        context: &ExecutionContext,
        config: &AppConfig,
        request: &DumpRequest,
    ) -> Result<DumpResult, UseCaseFailure<DumpResult>>;

    /// Launches.
    fn launch_app(
        &self,
        context: &ExecutionContext,
        config: &AppConfig,
        request: &LaunchRequest,
    ) -> Result<LaunchResult, UseCaseFailure<LaunchResult>>;

    /// Checks the syntax.
    fn check_syntax(
        &self,
        context: &ExecutionContext,
        config: &AppConfig,
        request: &SyntaxRequest,
    ) -> Result<SyntaxCheckResult, UseCaseFailure<SyntaxCheckResult>>;
}

/// The build may end like this: the port has returned it for this context, configuration and
/// request.
pub open spec fn may_build<P: McpUseCasePort>(
    port: P,
    context: ExecutionContext,
    config: AppConfigView,
    request: BuildRequestView,
    outcome: Result<BuildResultView, (UseCaseErrorView, Option<BuildResultView>)>,
) -> bool {
    exists|c: AppConfig, q: BuildRequest, r: Result<BuildResult, UseCaseFailure<BuildResult>>|
        c@ == config && q@ == request && use_case_view(r) == outcome && #[trigger] call_ensures(
            P::build_project,
            (&port, &context, &c, &q),
            r,
        )
}

/// The test run may end like this: the port has returned it for this context, configuration and
/// request.
pub open spec fn may_test<P: McpUseCasePort>(
    port: P,
    context: ExecutionContext,
    config: AppConfigView,
    request: TestRequestView,
    outcome: Result<TestRunResultView, (UseCaseErrorView, Option<TestRunResultView>)>,
) -> bool {
    exists|c: AppConfig, q: TestRequest, r: Result<TestRunResult, UseCaseFailure<TestRunResult>>|
        c@ == config && q@ == request && use_case_view(r) == outcome && #[trigger] call_ensures(
            P::run_tests,
            (&port, &context, &c, &q),
            r,
        )
}

/// The dump may end like this: the port has returned it for this context, configuration and
/// request.
pub open spec fn may_dump<P: McpUseCasePort>(
    port: P,
    context: ExecutionContext,
    config: AppConfigView,
    request: DumpRequestView,
    outcome: Result<DumpResultView, (UseCaseErrorView, Option<DumpResultView>)>,
) -> bool {
    exists|c: AppConfig, q: DumpRequest, r: Result<DumpResult, UseCaseFailure<DumpResult>>|
        c@ == config && q@ == request && use_case_view(r) == outcome && #[trigger] call_ensures(
            P::dump_config,
            (&port, &context, &c, &q),
            r,
        )
}

/// The launch may end like this: the port has returned it for this context, configuration and
/// request.
pub open spec fn may_launch<P: McpUseCasePort>(
    port: P,
    context: ExecutionContext,
    config: AppConfigView,
    request: LaunchRequestView,
    outcome: Result<LaunchResultView, (UseCaseErrorView, Option<LaunchResultView>)>,
) -> bool {
    exists|c: AppConfig, q: LaunchRequest, r: Result<LaunchResult, UseCaseFailure<LaunchResult>>|
        c@ == config && q@ == request && use_case_view(r) == outcome && #[trigger] call_ensures(
            P::launch_app,
            (&port, &context, &c, &q),
            r,
        )
}

/// The syntax check may end like this: the port has returned it for this context, configuration and
/// request.
pub open spec fn may_check<P: McpUseCasePort>(
    port: P,
    context: ExecutionContext,
    config: AppConfigView,
    request: SyntaxRequestView,
    outcome: Result<SyntaxCheckResultView, (UseCaseErrorView, Option<SyntaxCheckResultView>)>,
) -> bool {
    exists|c: AppConfig, q: SyntaxRequest, r: Result<SyntaxCheckResult, UseCaseFailure<SyntaxCheckResult>>|
        c@ == config && q@ == request && use_case_view(r) == outcome && #[trigger] call_ensures(
            P::check_syntax,
            (&port, &context, &c, &q),
            r,
        )
}

impl<T: McpUseCasePort> McpUseCasePort for Arc<T> {
    fn build_project(
        &self,
        context: &ExecutionContext,
        config: &AppConfig,
        request: &BuildRequest,
    ) -> (r: Result<BuildResult, UseCaseFailure<BuildResult>>)
        ensures
            may_build(**self, *context, config@, request@, use_case_view(r)),
    {
        (**self).build_project(context, config, request)
    }

    fn run_tests(
        &self,
        context: &ExecutionContext,
        config: &AppConfig,
        request: &TestRequest,
    ) -> (r: Result<TestRunResult, UseCaseFailure<TestRunResult>>)
        ensures
            may_test(**self, *context, config@, request@, use_case_view(r)),
    {
        (**self).run_tests(context, config, request)
    }

    fn dump_config(
        &self,
        context: &ExecutionContext,
        config: &AppConfig,
        request: &DumpRequest,
    ) -> (r: Result<DumpResult, UseCaseFailure<DumpResult>>)
        ensures
            may_dump(**self, *context, config@, request@, use_case_view(r)),
    {
        (**self).dump_config(context, config, request)
    }

    fn launch_app(
        &self,
        context: &ExecutionContext,
        config: &AppConfig,
        request: &LaunchRequest,
    ) -> (r: Result<LaunchResult, UseCaseFailure<LaunchResult>>)
        ensures
            may_launch(**self, *context, config@, request@, use_case_view(r)),
    {
        (**self).launch_app(context, config, request)
    }

    fn check_syntax(
        &self,
        context: &ExecutionContext,
        config: &AppConfig,
        request: &SyntaxRequest,
    ) -> (r: Result<SyntaxCheckResult, UseCaseFailure<SyntaxCheckResult>>)
        ensures
            may_check(**self, *context, config@, request@, use_case_view(r)),
    {
        (**self).check_syntax(context, config, request)
    }
}

/// Result of a command that runs under the lock of the workspace: its own, or a failure without a
/// result where the lock cannot be had.
pub fn with_workspace_lock<T>(locked: Result<Result<T, UseCaseFailure<T>>, UseCaseError>) -> (r:
    Result<T, UseCaseFailure<T>>)
    ensures
        match locked {
            Ok(result) => r == result,
            Err(error) => r == Err::<T, UseCaseFailure<T>>(
                (UseCaseFailure { error, payload: None }),
            ),
        },
{
    match locked {
        Ok(result) => result,
        Err(error) => Err(UseCaseFailure::without_payload(error)),
    }
}

} // verus!
