//! What the MCP tools ask of the commands: arguments of a call become a request, or the call is
//! refused.

use vstd::prelude::*;
use crate::adapter_input::{
    dump_mode_named, edt_projects, extension_scope, is_safe_path_segment, is_safe_segment,
    launch_target_named, normalize_edt_projects, normalize_extension_scope,
    normalize_optional_string, normalize_required_string, normalize_string_list, normalized,
    normalized_list, parse_launch_target, parse_optional_dump_mode,
};
use crate::config::{
    AppConfig, AppConfigView, TestsConfigView, VanessaProfileConfig, VanessaProfileConfigView,
    VanessaProfilesView, VanessaTestsConfigView,
};
use crate::mcp::context::McpCallContext;
use crate::mcp::envelope::{
    err_envelope, plain_envelope, with_error_view, CommandData, CommandDataView, Envelope,
    EnvelopeView, ErrorData, ErrorDataView,
};
use crate::mcp::error::{
    business_of, McpBusinessError, McpBusinessErrorKind, McpBusinessErrorView, McpBusinessFailure,
    McpErrorCode, McpInternalError, McpInternalErrorView, McpServiceError,
};
use crate::mcp::request::{
    McpBuildProjectRequest, McpBuildProjectRequestView, McpCheckSyntaxDesignerConfigRequest,
    McpCheckSyntaxDesignerConfigRequestView, McpCheckSyntaxDesignerModulesRequest,
    McpCheckSyntaxDesignerModulesRequestView, McpCheckSyntaxEdtRequest,
    McpCheckSyntaxEdtRequestView, McpDumpConfigRequest, McpDumpConfigRequestView,
    McpLaunchAppRequest, McpLaunchAppRequestView, McpRunAllTestsRequest, McpRunAllTestsRequestView,
    McpRunModuleTestsRequest, McpRunModuleTestsRequestView,
};
use crate::outside::lowercase;
use crate::text::{
    cat2, cat3, clone_opt, clone_texts, is_blank, opt_slice, opt_str, opt_text, text_eq, texts,
    trim,
};
use crate::text_scan::{
    ascii_lowered, contains, text_ascii_lower, text_contains, text_eq_ignore_ascii_case,
};
use crate::use_cases::{
    all_output_formats, command_text, effective_test_timeouts, extended_from_flags, is_not_off,
    is_on, no_launch_options, output_formats, yaxunit_execution, BuildRequest, BuildRequestView,
    ClientMcpAddonRequest, ClientMcpMode, ClientMcpOptionsRequest, ClientMcpOptionsRequestView,
    CommandName, DesignerClientScope, DesignerConfigCheck, DesignerConfigSyntaxRequest,
    DesignerConfigSyntaxRequestView, DesignerModulesSyntaxRequest,
    DesignerModulesSyntaxRequestView, DumpModeRequest, DumpRequest, DumpRequestView,
    ExecutionContext, ExecutionTransport, ExtendedModulesPolicy, LaunchClientModeRequest,
    LaunchOptions, LaunchOptionsView, LaunchRequest, LaunchRequestView, LaunchTargetRequest,
    RetentionPolicy, RunnerKind, RunnerProfile, RunnerProfileView, ScenarioExecutionRequest,
    ScenarioExecutionRequestView, ScenarioTimeouts, SyntaxRequest, SyntaxRequestView,
    SyntaxTargetRequest, SyntaxTargetRequestView, TestRequest, TestRequestView, TestScopeRequest,
    TestScopeRequestView, UseCaseError, UseCaseErrorKind, UseCaseErrorView,
};

verus! {

// ---------------------------------------------------------------------------------------------
// Refused calls

/// Mathematical value of a failed call.
pub enum ServiceErrorView {
    Business { error: McpBusinessErrorView, response: EnvelopeView },
    Internal { failure: McpInternalErrorView },
}

/// Mathematical value of a failed call.
pub open spec fn service_error_view(error: McpServiceError<Envelope>) -> ServiceErrorView {
    match error {
        McpServiceError::Business(failure) => ServiceErrorView::Business {
            error: failure.error@,
            response: failure.response@,
        },
        McpServiceError::Internal(e) => ServiceErrorView::Internal { failure: e@ },
    }
}

/// Mathematical value of the result of a call.
pub open spec fn service_view(result: Result<Envelope, McpServiceError<Envelope>>) -> Result<
    EnvelopeView,
    ServiceErrorView,
> {
    match result {
        Ok(envelope) => Ok(envelope@),
        Err(error) => Err(service_error_view(error)),
    }
}

/// Refusal of a call: nothing was done, and the response tells why.
pub open spec fn refusal(
    command: CommandName,
    error: McpBusinessErrorView,
    data: ErrorDataView,
) -> ServiceErrorView {
    ServiceErrorView::Business {
        error,
        response: with_error_view(
            plain_envelope(false, command, 0, CommandDataView::Error(data)),
            error,
        ),
    }
}

/// Refusal of a call.
fn refuse(command: CommandName, error: McpBusinessError, data: ErrorData) -> (r: McpServiceError<
    Envelope,
>)
    ensures
        service_error_view(r) == refusal(command, error@, data@),
{
    let response = err_envelope(command, 0, CommandData::Error(data)).with_error(&error);
    McpServiceError::Business(McpBusinessFailure::new(error, response))
}

/// Failure to read a raw value: a blank one is an invalid argument, another one unsupported.
pub open spec fn raw_value_error(message: Seq<char>, field: Seq<char>) -> McpBusinessErrorView {
    McpBusinessErrorView {
        code: if message == field + " must not be blank"@ {
            McpErrorCode::InvalidArgument
        } else {
            McpErrorCode::UnsupportedValue
        },
        kind: McpBusinessErrorKind::Validation,
        message,
    }
}

/// Failure to read a raw value.
pub fn raw_value_business_error(message: &str, field: &str) -> (r: McpBusinessError)
    ensures
        r@ == raw_value_error(message@, field@),
{
    let blank = cat2(field, " must not be blank");
    McpBusinessError {
        code: if text_eq(message, blank.as_str()) {
            McpErrorCode::InvalidArgument
        } else {
            McpErrorCode::UnsupportedValue
        },
        kind: McpBusinessErrorKind::Validation,
        message: message.to_owned(),
    }
}

/// Invalid argument.
pub open spec fn invalid_argument(message: Seq<char>) -> McpBusinessErrorView {
    business_of(UseCaseErrorView { kind: UseCaseErrorKind::Validation, message })
}

/// Refusal that names the message, the tool and the field.
pub open spec fn field_data(
    tool: Seq<char>,
    message: Seq<char>,
    field: Seq<char>,
) -> ErrorDataView {
    ErrorDataView { message, tool, field: Some(field), mode: None, errors: None }
}

fn make_field_data(tool: &str, message: &str, field: &str) -> (r: ErrorData)
    ensures
        r@ == field_data(tool@, message@, field@),
{
    ErrorData {
        message: message.to_owned(),
        tool: tool.to_owned(),
        field: Some(field.to_owned()),
        mode: None,
        errors: None,
    }
}

/// Refusal of a test run.
pub open spec fn test_refusal(
    tool: Seq<char>,
    message: Seq<char>,
    field: Seq<char>,
) -> ServiceErrorView {
    refusal(CommandName::Test, invalid_argument(message), field_data(tool, message, field))
}

fn test_adapter_business_error(tool: &str, message: &str, field: &str) -> (r: McpServiceError<
    Envelope,
>)
    ensures
        service_error_view(r) == test_refusal(tool@, message@, field@),
{
    let error = UseCaseError::new(UseCaseErrorKind::Validation, message);
    refuse(
        CommandName::Test,
        McpBusinessError::from_use_case(&error),
        make_field_data(tool, message, field),
    )
}

/// Refusal of a launch.
pub open spec fn launch_refusal(message: Seq<char>, field: Seq<char>) -> ServiceErrorView {
    refusal(
        CommandName::Launch,
        raw_value_error(message, field),
        field_data("launch_app"@, message, field),
    )
}

fn launch_adapter_business_error(message: &str, field: &str) -> (r: McpServiceError<Envelope>)
    ensures
        service_error_view(r) == launch_refusal(message@, field@),
{
    refuse(
        CommandName::Launch,
        raw_value_business_error(message, field),
        make_field_data("launch_app", message, field),
    )
}

/// Refusal of a syntax check.
pub open spec fn syntax_refusal(tool: Seq<char>, message: Seq<char>) -> ServiceErrorView {
    refusal(
        CommandName::Syntax,
        invalid_argument(message),
        ErrorDataView { message, tool, field: None, mode: None, errors: Some(seq![message]) },
    )
}

/// Refusal of a syntax check.
pub fn invalid_syntax_request(error: &UseCaseError, tool: &str) -> (r: McpServiceError<Envelope>)
    requires
        error@.kind == UseCaseErrorKind::Validation,
    ensures
        service_error_view(r) == syntax_refusal(tool@, error@.message),
{
    let mut errors: Vec<String> = Vec::new();
    errors.push(error.message().to_owned());
    assert(texts(errors@) =~= seq![error@.message]);
    refuse(
        CommandName::Syntax,
        McpBusinessError::from_use_case(error),
        ErrorData {
            message: error.message().to_owned(),
            tool: tool.to_owned(),
            field: None,
            mode: None,
            errors: Some(errors),
        },
    )
}

// ---------------------------------------------------------------------------------------------
// Context

/// Context of a command, for a call over an MCP transport.
pub open spec fn context_of(call: McpCallContext, command: CommandName) -> Result<
    ExecutionContext,
    ServiceErrorView,
> {
    if call.transport == ExecutionTransport::Cli {
        Err(
            ServiceErrorView::Internal {
                failure: McpInternalErrorView {
                    code: McpErrorCode::Internal,
                    message: "mcp service received non-MCP transport for "@ + command_text(command),
                },
            },
        )
    } else {
        Ok(
            ExecutionContext {
                command,
                transport: call.transport,
                edt_timeout: call.edt_timeout,
                deadline: call.deadline,
            },
        )
    }
}

/// Context of a command, for a call over an MCP transport.
pub fn execution_context(call: McpCallContext, command: CommandName) -> (r: Result<
    ExecutionContext,
    McpServiceError<Envelope>,
>)
    ensures
        match r {
            Ok(context) => context_of(call, command) == Ok::<ExecutionContext, ServiceErrorView>(
                context,
            ),
            Err(e) => context_of(call, command) == Err::<ExecutionContext, ServiceErrorView>(
                service_error_view(e),
            ),
        },
{
    match call.transport() {
        ExecutionTransport::Cli => Err(
            McpServiceError::Internal(
                McpInternalError::new(
                    cat2("mcp service received non-MCP transport for ", command.as_str()),
                ),
            ),
        ),
        transport => Ok(
            ExecutionContext {
                command,
                transport,
                edt_timeout: call.edt_timeout(),
                deadline: call.deadline(),
            },
        ),
    }
}

// ---------------------------------------------------------------------------------------------
// Builds

/// Build that a call asks for.
pub open spec fn build_request(request: McpBuildProjectRequestView) -> BuildRequestView {
    BuildRequestView {
        full_rebuild: request.full_rebuild == Some(true),
        source_set: request.source_set,
        dynamic_update: request.dynamic_update,
    }
}

/// Build that a call asks for.
pub fn map_build_request(request: &McpBuildProjectRequest) -> (r: BuildRequest)
    ensures
        r@ == build_request(request@),
{
    BuildRequest {
        full_rebuild: is_on(request.full_rebuild),
        source_set: clone_opt(&request.source_set),
        dynamic_update: request.dynamic_update,
    }
}

// ---------------------------------------------------------------------------------------------
// Tests

/// A setting for Vanessa Automation is given.
pub open spec fn has_vanessa_options(request: McpRunAllTestsRequestView) -> bool {
    ||| normalized(request.profile) is Some
    ||| normalized_list(request.feature).len() > 0
    ||| normalized_list(request.filter_tag).len() > 0
    ||| normalized_list(request.ignore_tag).len() > 0
    ||| normalized_list(request.scenario_filter).len() > 0
}

/// The list, or the other one where it is empty.
pub open spec fn unless_empty(list: Seq<Seq<char>>, other: Seq<Seq<char>>) -> Seq<Seq<char>> {
    if list.len() == 0 {
        other
    } else {
        list
    }
}

/// Profile with the lists of a call in place of its own.
pub open spec fn overridden_profile(
    profile: VanessaProfileConfigView,
    request: McpRunAllTestsRequestView,
) -> VanessaProfileConfigView {
    VanessaProfileConfigView {
        features_to_run: unless_empty(
            normalized_list(request.feature),
            profile.features_to_run,
        ),
        filter_tags: unless_empty(normalized_list(request.filter_tag), profile.filter_tags),
        ignore_tags: unless_empty(normalized_list(request.ignore_tag), profile.ignore_tags),
        scenario_filter: unless_empty(
            normalized_list(request.scenario_filter),
            profile.scenario_filter,
        ),
    }
}

/// Configuration with other settings for Vanessa Automation.
pub open spec fn with_vanessa(
    config: AppConfigView,
    profile: Option<Seq<char>>,
    by_name: Map<Seq<char>, VanessaProfileConfigView>,
) -> AppConfigView {
    AppConfigView {
        tests: TestsConfigView {
            va: VanessaTestsConfigView {
                profile,
                profiles: VanessaProfilesView { by_name },
                ..config.tests.va
            },
            ..config.tests
        },
        ..config
    }
}

/// Name of the profile that a call selects, or the configured one.
pub open spec fn selected_profile(
    config: AppConfigView,
    request: McpRunAllTestsRequestView,
) -> Option<Seq<char>> {
    match normalized(request.profile) {
        Some(name) => Some(name),
        None => config.tests.va.profile,
    }
}

/// Message and field of a refusal where no profile is configured.
pub open spec fn no_profile() -> (Seq<char>, Seq<char>) {
    ("tests.va.profile is not configured"@, "profile"@)
}

/// Message and field of a refusal where the profile is not known.
pub open spec fn unknown_profile(id: Seq<char>) -> (Seq<char>, Seq<char>) {
    ("unknown Vanessa Automation profile '"@ + id + "'"@, "profile"@)
}

/// Configuration for a run by Vanessa Automation: the profile of the call and its lists come
/// before those of the configuration.
pub open spec fn vanessa_config(
    config: AppConfigView,
    request: McpRunAllTestsRequestView,
) -> Result<AppConfigView, (Seq<char>, Seq<char>)> {
    let by_name = config.tests.va.profiles.by_name;
    let profile = selected_profile(config, request);
    if normalized_list(request.feature).len() == 0 && normalized_list(request.filter_tag).len() == 0
        && normalized_list(request.ignore_tag).len() == 0 && normalized_list(
        request.scenario_filter,
    ).len() == 0 {
        Ok(with_vanessa(config, profile, by_name))
    } else {
        match profile {
            None => Err(no_profile()),
            Some(id) => if !by_name.contains_key(id) {
                Err(unknown_profile(id))
            } else {
                Ok(
                    with_vanessa(
                        config,
                        profile,
                        by_name.insert(id, overridden_profile(by_name[id], request)),
                    ),
                )
            },
        }
    }
}

/// Execution by Vanessa Automation.
pub open spec fn vanessa_execution(config: AppConfigView) -> Result<
    ScenarioExecutionRequestView,
    (Seq<char>, Seq<char>),
> {
    match config.tests.va.profile {
        None => Err(no_profile()),
        Some(id) => if !config.tests.va.profiles.by_name.contains_key(id) {
            Err(unknown_profile(id))
        } else if !is_safe_segment(id) {
            Err(("tests.va.profile contains unsafe path characters: "@ + id, "profile"@))
        } else if config.tools.va.epf_path is None {
            Err(("tools.va.epf_path is not configured"@, "runner"@))
        } else if config.tests.va.params_path is None {
            Err(("tests.va.params_path is not configured"@, "runner"@))
        } else {
            Ok(
                ScenarioExecutionRequestView {
                    profile: RunnerProfileView {
                        id,
                        kind: RunnerKind::Vanessa,
                        output_formats: all_output_formats(),
                        backend_hint: Some("enterprise"@),
                    },
                    client_mode: Some(LaunchClientModeRequest::Thin),
                    timeouts: ScenarioTimeouts {
                        total_seconds: match config.tests.va.timeouts.total_seconds {
                            Some(s) => Some(s),
                            None => config.tests.execution_timeout_seconds,
                        },
                    },
                    policy: RetentionPolicy {
                        retain_artifacts_on_failure: true,
                        retain_artifacts_on_success: false,
                    },
                    launch: LaunchOptionsView {
                        c: Some("StartFeaturePlayer;VAParams={params_path}"@),
                        execute: Some("{epf_path}"@),
                        ..no_launch_options()
                    },
                },
            )
        },
    }
}

/// Runner that a call names, in small letters.
pub open spec fn runner_word(request: McpRunAllTestsRequestView) -> Seq<char> {
    ascii_lowered(
        match normalized(request.runner) {
            Some(word) => word,
            None => "yaxunit"@,
        },
    )
}

/// Test run of all tests that a call asks for, with the configuration it runs under; or message
/// and field of the refusal.
pub open spec fn run_all_request(
    config: AppConfigView,
    request: McpRunAllTestsRequestView,
) -> Result<(AppConfigView, TestRequestView), (Seq<char>, Seq<char>)> {
    let word = runner_word(request);
    if word == "yaxunit"@ || word == "yax-unit"@ {
        if has_vanessa_options(request) {
            Err(
                (
                    "profile, feature, filterTag, ignoreTag, and scenarioFilter are supported only when runner is vanessa"@,
                    "runner"@,
                ),
            )
        } else {
            Ok(
                (
                    config,
                    TestRequestView {
                        execution: yaxunit_execution(),
                        full: request.full == Some(true),
                        scope: TestScopeRequestView::All,
                    },
                ),
            )
        }
    } else if word == "vanessa"@ || word == "va"@ {
        match vanessa_config(config, request) {
            Err(why) => Err(why),
            Ok(effective) => match vanessa_execution(effective) {
                Err(why) => Err(why),
                Ok(execution) => Ok(
                    (
                        effective,
                        TestRequestView {
                            execution,
                            full: request.full == Some(true),
                            scope: TestScopeRequestView::All,
                        },
                    ),
                ),
            },
        }
    } else {
        Err(("unsupported test runner: "@ + word, "runner"@))
    }
}

/// Mathematical value of a refusal of `run_all_tests`.
pub open spec fn run_all_refusal(why: (Seq<char>, Seq<char>)) -> ServiceErrorView {
    test_refusal("run_all_tests"@, why.0, why.1)
}

fn refuse_run_all(message: &str, field: &str) -> (r: McpServiceError<Envelope>)
    ensures
        service_error_view(r) == run_all_refusal((message@, field@)),
{
    test_adapter_business_error("run_all_tests", message, field)
}

fn effective_vanessa_run_all_config(config: &AppConfig, request: &McpRunAllTestsRequest) -> (r:
    Result<AppConfig, McpServiceError<Envelope>>)
    ensures
        match r {
            Ok(c) => vanessa_config(config@, request@) == Ok::<
                AppConfigView,
                (Seq<char>, Seq<char>),
            >(c@),
            Err(e) => vanessa_config(config@, request@) is Err && service_error_view(e)
                == run_all_refusal(vanessa_config(config@, request@)->Err_0),
        },
{
    let ghost by_name = config@.tests.va.profiles.by_name;
    let mut out = config.clone();
    if let Some(profile) = normalize_optional_string(opt_slice(&request.profile)) {
        out.tests.va.profile = Some(profile);
    }
    let ghost profile = selected_profile(config@, request@);
    assert(out@ == with_vanessa(config@, profile, by_name));
    let features = normalize_string_list(&request.feature);
    let filter_tags = normalize_string_list(&request.filter_tag);
    let ignore_tags = normalize_string_list(&request.ignore_tag);
    let scenario_filter = normalize_string_list(&request.scenario_filter);
    assert(texts(features@).len() == features@.len());
    assert(texts(filter_tags@).len() == filter_tags@.len());
    assert(texts(ignore_tags@).len() == ignore_tags@.len());
    assert(texts(scenario_filter@).len() == scenario_filter@.len());
    if features.len() == 0 && filter_tags.len() == 0 && ignore_tags.len() == 0
        && scenario_filter.len() == 0 {
        return Ok(out);
    }
    let id = match &out.tests.va.profile {
        Some(id) => id.clone(),
        None => {
            return Err(refuse_run_all("tests.va.profile is not configured", "profile"));
        },
    };
    let mut chosen: VanessaProfileConfig = match out.tests.va.profiles.get(id.as_str()) {
        Some(p) => p.clone(),
        None => {
            let message = cat3("unknown Vanessa Automation profile '", id.as_str(), "'");
            return Err(refuse_run_all(message.as_str(), "profile"));
        },
    };
    if features.len() > 0 {
        chosen.features_to_run = features;
    }
    if filter_tags.len() > 0 {
        chosen.filter_tags = filter_tags;
    }
    if ignore_tags.len() > 0 {
        chosen.ignore_tags = ignore_tags;
    }
    if scenario_filter.len() > 0 {
        chosen.scenario_filter = scenario_filter;
    }
    assert(chosen@ == overridden_profile(by_name[id@], request@));
    out.tests.va.profiles.insert(id, chosen);
    Ok(out)
}

fn build_vanessa_run_all_execution(config: &AppConfig) -> (r: Result<
    ScenarioExecutionRequest,
    McpServiceError<Envelope>,
>)
    ensures
        match r {
            Ok(x) => vanessa_execution(config@) == Ok::<
                ScenarioExecutionRequestView,
                (Seq<char>, Seq<char>),
            >(x@),
            Err(e) => vanessa_execution(config@) is Err && service_error_view(e)
                == run_all_refusal(vanessa_execution(config@)->Err_0),
        },
{
    let id = match &config.tests.va.profile {
        Some(id) => id.as_str(),
        None => {
            return Err(refuse_run_all("tests.va.profile is not configured", "profile"));
        },
    };
    if config.tests.va.profiles.get(id).is_none() {
        let message = cat3("unknown Vanessa Automation profile '", id, "'");
        return Err(refuse_run_all(message.as_str(), "profile"));
    }
    if !is_safe_path_segment(id) {
        let message = cat2("tests.va.profile contains unsafe path characters: ", id);
        return Err(refuse_run_all(message.as_str(), "profile"));
    }
    if config.tools.va.epf_path.is_none() {
        return Err(refuse_run_all("tools.va.epf_path is not configured", "runner"));
    }
    if config.tests.va.params_path.is_none() {
        return Err(refuse_run_all("tests.va.params_path is not configured", "runner"));
    }
    let none = LaunchOptions::none();
    Ok(
        ScenarioExecutionRequest {
            profile: RunnerProfile {
                id: id.to_owned(),
                kind: RunnerKind::Vanessa,
                output_formats: output_formats(),
                backend_hint: Some("enterprise".to_owned()),
            },
            client_mode: Some(LaunchClientModeRequest::Thin),
            timeouts: effective_test_timeouts(
                config.tests.execution_timeout_seconds,
                config.tests.va.timeouts.total_seconds,
            ),
            policy: RetentionPolicy {
                retain_artifacts_on_failure: true,
                retain_artifacts_on_success: false,
            },
            launch: LaunchOptions {
                c: Some("StartFeaturePlayer;VAParams={params_path}".to_owned()),
                execute: Some("{epf_path}".to_owned()),
                ..none
            },
        },
    )
}

fn vanessa_options_given(request: &McpRunAllTestsRequest) -> (r: bool)
    ensures
        r == has_vanessa_options(request@),
{
    let features = normalize_string_list(&request.feature);
    let filter_tags = normalize_string_list(&request.filter_tag);
    let ignore_tags = normalize_string_list(&request.ignore_tag);
    let scenario_filter = normalize_string_list(&request.scenario_filter);
    assert(texts(features@).len() == features@.len());
    assert(texts(filter_tags@).len() == filter_tags@.len());
    assert(texts(ignore_tags@).len() == ignore_tags@.len());
    assert(texts(scenario_filter@).len() == scenario_filter@.len());
    normalize_optional_string(opt_slice(&request.profile)).is_some() || features.len() > 0
        || filter_tags.len() > 0 || ignore_tags.len() > 0 || scenario_filter.len() > 0
}

/// Test run of all tests that a call asks for, with the configuration it runs under.
pub fn map_run_all_tests_request(config: &AppConfig, request: &McpRunAllTestsRequest) -> (r: Result<
    (AppConfig, TestRequest),
    McpServiceError<Envelope>,
>)
    ensures
        match r {
            Ok(x) => run_all_request(config@, request@) == Ok::<
                (AppConfigView, TestRequestView),
                (Seq<char>, Seq<char>),
            >((x.0@, x.1@)),
            Err(e) => run_all_request(config@, request@) is Err && service_error_view(e)
                == run_all_refusal(run_all_request(config@, request@)->Err_0),
        },
{
    let word = match normalize_optional_string(opt_slice(&request.runner)) {
        Some(word) => text_ascii_lower(word.as_str()),
        None => text_ascii_lower("yaxunit"),
    };
    let full = is_on(request.full);
    if text_eq(word.as_str(), "yaxunit") || text_eq(word.as_str(), "yax-unit") {
        if vanessa_options_given(request) {
            return Err(
                refuse_run_all(
                    "profile, feature, filterTag, ignoreTag, and scenarioFilter are supported only when runner is vanessa",
                    "runner",
                ),
            );
        }
        return Ok(
            (
                config.clone(),
                TestRequest {
                    execution: TestRequest::default_execution(),
                    full,
                    scope: TestScopeRequest::All,
                },
            ),
        );
    }
    if text_eq(word.as_str(), "vanessa") || text_eq(word.as_str(), "va") {
        let effective = match effective_vanessa_run_all_config(config, request) {
            Ok(effective) => effective,
            Err(e) => {
                return Err(e);
            },
        };
        let execution = match build_vanessa_run_all_execution(&effective) {
            Ok(execution) => execution,
            Err(e) => {
                return Err(e);
            },
        };
        return Ok((effective, TestRequest { execution, full, scope: TestScopeRequest::All }));
    }
    let message = cat2("unsupported test runner: ", word.as_str());
    Err(refuse_run_all(message.as_str(), "runner"))
}

/// Test run of a module that a call asks for, or the refusal.
pub open spec fn run_module_request(request: McpRunModuleTestsRequestView) -> Result<
    TestRequestView,
    ServiceErrorView,
> {
    if is_blank(request.module_name) {
        Err(
            test_refusal(
                "run_module_tests"@,
                "module_name"@ + " must not be blank"@,
                "module_name"@,
            ),
        )
    } else {
        Ok(
            TestRequestView {
                execution: yaxunit_execution(),
                full: request.full == Some(true),
                scope: TestScopeRequestView::Module { name: trim(request.module_name) },
            },
        )
    }
}

/// Test run of a module that a call asks for.
pub fn map_run_module_tests_request(request: &McpRunModuleTestsRequest) -> (r: Result<
    TestRequest,
    McpServiceError<Envelope>,
>)
    ensures
        match r {
            Ok(x) => run_module_request(request@) == Ok::<TestRequestView, ServiceErrorView>(x@),
            Err(e) => run_module_request(request@) == Err::<TestRequestView, ServiceErrorView>(
                service_error_view(e),
            ),
        },
{
    match normalize_required_string(request.module_name.as_str(), "module_name") {
        Ok(name) => Ok(
            TestRequest {
                execution: TestRequest::default_execution(),
                full: is_on(request.full),
                scope: TestScopeRequest::Module { name },
            },
        ),
        Err(error) => Err(
            test_adapter_business_error("run_module_tests", error.message(), "module_name"),
        ),
    }
}

// ---------------------------------------------------------------------------------------------
// Dumps

/// Dump that a call asks for, or the refusal.
pub open spec fn dump_request(request: McpDumpConfigRequestView) -> Result<
    DumpRequestView,
    ServiceErrorView,
> {
    let mode = match normalized(request.mode) {
        None => Some(DumpModeRequest::Incremental),
        Some(word) => dump_mode_named(word),
    };
    match mode {
        Some(mode) => Ok(
            DumpRequestView {
                mode,
                source_set: None,
                extension: normalized(request.extension),
                objects: request.objects,
            },
        ),
        None => {
            let word = normalized(request.mode)->0;
            let message = "unsupported dump mode: "@ + word;
            Err(
                refusal(
                    CommandName::Dump,
                    raw_value_error(message, "dump mode"@),
                    ErrorDataView {
                        message: "unsupported dump mode: "@ + request.mode->0,
                        tool: "dump_config"@,
                        field: Some("mode"@),
                        mode: Some(word),
                        errors: Some(seq![message]),
                    },
                ),
            )
        },
    }
}

/// Dump that a call asks for.
pub fn map_dump_request(request: &McpDumpConfigRequest) -> (r: Result<
    DumpRequest,
    McpServiceError<Envelope>,
>)
    ensures
        match r {
            Ok(x) => dump_request(request@) == Ok::<DumpRequestView, ServiceErrorView>(x@),
            Err(e) => dump_request(request@) == Err::<DumpRequestView, ServiceErrorView>(
                service_error_view(e),
            ),
        },
{
    let raw = opt_slice(&request.mode);
    match parse_optional_dump_mode(raw, DumpModeRequest::Incremental) {
        Ok(mode) => Ok(
            DumpRequest {
                mode,
                source_set: None,
                extension: normalize_optional_string(opt_slice(&request.extension)),
                objects: clone_texts(&request.objects),
            },
        ),
        Err(error) => {
            let business_error = raw_value_business_error(error.message(), "dump mode");
            let mode = match normalize_optional_string(raw) {
                Some(word) => word,
                None => "FULL".to_owned(),
            };
            let message = match raw {
                Some(value) => cat2("unsupported dump mode: ", value),
                None => "dump mode is invalid".to_owned(),
            };
            let mut errors: Vec<String> = Vec::new();
            errors.push(error.message().to_owned());
            assert(texts(errors@) =~= seq![error@.message]);
            Err(
                refuse(
                    CommandName::Dump,
                    business_error,
                    ErrorData {
                        message,
                        tool: "dump_config".to_owned(),
                        field: Some("mode".to_owned()),
                        mode: Some(mode),
                        errors: Some(errors),
                    },
                ),
            )
        },
    }
}

// ---------------------------------------------------------------------------------------------
// Launches

/// The word names the client MCP server, letters' case aside.
pub open spec fn is_mcp_word(word: Seq<char>) -> bool {
    ||| ascii_lowered(word) == ascii_lowered("mcp"@)
    ||| ascii_lowered(word) == ascii_lowered("client_mcp"@)
    ||| ascii_lowered(word) == ascii_lowered("client-mcp"@)
}

/// Client of the client MCP server that a call names, or message and field of the refusal.
pub open spec fn mcp_mode(mode: Option<Seq<char>>) -> Result<
    ClientMcpMode,
    (Seq<char>, Seq<char>),
> {
    let word = ascii_lowered(
        match normalized(mode) {
            Some(word) => word,
            None => "thin"@,
        },
    );
    if word == "thin"@ {
        Ok(ClientMcpMode::Thin)
    } else if word == "thick"@ {
        Ok(ClientMcpMode::Thick)
    } else if word == "ordinary"@ {
        Ok(ClientMcpMode::Ordinary)
    } else {
        Err(("unsupported launch mode: "@ + word, "mode"@))
    }
}

/// Configuration of the client MCP server that a call names.
pub open spec fn mcp_config_path(path: Option<Seq<char>>) -> Result<
    Option<Seq<char>>,
    (Seq<char>, Seq<char>),
> {
    match normalized(path) {
        Some(p) => if contains(p, ";"@) {
            Err(
                (
                    "mcpConfig must not contain ';' because the /C runMcp payload is semicolon-delimited"@,
                    "mcpConfig"@,
                ),
            )
        } else {
            Ok(Some(p))
        },
        None => Ok(None),
    }
}

/// Port of the client MCP server that a call names.
pub open spec fn mcp_port(port: Option<u16>) -> Result<Option<u16>, (Seq<char>, Seq<char>)> {
    if port == Some(0u16) {
        Err(("mcpPort must be greater than or equal to 1"@, "mcpPort"@))
    } else {
        Ok(port)
    }
}

/// Scenario of the client MCP server that a call names.
pub open spec fn mcp_addon(scenario: Option<Seq<char>>) -> Result<
    Option<ClientMcpAddonRequest>,
    (Seq<char>, Seq<char>),
> {
    match normalized(scenario) {
        None => Ok(None),
        Some(word) => if ascii_lowered(word) == "va"@ {
            Ok(Some(ClientMcpAddonRequest::VanessaAutomation))
        } else {
            Err(("unsupported launch mcpScenario: "@ + ascii_lowered(word), "mcpScenario"@))
        },
    }
}

/// Launch of the client MCP server that a call asks for.
pub open spec fn mcp_launch_request(request: McpLaunchAppRequestView) -> Result<
    LaunchRequestView,
    (Seq<char>, Seq<char>),
> {
    match mcp_mode(request.mode) {
        Err(why) => Err(why),
        Ok(mode) => match mcp_config_path(request.mcp_config) {
            Err(why) => Err(why),
            Ok(config_path) => match mcp_port(request.mcp_port) {
                Err(why) => Err(why),
                Ok(port) => match mcp_addon(request.mcp_scenario) {
                    Err(why) => Err(why),
                    Ok(addon) => Ok(
                        LaunchRequestView {
                            target: LaunchTargetRequest::ClientMcp { mode },
                            launch: no_launch_options(),
                            client_mcp: Some(
                                ClientMcpOptionsRequestView {
                                    config_path,
                                    port,
                                    addon,
                                    wait_ready: request.wait_ready == Some(true),
                                },
                            ),
                        },
                    ),
                },
            },
        },
    }
}

/// A setting of the client MCP server is given.
pub open spec fn has_mcp_options(request: McpLaunchAppRequestView) -> bool {
    ||| normalized(request.mcp_config) is Some
    ||| request.mcp_port is Some
    ||| normalized(request.mode) is Some
    ||| normalized(request.mcp_scenario) is Some
    ||| request.wait_ready == Some(true)
}

/// Launch that a call asks for, or message and field of the refusal.
pub open spec fn launch_request(request: McpLaunchAppRequestView) -> Result<
    LaunchRequestView,
    (Seq<char>, Seq<char>),
> {
    let word = trim(request.utility_type);
    if is_blank(request.utility_type) {
        Err(("utilityType"@ + " must not be blank"@, "utilityType"@))
    } else if is_mcp_word(word) {
        mcp_launch_request(request)
    } else if has_mcp_options(request) {
        Err(
            (
                "mcpConfig, mcpPort, mode, mcpScenario, and waitReady are supported only when utilityType is mcp"@,
                "utilityType"@,
            ),
        )
    } else {
        match launch_target_named(lowercase(trim(word))) {
            Some(target) => Ok(
                LaunchRequestView { target, launch: no_launch_options(), client_mcp: None },
            ),
            None => Err(
                ("unsupported launch "@ + "utilityType"@ + ": "@ + trim(word), "utilityType"@),
            ),
        }
    }
}

/// Message and field of a refusal.
struct Refusal {
    message: String,
    field: &'static str,
}

fn map_mcp_launch_mode(raw: Option<&str>) -> (r: Result<ClientMcpMode, Refusal>)
    ensures
        match r {
            Ok(mode) => mcp_mode(opt_str(raw)) == Ok::<ClientMcpMode, (Seq<char>, Seq<char>)>(mode),
            Err(e) => mcp_mode(opt_str(raw)) == Err::<ClientMcpMode, (Seq<char>, Seq<char>)>(
                (e.message@, e.field@),
            ),
        },
{
    let word = match normalize_optional_string(raw) {
        Some(word) => text_ascii_lower(word.as_str()),
        None => text_ascii_lower("thin"),
    };
    if text_eq(word.as_str(), "thin") {
        Ok(ClientMcpMode::Thin)
    } else if text_eq(word.as_str(), "thick") {
        Ok(ClientMcpMode::Thick)
    } else if text_eq(word.as_str(), "ordinary") {
        Ok(ClientMcpMode::Ordinary)
    } else {
        Err(Refusal { message: cat2("unsupported launch mode: ", word.as_str()), field: "mode" })
    }
}

fn map_mcp_config_path(raw: Option<&str>) -> (r: Result<Option<String>, Refusal>)
    ensures
        match r {
            Ok(path) => mcp_config_path(opt_str(raw)) == Ok::<
                Option<Seq<char>>,
                (Seq<char>, Seq<char>),
            >(opt_text(path)),
            Err(e) => mcp_config_path(opt_str(raw)) == Err::<
                Option<Seq<char>>,
                (Seq<char>, Seq<char>),
            >((e.message@, e.field@)),
        },
{
    match normalize_optional_string(raw) {
        Some(path) => {
            if text_contains(path.as_str(), ";") {
                return Err(
                    Refusal {
                        message: "mcpConfig must not contain ';' because the /C runMcp payload is semicolon-delimited".to_owned(),
                        field: "mcpConfig",
                    },
                );
            }
            Ok(Some(path))
        },
        None => Ok(None),
    }
}

fn map_mcp_port(port: Option<u16>) -> (r: Result<Option<u16>, Refusal>)
    ensures
        match r {
            Ok(p) => mcp_port(port) == Ok::<Option<u16>, (Seq<char>, Seq<char>)>(p),
            Err(e) => mcp_port(port) == Err::<Option<u16>, (Seq<char>, Seq<char>)>(
                (e.message@, e.field@),
            ),
        },
{
    match port {
        Some(0) => Err(
            Refusal {
                message: "mcpPort must be greater than or equal to 1".to_owned(),
                field: "mcpPort",
            },
        ),
        _ => Ok(port),
    }
}

fn map_mcp_launch_addon(raw: Option<&str>) -> (r: Result<Option<ClientMcpAddonRequest>, Refusal>)
    ensures
        match r {
            Ok(addon) => mcp_addon(opt_str(raw)) == Ok::<
                Option<ClientMcpAddonRequest>,
                (Seq<char>, Seq<char>),
            >(addon),
            Err(e) => mcp_addon(opt_str(raw)) == Err::<
                Option<ClientMcpAddonRequest>,
                (Seq<char>, Seq<char>),
            >((e.message@, e.field@)),
        },
{
    match normalize_optional_string(raw) {
        None => Ok(None),
        Some(word) => {
            let w = text_ascii_lower(word.as_str());
            if text_eq(w.as_str(), "va") {
                Ok(Some(ClientMcpAddonRequest::VanessaAutomation))
            } else {
                Err(
                    Refusal {
                        message: cat2("unsupported launch mcpScenario: ", w.as_str()),
                        field: "mcpScenario",
                    },
                )
            }
        },
    }
}

fn map_client_mcp_request(request: &McpLaunchAppRequest) -> (r: Result<LaunchRequest, Refusal>)
    ensures
        match r {
            Ok(x) => mcp_launch_request(request@) == Ok::<
                LaunchRequestView,
                (Seq<char>, Seq<char>),
            >(x@),
            Err(e) => mcp_launch_request(request@) == Err::<
                LaunchRequestView,
                (Seq<char>, Seq<char>),
            >((e.message@, e.field@)),
        },
{
    let mode = match map_mcp_launch_mode(opt_slice(&request.mode)) {
        Ok(mode) => mode,
        Err(e) => {
            return Err(e);
        },
    };
    let config_path = match map_mcp_config_path(opt_slice(&request.mcp_config)) {
        Ok(path) => path,
        Err(e) => {
            return Err(e);
        },
    };
    let port = match map_mcp_port(request.mcp_port) {
        Ok(port) => port,
        Err(e) => {
            return Err(e);
        },
    };
    let addon = match map_mcp_launch_addon(opt_slice(&request.mcp_scenario)) {
        Ok(addon) => addon,
        Err(e) => {
            return Err(e);
        },
    };
    Ok(
        LaunchRequest {
            target: LaunchTargetRequest::client_mcp_with_mode(mode),
            launch: LaunchOptions::none(),
            client_mcp: Some(
                ClientMcpOptionsRequest {
                    config_path,
                    port,
                    addon,
                    wait_ready: is_on(request.wait_ready),
                },
            ),
        },
    )
}

fn plan_launch(request: &McpLaunchAppRequest) -> (r: Result<LaunchRequest, Refusal>)
    ensures
        match r {
            Ok(x) => launch_request(request@) == Ok::<LaunchRequestView, (Seq<char>, Seq<char>)>(
                x@,
            ),
            Err(e) => launch_request(request@) == Err::<LaunchRequestView, (Seq<char>, Seq<char>)>(
                (e.message@, e.field@),
            ),
        },
{
    let word = match normalize_required_string(request.utility_type.as_str(), "utilityType") {
        Ok(word) => word,
        Err(error) => {
            return Err(
                Refusal { message: error.message().to_owned(), field: "utilityType" },
            );
        },
    };
    if text_eq_ignore_ascii_case(word.as_str(), "mcp") || text_eq_ignore_ascii_case(
        word.as_str(),
        "client_mcp",
    ) || text_eq_ignore_ascii_case(word.as_str(), "client-mcp") {
        return map_client_mcp_request(request);
    }
    if normalize_optional_string(opt_slice(&request.mcp_config)).is_some()
        || request.mcp_port.is_some() || normalize_optional_string(
        opt_slice(&request.mode),
    ).is_some() || normalize_optional_string(opt_slice(&request.mcp_scenario)).is_some() || is_on(
        request.wait_ready,
    ) {
        return Err(
            Refusal {
                message: "mcpConfig, mcpPort, mode, mcpScenario, and waitReady are supported only when utilityType is mcp".to_owned(),
                field: "utilityType",
            },
        );
    }
    match parse_launch_target(word.as_str(), "utilityType") {
        Ok(target) => Ok(
            LaunchRequest { target, launch: LaunchOptions::none(), client_mcp: None },
        ),
        Err(error) => Err(
            Refusal { message: error.message().to_owned(), field: "utilityType" },
        ),
    }
}

/// Launch that a call asks for.
pub fn map_launch_app_request(request: &McpLaunchAppRequest) -> (r: Result<
    LaunchRequest,
    McpServiceError<Envelope>,
>)
    ensures
        match r {
            Ok(x) => launch_request(request@) == Ok::<LaunchRequestView, (Seq<char>, Seq<char>)>(
                x@,
            ),
            Err(e) => launch_request(request@) is Err && service_error_view(e) == launch_refusal(
                launch_request(request@)->Err_0.0,
                launch_request(request@)->Err_0.1,
            ),
        },
{
    match plan_launch(request) {
        Ok(x) => Ok(x),
        Err(e) => Err(launch_adapter_business_error(e.message.as_str(), e.field)),
    }
}

// ---------------------------------------------------------------------------------------------
// Syntax checks

/// The one element, where the condition holds.
pub open spec fn only_if<T>(condition: bool, item: T) -> Seq<T> {
    if condition {
        seq![item]
    } else {
        Seq::empty()
    }
}

fn push_if<T>(list: &mut Vec<T>, condition: bool, item: T)
    ensures
        final(list)@ == old(list)@ + only_if(condition, item),
{
    if condition {
        list.push(item);
    }
}

/// Checks of the configuration that a call asks for.
pub open spec fn config_checks(request: McpCheckSyntaxDesignerConfigRequestView) -> Seq<
    DesignerConfigCheck,
> {
    Seq::<DesignerConfigCheck>::empty() + only_if(
        request.config_log_integrity == Some(true),
        DesignerConfigCheck::ConfigLogIntegrity,
    ) + only_if(
        request.incorrect_references == Some(true),
        DesignerConfigCheck::IncorrectReferences,
    ) + only_if(
        request.mobile_client_digi_sign == Some(true),
        DesignerConfigCheck::MobileClientDigiSign,
    ) + only_if(
        request.distributive_modules == Some(true),
        DesignerConfigCheck::DistributiveModules,
    ) + only_if(
        request.unreference_procedures != Some(false),
        DesignerConfigCheck::UnreferenceProcedures,
    ) + only_if(
        request.handlers_existence != Some(false),
        DesignerConfigCheck::HandlersExistence,
    ) + only_if(
        request.empty_handlers != Some(false),
        DesignerConfigCheck::EmptyHandlers,
    ) + only_if(
        request.unsupported_functional == Some(true),
        DesignerConfigCheck::UnsupportedFunctional,
    )
}

/// Clients in whose context a call has the configuration checked.
pub open spec fn config_scopes(request: McpCheckSyntaxDesignerConfigRequestView) -> Seq<
    DesignerClientScope,
> {
    Seq::<DesignerClientScope>::empty() + only_if(
        request.thin_client != Some(false),
        DesignerClientScope::ThinClient,
    ) + only_if(request.web_client == Some(true), DesignerClientScope::WebClient) + only_if(
        request.mobile_client == Some(true),
        DesignerClientScope::MobileClient,
    ) + only_if(request.server != Some(false), DesignerClientScope::Server) + only_if(
        request.external_connection == Some(true),
        DesignerClientScope::ExternalConnection,
    ) + only_if(
        request.external_connection_server == Some(true),
        DesignerClientScope::ExternalConnectionServer,
    ) + only_if(
        request.mobile_app_client == Some(true),
        DesignerClientScope::MobileAppClient,
    ) + only_if(
        request.mobile_app_server == Some(true),
        DesignerClientScope::MobileAppServer,
    ) + only_if(
        request.thick_client_managed_application == Some(true),
        DesignerClientScope::ThickClientManagedApplication,
    ) + only_if(
        request.thick_client_server_managed_application == Some(true),
        DesignerClientScope::ThickClientServerManagedApplication,
    ) + only_if(
        request.thick_client_ordinary_application == Some(true),
        DesignerClientScope::ThickClientOrdinaryApplication,
    ) + only_if(
        request.thick_client_server_ordinary_application == Some(true),
        DesignerClientScope::ThickClientServerOrdinaryApplication,
    )
}

/// Check of the configuration that a call asks for, or the message of the refusal.
pub open spec fn designer_config_request(
    request: McpCheckSyntaxDesignerConfigRequestView,
) -> Result<DesignerConfigSyntaxRequestView, Seq<char>> {
    match extended_from_flags(
        request.extended_modules_check,
        request.check_use_synchronous_calls,
        request.check_use_modality,
    ) {
        Err(message) => Err(message),
        Ok(extended_modules) => Ok(
            DesignerConfigSyntaxRequestView {
                checks: config_checks(request),
                scopes: config_scopes(request),
                extended_modules,
                extension_scope: extension_scope(request.extension, request.all_extensions),
            },
        ),
    }
}

fn collect_config_checks(request: &McpCheckSyntaxDesignerConfigRequest) -> (r: Vec<
    DesignerConfigCheck,
>)
    ensures
        r@ == config_checks(request@),
{
    let mut checks: Vec<DesignerConfigCheck> = Vec::new();
    push_if(
        &mut checks,
        is_on(request.config_log_integrity),
        DesignerConfigCheck::ConfigLogIntegrity,
    );
    push_if(
        &mut checks,
        is_on(request.incorrect_references),
        DesignerConfigCheck::IncorrectReferences,
    );
    push_if(
        &mut checks,
        is_on(request.mobile_client_digi_sign),
        DesignerConfigCheck::MobileClientDigiSign,
    );
    push_if(
        &mut checks,
        is_on(request.distributive_modules),
        DesignerConfigCheck::DistributiveModules,
    );
    push_if(
        &mut checks,
        is_not_off(request.unreference_procedures),
        DesignerConfigCheck::UnreferenceProcedures,
    );
    push_if(
        &mut checks,
        is_not_off(request.handlers_existence),
        DesignerConfigCheck::HandlersExistence,
    );
    push_if(&mut checks, is_not_off(request.empty_handlers), DesignerConfigCheck::EmptyHandlers);
    push_if(
        &mut checks,
        is_on(request.unsupported_functional),
        DesignerConfigCheck::UnsupportedFunctional,
    );
    checks
}

#[verifier::rlimit(50)]
fn collect_config_scopes(request: &McpCheckSyntaxDesignerConfigRequest) -> (r: Vec<
    DesignerClientScope,
>)
    ensures
        r@ == config_scopes(request@),
{
    let mut scopes: Vec<DesignerClientScope> = Vec::new();
    push_if(&mut scopes, is_not_off(request.thin_client), DesignerClientScope::ThinClient);
    push_if(&mut scopes, is_on(request.web_client), DesignerClientScope::WebClient);
    push_if(&mut scopes, is_on(request.mobile_client), DesignerClientScope::MobileClient);
    push_if(&mut scopes, is_not_off(request.server), DesignerClientScope::Server);
    push_if(
        &mut scopes,
        is_on(request.external_connection),
        DesignerClientScope::ExternalConnection,
    );
    push_if(
        &mut scopes,
        is_on(request.external_connection_server),
        DesignerClientScope::ExternalConnectionServer,
    );
    push_if(&mut scopes, is_on(request.mobile_app_client), DesignerClientScope::MobileAppClient);
    push_if(&mut scopes, is_on(request.mobile_app_server), DesignerClientScope::MobileAppServer);
    push_if(
        &mut scopes,
        is_on(request.thick_client_managed_application),
        DesignerClientScope::ThickClientManagedApplication,
    );
    push_if(
        &mut scopes,
        is_on(request.thick_client_server_managed_application),
        DesignerClientScope::ThickClientServerManagedApplication,
    );
    push_if(
        &mut scopes,
        is_on(request.thick_client_ordinary_application),
        DesignerClientScope::ThickClientOrdinaryApplication,
    );
    push_if(
        &mut scopes,
        is_on(request.thick_client_server_ordinary_application),
        DesignerClientScope::ThickClientServerOrdinaryApplication,
    );
    scopes
}

/// Check of the configuration that a call asks for.
pub fn map_designer_config_request(request: &McpCheckSyntaxDesignerConfigRequest) -> (r: Result<
    DesignerConfigSyntaxRequest,
    UseCaseError,
>)
    ensures
        match r {
            Ok(x) => designer_config_request(request@) == Ok::<
                DesignerConfigSyntaxRequestView,
                Seq<char>,
            >(x@),
            Err(e) => e@.kind == UseCaseErrorKind::Validation && designer_config_request(request@)
                == Err::<DesignerConfigSyntaxRequestView, Seq<char>>(e@.message),
        },
{
    let scope = normalize_extension_scope(opt_slice(&request.extension), request.all_extensions);
    let checks = collect_config_checks(request);
    let scopes = collect_config_scopes(request);
    match ExtendedModulesPolicy::from_mcp_flags(
        request.extended_modules_check,
        request.check_use_synchronous_calls,
        request.check_use_modality,
    ) {
        Ok(extended_modules) => Ok(
            DesignerConfigSyntaxRequest {
                checks,
                scopes,
                extended_modules,
                extension_scope: scope,
            },
        ),
        Err(error) => Err(error),
    }
}

/// Clients in whose context a call has the modules checked.
pub open spec fn module_scopes(request: McpCheckSyntaxDesignerModulesRequestView) -> Seq<
    DesignerClientScope,
> {
    Seq::<DesignerClientScope>::empty() + only_if(
        request.thin_client != Some(false),
        DesignerClientScope::ThinClient,
    ) + only_if(request.web_client == Some(true), DesignerClientScope::WebClient) + only_if(
        request.server != Some(false),
        DesignerClientScope::Server,
    ) + only_if(
        request.external_connection == Some(true),
        DesignerClientScope::ExternalConnection,
    ) + only_if(
        request.thick_client_ordinary_application == Some(true),
        DesignerClientScope::ThickClientOrdinaryApplication,
    ) + only_if(
        request.mobile_app_client == Some(true),
        DesignerClientScope::MobileAppClient,
    ) + only_if(
        request.mobile_app_server == Some(true),
        DesignerClientScope::MobileAppServer,
    ) + only_if(request.mobile_client == Some(true), DesignerClientScope::MobileClient)
}

/// Check of the modules that a call asks for, or the message of the refusal.
pub open spec fn designer_modules_request(
    request: McpCheckSyntaxDesignerModulesRequestView,
) -> Result<DesignerModulesSyntaxRequestView, Seq<char>> {
    let enabled = request.extended_modules_check != Some(false);
    if module_scopes(request).len() == 0 && !enabled {
        Err("no syntax modes selected"@)
    } else {
        Ok(
            DesignerModulesSyntaxRequestView {
                scopes: module_scopes(request),
                extended_modules: ExtendedModulesPolicy {
                    enabled,
                    check_use_synchronous_calls: false,
                    check_use_modality: false,
                },
                extension_scope: extension_scope(request.extension, request.all_extensions),
            },
        )
    }
}

/// Check of the modules that a call asks for.
pub fn map_designer_modules_request(request: &McpCheckSyntaxDesignerModulesRequest) -> (r: Result<
    DesignerModulesSyntaxRequest,
    UseCaseError,
>)
    ensures
        match r {
            Ok(x) => designer_modules_request(request@) == Ok::<
                DesignerModulesSyntaxRequestView,
                Seq<char>,
            >(x@),
            Err(e) => e@.kind == UseCaseErrorKind::Validation && designer_modules_request(request@)
                == Err::<DesignerModulesSyntaxRequestView, Seq<char>>(e@.message),
        },
{
    let scope = normalize_extension_scope(opt_slice(&request.extension), request.all_extensions);
    let mut scopes: Vec<DesignerClientScope> = Vec::new();
    push_if(&mut scopes, is_not_off(request.thin_client), DesignerClientScope::ThinClient);
    push_if(&mut scopes, is_on(request.web_client), DesignerClientScope::WebClient);
    push_if(&mut scopes, is_not_off(request.server), DesignerClientScope::Server);
    push_if(
        &mut scopes,
        is_on(request.external_connection),
        DesignerClientScope::ExternalConnection,
    );
    push_if(
        &mut scopes,
        is_on(request.thick_client_ordinary_application),
        DesignerClientScope::ThickClientOrdinaryApplication,
    );
    push_if(&mut scopes, is_on(request.mobile_app_client), DesignerClientScope::MobileAppClient);
    push_if(&mut scopes, is_on(request.mobile_app_server), DesignerClientScope::MobileAppServer);
    push_if(&mut scopes, is_on(request.mobile_client), DesignerClientScope::MobileClient);
    DesignerModulesSyntaxRequest::new(
        scopes,
        ExtendedModulesPolicy::basic(is_not_off(request.extended_modules_check)),
        scope,
    )
}

/// Check of EDT projects that a call asks for.
pub open spec fn edt_request(request: McpCheckSyntaxEdtRequestView) -> SyntaxRequestView {
    SyntaxRequestView {
        target: SyntaxTargetRequestView::Edt { projects: edt_projects(request.project_name) },
    }
}

/// Check of EDT projects that a call asks for.
pub fn normalize_check_syntax_edt_request(request: &McpCheckSyntaxEdtRequest) -> (r: SyntaxRequest)
    ensures
        r@ == edt_request(request@),
{
    SyntaxRequest {
        target: SyntaxTargetRequest::Edt {
            projects: normalize_edt_projects(opt_slice(&request.project_name)),
        },
    }
}

/// Name of a dump mode.
pub open spec fn dump_mode_text(mode: DumpModeRequest) -> Seq<char> {
    match mode {
        DumpModeRequest::Full => "FULL"@,
        DumpModeRequest::Incremental => "INCREMENTAL"@,
        DumpModeRequest::Partial => "PARTIAL"@,
    }
}

/// Name of a dump mode.
pub fn render_dump_mode(mode: DumpModeRequest) -> (r: &'static str)
    ensures
        r@ == dump_mode_text(mode),
{
    match mode {
        DumpModeRequest::Full => "FULL",
        DumpModeRequest::Incremental => "INCREMENTAL",
        DumpModeRequest::Partial => "PARTIAL",
    }
}

} // verus!
