//! Laws of the tool calls: what the arguments of every call come to.

use vstd::prelude::*;
use crate::adapter_input::{
    dump_mode_named, extension_scope, is_safe_segment, launch_target_named, normalized,
    normalized_list, normalized_values,
};
use crate::config::{AppConfigView, TestsConfigView, VanessaTestsConfigView};
use crate::mcp::context::McpCallContext;
use crate::mcp::error::{McpBusinessErrorKind, McpErrorCode};
use crate::mcp::request::{
    McpBuildProjectRequestView, McpCheckSyntaxDesignerConfigRequestView,
    McpCheckSyntaxDesignerModulesRequestView, McpCheckSyntaxEdtRequestView,
    McpDumpConfigRequestView, McpLaunchAppRequestView, McpRunAllTestsRequestView,
    McpRunModuleTestsRequestView,
};
use crate::mcp::service_map::{
    build_request, config_checks, config_scopes, context_of, designer_config_request,
    designer_modules_request, dump_mode_text, dump_request, edt_request, launch_refusal,
    launch_request, module_scopes, only_if, raw_value_error, run_all_refusal, run_all_request,
    run_module_request, syntax_refusal,
};
use crate::outside::lowercase;
use crate::text::{is_blank, trim};
use crate::text_laws::{
    all_space, blank_text_is_white_space, is_bare, trimming_leaves_the_core,
    trimming_twice_is_trimming_once,
};
use crate::text_scan::{ascii_lowered, contains};
use crate::use_cases::{
    extension_of, means_all_extensions, total_timeout, yaxunit_execution, ClientMcpAddonRequest,
    ClientMcpMode, CommandName, DesignerClientScope, DesignerConfigCheck, DumpModeRequest,
    ExecutionTransport, LaunchClientModeRequest, LaunchTargetRequest, RunnerKind,
    SyntaxExtensionScopeView, TestScopeRequestView,
};

verus! {

// ---------------------------------------------------------------------------------------------
// Values

/// A value counts without the white space around it; one of white space only counts as absent.
pub proof fn value_counts_without_white_space(
    before: Seq<char>,
    core: Seq<char>,
    after: Seq<char>,
)
    requires
        all_space(before),
        all_space(after),
        is_bare(core),
    ensures
        core.len() > 0 ==> normalized(Some(before + core + after)) == Some(core),
        core.len() == 0 ==> normalized(Some(before + core + after)) is None,
        normalized(None) is None,
{
    trimming_leaves_the_core(before, core, after);
}

/// No entry of the list is more than white space.
pub open spec fn says_nothing(list: Seq<Seq<char>>) -> bool {
    forall|i: int| 0 <= i < list.len() ==> all_space(#[trigger] list[i])
}

proof fn lemma_values_prefix(a: Seq<Seq<char>>, b: Seq<Seq<char>>, n: int)
    requires
        0 <= n <= a.len(),
    ensures
        normalized_values(a + b, n) == normalized_values(a, n),
    decreases n,
{
    if n > 0 {
        lemma_values_prefix(a, b, n - 1);
        assert((a + b)[n - 1] == a[n - 1]);
    }
}

proof fn lemma_values_tail(a: Seq<Seq<char>>, b: Seq<Seq<char>>, n: int)
    requires
        0 <= n <= b.len(),
    ensures
        normalized_values(a + b, a.len() + n) == normalized_list(a) + normalized_values(b, n),
    decreases n,
{
    lemma_values_prefix(a, b, a.len() as int);
    if n > 0 {
        lemma_values_tail(a, b, n - 1);
        assert((a + b)[a.len() + n - 1] == b[n - 1]);
        assert(normalized_list(a) + normalized_values(b, n - 1).push(trim(b[n - 1])) =~= (
        normalized_list(a) + normalized_values(b, n - 1)).push(trim(b[n - 1])));
    } else {
        assert(normalized_list(a) + Seq::<Seq<char>>::empty() =~= normalized_list(a));
    }
}

/// A list counts entry by entry, in its order: each without the white space around it, and those
/// of white space only not at all.
pub proof fn list_counts_entry_by_entry(a: Seq<Seq<char>>, b: Seq<Seq<char>>, entry: Seq<char>)
    ensures
        normalized_list(a + b) == normalized_list(a) + normalized_list(b),
        all_space(entry) ==> normalized_list(seq![entry]).len() == 0,
        !all_space(entry) ==> normalized_list(seq![entry]) == seq![trim(entry)],
        normalized_list(Seq::empty()).len() == 0,
{
    lemma_values_tail(a, b, b.len() as int);
    blank_text_is_white_space(entry);
    let one = seq![entry];
    assert(normalized_values(one, 0) =~= Seq::<Seq<char>>::empty());
    assert(normalized_values(one, 1) == (if is_blank(entry) {
        normalized_values(one, 0)
    } else {
        normalized_values(one, 0).push(trim(entry))
    }));
    if !all_space(entry) {
        assert(normalized_list(one) =~= seq![trim(entry)]);
    }
}

proof fn lemma_empty_list(list: Seq<Seq<char>>, n: int)
    requires
        0 <= n <= list.len(),
    ensures
        normalized_values(list, n).len() == 0 <==> (forall|i: int|
            0 <= i < n ==> all_space(#[trigger] list[i])),
    decreases n,
{
    if n > 0 {
        lemma_empty_list(list, n - 1);
        blank_text_is_white_space(list[n - 1]);
        if normalized_values(list, n).len() == 0 {
            assert forall|i: int| 0 <= i < n implies all_space(#[trigger] list[i]) by {
                if i < n - 1 {
                    assert(normalized_values(list, n - 1).len() == 0);
                }
            }
        } else if forall|i: int| 0 <= i < n ==> all_space(#[trigger] list[i]) {
            assert(all_space(list[n - 1]));
        }
    }
}

// ---------------------------------------------------------------------------------------------
// Context

/// A call over an MCP transport runs its command over that transport, within the limits of the
/// call; one that came over the command line is not served.
pub proof fn call_keeps_its_transport_and_limits(call: McpCallContext, command: CommandName)
    ensures
        call.transport == ExecutionTransport::Cli ==> context_of(call, command) is Err
            && context_of(call, command)->Err_0 is Internal,
        call.transport != ExecutionTransport::Cli ==> {
            let context = context_of(call, command);
            &&& context is Ok
            &&& context->Ok_0.command == command
            &&& context->Ok_0.transport == call.transport
            &&& context->Ok_0.edt_timeout == call.edt_timeout
            &&& context->Ok_0.deadline == call.deadline
        },
{
}

// ---------------------------------------------------------------------------------------------
// Builds

/// A build is full only where the call says so; the source set and the dynamic update are those of
/// the call.
pub proof fn build_is_as_the_call_says(request: McpBuildProjectRequestView)
    ensures
        build_request(request).full_rebuild <==> request.full_rebuild == Some(true),
        build_request(request).source_set == request.source_set,
        build_request(request).dynamic_update == request.dynamic_update,
{
}

// ---------------------------------------------------------------------------------------------
// Tests

/// The call names Vanessa Automation as its runner, letters' case and white space aside.
pub open spec fn asks_for_vanessa(request: McpRunAllTestsRequestView) -> bool {
    match request.runner {
        Some(runner) => ascii_lowered(trim(runner)) == "vanessa"@ || ascii_lowered(trim(runner))
            == "va"@,
        None => false,
    }
}

/// The call names YAxUnit as its runner, or none.
pub open spec fn asks_for_yaxunit(request: McpRunAllTestsRequestView) -> bool {
    match request.runner {
        Some(runner) => all_space(runner) || ascii_lowered(trim(runner)) == "yaxunit"@
            || ascii_lowered(trim(runner)) == "yax-unit"@,
        None => true,
    }
}

/// Profile of the call, or the configured one where it names none.
pub open spec fn wanted_profile(
    config: AppConfigView,
    request: McpRunAllTestsRequestView,
) -> Option<Seq<char>> {
    match request.profile {
        Some(name) => if all_space(name) {
            config.tests.va.profile
        } else {
            Some(trim(name))
        },
        None => config.tests.va.profile,
    }
}

/// A list of the run is that of the call, or the configured one where the call says nothing.
pub open spec fn is_list_of_run(
    run: Seq<Seq<char>>,
    asked: Seq<Seq<char>>,
    configured: Seq<Seq<char>>,
) -> bool {
    &&& says_nothing(asked) ==> run == configured
    &&& !says_nothing(asked) ==> run == normalized_list(asked)
}

proof fn lemma_runner_words()
    ensures
        ascii_lowered("yaxunit"@) == "yaxunit"@,
        "vanessa"@ != "yaxunit"@,
        "vanessa"@ != "yax-unit"@,
        "va"@ != "yaxunit"@,
        "va"@ != "yax-unit"@,
        "vanessa"@.len() > 0,
        "va"@.len() > 0,
        "yaxunit"@.len() > 0,
{
    reveal_strlit("yaxunit");
    reveal_strlit("yax-unit");
    reveal_strlit("vanessa");
    reveal_strlit("va");
    assert(ascii_lowered("yaxunit"@) =~= "yaxunit"@);
    assert("vanessa"@[0] == 'v' && "va"@[0] == 'v' && "yaxunit"@[0] == 'y' && "yax-unit"@[0]
        == 'y');
}

proof fn lemma_runner(request: McpRunAllTestsRequestView)
    ensures
        asks_for_vanessa(request) ==> !asks_for_yaxunit(request),
        request.runner matches Some(runner) ==> (all_space(runner) <==> is_blank(runner)),
        request.runner matches Some(runner) ==> (is_blank(runner) ==> ascii_lowered(trim(runner)).len()
            == 0),
{
    lemma_runner_words();
    if let Some(runner) = request.runner {
        blank_text_is_white_space(runner);
    }
}

/// A run by Vanessa Automation goes by the profile of the call, or else by the configured one. Each
/// of the four lists of that profile is the one of the call where the call says anything there, and
/// stays the configured one where it does not. Nothing else of the configuration changes.
pub proof fn lists_of_the_call_replace_only_their_own(
    config: AppConfigView,
    request: McpRunAllTestsRequestView,
)
    requires
        asks_for_vanessa(request),
        run_all_request(config, request) is Ok,
    ensures
        ({
            let run = run_all_request(config, request)->Ok_0.0;
            let id = run.tests.va.profile->0;
            let given = config.tests.va.profiles.by_name;
            let used = run.tests.va.profiles.by_name;
            &&& run.tests.va.profile is Some
            &&& run.tests.va.profile == wanted_profile(config, request)
            &&& given.contains_key(id)
            &&& used.contains_key(id)
            &&& is_list_of_run(
                used[id].features_to_run,
                request.feature,
                given[id].features_to_run,
            )
            &&& is_list_of_run(used[id].filter_tags, request.filter_tag, given[id].filter_tags)
            &&& is_list_of_run(used[id].ignore_tags, request.ignore_tag, given[id].ignore_tags)
            &&& is_list_of_run(
                used[id].scenario_filter,
                request.scenario_filter,
                given[id].scenario_filter,
            )
            &&& forall|other: Seq<char>|
                other != id ==> (#[trigger] used.contains_key(other) <==> given.contains_key(other))
            &&& forall|other: Seq<char>|
                other != id && given.contains_key(other) ==> #[trigger] used[other] == given[other]
            &&& run == (AppConfigView {
                tests: TestsConfigView {
                    va: VanessaTestsConfigView {
                        profile: run.tests.va.profile,
                        profiles: run.tests.va.profiles,
                        ..config.tests.va
                    },
                    ..config.tests
                },
                ..config
            })
        }),
{
    lemma_runner_words();
    lemma_runner(request);
    lemma_profile(config, request);
    lemma_empty_list(request.feature, request.feature.len() as int);
    lemma_empty_list(request.filter_tag, request.filter_tag.len() as int);
    lemma_empty_list(request.ignore_tag, request.ignore_tag.len() as int);
    lemma_empty_list(request.scenario_filter, request.scenario_filter.len() as int);
}

proof fn lemma_profile(config: AppConfigView, request: McpRunAllTestsRequestView)
    ensures
        crate::mcp::service_map::selected_profile(config, request) == wanted_profile(
            config,
            request,
        ),
{
    if let Some(name) = request.profile {
        blank_text_is_white_space(name);
    }
}

/// A run by Vanessa Automation is of the whole test set, in a thin client, under the profile it goes
/// by, and full only where the call says so. It has the time that is set for it, or else that of
/// any test run.
pub proof fn vanessa_run_is_as_the_call_says(
    config: AppConfigView,
    request: McpRunAllTestsRequestView,
)
    requires
        asks_for_vanessa(request),
        run_all_request(config, request) is Ok,
    ensures
        ({
            let test = run_all_request(config, request)->Ok_0.1;
            let own = config.tests.va.timeouts.total_seconds;
            &&& Some(test.execution.profile.id) == wanted_profile(config, request)
            &&& test.execution.profile.kind == RunnerKind::Vanessa
            &&& test.execution.client_mode == Some(LaunchClientModeRequest::Thin)
            &&& own is Some ==> test.execution.timeouts.total_seconds == own
            &&& own is None ==> test.execution.timeouts.total_seconds
                == config.tests.execution_timeout_seconds
            &&& test.execution.policy.retain_artifacts_on_failure
            &&& !test.execution.policy.retain_artifacts_on_success
            &&& test.full <==> request.full == Some(true)
            &&& test.scope is All
        }),
{
    lemma_runner_words();
    lemma_runner(request);
    lemma_profile(config, request);
}

/// A run by Vanessa Automation is accepted exactly where a profile is named by the call or the
/// configuration, that profile is configured and can stand in a path, and both the processor and its
/// parameters are configured.
pub proof fn vanessa_run_needs_a_known_profile_and_its_tools(
    config: AppConfigView,
    request: McpRunAllTestsRequestView,
)
    requires
        asks_for_vanessa(request),
    ensures
        run_all_request(config, request) is Ok <==> {
            &&& wanted_profile(config, request) is Some
            &&& config.tests.va.profiles.by_name.contains_key(wanted_profile(config, request)->0)
            &&& is_safe_segment(wanted_profile(config, request)->0)
            &&& config.tools.va.epf_path is Some
            &&& config.tests.va.params_path is Some
        },
{
    lemma_runner_words();
    lemma_runner(request);
    lemma_profile(config, request);
}

/// A run by YAxUnit is of the whole test set under the configuration as it is, and full only where
/// the call says so. It is refused exactly where the call says anything that only Vanessa Automation
/// understands.
pub proof fn yaxunit_run_takes_no_options(
    config: AppConfigView,
    request: McpRunAllTestsRequestView,
)
    requires
        asks_for_yaxunit(request),
    ensures
        run_all_request(config, request) is Ok <==> {
            &&& request.profile matches Some(name) ==> all_space(name)
            &&& says_nothing(request.feature)
            &&& says_nothing(request.filter_tag)
            &&& says_nothing(request.ignore_tag)
            &&& says_nothing(request.scenario_filter)
        },
        run_all_request(config, request) matches Ok((run, test)) ==> {
            &&& run == config
            &&& test.full <==> request.full == Some(true)
            &&& test.scope is All
            &&& test.execution.profile.kind == RunnerKind::YaXUnit
            &&& test.execution.client_mode is None
            &&& test.execution.timeouts.total_seconds is None
        },
{
    lemma_runner_words();
    lemma_runner(request);
    if let Some(name) = request.profile {
        blank_text_is_white_space(name);
    }
    lemma_empty_list(request.feature, request.feature.len() as int);
    lemma_empty_list(request.filter_tag, request.filter_tag.len() as int);
    lemma_empty_list(request.ignore_tag, request.ignore_tag.len() as int);
    lemma_empty_list(request.scenario_filter, request.scenario_filter.len() as int);
}

/// Any other runner is refused, and the refusal names it.
pub proof fn unknown_runner_is_refused(config: AppConfigView, request: McpRunAllTestsRequestView)
    requires
        !asks_for_vanessa(request),
        !asks_for_yaxunit(request),
    ensures
        run_all_request(config, request) is Err,
        run_all_request(config, request)->Err_0.0 == "unsupported test runner: "@ + ascii_lowered(
            trim(request.runner->0),
        ),
        run_all_request(config, request)->Err_0.1 == "runner"@,
{
    lemma_runner_words();
    lemma_runner(request);
}

/// A run of one module is of the module that the call names, by YAxUnit, and full only where the
/// call says so; it is refused exactly where no module is named.
pub proof fn module_run_is_of_the_named_module(request: McpRunModuleTestsRequestView)
    ensures
        all_space(request.module_name) <==> run_module_request(request) is Err,
        run_module_request(request) matches Ok(test) ==> {
            &&& test.scope == (TestScopeRequestView::Module { name: trim(request.module_name) })
            &&& test.full <==> request.full == Some(true)
            &&& test.execution.profile.kind == RunnerKind::YaXUnit
        },
{
    blank_text_is_white_space(request.module_name);
}

// ---------------------------------------------------------------------------------------------
// Dumps

proof fn lemma_dump_words()
    ensures
        "full"@ != "incremental"@,
        "full"@ != "partial"@,
        "incremental"@ != "partial"@,
{
    reveal_strlit("full");
    reveal_strlit("incremental");
    reveal_strlit("partial");
    assert("full"@[0] == 'f' && "incremental"@[0] == 'i' && "partial"@[0] == 'p');
}

/// A dump is of the mode that the call names, letters' case and white space aside, and incremental
/// where it names none; any other word is refused. Extension and objects are those of the call.
pub proof fn dump_is_of_the_named_mode(request: McpDumpConfigRequestView)
    ensures
        ({
            let word = ascii_lowered(trim(request.mode->0));
            let silent = request.mode is None || all_space(request.mode->0);
            let result = dump_request(request);
            &&& silent ==> result is Ok && result->Ok_0.mode == DumpModeRequest::Incremental
            &&& !silent && word == "full"@ ==> result is Ok && result->Ok_0.mode
                == DumpModeRequest::Full
            &&& !silent && word == "incremental"@ ==> result is Ok && result->Ok_0.mode
                == DumpModeRequest::Incremental
            &&& !silent && word == "partial"@ ==> result is Ok && result->Ok_0.mode
                == DumpModeRequest::Partial
            &&& !silent && word != "full"@ && word != "incremental"@ && word != "partial"@
                ==> result is Err
            &&& result is Ok ==> {
                &&& result->Ok_0.source_set is None
                &&& result->Ok_0.objects == request.objects
                &&& request.extension matches Some(name) ==> (if all_space(name) {
                    result->Ok_0.extension is None
                } else {
                    result->Ok_0.extension == Some(trim(name))
                })
                &&& request.extension is None ==> result->Ok_0.extension is None
            }
        }),
{
    lemma_dump_words();
    if let Some(mode) = request.mode {
        blank_text_is_white_space(mode);
    }
    if let Some(name) = request.extension {
        blank_text_is_white_space(name);
    }
}

/// The modes have names of their own, and a dump under the name of a mode is of that mode.
pub proof fn name_of_a_dump_mode_names_it(mode: DumpModeRequest)
    ensures
        dump_mode_named(dump_mode_text(mode)) == Some(mode),
{
    lemma_dump_words();
    reveal_strlit("FULL");
    reveal_strlit("INCREMENTAL");
    reveal_strlit("PARTIAL");
    reveal_strlit("full");
    reveal_strlit("incremental");
    reveal_strlit("partial");
    assert(ascii_lowered("FULL"@) =~= "full"@);
    assert(ascii_lowered("INCREMENTAL"@) =~= "incremental"@);
    assert(ascii_lowered("PARTIAL"@) =~= "partial"@);
}

// ---------------------------------------------------------------------------------------------
// Launches

/// The call names the client MCP server, letters' case and white space aside.
pub open spec fn asks_for_mcp(request: McpLaunchAppRequestView) -> bool {
    let word = ascii_lowered(trim(request.utility_type));
    word == "mcp"@ || word == "client_mcp"@ || word == "client-mcp"@
}

/// The value says nothing.
pub open spec fn is_silent(value: Option<Seq<char>>) -> bool {
    value matches Some(text) ==> all_space(text)
}

proof fn lemma_mcp_words()
    ensures
        ascii_lowered("mcp"@) == "mcp"@,
        ascii_lowered("client_mcp"@) == "client_mcp"@,
        ascii_lowered("client-mcp"@) == "client-mcp"@,
        "mcp"@.len() > 0,
        "client_mcp"@.len() > 0,
        "client-mcp"@.len() > 0,
        ascii_lowered("thin"@) == "thin"@,
        "thin"@ != "thick"@,
        "thin"@ != "ordinary"@,
        "thick"@ != "ordinary"@,
        "va"@.len() > 0,
{
    reveal_strlit("mcp");
    reveal_strlit("client_mcp");
    reveal_strlit("client-mcp");
    reveal_strlit("thin");
    reveal_strlit("thick");
    reveal_strlit("ordinary");
    reveal_strlit("va");
    assert(ascii_lowered("mcp"@) =~= "mcp"@);
    assert(ascii_lowered("client_mcp"@) =~= "client_mcp"@);
    assert(ascii_lowered("client-mcp"@) =~= "client-mcp"@);
    assert(ascii_lowered("thin"@) =~= "thin"@);
    assert("thin"@[0] == 't' && "ordinary"@[0] == 'o');
    assert("thin"@.len() != "thick"@.len());
}

/// A launch of the client MCP server starts the client that the call names, a thin one where it
/// names none, with the configuration, the port and the scenario of the call; it waits for the
/// server only where the call says so. A call with another client, a semicolon in the path of the
/// configuration, port 0 or another scenario is refused.
pub proof fn client_mcp_server_is_launched_as_the_call_says(request: McpLaunchAppRequestView)
    requires
        asks_for_mcp(request),
    ensures
        ({
            let mode = ascii_lowered(trim(request.mode->0));
            let scenario = ascii_lowered(trim(request.mcp_scenario->0));
            let result = launch_request(request);
            &&& result is Ok <==> {
                &&& is_silent(request.mode) || mode == "thin"@ || mode == "thick"@ || mode
                    == "ordinary"@
                &&& is_silent(request.mcp_config) || !contains(trim(request.mcp_config->0), ";"@)
                &&& request.mcp_port != Some(0u16)
                &&& is_silent(request.mcp_scenario) || scenario == "va"@
            }
            &&& result is Ok ==> {
                let launch = result->Ok_0;
                &&& is_silent(request.mode) ==> launch.target == (LaunchTargetRequest::ClientMcp {
                    mode: ClientMcpMode::Thin,
                })
                &&& !is_silent(request.mode) && mode == "thin"@ ==> launch.target == (
                LaunchTargetRequest::ClientMcp { mode: ClientMcpMode::Thin })
                &&& !is_silent(request.mode) && mode == "thick"@ ==> launch.target == (
                LaunchTargetRequest::ClientMcp { mode: ClientMcpMode::Thick })
                &&& !is_silent(request.mode) && mode == "ordinary"@ ==> launch.target == (
                LaunchTargetRequest::ClientMcp { mode: ClientMcpMode::Ordinary })
                &&& launch.client_mcp is Some
                &&& is_silent(request.mcp_config) ==> launch.client_mcp->0.config_path is None
                &&& !is_silent(request.mcp_config) ==> launch.client_mcp->0.config_path == Some(
                    trim(request.mcp_config->0),
                )
                &&& launch.client_mcp->0.port == request.mcp_port
                &&& is_silent(request.mcp_scenario) ==> launch.client_mcp->0.addon is None
                &&& !is_silent(request.mcp_scenario) ==> launch.client_mcp->0.addon == Some(
                    ClientMcpAddonRequest::VanessaAutomation,
                )
                &&& launch.client_mcp->0.wait_ready <==> request.wait_ready == Some(true)
            }
        }),
{
    lemma_mcp_words();
    blank_text_is_white_space(request.utility_type);
    if let Some(text) = request.mode {
        blank_text_is_white_space(text);
    }
    if let Some(text) = request.mcp_config {
        blank_text_is_white_space(text);
    }
    if let Some(text) = request.mcp_scenario {
        blank_text_is_white_space(text);
    }
    if is_blank(request.utility_type) {
        assert(ascii_lowered(trim(request.utility_type)).len() == 0);
    }
}

/// A launch of another client starts the one that the call names, without settings of the client
/// MCP server; with any of these it is refused.
pub proof fn other_client_is_launched_without_mcp(request: McpLaunchAppRequestView)
    requires
        !asks_for_mcp(request),
    ensures
        ({
            let plain = is_silent(request.mcp_config) && request.mcp_port is None && is_silent(
                request.mode,
            ) && is_silent(request.mcp_scenario) && request.wait_ready != Some(true);
            let named = launch_target_named(lowercase(trim(request.utility_type)));
            let result = launch_request(request);
            &&& result is Ok <==> !all_space(request.utility_type) && plain && named is Some
            &&& result is Ok ==> result->Ok_0.target == named->0 && result->Ok_0.client_mcp is None
        }),
{
    lemma_mcp_words();
    trimming_twice_is_trimming_once(request.utility_type);
    blank_text_is_white_space(request.utility_type);
    if let Some(text) = request.mode {
        blank_text_is_white_space(text);
    }
    if let Some(text) = request.mcp_config {
        blank_text_is_white_space(text);
    }
    if let Some(text) = request.mcp_scenario {
        blank_text_is_white_space(text);
    }
}

/// A word that names a client names the Designer, the thin or the thick one, and never two of them:
/// what begins with `thin` is no thick client, and only the client MCP server has a mode.
pub proof fn client_goes_by_its_word(word: Seq<char>)
    ensures
        launch_target_named(word) matches Some(target) ==> !(target is ClientMcp),
        word == "designer"@ || word == "configurator"@ || word == "1cv8"@ ==> launch_target_named(
            word,
        ) == Some(LaunchTargetRequest::Designer),
        word == "thin"@ || word == "1cv8c"@ || word == "тонкий клиент"@ ==> launch_target_named(word)
            == Some(LaunchTargetRequest::ThinClient),
        word == "thick"@ || word == "толстый клиент"@ ==> launch_target_named(word) == Some(
            LaunchTargetRequest::ThickClient,
        ),
        word.len() == 0 ==> launch_target_named(word) is None,
{
    reveal_strlit("designer");
    reveal_strlit("configurator");
    reveal_strlit("1cv8");
    reveal_strlit("конфигуратор");
    reveal_strlit("thin");
    reveal_strlit("thin-client");
    reveal_strlit("thin client");
    reveal_strlit("thin_client");
    reveal_strlit("tc");
    reveal_strlit("1cv8c");
    reveal_strlit("тонкий клиент");
    reveal_strlit("тонкий");
    reveal_strlit("thick");
    reveal_strlit("thick-client");
    reveal_strlit("thick client");
    reveal_strlit("thick_client");
    reveal_strlit("толстый клиент");
    reveal_strlit("толстый");
    assert("designer"@[0] == 'd' && "configurator"@[0] == 'c' && "1cv8"@[0] == '1'
        && "конфигуратор"@[0] == 'к');
    assert("thin"@[0] == 't' && "1cv8c"@[0] == '1' && "тонкий клиент"@[0] == 'т');
    assert("1cv8"@.len() == 4 && "1cv8c"@.len() == 5);
    assert("thick"@[0] == 't' && "thick"@[2] == 'i' && "thick"@[3] == 'c' && "thick"@.len() == 5);
    assert("thin"@.len() == 4 && "tc"@.len() == 2 && "thin-client"@.len() == 11);
    assert("толстый клиент"@[1] == 'о' && "толстый клиент"@[2] == 'л' && "тонкий клиент"@[2]
        == 'н' && "тонкий"@[2] == 'н');
}

// ---------------------------------------------------------------------------------------------
// Syntax checks

#[verifier::opaque]
spec fn is_in<T>(list: Seq<T>, x: T) -> bool {
    list.contains(x)
}

proof fn lemma_is_in<T>(list: Seq<T>, x: T)
    ensures
        is_in(list, x) == list.contains(x),
{
    reveal(is_in);
}

proof fn lemma_none_is_in<T>(x: T)
    ensures
        !is_in(Seq::<T>::empty(), x),
{
    reveal(is_in);
}

proof fn lemma_only_if<T>(list: Seq<T>, condition: bool, item: T, x: T)
    ensures
        is_in(list + only_if(condition, item), x) <==> is_in(list, x) || (condition && x == item),
{
    reveal(is_in);
    let more = list + only_if(condition, item);
    if list.contains(x) {
        let i = choose|i: int| 0 <= i < list.len() && list[i] == x;
        assert(more[i] == x);
    }
    if condition && x == item {
        assert(more[list.len() as int] == x);
    }
    if more.contains(x) {
        let i = choose|i: int| 0 <= i < more.len() && more[i] == x;
        if i < list.len() {
            assert(list[i] == x);
        }
    }
}

/// Each check of the configuration is made exactly where its flag says so: those of unused
/// procedures, of handlers and of empty handlers unless it is off, the others only where it is on.
pub proof fn checks_go_by_their_flags(
    request: McpCheckSyntaxDesignerConfigRequestView,
    check: DesignerConfigCheck,
)
    ensures
        config_checks(request).contains(check) <==> match check {
            DesignerConfigCheck::ConfigLogIntegrity => request.config_log_integrity == Some(true),
            DesignerConfigCheck::IncorrectReferences => request.incorrect_references == Some(true),
            DesignerConfigCheck::MobileClientDigiSign => request.mobile_client_digi_sign == Some(
                true,
            ),
            DesignerConfigCheck::DistributiveModules => request.distributive_modules == Some(true),
            DesignerConfigCheck::UnreferenceProcedures => request.unreference_procedures != Some(
                false,
            ),
            DesignerConfigCheck::HandlersExistence => request.handlers_existence != Some(false),
            DesignerConfigCheck::EmptyHandlers => request.empty_handlers != Some(false),
            DesignerConfigCheck::UnsupportedFunctional => request.unsupported_functional == Some(
                true,
            ),
        },
{
    let l0 = Seq::<DesignerConfigCheck>::empty();
    let l1 = l0 + only_if(
        request.config_log_integrity == Some(true),
        DesignerConfigCheck::ConfigLogIntegrity,
    );
    let l2 = l1 + only_if(
        request.incorrect_references == Some(true),
        DesignerConfigCheck::IncorrectReferences,
    );
    let l3 = l2 + only_if(
        request.mobile_client_digi_sign == Some(true),
        DesignerConfigCheck::MobileClientDigiSign,
    );
    let l4 = l3 + only_if(
        request.distributive_modules == Some(true),
        DesignerConfigCheck::DistributiveModules,
    );
    let l5 = l4 + only_if(
        request.unreference_procedures != Some(false),
        DesignerConfigCheck::UnreferenceProcedures,
    );
    let l6 = l5 + only_if(
        request.handlers_existence != Some(false),
        DesignerConfigCheck::HandlersExistence,
    );
    let l7 = l6 + only_if(
        request.empty_handlers != Some(false),
        DesignerConfigCheck::EmptyHandlers,
    );
    lemma_only_if(
        l0,
        request.config_log_integrity == Some(true),
        DesignerConfigCheck::ConfigLogIntegrity,
        check,
    );
    lemma_only_if(
        l1,
        request.incorrect_references == Some(true),
        DesignerConfigCheck::IncorrectReferences,
        check,
    );
    lemma_only_if(
        l2,
        request.mobile_client_digi_sign == Some(true),
        DesignerConfigCheck::MobileClientDigiSign,
        check,
    );
    lemma_only_if(
        l3,
        request.distributive_modules == Some(true),
        DesignerConfigCheck::DistributiveModules,
        check,
    );
    lemma_only_if(
        l4,
        request.unreference_procedures != Some(false),
        DesignerConfigCheck::UnreferenceProcedures,
        check,
    );
    lemma_only_if(
        l5,
        request.handlers_existence != Some(false),
        DesignerConfigCheck::HandlersExistence,
        check,
    );
    lemma_only_if(
        l6,
        request.empty_handlers != Some(false),
        DesignerConfigCheck::EmptyHandlers,
        check,
    );
    lemma_only_if(
        l7,
        request.unsupported_functional == Some(true),
        DesignerConfigCheck::UnsupportedFunctional,
        check,
    );
    lemma_none_is_in(check);
    lemma_is_in(config_checks(request), check);
}

/// Flag of a client, as it is given for a check of the configuration, and whether the client is
/// checked where none is given.
pub open spec fn config_flag(
    request: McpCheckSyntaxDesignerConfigRequestView,
    scope: DesignerClientScope,
) -> (Option<bool>, bool) {
    match scope {
        DesignerClientScope::ThinClient => (request.thin_client, true),
        DesignerClientScope::WebClient => (request.web_client, false),
        DesignerClientScope::MobileClient => (request.mobile_client, false),
        DesignerClientScope::Server => (request.server, true),
        DesignerClientScope::ExternalConnection => (request.external_connection, false),
        DesignerClientScope::ExternalConnectionServer => (
            request.external_connection_server,
            false,
        ),
        DesignerClientScope::MobileAppClient => (request.mobile_app_client, false),
        DesignerClientScope::MobileAppServer => (request.mobile_app_server, false),
        DesignerClientScope::ThickClientManagedApplication => (
            request.thick_client_managed_application,
            false,
        ),
        DesignerClientScope::ThickClientServerManagedApplication => (
            request.thick_client_server_managed_application,
            false,
        ),
        DesignerClientScope::ThickClientOrdinaryApplication => (
            request.thick_client_ordinary_application,
            false,
        ),
        DesignerClientScope::ThickClientServerOrdinaryApplication => (
            request.thick_client_server_ordinary_application,
            false,
        ),
    }
}

/// The configuration is checked for a client exactly where its flag is on, or is not given and the
/// client is the thin one or the server.
#[verifier::rlimit(40)]
pub proof fn clients_go_by_their_flags(
    request: McpCheckSyntaxDesignerConfigRequestView,
    scope: DesignerClientScope,
)
    ensures
        ({
            let (flag, default) = config_flag(request, scope);
            config_scopes(request).contains(scope) <==> (if flag is Some {
                flag->0
            } else {
                default
            })
        }),
{
    let l0 = Seq::<DesignerClientScope>::empty();
    let c1 = request.thin_client != Some(false);
    let c2 = request.web_client == Some(true);
    let c3 = request.mobile_client == Some(true);
    let c4 = request.server != Some(false);
    let c5 = request.external_connection == Some(true);
    let c6 = request.external_connection_server == Some(true);
    let c7 = request.mobile_app_client == Some(true);
    let c8 = request.mobile_app_server == Some(true);
    let c9 = request.thick_client_managed_application == Some(true);
    let c10 = request.thick_client_server_managed_application == Some(true);
    let c11 = request.thick_client_ordinary_application == Some(true);
    let c12 = request.thick_client_server_ordinary_application == Some(true);
    let l1 = l0 + only_if(c1, DesignerClientScope::ThinClient);
    let l2 = l1 + only_if(c2, DesignerClientScope::WebClient);
    let l3 = l2 + only_if(c3, DesignerClientScope::MobileClient);
    let l4 = l3 + only_if(c4, DesignerClientScope::Server);
    let l5 = l4 + only_if(c5, DesignerClientScope::ExternalConnection);
    let l6 = l5 + only_if(c6, DesignerClientScope::ExternalConnectionServer);
    let l7 = l6 + only_if(c7, DesignerClientScope::MobileAppClient);
    let l8 = l7 + only_if(c8, DesignerClientScope::MobileAppServer);
    let l9 = l8 + only_if(c9, DesignerClientScope::ThickClientManagedApplication);
    let l10 = l9 + only_if(c10, DesignerClientScope::ThickClientServerManagedApplication);
    let l11 = l10 + only_if(c11, DesignerClientScope::ThickClientOrdinaryApplication);
    lemma_only_if(l0, c1, DesignerClientScope::ThinClient, scope);
    lemma_only_if(l1, c2, DesignerClientScope::WebClient, scope);
    lemma_only_if(l2, c3, DesignerClientScope::MobileClient, scope);
    lemma_only_if(l3, c4, DesignerClientScope::Server, scope);
    lemma_only_if(l4, c5, DesignerClientScope::ExternalConnection, scope);
    lemma_only_if(l5, c6, DesignerClientScope::ExternalConnectionServer, scope);
    lemma_only_if(l6, c7, DesignerClientScope::MobileAppClient, scope);
    lemma_only_if(l7, c8, DesignerClientScope::MobileAppServer, scope);
    lemma_only_if(l8, c9, DesignerClientScope::ThickClientManagedApplication, scope);
    lemma_only_if(l9, c10, DesignerClientScope::ThickClientServerManagedApplication, scope);
    lemma_only_if(l10, c11, DesignerClientScope::ThickClientOrdinaryApplication, scope);
    lemma_only_if(l11, c12, DesignerClientScope::ThickClientServerOrdinaryApplication, scope);
    lemma_none_is_in(scope);
    lemma_is_in(config_scopes(request), scope);
}

/// The modules are checked for a client exactly where its flag is on, or is not given and the client
/// is the thin one or the server; there are no flags for the other clients.
pub proof fn module_clients_go_by_their_flags(
    request: McpCheckSyntaxDesignerModulesRequestView,
    scope: DesignerClientScope,
)
    ensures
        module_scopes(request).contains(scope) <==> match scope {
            DesignerClientScope::ThinClient => request.thin_client != Some(false),
            DesignerClientScope::WebClient => request.web_client == Some(true),
            DesignerClientScope::Server => request.server != Some(false),
            DesignerClientScope::ExternalConnection => request.external_connection == Some(true),
            DesignerClientScope::ThickClientOrdinaryApplication =>
                request.thick_client_ordinary_application == Some(true),
            DesignerClientScope::MobileAppClient => request.mobile_app_client == Some(true),
            DesignerClientScope::MobileAppServer => request.mobile_app_server == Some(true),
            DesignerClientScope::MobileClient => request.mobile_client == Some(true),
            _ => false,
        },
{
    let l0 = Seq::<DesignerClientScope>::empty();
    let c1 = request.thin_client != Some(false);
    let c2 = request.web_client == Some(true);
    let c3 = request.server != Some(false);
    let c4 = request.external_connection == Some(true);
    let c5 = request.thick_client_ordinary_application == Some(true);
    let c6 = request.mobile_app_client == Some(true);
    let c7 = request.mobile_app_server == Some(true);
    let c8 = request.mobile_client == Some(true);
    let l1 = l0 + only_if(c1, DesignerClientScope::ThinClient);
    let l2 = l1 + only_if(c2, DesignerClientScope::WebClient);
    let l3 = l2 + only_if(c3, DesignerClientScope::Server);
    let l4 = l3 + only_if(c4, DesignerClientScope::ExternalConnection);
    let l5 = l4 + only_if(c5, DesignerClientScope::ThickClientOrdinaryApplication);
    let l6 = l5 + only_if(c6, DesignerClientScope::MobileAppClient);
    let l7 = l6 + only_if(c7, DesignerClientScope::MobileAppServer);
    lemma_only_if(l0, c1, DesignerClientScope::ThinClient, scope);
    lemma_only_if(l1, c2, DesignerClientScope::WebClient, scope);
    lemma_only_if(l2, c3, DesignerClientScope::Server, scope);
    lemma_only_if(l3, c4, DesignerClientScope::ExternalConnection, scope);
    lemma_only_if(l4, c5, DesignerClientScope::ThickClientOrdinaryApplication, scope);
    lemma_only_if(l5, c6, DesignerClientScope::MobileAppClient, scope);
    lemma_only_if(l6, c7, DesignerClientScope::MobileAppServer, scope);
    lemma_only_if(l7, c8, DesignerClientScope::MobileClient, scope);
    lemma_none_is_in(scope);
    lemma_is_in(module_scopes(request), scope);
}

/// The extension that is named is checked, with all the others where the flag is on; without a name
/// all of them are, and the main configuration alone where the flag is off.
pub proof fn parts_to_check_go_by_name_and_flag(extension: Option<Seq<char>>, all: Option<bool>)
    ensures
        ({
            let scope = extension_scope(extension, all);
            let name = trim(extension->0);
            &&& is_silent(extension) && all != Some(false) ==> scope is AllExtensions
            &&& is_silent(extension) && all == Some(false) ==> scope is MainConfiguration
            &&& !is_silent(extension) && all == Some(true) ==> scope == (
            SyntaxExtensionScopeView::SingleExtensionAndAll { name })
            &&& !is_silent(extension) && all != Some(true) ==> scope == (
            SyntaxExtensionScopeView::SingleExtension { name })
        }),
{
    if let Some(name) = extension {
        blank_text_is_white_space(name);
    }
}

/// The checks of synchronous calls and of modality belong to the extended check: with it they go by
/// their flags, and where it is off neither can be asked for.
pub proof fn additional_checks_need_the_extended_one(
    request: McpCheckSyntaxDesignerConfigRequestView,
)
    ensures
        ({
            let result = designer_config_request(request);
            let off = request.extended_modules_check == Some(false);
            &&& result is Err <==> off && (request.check_use_synchronous_calls == Some(true)
                || request.check_use_modality == Some(true))
            &&& result is Ok ==> {
                let extended = result->Ok_0.extended_modules;
                &&& extended.enabled == !off
                &&& extended.check_use_synchronous_calls <==> request.check_use_synchronous_calls
                    == Some(true)
                &&& extended.check_use_modality <==> request.check_use_modality == Some(true)
                &&& result->Ok_0.checks == config_checks(request)
                &&& result->Ok_0.scopes == config_scopes(request)
                &&& result->Ok_0.extension_scope == extension_scope(
                    request.extension,
                    request.all_extensions,
                )
            }
        }),
{
}

/// A check of the modules is refused exactly where neither a client nor the extended check is left
/// to check.
pub proof fn module_check_needs_something_to_check(
    request: McpCheckSyntaxDesignerModulesRequestView,
)
    ensures
        ({
            let result = designer_modules_request(request);
            &&& result is Err <==> request.extended_modules_check == Some(false)
                && request.thin_client == Some(false) && request.server == Some(false)
                && request.web_client != Some(true) && request.external_connection != Some(true)
                && request.thick_client_ordinary_application != Some(true)
                && request.mobile_app_client != Some(true) && request.mobile_app_server != Some(
                true,
            ) && request.mobile_client != Some(true)
            &&& result is Ok ==> {
                &&& result->Ok_0.scopes == module_scopes(request)
                &&& result->Ok_0.extended_modules.enabled == (request.extended_modules_check
                    != Some(false))
                &&& !result->Ok_0.extended_modules.check_use_synchronous_calls
                &&& !result->Ok_0.extended_modules.check_use_modality
                &&& result->Ok_0.extension_scope == extension_scope(
                    request.extension,
                    request.all_extensions,
                )
            }
        }),
{
}

/// A check of EDT projects is of the one that is named, or of all.
pub proof fn edt_check_is_of_the_named_project(request: McpCheckSyntaxEdtRequestView)
    ensures
        edt_request(request).target is Edt,
        is_silent(request.project_name) ==> edt_request(request).target->projects.len() == 0,
        !is_silent(request.project_name) ==> edt_request(request).target->projects == seq![
            trim(request.project_name->0),
        ],
{
    if let Some(name) = request.project_name {
        blank_text_is_white_space(name);
    }
}

// ---------------------------------------------------------------------------------------------
// Refusals

/// A refusal tells the caller why: the response is not in order, took no time, carries the error and
/// names message, tool and field.
pub proof fn refusal_tells_why(
    message: Seq<char>,
    field: Seq<char>,
    tool: Seq<char>,
)
    ensures
        ({
            let refused = run_all_refusal((message, field));
            &&& refused is Business
            &&& refused->error.message == message
            &&& refused->error.code == McpErrorCode::InvalidArgument
            &&& refused->error.kind == McpBusinessErrorKind::Validation
            &&& !refused->response.ok
            &&& refused->response.duration_ms == 0
            &&& refused->response.command == "test"@
            &&& refused->response.data is Error
            &&& refused->response.data->Error_0.message == message
            &&& refused->response.data->Error_0.tool == "run_all_tests"@
            &&& refused->response.data->Error_0.field == Some(field)
        }),
        ({
            let refused = launch_refusal(message, field);
            &&& refused is Business
            &&& refused->error.message == message
            &&& !refused->response.ok
            &&& refused->response.command == "launch"@
            &&& refused->response.data is Error
            &&& refused->response.data->Error_0.field == Some(field)
        }),
        ({
            let refused = syntax_refusal(tool, message);
            &&& refused is Business
            &&& refused->error.message == message
            &&& !refused->response.ok
            &&& refused->response.command == "syntax"@
            &&& refused->response.data is Error
            &&& refused->response.data->Error_0.tool == tool
            &&& refused->response.data->Error_0.errors == Some(seq![message])
        }),
{
}

/// The scope of a check names the extension that was asked for, without the white space around it,
/// and takes in all extensions where that was asked for, or where neither a name nor a refusal was
/// given.
pub proof fn scope_tells_what_was_asked_for(
    before: Seq<char>,
    name: Seq<char>,
    after: Seq<char>,
    all: Option<bool>,
)
    requires
        all_space(before),
        all_space(after),
        name.len() > 0,
        is_bare(name),
    ensures
        extension_of(extension_scope(Some(before + name + after), all)) == Some(name),
        extension_of(extension_scope(None, all)) is None,
        means_all_extensions(extension_scope(Some(before + name + after), all)) <==> all == Some(
            true,
        ),
        means_all_extensions(extension_scope(None, all)) <==> all != Some(false),
{
    value_counts_without_white_space(before, name, after);
}

/// The limit of the runner counts where it is given, and that of the execution only where it is not.
pub proof fn limit_of_the_runner_counts(execution: Option<u64>, runner: u64)
    ensures
        total_timeout(execution, Some(runner)) == Some(runner),
        total_timeout(execution, None) == execution,
{
}

/// A value that is blank is told as one that is not in order, and any other that is refused as one
/// that is not known. Either way it is the caller's.
pub proof fn blank_value_is_told_from_an_unknown_one(message: Seq<char>, field: Seq<char>)
    ensures
        raw_value_error(field + " must not be blank"@, field).code is InvalidArgument,
        message != field + " must not be blank"@ ==> raw_value_error(message, field).code
            is UnsupportedValue,
        raw_value_error(message, field).kind is Validation,
        raw_value_error(message, field).message == message,
{
}

/// A segment of a path is one name: not empty, neither the directory itself nor the one above it,
/// and without a character that separates.
pub proof fn segment_is_one_name(before: Seq<char>, c: char, after: Seq<char>, value: Seq<char>)
    ensures
        c == '/' || c == '\\' || c == ':' || c == '\0' ==> !is_safe_segment(
            before.push(c) + after,
        ),
        !is_safe_segment(Seq::empty()),
        !is_safe_segment("."@),
        !is_safe_segment(".."@),
        value.len() > 0 && value != "."@ && value != ".."@ && !value.contains('/')
            && !value.contains('\\') && !value.contains(':') && !value.contains('\0')
            ==> is_safe_segment(value),
{
    let text = before.push(c) + after;
    assert(text[before.len() as int] == c);
}

/// A word that names no mode is refused, in the caller's own words, under the field of the mode.
pub proof fn unknown_dump_mode_is_refused(request: McpDumpConfigRequestView, word: Seq<char>)
    requires
        normalized(request.mode) == Some(word),
        dump_mode_named(word) is None,
    ensures
        dump_request(request) is Err,
        ({
            let refused = dump_request(request)->Err_0;
            &&& refused is Business
            &&& refused->error.message == "unsupported dump mode: "@ + word
            &&& refused->error.code is UnsupportedValue && refused->error.kind is Validation
            &&& !refused->response.ok && refused->response.command == "dump"@
            &&& refused->response.data is Error
            &&& refused->response.data->Error_0.message == "unsupported dump mode: "@
                + request.mode->0
            &&& refused->response.data->Error_0.tool == "dump_config"@
            &&& refused->response.data->Error_0.field == Some("mode"@)
            &&& refused->response.data->Error_0.mode == Some(word)
            &&& refused->response.data->Error_0.errors == Some(
                seq!["unsupported dump mode: "@ + word],
            )
        }),
{
    reveal_strlit("unsupported dump mode: ");
    reveal_strlit("dump mode");
    let message = "unsupported dump mode: "@ + word;
    let blank = "dump mode"@ + " must not be blank"@;
    assert(message[0] == 'u' && blank[0] == 'd');
}

/// The runner of unit tests goes by one profile: its own name and kind, run by the enterprise, with
/// nothing set beside it; what a failed run leaves is kept, and what a good one leaves is not.
pub proof fn unit_tests_go_by_one_profile()
    ensures
        ({
            let e = yaxunit_execution();
            &&& e.profile.id == "yaxunit"@ && e.profile.kind is YaXUnit
            &&& e.profile.backend_hint == Some("enterprise"@)
            &&& e.client_mode is None && e.timeouts.total_seconds is None
            &&& e.policy.retain_artifacts_on_failure && !e.policy.retain_artifacts_on_success
        }),
{
}

} // verus!
