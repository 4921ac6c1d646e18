//! Requests, contexts and failures that the transports share.

use vstd::prelude::*;
use crate::text::{cat2, clone_opt, clone_texts, opt_text, opt_view, texts};
use crate::time::{Moment, Span};

verus! {

// ---------------------------------------------------------------------------------------------
// Context

/// Where a call comes from.
#[derive(Clone, Copy, Debug, PartialEq, Eq, Structural)]
pub enum ExecutionTransport {
    Cli,
    McpStdio,
    McpHttp,
}

/// Command that a call executes.
#[derive(Clone, Copy, Debug, PartialEq, Eq, Structural)]
pub enum CommandName {
    Build,
    Test,
    Dump,
    Launch,
    Syntax,
}

/// Name of a command.
pub open spec fn command_text(command: CommandName) -> Seq<char> {
    match command {
        CommandName::Build => "build"@,
        CommandName::Test => "test"@,
        CommandName::Dump => "dump"@,
        CommandName::Launch => "launch"@,
        CommandName::Syntax => "syntax"@,
    }
}

impl CommandName {
    /// Name of the command.
    pub fn as_str(self) -> (r: &'static str)
        ensures
            r@ == command_text(self),
    {
        match self {
            CommandName::Build => "build",
            CommandName::Test => "test",
            CommandName::Dump => "dump",
            CommandName::Launch => "launch",
            CommandName::Syntax => "syntax",
        }
    }
}

/// Circumstances of a call.
#[derive(Clone, Copy, Debug, PartialEq, Eq, Structural)]
pub struct ExecutionContext {
    pub command: CommandName,
    pub transport: ExecutionTransport,
    pub edt_timeout: Option<Span>,
    pub deadline: Option<Moment>,
}

impl ExecutionContext {
    /// Command of the call.
    pub fn command(&self) -> (r: CommandName)
        ensures
            r == self.command,
    {
        self.command
    }

    /// Origin of the call.
    pub fn transport(&self) -> (r: ExecutionTransport)
        ensures
            r == self.transport,
    {
        self.transport
    }
}

// ---------------------------------------------------------------------------------------------
// Failures

/// Class of a failure.
#[derive(Clone, Copy, Debug, PartialEq, Eq, Structural)]
pub enum UseCaseErrorKind {
    Validation,
    Runtime,
    Platform,
}

/// Failure of a command.
#[derive(Debug, PartialEq, Eq)]
pub struct UseCaseError {
    pub kind: UseCaseErrorKind,
    pub message: String,
}

/// Mathematical value of [`UseCaseError`].
pub struct UseCaseErrorView {
    pub kind: UseCaseErrorKind,
    pub message: Seq<char>,
}

impl View for UseCaseError {
    type V = UseCaseErrorView;

    open spec fn view(&self) -> UseCaseErrorView {
        UseCaseErrorView {
            kind: self.kind,
            message: self.message@,
        }
    }
}

impl Clone for UseCaseError {
    fn clone(&self) -> (r: Self)
        ensures
            r@ == self@,
    {
        UseCaseError {
            kind: self.kind,
            message: self.message.clone(),
        }
    }
}

/// Text shown for a failure.
pub open spec fn use_case_error_text(error: UseCaseErrorView) -> Seq<char> {
    match error.kind {
        UseCaseErrorKind::Validation => "validation error: "@ + error.message,
        UseCaseErrorKind::Runtime => "runtime error: "@ + error.message,
        UseCaseErrorKind::Platform => "platform error: "@ + error.message,
    }
}

impl UseCaseError {
    /// Failure with a message.
    pub fn new(kind: UseCaseErrorKind, message: &str) -> (r: Self)
        ensures
            r@ == (UseCaseErrorView { kind, message: message@ }),
    {
        UseCaseError { kind, message: message.to_owned() }
    }

    /// Class of the failure.
    pub fn kind(&self) -> (r: UseCaseErrorKind)
        ensures
            r == self.kind,
    {
        self.kind
    }

    /// Bare message.
    pub fn message(&self) -> (r: &str)
        ensures
            r@ == self@.message,
    {
        self.message.as_str()
    }

    /// Text shown to the user.
    pub fn text(&self) -> (r: String)
        ensures
            r@ == use_case_error_text(self@),
    {
        match self.kind {
            UseCaseErrorKind::Validation => cat2("validation error: ", self.message.as_str()),
            UseCaseErrorKind::Runtime => cat2("runtime error: ", self.message.as_str()),
            UseCaseErrorKind::Platform => cat2("platform error: ", self.message.as_str()),
        }
    }
}

/// Failure of a command, with what it had come to.
#[derive(Debug, PartialEq, Eq)]
pub struct UseCaseFailure<T> {
    pub error: UseCaseError,
    pub payload: Option<T>,
}

impl<T> UseCaseFailure<T> {
    /// Failure with a result.
    pub fn with_payload(error: UseCaseError, payload: T) -> (r: Self)
        ensures
            r.error == error,
            r.payload == Some(payload),
    {
        UseCaseFailure { error, payload: Some(payload) }
    }

    /// Failure without a result.
    pub fn without_payload(error: UseCaseError) -> (r: Self)
        ensures
            r.error == error,
            r.payload is None,
    {
        UseCaseFailure { error, payload: None }
    }
}

// ---------------------------------------------------------------------------------------------
// Requests

/// Request to build.
#[derive(Debug, PartialEq, Eq)]
pub struct BuildRequest {
    pub full_rebuild: bool,
    pub source_set: Option<String>,
    pub dynamic_update: Option<bool>,
}

/// Mathematical value of [`BuildRequest`].
pub struct BuildRequestView {
    pub full_rebuild: bool,
    pub source_set: Option<Seq<char>>,
    pub dynamic_update: Option<bool>,
}

impl View for BuildRequest {
    type V = BuildRequestView;

    open spec fn view(&self) -> BuildRequestView {
        BuildRequestView {
            full_rebuild: self.full_rebuild,
            source_set: opt_text(self.source_set),
            dynamic_update: self.dynamic_update,
        }
    }
}

impl Clone for BuildRequest {
    fn clone(&self) -> (r: Self)
        ensures
            r@ == self@,
    {
        BuildRequest {
            full_rebuild: self.full_rebuild,
            source_set: clone_opt(&self.source_set),
            dynamic_update: self.dynamic_update,
        }
    }
}

/// What is to be dumped.
#[derive(Clone, Copy, Debug, PartialEq, Eq, Structural)]
pub enum DumpModeRequest {
    Full,
    Incremental,
    Partial,
}

/// Request to dump.
#[derive(Debug, PartialEq, Eq)]
pub struct DumpRequest {
    pub mode: DumpModeRequest,
    pub source_set: Option<String>,
    pub extension: Option<String>,
    pub objects: Vec<String>,
}

/// Mathematical value of [`DumpRequest`].
pub struct DumpRequestView {
    pub mode: DumpModeRequest,
    pub source_set: Option<Seq<char>>,
    pub extension: Option<Seq<char>>,
    pub objects: Seq<Seq<char>>,
}

impl View for DumpRequest {
    type V = DumpRequestView;

    open spec fn view(&self) -> DumpRequestView {
        DumpRequestView {
            mode: self.mode,
            source_set: opt_text(self.source_set),
            extension: opt_text(self.extension),
            objects: texts(self.objects@),
        }
    }
}

impl Clone for DumpRequest {
    fn clone(&self) -> (r: Self)
        ensures
            r@ == self@,
    {
        DumpRequest {
            mode: self.mode,
            source_set: clone_opt(&self.source_set),
            extension: clone_opt(&self.extension),
            objects: clone_texts(&self.objects),
        }
    }
}

/// Client in which the client MCP server runs.
#[derive(Clone, Copy, Debug, PartialEq, Eq, Structural)]
pub enum ClientMcpMode {
    Thin,
    Thick,
    Ordinary,
}

/// What is to be launched.
#[derive(Clone, Copy, Debug, PartialEq, Eq, Structural)]
pub enum LaunchTargetRequest {
    Designer,
    ThinClient,
    ThickClient,
    ClientMcp { mode: ClientMcpMode },
}

impl LaunchTargetRequest {
    /// The Designer.
    pub fn designer() -> (r: Self)
        ensures
            r == LaunchTargetRequest::Designer,
    {
        LaunchTargetRequest::Designer
    }

    /// The thin client.
    pub fn thin_client() -> (r: Self)
        ensures
            r == LaunchTargetRequest::ThinClient,
    {
        LaunchTargetRequest::ThinClient
    }

    /// The thick client.
    pub fn thick_client() -> (r: Self)
        ensures
            r == LaunchTargetRequest::ThickClient,
    {
        LaunchTargetRequest::ThickClient
    }

    /// The client MCP server.
    pub fn client_mcp_with_mode(mode: ClientMcpMode) -> (r: Self)
        ensures
            r == (LaunchTargetRequest::ClientMcp { mode }),
    {
        LaunchTargetRequest::ClientMcp { mode }
    }
}

/// Keys of a launch.
#[derive(Debug, Default, PartialEq, Eq)]
pub struct LaunchOptions {
    pub c: Option<String>,
    pub execute: Option<String>,
    pub use_privileged_mode: bool,
    pub raw_keys: Vec<String>,
}

/// Mathematical value of [`LaunchOptions`].
pub struct LaunchOptionsView {
    pub c: Option<Seq<char>>,
    pub execute: Option<Seq<char>>,
    pub use_privileged_mode: bool,
    pub raw_keys: Seq<Seq<char>>,
}

impl View for LaunchOptions {
    type V = LaunchOptionsView;

    open spec fn view(&self) -> LaunchOptionsView {
        LaunchOptionsView {
            c: opt_text(self.c),
            execute: opt_text(self.execute),
            use_privileged_mode: self.use_privileged_mode,
            raw_keys: texts(self.raw_keys@),
        }
    }
}

impl Clone for LaunchOptions {
    fn clone(&self) -> (r: Self)
        ensures
            r@ == self@,
    {
        LaunchOptions {
            c: clone_opt(&self.c),
            execute: clone_opt(&self.execute),
            use_privileged_mode: self.use_privileged_mode,
            raw_keys: clone_texts(&self.raw_keys),
        }
    }
}

/// No keys.
pub open spec fn no_launch_options() -> LaunchOptionsView {
    LaunchOptionsView { c: None, execute: None, use_privileged_mode: false, raw_keys: Seq::empty() }
}

impl LaunchOptions {
    /// No keys.
    pub fn none() -> (r: Self)
        ensures
            r@ == no_launch_options(),
    {
        let raw_keys: Vec<String> = Vec::new();
        assert(texts(raw_keys@) =~= Seq::<Seq<char>>::empty());
        LaunchOptions { c: None, execute: None, use_privileged_mode: false, raw_keys }
    }
}

/// Scenario added to the client MCP server.
#[derive(Clone, Copy, Debug, PartialEq, Eq, Structural)]
pub enum ClientMcpAddonRequest {
    VanessaAutomation,
}

/// Settings of the client MCP server.
#[derive(Debug, PartialEq, Eq)]
pub struct ClientMcpOptionsRequest {
    pub config_path: Option<String>,
    pub port: Option<u16>,
    pub addon: Option<ClientMcpAddonRequest>,
    pub wait_ready: bool,
}

/// Mathematical value of [`ClientMcpOptionsRequest`].
pub struct ClientMcpOptionsRequestView {
    pub config_path: Option<Seq<char>>,
    pub port: Option<u16>,
    pub addon: Option<ClientMcpAddonRequest>,
    pub wait_ready: bool,
}

impl View for ClientMcpOptionsRequest {
    type V = ClientMcpOptionsRequestView;

    open spec fn view(&self) -> ClientMcpOptionsRequestView {
        ClientMcpOptionsRequestView {
            config_path: opt_text(self.config_path),
            port: self.port,
            addon: self.addon,
            wait_ready: self.wait_ready,
        }
    }
}

impl Clone for ClientMcpOptionsRequest {
    fn clone(&self) -> (r: Self)
        ensures
            r@ == self@,
    {
        ClientMcpOptionsRequest {
            config_path: clone_opt(&self.config_path),
            port: self.port,
            addon: self.addon,
            wait_ready: self.wait_ready,
        }
    }
}

/// Request to launch.
#[derive(Debug, PartialEq, Eq)]
pub struct LaunchRequest {
    pub target: LaunchTargetRequest,
    pub launch: LaunchOptions,
    pub client_mcp: Option<ClientMcpOptionsRequest>,
}

/// Mathematical value of [`LaunchRequest`].
pub struct LaunchRequestView {
    pub target: LaunchTargetRequest,
    pub launch: LaunchOptionsView,
    pub client_mcp: Option<ClientMcpOptionsRequestView>,
}

impl View for LaunchRequest {
    type V = LaunchRequestView;

    open spec fn view(&self) -> LaunchRequestView {
        LaunchRequestView {
            target: self.target,
            launch: self.launch@,
            client_mcp: opt_view(self.client_mcp),
        }
    }
}

impl Clone for LaunchRequest {
    fn clone(&self) -> (r: Self)
        ensures
            r@ == self@,
    {
        LaunchRequest {
            target: self.target,
            launch: self.launch.clone(),
            client_mcp: (match &self.client_mcp { Some(x) => Some(x.clone()), None => None }),
        }
    }
}

/// Test runner.
#[derive(Clone, Copy, Debug, PartialEq, Eq, Structural)]
pub enum RunnerKind {
    YaXUnit,
    Vanessa,
}

/// What a runner writes.
#[derive(Clone, Copy, Debug, PartialEq, Eq, Structural)]
pub enum RunnerOutputFormat {
    JunitXml,
    PlainTextLog,
}

/// Profile of a runner.
#[derive(Debug, PartialEq, Eq)]
pub struct RunnerProfile {
    pub id: String,
    pub kind: RunnerKind,
    pub output_formats: Vec<RunnerOutputFormat>,
    pub backend_hint: Option<String>,
}

/// Mathematical value of [`RunnerProfile`].
pub struct RunnerProfileView {
    pub id: Seq<char>,
    pub kind: RunnerKind,
    pub output_formats: Seq<RunnerOutputFormat>,
    pub backend_hint: Option<Seq<char>>,
}

impl View for RunnerProfile {
    type V = RunnerProfileView;

    open spec fn view(&self) -> RunnerProfileView {
        RunnerProfileView {
            id: self.id@,
            kind: self.kind,
            output_formats: self.output_formats@,
            backend_hint: opt_text(self.backend_hint),
        }
    }
}

/// Client in which the tests run.
#[derive(Clone, Copy, Debug, PartialEq, Eq, Structural)]
pub enum LaunchClientModeRequest {
    Thin,
    Thick,
    Ordinary,
}

/// Limits on a run.
#[derive(Clone, Copy, Debug, PartialEq, Eq, Structural)]
pub struct ScenarioTimeouts {
    pub total_seconds: Option<u64>,
}

/// Limit of a test run: that of the runner, or else that of the whole execution.
pub open spec fn total_timeout(
    execution_timeout_seconds: Option<u64>,
    runner_seconds: Option<u64>,
) -> Option<u64> {
    match runner_seconds {
        Some(s) => Some(s),
        None => execution_timeout_seconds,
    }
}

/// Limit of the runner where it has one, else that of all tests.
pub fn effective_test_timeouts(
    execution_timeout_seconds: Option<u64>,
    runner_seconds: Option<u64>,
) -> (r: ScenarioTimeouts)
    ensures
        r.total_seconds == total_timeout(execution_timeout_seconds, runner_seconds),
{
    ScenarioTimeouts {
        total_seconds: match runner_seconds {
            Some(s) => Some(s),
            None => execution_timeout_seconds,
        },
    }
}

/// What becomes of the files of a run.
#[derive(Clone, Copy, Debug, PartialEq, Eq, Structural)]
pub struct RetentionPolicy {
    pub retain_artifacts_on_failure: bool,
    pub retain_artifacts_on_success: bool,
}

/// How the tests are executed.
#[derive(Debug, PartialEq, Eq)]
pub struct ScenarioExecutionRequest {
    pub profile: RunnerProfile,
    pub client_mode: Option<LaunchClientModeRequest>,
    pub timeouts: ScenarioTimeouts,
    pub policy: RetentionPolicy,
    pub launch: LaunchOptions,
}

/// Mathematical value of [`ScenarioExecutionRequest`].
pub struct ScenarioExecutionRequestView {
    pub profile: RunnerProfileView,
    pub client_mode: Option<LaunchClientModeRequest>,
    pub timeouts: ScenarioTimeouts,
    pub policy: RetentionPolicy,
    pub launch: LaunchOptionsView,
}

impl View for ScenarioExecutionRequest {
    type V = ScenarioExecutionRequestView;

    open spec fn view(&self) -> ScenarioExecutionRequestView {
        ScenarioExecutionRequestView {
            profile: self.profile@,
            client_mode: self.client_mode,
            timeouts: self.timeouts,
            policy: self.policy,
            launch: self.launch@,
        }
    }
}

/// Which tests are executed.
#[derive(Debug, PartialEq, Eq)]
pub enum TestScopeRequest {
    All,
    Module { name: String },
}

/// Mathematical value of [`TestScopeRequest`].
pub enum TestScopeRequestView {
    All,
    Module { name: Seq<char> },
}

impl View for TestScopeRequest {
    type V = TestScopeRequestView;

    open spec fn view(&self) -> TestScopeRequestView {
        match *self {
            TestScopeRequest::All => TestScopeRequestView::All,
            TestScopeRequest::Module { name } => TestScopeRequestView::Module { name: name@ },
        }
    }
}

/// Request to run tests.
#[derive(Debug, PartialEq, Eq)]
pub struct TestRequest {
    pub execution: ScenarioExecutionRequest,
    pub full: bool,
    pub scope: TestScopeRequest,
}

/// Mathematical value of [`TestRequest`].
pub struct TestRequestView {
    pub execution: ScenarioExecutionRequestView,
    pub full: bool,
    pub scope: TestScopeRequestView,
}

impl View for TestRequest {
    type V = TestRequestView;

    open spec fn view(&self) -> TestRequestView {
        TestRequestView {
            execution: self.execution@,
            full: self.full,
            scope: self.scope@,
        }
    }
}

/// Both kinds of output.
pub open spec fn all_output_formats() -> Seq<RunnerOutputFormat> {
    seq![RunnerOutputFormat::JunitXml, RunnerOutputFormat::PlainTextLog]
}

/// List of both kinds of output.
pub fn output_formats() -> (r: Vec<RunnerOutputFormat>)
    ensures
        r@ == all_output_formats(),
{
    let mut out: Vec<RunnerOutputFormat> = Vec::new();
    out.push(RunnerOutputFormat::JunitXml);
    out.push(RunnerOutputFormat::PlainTextLog);
    out
}

/// Execution by YAxUnit.
pub open spec fn yaxunit_execution() -> ScenarioExecutionRequestView {
    ScenarioExecutionRequestView {
        profile: RunnerProfileView {
            id: "yaxunit"@,
            kind: RunnerKind::YaXUnit,
            output_formats: all_output_formats(),
            backend_hint: Some("enterprise"@),
        },
        client_mode: None,
        timeouts: ScenarioTimeouts { total_seconds: None },
        policy: RetentionPolicy {
            retain_artifacts_on_failure: true,
            retain_artifacts_on_success: false,
        },
        launch: no_launch_options(),
    }
}

impl TestRequest {
    /// Execution by YAxUnit.
    pub fn default_execution() -> (r: ScenarioExecutionRequest)
        ensures
            r@ == yaxunit_execution(),
    {
        ScenarioExecutionRequest {
            profile: RunnerProfile {
                id: "yaxunit".to_owned(),
                kind: RunnerKind::YaXUnit,
                output_formats: output_formats(),
                backend_hint: Some("enterprise".to_owned()),
            },
            client_mode: None,
            timeouts: ScenarioTimeouts { total_seconds: None },
            policy: RetentionPolicy {
                retain_artifacts_on_failure: true,
                retain_artifacts_on_success: false,
            },
            launch: LaunchOptions::none(),
        }
    }
}

// ---------------------------------------------------------------------------------------------
// Syntax checks

/// Client in whose context the modules are checked.
#[derive(Clone, Copy, Debug, PartialEq, Eq, Structural)]
pub enum DesignerClientScope {
    ThinClient,
    WebClient,
    MobileClient,
    Server,
    ExternalConnection,
    ExternalConnectionServer,
    MobileAppClient,
    MobileAppServer,
    ThickClientManagedApplication,
    ThickClientServerManagedApplication,
    ThickClientOrdinaryApplication,
    ThickClientServerOrdinaryApplication,
}

/// Check of the configuration.
#[derive(Clone, Copy, Debug, PartialEq, Eq, Structural)]
pub enum DesignerConfigCheck {
    ConfigLogIntegrity,
    IncorrectReferences,
    MobileClientDigiSign,
    DistributiveModules,
    UnreferenceProcedures,
    HandlersExistence,
    EmptyHandlers,
    UnsupportedFunctional,
}

/// Extended check of the modules.
#[derive(Clone, Copy, Debug, PartialEq, Eq, Structural)]
pub struct ExtendedModulesPolicy {
    pub enabled: bool,
    pub check_use_synchronous_calls: bool,
    pub check_use_modality: bool,
}

/// Extended check from its flags. It is on unless it is switched off, and the two checks that are
/// part of it cannot be asked for where it is off.
pub open spec fn extended_from_flags(
    extended: Option<bool>,
    synchronous: Option<bool>,
    modality: Option<bool>,
) -> Result<ExtendedModulesPolicy, Seq<char>> {
    let enabled = extended != Some(false);
    if !enabled && synchronous == Some(true) {
        Err("checkUseSynchronousCalls requires extendedModulesCheck=true"@)
    } else if !enabled && modality == Some(true) {
        Err("checkUseModality requires extendedModulesCheck=true"@)
    } else {
        Ok(
            ExtendedModulesPolicy {
                enabled,
                check_use_synchronous_calls: synchronous == Some(true),
                check_use_modality: modality == Some(true),
            },
        )
    }
}

impl ExtendedModulesPolicy {
    /// Extended check without its additional checks.
    pub fn basic(enabled: bool) -> (r: Self)
        ensures
            r == (ExtendedModulesPolicy {
                enabled,
                check_use_synchronous_calls: false,
                check_use_modality: false,
            }),
    {
        ExtendedModulesPolicy {
            enabled,
            check_use_synchronous_calls: false,
            check_use_modality: false,
        }
    }

    /// Extended check from its flags.
    pub fn from_mcp_flags(
        extended: Option<bool>,
        synchronous: Option<bool>,
        modality: Option<bool>,
    ) -> (r: Result<Self, UseCaseError>)
        ensures
            match r {
                Ok(p) => extended_from_flags(extended, synchronous, modality) == Ok::<
                    ExtendedModulesPolicy,
                    Seq<char>,
                >(p),
                Err(e) => e@.kind == UseCaseErrorKind::Validation && extended_from_flags(
                    extended,
                    synchronous,
                    modality,
                ) == Err::<ExtendedModulesPolicy, Seq<char>>(e@.message),
            },
    {
        let enabled = is_not_off(extended);
        let sync_calls = is_on(synchronous);
        let modal = is_on(modality);
        if !enabled && sync_calls {
            return Err(
                UseCaseError::new(
                    UseCaseErrorKind::Validation,
                    "checkUseSynchronousCalls requires extendedModulesCheck=true",
                ),
            );
        }
        if !enabled && modal {
            return Err(
                UseCaseError::new(
                    UseCaseErrorKind::Validation,
                    "checkUseModality requires extendedModulesCheck=true",
                ),
            );
        }
        Ok(
            ExtendedModulesPolicy {
                enabled,
                check_use_synchronous_calls: sync_calls,
                check_use_modality: modal,
            },
        )
    }

    /// Whether the extended check is on.
    pub fn is_enabled(&self) -> (r: bool)
        ensures
            r == self.enabled,
    {
        self.enabled
    }
}

/// The flag is given and set.
pub fn is_on(flag: Option<bool>) -> (r: bool)
    ensures
        r == (flag == Some(true)),
{
    match flag {
        Some(value) => value,
        None => false,
    }
}

/// The flag is absent or set.
pub fn is_not_off(flag: Option<bool>) -> (r: bool)
    ensures
        r == (flag != Some(false)),
{
    match flag {
        Some(value) => value,
        None => true,
    }
}

/// Which parts of the infobase are checked.
#[derive(Debug, PartialEq, Eq)]
pub enum SyntaxExtensionScope {
    MainConfiguration,
    AllExtensions,
    SingleExtension { name: String },
    SingleExtensionAndAll { name: String },
}

/// Mathematical value of [`SyntaxExtensionScope`].
pub enum SyntaxExtensionScopeView {
    MainConfiguration,
    AllExtensions,
    SingleExtension { name: Seq<char> },
    SingleExtensionAndAll { name: Seq<char> },
}

/// Extension that the scope names.
pub open spec fn extension_of(scope: SyntaxExtensionScopeView) -> Option<Seq<char>> {
    match scope {
        SyntaxExtensionScopeView::SingleExtension { name } => Some(name),
        SyntaxExtensionScopeView::SingleExtensionAndAll { name } => Some(name),
        SyntaxExtensionScopeView::MainConfiguration => None,
        SyntaxExtensionScopeView::AllExtensions => None,
    }
}

/// The scope takes in all extensions.
pub open spec fn means_all_extensions(scope: SyntaxExtensionScopeView) -> bool {
    scope is AllExtensions || scope is SingleExtensionAndAll
}

impl View for SyntaxExtensionScope {
    type V = SyntaxExtensionScopeView;

    open spec fn view(&self) -> SyntaxExtensionScopeView {
        match *self {
            SyntaxExtensionScope::MainConfiguration => SyntaxExtensionScopeView::MainConfiguration,
            SyntaxExtensionScope::AllExtensions => SyntaxExtensionScopeView::AllExtensions,
            SyntaxExtensionScope::SingleExtension {
                name,
            } => SyntaxExtensionScopeView::SingleExtension {
                name: name@,
            },
            SyntaxExtensionScope::SingleExtensionAndAll {
                name,
            } => SyntaxExtensionScopeView::SingleExtensionAndAll {
                name: name@,
            },
        }
    }
}

impl SyntaxExtensionScope {
    /// Extension that is named.
    pub fn extension(&self) -> (r: Option<&str>)
        ensures
            match r {
                Some(s) => extension_of(self@) == Some(s@),
                None => extension_of(self@) is None,
            },
    {
        match self {
            SyntaxExtensionScope::SingleExtension { name } => Some(name.as_str()),
            SyntaxExtensionScope::SingleExtensionAndAll { name } => Some(name.as_str()),
            _ => None,
        }
    }

    /// Whether all extensions are checked.
    pub fn includes_all_extensions(&self) -> (r: bool)
        ensures
            r == means_all_extensions(self@),
    {
        match self {
            SyntaxExtensionScope::AllExtensions => true,
            SyntaxExtensionScope::SingleExtensionAndAll { .. } => true,
            _ => false,
        }
    }
}

/// Whether the list holds the scope.
fn has_scope(scopes: &Vec<DesignerClientScope>, scope: DesignerClientScope) -> (r: bool)
    ensures
        r == scopes@.contains(scope),
{
    let mut i: usize = 0;
    while i < scopes.len()
        invariant
            i <= scopes.len(),
            forall|k: int| 0 <= k < i ==> scopes@[k] != scope,
        decreases scopes.len() - i,
    {
        if scopes[i] == scope {
            assert(scopes@[i as int] == scope);
            return true;
        }
        i += 1;
    }
    false
}

/// Check of the configuration by the Designer.
#[derive(Debug, PartialEq, Eq)]
pub struct DesignerConfigSyntaxRequest {
    pub checks: Vec<DesignerConfigCheck>,
    pub scopes: Vec<DesignerClientScope>,
    pub extended_modules: ExtendedModulesPolicy,
    pub extension_scope: SyntaxExtensionScope,
}

/// Mathematical value of [`DesignerConfigSyntaxRequest`].
pub struct DesignerConfigSyntaxRequestView {
    pub checks: Seq<DesignerConfigCheck>,
    pub scopes: Seq<DesignerClientScope>,
    pub extended_modules: ExtendedModulesPolicy,
    pub extension_scope: SyntaxExtensionScopeView,
}

impl View for DesignerConfigSyntaxRequest {
    type V = DesignerConfigSyntaxRequestView;

    open spec fn view(&self) -> DesignerConfigSyntaxRequestView {
        DesignerConfigSyntaxRequestView {
            checks: self.checks@,
            scopes: self.scopes@,
            extended_modules: self.extended_modules,
            extension_scope: self.extension_scope@,
        }
    }
}

impl DesignerConfigSyntaxRequest {
    /// Whether the modules are checked in the client's context.
    pub fn has_client_scope(&self, scope: DesignerClientScope) -> (r: bool)
        ensures
            r == self@.scopes.contains(scope),
    {
        has_scope(&self.scopes, scope)
    }

    /// Extended check.
    pub fn extended_modules(&self) -> (r: ExtendedModulesPolicy)
        ensures
            r == self.extended_modules,
    {
        self.extended_modules
    }

    /// Parts of the infobase.
    pub fn extension_scope(&self) -> (r: &SyntaxExtensionScope)
        ensures
            *r == self.extension_scope,
    {
        &self.extension_scope
    }
}

/// Check of the modules by the Designer.
#[derive(Debug, PartialEq, Eq)]
pub struct DesignerModulesSyntaxRequest {
    pub scopes: Vec<DesignerClientScope>,
    pub extended_modules: ExtendedModulesPolicy,
    pub extension_scope: SyntaxExtensionScope,
}

/// Mathematical value of [`DesignerModulesSyntaxRequest`].
pub struct DesignerModulesSyntaxRequestView {
    pub scopes: Seq<DesignerClientScope>,
    pub extended_modules: ExtendedModulesPolicy,
    pub extension_scope: SyntaxExtensionScopeView,
}

impl View for DesignerModulesSyntaxRequest {
    type V = DesignerModulesSyntaxRequestView;

    open spec fn view(&self) -> DesignerModulesSyntaxRequestView {
        DesignerModulesSyntaxRequestView {
            scopes: self.scopes@,
            extended_modules: self.extended_modules,
            extension_scope: self.extension_scope@,
        }
    }
}

impl DesignerModulesSyntaxRequest {
    /// Check of the modules; one that checks nothing is refused.
    pub fn new(
        scopes: Vec<DesignerClientScope>,
        extended_modules: ExtendedModulesPolicy,
        extension_scope: SyntaxExtensionScope,
    ) -> (r: Result<Self, UseCaseError>)
        ensures
            match r {
                Ok(x) => (scopes@.len() > 0 || extended_modules.enabled) && x@ == (
                DesignerModulesSyntaxRequestView {
                    scopes: scopes@,
                    extended_modules,
                    extension_scope: extension_scope@,
                }),
                Err(e) => scopes@.len() == 0 && !extended_modules.enabled && e@ == (
                UseCaseErrorView {
                    kind: UseCaseErrorKind::Validation,
                    message: "no syntax modes selected"@,
                }),
            },
    {
        if scopes.len() == 0 && !extended_modules.enabled {
            return Err(
                UseCaseError::new(UseCaseErrorKind::Validation, "no syntax modes selected"),
            );
        }
        Ok(DesignerModulesSyntaxRequest { scopes, extended_modules, extension_scope })
    }

    /// Whether the modules are checked in the client's context.
    pub fn has_client_scope(&self, scope: DesignerClientScope) -> (r: bool)
        ensures
            r == self@.scopes.contains(scope),
    {
        has_scope(&self.scopes, scope)
    }

    /// Parts of the infobase.
    pub fn extension_scope(&self) -> (r: &SyntaxExtensionScope)
        ensures
            *r == self.extension_scope,
    {
        &self.extension_scope
    }
}

/// What is checked.
#[derive(Debug, PartialEq, Eq)]
pub enum SyntaxTargetRequest {
    Edt { projects: Vec<String> },
    DesignerConfig(DesignerConfigSyntaxRequest),
    DesignerModules(DesignerModulesSyntaxRequest),
}

/// Mathematical value of [`SyntaxTargetRequest`].
pub enum SyntaxTargetRequestView {
    Edt { projects: Seq<Seq<char>> },
    DesignerConfig(DesignerConfigSyntaxRequestView),
    DesignerModules(DesignerModulesSyntaxRequestView),
}

impl View for SyntaxTargetRequest {
    type V = SyntaxTargetRequestView;

    open spec fn view(&self) -> SyntaxTargetRequestView {
        match *self {
            SyntaxTargetRequest::Edt { projects } => SyntaxTargetRequestView::Edt {
                projects: texts(projects@),
            },
            SyntaxTargetRequest::DesignerConfig(x0) => SyntaxTargetRequestView::DesignerConfig(x0@),
            SyntaxTargetRequest::DesignerModules(x0) => SyntaxTargetRequestView::DesignerModules(
                x0@,
            ),
        }
    }
}

/// Request to check the syntax.
#[derive(Debug, PartialEq, Eq)]
pub struct SyntaxRequest {
    pub target: SyntaxTargetRequest,
}

/// Mathematical value of [`SyntaxRequest`].
pub struct SyntaxRequestView {
    pub target: SyntaxTargetRequestView,
}

impl View for SyntaxRequest {
    type V = SyntaxRequestView;

    open spec fn view(&self) -> SyntaxRequestView {
        SyntaxRequestView {
            target: self.target@,
        }
    }
}

} // verus!
