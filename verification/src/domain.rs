//! Results of the commands: issues, builds, dumps, launches, test runs.

use vstd::prelude::*;
use crate::text::{opt_text, opt_view, texts, views};

verus! {

// ---------------------------------------------------------------------------------------------
// Issues

/// How serious an issue is.
#[derive(Clone, Copy, Debug, PartialEq, Eq, Structural)]
pub enum IssueSeverity {
    Error,
    Warning,
    Info,
}

/// Issue in the text of a module.
#[derive(Debug, PartialEq, Eq)]
pub struct ModuleIssue {
    pub path: String,
    pub line: Option<u32>,
    pub column: Option<u32>,
    pub message: String,
    pub severity: IssueSeverity,
}

/// Mathematical value of [`ModuleIssue`].
pub struct ModuleIssueView {
    pub path: Seq<char>,
    pub line: Option<u32>,
    pub column: Option<u32>,
    pub message: Seq<char>,
    pub severity: IssueSeverity,
}

impl View for ModuleIssue {
    type V = ModuleIssueView;

    open spec fn view(&self) -> ModuleIssueView {
        ModuleIssueView {
            path: self.path@,
            line: self.line,
            column: self.column,
            message: self.message@,
            severity: self.severity,
        }
    }
}

/// Issue of a configuration object.
#[derive(Debug, PartialEq, Eq)]
pub struct ObjectIssue {
    pub object: String,
    pub message: String,
    pub severity: IssueSeverity,
}

/// Mathematical value of [`ObjectIssue`].
pub struct ObjectIssueView {
    pub object: Seq<char>,
    pub message: Seq<char>,
    pub severity: IssueSeverity,
}

impl View for ObjectIssue {
    type V = ObjectIssueView;

    open spec fn view(&self) -> ObjectIssueView {
        ObjectIssueView {
            object: self.object@,
            message: self.message@,
            severity: self.severity,
        }
    }
}

/// Issue that EDT reports.
#[derive(Debug, PartialEq, Eq)]
pub struct EdtIssue {
    pub path: String,
    pub line: Option<u32>,
    pub column: Option<u32>,
    pub message: String,
    pub severity: IssueSeverity,
    pub check: Option<String>,
}

/// Mathematical value of [`EdtIssue`].
pub struct EdtIssueView {
    pub path: Seq<char>,
    pub line: Option<u32>,
    pub column: Option<u32>,
    pub message: Seq<char>,
    pub severity: IssueSeverity,
    pub check: Option<Seq<char>>,
}

impl View for EdtIssue {
    type V = EdtIssueView;

    open spec fn view(&self) -> EdtIssueView {
        EdtIssueView {
            path: self.path@,
            line: self.line,
            column: self.column,
            message: self.message@,
            severity: self.severity,
            check: opt_text(self.check),
        }
    }
}

/// Issue found by a syntax check.
#[derive(Debug, PartialEq, Eq)]
pub enum Issue {
    Module(ModuleIssue),
    Object(ObjectIssue),
    Edt(EdtIssue),
}

/// Mathematical value of [`Issue`].
pub enum IssueView {
    Module(ModuleIssueView),
    Object(ObjectIssueView),
    Edt(EdtIssueView),
}

impl View for Issue {
    type V = IssueView;

    open spec fn view(&self) -> IssueView {
        match *self {
            Issue::Module(x0) => IssueView::Module(x0@),
            Issue::Object(x0) => IssueView::Object(x0@),
            Issue::Edt(x0) => IssueView::Edt(x0@),
        }
    }
}

/// Severity of an issue.
pub open spec fn severity_of(issue: IssueView) -> IssueSeverity {
    match issue {
        IssueView::Module(i) => i.severity,
        IssueView::Object(i) => i.severity,
        IssueView::Edt(i) => i.severity,
    }
}

/// Severity of an issue.
pub fn issue_severity(issue: &Issue) -> (r: IssueSeverity)
    ensures
        r == severity_of(issue@),
{
    match issue {
        Issue::Module(i) => i.severity,
        Issue::Object(i) => i.severity,
        Issue::Edt(i) => i.severity,
    }
}

// ---------------------------------------------------------------------------------------------
// Syntax checks

/// Outcome of a syntax check.
#[derive(Clone, Copy, Debug, PartialEq, Eq, Structural)]
pub enum SyntaxCheckStatus {
    Clean,
    IssuesFound,
    ToolFailed,
}

/// Name of a status in reports.
pub open spec fn status_name(status: SyntaxCheckStatus) -> Seq<char> {
    match status {
        SyntaxCheckStatus::Clean => "clean"@,
        SyntaxCheckStatus::IssuesFound => "issues_found"@,
        SyntaxCheckStatus::ToolFailed => "tool_failed"@,
    }
}

impl SyntaxCheckStatus {
    /// Name of the status in reports.
    pub fn as_str(self) -> (r: &'static str)
        ensures
            r@ == status_name(self),
    {
        match self {
            SyntaxCheckStatus::Clean => "clean",
            SyntaxCheckStatus::IssuesFound => "issues_found",
            SyntaxCheckStatus::ToolFailed => "tool_failed",
        }
    }
}

/// Numbers of issues by severity.
#[derive(Clone, Copy, Debug, PartialEq, Eq, Structural)]
pub struct SyntaxIssueSummary {
    pub errors: usize,
    pub warnings: usize,
    pub info: usize,
}

/// Result of a syntax check.
#[derive(Debug, PartialEq, Eq)]
pub struct SyntaxCheckResult {
    pub status: SyntaxCheckStatus,
    pub exit_code: i32,
    pub check_name: String,
    pub issues: Vec<Issue>,
    pub summary: SyntaxIssueSummary,
    pub duration_ms: u64,
    pub platform_log_path: Option<String>,
    pub stderr: Option<String>,
    pub log_read_warning: Option<String>,
}

/// Mathematical value of [`SyntaxCheckResult`].
pub struct SyntaxCheckResultView {
    pub status: SyntaxCheckStatus,
    pub exit_code: i32,
    pub check_name: Seq<char>,
    pub issues: Seq<IssueView>,
    pub summary: SyntaxIssueSummary,
    pub duration_ms: u64,
    pub platform_log_path: Option<Seq<char>>,
    pub stderr: Option<Seq<char>>,
    pub log_read_warning: Option<Seq<char>>,
}

impl View for SyntaxCheckResult {
    type V = SyntaxCheckResultView;

    open spec fn view(&self) -> SyntaxCheckResultView {
        SyntaxCheckResultView {
            status: self.status,
            exit_code: self.exit_code,
            check_name: self.check_name@,
            issues: views(self.issues@),
            summary: self.summary,
            duration_ms: self.duration_ms,
            platform_log_path: opt_text(self.platform_log_path),
            stderr: opt_text(self.stderr),
            log_read_warning: opt_text(self.log_read_warning),
        }
    }
}

// ---------------------------------------------------------------------------------------------
// Builds, dumps, launches

/// How a source-set is built.
#[derive(Clone, Copy, Debug, PartialEq, Eq, Structural)]
pub enum BuildMode {
    Full,
    Partial,
    Skipped,
}

impl BuildMode {
    /// Name of the mode in reports.
    pub fn as_str(self) -> (r: &'static str)
        ensures
            r@ == (match self {
                BuildMode::Full => "full"@,
                BuildMode::Partial => "partial"@,
                BuildMode::Skipped => "skipped"@,
            }),
    {
        match self {
            BuildMode::Full => "full",
            BuildMode::Partial => "partial",
            BuildMode::Skipped => "skipped",
        }
    }
}

/// Build of one source-set.
#[derive(Debug, PartialEq, Eq)]
pub struct BuildStep {
    pub source_set: String,
    pub mode: BuildMode,
    pub ok: bool,
    pub message: Option<String>,
    pub duration_ms: u64,
}

/// Mathematical value of [`BuildStep`].
pub struct BuildStepView {
    pub source_set: Seq<char>,
    pub mode: BuildMode,
    pub ok: bool,
    pub message: Option<Seq<char>>,
    pub duration_ms: u64,
}

impl View for BuildStep {
    type V = BuildStepView;

    open spec fn view(&self) -> BuildStepView {
        BuildStepView {
            source_set: self.source_set@,
            mode: self.mode,
            ok: self.ok,
            message: opt_text(self.message),
            duration_ms: self.duration_ms,
        }
    }
}

/// Result of a build.
#[derive(Debug, PartialEq, Eq)]
pub struct BuildResult {
    pub ok: bool,
    pub steps: Vec<BuildStep>,
    pub duration_ms: u64,
}

/// Mathematical value of [`BuildResult`].
pub struct BuildResultView {
    pub ok: bool,
    pub steps: Seq<BuildStepView>,
    pub duration_ms: u64,
}

impl View for BuildResult {
    type V = BuildResultView;

    open spec fn view(&self) -> BuildResultView {
        BuildResultView {
            ok: self.ok,
            steps: views(self.steps@),
            duration_ms: self.duration_ms,
        }
    }
}

/// What is dumped.
#[derive(Clone, Copy, Debug, PartialEq, Eq, Structural)]
pub enum DumpMode {
    Full,
    Incremental,
    Partial,
}

/// Name of a dump mode in reports.
pub open spec fn dump_mode_name(mode: DumpMode) -> Seq<char> {
    match mode {
        DumpMode::Full => "FULL"@,
        DumpMode::Incremental => "INCREMENTAL"@,
        DumpMode::Partial => "PARTIAL"@,
    }
}

impl DumpMode {
    /// Name of the mode in reports.
    pub fn as_str(self) -> (r: &'static str)
        ensures
            r@ == dump_mode_name(self),
    {
        match self {
            DumpMode::Full => "FULL",
            DumpMode::Incremental => "INCREMENTAL",
            DumpMode::Partial => "PARTIAL",
        }
    }
}

/// Result of a dump.
#[derive(Debug, PartialEq, Eq)]
pub struct DumpResult {
    pub ok: bool,
    pub source_set: Option<String>,
    pub extension: Option<String>,
    pub selectors: Option<Vec<String>>,
    pub mode: DumpMode,
    pub target_path: String,
    pub platform_log_path: Option<String>,
    pub duration_ms: u64,
    pub message: Option<String>,
}

/// Mathematical value of [`DumpResult`].
pub struct DumpResultView {
    pub ok: bool,
    pub source_set: Option<Seq<char>>,
    pub extension: Option<Seq<char>>,
    pub selectors: Option<Seq<Seq<char>>>,
    pub mode: DumpMode,
    pub target_path: Seq<char>,
    pub platform_log_path: Option<Seq<char>>,
    pub duration_ms: u64,
    pub message: Option<Seq<char>>,
}

impl View for DumpResult {
    type V = DumpResultView;

    open spec fn view(&self) -> DumpResultView {
        DumpResultView {
            ok: self.ok,
            source_set: opt_text(self.source_set),
            extension: opt_text(self.extension),
            selectors: (match self.selectors { Some(x) => Some(texts(x@)), None => None }),
            mode: self.mode,
            target_path: self.target_path@,
            platform_log_path: opt_text(self.platform_log_path),
            duration_ms: self.duration_ms,
            message: opt_text(self.message),
        }
    }
}

/// Which application was launched.
#[derive(Clone, Copy, Debug, PartialEq, Eq, Structural)]
pub enum LaunchMode {
    Designer,
    Thin,
    Thick,
    Ordinary,
    Mcp,
}

/// Result of a launch.
#[derive(Debug, PartialEq, Eq)]
pub struct LaunchResult {
    pub ok: bool,
    pub mode: LaunchMode,
    pub pid: Option<u32>,
    pub binary: String,
    pub message: Option<String>,
    pub mcp_readiness: Option<String>,
    pub external_epf_wait: Option<String>,
}

/// Mathematical value of [`LaunchResult`].
pub struct LaunchResultView {
    pub ok: bool,
    pub mode: LaunchMode,
    pub pid: Option<u32>,
    pub binary: Seq<char>,
    pub message: Option<Seq<char>>,
    pub mcp_readiness: Option<Seq<char>>,
    pub external_epf_wait: Option<Seq<char>>,
}

impl View for LaunchResult {
    type V = LaunchResultView;

    open spec fn view(&self) -> LaunchResultView {
        LaunchResultView {
            ok: self.ok,
            mode: self.mode,
            pid: self.pid,
            binary: self.binary@,
            message: opt_text(self.message),
            mcp_readiness: opt_text(self.mcp_readiness),
            external_epf_wait: opt_text(self.external_epf_wait),
        }
    }
}

// ---------------------------------------------------------------------------------------------
// Test runs

/// Outcome of one test.
#[derive(Clone, Copy, Debug, PartialEq, Eq, Structural)]
pub enum TestStatus {
    Passed,
    Failed,
    Skipped,
    Error,
}

impl Default for TestStatus {
    fn default() -> (r: Self)
        ensures
            r == TestStatus::Passed,
    {
        TestStatus::Passed
    }
}

/// One test.
#[derive(Debug, PartialEq, Eq)]
pub struct TestCase {
    pub name: String,
    pub class_name: Option<String>,
    pub status: TestStatus,
    pub duration_ms: u64,
    pub failure_message: Option<String>,
    pub stack_trace: Option<String>,
}

/// Mathematical value of [`TestCase`].
pub struct TestCaseView {
    pub name: Seq<char>,
    pub class_name: Option<Seq<char>>,
    pub status: TestStatus,
    pub duration_ms: u64,
    pub failure_message: Option<Seq<char>>,
    pub stack_trace: Option<Seq<char>>,
}

impl View for TestCase {
    type V = TestCaseView;

    open spec fn view(&self) -> TestCaseView {
        TestCaseView {
            name: self.name@,
            class_name: opt_text(self.class_name),
            status: self.status,
            duration_ms: self.duration_ms,
            failure_message: opt_text(self.failure_message),
            stack_trace: opt_text(self.stack_trace),
        }
    }
}

/// A suite of tests.
#[derive(Debug, PartialEq, Eq)]
pub struct TestSuite {
    pub name: String,
    pub cases: Vec<TestCase>,
    pub duration_ms: u64,
}

/// Mathematical value of [`TestSuite`].
pub struct TestSuiteView {
    pub name: Seq<char>,
    pub cases: Seq<TestCaseView>,
    pub duration_ms: u64,
}

impl View for TestSuite {
    type V = TestSuiteView;

    open spec fn view(&self) -> TestSuiteView {
        TestSuiteView {
            name: self.name@,
            cases: views(self.cases@),
            duration_ms: self.duration_ms,
        }
    }
}

/// Numbers of tests by outcome.
#[derive(Clone, Copy, Debug, PartialEq, Eq, Structural)]
pub struct TestSummary {
    pub total: usize,
    pub passed: usize,
    pub failed: usize,
    pub skipped: usize,
    pub errors: usize,
}

/// Report of a test run.
#[derive(Debug, PartialEq, Eq)]
pub struct TestReport {
    pub summary: TestSummary,
    pub suites: Vec<TestSuite>,
    pub extracted_errors: Vec<String>,
}

/// Mathematical value of [`TestReport`].
pub struct TestReportView {
    pub summary: TestSummary,
    pub suites: Seq<TestSuiteView>,
    pub extracted_errors: Seq<Seq<char>>,
}

impl View for TestReport {
    type V = TestReportView;

    open spec fn view(&self) -> TestReportView {
        TestReportView {
            summary: self.summary,
            suites: views(self.suites@),
            extracted_errors: texts(self.extracted_errors@),
        }
    }
}

/// Error met on the way.
#[derive(Debug, PartialEq, Eq)]
pub struct ExecutionError {
    pub code: String,
    pub message: String,
}

/// Mathematical value of [`ExecutionError`].
pub struct ExecutionErrorView {
    pub code: Seq<char>,
    pub message: Seq<char>,
}

impl View for ExecutionError {
    type V = ExecutionErrorView;

    open spec fn view(&self) -> ExecutionErrorView {
        ExecutionErrorView {
            code: self.code@,
            message: self.message@,
        }
    }
}

impl ExecutionError {
    /// Error with a code and a message.
    pub fn new(code: &str, message: String) -> (r: Self)
        ensures
            r@ == (ExecutionErrorView { code: code@, message: message@ }),
    {
        ExecutionError { code: code.to_owned(), message }
    }
}

/// Measures of a run.
#[derive(Clone, Copy, Debug, PartialEq, Eq, Structural)]
pub struct ExecutionMetrics {
    pub total: usize,
    pub passed: usize,
    pub failed: usize,
    pub skipped: usize,
    pub errors: usize,
}

/// Whether an execution succeeded.
#[derive(Clone, Copy, Debug, PartialEq, Eq, Structural)]
pub enum ExecutionStatus {
    Succeeded,
    Failed,
}

/// Outcome of executing the tests.
#[derive(Debug, PartialEq, Eq)]
pub struct TestExecution {
    pub status: ExecutionStatus,
    pub payload: Option<TestReport>,
    pub diagnostics: Vec<String>,
    pub errors: Vec<ExecutionError>,
}

/// Mathematical value of [`TestExecution`].
pub struct TestExecutionView {
    pub status: ExecutionStatus,
    pub payload: Option<TestReportView>,
    pub diagnostics: Seq<Seq<char>>,
    pub errors: Seq<ExecutionErrorView>,
}

impl View for TestExecution {
    type V = TestExecutionView;

    open spec fn view(&self) -> TestExecutionView {
        TestExecutionView {
            status: self.status,
            payload: opt_view(self.payload),
            diagnostics: texts(self.diagnostics@),
            errors: views(self.errors@),
        }
    }
}

/// Step of a command.
#[derive(Debug, PartialEq, Eq)]
pub struct StepResult {
    pub name: String,
    pub ok: bool,
    pub duration_ms: u64,
    pub message: Option<String>,
}

/// Mathematical value of [`StepResult`].
pub struct StepResultView {
    pub name: Seq<char>,
    pub ok: bool,
    pub duration_ms: u64,
    pub message: Option<Seq<char>>,
}

impl View for StepResult {
    type V = StepResultView;

    open spec fn view(&self) -> StepResultView {
        StepResultView {
            name: self.name@,
            ok: self.ok,
            duration_ms: self.duration_ms,
            message: opt_text(self.message),
        }
    }
}

/// Result of a test run.
#[derive(Debug, PartialEq, Eq)]
pub struct TestRunResult {
    pub execution: TestExecution,
    pub warnings: Vec<String>,
    pub steps: Vec<StepResult>,
    pub duration_ms: u64,
}

/// Mathematical value of [`TestRunResult`].
pub struct TestRunResultView {
    pub execution: TestExecutionView,
    pub warnings: Seq<Seq<char>>,
    pub steps: Seq<StepResultView>,
    pub duration_ms: u64,
}

impl View for TestRunResult {
    type V = TestRunResultView;

    open spec fn view(&self) -> TestRunResultView {
        TestRunResultView {
            execution: self.execution@,
            warnings: texts(self.warnings@),
            steps: views(self.steps@),
            duration_ms: self.duration_ms,
        }
    }
}

} // verus!
