//! Response of a command: whether it succeeded, how long it took, what it gives back.

use vstd::prelude::*;
use crate::domain::{
    BuildResult, BuildResultView, DumpResult, DumpResultView, ExecutionStatus, LaunchResult,
    LaunchResultView, StepResult, StepResultView, SyntaxCheckResult, SyntaxCheckResultView,
    TestReport, TestReportView, TestRunResult, TestRunResultView,
};
use crate::mcp::error::{code_name, kind_name, McpBusinessError, McpBusinessErrorView};
use crate::text::{opt_text, opt_view, texts, views};
use crate::use_cases::{command_text, CommandName};

verus! {

/// Error in a response.
#[derive(Debug, PartialEq, Eq)]
pub struct EnvelopeError {
    pub code: String,
    pub kind: String,
    pub message: String,
}

/// Mathematical value of [`EnvelopeError`].
pub struct EnvelopeErrorView {
    pub code: Seq<char>,
    pub kind: Seq<char>,
    pub message: Seq<char>,
}

impl View for EnvelopeError {
    type V = EnvelopeErrorView;

    open spec fn view(&self) -> EnvelopeErrorView {
        EnvelopeErrorView {
            code: self.code@,
            kind: self.kind@,
            message: self.message@,
        }
    }
}

/// Error in a response, from a failure.
pub open spec fn envelope_error_of(error: McpBusinessErrorView) -> EnvelopeErrorView {
    EnvelopeErrorView {
        code: code_name(error.code),
        kind: kind_name(error.kind),
        message: error.message,
    }
}

/// Error in a response, from a failure.
pub fn envelope_error(error: &McpBusinessError) -> (r: EnvelopeError)
    ensures
        r@ == envelope_error_of(error@),
{
    EnvelopeError {
        code: error.code.as_str().to_owned(),
        kind: error.kind.as_str().to_owned(),
        message: error.message.clone(),
    }
}

/// Data of a failed call that has no result.
#[derive(Debug, PartialEq, Eq)]
pub struct ErrorData {
    pub message: String,
    pub tool: String,
    pub field: Option<String>,
    pub mode: Option<String>,
    pub errors: Option<Vec<String>>,
}

/// Mathematical value of [`ErrorData`].
pub struct ErrorDataView {
    pub message: Seq<char>,
    pub tool: Seq<char>,
    pub field: Option<Seq<char>>,
    pub mode: Option<Seq<char>>,
    pub errors: Option<Seq<Seq<char>>>,
}

impl View for ErrorData {
    type V = ErrorDataView;

    open spec fn view(&self) -> ErrorDataView {
        ErrorDataView {
            message: self.message@,
            tool: self.tool@,
            field: opt_text(self.field),
            mode: opt_text(self.mode),
            errors: (match self.errors { Some(x) => Some(texts(x@)), None => None }),
        }
    }
}

/// Data of a test run.
#[derive(Debug, PartialEq, Eq)]
pub struct TestData {
    pub report: Option<TestReport>,
    pub diagnostics: Vec<String>,
}

/// Mathematical value of [`TestData`].
pub struct TestDataView {
    pub report: Option<TestReportView>,
    pub diagnostics: Seq<Seq<char>>,
}

impl View for TestData {
    type V = TestDataView;

    open spec fn view(&self) -> TestDataView {
        TestDataView {
            report: opt_view(self.report),
            diagnostics: texts(self.diagnostics@),
        }
    }
}

/// Data of a response.
#[derive(Debug, PartialEq, Eq)]
pub enum CommandData {
    Build(BuildResult),
    Test(TestData),
    Dump(DumpResult),
    Launch(LaunchResult),
    Syntax(SyntaxCheckResult),
    Error(ErrorData),
}

/// Mathematical value of [`CommandData`].
pub enum CommandDataView {
    Build(BuildResultView),
    Test(TestDataView),
    Dump(DumpResultView),
    Launch(LaunchResultView),
    Syntax(SyntaxCheckResultView),
    Error(ErrorDataView),
}

impl View for CommandData {
    type V = CommandDataView;

    open spec fn view(&self) -> CommandDataView {
        match *self {
            CommandData::Build(x0) => CommandDataView::Build(x0@),
            CommandData::Test(x0) => CommandDataView::Test(x0@),
            CommandData::Dump(x0) => CommandDataView::Dump(x0@),
            CommandData::Launch(x0) => CommandDataView::Launch(x0@),
            CommandData::Syntax(x0) => CommandDataView::Syntax(x0@),
            CommandData::Error(x0) => CommandDataView::Error(x0@),
        }
    }
}

/// Response of a command.
#[derive(Debug, PartialEq, Eq)]
pub struct Envelope {
    pub ok: bool,
    pub command: String,
    pub duration_ms: u64,
    pub data: CommandData,
    pub warnings: Vec<String>,
    pub steps: Vec<StepResult>,
    pub error: Option<EnvelopeError>,
}

/// Mathematical value of [`Envelope`].
pub struct EnvelopeView {
    pub ok: bool,
    pub command: Seq<char>,
    pub duration_ms: u64,
    pub data: CommandDataView,
    pub warnings: Seq<Seq<char>>,
    pub steps: Seq<StepResultView>,
    pub error: Option<EnvelopeErrorView>,
}

impl View for Envelope {
    type V = EnvelopeView;

    open spec fn view(&self) -> EnvelopeView {
        EnvelopeView {
            ok: self.ok,
            command: self.command@,
            duration_ms: self.duration_ms,
            data: self.data@,
            warnings: texts(self.warnings@),
            steps: views(self.steps@),
            error: opt_view(self.error),
        }
    }
}

/// Response without warnings, steps and error.
pub open spec fn plain_envelope(
    ok: bool,
    command: CommandName,
    duration_ms: u64,
    data: CommandDataView,
) -> EnvelopeView {
    EnvelopeView {
        ok,
        command: command_text(command),
        duration_ms,
        data,
        warnings: Seq::empty(),
        steps: Seq::empty(),
        error: None,
    }
}

/// The response with the error.
pub open spec fn with_error_view(
    envelope: EnvelopeView,
    error: McpBusinessErrorView,
) -> EnvelopeView {
    EnvelopeView { error: Some(envelope_error_of(error)), ..envelope }
}

fn plain(ok: bool, command: CommandName, duration_ms: u64, data: CommandData) -> (r: Envelope)
    ensures
        r@ == plain_envelope(ok, command, duration_ms, data@),
{
    let warnings: Vec<String> = Vec::new();
    let steps: Vec<StepResult> = Vec::new();
    assert(texts(warnings@) =~= Seq::<Seq<char>>::empty());
    assert(views(steps@) =~= Seq::<StepResultView>::empty());
    Envelope {
        ok,
        command: command.as_str().to_owned(),
        duration_ms,
        data,
        warnings,
        steps,
        error: None,
    }
}

/// Response of a command that succeeded.
pub fn ok_envelope(command: CommandName, duration_ms: u64, data: CommandData) -> (r: Envelope)
    ensures
        r@ == plain_envelope(true, command, duration_ms, data@),
{
    plain(true, command, duration_ms, data)
}

/// Response of a command that failed.
pub fn err_envelope(command: CommandName, duration_ms: u64, data: CommandData) -> (r: Envelope)
    ensures
        r@ == plain_envelope(false, command, duration_ms, data@),
{
    plain(false, command, duration_ms, data)
}

impl Envelope {
    /// The response with the error.
    pub fn with_error(self, error: &McpBusinessError) -> (r: Envelope)
        ensures
            r@ == with_error_view(self@, error@),
    {
        Envelope { error: Some(envelope_error(error)), ..self }
    }
}

/// Response of a test run.
pub open spec fn test_envelope_view(result: TestRunResultView) -> EnvelopeView {
    EnvelopeView {
        ok: result.execution.status == ExecutionStatus::Succeeded,
        command: command_text(CommandName::Test),
        duration_ms: result.duration_ms,
        data: CommandDataView::Test(
            TestDataView {
                report: result.execution.payload,
                diagnostics: result.execution.diagnostics,
            },
        ),
        warnings: result.warnings,
        steps: result.steps,
        error: None,
    }
}

/// Response of a test run.
pub fn test_envelope(result: TestRunResult) -> (r: Envelope)
    ensures
        r@ == test_envelope_view(result@),
{
    Envelope {
        ok: result.execution.status == ExecutionStatus::Succeeded,
        command: CommandName::Test.as_str().to_owned(),
        duration_ms: result.duration_ms,
        data: CommandData::Test(
            TestData {
                report: result.execution.payload,
                diagnostics: result.execution.diagnostics,
            },
        ),
        warnings: result.warnings,
        steps: result.steps,
        error: None,
    }
}

} // verus!
