//! Run of an EDT syntax check: one command of the shared session after another, and what the
//! answers and logs of the projects add up to.

use vstd::prelude::*;
use crate::config::{AppConfig, AppConfigView, BuilderBackend, SourceFormat};
use crate::domain::{
    Issue, IssueSeverity, IssueView, SyntaxCheckResult, SyntaxCheckResultView, SyntaxCheckStatus,
    SyntaxIssueSummary,
};
use crate::mcp::edt_session::{
    session_error_text, EdtSessionError, EdtSessionErrorView, EdtSessionResponse,
    EdtSessionResponseView,
};
use crate::mcp::edt_syntax::{
    actor_exit_code, actor_status_from_result, combine_status, count_severity, fallback_edt_issue,
    fallback_issue, fallback_message, log_name, project_status, resolve_edt_source_sets,
    resolved_projects, status_exit_code, summarize_issues, summarizes, unique_log_path,
    unsupported_setup, worse, SyntaxProject, SyntaxProjectView,
};
use crate::parsers::edt_validation::{self, log_issues};
use crate::path::{joined, HostPlatform};
use crate::platform::edt_command::{
    interactive_line, render_interactive_validate_command, validate_args,
};
use crate::text::{
    cat2, cat3, cat5, is_blank, join_texts, join_with, opt_text, push_text, text_result, texts,
    trim, trimmed, views,
};
use crate::text_number::{decimal_i32, signed_decimal};
use crate::text_scan::{replaced_char, text_replace_char};
use crate::time::{capped_millis, Span};
use crate::use_cases::{
    use_case_error_text, SyntaxRequest, SyntaxRequestView, SyntaxTargetRequest,
    SyntaxTargetRequestView, UseCaseError, UseCaseErrorKind, UseCaseErrorView, UseCaseFailure,
};

verus! {

/// Failure of the queue in front of the shared session, which the transport reports itself.
#[derive(Clone, Copy, Debug, PartialEq, Eq, Structural)]
pub enum EdtSyntaxTransportError {
    QueuedCancelled,
    QueuedTimeout,
}

/// Failure and the result that goes with it.
pub open spec fn failure_view(failure: UseCaseFailure<SyntaxCheckResult>) -> (
    UseCaseErrorView,
    Option<SyntaxCheckResultView>,
) {
    (
        failure.error@,
        match failure.payload {
            Some(p) => Some(p@),
            None => None,
        },
    )
}

/// Result of a check that failed before it could find anything.
pub open spec fn failed_view(
    stderr: Seq<char>,
    log_path: Option<Seq<char>>,
    elapsed: Span,
) -> SyntaxCheckResultView {
    SyntaxCheckResultView {
        status: SyntaxCheckStatus::ToolFailed,
        exit_code: -1i32,
        check_name: "edt"@,
        summary: SyntaxIssueSummary { errors: 0, warnings: 0, info: 0 },
        issues: Seq::empty(),
        duration_ms: capped_millis(elapsed),
        platform_log_path: log_path,
        stderr: Some(stderr),
        log_read_warning: None,
    }
}

/// Result of a check that failed before it could find anything.
pub fn failed_result(stderr: String, log_path: Option<String>, elapsed: Span) -> (r:
    SyntaxCheckResult)
    ensures
        r@ == failed_view(stderr@, opt_text(log_path), elapsed),
{
    let issues: Vec<Issue> = Vec::new();
    assert(views(issues@) =~= Seq::<IssueView>::empty());
    SyntaxCheckResult {
        status: SyntaxCheckStatus::ToolFailed,
        exit_code: -1i32,
        check_name: "edt".to_owned(),
        summary: SyntaxIssueSummary { errors: 0, warnings: 0, info: 0 },
        issues,
        duration_ms: elapsed.saturating_millis(),
        platform_log_path: log_path,
        stderr: Some(stderr),
        log_read_warning: None,
    }
}

/// Failure before the first command: the result carries the error's text.
pub open spec fn early_failure(kind: UseCaseErrorKind, message: Seq<char>, elapsed: Span) -> (
    UseCaseErrorView,
    Option<SyntaxCheckResultView>,
) {
    let error = UseCaseErrorView { kind, message };
    (error, Some(failed_view(use_case_error_text(error), None, elapsed)))
}

fn fail_early(kind: UseCaseErrorKind, message: &str, elapsed: Span) -> (r: UseCaseFailure<
    SyntaxCheckResult,
>)
    ensures
        failure_view(r) == early_failure(kind, message@, elapsed),
{
    let error = UseCaseError::new(kind, message);
    let text = error.text();
    UseCaseFailure::with_payload(error, failed_result(text, None, elapsed))
}

/// Failure where the directory of the logs cannot be prepared.
pub fn log_directory_failure(work_path: &str, source: &str, elapsed: Span) -> (r: UseCaseFailure<
    SyntaxCheckResult,
>)
    ensures
        failure_view(r) == early_failure(
            UseCaseErrorKind::Runtime,
            "failed to prepare syntax platform logs directory '"@ + work_path@ + "': "@ + source@,
            elapsed,
        ),
{
    let mut message = cat3(
        "failed to prepare syntax platform logs directory '",
        work_path,
        "': ",
    );
    message.append(source);
    fail_early(UseCaseErrorKind::Runtime, message.as_str(), elapsed)
}

// ---------------------------------------------------------------------------------------------
// The run

/// State of a run.
#[derive(Debug, PartialEq, Eq)]
pub struct EdtSyntaxRun {
    pub host: HostPlatform,
    pub projects: Vec<SyntaxProject>,
    pub next: usize,
    pub issues: Vec<Issue>,
    pub status: SyntaxCheckStatus,
    pub exit_code: i32,
    pub stderr_lines: Vec<String>,
    pub log_warnings: Vec<String>,
    pub single_log: Option<String>,
}

/// Mathematical value of [`EdtSyntaxRun`].
pub struct EdtSyntaxRunView {
    pub host: HostPlatform,
    pub projects: Seq<SyntaxProjectView>,
    pub next: usize,
    pub issues: Seq<IssueView>,
    pub status: SyntaxCheckStatus,
    pub exit_code: i32,
    pub stderr_lines: Seq<Seq<char>>,
    pub log_warnings: Seq<Seq<char>>,
    pub single_log: Option<Seq<char>>,
}

impl View for EdtSyntaxRun {
    type V = EdtSyntaxRunView;

    open spec fn view(&self) -> EdtSyntaxRunView {
        EdtSyntaxRunView {
            host: self.host,
            projects: views(self.projects@),
            next: self.next,
            issues: views(self.issues@),
            status: self.status,
            exit_code: self.exit_code,
            stderr_lines: texts(self.stderr_lines@),
            log_warnings: texts(self.log_warnings@),
            single_log: opt_text(self.single_log),
        }
    }
}

/// State before the first project.
pub open spec fn fresh_run(
    host: HostPlatform,
    projects: Seq<SyntaxProjectView>,
) -> EdtSyntaxRunView {
    EdtSyntaxRunView {
        host,
        projects,
        next: 0,
        issues: Seq::empty(),
        status: SyntaxCheckStatus::Clean,
        exit_code: 0,
        stderr_lines: Seq::empty(),
        log_warnings: Seq::empty(),
        single_log: None,
    }
}

/// How a request starts: the run, or the message of the validation error.
pub open spec fn started(
    config: AppConfigView,
    request: SyntaxRequestView,
    host: HostPlatform,
) -> Result<EdtSyntaxRunView, Seq<char>> {
    match request.target {
        SyntaxTargetRequestView::Edt { projects } => {
            if config.builder != BuilderBackend::Designer || config.format != SourceFormat::Edt {
                Err(unsupported_setup())
            } else {
                match resolved_projects(host, config.base_path, config.source_sets, projects) {
                    Ok(found) => Ok(fresh_run(host, found)),
                    Err(message) => Err(message),
                }
            }
        },
        _ => Err("shared EDT syntax executor requires an EDT syntax target"@),
    }
}

/// Lines on stderr that a project gives.
pub open spec fn stderr_line(name: Seq<char>, response: EdtSessionResponseView) -> Seq<Seq<char>> {
    if is_blank(response.stderr) {
        Seq::empty()
    } else {
        seq![name + ": "@ + trim(response.stderr)]
    }
}

/// Lines of output that a project gives: of stderr, then of stdout.
pub open spec fn output_lines(name: Seq<char>, response: EdtSessionResponseView) -> Seq<Seq<char>> {
    if is_blank(response.stdout) {
        stderr_line(name, response)
    } else {
        stderr_line(name, response).push(name + " stdout: "@ + trim(response.stdout))
    }
}

/// Lines joined, where there are any.
pub open spec fn joined_lines(lines: Seq<Seq<char>>) -> Option<Seq<char>> {
    if lines.len() == 0 {
        None
    } else {
        Some(join_with(lines, "\n"@))
    }
}

/// Warning about a log that cannot be read.
pub open spec fn log_warning(log_path: Seq<char>, log: Result<Seq<char>, Seq<char>>) -> Option<
    Seq<char>,
> {
    match log {
        Ok(_) => None,
        Err(source) => Some("failed to read edt --file log '"@ + log_path + "': "@ + source),
    }
}

/// Issues that a log holds.
pub open spec fn issues_in(log: Result<Seq<char>, Seq<char>>) -> Seq<IssueView> {
    match log {
        Ok(text) => log_issues(text),
        Err(_) => Seq::empty(),
    }
}

/// Status of a project by its answer and its log.
pub open spec fn status_in(
    response: EdtSessionResponseView,
    log: Result<Seq<char>, Seq<char>>,
) -> SyntaxCheckStatus {
    project_status(trim(response.stdout), trim(response.stderr), issues_in(log).len())
}

/// Issues that a project adds.
pub open spec fn added_issues(
    name: Seq<char>,
    log_path: Seq<char>,
    response: EdtSessionResponseView,
    log: Result<Seq<char>, Seq<char>>,
) -> Seq<IssueView> {
    let status = status_in(response, log);
    if status is ToolFailed && issues_in(log).len() == 0 {
        seq![
            fallback_issue(
                name,
                fallback_message(
                    name,
                    status_exit_code(status),
                    joined_lines(output_lines(name, response)),
                    log_warning(log_path, log),
                    Some(log_path),
                ),
            ),
        ]
    } else {
        issues_in(log)
    }
}

/// State after the project in turn.
pub open spec fn after_project(
    s: EdtSyntaxRunView,
    log_path: Seq<char>,
    response: EdtSessionResponseView,
    log: Result<Seq<char>, Seq<char>>,
) -> EdtSyntaxRunView {
    let name = s.projects[s.next as int].name;
    let status = status_in(response, log);
    let code = status_exit_code(status);
    EdtSyntaxRunView {
        host: s.host,
        projects: s.projects,
        next: (s.next + 1) as usize,
        issues: s.issues + added_issues(name, log_path, response, log),
        status: worse(s.status, status),
        exit_code: if code != 0 && (status is ToolFailed || s.exit_code == 0) {
            code
        } else {
            s.exit_code
        },
        stderr_lines: s.stderr_lines + stderr_line(name, response),
        log_warnings: match log_warning(log_path, log) {
            Some(warning) => s.log_warnings.push(name + ": "@ + warning),
            None => s.log_warnings,
        },
        single_log: if s.projects.len() == 1 {
            Some(log_path)
        } else {
            s.single_log
        },
    }
}

/// What an answer of the shared session asks for.
#[derive(Debug, PartialEq, Eq)]
pub enum AnswerVerdict {
    /// The request never left the queue.
    Admission(EdtSyntaxTransportError),
    /// The check failed. With `await_completion` the command is waited for first.
    Failed {
        await_completion: bool,
        error: UseCaseError,
        result: SyntaxCheckResult,
    },
    /// The log of the project is read next.
    ReadLog(EdtSessionResponse),
}

/// Mathematical value of [`AnswerVerdict`].
pub enum AnswerVerdictView {
    Admission(EdtSyntaxTransportError),
    Failed { await_completion: bool, error: UseCaseErrorView, result: SyntaxCheckResultView },
    ReadLog(EdtSessionResponseView),
}

impl View for AnswerVerdict {
    type V = AnswerVerdictView;

    open spec fn view(&self) -> AnswerVerdictView {
        match *self {
            AnswerVerdict::Admission(x0) => AnswerVerdictView::Admission(x0),
            AnswerVerdict::Failed { await_completion, error, result } => AnswerVerdictView::Failed {
                await_completion,
                error: error@,
                result: result@,
            },
            AnswerVerdict::ReadLog(x0) => AnswerVerdictView::ReadLog(x0@),
        }
    }
}

/// Message for a command that was interrupted while it ran.
pub open spec fn interrupted_message(what: Seq<char>) -> Seq<char> {
    what
        + " for command 'syntax' while shared EDT command was running; terminal state was observed before returning the result"@
}

/// Verdict on a failure with the message.
pub open spec fn failed_verdict(
    await_completion: bool,
    message: Seq<char>,
    log_path: Option<Seq<char>>,
    elapsed: Span,
) -> AnswerVerdictView {
    AnswerVerdictView::Failed {
        await_completion,
        error: UseCaseErrorView { kind: UseCaseErrorKind::Runtime, message },
        result: failed_view(message, log_path, elapsed),
    }
}

/// Verdict on an answer.
pub open spec fn verdict(
    s: EdtSyntaxRunView,
    log_path: Seq<char>,
    answer: Result<EdtSessionResponseView, EdtSessionErrorView>,
    elapsed: Span,
) -> AnswerVerdictView {
    let single = if s.projects.len() == 1 {
        Some(log_path)
    } else {
        None
    };
    match answer {
        Ok(response) => AnswerVerdictView::ReadLog(response),
        Err(EdtSessionErrorView::QueuedCancelled) => AnswerVerdictView::Admission(
            EdtSyntaxTransportError::QueuedCancelled,
        ),
        Err(EdtSessionErrorView::QueuedTimeout) => AnswerVerdictView::Admission(
            EdtSyntaxTransportError::QueuedTimeout,
        ),
        Err(EdtSessionErrorView::RunningCancelled) => failed_verdict(
            true,
            interrupted_message("execution cancelled"@),
            single,
            elapsed,
        ),
        Err(EdtSessionErrorView::RunningTimeout) => failed_verdict(
            true,
            interrupted_message("execution timeout expired"@),
            single,
            elapsed,
        ),
        Err(error) => failed_verdict(false, session_error_text(error), Some(log_path), elapsed),
    }
}

/// Result of a run.
pub open spec fn run_result(
    s: EdtSyntaxRunView,
    summary: SyntaxIssueSummary,
    elapsed: Span,
) -> SyntaxCheckResultView {
    SyntaxCheckResultView {
        status: s.status,
        exit_code: s.exit_code,
        check_name: "edt"@,
        summary,
        issues: s.issues,
        duration_ms: capped_millis(elapsed),
        platform_log_path: s.single_log,
        stderr: joined_lines(s.stderr_lines),
        log_read_warning: joined_lines(s.log_warnings),
    }
}

/// Name of a status in the message of a failed check.
pub open spec fn status_label(status: SyntaxCheckStatus) -> Seq<char> {
    match status {
        SyntaxCheckStatus::Clean => "Clean"@,
        SyntaxCheckStatus::IssuesFound => "IssuesFound"@,
        SyntaxCheckStatus::ToolFailed => "ToolFailed"@,
    }
}

/// Message of a check that found issues or failed.
pub open spec fn finished_message(status: SyntaxCheckStatus, exit_code: i32) -> Seq<char> {
    "syntax check 'edt' finished with status "@ + status_label(status) + " (exit code "@
        + signed_decimal(exit_code as int) + ")"@
}

fn interruption_text(what: &str) -> (r: String)
    ensures
        r@ == interrupted_message(what@),
{
    cat2(
        what,
        " for command 'syntax' while shared EDT command was running; terminal state was observed before returning the result",
    )
}

fn failure_verdict(
    await_completion: bool,
    message: String,
    log_path: Option<String>,
    elapsed: Span,
) -> (r: AnswerVerdict)
    ensures
        r@ == failed_verdict(await_completion, message@, opt_text(log_path), elapsed),
{
    let error = UseCaseError::new(UseCaseErrorKind::Runtime, message.as_str());
    AnswerVerdict::Failed {
        await_completion,
        error,
        result: failed_result(message, log_path, elapsed),
    }
}

fn join_if_any(lines: &Vec<String>) -> (r: Option<String>)
    ensures
        opt_text(r) == joined_lines(texts(lines@)),
{
    if lines.len() == 0 {
        None
    } else {
        Some(join_texts(lines, "\n"))
    }
}

impl EdtSyntaxRun {
    /// Starts a run, or fails with the result of a check that did not begin.
    pub fn start(
        config: &AppConfig,
        request: &SyntaxRequest,
        elapsed: Span,
        host: HostPlatform,
    ) -> (r: Result<EdtSyntaxRun, UseCaseFailure<SyntaxCheckResult>>)
        ensures
            match r {
                Ok(run) => started(config@, request@, host) == Ok::<EdtSyntaxRunView, Seq<char>>(run@),
                Err(failure) => started(config@, request@, host) is Err && failure_view(failure)
                    == early_failure(
                    UseCaseErrorKind::Validation,
                    started(config@, request@, host)->Err_0,
                    elapsed,
                ),
            },
    {
        let names = match &request.target {
            SyntaxTargetRequest::Edt { projects } => projects,
            _ => {
                return Err(
                    fail_early(
                        UseCaseErrorKind::Validation,
                        "shared EDT syntax executor requires an EDT syntax target",
                        elapsed,
                    ),
                );
            },
        };
        if config.builder != BuilderBackend::Designer || config.format != SourceFormat::Edt {
            return Err(
                fail_early(
                    UseCaseErrorKind::Validation,
                    "syntax edt currently supports only builder=DESIGNER and format=EDT",
                    elapsed,
                ),
            );
        }
        match resolve_edt_source_sets(
            host,
            config.base_path.as_str(),
            &config.source_sets,
            names,
        ) {
            Ok(projects) => {
                let issues: Vec<Issue> = Vec::new();
                let stderr_lines: Vec<String> = Vec::new();
                let log_warnings: Vec<String> = Vec::new();
                assert(views(issues@) =~= Seq::<IssueView>::empty());
                assert(texts(stderr_lines@) =~= Seq::<Seq<char>>::empty());
                assert(texts(log_warnings@) =~= Seq::<Seq<char>>::empty());
                Ok(
                    EdtSyntaxRun {
                        host,
                        projects,
                        next: 0,
                        issues,
                        status: SyntaxCheckStatus::Clean,
                        exit_code: 0,
                        stderr_lines,
                        log_warnings,
                        single_log: None,
                    },
                )
            },
            Err(error) => Err(fail_early(UseCaseErrorKind::Validation, error.message(), elapsed)),
        }
    }

    /// Path of the log of the project in turn, where one is left.
    pub fn next_log_path(&self, dir: &str, timestamp: u64, pid: u32, sequence: u64) -> (r: Option<
        String,
    >)
        ensures
            opt_text(r) == (if self@.next < self@.projects.len() {
                Some(
                    joined(
                        self@.host,
                        dir@,
                        log_name(
                            "edt_"@ + replaced_char(
                                self@.projects[self@.next as int].name,
                                ' ',
                                '_',
                            ),
                            timestamp,
                            pid,
                            sequence,
                        ),
                    ),
                )
            } else {
                None
            }),
    {
        if self.next < self.projects.len() {
            let check = cat2(
                "edt_",
                text_replace_char(self.projects[self.next].name.as_str(), ' ', '_').as_str(),
            );
            Some(unique_log_path(self.host, dir, check.as_str(), timestamp, pid, sequence))
        } else {
            None
        }
    }

    /// Command for the project in turn.
    pub fn next_command(&self, log_path: &str) -> (r: Option<String>)
        ensures
            opt_text(r) == (if self@.next < self@.projects.len() {
                Some(
                    interactive_line(
                        validate_args(self@.projects[self@.next as int].source_path, log_path@),
                    ),
                )
            } else {
                None
            }),
    {
        if self.next < self.projects.len() {
            Some(
                render_interactive_validate_command(
                    self.projects[self.next].source_path.as_str(),
                    log_path,
                ),
            )
        } else {
            None
        }
    }

    /// Judges the answer of the shared session to the command in turn.
    pub fn judge_answer(
        &self,
        log_path: &str,
        answer: Result<EdtSessionResponse, EdtSessionError>,
        elapsed: Span,
    ) -> (r: AnswerVerdict)
        ensures
            r@ == verdict(
                self@,
                log_path@,
                match answer {
                    Ok(response) => Ok(response@),
                    Err(error) => Err(error@),
                },
                elapsed,
            ),
    {
        let single = if self.projects.len() == 1 {
            Some(log_path.to_owned())
        } else {
            None
        };
        match answer {
            Ok(response) => AnswerVerdict::ReadLog(response),
            Err(EdtSessionError::QueuedCancelled) => AnswerVerdict::Admission(
                EdtSyntaxTransportError::QueuedCancelled,
            ),
            Err(EdtSessionError::QueuedTimeout) => AnswerVerdict::Admission(
                EdtSyntaxTransportError::QueuedTimeout,
            ),
            Err(EdtSessionError::RunningCancelled) => failure_verdict(
                true,
                interruption_text("execution cancelled"),
                single,
                elapsed,
            ),
            Err(EdtSessionError::RunningTimeout) => failure_verdict(
                true,
                interruption_text("execution timeout expired"),
                single,
                elapsed,
            ),
            Err(error) => failure_verdict(
                false,
                error.message(),
                Some(log_path.to_owned()),
                elapsed,
            ),
        }
    }

    /// Takes the answer and the log of the project in turn.
    pub fn take_project(
        &mut self,
        log_path: &str,
        response: &EdtSessionResponse,
        log: &Result<String, String>,
    )
        requires
            old(self)@.next < old(self)@.projects.len(),
        ensures
            final(self)@ == after_project(
                old(self)@,
                log_path@,
                response@,
                text_result(*log),
            ),
    {
        let ghost before = self@;
        let ghost log_view: Result<Seq<char>, Seq<char>> = text_result(*log);
        let name = self.projects[self.next].name.clone();
        if self.projects.len() == 1 {
            self.single_log = Some(log_path.to_owned());
        }
        let stderr = trimmed(response.stderr.as_str());
        let stdout = trimmed(response.stdout.as_str());
        let mut output: Vec<String> = Vec::new();
        assert(texts(output@) =~= Seq::<Seq<char>>::empty());
        if !stderr.as_str().is_empty() {
            let line = cat3(name.as_str(), ": ", stderr.as_str());
            push_text(&mut output, line.as_str());
            push_text(&mut self.stderr_lines, line.as_str());
        }
        assert(texts(output@) =~= stderr_line(name@, response@));
        assert(texts(self.stderr_lines@) =~= before.stderr_lines + stderr_line(name@, response@));
        if !stdout.as_str().is_empty() {
            let line = cat3(name.as_str(), " stdout: ", stdout.as_str());
            push_text(&mut output, line.as_str());
        }
        assert(texts(output@) =~= output_lines(name@, response@));
        let mut found: Vec<Issue> = Vec::new();
        assert(views(found@) =~= Seq::<IssueView>::empty());
        let mut warning: Option<String> = None;
        match log {
            Ok(text) => {
                found = edt_validation::parse(text.as_str());
            },
            Err(source) => {
                let mut text = cat3("failed to read edt --file log '", log_path, "': ");
                text.append(source.as_str());
                let line = cat3(name.as_str(), ": ", text.as_str());
                push_text(&mut self.log_warnings, line.as_str());
                warning = Some(text);
            },
        }
        assert(views(found@) == issues_in(log_view));
        assert(opt_text(warning) == log_warning(log_path@, log_view));
        let status = actor_status_from_result(stdout.as_str(), stderr.as_str(), &found);
        assert(status == status_in(response@, log_view));
        self.status = combine_status(self.status, status);
        let code: i32 = actor_exit_code(status);
        if code != 0 && (status == SyntaxCheckStatus::ToolFailed || self.exit_code == 0) {
            self.exit_code = code;
        }
        if status == SyntaxCheckStatus::ToolFailed && found.len() == 0 {
            let told = join_if_any(&output);
            let issue = fallback_edt_issue(
                name.as_str(),
                code,
                &told,
                &warning,
                &Some(log_path.to_owned()),
            );
            self.issues.push(issue);
        } else {
            self.issues.append(&mut found);
        }
        assert(views(self.issues@) =~= before.issues + added_issues(
            name@,
            log_path@,
            response@,
            log_view,
        ));
        self.next = self.next + 1;
    }

    /// Result of the run: clean, or a failure that carries the result.
    pub fn finish(self, elapsed: Span) -> (r: Result<
        SyntaxCheckResult,
        UseCaseFailure<SyntaxCheckResult>,
    >)
        ensures
            match r {
                Ok(result) => self@.status is Clean && summarizes(result@.summary, self@.issues)
                    && result@ == run_result(self@, result@.summary, elapsed),
                Err(failure) => !(self@.status is Clean) && failure.error@ == (UseCaseErrorView {
                    kind: UseCaseErrorKind::Runtime,
                    message: finished_message(self@.status, self@.exit_code),
                }) && match failure.payload {
                    Some(result) => summarizes(result@.summary, self@.issues) && result@
                        == run_result(self@, result@.summary, elapsed),
                    None => false,
                },
            },
    {
        let summary = summarize_issues(&self.issues);
        let stderr = join_if_any(&self.stderr_lines);
        let log_read_warning = join_if_any(&self.log_warnings);
        let status = self.status;
        let exit_code: i32 = self.exit_code;
        let result = SyntaxCheckResult {
            status,
            exit_code,
            check_name: "edt".to_owned(),
            summary,
            issues: self.issues,
            duration_ms: elapsed.saturating_millis(),
            platform_log_path: self.single_log,
            stderr,
            log_read_warning,
        };
        let label = match status {
            SyntaxCheckStatus::Clean => {
                return Ok(result);
            },
            SyntaxCheckStatus::IssuesFound => "IssuesFound",
            SyntaxCheckStatus::ToolFailed => "ToolFailed",
        };
        let message = cat5(
            "syntax check 'edt' finished with status ",
            label,
            " (exit code ",
            decimal_i32(exit_code).as_str(),
            ")",
        );
        let error = UseCaseError::new(UseCaseErrorKind::Runtime, message.as_str());
        Err(UseCaseFailure::with_payload(error, result))
    }
}

// ---------------------------------------------------------------------------------------------
// Laws

/// Answer and log of one project.
pub struct ProjectReport {
    pub log_path: Seq<char>,
    pub response: EdtSessionResponseView,
    pub log: Result<Seq<char>, Seq<char>>,
}

/// State after the first `n` reports.
pub open spec fn after_reports(
    s: EdtSyntaxRunView,
    reports: Seq<ProjectReport>,
    n: int,
) -> EdtSyntaxRunView
    decreases n,
{
    if n <= 0 {
        s
    } else {
        let report = reports[n - 1];
        after_project(
            after_reports(s, reports, n - 1),
            report.log_path,
            report.response,
            report.log,
        )
    }
}

/// What every state of a run keeps: the exit code is that of the status, and there are issues
/// exactly where the status is not clean.
pub open spec fn consistent(s: EdtSyntaxRunView) -> bool {
    &&& s.exit_code == status_exit_code(s.status)
    &&& s.status is Clean <==> s.issues.len() == 0
}

/// Every state of a run is consistent: exit code, status and issues tell the same story.
pub proof fn run_stays_consistent(
    host: HostPlatform,
    projects: Seq<SyntaxProjectView>,
    reports: Seq<ProjectReport>,
    n: int,
)
    requires
        0 <= n <= reports.len(),
    ensures
        consistent(after_reports(fresh_run(host, projects), reports, n)),
    decreases n,
{
    if n > 0 {
        run_stays_consistent(host, projects, reports, n - 1);
    }
}

/// A check is clean exactly where every project was: one bad project is never forgotten.
pub proof fn clean_only_if_all_were(
    host: HostPlatform,
    projects: Seq<SyntaxProjectView>,
    reports: Seq<ProjectReport>,
    n: int,
)
    requires
        0 <= n <= reports.len(),
    ensures
        after_reports(fresh_run(host, projects), reports, n).status is Clean <==> (forall|i: int|
            0 <= i < n ==> status_in((#[trigger] reports[i]).response, reports[i].log) is Clean),
    decreases n,
{
    if n > 0 {
        clean_only_if_all_were(host, projects, reports, n - 1);
        assert(reports[n - 1] == reports[n - 1]);
    }
}

/// Issues once found stay in the result, in the order they were found.
pub proof fn issues_only_grow(
    host: HostPlatform,
    projects: Seq<SyntaxProjectView>,
    reports: Seq<ProjectReport>,
    m: int,
    n: int,
)
    requires
        0 <= m <= n <= reports.len(),
    ensures
        after_reports(fresh_run(host, projects), reports, m).issues.is_prefix_of(
            after_reports(fresh_run(host, projects), reports, n).issues,
        ),
    decreases n,
{
    if m < n {
        issues_only_grow(host, projects, reports, m, n - 1);
    }
}

/// The three counts of a summary add up to the number of issues.
pub proof fn counts_add_up(summary: SyntaxIssueSummary, issues: Seq<IssueView>)
    requires
        summarizes(summary, issues),
    ensures
        summary.errors + summary.warnings + summary.info == issues.len(),
{
    lemma_counts(issues, issues.len() as int);
}

proof fn lemma_counts(issues: Seq<IssueView>, n: int)
    requires
        0 <= n <= issues.len(),
    ensures
        count_severity(issues, IssueSeverity::Error, n) + count_severity(
            issues,
            IssueSeverity::Warning,
            n,
        ) + count_severity(issues, IssueSeverity::Info, n) == n,
    decreases n,
{
    if n > 0 {
        lemma_counts(issues, n - 1);
    }
}

} // verus!
