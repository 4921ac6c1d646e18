//! EDT syntax check as a whole: from the request to the outcome, one question to the outside
//! world at a time.

use vstd::prelude::*;
use crate::config::{AppConfig, AppConfigView};
use crate::domain::{
    IssueSeverity, IssueView, SyntaxCheckResult, SyntaxCheckResultView, SyntaxIssueSummary,
};
use crate::mcp::edt_session::{
    EdtSessionError, EdtSessionErrorView, EdtSessionResponse, EdtSessionResponseView,
};
use crate::mcp::edt_syntax::{count_severity, log_name};
use crate::mcp::edt_syntax_run::{
    after_project, early_failure, failure_view, finished_message, log_directory_failure,
    run_result, started, verdict, AnswerVerdict, AnswerVerdictView, EdtSyntaxRun, EdtSyntaxRunView,
    EdtSyntaxTransportError, ProjectReport,
};
use crate::path::{joined, HostPlatform};
use crate::platform::edt_command::{interactive_line, validate_args};
use crate::text::{opt_view, result_view};
use crate::text_scan::replaced_char;
use crate::time::{time_until, Moment, Span};
use crate::use_cases::{
    SyntaxRequest, SyntaxRequestView, UseCaseError, UseCaseErrorKind, UseCaseErrorView,
    UseCaseFailure,
};


verus! {

/// How a check ends.
#[derive(Debug, PartialEq, Eq)]
pub enum EdtSyntaxOutcome {
    /// A command never left the queue: the transport reports this itself.
    Refused(EdtSyntaxTransportError),
    /// Every project is clean.
    Clean(SyntaxCheckResult),
    /// The check found issues or failed.
    Failed { error: UseCaseError, payload: Option<SyntaxCheckResult> },
}

/// Mathematical value of [`EdtSyntaxOutcome`].
pub enum EdtSyntaxOutcomeView {
    Refused(EdtSyntaxTransportError),
    Clean(SyntaxCheckResultView),
    Failed { error: UseCaseErrorView, payload: Option<SyntaxCheckResultView> },
}

impl View for EdtSyntaxOutcome {
    type V = EdtSyntaxOutcomeView;

    open spec fn view(&self) -> EdtSyntaxOutcomeView {
        match *self {
            EdtSyntaxOutcome::Refused(x0) => EdtSyntaxOutcomeView::Refused(x0),
            EdtSyntaxOutcome::Clean(x0) => EdtSyntaxOutcomeView::Clean(x0@),
            EdtSyntaxOutcome::Failed { error, payload } => EdtSyntaxOutcomeView::Failed {
                error: error@,
                payload: opt_view(payload),
            },
        }
    }
}

/// Where a check stands.
#[derive(Debug, PartialEq, Eq)]
pub enum EdtSyntaxPhase {
    /// The directory of the logs is prepared.
    Preparing { run: EdtSyntaxRun },
    /// The log of the project in turn gets its name.
    Naming { run: EdtSyntaxRun, dir: String, deadline: Moment },
    /// The command of the project in turn is with the shared session.
    Submitted { run: EdtSyntaxRun, dir: String, deadline: Moment, log_path: String },
    /// The command was interrupted and is waited for.
    Awaiting { run: EdtSyntaxRun, log_path: String, error: EdtSessionError },
    /// The log of the project in turn is read.
    Reading {
        run: EdtSyntaxRun,
        dir: String,
        deadline: Moment,
        log_path: String,
        response: EdtSessionResponse,
    },
    /// The outcome was given.
    Over,
}

/// Mathematical value of [`EdtSyntaxPhase`].
pub enum EdtSyntaxPhaseView {
    Preparing { run: EdtSyntaxRunView },
    Naming { run: EdtSyntaxRunView, dir: Seq<char>, deadline: Moment },
    Submitted { run: EdtSyntaxRunView, dir: Seq<char>, deadline: Moment, log_path: Seq<char> },
    Awaiting { run: EdtSyntaxRunView, log_path: Seq<char>, error: EdtSessionErrorView },
    Reading {
        run: EdtSyntaxRunView,
        dir: Seq<char>,
        deadline: Moment,
        log_path: Seq<char>,
        response: EdtSessionResponseView,
    },
    Over,
}

impl View for EdtSyntaxPhase {
    type V = EdtSyntaxPhaseView;

    open spec fn view(&self) -> EdtSyntaxPhaseView {
        match *self {
            EdtSyntaxPhase::Preparing { run } => EdtSyntaxPhaseView::Preparing { run: run@ },
            EdtSyntaxPhase::Naming { run, dir, deadline } => EdtSyntaxPhaseView::Naming {
                run: run@,
                dir: dir@,
                deadline,
            },
            EdtSyntaxPhase::Submitted {
                run,
                dir,
                deadline,
                log_path,
            } => EdtSyntaxPhaseView::Submitted {
                run: run@,
                dir: dir@,
                deadline,
                log_path: log_path@,
            },
            EdtSyntaxPhase::Awaiting { run, log_path, error } => EdtSyntaxPhaseView::Awaiting {
                run: run@,
                log_path: log_path@,
                error: error@,
            },
            EdtSyntaxPhase::Reading {
                run,
                dir,
                deadline,
                log_path,
                response,
            } => EdtSyntaxPhaseView::Reading {
                run: run@,
                dir: dir@,
                deadline,
                log_path: log_path@,
                response: response@,
            },
            EdtSyntaxPhase::Over => EdtSyntaxPhaseView::Over,
        }
    }
}

/// Syntax check of EDT projects.
#[derive(Debug, PartialEq, Eq)]
pub struct EdtSyntaxCheck {
    pub work_path: String,
    pub timeout: Span,
    pub started: Moment,
    pub phase: EdtSyntaxPhase,
}

/// Mathematical value of [`EdtSyntaxCheck`].
pub struct EdtSyntaxCheckView {
    pub work_path: Seq<char>,
    pub timeout: Span,
    pub started: Moment,
    pub phase: EdtSyntaxPhaseView,
}

impl View for EdtSyntaxCheck {
    type V = EdtSyntaxCheckView;

    open spec fn view(&self) -> EdtSyntaxCheckView {
        EdtSyntaxCheckView {
            work_path: self.work_path@,
            timeout: self.timeout,
            started: self.started,
            phase: self.phase@,
        }
    }
}

/// What a check asks for.
#[derive(Debug, PartialEq, Eq)]
pub enum EdtSyntaxAsk {
    /// Prepare the directory of the logs below the work path.
    PrepareLogs { work_path: String },
    /// Give the time, the process and a running number that tell one log from another.
    StampLog,
    /// Hand the command to the shared session.
    Submit { command: String, deadline: Moment },
    /// Wait until the shared session is done with the interrupted command.
    AwaitCompletion,
    /// Read the log of a project.
    ReadLog { path: String },
    /// Nothing more: the check is over.
    Done { outcome: EdtSyntaxOutcome },
    /// The event answers another question. The last one stands.
    Repeat,
}

/// Mathematical value of [`EdtSyntaxAsk`].
pub enum EdtSyntaxAskView {
    PrepareLogs { work_path: Seq<char> },
    StampLog,
    Submit { command: Seq<char>, deadline: Moment },
    AwaitCompletion,
    ReadLog { path: Seq<char> },
    Done { outcome: EdtSyntaxOutcomeView },
    Repeat,
}

impl View for EdtSyntaxAsk {
    type V = EdtSyntaxAskView;

    open spec fn view(&self) -> EdtSyntaxAskView {
        match *self {
            EdtSyntaxAsk::PrepareLogs { work_path } => EdtSyntaxAskView::PrepareLogs {
                work_path: work_path@,
            },
            EdtSyntaxAsk::StampLog => EdtSyntaxAskView::StampLog,
            EdtSyntaxAsk::Submit { command, deadline } => EdtSyntaxAskView::Submit {
                command: command@,
                deadline,
            },
            EdtSyntaxAsk::AwaitCompletion => EdtSyntaxAskView::AwaitCompletion,
            EdtSyntaxAsk::ReadLog { path } => EdtSyntaxAskView::ReadLog { path: path@ },
            EdtSyntaxAsk::Done { outcome } => EdtSyntaxAskView::Done { outcome: outcome@ },
            EdtSyntaxAsk::Repeat => EdtSyntaxAskView::Repeat,
        }
    }
}

/// What the outside world answers.
#[derive(Debug, PartialEq, Eq)]
pub enum EdtSyntaxEvent {
    /// Directory of the logs, or why there is none.
    LogDirectory { outcome: Result<String, String> },
    /// What tells the log apart.
    Stamp { timestamp: u64, pid: u32, sequence: u64 },
    /// Answer of the shared session.
    Answer { answer: Result<EdtSessionResponse, EdtSessionError> },
    /// The shared session is done with the interrupted command.
    Completed,
    /// Contents of a log, or why it cannot be read.
    Log { contents: Result<String, String> },
}

/// Mathematical value of [`EdtSyntaxEvent`].
pub enum EdtSyntaxEventView {
    LogDirectory { outcome: Result<Seq<char>, Seq<char>> },
    Stamp { timestamp: u64, pid: u32, sequence: u64 },
    Answer { answer: Result<EdtSessionResponseView, EdtSessionErrorView> },
    Completed,
    Log { contents: Result<Seq<char>, Seq<char>> },
}

impl View for EdtSyntaxEvent {
    type V = EdtSyntaxEventView;

    open spec fn view(&self) -> EdtSyntaxEventView {
        match *self {
            EdtSyntaxEvent::LogDirectory { outcome } => EdtSyntaxEventView::LogDirectory {
                outcome: result_view(outcome),
            },
            EdtSyntaxEvent::Stamp { timestamp, pid, sequence } => EdtSyntaxEventView::Stamp {
                timestamp,
                pid,
                sequence,
            },
            EdtSyntaxEvent::Answer { answer } => EdtSyntaxEventView::Answer {
                answer: result_view(answer),
            },
            EdtSyntaxEvent::Completed => EdtSyntaxEventView::Completed,
            EdtSyntaxEvent::Log { contents } => EdtSyntaxEventView::Log {
                contents: result_view(contents),
            },
        }
    }
}

/// State of a check after an event, and what it asks for.
#[derive(Debug, PartialEq, Eq)]
pub struct EdtSyntaxStep {
    pub check: EdtSyntaxCheck,
    pub ask: EdtSyntaxAsk,
}

/// Mathematical value of [`EdtSyntaxStep`].
pub struct EdtSyntaxStepView {
    pub check: EdtSyntaxCheckView,
    pub ask: EdtSyntaxAskView,
}

impl View for EdtSyntaxStep {
    type V = EdtSyntaxStepView;

    open spec fn view(&self) -> EdtSyntaxStepView {
        EdtSyntaxStepView {
            check: self.check@,
            ask: self.ask@,
        }
    }
}

/// Issues by severity.
pub open spec fn summary_of(issues: Seq<IssueView>) -> SyntaxIssueSummary {
    SyntaxIssueSummary {
        errors: count_severity(issues, IssueSeverity::Error, issues.len() as int) as usize,
        warnings: count_severity(issues, IssueSeverity::Warning, issues.len() as int) as usize,
        info: count_severity(issues, IssueSeverity::Info, issues.len() as int) as usize,
    }
}

/// Outcome of a run through all projects.
pub open spec fn finished_outcome(run: EdtSyntaxRunView, elapsed: Span) -> EdtSyntaxOutcomeView {
    let result = run_result(run, summary_of(run.issues), elapsed);
    if run.status is Clean {
        EdtSyntaxOutcomeView::Clean(result)
    } else {
        EdtSyntaxOutcomeView::Failed {
            error: UseCaseErrorView {
                kind: UseCaseErrorKind::Runtime,
                message: finished_message(run.status, run.exit_code),
            },
            payload: Some(result),
        }
    }
}

/// Outcome of a failure.
pub open spec fn failed_outcome(
    failure: (UseCaseErrorView, Option<SyntaxCheckResultView>),
) -> EdtSyntaxOutcomeView {
    EdtSyntaxOutcomeView::Failed { error: failure.0, payload: failure.1 }
}

/// The check moves to a phase and asks.
pub open spec fn moves(
    s: EdtSyntaxCheckView,
    phase: EdtSyntaxPhaseView,
    ask: EdtSyntaxAskView,
) -> EdtSyntaxStepView {
    EdtSyntaxStepView { check: EdtSyntaxCheckView { phase, ..s }, ask }
}

/// The check ends.
pub open spec fn ends(s: EdtSyntaxCheckView, outcome: EdtSyntaxOutcomeView) -> EdtSyntaxStepView {
    moves(s, EdtSyntaxPhaseView::Over, EdtSyntaxAskView::Done { outcome })
}

/// Step to the project in turn, or to the end where none is left.
pub open spec fn goes_on(
    s: EdtSyntaxCheckView,
    run: EdtSyntaxRunView,
    dir: Seq<char>,
    deadline: Moment,
    elapsed: Span,
) -> EdtSyntaxStepView {
    if run.next < run.projects.len() {
        moves(s, EdtSyntaxPhaseView::Naming { run, dir, deadline }, EdtSyntaxAskView::StampLog)
    } else {
        ends(s, finished_outcome(run, elapsed))
    }
}

/// Path of the log of the project in turn.
pub open spec fn stamped_log(
    run: EdtSyntaxRunView,
    dir: Seq<char>,
    timestamp: u64,
    pid: u32,
    sequence: u64,
) -> Seq<char> {
    joined(
        run.host,
        dir,
        log_name(
            "edt_"@ + replaced_char(run.projects[run.next as int].name, ' ', '_'),
            timestamp,
            pid,
            sequence,
        ),
    )
}

/// Step on the answer of the shared session to the command in turn.
pub open spec fn answered(
    s: EdtSyntaxCheckView,
    run: EdtSyntaxRunView,
    dir: Seq<char>,
    deadline: Moment,
    log_path: Seq<char>,
    answer: Result<EdtSessionResponseView, EdtSessionErrorView>,
    elapsed: Span,
) -> EdtSyntaxStepView {
    match verdict(run, log_path, answer, elapsed) {
        AnswerVerdictView::Admission(error) => ends(s, EdtSyntaxOutcomeView::Refused(error)),
        AnswerVerdictView::ReadLog(response) => moves(
            s,
            EdtSyntaxPhaseView::Reading { run, dir, deadline, log_path, response },
            EdtSyntaxAskView::ReadLog { path: log_path },
        ),
        AnswerVerdictView::Failed { await_completion, error, result } => {
            if await_completion && answer is Err {
                moves(
                    s,
                    EdtSyntaxPhaseView::Awaiting { run, log_path, error: answer->Err_0 },
                    EdtSyntaxAskView::AwaitCompletion,
                )
            } else {
                ends(s, EdtSyntaxOutcomeView::Failed { error, payload: Some(result) })
            }
        },
    }
}

/// Step on an event.
pub open spec fn check_step(s: EdtSyntaxCheckView, event: EdtSyntaxEventView, now: Moment) ->
    EdtSyntaxStepView {
    let elapsed = time_until(now, s.started);
    match (s.phase, event) {
        (
            EdtSyntaxPhaseView::Preparing { run },
            EdtSyntaxEventView::LogDirectory { outcome },
        ) => match outcome {
            Ok(dir) => goes_on(
                s,
                run,
                dir,
                Moment { nanos: (now.nanos + s.timeout.nanos) as u128 },
                elapsed,
            ),
            Err(source) => ends(
                s,
                failed_outcome(
                    early_failure(
                        UseCaseErrorKind::Runtime,
                        "failed to prepare syntax platform logs directory '"@ + s.work_path
                            + "': "@ + source,
                        elapsed,
                    ),
                ),
            ),
        },
        (
            EdtSyntaxPhaseView::Naming { run, dir, deadline },
            EdtSyntaxEventView::Stamp { timestamp, pid, sequence },
        ) => {
            if run.next < run.projects.len() {
                let log_path = stamped_log(run, dir, timestamp, pid, sequence);
                moves(
                    s,
                    EdtSyntaxPhaseView::Submitted { run, dir, deadline, log_path },
                    EdtSyntaxAskView::Submit {
                        command: interactive_line(
                            validate_args(run.projects[run.next as int].source_path, log_path),
                        ),
                        deadline,
                    },
                )
            } else {
                ends(s, finished_outcome(run, elapsed))
            }
        },
        (
            EdtSyntaxPhaseView::Submitted { run, dir, deadline, log_path },
            EdtSyntaxEventView::Answer { answer },
        ) => answered(s, run, dir, deadline, log_path, answer, elapsed),
        (
            EdtSyntaxPhaseView::Awaiting { run, log_path, error },
            EdtSyntaxEventView::Completed,
        ) => match verdict(run, log_path, Err(error), elapsed) {
            AnswerVerdictView::Failed { await_completion, error, result } => ends(
                s,
                EdtSyntaxOutcomeView::Failed { error, payload: Some(result) },
            ),
            AnswerVerdictView::Admission(error) => ends(s, EdtSyntaxOutcomeView::Refused(error)),
            AnswerVerdictView::ReadLog(response) => ends(s, finished_outcome(run, elapsed)),
        },
        (
            EdtSyntaxPhaseView::Reading { run, dir, deadline, log_path, response },
            EdtSyntaxEventView::Log { contents },
        ) => {
            if run.next < run.projects.len() {
                goes_on(
                    s,
                    after_project(run, log_path, response, contents),
                    dir,
                    deadline,
                    elapsed,
                )
            } else {
                ends(s, finished_outcome(run, elapsed))
            }
        },
        _ => moves(s, s.phase, EdtSyntaxAskView::Repeat),
    }
}

/// How a check starts.
pub open spec fn check_start(
    config: AppConfigView,
    request: SyntaxRequestView,
    timeout: Span,
    host: HostPlatform,
    now: Moment,
) -> EdtSyntaxStepView {
    let idle = EdtSyntaxCheckView {
        work_path: config.work_path,
        timeout,
        started: now,
        phase: EdtSyntaxPhaseView::Over,
    };
    match started(config, request, host) {
        Ok(run) => moves(
            idle,
            EdtSyntaxPhaseView::Preparing { run },
            EdtSyntaxAskView::PrepareLogs { work_path: config.work_path },
        ),
        Err(message) => ends(
            idle,
            failed_outcome(
                early_failure(UseCaseErrorKind::Validation, message, Span { nanos: 0 }),
            ),
        ),
    }
}

fn finish_run(run: EdtSyntaxRun, elapsed: Span) -> (r: EdtSyntaxOutcome)
    ensures
        r@ == finished_outcome(run@, elapsed),
{
    match run.finish(elapsed) {
        Ok(result) => EdtSyntaxOutcome::Clean(result),
        Err(failure) => EdtSyntaxOutcome::Failed { error: failure.error, payload: failure.payload },
    }
}

fn fail(failure: UseCaseFailure<SyntaxCheckResult>) -> (r: EdtSyntaxOutcome)
    ensures
        r@ == failed_outcome(failure_view(failure)),
{
    EdtSyntaxOutcome::Failed { error: failure.error, payload: failure.payload }
}

impl EdtSyntaxCheck {
    /// Starts a check.
    pub fn start(
        config: &AppConfig,
        request: &SyntaxRequest,
        timeout: Span,
        host: HostPlatform,
        now: Moment,
    ) -> (r: EdtSyntaxStep)
        ensures
            r@ == check_start(config@, request@, timeout, host, now),
    {
        let work_path = config.work_path.clone();
        match EdtSyntaxRun::start(config, request, Span::zero(), host) {
            Ok(run) => {
                EdtSyntaxStep {
                    check: EdtSyntaxCheck {
                        work_path: work_path.clone(),
                        timeout,
                        started: now,
                        phase: EdtSyntaxPhase::Preparing { run },
                    },
                    ask: EdtSyntaxAsk::PrepareLogs { work_path },
                }
            },
            Err(failure) => {
                EdtSyntaxStep {
                    check: EdtSyntaxCheck {
                        work_path,
                        timeout,
                        started: now,
                        phase: EdtSyntaxPhase::Over,
                    },
                    ask: EdtSyntaxAsk::Done { outcome: fail(failure) },
                }
            },
        }
    }

    fn moved(self, phase: EdtSyntaxPhase, ask: EdtSyntaxAsk) -> (r: EdtSyntaxStep)
        ensures
            r@ == moves(self@, phase@, ask@),
    {
        EdtSyntaxStep { check: EdtSyntaxCheck { phase, ..self }, ask }
    }

    fn ended(self, outcome: EdtSyntaxOutcome) -> (r: EdtSyntaxStep)
        ensures
            r@ == ends(self@, outcome@),
    {
        self.moved(EdtSyntaxPhase::Over, EdtSyntaxAsk::Done { outcome })
    }

    fn go_on(self, run: EdtSyntaxRun, dir: String, deadline: Moment, elapsed: Span) -> (r:
        EdtSyntaxStep)
        ensures
            r@ == goes_on(self@, run@, dir@, deadline, elapsed),
    {
        if run.next < run.projects.len() {
            self.moved(EdtSyntaxPhase::Naming { run, dir, deadline }, EdtSyntaxAsk::StampLog)
        } else {
            self.ended(finish_run(run, elapsed))
        }
    }

    /// Takes an event.
    pub fn step(self, event: EdtSyntaxEvent, now: Moment) -> (r: EdtSyntaxStep)
        requires
            now.nanos + self.timeout.nanos <= u128::MAX,
        ensures
            r@ == check_step(self@, event@, now),
    {
        let elapsed = now.since(self.started);
        let deadline_from_now = now.plus(self.timeout);
        let EdtSyntaxCheck { work_path, timeout, started, phase } = self;
        let idle = EdtSyntaxCheck { work_path, timeout, started, phase: EdtSyntaxPhase::Over };
        match (phase, event) {
            (EdtSyntaxPhase::Preparing { run }, EdtSyntaxEvent::LogDirectory { outcome }) => {
                match outcome {
                    Ok(dir) => idle.go_on(run, dir, deadline_from_now, elapsed),
                    Err(source) => {
                        let failure = log_directory_failure(
                            idle.work_path.as_str(),
                            source.as_str(),
                            elapsed,
                        );
                        idle.ended(fail(failure))
                    },
                }
            },
            (
                EdtSyntaxPhase::Naming { run, dir, deadline },
                EdtSyntaxEvent::Stamp { timestamp, pid, sequence },
            ) => {
                match run.next_log_path(dir.as_str(), timestamp, pid, sequence) {
                    Some(log_path) => match run.next_command(log_path.as_str()) {
                        Some(command) => idle.moved(
                            EdtSyntaxPhase::Submitted { run, dir, deadline, log_path },
                            EdtSyntaxAsk::Submit { command, deadline },
                        ),
                        None => idle.ended(finish_run(run, elapsed)),
                    },
                    None => idle.ended(finish_run(run, elapsed)),
                }
            },
            (
                EdtSyntaxPhase::Submitted { run, dir, deadline, log_path },
                EdtSyntaxEvent::Answer { answer },
            ) => {
                let interruption = match &answer {
                    Ok(_) => None,
                    Err(error) => Some(error.clone()),
                };
                match run.judge_answer(log_path.as_str(), answer, elapsed) {
                    AnswerVerdict::Admission(error) => idle.ended(EdtSyntaxOutcome::Refused(error)),
                    AnswerVerdict::ReadLog(response) => {
                        let path = log_path.clone();
                        idle.moved(
                            EdtSyntaxPhase::Reading { run, dir, deadline, log_path, response },
                            EdtSyntaxAsk::ReadLog { path },
                        )
                    },
                    AnswerVerdict::Failed { await_completion, error, result } => {
                        match interruption {
                            Some(interruption) if await_completion => idle.moved(
                                EdtSyntaxPhase::Awaiting { run, log_path, error: interruption },
                                EdtSyntaxAsk::AwaitCompletion,
                            ),
                            _ => idle.ended(
                                EdtSyntaxOutcome::Failed { error, payload: Some(result) },
                            ),
                        }
                    },
                }
            },
            (
                EdtSyntaxPhase::Awaiting { run, log_path, error },
                EdtSyntaxEvent::Completed,
            ) => {
                match run.judge_answer(log_path.as_str(), Err(error), elapsed) {
                    AnswerVerdict::Failed { await_completion, error, result } => idle.ended(
                        EdtSyntaxOutcome::Failed { error, payload: Some(result) },
                    ),
                    AnswerVerdict::Admission(error) => idle.ended(EdtSyntaxOutcome::Refused(error)),
                    AnswerVerdict::ReadLog(_) => idle.ended(finish_run(run, elapsed)),
                }
            },
            (
                EdtSyntaxPhase::Reading { run, dir, deadline, log_path, response },
                EdtSyntaxEvent::Log { contents },
            ) => {
                if run.next < run.projects.len() {
                    let mut run = run;
                    run.take_project(log_path.as_str(), &response, &contents);
                    idle.go_on(run, dir, deadline, elapsed)
                } else {
                    idle.ended(finish_run(run, elapsed))
                }
            },
            (phase, _) => idle.moved(phase, EdtSyntaxAsk::Repeat),
        }
    }
}

// ---------------------------------------------------------------------------------------------
// Laws

/// An interruption of a running command is answered only once the command is over: the check
/// first waits for it.
pub proof fn interrupted_command_is_waited_for(
    s: EdtSyntaxCheckView,
    error: EdtSessionErrorView,
    now: Moment,
)
    requires
        s.phase is Submitted,
        error is RunningCancelled || error is RunningTimeout,
    ensures
        check_step(s, EdtSyntaxEventView::Answer { answer: Err(error) }, now).ask
            == EdtSyntaxAskView::AwaitCompletion,
{
}

/// A command that never left the queue ends the check at once, and the transport reports it.
pub proof fn refusal_of_the_queue_is_passed_on(
    s: EdtSyntaxCheckView,
    error: EdtSessionErrorView,
    now: Moment,
)
    requires
        s.phase is Submitted,
    ensures
        error is QueuedCancelled ==> check_step(
            s,
            EdtSyntaxEventView::Answer { answer: Err(error) },
            now,
        ).ask == (EdtSyntaxAskView::Done {
            outcome: EdtSyntaxOutcomeView::Refused(EdtSyntaxTransportError::QueuedCancelled),
        }),
        error is QueuedTimeout ==> check_step(
            s,
            EdtSyntaxEventView::Answer { answer: Err(error) },
            now,
        ).ask == (EdtSyntaxAskView::Done {
            outcome: EdtSyntaxOutcomeView::Refused(EdtSyntaxTransportError::QueuedTimeout),
        }),
{
}

/// A check that is over asks for nothing more, whatever comes.
pub proof fn ended_check_stays_ended(s: EdtSyntaxCheckView, event: EdtSyntaxEventView, now: Moment)
    requires
        s.phase is Over,
    ensures
        check_step(s, event, now) == moves(s, s.phase, EdtSyntaxAskView::Repeat),
{
}

/// What the outside world tells about one project.
pub struct ProjectTurn {
    pub timestamp: u64,
    pub pid: u32,
    pub sequence: u64,
    pub response: EdtSessionResponseView,
    pub contents: Result<Seq<char>, Seq<char>>,
}

/// State and question after the turn of one project.
pub open spec fn after_turn(s: EdtSyntaxCheckView, turn: ProjectTurn, now: Moment) ->
    EdtSyntaxStepView {
    let named = check_step(
        s,
        EdtSyntaxEventView::Stamp {
            timestamp: turn.timestamp,
            pid: turn.pid,
            sequence: turn.sequence,
        },
        now,
    );
    let replied = check_step(
        named.check,
        EdtSyntaxEventView::Answer { answer: Ok(turn.response) },
        now,
    );
    check_step(replied.check, EdtSyntaxEventView::Log { contents: turn.contents }, now)
}

/// What a turn reports of the project in turn.
pub open spec fn report_of(run: EdtSyntaxRunView, dir: Seq<char>, turn: ProjectTurn) ->
    ProjectReport {
    ProjectReport {
        log_path: stamped_log(run, dir, turn.timestamp, turn.pid, turn.sequence),
        response: turn.response,
        log: turn.contents,
    }
}

/// A project that was answered and whose log was looked at counts exactly once: the check goes on
/// with the next project, and after the last one ends with what all of them add up to.
pub proof fn turn_counts_one_project(
    s: EdtSyntaxCheckView,
    run: EdtSyntaxRunView,
    dir: Seq<char>,
    deadline: Moment,
    turn: ProjectTurn,
    now: Moment,
)
    requires
        s.phase == (EdtSyntaxPhaseView::Naming { run, dir, deadline }),
        run.next < run.projects.len() <= usize::MAX,
    ensures
        ({
            let report = report_of(run, dir, turn);
            let counted = after_project(run, report.log_path, report.response, report.log);
            &&& counted.next == run.next + 1
            &&& after_turn(s, turn, now) == goes_on(
                s,
                counted,
                dir,
                deadline,
                time_until(now, s.started),
            )
        }),
{
}

} // verus!
