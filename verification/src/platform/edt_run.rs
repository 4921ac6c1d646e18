//! One EDT command from its preparation to its result, as a sequence of questions and answers.

use vstd::prelude::*;
use crate::mcp::edt_session::{
    EdtSessionError, EdtSessionErrorView, EdtSessionResponse, EdtSessionResponseView,
};
use crate::platform::edt::{
    budget_left, cap_left, effective, interactive_exit_code, interactive_failure,
    map_interactive_command_error, map_shared_session_error,
    output_indicates_interactive_command_error, process_error_from_interruption, remaining_budget,
    shared_failure, tighter, EdtBackend, EdtDsl, EdtDslView, EdtError, EdtErrorView,
};
use crate::platform::edt_command::{
    change_dir_line, export_args, export_command_arguments, export_path_args,
    export_project_path_command_arguments, import_args, import_command_arguments,
    import_configuration_files_command_arguments, import_files_args, interactive_line,
    process_args, process_arguments, render_interactive_change_dir_command,
    render_interactive_command, session_command, validate_args, validate_command_arguments,
};
use crate::platform::interactive::{
    InteractiveCommandExecution, InteractiveCommandExecutionView, InteractiveProcessError,
    InteractiveProcessErrorView,
};
use crate::platform::process::{
    ProcessError, ProcessErrorView, ProcessExecutionPolicy, ProcessInterruption, ProcessRequest,
    ProcessRequestView, ProcessResult, ProcessResultView,
};
use crate::platform::process_run::interruption_failure;
use crate::platform::result::{PlatformCommandResult, PlatformCommandResultView};
use crate::text::{cat4, clone_opt, clone_texts, opt_str, opt_text, result_view, texts, unit_view};
use crate::time::{Moment, Span};



verus! {

/// Where an EDT command stands.
#[derive(Debug, PartialEq, Eq)]
pub enum EdtPhase {
    /// The workspace is being prepared.
    Preparing,
    /// The command's process is running.
    Running,
    /// The session changes into the workspace.
    ChangingDir { started: Moment, limit: Span },
    /// The session executes the command.
    Commanding { started: Moment, limit: Span },
    /// It is being looked up whether the shared session is live.
    AskingLive,
    /// The shared session is being started.
    Starting { limit: Span },
    /// The shared session executes the command.
    Sharing { limit: Span },
    /// The log of the command is being read.
    Reading { process: ProcessResult, path: String },
    /// The command is over.
    Finished,
}

/// Mathematical value of [`EdtPhase`].
pub enum EdtPhaseView {
    Preparing,
    Running,
    ChangingDir { started: Moment, limit: Span },
    Commanding { started: Moment, limit: Span },
    AskingLive,
    Starting { limit: Span },
    Sharing { limit: Span },
    Reading { process: ProcessResultView, path: Seq<char> },
    Finished,
}

impl View for EdtPhase {
    type V = EdtPhaseView;

    open spec fn view(&self) -> EdtPhaseView {
        match *self {
            EdtPhase::Preparing => EdtPhaseView::Preparing,
            EdtPhase::Running => EdtPhaseView::Running,
            EdtPhase::ChangingDir { started, limit } => EdtPhaseView::ChangingDir {
                started,
                limit,
            },
            EdtPhase::Commanding { started, limit } => EdtPhaseView::Commanding { started, limit },
            EdtPhase::AskingLive => EdtPhaseView::AskingLive,
            EdtPhase::Starting { limit } => EdtPhaseView::Starting { limit },
            EdtPhase::Sharing { limit } => EdtPhaseView::Sharing { limit },
            EdtPhase::Reading { process, path } => EdtPhaseView::Reading {
                process: process@,
                path: path@,
            },
            EdtPhase::Finished => EdtPhaseView::Finished,
        }
    }
}

/// What the outside answers.
#[derive(Debug, PartialEq, Eq)]
pub enum EdtEvent {
    Prepared(Result<(), String>),
    ProcessDone(Result<ProcessResult, ProcessError>),
    CommandDone(Result<InteractiveCommandExecution, InteractiveProcessError>),
    SessionLive(bool),
    SharedDone(Result<EdtSessionResponse, EdtSessionError>),
    LogRead(Result<String, String>),
}

/// Mathematical value of [`EdtEvent`].
pub enum EdtEventView {
    Prepared(Result<(), Seq<char>>),
    ProcessDone(Result<ProcessResultView, ProcessErrorView>),
    CommandDone(Result<InteractiveCommandExecutionView, InteractiveProcessErrorView>),
    SessionLive(bool),
    SharedDone(Result<EdtSessionResponseView, EdtSessionErrorView>),
    LogRead(Result<Seq<char>, Seq<char>>),
}

impl View for EdtEvent {
    type V = EdtEventView;

    open spec fn view(&self) -> EdtEventView {
        match *self {
            EdtEvent::Prepared(x0) => EdtEventView::Prepared(unit_view(x0)),
            EdtEvent::ProcessDone(x0) => EdtEventView::ProcessDone(result_view(x0)),
            EdtEvent::CommandDone(x0) => EdtEventView::CommandDone(result_view(x0)),
            EdtEvent::SessionLive(x0) => EdtEventView::SessionLive(x0),
            EdtEvent::SharedDone(x0) => EdtEventView::SharedDone(result_view(x0)),
            EdtEvent::LogRead(x0) => EdtEventView::LogRead(result_view(x0)),
        }
    }
}

/// What is asked of the outside next.
#[derive(Debug, PartialEq, Eq)]
pub enum EdtAction {
    /// Create the workspace directory and remove an old log.
    Prepare { workspace: String, stale_log: Option<String> },
    /// Run a process.
    RunProcess { request: ProcessRequest, policy: ProcessExecutionPolicy },
    /// Execute a line in the session of the DSL.
    Execute { line: String, timeout: Span, policy: ProcessExecutionPolicy },
    /// Tell whether the shared session is live.
    AskLive,
    /// Execute a line in the shared session.
    ExecuteShared { line: String, timeout: Span },
    /// Read the log.
    ReadLog { path: String },
    /// The command has succeeded.
    Done { result: PlatformCommandResult },
    /// The command has failed.
    Fail { error: EdtError },
    /// The answer does not belong to the question; the question stands.
    Repeat,
}

/// Mathematical value of [`EdtAction`].
pub enum EdtActionView {
    Prepare { workspace: Seq<char>, stale_log: Option<Seq<char>> },
    RunProcess { request: ProcessRequestView, policy: ProcessExecutionPolicy },
    Execute { line: Seq<char>, timeout: Span, policy: ProcessExecutionPolicy },
    AskLive,
    ExecuteShared { line: Seq<char>, timeout: Span },
    ReadLog { path: Seq<char> },
    Done { result: PlatformCommandResultView },
    Fail { error: EdtErrorView },
    Repeat,
}

impl View for EdtAction {
    type V = EdtActionView;

    open spec fn view(&self) -> EdtActionView {
        match *self {
            EdtAction::Prepare { workspace, stale_log } => EdtActionView::Prepare {
                workspace: workspace@,
                stale_log: opt_text(stale_log),
            },
            EdtAction::RunProcess { request, policy } => EdtActionView::RunProcess {
                request: request@,
                policy,
            },
            EdtAction::Execute { line, timeout, policy } => EdtActionView::Execute {
                line: line@,
                timeout,
                policy,
            },
            EdtAction::AskLive => EdtActionView::AskLive,
            EdtAction::ExecuteShared { line, timeout } => EdtActionView::ExecuteShared {
                line: line@,
                timeout,
            },
            EdtAction::ReadLog { path } => EdtActionView::ReadLog { path: path@ },
            EdtAction::Done { result } => EdtActionView::Done { result: result@ },
            EdtAction::Fail { error } => EdtActionView::Fail { error: error@ },
            EdtAction::Repeat => EdtActionView::Repeat,
        }
    }
}

/// One EDT command.
#[derive(Debug, PartialEq, Eq)]
pub struct EdtRun {
    /// Arguments of the command's own process.
    pub args: Vec<String>,
    /// Line for an interactive prompt.
    pub line: String,
    /// Log that the command writes.
    pub out_log: Option<String>,
    /// Where the command stands.
    pub phase: EdtPhase,
}

/// Mathematical value of [`EdtRun`].
pub struct EdtRunView {
    pub args: Seq<Seq<char>>,
    pub line: Seq<char>,
    pub out_log: Option<Seq<char>>,
    pub phase: EdtPhaseView,
}

impl View for EdtRun {
    type V = EdtRunView;

    open spec fn view(&self) -> EdtRunView {
        EdtRunView {
            args: texts(self.args@),
            line: self.line@,
            out_log: opt_text(self.out_log),
            phase: self.phase@,
        }
    }
}

/// Policy of the command's own process at `now`: the tighter of the two limits.
pub open spec fn process_policy(dsl: EdtDslView, now: Moment) -> ProcessExecutionPolicy {
    ProcessExecutionPolicy {
        timeout: tighter(
            cap_left(dsl.timeout, dsl.budget_started_at, now),
            cap_left(dsl.execution_policy.timeout, dsl.budget_started_at, now),
        ),
        ..dsl.execution_policy
    }
}

/// Policy of a session command.
pub open spec fn session_policy(dsl: EdtDslView, limit: Span) -> ProcessExecutionPolicy {
    ProcessExecutionPolicy { timeout: Some(limit), ..dsl.execution_policy }
}

/// Failure of the command.
pub open spec fn failed(error: EdtErrorView) -> (EdtPhaseView, EdtActionView) {
    (EdtPhaseView::Finished, EdtActionView::Fail { error })
}

/// What follows the process result: reading the log where the command writes one.
pub open spec fn completed(run: EdtRunView, process: ProcessResultView) -> (
    EdtPhaseView,
    EdtActionView,
) {
    match run.out_log {
        Some(path) => (
            EdtPhaseView::Reading { process, path },
            EdtActionView::ReadLog { path },
        ),
        None => (
            EdtPhaseView::Finished,
            EdtActionView::Done {
                result: PlatformCommandResultView {
                    process,
                    platform_log_path: None,
                    platform_log: None,
                    platform_log_read_error: None,
                },
            },
        ),
    }
}

/// Process result made of the output of a session command.
pub open spec fn session_result(
    stdout: Seq<char>,
    stderr: Seq<char>,
    interruption: Option<ProcessInterruption>,
) -> ProcessResultView {
    ProcessResultView {
        exit_code: interactive_exit_code(stdout, stderr),
        stdout,
        stderr,
        interruption,
    }
}

/// First question to the backend.
pub open spec fn backend_start(dsl: EdtDslView, run: EdtRunView, now: Moment) -> (
    EdtPhaseView,
    EdtActionView,
) {
    match dsl.backend {
        EdtBackend::OneShot => (
            EdtPhaseView::Running,
            EdtActionView::RunProcess {
                request: ProcessRequestView {
                    program: dsl.binary,
                    args: run.args,
                    workdir: None,
                    stdout_log_path: None,
                    stderr_log_path: None,
                    startup_probe: None,
                },
                policy: process_policy(dsl, now),
            },
        ),
        EdtBackend::Interactive { command_timeout, .. } => {
            let limit = effective(dsl, command_timeout, now);
            (
                EdtPhaseView::ChangingDir { started: now, limit },
                EdtActionView::Execute {
                    line: change_dir_line(dsl.workspace),
                    timeout: budget_left(limit, now, now),
                    policy: session_policy(dsl, limit),
                },
            )
        },
        EdtBackend::SharedSession { .. } => (EdtPhaseView::AskingLive, EdtActionView::AskLive),
    }
}

/// Question that has the shared session execute the command.
pub open spec fn shared_command(dsl: EdtDslView, run: EdtRunView, now: Moment) -> (
    EdtPhaseView,
    EdtActionView,
) {
    match dsl.backend {
        EdtBackend::SharedSession { command_timeout, .. } => {
            let limit = effective(dsl, command_timeout, now);
            (
                EdtPhaseView::Sharing { limit },
                EdtActionView::ExecuteShared { line: run.line, timeout: limit },
            )
        },
        _ => (run.phase, EdtActionView::Repeat),
    }
}

/// Next phase and question, from the answer to the last question.
pub open spec fn edt_step(dsl: EdtDslView, run: EdtRunView, event: EdtEventView, now: Moment) -> (
    EdtPhaseView,
    EdtActionView,
) {
    match (run.phase, event) {
        (EdtPhaseView::Preparing, EdtEventView::Prepared(outcome)) => match outcome {
            Ok(_) => backend_start(dsl, run, now),
            Err(source) => failed(
                EdtErrorView::PrepareWorkspace { path: dsl.workspace, source },
            ),
        },
        (EdtPhaseView::Running, EdtEventView::ProcessDone(outcome)) => match outcome {
            Ok(process) => completed(run, process),
            Err(error) => failed(EdtErrorView::Spawn(error)),
        },
        (
            EdtPhaseView::ChangingDir { started, limit },
            EdtEventView::CommandDone(outcome),
        ) => match outcome {
            Ok(execution) => match execution.interruption {
                Some(interruption) => failed(
                    EdtErrorView::Spawn(
                        interruption_failure(
                            session_command(dsl.binary, dsl.workspace, run.line),
                            Some(limit),
                            interruption.reason,
                        ),
                    ),
                ),
                None => (
                    EdtPhaseView::Commanding { started, limit },
                    EdtActionView::Execute {
                        line: run.line,
                        timeout: budget_left(limit, started, now),
                        policy: session_policy(dsl, limit),
                    },
                ),
            },
            Err(error) => failed(interactive_failure(dsl.binary, dsl.workspace, run.line, error)),
        },
        (EdtPhaseView::Commanding { .. }, EdtEventView::CommandDone(outcome)) => match outcome {
            Ok(execution) => completed(
                run,
                session_result(
                    execution.output.stdout,
                    execution.output.stderr,
                    execution.interruption,
                ),
            ),
            Err(error) => failed(interactive_failure(dsl.binary, dsl.workspace, run.line, error)),
        },
        (EdtPhaseView::AskingLive, EdtEventView::SessionLive(live)) => match dsl.backend {
            EdtBackend::SharedSession { startup_timeout, .. } => if live {
                shared_command(dsl, run, now)
            } else {
                (
                    EdtPhaseView::Starting { limit: startup_timeout },
                    EdtActionView::ExecuteShared {
                        line: change_dir_line(dsl.workspace),
                        timeout: startup_timeout,
                    },
                )
            },
            _ => (run.phase, EdtActionView::Repeat),
        },
        (EdtPhaseView::Starting { limit }, EdtEventView::SharedDone(outcome)) => match outcome {
            Ok(_) => shared_command(dsl, run, now),
            Err(error) => failed(
                shared_failure(
                    dsl.binary,
                    dsl.workspace,
                    change_dir_line(dsl.workspace),
                    error,
                    limit,
                ),
            ),
        },
        (EdtPhaseView::Sharing { limit }, EdtEventView::SharedDone(outcome)) => match outcome {
            Ok(response) => completed(
                run,
                session_result(response.stdout, response.stderr, None),
            ),
            Err(error) => failed(
                shared_failure(dsl.binary, dsl.workspace, run.line, error, limit),
            ),
        },
        (EdtPhaseView::Reading { process, path }, EdtEventView::LogRead(outcome)) => (
            EdtPhaseView::Finished,
            EdtActionView::Done {
                result: PlatformCommandResultView {
                    process,
                    platform_log_path: Some(path),
                    platform_log: match outcome {
                        Ok(contents) => Some(contents),
                        Err(_) => None,
                    },
                    platform_log_read_error: match outcome {
                        Ok(_) => None,
                        Err(source) => Some(
                            "failed to read edt --file log '"@ + path + "': "@ + source,
                        ),
                    },
                },
            },
        ),
        _ => (run.phase, EdtActionView::Repeat),
    }
}


impl EdtRun {
    /// A command that is about to start, and its first question.
    fn start(dsl: &EdtDsl, command: &Vec<String>, line: String, out_log: Option<String>) -> (r: (
        Self,
        EdtAction,
    ))
        ensures
            r.0@ == (EdtRunView {
                args: process_args(dsl.workspace@, texts(command@)),
                line: line@,
                out_log: opt_text(out_log),
                phase: EdtPhaseView::Preparing,
            }),
            r.1@ == (EdtActionView::Prepare {
                workspace: dsl.workspace@,
                stale_log: opt_text(out_log),
            }),
    {
        let args = process_arguments(dsl.workspace.as_str(), command);
        let action = EdtAction::Prepare {
            workspace: dsl.workspace.clone(),
            stale_log: clone_opt(&out_log),
        };
        (EdtRun { args, line, out_log, phase: EdtPhase::Preparing }, action)
    }

    fn fail(self, error: EdtError) -> (r: (Self, EdtAction))
        ensures
            r.0@ == (EdtRunView { phase: EdtPhaseView::Finished, ..self@ }),
            r.1@ == (EdtActionView::Fail { error: error@ }),
    {
        (EdtRun { phase: EdtPhase::Finished, ..self }, EdtAction::Fail { error })
    }

    fn complete(self, process: ProcessResult) -> (r: (Self, EdtAction))
        ensures
            r.0@ == (EdtRunView { phase: completed(self@, process@).0, ..self@ }),
            r.1@ == completed(self@, process@).1,
    {
        match &self.out_log {
            Some(path) => {
                let p = path.clone();
                let q = path.clone();
                (
                    EdtRun { phase: EdtPhase::Reading { process, path: p }, ..self },
                    EdtAction::ReadLog { path: q },
                )
            },
            None => (
                EdtRun { phase: EdtPhase::Finished, ..self },
                EdtAction::Done {
                    result: PlatformCommandResult {
                        process,
                        platform_log_path: None,
                        platform_log: None,
                        platform_log_read_error: None,
                    },
                },
            ),
        }
    }

    fn session_output(
        stdout: String,
        stderr: String,
        interruption: Option<ProcessInterruption>,
    ) -> (r: ProcessResult)
        ensures
            r@ == session_result(stdout@, stderr@, interruption),
    {
        let exit_code: i32 = if output_indicates_interactive_command_error(
            stdout.as_str(),
            stderr.as_str(),
        ) {
            1
        } else {
            0
        };
        ProcessResult { exit_code, stdout, stderr, interruption }
    }

    fn ask_backend(self, dsl: &EdtDsl, now: Moment) -> (r: (Self, EdtAction))
        ensures
            r.0@ == (EdtRunView { phase: backend_start(dsl@, self@, now).0, ..self@ }),
            r.1@ == backend_start(dsl@, self@, now).1,
    {
        match dsl.backend {
            EdtBackend::OneShot => {
                let timeout = dsl.remaining_budget_cap(dsl.timeout, now);
                let cap = dsl.remaining_budget_cap(dsl.execution_policy.timeout, now);
                let limit = match (timeout, cap) {
                    (Some(t), Some(c)) => Some(t.min(c)),
                    (Some(t), None) => Some(t),
                    (None, c) => c,
                };
                let request = ProcessRequest {
                    program: dsl.binary.clone(),
                    args: clone_texts(&self.args),
                    workdir: None,
                    stdout_log_path: None,
                    stderr_log_path: None,
                    startup_probe: None,
                };
                let policy = ProcessExecutionPolicy { timeout: limit, ..dsl.execution_policy };
                (
                    EdtRun { phase: EdtPhase::Running, ..self },
                    EdtAction::RunProcess { request, policy },
                )
            },
            EdtBackend::Interactive { command_timeout, .. } => {
                let limit = dsl.effective_timeout(command_timeout, now);
                let action = EdtAction::Execute {
                    line: render_interactive_change_dir_command(dsl.workspace.as_str()),
                    timeout: remaining_budget(limit, now, now),
                    policy: ProcessExecutionPolicy {
                        timeout: Some(limit),
                        ..dsl.execution_policy
                    },
                };
                (EdtRun { phase: EdtPhase::ChangingDir { started: now, limit }, ..self }, action)
            },
            EdtBackend::SharedSession { .. } => (
                EdtRun { phase: EdtPhase::AskingLive, ..self },
                EdtAction::AskLive,
            ),
        }
    }

    fn ask_shared(self, dsl: &EdtDsl, now: Moment) -> (r: (Self, EdtAction))
        ensures
            r.0@ == (EdtRunView { phase: shared_command(dsl@, self@, now).0, ..self@ }),
            r.1@ == shared_command(dsl@, self@, now).1,
    {
        match dsl.backend {
            EdtBackend::SharedSession { command_timeout, .. } => {
                let limit = dsl.effective_timeout(command_timeout, now);
                let action = EdtAction::ExecuteShared { line: self.line.clone(), timeout: limit };
                (EdtRun { phase: EdtPhase::Sharing { limit }, ..self }, action)
            },
            _ => (self, EdtAction::Repeat),
        }
    }

    /// Takes in the answer to the last question and asks the next one.
    pub fn step(self, dsl: &EdtDsl, event: EdtEvent, now: Moment) -> (r: (Self, EdtAction))
        ensures
            r.0@ == (EdtRunView { phase: edt_step(dsl@, self@, event@, now).0, ..self@ }),
            r.1@ == edt_step(dsl@, self@, event@, now).1,
    {
        let EdtRun { args, line, out_log, phase } = self;
        match (phase, event) {
            (EdtPhase::Preparing, EdtEvent::Prepared(outcome)) => {
                let run = EdtRun { args, line, out_log, phase: EdtPhase::Preparing };
                match outcome {
                    Ok(_) => run.ask_backend(dsl, now),
                    Err(source) => run.fail(
                        EdtError::PrepareWorkspace { path: dsl.workspace.clone(), source },
                    ),
                }
            },
            (EdtPhase::Running, EdtEvent::ProcessDone(outcome)) => {
                let run = EdtRun { args, line, out_log, phase: EdtPhase::Running };
                match outcome {
                    Ok(process) => run.complete(process),
                    Err(error) => run.fail(EdtError::Spawn(error)),
                }
            },
            (EdtPhase::ChangingDir { started, limit }, EdtEvent::CommandDone(outcome)) => {
                match outcome {
                    Ok(execution) => match execution.interruption {
                        Some(interruption) => {
                            let error = process_error_from_interruption(
                                dsl.binary.as_str(),
                                dsl.workspace.as_str(),
                                line.as_str(),
                                interruption.reason,
                                limit,
                            );
                            let run = EdtRun { args, line, out_log, phase: EdtPhase::Finished };
                            run.fail(EdtError::Spawn(error))
                        },
                        None => {
                            let action = EdtAction::Execute {
                                line: line.clone(),
                                timeout: remaining_budget(limit, started, now),
                                policy: ProcessExecutionPolicy {
                                    timeout: Some(limit),
                                    ..dsl.execution_policy
                                },
                            };
                            let phase = EdtPhase::Commanding { started, limit };
                            (EdtRun { args, line, out_log, phase }, action)
                        },
                    },
                    Err(error) => {
                        let mapped = map_interactive_command_error(
                            dsl.binary.as_str(),
                            dsl.workspace.as_str(),
                            line.as_str(),
                            error,
                        );
                        let run = EdtRun { args, line, out_log, phase: EdtPhase::Finished };
                        run.fail(mapped)
                    },
                }
            },
            (EdtPhase::Commanding { started, limit }, EdtEvent::CommandDone(outcome)) => {
                match outcome {
                    Ok(execution) => {
                        let process = EdtRun::session_output(
                            execution.output.stdout,
                            execution.output.stderr,
                            execution.interruption,
                        );
                        let run = EdtRun { args, line, out_log, phase: EdtPhase::Finished };
                        run.complete(process)
                    },
                    Err(error) => {
                        let mapped = map_interactive_command_error(
                            dsl.binary.as_str(),
                            dsl.workspace.as_str(),
                            line.as_str(),
                            error,
                        );
                        let run = EdtRun { args, line, out_log, phase: EdtPhase::Finished };
                        run.fail(mapped)
                    },
                }
            },
            (EdtPhase::AskingLive, EdtEvent::SessionLive(live)) => {
                let run = EdtRun { args, line, out_log, phase: EdtPhase::AskingLive };
                match dsl.backend {
                    EdtBackend::SharedSession { startup_timeout, .. } => if live {
                        run.ask_shared(dsl, now)
                    } else {
                        let action = EdtAction::ExecuteShared {
                            line: render_interactive_change_dir_command(dsl.workspace.as_str()),
                            timeout: startup_timeout,
                        };
                        (
                            EdtRun { phase: EdtPhase::Starting { limit: startup_timeout }, ..run },
                            action,
                        )
                    },
                    _ => (run, EdtAction::Repeat),
                }
            },
            (EdtPhase::Starting { limit }, EdtEvent::SharedDone(outcome)) => {
                let run = EdtRun { args, line, out_log, phase: EdtPhase::Starting { limit } };
                match outcome {
                    Ok(_) => run.ask_shared(dsl, now),
                    Err(error) => {
                        let cd = render_interactive_change_dir_command(dsl.workspace.as_str());
                        let mapped = map_shared_session_error(
                            dsl.binary.as_str(),
                            dsl.workspace.as_str(),
                            cd.as_str(),
                            error,
                            limit,
                        );
                        run.fail(mapped)
                    },
                }
            },
            (EdtPhase::Sharing { limit }, EdtEvent::SharedDone(outcome)) => match outcome {
                Ok(response) => {
                    let process = EdtRun::session_output(response.stdout, response.stderr, None);
                    let run = EdtRun { args, line, out_log, phase: EdtPhase::Finished };
                    run.complete(process)
                },
                Err(error) => {
                    let mapped = map_shared_session_error(
                        dsl.binary.as_str(),
                        dsl.workspace.as_str(),
                        line.as_str(),
                        error,
                        limit,
                    );
                    let run = EdtRun { args, line, out_log, phase: EdtPhase::Finished };
                    run.fail(mapped)
                },
            },
            (EdtPhase::Reading { process, path }, EdtEvent::LogRead(outcome)) => {
                let result = match outcome {
                    Ok(contents) => PlatformCommandResult {
                        process,
                        platform_log_path: Some(path),
                        platform_log: Some(contents),
                        platform_log_read_error: None,
                    },
                    Err(source) => {
                        let why = cat4(
                            "failed to read edt --file log '",
                            path.as_str(),
                            "': ",
                            source.as_str(),
                        );
                        PlatformCommandResult {
                            process,
                            platform_log_path: Some(path),
                            platform_log: None,
                            platform_log_read_error: Some(why),
                        }
                    },
                };
                (
                    EdtRun { args, line, out_log, phase: EdtPhase::Finished },
                    EdtAction::Done { result },
                )
            },
            (phase, _) => (EdtRun { args, line, out_log, phase }, EdtAction::Repeat),
        }
    }
}

/// A command that has not been prepared yet.
pub open spec fn fresh_run(
    dsl: EdtDslView,
    command: Seq<Seq<char>>,
    out_log: Option<Seq<char>>,
) -> EdtRunView {
    EdtRunView {
        args: process_args(dsl.workspace, command),
        line: interactive_line(command),
        out_log,
        phase: EdtPhaseView::Preparing,
    }
}

/// First question of a command.
pub open spec fn first_action(dsl: EdtDslView, out_log: Option<Seq<char>>) -> EdtActionView {
    EdtActionView::Prepare { workspace: dsl.workspace, stale_log: out_log }
}

impl EdtDsl {
    /// Starts `export` of a project of the workspace.
    pub fn export_project(&self, project_name: &str, target: &str) -> (r: (EdtRun, EdtAction))
        ensures
            r.0@ == fresh_run(self@, export_args(project_name@, target@), None),
            r.1@ == first_action(self@, None),
    {
        let command = export_command_arguments(project_name, target);
        EdtRun::start(self, &command, render_interactive_command(&command), None)
    }

    /// Starts `export` of a project directory.
    pub fn export_project_path(&self, source: &str, target: &str) -> (r: (EdtRun, EdtAction))
        ensures
            r.0@ == fresh_run(self@, export_path_args(source@, target@), None),
            r.1@ == first_action(self@, None),
    {
        let command = export_project_path_command_arguments(source, target);
        EdtRun::start(self, &command, render_interactive_command(&command), None)
    }

    /// Starts `validate` of a project directory; the findings go to `out_log`.
    pub fn validate_project(&self, source: &str, out_log: &str) -> (r: (EdtRun, EdtAction))
        ensures
            r.0@ == fresh_run(self@, validate_args(source@, out_log@), Some(out_log@)),
            r.1@ == first_action(self@, Some(out_log@)),
    {
        let command = validate_command_arguments(source, out_log);
        EdtRun::start(
            self,
            &command,
            render_interactive_command(&command),
            Some(out_log.to_owned()),
        )
    }

    /// Starts `import` of a project directory.
    pub fn import_project(&self, source: &str) -> (r: (EdtRun, EdtAction))
        ensures
            r.0@ == fresh_run(self@, import_args(source@), None),
            r.1@ == first_action(self@, None),
    {
        let command = import_command_arguments(source);
        EdtRun::start(self, &command, render_interactive_command(&command), None)
    }

    /// Starts `import` of configuration files into a project.
    pub fn import_configuration_files(
        &self,
        target_project: &str,
        configuration_files: &str,
        version: Option<&str>,
        base_project_name: Option<&str>,
        build: bool,
    ) -> (r: (EdtRun, EdtAction))
        ensures
            r.0@ == fresh_run(
                self@,
                import_files_args(
                    target_project@,
                    configuration_files@,
                    opt_str(version),
                    opt_str(base_project_name),
                    build,
                ),
                None,
            ),
            r.1@ == first_action(self@, None),
    {
        let command = import_configuration_files_command_arguments(
            target_project,
            configuration_files,
            version,
            base_project_name,
            build,
        );
        EdtRun::start(self, &command, render_interactive_command(&command), None)
    }
}

// ---------------------------------------------------------------------------------------------
// Laws

/// Number of questions that may still follow.
pub open spec fn questions_left(phase: EdtPhaseView) -> nat {
    match phase {
        EdtPhaseView::Preparing => 5,
        EdtPhaseView::AskingLive => 4,
        EdtPhaseView::ChangingDir { .. } => 3,
        EdtPhaseView::Starting { .. } => 3,
        EdtPhaseView::Running => 2,
        EdtPhaseView::Commanding { .. } => 2,
        EdtPhaseView::Sharing { .. } => 2,
        EdtPhaseView::Reading { .. } => 1,
        EdtPhaseView::Finished => 0,
    }
}

/// Every answer that fits its question brings the command closer to its end; an answer that does
/// not fit changes nothing.
pub proof fn every_answer_counts(dsl: EdtDslView, run: EdtRunView, event: EdtEventView, now: Moment)
    ensures
        edt_step(dsl, run, event, now).1 is Repeat ==> edt_step(dsl, run, event, now).0
            == run.phase,
        edt_step(dsl, run, event, now).1 !is Repeat ==> questions_left(
            edt_step(dsl, run, event, now).0,
        ) < questions_left(run.phase),
{
}

/// A command ends exactly when it is done or has failed.
pub proof fn end_is_done_or_failed(
    dsl: EdtDslView,
    run: EdtRunView,
    event: EdtEventView,
    now: Moment,
)
    requires
        !(run.phase is Finished),
    ensures
        edt_step(dsl, run, event, now).0 is Finished <==> edt_step(dsl, run, event, now).1 is Done
            || edt_step(dsl, run, event, now).1 is Fail,
{
}

/// Changing into the workspace and the command itself share one limit: the time given to the
/// command is what the change of directory has left of it.
pub proof fn prelude_counts_against_the_limit(
    dsl: EdtDslView,
    run: EdtRunView,
    event: EdtEventView,
    now: Moment,
)
    requires
        run.phase is ChangingDir,
        run.phase->ChangingDir_started.nanos <= now.nanos,
        edt_step(dsl, run, event, now).1 is Execute,
    ensures
        edt_step(dsl, run, event, now).1->Execute_timeout.nanos + (now.nanos
            - run.phase->ChangingDir_started.nanos) <= run.phase->ChangingDir_limit.nanos
            || edt_step(dsl, run, event, now).1->Execute_timeout.nanos == 0,
{
}

/// Commands that reuse a session share its budget: a later command never gets more time.
pub proof fn budget_only_shrinks(
    dsl: EdtDslView,
    command_timeout: Span,
    earlier: Moment,
    later: Moment,
)
    requires
        earlier.nanos <= later.nanos,
    ensures
        effective(dsl, command_timeout, later).nanos <= effective(
            dsl,
            command_timeout,
            earlier,
        ).nanos,
{
}

/// A log that cannot be read does not fail the command: the process result is kept.
pub proof fn unreadable_log_keeps_the_result(
    dsl: EdtDslView,
    run: EdtRunView,
    source: Seq<char>,
    now: Moment,
)
    requires
        run.phase is Reading,
    ensures
        ({
            let action = edt_step(dsl, run, EdtEventView::LogRead(Err(source)), now).1;
            &&& action is Done
            &&& action->result.process == run.phase->process
            &&& action->result.platform_log is None
            &&& action->result.platform_log_read_error is Some
        }),
{
}

} // verus!
