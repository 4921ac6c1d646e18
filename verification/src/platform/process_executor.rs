//! Runs of child processes from beginning to end, one question to the outside world at a time.

use vstd::prelude::*;
use crate::outside::lossy_text;
use crate::platform::process::{
    default_policy, render_command, rendered_command, ProcessError, ProcessErrorView,
    ProcessExecutionPolicy, ProcessInterruption, ProcessInterruptionReason,
    ProcessInterruptionSafety, ProcessRequest, ProcessRequestView, ProcessResult,
    ProcessResultView, SpawnResult, SpawnResultView,
};
use crate::platform::process_run::{
    admit_run, after_spawn_failure, conclude_run, conclude_spawn, grace_step, log_write_failure,
    spawn_outcome, start_refusal, wait_step, ChildStatus, ChildStatusView,
    EXECUTABLE_BUSY_MAX_RETRIES, GraceAction, OutputWait, POLL_INTERVAL_MS, ProcessPoll,
    ProcessPollView, SpawnRetry, WaitAction, WaitActionView,
};
use crate::text::{clone_bytes, clone_opt, opt_text};
use crate::time::{millis_span, time_until, Moment, Span};

verus! {

/// What becomes of the output of a child.
#[derive(Clone, Copy, Debug, PartialEq, Eq, Structural)]
pub enum ProcessIoMode {
    Detached,
    Captured,
}

/// Output of a child that has completed.
#[derive(Debug, PartialEq, Eq)]
pub struct ObservedOutput {
    pub exit_code: i32,
    pub stdout: Vec<u8>,
    pub stderr: Vec<u8>,
    pub interruption: Option<ProcessInterruption>,
}

/// Mathematical value of [`ObservedOutput`].
pub struct ObservedOutputView {
    pub exit_code: i32,
    pub stdout: Seq<u8>,
    pub stderr: Seq<u8>,
    pub interruption: Option<ProcessInterruption>,
}

impl View for ObservedOutput {
    type V = ObservedOutputView;

    open spec fn view(&self) -> ObservedOutputView {
        ObservedOutputView {
            exit_code: self.exit_code,
            stdout: self.stdout@,
            stderr: self.stderr@,
            interruption: self.interruption,
        }
    }
}

/// Where a run stands.
#[derive(Debug, PartialEq, Eq)]
pub enum ProcessPhase {
    /// The executable is started.
    Starting { attempt: u64 },
    /// A detached child is given its startup probe.
    Probing { pid: u32 },
    /// The child is watched.
    Watching { observed: Option<ProcessInterruptionReason>, started: Moment },
    /// The child was asked to stop and is given its grace period.
    Stopping { error: ProcessError, since: Moment, grace: Span },
    /// The child is killed, or gone already, and is waited for.
    Ending { error: ProcessError },
    /// The output of the child is collected.
    Collecting { exit_code: i32, interruption: Option<ProcessInterruption> },
    /// Stdout is mirrored into its log.
    MirroringStdout { output: ObservedOutput },
    /// Stderr is mirrored into its log.
    MirroringStderr { output: ObservedOutput },
    /// The outcome was given.
    Over,
}

/// Mathematical value of [`ProcessPhase`].
pub enum ProcessPhaseView {
    Starting { attempt: u64 },
    Probing { pid: u32 },
    Watching { observed: Option<ProcessInterruptionReason>, started: Moment },
    Stopping { error: ProcessErrorView, since: Moment, grace: Span },
    Ending { error: ProcessErrorView },
    Collecting { exit_code: i32, interruption: Option<ProcessInterruption> },
    MirroringStdout { output: ObservedOutputView },
    MirroringStderr { output: ObservedOutputView },
    Over,
}

impl View for ProcessPhase {
    type V = ProcessPhaseView;

    open spec fn view(&self) -> ProcessPhaseView {
        match *self {
            ProcessPhase::Starting { attempt } => ProcessPhaseView::Starting { attempt },
            ProcessPhase::Probing { pid } => ProcessPhaseView::Probing { pid },
            ProcessPhase::Watching { observed, started } => ProcessPhaseView::Watching {
                observed,
                started,
            },
            ProcessPhase::Stopping { error, since, grace } => ProcessPhaseView::Stopping {
                error: error@,
                since,
                grace,
            },
            ProcessPhase::Ending { error } => ProcessPhaseView::Ending { error: error@ },
            ProcessPhase::Collecting { exit_code, interruption } => ProcessPhaseView::Collecting {
                exit_code,
                interruption,
            },
            ProcessPhase::MirroringStdout { output } => ProcessPhaseView::MirroringStdout {
                output: output@,
            },
            ProcessPhase::MirroringStderr { output } => ProcessPhaseView::MirroringStderr {
                output: output@,
            },
            ProcessPhase::Over => ProcessPhaseView::Over,
        }
    }
}

/// Run of a child process.
#[derive(Debug, PartialEq, Eq)]
pub struct ProcessRun {
    pub cmd: String,
    pub program: String,
    pub io_mode: ProcessIoMode,
    pub policy: ProcessExecutionPolicy,
    pub stdout_log_path: Option<String>,
    pub stderr_log_path: Option<String>,
    pub startup_probe: Option<Span>,
    pub phase: ProcessPhase,
}

/// Mathematical value of [`ProcessRun`].
pub struct ProcessRunView {
    pub cmd: Seq<char>,
    pub program: Seq<char>,
    pub io_mode: ProcessIoMode,
    pub policy: ProcessExecutionPolicy,
    pub stdout_log_path: Option<Seq<char>>,
    pub stderr_log_path: Option<Seq<char>>,
    pub startup_probe: Option<Span>,
    pub phase: ProcessPhaseView,
}

impl View for ProcessRun {
    type V = ProcessRunView;

    open spec fn view(&self) -> ProcessRunView {
        ProcessRunView {
            cmd: self.cmd@,
            program: self.program@,
            io_mode: self.io_mode,
            policy: self.policy,
            stdout_log_path: opt_text(self.stdout_log_path),
            stderr_log_path: opt_text(self.stderr_log_path),
            startup_probe: self.startup_probe,
            phase: self.phase@,
        }
    }
}

/// How a run ends.
#[derive(Debug, PartialEq, Eq)]
pub enum ProcessOutcome {
    Finished(ProcessResult),
    Spawned(SpawnResult),
    Failed(ProcessError),
}

/// Mathematical value of [`ProcessOutcome`].
pub enum ProcessOutcomeView {
    Finished(ProcessResultView),
    Spawned(SpawnResultView),
    Failed(ProcessErrorView),
}

impl View for ProcessOutcome {
    type V = ProcessOutcomeView;

    open spec fn view(&self) -> ProcessOutcomeView {
        match *self {
            ProcessOutcome::Finished(x0) => ProcessOutcomeView::Finished(x0@),
            ProcessOutcome::Spawned(x0) => ProcessOutcomeView::Spawned(x0@),
            ProcessOutcome::Failed(x0) => ProcessOutcomeView::Failed(x0@),
        }
    }
}

/// What a run asks for.
#[derive(Debug, PartialEq, Eq)]
pub enum ProcessAsk {
    /// Start the executable.
    Start { io_mode: ProcessIoMode },
    /// Pause, then start the executable again.
    StartAgain { pause: Span, io_mode: ProcessIoMode },
    /// Look at the child and the cancellation.
    Look,
    /// Pause, then look at the child and the cancellation.
    Pause { wait: Span },
    /// Ask the process group to stop, then look at the child and the cancellation.
    Terminate,
    /// Kill the process group and wait for the end of the child.
    Kill,
    /// Wait for the end of a child that is gone.
    Reap,
    /// Collect the output of the child.
    Collect,
    /// Write bytes to a log.
    WriteLog { path: String, bytes: Vec<u8> },
    /// Nothing more: the run is over.
    Done { outcome: ProcessOutcome },
    /// The event answers another question. The last one stands.
    Repeat,
}

/// Mathematical value of [`ProcessAsk`].
pub enum ProcessAskView {
    Start { io_mode: ProcessIoMode },
    StartAgain { pause: Span, io_mode: ProcessIoMode },
    Look,
    Pause { wait: Span },
    Terminate,
    Kill,
    Reap,
    Collect,
    WriteLog { path: Seq<char>, bytes: Seq<u8> },
    Done { outcome: ProcessOutcomeView },
    Repeat,
}

impl View for ProcessAsk {
    type V = ProcessAskView;

    open spec fn view(&self) -> ProcessAskView {
        match *self {
            ProcessAsk::Start { io_mode } => ProcessAskView::Start { io_mode },
            ProcessAsk::StartAgain { pause, io_mode } => ProcessAskView::StartAgain {
                pause,
                io_mode,
            },
            ProcessAsk::Look => ProcessAskView::Look,
            ProcessAsk::Pause { wait } => ProcessAskView::Pause { wait },
            ProcessAsk::Terminate => ProcessAskView::Terminate,
            ProcessAsk::Kill => ProcessAskView::Kill,
            ProcessAsk::Reap => ProcessAskView::Reap,
            ProcessAsk::Collect => ProcessAskView::Collect,
            ProcessAsk::WriteLog { path, bytes } => ProcessAskView::WriteLog {
                path: path@,
                bytes: bytes@,
            },
            ProcessAsk::Done { outcome } => ProcessAskView::Done { outcome: outcome@ },
            ProcessAsk::Repeat => ProcessAskView::Repeat,
        }
    }
}

/// What the outside world answers.
#[derive(Debug, PartialEq, Eq)]
pub enum ProcessEvent {
    Started { pid: u32 },
    StartFailed { busy: bool, source: String },
    Seen { status: ChildStatus, cancelled: bool },
    Gone,
    Output { stdout: Vec<u8>, stderr: Vec<u8> },
    LogWritten { failure: Option<String> },
}

/// Mathematical value of [`ProcessEvent`].
pub enum ProcessEventView {
    Started { pid: u32 },
    StartFailed { busy: bool, source: Seq<char> },
    Seen { status: ChildStatusView, cancelled: bool },
    Gone,
    Output { stdout: Seq<u8>, stderr: Seq<u8> },
    LogWritten { failure: Option<Seq<char>> },
}

impl View for ProcessEvent {
    type V = ProcessEventView;

    open spec fn view(&self) -> ProcessEventView {
        match *self {
            ProcessEvent::Started { pid } => ProcessEventView::Started { pid },
            ProcessEvent::StartFailed { busy, source } => ProcessEventView::StartFailed {
                busy,
                source: source@,
            },
            ProcessEvent::Seen { status, cancelled } => ProcessEventView::Seen {
                status: status@,
                cancelled,
            },
            ProcessEvent::Gone => ProcessEventView::Gone,
            ProcessEvent::Output { stdout, stderr } => ProcessEventView::Output {
                stdout: stdout@,
                stderr: stderr@,
            },
            ProcessEvent::LogWritten { failure } => ProcessEventView::LogWritten {
                failure: opt_text(failure),
            },
        }
    }
}

/// A run after an event, and what it asks for.
#[derive(Debug, PartialEq, Eq)]
pub struct ProcessStep {
    pub run: ProcessRun,
    pub ask: ProcessAsk,
}

/// Mathematical value of [`ProcessStep`].
pub struct ProcessStepView {
    pub run: ProcessRunView,
    pub ask: ProcessAskView,
}

impl View for ProcessStep {
    type V = ProcessStepView;

    open spec fn view(&self) -> ProcessStepView {
        ProcessStepView {
            run: self.run@,
            ask: self.ask@,
        }
    }
}

// ---------------------------------------------------------------------------------------------
// Transitions

/// A run moves to a phase and asks.
pub open spec fn moves(run: ProcessRunView, phase: ProcessPhaseView, ask: ProcessAskView) ->
    ProcessStepView {
    ProcessStepView { run: ProcessRunView { phase, ..run }, ask }
}

/// A run ends.
pub open spec fn ends(run: ProcessRunView, outcome: ProcessOutcomeView) -> ProcessStepView {
    moves(run, ProcessPhaseView::Over, ProcessAskView::Done { outcome })
}

/// A run fails.
pub open spec fn fails(run: ProcessRunView, error: ProcessErrorView) -> ProcessStepView {
    ends(run, ProcessOutcomeView::Failed(error))
}

/// Run of a request before its first attempt.
pub open spec fn fresh_run(
    request: ProcessRequestView,
    io_mode: ProcessIoMode,
    policy: ProcessExecutionPolicy,
) -> ProcessRunView {
    ProcessRunView {
        cmd: rendered_command(request.program, request.args),
        program: request.program,
        io_mode,
        policy,
        stdout_log_path: request.stdout_log_path,
        stderr_log_path: request.stderr_log_path,
        startup_probe: request.startup_probe,
        phase: ProcessPhaseView::Starting { attempt: 0 },
    }
}

/// How a run begins: it is refused, or the executable is started.
pub open spec fn run_begins(
    request: ProcessRequestView,
    policy: ProcessExecutionPolicy,
    cancelled: bool,
) -> ProcessStepView {
    let run = fresh_run(request, ProcessIoMode::Captured, policy);
    match start_refusal(run.cmd, policy, cancelled) {
        Some(error) => fails(run, error),
        None => moves(run, run.phase, ProcessAskView::Start { io_mode: ProcessIoMode::Captured }),
    }
}

/// Step on a failed attempt to start the executable: a busy one is tried again up to the limit.
pub open spec fn start_failed(
    run: ProcessRunView,
    attempt: u64,
    busy: bool,
    source: Seq<char>,
) -> ProcessStepView {
    if busy && attempt < EXECUTABLE_BUSY_MAX_RETRIES {
        moves(
            run,
            ProcessPhaseView::Starting { attempt: (attempt + 1) as u64 },
            ProcessAskView::StartAgain { pause: millis_span(10), io_mode: run.io_mode },
        )
    } else {
        fails(run, ProcessErrorView::SpawnFailed { cmd: run.cmd, source })
    }
}

/// Step on a started child.
pub open spec fn started(run: ProcessRunView, pid: u32, now: Moment) -> ProcessStepView {
    match run.io_mode {
        ProcessIoMode::Captured => moves(
            run,
            ProcessPhaseView::Watching { observed: None, started: now },
            ProcessAskView::Look,
        ),
        ProcessIoMode::Detached => match run.startup_probe {
            Some(wait) => moves(
                run,
                ProcessPhaseView::Probing { pid },
                ProcessAskView::Pause { wait },
            ),
            None => ends(
                run,
                ProcessOutcomeView::Spawned(SpawnResultView { pid, binary: run.program }),
            ),
        },
    }
}

/// Step on what the look at the end of the startup probe shows.
pub open spec fn probed(run: ProcessRunView, pid: u32, status: ChildStatusView) ->
    ProcessStepView {
    match spawn_outcome(run.cmd, pid, run.program, Some(status)) {
        Ok(result) => ends(run, ProcessOutcomeView::Spawned(result)),
        Err(error) => fails(run, error),
    }
}

/// Step on one look at the child.
pub open spec fn watched(
    run: ProcessRunView,
    observed: Option<ProcessInterruptionReason>,
    started: Moment,
    status: ChildStatusView,
    cancelled: bool,
    now: Moment,
) -> ProcessStepView {
    let poll = ProcessPollView { status, cancelled, elapsed: time_until(now, started) };
    let (observed, action) = wait_step(run.cmd, run.policy, observed, poll);
    match action {
        WaitActionView::Sleep => moves(
            run,
            ProcessPhaseView::Watching { observed, started },
            ProcessAskView::Pause { wait: millis_span(10) },
        ),
        WaitActionView::Complete { exit_code, interruption } => moves(
            run,
            ProcessPhaseView::Collecting { exit_code, interruption },
            ProcessAskView::Collect,
        ),
        WaitActionView::Fail { error } => fails(run, error),
        WaitActionView::Kill { error } => moves(
            run,
            ProcessPhaseView::Ending { error },
            ProcessAskView::Kill,
        ),
        WaitActionView::Terminate { grace, error } => moves(
            run,
            ProcessPhaseView::Stopping { error, since: now, grace },
            ProcessAskView::Terminate,
        ),
    }
}

/// Step on one look at a child that was asked to stop.
pub open spec fn stopping(
    run: ProcessRunView,
    error: ProcessErrorView,
    since: Moment,
    grace: Span,
    status: ChildStatusView,
    now: Moment,
) -> ProcessStepView {
    if time_until(now, since).nanos >= grace.nanos || status is Unknown {
        moves(run, ProcessPhaseView::Ending { error }, ProcessAskView::Kill)
    } else if status is Running {
        moves(
            run,
            ProcessPhaseView::Stopping { error, since, grace },
            ProcessAskView::Pause { wait: millis_span(10) },
        )
    } else {
        moves(run, ProcessPhaseView::Ending { error }, ProcessAskView::Reap)
    }
}

/// Result of a run whose child has completed.
pub open spec fn finished(output: ObservedOutputView) -> ProcessOutcomeView {
    ProcessOutcomeView::Finished(
        ProcessResultView {
            exit_code: output.exit_code,
            stdout: lossy_text(output.stdout),
            stderr: lossy_text(output.stderr),
            interruption: output.interruption,
        },
    )
}

/// Step once stdout is mirrored, or needs no mirror.
pub open spec fn mirrors_stderr(run: ProcessRunView, output: ObservedOutputView) ->
    ProcessStepView {
    match run.stderr_log_path {
        Some(path) => moves(
            run,
            ProcessPhaseView::MirroringStderr { output },
            ProcessAskView::WriteLog { path, bytes: output.stderr },
        ),
        None => ends(run, finished(output)),
    }
}

/// Step once the output is collected.
pub open spec fn mirrors_stdout(run: ProcessRunView, output: ObservedOutputView) ->
    ProcessStepView {
    match run.stdout_log_path {
        Some(path) => moves(
            run,
            ProcessPhaseView::MirroringStdout { output },
            ProcessAskView::WriteLog { path, bytes: output.stdout },
        ),
        None => mirrors_stderr(run, output),
    }
}

/// Path of a log, empty where there is none.
pub open spec fn path_or_empty(path: Option<Seq<char>>) -> Seq<char> {
    match path {
        Some(path) => path,
        None => Seq::empty(),
    }
}

/// Step of a run on an event.
pub open spec fn run_step(run: ProcessRunView, event: ProcessEventView, now: Moment) ->
    ProcessStepView {
    match (run.phase, event) {
        (ProcessPhaseView::Starting { attempt }, ProcessEventView::Started { pid }) => started(
            run,
            pid,
            now,
        ),
        (
            ProcessPhaseView::Starting { attempt },
            ProcessEventView::StartFailed { busy, source },
        ) => start_failed(run, attempt, busy, source),
        (
            ProcessPhaseView::Probing { pid },
            ProcessEventView::Seen { status, cancelled },
        ) => probed(run, pid, status),
        (
            ProcessPhaseView::Watching { observed, started },
            ProcessEventView::Seen { status, cancelled },
        ) => watched(run, observed, started, status, cancelled, now),
        (
            ProcessPhaseView::Stopping { error, since, grace },
            ProcessEventView::Seen { status, cancelled },
        ) => stopping(run, error, since, grace, status, now),
        (ProcessPhaseView::Ending { error }, ProcessEventView::Gone) => fails(run, error),
        (
            ProcessPhaseView::Collecting { exit_code, interruption },
            ProcessEventView::Output { stdout, stderr },
        ) => mirrors_stdout(run, ObservedOutputView { exit_code, stdout, stderr, interruption }),
        (
            ProcessPhaseView::MirroringStdout { output },
            ProcessEventView::LogWritten { failure },
        ) => match failure {
            None => mirrors_stderr(run, output),
            Some(source) => fails(
                run,
                ProcessErrorView::StdoutLogIo { path: path_or_empty(run.stdout_log_path), source },
            ),
        },
        (
            ProcessPhaseView::MirroringStderr { output },
            ProcessEventView::LogWritten { failure },
        ) => match failure {
            None => ends(run, finished(output)),
            Some(source) => fails(
                run,
                ProcessErrorView::StderrLogIo { path: path_or_empty(run.stderr_log_path), source },
            ),
        },
        _ => moves(run, run.phase, ProcessAskView::Repeat),
    }
}

impl ProcessRun {
    fn moved(self, phase: ProcessPhase, ask: ProcessAsk) -> (r: ProcessStep)
        ensures
            r@ == moves(self@, phase@, ask@),
    {
        ProcessStep { run: ProcessRun { phase, ..self }, ask }
    }

    fn ended(self, outcome: ProcessOutcome) -> (r: ProcessStep)
        ensures
            r@ == ends(self@, outcome@),
    {
        self.moved(ProcessPhase::Over, ProcessAsk::Done { outcome })
    }

    fn failed(self, error: ProcessError) -> (r: ProcessStep)
        ensures
            r@ == fails(self@, error@),
    {
        self.ended(ProcessOutcome::Failed(error))
    }

    fn finish(self, output: ObservedOutput) -> (r: ProcessStep)
        ensures
            r@ == ends(self@, finished(output@)),
    {
        let result = conclude_run(
            output.exit_code,
            &output.stdout,
            &output.stderr,
            output.interruption,
        );
        self.ended(ProcessOutcome::Finished(result))
    }

    fn mirror_stderr(self, output: ObservedOutput) -> (r: ProcessStep)
        ensures
            r@ == mirrors_stderr(self@, output@),
    {
        match clone_opt(&self.stderr_log_path) {
            Some(path) => {
                let bytes = clone_bytes(&output.stderr);
                self.moved(
                    ProcessPhase::MirroringStderr { output },
                    ProcessAsk::WriteLog { path, bytes },
                )
            },
            None => self.finish(output),
        }
    }

    fn mirror_stdout(self, output: ObservedOutput) -> (r: ProcessStep)
        ensures
            r@ == mirrors_stdout(self@, output@),
    {
        match clone_opt(&self.stdout_log_path) {
            Some(path) => {
                let bytes = clone_bytes(&output.stdout);
                self.moved(
                    ProcessPhase::MirroringStdout { output },
                    ProcessAsk::WriteLog { path, bytes },
                )
            },
            None => self.mirror_stderr(output),
        }
    }

    fn start(self, pid: u32, now: Moment) -> (r: ProcessStep)
        ensures
            r@ == started(self@, pid, now),
    {
        match self.io_mode {
            ProcessIoMode::Captured => self.moved(
                ProcessPhase::Watching { observed: None, started: now },
                ProcessAsk::Look,
            ),
            ProcessIoMode::Detached => match self.startup_probe {
                Some(wait) => self.moved(ProcessPhase::Probing { pid }, ProcessAsk::Pause { wait }),
                None => {
                    let binary = self.program.clone();
                    self.ended(ProcessOutcome::Spawned(SpawnResult { pid, binary }))
                },
            },
        }
    }

    fn retry(self, attempt: u64, busy: bool, source: String) -> (r: ProcessStep)
        ensures
            r@ == start_failed(self@, attempt, busy, source@),
    {
        match after_spawn_failure(self.cmd.as_str(), attempt, busy, source.as_str()) {
            SpawnRetry::After { pause } => {
                let io_mode = self.io_mode;
                self.moved(
                    ProcessPhase::Starting { attempt: attempt + 1 },
                    ProcessAsk::StartAgain { pause, io_mode },
                )
            },
            SpawnRetry::GiveUp { error } => self.failed(error),
        }
    }

    fn watch(
        self,
        observed: Option<ProcessInterruptionReason>,
        started: Moment,
        status: ChildStatus,
        cancelled: bool,
        now: Moment,
    ) -> (r: ProcessStep)
        ensures
            r@ == watched(self@, observed, started, status@, cancelled, now),
    {
        let mut wait = OutputWait { cmd: self.cmd.clone(), policy: self.policy, observed };
        let action = wait.poll(ProcessPoll { status, cancelled, elapsed: now.since(started) });
        match action {
            WaitAction::Sleep => self.moved(
                ProcessPhase::Watching { observed: wait.observed, started },
                ProcessAsk::Pause { wait: Span::from_millis(POLL_INTERVAL_MS) },
            ),
            WaitAction::Complete { exit_code, interruption } => self.moved(
                ProcessPhase::Collecting { exit_code, interruption },
                ProcessAsk::Collect,
            ),
            WaitAction::Fail { error } => self.failed(error),
            WaitAction::Kill { error } => self.moved(
                ProcessPhase::Ending { error },
                ProcessAsk::Kill,
            ),
            WaitAction::Terminate { grace, error } => self.moved(
                ProcessPhase::Stopping { error, since: now, grace },
                ProcessAsk::Terminate,
            ),
        }
    }

    fn stop(
        self,
        error: ProcessError,
        since: Moment,
        grace: Span,
        status: ChildStatus,
        now: Moment,
    ) -> (r: ProcessStep)
        ensures
            r@ == stopping(self@, error@, since, grace, status@, now),
    {
        match grace_step(&status, now.since(since), grace) {
            GraceAction::Kill => self.moved(ProcessPhase::Ending { error }, ProcessAsk::Kill),
            GraceAction::Sleep => self.moved(
                ProcessPhase::Stopping { error, since, grace },
                ProcessAsk::Pause { wait: Span::from_millis(POLL_INTERVAL_MS) },
            ),
            GraceAction::Done => self.moved(ProcessPhase::Ending { error }, ProcessAsk::Reap),
        }
    }

    /// Takes an event.
    pub fn step(self, event: ProcessEvent, now: Moment) -> (r: ProcessStep)
        ensures
            r@ == run_step(self@, event@, now),
    {
        let ProcessRun {
            cmd,
            program,
            io_mode,
            policy,
            stdout_log_path,
            stderr_log_path,
            startup_probe,
            phase,
        } = self;
        let idle = ProcessRun {
            cmd,
            program,
            io_mode,
            policy,
            stdout_log_path,
            stderr_log_path,
            startup_probe,
            phase: ProcessPhase::Over,
        };
        match (phase, event) {
            (ProcessPhase::Starting { attempt }, ProcessEvent::Started { pid }) => idle.start(
                pid,
                now,
            ),
            (ProcessPhase::Starting { attempt }, ProcessEvent::StartFailed { busy, source }) => {
                idle.retry(attempt, busy, source)
            },
            (ProcessPhase::Probing { pid }, ProcessEvent::Seen { status, cancelled }) => {
                match conclude_spawn(
                    idle.cmd.as_str(),
                    pid,
                    idle.program.as_str(),
                    Some(status),
                ) {
                    Ok(result) => idle.ended(ProcessOutcome::Spawned(result)),
                    Err(error) => idle.failed(error),
                }
            },
            (
                ProcessPhase::Watching { observed, started },
                ProcessEvent::Seen { status, cancelled },
            ) => idle.watch(observed, started, status, cancelled, now),
            (
                ProcessPhase::Stopping { error, since, grace },
                ProcessEvent::Seen { status, cancelled },
            ) => idle.stop(error, since, grace, status, now),
            (ProcessPhase::Ending { error }, ProcessEvent::Gone) => idle.failed(error),
            (
                ProcessPhase::Collecting { exit_code, interruption },
                ProcessEvent::Output { stdout, stderr },
            ) => idle.mirror_stdout(ObservedOutput { exit_code, stdout, stderr, interruption }),
            (ProcessPhase::MirroringStdout { output }, ProcessEvent::LogWritten { failure }) => {
                match failure {
                    None => idle.mirror_stderr(output),
                    Some(source) => {
                        let path = text_or_empty(&idle.stdout_log_path);
                        let error = log_write_failure(true, path.as_str(), source.as_str());
                        idle.failed(error)
                    },
                }
            },
            (ProcessPhase::MirroringStderr { output }, ProcessEvent::LogWritten { failure }) => {
                match failure {
                    None => idle.finish(output),
                    Some(source) => {
                        let path = text_or_empty(&idle.stderr_log_path);
                        let error = log_write_failure(false, path.as_str(), source.as_str());
                        idle.failed(error)
                    },
                }
            },
            (phase, _) => idle.moved(phase, ProcessAsk::Repeat),
        }
    }
}

fn text_or_empty(path: &Option<String>) -> (r: String)
    ensures
        r@ == path_or_empty(opt_text(*path)),
{
    match path {
        Some(path) => path.clone(),
        None => String::new(),
    }
}

/// Executor of child processes.
#[derive(Clone, Copy, Debug, PartialEq, Eq, Structural)]
pub struct ProcessExecutor;

impl ProcessExecutor {
    fn fresh(
        request: &ProcessRequest,
        io_mode: ProcessIoMode,
        policy: ProcessExecutionPolicy,
    ) -> (r: ProcessRun)
        ensures
            r@ == fresh_run(request@, io_mode, policy),
    {
        ProcessRun {
            cmd: render_command(request),
            program: request.program.clone(),
            io_mode,
            policy,
            stdout_log_path: clone_opt(&request.stdout_log_path),
            stderr_log_path: clone_opt(&request.stderr_log_path),
            startup_probe: request.startup_probe,
            phase: ProcessPhase::Starting { attempt: 0 },
        }
    }

    /// Begins a run without a limit.
    pub fn run(&self, request: &ProcessRequest) -> (r: ProcessStep)
        ensures
            r@ == run_begins(request@, default_policy(), false),
    {
        self.run_with_policy(request, &ProcessExecutionPolicy::default(), false)
    }

    /// Begins a run that is killed after the timeout.
    pub fn run_with_timeout(&self, request: &ProcessRequest, timeout: Span) -> (r: ProcessStep)
        ensures
            r@ == run_begins(
                request@,
                ProcessExecutionPolicy {
                    timeout: Some(timeout),
                    safety: ProcessInterruptionSafety::Interruptible,
                    graceful_shutdown_timeout: default_policy().graceful_shutdown_timeout,
                },
                false,
            ),
    {
        let policy = ProcessExecutionPolicy::new(
            Some(timeout),
            ProcessInterruptionSafety::Interruptible,
        );
        self.run_with_policy(request, &policy, false)
    }

    /// Begins a run under a policy, which may be cancelled already.
    pub fn run_with_policy(
        &self,
        request: &ProcessRequest,
        policy: &ProcessExecutionPolicy,
        cancelled: bool,
    ) -> (r: ProcessStep)
        ensures
            r@ == run_begins(request@, *policy, cancelled),
    {
        let run = Self::fresh(request, ProcessIoMode::Captured, *policy);
        match admit_run(run.cmd.as_str(), policy, cancelled) {
            Err(error) => run.failed(error),
            Ok(_) => run.moved(
                ProcessPhase::Starting { attempt: 0 },
                ProcessAsk::Start { io_mode: ProcessIoMode::Captured },
            ),
        }
    }

    /// Begins the start of a detached process.
    pub fn spawn(&self, request: &ProcessRequest) -> (r: ProcessStep)
        ensures
            r@ == moves(
                fresh_run(request@, ProcessIoMode::Detached, default_policy()),
                ProcessPhaseView::Starting { attempt: 0 },
                ProcessAskView::Start { io_mode: ProcessIoMode::Detached },
            ),
    {
        let run = Self::fresh(request, ProcessIoMode::Detached, ProcessExecutionPolicy::default());
        run.moved(
            ProcessPhase::Starting { attempt: 0 },
            ProcessAsk::Start { io_mode: ProcessIoMode::Detached },
        )
    }
}

// ---------------------------------------------------------------------------------------------
// Laws

/// A critical child is never killed and never asked to stop, whatever is observed.
pub proof fn critical_run_is_left_alone(run: ProcessRunView, event: ProcessEventView, now: Moment)
    requires
        run.policy.safety == ProcessInterruptionSafety::CriticalNonAbortable,
        !(run.phase is Stopping),
    ensures
        run_step(run, event, now).ask !is Kill,
        run_step(run, event, now).ask !is Terminate,
        !(run_step(run, event, now).run.phase is Stopping),
{
}

/// A busy executable is tried a bounded number of times: every attempt that is asked for stays
/// within the limit.
pub proof fn attempts_stay_within_the_limit(
    run: ProcessRunView,
    event: ProcessEventView,
    now: Moment,
)
    requires
        run_step(run, event, now).ask is StartAgain,
    ensures
        run_step(run, event, now).run.phase is Starting,
        run_step(run, event, now).run.phase->attempt <= EXECUTABLE_BUSY_MAX_RETRIES,
        run.phase is Starting,
        run_step(run, event, now).run.phase->attempt == run.phase->attempt + 1,
{
}

/// What is mirrored into a log is what was captured, and the result decodes the very same bytes.
pub proof fn logs_hold_what_was_captured(
    run: ProcessRunView,
    exit_code: i32,
    interruption: Option<ProcessInterruption>,
    stdout: Seq<u8>,
    stderr: Seq<u8>,
    out_log: Seq<char>,
    err_log: Seq<char>,
    now: Moment,
)
    requires
        run.phase == (ProcessPhaseView::Collecting { exit_code, interruption }),
        run.stdout_log_path == Some(out_log),
        run.stderr_log_path == Some(err_log),
    ensures
        ({
            let first = run_step(run, ProcessEventView::Output { stdout, stderr }, now);
            let second = run_step(first.run, ProcessEventView::LogWritten { failure: None }, now);
            let last = run_step(second.run, ProcessEventView::LogWritten { failure: None }, now);
            &&& first.ask == (ProcessAskView::WriteLog { path: out_log, bytes: stdout })
            &&& second.ask == (ProcessAskView::WriteLog { path: err_log, bytes: stderr })
            &&& last.ask == (ProcessAskView::Done {
                outcome: finished(ObservedOutputView { exit_code, stdout, stderr, interruption }),
            })
        }),
{
}

/// A run that is over stays over, whatever comes.
pub proof fn ended_run_stays_ended(run: ProcessRunView, event: ProcessEventView, now: Moment)
    requires
        run.phase is Over,
    ensures
        run_step(run, event, now) == moves(run, run.phase, ProcessAskView::Repeat),
{
}

} // verus!
