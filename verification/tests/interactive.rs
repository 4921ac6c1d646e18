use std::collections::VecDeque;

use v8_runner::mcp::edt_session::{EdtSessionError, EdtSessionResponse};
use v8_runner::platform::edt::{EdtBackend, EdtDsl, EdtError};
use v8_runner::platform::edt_run::{EdtAction, EdtEvent, EdtRun};
use v8_runner::platform::interactive::{
    after_interactive_spawn_failure, render_command, InteractiveCommandExecution,
    InteractiveCommandOutput, InteractiveProcessError, InteractiveProcessRequest,
    InteractiveSpawnRetry, InteractiveStream, ShutdownOutcome,
};
use v8_runner::platform::interactive_finish::{Received, ShutdownStep};
use v8_runner::platform::interactive_run::{
    InteractiveAsk, InteractiveEvent, InteractiveStep, KillFault, StdinFault,
};
use v8_runner::platform::interactive_session::{InteractiveProcessExecutor, ReaderEvent};
use v8_runner::platform::process::{
    ProcessError, ProcessExecutionPolicy, ProcessInterruption, ProcessInterruptionAction,
    ProcessInterruptionReason, ProcessInterruptionSafety, ProcessRequest, ProcessResult,
};
use v8_runner::platform::process_run::ChildStatus;
use v8_runner::platform::prompt::{consume_until_prompt, find_prompt, flush_completed_bytes};
use v8_runner::platform::result::PlatformCommandResult;
use v8_runner::time::{Moment, Span};

const MARKER: &str = "Run '$exception printStackTrace' for error details";

fn at(millis: u64) -> Moment {
    Moment {
        nanos: u128::from(millis) * 1_000_000,
    }
}

fn ms(millis: u64) -> Span {
    Span::from_millis(millis)
}

/// Something that the child does, so many milliseconds after what it did before.
#[derive(Clone)]
enum Act {
    Stdout(u64, String),
    Stderr(u64, String),
    Exit(u64, i32),
    ClosePipes(u64),
}

fn out(text: &str) -> Act {
    Act::Stdout(0, text.to_owned())
}

fn err(text: &str) -> Act {
    Act::Stderr(0, text.to_owned())
}

fn later(delay: u64, text: &str) -> Act {
    Act::Stdout(delay, text.to_owned())
}

/// A child on a clock of its own, and the session with it.
struct Executor {
    now: u64,
    session: InteractiveProcessExecutor,
    events: VecDeque<(u64, ReaderEvent)>,
    exit_at: Option<(u64, i32)>,
    pipes_close_at: Option<u64>,
    killed: bool,
    stdin_fault: Option<StdinFault>,
    kill_fault: Option<KillFault>,
    shell: fn(&str) -> Vec<Act>,
    commands: Vec<String>,
}

impl Executor {
    fn play(&mut self, acts: Vec<Act>) {
        let mut time = self.now;
        for act in acts {
            match act {
                Act::Stdout(delay, text) => {
                    time += delay;
                    let bytes = text.into_bytes();
                    self.events
                        .push_back((time, ReaderEvent::Chunk(InteractiveStream::Stdout, bytes)));
                }
                Act::Stderr(delay, text) => {
                    time += delay;
                    let bytes = text.into_bytes();
                    self.events
                        .push_back((time, ReaderEvent::Chunk(InteractiveStream::Stderr, bytes)));
                }
                Act::Exit(delay, code) => {
                    time += delay;
                    self.exit_at = Some((time, code));
                }
                Act::ClosePipes(delay) => {
                    time += delay;
                    self.pipes_close_at = Some(time);
                }
            }
        }
    }

    fn status(&self) -> ChildStatus {
        match self.exit_at {
            Some((time, code)) if time <= self.now => ChildStatus::Exited { code: Some(code) },
            _ => ChildStatus::Running,
        }
    }

    fn next_event(&mut self) -> Option<ReaderEvent> {
        match self.events.front() {
            Some((time, _)) if *time <= self.now => self.events.pop_front().map(|(_, e)| e),
            _ => None,
        }
    }

    /// Waits for one event.
    fn receive(&mut self, wait: Span) -> Received {
        let end = self.now + wait.as_millis();
        loop {
            if let Some(event) = self.next_event() {
                return Received::Event(event);
            }
            if let Some(time) = self.pipes_close_at {
                if time <= self.now {
                    return Received::Disconnected;
                }
            }
            if self.now >= end {
                return Received::Timeout;
            }
            self.now += 1;
        }
    }

    /// Answers the questions of a run until it is over.
    fn drive(
        &mut self,
        mut step: InteractiveStep,
        cancel_at: Option<u64>,
    ) -> Result<InteractiveCommandExecution, InteractiveProcessError> {
        loop {
            let event = match step.ask {
                InteractiveAsk::Write { command } => {
                    self.commands.push(command.clone());
                    let acts = (self.shell)(&command);
                    self.play(acts);
                    InteractiveEvent::Written {
                        fault: self.stdin_fault.take(),
                    }
                }
                InteractiveAsk::Look => InteractiveEvent::Seen {
                    cancelled: cancel_at.map(|moment| moment <= self.now).unwrap_or(false),
                    status: self.status(),
                },
                InteractiveAsk::TakeReady => {
                    let mut events = vec![];
                    while let Some(event) = self.next_event() {
                        events.push(event);
                    }
                    InteractiveEvent::Ready { events }
                }
                InteractiveAsk::Receive { wait } => InteractiveEvent::Received {
                    what: self.receive(wait),
                },
                InteractiveAsk::LookAtChild | InteractiveAsk::CloseStdin => {
                    InteractiveEvent::Child {
                        status: self.status(),
                    }
                }
                InteractiveAsk::Pause { wait } => {
                    self.now += wait.as_millis();
                    InteractiveEvent::Child {
                        status: self.status(),
                    }
                }
                InteractiveAsk::Kill => {
                    self.killed = true;
                    InteractiveEvent::Killed {
                        failure: self.kill_fault.take(),
                    }
                }
                InteractiveAsk::Done { result } => return result,
                InteractiveAsk::Repeat => panic!("event out of turn"),
            };
            step = self.session.step(step.run, event, at(self.now));
        }
    }

    fn spawn(
        startup: Vec<Act>,
        shell: fn(&str) -> Vec<Act>,
        startup_timeout: u64,
    ) -> Result<Self, InteractiveProcessError> {
        let mut executor = Executor {
            now: 0,
            session: InteractiveProcessExecutor::new(vec![], 4242),
            events: VecDeque::new(),
            exit_at: None,
            pipes_close_at: None,
            killed: false,
            stdin_fault: None,
            kill_fault: None,
            shell,
            commands: vec![],
        };
        executor.play(startup);
        let step = executor.session.spawn(ms(startup_timeout), at(0));
        match executor.drive(step, None) {
            Ok(_) => Ok(executor),
            Err(error) => {
                assert!(executor.killed || !executor.session.live);
                Err(error)
            }
        }
    }

    fn execute(
        &mut self,
        command: &str,
        timeout: u64,
    ) -> Result<InteractiveCommandOutput, InteractiveProcessError> {
        let step = self.session.execute(command, ms(timeout));
        self.drive(step, None).map(|execution| {
            assert_eq!(execution.interruption, None);
            execution.output
        })
    }

    fn execute_with_policy(
        &mut self,
        command: &str,
        timeout: Span,
        policy: &ProcessExecutionPolicy,
        cancel_at: Option<u64>,
    ) -> Result<InteractiveCommandExecution, InteractiveProcessError> {
        let cancelled = cancel_at.map(|moment| moment <= self.now).unwrap_or(false);
        let step = self
            .session
            .execute_with_policy(command, timeout, *policy, cancelled);
        self.drive(step, cancel_at)
    }

    fn shutdown(&mut self, timeout: Span) -> Result<ShutdownOutcome, InteractiveProcessError> {
        self.session.begin_shutdown()?;
        let deadline = at(self.now).plus(timeout);
        loop {
            let status = self.status();
            match self.session.shutdown(status, at(self.now), deadline) {
                ShutdownStep::Sleep => self.now += 10,
                ShutdownStep::Done { outcome } => return Ok(outcome),
                ShutdownStep::Kill => {
                    self.killed = true;
                    return self.session.after_shutdown_kill(Ok(()));
                }
                ShutdownStep::Fail { error } => return Err(error),
            }
        }
    }

    fn kill(&mut self) -> Result<(), InteractiveProcessError> {
        if self.session.kill() {
            self.killed = true;
            self.session.kill_internal(Ok(()))?;
        }
        Ok(())
    }
}

/// What the child answers to a command.
fn repl(command: &str) -> Vec<Act> {
    if let Some(text) = command.strip_prefix("echo:") {
        return vec![out(&format!("{text}\n")), out("1C:EDT>")];
    }
    match command {
        "pid" => vec![out("4242\n"), out("1C:EDT>")],
        "prompt_newline" => vec![out("line-before-prompt\n"), out("1C:EDT>\n")],
        "split" => vec![out("chunk-one\n"), out("1C:"), later(50, "EDT>")],
        "stderr_prompt" => vec![err("warning\n"), err("1C:EDT>")],
        "literal_prompt" => vec![
            out("payload 1C:EDT> text\n"),
            out("second line\n"),
            out("1C:EDT>"),
        ],
        "fake_prompt_tail" => vec![out("payload tail 1C:EDT>")],
        "fake_prompt_tail_in_two" => vec![out("payload tail 1C:EDT"), later(5, ">")],
        "fake_prompt_tail_in_bytes" => "payload tail 1C:EDT>"
            .chars()
            .map(|c| later(1, &c.to_string()))
            .collect(),
        "prompt_in_bytes" => "payload\n1C:EDT>"
            .chars()
            .map(|c| later(1, &c.to_string()))
            .collect(),
        "hang" => vec![out("started\n"), later(2000, "1C:EDT>")],
        "prompt_exit" => vec![out("before-exit\n"), out("1C:EDT>"), Act::Exit(0, 0)],
        "drop_pipes" => vec![Act::ClosePipes(0)],
        "die" => vec![out("goodbye\n"), Act::Exit(0, 7)],
        "spawn_child" => vec![out("spawned\n"), out("1C:EDT>")],
        "noisy" => {
            let mut acts = vec![];
            for i in 0..2000 {
                acts.push(out(&format!("stdout-{i:04}\n")));
                acts.push(err(&format!("stderr-{i:04}\n")));
            }
            acts.push(out("1C:EDT>"));
            acts
        }
        other => vec![out(&format!("unknown:{other}\n")), out("1C:EDT>")],
    }
}

fn repl_with_space(command: &str) -> Vec<Act> {
    match command.strip_prefix("echo:") {
        Some(text) => vec![out(&format!("{text}\n")), out("1C:EDT> ")],
        None => vec![out("1C:EDT> ")],
    }
}

fn spawn_executor() -> Executor {
    Executor::spawn(vec![out("1C:EDT>")], repl, 200).expect("spawn executor")
}

/// Starts an executable: how often it was tried, and what came of it.
fn start(outcomes: &[Option<(bool, &str)>]) -> (u64, Result<(), InteractiveProcessError>) {
    let mut attempt: u64 = 0;
    loop {
        match outcomes[usize::try_from(attempt).expect("attempt")] {
            None => return (attempt + 1, Ok(())),
            Some((busy, source)) => {
                match after_interactive_spawn_failure(
                    "fake interactive command",
                    attempt,
                    busy,
                    source,
                ) {
                    InteractiveSpawnRetry::After { pause } => {
                        assert_eq!(pause, ms(10));
                        attempt += 1;
                    }
                    InteractiveSpawnRetry::GiveUp { error } => return (attempt + 1, Err(error)),
                }
            }
        }
    }
}

#[test]
fn interactive_spawn_retries_executable_busy_before_succeeding() {
    let (attempts, outcome) = start(&[Some((true, "Text file busy")), None]);

    assert_eq!(attempts, 2);
    assert!(outcome.is_ok());
}

#[test]
fn interactive_spawn_does_not_retry_non_executable_busy_errors() {
    let (attempts, outcome) = start(&[Some((false, "missing binary")), None]);

    assert_eq!(attempts, 1);
    assert!(matches!(
        outcome,
        Err(InteractiveProcessError::SpawnFailed { .. })
    ));
}

#[test]
fn interactive_spawn_gives_a_busy_executable_up_at_last() {
    let busy = Some((true, "Text file busy"));
    let (attempts, outcome) = start(&[busy, busy, busy, busy, busy, busy]);

    assert_eq!(attempts, 6);
    assert!(outcome.is_err());
}

#[test]
fn startup_waits_for_prompt() {
    let executor = spawn_executor();

    assert!(executor.session.pid().expect("pid") > 0);
    assert!(executor.session.kill());
}

#[test]
fn startup_prompt_on_stderr_is_supported() {
    let executor = Executor::spawn(vec![err("1C:EDT>")], repl, 200).expect("spawn executor");

    assert!(executor.session.kill());
}

#[test]
fn startup_prompt_with_trailing_space_is_supported() {
    let executor = Executor::spawn(vec![out("1C:EDT> ")], repl, 200).expect("spawn executor");

    assert!(executor.session.kill());
}

#[test]
fn startup_timeout_kills_process() {
    match Executor::spawn(vec![later(2000, "1C:EDT>")], repl, 50) {
        Err(error) => assert!(matches!(
            error,
            InteractiveProcessError::StartupTimeout { timeout_ms: 50, .. }
        )),
        Ok(_) => panic!("startup must time out"),
    }
}

#[test]
fn startup_reports_process_exit_before_prompt() {
    match Executor::spawn(vec![out("booting\n"), Act::Exit(0, 9)], repl, 200) {
        Err(error) => assert!(matches!(
            error,
            InteractiveProcessError::ProcessExited { exit_code: 9, .. }
        )),
        Ok(_) => panic!("startup must fail"),
    }
}

#[test]
fn startup_prompt_then_exit_is_reported_as_process_exited() {
    match Executor::spawn(vec![out("1C:EDT>\n"), Act::Exit(0, 0)], repl, 200) {
        Err(error) => assert!(matches!(
            error,
            InteractiveProcessError::ProcessExited { exit_code: 0, .. }
        )),
        Ok(_) => panic!("startup prompt followed by exit must fail"),
    }
}

#[test]
fn repeated_commands_reuse_same_process() {
    let mut executor = spawn_executor();

    let first = executor.execute("pid", 200).expect("first");
    let second = executor.execute("pid", 200).expect("second");

    assert_eq!(first.stdout.trim(), second.stdout.trim());
    let pid = executor.session.pid().expect("pid");
    assert_eq!(pid.to_string(), first.stdout.trim());
}

#[test]
fn prompt_split_across_chunks_is_detected() {
    let mut executor = spawn_executor();

    let output = executor.execute("split", 500).expect("output");

    assert_eq!(output.stdout, "chunk-one\n");
    assert!(output.stderr.is_empty());
}

#[test]
fn prompt_followed_by_newline_is_supported() {
    let mut executor = spawn_executor();

    let output = executor.execute("prompt_newline", 200).expect("output");

    assert_eq!(output.stdout, "line-before-prompt\n");
}

#[test]
fn prompt_on_stderr_is_supported() {
    let mut executor = spawn_executor();

    let output = executor.execute("stderr_prompt", 200).expect("output");

    assert!(output.stdout.is_empty());
    assert_eq!(output.stderr, "warning\n");
}

#[test]
fn literal_prompt_inside_payload_does_not_finish_early() {
    let mut executor = spawn_executor();

    let output = executor.execute("literal_prompt", 200).expect("output");

    assert_eq!(output.stdout, "payload 1C:EDT> text\nsecond line\n");
}

#[test]
fn command_timeout_kills_process_and_poison_fails_next_call() {
    let mut executor = spawn_executor();

    let error = executor
        .execute("hang", 50)
        .expect_err("command must time out");

    assert!(matches!(
        error,
        InteractiveProcessError::CommandTimeout { .. }
    ));
    assert!(executor.killed);
    assert!(matches!(
        executor.execute("pid", 50),
        Err(InteractiveProcessError::Poisoned | InteractiveProcessError::Terminated)
    ));
}

#[test]
fn process_exit_during_command_is_reported_immediately() {
    let mut executor = spawn_executor();

    let error = executor.execute("die", 1000).expect_err("child must exit");

    assert!(matches!(
        error,
        InteractiveProcessError::ProcessExited { exit_code: 7, .. }
    ));
}

#[test]
fn prompt_then_immediate_exit_returns_process_exited() {
    let mut executor = spawn_executor();

    let error = executor
        .execute("prompt_exit", 200)
        .expect_err("prompt followed by exit must fail");

    assert!(matches!(
        error,
        InteractiveProcessError::ProcessExited { exit_code: 0, .. }
    ));
}

#[test]
fn literal_prompt_at_payload_tail_does_not_finish_command() {
    let mut executor = spawn_executor();

    let error = executor
        .execute("fake_prompt_tail", 50)
        .expect_err("payload tail must not count as prompt");

    assert!(matches!(
        error,
        InteractiveProcessError::CommandTimeout { .. }
    ));
}

#[test]
fn payload_tail_in_pieces_does_not_finish_command() {
    for command in ["fake_prompt_tail_in_two", "fake_prompt_tail_in_bytes"] {
        let mut executor = spawn_executor();

        let error = executor
            .execute(command, 50)
            .expect_err("payload tail must not count as prompt");

        match error {
            InteractiveProcessError::CommandTimeout { stdout, .. } => {
                assert_eq!(stdout, "payload tail 1C:EDT>");
            }
            other => panic!("unexpected error: {other:?}"),
        }
        assert!(executor.killed);
        assert_eq!(executor.session.pid(), None);
        assert!(matches!(
            executor.execute("pid", 50),
            Err(InteractiveProcessError::Poisoned | InteractiveProcessError::Terminated)
        ));
    }
}

#[test]
fn prompt_in_pieces_finishes_command() {
    let mut executor = spawn_executor();

    let output = executor.execute("prompt_in_bytes", 200).expect("output");
    assert_eq!(output.stdout, "payload\n");

    let output = executor.execute("echo:next", 200).expect("output");
    assert_eq!(output.stdout, "next\n");
}

#[test]
fn command_prompt_with_trailing_space_is_supported() {
    let mut executor =
        Executor::spawn(vec![out("1C:EDT> ")], repl_with_space, 200).expect("spawn executor");

    let output = executor.execute("echo:ok", 200).expect("output");

    assert_eq!(output.stdout, "ok\n");
    assert_eq!(output.stderr, "");
}

#[test]
fn stdio_disconnect_kills_child_process() {
    let mut executor = spawn_executor();

    let error = executor
        .execute("drop_pipes", 200)
        .expect_err("disconnect must fail");

    assert!(matches!(
        error,
        InteractiveProcessError::ProcessExited { .. }
    ));
    assert!(executor.killed);
}

#[test]
fn graceful_shutdown_closes_process() {
    let mut executor = spawn_executor();

    let outcome = executor.shutdown(ms(100)).expect("shutdown result");

    assert!(matches!(outcome, ShutdownOutcome::ForcedKill));
    assert!(matches!(
        executor.shutdown(ms(100)),
        Err(InteractiveProcessError::Terminated)
    ));
}

#[test]
fn child_that_ends_by_itself_is_shut_down_gracefully() {
    let mut executor = spawn_executor();
    executor.exit_at = Some((executor.now + 30, 0));

    let outcome = executor.shutdown(ms(100)).expect("shutdown result");

    assert_eq!(outcome, ShutdownOutcome::Graceful { exit_code: 0 });
    assert!(!executor.killed);
}

#[test]
fn kill_terminates_background_child_processes() {
    let mut executor = spawn_executor();
    executor.execute("spawn_child", 200).expect("output");

    executor.kill().expect("kill executor");

    assert!(executor.killed);
    assert!(!executor.session.kill());
    assert!(matches!(
        executor.execute("pid", 50),
        Err(InteractiveProcessError::Terminated)
    ));
}

#[test]
fn large_output_does_not_deadlock() {
    let mut executor = spawn_executor();

    let output = executor.execute("noisy", 2000).expect("output");

    assert!(output.stdout.contains("stdout-1999"));
    assert!(output.stderr.contains("stderr-1999"));

    let next = executor.execute("echo:after", 200).expect("output");
    assert_eq!(next.stdout, "after\n");
    assert!(next.stderr.is_empty());
}

/// Runs a command whose child writes the prompt and is gone, with something else on its way, by the
/// time that the prompt has been read.
fn prompt_then_exit_with(
    trailing: ReaderEvent,
    policy: Option<ProcessExecutionPolicy>,
) -> (Executor, InteractiveProcessError) {
    let mut executor = spawn_executor();
    let when = executor.now;
    let prompt = b"before\n1C:EDT>".to_vec();
    executor
        .events
        .push_back((when, ReaderEvent::Chunk(InteractiveStream::Stdout, prompt)));
    executor.events.push_back((when, trailing));
    let step = match policy {
        None => executor.session.execute("cmd", ms(200)),
        Some(policy) => executor
            .session
            .execute_with_policy("cmd", ms(200), policy, false),
    };
    assert_eq!(
        step.ask,
        InteractiveAsk::Write {
            command: "cmd".to_owned()
        }
    );
    let written = InteractiveEvent::Written { fault: None };
    let step = executor.session.step(step.run, written, at(when));
    assert_eq!(step.ask, InteractiveAsk::Look);
    let seen = InteractiveEvent::Seen {
        cancelled: false,
        status: ChildStatus::Running,
    };
    let step = executor.session.step(step.run, seen, at(when));
    assert!(matches!(step.ask, InteractiveAsk::Receive { .. }));
    let what = executor.receive(ms(10));
    let received = InteractiveEvent::Received { what };
    let step = executor.session.step(step.run, received, at(when));
    assert_eq!(step.ask, InteractiveAsk::Look);
    executor.exit_at = Some((when, 3));
    let error = executor.drive(step, None).expect_err("child must exit");
    (executor, error)
}

#[test]
fn output_behind_the_prompt_of_an_exited_child_is_reported() {
    let trailing = || ReaderEvent::Chunk(InteractiveStream::Stderr, b"last words".to_vec());
    let exited = InteractiveProcessError::ProcessExited {
        exit_code: 3,
        stdout: "before\n".to_owned(),
        stderr: "last words".to_owned(),
    };

    let (mut executor, error) = prompt_then_exit_with(trailing(), None);
    assert_eq!(error, exited);
    assert_eq!(
        executor.execute("pid", 50),
        Err(InteractiveProcessError::Poisoned)
    );

    let policy =
        ProcessExecutionPolicy::new(Some(ms(200)), ProcessInterruptionSafety::Interruptible);
    let (_, error) = prompt_then_exit_with(trailing(), Some(policy));
    assert_eq!(error, exited);
}

#[test]
fn unreadable_output_behind_the_prompt_of_an_exited_child_fails_the_command() {
    let broken = ReaderEvent::ReadError(InteractiveStream::Stdout, "broken pipe".to_owned());

    let (mut executor, error) = prompt_then_exit_with(broken, None);

    assert_eq!(
        error,
        InteractiveProcessError::StreamReadFailed {
            stream: InteractiveStream::Stdout,
            message: "broken pipe".to_owned()
        }
    );
    assert_eq!(
        executor.execute("pid", 50),
        Err(InteractiveProcessError::Poisoned)
    );
}

#[test]
fn unreadable_output_of_an_exited_child_fails_the_command() {
    let mut executor = spawn_executor();
    let when = executor.now;
    executor.shell = |_| vec![Act::Exit(0, 7)];
    executor.events.push_back((
        when,
        ReaderEvent::ReadError(InteractiveStream::Stdout, "broken pipe".to_owned()),
    ));

    assert_eq!(
        executor.execute("pid", 200),
        Err(InteractiveProcessError::StreamReadFailed {
            stream: InteractiveStream::Stdout,
            message: "broken pipe".to_owned()
        })
    );
    assert!(executor.killed);
}

#[test]
fn child_that_cannot_be_killed_is_reported() {
    for (fault, failure) in [
        (
            KillFault::Kill {
                source: "denied".to_owned(),
            },
            InteractiveProcessError::KillFailed {
                source: "denied".to_owned(),
            },
        ),
        (
            KillFault::Wait {
                source: "lost".to_owned(),
            },
            InteractiveProcessError::WaitFailed {
                source: "lost".to_owned(),
            },
        ),
    ] {
        let mut executor = spawn_executor();
        executor.kill_fault = Some(fault);

        assert_eq!(executor.execute("hang", 50), Err(failure));
        assert!(executor.session.live);
    }
}

#[test]
fn unreadable_stream_spoils_the_session() {
    let mut executor = spawn_executor();
    let when = executor.now;
    executor.events.push_back((
        when,
        ReaderEvent::ReadError(InteractiveStream::Stderr, "broken pipe".to_owned()),
    ));

    let error = executor.execute("pid", 200).expect_err("read error");

    assert_eq!(
        error,
        InteractiveProcessError::StreamReadFailed {
            stream: InteractiveStream::Stderr,
            message: "broken pipe".to_owned()
        }
    );
    assert!(matches!(
        executor.execute("pid", 50),
        Err(InteractiveProcessError::Poisoned)
    ));
}

#[test]
fn output_is_decoded_even_where_it_is_no_text() {
    let mut executor = spawn_executor();
    let when = executor.now;
    executor.events.push_back((
        when,
        ReaderEvent::Chunk(InteractiveStream::Stdout, vec![0xff, b'\n']),
    ));

    let output = executor.execute("echo:x", 200).expect("output");

    assert_eq!(output.stdout, "\u{fffd}\nx\n");
}

#[test]
fn prompt_is_found_at_the_end_only() {
    let prompt = b"1C:EDT>".to_vec();
    assert_eq!(find_prompt(true, &b"a\n1C:EDT> \n".to_vec(), &prompt), Some((2, 9)));
    assert_eq!(find_prompt(true, &b"a\n1C:EDT>x".to_vec(), &prompt), None);

    let mut buffer = b"line\n1C:EDT>".to_vec();
    let mut output = b"first\n".to_vec();
    let mut fresh = false;
    assert!(consume_until_prompt(&mut fresh, &mut buffer, &mut output, &prompt));
    assert!(fresh);
    assert_eq!(output, b"first\nline\n".to_vec());
    assert!(buffer.is_empty());
}

#[test]
fn prompt_at_the_beginning_counts_only_where_a_line_begins() {
    let prompt = b"1C:EDT>".to_vec();
    let buffer = b"1C:EDT>".to_vec();
    assert_eq!(find_prompt(true, &buffer, &prompt), Some((0, 7)));
    assert_eq!(find_prompt(false, &buffer, &prompt), None);
}

#[test]
fn bytes_that_may_belong_to_a_prompt_are_held_back() {
    let mut buffer = b"0123456789".to_vec();
    let mut output = vec![];
    let mut fresh = true;
    flush_completed_bytes(&mut fresh, &mut buffer, &mut output, 7);
    assert_eq!(output, b"0123".to_vec());
    assert_eq!(buffer, b"456789".to_vec());
    assert!(!fresh);

    let mut buffer = b"012\n1C:EDT".to_vec();
    flush_completed_bytes(&mut fresh, &mut buffer, &mut output, 7);
    assert_eq!(buffer, b"1C:EDT".to_vec());
    assert!(fresh);
}

#[test]
fn interactive_command_line_is_shown_with_its_arguments() {
    let request = InteractiveProcessRequest::new("/opt/1cedtcli".to_owned())
        .with_args(vec!["-data".to_owned(), "/tmp/ws".to_owned()]);
    assert_eq!(render_command(&request), "/opt/1cedtcli -data /tmp/ws");
    assert_eq!(request.prompt, b"1C:EDT>".to_vec());
}

#[test]
fn command_that_cannot_be_written_fails() {
    let mut executor = spawn_executor();
    executor.stdin_fault = Some(StdinFault::Write {
        source: "broken pipe".to_owned(),
    });
    match executor.execute("pid", 500) {
        Err(InteractiveProcessError::StdinWriteFailed { command, source }) => {
            assert_eq!(command, "pid");
            assert_eq!(source, "broken pipe");
        }
        other => panic!("unexpected result: {other:?}"),
    }
    executor.stdin_fault = Some(StdinFault::Flush {
        source: "broken pipe".to_owned(),
    });
    assert!(matches!(
        executor.execute("pid", 500),
        Err(InteractiveProcessError::StdinFlushFailed { .. })
    ));
    assert!(!executor.killed);
}

#[test]
fn interactive_errors_have_their_messages() {
    let text = String::new;
    let errors = [
        InteractiveProcessError::SpawnFailed {
            cmd: "a".to_owned(),
            source: "b".to_owned(),
        },
        InteractiveProcessError::MissingStdin {
            cmd: "a".to_owned(),
        },
        InteractiveProcessError::MissingStdout {
            cmd: "a".to_owned(),
        },
        InteractiveProcessError::MissingStderr {
            cmd: "a".to_owned(),
        },
        InteractiveProcessError::StartupTimeout {
            timeout_ms: 5,
            stdout: text(),
            stderr: text(),
        },
        InteractiveProcessError::CommandTimeout {
            command: "a".to_owned(),
            timeout_ms: 5,
            stdout: text(),
            stderr: text(),
        },
        InteractiveProcessError::CommandCancelled {
            command: "a".to_owned(),
            stdout: text(),
            stderr: text(),
        },
        InteractiveProcessError::ProcessExited {
            exit_code: -1,
            stdout: text(),
            stderr: text(),
        },
        InteractiveProcessError::Poisoned,
        InteractiveProcessError::Terminated,
        InteractiveProcessError::StdinWriteFailed {
            command: "a".to_owned(),
            source: "b".to_owned(),
        },
        InteractiveProcessError::StdinFlushFailed {
            command: "a".to_owned(),
            source: "b".to_owned(),
        },
        InteractiveProcessError::StreamReadFailed {
            stream: InteractiveStream::Stdout,
            message: "b".to_owned(),
        },
        InteractiveProcessError::WaitFailed {
            source: "b".to_owned(),
        },
    ];
    let mut messages: Vec<String> = errors
        .iter()
        .map(InteractiveProcessError::message)
        .collect();
    messages.sort();
    messages.dedup();
    assert_eq!(messages.len(), errors.len());
}

// EDT commands

/// What the outside does for an EDT command.
struct Outside {
    executor: Option<Executor>,
    cancel_at: Option<u64>,
    now: u64,
    prepared: Vec<String>,
    requests: Vec<(ProcessRequest, ProcessExecutionPolicy)>,
    process: Option<Result<ProcessResult, ProcessError>>,
    log: Result<String, String>,
    session_live: bool,
    shared_lines: Vec<String>,
    shared: VecDeque<Result<EdtSessionResponse, EdtSessionError>>,
}

impl Outside {
    fn new() -> Self {
        Outside {
            executor: None,
            cancel_at: None,
            now: 0,
            prepared: vec![],
            requests: vec![],
            process: None,
            log: Err("No such file".to_owned()),
            session_live: false,
            shared_lines: vec![],
            shared: VecDeque::new(),
        }
    }

    fn with_process(exit_code: i32) -> Self {
        Outside {
            process: Some(Ok(ProcessResult {
                exit_code,
                stdout: String::new(),
                stderr: String::new(),
                interruption: None,
            })),
            ..Outside::new()
        }
    }

    fn with_session(shell: fn(&str) -> Vec<Act>) -> Self {
        let executor = Executor::spawn(vec![out("1C:EDT>")], shell, 1000).expect("session");
        Outside {
            now: executor.now,
            executor: Some(executor),
            ..Outside::new()
        }
    }

    fn moment(&self) -> Moment {
        at(self.now)
    }

    fn run(
        &mut self,
        dsl: &EdtDsl,
        started: (EdtRun, EdtAction),
    ) -> Result<PlatformCommandResult, EdtError> {
        let (mut run, mut action) = started;
        loop {
            let event = match action {
                EdtAction::Prepare { workspace, .. } => {
                    self.prepared.push(workspace);
                    EdtEvent::Prepared(Ok(()))
                }
                EdtAction::RunProcess { request, policy } => {
                    self.requests.push((request, policy));
                    EdtEvent::ProcessDone(self.process.take().expect("process"))
                }
                EdtAction::Execute {
                    line,
                    timeout,
                    policy,
                } => {
                    let executor = self.executor.as_mut().expect("session");
                    executor.now = self.now;
                    let outcome =
                        executor.execute_with_policy(&line, timeout, &policy, self.cancel_at);
                    self.now = executor.now;
                    EdtEvent::CommandDone(outcome)
                }
                EdtAction::AskLive => EdtEvent::SessionLive(self.session_live),
                EdtAction::ExecuteShared { line, .. } => {
                    self.shared_lines.push(line);
                    EdtEvent::SharedDone(self.shared.pop_front().expect("shared answer"))
                }
                EdtAction::ReadLog { .. } => EdtEvent::LogRead(self.log.clone()),
                EdtAction::Done { result } => return Ok(result),
                EdtAction::Fail { error } => return Err(error),
                EdtAction::Repeat => panic!("the command got an answer to another question"),
            };
            let now = self.moment();
            let next = run.step(dsl, event, now);
            run = next.0;
            action = next.1;
        }
    }
}

const BINARY: &str = "/opt/edt/1cedtcli";
const WORKSPACE: &str = "/tmp/ws";

fn one_shot() -> EdtDsl {
    EdtDsl::new(BINARY.to_owned(), WORKSPACE.to_owned(), at(0))
}

fn interactive(
    outside: &Outside,
    timeout: Option<u64>,
    safety: ProcessInterruptionSafety,
) -> EdtDsl {
    EdtDsl::new_interactive(
        BINARY.to_owned(),
        WORKSPACE.to_owned(),
        ms(1000),
        outside.moment(),
    )
    .with_execution_policy(
        ProcessExecutionPolicy::new(timeout.map(ms), safety),
        outside.moment(),
    )
}

fn arguments(outside: &Outside) -> String {
    outside.requests[0].0.args.join("\n")
}

#[test]
fn export_project_passes_expected_arguments() {
    let dsl = one_shot();
    let mut outside = Outside::with_process(0);

    let result = outside
        .run(&dsl, dsl.export_project("project", "/tmp/out"))
        .expect("export project");

    assert_eq!(result.process.exit_code, 0);
    assert!(result.platform_log.is_none());
    let args = arguments(&outside);
    assert!(args.contains("-command"));
    assert!(args.contains("export"));
    assert!(args.contains("--project-name"));
    assert!(args.contains("project"));
    assert!(args.contains("--configuration-files"));
    assert!(args.contains("/tmp/out"));
}

#[test]
fn export_project_path_passes_expected_arguments() {
    let dsl = one_shot();
    let mut outside = Outside::with_process(0);

    let result = outside
        .run(&dsl, dsl.export_project_path("/tmp/project", "/tmp/out"))
        .expect("export project path");

    assert_eq!(result.process.exit_code, 0);
    let args = arguments(&outside);
    assert!(args.contains("-command"));
    assert!(args.contains("export"));
    assert!(args.contains("--project"));
    assert!(args.contains("/tmp/project"));
    assert!(args.contains("--configuration-files"));
    assert!(args.contains("/tmp/out"));
}

#[test]
fn validate_project_reads_out_log() {
    let dsl = one_shot();
    let mut outside = Outside::with_process(2);
    outside.log = Ok("line1\nline2\n".to_owned());

    let result = outside
        .run(&dsl, dsl.validate_project("/tmp/project", "/tmp/validate.log"))
        .expect("validate project");

    assert_eq!(result.process.exit_code, 2);
    assert_eq!(
        result.platform_log_path.as_deref(),
        Some("/tmp/validate.log")
    );
    assert_eq!(result.platform_log.as_deref(), Some("line1\nline2\n"));
    assert!(result.platform_log_read_error.is_none());
    let args = arguments(&outside);
    assert!(args.contains("-command"));
    assert!(args.contains("validate"));
    assert!(args.contains("--file"));
    assert!(args.contains("--project-list"));
}

#[test]
fn validate_project_keeps_process_result_when_out_log_is_unreadable() {
    let dsl = one_shot();
    let mut outside = Outside::with_process(1);

    let result = outside
        .run(
            &dsl,
            dsl.validate_project("/tmp/project", "/tmp/missing/validate.log"),
        )
        .expect("validate project");

    assert_eq!(result.process.exit_code, 1);
    assert_eq!(
        result.platform_log_path.as_deref(),
        Some("/tmp/missing/validate.log")
    );
    assert!(result.platform_log.is_none());
    assert!(result
        .platform_log_read_error
        .as_deref()
        .expect("log read error")
        .contains("failed to read edt --file log"));
}

#[test]
fn export_project_creates_workspace_before_spawn() {
    let dsl = one_shot();
    let mut outside = Outside::with_process(0);

    let (run, action) = dsl.export_project("project", "/tmp/out");
    assert!(matches!(
        &action,
        EdtAction::Prepare { workspace, .. } if workspace == WORKSPACE
    ));
    let result = outside.run(&dsl, (run, action)).expect("export project");

    assert_eq!(result.process.exit_code, 0);
    assert_eq!(outside.prepared, vec![WORKSPACE]);
}

#[test]
fn workspace_that_cannot_be_prepared_fails_the_command() {
    let dsl = one_shot();
    let (run, _) = dsl.import_project("/tmp/project");
    let (_, action) = run.step(
        &dsl,
        EdtEvent::Prepared(Err("read-only file system".to_owned())),
        at(0),
    );
    match action {
        EdtAction::Fail { error } => assert_eq!(
            error.message(),
            "failed to prepare edt workspace '/tmp/ws': read-only file system"
        ),
        other => panic!("unexpected action: {other:?}"),
    }
}

#[test]
fn import_project_passes_expected_arguments() {
    let dsl = one_shot();
    let mut outside = Outside::with_process(0);

    let result = outside
        .run(&dsl, dsl.import_project("/tmp/project"))
        .expect("import project");

    assert_eq!(result.process.exit_code, 0);
    let args = arguments(&outside);
    assert!(args.contains("-command"));
    assert!(args.contains("import"));
    assert!(args.contains("--project"));
    assert!(args.contains("/tmp/project"));
}

#[test]
fn import_configuration_files_passes_expected_arguments() {
    let dsl = one_shot();
    let mut outside = Outside::with_process(0);

    let result = outside
        .run(
            &dsl,
            dsl.import_configuration_files(
                "/tmp/project",
                "/tmp/xml",
                Some("8.3.24"),
                Some("BaseProject"),
                true,
            ),
        )
        .expect("import configuration files");

    assert_eq!(result.process.exit_code, 0);
    let args = arguments(&outside);
    assert!(args.contains("-command"));
    assert!(args.contains("import"));
    assert!(args.contains("--configuration-files"));
    assert!(args.contains("/tmp/xml"));
    assert!(args.contains("--project"));
    assert!(args.contains("/tmp/project"));
    assert!(args.contains("--version"));
    assert!(args.contains("8.3.24"));
    assert!(args.contains("--base-project-name"));
    assert!(args.contains("BaseProject"));
    assert!(args.contains("--build"));
    assert!(args.contains("true"));
}

#[test]
fn validate_project_uses_configured_timeout() {
    let dsl = one_shot().with_timeout(Some(Span::from_secs(7)), at(0));
    let mut outside = Outside::with_process(0);
    outside.now = 3;

    let _ = outside.run(&dsl, dsl.validate_project("/tmp/project", "/tmp/log"));

    let timeout = outside.requests[0].1.timeout.expect("recorded timeout");
    assert!(timeout.nanos <= Span::from_secs(7).nanos);
    assert!(timeout.nanos > 0);
}

/// A shell that answers every command with the prompt.
fn quiet(command: &str) -> Vec<Act> {
    let _ = command;
    vec![out("1C:EDT>")]
}

fn slow_export(command: &str) -> Vec<Act> {
    if command.starts_with("export") {
        vec![later(200, "1C:EDT>")]
    } else {
        vec![out("1C:EDT>")]
    }
}

fn export_of_70(command: &str) -> Vec<Act> {
    if command.starts_with("export") {
        vec![later(70, "1C:EDT>")]
    } else {
        vec![out("1C:EDT>")]
    }
}

fn everything_takes_70(command: &str) -> Vec<Act> {
    let _ = command;
    vec![later(70, "1C:EDT>")]
}

fn failing_export(command: &str) -> Vec<Act> {
    if command.starts_with("export") {
        vec![
            out("edtsh: Invalid project description.\n"),
            out("/workspace/exts/client-mcp overlaps the location of another project: 'ClientMcp'\n"),
            out(&format!("{MARKER}\n")),
            out("1C:EDT>"),
        ]
    } else {
        vec![out("1C:EDT>")]
    }
}

#[test]
fn interactive_dsl_routes_export_and_import_through_live_session() {
    let mut outside = Outside::with_session(quiet);
    let dsl = interactive(&outside, None, ProcessInterruptionSafety::Interruptible);

    outside
        .run(&dsl, dsl.export_project("project", "/tmp/out"))
        .expect("export");
    outside
        .run(&dsl, dsl.import_project("/tmp/project"))
        .expect("import");

    let commands = outside.executor.expect("session").commands.join("\n");
    assert!(commands.contains("cd "));
    assert!(commands.contains("export --project-name project --configuration-files /tmp/out"));
    assert!(commands.contains("import --project /tmp/project"));
    assert!(!commands.contains("-command"));
}

#[test]
fn shared_session_drop_does_not_shutdown_other_manager_owner() {
    let shared = || {
        EdtDsl::new_shared_session(
            BINARY.to_owned(),
            WORKSPACE.to_owned(),
            ms(500),
            ms(200),
            at(0),
        )
    };
    let done = || {
        Ok(EdtSessionResponse {
            stdout: String::new(),
            stderr: String::new(),
        })
    };
    let mut outside = Outside::new();
    outside.shared = VecDeque::from(vec![done(), done(), done()]);

    let first = shared();
    outside
        .run(&first, first.import_project("/tmp/first-project"))
        .expect("first import");
    drop(first);
    outside.session_live = true;
    let second = shared();
    outside
        .run(&second, second.import_project("/tmp/second-project"))
        .expect("second import");

    assert_eq!(
        outside.shared_lines,
        vec![
            "cd /tmp/ws",
            "import --project /tmp/first-project",
            "import --project /tmp/second-project"
        ]
    );
}

#[test]
fn shared_session_that_does_not_start_fails_the_command() {
    let dsl = EdtDsl::new_shared_session(
        BINARY.to_owned(),
        WORKSPACE.to_owned(),
        ms(500),
        ms(200),
        at(0),
    );
    assert_eq!(
        dsl.backend,
        EdtBackend::SharedSession {
            startup_timeout: ms(500),
            command_timeout: ms(200)
        }
    );
    let mut outside = Outside::new();
    outside.shared = VecDeque::from(vec![Err(EdtSessionError::StartupFailed {
        message: "boom".to_owned(),
    })]);

    let error = outside
        .run(&dsl, dsl.import_project("/tmp/project"))
        .expect_err("startup failure");

    assert!(matches!(
        error,
        EdtError::SharedSession(EdtSessionError::StartupFailed { .. })
    ));
}

#[test]
fn interactive_dsl_treats_exception_marker_as_command_failure() {
    let mut outside = Outside::with_session(failing_export);
    let dsl = interactive(&outside, None, ProcessInterruptionSafety::Interruptible);

    let result = outside
        .run(&dsl, dsl.export_project("project", "/tmp/out"))
        .expect("export result");

    assert_eq!(result.process.exit_code, 1);
    assert!(result.process.stdout.contains(MARKER));
}

#[test]
fn interactive_dsl_honors_execution_policy_timeout() {
    let mut outside = Outside::with_session(slow_export);
    let dsl = interactive(
        &outside,
        Some(50),
        ProcessInterruptionSafety::GracefulThenKill,
    );

    let error = outside
        .run(&dsl, dsl.export_project("project", "/tmp/out"))
        .expect_err("timeout error");

    assert!(matches!(
        error,
        EdtError::Spawn(ProcessError::TimedOut { .. })
    ));
}

#[test]
fn interactive_dsl_timeout_budget_covers_prelude_and_business_command() {
    let mut outside = Outside::with_session(everything_takes_70);
    let dsl = interactive(
        &outside,
        Some(100),
        ProcessInterruptionSafety::GracefulThenKill,
    );

    let error = outside
        .run(&dsl, dsl.export_project("project", "/tmp/out"))
        .expect_err("timeout error");

    match error {
        EdtError::Spawn(ProcessError::TimedOut { cmd, .. }) => {
            assert!(cmd.contains("[interactive: export]"));
            assert!(!cmd.contains("[interactive: cd]"));
        }
        other => panic!("expected timeout error, got {other:?}"),
    }
}

#[test]
fn interactive_dsl_reused_session_shares_timeout_budget_across_commands() {
    let mut outside = Outside::with_session(export_of_70);
    let dsl = interactive(
        &outside,
        Some(120),
        ProcessInterruptionSafety::GracefulThenKill,
    );

    outside
        .run(&dsl, dsl.export_project("first", "/tmp/out1"))
        .expect("first export");
    let error = outside
        .run(&dsl, dsl.export_project("second", "/tmp/out2"))
        .expect_err("second export must exhaust remaining budget");

    assert!(matches!(
        error,
        EdtError::Spawn(ProcessError::TimedOut { .. })
    ));
}

#[test]
fn interactive_dsl_honors_execution_policy_cancellation() {
    let mut outside = Outside::with_session(slow_export);
    outside.cancel_at = Some(outside.now + 50);
    let dsl = interactive(
        &outside,
        Some(1000),
        ProcessInterruptionSafety::GracefulThenKill,
    );

    let error = outside
        .run(&dsl, dsl.export_project("project", "/tmp/out"))
        .expect_err("cancelled error");

    assert!(matches!(
        error,
        EdtError::Spawn(ProcessError::Cancelled { .. })
    ));
}

#[test]
fn interactive_dsl_preserves_deferred_interruption_for_critical_phase() {
    let mut outside = Outside::with_session(slow_export);
    let dsl = interactive(
        &outside,
        Some(50),
        ProcessInterruptionSafety::CriticalNonAbortable,
    );

    let result = outside
        .run(&dsl, dsl.export_project("project", "/tmp/out"))
        .expect("deferred interruption result");

    assert_eq!(result.process.exit_code, 0);
    assert_eq!(
        result.process.interruption,
        Some(ProcessInterruption {
            reason: ProcessInterruptionReason::TimedOut,
            action: ProcessInterruptionAction::Deferred,
        })
    );
}
