use v8_runner::platform::process::{
    ProcessError, ProcessExecutionPolicy, ProcessInterruption, ProcessInterruptionAction,
    ProcessInterruptionReason, ProcessInterruptionSafety, ProcessRequest, ProcessResult,
    SpawnResult,
};
use v8_runner::platform::process_executor::{
    ProcessAsk, ProcessEvent, ProcessExecutor, ProcessOutcome, ProcessStep,
};
use v8_runner::platform::process_run::{
    admit_run, after_spawn_failure, conclude_run, conclude_spawn, grace_step, ChildStatus,
    GraceAction, OutputWait, ProcessPoll, SpawnRetry, WaitAction,
};
use v8_runner::time::{Moment, Span};

const COMMAND: &str = "/tmp/sleep.sh";

fn ms(millis: u64) -> Span {
    Span::from_millis(millis)
}

fn request() -> ProcessRequest {
    ProcessRequest {
        program: COMMAND.to_owned(),
        args: vec![],
        workdir: None,
        stdout_log_path: None,
        stderr_log_path: None,
        startup_probe: None,
    }
}

/// A child that exits by itself, on a clock of its own.
struct Child {
    now: u64,
    exits_at: u64,
    exit_code: i32,
    stdout: Vec<u8>,
    stderr: Vec<u8>,
    busy_starts: u64,
    stops_when_asked: bool,
    logs: Vec<(String, Vec<u8>)>,
    killed: bool,
    asked_to_stop: bool,
}

fn child(exits_at: u64, exit_code: i32, stdout: &str, stderr: &str) -> Child {
    Child {
        now: 0,
        exits_at,
        exit_code,
        stdout: stdout.as_bytes().to_vec(),
        stderr: stderr.as_bytes().to_vec(),
        busy_starts: 0,
        stops_when_asked: false,
        logs: vec![],
        killed: false,
        asked_to_stop: false,
    }
}

impl Child {
    fn start(&mut self) -> ProcessEvent {
        if self.busy_starts > 0 {
            self.busy_starts -= 1;
            ProcessEvent::StartFailed {
                busy: true,
                source: "Text file busy".to_owned(),
            }
        } else {
            ProcessEvent::Started { pid: 4242 }
        }
    }

    fn look(&self, cancel_at: Option<u64>) -> ProcessEvent {
        let status = if self.now >= self.exits_at {
            ChildStatus::Exited {
                code: Some(self.exit_code),
            }
        } else {
            ChildStatus::Running
        };
        ProcessEvent::Seen {
            status,
            cancelled: cancel_at.map(|moment| moment <= self.now).unwrap_or(false),
        }
    }

    /// Answers the questions of a run until it is over.
    fn drive(&mut self, mut step: ProcessStep, cancel_at: Option<u64>) -> ProcessOutcome {
        loop {
            let event = match step.ask {
                ProcessAsk::Start { .. } => self.start(),
                ProcessAsk::StartAgain { pause, .. } => {
                    self.now += pause.as_millis();
                    self.start()
                }
                ProcessAsk::Look => self.look(cancel_at),
                ProcessAsk::Pause { wait } => {
                    self.now += wait.as_millis();
                    self.look(cancel_at)
                }
                ProcessAsk::Terminate => {
                    self.asked_to_stop = true;
                    if self.stops_when_asked {
                        self.exits_at = self.now + 20;
                    }
                    self.look(cancel_at)
                }
                ProcessAsk::Kill => {
                    self.killed = true;
                    ProcessEvent::Gone
                }
                ProcessAsk::Reap => ProcessEvent::Gone,
                ProcessAsk::Collect => ProcessEvent::Output {
                    stdout: self.stdout.clone(),
                    stderr: self.stderr.clone(),
                },
                ProcessAsk::WriteLog { path, bytes } => {
                    if path.contains("missing") {
                        ProcessEvent::LogWritten {
                            failure: Some("No such file".to_owned()),
                        }
                    } else {
                        self.logs.push((path, bytes));
                        ProcessEvent::LogWritten { failure: None }
                    }
                }
                ProcessAsk::Done { outcome } => return outcome,
                ProcessAsk::Repeat => panic!("event out of turn"),
            };
            let now = Moment {
                nanos: ms(self.now).nanos,
            };
            step = step.run.step(event, now);
        }
    }

    fn result(
        &mut self,
        step: ProcessStep,
        cancel_at: Option<u64>,
    ) -> Result<ProcessResult, ProcessError> {
        match self.drive(step, cancel_at) {
            ProcessOutcome::Finished(result) => Ok(result),
            ProcessOutcome::Failed(error) => Err(error),
            other => panic!("unexpected outcome: {other:?}"),
        }
    }

    fn spawn(&mut self, request: &ProcessRequest) -> Result<SpawnResult, ProcessError> {
        match self.drive(ProcessExecutor.spawn(request), None) {
            ProcessOutcome::Spawned(result) => Ok(result),
            ProcessOutcome::Failed(error) => Err(error),
            other => panic!("unexpected outcome: {other:?}"),
        }
    }
}

fn run_with_policy(
    child: &mut Child,
    policy: ProcessExecutionPolicy,
    cancel_at: Option<u64>,
) -> Result<ProcessResult, ProcessError> {
    let step = ProcessExecutor.run_with_policy(&request(), &policy, cancel_at == Some(0));
    child.result(step, cancel_at)
}

#[test]
fn run_captures_output_and_mirrors_logs() {
    let mut child = child(0, 3, "hello\n", "oops\n");

    let step = ProcessExecutor.run(&ProcessRequest {
        stdout_log_path: Some("/tmp/stdout.log".to_owned()),
        stderr_log_path: Some("/tmp/stderr.log".to_owned()),
        ..request()
    });
    let result = child.result(step, None).expect("run");

    assert_eq!(result.exit_code, 3);
    assert_eq!(result.stdout.trim(), "hello");
    assert_eq!(result.stderr.trim(), "oops");
    assert_eq!(
        child.logs,
        vec![
            ("/tmp/stdout.log".to_owned(), b"hello\n".to_vec()),
            ("/tmp/stderr.log".to_owned(), b"oops\n".to_vec()),
        ]
    );
}

#[test]
fn spawn_returns_pid_and_binary_without_waiting() {
    let result = child(100, 0, "", "").spawn(&request()).expect("spawn");

    assert!(result.pid > 0);
    assert_eq!(result.binary, COMMAND);
}

#[test]
fn spawn_detects_immediate_exit_when_probe_is_requested() {
    let error = child(0, 7, "", "")
        .spawn(&ProcessRequest {
            startup_probe: Some(ms(50)),
            ..request()
        })
        .expect_err("expected early exit");

    assert!(matches!(
        error,
        ProcessError::ExitedEarly { exit_code: 7, .. }
    ));
}

#[test]
fn spawn_of_a_busy_executable_is_tried_again() {
    let mut patient = child(100, 0, "", "");
    patient.busy_starts = 5;
    assert!(patient.spawn(&request()).is_ok());
    assert_eq!(patient.now, 50);
    let mut hopeless = child(100, 0, "", "");
    hopeless.busy_starts = 6;
    assert!(matches!(
        hopeless.spawn(&request()),
        Err(ProcessError::SpawnFailed { .. })
    ));
    assert_eq!(hopeless.busy_starts, 0);
}

#[test]
fn spawn_that_cannot_be_observed_fails() {
    let error = conclude_spawn(
        COMMAND,
        4242,
        COMMAND,
        Some(ChildStatus::Unknown {
            source: "no child".to_owned(),
        }),
    )
    .expect_err("unknown status");
    assert_eq!(
        error.message(),
        "failed to observe process startup '/tmp/sleep.sh': no child"
    );
    assert!(conclude_spawn(COMMAND, 4242, COMMAND, Some(ChildStatus::Running)).is_ok());
}

#[test]
fn run_surfaces_stdout_log_write_failures_separately() {
    let step = ProcessExecutor.run(&ProcessRequest {
        stdout_log_path: Some("/tmp/missing/stdout.log".to_owned()),
        ..request()
    });
    let error = child(0, 0, "hello\n", "")
        .result(step, None)
        .expect_err("expected log write failure");
    assert!(matches!(error, ProcessError::StdoutLogIo { .. }));
    let step = ProcessExecutor.run(&ProcessRequest {
        stderr_log_path: Some("/tmp/missing/stderr.log".to_owned()),
        ..request()
    });
    let error = child(0, 0, "hello\n", "")
        .result(step, None)
        .expect_err("expected log write failure");
    match error {
        ProcessError::StderrLogIo { path, source } => {
            assert_eq!(path, "/tmp/missing/stderr.log");
            assert_eq!(source, "No such file");
        }
        other => panic!("unexpected error: {other:?}"),
    }
}

#[test]
fn run_with_timeout_returns_timeout_error() {
    let mut child = child(2000, 0, "", "");

    let step = ProcessExecutor.run_with_timeout(&request(), ms(100));
    let error = child.result(step, None).expect_err("expected timeout");

    assert!(child.killed);
    assert_eq!(child.now, 100);
    assert!(matches!(error, ProcessError::TimedOut { .. }));
    assert_eq!(
        error.message(),
        "process timed out '/tmp/sleep.sh' after 100ms"
    );
}

#[test]
fn run_with_policy_cancels_interruptible_process() {
    let mut child = child(2000, 0, "", "");
    let policy = ProcessExecutionPolicy::new(None, ProcessInterruptionSafety::Interruptible);

    let error = run_with_policy(&mut child, policy, Some(50)).expect_err("expected cancellation");

    assert!(matches!(error, ProcessError::Cancelled { .. }));
}

#[test]
fn run_with_policy_defers_timeout_for_critical_process() {
    let mut child = child(100, 0, "done\n", "");
    let policy = ProcessExecutionPolicy::new(
        Some(ms(10)),
        ProcessInterruptionSafety::CriticalNonAbortable,
    );

    let result = run_with_policy(&mut child, policy, None)
        .expect("critical process must reach terminal success");

    assert_eq!(result.exit_code, 0);
    assert_eq!(
        result.interruption,
        Some(ProcessInterruption {
            reason: ProcessInterruptionReason::TimedOut,
            action: ProcessInterruptionAction::Deferred,
        })
    );
}

#[test]
fn run_handles_large_stdout_without_deadlock() {
    let text: String = (0..20000).map(|i| format!("line{i:05}\n")).collect();

    let result = child(0, 0, &text, "")
        .result(ProcessExecutor.run(&request()), None)
        .expect("run");

    assert_eq!(result.exit_code, 0);
    assert!(result.stdout.contains("line19999"));
}

#[test]
fn output_that_is_no_text_is_decoded_all_the_same() {
    let result = conclude_run(0, &vec![b'a', 0xff], &vec![], None);
    assert_eq!(result.stdout, "a\u{fffd}");
}

#[test]
fn graceful_run_kills_only_what_does_not_stop() {
    let policy = ProcessExecutionPolicy::new(
        Some(ms(10)),
        ProcessInterruptionSafety::GracefulThenKill,
    );
    let mut polite = child(2000, 0, "", "");
    polite.stops_when_asked = true;
    assert!(matches!(
        run_with_policy(&mut polite, policy, None),
        Err(ProcessError::TimedOut { timeout_ms: 10, .. })
    ));
    assert!(polite.asked_to_stop && !polite.killed);
    let mut stubborn = child(2000, 0, "", "");
    assert!(run_with_policy(&mut stubborn, policy, None).is_err());
    assert!(stubborn.asked_to_stop && stubborn.killed);
    assert_eq!(stubborn.now, 260);
}

#[test]
fn graceful_policy_asks_before_it_kills() {
    let policy = ProcessExecutionPolicy::new(
        Some(ms(10)),
        ProcessInterruptionSafety::GracefulThenKill,
    );
    let mut wait = OutputWait::new(COMMAND, policy);
    let action = wait.poll(ProcessPoll {
        status: ChildStatus::Running,
        cancelled: false,
        elapsed: ms(10),
    });
    match action {
        WaitAction::Terminate { grace, error } => {
            assert_eq!(grace, ms(250));
            assert!(matches!(
                error,
                ProcessError::TimedOut { timeout_ms: 10, .. }
            ));
        }
        other => panic!("unexpected action: {other:?}"),
    }
    assert_eq!(
        grace_step(&ChildStatus::Running, ms(10), ms(250)),
        GraceAction::Sleep
    );
    assert_eq!(
        grace_step(&ChildStatus::Running, ms(250), ms(250)),
        GraceAction::Kill
    );
    assert_eq!(
        grace_step(&ChildStatus::Exited { code: None }, ms(10), ms(250)),
        GraceAction::Done
    );
}

#[test]
fn interruption_seen_first_is_the_one_reported() {
    let policy = ProcessExecutionPolicy::new(
        Some(ms(10)),
        ProcessInterruptionSafety::CriticalNonAbortable,
    );
    let mut wait = OutputWait::new(COMMAND, policy);
    let mut poll = |status, cancelled, elapsed| {
        wait.poll(ProcessPoll {
            status,
            cancelled,
            elapsed: ms(elapsed),
        })
    };
    assert_eq!(poll(ChildStatus::Running, false, 10), WaitAction::Sleep);
    assert_eq!(poll(ChildStatus::Running, true, 20), WaitAction::Sleep);
    match poll(ChildStatus::Exited { code: None }, true, 30) {
        WaitAction::Complete {
            exit_code,
            interruption,
        } => {
            assert_eq!(exit_code, -1);
            assert_eq!(
                interruption.expect("interruption").reason,
                ProcessInterruptionReason::TimedOut
            );
        }
        other => panic!("unexpected action: {other:?}"),
    }
}

#[test]
fn run_without_any_time_does_not_start() {
    let none = ProcessExecutionPolicy::new(
        Some(ms(0)),
        ProcessInterruptionSafety::Interruptible,
    );
    assert!(matches!(
        admit_run(COMMAND, &none, false),
        Err(ProcessError::TimedOut { timeout_ms: 0, .. })
    ));
    assert!(matches!(
        admit_run(COMMAND, &none, true),
        Err(ProcessError::Cancelled { .. })
    ));
    assert!(admit_run(COMMAND, &ProcessExecutionPolicy::default(), false).is_ok());
}

#[test]
fn busy_executable_is_tried_again() {
    assert_eq!(
        after_spawn_failure(COMMAND, 0, true, "Text file busy"),
        SpawnRetry::After { pause: ms(10) }
    );
    match after_spawn_failure(COMMAND, 5, true, "Text file busy") {
        SpawnRetry::GiveUp { error } => assert_eq!(
            error.message(),
            "failed to spawn process '/tmp/sleep.sh': Text file busy"
        ),
        other => panic!("unexpected decision: {other:?}"),
    }
    assert!(matches!(
        after_spawn_failure(COMMAND, 0, false, "No such file"),
        SpawnRetry::GiveUp { .. }
    ));
}

#[test]
fn process_errors_have_their_messages() {
    let cmd = || "a".to_owned();
    let errors = [
        ProcessError::SpawnFailed {
            cmd: cmd(),
            source: "b".to_owned(),
        },
        ProcessError::StartupCheckFailed {
            cmd: cmd(),
            source: "b".to_owned(),
        },
        ProcessError::ExitedEarly {
            cmd: cmd(),
            exit_code: -7,
        },
        ProcessError::StdoutLogIo {
            path: cmd(),
            source: "b".to_owned(),
        },
        ProcessError::StderrLogIo {
            path: cmd(),
            source: "b".to_owned(),
        },
        ProcessError::Cancelled { cmd: cmd() },
        ProcessError::TimedOut {
            cmd: cmd(),
            timeout_ms: 5,
        },
    ];
    let mut messages: Vec<String> = errors.iter().map(ProcessError::message).collect();
    assert_eq!(
        messages[2],
        "process exited before startup completed 'a' (exit -7)"
    );
    messages.sort();
    messages.dedup();
    assert_eq!(messages.len(), errors.len());
}
