use std::collections::{BTreeMap, VecDeque};

use v8_runner::mcp::edt_session::{
    EdtSessionDrainReason, EdtSessionError, EdtSessionResponse, EdtSessionShutdownError,
};
use v8_runner::mcp::session_baseline::{
    baseline_probe, baseline_reset, baseline_timeout_budget, begin_join, join_worker,
    run_baseline_reset, wait_for_worker, workspace_paths_match, JoinOutcome, JoinPhase, JoinStep,
    WorkerWait,
};
use v8_runner::mcp::session_board::{CallerAction, CallerEvent, SessionBoard};
use v8_runner::mcp::session_worker::{EdtWorker, WorkerAsk, WorkerEffect, WorkerEvent};
use v8_runner::path::HostPlatform;
use v8_runner::platform::edt_command::{
    render_interactive_change_dir_command, render_interactive_probe_workdir_command,
};
use v8_runner::platform::interactive::{InteractiveCommandOutput, InteractiveProcessError};
use v8_runner::time::{Moment, Span};

type Answer = Result<EdtSessionResponse, EdtSessionError>;
type Reply = Result<InteractiveCommandOutput, InteractiveProcessError>;

fn at(millis: u64) -> Moment {
    Moment {
        nanos: u128::from(millis) * 1_000_000,
    }
}

/// How a start of the session goes.
enum Plan {
    StartupFailure { message: &'static str, delay: u64 },
    Session(Vec<Behavior>),
}

/// How a command goes.
enum Behavior {
    CompleteAfter { delay: u64, stdout: String },
    FatalProcessExitAfter { delay: u64 },
}

fn after(delay: u64, stdout: &str) -> Behavior {
    Behavior::CompleteAfter {
        delay,
        stdout: stdout.to_owned(),
    }
}

/// A caller that waits for its request.
struct Caller {
    command: String,
    deadline: u64,
    cancel_at: Option<u64>,
    result: Option<Answer>,
    /// The request still runs, and its end can be waited for.
    completion: Option<u64>,
}

/// What the worker waits for, with the moment at which it comes.
enum Pending {
    Nothing,
    Event { due: u64, event: WorkerEvent },
    Reset { due: u64, id: u64, reply: Reply, clamped: bool },
    Probe { due: u64, reply: Reply, clamped: bool },
}

/// The shared session on a clock of its own, in milliseconds.
struct Manager {
    now: u64,
    board: SessionBoard,
    worker: EdtWorker,
    pending: Pending,
    wants_request: bool,
    stopped: bool,
    plans: VecDeque<Plan>,
    session: Option<VecDeque<Behavior>>,
    commands: Vec<String>,
    starts: usize,
    shutdowns: usize,
    callers: BTreeMap<u64, Caller>,
    baseline: Option<(String, u64)>,
    pre_dispatch_delay: u64,
    cancel_when_marked: bool,
}

impl Manager {
    fn new(plans: Vec<Plan>, capacity: usize) -> Self {
        let (worker, ask) = EdtWorker::start(false, false);
        let mut manager = Manager {
            now: 0,
            board: SessionBoard::new(capacity),
            worker,
            pending: Pending::Nothing,
            wants_request: false,
            stopped: false,
            plans: plans.into(),
            session: None,
            commands: vec![],
            starts: 0,
            shutdowns: 0,
            callers: BTreeMap::new(),
            baseline: None,
            pre_dispatch_delay: 0,
            cancel_when_marked: false,
        };
        manager.ask(ask);
        manager
    }

    fn with_baseline(mut self, workspace: &str, cap: u64) -> Self {
        self.baseline = Some((workspace.to_owned(), cap));
        self
    }

    fn later(&mut self, delay: u64, event: WorkerEvent) {
        self.pending = Pending::Event {
            due: self.now + delay,
            event,
        };
    }

    fn is_cancelled(&self, id: u64) -> bool {
        self.callers[&id]
            .cancel_at
            .map(|moment| moment <= self.now)
            .unwrap_or(false)
    }

    fn remaining(&self, id: u64) -> Span {
        at(self.callers[&id].deadline).since(at(self.now))
    }

    /// Hands a line to the session: when the reply comes, and what it is.
    fn run_line(&mut self, line: &str, timeout: Span) -> (u64, Reply) {
        self.commands.push(line.to_owned());
        let behavior = self
            .session
            .as_mut()
            .expect("session")
            .pop_front()
            .expect("command behavior");
        let limit = timeout.as_millis();
        match behavior {
            Behavior::CompleteAfter { delay, stdout } => {
                if delay > limit {
                    (
                        self.now + limit + 5,
                        Err(InteractiveProcessError::CommandTimeout {
                            command: line.to_owned(),
                            timeout_ms: limit,
                            stdout: String::new(),
                            stderr: String::new(),
                        }),
                    )
                } else {
                    (
                        self.now + delay,
                        Ok(InteractiveCommandOutput {
                            stdout,
                            stderr: String::new(),
                        }),
                    )
                }
            }
            Behavior::FatalProcessExitAfter { delay } => (
                self.now + delay,
                Err(InteractiveProcessError::ProcessExited {
                    exit_code: 17,
                    stdout: String::new(),
                    stderr: String::new(),
                }),
            ),
        }
    }

    fn pre_dispatched(&mut self, outcome: Result<(), EdtSessionError>) {
        self.later(0, WorkerEvent::PreDispatched { outcome });
    }

    fn ask(&mut self, ask: WorkerAsk) {
        self.pending = Pending::Nothing;
        match ask {
            WorkerAsk::Spawn => {
                self.starts += 1;
                match self.plans.pop_front().expect("session plan") {
                    Plan::StartupFailure { message, delay } => self.later(
                        delay,
                        WorkerEvent::SpawnFailed {
                            error: EdtSessionError::StartupFailed {
                                message: message.to_owned(),
                            },
                        },
                    ),
                    Plan::Session(behaviors) => {
                        self.session = Some(behaviors.into());
                        self.later(0, WorkerEvent::Spawned { pid: Some(41) });
                    }
                }
            }
            WorkerAsk::NextRequest => self.wants_request = true,
            WorkerAsk::PreDispatch { id } => match self.baseline.clone() {
                None => {
                    let delay = self.pre_dispatch_delay;
                    self.later(delay, WorkerEvent::PreDispatched { outcome: Ok(()) });
                }
                Some((workspace, cap)) => {
                    let command = baseline_reset(
                        &workspace,
                        self.is_cancelled(id),
                        at(self.callers[&id].deadline),
                        at(self.now),
                        Span::from_millis(cap),
                    );
                    match command {
                        Err(error) => self.pre_dispatched(Err(error)),
                        Ok(command) => {
                            let clamped = command.budget.clamped_by_budget;
                            let (due, reply) =
                                self.run_line(&command.line, command.budget.duration);
                            self.pending = Pending::Reset {
                                due,
                                id,
                                reply,
                                clamped,
                            };
                        }
                    }
                }
            },
            WorkerAsk::Recheck { id } => {
                let event = WorkerEvent::Rechecked {
                    cancelled: self.is_cancelled(id),
                    remaining: self.remaining(id),
                };
                self.later(0, event);
            }
            WorkerAsk::Look { id } => {
                if self.cancel_when_marked {
                    let now = self.now;
                    self.callers.get_mut(&id).expect("caller").cancel_at = Some(now);
                }
                let event = WorkerEvent::Looked {
                    cancelled: self.is_cancelled(id),
                };
                self.step(event);
            }
            WorkerAsk::Execute { id, timeout } => {
                let line = self.callers[&id].command.clone();
                let (due, execution) = self.run_line(&line, timeout);
                self.pending = Pending::Event {
                    due,
                    event: WorkerEvent::Executed { execution },
                };
            }
            WorkerAsk::KillSession { .. } => {
                self.session = None;
                self.later(0, WorkerEvent::Killed);
            }
            WorkerAsk::ShutDownSession { has_session, .. } => {
                if has_session {
                    self.shutdowns += 1;
                }
                self.session = None;
                self.later(0, WorkerEvent::ShutDown);
            }
            WorkerAsk::Stop => self.stopped = true,
            WorkerAsk::Repeat => panic!("the worker got an answer to another question"),
        }
    }

    fn observe(&mut self, id: u64, event: CallerEvent) {
        if self.callers[&id].result.is_some() {
            return;
        }
        let action = self.board.execute_observed(id, event);
        let caller = self.callers.get_mut(&id).expect("caller");
        match action {
            CallerAction::Ready { result } => caller.result = Some(result),
            CallerAction::Abandon { result } => {
                caller.result = Some(result);
                caller.completion = Some(id);
            }
            CallerAction::Wait | CallerAction::WaitPastShutdown => {}
        }
    }

    fn step(&mut self, event: WorkerEvent) {
        let (effects, ask) = self.worker.run_worker(&mut self.board, event);
        for effect in effects {
            if let WorkerEffect::Reply { id, result } = effect {
                self.observe(id, CallerEvent::Response(Some(result)));
            }
        }
        self.ask(ask);
    }

    /// Lets the callers see what has come due.
    fn look_at_callers(&mut self) {
        let ids: Vec<u64> = self.callers.keys().copied().collect();
        for id in ids {
            if self.is_cancelled(id) {
                self.observe(id, CallerEvent::Cancelled);
            } else if self.callers[&id].deadline <= self.now {
                self.observe(id, CallerEvent::DeadlinePassed);
            } else if self.board.is_shutdown() {
                self.observe(id, CallerEvent::ShuttingDown);
            }
        }
    }

    /// Has the worker do what is due now.
    fn work(&mut self) -> bool {
        match std::mem::replace(&mut self.pending, Pending::Nothing) {
            Pending::Nothing => {
                if !self.wants_request {
                    return false;
                }
                match self.board.next_request() {
                    Some(id) => {
                        self.wants_request = false;
                        let event = WorkerEvent::Dequeued {
                            id,
                            shutdown: self.board.is_shutdown(),
                            cancelled: self.is_cancelled(id),
                            expired: self.remaining(id).is_zero(),
                        };
                        self.step(event);
                        true
                    }
                    None => {
                        if self.board.is_shutdown() {
                            self.wants_request = false;
                            self.step(WorkerEvent::QueueClosed);
                            return true;
                        }
                        false
                    }
                }
            }
            Pending::Event { due, event } if due <= self.now => {
                self.step(event);
                true
            }
            Pending::Reset {
                due,
                id,
                reply,
                clamped,
            } if due <= self.now => {
                let (_, cap) = self.baseline.clone().expect("baseline");
                let command = baseline_probe(
                    reply,
                    clamped,
                    self.is_cancelled(id),
                    at(self.callers[&id].deadline),
                    at(self.now),
                    Span::from_millis(cap),
                );
                match command {
                    Err(error) => self.pre_dispatched(Err(error)),
                    Ok(command) => {
                        let clamped = command.budget.clamped_by_budget;
                        let (due, reply) = self.run_line(&command.line, command.budget.duration);
                        self.pending = Pending::Probe {
                            due,
                            reply,
                            clamped,
                        };
                    }
                }
                true
            }
            Pending::Probe {
                due,
                reply,
                clamped,
            } if due <= self.now => {
                let (workspace, _) = self.baseline.clone().expect("baseline");
                let outcome = run_baseline_reset(
                    reply,
                    clamped,
                    HostPlatform::Linux,
                    &workspace,
                    false,
                );
                self.pre_dispatched(outcome);
                true
            }
            later => {
                self.pending = later;
                false
            }
        }
    }

    fn settle(&mut self) {
        loop {
            self.look_at_callers();
            if !self.work() {
                return;
            }
        }
    }

    fn run_until(&mut self, moment: u64) {
        self.settle();
        while self.now < moment {
            self.now += 1;
            self.settle();
        }
    }

    fn submit(&mut self, command: &str, after_ms: u64) -> Result<u64, EdtSessionError> {
        let id = self.board.enlist()?;
        self.callers.insert(
            id,
            Caller {
                command: command.to_owned(),
                deadline: self.now + after_ms,
                cancel_at: None,
                result: None,
                completion: None,
            },
        );
        self.settle();
        Ok(id)
    }

    fn cancel(&mut self, id: u64) {
        let now = self.now;
        self.callers.get_mut(&id).expect("caller").cancel_at = Some(now);
        self.settle();
    }

    fn join(&mut self, id: u64) -> Answer {
        for _ in 0..1000 {
            if let Some(result) = &self.callers[&id].result {
                return result.clone();
            }
            let next = self.now + 1;
            self.run_until(next);
        }
        panic!("no answer for request {id}");
    }

    fn execute(&mut self, command: &str, after_ms: u64) -> Answer {
        let id = self.submit(command, after_ms)?;
        self.join(id)
    }

    fn wait_for_commands(&mut self, expected: usize) {
        while self.commands.len() < expected {
            let next = self.now + 1;
            self.run_until(next);
        }
    }

    fn shut_down(&mut self) {
        let _first = self.board.begin_shutdown();
        self.settle();
    }
}

fn drained(reason: EdtSessionDrainReason) -> Answer {
    Err(EdtSessionError::DrainedByRestartOrShutdown { reason })
}

fn stdout(answer: Answer) -> String {
    answer.expect("result").stdout
}

const WORKSPACE: &str = "/tmp/edt workspace";

#[test]
fn single_flight_startup_reuses_one_session_for_multiple_calls() {
    let mut manager = Manager::new(
        vec![Plan::Session(vec![after(20, "one"), after(5, "two")])],
        2,
    );

    let first = manager.submit("cmd-1", 200).expect("first");
    let second = manager.submit("cmd-2", 200).expect("second");

    assert_eq!(stdout(manager.join(first)), "one");
    assert_eq!(stdout(manager.join(second)), "two");
    assert_eq!(manager.starts, 1);
    assert_eq!(manager.commands, vec!["cmd-1", "cmd-2"]);
}

#[test]
fn baseline_reset_runs_before_each_user_command() {
    let reset_command = render_interactive_change_dir_command(WORKSPACE);
    let probe_command = render_interactive_probe_workdir_command();
    let printed = format!("{WORKSPACE}\n");
    let mut manager = Manager::new(
        vec![Plan::Session(vec![
            after(1, ""),
            after(1, &printed),
            after(1, "one"),
            after(1, ""),
            after(1, &printed),
            after(1, "two"),
        ])],
        2,
    )
    .with_baseline(WORKSPACE, 20);

    assert_eq!(stdout(manager.execute("cmd-1", 200)), "one");
    assert_eq!(stdout(manager.execute("cmd-2", 200)), "two");
    assert_eq!(
        manager.commands,
        vec![
            reset_command.clone(),
            probe_command.clone(),
            "cmd-1".to_owned(),
            reset_command,
            probe_command,
            "cmd-2".to_owned(),
        ]
    );
}

#[test]
fn baseline_probe_accepts_equivalent_workspace_with_trailing_separator() {
    let mut manager = Manager::new(
        vec![Plan::Session(vec![
            after(1, ""),
            after(1, &format!("{WORKSPACE}/\n")),
            after(1, "ok"),
        ])],
        2,
    )
    .with_baseline(WORKSPACE, 20);

    assert_eq!(stdout(manager.execute("cmd-1", 200)), "ok");
}

#[test]
fn baseline_probe_mismatch_restarts_and_drains_queue() {
    let mut manager = Manager::new(
        vec![
            Plan::Session(vec![after(5, ""), after(20, "/tmp/other\n")]),
            Plan::Session(vec![
                after(1, ""),
                after(1, &format!("{WORKSPACE}\n")),
                after(1, "fresh"),
            ]),
        ],
        2,
    )
    .with_baseline(WORKSPACE, 30);

    let first = manager.submit("cmd-1", 200).expect("first");
    manager.wait_for_commands(2);
    let queued = manager.submit("cmd-2", 200).expect("queued");

    assert!(matches!(
        manager.join(first),
        Err(EdtSessionError::SessionFailed { .. })
    ));
    assert_eq!(
        manager.join(queued),
        drained(EdtSessionDrainReason::Restart)
    );
    assert_eq!(stdout(manager.execute("cmd-3", 200)), "fresh");
    assert_eq!(manager.starts, 2);
}

#[test]
fn queue_full_counts_running_and_queued_admission() {
    let mut manager = Manager::new(vec![Plan::Session(vec![after(40, "ok")])], 1);

    let first = manager.submit("cmd-1", 200).expect("first");
    manager.wait_for_commands(1);

    let second = manager.execute("cmd-2", 200);

    assert_eq!(second, Err(EdtSessionError::QueueFull));
    assert!(manager.join(first).is_ok());
}

#[test]
fn queued_cancellation_returns_early_before_execution() {
    let mut manager = Manager::new(
        vec![Plan::Session(vec![after(50, "first"), after(5, "third")])],
        2,
    );

    let running = manager.submit("cmd-1", 300).expect("running");
    manager.wait_for_commands(1);
    let queued = manager.submit("cmd-2", 300).expect("queued");
    let later = manager.now + 10;
    manager.run_until(later);
    manager.cancel(queued);

    assert_eq!(manager.join(queued), Err(EdtSessionError::QueuedCancelled));
    assert_eq!(stdout(manager.execute("cmd-3", 300)), "third");
    assert!(manager.join(running).is_ok());
    assert_eq!(manager.commands, vec!["cmd-1", "cmd-3"]);
}

#[test]
fn queued_timeout_returns_early_before_execution() {
    let mut manager = Manager::new(
        vec![Plan::Session(vec![after(50, "first"), after(5, "third")])],
        2,
    );

    let running = manager.submit("cmd-1", 300).expect("running");
    manager.wait_for_commands(1);

    let queued = manager.execute("cmd-2", 20);

    assert_eq!(queued, Err(EdtSessionError::QueuedTimeout));
    assert_eq!(stdout(manager.execute("cmd-3", 300)), "third");
    assert!(manager.join(running).is_ok());
    assert_eq!(manager.commands, vec!["cmd-1", "cmd-3"]);
}

#[test]
fn budget_exhausted_during_baseline_returns_queued_timeout_without_restart() {
    let mut manager = Manager::new(
        vec![Plan::Session(vec![
            after(20, ""),
            after(1, ""),
            after(1, &format!("{WORKSPACE}\n")),
            after(1, "ok"),
        ])],
        2,
    )
    .with_baseline(WORKSPACE, 50);

    assert_eq!(
        manager.execute("cmd-1", 10),
        Err(EdtSessionError::QueuedTimeout)
    );
    assert_eq!(stdout(manager.execute("cmd-2", 200)), "ok");
    assert_eq!(manager.starts, 1);
}

#[test]
fn queued_cancellation_removes_entries_from_internal_queue() {
    let mut manager = Manager::new(
        vec![Plan::Session(vec![after(60, "first"), after(5, "second")])],
        2,
    );

    let running = manager.submit("cmd-1", 300).expect("running");
    manager.wait_for_commands(1);

    for _ in 0..20 {
        let id = manager.submit("cancelled", 300).expect("admitted");
        manager.cancel(id);
        assert_eq!(manager.join(id), Err(EdtSessionError::QueuedCancelled));
        assert!(manager.board.is_finished(id));
    }

    assert_eq!(manager.board.queued_len(), 0);
    assert_eq!(stdout(manager.execute("cmd-2", 300)), "second");
    assert!(manager.join(running).is_ok());
    assert_eq!(manager.commands, vec!["cmd-1", "cmd-2"]);
}

#[test]
fn deadline_expiring_during_pre_dispatch_stays_queued_timeout_without_restart() {
    let mut manager = Manager::new(vec![Plan::Session(vec![after(5, "second")])], 2);
    manager.pre_dispatch_delay = 20;

    assert_eq!(
        manager.execute("cmd-1", 10),
        Err(EdtSessionError::QueuedTimeout)
    );
    assert_eq!(stdout(manager.execute("cmd-2", 200)), "second");
    assert_eq!(manager.starts, 1);
    assert_eq!(manager.commands, vec!["cmd-2"]);
}

#[test]
fn cancellation_during_baseline_returns_queued_cancel_without_user_command() {
    let reset_command = render_interactive_change_dir_command(WORKSPACE);
    let mut manager = Manager::new(
        vec![Plan::Session(vec![
            after(30, ""),
            after(1, ""),
            after(1, &format!("{WORKSPACE}\n")),
            after(1, "ok"),
        ])],
        2,
    )
    .with_baseline(WORKSPACE, 50);

    let first = manager.submit("cmd-1", 200).expect("first");
    manager.wait_for_commands(1);
    manager.cancel(first);

    assert_eq!(manager.join(first), Err(EdtSessionError::QueuedCancelled));
    assert_eq!(manager.commands, vec![reset_command]);
    assert_eq!(stdout(manager.execute("cmd-2", 200)), "ok");
}

#[test]
fn running_cancellation_is_cooperative_and_capacity_recovers_after_completion() {
    let mut manager = Manager::new(
        vec![Plan::Session(vec![after(60, "first"), after(5, "second")])],
        1,
    );

    let running = manager.submit("cmd-1", 300).expect("running");
    manager.wait_for_commands(1);
    manager.cancel(running);

    assert_eq!(
        manager.join(running),
        Err(EdtSessionError::RunningCancelled)
    );
    assert_eq!(
        manager.execute("cmd-2", 300),
        Err(EdtSessionError::QueueFull)
    );
    let later = manager.now + 70;
    manager.run_until(later);
    assert_eq!(stdout(manager.execute("cmd-2", 300)), "second");
}

#[test]
fn execute_observed_can_surface_completed_running_cancellation_without_completion_handle() {
    let mut manager = Manager::new(vec![Plan::Session(vec![])], 1);
    manager.cancel_when_marked = true;

    let id = manager.submit("cmd-1", 200).expect("admitted");

    assert_eq!(
        manager.callers[&id].result,
        Some(Err(EdtSessionError::RunningCancelled))
    );
    assert!(manager.callers[&id].completion.is_none());
    assert!(manager.board.is_finished(id));
}

#[test]
fn running_timeout_forces_lazy_restart_and_drains_queued_calls() {
    let mut manager = Manager::new(
        vec![
            Plan::Session(vec![after(60, "late")]),
            Plan::Session(vec![after(5, "fresh")]),
        ],
        2,
    );

    let first = manager.submit("cmd-1", 20).expect("first");
    manager.wait_for_commands(1);
    let queued = manager.submit("cmd-2", 200).expect("queued");

    assert_eq!(manager.join(first), Err(EdtSessionError::RunningTimeout));
    assert_eq!(
        manager.join(queued),
        drained(EdtSessionDrainReason::Restart)
    );
    let later = manager.now + 40;
    manager.run_until(later);
    assert_eq!(stdout(manager.execute("cmd-3", 200)), "fresh");
    assert_eq!(manager.starts, 2);
}

#[test]
fn fatal_baseline_timeout_under_internal_cap_restarts_and_drains_queue() {
    let mut manager = Manager::new(
        vec![
            Plan::Session(vec![after(40, "")]),
            Plan::Session(vec![
                after(1, ""),
                after(1, &format!("{WORKSPACE}\n")),
                after(1, "fresh"),
            ]),
        ],
        2,
    )
    .with_baseline(WORKSPACE, 10);

    let first = manager.submit("cmd-1", 200).expect("first");
    manager.wait_for_commands(1);
    let queued = manager.submit("cmd-2", 200).expect("queued");

    assert!(matches!(
        manager.join(first),
        Err(EdtSessionError::SessionFailed { .. })
    ));
    assert_eq!(
        manager.join(queued),
        drained(EdtSessionDrainReason::Restart)
    );
    assert_eq!(stdout(manager.execute("cmd-3", 200)), "fresh");
    assert_eq!(manager.starts, 2);
}

#[test]
fn startup_failure_drains_queued_requests_without_retrying_failed_call() {
    let mut manager = Manager::new(
        vec![
            Plan::StartupFailure {
                message: "boom",
                delay: 30,
            },
            Plan::Session(vec![after(5, "ok")]),
        ],
        2,
    );

    let first = manager.submit("cmd-1", 200).expect("first");
    let second = manager.submit("cmd-2", 200).expect("second");

    let first_result = manager.join(first);
    let second_result = manager.join(second);
    let startup: Answer = Err(EdtSessionError::StartupFailed {
        message: "boom".to_owned(),
    });
    let drained = drained(EdtSessionDrainReason::Restart);
    assert!(
        (first_result == startup && second_result == drained)
            || (first_result == drained && second_result == startup),
        "expected one startup failure and one drained request, got {first_result:?} and {second_result:?}"
    );
    assert!(manager.commands.is_empty());
    assert_eq!(stdout(manager.execute("cmd-3", 200)), "ok");
    assert_eq!(manager.starts, 2);
}

#[test]
fn fatal_session_error_drains_queue_and_restarts_lazily() {
    let mut manager = Manager::new(
        vec![
            Plan::Session(vec![Behavior::FatalProcessExitAfter { delay: 30 }]),
            Plan::Session(vec![after(5, "ok")]),
        ],
        2,
    );

    let first = manager.submit("cmd-1", 200).expect("first");
    manager.wait_for_commands(1);
    let second = manager.submit("cmd-2", 200).expect("second");

    assert!(matches!(
        manager.join(first),
        Err(EdtSessionError::SessionFailed { .. })
    ));
    assert_eq!(
        manager.join(second),
        drained(EdtSessionDrainReason::Restart)
    );
    assert_eq!(manager.commands, vec!["cmd-1"]);
    assert_eq!(stdout(manager.execute("cmd-3", 200)), "ok");
    assert_eq!(manager.starts, 2);
}

#[test]
fn shutdown_drains_queued_requests() {
    let mut manager = Manager::new(
        vec![Plan::Session(vec![after(40, "first"), after(5, "second")])],
        2,
    );

    let running = manager.submit("cmd-1", 300).expect("running");
    manager.wait_for_commands(1);
    let queued = manager.submit("cmd-2", 300).expect("queued");
    let later = manager.now + 10;
    manager.run_until(later);

    manager.shut_down();

    assert!(manager.join(running).is_ok());
    assert_eq!(
        manager.join(queued),
        drained(EdtSessionDrainReason::Shutdown)
    );
    let later = manager.now + 1;
    manager.run_until(later);
    assert!(manager.stopped);
}

#[test]
fn drop_starts_background_shutdown_cleanup() {
    let mut manager = Manager::new(vec![Plan::Session(vec![after(5, "ok")])], 1);
    assert_eq!(stdout(manager.execute("cmd-1", 200)), "ok");

    manager.shut_down();

    assert_eq!(manager.shutdowns, 1);
    assert!(manager.stopped);
}

#[test]
fn repeated_shutdown_is_idempotent() {
    let mut manager = Manager::new(vec![Plan::Session(vec![])], 1);
    let limit = Span::from_millis(20);

    manager.shut_down();
    assert_eq!(
        join_worker(JoinPhase::Waiting, JoinOutcome::Joined, limit),
        JoinStep::Done { result: Ok(()) }
    );
    assert!(!manager.board.begin_shutdown());
    assert_eq!(begin_join(false, false, limit), Some(Ok(())));
}

#[test]
fn shutdown_timeout_surface_is_typed() {
    let error = EdtSessionShutdownError::TimedOut { timeout_ms: 10 };
    assert_eq!(
        error.message(),
        "shared EDT actor did not stop within 10ms"
    );
}

#[test]
fn worker_that_does_not_stop_is_killed_once_and_then_given_up() {
    let limit = Span::from_millis(10);
    assert_eq!(
        join_worker(JoinPhase::Waiting, JoinOutcome::TimedOut, limit),
        JoinStep::KillAndWait
    );
    assert_eq!(
        join_worker(JoinPhase::Killed, JoinOutcome::TimedOut, limit),
        JoinStep::GiveUp {
            error: EdtSessionShutdownError::TimedOut { timeout_ms: 10 }
        }
    );
    assert_eq!(
        join_worker(JoinPhase::Waiting, JoinOutcome::Panicked, limit),
        JoinStep::Done {
            result: Err(EdtSessionShutdownError::WorkerPanicked)
        }
    );
    assert_eq!(
        begin_join(true, true, limit),
        Some(Err(EdtSessionShutdownError::TimedOut { timeout_ms: 10 }))
    );
    assert_eq!(begin_join(false, true, limit), None);
    assert_eq!(
        EdtSessionShutdownError::WorkerPanicked.message(),
        "shared EDT actor worker thread panicked"
    );
}

#[test]
fn worker_is_looked_at_until_its_time_is_over() {
    assert_eq!(wait_for_worker(true, at(9), at(5)), WorkerWait::Finished);
    assert_eq!(wait_for_worker(false, at(5), at(5)), WorkerWait::TimedOut);
    assert_eq!(
        wait_for_worker(false, at(1), at(5)),
        WorkerWait::Sleep {
            pause: Span::from_millis(4)
        }
    );
}

#[test]
fn baseline_has_no_more_time_than_its_request() {
    let cap = Span::from_millis(50);
    let tight = baseline_timeout_budget(at(30), at(10), cap).expect("budget");
    assert_eq!(tight.duration, Span::from_millis(20));
    assert!(tight.clamped_by_budget);
    let wide = baseline_timeout_budget(at(300), at(10), cap).expect("budget");
    assert_eq!(wide.duration, cap);
    assert!(!wide.clamped_by_budget);
    assert_eq!(
        baseline_timeout_budget(at(10), at(10), cap),
        Err(EdtSessionError::QueuedTimeout)
    );
}

#[test]
fn workspace_is_recognised_by_its_components_or_on_disk() {
    let linux = HostPlatform::Linux;
    assert!(workspace_paths_match(linux, "/tmp/ws/", "/tmp/ws", false));
    assert!(!workspace_paths_match(linux, "/tmp/other", "/tmp/ws", false));
    assert!(workspace_paths_match(linux, "/tmp/link", "/tmp/ws", true));

    let windows = HostPlatform::Windows;
    assert!(workspace_paths_match(windows, "c:/work/ws/", "C:\\work\\ws", false));
    assert!(!workspace_paths_match(windows, "D:\\work\\ws", "C:\\work\\ws", false));
    assert!(!workspace_paths_match(linux, "c:/work", "C:\\work", false));
}

#[test]
fn admission_ends_with_the_shutdown() {
    let mut board = SessionBoard::new(1);
    assert!(board.begin_shutdown());
    assert_eq!(
        board.enlist(),
        Err(EdtSessionError::DrainedByRestartOrShutdown {
            reason: EdtSessionDrainReason::Shutdown
        })
    );
}

#[test]
fn request_whose_answer_was_lost_fails() {
    let mut board = SessionBoard::new(1);
    let id = board.enlist().expect("admitted");
    match board.execute_observed(id, CallerEvent::Response(None)) {
        CallerAction::Ready {
            result: Err(EdtSessionError::InternalFailure { message }),
        } => assert_eq!(message, "shared EDT worker dropped response channel"),
        other => panic!("unexpected action: {other:?}"),
    }
}

#[test]
fn session_errors_have_their_messages() {
    let errors = [
        EdtSessionError::QueueFull,
        EdtSessionError::QueuedCancelled,
        EdtSessionError::QueuedTimeout,
        EdtSessionError::RunningCancelled,
        EdtSessionError::RunningTimeout,
        EdtSessionError::StartupFailed {
            message: "boom".to_owned(),
        },
        EdtSessionError::SessionFailed {
            message: "boom".to_owned(),
        },
        EdtSessionError::DrainedByRestartOrShutdown {
            reason: EdtSessionDrainReason::Restart,
        },
        EdtSessionError::DrainedByRestartOrShutdown {
            reason: EdtSessionDrainReason::Shutdown,
        },
        EdtSessionError::InternalFailure {
            message: "boom".to_owned(),
        },
    ];
    let mut messages: Vec<String> = errors.iter().map(EdtSessionError::message).collect();
    messages.sort();
    messages.dedup();
    assert_eq!(messages.len(), errors.len());
}
