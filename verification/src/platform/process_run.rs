//! Decisions taken while a child process is started, watched and interrupted.

use vstd::prelude::*;
use crate::outside::{decode_lossy, lossy_text};
use crate::platform::process::{
    ProcessError, ProcessErrorView, ProcessExecutionPolicy, ProcessInterruption,
    ProcessInterruptionAction, ProcessInterruptionReason, ProcessInterruptionSafety, ProcessResult,
    ProcessResultView, SpawnResult, SpawnResultView,
};
use crate::time::{millis_span, whole_millis, Span};

verus! {

/// Busy-executable retries after the first attempt.
pub const EXECUTABLE_BUSY_MAX_RETRIES: u64 = 5;

/// Pause before a busy-executable retry, in milliseconds.
pub const EXECUTABLE_BUSY_RETRY_DELAY_MS: u64 = 10;

/// Pause between two looks at a running child, in milliseconds.
pub const POLL_INTERVAL_MS: u64 = 10;

/// What a look at a child process shows.
#[derive(Debug, PartialEq, Eq)]
pub enum ChildStatus {
    /// The child has not exited.
    Running,
    /// The child has exited; a child ended by a signal has no code.
    Exited { code: Option<i32> },
    /// The status could not be obtained.
    Unknown { source: String },
}

/// Mathematical value of [`ChildStatus`].
pub enum ChildStatusView {
    Running,
    Exited { code: Option<i32> },
    Unknown { source: Seq<char> },
}

impl View for ChildStatus {
    type V = ChildStatusView;

    open spec fn view(&self) -> ChildStatusView {
        match *self {
            ChildStatus::Running => ChildStatusView::Running,
            ChildStatus::Exited { code } => ChildStatusView::Exited { code },
            ChildStatus::Unknown { source } => ChildStatusView::Unknown { source: source@ },
        }
    }
}

/// Exit code reported for a child: `-1` where it has none.
pub open spec fn reported_code(code: Option<i32>) -> i32 {
    match code {
        Some(c) => c,
        None => -1i32,
    }
}

/// Exit code reported for a child.
pub fn exit_code_of(code: Option<i32>) -> (r: i32)
    ensures
        r == reported_code(code),
{
    match code {
        Some(c) => c,
        None => -1i32,
    }
}

// ---------------------------------------------------------------------------------------------
// Before the start

/// Failure of a run that must not start: it is cancelled already, or has no time at all.
pub open spec fn start_refusal(
    cmd: Seq<char>,
    policy: ProcessExecutionPolicy,
    cancelled: bool,
) -> Option<ProcessErrorView> {
    if cancelled {
        Some(ProcessErrorView::Cancelled { cmd })
    } else if policy.timeout is Some && policy.timeout->0.nanos == 0 {
        Some(ProcessErrorView::TimedOut { cmd, timeout_ms: 0 })
    } else {
        None
    }
}

/// Decides whether a run may start.
pub fn admit_run(cmd: &str, policy: &ProcessExecutionPolicy, cancelled: bool) -> (r: Result<
    (),
    ProcessError,
>)
    ensures
        match r {
            Ok(_) => start_refusal(cmd@, *policy, cancelled) is None,
            Err(e) => start_refusal(cmd@, *policy, cancelled) == Some(e@),
        },
{
    if cancelled {
        return Err(ProcessError::Cancelled { cmd: cmd.to_owned() });
    }
    match policy.timeout {
        Some(timeout) => if timeout.is_zero() {
            Err(ProcessError::TimedOut { cmd: cmd.to_owned(), timeout_ms: 0 })
        } else {
            Ok(())
        },
        None => Ok(()),
    }
}

/// What follows a failed attempt to start the executable.
#[derive(Debug, PartialEq, Eq)]
pub enum SpawnRetry {
    /// Try again after the pause.
    After { pause: Span },
    /// Give up.
    GiveUp { error: ProcessError },
}

/// Decides what follows failed attempt number `attempt`, counted from zero: a busy executable is
/// tried again up to the limit, any other failure is final.
pub fn after_spawn_failure(cmd: &str, attempt: u64, busy: bool, source: &str) -> (r: SpawnRetry)
    ensures
        match r {
            SpawnRetry::After { pause } => busy && attempt < EXECUTABLE_BUSY_MAX_RETRIES && pause
                == millis_span(10),
            SpawnRetry::GiveUp { error } => !(busy && attempt < EXECUTABLE_BUSY_MAX_RETRIES)
                && error@ == (ProcessErrorView::SpawnFailed { cmd: cmd@, source: source@ }),
        },
{
    if busy && attempt < EXECUTABLE_BUSY_MAX_RETRIES {
        SpawnRetry::After { pause: Span::from_millis(EXECUTABLE_BUSY_RETRY_DELAY_MS) }
    } else {
        SpawnRetry::GiveUp {
            error: ProcessError::SpawnFailed { cmd: cmd.to_owned(), source: source.to_owned() },
        }
    }
}

/// Result of starting a detached process, from what the look at the end of its startup probe shows.
pub open spec fn spawn_outcome(
    cmd: Seq<char>,
    pid: u32,
    binary: Seq<char>,
    probe: Option<ChildStatusView>,
) -> Result<SpawnResultView, ProcessErrorView> {
    match probe {
        Some(ChildStatusView::Unknown { source }) => Err(
            ProcessErrorView::StartupCheckFailed { cmd, source },
        ),
        Some(ChildStatusView::Exited { code }) => Err(
            ProcessErrorView::ExitedEarly { cmd, exit_code: reported_code(code) },
        ),
        _ => Ok(SpawnResultView { pid, binary }),
    }
}

/// Result of starting a detached process. `probe` is what the child showed when the startup probe
/// had passed, `None` where no probe was requested.
pub fn conclude_spawn(cmd: &str, pid: u32, binary: &str, probe: Option<ChildStatus>) -> (r: Result<
    SpawnResult,
    ProcessError,
>)
    ensures
        match r {
            Ok(x) => spawn_outcome(cmd@, pid, binary@, crate::text::opt_view(probe)) == Ok::<
                SpawnResultView,
                ProcessErrorView,
            >(x@),
            Err(e) => spawn_outcome(cmd@, pid, binary@, crate::text::opt_view(probe)) == Err::<
                SpawnResultView,
                ProcessErrorView,
            >(e@),
        },
{
    match probe {
        Some(ChildStatus::Unknown { source }) => Err(
            ProcessError::StartupCheckFailed { cmd: cmd.to_owned(), source },
        ),
        Some(ChildStatus::Exited { code }) => Err(
            ProcessError::ExitedEarly { cmd: cmd.to_owned(), exit_code: exit_code_of(code) },
        ),
        _ => Ok(SpawnResult { pid, binary: binary.to_owned() }),
    }
}

// ---------------------------------------------------------------------------------------------
// While the child runs

/// One look at a running child.
#[derive(Debug, PartialEq, Eq)]
pub struct ProcessPoll {
    /// State of the child.
    pub status: ChildStatus,
    /// The run has been cancelled.
    pub cancelled: bool,
    /// Time since the child was started.
    pub elapsed: Span,
}

/// Mathematical value of [`ProcessPoll`].
pub struct ProcessPollView {
    pub status: ChildStatusView,
    pub cancelled: bool,
    pub elapsed: Span,
}

impl View for ProcessPoll {
    type V = ProcessPollView;

    open spec fn view(&self) -> ProcessPollView {
        ProcessPollView {
            status: self.status@,
            cancelled: self.cancelled,
            elapsed: self.elapsed,
        }
    }
}

/// What to do after a look at the child.
#[derive(Debug, PartialEq, Eq)]
pub enum WaitAction {
    /// Look again after the poll interval.
    Sleep,
    /// The child has exited and its output counts.
    Complete { exit_code: i32, interruption: Option<ProcessInterruption> },
    /// The child is gone or lost; the run fails.
    Fail { error: ProcessError },
    /// Kill the process group at once, then fail.
    Kill { error: ProcessError },
    /// Ask the process group to stop, kill it after the grace period, then fail.
    Terminate { grace: Span, error: ProcessError },
}

/// Mathematical value of [`WaitAction`].
pub enum WaitActionView {
    Sleep,
    Complete { exit_code: i32, interruption: Option<ProcessInterruption> },
    Fail { error: ProcessErrorView },
    Kill { error: ProcessErrorView },
    Terminate { grace: Span, error: ProcessErrorView },
}

impl View for WaitAction {
    type V = WaitActionView;

    open spec fn view(&self) -> WaitActionView {
        match *self {
            WaitAction::Sleep => WaitActionView::Sleep,
            WaitAction::Complete { exit_code, interruption } => WaitActionView::Complete {
                exit_code,
                interruption,
            },
            WaitAction::Fail { error } => WaitActionView::Fail { error: error@ },
            WaitAction::Kill { error } => WaitActionView::Kill { error: error@ },
            WaitAction::Terminate { grace, error } => WaitActionView::Terminate {
                grace,
                error: error@,
            },
        }
    }
}

/// Failure that an interruption leads to.
pub open spec fn interruption_failure(
    cmd: Seq<char>,
    timeout: Option<Span>,
    reason: ProcessInterruptionReason,
) -> ProcessErrorView {
    match reason {
        ProcessInterruptionReason::Cancelled => ProcessErrorView::Cancelled { cmd },
        ProcessInterruptionReason::TimedOut => ProcessErrorView::TimedOut {
            cmd,
            timeout_ms: match timeout {
                Some(t) => whole_millis(t),
                None => 0,
            },
        },
    }
}

/// Failure that an interruption leads to.
pub fn process_error_from_reason(
    cmd: &str,
    timeout: Option<Span>,
    reason: ProcessInterruptionReason,
) -> (r: ProcessError)
    ensures
        r@ == interruption_failure(cmd@, timeout, reason),
{
    match reason {
        ProcessInterruptionReason::Cancelled => ProcessError::Cancelled { cmd: cmd.to_owned() },
        ProcessInterruptionReason::TimedOut => ProcessError::TimedOut {
            cmd: cmd.to_owned(),
            timeout_ms: match timeout {
                Some(t) => t.as_millis(),
                None => 0,
            },
        },
    }
}

/// Action that an interruption calls for; a critical child is left alone.
pub open spec fn interruption_action(
    cmd: Seq<char>,
    policy: ProcessExecutionPolicy,
    reason: ProcessInterruptionReason,
) -> WaitActionView {
    let error = interruption_failure(cmd, policy.timeout, reason);
    match policy.safety {
        ProcessInterruptionSafety::CriticalNonAbortable => WaitActionView::Sleep,
        ProcessInterruptionSafety::Interruptible => WaitActionView::Kill { error },
        ProcessInterruptionSafety::GracefulThenKill => WaitActionView::Terminate {
            grace: policy.graceful_shutdown_timeout,
            error,
        },
    }
}

/// Action that an interruption calls for.
pub fn interrupt_child(
    cmd: &str,
    policy: &ProcessExecutionPolicy,
    reason: ProcessInterruptionReason,
) -> (r: WaitAction)
    ensures
        r@ == interruption_action(cmd@, *policy, reason),
{
    match policy.safety {
        ProcessInterruptionSafety::CriticalNonAbortable => WaitAction::Sleep,
        ProcessInterruptionSafety::Interruptible => WaitAction::Kill {
            error: process_error_from_reason(cmd, policy.timeout, reason),
        },
        ProcessInterruptionSafety::GracefulThenKill => WaitAction::Terminate {
            grace: policy.graceful_shutdown_timeout,
            error: process_error_from_reason(cmd, policy.timeout, reason),
        },
    }
}

/// Result of a child that has exited after the observed interruption, if any: a critical child's
/// output counts and the interruption is recorded, any other interrupted child fails.
pub open spec fn exit_action(
    cmd: Seq<char>,
    policy: ProcessExecutionPolicy,
    observed: Option<ProcessInterruptionReason>,
    code: Option<i32>,
) -> WaitActionView {
    match observed {
        Some(reason) => if policy.safety == ProcessInterruptionSafety::CriticalNonAbortable {
            WaitActionView::Complete {
                exit_code: reported_code(code),
                interruption: Some(
                    ProcessInterruption { reason, action: ProcessInterruptionAction::Deferred },
                ),
            }
        } else {
            WaitActionView::Fail { error: interruption_failure(cmd, policy.timeout, reason) }
        },
        None => WaitActionView::Complete { exit_code: reported_code(code), interruption: None },
    }
}

/// Interruption that a look reveals: cancellation comes before the timeout.
pub open spec fn due_interruption(
    policy: ProcessExecutionPolicy,
    cancelled: bool,
    elapsed: Span,
) -> Option<ProcessInterruptionReason> {
    if cancelled {
        Some(ProcessInterruptionReason::Cancelled)
    } else if policy.timeout is Some && elapsed.nanos >= policy.timeout->0.nanos {
        Some(ProcessInterruptionReason::TimedOut)
    } else {
        None
    }
}

/// Observed interruption and action after one look at the child.
pub open spec fn wait_step(
    cmd: Seq<char>,
    policy: ProcessExecutionPolicy,
    observed: Option<ProcessInterruptionReason>,
    poll: ProcessPollView,
) -> (Option<ProcessInterruptionReason>, WaitActionView) {
    match poll.status {
        ChildStatusView::Unknown { source } => (
            observed,
            WaitActionView::Fail { error: ProcessErrorView::StartupCheckFailed { cmd, source } },
        ),
        ChildStatusView::Exited { code } => (observed, exit_action(cmd, policy, observed, code)),
        ChildStatusView::Running => match observed {
            Some(_) => (observed, WaitActionView::Sleep),
            None => match due_interruption(policy, poll.cancelled, poll.elapsed) {
                Some(reason) => (Some(reason), interruption_action(cmd, policy, reason)),
                None => (None, WaitActionView::Sleep),
            },
        },
    }
}

/// Watch over one running child. The interruption that was seen first stays the observed one.
#[derive(Debug, PartialEq, Eq)]
pub struct OutputWait {
    pub cmd: String,
    pub policy: ProcessExecutionPolicy,
    pub observed: Option<ProcessInterruptionReason>,
}

impl OutputWait {
    /// Watch over a child that has just been started.
    pub fn new(cmd: &str, policy: ProcessExecutionPolicy) -> (r: Self)
        ensures
            r.cmd@ == cmd@,
            r.policy == policy,
            r.observed is None,
    {
        OutputWait { cmd: cmd.to_owned(), policy, observed: None }
    }

    /// Takes one look at the child into account and says what to do.
    pub fn poll(&mut self, poll: ProcessPoll) -> (r: WaitAction)
        ensures
            final(self).cmd == old(self).cmd,
            final(self).policy == old(self).policy,
            (final(self).observed, r@) == wait_step(
                old(self).cmd@,
                old(self).policy,
                old(self).observed,
                poll@,
            ),
    {
        match poll.status {
            ChildStatus::Unknown { source } => WaitAction::Fail {
                error: ProcessError::StartupCheckFailed { cmd: self.cmd.clone(), source },
            },
            ChildStatus::Exited { code } => match self.observed {
                Some(reason) => {
                    if self.policy.safety == ProcessInterruptionSafety::CriticalNonAbortable {
                        WaitAction::Complete {
                            exit_code: exit_code_of(code),
                            interruption: Some(
                                ProcessInterruption {
                                    reason,
                                    action: ProcessInterruptionAction::Deferred,
                                },
                            ),
                        }
                    } else {
                        WaitAction::Fail {
                            error: process_error_from_reason(
                                self.cmd.as_str(),
                                self.policy.timeout,
                                reason,
                            ),
                        }
                    }
                },
                None => WaitAction::Complete { exit_code: exit_code_of(code), interruption: None },
            },
            ChildStatus::Running => {
                if self.observed.is_some() {
                    return WaitAction::Sleep;
                }
                if poll.cancelled {
                    self.observed = Some(ProcessInterruptionReason::Cancelled);
                    return interrupt_child(
                        self.cmd.as_str(),
                        &self.policy,
                        ProcessInterruptionReason::Cancelled,
                    );
                }
                match self.policy.timeout {
                    Some(limit) => if poll.elapsed.nanos >= limit.nanos {
                        self.observed = Some(ProcessInterruptionReason::TimedOut);
                        interrupt_child(
                            self.cmd.as_str(),
                            &self.policy,
                            ProcessInterruptionReason::TimedOut,
                        )
                    } else {
                        WaitAction::Sleep
                    },
                    None => WaitAction::Sleep,
                }
            },
        }
    }
}

/// Observed interruption after a row of looks.
pub open spec fn observed_after(
    cmd: Seq<char>,
    policy: ProcessExecutionPolicy,
    polls: Seq<ProcessPollView>,
) -> Option<ProcessInterruptionReason>
    decreases polls.len(),
{
    if polls.len() == 0 {
        None
    } else {
        wait_step(cmd, policy, observed_after(cmd, policy, polls.drop_last()), polls.last()).0
    }
}

/// Action after the last of a row of looks.
pub open spec fn action_after(
    cmd: Seq<char>,
    policy: ProcessExecutionPolicy,
    polls: Seq<ProcessPollView>,
) -> WaitActionView {
    wait_step(cmd, policy, observed_after(cmd, policy, polls.drop_last()), polls.last()).1
}

/// A critical child is never killed or asked to stop, and it never fails on account of an
/// interruption: whatever is observed, only a status that cannot be obtained makes the run fail.
pub proof fn critical_child_is_left_alone(
    cmd: Seq<char>,
    policy: ProcessExecutionPolicy,
    polls: Seq<ProcessPollView>,
)
    requires
        polls.len() > 0,
        policy.safety == ProcessInterruptionSafety::CriticalNonAbortable,
    ensures
        action_after(cmd, policy, polls) !is Kill,
        action_after(cmd, policy, polls) !is Terminate,
        action_after(cmd, policy, polls) is Fail ==> polls.last().status is Unknown,
{
}

/// Once an interruption has been observed it stays the observed one, so what is reported in the end
/// is the interruption that came first.
pub proof fn first_interruption_stays(
    cmd: Seq<char>,
    policy: ProcessExecutionPolicy,
    polls: Seq<ProcessPollView>,
    k: int,
)
    requires
        0 <= k <= polls.len(),
        observed_after(cmd, policy, polls.take(k)) is Some,
    ensures
        observed_after(cmd, policy, polls) == observed_after(cmd, policy, polls.take(k)),
    decreases polls.len() - k,
{
    if k == polls.len() {
        assert(polls.take(k) =~= polls);
    } else {
        let next = polls.take(k + 1);
        assert(next.drop_last() =~= polls.take(k));
        first_interruption_stays(cmd, policy, polls, k + 1);
    }
}

/// A run that completes was not interrupted, or its child was critical.
pub proof fn interrupted_output_counts_only_when_critical(
    cmd: Seq<char>,
    policy: ProcessExecutionPolicy,
    polls: Seq<ProcessPollView>,
)
    requires
        polls.len() > 0,
        action_after(cmd, policy, polls) is Complete,
    ensures
        observed_after(cmd, policy, polls.drop_last()) is Some ==> policy.safety
            == ProcessInterruptionSafety::CriticalNonAbortable,
        action_after(cmd, policy, polls)->interruption is Some <==> observed_after(
            cmd,
            policy,
            polls.drop_last(),
        ) is Some,
{
}

// ---------------------------------------------------------------------------------------------
// Graceful termination

/// What to do while a process group that was asked to stop is given its grace period.
#[derive(Clone, Copy, Debug, PartialEq, Eq, Structural)]
pub enum GraceAction {
    /// The child is gone.
    Done,
    /// Look again after the poll interval.
    Sleep,
    /// Kill the process group.
    Kill,
}

/// Decides after one look at a child that was asked to stop. No look counts any more once the grace
/// period has passed.
pub fn grace_step(status: &ChildStatus, elapsed: Span, grace: Span) -> (r: GraceAction)
    ensures
        r == (if elapsed.nanos >= grace.nanos {
            GraceAction::Kill
        } else {
            match status@ {
                ChildStatusView::Exited { .. } => GraceAction::Done,
                ChildStatusView::Running => GraceAction::Sleep,
                ChildStatusView::Unknown { .. } => GraceAction::Kill,
            }
        }),
{
    if elapsed.nanos >= grace.nanos {
        return GraceAction::Kill;
    }
    match status {
        ChildStatus::Exited { .. } => GraceAction::Done,
        ChildStatus::Running => GraceAction::Sleep,
        ChildStatus::Unknown { .. } => GraceAction::Kill,
    }
}

// ---------------------------------------------------------------------------------------------
// After the child

/// Result of a run whose child has completed, from the captured bytes.
pub fn conclude_run(
    exit_code: i32,
    stdout: &Vec<u8>,
    stderr: &Vec<u8>,
    interruption: Option<ProcessInterruption>,
) -> (r: ProcessResult)
    ensures
        r@ == (ProcessResultView {
            exit_code,
            stdout: lossy_text(stdout@),
            stderr: lossy_text(stderr@),
            interruption,
        }),
{
    ProcessResult {
        exit_code,
        stdout: decode_lossy(stdout),
        stderr: decode_lossy(stderr),
        interruption,
    }
}

/// Failure to mirror a captured stream into its log.
pub fn log_write_failure(is_stdout: bool, path: &str, source: &str) -> (r: ProcessError)
    ensures
        r@ == (if is_stdout {
            ProcessErrorView::StdoutLogIo { path: path@, source: source@ }
        } else {
            ProcessErrorView::StderrLogIo { path: path@, source: source@ }
        }),
{
    if is_stdout {
        ProcessError::StdoutLogIo { path: path.to_owned(), source: source.to_owned() }
    } else {
        ProcessError::StderrLogIo { path: path.to_owned(), source: source.to_owned() }
    }
}

} // verus!
