//! Shared EDT session: requests, responses and failures.

use vstd::prelude::*;
use crate::text::{cat2, cat3};
use crate::text_number::{decimal, decimal_u64};

verus! {

/// Output of an interactive EDT command.
#[derive(Debug, PartialEq, Eq)]
pub struct EdtSessionResponse {
    pub stdout: String,
    pub stderr: String,
}

/// Mathematical value of [`EdtSessionResponse`].
pub struct EdtSessionResponseView {
    pub stdout: Seq<char>,
    pub stderr: Seq<char>,
}

impl View for EdtSessionResponse {
    type V = EdtSessionResponseView;

    open spec fn view(&self) -> EdtSessionResponseView {
        EdtSessionResponseView {
            stdout: self.stdout@,
            stderr: self.stderr@,
        }
    }
}

impl Clone for EdtSessionResponse {
    fn clone(&self) -> (r: Self)
        ensures
            r@ == self@,
    {
        EdtSessionResponse {
            stdout: self.stdout.clone(),
            stderr: self.stderr.clone(),
        }
    }
}

/// Why the session dropped queued work without executing it.
#[derive(Clone, Copy, Debug, PartialEq, Eq, Structural)]
pub enum EdtSessionDrainReason {
    Restart,
    Shutdown,
}

/// Failures of the shared EDT session.
#[derive(Debug, PartialEq, Eq)]
pub enum EdtSessionError {
    QueueFull,
    QueuedCancelled,
    QueuedTimeout,
    RunningCancelled,
    RunningTimeout,
    StartupFailed { message: String },
    SessionFailed { message: String },
    DrainedByRestartOrShutdown { reason: EdtSessionDrainReason },
    InternalFailure { message: String },
}

/// Mathematical value of [`EdtSessionError`].
pub enum EdtSessionErrorView {
    QueueFull,
    QueuedCancelled,
    QueuedTimeout,
    RunningCancelled,
    RunningTimeout,
    StartupFailed { message: Seq<char> },
    SessionFailed { message: Seq<char> },
    DrainedByRestartOrShutdown { reason: EdtSessionDrainReason },
    InternalFailure { message: Seq<char> },
}

impl View for EdtSessionError {
    type V = EdtSessionErrorView;

    open spec fn view(&self) -> EdtSessionErrorView {
        match *self {
            EdtSessionError::QueueFull => EdtSessionErrorView::QueueFull,
            EdtSessionError::QueuedCancelled => EdtSessionErrorView::QueuedCancelled,
            EdtSessionError::QueuedTimeout => EdtSessionErrorView::QueuedTimeout,
            EdtSessionError::RunningCancelled => EdtSessionErrorView::RunningCancelled,
            EdtSessionError::RunningTimeout => EdtSessionErrorView::RunningTimeout,
            EdtSessionError::StartupFailed { message } => EdtSessionErrorView::StartupFailed {
                message: message@,
            },
            EdtSessionError::SessionFailed { message } => EdtSessionErrorView::SessionFailed {
                message: message@,
            },
            EdtSessionError::DrainedByRestartOrShutdown {
                reason,
            } => EdtSessionErrorView::DrainedByRestartOrShutdown {
                reason,
            },
            EdtSessionError::InternalFailure { message } => EdtSessionErrorView::InternalFailure {
                message: message@,
            },
        }
    }
}

impl Clone for EdtSessionError {
    fn clone(&self) -> (r: Self)
        ensures
            r@ == self@,
    {
        match self {
            EdtSessionError::QueueFull => EdtSessionError::QueueFull,
            EdtSessionError::QueuedCancelled => EdtSessionError::QueuedCancelled,
            EdtSessionError::QueuedTimeout => EdtSessionError::QueuedTimeout,
            EdtSessionError::RunningCancelled => EdtSessionError::RunningCancelled,
            EdtSessionError::RunningTimeout => EdtSessionError::RunningTimeout,
            EdtSessionError::StartupFailed { message } => EdtSessionError::StartupFailed {
                message: message.clone(),
            },
            EdtSessionError::SessionFailed { message } => EdtSessionError::SessionFailed {
                message: message.clone(),
            },
            EdtSessionError::DrainedByRestartOrShutdown {
                reason,
            } => EdtSessionError::DrainedByRestartOrShutdown {
                reason: *reason,
            },
            EdtSessionError::InternalFailure { message } => EdtSessionError::InternalFailure {
                message: message.clone(),
            },
        }
    }
}

/// Text shown for a session failure.
pub open spec fn session_error_text(error: EdtSessionErrorView) -> Seq<char> {
    match error {
        EdtSessionErrorView::QueueFull => "shared EDT queue is full"@,
        EdtSessionErrorView::QueuedCancelled => "shared EDT request was cancelled while queued"@,
        EdtSessionErrorView::QueuedTimeout => "shared EDT request timed out while queued"@,
        EdtSessionErrorView::RunningCancelled => "shared EDT request was cancelled while running"@,
        EdtSessionErrorView::RunningTimeout => "shared EDT request timed out while running"@,
        EdtSessionErrorView::StartupFailed { message } => "failed to start shared EDT session: "@
            + message,
        EdtSessionErrorView::SessionFailed { message } => "shared EDT session failed: "@ + message,
        EdtSessionErrorView::DrainedByRestartOrShutdown { reason } => match reason {
            EdtSessionDrainReason::Restart =>
                "shared EDT actor drained queued work because of Restart"@,
            EdtSessionDrainReason::Shutdown =>
                "shared EDT actor drained queued work because of Shutdown"@,
        },
        EdtSessionErrorView::InternalFailure { message } =>
            "shared EDT actor failed internally: "@ + message,
    }
}

impl EdtSessionError {
    /// Text shown to the user.
    pub fn message(&self) -> (r: String)
        ensures
            r@ == session_error_text(self@),
    {
        match self {
            EdtSessionError::QueueFull => "shared EDT queue is full".to_owned(),
            EdtSessionError::QueuedCancelled =>
                "shared EDT request was cancelled while queued".to_owned(),
            EdtSessionError::QueuedTimeout =>
                "shared EDT request timed out while queued".to_owned(),
            EdtSessionError::RunningCancelled =>
                "shared EDT request was cancelled while running".to_owned(),
            EdtSessionError::RunningTimeout =>
                "shared EDT request timed out while running".to_owned(),
            EdtSessionError::StartupFailed { message } => cat2(
                "failed to start shared EDT session: ",
                message.as_str(),
            ),
            EdtSessionError::SessionFailed { message } => cat2(
                "shared EDT session failed: ",
                message.as_str(),
            ),
            EdtSessionError::DrainedByRestartOrShutdown { reason } => match reason {
                EdtSessionDrainReason::Restart =>
                    "shared EDT actor drained queued work because of Restart".to_owned(),
                EdtSessionDrainReason::Shutdown =>
                    "shared EDT actor drained queued work because of Shutdown".to_owned(),
            },
            EdtSessionError::InternalFailure { message } => cat2(
                "shared EDT actor failed internally: ",
                message.as_str(),
            ),
        }
    }
}

/// Failures to shut the shared EDT session down.
#[derive(Debug, PartialEq, Eq)]
pub enum EdtSessionShutdownError {
    TimedOut { timeout_ms: u64 },
    WorkerPanicked,
    Internal { message: String },
}

/// Mathematical value of [`EdtSessionShutdownError`].
pub enum EdtSessionShutdownErrorView {
    TimedOut { timeout_ms: u64 },
    WorkerPanicked,
    Internal { message: Seq<char> },
}

impl View for EdtSessionShutdownError {
    type V = EdtSessionShutdownErrorView;

    open spec fn view(&self) -> EdtSessionShutdownErrorView {
        match *self {
            EdtSessionShutdownError::TimedOut {
                timeout_ms,
            } => EdtSessionShutdownErrorView::TimedOut {
                timeout_ms,
            },
            EdtSessionShutdownError::WorkerPanicked => EdtSessionShutdownErrorView::WorkerPanicked,
            EdtSessionShutdownError::Internal { message } => EdtSessionShutdownErrorView::Internal {
                message: message@,
            },
        }
    }
}

/// Text shown for a shutdown failure.
pub open spec fn shutdown_error_text(error: EdtSessionShutdownErrorView) -> Seq<char> {
    match error {
        EdtSessionShutdownErrorView::TimedOut { timeout_ms } =>
            "shared EDT actor did not stop within "@ + decimal(timeout_ms as nat) + "ms"@,
        EdtSessionShutdownErrorView::WorkerPanicked => "shared EDT actor worker thread panicked"@,
        EdtSessionShutdownErrorView::Internal { message } =>
            "shared EDT actor failed internally during shutdown: "@ + message,
    }
}

impl EdtSessionShutdownError {
    /// Text shown to the user.
    pub fn message(&self) -> (r: String)
        ensures
            r@ == shutdown_error_text(self@),
    {
        match self {
            EdtSessionShutdownError::TimedOut { timeout_ms } => cat3(
                "shared EDT actor did not stop within ",
                decimal_u64(*timeout_ms).as_str(),
                "ms",
            ),
            EdtSessionShutdownError::WorkerPanicked =>
                "shared EDT actor worker thread panicked".to_owned(),
            EdtSessionShutdownError::Internal { message } => cat2(
                "shared EDT actor failed internally during shutdown: ",
                message.as_str(),
            ),
        }
    }
}

} // verus!
