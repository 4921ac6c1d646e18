//! Settings of the shared EDT session, the requests that it takes, and how its process is started.

use vstd::prelude::*;
use crate::config::{AppConfig, AppConfigView};
use crate::mcp::edt_session::{EdtSessionError, EdtSessionErrorView};
use crate::mcp::tool_call::{max_concurrent_calls, shutdown_grace_period};
use crate::path::{joined, path_join, HostPlatform};
use crate::platform::interactive::{
    default_prompt, interactive_error_text, InteractiveProcessError, InteractiveProcessRequest,
    InteractiveProcessRequestView,
};
use crate::platform::locator::{executable_of, LocatorError};
use crate::text::{push_text, texts};
use crate::time::{millis_span, Moment, Span};

verus! {

/// Command for the shared session, with the end of its time.
#[derive(Debug, PartialEq, Eq)]
pub struct EdtSessionRequest {
    pub command: String,
    pub deadline: Moment,
}

/// Mathematical value of [`EdtSessionRequest`].
pub struct EdtSessionRequestView {
    pub command: Seq<char>,
    pub deadline: Moment,
}

impl View for EdtSessionRequest {
    type V = EdtSessionRequestView;

    open spec fn view(&self) -> EdtSessionRequestView {
        EdtSessionRequestView {
            command: self.command@,
            deadline: self.deadline,
        }
    }
}

impl EdtSessionRequest {
    /// Request of a command that has to be over by the deadline.
    pub fn new(command: String, deadline: Moment) -> (r: Self)
        ensures
            r@ == (EdtSessionRequestView { command: command@, deadline }),
    {
        EdtSessionRequest { command, deadline }
    }

    /// Whether the time of the request has run out.
    pub fn is_deadline_exhausted(&self, now: Moment) -> (r: bool)
        ensures
            r == (now.nanos >= self@.deadline.nanos),
    {
        now.nanos >= self.deadline.nanos
    }
}

/// Settings of the shared session.
#[derive(Debug, PartialEq, Eq)]
pub struct EdtSessionHostOptions {
    /// Requests that may be queued or running at once.
    pub queue_capacity: usize,
    /// Time that the worker takes to stop.
    pub shutdown_timeout: Span,
    /// Workspace of the session.
    pub workspace: String,
    /// Time until the first prompt.
    pub startup_timeout: Span,
}

/// Mathematical value of [`EdtSessionHostOptions`].
pub struct EdtSessionHostOptionsView {
    pub queue_capacity: usize,
    pub shutdown_timeout: Span,
    pub workspace: Seq<char>,
    pub startup_timeout: Span,
}

impl View for EdtSessionHostOptions {
    type V = EdtSessionHostOptionsView;

    open spec fn view(&self) -> EdtSessionHostOptionsView {
        EdtSessionHostOptionsView {
            queue_capacity: self.queue_capacity,
            shutdown_timeout: self.shutdown_timeout,
            workspace: self.workspace@,
            startup_timeout: self.startup_timeout,
        }
    }
}

/// Settings that a configuration gives.
pub open spec fn host_options(
    config: AppConfigView,
    host: HostPlatform,
) -> EdtSessionHostOptionsView {
    let grace: int = if config.mcp.execution.shutdown_grace_period_secs < 1 {
        1
    } else {
        config.mcp.execution.shutdown_grace_period_secs as int
    };
    EdtSessionHostOptionsView {
        queue_capacity: if config.mcp.execution.max_concurrent_calls < 1 {
            1
        } else {
            config.mcp.execution.max_concurrent_calls
        },
        shutdown_timeout: Span { nanos: (grace * 1_000_000_000) as u128 },
        workspace: joined(host, config.work_path, "edt-workspace"@),
        startup_timeout: millis_span(config.tools.edt_cli.startup_timeout_ms as nat),
    }
}

impl EdtSessionHostOptions {
    /// Settings of the shared session: as many requests as calls, and the workspace below the work
    /// path.
    pub fn for_config(config: &AppConfig, host: HostPlatform) -> (r: Self)
        ensures
            r@ == host_options(config@, host),
    {
        EdtSessionHostOptions {
            queue_capacity: max_concurrent_calls(config),
            shutdown_timeout: shutdown_grace_period(config),
            workspace: path_join(host, config.work_path.as_str(), "edt-workspace"),
            startup_timeout: Span::from_millis(config.tools.edt_cli.startup_timeout_ms),
        }
    }

    /// Process of the session: the EDT command line on the workspace.
    pub fn process_request(&self, program: String) -> (r: InteractiveProcessRequest)
        ensures
            r@ == (InteractiveProcessRequestView {
                program: program@,
                args: seq!["-data"@, self@.workspace],
                workdir: None,
                prompt: default_prompt(),
            }),
    {
        let mut args: Vec<String> = Vec::new();
        push_text(&mut args, "-data");
        push_text(&mut args, self.workspace.as_str());
        assert(texts(args@) =~= seq!["-data"@, self@.workspace]);
        InteractiveProcessRequest::new(program).with_args(args)
    }
}

/// Failure of a session whose executable was not found.
pub fn session_not_located(error: &LocatorError, host: HostPlatform) -> (r: EdtSessionError)
    ensures
        r@ == (EdtSessionErrorView::StartupFailed {
            message: "utility '"@ + executable_of(error->0, host) + "' was not found"@,
        }),
{
    EdtSessionError::StartupFailed { message: error.message(host) }
}

/// Failure of a session whose process did not come up.
pub fn session_not_started(error: &InteractiveProcessError) -> (r: EdtSessionError)
    ensures
        r@ == (EdtSessionErrorView::StartupFailed { message: interactive_error_text(error@) }),
{
    EdtSessionError::StartupFailed { message: error.message() }
}

} // verus!
