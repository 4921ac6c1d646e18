//! MCP server as a whole: settings of its transports and the ways in which it fails to run.

use vstd::prelude::*;
use crate::config::AppConfig;
use crate::mcp::edt_session::{shutdown_error_text, EdtSessionShutdownError};
use crate::text::{cat2, cat4};
use crate::time::Span;

verus! {

/// Longest body of a request that is inspected.
pub const HTTP_BODY_LIMIT_BYTES: usize = 1_048_576;

/// Failure of the server.
#[derive(Debug, PartialEq, Eq)]
pub enum McpServerError {
    BuildRuntime(String),
    Bootstrap(String),
    BindHttp { address: String, source: String },
    Start(String),
    Task(String),
}

/// Mathematical value of [`McpServerError`].
pub enum McpServerErrorView {
    BuildRuntime(Seq<char>),
    Bootstrap(Seq<char>),
    BindHttp { address: Seq<char>, source: Seq<char> },
    Start(Seq<char>),
    Task(Seq<char>),
}

impl View for McpServerError {
    type V = McpServerErrorView;

    open spec fn view(&self) -> McpServerErrorView {
        match *self {
            McpServerError::BuildRuntime(x0) => McpServerErrorView::BuildRuntime(x0@),
            McpServerError::Bootstrap(x0) => McpServerErrorView::Bootstrap(x0@),
            McpServerError::BindHttp { address, source } => McpServerErrorView::BindHttp {
                address: address@,
                source: source@,
            },
            McpServerError::Start(x0) => McpServerErrorView::Start(x0@),
            McpServerError::Task(x0) => McpServerErrorView::Task(x0@),
        }
    }
}

/// Text shown for a failure.
pub open spec fn server_error_text(error: McpServerErrorView) -> Seq<char> {
    match error {
        McpServerErrorView::BuildRuntime(source) =>
            "failed to build tokio runtime for MCP transport: "@ + source,
        McpServerErrorView::Bootstrap(source) => "failed to initialize MCP transport: "@ + source,
        McpServerErrorView::BindHttp { address, source } =>
            "failed to bind MCP HTTP listener on "@ + address + ": "@ + source,
        McpServerErrorView::Start(source) => "failed to start MCP transport: "@ + source,
        McpServerErrorView::Task(source) => "MCP transport task failed: "@ + source,
    }
}

impl McpServerError {
    /// Text shown to the user.
    pub fn message(&self) -> (r: String)
        ensures
            r@ == server_error_text(self@),
    {
        match self {
            McpServerError::BuildRuntime(source) => cat2(
                "failed to build tokio runtime for MCP transport: ",
                source.as_str(),
            ),
            McpServerError::Bootstrap(source) => cat2(
                "failed to initialize MCP transport: ",
                source.as_str(),
            ),
            McpServerError::BindHttp { address, source } => cat4(
                "failed to bind MCP HTTP listener on ",
                address.as_str(),
                ": ",
                source.as_str(),
            ),
            McpServerError::Start(source) => cat2(
                "failed to start MCP transport: ",
                source.as_str(),
            ),
            McpServerError::Task(source) => cat2("MCP transport task failed: ", source.as_str()),
        }
    }

    /// Failure of the server where the shared EDT session does not stop.
    pub fn from_shutdown(error: &EdtSessionShutdownError) -> (r: Self)
        ensures
            r@ == McpServerErrorView::Task(shutdown_error_text(error@)),
    {
        McpServerError::Task(error.message())
    }
}

/// How long an idle session is kept: at least one second, and not at all without sessions.
pub fn session_keep_alive(config: &AppConfig) -> (r: Option<Span>)
    ensures
        match r {
            Some(span) => config@.mcp.http.stateful_sessions && span.nanos == (if
                config@.mcp.http.idle_ttl_secs < 1 {
                1
            } else {
                config@.mcp.http.idle_ttl_secs as int
            }) * 1_000_000_000,
            None => !config@.mcp.http.stateful_sessions,
        },
{
    if !config.mcp.http.stateful_sessions {
        return None;
    }
    if config.mcp.http.idle_ttl_secs < 1 {
        Some(Span::from_secs(1))
    } else {
        Some(Span::from_secs(config.mcp.http.idle_ttl_secs))
    }
}

} // verus!
