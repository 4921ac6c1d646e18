//! Circumstances of an MCP call.

use vstd::prelude::*;
use crate::time::{Moment, Span};
use crate::use_cases::ExecutionTransport;

verus! {

/// Circumstances of an MCP call.
#[derive(Clone, Copy, Debug, PartialEq, Eq, Structural)]
pub struct McpCallContext {
    pub transport: ExecutionTransport,
    pub edt_timeout: Option<Span>,
    pub deadline: Option<Moment>,
}

impl McpCallContext {
    /// Call over the transport, without limits of its own.
    pub fn new(transport: ExecutionTransport) -> (r: Self)
        ensures
            r == (McpCallContext { transport, edt_timeout: None, deadline: None }),
    {
        McpCallContext { transport, edt_timeout: None, deadline: None }
    }

    /// Call over stdio.
    pub fn stdio() -> (r: Self)
        ensures
            r == (McpCallContext {
                transport: ExecutionTransport::McpStdio,
                edt_timeout: None,
                deadline: None,
            }),
    {
        Self::new(ExecutionTransport::McpStdio)
    }

    /// Call over HTTP.
    pub fn http() -> (r: Self)
        ensures
            r == (McpCallContext {
                transport: ExecutionTransport::McpHttp,
                edt_timeout: None,
                deadline: None,
            }),
    {
        Self::new(ExecutionTransport::McpHttp)
    }

    /// Transport of the call.
    pub fn transport(self) -> (r: ExecutionTransport)
        ensures
            r == self.transport,
    {
        self.transport
    }

    /// The call with a budget for EDT.
    pub fn with_edt_timeout(self, edt_timeout: Option<Span>) -> (r: Self)
        ensures
            r == (McpCallContext { edt_timeout, ..self }),
    {
        McpCallContext { edt_timeout, ..self }
    }

    /// Budget for EDT.
    pub fn edt_timeout(self) -> (r: Option<Span>)
        ensures
            r == self.edt_timeout,
    {
        self.edt_timeout
    }

    /// The call with a deadline.
    pub fn with_deadline(self, deadline: Option<Moment>) -> (r: Self)
        ensures
            r == (McpCallContext { deadline, ..self }),
    {
        McpCallContext { deadline, ..self }
    }

    /// Deadline of the call.
    pub fn deadline(self) -> (r: Option<Moment>)
        ensures
            r == self.deadline,
    {
        self.deadline
    }
}

} // verus!
