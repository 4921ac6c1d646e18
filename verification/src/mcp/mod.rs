//! MCP tool surface.

pub mod call_laws;
pub mod context;
pub mod edt_session;
pub mod edt_syntax;
pub mod edt_syntax_check;
pub mod edt_syntax_check_laws;
pub mod edt_syntax_laws;
pub mod edt_syntax_run;
pub mod envelope;
pub mod error;
pub mod http_admission;
pub mod http_call;
pub mod port;
pub mod request;
pub mod request_laws;
pub mod response_laws;
pub mod server;
pub mod service;
pub mod service_map;
pub mod session_baseline;
pub mod session_board;
pub mod session_laws;
pub mod session_start;
pub mod session_worker;
pub mod session_worker_laws;
pub mod tool_call;
pub mod tool_run;
