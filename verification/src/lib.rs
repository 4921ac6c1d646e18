//! Decision logic of the v8-runner: command lines for the 1C platform utilities, parsers of their
//! reports, the shared EDT session protocol and the MCP tool surface.

pub mod adapter_input;
pub mod config;
pub mod config_laws;
pub mod domain;
pub mod mcp;
pub mod output;
pub mod outside;
pub mod parsers;
pub mod path;
pub mod path_laws;
pub mod platform;
pub mod text;
pub mod text_laws;
pub mod text_number;
pub mod text_scan;
pub mod time;
pub mod time_laws;
pub mod use_cases;
