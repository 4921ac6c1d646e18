
//! Platform utilities: processes, command lines and the interactive EDT protocol.
pub mod command_laws;
pub mod connection;
pub mod designer;
pub mod download;
pub mod download_laws;
pub mod edt;
pub mod edt_command;
pub mod edt_laws;
pub mod edt_run;
pub mod enterprise;
pub mod failure_laws;
pub mod git;
pub mod ibcmd;
pub mod interactive;
pub mod interactive_finish;
pub mod interactive_laws;
pub mod interactive_run;
pub mod interactive_run_laws;
pub mod interactive_session;
pub mod locate;
pub mod locate_laws;
pub mod locator;
pub mod process;
pub mod process_executor;
pub mod process_laws;
pub mod process_run;
pub mod prompt;
pub mod result;
pub mod utilities;
pub mod version;
pub mod version_laws;
