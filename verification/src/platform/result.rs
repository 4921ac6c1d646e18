//! Result of a platform command.

use vstd::prelude::*;
use crate::platform::process::{ProcessResult, ProcessResultView};
use crate::text::{cat4, opt_text, text_result};

verus! {

/// Result of a platform command: the process and the log that the platform wrote.
#[derive(Debug, PartialEq, Eq)]
pub struct PlatformCommandResult {
    /// Result of the process.
    pub process: ProcessResult,
    /// Path of the log that was requested.
    pub platform_log_path: Option<String>,
    /// Contents of that log.
    pub platform_log: Option<String>,
    /// Why the log could not be read.
    pub platform_log_read_error: Option<String>,
}

/// Mathematical value of [`PlatformCommandResult`].
pub struct PlatformCommandResultView {
    pub process: ProcessResultView,
    pub platform_log_path: Option<Seq<char>>,
    pub platform_log: Option<Seq<char>>,
    pub platform_log_read_error: Option<Seq<char>>,
}

impl View for PlatformCommandResult {
    type V = PlatformCommandResultView;

    open spec fn view(&self) -> PlatformCommandResultView {
        PlatformCommandResultView {
            process: self.process@,
            platform_log_path: opt_text(self.platform_log_path),
            platform_log: opt_text(self.platform_log),
            platform_log_read_error: opt_text(self.platform_log_read_error),
        }
    }
}

/// Result of a command that was asked to write a log: the log where it could be read, else the
/// reason; without a log only the process.
pub open spec fn platform_result(
    process: ProcessResultView,
    log_path: Option<Seq<char>>,
    log: Result<Seq<char>, Seq<char>>,
    failure: Seq<char>,
) -> PlatformCommandResultView {
    match log_path {
        None => PlatformCommandResultView {
            process,
            platform_log_path: None,
            platform_log: None,
            platform_log_read_error: None,
        },
        Some(path) => PlatformCommandResultView {
            process,
            platform_log_path: Some(path),
            platform_log: match log {
                Ok(text) => Some(text),
                Err(_) => None,
            },
            platform_log_read_error: match log {
                Ok(_) => None,
                Err(source) => Some(failure + path + "': "@ + source),
            },
        },
    }
}

/// Result of a command that was asked to write a log.
pub fn log_outcome(
    process: ProcessResult,
    log_path: Option<String>,
    log: Result<String, String>,
    failure: &str,
) -> (r: PlatformCommandResult)
    ensures
        r@ == platform_result(process@, opt_text(log_path), text_result(log), failure@),
{
    match log_path {
        None => PlatformCommandResult {
            process,
            platform_log_path: None,
            platform_log: None,
            platform_log_read_error: None,
        },
        Some(path) => match log {
            Ok(text) => PlatformCommandResult {
                process,
                platform_log_path: Some(path),
                platform_log: Some(text),
                platform_log_read_error: None,
            },
            Err(source) => {
                let message = cat4(failure, path.as_str(), "': ", source.as_str());
                PlatformCommandResult {
                    process,
                    platform_log_path: Some(path),
                    platform_log: None,
                    platform_log_read_error: Some(message),
                }
            },
        },
    }
}

} // verus!
