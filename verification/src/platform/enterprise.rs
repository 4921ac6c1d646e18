//! Calls of the client in `ENTERPRISE` mode, for test runs.

use vstd::prelude::*;
use crate::platform::connection::{connection_arguments, V8Connection, V8ConnectionView};
use crate::platform::designer::{plain_request, process_of};
use crate::platform::process::{
    process_error_text, ProcessError, ProcessErrorView, ProcessRequest, ProcessResult,
};
use crate::platform::result::{log_outcome, platform_result, PlatformCommandResult};
use crate::text::{cat2, push_text, push_texts, text_result, texts};
use crate::text_scan::{replaced_char, text_replace_char};
use crate::time::Span;

verus! {

/// Failure of a call of the client.
#[derive(Debug, PartialEq, Eq)]
pub enum EnterpriseError {
    Spawn(ProcessError),
}

/// Mathematical value of [`EnterpriseError`].
pub enum EnterpriseErrorView {
    Spawn(ProcessErrorView),
}

impl View for EnterpriseError {
    type V = EnterpriseErrorView;

    open spec fn view(&self) -> EnterpriseErrorView {
        match *self {
            EnterpriseError::Spawn(x0) => EnterpriseErrorView::Spawn(x0@),
        }
    }
}

impl EnterpriseError {
    /// Text shown to the user.
    pub fn message(&self) -> (r: String)
        ensures
            r@ == "failed to execute enterprise process: "@ + process_error_text(self@->0),
    {
        match self {
            EnterpriseError::Spawn(source) => cat2(
                "failed to execute enterprise process: ",
                source.message().as_str(),
            ),
        }
    }
}

/// What the client runs.
#[derive(Debug, PartialEq, Eq)]
pub enum EnterpriseScenario {
    YaXUnit { config_path: String },
    Vanessa { epf_path: String, params_path: String },
}

/// Mathematical value of [`EnterpriseScenario`].
pub enum EnterpriseScenarioView {
    YaXUnit { config_path: Seq<char> },
    Vanessa { epf_path: Seq<char>, params_path: Seq<char> },
}

impl View for EnterpriseScenario {
    type V = EnterpriseScenarioView;

    open spec fn view(&self) -> EnterpriseScenarioView {
        match *self {
            EnterpriseScenario::YaXUnit { config_path } => EnterpriseScenarioView::YaXUnit {
                config_path: config_path@,
            },
            EnterpriseScenario::Vanessa {
                epf_path,
                params_path,
            } => EnterpriseScenarioView::Vanessa {
                epf_path: epf_path@,
                params_path: params_path@,
            },
        }
    }
}

/// Calls of the client on one infobase.
#[derive(Debug, PartialEq, Eq)]
pub struct EnterpriseDsl {
    pub binary: String,
    pub connection: V8Connection,
    pub additional_launch_keys: Vec<String>,
    pub log_file: String,
    pub timeout: Span,
}

/// Mathematical value of [`EnterpriseDsl`].
pub struct EnterpriseDslView {
    pub binary: Seq<char>,
    pub connection: V8ConnectionView,
    pub additional_launch_keys: Seq<Seq<char>>,
    pub log_file: Seq<char>,
    pub timeout: Span,
}

impl View for EnterpriseDsl {
    type V = EnterpriseDslView;

    open spec fn view(&self) -> EnterpriseDslView {
        EnterpriseDslView {
            binary: self.binary@,
            connection: self.connection@,
            additional_launch_keys: texts(self.additional_launch_keys@),
            log_file: self.log_file@,
            timeout: self.timeout,
        }
    }
}

/// Path in the form that the `/C` key takes: with forward slashes.
pub open spec fn payload_path(path: Seq<char>) -> Seq<char> {
    replaced_char(path, '\\', '/')
}

/// Path in the form that the `/C` key takes.
pub fn normalize_c_payload_path(path: &str) -> (r: String)
    ensures
        r@ == payload_path(path@),
{
    text_replace_char(path, '\\', '/')
}

/// Arguments of a scenario.
pub open spec fn scenario_args(
    scenario: EnterpriseScenarioView,
    keys: Seq<Seq<char>>,
) -> Seq<Seq<char>> {
    match scenario {
        EnterpriseScenarioView::YaXUnit { config_path } => keys + seq![
            "/C"@,
            "RunUnitTests="@ + payload_path(config_path),
        ],
        EnterpriseScenarioView::Vanessa { epf_path, params_path } => seq![
            "/Execute"@,
            payload_path(epf_path),
        ] + keys + seq!["/C"@, "StartFeaturePlayer;VAParams="@ + payload_path(params_path)],
    }
}

/// Arguments of a call.
pub open spec fn enterprise_args(d: EnterpriseDslView, scenario: EnterpriseScenarioView) -> Seq<
    Seq<char>,
> {
    seq!["ENTERPRISE"@] + connection_arguments(d.connection) + scenario_args(
        scenario,
        d.additional_launch_keys,
    ) + seq!["/Out"@, d.log_file]
}

impl EnterpriseDsl {
    /// Calls of the executable on the infobase.
    pub fn new(
        binary: String,
        connection: V8Connection,
        additional_launch_keys: Vec<String>,
        log_file: String,
        timeout: Span,
    ) -> (r: Self)
        ensures
            r@ == (EnterpriseDslView {
                binary: binary@,
                connection: connection@,
                additional_launch_keys: texts(additional_launch_keys@),
                log_file: log_file@,
                timeout,
            }),
    {
        EnterpriseDsl { binary, connection, additional_launch_keys, log_file, timeout }
    }

    /// Arguments of a call.
    pub fn build_args(&self, scenario: &EnterpriseScenario) -> (r: Vec<String>)
        ensures
            texts(r@) == enterprise_args(self@, scenario@),
    {
        let mut args: Vec<String> = Vec::new();
        push_text(&mut args, "ENTERPRISE");
        assert(texts(args@) =~= seq!["ENTERPRISE"@]);
        push_texts(&mut args, &self.connection.args());
        let ghost base = texts(args@);
        match scenario {
            EnterpriseScenario::YaXUnit { config_path } => {
                push_texts(&mut args, &self.additional_launch_keys);
                push_text(&mut args, "/C");
                let path = normalize_c_payload_path(config_path.as_str());
                push_text(&mut args, cat2("RunUnitTests=", path.as_str()).as_str());
            },
            EnterpriseScenario::Vanessa { epf_path, params_path } => {
                push_text(&mut args, "/Execute");
                push_text(&mut args, normalize_c_payload_path(epf_path.as_str()).as_str());
                push_texts(&mut args, &self.additional_launch_keys);
                push_text(&mut args, "/C");
                let path = normalize_c_payload_path(params_path.as_str());
                push_text(
                    &mut args,
                    cat2("StartFeaturePlayer;VAParams=", path.as_str()).as_str(),
                );
            },
        }
        assert(texts(args@) =~= base + scenario_args(
            scenario@,
            texts(self.additional_launch_keys@),
        ));
        push_text(&mut args, "/Out");
        push_text(&mut args, self.log_file.as_str());
        assert(texts(args@) =~= enterprise_args(self@, scenario@));
        args
    }

    /// Process of a call, and the limit on it.
    pub fn run_scenario(&self, scenario: &EnterpriseScenario) -> (r: (ProcessRequest, Span))
        ensures
            r.0@ == process_of(self@.binary, enterprise_args(self@, scenario@)),
            r.1 == self@.timeout,
    {
        (plain_request(self.binary.as_str(), self.build_args(scenario)), self.timeout)
    }

    /// Result of a call, from how the process ended and from reading its log.
    pub fn conclude(
        &self,
        process: Result<ProcessResult, ProcessError>,
        log: Result<String, String>,
    ) -> (r: Result<PlatformCommandResult, EnterpriseError>)
        ensures
            match (process, r) {
                (Ok(p), Ok(result)) => result@ == platform_result(
                    p@,
                    Some(self@.log_file),
                    text_result(log),
                    "failed to read enterprise /Out log '"@,
                ),
                (Err(e), Err(error)) => error@ == EnterpriseErrorView::Spawn(e@),
                _ => false,
            },
    {
        match process {
            Ok(process) => Ok(
                log_outcome(
                    process,
                    Some(self.log_file.clone()),
                    log,
                    "failed to read enterprise /Out log '",
                ),
            ),
            Err(error) => Err(EnterpriseError::Spawn(error)),
        }
    }
}

} // verus!
