//! Calls of `1cv8` in `DESIGNER` mode.

use vstd::prelude::*;
use crate::platform::connection::{
    connection_arguments, create_arg_of, V8Connection, V8ConnectionView,
};
use crate::platform::process::{
    process_error_text, ProcessError, ProcessErrorView, ProcessRequest, ProcessRequestView,
    ProcessResult,
};
use crate::platform::result::{log_outcome, platform_result, PlatformCommandResult};
use crate::text::{cat2, clone_opt, opt_str, opt_text, push_text, push_texts, text_result, texts};

verus! {

/// Failure of a call of the Designer.
#[derive(Debug, PartialEq, Eq)]
pub enum DesignerError {
    UtilityNotFound(String),
    Spawn(ProcessError),
}

/// Mathematical value of [`DesignerError`].
pub enum DesignerErrorView {
    UtilityNotFound(Seq<char>),
    Spawn(ProcessErrorView),
}

impl View for DesignerError {
    type V = DesignerErrorView;

    open spec fn view(&self) -> DesignerErrorView {
        match *self {
            DesignerError::UtilityNotFound(x0) => DesignerErrorView::UtilityNotFound(x0@),
            DesignerError::Spawn(x0) => DesignerErrorView::Spawn(x0@),
        }
    }
}

/// Text shown for a failure.
pub open spec fn designer_error_text(error: DesignerErrorView) -> Seq<char> {
    match error {
        DesignerErrorView::UtilityNotFound(what) => "designer utility not found: "@ + what,
        DesignerErrorView::Spawn(source) => "failed to execute designer process: "@
            + process_error_text(source),
    }
}

impl DesignerError {
    /// Text shown to the user.
    pub fn message(&self) -> (r: String)
        ensures
            r@ == designer_error_text(self@),
    {
        match self {
            DesignerError::UtilityNotFound(what) => cat2(
                "designer utility not found: ",
                what.as_str(),
            ),
            DesignerError::Spawn(source) => cat2(
                "failed to execute designer process: ",
                source.message().as_str(),
            ),
        }
    }
}

/// Calls of the Designer on one infobase, with the log that it writes.
#[derive(Debug, PartialEq, Eq)]
pub struct DesignerDsl {
    pub binary: String,
    pub connection: V8Connection,
    pub log_file: Option<String>,
}

/// Mathematical value of [`DesignerDsl`].
pub struct DesignerDslView {
    pub binary: Seq<char>,
    pub connection: V8ConnectionView,
    pub log_file: Option<Seq<char>>,
}

impl View for DesignerDsl {
    type V = DesignerDslView;

    open spec fn view(&self) -> DesignerDslView {
        DesignerDslView {
            binary: self.binary@,
            connection: self.connection@,
            log_file: opt_text(self.log_file),
        }
    }
}

/// Arguments of every call.
pub open spec fn designer_base(d: DesignerDslView) -> Seq<Seq<char>> {
    let log = match d.log_file {
        Some(path) => seq!["/Out"@, path, "-NoTruncate"@],
        None => Seq::empty(),
    };
    seq!["DESIGNER"@, "/DisableStartupDialogs"@, "/DisableStartupMessages"@]
        + connection_arguments(d.connection) + log
}

/// Arguments that name an extension.
pub open spec fn extension_args(extension: Option<Seq<char>>) -> Seq<Seq<char>> {
    match extension {
        Some(name) => seq!["-Extension"@, name],
        None => Seq::empty(),
    }
}

/// Process that a call starts.
pub open spec fn process_of(binary: Seq<char>, args: Seq<Seq<char>>) -> ProcessRequestView {
    ProcessRequestView {
        program: binary,
        args,
        workdir: None,
        stdout_log_path: None,
        stderr_log_path: None,
        startup_probe: None,
    }
}

/// Call with the command's own arguments after those of every call.
pub open spec fn designer_call(d: DesignerDslView, command: Seq<Seq<char>>) -> ProcessRequestView {
    process_of(d.binary, designer_base(d) + command)
}

fn push_extension(args: &mut Vec<String>, extension: Option<&str>)
    ensures
        texts(final(args)@) == texts(old(args)@) + extension_args(opt_str(extension)),
{
    let ghost before = texts(args@);
    match extension {
        Some(name) => {
            push_text(args, "-Extension");
            push_text(args, name);
            assert(texts(args@) =~= before + seq!["-Extension"@, name@]);
        },
        None => {
            assert(before =~= before + Seq::<Seq<char>>::empty());
        },
    }
}

/// Process without anything but a program and its arguments.
pub fn plain_request(binary: &str, args: Vec<String>) -> (r: ProcessRequest)
    ensures
        r@ == process_of(binary@, texts(args@)),
{
    ProcessRequest {
        program: binary.to_owned(),
        args,
        workdir: None,
        stdout_log_path: None,
        stderr_log_path: None,
        startup_probe: None,
    }
}

impl DesignerDsl {
    /// Calls of the executable on the infobase.
    pub fn new(binary: String, connection: V8Connection, log_file: Option<String>) -> (r: Self)
        ensures
            r@ == (DesignerDslView {
                binary: binary@,
                connection: connection@,
                log_file: opt_text(log_file),
            }),
    {
        DesignerDsl { binary, connection, log_file }
    }

    fn base_args(&self) -> (r: Vec<String>)
        ensures
            texts(r@) == designer_base(self@),
    {
        let mut args: Vec<String> = Vec::new();
        push_text(&mut args, "DESIGNER");
        push_text(&mut args, "/DisableStartupDialogs");
        push_text(&mut args, "/DisableStartupMessages");
        assert(texts(args@) =~= seq![
            "DESIGNER"@,
            "/DisableStartupDialogs"@,
            "/DisableStartupMessages"@,
        ]);
        push_texts(&mut args, &self.connection.args());
        let ghost connected = texts(args@);
        if let Some(path) = &self.log_file {
            push_text(&mut args, "/Out");
            push_text(&mut args, path.as_str());
            push_text(&mut args, "-NoTruncate");
            assert(texts(args@) =~= connected + seq!["/Out"@, path@, "-NoTruncate"@]);
        }
        assert(texts(args@) =~= designer_base(self@));
        args
    }

    /// `/LoadConfigFromFiles <dir> -updateConfigDumpInfo [-Extension <name>]`
    pub fn load_config_from_files_full(&self, source_dir: &str, extension: Option<&str>) -> (r:
        ProcessRequest)
        ensures
            r@ == designer_call(
                self@,
                seq!["/LoadConfigFromFiles"@, source_dir@, "-updateConfigDumpInfo"@]
                    + extension_args(opt_str(extension)),
            ),
    {
        let mut args = self.base_args();
        push_text(&mut args, "/LoadConfigFromFiles");
        push_text(&mut args, source_dir);
        push_text(&mut args, "-updateConfigDumpInfo");
        push_extension(&mut args, extension);
        assert(texts(args@) =~= designer_base(self@) + (seq![
            "/LoadConfigFromFiles"@,
            source_dir@,
            "-updateConfigDumpInfo"@,
        ] + extension_args(opt_str(extension))));
        plain_request(self.binary.as_str(), args)
    }

    /// `/LoadConfigFromFiles <dir> -partial -listFile <file> -updateConfigDumpInfo
    /// [-Extension <name>]`
    pub fn load_config_from_files_partial(
        &self,
        source_dir: &str,
        list_file: &str,
        extension: Option<&str>,
    ) -> (r: ProcessRequest)
        ensures
            r@ == designer_call(
                self@,
                seq![
                    "/LoadConfigFromFiles"@,
                    source_dir@,
                    "-partial"@,
                    "-listFile"@,
                    list_file@,
                    "-updateConfigDumpInfo"@,
                ] + extension_args(opt_str(extension)),
            ),
    {
        let mut args = self.base_args();
        push_text(&mut args, "/LoadConfigFromFiles");
        push_text(&mut args, source_dir);
        push_text(&mut args, "-partial");
        push_text(&mut args, "-listFile");
        push_text(&mut args, list_file);
        push_text(&mut args, "-updateConfigDumpInfo");
        push_extension(&mut args, extension);
        assert(texts(args@) =~= designer_base(self@) + (seq![
            "/LoadConfigFromFiles"@,
            source_dir@,
            "-partial"@,
            "-listFile"@,
            list_file@,
            "-updateConfigDumpInfo"@,
        ] + extension_args(opt_str(extension))));
        plain_request(self.binary.as_str(), args)
    }

    /// `/UpdateDBCfg [-Extension <name>]`
    pub fn update_db_cfg(&self, extension: Option<&str>) -> (r: ProcessRequest)
        ensures
            r@ == designer_call(
                self@,
                seq!["/UpdateDBCfg"@] + extension_args(opt_str(extension)),
            ),
    {
        let mut args = self.base_args();
        push_text(&mut args, "/UpdateDBCfg");
        push_extension(&mut args, extension);
        assert(texts(args@) =~= designer_base(self@) + (seq!["/UpdateDBCfg"@] + extension_args(
            opt_str(extension),
        )));
        plain_request(self.binary.as_str(), args)
    }

    /// `CREATEINFOBASE <connection-string>`, for a file infobase only.
    pub fn create_infobase(&self) -> (r: Result<ProcessRequest, DesignerError>)
        ensures
            match r {
                Ok(request) => create_arg_of(self@.connection) is Some && request@ == process_of(
                    self@.binary,
                    seq!["CREATEINFOBASE"@, create_arg_of(self@.connection)->0],
                ),
                Err(error) => create_arg_of(self@.connection) is None && error@
                    == DesignerErrorView::UtilityNotFound("file-based connection is required"@),
            },
    {
        match self.connection.create_infobase_arg() {
            Some(connection) => {
                let mut args: Vec<String> = Vec::new();
                push_text(&mut args, "CREATEINFOBASE");
                push_text(&mut args, connection.as_str());
                assert(texts(args@) =~= seq!["CREATEINFOBASE"@, connection@]);
                Ok(plain_request(self.binary.as_str(), args))
            },
            None => Err(
                DesignerError::UtilityNotFound("file-based connection is required".to_owned()),
            ),
        }
    }

    /// `/DumpConfigToFiles <dir> -updateConfigDumpInfo [-Extension <name>]`
    pub fn dump_config_to_files(&self, target_dir: &str, extension: Option<&str>) -> (r:
        ProcessRequest)
        ensures
            r@ == designer_call(
                self@,
                seq!["/DumpConfigToFiles"@, target_dir@, "-updateConfigDumpInfo"@]
                    + extension_args(opt_str(extension)),
            ),
    {
        let mut args = self.base_args();
        push_text(&mut args, "/DumpConfigToFiles");
        push_text(&mut args, target_dir);
        push_text(&mut args, "-updateConfigDumpInfo");
        push_extension(&mut args, extension);
        assert(texts(args@) =~= designer_base(self@) + (seq![
            "/DumpConfigToFiles"@,
            target_dir@,
            "-updateConfigDumpInfo"@,
        ] + extension_args(opt_str(extension))));
        plain_request(self.binary.as_str(), args)
    }

    /// `/DumpCfg <file> [-Extension <name>]`
    pub fn dump_cfg(&self, target_file: &str, extension: Option<&str>) -> (r: ProcessRequest)
        ensures
            r@ == designer_call(
                self@,
                seq!["/DumpCfg"@, target_file@] + extension_args(opt_str(extension)),
            ),
    {
        let mut args = self.base_args();
        push_text(&mut args, "/DumpCfg");
        push_text(&mut args, target_file);
        push_extension(&mut args, extension);
        assert(texts(args@) =~= designer_base(self@) + (seq!["/DumpCfg"@, target_file@]
            + extension_args(opt_str(extension))));
        plain_request(self.binary.as_str(), args)
    }

    /// `/DumpExternalDataProcessorOrReportToFiles <root-xml> <binary>`
    pub fn dump_external_data_processor_or_report_to_files(
        &self,
        binary_file: &str,
        root_xml_path: &str,
    ) -> (r: ProcessRequest)
        ensures
            r@ == designer_call(
                self@,
                seq![
                    "/DumpExternalDataProcessorOrReportToFiles"@,
                    root_xml_path@,
                    binary_file@,
                ],
            ),
    {
        let mut args = self.base_args();
        push_text(&mut args, "/DumpExternalDataProcessorOrReportToFiles");
        push_text(&mut args, root_xml_path);
        push_text(&mut args, binary_file);
        assert(texts(args@) =~= designer_base(self@) + seq![
            "/DumpExternalDataProcessorOrReportToFiles"@,
            root_xml_path@,
            binary_file@,
        ]);
        plain_request(self.binary.as_str(), args)
    }

    /// `/LoadExternalDataProcessorOrReportFromFiles <root-xml> <binary>`
    pub fn load_external_data_processor_or_report_from_files(
        &self,
        root_xml_path: &str,
        binary_file: &str,
    ) -> (r: ProcessRequest)
        ensures
            r@ == designer_call(
                self@,
                seq![
                    "/LoadExternalDataProcessorOrReportFromFiles"@,
                    root_xml_path@,
                    binary_file@,
                ],
            ),
    {
        let mut args = self.base_args();
        push_text(&mut args, "/LoadExternalDataProcessorOrReportFromFiles");
        push_text(&mut args, root_xml_path);
        push_text(&mut args, binary_file);
        assert(texts(args@) =~= designer_base(self@) + seq![
            "/LoadExternalDataProcessorOrReportFromFiles"@,
            root_xml_path@,
            binary_file@,
        ]);
        plain_request(self.binary.as_str(), args)
    }

    /// `/DumpConfigToFiles <dir> -partial -listFile <file> -updateConfigDumpInfo
    /// [-Extension <name>]`
    pub fn dump_config_to_files_partial(
        &self,
        target_dir: &str,
        list_file: &str,
        extension: Option<&str>,
    ) -> (r: ProcessRequest)
        ensures
            r@ == designer_call(
                self@,
                seq![
                    "/DumpConfigToFiles"@,
                    target_dir@,
                    "-partial"@,
                    "-listFile"@,
                    list_file@,
                    "-updateConfigDumpInfo"@,
                ] + extension_args(opt_str(extension)),
            ),
    {
        let mut args = self.base_args();
        push_text(&mut args, "/DumpConfigToFiles");
        push_text(&mut args, target_dir);
        push_text(&mut args, "-partial");
        push_text(&mut args, "-listFile");
        push_text(&mut args, list_file);
        push_text(&mut args, "-updateConfigDumpInfo");
        push_extension(&mut args, extension);
        assert(texts(args@) =~= designer_base(self@) + (seq![
            "/DumpConfigToFiles"@,
            target_dir@,
            "-partial"@,
            "-listFile"@,
            list_file@,
            "-updateConfigDumpInfo"@,
        ] + extension_args(opt_str(extension))));
        plain_request(self.binary.as_str(), args)
    }

    /// `/CheckConfig [-ThinClient] [-Server] ...`
    pub fn check_config(&self, flags: &Vec<String>) -> (r: ProcessRequest)
        ensures
            r@ == designer_call(self@, seq!["/CheckConfig"@] + texts(flags@)),
    {
        let mut args = self.base_args();
        push_text(&mut args, "/CheckConfig");
        push_texts(&mut args, flags);
        assert(texts(args@) =~= designer_base(self@) + (seq!["/CheckConfig"@] + texts(flags@)));
        plain_request(self.binary.as_str(), args)
    }

    /// `/CheckModules [-ThinClient] [-Server] ...`
    pub fn check_modules(&self, flags: &Vec<String>) -> (r: ProcessRequest)
        ensures
            r@ == designer_call(self@, seq!["/CheckModules"@] + texts(flags@)),
    {
        let mut args = self.base_args();
        push_text(&mut args, "/CheckModules");
        push_texts(&mut args, flags);
        assert(texts(args@) =~= designer_base(self@) + (seq!["/CheckModules"@] + texts(flags@)));
        plain_request(self.binary.as_str(), args)
    }

    /// Log that is removed before a call.
    pub fn stale_log(&self) -> (r: Option<String>)
        ensures
            opt_text(r) == self@.log_file,
    {
        clone_opt(&self.log_file)
    }

    /// Result of a call, from how the process ended and, where a log was asked for, from reading
    /// it.
    pub fn conclude(
        &self,
        process: Result<ProcessResult, ProcessError>,
        log: Result<String, String>,
    ) -> (r: Result<PlatformCommandResult, DesignerError>)
        ensures
            match (process, r) {
                (Ok(p), Ok(result)) => result@ == platform_result(
                    p@,
                    self@.log_file,
                    text_result(log),
                    "failed to read designer /Out log '"@,
                ),
                (Err(e), Err(error)) => error@ == DesignerErrorView::Spawn(e@),
                _ => false,
            },
    {
        match process {
            Ok(process) => Ok(
                log_outcome(
                    process,
                    clone_opt(&self.log_file),
                    log,
                    "failed to read designer /Out log '",
                ),
            ),
            Err(error) => Err(DesignerError::Spawn(error)),
        }
    }
}

} // verus!
