use v8_runner::config::{InfobaseConfig, InfobaseDbmsConfig};
use v8_runner::path::HostPlatform;
use v8_runner::platform::connection::{split_v8_arg_string, V8Connection};
use v8_runner::platform::designer::{DesignerDsl, DesignerError};
use v8_runner::platform::edt_command::{
    quote_interactive_argument, render_interactive_change_dir_command,
    render_interactive_export_command, render_interactive_export_project_path_command,
    render_interactive_import_command, render_interactive_probe_workdir_command,
    render_interactive_validate_command, render_process_command,
};
use v8_runner::platform::enterprise::{
    normalize_c_payload_path, EnterpriseDsl, EnterpriseError, EnterpriseScenario,
};
use v8_runner::platform::git::{check_ignored, check_ignored_args};
use v8_runner::platform::ibcmd::{
    is_benign_already_exists, is_existing_text, DynamicUpdateMode, IbcmdConnection, IbcmdDsl,
    IbcmdError, IbcmdInfobaseCreateStatus,
};
use v8_runner::platform::process::{render_command, ProcessError, ProcessRequest, ProcessResult};
use v8_runner::time::Span;

fn texts(list: &[&str]) -> Vec<String> {
    list.iter().map(|text| (*text).to_owned()).collect()
}

fn finished(exit_code: i32, stdout: &str, stderr: &str) -> Result<ProcessResult, ProcessError> {
    Ok(ProcessResult {
        exit_code,
        stdout: stdout.to_owned(),
        stderr: stderr.to_owned(),
        interruption: None,
    })
}

fn missing(binary: &str) -> Result<ProcessResult, ProcessError> {
    Err(ProcessError::SpawnFailed {
        cmd: binary.to_owned(),
        source: "No such file or directory (os error 2)".to_owned(),
    })
}

/// Arguments as a shell script would write them, one to a line.
fn printed(request: &ProcessRequest) -> String {
    request.args.iter().map(|arg| format!("{arg}\n")).collect()
}

// Connection

#[test]
fn wraps_plain_connection_string_as_flag_and_value() {
    let connection = V8Connection::from_connection_string("File=/tmp/ib");

    assert_eq!(
        connection.args(),
        vec!["/IBConnectionString", "File=/tmp/ib"]
    );
}

#[test]
fn splits_raw_connection_and_auth_into_separate_tokens() {
    let mut connection = V8Connection::from_connection_string("/F \"/tmp/my ib\"");
    connection.user = Some("alice".to_owned());
    connection.password = Some("secret".to_owned());

    assert_eq!(
        connection.args(),
        vec!["/F", "/tmp/my ib", "/N", "alice", "/P", "secret"]
    );
}

#[test]
fn extracts_file_path_from_connection_string() {
    let connection = V8Connection::from_connection_string("Srvr=demo;File=/tmp/ib;Ref=test");

    assert_eq!(connection.file_path().as_deref(), Some("/tmp/ib"));
}

#[test]
fn extracts_file_path_from_raw_f_args() {
    let connection = V8Connection::from_connection_string("/F \"/tmp/my ib\"");

    assert_eq!(connection.file_path().as_deref(), Some("/tmp/my ib"));
}

#[test]
fn extracts_file_path_from_dash_f_args() {
    let connection = V8Connection::from_connection_string("-F /tmp/ib");

    assert_eq!(connection.file_path().as_deref(), Some("/tmp/ib"));
}

#[test]
fn trims_leading_whitespace_before_parsing_raw_args() {
    let connection = V8Connection::from_connection_string("  /F /tmp/ib  ");

    assert_eq!(connection.args(), vec!["/F", "/tmp/ib"]);
    assert_eq!(connection.file_path().as_deref(), Some("/tmp/ib"));
}

#[test]
fn quoted_words_stay_together() {
    assert_eq!(split_v8_arg_string("a \"b c\" d").0, texts(&["a", "b c", "d"]));
    assert!(split_v8_arg_string("   ").0.is_empty());
}

#[test]
fn server_connection_has_no_file_path() {
    let connection = V8Connection::from_connection_string("Srvr=demo;Ref=test");

    assert_eq!(connection.file_path(), None);
    assert_eq!(connection.create_infobase_arg(), None);
}

// Designer

fn designer(connection: &str, log: Option<&str>) -> DesignerDsl {
    DesignerDsl::new(
        "/opt/1cv8/1cv8".to_owned(),
        V8Connection::from_connection_string(connection),
        log.map(str::to_owned),
    )
}

#[test]
fn returns_none_platform_log_when_out_is_not_requested() {
    let dsl = designer("File=/tmp/ib", None);
    let request = dsl.check_config(&vec![]);
    assert!(!request.args.iter().any(|arg| arg == "/Out"));

    let result = dsl
        .conclude(finished(0, "", ""), Err("not read".to_owned()))
        .expect("check config");

    assert!(result.platform_log_path.is_none());
    assert!(result.platform_log.is_none());
    assert!(result.platform_log_read_error.is_none());
}

#[test]
fn reads_platform_log_when_out_is_requested() {
    let log_path = "/tmp/run/designer.log";
    let dsl = designer("File=/tmp/ib", Some(log_path));
    let request = dsl.check_modules(&texts(&["-Server"]));
    let out = request
        .args
        .iter()
        .position(|arg| arg == "/Out")
        .expect("/Out");
    assert_eq!(request.args[out + 1], log_path);
    assert_eq!(dsl.stale_log().as_deref(), Some(log_path));

    let result = dsl
        .conclude(finished(1, "", ""), Ok("designer log\n".to_owned()))
        .expect("check modules");

    assert_eq!(result.process.exit_code, 1);
    assert_eq!(result.platform_log_path.as_deref(), Some(log_path));
    assert_eq!(result.platform_log.as_deref(), Some("designer log\n"));
    assert!(result.platform_log_read_error.is_none());
}

#[test]
fn preserves_process_result_when_platform_log_is_unreadable() {
    let log_path = "/tmp/run/missing/designer.log";
    let dsl = designer("File=/tmp/ib", Some(log_path));

    let result = dsl
        .conclude(finished(101, "", ""), Err("No such file".to_owned()))
        .expect("check modules");

    assert_eq!(result.process.exit_code, 101);
    assert_eq!(result.platform_log_path.as_deref(), Some(log_path));
    assert!(result.platform_log.is_none());
    assert!(result
        .platform_log_read_error
        .as_deref()
        .expect("read error")
        .contains("failed to read designer /Out log"));
}

#[test]
fn dump_config_to_files_requests_config_dump_info_update() {
    let args = printed(&designer("File=/tmp/ib", None).dump_config_to_files("/tmp/out", None));

    assert!(args.contains("/DumpConfigToFiles"));
    assert!(args.contains("-updateConfigDumpInfo"));
}

#[test]
fn dump_config_to_files_partial_passes_partial_list_args() {
    let args = printed(&designer("File=/tmp/ib", None).dump_config_to_files_partial(
        "/tmp/out",
        "/tmp/objects.txt",
        Some("ExtName"),
    ));

    assert!(args.contains("/DumpConfigToFiles"));
    assert!(args.contains("-partial"));
    assert!(args.contains("-listFile"));
    assert!(args.contains("objects.txt"));
    assert!(args.contains("-updateConfigDumpInfo"));
    assert!(args.contains("-Extension"));
    assert!(args.contains("ExtName"));
}

#[test]
fn load_and_update_commands_shape_arguments() {
    let dsl = designer("File=/tmp/ib", None);

    let full = dsl.load_config_from_files_full("/src/main", None);
    assert!(full.args.ends_with(&texts(&[
        "/LoadConfigFromFiles",
        "/src/main",
        "-updateConfigDumpInfo",
    ])));

    let partial = dsl.load_config_from_files_partial("/src/ext", "/tmp/list.txt", Some("Ext"));
    assert!(partial.args.ends_with(&texts(&[
        "/LoadConfigFromFiles",
        "/src/ext",
        "-partial",
        "-listFile",
        "/tmp/list.txt",
        "-updateConfigDumpInfo",
        "-Extension",
        "Ext",
    ])));

    let update = dsl.update_db_cfg(Some("Ext"));
    assert!(update.args.ends_with(&texts(&["/UpdateDBCfg", "-Extension", "Ext"])));
    assert!(dsl.update_db_cfg(None).args.ends_with(&texts(&["/UpdateDBCfg"])));
}

#[test]
fn create_infobase_builds_expected_args() {
    let request = designer("File=/tmp/my ib", None)
        .create_infobase()
        .expect("create infobase");

    let args = printed(&request);
    assert!(args.contains("CREATEINFOBASE"));
    assert!(args.contains("File='/tmp/my ib'"));
}

#[test]
fn dump_cfg_passes_dumpcfg_extension_and_out_arguments() {
    let log_path = "/tmp/run/designer.log";
    let target = "/tmp/run/release.cfe";
    let dsl = designer("File=/tmp/ib", Some(log_path));

    let request = dsl.dump_cfg(target, Some("SalesAddon"));
    let result = dsl
        .conclude(finished(0, "", ""), Ok("designer log".to_owned()))
        .expect("dump cfg");

    let args = request.args.join(" ");
    assert!(args.contains("/DumpCfg"));
    assert!(args.contains(target));
    assert!(args.contains("-Extension SalesAddon"));
    assert!(args.contains(&format!("/Out {log_path}")));
    assert_eq!(result.platform_log_path.as_deref(), Some(log_path));
}

#[test]
fn external_dump_and_load_commands_shape_arguments() {
    let dsl = designer("File=/tmp/ib", None);

    let args = dsl
        .dump_external_data_processor_or_report_to_files(
            "/tmp/artifact.epf",
            "/tmp/dump/Artifact.xml",
        )
        .args;
    let dump_pos = args
        .iter()
        .position(|line| line == "/DumpExternalDataProcessorOrReportToFiles")
        .expect("dump arg");
    assert_eq!(args[dump_pos + 1], "/tmp/dump/Artifact.xml");
    assert_eq!(args[dump_pos + 2], "/tmp/artifact.epf");

    let args = dsl
        .load_external_data_processor_or_report_from_files(
            "/tmp/dump/Artifact.xml",
            "/tmp/artifact.epf",
        )
        .args;
    let load_pos = args
        .iter()
        .position(|line| line == "/LoadExternalDataProcessorOrReportFromFiles")
        .expect("load arg");
    assert_eq!(args[load_pos + 1], "/tmp/dump/Artifact.xml");
    assert_eq!(args[load_pos + 2], "/tmp/artifact.epf");
}

#[test]
fn designer_failures_have_their_messages() {
    let error = designer("File=/tmp/ib", None)
        .conclude(missing("1cv8"), Ok(String::new()))
        .expect_err("spawn error");
    assert!(matches!(
        error,
        DesignerError::Spawn(ProcessError::SpawnFailed { .. })
    ));
    assert!(error
        .message()
        .contains("failed to spawn process '1cv8': No such file"));

    let error = designer("Srvr=demo;Ref=test", None)
        .create_infobase()
        .expect_err("no file");
    assert!(!matches!(error, DesignerError::Spawn(_)));
    assert!(!error.message().is_empty());
}

// Enterprise

fn enterprise() -> EnterpriseDsl {
    EnterpriseDsl::new(
        "/opt/1cv8/1cv8c".to_owned(),
        V8Connection::from_connection_string("File=/tmp/ib"),
        texts(&["/TESTMANAGER"]),
        "/tmp/run/platform.log".to_owned(),
        Span::from_millis(5000),
    )
}

#[test]
fn c_payload_uses_forward_slashes() {
    let normalized = normalize_c_payload_path("C:\\tmp\\path with space\\cfg.json");
    assert_eq!(normalized, "C:/tmp/path with space/cfg.json");
}

#[test]
fn builds_expected_run_unit_tests_arguments() {
    let args = enterprise().build_args(&EnterpriseScenario::YaXUnit {
        config_path: "/tmp/path with space/тест config.json".to_owned(),
    });

    assert_eq!(args[0], "ENTERPRISE");
    assert!(args.iter().any(|arg| arg == "/TESTMANAGER"));
    assert!(args.iter().any(|arg| arg == "/C"));
    assert!(args
        .iter()
        .any(|arg| arg == "RunUnitTests=/tmp/path with space/тест config.json"));
}

#[test]
fn builds_expected_vanessa_arguments() {
    let args = enterprise().build_args(&EnterpriseScenario::Vanessa {
        epf_path: "/tmp/va/vanessa automation.epf".to_owned(),
        params_path: "/tmp/va/va-params.json".to_owned(),
    });

    assert_eq!(args[0], "ENTERPRISE");
    assert!(args.iter().any(|arg| arg == "/Execute"));
    assert!(args
        .iter()
        .any(|arg| arg == "/tmp/va/vanessa automation.epf"));
    assert!(args.iter().any(|arg| arg == "/TESTMANAGER"));
    assert!(args.iter().any(|arg| arg == "/C"));
    assert!(args
        .iter()
        .any(|arg| arg == "StartFeaturePlayer;VAParams=/tmp/va/va-params.json"));
}

#[test]
fn enterprise_run_has_its_limit_and_its_log() {
    let dsl = enterprise();
    let (request, limit) = dsl.run_scenario(&EnterpriseScenario::YaXUnit {
        config_path: "/tmp/cfg.json".to_owned(),
    });
    assert_eq!(request.program, "/opt/1cv8/1cv8c");
    assert_eq!(limit, Span::from_millis(5000));

    let result = dsl
        .conclude(finished(0, "", ""), Ok("log".to_owned()))
        .expect("result");
    assert_eq!(result.platform_log.as_deref(), Some("log"));
    let error = dsl
        .conclude(missing("1cv8c"), Ok(String::new()))
        .expect_err("spawn error");
    assert!(matches!(error, EnterpriseError::Spawn(_)));
    assert!(error.message().contains("failed to spawn process"));
}

// ibcmd

fn file_connection(path: &str) -> IbcmdConnection {
    IbcmdConnection::from_infobase(&InfobaseConfig::file(path)).expect("connection")
}

fn ibcmd() -> IbcmdDsl {
    IbcmdDsl::new("/opt/1cv8/ibcmd".to_owned(), file_connection("File=/ib"))
}

#[test]
fn ibcmd_connection_from_file_path() {
    let ibcmd = file_connection("File=/tmp/ib");

    assert_eq!(ibcmd.args(), vec!["--db-path", "/tmp/ib"]);
}

#[test]
fn ibcmd_connection_from_server_uses_dbms_contract() {
    let ibcmd = IbcmdConnection::from_infobase(&InfobaseConfig::server(
        "Srvr=demo;Ref=test",
        InfobaseDbmsConfig::new("PostgreSQL", "localhost", "demo")
            .with_credentials(Some("postgres".to_owned()), Some("secret".to_owned())),
    ))
    .expect("connection");

    assert_eq!(
        ibcmd.args(),
        vec![
            "--dbms",
            "PostgreSQL",
            "--database-server",
            "localhost",
            "--database-name",
            "demo",
            "--database-user",
            "postgres",
            "--database-password",
            "secret"
        ]
    );
}

#[test]
fn ibcmd_connection_includes_auth_args() {
    let ibcmd = IbcmdConnection::from_infobase(
        &InfobaseConfig::file("File=/tmp/ib")
            .with_credentials(Some("admin".to_owned()), Some("secret".to_owned())),
    )
    .expect("connection");

    assert_eq!(
        ibcmd.args(),
        vec![
            "--db-path",
            "/tmp/ib",
            "--user",
            "admin",
            "--password",
            "secret"
        ]
    );
}

#[test]
fn ibcmd_needs_a_file_or_a_dbms() {
    let mut infobase = InfobaseConfig::file("Srvr=demo;Ref=test");
    infobase.dbms = None;
    let error = IbcmdConnection::from_infobase(&infobase).expect_err("no database");
    assert!(!matches!(error, IbcmdError::Spawn(_)));
    assert!(!error.message().is_empty());
}

#[test]
fn config_import_full_builds_expected_args() {
    let args = printed(&ibcmd().config_import_full("/tmp/src", Some("Ext")));

    assert!(args.contains("config"));
    assert!(args.contains("import"));
    assert!(args.contains("infobase\n--db-path\n/ib\nconfig\nimport"));
    assert!(args.contains("--extension\nExt"));
}

#[test]
fn config_import_partial_builds_expected_args() {
    let args = printed(&ibcmd().config_import_partial(
        "/tmp/src",
        &texts(&["Catalogs/Items.xml"]),
        None,
    ));

    assert!(args.contains("import"));
    assert!(args.contains("files"));
    assert!(args.contains("--partial"));
    assert!(args.contains("--base-dir\n"));
    assert!(args.contains("Catalogs/Items.xml"));
}

#[test]
fn config_apply_builds_expected_args() {
    let args = printed(&ibcmd().config_apply(None, DynamicUpdateMode::Auto));

    assert!(args.contains("apply"));
    assert!(args.contains("--force"));
    assert!(args.contains("--dynamic\nauto"));
}

#[test]
fn config_export_full_builds_expected_args() {
    let args = printed(&ibcmd().config_export_full("/tmp/out", None));

    assert!(args.contains("export"));
    assert!(args.contains("--force"));
}

#[test]
fn config_export_incremental_builds_expected_args() {
    let args = printed(&ibcmd().config_export_incremental("/tmp/out", None));

    assert!(args.contains("export"));
    assert!(args.contains("--sync"));
}

#[test]
fn run_returns_stdout_stderr_without_platform_log() {
    let result = IbcmdDsl::conclude(finished(7, "out\n", "err\n")).expect("apply");

    assert_eq!(result.process.exit_code, 7);
    assert_eq!(result.process.stdout.trim(), "out");
    assert_eq!(result.process.stderr.trim(), "err");
    assert!(result.platform_log_path.is_none());
    assert!(result.platform_log.is_none());
    assert!(result.platform_log_read_error.is_none());
}

#[test]
fn infobase_create_builds_expected_args() {
    let args = printed(&ibcmd().ensure_infobase_create());
    let outcome = IbcmdDsl::conclude_create(finished(0, "", "")).expect("create");

    assert_eq!(outcome.status, IbcmdInfobaseCreateStatus::Created);
    assert!(args.contains("infobase"));
    assert!(args.contains("create"));
    assert!(args.contains("infobase\n--db-path\n/ib\ncreate"));
}

#[test]
fn server_infobase_create_adds_create_database_and_normalizes_already_exists() {
    let connection = IbcmdConnection::from_infobase(&InfobaseConfig::server(
        "Srvr=demo;Ref=test",
        InfobaseDbmsConfig::new("PostgreSQL", "localhost", "demo")
            .with_credentials(Some("postgres".to_owned()), Some("secret".to_owned())),
    ))
    .expect("connection");
    let dsl = IbcmdDsl::new("/opt/1cv8/ibcmd".to_owned(), connection);

    let args = printed(&dsl.ensure_infobase_create());
    let outcome = IbcmdDsl::conclude_create(finished(17, "", "already exists\n")).expect("ensure");

    assert_eq!(outcome.status, IbcmdInfobaseCreateStatus::AlreadyExists);
    assert!(args.contains("--create-database"));
    assert!(args.contains("--dbms\nPostgreSQL"));
    assert!(args.contains("--database-server\nlocalhost"));
    assert!(args.contains("--database-name\ndemo"));
    assert!(args.contains("--database-user\npostgres"));
    assert!(args.contains("--database-password\nsecret"));
}

#[test]
fn other_failure_of_create_stays_a_failure() {
    let outcome = IbcmdDsl::conclude_create(finished(1, "", "disk is full")).expect("outcome");
    assert_eq!(outcome.status, IbcmdInfobaseCreateStatus::Failed);
    let silent = IbcmdDsl::conclude_create(finished(1, "", "")).expect("outcome");
    assert_eq!(silent.status, IbcmdInfobaseCreateStatus::Failed);
    assert!(matches!(
        IbcmdDsl::conclude_create(missing("ibcmd")),
        Err(IbcmdError::Spawn(ProcessError::SpawnFailed { .. }))
    ));
}

#[test]
fn already_exists_detection_handles_uppercase_russian_messages() {
    assert!(is_benign_already_exists("", "УЖЕ СУЩЕСТВУЕТ"));
}

#[test]
fn already_exists_detection_keeps_uppercase_russian_auth_failures_fatal() {
    assert!(!is_benign_already_exists(
        "",
        "ОШИБКА АВТОРИЗАЦИИ: УЖЕ СУЩЕСТВУЕТ"
    ));
}

#[test]
fn existing_infobase_is_told_by_lower_case_text() {
    assert!(is_existing_text("база уже существует"));
    assert!(is_existing_text("already exists"));
    assert!(!is_existing_text("done"));
}

#[test]
fn infobase_extension_update_properties_builds_expected_args() {
    let args =
        printed(&ibcmd().infobase_extension_update_properties("client_mcp", false, false));

    assert!(args.contains("extension"));
    assert!(args.contains("update"));
    assert!(args.contains("infobase\n--db-path\n/ib\nconfig\nextension\nupdate"));
    assert!(args.contains("--name\nclient_mcp"));
    assert!(args.contains("--safe-mode\nno"));
    assert!(args.contains("--unsafe-action-protection\nno"));
}

// EDT command lines

#[test]
fn interactive_validate_command_quotes_paths_with_spaces_and_quotes() {
    let command =
        render_interactive_validate_command("/tmp/My \"Project\"", "/tmp/log dir/validate.log");

    assert_eq!(
        command,
        "validate --file \"/tmp/log dir/validate.log\" --project-list \"/tmp/My \\\"Project\\\"\""
    );
}

#[test]
fn interactive_export_and_import_commands_quote_their_arguments() {
    assert_eq!(
        render_interactive_export_command("main", "/tmp/out dir"),
        "export --project-name main --configuration-files \"/tmp/out dir\""
    );
    assert_eq!(
        render_interactive_export_project_path_command("/src/my main", "/tmp/out"),
        "export --project \"/src/my main\" --configuration-files /tmp/out"
    );
    assert_eq!(
        render_interactive_import_command("/src/my main"),
        "import --project \"/src/my main\""
    );
    assert_eq!(
        render_process_command("/opt/1cedtcli", &texts(&["-data", "/tmp/my ws"])),
        "/opt/1cedtcli -data /tmp/my ws"
    );
}

#[test]
fn interactive_cd_commands_render_expected_forms() {
    assert_eq!(
        render_interactive_change_dir_command("/tmp/work dir"),
        "cd \"/tmp/work dir\""
    );
    assert_eq!(render_interactive_probe_workdir_command(), "cd");
}

#[test]
fn different_arguments_are_quoted_differently() {
    let arguments = ["a", "a b", "\"a b\"", "a\\b", "a\\\\b", ""];
    for first in arguments {
        for second in arguments {
            assert_eq!(
                quote_interactive_argument(first) == quote_interactive_argument(second),
                first == second
            );
        }
    }
}

// Rendering

fn request(program: &str, args: &[&str]) -> ProcessRequest {
    ProcessRequest {
        program: program.to_owned(),
        args: texts(args),
        workdir: None,
        stdout_log_path: None,
        stderr_log_path: None,
        startup_probe: None,
    }
}

#[test]
fn render_command_masks_unlock_code_flag() {
    let rendered = render_command(&request(
        "/tmp/1cv8",
        &["DESIGNER", "/UC", "seal-42", "/UpdateDBCfg"],
    ));

    assert!(rendered.contains("/UC ***"));
    assert!(!rendered.contains("seal-42"));
}

#[test]
fn render_command_masks_ibcmd_password_flags() {
    let rendered = render_command(&request(
        "/tmp/ibcmd",
        &[
            "--user",
            "admin",
            "/p",
            "secret",
            "--DATABASE-password=pg-secret",
            "-p=legacy-secret",
            "--target-db-pwd",
            "target-secret",
        ],
    ));

    assert!(rendered.contains("/p ***"));
    assert!(rendered.contains("--DATABASE-password=***"));
    assert!(rendered.contains("-p=***"));
    assert!(rendered.contains("--target-db-pwd ***"));
    assert!(!rendered.contains("secret"));
    assert!(!rendered.contains("pg-secret"));
    assert!(!rendered.contains("legacy-secret"));
    assert!(!rendered.contains("target-secret"));
}

// git

#[test]
fn git_is_asked_quietly_and_answers_by_its_exit_code() {
    assert_eq!(
        check_ignored_args("build/out", HostPlatform::Linux),
        vec!["-C", "build", "check-ignore", "--quiet", "--", "build/out"]
    );
    assert_eq!(
        check_ignored_args("C:\\build\\out", HostPlatform::Windows),
        vec!["-C", "C:\\build", "check-ignore", "--quiet", "--", "C:\\build\\out"]
    );
    assert_eq!(check_ignored(Some(0)), Some(true));
    assert_eq!(check_ignored(Some(1)), Some(false));
    assert_eq!(check_ignored(Some(128)), None);
    assert_eq!(check_ignored(None), None);
}
