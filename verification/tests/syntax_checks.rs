use v8_runner::adapter_input::{
    is_safe_path_segment, normalize_optional_string, normalize_required_string,
    normalize_string_list, parse_launch_target, parse_optional_dump_mode,
};
use v8_runner::config::{
    AppConfig, BuildConfig, BuilderBackend, InfobaseConfig, McpConfig, SourceFormat,
    SourceSetConfig, SourceSetPurpose, TestsConfig, ToolsConfig,
};
use v8_runner::domain::{Issue, IssueSeverity, SyntaxCheckResult, SyntaxCheckStatus};
use v8_runner::mcp::edt_session::{EdtSessionError, EdtSessionResponse};
use v8_runner::mcp::edt_syntax::{
    actor_exit_code, actor_status_from_result, combine_status, fallback_edt_issue,
    resolve_edt_source_sets, summarize_issues, unique_log_path,
};
use v8_runner::mcp::edt_syntax_check::{
    EdtSyntaxAsk, EdtSyntaxCheck, EdtSyntaxEvent, EdtSyntaxOutcome,
};
use v8_runner::mcp::edt_syntax_run::{
    log_directory_failure, AnswerVerdict, EdtSyntaxRun, EdtSyntaxTransportError,
};
use v8_runner::path::{
    path_components, path_file_name, path_is_absolute, path_join, path_parent, path_resolve,
    HostPlatform,
};
use v8_runner::time::{Moment, Span};
use v8_runner::use_cases::{
    DumpModeRequest, LaunchTargetRequest, SyntaxRequest, SyntaxTargetRequest, UseCaseErrorKind,
    UseCaseFailure,
};

fn source_set(name: &str, path: &str) -> SourceSetConfig {
    SourceSetConfig {
        name: name.to_owned(),
        purpose: SourceSetPurpose::Configuration,
        path: path.to_owned(),
        depends_on: vec![],
    }
}

fn config(sets: Vec<SourceSetConfig>) -> AppConfig {
    AppConfig {
        base_path: "/tmp/project".to_owned(),
        work_path: "/tmp/work".to_owned(),
        execution_timeout: 300_000,
        format: SourceFormat::Edt,
        builder: BuilderBackend::Designer,
        infobase: InfobaseConfig::file("File=/tmp/ib"),
        source_sets: sets,
        build: BuildConfig::default(),
        tools: ToolsConfig::default(),
        mcp: McpConfig::default(),
        tests: TestsConfig::default(),
    }
}

fn edt_request(projects: &[&str]) -> SyntaxRequest {
    SyntaxRequest {
        target: SyntaxTargetRequest::Edt {
            projects: projects.iter().map(|name| (*name).to_owned()).collect(),
        },
    }
}

fn response(stdout: &str, stderr: &str) -> EdtSessionResponse {
    EdtSessionResponse {
        stdout: stdout.to_owned(),
        stderr: stderr.to_owned(),
    }
}

fn moment(millis: u64) -> Moment {
    Moment {
        nanos: Span::from_millis(millis).nanos,
    }
}

/// Checks all projects, one answer and one log for each.
fn check(
    config: &AppConfig,
    answers: Vec<(EdtSessionResponse, Result<String, String>)>,
) -> Result<SyntaxCheckResult, UseCaseFailure<SyntaxCheckResult>> {
    let mut answers = answers.into_iter();
    let mut log = None;
    let mut sequence: u64 = 0;
    let mut now = moment(1000);
    let mut step = EdtSyntaxCheck::start(config, &edt_request(&[]), Span::from_secs(60), HostPlatform::Linux, now);
    loop {
        let event = match step.ask {
            EdtSyntaxAsk::PrepareLogs { work_path } => EdtSyntaxEvent::LogDirectory {
                outcome: Ok(path_join(HostPlatform::Linux, &work_path, "logs")),
            },
            EdtSyntaxAsk::StampLog => {
                sequence += 1;
                EdtSyntaxEvent::Stamp {
                    timestamp: 1700,
                    pid: 42,
                    sequence,
                }
            }
            EdtSyntaxAsk::Submit { command, deadline } => {
                assert!(command.starts_with("validate --file "));
                assert_eq!(deadline, moment(61_000));
                let (answer, contents) = answers.next().expect("project");
                log = Some(contents);
                EdtSyntaxEvent::Answer { answer: Ok(answer) }
            }
            EdtSyntaxAsk::ReadLog { path } => {
                assert!(path.ends_with(&format!("_1700_42_{sequence}.log")));
                now = moment(1012);
                EdtSyntaxEvent::Log {
                    contents: log.take().expect("log"),
                }
            }
            EdtSyntaxAsk::Done { outcome } => {
                assert_eq!(answers.next(), None);
                return match outcome {
                    EdtSyntaxOutcome::Clean(result) => Ok(result),
                    EdtSyntaxOutcome::Failed { error, payload } => {
                        Err(UseCaseFailure { error, payload })
                    }
                    other => panic!("unexpected outcome: {other:?}"),
                };
            }
            other => panic!("unexpected question: {other:?}"),
        };
        step = step.check.step(event, now);
    }
}

/// State of a check whose first command is with the shared session.
fn submitted(config: &AppConfig) -> EdtSyntaxCheck {
    let step = EdtSyntaxCheck::start(config, &edt_request(&[]), Span::from_secs(60), HostPlatform::Linux, moment(0));
    let step = step.check.step(
        EdtSyntaxEvent::LogDirectory {
            outcome: Ok("/tmp/work/logs".to_owned()),
        },
        moment(0),
    );
    let step = step.check.step(
        EdtSyntaxEvent::Stamp {
            timestamp: 1700,
            pid: 42,
            sequence: 1,
        },
        moment(0),
    );
    assert!(matches!(step.ask, EdtSyntaxAsk::Submit { .. }));
    step.check
}

#[test]
fn interrupted_check_waits_before_it_fails() {
    let config = config(vec![source_set("main", "main")]);
    let step = submitted(&config).step(
        EdtSyntaxEvent::Answer {
            answer: Err(EdtSessionError::RunningTimeout),
        },
        moment(60_000),
    );
    assert_eq!(step.ask, EdtSyntaxAsk::AwaitCompletion);
    let step = step.check.step(EdtSyntaxEvent::Completed, moment(61_500));
    match step.ask {
        EdtSyntaxAsk::Done {
            outcome:
                EdtSyntaxOutcome::Failed {
                    error,
                    payload: Some(result),
                },
        } => {
            assert!(error.message.starts_with("execution timeout expired"));
            assert_eq!(result.duration_ms, 61_500);
            assert_eq!(
                result.platform_log_path.as_deref(),
                Some("/tmp/work/logs/syntax_edt_main_1700_42_1.log")
            );
        }
        other => panic!("unexpected question: {other:?}"),
    }
}

#[test]
fn check_refused_by_the_queue_is_left_to_the_transport() {
    let config = config(vec![source_set("main", "main"), source_set("ext", "ext")]);
    let step = submitted(&config).step(
        EdtSyntaxEvent::Answer {
            answer: Err(EdtSessionError::QueuedCancelled),
        },
        moment(5),
    );
    assert_eq!(
        step.ask,
        EdtSyntaxAsk::Done {
            outcome: EdtSyntaxOutcome::Refused(EdtSyntaxTransportError::QueuedCancelled)
        }
    );
    let step = step.check.step(EdtSyntaxEvent::Completed, moment(6));
    assert_eq!(step.ask, EdtSyntaxAsk::Repeat);
}

#[test]
fn check_without_a_log_directory_fails() {
    let config = config(vec![source_set("main", "main")]);
    let step = EdtSyntaxCheck::start(&config, &edt_request(&[]), Span::from_secs(60), HostPlatform::Linux, moment(0));
    let step = step.check.step(
        EdtSyntaxEvent::LogDirectory {
            outcome: Err("denied".to_owned()),
        },
        moment(3),
    );
    match step.ask {
        EdtSyntaxAsk::Done {
            outcome: EdtSyntaxOutcome::Failed { error, .. },
        } => assert_eq!(
            error.message,
            "failed to prepare syntax platform logs directory '/tmp/work': denied"
        ),
        other => panic!("unexpected question: {other:?}"),
    }
}

#[test]
fn clean_projects_make_a_clean_check() {
    let config = config(vec![source_set("main", "main"), source_set("ext", "ext")]);
    let result = check(
        &config,
        vec![
            (response("", ""), Ok(String::new())),
            (response("", ""), Ok(String::new())),
        ],
    )
    .expect("clean");
    assert_eq!(result.status, SyntaxCheckStatus::Clean);
    assert_eq!(result.exit_code, 0);
    assert_eq!(result.duration_ms, 12);
    assert!(result.issues.is_empty());
}

#[test]
fn issues_of_one_project_fail_the_check() {
    let config = config(vec![source_set("main", "main"), source_set("ext", "ext")]);
    let failure = check(
        &config,
        vec![
            (
                response("", ""),
                Ok("ERROR\tCatalogs.Items\t1\t2\tRule\tbad\n".to_owned()),
            ),
            (response("", ""), Ok(String::new())),
        ],
    )
    .expect_err("issues");
    assert_eq!(failure.error.kind, UseCaseErrorKind::Runtime);
    let result = failure.payload.expect("result");
    assert_eq!(result.status, SyntaxCheckStatus::IssuesFound);
    assert_eq!(result.exit_code, 101);
    assert_eq!(result.summary.errors, 1);
    assert_eq!(result.issues.len(), 1);
}

#[test]
fn unreadable_log_is_told_as_a_warning() {
    let config = config(vec![source_set("main", "main")]);
    let failure = check(
        &config,
        vec![(
            response("", "validation crashed"),
            Err("No such file".to_owned()),
        )],
    )
    .expect_err("tool failure");
    let result = failure.payload.expect("result");
    assert_eq!(result.status, SyntaxCheckStatus::ToolFailed);
    assert!(result
        .log_read_warning
        .expect("warning")
        .contains("failed to read edt --file log"));
    assert!(result
        .stderr
        .expect("stderr")
        .contains("validation crashed"));
}

#[test]
fn check_needs_the_designer_and_edt_sources() {
    let mut config = config(vec![source_set("main", "main")]);
    config.format = SourceFormat::Designer;
    let failure =
        EdtSyntaxRun::start(&config, &edt_request(&[]), Span::zero(), HostPlatform::Linux).expect_err("refused");
    assert_eq!(failure.error.kind, UseCaseErrorKind::Validation);
    assert!(failure
        .error
        .message
        .contains("supports only builder=DESIGNER and format=EDT"));
    assert_eq!(
        failure.payload.expect("result").status,
        SyntaxCheckStatus::ToolFailed
    );
}

#[test]
fn unknown_project_is_refused() {
    let config = config(vec![source_set("main", "main")]);
    let failure =
        EdtSyntaxRun::start(
            &config,
            &edt_request(&["other"]),
            Span::zero(),
            HostPlatform::Linux,
        ).expect_err("refused");
    assert_eq!(failure.error.kind, UseCaseErrorKind::Validation);
    assert!(failure.error.message.contains("other"));
    let projects = resolve_edt_source_sets(HostPlatform::Linux, "/tmp/project", &config.source_sets, &vec![])
        .expect("all projects");
    assert_eq!(projects[0].source_path, "/tmp/project/main");
}

#[test]
fn answers_are_told_apart() {
    let config = config(vec![source_set("main", "main")]);
    let run = EdtSyntaxRun::start(&config, &edt_request(&[]), Span::zero(), HostPlatform::Linux).expect("run");
    let judge = |error| run.judge_answer("/tmp/log", Err(error), Span::zero());
    assert_eq!(
        judge(EdtSessionError::QueuedCancelled),
        AnswerVerdict::Admission(EdtSyntaxTransportError::QueuedCancelled)
    );
    assert_eq!(
        judge(EdtSessionError::QueuedTimeout),
        AnswerVerdict::Admission(EdtSyntaxTransportError::QueuedTimeout)
    );
    assert!(matches!(
        judge(EdtSessionError::RunningCancelled),
        AnswerVerdict::Failed {
            await_completion: true,
            ..
        }
    ));
    assert!(matches!(
        judge(EdtSessionError::QueueFull),
        AnswerVerdict::Failed {
            await_completion: false,
            ..
        }
    ));
}

#[test]
fn log_directory_that_cannot_be_made_fails_the_check() {
    let failure = log_directory_failure("/tmp/work", "denied", Span::zero());
    assert_eq!(
        failure.error.message,
        "failed to prepare syntax platform logs directory '/tmp/work': denied"
    );
    assert_eq!(failure.payload.expect("result").exit_code, -1);
}

#[test]
fn worst_status_counts() {
    let (clean, issues, failed) = (
        SyntaxCheckStatus::Clean,
        SyntaxCheckStatus::IssuesFound,
        SyntaxCheckStatus::ToolFailed,
    );
    assert_eq!(combine_status(clean, issues), issues);
    assert_eq!(combine_status(failed, issues), failed);
    assert_eq!(combine_status(clean, clean), clean);
    assert_eq!(actor_exit_code(failed), -1);
    assert_eq!(actor_status_from_result("", "", &vec![]), clean);
    assert_eq!(actor_status_from_result("", "boom", &vec![]), failed);
}

#[test]
fn fallback_issue_stands_for_a_failure_without_issues() {
    let issue = fallback_edt_issue("main", 1, &None, &None, &Some("/tmp/log".to_owned()));
    match &issue {
        Issue::Edt(issue) => assert_eq!(issue.severity, IssueSeverity::Error),
        other => panic!("unexpected issue: {other:?}"),
    }
    let summary = summarize_issues(&vec![issue]);
    assert_eq!((summary.errors, summary.warnings, summary.info), (1, 0, 0));
}

#[test]
fn log_names_differ_by_their_sequence() {
    assert_eq!(
        unique_log_path(HostPlatform::Linux, "/tmp/logs", "edt_main", 1700, 42, 3),
        "/tmp/logs/syntax_edt_main_1700_42_3.log"
    );
}

// Input

#[test]
fn blank_values_are_absent_or_refused() {
    assert_eq!(normalize_optional_string(Some("  a ")).as_deref(), Some("a"));
    assert_eq!(normalize_optional_string(Some("  ")), None);
    assert_eq!(normalize_optional_string(None), None);
    assert_eq!(normalize_required_string(" a ", "name").as_deref(), Ok("a"));
    assert_eq!(
        normalize_required_string(" ", "name")
            .expect_err("blank")
            .message,
        "name must not be blank"
    );
    assert_eq!(
        normalize_string_list(&vec![" a ".to_owned(), " ".to_owned(), "b".to_owned()]),
        vec!["a", "b"]
    );
}

#[test]
fn words_are_understood_in_any_case() {
    assert_eq!(
        parse_optional_dump_mode(Some("Full"), DumpModeRequest::Incremental),
        Ok(DumpModeRequest::Full)
    );
    assert_eq!(
        parse_optional_dump_mode(None, DumpModeRequest::Incremental),
        Ok(DumpModeRequest::Incremental)
    );
    assert_eq!(
        parse_launch_target("ТОНКИЙ КЛИЕНТ", "utilityType"),
        Ok(LaunchTargetRequest::thin_client())
    );
}

#[test]
fn path_segments_hold_no_separators() {
    assert!(is_safe_path_segment("smoke"));
    assert!(is_safe_path_segment("тест 1"));
    for value in ["", ".", "..", "a/b", "a\\b", "c:d", "a\0b"] {
        assert!(!is_safe_path_segment(value), "segment {value:?}");
    }
}

#[test]
fn paths_join_and_part() {
    let linux = HostPlatform::Linux;
    assert_eq!(path_join(linux, "/tmp", "a"), "/tmp/a");
    assert_eq!(path_join(linux, "/tmp/", "a"), "/tmp/a");
    assert_eq!(path_join(linux, "/tmp", "/a"), "/a");
    assert_eq!(path_join(linux, "C:", "a"), "C:/a");
    assert_eq!(path_parent(linux, "/tmp/a").as_deref(), Some("/tmp"));
    assert_eq!(path_parent(linux, "a").as_deref(), Some(""));
    assert_eq!(path_parent(linux, "/"), None);
    assert_eq!(path_file_name(linux, r"/tmp/a\b/").as_deref(), Some(r"a\b"));
}

#[test]
fn windows_paths_join_and_part() {
    let windows = HostPlatform::Windows;
    for (base, name, path) in [
        (r"C:\tmp", "a", r"C:\tmp\a"),
        ("C:\\tmp\\", "a", r"C:\tmp\a"),
        ("C:/tmp", "a/b", r"C:/tmp\a/b"),
        (r"C:\tmp", r"D:\a", r"D:\a"),
        (r"C:\tmp", "D:a", "D:a"),
        (r"C:\tmp", r"\a", r"C:\a"),
        ("C:", "a", "C:a"),
        (r"\\server\share", "a", r"\\server\share\a"),
        (r"\\server\share\x", "/a", r"\\server\share/a"),
        ("", "a", "a"),
    ] {
        assert_eq!(path_join(windows, base, name), path);
    }
    for (path, parent) in [
        (r"C:\x\1cv8.exe", Some(r"C:\x")),
        ("C:/x/", Some("C:/")),
        ("C:\\", None),
        ("C:x", Some("C:")),
        ("C:", None),
        (r"\x", Some("\\")),
        (r"\\server\share\x", Some("\\\\server\\share\\")),
        (r"\\server\share", None),
        ("x", Some("")),
    ] {
        assert_eq!(path_parent(windows, path).as_deref(), parent, "{path}");
    }
    for (path, name) in [
        (r"C:\x\1cv8.exe", Some("1cv8.exe")),
        ("C:x", Some("x")),
        ("C:\\", None),
        (r"\\server\share", None),
        (r"a\..", None),
    ] {
        assert_eq!(path_file_name(windows, path).as_deref(), name, "{path}");
    }
    assert_eq!(path_components(windows, r"C:\a/b\.\c"), vec!["a", "b", "c"]);
}

#[test]
fn windows_paths_are_absolute_with_a_prefix_and_a_root() {
    let windows = HostPlatform::Windows;
    for path in [
        r"C:\x",
        "c:/x",
        r"\\server\share",
        r"\\?\C:\x",
        "//server/share/x",
    ] {
        assert!(path_is_absolute(windows, path), "{path}");
        assert_eq!(path_resolve(windows, r"C:\work", path), path);
    }
    for (path, place) in [
        ("x", r"C:\work\x"),
        (r"\x", r"C:\x"),
        ("c:x", r"C:\work\x"),
        ("D:x", r"D:\x"),
        (r"\\server", r"C:\\server"),
    ] {
        assert!(!path_is_absolute(windows, path), "{path}");
        let resolved = path_resolve(windows, r"C:\work", path);
        assert_eq!(resolved, place);
        assert!(path_is_absolute(windows, &resolved), "{resolved}");
    }
    assert!(!path_is_absolute(HostPlatform::Linux, r"C:\x"));
    assert_eq!(path_resolve(HostPlatform::Linux, "/work", "x"), "/work/x");
    assert_eq!(path_resolve(HostPlatform::Linux, "/work", "/x"), "/x");
}
