use v8_runner::domain::{
    ExecutionError, ExecutionMetrics, Issue, IssueSeverity, TestStatus,
};
use v8_runner::parsers::junit::JunitError;
use v8_runner::parsers::xml::{XmlAttribute, XmlElement, XmlEvent};
use v8_runner::parsers::{
    designer_validation, edt_validation, junit, vanessa_log, yaxunit_log, NormalizedParse,
};

const DESIGNER_LOG: &str = "\
{CommonModules.TestModule(12,3)}: Ошибка компиляции: переменная не определена
{12}: Сообщить(Переменная);
Catalogs.Items Ошибка проверки объекта
Справочники.Номенклатура Предупреждение: неиспользуемый реквизит
ОбщаяФорма.НастройкиРегистрации.Справка Неразрешимые ссылки на объекты метаданных (1)
";

const YAXUNIT_LOG: &str = "\
12:00:00.000 [INF] start
12:00:01.000 [ERR] failed block
more details
12:00:02.000 [INF] end
";

fn bytes(text: &str) -> Vec<u8> {
    text.as_bytes().to_vec()
}

fn rows(text: &str) -> Vec<String> {
    text.lines().map(str::to_owned).collect()
}

#[test]
fn parses_realistic_fixture_sample() {
    let issues = designer_validation::parse(DESIGNER_LOG);

    assert_eq!(issues.len(), 4);
    match &issues[0] {
        Issue::Module(issue) => {
            assert_eq!(issue.path, "CommonModules.TestModule");
            assert_eq!(issue.line, Some(12));
            assert_eq!(issue.column, Some(3));
            assert_eq!(issue.severity, IssueSeverity::Error);
        }
        _ => panic!("expected module issue"),
    }

    match &issues[1] {
        Issue::Object(issue) => assert_eq!(issue.object, "Catalogs.Items"),
        _ => panic!("expected object issue"),
    }

    match &issues[2] {
        Issue::Object(issue) => {
            assert_eq!(issue.object, "Справочники.Номенклатура");
            assert_eq!(issue.severity, IssueSeverity::Warning);
        }
        _ => panic!("expected warning object issue"),
    }

    match &issues[3] {
        Issue::Object(issue) => {
            assert_eq!(issue.object, "ОбщаяФорма.НастройкиРегистрации.Справка");
            assert_eq!(issue.severity, IssueSeverity::Error);
        }
        _ => panic!("expected unresolvable reference issue"),
    }
}

#[test]
fn parses_object_issue() {
    let issues = designer_validation::parse("Catalogs.Items Ошибка проверки объекта");

    assert_eq!(issues.len(), 1);
    match &issues[0] {
        Issue::Object(issue) => {
            assert_eq!(issue.object, "Catalogs.Items");
            assert_eq!(issue.severity, IssueSeverity::Error);
        }
        _ => panic!("expected object issue"),
    }
}

#[test]
fn parses_cyrillic_names() {
    let issues = designer_validation::parse("Справочники.Номенклатура Предупреждение: неиспользуемый реквизит");

    assert_eq!(issues.len(), 1);
    match &issues[0] {
        Issue::Object(issue) => {
            assert_eq!(issue.object, "Справочники.Номенклатура");
            assert_eq!(issue.severity, IssueSeverity::Warning);
        }
        _ => panic!("expected object issue"),
    }
}

#[test]
fn keeps_issue_after_module_issue_when_no_context_line_exists() {
    let issues =
        designer_validation::parse("{CommonModules.A(1,1)}: Ошибка компиляции\nКонфигурация Ошибка проверки");

    assert_eq!(issues.len(), 2);
    match &issues[1] {
        Issue::Object(issue) => assert_eq!(issue.object, "Конфигурация"),
        _ => panic!("expected object issue"),
    }
}

#[test]
fn parses_root_level_object_issue_without_dot() {
    let issues = designer_validation::parse("Конфигурация Ошибка проверки объекта");

    assert_eq!(issues.len(), 1);
    match &issues[0] {
        Issue::Object(issue) => assert_eq!(issue.object, "Конфигурация"),
        _ => panic!("expected object issue"),
    }
}

#[test]
fn ignores_noise_only_log() {
    let issues = designer_validation::parse("some random text\n\nanother line");

    assert!(issues.is_empty());
}

#[test]
fn parses_empty_log() {
    let issues = designer_validation::parse("");

    assert!(issues.is_empty());
}

#[test]
fn ignores_success_message() {
    let issues = designer_validation::parse("Синтаксических ошибок не обнаружено!");

    assert!(issues.is_empty());
}

#[test]
fn designer_validation_parse_path_returns_empty_for_missing_file() {
    let issues = designer_validation::parse_path(None);

    assert!(issues.is_empty());
}

#[test]
fn parses_unresolvable_references_issue() {
    let issues = designer_validation::parse(
        "ОбщаяФорма.НастройкиРегистрации.Справка Неразрешимые ссылки на объекты метаданных (1)",
    );

    assert_eq!(issues.len(), 1);
    match &issues[0] {
        Issue::Object(issue) => {
            assert_eq!(issue.object, "ОбщаяФорма.НастройкиРегистрации.Справка");
            assert_eq!(issue.severity, IssueSeverity::Error);
        }
        _ => panic!("expected object issue"),
    }
}

#[test]
fn parses_tsv_happy_path() {
    let issues = edt_validation::parse("ERROR\tCommonModules.Test\t12\t3\tUnusedVariables\tunused variable");

    assert_eq!(issues.len(), 1);
    match &issues[0] {
        Issue::Edt(issue) => {
            assert_eq!(issue.path, "CommonModules.Test");
            assert_eq!(issue.line, Some(12));
            assert_eq!(issue.column, Some(3));
            assert_eq!(issue.check.as_deref(), Some("UnusedVariables"));
            assert_eq!(issue.severity, IssueSeverity::Error);
        }
        _ => panic!("expected edt issue"),
    }
}

#[test]
fn parses_message_with_embedded_tabs() {
    let issues = edt_validation::parse("WARNING\tCatalogs.Items\t\t\t\tpart1\tpart2");

    assert_eq!(issues.len(), 1);
    match &issues[0] {
        Issue::Edt(issue) => {
            assert_eq!(issue.message, "part1\tpart2");
            assert_eq!(issue.severity, IssueSeverity::Warning);
            assert!(issue.line.is_none());
            assert!(issue.column.is_none());
        }
        _ => panic!("expected edt issue"),
    }
}

#[test]
fn skips_malformed_rows_without_panicking() {
    let issues =
        edt_validation::parse("random noise\nERROR\t\t12\t3\tcheck\tmessage\nINFO\tCatalogs.Items\tmessage");

    assert_eq!(issues.len(), 1);
    match &issues[0] {
        Issue::Edt(issue) => {
            assert_eq!(issue.path, "Catalogs.Items");
            assert_eq!(issue.severity, IssueSeverity::Info);
        }
        _ => panic!("expected edt issue"),
    }
}

#[test]
fn empty_log_produces_empty_issues() {
    assert!(edt_validation::parse("").is_empty());
}

#[test]
fn parses_cyrillic_severity_labels() {
    let issues = edt_validation::parse("Ошибка\tCatalogs.Items\t1\t2\tRule\tbad");

    assert_eq!(issues.len(), 1);
    match &issues[0] {
        Issue::Edt(issue) => assert_eq!(issue.severity, IssueSeverity::Error),
        _ => panic!("expected edt issue"),
    }
}

#[test]
fn rejects_row_with_empty_message_column() {
    let issues = edt_validation::parse("ERROR\tCatalogs.Items\t1\t2\tRule\t");
    assert!(issues.is_empty());
}

#[test]
fn does_not_treat_issue_with_header_words_as_header_row() {
    let issues =
        edt_validation::parse("ERROR\tCommonModules.PathUtils\t1\t1\tRule\tInvalid severity/path message");
    assert_eq!(issues.len(), 1);
}

#[test]
fn edt_validation_parse_path_returns_empty_for_missing_file() {
    let issues = edt_validation::parse_path(None);

    assert!(issues.is_empty());
}

#[test]
fn parses_nested_suites_and_multiline_failures() {
    let xml = r#"
<testsuites>
  <testsuite name="root" time="1.0">
<testsuite name="nested" time="0.2">
  <testcase name="ok" classname="A" time="0.1" />
  <testcase name="bad" classname="B" time="0.1">
    <failure message="boom"><![CDATA[line1
line2]]></failure>
  </testcase>
</testsuite>
  </testsuite>
</testsuites>
"#;
    let report = junit::parse(&bytes(xml)).expect("report");
    assert_eq!(report.summary.total, 2);
    assert_eq!(report.summary.failed, 1);
    assert_eq!(report.suites.len(), 2);
    assert!(report.suites.iter().any(|suite| suite.name == "nested"));
    let failed = report
        .suites
        .iter()
        .flat_map(|suite| &suite.cases)
        .find(|case| case.name == "bad")
        .expect("failed case");
    assert_eq!(failed.failure_message.as_deref(), Some("boom"));
    assert!(failed
        .stack_trace
        .as_deref()
        .expect("stack")
        .contains("line2"));
}

#[test]
fn rejects_empty_junit_file() {
    let err = junit::parse(&bytes("")).expect_err("empty");
    assert!(matches!(err, JunitError::Empty | JunitError::Malformed(_)));
}

#[test]
fn rejects_malformed_xml() {
    let err = junit::parse(&bytes("<testsuite>")).expect_err("malformed");
    assert!(matches!(err, JunitError::Malformed(_)));
}

#[test]
fn parses_self_closing_failure_and_error_nodes() {
    let xml = r#"
<testsuite name="suite">
  <testcase name="failed"><failure message="boom"/></testcase>
  <testcase name="errored"><error message="oops"/></testcase>
</testsuite>
"#;
    let report = junit::parse(&bytes(xml)).expect("report");
    assert_eq!(report.summary.failed, 1);
    assert_eq!(report.summary.errors, 1);
}

#[test]
fn extracts_multiline_error_block_from_fixture() {
    let errors = yaxunit_log::parse_reader(&rows(YAXUNIT_LOG));
    assert_eq!(errors.len(), 1);
    assert!(errors[0].contains("failed block"));
    assert!(errors[0].contains("more details"));
}

#[test]
fn extracts_multiple_multiline_error_blocks() {
    let log = "\
12:00:00.000 [INF] start
12:00:01.000 [ERR] first
details
12:00:02.000 [INF] mid
12:00:03.000 [ERR] second
stack line
";
    let errors = yaxunit_log::parse_reader(&rows(log));
    assert_eq!(errors.len(), 2);
    assert!(errors[0].contains("details"));
    assert!(errors[1].contains("stack line"));
}

#[test]
fn normalizes_error_blocks_without_losing_multiline_content() {
    let normalized = yaxunit_log::normalize_reader(&rows(YAXUNIT_LOG));
    assert_eq!(normalized.errors.len(), 1);
    assert!(normalized.errors[0].message.contains("failed block"));
    assert!(normalized.diagnostics[0].contains("more details"));
}

#[test]
fn extracts_error_like_lines() {
    let parsed =
        vanessa_log::normalize_file("info line\nERROR boom\nИсключение\nОшибка теста\n");
    assert_eq!(
        parsed.payload.expect("payload"),
        vec!["ERROR boom".to_owned(), "Ошибка теста".to_owned()]
    );
}

fn junit_error(xml: &str) -> String {
    junit::parse(&bytes(xml)).expect_err("error").message()
}

#[test]
fn junit_times_are_kept_as_written() {
    let report = junit::parse(&bytes(
        "<testsuite name=\"s\" time=\"1.5\"><testcase name=\"c\" time=\"0.25\"/></testsuite>",
    ))
    .expect("report");
    assert_eq!(report.suites[0].time.as_deref(), Some("1.5"));
    assert_eq!(report.suites[0].cases[0].time.as_deref(), Some("0.25"));
    assert_eq!(report.suites[0].cases[0].status, TestStatus::Passed);
}

#[test]
fn junit_attributes_are_kept_as_written() {
    let report = junit::parse(&bytes(
        "<testsuite name=\"a &amp; b\"><testcase name=\"Проверка\"/></testsuite>",
    ))
    .expect("report");
    assert_eq!(report.suites[0].name, "a &amp; b");
    assert_eq!(report.suites[0].cases[0].name, "Проверка");
}

#[test]
fn junit_summary_adds_up() {
    let report = junit::parse(&bytes(
        "<testsuite name=\"s\"><testcase name=\"a\"/><testcase name=\"b\"><skipped/></testcase>\
         <testcase name=\"c\"><failure/></testcase><testcase name=\"d\"><error/></testcase></testsuite>",
    ))
    .expect("report");
    let summary = report.summary;
    assert_eq!(summary.total, 4);
    assert_eq!(
        (summary.passed, summary.skipped, summary.failed, summary.errors),
        (1, 1, 1, 1)
    );
    assert_eq!(
        summary.passed + summary.skipped + summary.failed + summary.errors,
        summary.total
    );
}

#[test]
fn junit_errors_have_their_messages() {
    assert_eq!(
        junit_error(""),
        "junit file is empty or contains no test suites"
    );
    assert!(junit_error("<testsuite>").starts_with("failed to parse junit xml: "));
}

#[test]
fn junit_nothing_counts_after_the_suite_has_ended() {
    let report = junit::parse(&bytes(
        "<testsuites><testsuite name=\"s\"><testcase name=\"a\"/></testsuite>\
         <testcase name=\"stray\"/></testsuites>",
    ))
    .expect("report");
    assert_eq!(report.summary.total, 1);
}

#[test]
fn junit_events_are_read_without_a_reader() {
    let events = vec![
        XmlEvent::Start(XmlElement {
            name: b"testsuite".to_vec(),
            attributes: vec![XmlAttribute::Pair {
                key: b"name".to_vec(),
                value: b"s".to_vec(),
            }],
        }),
        XmlEvent::Empty(XmlElement {
            name: b"testcase".to_vec(),
            attributes: vec![],
        }),
        XmlEvent::End(b"testsuite".to_vec()),
        XmlEvent::Eof,
    ];
    let report = junit::parse_events(&events).expect("report");
    assert_eq!(report.suites.len(), 1);
    assert_eq!(report.summary.total, 1);
}

#[test]
fn designer_module_issue_keeps_position_and_message() {
    let issues = designer_validation::parse("{ОбщийМодуль.А.Модуль(12,3)}: Переменная не определена");
    match &issues[0] {
        Issue::Module(issue) => {
            assert_eq!(issue.path, "ОбщийМодуль.А.Модуль");
            assert_eq!(issue.line, Some(12));
            assert_eq!(issue.column, Some(3));
            assert_eq!(issue.message, "Переменная не определена");
        }
        other => panic!("unexpected issue: {other:?}"),
    }
}

#[test]
fn designer_module_issue_comes_from_its_groups() {
    let group = |text: &str| Some(text.to_owned());
    let issue = designer_validation::module_issue_from_groups(&vec![
        group("{A(1,2)}: Ошибка"),
        None,
        group("A"),
        group("1"),
        group("2"),
        group("Ошибка"),
    ])
    .expect("issue");
    match issue {
        Issue::Module(issue) => {
            assert_eq!(issue.path, "A");
            assert_eq!((issue.line, issue.column), (Some(1), Some(2)));
            assert_eq!(issue.message, "Ошибка");
            assert_eq!(issue.severity, IssueSeverity::Error);
        }
        other => panic!("unexpected issue: {other:?}"),
    }
}

#[test]
fn designer_markers_tell_issues_from_success() {
    assert!(designer_validation::is_issue_text("ошибка"));
    assert!(designer_validation::is_success_text("ошибок не обнаружено"));
    assert!(!designer_validation::is_issue_text("текст"));
    assert_eq!(
        designer_validation::severity_from_text("предупреждение"),
        IssueSeverity::Warning
    );
}

#[test]
fn edt_words_name_severities() {
    assert_eq!(
        edt_validation::severity_from_word("error"),
        Some(IssueSeverity::Error)
    );
    assert_eq!(edt_validation::severity_from_word("noise"), None);
    assert_eq!(
        edt_validation::parse_severity(" WARNING "),
        Some(IssueSeverity::Warning)
    );
    assert_eq!(
        edt_validation::parse_severity("ОШИБКА"),
        Some(IssueSeverity::Error)
    );
}

#[test]
fn yaxunit_log_without_marks_has_no_errors() {
    assert!(yaxunit_log::parse_reader(&rows("12:00:00.000 [INF] start\nplain")).is_empty());
    assert!(yaxunit_log::parse_file(None).is_empty());
}

#[test]
fn yaxunit_errors_become_execution_errors() {
    let parsed = yaxunit_log::normalize_file(Some(&rows("12:00:01.000 [ERR] first")));
    assert_eq!(parsed.errors.len(), 1);
    assert!(parsed.errors[0].message.contains("first"));
}

#[test]
fn only_unreadable_lines_of_an_edt_log_are_worth_a_warning() {
    assert!(edt_validation::is_unrecognized("no columns at all"));
    assert!(edt_validation::is_unrecognized("odd\tpath\tmessage"));
    assert!(!edt_validation::is_unrecognized("  "));
    assert!(!edt_validation::is_unrecognized("Severity\tPath\tMessage"));
    assert!(!edt_validation::is_unrecognized("ERROR\tModule.bsl\tbroken"));
}

#[test]
fn output_of_a_parser_is_filled_part_by_part() {
    let metrics = ExecutionMetrics {
        total: 3,
        passed: 1,
        failed: 1,
        skipped: 0,
        errors: 1,
    };
    let parse = NormalizedParse::<u32>::default()
        .with_payload(7)
        .with_metrics(metrics)
        .with_errors(vec![ExecutionError::new("code", "broken".to_owned())]);

    assert_eq!(parse.payload, Some(7));
    assert_eq!(parse.metrics.map(|m| (m.total, m.errors)), Some((3, 1)));
    assert_eq!(parse.errors.len(), 1);
    assert_eq!(parse.errors[0].message, "broken");
    assert!(parse.warnings.is_empty());
    assert!(parse.diagnostics.is_empty());
}

#[test]
fn logs_in_parts_give_the_issues_of_their_parts() {
    let first = "{CommonModule.Core(12,3)}: Error: broken\r";
    let second = "Catalog.Items warning: unused\n";
    let whole = designer_validation::parse(&format!("{first}\n{second}"));
    let mut parts = designer_validation::parse(first);
    parts.extend(designer_validation::parse(second));
    assert_eq!(parts.len(), 2);
    assert_eq!(whole, parts);

    let first = "ERROR\tModule.bsl\tbroken\r";
    let second = "noise\nWARNING\tOther.bsl\t3\tunused";
    let whole = edt_validation::parse(&format!("{first}\n{second}"));
    let mut parts = edt_validation::parse(first);
    parts.extend(edt_validation::parse(second));
    assert_eq!(parts.len(), 2);
    assert_eq!(whole, parts);
    assert!(edt_validation::parse("").is_empty());
}

#[test]
fn yaxunit_log_gives_an_entry_for_each_marked_line() {
    let log = rows(
        "12:00:01.000 [ERR] first\ndetail\n12:00:02.000 [ERR] second\n12:00:03.000 [INF] rest\n[ERR] third",
    );
    let errors = yaxunit_log::parse_reader(&log);
    assert_eq!(errors.len(), 3);
    assert!(errors[0].contains("detail"));
    assert!(errors[2].contains("third"));
}
