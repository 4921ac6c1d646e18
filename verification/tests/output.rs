use v8_runner::output::json::Envelope;
use v8_runner::output::presenter::{ColorMode, ErrorOutput, Presenter};
use v8_runner::output::text::{TextPresenter, TimelineItem, TimelineStatus};

fn plain() -> Presenter {
    Presenter::new("text".to_owned(), ColorMode::Disabled)
}

fn json() -> Presenter {
    Presenter::new("json".to_owned(), ColorMode::Enabled)
}

#[test]
fn text_lines_begin_with_their_marks() {
    let presenter = plain();
    assert_eq!(presenter.print_ok("done"), vec!["● OK: done"]);
    assert_eq!(presenter.print_success_item("built"), vec!["● built"]);
    assert_eq!(presenter.print_info("one\ntwo"), vec!["│ one", "│ two"]);
    assert_eq!(
        presenter.print_error("broken"),
        ErrorOutput::Text {
            line: "ERROR: broken".to_owned()
        }
    );
}

#[test]
fn colours_are_added_where_they_are_enabled() {
    let presenter = TextPresenter { no_color: false };
    assert_eq!(presenter.print_ok("done"), "\x1b[32m●\x1b[0m OK: done");
    assert_eq!(
        presenter.print_error("broken"),
        "\x1b[31mERROR\x1b[0m: broken"
    );
    assert_eq!(presenter.print_info("one"), vec!["\x1b[34m│\x1b[0m one"]);
}

#[test]
fn timeline_connects_its_items() {
    let items = vec![
        TimelineItem::new(TimelineStatus::Succeeded, "build").with_detail("first\nsecond"),
        TimelineItem::new(TimelineStatus::Skipped, "test"),
        TimelineItem::new(TimelineStatus::Failed, "dump").with_detail("reason"),
    ];
    assert_eq!(
        plain().print_timeline(&items),
        vec![
            "● build",
            "│   first",
            "│   second",
            "│",
            "● test",
            "│",
            "● dump",
            "    reason",
        ]
    );
    let coloured = TextPresenter { no_color: false }.print_timeline(&items);
    assert_eq!(coloured[0], "\x1b[32m●\x1b[0m build");
    assert_eq!(coloured[4], "\x1b[34m●\x1b[0m test");
    assert_eq!(coloured[6], "\x1b[31m●\x1b[0m dump");
    assert!(plain().print_timeline(&vec![]).is_empty());
}

#[test]
fn empty_details_add_no_lines() {
    let items = vec![TimelineItem::new(TimelineStatus::Succeeded, "build").with_detail("")];
    assert_eq!(plain().print_timeline(&items), vec!["● build"]);
}

#[test]
fn json_output_shows_envelopes_only() {
    let presenter = json();
    assert!(presenter.is_json());
    assert!(presenter.print_ok("done").is_empty());
    assert!(presenter.print_info("done").is_empty());
    assert!(presenter.print_success_item("done").is_empty());
    let items = vec![TimelineItem::new(TimelineStatus::Succeeded, "build")];
    assert!(presenter.print_timeline(&items).is_empty());

    let envelope = Envelope::ok("build", 5, 7u32);
    assert_eq!(presenter.print_envelope(&envelope), Some(&envelope));
    assert_eq!(plain().print_envelope(&envelope), None);

    match presenter.print_error("broken") {
        ErrorOutput::Json { envelope } => {
            assert!(!envelope.ok);
            assert_eq!(envelope.command, "error");
            assert_eq!(envelope.duration_ms, 0);
            assert_eq!(envelope.data.message, "broken");
        }
        other => panic!("unexpected output: {other:?}"),
    }
}

#[test]
fn envelopes_start_without_warnings_and_steps() {
    let ok = Envelope::ok("build", 5, "data".to_owned());
    assert!(ok.ok);
    assert_eq!(ok.command, "build");
    assert_eq!(ok.duration_ms, 5);
    assert_eq!(ok.data, "data");
    assert!(ok.warnings.is_empty());
    assert!(ok.steps.is_empty());
    assert!(!Envelope::err("build", 5, ()).ok);
}
