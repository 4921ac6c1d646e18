//! Lines of the text output.

use vstd::prelude::*;
use crate::text::{cat2, cat3, clone_opt, opt_text, push_text, push_texts, texts, views};
use crate::text_scan::{lines, text_lines};

verus! {

/// How a step ended.
#[derive(Clone, Copy, Debug, PartialEq, Eq, Structural)]
pub enum TimelineStatus {
    Succeeded,
    Failed,
    Skipped,
}

/// Step on the timeline.
#[derive(Debug, PartialEq, Eq)]
pub struct TimelineItem {
    pub status: TimelineStatus,
    pub label: String,
    pub detail: Option<String>,
}

/// Mathematical value of [`TimelineItem`].
pub struct TimelineItemView {
    pub status: TimelineStatus,
    pub label: Seq<char>,
    pub detail: Option<Seq<char>>,
}

impl View for TimelineItem {
    type V = TimelineItemView;

    open spec fn view(&self) -> TimelineItemView {
        TimelineItemView {
            status: self.status,
            label: self.label@,
            detail: opt_text(self.detail),
        }
    }
}

impl Clone for TimelineItem {
    fn clone(&self) -> (r: Self)
        ensures
            r@ == self@,
    {
        TimelineItem {
            status: self.status,
            label: self.label.clone(),
            detail: clone_opt(&self.detail),
        }
    }
}

impl TimelineItem {
    /// Step without details.
    pub fn new(status: TimelineStatus, label: &str) -> (r: Self)
        ensures
            r@ == (TimelineItemView { status, label: label@, detail: None }),
    {
        TimelineItem { status, label: label.to_owned(), detail: None }
    }

    /// The step with details.
    pub fn with_detail(self, detail: &str) -> (r: Self)
        ensures
            r@ == (TimelineItemView { detail: Some(detail@), ..self@ }),
    {
        TimelineItem { status: self.status, label: self.label, detail: Some(detail.to_owned()) }
    }
}

/// Mark of a step.
pub open spec fn node_text(no_color: bool, status: TimelineStatus) -> Seq<char> {
    if no_color {
        "●"@
    } else {
        match status {
            TimelineStatus::Succeeded => "\x1b[32m●\x1b[0m"@,
            TimelineStatus::Failed => "\x1b[31m●\x1b[0m"@,
            TimelineStatus::Skipped => "\x1b[34m●\x1b[0m"@,
        }
    }
}

/// Line between two steps.
pub open spec fn pipe_text(no_color: bool) -> Seq<char> {
    if no_color {
        "│"@
    } else {
        "\x1b[34m│\x1b[0m"@
    }
}

/// Each of the lines behind the prefix.
pub open spec fn prefixed(prefix: Seq<char>, list: Seq<Seq<char>>) -> Seq<Seq<char>> {
    list.map_values(|line: Seq<char>| prefix + line)
}

/// Line that tells of a success.
pub open spec fn ok_line(no_color: bool, msg: Seq<char>) -> Seq<char> {
    node_text(no_color, TimelineStatus::Succeeded) + " OK: "@ + msg
}

/// Line that tells of an error.
pub open spec fn error_line(no_color: bool, msg: Seq<char>) -> Seq<char> {
    (if no_color {
        "ERROR: "@
    } else {
        "\x1b[31mERROR\x1b[0m: "@
    }) + msg
}

/// Lines that tell of something.
pub open spec fn info_lines(no_color: bool, msg: Seq<char>) -> Seq<Seq<char>> {
    prefixed(pipe_text(no_color) + " "@, lines(msg))
}

/// Line of a step that succeeded.
pub open spec fn success_line(no_color: bool, msg: Seq<char>) -> Seq<char> {
    node_text(no_color, TimelineStatus::Succeeded) + " "@ + msg
}

/// Lines of the details of a step; the last step has no pipe before them.
pub open spec fn detail_lines(
    no_color: bool,
    item: TimelineItemView,
    last: bool,
) -> Seq<Seq<char>> {
    match item.detail {
        Some(detail) => prefixed(
            (if last {
                " "@
            } else {
                pipe_text(no_color)
            }) + "   "@,
            lines(detail),
        ),
        None => Seq::empty(),
    }
}

/// Lines of a step.
pub open spec fn item_lines(no_color: bool, item: TimelineItemView, last: bool) -> Seq<Seq<char>> {
    let head = seq![node_text(no_color, item.status) + " "@ + item.label];
    let tail = if last {
        Seq::empty()
    } else {
        seq![pipe_text(no_color)]
    };
    head + detail_lines(no_color, item, last) + tail
}

/// Lines of the first `n` steps.
pub open spec fn timeline_lines(no_color: bool, items: Seq<TimelineItemView>, n: int) -> Seq<
    Seq<char>,
>
    decreases n,
{
    if n <= 0 {
        Seq::empty()
    } else {
        timeline_lines(no_color, items, n - 1) + item_lines(
            no_color,
            items[n - 1],
            n == items.len(),
        )
    }
}

fn prefixed_lines(prefix: &str, text: &str) -> (r: Vec<String>)
    ensures
        texts(r@) == prefixed(prefix@, lines(text@)),
{
    let list = text_lines(text);
    let ghost all = prefixed(prefix@, lines(text@));
    let mut out: Vec<String> = Vec::new();
    let mut i: usize = 0;
    assert(texts(out@) =~= all.take(0));
    while i < list.len()
        invariant
            i <= list.len(),
            texts(list@) == lines(text@),
            all == prefixed(prefix@, lines(text@)),
            texts(out@) == all.take(i as int),
        decreases list.len() - i,
    {
        let line = cat2(prefix, list[i].as_str());
        assert(texts(list@)[i as int] == list@[i as int]@);
        push_text(&mut out, line.as_str());
        assert(all.take(i + 1) =~= all.take(i as int).push(line@));
        i += 1;
    }
    assert(all.take(all.len() as int) =~= all);
    out
}

/// Writer of text.
#[derive(Debug)]
pub struct TextPresenter {
    pub no_color: bool,
}

impl TextPresenter {
    /// Line that tells of a success.
    pub fn print_ok(&self, msg: &str) -> (r: String)
        ensures
            r@ == ok_line(self.no_color, msg@),
    {
        cat3(self.timeline_node(TimelineStatus::Succeeded), " OK: ", msg)
    }

    /// Line that tells of an error.
    pub fn print_error(&self, msg: &str) -> (r: String)
        ensures
            r@ == error_line(self.no_color, msg@),
    {
        if self.no_color {
            cat2("ERROR: ", msg)
        } else {
            cat2("\x1b[31mERROR\x1b[0m: ", msg)
        }
    }

    /// Lines that tell of something.
    pub fn print_info(&self, msg: &str) -> (r: Vec<String>)
        ensures
            texts(r@) == info_lines(self.no_color, msg@),
    {
        let prefix = cat2(self.timeline_pipe(), " ");
        prefixed_lines(prefix.as_str(), msg)
    }

    /// Line of a step that succeeded.
    pub fn print_success_item(&self, msg: &str) -> (r: String)
        ensures
            r@ == success_line(self.no_color, msg@),
    {
        cat3(self.timeline_node(TimelineStatus::Succeeded), " ", msg)
    }

    /// Lines of a timeline.
    pub fn print_timeline(&self, items: &Vec<TimelineItem>) -> (r: Vec<String>)
        ensures
            texts(r@) == timeline_lines(self.no_color, views(items@), items@.len() as int),
    {
        let ghost all = views(items@);
        let mut out: Vec<String> = Vec::new();
        let mut i: usize = 0;
        assert(texts(out@) =~= Seq::<Seq<char>>::empty());
        while i < items.len()
            invariant
                i <= items.len(),
                all == views(items@),
                texts(out@) == timeline_lines(self.no_color, all, i as int),
            decreases items.len() - i,
        {
            let last = i + 1 == items.len();
            assert(all[i as int] == items@[i as int]@);
            let own = self.item(&items[i], last);
            push_texts(&mut out, &own);
            i += 1;
        }
        out
    }

    fn item(&self, item: &TimelineItem, last: bool) -> (r: Vec<String>)
        ensures
            texts(r@) == item_lines(self.no_color, item@, last),
    {
        let mut out: Vec<String> = Vec::new();
        let head = cat3(self.timeline_node(item.status), " ", item.label.as_str());
        push_text(&mut out, head.as_str());
        assert(texts(out@) =~= seq![head@]);
        match &item.detail {
            Some(detail) => {
                let base = if last {
                    self.timeline_tail()
                } else {
                    self.timeline_pipe()
                };
                let prefix = cat2(base, "   ");
                let more = prefixed_lines(prefix.as_str(), detail.as_str());
                push_texts(&mut out, &more);
            },
            None => {},
        }
        assert(texts(out@) =~= seq![head@] + detail_lines(self.no_color, item@, last));
        if !last {
            push_text(&mut out, self.timeline_pipe());
        }
        assert(texts(out@) =~= item_lines(self.no_color, item@, last));
        out
    }

    fn timeline_node(&self, status: TimelineStatus) -> (r: &'static str)
        ensures
            r@ == node_text(self.no_color, status),
    {
        if self.no_color {
            "●"
        } else {
            match status {
                TimelineStatus::Succeeded => "\x1b[32m●\x1b[0m",
                TimelineStatus::Failed => "\x1b[31m●\x1b[0m",
                TimelineStatus::Skipped => "\x1b[34m●\x1b[0m",
            }
        }
    }

    fn timeline_pipe(&self) -> (r: &'static str)
        ensures
            r@ == pipe_text(self.no_color),
    {
        if self.no_color {
            "│"
        } else {
            "\x1b[34m│\x1b[0m"
        }
    }

    fn timeline_tail(&self) -> (r: &'static str)
        ensures
            r@ == " "@,
    {
        " "
    }
}

} // verus!
