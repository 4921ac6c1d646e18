//! Output in the format that was asked for.

use vstd::prelude::*;
use crate::output::json::Envelope;
use crate::output::text::{
    error_line, info_lines, ok_line, success_line, timeline_lines, TextPresenter, TimelineItem,
};
use crate::text::{push_text, text_eq, texts, views};

verus! {

/// Whether the output is coloured.
#[derive(Clone, Copy, Debug, PartialEq, Eq, Structural)]
pub enum ColorMode {
    Enabled,
    Disabled,
}

/// Data of an error.
#[derive(Debug, PartialEq, Eq)]
pub struct ErrorMessage {
    pub message: String,
}

/// What is written of an error.
#[derive(Debug, PartialEq, Eq)]
pub enum ErrorOutput {
    /// Envelope for the standard output.
    Json { envelope: Envelope<ErrorMessage> },
    /// Line for the standard error.
    Text { line: String },
}

/// Writer of the output.
#[derive(Debug)]
pub struct Presenter {
    pub format: String,
    pub text: TextPresenter,
}

/// The output is JSON.
pub open spec fn writes_json(p: Presenter) -> bool {
    p.format@ == "json"@
}

/// Lines in text mode; there are none in JSON mode.
pub open spec fn shown(p: Presenter, list: Seq<Seq<char>>) -> Seq<Seq<char>> {
    if writes_json(p) {
        Seq::empty()
    } else {
        list
    }
}

fn nothing() -> (r: Vec<String>)
    ensures
        texts(r@) == Seq::<Seq<char>>::empty(),
{
    let list: Vec<String> = Vec::new();
    assert(texts(list@) =~= Seq::<Seq<char>>::empty());
    list
}

fn one_line(line: String) -> (r: Vec<String>)
    ensures
        texts(r@) == seq![line@],
{
    let mut list: Vec<String> = Vec::new();
    push_text(&mut list, line.as_str());
    assert(texts(list@) =~= seq![line@]);
    list
}

impl Presenter {
    /// Writer for a format.
    pub fn new(format: String, color_mode: ColorMode) -> (r: Self)
        ensures
            r.format == format,
            r.text.no_color == (color_mode == ColorMode::Disabled),
    {
        let no_color = color_mode == ColorMode::Disabled;
        Presenter { format, text: TextPresenter { no_color } }
    }

    /// Whether the output is JSON.
    pub fn is_json(&self) -> (r: bool)
        ensures
            r == writes_json(*self),
    {
        text_eq(self.format.as_str(), "json")
    }

    /// What is written of an error.
    pub fn print_error(&self, msg: &str) -> (r: ErrorOutput)
        ensures
            match r {
                ErrorOutput::Json { envelope } => writes_json(*self) && envelope.is_plain(
                    false,
                    "error"@,
                    0,
                    envelope.data,
                ) && envelope.data.message@ == msg@,
                ErrorOutput::Text { line } => !writes_json(*self) && line@ == error_line(
                    self.text.no_color,
                    msg@,
                ),
            },
    {
        if self.is_json() {
            ErrorOutput::Json {
                envelope: Envelope::err("error", 0, ErrorMessage { message: msg.to_owned() }),
            }
        } else {
            ErrorOutput::Text { line: self.text.print_error(msg) }
        }
    }

    /// Lines that tell of something.
    pub fn print_info(&self, msg: &str) -> (r: Vec<String>)
        ensures
            texts(r@) == shown(*self, info_lines(self.text.no_color, msg@)),
    {
        if self.is_json() {
            nothing()
        } else {
            self.text.print_info(msg)
        }
    }

    /// Lines that tell of a success.
    pub fn print_ok(&self, msg: &str) -> (r: Vec<String>)
        ensures
            texts(r@) == shown(*self, seq![ok_line(self.text.no_color, msg@)]),
    {
        if self.is_json() {
            nothing()
        } else {
            one_line(self.text.print_ok(msg))
        }
    }

    /// Lines of a step that succeeded.
    pub fn print_success_item(&self, msg: &str) -> (r: Vec<String>)
        ensures
            texts(r@) == shown(*self, seq![success_line(self.text.no_color, msg@)]),
    {
        if self.is_json() {
            nothing()
        } else {
            one_line(self.text.print_success_item(msg))
        }
    }

    /// Lines of a timeline.
    pub fn print_timeline(&self, items: &Vec<TimelineItem>) -> (r: Vec<String>)
        ensures
            texts(r@) == shown(
                *self,
                timeline_lines(self.text.no_color, views(items@), items@.len() as int),
            ),
    {
        if self.is_json() {
            nothing()
        } else {
            self.text.print_timeline(items)
        }
    }

    /// The envelope, where it is to be written.
    pub fn print_envelope<'a, T>(&self, envelope: &'a Envelope<T>) -> (r: Option<&'a Envelope<T>>)
        ensures
            r == (if writes_json(*self) {
                Some(envelope)
            } else {
                None
            }),
    {
        if self.is_json() {
            Some(envelope)
        } else {
            None
        }
    }
}

} // verus!
