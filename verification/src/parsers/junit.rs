//! JUnit reports.

use vstd::prelude::*;
use crate::domain::{TestStatus, TestSummary};
use crate::outside::{decode_lossy, lossy_text, open_xml, pending_events, xml_events_of};
use crate::parsers::xml::{
    attribute_value, bytes_spell, first_event, next_event, spells, XmlElement, XmlElementView,
    XmlEvent, XmlEventView,
};
use crate::text::{cat2, clone_opt, is_blank, opt_text, opt_view, trim, trimmed, views};

verus! {

/// Why a report cannot be read.
#[derive(Debug, PartialEq, Eq)]
pub enum JunitError {
    Empty,
    Malformed(String),
}

/// Mathematical value of [`JunitError`].
pub enum JunitErrorView {
    Empty,
    Malformed(Seq<char>),
}

impl View for JunitError {
    type V = JunitErrorView;

    open spec fn view(&self) -> JunitErrorView {
        match *self {
            JunitError::Empty => JunitErrorView::Empty,
            JunitError::Malformed(x0) => JunitErrorView::Malformed(x0@),
        }
    }
}

/// Text shown for an error.
pub open spec fn junit_error_text(error: JunitErrorView) -> Seq<char> {
    match error {
        JunitErrorView::Empty => "junit file is empty or contains no test suites"@,
        JunitErrorView::Malformed(message) => "failed to parse junit xml: "@ + message,
    }
}

impl JunitError {
    /// Text shown to the user.
    pub fn message(&self) -> (r: String)
        ensures
            r@ == junit_error_text(self@),
    {
        match self {
            JunitError::Empty => "junit file is empty or contains no test suites".to_owned(),
            JunitError::Malformed(message) => cat2(
                "failed to parse junit xml: ",
                message.as_str(),
            ),
        }
    }
}

/// Test case of a report. The time is kept as it is written, in seconds.
#[derive(Debug, PartialEq, Eq)]
pub struct JunitCase {
    pub name: String,
    pub class_name: Option<String>,
    pub time: Option<String>,
    pub status: TestStatus,
    pub failure_message: Option<String>,
    pub stack_trace: Option<String>,
}

/// Mathematical value of [`JunitCase`].
pub struct JunitCaseView {
    pub name: Seq<char>,
    pub class_name: Option<Seq<char>>,
    pub time: Option<Seq<char>>,
    pub status: TestStatus,
    pub failure_message: Option<Seq<char>>,
    pub stack_trace: Option<Seq<char>>,
}

impl View for JunitCase {
    type V = JunitCaseView;

    open spec fn view(&self) -> JunitCaseView {
        JunitCaseView {
            name: self.name@,
            class_name: opt_text(self.class_name),
            time: opt_text(self.time),
            status: self.status,
            failure_message: opt_text(self.failure_message),
            stack_trace: opt_text(self.stack_trace),
        }
    }
}

/// Test suite of a report. The time is kept as it is written, in seconds.
#[derive(Debug, PartialEq, Eq)]
pub struct JunitSuite {
    pub name: String,
    pub time: Option<String>,
    pub cases: Vec<JunitCase>,
}

/// Mathematical value of [`JunitSuite`].
pub struct JunitSuiteView {
    pub name: Seq<char>,
    pub time: Option<Seq<char>>,
    pub cases: Seq<JunitCaseView>,
}

impl View for JunitSuite {
    type V = JunitSuiteView;

    open spec fn view(&self) -> JunitSuiteView {
        JunitSuiteView {
            name: self.name@,
            time: opt_text(self.time),
            cases: views(self.cases@),
        }
    }
}

/// Report.
#[derive(Debug, PartialEq, Eq)]
pub struct JunitReport {
    pub summary: TestSummary,
    pub suites: Vec<JunitSuite>,
}

/// Mathematical value of [`JunitReport`].
pub struct JunitReportView {
    pub summary: TestSummary,
    pub suites: Seq<JunitSuiteView>,
}

impl View for JunitReport {
    type V = JunitReportView;

    open spec fn view(&self) -> JunitReportView {
        JunitReportView {
            summary: self.summary,
            suites: views(self.suites@),
        }
    }
}

// ---------------------------------------------------------------------------------------------
// State of the reader

/// Element whose text is being read.
#[derive(Clone, Copy, Debug, PartialEq, Eq, Structural)]
pub enum Verdict {
    Failure,
    Error,
    Skipped,
}

/// Name of the element.
pub open spec fn verdict_tag(verdict: Verdict) -> Seq<char> {
    match verdict {
        Verdict::Failure => "failure"@,
        Verdict::Error => "error"@,
        Verdict::Skipped => "skipped"@,
    }
}

/// Status that the element gives its test case.
pub open spec fn verdict_status(verdict: Verdict) -> TestStatus {
    match verdict {
        Verdict::Failure => TestStatus::Failed,
        Verdict::Error => TestStatus::Error,
        Verdict::Skipped => TestStatus::Skipped,
    }
}

impl Verdict {
    fn tag(self) -> (r: &'static str)
        ensures
            r@ == verdict_tag(self),
    {
        match self {
            Verdict::Failure => "failure",
            Verdict::Error => "error",
            Verdict::Skipped => "skipped",
        }
    }

    fn status(self) -> (r: TestStatus)
        ensures
            r == verdict_status(self),
    {
        match self {
            Verdict::Failure => TestStatus::Failed,
            Verdict::Error => TestStatus::Error,
            Verdict::Skipped => TestStatus::Skipped,
        }
    }
}

/// Text that is being read.
#[derive(Debug, PartialEq, Eq)]
pub struct Capture {
    pub verdict: Verdict,
    pub message: Option<String>,
    pub content: String,
}

/// Mathematical value of [`Capture`].
pub struct CaptureView {
    pub verdict: Verdict,
    pub message: Option<Seq<char>>,
    pub content: Seq<char>,
}

impl View for Capture {
    type V = CaptureView;

    open spec fn view(&self) -> CaptureView {
        CaptureView {
            verdict: self.verdict,
            message: opt_text(self.message),
            content: self.content@,
        }
    }
}

/// How far a report has been read.
#[derive(Debug, PartialEq, Eq)]
pub struct JunitState {
    pub suites: Vec<JunitSuite>,
    pub open: Vec<JunitSuite>,
    pub case: Option<JunitCase>,
    pub capture: Option<Capture>,
}

/// Mathematical value of [`JunitState`].
pub struct JunitStateView {
    pub suites: Seq<JunitSuiteView>,
    pub open: Seq<JunitSuiteView>,
    pub case: Option<JunitCaseView>,
    pub capture: Option<CaptureView>,
}

impl View for JunitState {
    type V = JunitStateView;

    open spec fn view(&self) -> JunitStateView {
        JunitStateView {
            suites: views(self.suites@),
            open: views(self.open@),
            case: opt_view(self.case),
            capture: opt_view(self.capture),
        }
    }
}

/// Nothing has been read.
pub open spec fn fresh_state() -> JunitStateView {
    JunitStateView { suites: Seq::empty(), open: Seq::empty(), case: None, capture: None }
}

/// What an event leads to.
pub enum JunitStepView {
    Next(JunitStateView),
    Done,
    Fail(JunitErrorView),
}

/// Value of an attribute, absent where it is empty.
pub open spec fn text_attribute(element: XmlElementView, name: Seq<char>) -> Option<Seq<char>> {
    match attribute_value(element.attributes, name) {
        Some(value) => if lossy_text(value).len() == 0 {
            None
        } else {
            Some(lossy_text(value))
        },
        None => None,
    }
}

/// The text, or an empty one.
pub open spec fn or_empty(text: Option<Seq<char>>) -> Seq<char> {
    match text {
        Some(t) => t,
        None => Seq::empty(),
    }
}

/// Trimmed text, absent where it is blank.
pub open spec fn non_blank(text: Seq<char>) -> Option<Seq<char>> {
    if is_blank(text) {
        None
    } else {
        Some(trim(text))
    }
}

/// Suite of a tag, without cases.
pub open spec fn suite_of(element: XmlElementView) -> JunitSuiteView {
    JunitSuiteView {
        name: or_empty(text_attribute(element, "name"@)),
        time: text_attribute(element, "time"@),
        cases: Seq::empty(),
    }
}

/// Case of a tag, passed.
pub open spec fn case_of(element: XmlElementView) -> JunitCaseView {
    JunitCaseView {
        name: or_empty(text_attribute(element, "name"@)),
        class_name: text_attribute(element, "classname"@),
        time: text_attribute(element, "time"@),
        status: TestStatus::Passed,
        failure_message: None,
        stack_trace: None,
    }
}

/// The open suites with the case in the innermost one; without an open suite the case is lost.
pub open spec fn with_case(open: Seq<JunitSuiteView>, case: JunitCaseView) -> Seq<JunitSuiteView> {
    if open.len() == 0 {
        open
    } else {
        open.drop_last().push(
            JunitSuiteView { cases: open.last().cases.push(case), ..open.last() },
        )
    }
}

/// Verdict that a tag gives, by its name.
pub open spec fn verdict_of(name: Seq<u8>) -> Option<Verdict> {
    if spells(name, "failure"@) {
        Some(Verdict::Failure)
    } else if spells(name, "error"@) {
        Some(Verdict::Error)
    } else if spells(name, "skipped"@) {
        Some(Verdict::Skipped)
    } else {
        None
    }
}

/// Case after an empty element of the verdict.
pub open spec fn judged_empty(
    case: JunitCaseView,
    verdict: Verdict,
    element: XmlElementView,
) -> JunitCaseView {
    if verdict is Skipped {
        JunitCaseView { status: TestStatus::Skipped, ..case }
    } else {
        JunitCaseView {
            status: verdict_status(verdict),
            failure_message: text_attribute(element, "message"@),
            stack_trace: None,
            ..case
        }
    }
}

/// Case after an element of the verdict with its text.
pub open spec fn judged(case: JunitCaseView, capture: CaptureView) -> JunitCaseView {
    if capture.verdict is Skipped {
        JunitCaseView { status: TestStatus::Skipped, ..case }
    } else {
        JunitCaseView {
            status: verdict_status(capture.verdict),
            failure_message: match capture.message {
                Some(m) => Some(m),
                None => non_blank(capture.content),
            },
            stack_trace: non_blank(capture.content),
            ..case
        }
    }
}

/// What an event leads to while text is being read: text is gathered up to the end of the element.
pub open spec fn capture_step(
    s: JunitStateView,
    capture: CaptureView,
    event: XmlEventView,
) -> JunitStepView {
    match event {
        XmlEventView::Text(bytes) => JunitStepView::Next(
            JunitStateView {
                capture: Some(
                    CaptureView { content: capture.content + lossy_text(bytes), ..capture },
                ),
                ..s
            },
        ),
        XmlEventView::CData(bytes) => JunitStepView::Next(
            JunitStateView {
                capture: Some(
                    CaptureView { content: capture.content + lossy_text(bytes), ..capture },
                ),
                ..s
            },
        ),
        XmlEventView::End(name) => if spells(name, verdict_tag(capture.verdict)) {
            JunitStepView::Next(
                JunitStateView {
                    case: match s.case {
                        Some(case) => Some(judged(case, capture)),
                        None => None,
                    },
                    capture: None,
                    ..s
                },
            )
        } else {
            JunitStepView::Next(s)
        },
        XmlEventView::Eof => JunitStepView::Fail(
            JunitErrorView::Malformed("unexpected eof while reading element text"@),
        ),
        _ => JunitStepView::Next(s),
    }
}

/// What a start tag leads to.
pub open spec fn start_step(s: JunitStateView, element: XmlElementView) -> JunitStateView {
    if spells(element.name, "testsuite"@) {
        JunitStateView { open: s.open.push(suite_of(element)), ..s }
    } else if spells(element.name, "testcase"@) {
        JunitStateView { case: Some(case_of(element)), ..s }
    } else if verdict_of(element.name) is Some && s.case is Some {
        JunitStateView {
            capture: Some(
                CaptureView {
                    verdict: verdict_of(element.name)->0,
                    message: text_attribute(element, "message"@),
                    content: Seq::empty(),
                },
            ),
            ..s
        }
    } else {
        s
    }
}

/// What an empty element leads to.
pub open spec fn empty_step(s: JunitStateView, element: XmlElementView) -> JunitStateView {
    if spells(element.name, "testcase"@) {
        JunitStateView { open: with_case(s.open, case_of(element)), ..s }
    } else if verdict_of(element.name) is Some && s.case is Some {
        JunitStateView {
            case: Some(judged_empty(s.case->0, verdict_of(element.name)->0, element)),
            ..s
        }
    } else {
        s
    }
}

/// What an end tag leads to.
pub open spec fn end_step(s: JunitStateView, name: Seq<u8>) -> JunitStateView {
    if spells(name, "testsuite"@) {
        if s.open.len() == 0 {
            s
        } else {
            JunitStateView {
                suites: s.suites.push(s.open.last()),
                open: s.open.drop_last(),
                ..s
            }
        }
    } else if spells(name, "testcase"@) {
        JunitStateView {
            open: match s.case {
                Some(case) => with_case(s.open, case),
                None => s.open,
            },
            case: None,
            ..s
        }
    } else {
        s
    }
}

/// What an event leads to.
pub open spec fn junit_step(s: JunitStateView, event: XmlEventView) -> JunitStepView {
    match s.capture {
        Some(capture) => capture_step(s, capture, event),
        None => match event {
            XmlEventView::Start(element) => JunitStepView::Next(start_step(s, element)),
            XmlEventView::Empty(element) => JunitStepView::Next(empty_step(s, element)),
            XmlEventView::End(name) => JunitStepView::Next(end_step(s, name)),
            XmlEventView::Eof => if s.open.len() > 0 || s.case is Some {
                JunitStepView::Fail(
                    JunitErrorView::Malformed("unexpected eof while parsing junit xml"@),
                )
            } else {
                JunitStepView::Done
            },
            _ => JunitStepView::Next(s),
        },
    }
}

/// Suites that the events make up; after the last event comes the end of the document.
pub open spec fn suites_of(
    s: JunitStateView,
    events: Seq<Result<XmlEventView, Seq<char>>>,
) -> Result<Seq<JunitSuiteView>, JunitErrorView>
    decreases events.len(),
{
    match first_event(events) {
        Err(message) => Err(JunitErrorView::Malformed(message)),
        Ok(event) => match junit_step(s, event) {
            JunitStepView::Fail(error) => Err(error),
            JunitStepView::Done => Ok(s.suites),
            JunitStepView::Next(next) => if events.len() == 0 {
                Ok(s.suites)
            } else {
                suites_of(next, events.skip(1))
            },
        },
    }
}

/// Number of cases of the status in the first `n` of the cases.
pub open spec fn count_in_suite(cases: Seq<JunitCaseView>, status: TestStatus, n: int) -> nat
    decreases n,
{
    if n <= 0 {
        0
    } else {
        count_in_suite(cases, status, n - 1) + (if cases[n - 1].status == status {
            1nat
        } else {
            0
        })
    }
}

/// Number of cases of the status in the first `n` suites.
pub open spec fn count_status(suites: Seq<JunitSuiteView>, status: TestStatus, n: int) -> nat
    decreases n,
{
    if n <= 0 {
        0
    } else {
        count_status(suites, status, n - 1) + count_in_suite(
            suites[n - 1].cases,
            status,
            suites[n - 1].cases.len() as int,
        )
    }
}

/// Number of cases in the first `n` suites.
pub open spec fn count_cases(suites: Seq<JunitSuiteView>, n: int) -> nat
    decreases n,
{
    if n <= 0 {
        0
    } else {
        count_cases(suites, n - 1) + suites[n - 1].cases.len()
    }
}

/// The number, or the largest that a machine word holds.
pub open spec fn capped(n: nat) -> usize {
    if n > usize::MAX {
        usize::MAX
    } else {
        n as usize
    }
}

/// Summary of the suites.
pub open spec fn summary_of(suites: Seq<JunitSuiteView>) -> TestSummary {
    let n = suites.len() as int;
    TestSummary {
        total: capped(count_cases(suites, n)),
        passed: capped(count_status(suites, TestStatus::Passed, n)),
        failed: capped(count_status(suites, TestStatus::Failed, n)),
        skipped: capped(count_status(suites, TestStatus::Skipped, n)),
        errors: capped(count_status(suites, TestStatus::Error, n)),
    }
}

/// Report of the suites; one without any case is empty.
pub open spec fn report_of_suites(suites: Seq<JunitSuiteView>) -> Result<
    JunitReportView,
    JunitErrorView,
> {
    if count_cases(suites, suites.len() as int) == 0 {
        Err(JunitErrorView::Empty)
    } else {
        Ok(JunitReportView { summary: summary_of(suites), suites })
    }
}

/// Report that the events of a document make up.
pub open spec fn report_of_events(events: Seq<Result<XmlEventView, Seq<char>>>) -> Result<
    JunitReportView,
    JunitErrorView,
> {
    match suites_of(fresh_state(), events) {
        Ok(suites) => report_of_suites(suites),
        Err(error) => Err(error),
    }
}

// ---------------------------------------------------------------------------------------------
// Reading

fn text_attribute_of(element: &XmlElement, name: &str) -> (r: Option<String>)
    ensures
        opt_text(r) == text_attribute(element@, name@),
{
    match element.attribute(name) {
        Some(value) => {
            let text = decode_lossy(value);
            if text.as_str().is_empty() {
                None
            } else {
                Some(text)
            }
        },
        None => None,
    }
}

fn text_or_empty(text: Option<String>) -> (r: String)
    ensures
        r@ == or_empty(opt_text(text)),
{
    match text {
        Some(t) => t,
        None => String::new(),
    }
}

fn non_empty(text: &str) -> (r: Option<String>)
    ensures
        opt_text(r) == non_blank(text@),
{
    let t = trimmed(text);
    if t.as_str().is_empty() {
        None
    } else {
        Some(t)
    }
}

fn make_suite(element: &XmlElement) -> (r: JunitSuite)
    ensures
        r@ == suite_of(element@),
{
    let cases: Vec<JunitCase> = Vec::new();
    assert(views(cases@) =~= Seq::<JunitCaseView>::empty());
    JunitSuite {
        name: text_or_empty(text_attribute_of(element, "name")),
        time: text_attribute_of(element, "time"),
        cases,
    }
}

fn make_case(element: &XmlElement) -> (r: JunitCase)
    ensures
        r@ == case_of(element@),
{
    JunitCase {
        name: text_or_empty(text_attribute_of(element, "name")),
        class_name: text_attribute_of(element, "classname"),
        time: text_attribute_of(element, "time"),
        status: TestStatus::Passed,
        failure_message: None,
        stack_trace: None,
    }
}

fn add_case(open: &mut Vec<JunitSuite>, case: JunitCase)
    ensures
        views(final(open)@) == with_case(views(old(open)@), case@),
{
    let ghost before = views(open@);
    if let Some(mut suite) = open.pop() {
        let ghost inner = suite@;
        let ghost cases = views(suite.cases@);
        suite.cases.push(case);
        assert(views(suite.cases@) =~= cases.push(case@));
        open.push(suite);
        proof {
            assert(before.last() == inner);
            assert(views(open@) =~= before.drop_last().push(
                JunitSuiteView { cases: cases.push(case@), ..inner },
            ));
        }
    }
}

fn tag_verdict(name: &Vec<u8>) -> (r: Option<Verdict>)
    ensures
        r == verdict_of(name@),
{
    if bytes_spell(name, "failure") {
        Some(Verdict::Failure)
    } else if bytes_spell(name, "error") {
        Some(Verdict::Error)
    } else if bytes_spell(name, "skipped") {
        Some(Verdict::Skipped)
    } else {
        None
    }
}

/// What an event leads to.
#[derive(Debug, PartialEq, Eq)]
pub enum JunitStep {
    Next,
    Done,
    Fail(JunitError),
}

impl JunitState {
    /// Nothing has been read.
    pub fn new() -> (r: Self)
        ensures
            r@ == fresh_state(),
    {
        let suites: Vec<JunitSuite> = Vec::new();
        let open: Vec<JunitSuite> = Vec::new();
        assert(views(suites@) =~= Seq::<JunitSuiteView>::empty());
        assert(views(open@) =~= Seq::<JunitSuiteView>::empty());
        JunitState { suites, open, case: None, capture: None }
    }

    fn take_captured(&mut self, event: &XmlEvent) -> (r: JunitStep)
        requires
            old(self)@.capture is Some,
        ensures
            match r {
                JunitStep::Next => capture_step(old(self)@, old(self)@.capture->0, event@)
                    == JunitStepView::Next(final(self)@),
                JunitStep::Done => false,
                JunitStep::Fail(e) => capture_step(old(self)@, old(self)@.capture->0, event@)
                    == JunitStepView::Fail(e@),
            },
    {
        let mut capture = match self.capture.take() {
            Some(capture) => capture,
            None => {
                return JunitStep::Done;
            },
        };
        match event {
            XmlEvent::Text(bytes) => {
                capture.content.append(decode_lossy(bytes).as_str());
            },
            XmlEvent::CData(bytes) => {
                capture.content.append(decode_lossy(bytes).as_str());
            },
            XmlEvent::End(name) => {
                if bytes_spell(name, capture.verdict.tag()) {
                    if let Some(mut case) = self.case.take() {
                        case.status = capture.verdict.status();
                        if capture.verdict != Verdict::Skipped {
                            case.failure_message = match clone_opt(&capture.message) {
                                Some(message) => Some(message),
                                None => non_empty(capture.content.as_str()),
                            };
                            case.stack_trace = non_empty(capture.content.as_str());
                        }
                        self.case = Some(case);
                    }
                    return JunitStep::Next;
                }
            },
            XmlEvent::Eof => {
                return JunitStep::Fail(
                    JunitError::Malformed("unexpected eof while reading element text".to_owned()),
                );
            },
            _ => {},
        }
        self.capture = Some(capture);
        JunitStep::Next
    }

    fn take_start(&mut self, element: &XmlElement)
        requires
            old(self)@.capture is None,
        ensures
            final(self)@ == start_step(old(self)@, element@),
    {
        let ghost before = views(self.open@);
        if bytes_spell(&element.name, "testsuite") {
            let suite = make_suite(element);
            self.open.push(suite);
            assert(views(self.open@) =~= before.push(suite@));
        } else if bytes_spell(&element.name, "testcase") {
            self.case = Some(make_case(element));
        } else if let Some(verdict) = tag_verdict(&element.name) {
            if self.case.is_some() {
                self.capture = Some(
                    Capture {
                        verdict,
                        message: text_attribute_of(element, "message"),
                        content: String::new(),
                    },
                );
            }
        }
    }

    fn take_empty(&mut self, element: &XmlElement)
        requires
            old(self)@.capture is None,
        ensures
            final(self)@ == empty_step(old(self)@, element@),
    {
        if bytes_spell(&element.name, "testcase") {
            add_case(&mut self.open, make_case(element));
        } else if let Some(verdict) = tag_verdict(&element.name) {
            if let Some(mut case) = self.case.take() {
                case.status = verdict.status();
                if verdict != Verdict::Skipped {
                    case.failure_message = text_attribute_of(element, "message");
                    case.stack_trace = None;
                }
                self.case = Some(case);
            }
        }
    }

    fn take_end(&mut self, name: &Vec<u8>)
        requires
            old(self)@.capture is None,
        ensures
            final(self)@ == end_step(old(self)@, name@),
    {
        let ghost open = views(self.open@);
        let ghost suites = views(self.suites@);
        if bytes_spell(name, "testsuite") {
            if let Some(suite) = self.open.pop() {
                assert(suite@ == open.last());
                self.suites.push(suite);
                assert(views(self.open@) =~= open.drop_last());
                assert(views(self.suites@) =~= suites.push(suite@));
            }
        } else if bytes_spell(name, "testcase") {
            if let Some(case) = self.case.take() {
                add_case(&mut self.open, case);
            }
        }
    }

    /// Takes the next event of the document.
    pub fn take(&mut self, event: &XmlEvent) -> (r: JunitStep)
        ensures
            match r {
                JunitStep::Next => junit_step(old(self)@, event@) == JunitStepView::Next(
                    final(self)@,
                ),
                JunitStep::Done => junit_step(old(self)@, event@) == JunitStepView::Done
                    && *final(self) == *old(self),
                JunitStep::Fail(e) => junit_step(old(self)@, event@) == JunitStepView::Fail(e@),
            },
    {
        if self.capture.is_some() {
            return self.take_captured(event);
        }
        match event {
            XmlEvent::Start(element) => self.take_start(element),
            XmlEvent::Empty(element) => self.take_empty(element),
            XmlEvent::End(name) => self.take_end(name),
            XmlEvent::Eof => {
                if self.open.len() > 0 || self.case.is_some() {
                    return JunitStep::Fail(
                        JunitError::Malformed("unexpected eof while parsing junit xml".to_owned()),
                    );
                }
                return JunitStep::Done;
            },
            _ => {},
        }
        JunitStep::Next
    }
}

fn cap(n: u128) -> (r: usize)
    ensures
        r == capped(n as nat),
{
    if n > usize::MAX as u128 {
        usize::MAX
    } else {
        n as usize
    }
}

/// Summary of the suites.
pub fn summarize(suites: &Vec<JunitSuite>) -> (r: TestSummary)
    ensures
        r == summary_of(views(suites@)),
{
    let ghost all = views(suites@);
    let mut total: u128 = 0;
    let mut passed: u128 = 0;
    let mut failed: u128 = 0;
    let mut skipped: u128 = 0;
    let mut errors: u128 = 0;
    let mut i: usize = 0;
    while i < suites.len()
        invariant
            i <= suites.len(),
            all == views(suites@),
            total == count_cases(all, i as int),
            passed == count_status(all, TestStatus::Passed, i as int),
            failed == count_status(all, TestStatus::Failed, i as int),
            skipped == count_status(all, TestStatus::Skipped, i as int),
            errors == count_status(all, TestStatus::Error, i as int),
            passed + failed + skipped + errors == total,
            total <= i * usize::MAX,
        decreases suites.len() - i,
    {
        let cases = &suites[i].cases;
        let ghost inner = views(cases@);
        assert(all[i as int] == suites@[i as int]@);
        assert(inner.len() == cases@.len());
        assert(cases@.len() <= usize::MAX) by {
            assert(cases.len() <= usize::MAX);
        }
        let ghost before = total;
        let ghost p0 = passed;
        let ghost f0 = failed;
        let ghost s0 = skipped;
        let ghost e0 = errors;
        assert(i * usize::MAX + usize::MAX <= u128::MAX) by (nonlinear_arith)
            requires
                i <= usize::MAX,
                usize::MAX <= 0xffff_ffff_ffff_ffff,
        ;
        let mut k: usize = 0;
        while k < cases.len()
            invariant
                k <= cases.len(),
                inner == views(cases@),
                total == before + k,
                before + cases.len() <= u128::MAX,
                passed == p0 + count_in_suite(inner, TestStatus::Passed, k as int),
                failed == f0 + count_in_suite(inner, TestStatus::Failed, k as int),
                skipped == s0 + count_in_suite(inner, TestStatus::Skipped, k as int),
                errors == e0 + count_in_suite(inner, TestStatus::Error, k as int),
                passed + failed + skipped + errors == total,
            decreases cases.len() - k,
        {
            assert(inner[k as int] == cases@[k as int]@);
            total = total + 1;
            match cases[k].status {
                TestStatus::Passed => {
                    passed = passed + 1;
                },
                TestStatus::Failed => {
                    failed = failed + 1;
                },
                TestStatus::Skipped => {
                    skipped = skipped + 1;
                },
                TestStatus::Error => {
                    errors = errors + 1;
                },
            }
            k += 1;
        }
        assert((i + 1) * usize::MAX == i * usize::MAX + usize::MAX) by (nonlinear_arith);
        i += 1;
    }
    TestSummary {
        total: cap(total),
        passed: cap(passed),
        failed: cap(failed),
        skipped: cap(skipped),
        errors: cap(errors),
    }
}

/// Mathematical value of what reading a report gives.
pub open spec fn report_result_view(result: Result<JunitReport, JunitError>) -> Result<
    JunitReportView,
    JunitErrorView,
> {
    match result {
        Ok(report) => Ok(report@),
        Err(error) => Err(error@),
    }
}

/// Report of the suites.
pub fn conclude(suites: Vec<JunitSuite>) -> (r: Result<JunitReport, JunitError>)
    ensures
        report_result_view(r) == report_of_suites(views(suites@)),
{
    let summary = summarize(&suites);
    if summary.total == 0 {
        return Err(JunitError::Empty);
    }
    Ok(JunitReport { summary, suites })
}

/// Report that the events of a document make up.
pub fn parse_events(events: &Vec<XmlEvent>) -> (r: Result<JunitReport, JunitError>)
    ensures
        report_result_view(r) == report_of_events(
            views(events@).map_values(|e: XmlEventView| Ok::<XmlEventView, Seq<char>>(e)),
        ),
{
    let ghost all = views(events@).map_values(
        |e: XmlEventView| Ok::<XmlEventView, Seq<char>>(e),
    );
    let mut state = JunitState::new();
    let mut i: usize = 0;
    assert(all.skip(0) =~= all);
    while i < events.len()
        invariant
            i <= events.len(),
            all == views(events@).map_values(|e: XmlEventView| Ok::<XmlEventView, Seq<char>>(e)),
            suites_of(fresh_state(), all) == suites_of(state@, all.skip(i as int)),
        decreases events.len() - i,
    {
        let ghost rest = all.skip(i as int);
        assert(rest[0] == Ok::<XmlEventView, Seq<char>>(events@[i as int]@));
        assert(rest.skip(1) =~= all.skip(i + 1));
        match state.take(&events[i]) {
            JunitStep::Next => {},
            JunitStep::Done => {
                return conclude(state.suites);
            },
            JunitStep::Fail(error) => {
                return Err(error);
            },
        }
        i += 1;
    }
    match state.take(&XmlEvent::Eof) {
        JunitStep::Fail(error) => Err(error),
        _ => conclude(state.suites),
    }
}

/// Report that the bytes hold.
pub fn parse(bytes: &Vec<u8>) -> (r: Result<JunitReport, JunitError>)
    ensures
        report_result_view(r) == report_of_events(xml_events_of(bytes@)),
{
    let ghost all = xml_events_of(bytes@);
    let mut reader = open_xml(bytes);
    let mut state = JunitState::new();
    loop
        invariant
            all == xml_events_of(bytes@),
            suites_of(fresh_state(), all) == suites_of(state@, pending_events(reader)),
        decreases pending_events(reader).len(),
    {
        let ghost pending = pending_events(reader);
        let event = match next_event(&mut reader) {
            Ok(event) => event,
            Err(message) => {
                return Err(JunitError::Malformed(message));
            },
        };
        match state.take(&event) {
            JunitStep::Next => {
                assert(pending.len() > 0);
            },
            JunitStep::Done => {
                return conclude(state.suites);
            },
            JunitStep::Fail(error) => {
                return Err(error);
            },
        }
    }
}

// ---------------------------------------------------------------------------------------------
// Laws

proof fn lemma_suite_counts(cases: Seq<JunitCaseView>, n: int)
    requires
        0 <= n <= cases.len(),
    ensures
        count_in_suite(cases, TestStatus::Passed, n) + count_in_suite(
            cases,
            TestStatus::Failed,
            n,
        ) + count_in_suite(cases, TestStatus::Skipped, n) + count_in_suite(
            cases,
            TestStatus::Error,
            n,
        ) == n,
    decreases n,
{
    if n > 0 {
        lemma_suite_counts(cases, n - 1);
    }
}

/// Every case is counted once: the four statuses together make up all cases.
pub proof fn every_case_is_counted_once(suites: Seq<JunitSuiteView>, n: int)
    requires
        0 <= n <= suites.len(),
    ensures
        count_status(suites, TestStatus::Passed, n) + count_status(suites, TestStatus::Failed, n)
            + count_status(suites, TestStatus::Skipped, n) + count_status(
            suites,
            TestStatus::Error,
            n,
        ) == count_cases(suites, n),
    decreases n,
{
    if n > 0 {
        every_case_is_counted_once(suites, n - 1);
        lemma_suite_counts(suites[n - 1].cases, suites[n - 1].cases.len() as int);
    }
}

/// The figures of a report add up to its total, as long as a machine word holds it.
pub proof fn summary_adds_up(suites: Seq<JunitSuiteView>)
    requires
        count_cases(suites, suites.len() as int) <= usize::MAX,
    ensures
        summary_of(suites).total == summary_of(suites).passed + summary_of(suites).failed
            + summary_of(suites).skipped + summary_of(suites).errors,
        summary_of(suites).total == count_cases(suites, suites.len() as int),
{
    every_case_is_counted_once(suites, suites.len() as int);
}

/// A document that ends inside a suite, a case or a verdict is malformed, never a report.
pub proof fn truncated_report_is_refused(s: JunitStateView)
    requires
        s.open.len() > 0 || s.case is Some || s.capture is Some,
    ensures
        suites_of(s, Seq::empty()) is Err,
        suites_of(s, Seq::empty())->Err_0 is Malformed,
{
}

/// Events after the end of the document change nothing.
pub proof fn nothing_counts_after_the_end(
    s: JunitStateView,
    more: Seq<Result<XmlEventView, Seq<char>>>,
)
    ensures
        suites_of(s, seq![Ok::<XmlEventView, Seq<char>>(XmlEventView::Eof)] + more) == suites_of(
            s,
            Seq::empty(),
        ),
{
    let events = seq![Ok::<XmlEventView, Seq<char>>(XmlEventView::Eof)] + more;
    assert(events[0] == Ok::<XmlEventView, Seq<char>>(XmlEventView::Eof));
}

} // verus!
