//! Laws of JUnit reports: what a document of suites, cases and their outcomes reads as.

use vstd::prelude::*;
use vstd::utf8::encode_utf8;
use crate::domain::{TestStatus, TestSummary};
use crate::outside::lossy_text;
use crate::parsers::junit::{
    case_of, count_cases, count_in_suite, count_status, fresh_state, junit_step, or_empty,
    report_of_events, report_of_suites, suite_of, suites_of, summary_of, text_attribute,
    verdict_of, CaptureView, JunitCaseView, JunitErrorView, JunitReportView, JunitStateView,
    JunitStepView, JunitSuiteView,
};
use crate::parsers::xml::{first_event, XmlAttributeView, XmlElementView, XmlEventView};
use crate::text::{is_blank, trim};

verus! {

// ---------------------------------------------------------------------------------------------
// Documents

/// Outcome of a case as it is written: an element with pieces of text, or an empty one.
pub struct OutcomeText {
    pub tag: XmlElementView,
    pub pieces: Option<Seq<XmlEventView>>,
}

/// Case as it is written: with an outcome, or without one, and then as an empty element or not.
pub struct CaseText {
    pub tag: XmlElementView,
    pub outcome: Option<OutcomeText>,
    pub is_empty_element: bool,
}

/// Suite as it is written.
pub struct SuiteText {
    pub tag: XmlElementView,
    pub cases: Seq<CaseText>,
}

/// The tag is that of a failure, an error or a skipped test.
pub open spec fn tells_outcome(tag: XmlElementView) -> bool {
    tag.name == encode_utf8("failure"@) || tag.name == encode_utf8("error"@) || tag.name
        == encode_utf8("skipped"@)
}

/// The event is a piece of text.
pub open spec fn is_text(event: XmlEventView) -> bool {
    event is Text || event is CData
}

/// The case is well-formed.
pub open spec fn is_case(case: CaseText) -> bool {
    &&& case.tag.name == encode_utf8("testcase"@)
    &&& match case.outcome {
        None => true,
        Some(outcome) => tells_outcome(outcome.tag) && match outcome.pieces {
            Some(pieces) => forall|i: int| 0 <= i < pieces.len() ==> is_text(#[trigger] pieces[i]),
            None => true,
        },
    }
}

/// The suite is well-formed.
pub open spec fn is_suite(suite: SuiteText) -> bool {
    &&& suite.tag.name == encode_utf8("testsuite"@)
    &&& forall|i: int| 0 <= i < suite.cases.len() ==> is_case(#[trigger] suite.cases[i])
}

/// Events of an outcome.
pub open spec fn outcome_events(outcome: OutcomeText) -> Seq<XmlEventView> {
    match outcome.pieces {
        Some(pieces) => seq![XmlEventView::Start(outcome.tag)] + pieces + seq![
            XmlEventView::End(outcome.tag.name),
        ],
        None => seq![XmlEventView::Empty(outcome.tag)],
    }
}

/// Events of a case.
pub open spec fn case_events(case: CaseText) -> Seq<XmlEventView> {
    match case.outcome {
        Some(outcome) => seq![XmlEventView::Start(case.tag)] + outcome_events(outcome) + seq![
            XmlEventView::End(case.tag.name),
        ],
        None => if case.is_empty_element {
            seq![XmlEventView::Empty(case.tag)]
        } else {
            seq![XmlEventView::Start(case.tag), XmlEventView::End(case.tag.name)]
        },
    }
}

/// Events of the first `n` cases.
pub open spec fn cases_events(cases: Seq<CaseText>, n: int) -> Seq<XmlEventView>
    decreases n,
{
    if n <= 0 {
        Seq::empty()
    } else {
        cases_events(cases, n - 1) + case_events(cases[n - 1])
    }
}

/// Events of a suite.
pub open spec fn suite_events(suite: SuiteText) -> Seq<XmlEventView> {
    seq![XmlEventView::Start(suite.tag)] + cases_events(suite.cases, suite.cases.len() as int)
        + seq![XmlEventView::End(suite.tag.name)]
}

/// Events of the first `n` suites.
pub open spec fn suites_events(suites: Seq<SuiteText>, n: int) -> Seq<XmlEventView>
    decreases n,
{
    if n <= 0 {
        Seq::empty()
    } else {
        suites_events(suites, n - 1) + suite_events(suites[n - 1])
    }
}

/// Text that pieces make up.
pub open spec fn text_of(pieces: Seq<XmlEventView>) -> Seq<char>
    decreases pieces.len(),
{
    if pieces.len() == 0 {
        Seq::empty()
    } else {
        text_of(pieces.drop_last()) + lossy_text(
            match pieces.last() {
                XmlEventView::Text(bytes) => bytes,
                XmlEventView::CData(bytes) => bytes,
                _ => Seq::empty(),
            },
        )
    }
}

/// Text of an outcome.
pub open spec fn outcome_text(outcome: OutcomeText) -> Seq<char> {
    match outcome.pieces {
        Some(pieces) => text_of(pieces),
        None => Seq::empty(),
    }
}

/// The case reads as it is written. Its status is that of its outcome: without one it passed. A
/// failure or an error has the message of its tag, or else its text, and its text as the stack
/// trace, both without white space around them and absent where there is nothing else.
pub open spec fn reads_as(written: CaseText, case: JunitCaseView) -> bool {
    &&& case.name == or_empty(text_attribute(written.tag, "name"@))
    &&& case.class_name == text_attribute(written.tag, "classname"@)
    &&& case.time == text_attribute(written.tag, "time"@)
    &&& match written.outcome {
        None => case.status == TestStatus::Passed && case.failure_message is None
            && case.stack_trace is None,
        Some(outcome) => {
            let text = outcome_text(outcome);
            let message = text_attribute(outcome.tag, "message"@);
            &&& outcome.tag.name == encode_utf8("failure"@) ==> case.status == TestStatus::Failed
            &&& outcome.tag.name == encode_utf8("error"@) ==> case.status == TestStatus::Error
            &&& outcome.tag.name == encode_utf8("skipped"@) ==> case.status == TestStatus::Skipped
                && case.failure_message is None && case.stack_trace is None
            &&& outcome.tag.name != encode_utf8("skipped"@) ==> {
                &&& message is Some ==> case.failure_message == message
                &&& message is None && !is_blank(text) ==> case.failure_message == Some(trim(text))
                &&& message is None && is_blank(text) ==> case.failure_message is None
                &&& !is_blank(text) ==> case.stack_trace == Some(trim(text))
                &&& is_blank(text) ==> case.stack_trace is None
            }
        },
    }
}

/// The suite reads as it is written, with its cases in their order.
pub open spec fn suite_reads_as(written: SuiteText, suite: JunitSuiteView) -> bool {
    &&& suite.name == or_empty(text_attribute(written.tag, "name"@))
    &&& suite.time == text_attribute(written.tag, "time"@)
    &&& suite.cases.len() == written.cases.len()
    &&& forall|i: int|
        0 <= i < suite.cases.len() ==> reads_as(written.cases[i], #[trigger] suite.cases[i])
}

// ---------------------------------------------------------------------------------------------
// Tags are told apart

proof fn lemma_tags_differ()
    ensures
        encode_utf8("failure"@) != encode_utf8("error"@),
        encode_utf8("failure"@) != encode_utf8("skipped"@),
        encode_utf8("error"@) != encode_utf8("skipped"@),
        encode_utf8("testcase"@) != encode_utf8("testsuite"@),
        encode_utf8("failure"@) != encode_utf8("testsuite"@),
        encode_utf8("failure"@) != encode_utf8("testcase"@),
        encode_utf8("error"@) != encode_utf8("testsuite"@),
        encode_utf8("error"@) != encode_utf8("testcase"@),
        encode_utf8("skipped"@) != encode_utf8("testsuite"@),
        encode_utf8("skipped"@) != encode_utf8("testcase"@),
{
    reveal_strlit("failure");
    reveal_strlit("error");
    reveal_strlit("skipped");
    reveal_strlit("testcase");
    reveal_strlit("testsuite");
    lemma_encoding_tells_apart("failure"@, "error"@);
    lemma_encoding_tells_apart("failure"@, "skipped"@);
    lemma_encoding_tells_apart("error"@, "skipped"@);
    lemma_encoding_tells_apart("testcase"@, "testsuite"@);
    lemma_encoding_tells_apart("failure"@, "testsuite"@);
    lemma_encoding_tells_apart("failure"@, "testcase"@);
    lemma_encoding_tells_apart("error"@, "testsuite"@);
    lemma_encoding_tells_apart("error"@, "testcase"@);
    lemma_encoding_tells_apart("skipped"@, "testsuite"@);
    lemma_encoding_tells_apart("skipped"@, "testcase"@);
    assert("failure"@[0] == 'f' && "error"@[0] == 'e' && "skipped"@[0] == 's');
    assert("testcase"@[0] == 't' && "testsuite"@[0] == 't');
    assert("testcase"@[4] == 'c' && "testsuite"@[4] == 's');
}

proof fn lemma_encoding_tells_apart(a: Seq<char>, b: Seq<char>)
    ensures
        encode_utf8(a) == encode_utf8(b) ==> a == b,
{
    vstd::utf8::encode_utf8_decode_utf8(a);
    vstd::utf8::encode_utf8_decode_utf8(b);
}

// ---------------------------------------------------------------------------------------------
// Runs of events

/// State after the events, where they neither end the document nor break it.
pub open spec fn state_after(s: JunitStateView, events: Seq<XmlEventView>) -> Option<JunitStateView>
    decreases events.len(),
{
    if events.len() == 0 {
        Some(s)
    } else {
        match state_after(s, events.drop_last()) {
            Some(before) => match junit_step(before, events.last()) {
                JunitStepView::Next(next) => Some(next),
                _ => None,
            },
            None => None,
        }
    }
}

proof fn lemma_after_two(s: JunitStateView, a: Seq<XmlEventView>, b: Seq<XmlEventView>)
    requires
        state_after(s, a) is Some,
    ensures
        state_after(s, a + b) == state_after(state_after(s, a)->0, b),
    decreases b.len(),
{
    if b.len() == 0 {
        assert(a + b =~= a);
    } else {
        lemma_after_two(s, a, b.drop_last());
        assert((a + b).drop_last() =~= a + b.drop_last());
        assert((a + b).last() == b.last());
    }
}

proof fn lemma_after_one(s: JunitStateView, event: XmlEventView)
    ensures
        state_after(s, seq![event]) == (match junit_step(s, event) {
            JunitStepView::Next(next) => Some(next),
            _ => None,
        }),
{
    assert(seq![event].drop_last() =~= Seq::<XmlEventView>::empty());
    assert(state_after(s, Seq::<XmlEventView>::empty()) == Some(s));
}

/// The events as a reader gives them.
pub open spec fn given(events: Seq<XmlEventView>) -> Seq<Result<XmlEventView, Seq<char>>> {
    events.map_values(|e: XmlEventView| Ok::<XmlEventView, Seq<char>>(e))
}

proof fn lemma_reading_goes_on(s: JunitStateView, events: Seq<XmlEventView>, k: int)
    requires
        0 <= k <= events.len(),
        state_after(s, events) is Some,
    ensures
        state_after(s, events.take(k)) is Some,
        suites_of(s, given(events)) == suites_of(
            state_after(s, events.take(k))->0,
            given(events).skip(k),
        ),
    decreases k,
{
    lemma_prefix_goes_on(s, events, k);
    if k == 0 {
        assert(events.take(0) =~= Seq::<XmlEventView>::empty());
        assert(given(events).skip(0) =~= given(events));
    } else {
        lemma_reading_goes_on(s, events, k - 1);
        let part = events.take(k);
        assert(part.drop_last() =~= events.take(k - 1));
        assert(part.last() == events[k - 1]);
        let rest = given(events).skip(k - 1);
        assert(rest[0] == Ok::<XmlEventView, Seq<char>>(events[k - 1]));
        assert(rest.skip(1) =~= given(events).skip(k));
    }
}

proof fn lemma_prefix_goes_on(s: JunitStateView, events: Seq<XmlEventView>, k: int)
    requires
        0 <= k <= events.len(),
        state_after(s, events) is Some,
    ensures
        state_after(s, events.take(k)) is Some,
    decreases events.len(),
{
    if k == events.len() {
        assert(events.take(k) =~= events);
    } else {
        lemma_prefix_goes_on(s, events.drop_last(), k);
        assert(events.drop_last().take(k) =~= events.take(k));
    }
}

// ---------------------------------------------------------------------------------------------
// Cases and suites

proof fn lemma_pieces(s: JunitStateView, pieces: Seq<XmlEventView>)
    requires
        s.capture is Some,
        forall|i: int| 0 <= i < pieces.len() ==> is_text(#[trigger] pieces[i]),
    ensures
        state_after(s, pieces) == Some(
            JunitStateView {
                capture: Some(
                    CaptureView {
                        content: s.capture->0.content + text_of(pieces),
                        ..s.capture->0
                    },
                ),
                ..s
            },
        ),
    decreases pieces.len(),
{
    let content = s.capture->0.content;
    if pieces.len() == 0 {
        assert(content + text_of(pieces) =~= content);
    } else {
        let rest = pieces.drop_last();
        assert forall|i: int| 0 <= i < rest.len() implies is_text(#[trigger] rest[i]) by {
            assert(rest[i] == pieces[i]);
        }
        lemma_pieces(s, rest);
        let last = pieces.last();
        assert(is_text(pieces[pieces.len() - 1]));
        let bytes = match last {
            XmlEventView::Text(bytes) => bytes,
            XmlEventView::CData(bytes) => bytes,
            _ => Seq::empty(),
        };
        assert((content + text_of(rest)) + lossy_text(bytes) =~= content + (text_of(rest)
            + lossy_text(bytes)));
    }
}

/// State with another case at the end of the innermost open suite, and no case being read.
pub open spec fn with_one_more(s: JunitStateView, case: JunitCaseView) -> JunitStateView {
    JunitStateView {
        open: s.open.drop_last().push(
            JunitSuiteView { cases: s.open.last().cases.push(case), ..s.open.last() },
        ),
        case: None,
        ..s
    }
}

proof fn lemma_outcome(s: JunitStateView, written: CaseText)
    requires
        s.capture is None,
        s.case == Some(case_of(written.tag)),
        is_case(written),
        written.outcome is Some,
    ensures
        ({
            let after = state_after(s, outcome_events(written.outcome->0));
            &&& after is Some
            &&& after->0.case is Some
            &&& reads_as(written, after->0.case->0)
            &&& after->0 == (JunitStateView { case: after->0.case, ..s })
        }),
{
    lemma_tags_differ();
    let outcome = written.outcome->0;
    let verdict = verdict_of(outcome.tag.name)->0;
    assert(verdict_of(outcome.tag.name) is Some);
    match outcome.pieces {
        None => {
            lemma_after_one(s, XmlEventView::Empty(outcome.tag));
            crate::text_laws::blank_text_is_white_space(Seq::empty());
        },
        Some(pieces) => {
            let start = seq![XmlEventView::Start(outcome.tag)];
            let end = seq![XmlEventView::End(outcome.tag.name)];
            lemma_after_one(s, XmlEventView::Start(outcome.tag));
            let reading = state_after(s, start)->0;
            assert(reading.capture == Some(
                CaptureView {
                    verdict,
                    message: text_attribute(outcome.tag, "message"@),
                    content: Seq::empty(),
                },
            ));
            lemma_pieces(reading, pieces);
            assert(reading.capture->0.content + text_of(pieces) =~= text_of(pieces));
            lemma_after_two(s, start, pieces);
            let full = state_after(s, start + pieces)->0;
            lemma_after_one(full, XmlEventView::End(outcome.tag.name));
            lemma_after_two(s, start + pieces, end);
        },
    }
}

proof fn lemma_case(s: JunitStateView, written: CaseText)
    requires
        s.capture is None,
        s.case is None,
        s.open.len() > 0,
        is_case(written),
    ensures
        ({
            let after = state_after(s, case_events(written));
            &&& after is Some
            &&& after->0.open.len() == s.open.len()
            &&& after->0.open.last().cases.len() == s.open.last().cases.len() + 1
            &&& after->0 == with_one_more(s, after->0.open.last().cases.last())
            &&& reads_as(written, after->0.open.last().cases.last())
        }),
{
    lemma_tags_differ();
    let first = XmlEventView::Start(written.tag);
    let last = XmlEventView::End(written.tag.name);
    match written.outcome {
        None => {
            if written.is_empty_element {
                lemma_after_one(s, XmlEventView::Empty(written.tag));
            } else {
                lemma_after_one(s, first);
                let reading = state_after(s, seq![first])->0;
                lemma_after_one(reading, last);
                lemma_after_two(s, seq![first], seq![last]);
                assert(seq![first] + seq![last] =~= seq![first, last]);
            }
        },
        Some(outcome) => {
            lemma_after_one(s, first);
            let reading = state_after(s, seq![first])->0;
            lemma_outcome(reading, written);
            let inner = outcome_events(outcome);
            lemma_after_two(s, seq![first], inner);
            let told = state_after(s, seq![first] + inner)->0;
            lemma_after_one(told, last);
            lemma_after_two(s, seq![first] + inner, seq![last]);
        },
    }
}

proof fn lemma_cases(s: JunitStateView, cases: Seq<CaseText>, n: int)
    requires
        s.capture is None,
        s.case is None,
        s.open.len() > 0,
        s.open.last().cases.len() == 0,
        0 <= n <= cases.len(),
        forall|i: int| 0 <= i < cases.len() ==> is_case(#[trigger] cases[i]),
    ensures
        ({
            let after = state_after(s, cases_events(cases, n));
            &&& after is Some
            &&& after->0.open.len() == s.open.len()
            &&& after->0 == (JunitStateView {
                open: s.open.drop_last().push(
                    JunitSuiteView { cases: after->0.open.last().cases, ..s.open.last() },
                ),
                ..s
            })
            &&& after->0.open.last().cases.len() == n
            &&& forall|i: int|
                0 <= i < n ==> reads_as(cases[i], #[trigger] after->0.open.last().cases[i])
        }),
    decreases n,
{
    if n == 0 {
        assert(s.open.drop_last().push(s.open.last()) =~= s.open);
    } else {
        lemma_cases(s, cases, n - 1);
        let so_far = cases_events(cases, n - 1);
        let before = state_after(s, so_far)->0;
        assert(is_case(cases[n - 1]));
        lemma_case(before, cases[n - 1]);
        lemma_after_two(s, so_far, case_events(cases[n - 1]));
        let after = state_after(s, cases_events(cases, n))->0;
        assert(before.open.drop_last() =~= s.open.drop_last());
        assert(after.open.last().cases =~= before.open.last().cases.push(
            after.open.last().cases.last(),
        ));
        assert forall|i: int| 0 <= i < n implies reads_as(
            cases[i],
            #[trigger] after.open.last().cases[i],
        ) by {
            if i < n - 1 {
                assert(after.open.last().cases[i] == before.open.last().cases[i]);
            }
        }
    }
}

proof fn lemma_suite(s: JunitStateView, written: SuiteText)
    requires
        s.capture is None,
        s.case is None,
        is_suite(written),
    ensures
        ({
            let after = state_after(s, suite_events(written));
            &&& after is Some
            &&& after->0.suites.len() == s.suites.len() + 1
            &&& after->0 == (JunitStateView { suites: s.suites.push(after->0.suites.last()), ..s })
            &&& suite_reads_as(written, after->0.suites.last())
        }),
{
    lemma_tags_differ();
    let first = XmlEventView::Start(written.tag);
    let last = XmlEventView::End(written.tag.name);
    let n = written.cases.len() as int;
    lemma_after_one(s, first);
    let opened = state_after(s, seq![first])->0;
    assert(opened.open == s.open.push(suite_of(written.tag)));
    lemma_cases(opened, written.cases, n);
    let inner = cases_events(written.cases, n);
    lemma_after_two(s, seq![first], inner);
    let full = state_after(s, seq![first] + inner)->0;
    assert(full.open.drop_last() =~= s.open) by {
        assert(opened.open.drop_last() =~= s.open);
    }
    lemma_after_one(full, last);
    lemma_after_two(s, seq![first] + inner, seq![last]);
}

proof fn lemma_suites(suites: Seq<SuiteText>, n: int)
    requires
        0 <= n <= suites.len(),
        forall|i: int| 0 <= i < suites.len() ==> is_suite(#[trigger] suites[i]),
    ensures
        ({
            let after = state_after(fresh_state(), suites_events(suites, n));
            &&& after is Some
            &&& after->0 == (JunitStateView { suites: after->0.suites, ..fresh_state() })
            &&& after->0.suites.len() == n
            &&& forall|i: int|
                0 <= i < n ==> suite_reads_as(suites[i], #[trigger] after->0.suites[i])
        }),
    decreases n,
{
    if n > 0 {
        lemma_suites(suites, n - 1);
        let so_far = suites_events(suites, n - 1);
        let before = state_after(fresh_state(), so_far)->0;
        assert(is_suite(suites[n - 1]));
        lemma_suite(before, suites[n - 1]);
        lemma_after_two(fresh_state(), so_far, suite_events(suites[n - 1]));
        let after = state_after(fresh_state(), suites_events(suites, n))->0;
        assert forall|i: int| 0 <= i < n implies suite_reads_as(
            suites[i],
            #[trigger] after.suites[i],
        ) by {
            if i < n - 1 {
                assert(after.suites[i] == before.suites[i]);
            }
        }
    }
}

proof fn lemma_all_cases_count(suites: Seq<SuiteText>, read: Seq<JunitSuiteView>, n: int)
    requires
        0 <= n <= suites.len(),
        read.len() == suites.len(),
        forall|i: int| 0 <= i < suites.len() ==> suite_reads_as(suites[i], #[trigger] read[i]),
        exists|i: int| 0 <= i < n && (#[trigger] suites[i]).cases.len() > 0,
    ensures
        count_cases(read, n) > 0,
    decreases n,
{
    let i = choose|i: int| 0 <= i < n && (#[trigger] suites[i]).cases.len() > 0;
    assert(suite_reads_as(suites[n - 1], read[n - 1]));
    if i < n - 1 {
        lemma_all_cases_count(suites, read, n - 1);
    }
}

/// A document of suites reads as it is written: the report holds each suite with each of its cases,
/// in their order, under the names and with the outcomes that stand there, however the cases and
/// their outcomes are written.
pub proof fn report_reads_as_it_is_written(suites: Seq<SuiteText>)
    requires
        forall|i: int| 0 <= i < suites.len() ==> is_suite(#[trigger] suites[i]),
        exists|i: int| 0 <= i < suites.len() && (#[trigger] suites[i]).cases.len() > 0,
    ensures
        ({
            let report = report_of_events(given(suites_events(suites, suites.len() as int)));
            &&& report is Ok
            &&& report->Ok_0.suites.len() == suites.len()
            &&& forall|i: int|
                0 <= i < suites.len() ==> suite_reads_as(
                    suites[i],
                    #[trigger] report->Ok_0.suites[i],
                )
        }),
{
    let n = suites.len() as int;
    let events = suites_events(suites, n);
    lemma_suites(suites, n);
    let after = state_after(fresh_state(), events)->0;
    lemma_reading_goes_on(fresh_state(), events, events.len() as int);
    assert(events.take(events.len() as int) =~= events);
    let none = given(events).skip(events.len() as int);
    assert(none.len() == 0);
    assert(first_event(none) == Ok::<XmlEventView, Seq<char>>(XmlEventView::Eof));
    assert(suites_of(after, none) == Ok::<Seq<JunitSuiteView>, JunitErrorView>(after.suites));
    lemma_all_cases_count(suites, after.suites, n);
}

/// A document of one suite with one case gives a report of one case. It is counted once: under the
/// outcome that is written, and as passed only where none is.
pub proof fn single_case_is_counted_under_its_outcome(tag: XmlElementView, case: CaseText)
    requires
        tag.name == encode_utf8("testsuite"@),
        is_case(case),
    ensures
        ({
            let suite = SuiteText { tag, cases: seq![case] };
            let report = report_of_events(given(suite_events(suite)));
            let summary = report->Ok_0.summary;
            &&& report is Ok
            &&& report->Ok_0.suites.len() == 1
            &&& report->Ok_0.suites[0].cases.len() == 1
            &&& reads_as(case, report->Ok_0.suites[0].cases[0])
            &&& summary.total == 1
            &&& case.outcome is None <==> summary.passed == 1
            &&& match case.outcome {
                None => summary.failed == 0 && summary.errors == 0 && summary.skipped == 0,
                Some(outcome) => {
                    &&& summary.passed == 0
                    &&& summary.failed == 1 <==> outcome.tag.name == encode_utf8("failure"@)
                    &&& summary.errors == 1 <==> outcome.tag.name == encode_utf8("error"@)
                    &&& summary.skipped == 1 <==> outcome.tag.name == encode_utf8("skipped"@)
                    &&& summary.failed + summary.errors + summary.skipped == 1
                },
            }
        }),
{
    lemma_tags_differ();
    let suite = SuiteText { tag, cases: seq![case] };
    let suites = seq![suite];
    assert forall|i: int| 0 <= i < suite.cases.len() implies is_case(
        #[trigger] suite.cases[i],
    ) by {}
    assert(is_suite(suites[0]));
    assert(suites[0].cases.len() > 0);
    report_reads_as_it_is_written(suites);
    assert(suites_events(suites, 0) =~= Seq::<XmlEventView>::empty());
    assert(suites_events(suites, 1) =~= suite_events(suite));
    let read = report_of_events(given(suite_events(suite)))->Ok_0.suites;
    assert(suite_reads_as(suites[0], read[0]));
    let cases = read[0].cases;
    assert(reads_as(suite.cases[0], cases[0]));
    lemma_one_case(read);
}

proof fn lemma_one_case(suites: Seq<JunitSuiteView>)
    requires
        suites.len() == 1,
        suites[0].cases.len() == 1,
    ensures
        summary_of(suites) == (TestSummary {
            total: 1,
            passed: if suites[0].cases[0].status == TestStatus::Passed { 1 } else { 0 },
            failed: if suites[0].cases[0].status == TestStatus::Failed { 1 } else { 0 },
            skipped: if suites[0].cases[0].status == TestStatus::Skipped { 1 } else { 0 },
            errors: if suites[0].cases[0].status == TestStatus::Error { 1 } else { 0 },
        }),
{
    let cases = suites[0].cases;
    reveal_with_fuel(count_in_suite, 2);
    reveal_with_fuel(count_status, 2);
    reveal_with_fuel(count_cases, 2);
}

/// One more case at the end of a report adds one to the total and one to the figure of its status,
/// and nothing to the others.
pub proof fn one_more_case_is_counted_once(
    suites: Seq<JunitSuiteView>,
    suite: JunitSuiteView,
    case: JunitCaseView,
    status: TestStatus,
)
    ensures
        ({
            let shorter = suites.push(suite);
            let longer = suites.push(JunitSuiteView { cases: suite.cases.push(case), ..suite });
            let n = longer.len() as int;
            &&& count_cases(longer, n) == count_cases(shorter, n) + 1
            &&& case.status == status ==> count_status(longer, status, n) == count_status(
                shorter,
                status,
                n,
            ) + 1
            &&& case.status != status ==> count_status(longer, status, n) == count_status(
                shorter,
                status,
                n,
            )
        }),
        count_cases(Seq::empty(), 0) == 0,
        count_status(Seq::empty(), status, 0) == 0,
{
    let shorter = suites.push(suite);
    let longer = suites.push(JunitSuiteView { cases: suite.cases.push(case), ..suite });
    let m = suites.len() as int;
    lemma_same_counts(shorter, longer, status, m);
    let k = suite.cases.len() as int;
    lemma_same_in_suite(suite.cases, suite.cases.push(case), status, k);
    assert(longer[m].cases[k] == case);
}

proof fn lemma_same_counts(
    a: Seq<JunitSuiteView>,
    b: Seq<JunitSuiteView>,
    status: TestStatus,
    n: int,
)
    requires
        n <= a.len(),
        n <= b.len(),
        forall|i: int| 0 <= i < n ==> #[trigger] a[i] == b[i],
    ensures
        count_cases(a, n) == count_cases(b, n),
        count_status(a, status, n) == count_status(b, status, n),
    decreases n,
{
    if n > 0 {
        lemma_same_counts(a, b, status, n - 1);
        assert(a[n - 1] == b[n - 1]);
    }
}

proof fn lemma_same_in_suite(
    a: Seq<JunitCaseView>,
    b: Seq<JunitCaseView>,
    status: TestStatus,
    n: int,
)
    requires
        n <= a.len(),
        n <= b.len(),
        forall|i: int| 0 <= i < n ==> #[trigger] a[i] == b[i],
    ensures
        count_in_suite(a, status, n) == count_in_suite(b, status, n),
    decreases n,
{
    if n > 0 {
        lemma_same_in_suite(a, b, status, n - 1);
        assert(a[n - 1] == b[n - 1]);
    }
}

/// The figures of a summary are those counts, as long as a machine word holds them; a document
/// without a case is empty, not a report.
pub proof fn summary_tells_the_counts(suites: Seq<JunitSuiteView>)
    requires
        count_cases(suites, suites.len() as int) <= usize::MAX,
    ensures
        ({
            let n = suites.len() as int;
            let summary = summary_of(suites);
            &&& summary.total == count_cases(suites, n)
            &&& summary.passed == count_status(suites, TestStatus::Passed, n)
            &&& summary.failed == count_status(suites, TestStatus::Failed, n)
            &&& summary.skipped == count_status(suites, TestStatus::Skipped, n)
            &&& summary.errors == count_status(suites, TestStatus::Error, n)
            &&& summary.total == 0 ==> report_of_suites(suites) == Err::<
                JunitReportView,
                JunitErrorView,
            >(JunitErrorView::Empty)
            &&& summary.total > 0 ==> report_of_suites(suites) == Ok::<
                JunitReportView,
                JunitErrorView,
            >(JunitReportView { summary, suites })
        }),
{
    crate::parsers::junit::every_case_is_counted_once(suites, suites.len() as int);
}

/// An attribute has the value of the first one of its name that can be read; those of other names
/// do not count, and an empty value counts as none.
pub proof fn first_attribute_of_the_name_counts(
    before: Seq<XmlAttributeView>,
    name: Seq<char>,
    value: Seq<u8>,
    after: Seq<XmlAttributeView>,
    tag: Seq<u8>,
)
    requires
        forall|i: int|
            0 <= i < before.len() ==> ((#[trigger] before[i]) matches XmlAttributeView::Pair {
                key,
                ..
            } ==> key != encode_utf8(name)),
    ensures
        ({
            let own = XmlAttributeView::Pair { key: encode_utf8(name), value };
            let element = XmlElementView { name: tag, attributes: before + seq![own] + after };
            let without = XmlElementView { name: tag, attributes: before };
            &&& lossy_text(value).len() > 0 ==> text_attribute(element, name) == Some(
                lossy_text(value),
            )
            &&& lossy_text(value).len() == 0 ==> text_attribute(element, name) is None
            &&& text_attribute(without, name) is None
        }),
    decreases before.len(),
{
    let own = XmlAttributeView::Pair { key: encode_utf8(name), value };
    let all = before + seq![own] + after;
    if before.len() == 0 {
        assert(all[0] == own);
    } else {
        assert(all[0] == before[0]);
        let rest = before.skip(1);
        assert forall|i: int|
            0 <= i < rest.len() implies ((#[trigger] rest[i]) matches XmlAttributeView::Pair {
            key,
            ..
        } ==> key != encode_utf8(name)) by {
            assert(rest[i] == before[i + 1]);
        }
        first_attribute_of_the_name_counts(rest, name, value, after, tag);
        assert(all.skip(1) =~= rest + seq![own] + after);
    }
}

/// Elements other than suites, cases and outcomes, and text outside of outcomes, do not matter.
pub proof fn other_parts_do_not_matter(
    s: JunitStateView,
    element: XmlElementView,
    bytes: Seq<u8>,
)
    requires
        s.capture is None,
        !tells_outcome(element),
        element.name != encode_utf8("testsuite"@),
        element.name != encode_utf8("testcase"@),
    ensures
        junit_step(s, XmlEventView::Start(element)) == JunitStepView::Next(s),
        junit_step(s, XmlEventView::Empty(element)) == JunitStepView::Next(s),
        junit_step(s, XmlEventView::End(element.name)) == JunitStepView::Next(s),
        junit_step(s, XmlEventView::Text(bytes)) == JunitStepView::Next(s),
        junit_step(s, XmlEventView::CData(bytes)) == JunitStepView::Next(s),
        junit_step(s, XmlEventView::Other) == JunitStepView::Next(s),
{
}

/// A suite inside another one is a suite of its own: it comes before the outer one, whose cases are
/// those that stand outside of it.
pub proof fn inner_suite_comes_first(s: JunitStateView, inner: SuiteText, name: Seq<u8>)
    requires
        s.capture is None,
        s.case is None,
        s.open.len() > 0,
        is_suite(inner),
        name == encode_utf8("testsuite"@),
    ensures
        ({
            let after = state_after(s, suite_events(inner) + seq![XmlEventView::End(name)]);
            &&& after is Some
            &&& after->0.suites.len() == s.suites.len() + 2
            &&& suite_reads_as(inner, after->0.suites[s.suites.len() as int])
            &&& after->0.suites[(s.suites.len() + 1) as int] == s.open.last()
            &&& after->0.open == s.open.drop_last()
        }),
{
    lemma_tags_differ();
    lemma_suite(s, inner);
    let closed = state_after(s, suite_events(inner))->0;
    lemma_after_one(closed, XmlEventView::End(name));
    lemma_after_two(s, suite_events(inner), seq![XmlEventView::End(name)]);
}

/// A report that ends within a suite or a case is broken off; one that ends outside of both is
/// whole.
pub proof fn report_ends_outside_of_suites_and_cases(s: JunitStateView)
    requires
        s.capture is None,
    ensures
        s.open.len() > 0 ==> junit_step(s, XmlEventView::Eof) is Fail,
        s.case is Some ==> junit_step(s, XmlEventView::Eof) is Fail,
        s.open.len() == 0 && s.case is None ==> junit_step(s, XmlEventView::Eof) is Done,
{
}

} // verus!
