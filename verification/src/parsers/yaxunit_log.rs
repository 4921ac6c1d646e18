//! Log of YAxUnit.

use vstd::prelude::*;
use crate::domain::{ExecutionError, ExecutionErrorView};
use crate::outside::{compile_regex, regex_is_match, regex_matches, regex_source, timestamp_pattern};
use crate::parsers::NormalizedParse;
use crate::text::{
    clone_texts, is_blank, is_space, push_text, text_is_blank, texts, trim, trim_end, trim_start,
    trimmed, views,
};
use crate::text_scan::{contains, stands_at, text_contains};

verus! {

/// Errors found so far, and the one being read.
pub struct LogState {
    pub errors: Seq<Seq<char>>,
    pub current: Seq<char>,
    pub in_error: bool,
}

/// Errors with the one that was being read, where it is not blank.
pub open spec fn with_current(s: LogState) -> Seq<Seq<char>> {
    if is_blank(s.current) {
        s.errors
    } else {
        s.errors.push(trim(s.current))
    }
}

/// The line starts with the time.
pub open spec fn has_timestamp(line: Seq<char>) -> bool {
    regex_matches(timestamp_pattern(), trim(line))
}

/// State after a line. A marked line starts an error, a line with the time ends one, and any other
/// line belongs to the error it stands in.
pub open spec fn after_line(s: LogState, line: Seq<char>) -> LogState {
    if contains(line, "[ERR]"@) {
        if s.in_error && !is_blank(s.current) {
            LogState { errors: with_current(s), current: line, in_error: true }
        } else {
            LogState { errors: s.errors, current: s.current + line, in_error: true }
        }
    } else if s.in_error && has_timestamp(line) {
        LogState { errors: with_current(s), current: Seq::empty(), in_error: false }
    } else if s.in_error {
        LogState {
            errors: s.errors,
            current: if s.current.len() == 0 {
                line
            } else {
                s.current + "\n"@ + line
            },
            in_error: true,
        }
    } else {
        s
    }
}

/// State after the first `n` lines.
pub open spec fn log_state(log: Seq<Seq<char>>, n: int) -> LogState
    decreases n,
{
    if n <= 0 {
        LogState { errors: Seq::empty(), current: Seq::empty(), in_error: false }
    } else {
        after_line(log_state(log, n - 1), log[n - 1])
    }
}

/// Errors that a log tells of.
pub open spec fn log_errors(log: Seq<Seq<char>>) -> Seq<Seq<char>> {
    let s = log_state(log, log.len() as int);
    if s.in_error {
        with_current(s)
    } else {
        s.errors
    }
}

fn push_current(errors: &mut Vec<String>, current: &str)
    ensures
        texts(final(errors)@) == (if is_blank(current@) {
            texts(old(errors)@)
        } else {
            texts(old(errors)@).push(trim(current@))
        }),
{
    let text = trimmed(current);
    if !text.as_str().is_empty() {
        push_text(errors, text.as_str());
    }
}

/// Errors that the lines of a log tell of.
pub fn parse_reader(lines: &Vec<String>) -> (r: Vec<String>)
    ensures
        texts(r@) == log_errors(texts(lines@)),
{
    let re = compile_regex("^\\d{2}:\\d{2}:\\d{2}\\.\\d{3}");
    let ghost log = texts(lines@);
    let mut errors: Vec<String> = Vec::new();
    let mut current = String::new();
    let mut in_error = false;
    let mut i: usize = 0;
    assert(texts(errors@) =~= Seq::<Seq<char>>::empty());
    while i < lines.len()
        invariant
            i <= lines.len(),
            log == texts(lines@),
            regex_source(re) == timestamp_pattern(),
            log_state(log, i as int) == (LogState {
                errors: texts(errors@),
                current: current@,
                in_error,
            }),
        decreases lines.len() - i,
    {
        assert(log[i as int] == lines@[i as int]@);
        let line = lines[i].as_str();
        if text_contains(line, "[ERR]") {
            if in_error && !text_is_blank(current.as_str()) {
                push_current(&mut errors, current.as_str());
                current = String::new();
            }
            in_error = true;
            let ghost kept = current@;
            current.append(line);
            assert(kept.len() == 0 ==> kept + line@ =~= line@);
        } else if in_error && regex_is_match(&re, trimmed(line).as_str()) {
            push_current(&mut errors, current.as_str());
            current = String::new();
            in_error = false;
        } else if in_error {
            let ghost kept = current@;
            if !current.as_str().is_empty() {
                current.append("\n");
            }
            current.append(line);
            assert(kept.len() == 0 ==> kept + line@ =~= line@);
        }
        i += 1;
    }
    if in_error {
        push_current(&mut errors, current.as_str());
    }
    errors
}

/// Errors that the log of a run tells of; a log that was not written tells of none.
pub fn parse_file(lines: Option<&Vec<String>>) -> (r: Vec<String>)
    ensures
        texts(r@) == (match lines {
            Some(list) => log_errors(texts(list@)),
            None => Seq::empty(),
        }),
{
    match lines {
        Some(list) => parse_reader(list),
        None => {
            let none: Vec<String> = Vec::new();
            assert(texts(none@) =~= Seq::<Seq<char>>::empty());
            none
        },
    }
}

/// Errors of a log, each under the code of its kind.
pub open spec fn coded(errors: Seq<Seq<char>>) -> Seq<ExecutionErrorView> {
    errors.map_values(
        |message: Seq<char>| ExecutionErrorView { code: "yaxunit_log_error"@, message },
    )
}

/// The output tells of the errors: as its payload, its diagnostics and its errors.
pub open spec fn tells_of(parse: NormalizedParse<Vec<String>>, errors: Seq<Seq<char>>) -> bool {
    &&& parse.payload is Some
    &&& texts(parse.payload->0@) == errors
    &&& texts(parse.diagnostics@) == errors
    &&& views(parse.errors@) == coded(errors)
    &&& parse.metrics is None
    &&& parse.warnings@.len() == 0
    &&& parse.artifacts is None
}

/// Output for the errors of a log.
pub fn normalize_errors(errors: Vec<String>) -> (r: NormalizedParse<Vec<String>>)
    ensures
        tells_of(r, texts(errors@)),
{
    let ghost all = coded(texts(errors@));
    let mut list: Vec<ExecutionError> = Vec::new();
    let mut i: usize = 0;
    assert(views(list@) =~= all.take(0));
    while i < errors.len()
        invariant
            i <= errors.len(),
            all == coded(texts(errors@)),
            views(list@) == all.take(i as int),
        decreases errors.len() - i,
    {
        let ghost before = views(list@);
        list.push(ExecutionError::new("yaxunit_log_error", errors[i].clone()));
        assert(views(list@) =~= before.push(all[i as int]));
        assert(all.take(i + 1) =~= all.take(i as int).push(all[i as int]));
        i += 1;
    }
    assert(all.take(all.len() as int) =~= all);
    NormalizedParse {
        payload: Some(clone_texts(&errors)),
        metrics: None,
        diagnostics: errors,
        errors: list,
        warnings: Vec::new(),
        artifacts: None,
    }
}

/// Output for the lines of a log.
pub fn normalize_reader(lines: &Vec<String>) -> (r: NormalizedParse<Vec<String>>)
    ensures
        tells_of(r, log_errors(texts(lines@))),
{
    normalize_errors(parse_reader(lines))
}

/// Output for the log of a run; where none was written there is a warning and nothing else.
pub fn normalize_file(lines: Option<&Vec<String>>) -> (r: NormalizedParse<Vec<String>>)
    ensures
        match lines {
            Some(list) => tells_of(r, log_errors(texts(list@))),
            None => {
                &&& texts(r.warnings@) == seq!["YaXUnit log file was not produced"@]
                &&& r.payload is None
                &&& r.metrics is None
                &&& r.diagnostics@.len() == 0
                &&& r.errors@.len() == 0
                &&& r.artifacts is None
            },
        },
{
    match lines {
        Some(list) => normalize_reader(list),
        None => {
            let mut warnings: Vec<String> = Vec::new();
            warnings.push("YaXUnit log file was not produced".to_owned());
            assert(texts(warnings@) =~= seq!["YaXUnit log file was not produced"@]);
            let empty = NormalizedParse::<Vec<String>>::default();
            NormalizedParse { warnings, ..empty }
        },
    }
}

// ---------------------------------------------------------------------------------------------
// Laws

proof fn lemma_trim_start_keeps(s: Seq<char>, needle: Seq<char>, at: int)
    requires
        stands_at(s, needle, at),
        needle.len() > 0,
        !is_space(needle[0]),
    ensures
        contains(trim_start(s), needle),
    decreases s.len(),
{
    if s.len() > 0 && is_space(s[0]) {
        assert(s.subrange(at, at + needle.len())[0] == needle[0]);
        assert(at > 0);
        let rest = s.subrange(1, s.len() as int);
        assert(rest.subrange(at - 1, at - 1 + needle.len()) =~= s.subrange(
            at,
            at + needle.len(),
        ));
        lemma_trim_start_keeps(rest, needle, at - 1);
    } else {
        assert(stands_at(trim_start(s), needle, at));
    }
}

proof fn lemma_trim_end_keeps(s: Seq<char>, needle: Seq<char>, at: int)
    requires
        stands_at(s, needle, at),
        needle.len() > 0,
        !is_space(needle.last()),
    ensures
        contains(trim_end(s), needle),
    decreases s.len(),
{
    if s.len() > 0 && is_space(s.last()) {
        assert(s.subrange(at, at + needle.len())[needle.len() - 1] == needle.last());
        assert(at + needle.len() < s.len());
        let rest = s.subrange(0, s.len() - 1);
        assert(rest.subrange(at, at + needle.len()) =~= s.subrange(at, at + needle.len()));
        lemma_trim_end_keeps(rest, needle, at);
    } else {
        assert(stands_at(trim_end(s), needle, at));
    }
}

proof fn lemma_trim_keeps_mark(s: Seq<char>)
    requires
        contains(s, "[ERR]"@),
    ensures
        contains(trim(s), "[ERR]"@),
{
    reveal_strlit("[ERR]");
    let mark = "[ERR]"@;
    let at = choose|at: int| stands_at(s, mark, at);
    lemma_trim_start_keeps(s, mark, at);
    let at = choose|at: int| stands_at(trim_start(s), mark, at);
    lemma_trim_end_keeps(trim_start(s), mark, at);
}

proof fn lemma_appending_keeps(s: Seq<char>, more: Seq<char>, needle: Seq<char>)
    requires
        contains(s, needle),
    ensures
        contains(s + more, needle),
{
    let at = choose|at: int| stands_at(s, needle, at);
    assert((s + more).subrange(at, at + needle.len()) =~= s.subrange(at, at + needle.len()));
    assert(stands_at(s + more, needle, at));
}

proof fn lemma_prepending_keeps(before: Seq<char>, s: Seq<char>, needle: Seq<char>)
    requires
        contains(s, needle),
    ensures
        contains(before + s, needle),
{
    let at = choose|at: int| stands_at(s, needle, at);
    assert((before + s).subrange(before.len() + at, before.len() + at + needle.len())
        =~= s.subrange(at, at + needle.len()));
    assert(stands_at(before + s, needle, before.len() + at));
}

proof fn lemma_state_is_marked(log: Seq<Seq<char>>, n: int)
    requires
        0 <= n <= log.len(),
    ensures
        log_state(log, n).in_error ==> contains(log_state(log, n).current, "[ERR]"@),
        forall|k: int|
            0 <= k < log_state(log, n).errors.len() ==> contains(
                #[trigger] log_state(log, n).errors[k],
                "[ERR]"@,
            ),
    decreases n,
{
    if n > 0 {
        lemma_state_is_marked(log, n - 1);
        let s = log_state(log, n - 1);
        let line = log[n - 1];
        if s.in_error {
            lemma_trim_keeps_mark(s.current);
            lemma_appending_keeps(s.current, line, "[ERR]"@);
            lemma_appending_keeps(s.current, "\n"@, "[ERR]"@);
            lemma_appending_keeps(s.current + "\n"@, line, "[ERR]"@);
        }
        if contains(line, "[ERR]"@) {
            lemma_prepending_keeps(s.current, line, "[ERR]"@);
        }
        if s.in_error && s.current.len() == 0 {
            reveal_strlit("[ERR]");
        }
    }
}

/// Every error that is told of holds the mark of an error.
pub proof fn every_error_is_marked(log: Seq<Seq<char>>, k: int)
    requires
        0 <= k < log_errors(log).len(),
    ensures
        contains(log_errors(log)[k], "[ERR]"@),
{
    let n = log.len() as int;
    lemma_state_is_marked(log, n);
    if log_state(log, n).in_error {
        lemma_trim_keeps_mark(log_state(log, n).current);
    }
}

/// A log in which no line is marked tells of no error.
pub proof fn unmarked_log_has_no_errors(log: Seq<Seq<char>>, n: int)
    requires
        0 <= n <= log.len(),
        forall|k: int| 0 <= k < log.len() ==> !contains(#[trigger] log[k], "[ERR]"@),
    ensures
        log_state(log, n).errors.len() == 0,
        !log_state(log, n).in_error,
    decreases n,
{
    if n > 0 {
        unmarked_log_has_no_errors(log, n - 1);
        assert(!contains(log[n - 1], "[ERR]"@));
    }
}


/// Number of marked lines among the first `n`.
pub open spec fn marked_lines(log: Seq<Seq<char>>, n: int) -> nat
    decreases n,
{
    if n <= 0 {
        0
    } else {
        marked_lines(log, n - 1) + if contains(log[n - 1], "[ERR]"@) {
            1nat
        } else {
            0
        }
    }
}

proof fn lemma_marked_is_not_blank(s: Seq<char>)
    requires
        contains(s, "[ERR]"@),
    ensures
        !is_blank(s),
{
    reveal_strlit("[ERR]");
    lemma_trim_keeps_mark(s);
    let at = choose|at: int| stands_at(trim(s), "[ERR]"@, at);
    assert(trim(s).len() >= "[ERR]"@.len());
}

proof fn lemma_entries_so_far(log: Seq<Seq<char>>, n: int)
    requires
        0 <= n <= log.len(),
    ensures
        ({
            let s = log_state(log, n);
            s.errors.len() + (if s.in_error {
                1nat
            } else {
                0
            }) == marked_lines(log, n)
        }),
    decreases n,
{
    if n > 0 {
        lemma_entries_so_far(log, n - 1);
        lemma_state_is_marked(log, n - 1);
        let s = log_state(log, n - 1);
        if s.in_error {
            lemma_marked_is_not_blank(s.current);
        }
    }
}

/// The log gives one entry for each marked line.
pub proof fn every_marked_line_gives_an_entry(log: Seq<Seq<char>>)
    ensures
        log_errors(log).len() == marked_lines(log, log.len() as int),
{
    let n = log.len() as int;
    lemma_entries_so_far(log, n);
    lemma_state_is_marked(log, n);
    if log_state(log, n).in_error {
        lemma_marked_is_not_blank(log_state(log, n).current);
    }
}

} // verus!
