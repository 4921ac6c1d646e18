//! Log of the Designer's checks.

use vstd::prelude::*;
use crate::domain::{
    Issue, IssueSeverity, IssueView, ModuleIssue, ModuleIssueView, ObjectIssue, ObjectIssueView,
};
use crate::outside::{
    compile_regex, lowercase, module_context_pattern, module_issue_pattern, regex_groups,
    regex_groups_of, regex_is_match, regex_matches, regex_source, to_lowercase,
};
use crate::text::{cat3, lemma_trim_push_space, opt_str, opt_text, texts, trim, trimmed, views};
use crate::text_number::{parse_u32, parse_unsigned};
use crate::text_scan::{
    contains, lemma_lines_ended, lemma_lines_of_two, lines, split_once, strip_last, text_contains,
    text_lines, text_split_once,
};

verus! {

// ---------------------------------------------------------------------------------------------
// Words that tell what a line is about

/// The text, in small letters, warns.
pub open spec fn warns(lower: Seq<char>) -> bool {
    contains(lower, "warning"@) || contains(lower, "warn:"@) || contains(lower, "предупреждение"@)
        || contains(lower, "warning:"@)
}

/// The text, in small letters, tells of an issue.
pub open spec fn tells_of_issue(lower: Seq<char>) -> bool {
    warns(lower) || contains(lower, "error"@) || contains(lower, "ошиб"@) || contains(
        lower,
        "fatal"@,
    ) || contains(lower, "неразрешим"@)
}

/// The text, in small letters, tells that there are no issues.
pub open spec fn tells_of_success(lower: Seq<char>) -> bool {
    contains(lower, "ошибок не обнаружено"@)
}

/// Severity of a message in small letters.
pub open spec fn severity_in(lower: Seq<char>) -> IssueSeverity {
    if warns(lower) {
        IssueSeverity::Warning
    } else {
        IssueSeverity::Error
    }
}

/// Whether the text, in small letters, warns.
pub fn contains_warning_marker(lower: &str) -> (r: bool)
    ensures
        r == warns(lower@),
{
    text_contains(lower, "warning") || text_contains(lower, "warn:") || text_contains(
        lower,
        "предупреждение",
    ) || text_contains(lower, "warning:")
}

/// Whether the text, in small letters, tells of an issue.
pub fn is_issue_text(lower: &str) -> (r: bool)
    ensures
        r == tells_of_issue(lower@),
{
    contains_warning_marker(lower) || text_contains(lower, "error") || text_contains(lower, "ошиб")
        || text_contains(lower, "fatal") || text_contains(lower, "неразрешим")
}

/// Whether the text, in small letters, tells that there are no issues.
pub fn is_success_text(lower: &str) -> (r: bool)
    ensures
        r == tells_of_success(lower@),
{
    text_contains(lower, "ошибок не обнаружено")
}

/// Severity of a message in small letters.
pub fn severity_from_text(lower: &str) -> (r: IssueSeverity)
    ensures
        r == severity_in(lower@),
{
    if contains_warning_marker(lower) {
        IssueSeverity::Warning
    } else {
        IssueSeverity::Error
    }
}

fn classify_severity(message: &str) -> (r: IssueSeverity)
    ensures
        r == severity_in(lowercase(message@)),
{
    severity_from_text(to_lowercase(message).as_str())
}

fn contains_issue_marker(message: &str) -> (r: bool)
    ensures
        r == tells_of_issue(lowercase(message@)),
{
    is_issue_text(to_lowercase(message).as_str())
}

fn is_success_message(line: &str) -> (r: bool)
    ensures
        r == tells_of_success(lowercase(line@)),
{
    is_success_text(to_lowercase(line).as_str())
}

// ---------------------------------------------------------------------------------------------
// Issues in modules

/// Group of a match, where it took part.
pub open spec fn group(groups: Seq<Option<Seq<char>>>, i: int) -> Option<Seq<char>> {
    if 0 <= i < groups.len() {
        groups[i]
    } else {
        None
    }
}

/// Path of a module, with the extension it belongs to.
pub open spec fn qualified_path(extension: Option<Seq<char>>, path: Seq<char>) -> Seq<char> {
    match extension {
        Some(name) => name + " "@ + path,
        None => path,
    }
}

/// Issue in a module from the groups of its line: extension, path, line, column and message. A
/// place that is no number of 32 bits makes no issue.
pub open spec fn issue_of_groups(groups: Seq<Option<Seq<char>>>) -> Option<IssueView> {
    if group(groups, 2) is None || group(groups, 3) is None || group(groups, 4) is None || group(
        groups,
        5,
    ) is None {
        None
    } else {
        let line = parse_unsigned(group(groups, 3)->0, u32::MAX as nat);
        let column = parse_unsigned(group(groups, 4)->0, u32::MAX as nat);
        let message = trim(group(groups, 5)->0);
        if line is None || column is None {
            None
        } else {
            Some(
                IssueView::Module(
                    ModuleIssueView {
                        path: qualified_path(group(groups, 1), group(groups, 2)->0),
                        line: Some(line->0 as u32),
                        column: Some(column->0 as u32),
                        message,
                        severity: severity_in(lowercase(message)),
                    },
                ),
            )
        }
    }
}

/// Issue in a module that a line tells of.
pub open spec fn module_issue(line: Seq<char>) -> Option<IssueView> {
    match regex_groups_of(module_issue_pattern(), line) {
        Some(groups) => issue_of_groups(groups),
        None => None,
    }
}

fn group_text(groups: &Vec<Option<String>>, i: usize) -> (r: Option<&str>)
    ensures
        opt_str(r) == group(groups@.map_values(|g: Option<String>| opt_text(g)), i as int),
{
    if i < groups.len() {
        match &groups[i] {
            Some(text) => Some(text.as_str()),
            None => None,
        }
    } else {
        None
    }
}

/// Issue in a module from the groups of its line.
pub fn module_issue_from_groups(groups: &Vec<Option<String>>) -> (r: Option<Issue>)
    ensures
        match r {
            Some(issue) => issue_of_groups(groups@.map_values(|g: Option<String>| opt_text(g)))
                == Some(issue@),
            None => issue_of_groups(groups@.map_values(|g: Option<String>| opt_text(g))) is None,
        },
{
    let (path, line, column, message) = match (
        group_text(groups, 2),
        group_text(groups, 3),
        group_text(groups, 4),
        group_text(groups, 5),
    ) {
        (Some(path), Some(line), Some(column), Some(message)) => (path, line, column, message),
        _ => {
            return None;
        },
    };
    let (line, column) = match (parse_u32(line), parse_u32(column)) {
        (Some(line), Some(column)) => (line, column),
        _ => {
            return None;
        },
    };
    let message = trimmed(message);
    let path = match group_text(groups, 1) {
        Some(extension) => cat3(extension, " ", path),
        None => path.to_owned(),
    };
    let severity = classify_severity(message.as_str());
    Some(
        Issue::Module(
            ModuleIssue { path, line: Some(line), column: Some(column), message, severity },
        ),
    )
}

fn parse_module_issue(re: &regex::Regex, line: &str) -> (r: Option<Issue>)
    requires
        regex_source(*re) == module_issue_pattern(),
    ensures
        match r {
            Some(issue) => module_issue(line@) == Some(issue@),
            None => module_issue(line@) is None,
        },
{
    match regex_groups(re, line) {
        Some(groups) => module_issue_from_groups(&groups),
        None => None,
    }
}

// ---------------------------------------------------------------------------------------------
// Issues of objects

/// Issue of an object.
pub open spec fn object_issue_view(object: Seq<char>, message: Seq<char>) -> IssueView {
    IssueView::Object(
        ObjectIssueView { object, message, severity: severity_in(lowercase(message)) },
    )
}

/// Issue of an object that a line tells of: the object is the first word where the rest tells of
/// an issue, else the first two words where what follows them does.
pub open spec fn object_issue(line: Seq<char>) -> Option<IssueView> {
    match split_once(line, ' ') {
        None => None,
        Some((first, tail)) => if tells_of_issue(lowercase(trim(tail))) {
            Some(object_issue_view(first, trim(tail)))
        } else {
            match split_once(tail, ' ') {
                None => None,
                Some((second, rest)) => if tells_of_issue(lowercase(trim(rest))) {
                    Some(object_issue_view(first + " "@ + second, trim(rest)))
                } else {
                    None
                },
            }
        },
    }
}

fn make_object_issue(object: String, message: String) -> (r: Issue)
    ensures
        r@ == object_issue_view(object@, message@),
{
    let severity = classify_severity(message.as_str());
    Issue::Object(ObjectIssue { object, message, severity })
}

/// Issue of an object that a line tells of.
pub fn parse_object_issue(line: &str) -> (r: Option<Issue>)
    ensures
        match r {
            Some(issue) => object_issue(line@) == Some(issue@),
            None => object_issue(line@) is None,
        },
{
    let (first, tail) = match text_split_once(line, ' ') {
        Some(parts) => parts,
        None => {
            return None;
        },
    };
    let told = trimmed(tail.as_str());
    if contains_issue_marker(told.as_str()) {
        return Some(make_object_issue(first, told));
    }
    match text_split_once(tail.as_str(), ' ') {
        None => None,
        Some((second, rest)) => {
            let told = trimmed(rest.as_str());
            if contains_issue_marker(told.as_str()) {
                Some(
                    make_object_issue(cat3(first.as_str(), " ", second.as_str()), told),
                )
            } else {
                None
            }
        },
    }
}

// ---------------------------------------------------------------------------------------------
// The log

/// The line shows the code of an issue.
pub open spec fn is_context(line: Seq<char>) -> bool {
    regex_matches(module_context_pattern(), trim(line))
}

/// Issues that the log tells of from line `i` on. The line after an issue in a module is passed
/// over where it shows its code.
pub open spec fn issues_from(log: Seq<Seq<char>>, i: int) -> Seq<IssueView>
    decreases log.len() - i,
{
    if i < 0 || i >= log.len() {
        Seq::empty()
    } else {
        let line = trim(log[i]);
        if line.len() == 0 || tells_of_success(lowercase(line)) {
            issues_from(log, i + 1)
        } else if module_issue(line) is Some {
            seq![module_issue(line)->0] + issues_from(
                log,
                if i + 1 < log.len() && is_context(log[i + 1]) {
                    i + 2
                } else {
                    i + 1
                },
            )
        } else if object_issue(line) is Some {
            seq![object_issue(line)->0] + issues_from(log, i + 1)
        } else {
            issues_from(log, i + 1)
        }
    }
}

/// Issues that a log tells of.
pub fn parse(content: &str) -> (r: Vec<Issue>)
    ensures
        views(r@) == issues_from(lines(content@), 0),
{
    let issue_re = compile_regex(
        "^\\{(?:(?P<extension>[[:word:]А-Яа-яЁё_]+)\\s)?(?P<path>[^}]+)\\((?P<line>\\d+),(?P<column>\\d+)\\)}:\\s*(?P<message>.+)$",
    );
    let context_re = compile_regex("^\\{\\d+\\}\\s*:");
    let all = text_lines(content);
    let ghost log = texts(all@);
    let mut issues: Vec<Issue> = Vec::new();
    let mut i: usize = 0;
    assert(views(issues@) + issues_from(log, 0) =~= issues_from(log, 0));
    while i < all.len()
        invariant
            i <= all.len(),
            log == texts(all@),
            regex_source(issue_re) == module_issue_pattern(),
            regex_source(context_re) == module_context_pattern(),
            views(issues@) + issues_from(log, i as int) == issues_from(log, 0),
        decreases all.len() - i,
    {
        let ghost before = views(issues@);
        assert(log[i as int] == all@[i as int]@);
        let line = trimmed(all[i].as_str());
        if line.as_str().is_empty() || is_success_message(line.as_str()) {
            i += 1;
            continue ;
        }
        if let Some(issue) = parse_module_issue(&issue_re, line.as_str()) {
            let ghost here = i as int;
            i += 1;
            if i < all.len() {
                assert(log[i as int] == all@[i as int]@);
                if regex_is_match(&context_re, trimmed(all[i].as_str()).as_str()) {
                    i += 1;
                }
            }
            issues.push(issue);
            proof {
                assert(views(issues@) =~= before.push(issue@));
                assert(issues_from(log, here) == seq![issue@] + issues_from(log, i as int));
                assert(views(issues@) + issues_from(log, i as int) =~= before + (seq![issue@]
                    + issues_from(log, i as int)));
            }
            continue ;
        }
        if let Some(issue) = parse_object_issue(line.as_str()) {
            issues.push(issue);
            proof {
                assert(views(issues@) =~= before.push(issue@));
                assert(views(issues@) + issues_from(log, i + 1) =~= before + (seq![issue@]
                    + issues_from(log, i + 1)));
            }
        }
        i += 1;
    }
    assert(views(issues@) + issues_from(log, i as int) =~= views(issues@));
    issues
}

/// Issues that the log of a check tells of; a log that was not written tells of none.
pub fn parse_path(content: Option<&str>) -> (r: Vec<Issue>)
    ensures
        views(r@) == (match opt_str(content) {
            Some(text) => issues_from(lines(text), 0),
            None => Seq::empty(),
        }),
{
    match content {
        Some(text) => parse(text),
        None => {
            let none: Vec<Issue> = Vec::new();
            assert(views(none@) =~= Seq::<IssueView>::empty());
            none
        },
    }
}

// ---------------------------------------------------------------------------------------------
// Laws

/// A log tells of no more issues than it has lines.
pub proof fn no_more_issues_than_lines(log: Seq<Seq<char>>, i: int)
    requires
        0 <= i <= log.len(),
    ensures
        issues_from(log, i).len() <= log.len() - i,
    decreases log.len() - i,
{
    if i < log.len() {
        no_more_issues_than_lines(log, i + 1);
        if i + 1 < log.len() {
            no_more_issues_than_lines(log, i + 2);
        }
    }
}

/// A log of lines that are blank, tell of success or tell of no issue has no issues.
pub proof fn clean_log_has_no_issues(log: Seq<Seq<char>>, i: int)
    requires
        0 <= i <= log.len(),
        forall|k: int|
            0 <= k < log.len() ==> trim(#[trigger] log[k]).len() == 0 || tells_of_success(
                lowercase(trim(log[k])),
            ) || (module_issue(trim(log[k])) is None && object_issue(trim(log[k])) is None),
    ensures
        issues_from(log, i).len() == 0,
    decreases log.len() - i,
{
    if i < log.len() {
        clean_log_has_no_issues(log, i + 1);
        assert(trim(log[i]).len() == 0 || tells_of_success(lowercase(trim(log[i]))) || (
        module_issue(trim(log[i])) is None && object_issue(trim(log[i])) is None));
    }
}


proof fn lemma_issues_behind(a: Seq<Seq<char>>, b: Seq<Seq<char>>, i: int)
    requires
        0 <= i <= b.len(),
    ensures
        issues_from(a + b, a.len() + i) == issues_from(b, i),
    decreases b.len() - i,
{
    if i < b.len() {
        assert((a + b)[a.len() + i] == b[i]);
        lemma_issues_behind(a, b, i + 1);
        if i + 1 < b.len() {
            assert((a + b)[a.len() + i + 1] == b[i + 1]);
            lemma_issues_behind(a, b, i + 2);
        }
    }
}

proof fn lemma_issues_add_up(a: Seq<Seq<char>>, b: Seq<Seq<char>>, i: int)
    requires
        0 <= i <= a.len(),
        b.len() > 0 ==> !is_context(b[0]),
    ensures
        issues_from(a + b, i) == issues_from(a, i) + issues_from(b, 0),
    decreases a.len() - i,
{
    let all = issues_from(b, 0);
    if i == a.len() {
        lemma_issues_behind(a, b, 0);
        assert(issues_from(a, i) + all =~= all);
    } else {
        assert((a + b)[i] == a[i]);
        lemma_issues_add_up(a, b, i + 1);
        let line = trim(a[i]);
        let next = if i + 1 < a.len() && is_context(a[i + 1]) {
            i + 2
        } else {
            i + 1
        };
        if i + 1 < a.len() {
            assert((a + b)[i + 1] == a[i + 1]);
            lemma_issues_add_up(a, b, i + 2);
        } else if b.len() > 0 {
            assert((a + b)[i + 1] == b[0]);
        }
        if module_issue(line) is Some {
            assert(seq![module_issue(line)->0] + (issues_from(a, next) + all) =~= (
            seq![module_issue(line)->0] + issues_from(a, next)) + all);
        } else if object_issue(line) is Some {
            assert(seq![object_issue(line)->0] + (issues_from(a, i + 1) + all) =~= (
            seq![object_issue(line)->0] + issues_from(a, i + 1)) + all);
        }
    }
}

proof fn lemma_blank_end(a: Seq<Seq<char>>, i: int)
    requires
        0 <= i <= a.len(),
    ensures
        issues_from(a.push(Seq::empty()), i) == issues_from(a, i),
    decreases a.len() - i,
{
    let longer = a.push(Seq::empty());
    assert(issues_from(longer, longer.len() as int) =~= Seq::<IssueView>::empty());
    if i == a.len() {
        assert(trim(longer[i]).len() == 0);
        assert(issues_from(longer, i) == issues_from(longer, i + 1));
    } else {
        assert(longer[i] == a[i]);
        lemma_blank_end(a, i + 1);
        if i + 1 < a.len() {
            assert(longer[i + 1] == a[i + 1]);
            lemma_blank_end(a, i + 2);
        } else {
            assert(trim(longer[i + 1]).len() == 0);
            assert(issues_from(longer, i + 1) == issues_from(longer, i + 2));
        }
    }
}

proof fn lemma_trimmed_lines(a: Seq<Seq<char>>, b: Seq<Seq<char>>, i: int)
    requires
        a.len() == b.len(),
        0 <= i,
        forall|k: int| 0 <= k < a.len() ==> trim(#[trigger] a[k]) == trim(b[k]),
    ensures
        issues_from(a, i) == issues_from(b, i),
    decreases a.len() - i,
{
    if i < a.len() {
        assert(trim(a[i]) == trim(b[i]));
        lemma_trimmed_lines(a, b, i + 1);
        if i + 1 < a.len() {
            assert(trim(a[i + 1]) == trim(b[i + 1]));
            lemma_trimmed_lines(a, b, i + 2);
        }
    }
}

proof fn lemma_ended_log(a: Seq<char>)
    ensures
        issues_from(lines(a.push('\n')), 0) == issues_from(lines(a), 0),
{
    lemma_lines_ended(a);
    let list = lines(a);
    let ended = lines(a.push('\n'));
    if a.len() == 0 || a.last() == '\n' {
        lemma_blank_end(list, 0);
    } else {
        let last = list.last();
        if last.len() > 0 && last[last.len() - 1] == '\r' {
            let short = strip_last(last, '\r');
            assert(short.push('\r') =~= last);
            lemma_trim_push_space(short, '\r');
        }
        assert forall|k: int| 0 <= k < ended.len() implies trim(#[trigger] ended[k]) == trim(
            list[k],
        ) by {
            if k < ended.len() - 1 {
                assert(ended[k] == list[k]);
            }
        }
        lemma_trimmed_lines(ended, list, 0);
    }
}

/// A log that is read in two parts, cut at a line end, gives the issues of the first part and then
/// those of the second, unless the second part begins with the code of an issue.
pub proof fn parts_of_a_log_add_up(a: Seq<char>, b: Seq<char>)
    requires
        lines(b).len() > 0 ==> !is_context(lines(b)[0]),
    ensures
        issues_from(lines(a + "\n"@ + b), 0) == issues_from(lines(a), 0) + issues_from(lines(b), 0),
{
    reveal_strlit("\n");
    assert(a + "\n"@ + b =~= a.push('\n') + b);
    lemma_lines_of_two(a, b);
    lemma_issues_add_up(lines(a.push('\n')), lines(b), 0);
    lemma_ended_log(a);
}

} // verus!
