//! Log of `1cedtcli validate --file`: lines of tab-separated columns.

use vstd::prelude::*;
use crate::domain::{EdtIssue, EdtIssueView, Issue, IssueSeverity, IssueView};
use crate::outside::{lowercase, to_lowercase};
use crate::text::{
    is_blank, is_space, join_texts, join_with, lemma_trim_push_space, opt_str, opt_text, push_text,
    text_eq, text_is_blank, texts, trim, trimmed, views,
};
use crate::text_number::{parse_u32, parse_unsigned};
use crate::text_scan::{
    ascii_lowered, char_pos, contains, lemma_char_pos, lemma_char_pos_bounds, lemma_lines_ended,
    lemma_lines_of_two, lines, split, starts_with, strip_last, text_ascii_lower, text_contains,
    text_lines, text_split, text_starts_with,
};

verus! {

/// Severity that a word in small letters names, in English or Russian.
pub open spec fn severity_of_word(word: Seq<char>) -> Option<IssueSeverity> {
    if word.len() == 0 {
        None
    } else if starts_with(word, "err"@) || contains(word, "ошиб"@) || word == "e"@ {
        Some(IssueSeverity::Error)
    } else if starts_with(word, "warn"@) || contains(word, "предупр"@) || word == "w"@ {
        Some(IssueSeverity::Warning)
    } else if starts_with(word, "info"@) || contains(word, "инф"@) || word == "i"@ {
        Some(IssueSeverity::Info)
    } else {
        None
    }
}

/// Severity that a label names.
pub open spec fn severity_named(label: Seq<char>) -> Option<IssueSeverity> {
    severity_of_word(lowercase(trim(label)))
}

/// Severity that a word in small letters names.
pub fn severity_from_word(word: &str) -> (r: Option<IssueSeverity>)
    ensures
        r == severity_of_word(word@),
{
    if word.is_empty() {
        return None;
    }
    if text_starts_with(word, "err") || text_contains(word, "ошиб") || text_eq(word, "e") {
        Some(IssueSeverity::Error)
    } else if text_starts_with(word, "warn") || text_contains(word, "предупр") || text_eq(
        word,
        "w",
    ) {
        Some(IssueSeverity::Warning)
    } else if text_starts_with(word, "info") || text_contains(word, "инф") || text_eq(word, "i") {
        Some(IssueSeverity::Info)
    } else {
        None
    }
}

/// Severity that a label names.
pub fn parse_severity(value: &str) -> (r: Option<IssueSeverity>)
    ensures
        r == severity_named(value@),
{
    severity_from_word(to_lowercase(trimmed(value).as_str()).as_str())
}

/// Number in a column; blank, `-` and anything that is no number count as absent.
pub open spec fn column_number(value: Seq<char>) -> Option<u32> {
    match parse_unsigned(trim(value), u32::MAX as nat) {
        Some(n) => Some(n as u32),
        None => None,
    }
}

/// Number in a column.
pub fn parse_optional_u32(value: &str) -> (r: Option<u32>)
    ensures
        r == column_number(value@),
{
    let t = trimmed(value);
    parse_u32(t.as_str())
}

/// Text in a column, absent where it is blank.
pub open spec fn column_text(value: Seq<char>) -> Option<Seq<char>> {
    if is_blank(value) {
        None
    } else {
        Some(trim(value))
    }
}

/// Text in a column, absent where it is blank.
pub fn non_empty(value: &str) -> (r: Option<String>)
    ensures
        opt_text(r) == column_text(value@),
{
    let t = trimmed(value);
    if t.as_str().is_empty() {
        None
    } else {
        Some(t)
    }
}

/// Message of a line, by the number of its columns: the last one, and from the sixth on all.
pub open spec fn line_message(columns: Seq<Seq<char>>) -> Seq<char> {
    if columns.len() >= 6 {
        join_with(columns.subrange(5, columns.len() as int), "\t"@)
    } else {
        columns[columns.len() - 1]
    }
}

/// Issue that a line of columns holds. The columns are severity, path, and then message; or line
/// and message; or line, column and message; or line, column, check and message.
pub open spec fn columns_issue(columns: Seq<Seq<char>>) -> Option<IssueView> {
    if columns.len() < 3 || severity_named(trim(columns[0])) is None || is_blank(columns[1])
        || is_blank(line_message(columns)) {
        None
    } else {
        Some(
            IssueView::Edt(
                EdtIssueView {
                    path: trim(columns[1]),
                    line: if columns.len() >= 4 {
                        column_number(columns[2])
                    } else {
                        None
                    },
                    column: if columns.len() >= 5 {
                        column_number(columns[3])
                    } else {
                        None
                    },
                    message: trim(line_message(columns)),
                    severity: severity_named(trim(columns[0]))->0,
                    check: if columns.len() >= 6 {
                        column_text(columns[4])
                    } else {
                        None
                    },
                },
            ),
        )
    }
}

/// Issue that a line holds.
pub open spec fn line_issue(line: Seq<char>) -> Option<IssueView> {
    columns_issue(split(line, '\t'))
}

fn message_of(columns: &Vec<String>) -> (r: String)
    requires
        columns.len() >= 3,
    ensures
        r@ == line_message(texts(columns@)),
{
    if columns.len() < 6 {
        return columns[columns.len() - 1].clone();
    }
    let mut rest: Vec<String> = Vec::new();
    let mut i: usize = 5;
    assert(texts(rest@) =~= texts(columns@).subrange(5, 5));
    while i < columns.len()
        invariant
            5 <= i <= columns.len(),
            texts(rest@) == texts(columns@).subrange(5, i as int),
        decreases columns.len() - i,
    {
        push_text(&mut rest, columns[i].as_str());
        assert(texts(columns@).subrange(5, i + 1) =~= texts(columns@).subrange(5, i as int).push(
            columns@[i as int]@,
        ));
        i += 1;
    }
    join_texts(&rest, "\t")
}

/// Issue that a line holds.
pub fn parse_line(line: &str) -> (r: Option<Issue>)
    ensures
        crate::text::opt_view(r) == line_issue(line@),
{
    let columns = text_split(line, '\t');
    let ghost all = split(line@, '\t');
    assert(all == texts(columns@));
    if columns.len() < 3 {
        return None;
    }
    assert(forall|i: int| 0 <= i < columns.len() ==> #[trigger] all[i] == columns@[i]@);
    let label = trimmed(columns[0].as_str());
    let severity = match parse_severity(label.as_str()) {
        Some(s) => s,
        None => {
            return None;
        },
    };
    let path = trimmed(columns[1].as_str());
    if path.as_str().is_empty() {
        return None;
    }
    let line_num = if columns.len() >= 4 {
        parse_optional_u32(columns[2].as_str())
    } else {
        None
    };
    let column_num = if columns.len() >= 5 {
        parse_optional_u32(columns[3].as_str())
    } else {
        None
    };
    let check = if columns.len() >= 6 {
        non_empty(columns[4].as_str())
    } else {
        None
    };
    let message = trimmed(message_of(&columns).as_str());
    if message.as_str().is_empty() {
        return None;
    }
    Some(
        Issue::Edt(
            EdtIssue { path, line: line_num, column: column_num, message, severity, check },
        ),
    )
}

/// Issues of the first `n` lines; blank and malformed lines hold none.
pub open spec fn issues_of(all: Seq<Seq<char>>, n: int) -> Seq<IssueView>
    decreases n,
{
    if n <= 0 {
        Seq::empty()
    } else {
        match line_issue(all[n - 1]) {
            Some(issue) => if is_blank(all[n - 1]) {
                issues_of(all, n - 1)
            } else {
                issues_of(all, n - 1).push(issue)
            },
            None => issues_of(all, n - 1),
        }
    }
}

/// Issues of a log.
pub open spec fn log_issues(content: Seq<char>) -> Seq<IssueView> {
    issues_of(lines(content), lines(content).len() as int)
}

/// Reads the issues of a validation log, in the order of its lines. Lines that hold no issue are
/// skipped.
pub fn parse(content: &str) -> (r: Vec<Issue>)
    ensures
        views(r@) == log_issues(content@),
{
    let rows = text_lines(content);
    let ghost all = lines(content@);
    let mut issues: Vec<Issue> = Vec::new();
    let mut i: usize = 0;
    assert(views(issues@) =~= Seq::<IssueView>::empty());
    while i < rows.len()
        invariant
            i <= rows.len(),
            all == texts(rows@),
            views(issues@) == issues_of(all, i as int),
        decreases rows.len() - i,
    {
        let row = rows[i].as_str();
        assert(row@ == all[i as int]);
        let ghost before = issues@;
        if !text_is_blank(row) {
            if let Some(issue) = parse_line(row) {
                issues.push(issue);
                assert(views(issues@) =~= views(before).push(issue@));
            }
        }
        i += 1;
    }
    issues
}

/// Issues that the log of a check tells of; a log that was not written tells of none.
pub fn parse_path(content: Option<&str>) -> (r: Vec<Issue>)
    ensures
        views(r@) == (match opt_str(content) {
            Some(text) => log_issues(text),
            None => Seq::empty(),
        }),
{
    match content {
        Some(text) => parse(text),
        None => {
            let none: Vec<Issue> = Vec::new();
            assert(views(none@) =~= Seq::<IssueView>::empty());
            none
        },
    }
}

/// The columns are the titles of a table.
pub open spec fn is_header(columns: Seq<Seq<char>>) -> bool {
    let last = ascii_lowered(trim(columns[columns.len() - 1]));
    &&& columns.len() >= 3
    &&& ascii_lowered(trim(columns[0])) == "severity"@
    &&& ascii_lowered(trim(columns[1])) == "path"@
    &&& last == "message"@ || last == "issue"@ || last == "description"@
}

/// Whether the line holds the titles of a table.
pub fn is_header_line(line: &str) -> (r: bool)
    ensures
        r == is_header(split(line@, '\t')),
{
    let columns = text_split(line, '\t');
    assert(forall|i: int|
        0 <= i < columns.len() ==> #[trigger] split(line@, '\t')[i] == columns@[i]@) by {
        assert(split(line@, '\t') == texts(columns@));
    }
    if columns.len() < 3 {
        return false;
    }
    let first = text_ascii_lower(trimmed(columns[0].as_str()).as_str());
    let second = text_ascii_lower(trimmed(columns[1].as_str()).as_str());
    let last = text_ascii_lower(trimmed(columns[columns.len() - 1].as_str()).as_str());
    text_eq(first.as_str(), "severity") && text_eq(second.as_str(), "path") && (text_eq(
        last.as_str(),
        "message",
    ) || text_eq(last.as_str(), "issue") || text_eq(last.as_str(), "description"))
}

/// Whether a line of the log is worth a warning: it is neither blank, nor an issue, nor a title.
pub fn is_unrecognized(line: &str) -> (r: bool)
    ensures
        r == (!is_blank(line@) && line_issue(line@) is None && !is_header(split(line@, '\t'))),
{
    !text_is_blank(line) && parse_line(line).is_none() && !is_header_line(line)
}

proof fn lemma_lists_add_up(a: Seq<Seq<char>>, b: Seq<Seq<char>>)
    ensures
        issues_of(a + b, (a + b).len() as int) == issues_of(a, a.len() as int) + issues_of(
            b,
            b.len() as int,
        ),
{
    lemma_issues_prefix(a, b, a.len() as int);
    lemma_issues_tail(a, b, b.len() as int);
}

proof fn lemma_issues_prefix(a: Seq<Seq<char>>, b: Seq<Seq<char>>, n: int)
    requires
        0 <= n <= a.len(),
    ensures
        issues_of(a + b, n) == issues_of(a, n),
    decreases n,
{
    if n > 0 {
        lemma_issues_prefix(a, b, n - 1);
        assert((a + b)[n - 1] == a[n - 1]);
    }
}

proof fn lemma_issues_tail(a: Seq<Seq<char>>, b: Seq<Seq<char>>, n: int)
    requires
        0 <= n <= b.len(),
    ensures
        issues_of(a + b, a.len() + n) == issues_of(a, a.len() as int) + issues_of(b, n),
    decreases n,
{
    lemma_issues_prefix(a, b, a.len() as int);
    if n > 0 {
        lemma_issues_tail(a, b, n - 1);
        assert((a + b)[a.len() + n - 1] == b[n - 1]);
        let head = issues_of(a, a.len() as int);
        match line_issue(b[n - 1]) {
            Some(issue) => {
                assert(head + issues_of(b, n - 1).push(issue) =~= (head + issues_of(
                    b,
                    n - 1,
                )).push(issue));
            },
            None => {},
        }
    } else {
        assert(issues_of(a, a.len() as int) + Seq::empty() =~= issues_of(a, a.len() as int));
    }
}


proof fn lemma_split_push(s: Seq<char>, c: char, d: char)
    requires
        c != d,
    ensures
        split(s, c).len() > 0,
        split(s.push(d), c) == split(s, c).drop_last().push(split(s, c).last().push(d)),
    decreases s.len(),
{
    let longer = s.push(d);
    let p = char_pos(s, c) as int;
    lemma_char_pos_bounds(s, c);
    if p < s.len() {
        assert forall|i: int| 0 <= i < p implies longer[i] != c by {
            assert(longer[i] == s[i]);
        }
        lemma_char_pos(longer, c, p);
        let head = s.subrange(0, p);
        let tail = s.subrange(p + 1, s.len() as int);
        lemma_split_push(tail, c, d);
        assert(longer.subrange(0, p) =~= head);
        assert(longer.subrange(p + 1, longer.len() as int) =~= tail.push(d));
        assert(split(s, c) == seq![head] + split(tail, c));
        assert(split(longer, c) == seq![head] + split(tail.push(d), c));
        assert(split(s, c).last() == split(tail, c).last());
        assert(split(longer, c) =~= split(s, c).drop_last().push(split(s, c).last().push(d)));
    } else {
        assert forall|i: int| 0 <= i < longer.len() implies longer[i] != c by {
            if i < s.len() {
                assert(longer[i] == s[i]);
            }
        }
        lemma_char_pos(longer, c, longer.len() as int);
        assert(split(s, c) =~= seq![s]);
        assert(split(longer, c) =~= seq![longer]);
        assert(split(longer, c) =~= split(s, c).drop_last().push(split(s, c).last().push(d)));
    }
}

proof fn lemma_join_push(pieces: Seq<Seq<char>>, sep: Seq<char>, d: char)
    requires
        pieces.len() > 0,
    ensures
        join_with(pieces.drop_last().push(pieces.last().push(d)), sep) == join_with(
            pieces,
            sep,
        ).push(d),
{
    let longer = pieces.drop_last().push(pieces.last().push(d));
    if pieces.len() > 1 {
        assert(longer.drop_last() =~= pieces.drop_last());
        let head = join_with(pieces.drop_last(), sep);
        assert(head + sep + pieces.last().push(d) =~= (head + sep + pieces.last()).push(d));
    }
}

/// White space at the end of a line does not matter.
proof fn lemma_line_push_space(line: Seq<char>, c: char)
    requires
        is_space(c),
        c != '\t',
    ensures
        line_issue(line.push(c)) == line_issue(line),
        is_blank(line.push(c)) == is_blank(line),
{
    lemma_trim_push_space(line, c);
    lemma_split_push(line, '\t', c);
    let columns = split(line, '\t');
    let longer = split(line.push(c), '\t');
    let n = columns.len() as int;
    assert(longer.len() == n);
    assert(forall|k: int| 0 <= k < n - 1 ==> longer[k] == columns[k]);
    if n >= 3 {
        if n >= 6 {
            let rest = columns.subrange(5, n);
            assert(longer.subrange(5, n) =~= rest.drop_last().push(rest.last().push(c)));
            lemma_join_push(rest, "\t"@, c);
        }
        assert(line_message(longer) == line_message(columns).push(c));
        lemma_trim_push_space(line_message(columns), c);
    }
}

proof fn lemma_ended_log(a: Seq<char>)
    ensures
        log_issues(a.push('\n')) == log_issues(a),
{
    lemma_lines_ended(a);
    let list = lines(a);
    let ended = lines(a.push('\n'));
    let none = Seq::<char>::empty();
    if a.len() == 0 || a.last() == '\n' {
        assert(ended =~= list + seq![none]);
        lemma_lists_add_up(list, seq![none]);
        assert(is_blank(none));
        assert(issues_of(seq![none], 1) =~= issues_of(seq![none], 0));
        assert(issues_of(seq![none], 0) =~= Seq::<IssueView>::empty());
        assert(log_issues(a) + Seq::<IssueView>::empty() =~= log_issues(a));
    } else {
        let last = list.last();
        let short = strip_last(last, '\r');
        if last.len() > 0 && last[last.len() - 1] == '\r' {
            assert(short.push('\r') =~= last);
            lemma_line_push_space(short, '\r');
        }
        let head = list.drop_last();
        assert(list =~= head + seq![last]);
        assert(ended =~= head + seq![short]);
        lemma_lists_add_up(head, seq![last]);
        lemma_lists_add_up(head, seq![short]);
        assert(issues_of(seq![last], 0) =~= issues_of(seq![short], 0));
        assert(issues_of(seq![last], 1) =~= issues_of(seq![short], 1));
    }
}

/// A log that is read in two parts, cut at a line end, gives the issues of the first part and then
/// those of the second: a row that holds no issue does not touch the others.
pub proof fn parts_of_a_log_add_up(a: Seq<char>, b: Seq<char>)
    ensures
        log_issues(a + "\n"@ + b) == log_issues(a) + log_issues(b),
        log_issues(Seq::empty()).len() == 0,
{
    reveal_strlit("\n");
    assert(a + "\n"@ + b =~= a.push('\n') + b);
    lemma_lines_of_two(a, b);
    lemma_lists_add_up(lines(a.push('\n')), lines(b));
    lemma_ended_log(a);
}

} // verus!
