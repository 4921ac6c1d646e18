//! Laws of the validation log of EDT: what every row gives.

use vstd::prelude::*;
use crate::domain::{EdtIssueView, IssueSeverity, IssueView};
use crate::outside::lowercase;
use crate::parsers::edt_validation::{
    column_number, is_header, issues_of, line_issue, line_message, log_issues, severity_named,
    severity_of_word,
};
use crate::text::{is_blank, trim};
use crate::text_laws::{
    first_piece_ends_at_the_separator, free_of, join_undoes_split, text_holds_its_middle,
    text_without_separator_is_one_piece, trimming_twice_is_trimming_once,
};
use crate::text_number::{decimal, decimal_round_trip, is_digit, unsigned_body};
use crate::text_scan::{ascii_lowered, contains, lines, split, stands_at, starts_with};

verus! {

/// The column holds the number; one without any digit holds none.
pub open spec fn holds_number(column: Seq<char>, number: Option<u32>) -> bool {
    match number {
        Some(n) => trim(column) == decimal(n as nat),
        None => forall|i: int| 0 <= i < trim(column).len() ==> !is_digit(#[trigger] trim(column)[i]),
    }
}

/// Two columns, or a column and those behind it, with a tab between them.
pub open spec fn beside(column: Seq<char>, rest: Seq<char>) -> Seq<char> {
    column.push('\t') + rest
}

/// The label names the severity.
pub open spec fn names_severity(label: Seq<char>, severity: IssueSeverity) -> bool {
    severity_of_word(lowercase(trim(label))) == Some(severity)
}

proof fn lemma_number(column: Seq<char>, number: Option<u32>)
    requires
        holds_number(column, number),
    ensures
        column_number(column) == number,
{
    match number {
        Some(n) => {
            decimal_round_trip(n as nat, u32::MAX as nat);
        },
        None => {
            let text = trim(column);
            let body = unsigned_body(text);
            if body.len() > 0 {
                if text[0] == '+' {
                    assert(body[0] == text[1]);
                } else {
                    assert(body[0] == text[0]);
                }
                assert(!is_digit(body[0]));
            }
        },
    }
}

proof fn lemma_label(label: Seq<char>, severity: IssueSeverity)
    requires
        names_severity(label, severity),
    ensures
        severity_named(trim(label)) == Some(severity),
{
    trimming_twice_is_trimming_once(label);
}

/// A row of six columns or more is severity, path, line, column, check and message: each comes out
/// as it stands there, without the white space around it. The message goes on to the end of the
/// row, tabs included; a blank check is none.
pub proof fn full_row_is_read_column_by_column(
    label: Seq<char>,
    path: Seq<char>,
    line: Seq<char>,
    column: Seq<char>,
    check: Seq<char>,
    message: Seq<char>,
    severity: IssueSeverity,
    line_number: Option<u32>,
    column_number: Option<u32>,
)
    requires
        free_of(label, '\t'),
        free_of(path, '\t'),
        free_of(line, '\t'),
        free_of(column, '\t'),
        free_of(check, '\t'),
        names_severity(label, severity),
        !is_blank(path),
        !is_blank(message),
        holds_number(line, line_number),
        holds_number(column, column_number),
    ensures
        ({
            let row = beside(
                label,
                beside(path, beside(line, beside(column, beside(check, message)))),
            );
            &&& line_issue(row) is Some
            &&& line_issue(row)->0 is Edt
            &&& line_issue(row)->0->Edt_0.path == trim(path)
            &&& line_issue(row)->0->Edt_0.line == line_number
            &&& line_issue(row)->0->Edt_0.column == column_number
            &&& line_issue(row)->0->Edt_0.message == trim(message)
            &&& line_issue(row)->0->Edt_0.severity == severity
            &&& is_blank(check) ==> line_issue(row)->0->Edt_0.check is None
            &&& !is_blank(check) ==> line_issue(row)->0->Edt_0.check == Some(trim(check))
        }),
{
    reveal_strlit("\t");
    assert("\t"@ =~= seq!['\t']);
    let r5 = beside(check, message);
    let r4 = beside(column, r5);
    let r3 = beside(line, r4);
    let r2 = beside(path, r3);
    let row = beside(label, r2);
    first_piece_ends_at_the_separator(label, '\t', r2);
    first_piece_ends_at_the_separator(path, '\t', r3);
    first_piece_ends_at_the_separator(line, '\t', r4);
    first_piece_ends_at_the_separator(column, '\t', r5);
    first_piece_ends_at_the_separator(check, '\t', message);
    join_undoes_split(message, '\t');
    let tail = split(message, '\t');
    let columns = split(row, '\t');
    assert(columns =~= seq![label, path, line, column, check] + tail);
    assert(columns.subrange(5, columns.len() as int) =~= tail);
    assert(line_message(columns) == message);
    lemma_label(label, severity);
    lemma_number(line, line_number);
    lemma_number(column, column_number);
}

/// A row of three columns is severity, path and message; of four, the line comes before the
/// message; of five, the column does too. What is not there is absent.
pub proof fn short_row_is_read_column_by_column(
    label: Seq<char>,
    path: Seq<char>,
    line: Seq<char>,
    column: Seq<char>,
    message: Seq<char>,
    severity: IssueSeverity,
    line_number: Option<u32>,
    column_number: Option<u32>,
)
    requires
        free_of(label, '\t'),
        free_of(path, '\t'),
        free_of(line, '\t'),
        free_of(column, '\t'),
        free_of(message, '\t'),
        names_severity(label, severity),
        !is_blank(path),
        !is_blank(message),
        holds_number(line, line_number),
        holds_number(column, column_number),
    ensures
        line_issue(beside(label, beside(path, message))) == Some(
            IssueView::Edt(
                EdtIssueView {
                    path: trim(path),
                    line: None,
                    column: None,
                    message: trim(message),
                    severity,
                    check: None,
                },
            ),
        ),
        line_issue(beside(label, beside(path, beside(line, message)))) == Some(
            IssueView::Edt(
                EdtIssueView {
                    path: trim(path),
                    line: line_number,
                    column: None,
                    message: trim(message),
                    severity,
                    check: None,
                },
            ),
        ),
        line_issue(
            beside(label, beside(path, beside(line, beside(column, message)))),
        ) == Some(
            IssueView::Edt(
                EdtIssueView {
                    path: trim(path),
                    line: line_number,
                    column: column_number,
                    message: trim(message),
                    severity,
                    check: None,
                },
            ),
        ),
{
    lemma_label(label, severity);
    lemma_number(line, line_number);
    lemma_number(column, column_number);
    text_without_separator_is_one_piece(message, '\t');
    let c4 = beside(column, message);
    first_piece_ends_at_the_separator(column, '\t', message);
    let l3 = beside(line, message);
    let l4 = beside(line, c4);
    first_piece_ends_at_the_separator(line, '\t', message);
    first_piece_ends_at_the_separator(line, '\t', c4);
    let p2 = beside(path, message);
    let p3 = beside(path, l3);
    let p4 = beside(path, l4);
    first_piece_ends_at_the_separator(path, '\t', message);
    first_piece_ends_at_the_separator(path, '\t', l3);
    first_piece_ends_at_the_separator(path, '\t', l4);
    first_piece_ends_at_the_separator(label, '\t', p2);
    first_piece_ends_at_the_separator(label, '\t', p3);
    first_piece_ends_at_the_separator(label, '\t', p4);
    assert(split(beside(label, p2), '\t') =~= seq![label, path, message]);
    assert(split(beside(label, p3), '\t') =~= seq![label, path, line, message]);
    assert(split(beside(label, p4), '\t') =~= seq![label, path, line, column, message]);
}

/// A row without a severity, a path or a message, or of fewer than three columns, holds no issue.
pub proof fn incomplete_row_holds_no_issue(label: Seq<char>, path: Seq<char>, message: Seq<char>)
    requires
        free_of(label, '\t'),
        free_of(path, '\t'),
        free_of(message, '\t'),
    ensures
        line_issue(label) is None,
        line_issue(beside(label, path)) is None,
        is_blank(path) || is_blank(message) || severity_of_word(lowercase(trim(label))) is None
            ==> line_issue(beside(label, beside(path, message))) is None,
{
    trimming_twice_is_trimming_once(label);
    text_without_separator_is_one_piece(label, '\t');
    text_without_separator_is_one_piece(path, '\t');
    text_without_separator_is_one_piece(message, '\t');
    first_piece_ends_at_the_separator(label, '\t', path);
    assert(split(beside(label, path), '\t') =~= seq![label, path]);
    let rest = beside(path, message);
    first_piece_ends_at_the_separator(path, '\t', message);
    first_piece_ends_at_the_separator(label, '\t', rest);
    assert(split(beside(label, rest), '\t') =~= seq![label, path, message]);
}

/// A word that begins with `err` or holds the Russian stem names an error; else one that begins
/// with `warn`, or holds its stem, a warning; else one that begins with `info`, or holds its stem,
/// an information. Their first letters alone do too.
pub proof fn severity_goes_by_the_word(rest: Seq<char>, before: Seq<char>)
    ensures
        severity_of_word("err"@ + rest) == Some(IssueSeverity::Error),
        severity_of_word(before + "ошиб"@ + rest) == Some(IssueSeverity::Error),
        !contains("warn"@ + rest, "ошиб"@) ==> severity_of_word("warn"@ + rest) == Some(
            IssueSeverity::Warning,
        ),
        !contains("info"@ + rest, "ошиб"@) && !contains("info"@ + rest, "предупр"@)
            ==> severity_of_word("info"@ + rest) == Some(IssueSeverity::Info),
        severity_of_word("e"@) == Some(IssueSeverity::Error),
        severity_of_word("w"@) == Some(IssueSeverity::Warning),
        severity_of_word("i"@) == Some(IssueSeverity::Info),
        severity_of_word(Seq::empty()) is None,
{
    reveal_strlit("err");
    reveal_strlit("warn");
    reveal_strlit("info");
    reveal_strlit("ошиб");
    reveal_strlit("предупр");
    reveal_strlit("инф");
    reveal_strlit("e");
    reveal_strlit("w");
    reveal_strlit("i");
    let none = Seq::<char>::empty();
    text_holds_its_middle(none, "err"@, rest);
    text_holds_its_middle(before, "ошиб"@, rest);
    text_holds_its_middle(none, "warn"@, rest);
    text_holds_its_middle(none, "info"@, rest);
    let word = "warn"@ + rest;
    assert(word[0] == 'w');
    if starts_with(word, "err"@) {
        assert(word.subrange(0, 3)[0] == word[0]);
    }
    let word = "info"@ + rest;
    assert(word[0] == 'i');
    if starts_with(word, "err"@) {
        assert(word.subrange(0, 3)[0] == word[0]);
    }
    if starts_with(word, "warn"@) {
        assert(word.subrange(0, 4)[0] == word[0]);
    }
    assert("w"@[0] == 'w' && "e"@[0] == 'e' && "i"@[0] == 'i');
    assert(forall|at: int| !stands_at("w"@, "ошиб"@, at) && !stands_at("w"@, "err"@, at));
    assert(forall|at: int|
        !stands_at("i"@, "ошиб"@, at) && !stands_at("i"@, "err"@, at) && !stands_at(
            "i"@,
            "warn"@,
            at,
        ) && !stands_at("i"@, "предупр"@, at));
}

/// A word that names one of the severities has one of the beginnings or stems, or is one of the
/// letters: any other names none.
pub proof fn other_words_name_no_severity(word: Seq<char>)
    requires
        !starts_with(word, "err"@),
        !starts_with(word, "warn"@),
        !starts_with(word, "info"@),
        !contains(word, "ошиб"@),
        !contains(word, "предупр"@),
        !contains(word, "инф"@),
        word.len() != 1,
    ensures
        severity_of_word(word) is None,
{
    reveal_strlit("e");
    reveal_strlit("w");
    reveal_strlit("i");
}

/// A log of one row gives the issue of that row, or none.
pub proof fn log_of_one_row(row: Seq<char>)
    requires
        free_of(row, '\n'),
        !is_blank(row),
    ensures
        line_issue(row) is Some ==> log_issues(row) == seq![line_issue(row)->0],
        line_issue(row) is None ==> log_issues(row).len() == 0,
{
    text_without_separator_is_one_piece(row, '\n');
    if row.len() == 0 {
        trimming_twice_is_trimming_once(row);
    }
    assert(lines(row) =~= seq![row]);
    let all = lines(row);
    assert(issues_of(all, 0) =~= Seq::<IssueView>::empty());
    assert(issues_of(all, 1) == (match line_issue(all[0]) {
        Some(issue) => issues_of(all, 0).push(issue),
        None => issues_of(all, 0),
    }));
    if line_issue(row) is Some {
        assert(log_issues(row) =~= seq![line_issue(row)->0]);
    }
}

/// A row of titles begins with `severity` and `path` and ends with one of three titles, letters'
/// case and the white space around them aside; whatever columns stand between them do not matter.
pub proof fn titles_are_recognised(columns: Seq<Seq<char>>)
    requires
        columns.len() >= 3,
    ensures
        is_header(columns) <==> {
            let last = ascii_lowered(trim(columns.last()));
            &&& ascii_lowered(trim(columns[0])) == "severity"@
            &&& ascii_lowered(trim(columns[1])) == "path"@
            &&& last == "message"@ || last == "issue"@ || last == "description"@
        },
{
}

} // verus!
