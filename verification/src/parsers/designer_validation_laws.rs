//! Laws of the log of the Designer's checks: what every kind of line gives.

use vstd::prelude::*;
use crate::domain::{IssueSeverity, IssueView, ObjectIssueView};
use crate::outside::{lowercase, module_issue_pattern, regex_groups_of};
use crate::parsers::designer_validation::{
    is_context, issue_of_groups, issues_from, module_issue, object_issue, severity_in,
    tells_of_issue, warns,
};
use crate::text::{is_space, trim};
use crate::text_laws::{
    all_space, first_piece_ends_at_the_separator, free_of, is_bare,
    text_without_separator_is_one_piece, trimming_leaves_the_core, trimming_twice_is_trimming_once,
};
use crate::text_number::{decimal, decimal_round_trip};
use crate::text_scan::{contains, lines};

verus! {

/// Words that tell of a warning.
pub open spec fn is_warning_word(word: Seq<char>) -> bool {
    word == "warning"@ || word == "warn:"@ || word == "предупреждение"@
}

/// Words that tell of an issue.
pub open spec fn is_issue_word(word: Seq<char>) -> bool {
    is_warning_word(word) || word == "error"@ || word == "ошиб"@ || word == "fatal"@ || word
        == "неразрешим"@
}

/// A message warns, letters' case aside.
pub open spec fn message_warns(message: Seq<char>) -> bool {
    exists|word: Seq<char>| is_warning_word(word) && #[trigger] contains(lowercase(message), word)
}

/// A message tells of an issue, letters' case aside.
pub open spec fn message_tells_of_issue(message: Seq<char>) -> bool {
    exists|word: Seq<char>| is_issue_word(word) && #[trigger] contains(lowercase(message), word)
}

/// A message is a warning exactly where it holds a word of warning, and an error otherwise; a
/// message is an issue exactly where it holds a word that tells of one.
pub proof fn words_decide(message: Seq<char>)
    ensures
        severity_in(lowercase(message)) == (if message_warns(message) {
            IssueSeverity::Warning
        } else {
            IssueSeverity::Error
        }),
        tells_of_issue(lowercase(message)) == message_tells_of_issue(message),
        message_warns(message) ==> message_tells_of_issue(message),
{
    let lower = lowercase(message);
    if warns(lower) {
        if contains(lower, "warning:"@) {
            lemma_longer_word(lower);
        }
        assert(contains(lower, "warning"@) || contains(lower, "warn:"@) || contains(
            lower,
            "предупреждение"@,
        ));
        assert(is_warning_word("warning"@) && is_warning_word("warn:"@) && is_warning_word(
            "предупреждение"@,
        ));
    }
    if tells_of_issue(lower) && !warns(lower) {
        assert(is_issue_word("error"@) && is_issue_word("ошиб"@) && is_issue_word("fatal"@)
            && is_issue_word("неразрешим"@));
    }
    if message_warns(message) {
        let word = choose|word: Seq<char>|
            is_warning_word(word) && #[trigger] contains(lower, word);
        assert(is_issue_word(word));
    }
}

proof fn lemma_longer_word(lower: Seq<char>)
    requires
        contains(lower, "warning:"@),
    ensures
        contains(lower, "warning"@),
{
    reveal_strlit("warning:");
    reveal_strlit("warning");
    let at = choose|at: int|
        #[trigger] crate::text_scan::stands_at(lower, "warning:"@, at);
    let long = lower.subrange(at, at + 8);
    assert(long == "warning:"@);
    assert(lower.subrange(at, at + 7) =~= long.subrange(0, 7));
    assert("warning:"@.subrange(0, 7) =~= "warning"@);
    assert(crate::text_scan::stands_at(lower, "warning"@, at));
}

/// A line that names an object and tells of an issue in it gives one issue: its object is the first
/// word of the line, its message all the rest, without the white space around them.
pub proof fn object_line_gives_its_issue(
    lead: Seq<char>,
    object: Seq<char>,
    gap: Seq<char>,
    message: Seq<char>,
    trail: Seq<char>,
)
    requires
        all_space(lead) && free_of(lead, '\n'),
        all_space(gap) && free_of(gap, '\n'),
        all_space(trail) && free_of(trail, '\n'),
        object.len() > 0,
        forall|i: int| 0 <= i < object.len() ==> !is_space(#[trigger] object[i]),
        message.len() > 0,
        is_bare(message),
        free_of(message, '\n'),
        message_tells_of_issue(message),
        module_issue(object.push(' ') + gap + message) is None,
        !contains(lowercase(object.push(' ') + gap + message), "ошибок не обнаружено"@),
    ensures
        issues_from(lines(lead + (object.push(' ') + gap + message) + trail), 0) == seq![
            IssueView::Object(
                ObjectIssueView {
                    object,
                    message,
                    severity: if message_warns(message) {
                        IssueSeverity::Warning
                    } else {
                        IssueSeverity::Error
                    },
                },
            ),
        ],
{
    let line = object.push(' ') + gap + message;
    let content = lead + line + trail;
    assert(line[0] == object[0]);
    assert(line[line.len() - 1] == message[message.len() - 1]);
    assert(is_bare(line));
    trimming_leaves_the_core(lead, line, trail);
    assert(free_of(content, '\n')) by {
        assert forall|i: int| 0 <= i < content.len() implies #[trigger] content[i] != '\n' by {
            let k = i - lead.len();
            if k < 0 {
                assert(content[i] == lead[i]);
            } else if k < line.len() {
                assert(content[i] == line[k]);
                if k < object.len() {
                    assert(line[k] == object[k]);
                    assert(!is_space(object[k]));
                } else if k == object.len() {
                } else if k < object.len() + 1 + gap.len() {
                    assert(line[k] == gap[k - object.len() - 1]);
                } else {
                    assert(line[k] == message[k - object.len() - 1 - gap.len()]);
                }
            } else {
                assert(content[i] == trail[k - line.len()]);
            }
        }
    }
    text_without_separator_is_one_piece(content, '\n');
    assert(lines(content) =~= seq![content]);
    assert(free_of(object, ' ')) by {
        assert forall|i: int| 0 <= i < object.len() implies #[trigger] object[i] != ' ' by {
            assert(!is_space(object[i]));
        }
    }
    first_piece_ends_at_the_separator(object, ' ', gap + message);
    assert(object.push(' ') + (gap + message) =~= line);
    let none = Seq::<char>::empty();
    trimming_leaves_the_core(gap, message, none);
    assert(gap + message + none =~= gap + message);
    words_decide(message);
    let log = seq![content];
    assert(issues_from(log, 1) =~= Seq::<IssueView>::empty());
    assert(issues_from(log, 0) =~= seq![object_issue(line)->0]);
}

/// Object and message of an issue make up the line that it came from, with the one space, or the
/// white space, that stood between them.
pub proof fn object_issue_keeps_the_line(object: Seq<char>, tail: Seq<char>)
    requires
        free_of(object, ' '),
    ensures
        message_tells_of_issue(trim(tail)) ==> {
            let issue = object_issue(object.push(' ') + tail);
            &&& issue is Some
            &&& issue->0 is Object
            &&& issue->0->Object_0.object == object
            &&& issue->0->Object_0.message == trim(tail)
            &&& is_bare(tail) ==> issue->0->Object_0.object + seq![' ']
                + issue->0->Object_0.message == object.push(' ') + tail
        },
{
    first_piece_ends_at_the_separator(object, ' ', tail);
    words_decide(trim(tail));
    trimming_twice_is_trimming_once(tail);
    assert(object + seq![' '] + tail =~= object.push(' ') + tail);
}

/// Where only what follows the second word tells of an issue, the object is the first two words.
pub proof fn object_of_two_words(first: Seq<char>, second: Seq<char>, tail: Seq<char>)
    requires
        free_of(first, ' '),
        free_of(second, ' '),
        !message_tells_of_issue(trim(second.push(' ') + tail)),
    ensures
        message_tells_of_issue(trim(tail)) ==> {
            let issue = object_issue(first.push(' ') + (second.push(' ') + tail));
            &&& issue is Some
            &&& issue->0 is Object
            &&& issue->0->Object_0.object == first.push(' ') + second
            &&& issue->0->Object_0.message == trim(tail)
        },
        !message_tells_of_issue(trim(tail)) ==> object_issue(
            first.push(' ') + (second.push(' ') + tail),
        ) is None,
        object_issue(first) is None,
{
    reveal_strlit(" ");
    first_piece_ends_at_the_separator(first, ' ', second.push(' ') + tail);
    first_piece_ends_at_the_separator(second, ' ', tail);
    text_without_separator_is_one_piece(first, ' ');
    words_decide(trim(second.push(' ') + tail));
    words_decide(trim(tail));
    assert(first + " "@ + second =~= first.push(' ') + second);
}

/// A line in which a module, a place in it and a message were found gives an issue with that path,
/// behind the name of the extension where one is named, that line and column, and that message. A
/// place that no number of 32 bits tells gives none.
pub proof fn module_line_gives_its_issue(
    line: Seq<char>,
    whole: Option<Seq<char>>,
    extension: Option<Seq<char>>,
    path: Seq<char>,
    row: u32,
    column: u32,
    message: Seq<char>,
)
    requires
        regex_groups_of(module_issue_pattern(), line) == Some(
            seq![
                whole,
                extension,
                Some(path),
                Some(decimal(row as nat)),
                Some(decimal(column as nat)),
                Some(message),
            ],
        ),
    ensures
        module_issue(line) is Some,
        module_issue(line)->0 is Module,
        ({
            let issue = module_issue(line)->0->Module_0;
            &&& extension is None ==> issue.path == path
            &&& extension matches Some(name) ==> issue.path == name.push(' ') + path
            &&& issue.line == Some(row)
            &&& issue.column == Some(column)
            &&& issue.message == trim(message)
            &&& issue.severity == (if message_warns(trim(message)) {
                IssueSeverity::Warning
            } else {
                IssueSeverity::Error
            })
        }),
{
    reveal_strlit(" ");
    decimal_round_trip(row as nat, u32::MAX as nat);
    decimal_round_trip(column as nat, u32::MAX as nat);
    words_decide(trim(message));
    if let Some(name) = extension {
        assert(name + " "@ + path =~= name.push(' ') + path);
    }
}

/// A line in a module comes before everything else it may look like, and the line behind it is
/// passed over exactly where it shows the code; the other lines are read on their own.
pub proof fn code_of_a_module_issue_is_passed_over(
    line: Seq<char>,
    next: Seq<char>,
    log: Seq<Seq<char>>,
)
    requires
        trim(line).len() > 0,
        !contains(lowercase(trim(line)), "ошибок не обнаружено"@),
        module_issue(trim(line)) is Some,
    ensures
        is_context(next) ==> issues_from(seq![line, next] + log, 0) == seq![
            module_issue(trim(line))->0,
        ] + issues_from(log, 0),
        !is_context(next) ==> issues_from(seq![line, next] + log, 0) == seq![
            module_issue(trim(line))->0,
        ] + issues_from(seq![next] + log, 0),
{
    let all = seq![line, next] + log;
    assert(all[0] == line && all[1] == next);
    lemma_behind(seq![line, next], log, 0);
    lemma_behind(seq![line], seq![next] + log, 0);
    assert(seq![line] + (seq![next] + log) =~= all);
}

proof fn lemma_behind(a: Seq<Seq<char>>, b: Seq<Seq<char>>, i: int)
    requires
        0 <= i <= b.len(),
    ensures
        issues_from(a + b, a.len() + i) == issues_from(b, i),
    decreases b.len() - i,
{
    if i < b.len() {
        assert((a + b)[a.len() + i] == b[i]);
        lemma_behind(a, b, i + 1);
        if i + 1 < b.len() {
            assert((a + b)[a.len() + i + 1] == b[i + 1]);
            lemma_behind(a, b, i + 2);
        }
    }
}

/// A line that is blank, tells that there are no errors, or tells of no issue gives none, and the
/// lines behind it are read on their own.
pub proof fn other_line_gives_nothing(line: Seq<char>, log: Seq<Seq<char>>)
    requires
        all_space(line) || contains(lowercase(trim(line)), "ошибок не обнаружено"@) || (
        module_issue(trim(line)) is None && object_issue(trim(line)) is None),
    ensures
        issues_from(seq![line] + log, 0) == issues_from(log, 0),
{
    let all = seq![line] + log;
    assert(all[0] == line);
    lemma_behind(seq![line], log, 0);
    crate::text_laws::blank_text_is_white_space(line);
}

/// A line of a module that lacks its module, its line, its column or its message holds no issue.
pub proof fn module_line_needs_all_its_parts(groups: Seq<Option<Seq<char>>>, i: int)
    requires
        2 <= i <= 5,
    ensures
        groups.len() <= i ==> issue_of_groups(groups) is None,
        groups.len() > i && groups[i] is None ==> issue_of_groups(groups) is None,
{
}

} // verus!
