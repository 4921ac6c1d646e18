//! Laws of the logs of test runs: which lines are errors, and how far an error reaches.

use vstd::prelude::*;
use crate::outside::lowercase;
use crate::parsers::vanessa_log::{error_lines, looks_like_error};
use crate::parsers::yaxunit_log::{coded, has_timestamp, log_errors, log_state};
use crate::text::{is_space, join_with, trim};
use crate::text_laws::{all_space, blank_text_is_white_space, text_holds_its_middle};
use crate::text_scan::{contains, stands_at};

verus! {

// ---------------------------------------------------------------------------------------------
// Lines that look like errors

/// A line looks like an error wherever one of the three words stands in it, and only there.
pub proof fn words_of_an_error(before: Seq<char>, after: Seq<char>, lower: Seq<char>)
    ensures
        looks_like_error(before + "error"@ + after),
        looks_like_error(before + "ошибк"@ + after),
        looks_like_error(before + "exception"@ + after),
        !contains(lower, "error"@) && !contains(lower, "ошибк"@) && !contains(lower, "exception"@)
            ==> !looks_like_error(lower),
{
    text_holds_its_middle(before, "error"@, after);
    text_holds_its_middle(before, "ошибк"@, after);
    text_holds_its_middle(before, "exception"@, after);
}

/// One line more adds at most one error, at the end: the line itself without the white space around
/// it, where it looks like an error in whatever case it is written.
pub proof fn line_is_told_where_it_looks_like_an_error(log: Seq<Seq<char>>, line: Seq<char>)
    ensures
        error_lines(log, 0).len() == 0,
        trim(line).len() > 0 && looks_like_error(lowercase(trim(line))) ==> error_lines(
            log.push(line),
            (log.len() + 1) as int,
        ) == error_lines(log, log.len() as int).push(trim(line)),
        trim(line).len() == 0 || !looks_like_error(lowercase(trim(line))) ==> error_lines(
            log.push(line),
            (log.len() + 1) as int,
        ) == error_lines(log, log.len() as int),
{
    lemma_error_lines_prefix(log, line, log.len() as int);
}

proof fn lemma_error_lines_prefix(log: Seq<Seq<char>>, line: Seq<char>, n: int)
    requires
        n <= log.len(),
    ensures
        error_lines(log.push(line), n) == error_lines(log, n),
    decreases n,
{
    if n > 0 {
        lemma_error_lines_prefix(log, line, n - 1);
    }
}

// ---------------------------------------------------------------------------------------------
// Entries of several lines

/// The lines are one entry: the first is marked as an error, and the others neither are marked nor
/// begin with the time.
pub open spec fn is_entry(entry: Seq<Seq<char>>) -> bool {
    &&& entry.len() > 0
    &&& contains(entry[0], "[ERR]"@)
    &&& forall|i: int|
        1 <= i < entry.len() ==> !contains(#[trigger] entry[i], "[ERR]"@) && !has_timestamp(
            entry[i],
        )
}

proof fn lemma_state_prefix(a: Seq<Seq<char>>, b: Seq<Seq<char>>, n: int)
    requires
        n <= a.len(),
    ensures
        log_state(a + b, n) == log_state(a, n),
    decreases n,
{
    if n > 0 {
        lemma_state_prefix(a, b, n - 1);
    }
}

proof fn lemma_nothing_is_kept_outside(log: Seq<Seq<char>>, n: int)
    requires
        n <= log.len(),
    ensures
        !log_state(log, n).in_error ==> log_state(log, n).current.len() == 0,
    decreases n,
{
    if n > 0 {
        lemma_nothing_is_kept_outside(log, n - 1);
    }
}

/// An entry that is being read holds all its lines so far, one below the other.
pub proof fn entry_holds_its_lines(before: Seq<Seq<char>>, entry: Seq<Seq<char>>)
    requires
        is_entry(entry),
        !log_state(before, before.len() as int).in_error,
    ensures
        ({
            let s = log_state(before + entry, (before.len() + entry.len()) as int);
            &&& s.in_error
            &&& s.current == join_with(entry, "\n"@)
            &&& s.errors == log_state(before, before.len() as int).errors
            &&& !all_space(s.current) && s.current.len() > 0
        }),
    decreases entry.len(),
{
    reveal_strlit("[ERR]");
    let b = before.len() as int;
    let n = entry.len() as int;
    let log = before + entry;
    lemma_state_prefix(before, entry, b);
    lemma_nothing_is_kept_outside(before, b);
    let first = entry[0];
    let at = choose|at: int| #[trigger] stands_at(first, "[ERR]"@, at);
    assert(contains(first, "[ERR]"@));
    assert(log[b + n - 1] == entry[n - 1]);
    if n == 1 {
        assert(entry =~= seq![first]);
        assert(log_state(log, b).current + first =~= first);
        assert(first.subrange(at, at + 5)[0] == '[');
        assert(first[at] == '[');
    } else {
        let rest = entry.drop_last();
        assert(is_entry(rest)) by {
            assert forall|i: int| 1 <= i < rest.len() implies !contains(
                #[trigger] rest[i],
                "[ERR]"@,
            ) && !has_timestamp(rest[i]) by {
                assert(rest[i] == entry[i]);
            }
        }
        entry_holds_its_lines(before, rest);
        let head = before + rest;
        assert(head + seq![entry[n - 1]] =~= log);
        lemma_state_prefix(head, seq![entry[n - 1]], b + n - 1);
        let last = entry[n - 1];
        let s = log_state(log, b + n - 1);
        assert(!contains(last, "[ERR]"@));
        let current = s.current + "\n"@ + last;
        let k = choose|k: int| 0 <= k < s.current.len() && !is_space(#[trigger] s.current[k]);
        assert(current[k] == s.current[k]);
    }
}

/// A line with the time ends the entry, and so does another marked line, which begins one of its
/// own; the entry is then an error: its lines, one below the other, without the white space around
/// them. The end of the log ends it too.
pub proof fn entry_becomes_an_error(
    before: Seq<Seq<char>>,
    entry: Seq<Seq<char>>,
    line: Seq<char>,
)
    requires
        is_entry(entry),
        !log_state(before, before.len() as int).in_error,
    ensures
        ({
            let known = log_state(before, before.len() as int).errors;
            let all = known.push(trim(join_with(entry, "\n"@)));
            let n = (before.len() + entry.len()) as int;
            let next = log_state(before + entry + seq![line], n + 1);
            &&& log_errors(before + entry) == all
            &&& contains(line, "[ERR]"@) ==> next.errors == all && next.in_error && next.current
                == line
            &&& !contains(line, "[ERR]"@) && has_timestamp(line) ==> next.errors == all
                && !next.in_error
            &&& log_errors(before) == known
        }),
{
    entry_holds_its_lines(before, entry);
    let log = before + entry;
    let n = log.len() as int;
    lemma_state_prefix(log, seq![line], n);
    assert((log + seq![line])[n] == line);
    blank_text_is_white_space(log_state(log, n).current);
}

/// Outside of entries a line that is not marked tells of nothing.
pub proof fn line_outside_of_entries_is_passed_over(before: Seq<Seq<char>>, line: Seq<char>)
    requires
        !log_state(before, before.len() as int).in_error,
        !contains(line, "[ERR]"@),
    ensures
        log_errors(before.push(line)) == log_errors(before),
        !log_state(before.push(line), (before.len() + 1) as int).in_error,
{
    assert(before.push(line) =~= before + seq![line]);
    lemma_state_prefix(before, seq![line], before.len() as int);
}

/// Each error is told as it is, under one code.
pub proof fn errors_are_told_as_they_are(errors: Seq<Seq<char>>, i: int)
    requires
        0 <= i < errors.len(),
    ensures
        coded(errors).len() == errors.len(),
        coded(errors)[i].message == errors[i],
        coded(errors)[i].code == "yaxunit_log_error"@,
{
}

} // verus!
