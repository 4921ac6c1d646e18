//! Laws of the presenter: what is written of a message, and where.

use vstd::prelude::*;
use crate::domain::{dump_mode_name, status_name, DumpMode, SyntaxCheckStatus};
use crate::output::presenter::{shown, writes_json, Presenter};
use crate::output::text::{
    error_line, info_lines, node_text, ok_line, pipe_text, success_line, TimelineStatus,
};
use crate::text_scan::lines;

verus! {

/// Lines are shown exactly where the output is not JSON, and then all of them.
pub proof fn lines_are_shown_unless_the_output_is_json(p: Presenter, list: Seq<Seq<char>>)
    ensures
        p.format@ == "json"@ ==> writes_json(p) && shown(p, list).len() == 0,
        p.format@ != "json"@ ==> !writes_json(p) && shown(p, list) == list,
{
}

/// A success and a step that succeeded stand behind the mark of a success; of the two only the
/// success says so in words. An error says so in words too, in red where there are colours.
pub proof fn message_stands_behind_what_it_is(no_color: bool, msg: Seq<char>)
    ensures
        ok_line(no_color, msg) == node_text(no_color, TimelineStatus::Succeeded) + " OK: "@ + msg,
        success_line(no_color, msg) == node_text(no_color, TimelineStatus::Succeeded) + " "@ + msg,
        error_line(true, msg) == "ERROR: "@ + msg,
        error_line(false, msg) == "\x1b[31mERROR\x1b[0m: "@ + msg,
{
}

/// Each line of an information stands behind a pipe, in its order.
pub proof fn information_is_told_line_by_line(no_color: bool, msg: Seq<char>, i: int)
    requires
        0 <= i < lines(msg).len(),
    ensures
        info_lines(no_color, msg).len() == lines(msg).len(),
        info_lines(no_color, msg)[i] == pipe_text(no_color) + " "@ + lines(msg)[i],
{
}

/// Statuses and modes are told under names of their own.
pub proof fn statuses_and_modes_have_names_of_their_own(
    a: SyntaxCheckStatus,
    b: SyntaxCheckStatus,
    m: DumpMode,
    n: DumpMode,
)
    ensures
        status_name(a) == status_name(b) <==> a == b,
        dump_mode_name(m) == dump_mode_name(n) <==> m == n,
        a is Clean ==> status_name(a) == "clean"@,
        m is Full ==> dump_mode_name(m) == "FULL"@,
        m is Partial ==> dump_mode_name(m) == "PARTIAL"@,
{
    reveal_strlit("clean");
    reveal_strlit("issues_found");
    reveal_strlit("tool_failed");
    reveal_strlit("FULL");
    reveal_strlit("INCREMENTAL");
    reveal_strlit("PARTIAL");
    assert("clean"@.len() == 5 && "issues_found"@.len() == 12 && "tool_failed"@.len() == 11);
    assert("FULL"@.len() == 4 && "INCREMENTAL"@.len() == 11 && "PARTIAL"@.len() == 7);
}

} // verus!
