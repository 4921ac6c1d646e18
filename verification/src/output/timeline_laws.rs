//! Laws of the timeline: its steps stand in order, each under its mark.

use vstd::prelude::*;
use crate::output::text::{
    item_lines, node_text, pipe_text, timeline_lines, TimelineItemView, TimelineStatus,
};
use crate::text_scan::lines;

verus! {

/// A step is told by its mark and its label, and then by its details, line by line; a pipe leads
/// from each step to the next, past its details, and none leads on from the last.
pub proof fn step_is_told_under_its_mark(
    no_color: bool,
    status: TimelineStatus,
    label: Seq<char>,
    detail: Seq<char>,
    i: int,
)
    requires
        0 <= i < lines(detail).len(),
    ensures
        ({
            let bare = TimelineItemView { status, label, detail: None };
            let item = TimelineItemView { status, label, detail: Some(detail) };
            let n = lines(detail).len();
            let head = node_text(no_color, status) + " "@ + label;
            let pipe = pipe_text(no_color);
            &&& item_lines(no_color, bare, true) == seq![head]
            &&& item_lines(no_color, bare, false) == seq![head, pipe]
            &&& item_lines(no_color, item, true).len() == 1 + n
            &&& item_lines(no_color, item, false).len() == 2 + n
            &&& item_lines(no_color, item, true)[0] == head
            &&& item_lines(no_color, item, false)[0] == head
            &&& item_lines(no_color, item, true)[1 + i] == " "@ + "   "@ + lines(detail)[i]
            &&& item_lines(no_color, item, false)[1 + i] == pipe + "   "@ + lines(detail)[i]
            &&& item_lines(no_color, item, false).last() == pipe
        }),
{
}

/// The steps stand one below the other in their order, and the last of them alone is told as the
/// last.
pub proof fn steps_stand_in_order(no_color: bool, items: Seq<TimelineItemView>, i: int, n: int)
    requires
        0 <= i < n <= items.len(),
    ensures
        ({
            let all = timeline_lines(no_color, items, n);
            let step = item_lines(no_color, items[i], i == items.len() - 1);
            let at = timeline_lines(no_color, items, i).len() as int;
            &&& at + step.len() <= all.len()
            &&& all.subrange(at, at + step.len()) == step
            &&& i == n - 1 ==> at + step.len() == all.len()
        }),
        timeline_lines(no_color, items, 0).len() == 0,
    decreases n,
{
    let all = timeline_lines(no_color, items, n);
    let step = item_lines(no_color, items[i], i == items.len() - 1);
    let at = timeline_lines(no_color, items, i).len() as int;
    if i < n - 1 {
        steps_stand_in_order(no_color, items, i, n - 1);
        let before = timeline_lines(no_color, items, n - 1);
        assert(all.subrange(at, at + step.len()) =~= before.subrange(at, at + step.len()));
    } else {
        assert(all.subrange(at, at + step.len()) =~= step);
    }
}

/// With colours the mark tells the status; without them all marks are the same.
pub proof fn colour_tells_the_status(a: TimelineStatus, b: TimelineStatus)
    ensures
        node_text(false, a) == node_text(false, b) <==> a == b,
        node_text(true, a) == node_text(true, b),
        node_text(true, a) != node_text(false, a),
        pipe_text(true) != pipe_text(false),
        node_text(false, TimelineStatus::Succeeded).subrange(0, 5) == seq!['\x1b', '[', '3', '2', 'm'],
        node_text(false, TimelineStatus::Failed).subrange(0, 5) == seq!['\x1b', '[', '3', '1', 'm'],
        node_text(false, TimelineStatus::Skipped).subrange(0, 5) == seq!['\x1b', '[', '3', '4', 'm'],
{
    reveal_strlit("●");
    reveal_strlit("│");
    reveal_strlit("\x1b[34m│\x1b[0m");
    reveal_strlit("\x1b[32m●\x1b[0m");
    reveal_strlit("\x1b[31m●\x1b[0m");
    reveal_strlit("\x1b[34m●\x1b[0m");
    assert(node_text(false, TimelineStatus::Succeeded)[3] == '2');
    assert(node_text(false, TimelineStatus::Failed)[3] == '1');
    assert(node_text(false, TimelineStatus::Skipped)[3] == '4');
    assert(node_text(true, a).len() == 1);
    assert(node_text(false, a).len() > 1);
    assert(pipe_text(true).len() == 1);
    assert(pipe_text(false).len() > 1);
}

} // verus!
