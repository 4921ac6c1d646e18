//! Laws of the interactive session: when a prompt is seen, where bytes go, and what each turn of a
//! wait does.

use vstd::prelude::*;
use crate::outside::lossy_text;
use crate::platform::interactive::{InteractiveProcessErrorView, InteractiveStream};
use crate::platform::interactive_session::{
    exit_turn, fed, fed_all, flushed, plain_turn, policy_turn, prompt_taken, settled_streams,
    waiting_anew, InteractiveSessionView, PromptWaitView, ReaderEventView, TurnActionView,
    TurnInputView, WaitModeView,
};
use crate::platform::process::{ProcessExecutionPolicy, ProcessInterruptionReason};
use crate::platform::process_run::ChildStatusView;
use crate::platform::prompt::{
    consumed, is_blank_byte, is_line_end, kept, last_prompt, prompt_at, scan_prompt, settled,
};
use crate::time::whole_millis;

verus! {

// ---------------------------------------------------------------------------------------------
// Prompts

/// Bytes that stand apart from the blanks around them: the first is no blank, and none ends a line.
pub open spec fn is_distinct_prompt(prompt: Seq<u8>) -> bool {
    &&& prompt.len() > 0
    &&& !is_blank_byte(prompt[0])
    &&& forall|i: int| 0 <= i < prompt.len() ==> !is_line_end(#[trigger] prompt[i])
}

/// A prompt that begins a line and has nothing but blanks behind it is taken out, with the blanks;
/// what stands before it is output, as it is and behind the output that was there.
pub proof fn prompt_at_the_end_is_taken_out(
    fresh: bool,
    before: Seq<u8>,
    prompt: Seq<u8>,
    blanks: Seq<u8>,
    output: Seq<u8>,
)
    requires
        is_distinct_prompt(prompt),
        if before.len() == 0 {
            fresh
        } else {
            is_line_end(before.last())
        },
        forall|i: int| 0 <= i < blanks.len() ==> is_blank_byte(#[trigger] blanks[i]),
    ensures
        last_prompt(fresh, before + prompt + blanks, prompt) == Some(before.len() as int),
        consumed(fresh, before + prompt + blanks, output, prompt) == Some(
            (Seq::<u8>::empty(), output + before),
        ),
{
    let buffer = before + prompt + blanks;
    let at = before.len() as int;
    assert(buffer.subrange(at, at + prompt.len()) =~= prompt);
    if at > 0 {
        assert(buffer[at - 1] == before.last());
    }
    assert forall|k: int| at + prompt.len() <= k < buffer.len() implies is_blank_byte(
        #[trigger] buffer[k],
    ) by {
        assert(buffer[k] == blanks[k - at - prompt.len()]);
    }
    assert(prompt_at(fresh, buffer, prompt, at));
    assert forall|i: int| at < i <= buffer.len() - prompt.len() implies !#[trigger] prompt_at(
        fresh,
        buffer,
        prompt,
        i,
    ) by {
        if i - 1 < at + prompt.len() {
            assert(buffer[i - 1] == prompt[i - 1 - at]);
        } else {
            assert(buffer[i] == blanks[i - at - prompt.len()]);
            assert(buffer.subrange(i, i + prompt.len())[0] == buffer[i]);
        }
    }
    lemma_scan_finds(fresh, buffer, prompt, at, buffer.len() - prompt.len());
    assert(buffer.subrange(0, at) =~= before);
}

proof fn lemma_scan_finds(fresh: bool, buffer: Seq<u8>, prompt: Seq<u8>, at: int, limit: int)
    requires
        0 <= at <= limit,
        prompt_at(fresh, buffer, prompt, at),
        forall|i: int| at < i <= limit ==> !#[trigger] prompt_at(fresh, buffer, prompt, i),
    ensures
        scan_prompt(fresh, buffer, prompt, limit) == Some(at),
    decreases limit,
{
    if limit > at {
        lemma_scan_finds(fresh, buffer, prompt, at, limit - 1);
    }
}

proof fn lemma_scan_fails(fresh: bool, buffer: Seq<u8>, prompt: Seq<u8>, limit: int)
    requires
        forall|i: int| 0 <= i <= limit ==> !#[trigger] prompt_at(fresh, buffer, prompt, i),
    ensures
        scan_prompt(fresh, buffer, prompt, limit) is None,
    decreases limit + 1,
{
    if limit >= 0 {
        assert(!prompt_at(fresh, buffer, prompt, limit));
        lemma_scan_fails(fresh, buffer, prompt, limit - 1);
    }
}

/// No prompt is seen where it does not begin a line, nor where anything but blanks follows it.
pub proof fn prompt_within_text_is_no_prompt(
    fresh: bool,
    before: Seq<u8>,
    prompt: Seq<u8>,
    after: Seq<u8>,
    b: u8,
)
    requires
        is_distinct_prompt(prompt),
        !is_blank_byte(b),
        b != prompt.last(),
    ensures
        last_prompt(fresh, before + prompt + after.push(b), prompt) is None,
        consumed(fresh, before + prompt + after.push(b), Seq::empty(), prompt) is None,
        !fresh ==> !prompt_at(fresh, prompt, prompt, 0),
        before.len() > 0 && !is_line_end(before.last()) ==> !prompt_at(
            fresh,
            before + prompt,
            prompt,
            before.len() as int,
        ),
{
    let buffer = before + prompt + after.push(b);
    let n = buffer.len() as int;
    let m = prompt.len() as int;
    assert(buffer[n - 1] == b);
    assert forall|i: int| 0 <= i <= n - m implies !#[trigger] prompt_at(
        fresh,
        buffer,
        prompt,
        i,
    ) by {
        if i + m == n {
            assert(buffer.subrange(i, i + m)[m - 1] == b);
        }
    }
    lemma_scan_fails(fresh, buffer, prompt, n - m);
    if before.len() > 0 {
        assert((before + prompt)[before.len() - 1] == before.last());
    }
}

/// A prompt on stdout is taken out of stdout and leaves stderr alone; only where stdout holds none
/// is one taken out of stderr.
pub proof fn prompt_is_taken_from_its_own_stream(s: InteractiveSessionView)
    ensures
        ({
            let out = consumed(s.stdout_fresh, s.stdout_pending, s.stdout, s.prompt);
            let err = consumed(s.stderr_fresh, s.stderr_pending, s.stderr, s.prompt);
            let taken = prompt_taken(s);
            &&& taken is None <==> out is None && err is None
            &&& out is Some ==> {
                &&& taken->0.stdout == (out->0).1 && taken->0.stdout_pending == (out->0).0
                &&& taken->0.stderr == s.stderr && taken->0.stderr_pending == s.stderr_pending
            }
            &&& out is None && err is Some ==> {
                &&& taken->0.stderr == (err->0).1 && taken->0.stderr_pending == (err->0).0
                &&& taken->0.stdout == s.stdout && taken->0.stdout_pending == s.stdout_pending
            }
        }),
{
}

// ---------------------------------------------------------------------------------------------
// Bytes

/// Bytes that come in stand behind those of their own stream, and no other stream changes. Neither
/// settling nor flushing loses, adds or moves a byte between streams, and after a flush nothing is
/// held back.
pub proof fn bytes_keep_their_stream_and_order(s: InteractiveSessionView, bytes: Seq<u8>)
    ensures
        ({
            let out = fed(s, ReaderEventView::Chunk(InteractiveStream::Stdout, bytes));
            let err = fed(s, ReaderEventView::Chunk(InteractiveStream::Stderr, bytes));
            let held = settled_streams(s);
            let all = flushed(s);
            &&& out.1 is None && err.1 is None
            &&& out.0.stdout_pending == s.stdout_pending + bytes && out.0.stdout == s.stdout
            &&& out.0.stderr_pending == s.stderr_pending && out.0.stderr == s.stderr
            &&& err.0.stderr_pending == s.stderr_pending + bytes && err.0.stderr == s.stderr
            &&& err.0.stdout_pending == s.stdout_pending && err.0.stdout == s.stdout
            &&& held.stdout + held.stdout_pending == s.stdout + s.stdout_pending
            &&& held.stderr + held.stderr_pending == s.stderr + s.stderr_pending
            &&& all.stdout == s.stdout + s.stdout_pending && all.stdout_pending.len() == 0
            &&& all.stderr == s.stderr + s.stderr_pending && all.stderr_pending.len() == 0
        }),
        ({
            let held = settled_streams(s);
            s.prompt.len() > 1 ==> held.stdout_pending.len() < s.prompt.len()
                && held.stderr_pending.len() < s.prompt.len()
        }),
{
    assert(settled(s.stdout_pending, s.prompt.len()) + kept(s.stdout_pending, s.prompt.len())
        =~= s.stdout_pending);
    assert(settled(s.stderr_pending, s.prompt.len()) + kept(s.stderr_pending, s.prompt.len())
        =~= s.stderr_pending);
    let held = settled_streams(s);
    assert(held.stdout + held.stdout_pending =~= s.stdout + (settled(
        s.stdout_pending,
        s.prompt.len(),
    ) + kept(s.stdout_pending, s.prompt.len())));
    assert(held.stderr + held.stderr_pending =~= s.stderr + (settled(
        s.stderr_pending,
        s.prompt.len(),
    ) + kept(s.stderr_pending, s.prompt.len())));
}

/// A stream that ends changes nothing; one that cannot be read spoils the session, and later events
/// are not taken in.
pub proof fn unreadable_stream_spoils_the_session(
    s: InteractiveSessionView,
    events: Seq<ReaderEventView>,
    stream: InteractiveStream,
    message: Seq<char>,
    later: ReaderEventView,
)
    requires
        fed_all(s, events).1 is None,
    ensures
        fed(s, ReaderEventView::Closed) == (s, None::<InteractiveProcessErrorView>),
        ({
            let broken = fed_all(s, events.push(ReaderEventView::ReadError(stream, message)));
            let after = fed_all(
                s,
                events.push(ReaderEventView::ReadError(stream, message)).push(later),
            );
            &&& broken.1 == Some(
                InteractiveProcessErrorView::StreamReadFailed { stream, message },
            )
            &&& broken.0.poisoned
            &&& after == broken
        }),
{
    let e = ReaderEventView::ReadError(stream, message);
    assert(events.push(e).drop_last() =~= events);
    assert(events.push(e).push(later).drop_last() =~= events.push(e));
}

/// A new wait begins with no output, and keeps the bytes that are held back.
pub proof fn new_wait_begins_without_output(s: InteractiveSessionView)
    ensures
        waiting_anew(s).stdout.len() == 0,
        waiting_anew(s).stderr.len() == 0,
        waiting_anew(s).stdout_pending == s.stdout_pending,
        waiting_anew(s).stderr_pending == s.stderr_pending,
        s.stdout_pending.len() == 0 ==> waiting_anew(s).stdout_fresh,
        s.stderr_pending.len() == 0 ==> waiting_anew(s).stderr_fresh,
{
}

// ---------------------------------------------------------------------------------------------
// Turns

/// A prompt ends the wait, whatever else has happened by then.
pub proof fn prompt_ends_the_wait(
    s: InteractiveSessionView,
    wait: PromptWaitView,
    policy: ProcessExecutionPolicy,
    input: TurnInputView,
)
    requires
        prompt_taken(s) is Some,
    ensures
        plain_turn(s, wait, input) == (prompt_taken(s)->0, TurnActionView::Drain),
        policy_turn(s, wait, policy, input) == (
            prompt_taken(s)->0,
            wait.observed,
            TurnActionView::Drain,
        ),
{
}

/// Without a prompt, a wait whose time is up kills the child and fails for want of time, with all
/// the output there is.
pub proof fn wait_ends_at_its_deadline(
    s: InteractiveSessionView,
    wait: PromptWaitView,
    input: TurnInputView,
)
    requires
        prompt_taken(s) is None,
        input.now.nanos >= wait.deadline.nanos,
    ensures
        ({
            let stdout = lossy_text(s.stdout + s.stdout_pending);
            let stderr = lossy_text(s.stderr + s.stderr_pending);
            let timeout_ms = whole_millis(wait.timeout);
            let action = plain_turn(s, wait, input).1;
            &&& wait.mode is Startup ==> action == (TurnActionView::KillThenFail {
                error: InteractiveProcessErrorView::StartupTimeout { timeout_ms, stdout, stderr },
            })
            &&& wait.mode matches WaitModeView::Command { command } ==> action == (
            TurnActionView::KillThenFail {
                error: InteractiveProcessErrorView::CommandTimeout {
                    command,
                    timeout_ms,
                    stdout,
                    stderr,
                },
            })
        }),
{
    bytes_keep_their_stream_and_order(s, Seq::empty());
}

/// Within its time a wait listens on, for no longer than it has left and never long; a child that has
/// exited has its last words gathered, and one that cannot be seen fails the wait.
pub proof fn wait_listens_within_its_time(
    s: InteractiveSessionView,
    wait: PromptWaitView,
    policy: ProcessExecutionPolicy,
    input: TurnInputView,
)
    requires
        prompt_taken(s) is None,
        input.now.nanos < wait.deadline.nanos,
        !input.cancelled,
        wait.observed is None,
        s.live,
    ensures
        ({
            let plain = plain_turn(s, wait, input);
            let ruled = policy_turn(s, wait, policy, input);
            &&& input.status is Running ==> {
                &&& plain.1 is Receive
                &&& plain.1->wait.nanos <= 10_000_000
                &&& input.now.nanos + plain.1->wait.nanos <= wait.deadline.nanos
                &&& plain.1->wait.nanos > 0
            }
            &&& input.status matches ChildStatusView::Exited { code } ==> plain.1 == (
            TurnActionView::Gather { code })
            &&& input.status matches ChildStatusView::Unknown { source } ==> plain.1 == (
            TurnActionView::Fail { error: InteractiveProcessErrorView::WaitFailed { source } })
            &&& ruled == (plain.0, None::<ProcessInterruptionReason>, plain.1)
        }),
{
}

/// A session without a child is as one whose child has exited.
pub proof fn lost_child_counts_as_exited(
    s: InteractiveSessionView,
    wait: PromptWaitView,
    input: TurnInputView,
)
    requires
        prompt_taken(s) is None,
        input.now.nanos < wait.deadline.nanos,
        !s.live,
    ensures
        plain_turn(s, wait, input).1 == (TurnActionView::Gather { code: None }),
{
}

/// A command that is cancelled, or whose time is up, is interrupted by its policy: the child is
/// killed, or shut down within its grace, and the command fails for that reason with all the output
/// there is; or the wait goes on, and remembers the reason.
pub proof fn interruption_of_a_command_goes_by_its_policy(
    s: InteractiveSessionView,
    wait: PromptWaitView,
    policy: ProcessExecutionPolicy,
    input: TurnInputView,
    command: Seq<char>,
)
    requires
        prompt_taken(s) is None,
        wait.observed is None,
        wait.mode == (WaitModeView::Command { command }),
        s.live,
        input.status is Running,
        input.cancelled || input.now.nanos >= wait.deadline.nanos,
    ensures
        ({
            let stdout = lossy_text(s.stdout + s.stdout_pending);
            let stderr = lossy_text(s.stderr + s.stderr_pending);
            let turn = policy_turn(s, wait, policy, input);
            let error = if input.cancelled {
                InteractiveProcessErrorView::CommandCancelled { command, stdout, stderr }
            } else {
                InteractiveProcessErrorView::CommandTimeout {
                    command,
                    timeout_ms: whole_millis(wait.timeout),
                    stdout,
                    stderr,
                }
            };
            &&& turn.1 == Some(
                if input.cancelled {
                    ProcessInterruptionReason::Cancelled
                } else {
                    ProcessInterruptionReason::TimedOut
                },
            )
            &&& policy.safety is Interruptible ==> turn.2 == (TurnActionView::KillThenFail {
                error,
            })
            &&& policy.safety is GracefulThenKill ==> turn.2 == (TurnActionView::ShutdownThenFail {
                grace: policy.graceful_shutdown_timeout,
                error,
            })
            &&& policy.safety is CriticalNonAbortable ==> turn.2 is Receive
                && turn.2->wait.nanos == 10_000_000
        }),
{
    bytes_keep_their_stream_and_order(s, Seq::empty());
}

/// An interruption that has been seen is not acted on again.
pub proof fn interruption_is_acted_on_once(
    s: InteractiveSessionView,
    wait: PromptWaitView,
    policy: ProcessExecutionPolicy,
    input: TurnInputView,
)
    requires
        prompt_taken(s) is None,
        wait.observed is Some,
        s.live,
        input.status is Running,
    ensures
        policy_turn(s, wait, policy, input).1 == wait.observed,
        policy_turn(s, wait, policy, input).2 is Receive,
{
}

/// A child that has exited fails the wait with its exit code and with its last words, each on its
/// own stream; the session is over and not usable again.
pub proof fn exited_child_fails_the_wait_with_its_last_words(
    s: InteractiveSessionView,
    bytes: Seq<u8>,
    code: i32,
)
    ensures
        ({
            let ready = seq![ReaderEventView::Chunk(InteractiveStream::Stdout, bytes)];
            let fuller = InteractiveSessionView { stdout_pending: s.stdout_pending + bytes, ..s };
            let turn = exit_turn(s, Some(code), ready);
            &&& turn.0.terminated && turn.0.poisoned && !turn.0.live && !turn.0.stdin_open
            &&& prompt_taken(fuller) is None ==> turn.1 == (TurnActionView::Fail {
                error: InteractiveProcessErrorView::ProcessExited {
                    exit_code: code,
                    stdout: lossy_text(s.stdout + (s.stdout_pending + bytes)),
                    stderr: lossy_text(s.stderr + s.stderr_pending),
                },
            })
            &&& turn.1 is Fail
            &&& exit_turn(s, None, Seq::empty()).1 is Fail
        }),
{
    let ready = seq![ReaderEventView::Chunk(InteractiveStream::Stdout, bytes)];
    assert(ready.drop_last() =~= Seq::empty());
    assert(fed_all(s, Seq::empty()) == (s, None::<InteractiveProcessErrorView>));
    assert(fed_all(s, ready) == fed(s, ready[0]));
}

/// Just so many bytes are held back as a prompt could still begin in: one less than it has, and all
/// of them while there are fewer, or where the prompt is a single byte.
pub proof fn bytes_a_prompt_may_begin_in_are_held_back(buffer: Seq<u8>, prompt_len: nat)
    ensures
        prompt_len <= 1 || buffer.len() < prompt_len ==> kept(buffer, prompt_len) == buffer,
        prompt_len > 1 && buffer.len() >= prompt_len ==> kept(buffer, prompt_len) == buffer.skip(
            buffer.len() - prompt_len + 1,
        ),
{
}

/// Four bytes are blanks: the space, the tab and the two that end a line.
pub proof fn four_bytes_are_blanks(b: u8)
    ensures
        is_blank_byte(b) <==> b == 0x20 || b == 0x09 || is_line_end(b),
        is_line_end(b) <==> b == 0x0a || b == 0x0d,
{
}

} // verus!
