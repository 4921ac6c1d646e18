//! Laws of the EDT commands: how they are written, how long they may take, and how they end.

use vstd::prelude::*;
use crate::config::AppConfigView;
use crate::mcp::edt_session::{EdtSessionErrorView, EdtSessionResponseView};
use crate::path::{component_count, is_absolute, separator_of, HostPlatform};
use crate::platform::edt::{
    budget_left, effective, interactive_error_marker, interactive_exit_code, interactive_failure,
    session_timeout, shared_failure, tighter, EdtDslView, EdtErrorView,
};
use crate::platform::edt_command::{
    change_dir_line, command_name, escaped, escaped_char, export_args, export_path_args,
    import_args, import_files_args, interactive_line, quoted, quoted_all, session_command,
};
use crate::platform::edt_run::{
    edt_step, first_action, fresh_run, process_policy, session_policy, EdtActionView, EdtEventView,
    EdtPhaseView, EdtRunView,
};
use crate::platform::interactive::{
    InteractiveCommandExecutionView, InteractiveCommandOutputView, InteractiveProcessErrorView,
};
use crate::platform::process::{ProcessErrorView, ProcessResultView};
use crate::platform::utilities::configured_locator;
use crate::platform::version::{lenient_version, strict_version};
use crate::text::{is_space, join_with};
use crate::text_laws::{all_space, first_word_ends_at_white_space, text_holds_its_middle};
use crate::text_scan::contains;
use crate::time::{whole_millis, Moment, Span};

verus! {

// ---------------------------------------------------------------------------------------------
// Writing at the prompt

/// An argument without white space, quotes and backslashes is written as it is; any other stands in
/// quotes, and so does an empty one.
pub proof fn plain_argument_is_written_as_it_is(argument: Seq<char>)
    ensures
        argument.len() > 0 && (forall|i: int|
            0 <= i < argument.len() ==> !is_space(#[trigger] argument[i]) && argument[i] != '"'
                && argument[i] != '\\') ==> quoted(argument) == argument,
        argument.len() == 0 || (exists|i: int|
            0 <= i < argument.len() && (is_space(#[trigger] argument[i]) || argument[i] == '"'
                || argument[i] == '\\')) ==> quoted(argument) == seq!['"'] + escaped(argument)
            + seq!['"'],
{
}

/// Within quotes a backslash stands before every quote and every backslash, and every other
/// character stays.
pub proof fn quotes_and_backslashes_are_escaped(a: Seq<char>, b: Seq<char>, c: char)
    ensures
        escaped(a + b) == escaped(a) + escaped(b),
        c == '"' || c == '\\' ==> escaped(seq![c]) == seq!['\\', c],
        c != '"' && c != '\\' ==> escaped(seq![c]) == seq![c],
        escaped(Seq::empty()).len() == 0,
    decreases b.len(),
{
    let none = Seq::<char>::empty();
    assert(seq![c].drop_last() =~= none);
    assert(escaped(none) =~= none);
    assert(none + escaped_char(c) =~= escaped_char(c));
    if b.len() == 0 {
        assert(a + b =~= a);
        assert(escaped(a) + escaped(b) =~= escaped(a));
    } else {
        quotes_and_backslashes_are_escaped(a, b.drop_last(), c);
        assert((a + b).drop_last() =~= a + b.drop_last());
        assert((a + b).last() == b.last());
        assert(escaped(a) + (escaped(b.drop_last()) + escaped_char(b.last())) =~= (escaped(a)
            + escaped(b.drop_last())) + escaped_char(b.last()));
    }
}

/// A line at the prompt is its arguments, each as it is written, with a space between them; the
/// session changes into a directory by such a line.
pub proof fn line_is_its_arguments(arguments: Seq<Seq<char>>, i: int, path: Seq<char>)
    ensures
        interactive_line(arguments) == join_with(quoted_all(arguments), seq![' ']),
        quoted_all(arguments).len() == arguments.len(),
        0 <= i < arguments.len() ==> quoted_all(arguments)[i] == quoted(arguments[i]),
        change_dir_line(path) == "cd"@ + seq![' '] + quoted(path),
{
    reveal_strlit(" ");
    reveal_strlit("cd");
    assert(" "@ =~= seq![' ']);
    let both = quoted_all(seq!["cd"@, path]);
    assert(quoted("cd"@) == "cd"@);
    assert(both =~= seq!["cd"@, quoted(path)]);
    assert(both.drop_last() =~= seq!["cd"@]);
    assert(join_with(seq!["cd"@], " "@) == "cd"@);
}

/// An import names the files and the project, and then only what is given: version, base project
/// and build, in this order.
pub proof fn import_names_what_is_given(
    project: Seq<char>,
    files: Seq<char>,
    version: Option<Seq<char>>,
    base: Option<Seq<char>>,
    build: bool,
)
    ensures
        ({
            let args = import_files_args(project, files, version, base, build);
            let v = if version is Some {
                2int
            } else {
                0
            };
            let b = if base is Some {
                2int
            } else {
                0
            };
            &&& args.len() == 5 + v + b + (if build {
                2int
            } else {
                0
            })
            &&& args[1] == "--configuration-files"@ && args[2] == files
            &&& args[3] == "--project"@ && args[4] == project
            &&& version is Some ==> args[5] == "--version"@ && args[6] == version->0
            &&& base is Some ==> args[5 + v] == "--base-project-name"@ && args[6 + v] == base->0
            &&& build ==> args[5 + v + b] == "--build"@ && args[6 + v + b] == "true"@
        }),
{
}

/// A command is shown under its first word, in the workspace it runs in, and never with its
/// arguments.
pub proof fn command_is_shown_under_its_first_word(
    binary: Seq<char>,
    workspace: Seq<char>,
    before: Seq<char>,
    word: Seq<char>,
    rest: Seq<char>,
)
    requires
        all_space(before),
        word.len() > 0,
        forall|i: int| 0 <= i < word.len() ==> !is_space(#[trigger] word[i]),
        rest.len() > 0 ==> is_space(rest[0]),
    ensures
        command_name(before + word + rest) == word,
        session_command(binary, workspace, before + word + rest) == binary + " -data "@ + workspace
            + " [interactive: "@ + word + "]"@,
{
    first_word_ends_at_white_space(before, word, rest);
}

// ---------------------------------------------------------------------------------------------
// Time

/// What is left of a limit, with what has passed of it, makes up the limit; nothing is left once it
/// has passed.
pub proof fn time_left_and_time_passed_make_up_the_limit(
    limit: Span,
    started: Moment,
    now: Moment,
)
    requires
        started.nanos <= now.nanos,
    ensures
        now.nanos - started.nanos <= limit.nanos ==> budget_left(limit, started, now).nanos + (
        now.nanos - started.nanos) == limit.nanos,
        now.nanos - started.nanos > limit.nanos ==> budget_left(limit, started, now).nanos == 0,
        budget_left(limit, now, now) == limit,
{
}

/// Two limits bind together: the result is one of those that are given, and no longer than any; no
/// limit is only where none is given.
pub proof fn both_limits_bind(a: Option<Span>, b: Option<Span>)
    ensures
        tighter(a, b) is None <==> a is None && b is None,
        tighter(a, b) is Some ==> tighter(a, b) == a || tighter(a, b) == b,
        a is Some ==> tighter(a, b)->0.nanos <= a->0.nanos,
        b is Some ==> tighter(a, b)->0.nanos <= b->0.nanos,
{
}

/// A command over a session has the time of the commands, or the one that is set for it in its
/// place, and never more than the policy allows.
pub proof fn session_command_has_its_time(
    command_timeout: Span,
    timeout: Option<Span>,
    cap: Option<Span>,
)
    ensures
        ({
            let own = if timeout is Some {
                timeout->0
            } else {
                command_timeout
            };
            let result = session_timeout(command_timeout, timeout, cap);
            &&& result.nanos <= own.nanos
            &&& cap is Some ==> result.nanos <= cap->0.nanos
            &&& cap is None ==> result == own
            &&& result == own || Some(result) == cap
        }),
{
}

/// Both the time of the DSL and that of its policy run from the beginning of its budget.
pub proof fn limits_run_from_the_beginning(dsl: EdtDslView, command_timeout: Span, now: Moment)
    requires
        dsl.budget_started_at.nanos <= now.nanos,
    ensures
        ({
            let passed = now.nanos - dsl.budget_started_at.nanos;
            let left = effective(dsl, command_timeout, now);
            let policy = process_policy(dsl, now);
            &&& dsl.timeout is Some ==> left.nanos + passed <= dsl.timeout->0.nanos || left.nanos
                == 0
            &&& dsl.execution_policy.timeout is Some ==> left.nanos + passed
                <= dsl.execution_policy.timeout->0.nanos || left.nanos == 0
            &&& dsl.timeout is None && dsl.execution_policy.timeout is None ==> left
                == command_timeout && policy.timeout is None
            &&& dsl.timeout is Some ==> policy.timeout is Some && (policy.timeout->0.nanos + passed
                <= dsl.timeout->0.nanos || policy.timeout->0.nanos == 0)
            &&& dsl.execution_policy.timeout is Some ==> policy.timeout is Some && (
            policy.timeout->0.nanos + passed <= dsl.execution_policy.timeout->0.nanos
                || policy.timeout->0.nanos == 0)
            &&& policy.safety == dsl.execution_policy.safety
            &&& policy.graceful_shutdown_timeout == dsl.execution_policy.graceful_shutdown_timeout
        }),
{
}

// ---------------------------------------------------------------------------------------------
// Ends

/// A command at the prompt failed exactly where its output, on either stream, holds the marker of a
/// failure.
pub proof fn marker_tells_of_failure(before: Seq<char>, after: Seq<char>, other: Seq<char>)
    ensures
        interactive_exit_code(before + interactive_error_marker() + after, other) == 1,
        interactive_exit_code(other, before + interactive_error_marker() + after) == 1,
        !contains(before, interactive_error_marker()) && !contains(
            other,
            interactive_error_marker(),
        ) ==> interactive_exit_code(before, other) == 0,
{
    text_holds_its_middle(before, interactive_error_marker(), after);
}

/// A command that was cancelled or ran out of time ends like a process that was, under the command
/// as it is shown; any other failure of a session keeps its kind.
pub proof fn interrupted_command_ends_like_a_process(
    binary: Seq<char>,
    workspace: Seq<char>,
    command: Seq<char>,
    error: InteractiveProcessErrorView,
    shared: EdtSessionErrorView,
    timeout: Span,
)
    ensures
        ({
            let cmd = session_command(binary, workspace, command);
            let own = interactive_failure(binary, workspace, command, error);
            let other = shared_failure(binary, workspace, command, shared, timeout);
            &&& error is CommandCancelled ==> own == EdtErrorView::Spawn(
                ProcessErrorView::Cancelled { cmd },
            )
            &&& error matches InteractiveProcessErrorView::CommandTimeout { timeout_ms, .. } ==> own
                == EdtErrorView::Spawn(ProcessErrorView::TimedOut { cmd, timeout_ms })
            &&& !(error is CommandCancelled) && !(error is CommandTimeout) ==> own
                == EdtErrorView::Interactive(error)
            &&& shared is QueuedCancelled || shared is RunningCancelled ==> other
                == EdtErrorView::Spawn(ProcessErrorView::Cancelled { cmd })
            &&& shared is QueuedTimeout || shared is RunningTimeout ==> other
                == EdtErrorView::Spawn(
                ProcessErrorView::TimedOut { cmd, timeout_ms: whole_millis(timeout) },
            )
            &&& !(shared is QueuedCancelled) && !(shared is RunningCancelled) && !(
            shared is QueuedTimeout) && !(shared is RunningTimeout) ==> other
                == EdtErrorView::SharedSession(shared)
        }),
{
}

/// The run in another phase.
pub open spec fn in_phase(run: EdtRunView, phase: EdtPhaseView) -> EdtRunView {
    EdtRunView { phase, ..run }
}

/// A command with a process of its own prepares the workspace, starts the process in it with its
/// arguments, and ends with what the process gave: a result with that exit code and that output, or
/// its failure. A workspace that cannot be prepared ends it at once.
pub proof fn command_with_its_own_process(
    dsl: EdtDslView,
    command: Seq<Seq<char>>,
    process: ProcessResultView,
    error: ProcessErrorView,
    source: Seq<char>,
    now: Moment,
    later: Moment,
)
    requires
        dsl.backend is OneShot,
    ensures
        ({
            let run = fresh_run(dsl, command, None);
            let started = edt_step(dsl, run, EdtEventView::Prepared(Ok(())), now);
            let running = in_phase(run, started.0);
            let ended = edt_step(dsl, running, EdtEventView::ProcessDone(Ok(process)), later);
            let broken = edt_step(dsl, running, EdtEventView::ProcessDone(Err(error)), later);
            let refused = edt_step(dsl, run, EdtEventView::Prepared(Err(source)), now);
            &&& first_action(dsl, None) == (EdtActionView::Prepare {
                workspace: dsl.workspace,
                stale_log: None,
            })
            &&& started.1 is RunProcess
            &&& started.1->request.program == dsl.binary
            &&& started.1->request.args == seq!["-data"@, dsl.workspace, "-command"@] + command
            &&& started.1->RunProcess_policy == process_policy(dsl, now)
            &&& ended.0 is Finished && ended.1 is Done
            &&& ended.1->result.process == process
            &&& ended.1->result.platform_log is None
            &&& broken == (EdtPhaseView::Finished, EdtActionView::Fail {
                error: EdtErrorView::Spawn(error),
            })
            &&& refused == (EdtPhaseView::Finished, EdtActionView::Fail {
                error: EdtErrorView::PrepareWorkspace { path: dsl.workspace, source },
            })
        }),
{
}

/// A command over a session of the DSL changes into the workspace first and is then written at the
/// prompt; both share one limit, which runs from the first of them. Its output is that of the
/// command alone, and a failure of either ends it.
pub proof fn command_over_its_own_session(
    dsl: EdtDslView,
    command: Seq<Seq<char>>,
    prelude: InteractiveCommandOutputView,
    output: InteractiveCommandOutputView,
    error: InteractiveProcessErrorView,
    now: Moment,
    later: Moment,
    end: Moment,
)
    requires
        dsl.backend is Interactive,
        now.nanos <= later.nanos,
    ensures
        ({
            let run = fresh_run(dsl, command, None);
            let limit = effective(dsl, dsl.backend->Interactive_command_timeout, now);
            let done = |o: InteractiveCommandOutputView|
                EdtEventView::CommandDone(
                    Ok(InteractiveCommandExecutionView { output: o, interruption: None }),
                );
            let first = edt_step(dsl, run, EdtEventView::Prepared(Ok(())), now);
            let second = edt_step(dsl, in_phase(run, first.0), done(prelude), later);
            let ended = edt_step(dsl, in_phase(run, second.0), done(output), end);
            let failed = edt_step(
                dsl,
                in_phase(run, first.0),
                EdtEventView::CommandDone(Err(error)),
                later,
            );
            &&& first.1 == (EdtActionView::Execute {
                line: change_dir_line(dsl.workspace),
                timeout: limit,
                policy: session_policy(dsl, limit),
            })
            &&& second.1 is Execute
            &&& second.1->Execute_line == interactive_line(command)
            &&& second.1->Execute_timeout == budget_left(limit, now, later)
            &&& second.1->Execute_policy == session_policy(dsl, limit)
            &&& ended.0 is Finished && ended.1 is Done
            &&& ended.1->result.process == (ProcessResultView {
                exit_code: interactive_exit_code(output.stdout, output.stderr),
                stdout: output.stdout,
                stderr: output.stderr,
                interruption: None,
            })
            &&& failed == (EdtPhaseView::Finished, EdtActionView::Fail {
                error: interactive_failure(
                    dsl.binary,
                    dsl.workspace,
                    interactive_line(command),
                    error,
                ),
            })
        }),
{
}

/// A command over the shared session starts it first, within the time for a start, unless it is
/// live, and is then executed within its own time. Its output is that of the command alone.
pub proof fn command_over_the_shared_session(
    dsl: EdtDslView,
    command: Seq<Seq<char>>,
    greeting: EdtSessionResponseView,
    response: EdtSessionResponseView,
    error: EdtSessionErrorView,
    now: Moment,
)
    requires
        dsl.backend is SharedSession,
    ensures
        ({
            let run = fresh_run(dsl, command, None);
            let startup = dsl.backend->SharedSession_startup_timeout;
            let limit = effective(dsl, dsl.backend->SharedSession_command_timeout, now);
            let execute = EdtActionView::ExecuteShared { line: interactive_line(command), timeout: limit };
            let asked = edt_step(dsl, run, EdtEventView::Prepared(Ok(())), now);
            let live = edt_step(
                dsl,
                in_phase(run, asked.0),
                EdtEventView::SessionLive(true),
                now,
            );
            let starting = edt_step(
                dsl,
                in_phase(run, asked.0),
                EdtEventView::SessionLive(false),
                now,
            );
            let started = edt_step(
                dsl,
                in_phase(run, starting.0),
                EdtEventView::SharedDone(Ok(greeting)),
                now,
            );
            let ended = edt_step(
                dsl,
                in_phase(run, live.0),
                EdtEventView::SharedDone(Ok(response)),
                now,
            );
            let failed = edt_step(
                dsl,
                in_phase(run, live.0),
                EdtEventView::SharedDone(Err(error)),
                now,
            );
            &&& asked.1 is AskLive
            &&& live.1 == execute
            &&& starting.1 == (EdtActionView::ExecuteShared {
                line: change_dir_line(dsl.workspace),
                timeout: startup,
            })
            &&& started == live
            &&& ended.1 is Done
            &&& ended.1->result.process == (ProcessResultView {
                exit_code: interactive_exit_code(response.stdout, response.stderr),
                stdout: response.stdout,
                stderr: response.stderr,
                interruption: None,
            })
            &&& failed.1 == (EdtActionView::Fail {
                error: shared_failure(
                    dsl.binary,
                    dsl.workspace,
                    interactive_line(command),
                    error,
                    limit,
                ),
            })
        }),
{
}

/// A command that writes a log has an old one removed first, and its log read once it is over: the
/// result holds the log, or why it could not be read.
pub proof fn log_of_a_command_is_read_at_its_end(
    dsl: EdtDslView,
    command: Seq<Seq<char>>,
    path: Seq<char>,
    process: ProcessResultView,
    log: Seq<char>,
    source: Seq<char>,
    now: Moment,
)
    requires
        dsl.backend is OneShot,
    ensures
        ({
            let run = fresh_run(dsl, command, Some(path));
            let running = in_phase(
                run,
                edt_step(dsl, run, EdtEventView::Prepared(Ok(())), now).0,
            );
            let reading = edt_step(dsl, running, EdtEventView::ProcessDone(Ok(process)), now);
            let read = edt_step(
                dsl,
                in_phase(run, reading.0),
                EdtEventView::LogRead(Ok(log)),
                now,
            );
            let unread = edt_step(
                dsl,
                in_phase(run, reading.0),
                EdtEventView::LogRead(Err(source)),
                now,
            );
            &&& first_action(dsl, Some(path)) == (EdtActionView::Prepare {
                workspace: dsl.workspace,
                stale_log: Some(path),
            })
            &&& reading.1 == (EdtActionView::ReadLog { path })
            &&& read.1 is Done && unread.1 is Done
            &&& read.1->result.process == process && unread.1->result.process == process
            &&& read.1->result.platform_log_path == Some(path)
            &&& read.1->result.platform_log == Some(log)
            &&& read.1->result.platform_log_read_error is None
            &&& unread.1->result.platform_log is None
            &&& unread.1->result.platform_log_read_error == Some(
                "failed to read edt --file log '"@ + path + "': "@ + source,
            )
        }),
{
}

// ---------------------------------------------------------------------------------------------
// Utilities of a configuration

/// The version that is configured counts, read as versions of its kind are. A path of EDT that is a
/// bare name holds its version only where none is configured; the path is a place to look at where
/// it is absolute, has several components or exists, and where no version is configured.
pub proof fn configured_versions_count(
    config: AppConfigView,
    present: bool,
    host: HostPlatform,
    work_dir: Seq<char>,
)
    ensures
        ({
            let l = configured_locator(config, present, host, work_dir);
            let edt = config.tools.edt_cli;
            &&& l.platform_hint == config.tools.platform.path
            &&& config.tools.platform.version is None ==> l.platform_version is None
            &&& config.tools.platform.version matches Some(text) ==> l.platform_version
                == strict_version(text)
            &&& edt.version matches Some(text) ==> (lenient_version(text) is Some ==> l.edt_version
                == lenient_version(text))
            &&& edt.version is None && edt.path is None ==> l.edt_version is None
            &&& edt.version is None && edt.path is Some && !edt.path->0.contains(separator_of(host))
                ==> l.edt_version == lenient_version(edt.path->0)
            &&& edt.version is None && edt.path is Some && edt.path->0.contains(separator_of(host))
                ==> l.edt_version is None
            &&& edt.path is None ==> l.edt_hint is None
            &&& edt.path matches Some(path) ==> {
                &&& is_absolute(host, path) || component_count(host, path) > 1 || present
                    || edt.version is None ==> l.edt_hint == Some(path)
                &&& !is_absolute(host, path) && component_count(host, path) <= 1 && !present
                    && edt.version is Some ==> l.edt_hint is None
            }
            &&& l.host == host && l.work_dir == work_dir
        }),
{
}

/// A project goes out by its name, or by its place where that is given, and always into the target;
/// a project that comes in is named by its place.
pub proof fn project_goes_out_by_name_or_place(
    name: Seq<char>,
    place: Seq<char>,
    target: Seq<char>,
)
    ensures
        export_args(name, target) == seq![
            "export"@,
            "--project-name"@,
            name,
            "--configuration-files"@,
            target,
        ],
        export_path_args(place, target) == seq![
            "export"@,
            "--project"@,
            place,
            "--configuration-files"@,
            target,
        ],
        import_args(place) == seq!["import"@, "--project"@, place],
{
}

} // verus!
