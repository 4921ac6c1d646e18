//! Laws of the steps of a check by EDT: what is asked for, in which order, and what the end of it
//! is.

use vstd::prelude::*;
use crate::config::AppConfigView;
use crate::mcp::edt_session::{session_error_text, EdtSessionErrorView, EdtSessionResponseView};
use crate::mcp::edt_syntax::log_name;
use crate::mcp::edt_syntax_check::{
    check_start, check_step, finished_outcome, EdtSyntaxAskView, EdtSyntaxCheckView,
    EdtSyntaxEventView, EdtSyntaxPhaseView,
};
use crate::mcp::edt_syntax_run::{after_project, started, EdtSyntaxRunView};
use crate::path::{joined, HostPlatform};
use crate::platform::edt_command::interactive_line;
use crate::text_number::signed_decimal;
use crate::text_scan::replaced_char;
use crate::time::{Moment, Span};
use crate::use_cases::SyntaxRequestView;

verus! {

/// The check in a phase.
pub open spec fn in_phase(s: EdtSyntaxCheckView, phase: EdtSyntaxPhaseView) ->
    EdtSyntaxCheckView {
    EdtSyntaxCheckView { phase, ..s }
}

/// A request that is in order has the directory of the logs prepared; any other ends at once, as
/// one that was not in order, with the message of why not.
pub proof fn check_begins_with_its_logs(
    config: AppConfigView,
    request: SyntaxRequestView,
    timeout: Span,
    host: HostPlatform,
    now: Moment,
)
    ensures
        ({
            let first = check_start(config, request, timeout, host, now);
            let run = started(config, request, host);
            &&& run is Ok ==> first.ask == (EdtSyntaxAskView::PrepareLogs {
                work_path: config.work_path,
            })
            &&& run is Ok ==> first.check.phase == (EdtSyntaxPhaseView::Preparing { run: run->Ok_0 })
            &&& run is Err ==> {
                &&& first.ask is Done && first.ask->outcome is Failed
                &&& first.ask->outcome->Failed_error.kind is Validation
                &&& first.ask->outcome->Failed_error.message == run->Err_0
                &&& first.ask->outcome->payload is Some
                &&& first.ask->outcome->payload->0.status is ToolFailed
            }
            &&& first.check.started == now && first.check.timeout == timeout
        }),
{
}

/// Once the directory is there the time of the check begins, and the log of the first project gets
/// its name. A directory that cannot be had ends the check, which tells why.
pub proof fn time_begins_with_the_first_project(
    s: EdtSyntaxCheckView,
    run: EdtSyntaxRunView,
    dir: Seq<char>,
    source: Seq<char>,
    now: Moment,
)
    requires
        run.next < run.projects.len(),
        now.nanos + s.timeout.nanos <= u128::MAX,
    ensures
        ({
            let preparing = in_phase(s, EdtSyntaxPhaseView::Preparing { run });
            let ready = check_step(
                preparing,
                EdtSyntaxEventView::LogDirectory { outcome: Ok(dir) },
                now,
            );
            let broken = check_step(
                preparing,
                EdtSyntaxEventView::LogDirectory { outcome: Err(source) },
                now,
            );
            &&& ready.ask is StampLog
            &&& ready.check.phase == (EdtSyntaxPhaseView::Naming {
                run,
                dir,
                deadline: Moment { nanos: (now.nanos + s.timeout.nanos) as u128 },
            })
            &&& broken.ask is Done && broken.ask->outcome is Failed
            &&& broken.ask->outcome->Failed_error.kind is Runtime
            &&& broken.ask->outcome->Failed_error.message
                == "failed to prepare syntax platform logs directory '"@ + s.work_path + "': "@
                + source
        }),
{
}

/// The project in turn is validated at its place, into a log of its own below the directory of the
/// logs, within the deadline of the check. The log is named after the project, without blanks.
pub proof fn project_in_turn_is_validated(
    s: EdtSyntaxCheckView,
    run: EdtSyntaxRunView,
    dir: Seq<char>,
    deadline: Moment,
    timestamp: u64,
    pid: u32,
    sequence: u64,
    now: Moment,
)
    requires
        run.next < run.projects.len(),
    ensures
        ({
            let project = run.projects[run.next as int];
            let log_path = joined(
                run.host,
                dir,
                log_name(
                    "edt_"@ + replaced_char(project.name, ' ', '_'),
                    timestamp,
                    pid,
                    sequence,
                ),
            );
            let named = check_step(
                in_phase(s, EdtSyntaxPhaseView::Naming { run, dir, deadline }),
                EdtSyntaxEventView::Stamp { timestamp, pid, sequence },
                now,
            );
            &&& named.ask == (EdtSyntaxAskView::Submit {
                command: interactive_line(
                    seq![
                        "validate"@,
                        "--file"@,
                        log_path,
                        "--project-list"@,
                        project.source_path,
                    ],
                ),
                deadline,
            })
            &&& named.check.phase == (EdtSyntaxPhaseView::Submitted { run, dir, deadline, log_path })
        }),
{
}

/// An answer has its log read, and the log with the answer counts for the project in turn. Then the
/// next project comes, or the end where it was the last.
pub proof fn answer_and_log_count_for_the_project_in_turn(
    s: EdtSyntaxCheckView,
    run: EdtSyntaxRunView,
    dir: Seq<char>,
    deadline: Moment,
    log_path: Seq<char>,
    response: EdtSessionResponseView,
    contents: Result<Seq<char>, Seq<char>>,
    now: Moment,
)
    requires
        run.next < run.projects.len(),
        run.next < usize::MAX,
        s.started.nanos <= now.nanos,
    ensures
        ({
            let answered = check_step(
                in_phase(s, EdtSyntaxPhaseView::Submitted { run, dir, deadline, log_path }),
                EdtSyntaxEventView::Answer { answer: Ok(response) },
                now,
            );
            let read = check_step(answered.check, EdtSyntaxEventView::Log { contents }, now);
            let after = after_project(run, log_path, response, contents);
            let elapsed = Span { nanos: (now.nanos - s.started.nanos) as u128 };
            &&& answered.ask == (EdtSyntaxAskView::ReadLog { path: log_path })
            &&& run.next + 1 < run.projects.len() ==> read.ask is StampLog && read.check.phase == (
            EdtSyntaxPhaseView::Naming { run: after, dir, deadline })
            &&& run.next + 1 == run.projects.len() ==> read.ask == (EdtSyntaxAskView::Done {
                outcome: finished_outcome(after, elapsed),
            })
        }),
{
}

/// A run through all projects is a success exactly where it is clean. Any other is a failure of the
/// run, whose message tells status and exit code; both carry the result.
pub proof fn run_succeeds_where_it_is_clean(run: EdtSyntaxRunView, elapsed: Span)
    ensures
        ({
            let outcome = finished_outcome(run, elapsed);
            &&& run.status is Clean <==> outcome is Clean
            &&& run.status is Clean ==> outcome->Clean_0.issues == run.issues
                && outcome->Clean_0.exit_code == run.exit_code
            &&& !(run.status is Clean) ==> {
                &&& outcome is Failed
                &&& outcome->Failed_error.kind is Runtime
                &&& outcome->Failed_error.message == "syntax check 'edt' finished with status "@ + (
                if run.status is IssuesFound {
                    "IssuesFound"@
                } else {
                    "ToolFailed"@
                }) + " (exit code "@ + signed_decimal(run.exit_code as int) + ")"@
                &&& outcome->payload is Some
                &&& outcome->payload->0.issues == run.issues
                &&& outcome->payload->0.status == run.status
                &&& outcome->payload->0.exit_code == run.exit_code
            }
        }),
{
}

/// A command that was interrupted is waited for, and any other failure of the session ends the check
/// at once. Either way the check fails in the words of the failure.
pub proof fn only_an_interrupted_command_is_waited_for(
    s: EdtSyntaxCheckView,
    run: EdtSyntaxRunView,
    dir: Seq<char>,
    deadline: Moment,
    log_path: Seq<char>,
    error: EdtSessionErrorView,
    now: Moment,
)
    ensures
        ({
            let step = check_step(
                in_phase(s, EdtSyntaxPhaseView::Submitted { run, dir, deadline, log_path }),
                EdtSyntaxEventView::Answer { answer: Err(error) },
                now,
            );
            let interrupted = error is RunningCancelled || error is RunningTimeout;
            let refused = error is QueuedCancelled || error is QueuedTimeout;
            &&& interrupted ==> step.ask is AwaitCompletion
            &&& refused ==> step.ask is Done && step.ask->outcome is Refused
            &&& !interrupted && !refused ==> step.ask is Done && step.ask->outcome is Failed
                && step.ask->outcome->Failed_error.message == session_error_text(error)
            &&& interrupted ==> {
                let end = check_step(step.check, EdtSyntaxEventView::Completed, now);
                end.ask is Done && end.ask->outcome is Failed
            }
        }),
{
}

} // verus!
