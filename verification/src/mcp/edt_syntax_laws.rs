//! Laws of a check by EDT: which projects are checked, and what their answers and logs add up to.

use vstd::prelude::*;
use crate::config::{AppConfigView, BuilderBackend, SourceFormat, SourceSetConfigView};
use crate::domain::{severity_of, IssueSeverity, IssueView, SyntaxCheckStatus};
use crate::mcp::edt_session::{EdtSessionErrorView, EdtSessionResponseView};
use crate::mcp::edt_syntax::{
    count_severity, has_set, log_name, project_status, resolved_projects, set_index,
    status_exit_code, unknown_names, worse, SyntaxProjectView,
};
use crate::mcp::edt_syntax_run::{
    added_issues, after_project, issues_in, output_lines, run_result, started, stderr_line,
    verdict, AnswerVerdictView, EdtSyntaxRunView, EdtSyntaxTransportError,
};
use crate::parsers::edt_validation::log_issues;
use crate::path::{joined, HostPlatform};
use crate::text::{join_with, trim};
use crate::text_laws::{all_space, blank_text_is_white_space, is_bare, trimming_leaves_the_core};
use crate::text_number::{decimal, signed_decimal};
use crate::time::Span;
use crate::use_cases::{SyntaxRequestView, SyntaxTargetRequestView, UseCaseErrorKind};

verus! {

// ---------------------------------------------------------------------------------------------
// Statuses

/// Output on stderr means that the tool failed, whatever else there is. Without it, issues mean that
/// issues were found, and output without issues means again that the tool failed. Only a project
/// with neither output nor issues is clean.
pub proof fn status_goes_by_output_and_issues(
    stdout: Seq<char>,
    stderr: Seq<char>,
    issues: nat,
)
    ensures
        project_status(stdout, stderr, issues) is Clean <==> stdout.len() == 0 && stderr.len() == 0
            && issues == 0,
        project_status(stdout, stderr, issues) is IssuesFound <==> stderr.len() == 0 && issues > 0,
        project_status(stdout, stderr, issues) is ToolFailed <==> stderr.len() > 0 || (stdout.len()
            > 0 && issues == 0),
{
}

/// How bad a status is.
pub open spec fn badness(status: SyntaxCheckStatus) -> int {
    match status {
        SyntaxCheckStatus::Clean => 0,
        SyntaxCheckStatus::IssuesFound => 1,
        SyntaxCheckStatus::ToolFailed => 2,
    }
}

/// The status of several projects is the worst of theirs, and each status has an exit code of its
/// own, which is zero for a clean one alone.
pub proof fn worst_status_counts(a: SyntaxCheckStatus, b: SyntaxCheckStatus)
    ensures
        badness(worse(a, b)) >= badness(a),
        badness(worse(a, b)) >= badness(b),
        worse(a, b) == a || worse(a, b) == b,
        status_exit_code(a) == status_exit_code(b) <==> a == b,
        status_exit_code(a) == 0 <==> a is Clean,
        status_exit_code(a) < 0 <==> a is ToolFailed,
{
}

/// One issue more is counted once, under its severity and under no other.
pub proof fn issue_is_counted_under_its_severity(
    issues: Seq<IssueView>,
    issue: IssueView,
    severity: IssueSeverity,
)
    ensures
        count_severity(issues.push(issue), severity, (issues.len() + 1) as int) == count_severity(
            issues,
            severity,
            issues.len() as int,
        ) + (if severity_of(issue) == severity {
            1int
        } else {
            0
        }),
        count_severity(issues, severity, 0) == 0,
{
    lemma_count_prefix(issues, issue, severity, issues.len() as int);
}

proof fn lemma_count_prefix(
    issues: Seq<IssueView>,
    issue: IssueView,
    severity: IssueSeverity,
    n: int,
)
    requires
        n <= issues.len(),
    ensures
        count_severity(issues.push(issue), severity, n) == count_severity(issues, severity, n),
    decreases n,
{
    if n > 0 {
        lemma_count_prefix(issues, issue, severity, n - 1);
    }
}

// ---------------------------------------------------------------------------------------------
// Projects

/// Without names every source-set is checked, in the order of the configuration, each under its own
/// name and at its own place.
pub proof fn every_source_set_is_checked(
    host: HostPlatform,
    base: Seq<char>,
    sets: Seq<SourceSetConfigView>,
    i: int,
)
    requires
        0 <= i < sets.len(),
    ensures
        resolved_projects(host, base, sets, Seq::empty()) is Ok,
        ({
            let found = resolved_projects(host, base, sets, Seq::empty())->Ok_0;
            &&& found.len() == sets.len()
            &&& found[i].name == sets[i].name
            &&& found[i].source_path == joined(host, base, sets[i].path)
        }),
{
}

/// Where names are given, only they are checked, in the order in which they are given; of several
/// source-sets of a name the first counts.
pub proof fn named_source_sets_are_checked(
    host: HostPlatform,
    base: Seq<char>,
    sets: Seq<SourceSetConfigView>,
    names: Seq<Seq<char>>,
    i: int,
    k: int,
)
    requires
        0 <= i < names.len(),
        0 <= k < sets.len(),
        sets[k].name == names[i],
        forall|j: int| 0 <= j < k ==> (#[trigger] sets[j]).name != names[i],
        forall|j: int| 0 <= j < names.len() ==> has_set(sets, #[trigger] names[j]),
    ensures
        resolved_projects(host, base, sets, names) is Ok,
        ({
            let found = resolved_projects(host, base, sets, names)->Ok_0;
            &&& found.len() == names.len()
            &&& found[i].name == names[i]
            &&& found[i].source_path == joined(host, base, sets[k].path)
        }),
{
    lemma_known(sets, names, names.len() as int);
    first_source_set_of_the_name_counts(sets, names[i], k);
}

/// The first source-set of a name is the one that is meant.
pub proof fn first_source_set_of_the_name_counts(
    sets: Seq<SourceSetConfigView>,
    name: Seq<char>,
    k: int,
)
    requires
        0 <= k < sets.len(),
        sets[k].name == name,
        forall|j: int| 0 <= j < k ==> (#[trigger] sets[j]).name != name,
    ensures
        set_index(sets, name) == k,
    decreases sets.len(),
{
    if k > 0 {
        let rest = sets.subrange(1, sets.len() as int);
        assert(sets[0].name != name);
        assert(forall|j: int| 0 <= j < k - 1 ==> #[trigger] rest[j] == sets[j + 1]);
        assert(rest[k - 1] == sets[k]);
        first_source_set_of_the_name_counts(rest, name, k - 1);
    }
}

proof fn lemma_known(sets: Seq<SourceSetConfigView>, names: Seq<Seq<char>>, n: int)
    requires
        n <= names.len(),
        forall|j: int| 0 <= j < names.len() ==> has_set(sets, #[trigger] names[j]),
    ensures
        unknown_names(sets, names, n).len() == 0,
    decreases n,
{
    if n > 0 {
        lemma_known(sets, names, n - 1);
    }
}

/// A name that no source-set has is refused, and the refusal names exactly such names, in the order
/// in which they are given.
pub proof fn unknown_names_are_refused(
    host: HostPlatform,
    base: Seq<char>,
    sets: Seq<SourceSetConfigView>,
    names: Seq<Seq<char>>,
    name: Seq<char>,
)
    requires
        sets.len() > 0,
    ensures
        unknown_names(sets, names, names.len() as int).contains(name) <==> names.contains(name)
            && !(exists|i: int| 0 <= i < sets.len() && (#[trigger] sets[i]).name == name),
        names.len() > 0 && unknown_names(sets, names, names.len() as int).len() > 0
            ==> resolved_projects(host, base, sets, names) == Err::<Seq<SyntaxProjectView>, _>(
            "unknown EDT source-set(s): "@ + join_with(
                unknown_names(sets, names, names.len() as int),
                ", "@,
            ),
        ),
        resolved_projects(host, base, Seq::empty(), names) is Err,
{
    lemma_unknown(sets, names, name, names.len() as int);
    if names.contains(name) {
        let j = choose|j: int| 0 <= j < names.len() && names[j] == name;
        assert(names[j] == name);
    }
}

proof fn lemma_unknown(
    sets: Seq<SourceSetConfigView>,
    names: Seq<Seq<char>>,
    name: Seq<char>,
    n: int,
)
    requires
        0 <= n <= names.len(),
    ensures
        unknown_names(sets, names, n).contains(name) <==> !has_set(sets, name) && exists|j: int|
            0 <= j < n && #[trigger] names[j] == name,
    decreases n,
{
    if n > 0 {
        lemma_unknown(sets, names, name, n - 1);
        let before = unknown_names(sets, names, n - 1);
        let last = names[n - 1];
        if !has_set(sets, last) {
            let all = before.push(last);
            assert(all == unknown_names(sets, names, n));
            if before.contains(name) {
                let j = choose|j: int| 0 <= j < before.len() && before[j] == name;
                assert(all[j] == name);
            }
            if last == name {
                assert(all[all.len() - 1] == name);
            }
            if all.contains(name) && last != name {
                let j = choose|j: int| 0 <= j < all.len() && all[j] == name;
                assert(before[j] == name);
            }
        }
        if exists|j: int| 0 <= j < n && #[trigger] names[j] == name {
            let j = choose|j: int| 0 <= j < n && #[trigger] names[j] == name;
            assert(j < n - 1 || j == n - 1);
        }
    }
}

/// Only sources of EDT that are built by the Designer are checked, and only where EDT is the target.
pub proof fn check_needs_its_setup(
    config: AppConfigView,
    request: SyntaxRequestView,
    host: HostPlatform,
    projects: Seq<Seq<char>>,
)
    ensures
        !(request.target is Edt) ==> started(config, request, host) is Err,
        config.format != SourceFormat::Edt ==> started(config, request, host) is Err,
        config.builder != BuilderBackend::Designer ==> started(config, request, host) is Err,
        request.target == (SyntaxTargetRequestView::Edt { projects }) && config.format
            == SourceFormat::Edt && config.builder == BuilderBackend::Designer ==> {
            let found = resolved_projects(host, config.base_path, config.source_sets, projects);
            &&& found is Ok <==> started(config, request, host) is Ok
            &&& found is Ok ==> {
                let run = started(config, request, host)->Ok_0;
                &&& run.projects == found->Ok_0
                &&& run.next == 0 && run.exit_code == 0 && run.status is Clean
                &&& run.issues.len() == 0 && run.stderr_lines.len() == 0
                &&& run.log_warnings.len() == 0 && run.single_log is None
            }
            &&& found is Err ==> started(config, request, host)->Err_0 == found->Err_0
        },
{
}

// ---------------------------------------------------------------------------------------------
// One project

/// The issues of a log that could be read are added behind those before, and the project in turn
/// has been passed. A log with issues gives these issues and no other.
pub proof fn issues_of_the_log_are_added(
    s: EdtSyntaxRunView,
    log_path: Seq<char>,
    response: EdtSessionResponseView,
    text: Seq<char>,
)
    requires
        s.next < s.projects.len(),
        s.next < usize::MAX,
        log_issues(text).len() > 0,
    ensures
        ({
            let after = after_project(s, log_path, response, Ok(text));
            &&& after.issues == s.issues + log_issues(text)
            &&& after.next == s.next + 1
            &&& after.projects == s.projects
            &&& after.log_warnings == s.log_warnings
            &&& badness(after.status) >= 1 && badness(after.status) >= badness(s.status)
            &&& after.exit_code != 0
        }),
{
}

/// A project that says nothing and whose log holds nothing changes neither status nor issues.
pub proof fn silent_project_is_clean(
    s: EdtSyntaxRunView,
    log_path: Seq<char>,
    response: EdtSessionResponseView,
    text: Seq<char>,
)
    requires
        s.next < s.projects.len(),
        all_space(response.stdout),
        all_space(response.stderr),
        log_issues(text).len() == 0,
    ensures
        ({
            let after = after_project(s, log_path, response, Ok(text));
            &&& after.issues == s.issues
            &&& after.status == s.status
            &&& after.exit_code == s.exit_code
            &&& after.stderr_lines == s.stderr_lines
            &&& after.log_warnings == s.log_warnings
        }),
{
    blank_text_is_white_space(response.stdout);
    blank_text_is_white_space(response.stderr);
    assert(s.issues + Seq::<IssueView>::empty() =~= s.issues);
    assert(s.issues + log_issues(text) =~= s.issues);
    assert(s.stderr_lines + Seq::<Seq<char>>::empty() =~= s.stderr_lines);
}

/// What a project writes to stderr is kept under its name, without the white space around it, and
/// means that the tool failed. Where the log holds no issues, one issue stands for the failure: an
/// error of the project, whose message names the project and tells what was written.
pub proof fn failure_is_told_under_the_project(
    s: EdtSyntaxRunView,
    log_path: Seq<char>,
    response: EdtSessionResponseView,
    before: Seq<char>,
    words: Seq<char>,
    after: Seq<char>,
    text: Seq<char>,
)
    requires
        s.next < s.projects.len(),
        all_space(before),
        all_space(after),
        words.len() > 0,
        is_bare(words),
        response.stderr == before + words + after,
        all_space(response.stdout),
        log_issues(text).len() == 0,
    ensures
        ({
            let name = s.projects[s.next as int].name;
            let done = after_project(s, log_path, response, Ok(text));
            let issue = done.issues[s.issues.len() as int];
            &&& done.status is ToolFailed
            &&& done.exit_code == status_exit_code(SyntaxCheckStatus::ToolFailed)
            &&& done.stderr_lines == s.stderr_lines.push(name + ": "@ + words)
            &&& done.issues.len() == s.issues.len() + 1
            &&& done.issues.subrange(0, s.issues.len() as int) == s.issues
            &&& issue is Edt
            &&& issue->Edt_0.path == name
            &&& issue->Edt_0.severity is Error
            &&& issue->Edt_0.line is None && issue->Edt_0.column is None
            &&& issue->Edt_0.message == "EDT check for project '"@ + name
                + "' exited with code "@ + signed_decimal(
                status_exit_code(SyntaxCheckStatus::ToolFailed) as int,
            ) + "; no parseable issues found"@ + "; stderr: "@ + trim(name + ": "@ + words)
        }),
{
    trimming_leaves_the_core(before, words, after);
    blank_text_is_white_space(response.stdout);
    blank_text_is_white_space(response.stderr);
    let name = s.projects[s.next as int].name;
    let line = name + ": "@ + words;
    assert(response.stderr[before.len() as int] == words[0]);
    assert(!all_space(response.stderr));
    assert(stderr_line(name, response) =~= seq![line]);
    assert(s.stderr_lines + seq![line] =~= s.stderr_lines.push(line));
    let lines = output_lines(name, response);
    assert(lines =~= seq![line]);
    assert(join_with(lines, "\n"@) == line);
    assert(line[(name.len() + ": "@.len()) as int] == words[0]);
    blank_text_is_white_space(line);
    assert(!all_space(line));
    assert(issues_in(Ok(text)).len() == 0);
    assert(added_issues(name, log_path, response, Ok(text)).len() == 1);
}

/// A log that cannot be read gives no issues and one warning, under the project's name, which names
/// the log and tells why.
pub proof fn unreadable_log_is_told(
    s: EdtSyntaxRunView,
    log_path: Seq<char>,
    response: EdtSessionResponseView,
    source: Seq<char>,
)
    requires
        s.next < s.projects.len(),
    ensures
        ({
            let name = s.projects[s.next as int].name;
            let done = after_project(s, log_path, response, Err(source));
            &&& done.log_warnings == s.log_warnings.push(
                name + ": "@ + ("failed to read edt --file log '"@ + log_path + "': "@ + source),
            )
            &&& done.issues.len() <= s.issues.len() + 1
            &&& done.issues.len() == s.issues.len() <==> trim(response.stdout).len() == 0 && trim(
                response.stderr,
            ).len() == 0
        }),
{
}

/// The log is named in the result where one project alone is checked, and nowhere else.
pub proof fn single_log_is_named(
    s: EdtSyntaxRunView,
    log_path: Seq<char>,
    response: EdtSessionResponseView,
    log: Result<Seq<char>, Seq<char>>,
)
    ensures
        s.projects.len() == 1 ==> after_project(s, log_path, response, log).single_log == Some(
            log_path,
        ),
        s.projects.len() != 1 ==> after_project(s, log_path, response, log).single_log
            == s.single_log,
{
}

/// A log is named after its check, and then by the time, the process and its number.
pub proof fn log_is_named_by_its_numbers(
    check: Seq<char>,
    timestamp: u64,
    pid: u32,
    sequence: u64,
)
    ensures
        log_name(check, timestamp, pid, sequence) == "syntax_"@ + check + "_"@ + decimal(
            timestamp as nat,
        ) + "_"@ + decimal(pid as nat) + "_"@ + decimal(sequence as nat) + ".log"@,
{
}

// ---------------------------------------------------------------------------------------------
// Ends

/// A request that never left the queue is refused as such; one that was interrupted while it ran
/// has failed and its command is waited for; any other failure of the session ends the check at
/// once, and an answer is read on.
pub proof fn answer_is_judged_by_how_far_it_came(
    s: EdtSyntaxRunView,
    log_path: Seq<char>,
    answer: Result<EdtSessionResponseView, EdtSessionErrorView>,
    elapsed: Span,
)
    ensures
        ({
            let v = verdict(s, log_path, answer, elapsed);
            &&& answer matches Ok(response) ==> v == AnswerVerdictView::ReadLog(response)
            &&& answer is Ok <==> v is ReadLog
            &&& v == AnswerVerdictView::Admission(EdtSyntaxTransportError::QueuedCancelled) <==> (
            answer is Err && answer->Err_0 is QueuedCancelled)
            &&& v == AnswerVerdictView::Admission(EdtSyntaxTransportError::QueuedTimeout) <==> (
            answer is Err && answer->Err_0 is QueuedTimeout)
            &&& v is Failed ==> {
                &&& v->await_completion <==> (answer->Err_0 is RunningCancelled
                    || answer->Err_0 is RunningTimeout)
                &&& v->error.kind == UseCaseErrorKind::Runtime
                &&& v->result.status is ToolFailed
                &&& v->result.exit_code == status_exit_code(SyntaxCheckStatus::ToolFailed)
                &&& v->result.issues.len() == 0 && v->result.summary.errors == 0
                &&& v->result.summary.warnings == 0 && v->result.summary.info == 0
                &&& v->result.check_name == "edt"@
                &&& v->result.stderr == Some(v->error.message)
                &&& s.projects.len() == 1 ==> v->result.platform_log_path == Some(log_path)
            }
        }),
{
}

/// The result of a run holds the status, the exit code and the issues that the projects added up
/// to; the lines of stderr and the warnings stand one below the other.
pub proof fn result_is_what_the_projects_added_up_to(
    s: EdtSyntaxRunView,
    summary: crate::domain::SyntaxIssueSummary,
    elapsed: Span,
    line: Seq<char>,
    next: Seq<char>,
)
    ensures
        ({
            let r = run_result(s, summary, elapsed);
            &&& r.status == s.status && r.exit_code == s.exit_code && r.issues == s.issues
            &&& r.summary == summary && r.platform_log_path == s.single_log
            &&& r.check_name == "edt"@
            &&& s.stderr_lines.len() == 0 ==> r.stderr is None
            &&& s.log_warnings.len() == 0 ==> r.log_read_warning is None
            &&& s.stderr_lines == seq![line] ==> r.stderr == Some(line)
            &&& s.stderr_lines == seq![line, next] ==> r.stderr == Some(line + "\n"@ + next)
            &&& s.log_warnings == seq![line] ==> r.log_read_warning == Some(line)
            &&& s.log_warnings == seq![line, next] ==> r.log_read_warning == Some(
                line + "\n"@ + next,
            )
        }),
{
    assert(join_with(seq![line], "\n"@) == line);
    assert(seq![line, next].drop_last() =~= seq![line]);
    assert(join_with(seq![line, next], "\n"@) == line + "\n"@ + next);
}

} // verus!
