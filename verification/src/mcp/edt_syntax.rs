//! Syntax check of EDT projects over the shared session: which projects are checked, what the
//! answer to each adds up to, and the result.

use vstd::prelude::*;
use crate::config::{SourceSetConfig, SourceSetConfigView};
use crate::domain::{
    issue_severity, severity_of, EdtIssue, EdtIssueView, Issue, IssueSeverity, IssueView,
    SyntaxCheckStatus, SyntaxIssueSummary,
};
use crate::path::{joined, path_join, HostPlatform};
use crate::text::{
    cat2, cat4, cat5, is_blank, join_texts, join_with, opt_text, push_text, text_eq, texts, trim,
    trimmed, views,
};
use crate::text_number::{decimal, decimal_i32, decimal_u64, signed_decimal};
use crate::use_cases::{UseCaseError, UseCaseErrorKind};

verus! {

/// Message for a configuration whose syntax cannot be checked by EDT.
pub open spec fn unsupported_setup() -> Seq<char> {
    "syntax edt currently supports only builder=DESIGNER and format=EDT"@
}

// ---------------------------------------------------------------------------------------------
// Pieces of a result

/// Exit code reported for a status.
pub open spec fn status_exit_code(status: SyntaxCheckStatus) -> i32 {
    match status {
        SyntaxCheckStatus::Clean => 0,
        SyntaxCheckStatus::IssuesFound => 101,
        SyntaxCheckStatus::ToolFailed => -1i32,
    }
}

/// Exit code reported for a status.
pub fn actor_exit_code(status: SyntaxCheckStatus) -> (r: i32)
    ensures
        r == status_exit_code(status),
{
    match status {
        SyntaxCheckStatus::Clean => 0,
        SyntaxCheckStatus::IssuesFound => 101,
        SyntaxCheckStatus::ToolFailed => -1i32,
    }
}

/// Status of one project: output on stderr is a failure of the tool, and so is output on stdout
/// where no issues were found.
pub open spec fn project_status(
    stdout: Seq<char>,
    stderr: Seq<char>,
    issues: nat,
) -> SyntaxCheckStatus {
    if stderr.len() > 0 {
        SyntaxCheckStatus::ToolFailed
    } else if issues > 0 {
        SyntaxCheckStatus::IssuesFound
    } else if stdout.len() > 0 {
        SyntaxCheckStatus::ToolFailed
    } else {
        SyntaxCheckStatus::Clean
    }
}

/// Status of one project.
pub fn actor_status_from_result(stdout: &str, stderr: &str, issues: &Vec<Issue>) -> (r:
    SyntaxCheckStatus)
    ensures
        r == project_status(stdout@, stderr@, issues@.len()),
{
    if !stderr.is_empty() {
        SyntaxCheckStatus::ToolFailed
    } else if issues.len() > 0 {
        SyntaxCheckStatus::IssuesFound
    } else if !stdout.is_empty() {
        SyntaxCheckStatus::ToolFailed
    } else {
        SyntaxCheckStatus::Clean
    }
}

/// Worse of two statuses.
pub open spec fn worse(a: SyntaxCheckStatus, b: SyntaxCheckStatus) -> SyntaxCheckStatus {
    if a is ToolFailed || b is ToolFailed {
        SyntaxCheckStatus::ToolFailed
    } else if a is IssuesFound || b is IssuesFound {
        SyntaxCheckStatus::IssuesFound
    } else {
        SyntaxCheckStatus::Clean
    }
}

/// Worse of two statuses.
pub fn combine_status(current: SyntaxCheckStatus, next: SyntaxCheckStatus) -> (r: SyntaxCheckStatus)
    ensures
        r == worse(current, next),
{
    match (current, next) {
        (SyntaxCheckStatus::ToolFailed, _) => SyntaxCheckStatus::ToolFailed,
        (_, SyntaxCheckStatus::ToolFailed) => SyntaxCheckStatus::ToolFailed,
        (SyntaxCheckStatus::IssuesFound, _) => SyntaxCheckStatus::IssuesFound,
        (_, SyntaxCheckStatus::IssuesFound) => SyntaxCheckStatus::IssuesFound,
        _ => SyntaxCheckStatus::Clean,
    }
}

/// Number of issues of a severity among the first `n`.
pub open spec fn count_severity(issues: Seq<IssueView>, severity: IssueSeverity, n: int) -> nat
    decreases n,
{
    if n <= 0 {
        0
    } else {
        count_severity(issues, severity, n - 1) + (if severity_of(issues[n - 1]) == severity {
            1nat
        } else {
            0
        })
    }
}

/// The summary counts the issues.
pub open spec fn summarizes(summary: SyntaxIssueSummary, issues: Seq<IssueView>) -> bool {
    &&& summary.errors == count_severity(issues, IssueSeverity::Error, issues.len() as int)
    &&& summary.warnings == count_severity(issues, IssueSeverity::Warning, issues.len() as int)
    &&& summary.info == count_severity(issues, IssueSeverity::Info, issues.len() as int)
}

/// Counts the issues by severity.
pub fn summarize_issues(issues: &Vec<Issue>) -> (r: SyntaxIssueSummary)
    ensures
        summarizes(r, views(issues@)),
{
    let mut summary = SyntaxIssueSummary { errors: 0, warnings: 0, info: 0 };
    let ghost all = views(issues@);
    let mut i: usize = 0;
    while i < issues.len()
        invariant
            i <= issues.len(),
            all == views(issues@),
            summary.errors == count_severity(all, IssueSeverity::Error, i as int),
            summary.warnings == count_severity(all, IssueSeverity::Warning, i as int),
            summary.info == count_severity(all, IssueSeverity::Info, i as int),
            summary.errors + summary.warnings + summary.info == i,
        decreases issues.len() - i,
    {
        assert(all[i as int] == issues@[i as int]@);
        match issue_severity(&issues[i]) {
            IssueSeverity::Error => {
                summary.errors = summary.errors + 1;
            },
            IssueSeverity::Warning => {
                summary.warnings = summary.warnings + 1;
            },
            IssueSeverity::Info => {
                summary.info = summary.info + 1;
            },
        }
        i += 1;
    }
    summary
}

/// Message of the issue that stands for a failed tool.
pub open spec fn fallback_message(
    project: Seq<char>,
    exit_code: i32,
    output: Option<Seq<char>>,
    log_warning: Option<Seq<char>>,
    log_path: Option<Seq<char>>,
) -> Seq<char> {
    let head = "EDT check for project '"@ + project + "' exited with code "@ + signed_decimal(
        exit_code as int,
    ) + "; no parseable issues found"@;
    if log_warning is Some {
        head + "; --file log unreadable: "@ + log_warning->0
    } else if output is Some && !is_blank(output->0) {
        head + "; stderr: "@ + trim(output->0)
    } else if log_path is Some {
        head + " in --file log '"@ + log_path->0 + "'"@
    } else {
        head
    }
}

/// Issue that stands for a failed tool.
pub open spec fn fallback_issue(project: Seq<char>, message: Seq<char>) -> IssueView {
    IssueView::Edt(
        EdtIssueView {
            path: project,
            line: None,
            column: None,
            message,
            severity: IssueSeverity::Error,
            check: None,
        },
    )
}

/// Issue that stands for a failed tool.
pub fn fallback_edt_issue(
    project: &str,
    exit_code: i32,
    output: &Option<String>,
    log_warning: &Option<String>,
    log_path: &Option<String>,
) -> (r: Issue)
    ensures
        r@ == fallback_issue(
            project@,
            fallback_message(
                project@,
                exit_code,
                opt_text(*output),
                opt_text(*log_warning),
                opt_text(*log_path),
            ),
        ),
{
    let code = decimal_i32(exit_code);
    let mut message = cat5(
        "EDT check for project '",
        project,
        "' exited with code ",
        code.as_str(),
        "; no parseable issues found",
    );
    let mut told = false;
    if let Some(warning) = log_warning {
        message.append("; --file log unreadable: ");
        message.append(warning.as_str());
        told = true;
    }
    if !told {
        if let Some(text) = output {
            let t = trimmed(text.as_str());
            if !t.as_str().is_empty() {
                message.append("; stderr: ");
                message.append(t.as_str());
                told = true;
            }
        }
    }
    if !told {
        if let Some(path) = log_path {
            message.append(" in --file log '");
            message.append(path.as_str());
            message.append("'");
        }
    }
    Issue::Edt(
        EdtIssue {
            path: project.to_owned(),
            line: None,
            column: None,
            message,
            severity: IssueSeverity::Error,
            check: None,
        },
    )
}

/// Name of the log of a check.
pub open spec fn log_name(check: Seq<char>, timestamp: u64, pid: u32, sequence: u64) -> Seq<char> {
    "syntax_"@ + check + "_"@ + decimal(timestamp as nat) + "_"@ + decimal(pid as nat) + "_"@
        + decimal(sequence as nat) + ".log"@
}

/// Path of the log of a check, told apart by time, process and a running number.
pub fn unique_log_path(
    host: HostPlatform,
    dir: &str,
    check: &str,
    timestamp: u64,
    pid: u32,
    sequence: u64,
) -> (r: String)
    ensures
        r@ == joined(host, dir@, log_name(check@, timestamp, pid, sequence)),
{
    let mut name = cat4("syntax_", check, "_", decimal_u64(timestamp).as_str());
    name.append("_");
    name.append(decimal_u64(pid as u64).as_str());
    name.append("_");
    name.append(decimal_u64(sequence).as_str());
    name.append(".log");
    path_join(host, dir, name.as_str())
}

// ---------------------------------------------------------------------------------------------
// Projects

/// Project that is checked.
#[derive(Debug, PartialEq, Eq)]
pub struct SyntaxProject {
    pub name: String,
    pub source_path: String,
}

/// Mathematical value of [`SyntaxProject`].
pub struct SyntaxProjectView {
    pub name: Seq<char>,
    pub source_path: Seq<char>,
}

impl View for SyntaxProject {
    type V = SyntaxProjectView;

    open spec fn view(&self) -> SyntaxProjectView {
        SyntaxProjectView {
            name: self.name@,
            source_path: self.source_path@,
        }
    }
}

/// Project of a source-set.
pub open spec fn project_of(
    host: HostPlatform,
    base: Seq<char>,
    source_set: SourceSetConfigView,
) -> SyntaxProjectView {
    SyntaxProjectView { name: source_set.name, source_path: joined(host, base, source_set.path) }
}

/// Index of the first source-set of the name, or their number where there is none.
pub open spec fn set_index(sets: Seq<SourceSetConfigView>, name: Seq<char>) -> int
    decreases sets.len(),
{
    if sets.len() == 0 || sets[0].name == name {
        0
    } else {
        1 + set_index(sets.subrange(1, sets.len() as int), name)
    }
}

/// There is a source-set of the name.
pub open spec fn has_set(sets: Seq<SourceSetConfigView>, name: Seq<char>) -> bool {
    exists|i: int| 0 <= i < sets.len() && (#[trigger] sets[i]).name == name
}

/// Names among the first `n` that no source-set has.
pub open spec fn unknown_names(
    sets: Seq<SourceSetConfigView>,
    names: Seq<Seq<char>>,
    n: int,
) -> Seq<Seq<char>>
    decreases n,
{
    if n <= 0 {
        Seq::empty()
    } else if has_set(sets, names[n - 1]) {
        unknown_names(sets, names, n - 1)
    } else {
        unknown_names(sets, names, n - 1).push(names[n - 1])
    }
}

/// Projects to check: all source-sets where none is named, else those named, in that order.
pub open spec fn resolved_projects(
    host: HostPlatform,
    base: Seq<char>,
    sets: Seq<SourceSetConfigView>,
    names: Seq<Seq<char>>,
) -> Result<Seq<SyntaxProjectView>, Seq<char>> {
    if sets.len() == 0 {
        Err("syntax edt requires at least one source-set"@)
    } else if names.len() == 0 {
        Ok(sets.map_values(|s: SourceSetConfigView| project_of(host, base, s)))
    } else if unknown_names(sets, names, names.len() as int).len() > 0 {
        Err(
            "unknown EDT source-set(s): "@ + join_with(
                unknown_names(sets, names, names.len() as int),
                ", "@,
            ),
        )
    } else {
        Ok(
            names.map_values(
                |name: Seq<char>| project_of(host, base, sets[set_index(sets, name)]),
            ),
        )
    }
}

proof fn lemma_set_index(sets: Seq<SourceSetConfigView>, name: Seq<char>, k: int)
    requires
        0 <= k < sets.len(),
        sets[k].name == name,
        forall|i: int| 0 <= i < k ==> (#[trigger] sets[i]).name != name,
    ensures
        set_index(sets, name) == k,
    decreases k,
{
    if k > 0 {
        assert(sets[0].name != name);
        let rest = sets.subrange(1, sets.len() as int);
        assert forall|i: int| 0 <= i < k - 1 implies (#[trigger] rest[i]).name != name by {
            assert(rest[i] == sets[i + 1]);
        }
        lemma_set_index(rest, name, k - 1);
    }
}

/// Index of the first source-set of the name.
fn find_set(sets: &Vec<SourceSetConfig>, name: &str) -> (r: Option<usize>)
    ensures
        match r {
            Some(i) => i < sets.len() && has_set(views(sets@), name@) && i == set_index(
                views(sets@),
                name@,
            ),
            None => !has_set(views(sets@), name@),
        },
{
    let ghost all = views(sets@);
    let mut i: usize = 0;
    while i < sets.len()
        invariant
            i <= sets.len(),
            all == views(sets@),
            forall|k: int| 0 <= k < i ==> (#[trigger] all[k]).name != name@,
        decreases sets.len() - i,
    {
        assert(all[i as int] == sets@[i as int]@);
        if text_eq(sets[i].name.as_str(), name) {
            proof {
                lemma_set_index(all, name@, i as int);
            }
            return Some(i);
        }
        i += 1;
    }
    None
}

fn make_project(host: HostPlatform, base: &str, source_set: &SourceSetConfig) -> (r: SyntaxProject)
    ensures
        r@ == project_of(host, base@, source_set@),
{
    SyntaxProject {
        name: source_set.name.clone(),
        source_path: path_join(host, base, source_set.path.as_str()),
    }
}

/// Projects to check.
pub fn resolve_edt_source_sets(
    host: HostPlatform,
    base: &str,
    sets: &Vec<SourceSetConfig>,
    names: &Vec<String>,
) -> (r: Result<Vec<SyntaxProject>, UseCaseError>)
    ensures
        match r {
            Ok(projects) => resolved_projects(host, base@, views(sets@), texts(names@)) == Ok::<
                Seq<SyntaxProjectView>,
                Seq<char>,
            >(views(projects@)),
            Err(e) => e@.kind == UseCaseErrorKind::Validation && resolved_projects(
                host,
                base@,
                views(sets@),
                texts(names@),
            ) == Err::<Seq<SyntaxProjectView>, Seq<char>>(e@.message),
        },
{
    let ghost all = views(sets@);
    let ghost wanted = texts(names@);
    if sets.len() == 0 {
        return Err(
            UseCaseError::new(
                UseCaseErrorKind::Validation,
                "syntax edt requires at least one source-set",
            ),
        );
    }
    let mut selected: Vec<SyntaxProject> = Vec::new();
    let mut i: usize = 0;
    if names.len() == 0 {
        let ghost every = all.map_values(|s: SourceSetConfigView| project_of(host, base@, s));
        assert(views(selected@) =~= every.take(0));
        while i < sets.len()
            invariant
                i <= sets.len(),
                all == views(sets@),
                every == all.map_values(|s: SourceSetConfigView| project_of(host, base@, s)),
                views(selected@) == every.take(i as int),
            decreases sets.len() - i,
        {
            let ghost before = selected@;
            selected.push(make_project(host, base, &sets[i]));
            assert(views(selected@) =~= views(before).push(every[i as int]));
            assert(every.take(i + 1) =~= every.take(i as int).push(every[i as int]));
            i += 1;
        }
        assert(every.take(every.len() as int) =~= every);
        return Ok(selected);
    }
    let mut unknown: Vec<String> = Vec::new();
    let ghost chosen = wanted.map_values(
        |name: Seq<char>| project_of(host, base@, all[set_index(all, name)]),
    );
    assert(texts(unknown@) =~= Seq::<Seq<char>>::empty());
    assert(views(selected@) =~= chosen.take(0));
    while i < names.len()
        invariant
            i <= names.len(),
            all == views(sets@),
            wanted == texts(names@),
            chosen == wanted.map_values(
                |name: Seq<char>| project_of(host, base@, all[set_index(all, name)]),
            ),
            texts(unknown@) == unknown_names(all, wanted, i as int),
            unknown@.len() == 0 ==> views(selected@) == chosen.take(i as int),
        decreases names.len() - i,
    {
        let name = names[i].as_str();
        assert(name@ == wanted[i as int]);
        match find_set(sets, name) {
            Some(k) => {
                let ghost before = selected@;
                selected.push(make_project(host, base, &sets[k]));
                proof {
                    assert(all[k as int] == sets@[k as int]@);
                    assert(views(selected@) =~= views(before).push(chosen[i as int]));
                    assert(chosen.take(i + 1) =~= chosen.take(i as int).push(chosen[i as int]));
                }
            },
            None => {
                push_text(&mut unknown, name);
            },
        }
        i += 1;
    }
    assert(texts(unknown@).len() == unknown@.len());
    if unknown.len() > 0 {
        let message = cat2(
            "unknown EDT source-set(s): ",
            join_texts(&unknown, ", ").as_str(),
        );
        return Err(UseCaseError::new(UseCaseErrorKind::Validation, message.as_str()));
    }
    assert(chosen.take(chosen.len() as int) =~= chosen);
    Ok(selected)
}

} // verus!
