//! Command lines of `1cedtcli`, for a process of its own and for the interactive prompt.

use vstd::prelude::*;
use crate::text::{
    char_is_space, chars_of, first_word, is_space, join_texts, join_with, opt_str, push_text,
    push_texts, text_first_word, texts,
};

verus! {

/// The argument is written in quotes: it is empty, or holds white space, a quote or a backslash.
pub open spec fn needs_quotes(argument: Seq<char>) -> bool {
    argument.len() == 0 || exists|i: int|
        0 <= i < argument.len() && (is_space(#[trigger] argument[i]) || argument[i] == '"'
            || argument[i] == '\\')
}

/// One character as it is written in quotes.
pub open spec fn escaped_char(c: char) -> Seq<char> {
    if c == '\\' || c == '"' {
        seq!['\\', c]
    } else {
        seq![c]
    }
}

/// Text as it is written in quotes.
pub open spec fn escaped(s: Seq<char>) -> Seq<char>
    decreases s.len(),
{
    if s.len() == 0 {
        Seq::empty()
    } else {
        escaped(s.drop_last()) + escaped_char(s.last())
    }
}

/// Argument as it is written at the interactive prompt.
pub open spec fn quoted(argument: Seq<char>) -> Seq<char> {
    if needs_quotes(argument) {
        seq!['"'] + escaped(argument) + seq!['"']
    } else {
        argument
    }
}

/// Arguments as they are written at the interactive prompt.
pub open spec fn quoted_all(arguments: Seq<Seq<char>>) -> Seq<Seq<char>> {
    arguments.map_values(|a: Seq<char>| quoted(a))
}

/// Command line for the interactive prompt.
pub open spec fn interactive_line(arguments: Seq<Seq<char>>) -> Seq<char> {
    join_with(quoted_all(arguments), " "@)
}

/// Writes one argument for the interactive prompt.
pub fn quote_interactive_argument(argument: &str) -> (r: String)
    ensures
        r@ == quoted(argument@),
{
    let chars = chars_of(argument);
    let mut special = chars.len() == 0;
    let mut i: usize = 0;
    while i < chars.len()
        invariant
            i <= chars.len(),
            special == (chars.len() == 0 || exists|k: int|
                0 <= k < i && (is_space(#[trigger] chars@[k]) || chars@[k] == '"' || chars@[k]
                    == '\\')),
        decreases chars.len() - i,
    {
        if char_is_space(chars[i]) || chars[i] == '"' || chars[i] == '\\' {
            special = true;
            assert(is_space(chars@[i as int]) || chars@[i as int] == '"' || chars@[i as int] == '\\');
        }
        i += 1;
    }
    if !special {
        return argument.to_owned();
    }
    let mut out = String::new();
    out.push('"');
    let mut j: usize = 0;
    assert(out@ =~= seq!['"'] + escaped(chars@.take(0)));
    while j < chars.len()
        invariant
            j <= chars.len(),
            out@ == seq!['"'] + escaped(chars@.take(j as int)),
        decreases chars.len() - j,
    {
        let c = chars[j];
        let ghost before = out@;
        if c == '\\' || c == '"' {
            out.push('\\');
        }
        out.push(c);
        proof {
            let next = chars@.take(j + 1);
            assert(next.drop_last() =~= chars@.take(j as int));
            assert(out@ =~= before + escaped_char(c));
            assert(seq!['"'] + escaped(next) =~= before + escaped_char(c));
        }
        j += 1;
    }
    assert(chars@.take(chars@.len() as int) =~= chars@);
    let ghost body = out@;
    out.push('"');
    assert(out@ =~= body + seq!['"']);
    out
}

/// Writes a command line for the interactive prompt.
pub fn render_interactive_command(arguments: &Vec<String>) -> (r: String)
    ensures
        r@ == interactive_line(texts(arguments@)),
{
    let mut pieces: Vec<String> = Vec::new();
    let mut i: usize = 0;
    assert(texts(pieces@) =~= quoted_all(texts(arguments@)).take(0));
    while i < arguments.len()
        invariant
            i <= arguments.len(),
            texts(pieces@) == quoted_all(texts(arguments@)).take(i as int),
        decreases arguments.len() - i,
    {
        let piece = quote_interactive_argument(arguments[i].as_str());
        push_text(&mut pieces, piece.as_str());
        assert(quoted_all(texts(arguments@)).take(i + 1) =~= quoted_all(texts(arguments@)).take(
            i as int,
        ).push(piece@));
        i += 1;
    }
    assert(quoted_all(texts(arguments@)).take(arguments@.len() as int) =~= quoted_all(
        texts(arguments@),
    ));
    join_texts(&pieces, " ")
}

// ---------------------------------------------------------------------------------------------
// Commands

/// Arguments of `export` for a project of the workspace.
pub open spec fn export_args(project_name: Seq<char>, target: Seq<char>) -> Seq<Seq<char>> {
    seq!["export"@, "--project-name"@, project_name, "--configuration-files"@, target]
}

/// Arguments of `export` for a project directory.
pub open spec fn export_path_args(source: Seq<char>, target: Seq<char>) -> Seq<Seq<char>> {
    seq!["export"@, "--project"@, source, "--configuration-files"@, target]
}

/// Arguments of `validate`.
pub open spec fn validate_args(source: Seq<char>, out_log: Seq<char>) -> Seq<Seq<char>> {
    seq!["validate"@, "--file"@, out_log, "--project-list"@, source]
}

/// Arguments of `import` for a project directory.
pub open spec fn import_args(source: Seq<char>) -> Seq<Seq<char>> {
    seq!["import"@, "--project"@, source]
}

/// A flag with its value, or nothing.
pub open spec fn optional_flag(flag: Seq<char>, value: Option<Seq<char>>) -> Seq<Seq<char>> {
    match value {
        Some(v) => seq![flag, v],
        None => Seq::empty(),
    }
}

/// Arguments of `import` for configuration files.
pub open spec fn import_files_args(
    target_project: Seq<char>,
    configuration_files: Seq<char>,
    version: Option<Seq<char>>,
    base_project_name: Option<Seq<char>>,
    build: bool,
) -> Seq<Seq<char>> {
    seq!["import"@, "--configuration-files"@, configuration_files, "--project"@, target_project]
        + optional_flag("--version"@, version) + optional_flag(
        "--base-project-name"@,
        base_project_name,
    ) + optional_flag(
        "--build"@,
        if build {
            Some("true"@)
        } else {
            None
        },
    )
}

/// Arguments of a process that executes one command in the workspace.
pub open spec fn process_args(workspace: Seq<char>, command: Seq<Seq<char>>) -> Seq<Seq<char>> {
    seq!["-data"@, workspace, "-command"@] + command
}

fn five(a: &str, b: &str, c: &str, d: &str, e: &str) -> (r: Vec<String>)
    ensures
        texts(r@) == seq![a@, b@, c@, d@, e@],
{
    let mut args: Vec<String> = Vec::new();
    assert(texts(args@) =~= Seq::<Seq<char>>::empty());
    push_text(&mut args, a);
    push_text(&mut args, b);
    push_text(&mut args, c);
    push_text(&mut args, d);
    push_text(&mut args, e);
    args
}

/// Arguments of `export` for a project of the workspace.
pub fn export_command_arguments(project_name: &str, target: &str) -> (r: Vec<String>)
    ensures
        texts(r@) == export_args(project_name@, target@),
{
    five("export", "--project-name", project_name, "--configuration-files", target)
}

/// Arguments of `export` for a project directory.
pub fn export_project_path_command_arguments(source: &str, target: &str) -> (r: Vec<String>)
    ensures
        texts(r@) == export_path_args(source@, target@),
{
    five("export", "--project", source, "--configuration-files", target)
}

/// Arguments of `validate`.
pub fn validate_command_arguments(source: &str, out_log: &str) -> (r: Vec<String>)
    ensures
        texts(r@) == validate_args(source@, out_log@),
{
    five("validate", "--file", out_log, "--project-list", source)
}

/// Arguments of `import` for a project directory.
pub fn import_command_arguments(source: &str) -> (r: Vec<String>)
    ensures
        texts(r@) == import_args(source@),
{
    let mut args: Vec<String> = Vec::new();
    assert(texts(args@) =~= Seq::<Seq<char>>::empty());
    push_text(&mut args, "import");
    push_text(&mut args, "--project");
    push_text(&mut args, source);
    args
}

fn push_optional_flag(args: &mut Vec<String>, flag: &str, value: Option<&str>)
    ensures
        texts(final(args)@) == texts(old(args)@) + optional_flag(flag@, opt_str(value)),
{
    let ghost before = texts(args@);
    match value {
        Some(v) => {
            push_text(args, flag);
            push_text(args, v);
            assert(texts(args@) =~= before + seq![flag@, v@]);
        },
        None => {
            assert(before =~= before + Seq::<Seq<char>>::empty());
        },
    }
}

/// Arguments of `import` for configuration files.
pub fn import_configuration_files_command_arguments(
    target_project: &str,
    configuration_files: &str,
    version: Option<&str>,
    base_project_name: Option<&str>,
    build: bool,
) -> (r: Vec<String>)
    ensures
        texts(r@) == import_files_args(
            target_project@,
            configuration_files@,
            opt_str(version),
            opt_str(base_project_name),
            build,
        ),
{
    let mut args = five(
        "import",
        "--configuration-files",
        configuration_files,
        "--project",
        target_project,
    );
    push_optional_flag(&mut args, "--version", version);
    push_optional_flag(&mut args, "--base-project-name", base_project_name);
    push_optional_flag(
        &mut args,
        "--build",
        if build {
            Some("true")
        } else {
            None
        },
    );
    args
}

/// Arguments of a process that executes one command in the workspace.
pub fn process_arguments(workspace: &str, command: &Vec<String>) -> (r: Vec<String>)
    ensures
        texts(r@) == process_args(workspace@, texts(command@)),
{
    let mut args: Vec<String> = Vec::new();
    assert(texts(args@) =~= Seq::<Seq<char>>::empty());
    push_text(&mut args, "-data");
    push_text(&mut args, workspace);
    push_text(&mut args, "-command");
    push_texts(&mut args, command);
    args
}

/// Interactive `validate` command.
pub fn render_interactive_validate_command(source: &str, out_log: &str) -> (r: String)
    ensures
        r@ == interactive_line(validate_args(source@, out_log@)),
{
    render_interactive_command(&validate_command_arguments(source, out_log))
}

/// Interactive `export` command for a project of the workspace.
pub fn render_interactive_export_command(project_name: &str, target: &str) -> (r: String)
    ensures
        r@ == interactive_line(export_args(project_name@, target@)),
{
    render_interactive_command(&export_command_arguments(project_name, target))
}

/// Interactive `export` command for a project directory.
pub fn render_interactive_export_project_path_command(source: &str, target: &str) -> (r: String)
    ensures
        r@ == interactive_line(export_path_args(source@, target@)),
{
    render_interactive_command(&export_project_path_command_arguments(source, target))
}

/// Interactive `import` command.
pub fn render_interactive_import_command(source: &str) -> (r: String)
    ensures
        r@ == interactive_line(import_args(source@)),
{
    render_interactive_command(&import_command_arguments(source))
}

/// Line that changes the session's directory.
pub open spec fn change_dir_line(path: Seq<char>) -> Seq<char> {
    interactive_line(seq!["cd"@, path])
}

/// Interactive command that changes the session's directory.
pub fn render_interactive_change_dir_command(path: &str) -> (r: String)
    ensures
        r@ == change_dir_line(path@),
{
    let mut args: Vec<String> = Vec::new();
    assert(texts(args@) =~= Seq::<Seq<char>>::empty());
    push_text(&mut args, "cd");
    push_text(&mut args, path);
    assert(texts(args@) =~= seq!["cd"@, path@]);
    render_interactive_command(&args)
}

/// Interactive command that prints the session's directory.
pub fn render_interactive_probe_workdir_command() -> (r: String)
    ensures
        r@ == "cd"@,
{
    "cd".to_owned()
}

/// Command line of a process, as it is shown in messages.
pub fn render_process_command(binary: &str, args: &Vec<String>) -> (r: String)
    ensures
        r@ == join_with(seq![binary@] + texts(args@), " "@),
{
    let mut parts: Vec<String> = Vec::new();
    push_text(&mut parts, binary);
    push_texts(&mut parts, args);
    assert(texts(parts@) =~= seq![binary@] + texts(args@));
    join_texts(&parts, " ")
}

/// Name of an interactive command: its first word.
pub open spec fn command_name(command: Seq<char>) -> Seq<char> {
    match first_word(command) {
        Some(word) => word,
        None => "<unknown>"@,
    }
}

/// Name of an interactive command.
pub fn interactive_command_name(command: &str) -> (r: String)
    ensures
        r@ == command_name(command@),
{
    match text_first_word(command) {
        Some(word) => word,
        None => "<unknown>".to_owned(),
    }
}

/// Session command as it is shown in messages.
pub open spec fn session_command(
    binary: Seq<char>,
    workspace: Seq<char>,
    command: Seq<char>,
) -> Seq<char> {
    binary + " -data "@ + workspace + " [interactive: "@ + command_name(command) + "]"@
}

/// Session command as it is shown in messages.
pub fn render_interactive_session_command(binary: &str, workspace: &str, command: &str) -> (r:
    String)
    ensures
        r@ == session_command(binary@, workspace@, command@),
{
    let name = interactive_command_name(command);
    let mut out = crate::text::cat5(binary, " -data ", workspace, " [interactive: ", name.as_str());
    out.append("]");
    out
}

// ---------------------------------------------------------------------------------------------
// Laws

proof fn lemma_escaped_is_injective(a: Seq<char>, b: Seq<char>)
    requires
        escaped(a) == escaped(b),
    ensures
        a == b,
    decreases a.len(),
{
    if a.len() == 0 {
        if b.len() > 0 {
            assert(escaped(b).len() > 0);
        }
        assert(a =~= b);
    } else if b.len() == 0 {
        assert(escaped(a).len() > 0);
    } else {
        let ea = escaped(a);
        assert(ea.last() == a.last());
        assert(ea == escaped(b));
        assert(escaped(b).last() == b.last());
        let ta = escaped_char(a.last());
        assert(escaped(a.drop_last()) =~= ea.take(ea.len() - ta.len()));
        assert(escaped(b.drop_last()) =~= ea.take(ea.len() - ta.len()));
        lemma_escaped_is_injective(a.drop_last(), b.drop_last());
        assert(a =~= a.drop_last().push(a.last()));
        assert(b =~= b.drop_last().push(b.last()));
    }
}

/// Quoting loses nothing: different arguments are written differently.
pub proof fn quoting_is_injective(a: Seq<char>, b: Seq<char>)
    requires
        quoted(a) == quoted(b),
    ensures
        a == b,
{
    if needs_quotes(a) && needs_quotes(b) {
        let q = quoted(a);
        assert(escaped(a) =~= q.subrange(1, q.len() - 1));
        assert(escaped(b) =~= q.subrange(1, q.len() - 1));
        lemma_escaped_is_injective(a, b);
    } else if needs_quotes(a) {
        assert(quoted(a)[0] == '"');
        assert(b[0] == '"');
    } else if needs_quotes(b) {
        assert(quoted(b)[0] == '"');
        assert(a[0] == '"');
    }
}

} // verus!
