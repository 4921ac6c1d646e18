//! Laws of the command lines: what is passed to the utilities, and what is shown of it.

use vstd::prelude::*;
use crate::config::InfobaseConfigView;
use crate::path::{parent_of, HostPlatform};
use crate::platform::connection::{
    after_char, argument_after_f, arguments_of, connection_arguments, connection_of, create_arg_of,
    current_or_empty, doubled, file_path_of, path_in_part, path_in_parts, split_state, SplitState,
    V8ConnectionView,
};
use crate::platform::designer::{designer_call, extension_args, DesignerDslView};
use crate::platform::enterprise::{
    enterprise_args, payload_path, EnterpriseDslView, EnterpriseScenarioView,
};
use crate::platform::git::{check_ignore_args, ignored_by};
use crate::platform::ibcmd::{
    auth_arguments, command_args, create_args, create_status, dbms_auth_arguments, existing_line,
    extension_option, ibcmd_call, ibcmd_connection, infobase_arguments, tells_of_existing,
    tells_of_failure, yes_no, IbcmdConnectionView, IbcmdDslView, IbcmdInfobaseCreateStatus,
};
use crate::platform::process::{
    is_secret_value, rendered_command, sensitive_flag, shown_arg, shown_args, ProcessResultView,
};
use crate::platform::result::platform_result;
use crate::text::{is_blank, is_space, join_with, trim};
use crate::text_laws::{
    all_space, blank_text_is_white_space, first_piece_ends_at_the_separator, free_of,
    text_without_separator_is_one_piece,
};
use crate::text_scan::{ascii_lowered, contains, lines, split, starts_with};

verus! {

// ---------------------------------------------------------------------------------------------
// Splitting of a command line

/// No character of the text is white space or a quotation mark.
pub open spec fn is_plain_word(s: Seq<char>) -> bool {
    forall|i: int| 0 <= i < s.len() ==> !is_space(#[trigger] s[i]) && s[i] != '"'
}

proof fn lemma_state_prefix(a: Seq<char>, b: Seq<char>, n: int)
    requires
        0 <= n <= a.len(),
    ensures
        split_state(a + b, n) == split_state(a, n),
    decreases n,
{
    if n > 0 {
        lemma_state_prefix(a, b, n - 1);
        assert((a + b)[n - 1] == a[n - 1]);
    }
}

proof fn lemma_state_behind(a: Seq<char>, b: Seq<char>, n: int)
    requires
        0 <= n <= b.len(),
        split_state(a, a.len() as int).current is None,
        !split_state(a, a.len() as int).quoted,
    ensures
        ({
            let head = split_state(a, a.len() as int).args;
            let own = split_state(b, n);
            split_state(a + b, a.len() + n) == (SplitState { args: head + own.args, ..own })
        }),
    decreases n,
{
    lemma_state_prefix(a, b, a.len() as int);
    let head = split_state(a, a.len() as int).args;
    if n == 0 {
        assert(head + Seq::<Seq<char>>::empty() =~= head);
    } else {
        lemma_state_behind(a, b, n - 1);
        assert((a + b)[a.len() + n - 1] == b[n - 1]);
        let own = split_state(b, n - 1);
        if let Some(c) = own.current {
            assert((head + own.args).push(c) =~= head + own.args.push(c));
        }
    }
}

proof fn lemma_word_state(s: SplitState, line: Seq<char>, from: int, word: Seq<char>, n: int)
    requires
        0 <= from,
        from + word.len() <= line.len(),
        0 <= n <= word.len(),
        s == split_state(line, from),
        forall|i: int| 0 <= i < word.len() ==> line[from + i] == word[i],
        forall|i: int|
            0 <= i < word.len() ==> (#[trigger] word[i]) != '"' && (is_space(word[i]) ==> s.quoted),
    ensures
        ({
            let t = split_state(line, from + n);
            &&& t.args == s.args
            &&& t.quoted == s.quoted
            &&& n > 0 ==> t.current == Some(current_or_empty(s) + word.take(n))
            &&& n == 0 ==> t.current == s.current
        }),
    decreases n,
{
    if n > 0 {
        lemma_word_state(s, line, from, word, n - 1);
        assert(line[from + n - 1] == word[n - 1]);
        assert(word.take(n) =~= word.take(n - 1).push(word[n - 1]));
        assert(word.take(0) =~= Seq::<char>::empty());
        assert(current_or_empty(s) + word.take(n) =~= (current_or_empty(s) + word.take(n - 1)).push(
            word[n - 1],
        ));
    }
}

/// A word is an argument as it stands, and a quoted text behind it, or on its own, belongs to it
/// with all its white space and without its quotation marks. White space alone makes no argument.
pub proof fn quoted_text_is_one_argument(word: Seq<char>, text: Seq<char>, c: char)
    requires
        is_plain_word(word),
        free_of(text, '"'),
        is_space(c),
    ensures
        word.len() > 0 ==> arguments_of(word) == seq![word],
        arguments_of(word + seq!['"'] + text + seq!['"']) == seq![word + text],
        arguments_of(seq![c]).len() == 0,
        arguments_of(Seq::empty()).len() == 0,
{
    let start = SplitState { args: Seq::empty(), current: None, quoted: false };
    assert(split_state(word, 0) == start);
    lemma_word_state(start, word, 0, word, word.len() as int);
    assert(word.take(word.len() as int) =~= word);
    let none = Seq::<char>::empty();
    assert(none + word =~= word);
    if word.len() > 0 {
        assert(arguments_of(word) =~= seq![word]);
    }
    let line = word + seq!['"'] + text + seq!['"'];
    let n = word.len() as int;
    let m = text.len() as int;
    assert(split_state(line, 0) == start);
    assert forall|i: int| 0 <= i < n implies line[0 + i] == word[i] by {}
    lemma_word_state(start, line, 0, word, n);
    assert(line[n] == '"');
    let opened = split_state(line, n + 1);
    assert(opened.quoted);
    assert(current_or_empty(opened) =~= word);
    assert forall|i: int| 0 <= i < m implies line[n + 1 + i] == text[i] by {}
    lemma_word_state(opened, line, n + 1, text, m);
    assert(text.take(m) =~= text);
    assert(line[n + 1 + m] == '"');
    let read = split_state(line, n + 1 + m);
    assert(current_or_empty(read) =~= word + text);
    assert(line.len() == n + m + 2);
    assert(split_state(line, n + m + 2) == after_char(read, '"'));
    assert(arguments_of(line) =~= seq![word + text]);
    let one = seq![c];
    assert(split_state(one, 0) == start);
    assert(split_state(one, 1) == after_char(start, c));
    assert(c != '"');
}

/// White space outside of quotations separates arguments: the arguments of two parts are those of
/// the first and then those of the second.
pub proof fn white_space_separates_arguments(a: Seq<char>, c: char, b: Seq<char>)
    requires
        is_space(c),
        !split_state(a, a.len() as int).quoted,
    ensures
        arguments_of(a.push(c) + b) == arguments_of(a) + arguments_of(b),
{
    let head = a.push(c);
    let n = a.len() as int;
    lemma_state_prefix(a, seq![c], n);
    assert(a + seq![c] =~= head);
    assert(c != '"');
    let state = split_state(head, n + 1);
    assert(state == after_char(split_state(a, n), c));
    assert(state.args == arguments_of(a));
    lemma_state_behind(head, b, b.len() as int);
    let own = split_state(b, b.len() as int);
    assert((head + b).len() == head.len() + b.len());
    if let Some(last) = own.current {
        assert((arguments_of(a) + own.args).push(last) =~= arguments_of(a) + own.args.push(last));
    }
}

// ---------------------------------------------------------------------------------------------
// Connections

/// A connection that begins with a slash or a dash is a command line and is split as one; any other
/// is passed on whole, behind the key for connection strings.
pub proof fn connection_string_is_passed_on_whole(raw: Seq<char>)
    ensures
        ({
            let text = trim(raw);
            let c = connection_of(raw);
            &&& c.raw == text
            &&& c.user is None && c.password is None
            &&& text.len() > 0 && (text[0] == '/' || text[0] == '-') ==> c.connection_args
                == arguments_of(text)
            &&& text.len() == 0 || (text[0] != '/' && text[0] != '-') ==> c.connection_args.len()
                == 2 && c.connection_args[0] == "/IBConnectionString"@ && c.connection_args[1]
                == text
        }),
{
}

/// The arguments of a connection are its own, then the user where there is one, then the password
/// where there is one that is not empty.
pub proof fn user_and_password_follow_the_connection(c: V8ConnectionView)
    ensures
        ({
            let args = connection_arguments(c);
            let n = c.connection_args.len() as int;
            let u = if c.user is Some {
                2int
            } else {
                0
            };
            let has_password = c.password is Some && c.password->0.len() > 0;
            &&& args.len() == n + u + (if has_password {
                2int
            } else {
                0
            })
            &&& args.take(n) == c.connection_args
            &&& c.user is Some ==> args[n] == "/N"@ && args[n + 1] == c.user->0
            &&& has_password ==> args[n + u] == "/P"@ && args[n + u + 1] == c.password->0
        }),
{
    let args = connection_arguments(c);
    assert(args.take(c.connection_args.len() as int) =~= c.connection_args);
}

/// The first part of a connection string that begins with `File=`, letters' case aside, tells the
/// path of the infobase: all that stands behind it.
pub proof fn file_of_a_connection_string(
    parts: Seq<Seq<char>>,
    key: Seq<char>,
    path: Seq<char>,
    k: int,
    i: int,
)
    requires
        0 <= i <= k < parts.len(),
        forall|j: int|
            0 <= j < k ==> !starts_with(ascii_lowered(trim(#[trigger] parts[j])), "file="@),
        trim(parts[k]) == key + path,
        ascii_lowered(key) == "file="@,
    ensures
        path_in_parts(parts, i) == Some(path),
    decreases k - i,
{
    reveal_strlit("file=");
    if i < k {
        assert(path_in_part(parts[i]) is None);
        file_of_a_connection_string(parts, key, path, k, i + 1);
    } else {
        let part = key + path;
        let low = ascii_lowered(part);
        assert(key.len() == 5) by {
            assert(ascii_lowered(key).len() == key.len());
        }
        assert(low =~= ascii_lowered(key) + ascii_lowered(path));
        assert(low.subrange(0, 5) =~= "file="@);
        assert(part.subrange(5, part.len() as int) =~= path);
    }
}

/// Where a connection is a command line, the path of the infobase is the argument behind its first
/// `/F` or `-F`; where it is a connection string, it is that of its parts between semicolons.
pub proof fn file_of_a_command_line(c: V8ConnectionView, k: int, i: int)
    requires
        0 <= i <= k < c.connection_args.len(),
        forall|j: int|
            0 <= j < k ==> ascii_lowered(#[trigger] c.connection_args[j]) != "/f"@ && ascii_lowered(
                c.connection_args[j],
            ) != "-f"@,
        ascii_lowered(c.connection_args[k]) == "/f"@ || ascii_lowered(c.connection_args[k])
            == "-f"@,
    ensures
        k + 1 < c.connection_args.len() ==> argument_after_f(c.connection_args, i) == Some(
            c.connection_args[k + 1],
        ),
        k + 1 == c.connection_args.len() ==> argument_after_f(c.connection_args, i) is None,
        c.raw.len() > 0 && c.raw[0] == '/' ==> file_path_of(c) == argument_after_f(
            c.connection_args,
            0,
        ),
        c.raw.len() > 0 && c.raw[0] == '-' ==> file_path_of(c) == argument_after_f(
            c.connection_args,
            0,
        ),
        c.raw.len() > 0 && c.raw[0] != '/' && c.raw[0] != '-' ==> file_path_of(c)
            == path_in_parts(split(c.raw, ';'), 0),
    decreases k - i,
{
    reveal_strlit("/f");
    reveal_strlit("-f");
    assert(ascii_lowered("/f"@) =~= "/f"@);
    assert(ascii_lowered("-f"@) =~= "-f"@);
    if i < k {
        assert(ascii_lowered(c.connection_args[i]) != "/f"@);
        file_of_a_command_line(c, k, i + 1);
    }
}

/// In the connection string of a new infobase every apostrophe of the path is doubled, and every
/// other character stays.
pub proof fn apostrophes_are_doubled(a: Seq<char>, b: Seq<char>, c: char)
    ensures
        doubled(a + b) == doubled(a) + doubled(b),
        c == '\'' ==> doubled(seq![c]) == seq!['\'', '\''],
        c != '\'' ==> doubled(seq![c]) == seq![c],
        doubled(Seq::empty()).len() == 0,
    decreases b.len(),
{
    assert(seq![c].drop_last() =~= Seq::<char>::empty());
    assert(doubled(Seq::<char>::empty()) =~= Seq::<char>::empty());
    assert(doubled(seq![c]) =~= if c == '\'' {
        seq!['\'', '\'']
    } else {
        seq![c]
    });
    if b.len() == 0 {
        assert(a + b =~= a);
        assert(doubled(a) + doubled(b) =~= doubled(a));
    } else {
        apostrophes_are_doubled(a, b.drop_last(), c);
        assert((a + b).drop_last() =~= a + b.drop_last());
        assert((a + b).last() == b.last());
        assert(doubled(a + b) =~= doubled(a) + doubled(b));
    }
}

/// A new infobase is created from the path of a file infobase, in apostrophes, and only from that.
pub proof fn infobase_is_created_from_its_file(c: V8ConnectionView)
    ensures
        create_arg_of(c) is Some <==> file_path_of(c) is Some,
        create_arg_of(c) is Some ==> create_arg_of(c)->0 == "File='"@ + doubled(file_path_of(c)->0)
            + "'"@,
{
}

// ---------------------------------------------------------------------------------------------
// Designer and Enterprise

/// A call of the Designer names the infobase before the command, the log between them where one is
/// wanted, and the command with all its arguments last.
pub proof fn designer_call_ends_with_the_command(d: DesignerDslView, command: Seq<Seq<char>>)
    ensures
        ({
            let call = designer_call(d, command);
            let n = call.args.len() - command.len();
            let c = connection_arguments(d.connection);
            let k = c.len() as int;
            &&& call.program == d.binary
            &&& call.workdir is None && call.startup_probe is None
            &&& n >= 3 + k
            &&& call.args[0] == "DESIGNER"@
            &&& call.args[1] == "/DisableStartupDialogs"@
            &&& call.args[2] == "/DisableStartupMessages"@
            &&& call.args.subrange(3, 3 + k) == c
            &&& call.args.skip(n) == command
            &&& d.log_file is None ==> n == 3 + k
            &&& d.log_file is Some ==> n == 6 + k && call.args[n - 3] == "/Out"@
                && call.args[n - 2] == d.log_file->0 && call.args[n - 1] == "-NoTruncate"@
        }),
{
    let call = designer_call(d, command);
    let n = call.args.len() - command.len();
    let c = connection_arguments(d.connection);
    let k = c.len() as int;
    assert(call.args.skip(n) =~= command);
    assert(call.args.subrange(3, 3 + k) =~= c);
}

/// An extension is named behind its key, to both utilities; without one nothing is said.
pub proof fn extension_is_named_behind_its_key(extension: Option<Seq<char>>)
    ensures
        extension matches Some(name) ==> extension_args(extension) == seq!["-Extension"@, name]
            && extension_option(extension) == seq!["--extension"@, name],
        extension is None ==> extension_args(extension).len() == 0 && extension_option(
            extension,
        ).len() == 0,
        yes_no(true) != yes_no(false),
        yes_no(true) == "yes"@,
{
    reveal_strlit("yes");
    reveal_strlit("no");
    assert("yes"@.len() != "no"@.len());
}

/// A test run names the infobase first and its log last; between them stand the keys of the
/// configuration and the run itself, with paths in forward slashes.
pub proof fn test_run_is_named_between_infobase_and_log(
    d: EnterpriseDslView,
    config_path: Seq<char>,
    epf_path: Seq<char>,
    params_path: Seq<char>,
)
    ensures
        ({
            let c = connection_arguments(d.connection);
            let k = c.len() as int;
            let keys = d.additional_launch_keys;
            let plain = enterprise_args(d, EnterpriseScenarioView::YaXUnit { config_path });
            let vanessa = enterprise_args(
                d,
                EnterpriseScenarioView::Vanessa { epf_path, params_path },
            );
            let n = plain.len() as int;
            let m = vanessa.len() as int;
            &&& plain[0] == "ENTERPRISE"@ && vanessa[0] == "ENTERPRISE"@
            &&& plain.subrange(1, 1 + k) == c && vanessa.subrange(1, 1 + k) == c
            &&& n == 1 + k + keys.len() + 4
            &&& plain.subrange(1 + k, n - 4) == keys
            &&& plain[n - 4] == "/C"@ && plain[n - 3] == "RunUnitTests="@ + payload_path(config_path)
            &&& plain[n - 2] == "/Out"@ && plain[n - 1] == d.log_file
            &&& m == 1 + k + 2 + keys.len() + 4
            &&& vanessa[1 + k] == "/Execute"@ && vanessa[2 + k] == payload_path(
                epf_path,
            )
            &&& vanessa.subrange(3 + k, m - 4) == keys
            &&& vanessa[m - 4] == "/C"@ && vanessa[m - 3] == "StartFeaturePlayer;VAParams="@
                + payload_path(params_path)
            &&& vanessa[m - 2] == "/Out"@ && vanessa[m - 1] == d.log_file
        }),
{
    let c = connection_arguments(d.connection);
    let k = c.len() as int;
    let keys = d.additional_launch_keys;
    let plain = enterprise_args(d, EnterpriseScenarioView::YaXUnit { config_path });
    let vanessa = enterprise_args(d, EnterpriseScenarioView::Vanessa { epf_path, params_path });
    let n = plain.len() as int;
    let m = vanessa.len() as int;
    assert(plain.subrange(1, 1 + k) =~= c);
    assert(vanessa.subrange(1, 1 + k) =~= c);
    assert(plain.subrange(1 + k, n - 4) =~= keys);
    assert(vanessa.subrange(3 + k, m - 4) =~= keys);
}

/// A path in the `/C` key has a slash wherever it had a backslash, and is the same elsewhere.
pub proof fn payload_path_has_forward_slashes(path: Seq<char>, i: int)
    requires
        0 <= i < path.len(),
    ensures
        payload_path(path).len() == path.len(),
        payload_path(path)[i] != '\\',
        path[i] == '\\' ==> payload_path(path)[i] == '/',
        path[i] != '\\' ==> payload_path(path)[i] == path[i],
{
}

// ---------------------------------------------------------------------------------------------
// ibcmd

/// An infobase is a file where its connection tells a path, and else a database on a server, of
/// which kind, server and name have to be given and count without the white space around them.
/// User and password are those of the infobase either way; the database has its own.
pub proof fn infobase_is_a_file_or_a_database(infobase: InfobaseConfigView)
    ensures
        ({
            let path = file_path_of(connection_of(infobase.connection));
            let result = ibcmd_connection(infobase);
            let dbms = infobase.dbms->0;
            let given = |field: Option<Seq<char>>| field is Some && !all_space(field->0);
            &&& path is Some ==> result == Ok::<IbcmdConnectionView, Seq<char>>(
                IbcmdConnectionView::File {
                    database_path: path->0,
                    user: infobase.user,
                    password: infobase.password,
                },
            )
            &&& path is None ==> (result is Ok <==> infobase.dbms is Some && given(dbms.kind)
                && given(dbms.server) && given(dbms.name))
            &&& path is None && result is Ok ==> result->Ok_0 == (IbcmdConnectionView::Server {
                dbms_kind: trim(dbms.kind->0),
                database_server: trim(dbms.server->0),
                database_name: trim(dbms.name->0),
                user: infobase.user,
                password: infobase.password,
                database_user: dbms.user,
                database_password: dbms.password,
            })
            &&& path is None && (infobase.dbms is None || !given(dbms.kind)) ==> result == Err::<
                IbcmdConnectionView,
                Seq<char>,
            >("kind"@)
        }),
{
    if let Some(dbms) = infobase.dbms {
        if let Some(text) = dbms.kind {
            blank_text_is_white_space(text);
        }
        if let Some(text) = dbms.server {
            blank_text_is_white_space(text);
        }
        if let Some(text) = dbms.name {
            blank_text_is_white_space(text);
        }
    }
}

/// The infobase is named by its path, or by kind, server and name of its database.
pub proof fn infobase_is_named_by_its_place(c: IbcmdConnectionView)
    ensures
        c matches IbcmdConnectionView::File { database_path, .. } ==> infobase_arguments(c)
            == seq!["--db-path"@, database_path],
        c matches IbcmdConnectionView::Server { dbms_kind, database_server, database_name, .. }
            ==> {
            let args = infobase_arguments(c);
            &&& args.len() == 6
            &&& args[0] == "--dbms"@ && args[1] == dbms_kind
            &&& args[2] == "--database-server"@ && args[3] == database_server
            &&& args[4] == "--database-name"@ && args[5] == database_name
        },
{
}

/// The user of the infobase is named where there is one, and its password where it is not empty;
/// those of the database in the same way, but for a user of white space only.
pub proof fn users_are_named_where_they_are_given(
    path: Seq<char>,
    user: Option<Seq<char>>,
    password: Option<Seq<char>>,
    own_user: Option<Seq<char>>,
    own_password: Option<Seq<char>>,
)
    ensures
        ({
            let file = IbcmdConnectionView::File { database_path: path, user, password };
            let server = IbcmdConnectionView::Server {
                dbms_kind: path,
                database_server: path,
                database_name: path,
                user,
                password,
                database_user: own_user,
                database_password: own_password,
            };
            let named = if user is Some {
                seq!["--user"@, user->0]
            } else {
                Seq::empty()
            };
            let secret = if password is Some && password->0.len() > 0 {
                seq!["--password"@, password->0]
            } else {
                Seq::empty()
            };
            let own_named = if own_user is Some && !all_space(own_user->0) {
                seq!["--database-user"@, own_user->0]
            } else {
                Seq::empty()
            };
            let own_secret = if own_password is Some && own_password->0.len() > 0 {
                seq!["--database-password"@, own_password->0]
            } else {
                Seq::empty()
            };
            &&& auth_arguments(file) == named + secret
            &&& auth_arguments(server) == named + secret
            &&& dbms_auth_arguments(file).len() == 0
            &&& dbms_auth_arguments(server) == own_named + own_secret
        }),
{
    if let Some(text) = own_user {
        blank_text_is_white_space(text);
    } else {
        blank_text_is_white_space(Seq::empty());
    }
}

/// A call of `ibcmd` names the infobase, then the command, then the users, then what belongs to the
/// command: each whole and in this order.
pub proof fn ibcmd_call_is_in_order(
    d: IbcmdDslView,
    command: Seq<Seq<char>>,
    own: Seq<Seq<char>>,
)
    ensures
        ({
            let call = ibcmd_call(d, command, own);
            let i = infobase_arguments(d.connection);
            let a = auth_arguments(d.connection) + dbms_auth_arguments(d.connection);
            let n = 1 + i.len();
            let m = n + command.len();
            &&& call.program == d.binary
            &&& call.args.len() == m + a.len() + own.len()
            &&& call.args[0] == "infobase"@
            &&& call.args.subrange(1, n as int) == i
            &&& call.args.subrange(n as int, m as int) == command
            &&& call.args.subrange(m as int, (m + a.len()) as int) == a
            &&& call.args.skip((m + a.len()) as int) == own
        }),
        create_args(d.connection) == command_args(
            d.connection,
            if d.connection is Server {
                seq!["create"@, "--create-database"@]
            } else {
                seq!["create"@]
            },
        ),
{
    let call = ibcmd_call(d, command, own);
    let i = infobase_arguments(d.connection);
    let a = auth_arguments(d.connection) + dbms_auth_arguments(d.connection);
    let n = 1 + i.len();
    let m = n + command.len();
    assert(call.args.subrange(1, n as int) =~= i);
    assert(call.args.subrange(n as int, m as int) =~= command);
    assert(call.args.subrange(m as int, (m + a.len()) as int) =~= a);
    assert(call.args.skip((m + a.len()) as int) =~= own);
}

/// A creation succeeded exactly where its process did; a failed one is passed over only where the
/// output tells that the infobase is there.
pub proof fn creation_ends_as_its_process_did(exit_code: i32, existing: bool)
    ensures
        create_status(exit_code, existing) == IbcmdInfobaseCreateStatus::Created <==> exit_code
            == 0,
        create_status(exit_code, existing) == IbcmdInfobaseCreateStatus::AlreadyExists <==> exit_code
            != 0 && existing,
        create_status(exit_code, existing) == IbcmdInfobaseCreateStatus::Failed <==> exit_code != 0
            && !existing,
{
}

/// Words of a failure that has nothing to do with an infobase that is there already.
pub open spec fn is_failure_word(word: Seq<char>) -> bool {
    word == "access denied"@ || word == "authentication"@ || word == "permission denied"@ || word
        == "timeout"@ || word == "connection refused"@ || word == "network"@ || word
        == "ошибка авторизации"@ || word == "доступ запрещен"@ || word == "доступ запрещён"@ || word
        == "недостаточно прав"@ || word == "не удалось подключ"@ || word == "таймаут"@
}

/// Output that holds a word of another failure never tells of an existing infobase; without one it
/// does exactly where one of its lines says so.
pub proof fn another_failure_is_not_passed_over(lower: Seq<char>, word: Seq<char>, i: int)
    ensures
        is_failure_word(word) && contains(lower, word) ==> !tells_of_existing(lower),
        !tells_of_failure(lower) && !is_blank(lower) && 0 <= i < lines(lower).len() && (contains(
            trim(lines(lower)[i]),
            "already exists"@,
        ) || contains(trim(lines(lower)[i]), "уже существует"@)) ==> tells_of_existing(lower),
        is_blank(lower) ==> !tells_of_existing(lower),
        tells_of_failure(lower) ==> exists|word: Seq<char>|
            is_failure_word(word) && #[trigger] contains(lower, word),
{
    reveal_strlit("already exists");
    reveal_strlit("уже существует");
    if !tells_of_failure(lower) && !is_blank(lower) && 0 <= i < lines(lower).len() && (contains(
        trim(lines(lower)[i]),
        "already exists"@,
    ) || contains(trim(lines(lower)[i]), "уже существует"@)) {
        let line = trim(lines(lower)[i]);
        if line.len() == 0 {
            assert(forall|at: int|
                !crate::text_scan::stands_at(line, "already exists"@, at)
                    && !crate::text_scan::stands_at(line, "уже существует"@, at));
        }
        assert(existing_line(lines(lower)[i]));
    }
    if tells_of_failure(lower) {
        assert(is_failure_word("access denied"@) && is_failure_word("authentication"@)
            && is_failure_word("permission denied"@) && is_failure_word("timeout"@)
            && is_failure_word("connection refused"@) && is_failure_word("network"@)
            && is_failure_word("ошибка авторизации"@) && is_failure_word("доступ запрещен"@)
            && is_failure_word("доступ запрещён"@) && is_failure_word("недостаточно прав"@)
            && is_failure_word("не удалось подключ"@) && is_failure_word("таймаут"@));
        assert(exists|word: Seq<char>|
            is_failure_word(word) && #[trigger] contains(lower, word));
    }
}

// ---------------------------------------------------------------------------------------------
// What is shown of a command line

/// Flags that a secret follows, in small letters.
pub open spec fn is_secret_flag(lower: Seq<char>) -> bool {
    lower == "/p"@ || lower == "-p"@ || lower == "--password"@ || lower == "--database-password"@
        || lower == "--db-pwd"@ || lower == "--target-database-password"@ || lower
        == "--target-db-pwd"@ || lower == "/uc"@ || lower == "-uc"@
}

/// An argument is a flag for a secret exactly where it is one of these, letters' case aside.
pub proof fn secret_flags_are_known(arg: Seq<char>)
    ensures
        sensitive_flag(arg) <==> is_secret_flag(ascii_lowered(arg)),
{
    reveal_strlit("/P");
    reveal_strlit("-P");
    reveal_strlit("/UC");
    reveal_strlit("-UC");
    reveal_strlit("/p");
    reveal_strlit("-p");
    reveal_strlit("/uc");
    reveal_strlit("-uc");
    reveal_strlit("--password");
    reveal_strlit("--database-password");
    reveal_strlit("--db-pwd");
    reveal_strlit("--target-database-password");
    reveal_strlit("--target-db-pwd");
    assert(ascii_lowered("/P"@) =~= "/p"@);
    assert(ascii_lowered("-P"@) =~= "-p"@);
    assert(ascii_lowered("/UC"@) =~= "/uc"@);
    assert(ascii_lowered("-UC"@) =~= "-uc"@);
    assert(ascii_lowered("--password"@) =~= "--password"@);
    assert(ascii_lowered("--database-password"@) =~= "--database-password"@);
    assert(ascii_lowered("--db-pwd"@) =~= "--db-pwd"@);
    assert(ascii_lowered("--target-database-password"@) =~= "--target-database-password"@);
    assert(ascii_lowered("--target-db-pwd"@) =~= "--target-db-pwd"@);
}

/// The argument behind a flag for a secret is masked, and so is what follows the `=` of such a flag;
/// everything else is shown as it is.
pub proof fn secrets_are_masked_and_nothing_else(
    args: Seq<Seq<char>>,
    i: int,
    key: Seq<char>,
    value: Seq<char>,
)
    requires
        0 <= i < args.len(),
        free_of(key, '='),
    ensures
        shown_args(args).len() == args.len(),
        i > 0 && is_secret_flag(ascii_lowered(args[i - 1])) && !is_secret_value(args, i - 1)
            ==> shown_args(args)[i] == "***"@,
        i == 0 || !is_secret_flag(ascii_lowered(args[i - 1])) ==> !is_secret_value(args, i),
        !is_secret_value(args, i) && is_secret_flag(ascii_lowered(key)) && args[i] == key.push('=')
            + value && !is_secret_flag(ascii_lowered(args[i])) ==> shown_args(args)[i] == key
            + "=***"@,
        !is_secret_value(args, i) && free_of(args[i], '=') ==> shown_args(args)[i] == args[i],
        !is_secret_value(args, i) && !is_secret_flag(ascii_lowered(key)) && args[i] == key.push('=')
            + value ==> shown_args(args)[i] == args[i],
{
    secret_flags_are_known(args[i]);
    secret_flags_are_known(key);
    if i > 0 {
        secret_flags_are_known(args[i - 1]);
    }
    first_piece_ends_at_the_separator(key, '=', value);
    if free_of(args[i], '=') {
        text_without_separator_is_one_piece(args[i], '=');
    }
    assert(shown_args(args)[i] == shown_arg(args, i));
}

/// A command line is shown as the program and then its arguments, with a space between them.
pub proof fn command_line_is_shown_in_order(program: Seq<char>, args: Seq<Seq<char>>)
    ensures
        rendered_command(program, args) == join_with(seq![program] + shown_args(args), seq![' ']),
        args.len() == 0 ==> rendered_command(program, args) == program,
{
    reveal_strlit(" ");
    assert(" "@ =~= seq![' ']);
    if args.len() == 0 {
        assert(seq![program] + shown_args(args) =~= seq![program]);
    }
}

// ---------------------------------------------------------------------------------------------
// Results

/// The result of a call keeps its process whatever became of the log; the log is there where one
/// was asked for and could be read, and the reason where it could not.
pub proof fn log_does_not_touch_the_process(
    process: ProcessResultView,
    path: Option<Seq<char>>,
    log: Result<Seq<char>, Seq<char>>,
    failure: Seq<char>,
)
    ensures
        ({
            let result = platform_result(process, path, log, failure);
            &&& result.process == process
            &&& result.platform_log_path == path
            &&& path is None ==> result.platform_log is None
                && result.platform_log_read_error is None
            &&& path is Some && log is Ok ==> result.platform_log == Some(log->Ok_0)
                && result.platform_log_read_error is None
            &&& path is Some && log is Err ==> result.platform_log is None
                && result.platform_log_read_error == Some(
                failure + path->0 + "': "@ + log->Err_0,
            )
        }),
{
}

/// Whether a path is ignored is asked in the directory that it stands in, and of the path itself.
pub proof fn ignored_path_is_asked_where_it_stands(path: Seq<char>, host: HostPlatform)
    ensures
        ({
            let args = check_ignore_args(path, host);
            &&& args.len() == 6
            &&& args[0] == "-C"@
            &&& parent_of(host, path) is Some ==> args[1] == parent_of(host, path)->0
            &&& args.last() == path
            &&& parent_of(host, path) is None ==> args[1] == "."@
            &&& args[2] == "check-ignore"@ && args[3] == "--quiet"@
            &&& args[4] == "--"@
        }),
{
}

/// The question whether a path is ignored is answered by the exit codes zero and one alone.
pub proof fn ignored_paths_go_by_the_exit_code(code: i32)
    ensures
        ignored_by(Some(0)) == Some(true),
        ignored_by(Some(1)) == Some(false),
        code != 0 && code != 1 ==> ignored_by(Some(code)) is None,
        ignored_by(None) is None,
{
}

/// Output in which no line says so does not tell of an existing infobase.
pub proof fn existing_infobase_is_told_in_a_line(lower: Seq<char>)
    requires
        forall|i: int|
            0 <= i < lines(lower).len() ==> !contains(
                trim(#[trigger] lines(lower)[i]),
                "already exists"@,
            ) && !contains(trim(lines(lower)[i]), "уже существует"@),
    ensures
        !tells_of_existing(lower),
{
}

} // verus!
