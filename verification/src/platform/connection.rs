//! Connection to an infobase, as the 1C utilities take it on the command line.

use vstd::prelude::*;
use crate::text::{
    cat3, char_is_space, chars_of, clone_opt, clone_texts, is_space, opt_text, push_text,
    string_of_range, texts, trim, trimmed,
};
use crate::text_scan::{
    ascii_lowered, split, starts_with, text_ascii_lower, text_eq_ignore_ascii_case, text_split,
    text_starts_with,
};

verus! {

// ---------------------------------------------------------------------------------------------
// Splitting of a command line

/// Command line split so far: the arguments, the one being read (absent between arguments), and
/// whether a quotation is open.
pub struct SplitState {
    pub args: Seq<Seq<char>>,
    pub current: Option<Seq<char>>,
    pub quoted: bool,
}

/// The argument being read, empty where none is.
pub open spec fn current_or_empty(s: SplitState) -> Seq<char> {
    match s.current {
        Some(c) => c,
        None => Seq::empty(),
    }
}

/// The arguments with the one being read.
pub open spec fn finished(s: SplitState) -> Seq<Seq<char>> {
    match s.current {
        Some(c) => s.args.push(c),
        None => s.args,
    }
}

/// State after a character: quotation marks open and close a quotation, and white space outside
/// one ends an argument.
pub open spec fn after_char(s: SplitState, c: char) -> SplitState {
    if c == '"' {
        SplitState { args: s.args, current: Some(current_or_empty(s)), quoted: !s.quoted }
    } else if is_space(c) && !s.quoted {
        SplitState { args: finished(s), current: None, quoted: false }
    } else {
        SplitState {
            args: s.args,
            current: Some(current_or_empty(s).push(c)),
            quoted: s.quoted,
        }
    }
}

/// State after the first `n` characters.
pub open spec fn split_state(line: Seq<char>, n: int) -> SplitState
    decreases n,
{
    if n <= 0 {
        SplitState { args: Seq::empty(), current: None, quoted: false }
    } else {
        after_char(split_state(line, n - 1), line[n - 1])
    }
}

/// Arguments of a command line.
pub open spec fn arguments_of(line: Seq<char>) -> Seq<Seq<char>> {
    finished(split_state(line, line.len() as int))
}

/// Arguments of a command line, and whether a quotation was left open.
pub fn split_v8_arg_string(line: &str) -> (r: (Vec<String>, bool))
    ensures
        texts(r.0@) == arguments_of(line@),
        r.1 == split_state(line@, line@.len() as int).quoted,
{
    let chars = chars_of(line);
    let mut args: Vec<String> = Vec::new();
    let mut current: Option<String> = None;
    let mut quoted = false;
    let mut i: usize = 0;
    assert(texts(args@) =~= Seq::<Seq<char>>::empty());
    while i < chars.len()
        invariant
            i <= chars.len(),
            chars@ == line@,
            split_state(line@, i as int) == (SplitState {
                args: texts(args@),
                current: opt_text(current),
                quoted,
            }),
        decreases chars.len() - i,
    {
        let c = chars[i];
        if c == '"' {
            quoted = !quoted;
            if current.is_none() {
                current = Some(String::new());
            }
        } else if char_is_space(c) && !quoted {
            if let Some(argument) = current {
                push_text(&mut args, argument.as_str());
            }
            current = None;
        } else {
            let mut argument = match current {
                Some(argument) => argument,
                None => String::new(),
            };
            argument.push(c);
            current = Some(argument);
        }
        i += 1;
    }
    if let Some(argument) = current {
        push_text(&mut args, argument.as_str());
    }
    (args, quoted)
}

// ---------------------------------------------------------------------------------------------
// Connection

/// Connection to an infobase.
#[derive(Debug, PartialEq, Eq)]
pub struct V8Connection {
    pub raw: String,
    pub connection_args: Vec<String>,
    /// User, passed as `/N <value>`.
    pub user: Option<String>,
    /// Password, passed as `/P <value>`.
    pub password: Option<String>,
}

/// Mathematical value of [`V8Connection`].
pub struct V8ConnectionView {
    pub raw: Seq<char>,
    pub connection_args: Seq<Seq<char>>,
    pub user: Option<Seq<char>>,
    pub password: Option<Seq<char>>,
}

impl View for V8Connection {
    type V = V8ConnectionView;

    open spec fn view(&self) -> V8ConnectionView {
        V8ConnectionView {
            raw: self.raw@,
            connection_args: texts(self.connection_args@),
            user: opt_text(self.user),
            password: opt_text(self.password),
        }
    }
}

impl Clone for V8Connection {
    fn clone(&self) -> (r: Self)
        ensures
            r@ == self@,
    {
        V8Connection {
            raw: self.raw.clone(),
            connection_args: clone_texts(&self.connection_args),
            user: clone_opt(&self.user),
            password: clone_opt(&self.password),
        }
    }
}

/// The text is a command line rather than a connection string.
pub open spec fn is_command_line(text: Seq<char>) -> bool {
    text.len() > 0 && (text[0] == '/' || text[0] == '-')
}

/// Connection from a connection string or a command line.
pub open spec fn connection_of(raw: Seq<char>) -> V8ConnectionView {
    V8ConnectionView {
        raw: trim(raw),
        connection_args: if is_command_line(trim(raw)) {
            arguments_of(trim(raw))
        } else {
            seq!["/IBConnectionString"@, trim(raw)]
        },
        user: None,
        password: None,
    }
}

/// Arguments of a connection.
pub open spec fn connection_arguments(c: V8ConnectionView) -> Seq<Seq<char>> {
    let user = match c.user {
        Some(user) => seq!["/N"@, user],
        None => Seq::empty(),
    };
    let password = match c.password {
        Some(password) => if password.len() == 0 {
            Seq::empty()
        } else {
            seq!["/P"@, password]
        },
        None => Seq::empty(),
    };
    c.connection_args + user + password
}

/// Argument after the first `/F` or `-F`.
pub open spec fn argument_after_f(args: Seq<Seq<char>>, i: int) -> Option<Seq<char>>
    decreases args.len() - i,
{
    if i < 0 || i >= args.len() {
        None
    } else if ascii_lowered(args[i]) == ascii_lowered("/f"@) || ascii_lowered(args[i])
        == ascii_lowered("-f"@) {
        if i + 1 < args.len() {
            Some(args[i + 1])
        } else {
            None
        }
    } else {
        argument_after_f(args, i + 1)
    }
}

/// Path in a part of a connection string of the form `File=<path>`.
pub open spec fn path_in_part(part: Seq<char>) -> Option<Seq<char>> {
    let part = trim(part);
    if starts_with(ascii_lowered(part), "file="@) {
        Some(part.subrange(5, part.len() as int))
    } else {
        None
    }
}

/// Path in the first part, from part `i` on, that has one.
pub open spec fn path_in_parts(parts: Seq<Seq<char>>, i: int) -> Option<Seq<char>>
    decreases parts.len() - i,
{
    if i < 0 || i >= parts.len() {
        None
    } else if path_in_part(parts[i]) is Some {
        path_in_part(parts[i])
    } else {
        path_in_parts(parts, i + 1)
    }
}

/// Path of a file infobase.
pub open spec fn file_path_of(c: V8ConnectionView) -> Option<Seq<char>> {
    if is_command_line(c.raw) {
        argument_after_f(c.connection_args, 0)
    } else {
        path_in_parts(split(c.raw, ';'), 0)
    }
}

/// Text with its apostrophes doubled.
pub open spec fn doubled(text: Seq<char>) -> Seq<char>
    decreases text.len(),
{
    if text.len() == 0 {
        Seq::empty()
    } else if text.last() == '\'' {
        doubled(text.drop_last()).push('\'').push('\'')
    } else {
        doubled(text.drop_last()).push(text.last())
    }
}

/// Connection string of a file infobase to be created.
pub open spec fn create_arg_of(c: V8ConnectionView) -> Option<Seq<char>> {
    match file_path_of(c) {
        Some(path) => Some("File='"@ + doubled(path) + "'"@),
        None => None,
    }
}

fn looks_like_command_line(text: &str) -> (r: bool)
    ensures
        r == is_command_line(text@),
{
    let chars = chars_of(text);
    chars.len() > 0 && (chars[0] == '/' || chars[0] == '-')
}

fn double_apostrophes(text: &str) -> (r: String)
    ensures
        r@ == doubled(text@),
{
    let chars = chars_of(text);
    let mut out = String::new();
    let mut i: usize = 0;
    assert(chars@.take(0) =~= Seq::<char>::empty());
    while i < chars.len()
        invariant
            i <= chars.len(),
            chars@ == text@,
            out@ == doubled(text@.take(i as int)),
        decreases chars.len() - i,
    {
        let c = chars[i];
        assert(text@.take(i + 1).drop_last() =~= text@.take(i as int));
        out.push(c);
        if c == '\'' {
            out.push(c);
        }
        i += 1;
    }
    assert(text@.take(text@.len() as int) =~= text@);
    out
}

fn file_path_from_args(args: &Vec<String>) -> (r: Option<String>)
    ensures
        opt_text(r) == argument_after_f(texts(args@), 0),
{
    let ghost all = texts(args@);
    let mut i: usize = 0;
    while i < args.len()
        invariant
            i <= args.len(),
            all == texts(args@),
            argument_after_f(all, 0) == argument_after_f(all, i as int),
        decreases args.len() - i,
    {
        assert(all[i as int] == args@[i as int]@);
        if text_eq_ignore_ascii_case(args[i].as_str(), "/f") || text_eq_ignore_ascii_case(
            args[i].as_str(),
            "-f",
        ) {
            if i + 1 < args.len() {
                assert(all[i + 1] == args@[i + 1]@);
                return Some(args[i + 1].clone());
            }
            return None;
        }
        i += 1;
    }
    None
}

fn part_path(part: &str) -> (r: Option<String>)
    ensures
        opt_text(r) == path_in_part(part@),
{
    let part = trimmed(part);
    let lower = text_ascii_lower(part.as_str());
    if text_starts_with(lower.as_str(), "file=") {
        proof {
            reveal_strlit("file=");
        }
        let chars = chars_of(part.as_str());
        Some(string_of_range(&chars, 5, chars.len()))
    } else {
        None
    }
}

impl V8Connection {
    /// Connection from a connection string or a command line.
    pub fn from_connection_string(raw: &str) -> (r: Self)
        ensures
            r@ == connection_of(raw@),
    {
        let text = trimmed(raw);
        let connection_args = if looks_like_command_line(text.as_str()) {
            split_v8_arg_string(text.as_str()).0
        } else {
            let mut args: Vec<String> = Vec::new();
            push_text(&mut args, "/IBConnectionString");
            push_text(&mut args, text.as_str());
            assert(texts(args@) =~= seq!["/IBConnectionString"@, text@]);
            args
        };
        V8Connection { raw: text, connection_args, user: None, password: None }
    }

    /// Arguments of the connection.
    pub fn args(&self) -> (r: Vec<String>)
        ensures
            texts(r@) == connection_arguments(self@),
    {
        let mut args = clone_texts(&self.connection_args);
        let ghost start = texts(args@);
        if let Some(user) = &self.user {
            push_text(&mut args, "/N");
            push_text(&mut args, user.as_str());
            assert(texts(args@) =~= start + seq!["/N"@, user@]);
        }
        let ghost named = texts(args@);
        if let Some(password) = &self.password {
            if !password.as_str().is_empty() {
                push_text(&mut args, "/P");
                push_text(&mut args, password.as_str());
                assert(texts(args@) =~= named + seq!["/P"@, password@]);
            }
        }
        assert(texts(args@) =~= connection_arguments(self@));
        args
    }

    /// Path of a file infobase.
    pub fn file_path(&self) -> (r: Option<String>)
        ensures
            opt_text(r) == file_path_of(self@),
    {
        if looks_like_command_line(self.raw.as_str()) {
            return file_path_from_args(&self.connection_args);
        }
        let parts = text_split(self.raw.as_str(), ';');
        let ghost all = texts(parts@);
        let mut i: usize = 0;
        while i < parts.len()
            invariant
                i <= parts.len(),
                all == texts(parts@),
                all == split(self@.raw, ';'),
                !is_command_line(self@.raw),
                path_in_parts(all, 0) == path_in_parts(all, i as int),
            decreases parts.len() - i,
        {
            assert(all[i as int] == parts@[i as int]@);
            let found = part_path(parts[i].as_str());
            if found.is_some() {
                return found;
            }
            i += 1;
        }
        None
    }

    /// Connection string of a file infobase to be created.
    pub fn create_infobase_arg(&self) -> (r: Option<String>)
        ensures
            opt_text(r) == create_arg_of(self@),
    {
        match self.file_path() {
            Some(path) => Some(
                cat3("File='", double_apostrophes(path.as_str()).as_str(), "'"),
            ),
            None => None,
        }
    }
}

// ---------------------------------------------------------------------------------------------
// Laws

/// White space around a connection string does not matter.
pub proof fn surrounding_space_does_not_matter(a: Seq<char>, b: Seq<char>)
    requires
        trim(a) == trim(b),
    ensures
        connection_of(a) == connection_of(b),
{
}

proof fn lemma_doubled_len(text: Seq<char>)
    ensures
        text.len() <= doubled(text).len(),
    decreases text.len(),
{
    if text.len() > 0 {
        lemma_doubled_len(text.drop_last());
    }
}

/// Doubling of apostrophes loses nothing: two texts that look alike afterwards were alike before.
pub proof fn doubling_is_injective(a: Seq<char>, b: Seq<char>)
    requires
        doubled(a) == doubled(b),
    ensures
        a == b,
    decreases a.len(),
{
    lemma_doubled_len(a);
    lemma_doubled_len(b);
    if a.len() == 0 || b.len() == 0 {
        assert(a =~= b);
    } else {
        let da = doubled(a);
        assert(da.last() == a.last());
        assert(doubled(b).last() == b.last());
        assert(a.last() == b.last());
        let ra = doubled(a.drop_last());
        let rb = doubled(b.drop_last());
        if a.last() == '\'' {
            assert(ra.push('\'').push('\'').drop_last().drop_last() =~= ra);
            assert(rb.push('\'').push('\'').drop_last().drop_last() =~= rb);
        } else {
            assert(ra.push(a.last()).drop_last() =~= ra);
            assert(rb.push(b.last()).drop_last() =~= rb);
        }
        doubling_is_injective(a.drop_last(), b.drop_last());
        assert(a =~= a.drop_last().push(a.last()));
        assert(b =~= b.drop_last().push(b.last()));
    }
}

} // verus!
