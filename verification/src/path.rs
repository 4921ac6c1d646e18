//! Paths as each system writes them: prefix, root, joining, components, file name and parents.

use vstd::prelude::*;
use crate::text::{chars_of, opt_text, push_text, string_of_range, text_eq, texts};
use crate::text_scan::{ascii_lowered, split, text_eq_ignore_ascii_case, text_split};

verus! {

/// System that the paths belong to.
#[derive(Clone, Copy, Debug, PartialEq, Eq, Structural)]
pub enum HostPlatform {
    Windows,
    Linux,
    Other,
}

// ---------------------------------------------------------------------------------------------
// Prefix and root

/// Characters that stand between the components of a path: `/`, and on Windows `\` too.
pub open spec fn is_separator(host: HostPlatform, c: char) -> bool {
    c == '/' || (c == '\\' && host == HostPlatform::Windows)
}

/// Separator that is put between two components.
pub open spec fn separator_of(host: HostPlatform) -> char {
    if host == HostPlatform::Windows {
        '\\'
    } else {
        '/'
    }
}

/// Letter of a drive.
pub open spec fn is_drive_letter(c: char) -> bool {
    ('a' <= c && c <= 'z') || ('A' <= c && c <= 'Z')
}

/// The path begins with a drive: `C:`.
pub open spec fn has_drive(host: HostPlatform, path: Seq<char>) -> bool {
    &&& host == HostPlatform::Windows
    &&& path.len() >= 2
    &&& is_drive_letter(path[0])
    &&& path[1] == ':'
}

/// Position of the first separator from position `i` on, or the length of the path.
pub open spec fn component_end(host: HostPlatform, path: Seq<char>, i: int) -> int
    decreases path.len() - i,
{
    if i >= path.len() || is_separator(host, path[i]) {
        i
    } else {
        component_end(host, path, i + 1)
    }
}

/// Length of the server and the share that the path begins with, `\\server\share`; 0 where it
/// does not. `\\?\C:` and `\\.\COM1` are of this form, and what follows them is read as in any
/// other path.
pub open spec fn share_len(host: HostPlatform, path: Seq<char>) -> int {
    let server = component_end(host, path, 2);
    let share = component_end(host, path, server + 1);
    if host == HostPlatform::Windows && path.len() > 2 && is_separator(host, path[0])
        && is_separator(host, path[1]) && server > 2 && server < path.len() && share > server + 1 {
        share
    } else {
        0
    }
}

/// Length of the prefix: a drive, or a server and a share. Only Windows knows prefixes.
pub open spec fn prefix_len(host: HostPlatform, path: Seq<char>) -> int {
    if has_drive(host, path) {
        2
    } else {
        share_len(host, path)
    }
}

/// A separator stands behind the prefix.
pub open spec fn has_root_mark(host: HostPlatform, path: Seq<char>) -> bool {
    let n = prefix_len(host, path);
    n < path.len() && is_separator(host, path[n])
}

/// The path begins at a root: a separator stands behind its prefix, or the prefix is a share.
pub open spec fn is_rooted(host: HostPlatform, path: Seq<char>) -> bool {
    has_root_mark(host, path) || share_len(host, path) > 0
}

/// The path names the same place from wherever it is looked at: it begins at a root, and on Windows
/// it has a prefix too.
pub open spec fn is_absolute(host: HostPlatform, path: Seq<char>) -> bool {
    is_rooted(host, path) && (host == HostPlatform::Windows ==> prefix_len(host, path) > 0)
}

/// Length of the prefix with the separator behind it.
pub open spec fn head_len(host: HostPlatform, path: Seq<char>) -> int {
    prefix_len(host, path) + if has_root_mark(host, path) {
        1int
    } else {
        0
    }
}

proof fn lemma_component_end(host: HostPlatform, path: Seq<char>, i: int)
    requires
        0 <= i <= path.len(),
    ensures
        i <= component_end(host, path, i) <= path.len(),
        forall|k: int|
            i <= k < component_end(host, path, i) ==> !is_separator(host, #[trigger] path[k]),
        component_end(host, path, i) < path.len() ==> is_separator(
            host,
            path[component_end(host, path, i)],
        ),
    decreases path.len() - i,
{
    if i < path.len() && !is_separator(host, path[i]) {
        lemma_component_end(host, path, i + 1);
    }
}

proof fn lemma_component_end_is(host: HostPlatform, path: Seq<char>, i: int, end: int)
    requires
        0 <= i <= end <= path.len(),
        forall|k: int| i <= k < end ==> !is_separator(host, #[trigger] path[k]),
        end < path.len() ==> is_separator(host, path[end]),
    ensures
        component_end(host, path, i) == end,
    decreases end - i,
{
    if i < end {
        assert(!is_separator(host, path[i]));
        lemma_component_end_is(host, path, i + 1, end);
    }
}

/// A share is read from what stands before and at its end: another path that agrees so far has it
/// too.
proof fn lemma_share_stays(host: HostPlatform, path: Seq<char>, other: Seq<char>)
    requires
        share_len(host, path) > 0,
        share_len(host, path) <= other.len(),
        forall|k: int| 0 <= k < share_len(host, path) ==> other[k] == path[k],
        share_len(host, path) < other.len() ==> is_separator(
            host,
            other[share_len(host, path)],
        ),
    ensures
        share_len(host, other) == share_len(host, path),
        !has_drive(host, other),
        is_absolute(host, other),
{
    let server = component_end(host, path, 2);
    let share = component_end(host, path, server + 1);
    lemma_component_end(host, path, 2);
    lemma_component_end(host, path, server + 1);
    assert forall|k: int| 2 <= k < server implies !is_separator(host, #[trigger] other[k]) by {
        assert(other[k] == path[k]);
    }
    assert(other[server] == path[server]);
    lemma_component_end_is(host, other, 2, server);
    assert forall|k: int| server + 1 <= k < share implies !is_separator(
        host,
        #[trigger] other[k],
    ) by {
        assert(other[k] == path[k]);
    }
    lemma_component_end_is(host, other, server + 1, share);
    assert(other[0] == path[0]);
    assert(other[1] == path[1]);
}

proof fn lemma_prefix_len(host: HostPlatform, path: Seq<char>)
    ensures
        0 <= prefix_len(host, path) <= path.len(),
        0 <= head_len(host, path) <= path.len(),
        share_len(host, path) == 0 || share_len(host, path) > 2,
{
    if path.len() > 2 {
        lemma_component_end(host, path, 2);
        let server = component_end(host, path, 2);
        if server < path.len() {
            lemma_component_end(host, path, server + 1);
        }
    }
}

fn char_separates(host: HostPlatform, c: char) -> (r: bool)
    ensures
        r == is_separator(host, c),
{
    c == '/' || (c == '\\' && host == HostPlatform::Windows)
}

fn end_of_component(host: HostPlatform, chars: &Vec<char>, from: usize) -> (r: usize)
    requires
        from <= chars.len(),
    ensures
        r == component_end(host, chars@, from as int),
        from <= r <= chars.len(),
{
    let mut i: usize = from;
    while i < chars.len() && !char_separates(host, chars[i])
        invariant
            from <= i <= chars.len(),
            component_end(host, chars@, from as int) == component_end(host, chars@, i as int),
        decreases chars.len() - i,
    {
        i += 1;
    }
    i
}

fn drive_stands(host: HostPlatform, chars: &Vec<char>) -> (r: bool)
    ensures
        r == has_drive(host, chars@),
{
    host == HostPlatform::Windows && chars.len() >= 2 && (('a' <= chars[0] && chars[0] <= 'z') || (
    'A' <= chars[0] && chars[0] <= 'Z')) && chars[1] == ':'
}

fn length_of_share(host: HostPlatform, chars: &Vec<char>) -> (r: usize)
    ensures
        r == share_len(host, chars@),
        r <= chars.len(),
{
    if host != HostPlatform::Windows || chars.len() <= 2 || !char_separates(host, chars[0])
        || !char_separates(host, chars[1]) {
        return 0;
    }
    let server: usize = end_of_component(host, chars, 2);
    if server == 2 || server >= chars.len() {
        return 0;
    }
    let share: usize = end_of_component(host, chars, server + 1);
    if share > server + 1 {
        share
    } else {
        0
    }
}

fn length_of_prefix(host: HostPlatform, chars: &Vec<char>) -> (r: usize)
    ensures
        r == prefix_len(host, chars@),
        r <= chars.len(),
{
    if drive_stands(host, chars) {
        2
    } else {
        length_of_share(host, chars)
    }
}

fn root_marked(host: HostPlatform, chars: &Vec<char>) -> (r: bool)
    ensures
        r == has_root_mark(host, chars@),
{
    let n: usize = length_of_prefix(host, chars);
    n < chars.len() && char_separates(host, chars[n])
}

fn rooted(host: HostPlatform, chars: &Vec<char>) -> (r: bool)
    ensures
        r == is_rooted(host, chars@),
{
    root_marked(host, chars) || length_of_share(host, chars) > 0
}

fn absolute(host: HostPlatform, chars: &Vec<char>) -> (r: bool)
    ensures
        r == is_absolute(host, chars@),
{
    rooted(host, chars) && (host != HostPlatform::Windows || length_of_prefix(host, chars) > 0)
}

fn length_of_head(host: HostPlatform, chars: &Vec<char>) -> (r: usize)
    ensures
        r == head_len(host, chars@),
        r <= chars.len(),
{
    let n: usize = length_of_prefix(host, chars);
    if root_marked(host, chars) {
        n + 1
    } else {
        n
    }
}

/// `Path::is_absolute`.
pub fn path_is_absolute(host: HostPlatform, path: &str) -> (r: bool)
    ensures
        r == is_absolute(host, path@),
{
    absolute(host, &chars_of(path))
}

// ---------------------------------------------------------------------------------------------
// Joining

/// A name directly below a directory. One separator stands between the two; none is put behind a
/// bare drive.
pub open spec fn child(host: HostPlatform, dir: Seq<char>, name: Seq<char>) -> Seq<char> {
    if dir.len() == 0 || is_separator(host, dir.last()) || (has_drive(host, dir) && dir.len()
        == 2) {
        dir + name
    } else {
        dir.push(separator_of(host)) + name
    }
}

/// `name` seen from `base`: an absolute `name`, or one with a prefix, stands for itself; one that
/// begins at a root keeps the prefix of `base`; any other stands below `base`.
pub open spec fn joined(host: HostPlatform, base: Seq<char>, name: Seq<char>) -> Seq<char> {
    if is_absolute(host, name) || prefix_len(host, name) > 0 {
        name
    } else if is_rooted(host, name) {
        base.take(prefix_len(host, base)) + name
    } else {
        child(host, base, name)
    }
}

/// Both paths begin with a drive, and with the same one.
pub open spec fn same_drive(host: HostPlatform, a: Seq<char>, b: Seq<char>) -> bool {
    has_drive(host, a) && has_drive(host, b) && ascii_lowered(a.take(2)) == ascii_lowered(b.take(2))
}

/// The place that a path names for a process that works in `dir`. A path relative to the drive of
/// `dir` stands below `dir`, and one relative to another drive stands at its root.
pub open spec fn resolved(host: HostPlatform, dir: Seq<char>, path: Seq<char>) -> Seq<char> {
    if is_absolute(host, path) {
        path
    } else if has_drive(host, path) {
        if same_drive(host, dir, path) {
            child(host, dir, path.skip(2))
        } else {
            path.take(2).push(separator_of(host)) + path.skip(2)
        }
    } else {
        joined(host, dir, path)
    }
}

/// A name directly below a directory.
pub fn path_child(host: HostPlatform, dir: &str, name: &str) -> (r: String)
    ensures
        r@ == child(host, dir@, name@),
{
    let chars = chars_of(dir);
    let bare = drive_stands(host, &chars) && chars.len() == 2;
    let mut out = dir.to_owned();
    if !(chars.len() == 0 || char_separates(host, chars[chars.len() - 1]) || bare) {
        out.push(
            match host {
                HostPlatform::Windows => '\\',
                _ => '/',
            },
        );
    }
    out.append(name);
    out
}

/// `Path::join`.
pub fn path_join(host: HostPlatform, base: &str, name: &str) -> (r: String)
    ensures
        r@ == joined(host, base@, name@),
{
    let n = chars_of(name);
    if absolute(host, &n) || length_of_prefix(host, &n) > 0 {
        name.to_owned()
    } else if rooted(host, &n) {
        let b = chars_of(base);
        let mut out = string_of_range(&b, 0, length_of_prefix(host, &b));
        assert(out@ =~= base@.take(prefix_len(host, base@)));
        out.append(name);
        out
    } else {
        path_child(host, base, name)
    }
}

fn drives_match(host: HostPlatform, a: &Vec<char>, b: &Vec<char>) -> (r: bool)
    ensures
        r == same_drive(host, a@, b@),
{
    if !drive_stands(host, a) || !drive_stands(host, b) {
        return false;
    }
    let x = string_of_range(a, 0, 2);
    let y = string_of_range(b, 0, 2);
    assert(x@ =~= a@.take(2));
    assert(y@ =~= b@.take(2));
    text_eq_ignore_ascii_case(x.as_str(), y.as_str())
}

/// The place that a path names for a process that works in `dir`. Where `dir` is absolute, so is
/// the place.
pub fn path_resolve(host: HostPlatform, dir: &str, path: &str) -> (r: String)
    ensures
        r@ == resolved(host, dir@, path@),
        is_absolute(host, dir@) ==> is_absolute(host, r@),
{
    proof {
        resolved_path_is_absolute(host, dir@, path@);
    }
    let p = chars_of(path);
    if absolute(host, &p) {
        return path.to_owned();
    }
    if drive_stands(host, &p) {
        let d = chars_of(dir);
        let rest = string_of_range(&p, 2, p.len());
        assert(rest@ =~= path@.skip(2));
        if drives_match(host, &d, &p) {
            return path_child(host, dir, rest.as_str());
        }
        let mut out = string_of_range(&p, 0, 2);
        assert(out@ =~= path@.take(2));
        out.push('\\');
        out.append(rest.as_str());
        return out;
    }
    path_join(host, dir, path)
}

// ---------------------------------------------------------------------------------------------
// Components

/// Text with every separator written as `/`.
pub open spec fn slashed(host: HostPlatform, text: Seq<char>) -> Seq<char> {
    text.map_values(
        |c: char|
            if is_separator(host, c) {
                '/'
            } else {
                c
            },
    )
}

/// Piece number `i` of a path is a component: it is not empty, and `.` counts only where a relative
/// path begins with it.
pub open spec fn is_component(pieces: Seq<Seq<char>>, i: int) -> bool {
    pieces[i].len() > 0 && (pieces[i] != "."@ || i == 0)
}

/// Components among the first `n` pieces.
pub open spec fn components_of(pieces: Seq<Seq<char>>, n: int) -> Seq<Seq<char>>
    decreases n,
{
    if n <= 0 {
        Seq::empty()
    } else if is_component(pieces, n - 1) {
        components_of(pieces, n - 1).push(pieces[n - 1])
    } else {
        components_of(pieces, n - 1)
    }
}

/// Pieces between the separators behind the prefix.
pub open spec fn pieces_of(host: HostPlatform, path: Seq<char>) -> Seq<Seq<char>> {
    split(slashed(host, path.skip(prefix_len(host, path))), '/')
}

/// Components of the path below its prefix and its root.
pub open spec fn components(host: HostPlatform, path: Seq<char>) -> Seq<Seq<char>> {
    components_of(pieces_of(host, path), pieces_of(host, path).len() as int)
}

/// Number of all components: the prefix and the root are one each.
pub open spec fn component_count(host: HostPlatform, path: Seq<char>) -> int {
    components(host, path).len() + (if prefix_len(host, path) > 0 {
        1int
    } else {
        0
    }) + if is_rooted(host, path) {
        1int
    } else {
        0
    }
}

fn with_slashes(host: HostPlatform, chars: &Vec<char>, from: usize, to: usize) -> (r: String)
    requires
        from <= to <= chars.len(),
    ensures
        r@ == slashed(host, chars@.subrange(from as int, to as int)),
{
    let ghost all = slashed(host, chars@.subrange(from as int, to as int));
    let mut out = String::new();
    let mut i: usize = from;
    assert(out@ =~= all.take(0));
    while i < to
        invariant
            from <= i <= to <= chars.len(),
            all == slashed(host, chars@.subrange(from as int, to as int)),
            out@ == all.take(i - from),
        decreases to - i,
    {
        out.push(
            if char_separates(host, chars[i]) {
                '/'
            } else {
                chars[i]
            },
        );
        assert(all.take(i + 1 - from) =~= all.take(i - from).push(all[i - from]));
        i += 1;
    }
    assert(all.take(all.len() as int) =~= all);
    out
}

/// Components of the path below its prefix and its root.
pub fn path_components(host: HostPlatform, path: &str) -> (r: Vec<String>)
    ensures
        texts(r@) == components(host, path@),
{
    let chars = chars_of(path);
    let prefix: usize = length_of_prefix(host, &chars);
    let below = with_slashes(host, &chars, prefix, chars.len());
    assert(path@.skip(prefix as int) =~= chars@.subrange(prefix as int, chars@.len() as int));
    let pieces = text_split(below.as_str(), '/');
    let ghost all = pieces_of(host, path@);
    let mut out: Vec<String> = Vec::new();
    let mut i: usize = 0;
    assert(texts(out@) =~= Seq::<Seq<char>>::empty());
    while i < pieces.len()
        invariant
            i <= pieces.len(),
            all == texts(pieces@),
            texts(out@) == components_of(all, i as int),
        decreases pieces.len() - i,
    {
        let piece = pieces[i].as_str();
        assert(piece@ == all[i as int]);
        if !piece.is_empty() && (i == 0 || !text_eq(piece, ".")) {
            push_text(&mut out, piece);
        }
        i += 1;
    }
    out
}

/// Whether the path has more than one component, the prefix and the root counted.
pub fn path_has_many_components(host: HostPlatform, path: &str) -> (r: bool)
    ensures
        r == (component_count(host, path@) > 1),
{
    let chars = chars_of(path);
    let names = path_components(host, path);
    assert(components(host, path@).len() == names@.len());
    let prefixed = length_of_prefix(host, &chars) > 0;
    let from_root = rooted(host, &chars);
    names.len() > 1 || (names.len() == 1 && (prefixed || from_root)) || (prefixed && from_root)
}

fn same_texts(a: &Vec<String>, b: &Vec<String>) -> (r: bool)
    ensures
        r == (texts(a@) == texts(b@)),
{
    if a.len() != b.len() {
        assert(texts(a@).len() != texts(b@).len());
        return false;
    }
    let mut i: usize = 0;
    while i < a.len()
        invariant
            i <= a.len(),
            a.len() == b.len(),
            forall|k: int| 0 <= k < i ==> texts(a@)[k] == texts(b@)[k],
        decreases a.len() - i,
    {
        if !text_eq(a[i].as_str(), b[i].as_str()) {
            assert(texts(a@)[i as int] != texts(b@)[i as int]);
            return false;
        }
        i += 1;
    }
    assert(texts(a@) =~= texts(b@));
    true
}

/// Prefix of the path, with every separator written as `/`.
pub open spec fn prefix_of(host: HostPlatform, path: Seq<char>) -> Seq<char> {
    slashed(host, path.take(prefix_len(host, path)))
}

/// The two paths name the same place without looking at the disk: prefix, root and components are
/// the same. Letters of drives are compared without regard to case.
pub open spec fn same_place(host: HostPlatform, a: Seq<char>, b: Seq<char>) -> bool {
    &&& same_drive(host, a, b) || prefix_of(host, a) == prefix_of(host, b)
    &&& is_rooted(host, a) == is_rooted(host, b)
    &&& components(host, a) == components(host, b)
}

/// Equality of `Path::components`.
pub fn path_same_place(host: HostPlatform, a: &str, b: &str) -> (r: bool)
    ensures
        r == same_place(host, a@, b@),
{
    let x = chars_of(a);
    let y = chars_of(b);
    let prefix_a = with_slashes(host, &x, 0, length_of_prefix(host, &x));
    let prefix_b = with_slashes(host, &y, 0, length_of_prefix(host, &y));
    assert(x@.take(prefix_len(host, a@)) =~= x@.subrange(0, prefix_len(host, a@)));
    assert(y@.take(prefix_len(host, b@)) =~= y@.subrange(0, prefix_len(host, b@)));
    let same_prefix = drives_match(host, &x, &y) || text_eq(prefix_a.as_str(), prefix_b.as_str());
    let ca = path_components(host, a);
    let cb = path_components(host, b);
    same_prefix && rooted(host, &x) == rooted(host, &y) && same_texts(&ca, &cb)
}

// ---------------------------------------------------------------------------------------------
// Parent and file name

/// The path ends, behind its first `head` characters, in a separator, or in a `.` behind one, that
/// names nothing of its own.
pub open spec fn has_idle_end(host: HostPlatform, head: int, path: Seq<char>) -> bool {
    path.len() > head && path.len() > 0 && (is_separator(host, path.last()) || (path.last() == '.'
        && path.len() > 1 && is_separator(host, path[path.len() - 2])))
}

/// The path without separators, and `.` behind them, at its end; its first `head` characters stay.
pub open spec fn without_trailing(host: HostPlatform, head: int, path: Seq<char>) -> Seq<char>
    decreases path.len(),
{
    if has_idle_end(host, head, path) {
        without_trailing(host, head, path.drop_last())
    } else {
        path
    }
}

/// Position after the last separator of the path, but not within its first `head` characters.
pub open spec fn name_start(host: HostPlatform, head: int, path: Seq<char>) -> int
    decreases path.len(),
{
    if path.len() <= head || path.len() == 0 || is_separator(host, path.last()) {
        path.len() as int
    } else {
        name_start(host, head, path.drop_last())
    }
}

/// Directory that the path stands in: absent where nothing stands behind prefix and root, empty for
/// a bare name.
pub open spec fn parent_of(host: HostPlatform, path: Seq<char>) -> Option<Seq<char>> {
    let head = head_len(host, path);
    let p = without_trailing(host, head, path);
    if p.len() <= head {
        None
    } else {
        Some(without_trailing(host, head, p.take(name_start(host, head, p))))
    }
}

proof fn lemma_name_start(host: HostPlatform, head: int, path: Seq<char>, n: int)
    requires
        0 <= head <= n <= path.len(),
        n == head || is_separator(host, path[n - 1]),
        forall|k: int| n <= k < path.len() ==> !is_separator(host, #[trigger] path[k]),
    ensures
        name_start(host, head, path) == n,
    decreases path.len(),
{
    if path.len() > n {
        assert(!is_separator(host, path[path.len() - 1]));
        let rest = path.drop_last();
        assert(forall|k: int| n <= k < rest.len() ==> rest[k] == path[k]);
        lemma_name_start(host, head, rest, n);
    }
}

fn trailing_cut(host: HostPlatform, head: usize, chars: &Vec<char>, len: usize) -> (r: usize)
    requires
        len <= chars.len(),
    ensures
        r <= len,
        chars@.take(r as int) == without_trailing(host, head as int, chars@.take(len as int)),
        head <= len ==> head <= r,
{
    let mut n: usize = len;
    while n > head && (char_separates(host, chars[n - 1]) || (chars[n - 1] == '.' && n > 1
        && char_separates(host, chars[n - 2])))
        invariant
            n <= len <= chars.len(),
            head <= len ==> head <= n,
            without_trailing(host, head as int, chars@.take(n as int)) == without_trailing(
                host,
                head as int,
                chars@.take(len as int),
            ),
        decreases n,
    {
        assert(chars@.take(n as int).drop_last() =~= chars@.take(n - 1));
        n -= 1;
    }
    n
}

fn start_of_name(host: HostPlatform, head: usize, chars: &Vec<char>, end: usize) -> (r: usize)
    requires
        head <= end <= chars.len(),
    ensures
        head <= r <= end,
        r == name_start(host, head as int, chars@.take(end as int)),
{
    let mut n: usize = end;
    while n > head && !char_separates(host, chars[n - 1])
        invariant
            head <= n <= end <= chars.len(),
            forall|k: int| n <= k < end ==> !is_separator(host, #[trigger] chars@[k]),
        decreases n,
    {
        n -= 1;
    }
    proof {
        let p = chars@.take(end as int);
        assert forall|k: int| n <= k < p.len() implies !is_separator(host, #[trigger] p[k]) by {
            assert(p[k] == chars@[k]);
        }
        lemma_name_start(host, head as int, p, n as int);
    }
    n
}

/// `Path::parent`.
pub fn path_parent(host: HostPlatform, path: &str) -> (r: Option<String>)
    ensures
        opt_text(r) == parent_of(host, path@),
{
    let chars = chars_of(path);
    assert(chars@.take(chars@.len() as int) =~= chars@);
    let head: usize = length_of_head(host, &chars);
    let end: usize = trailing_cut(host, head, &chars, chars.len());
    if end <= head {
        return None;
    }
    let n: usize = start_of_name(host, head, &chars, end);
    assert(chars@.take(end as int).take(n as int) =~= chars@.take(n as int));
    let cut: usize = trailing_cut(host, head, &chars, n);
    let parent = string_of_range(&chars, 0, cut);
    assert(parent@ =~= chars@.take(cut as int));
    Some(parent)
}

/// Last component of the path, where it has one that is a name: not for the root, `.` or `..`.
pub open spec fn file_name_of(host: HostPlatform, path: Seq<char>) -> Option<Seq<char>> {
    let head = head_len(host, path);
    let p = without_trailing(host, head, path);
    let name = p.skip(name_start(host, head, p));
    if name.len() == 0 || name == "."@ || name == ".."@ {
        None
    } else {
        Some(name)
    }
}

/// `Path::file_name`.
pub fn path_file_name(host: HostPlatform, path: &str) -> (r: Option<String>)
    ensures
        opt_text(r) == file_name_of(host, path@),
{
    let chars = chars_of(path);
    assert(chars@.take(chars@.len() as int) =~= chars@);
    let head: usize = length_of_head(host, &chars);
    let end: usize = trailing_cut(host, head, &chars, chars.len());
    let n: usize = start_of_name(host, head, &chars, end);
    let name = string_of_range(&chars, n, end);
    assert(name@ =~= chars@.take(end as int).skip(n as int));
    if name.as_str().is_empty() || text_eq(name.as_str(), ".") || text_eq(name.as_str(), "..") {
        None
    } else {
        Some(name)
    }
}

// ---------------------------------------------------------------------------------------------
// Laws

/// What stands below an absolute directory is absolute.
pub proof fn child_of_absolute_is_absolute(host: HostPlatform, dir: Seq<char>, name: Seq<char>)
    requires
        is_absolute(host, dir),
    ensures
        is_absolute(host, child(host, dir, name)),
{
    let path = child(host, dir, name);
    lemma_prefix_len(host, dir);
    if host == HostPlatform::Windows && !has_drive(host, dir) {
        let n = share_len(host, dir);
        assert forall|k: int| 0 <= k < n implies path[k] == dir[k] by {}
        if n == dir.len() {
            lemma_share_ends_in_name(host, dir);
            assert(!is_separator(host, dir.last()));
            if n < path.len() {
                assert(path[n] == separator_of(host));
            }
        } else {
            lemma_share_ends_at_separator(host, dir);
            assert(path[n] == dir[n]);
        }
        lemma_share_stays(host, dir, path);
    } else if host == HostPlatform::Windows {
        assert(path[0] == dir[0]);
        assert(path[1] == dir[1]);
        assert(path[2] == dir[2]);
    } else {
        assert(path[0] == dir[0]);
    }
}

proof fn lemma_share_ends_in_name(host: HostPlatform, path: Seq<char>)
    requires
        share_len(host, path) > 0,
    ensures
        !is_separator(host, path[share_len(host, path) - 1]),
{
    let server = component_end(host, path, 2);
    lemma_component_end(host, path, 2);
    lemma_component_end(host, path, server + 1);
}

proof fn lemma_share_ends_at_separator(host: HostPlatform, path: Seq<char>)
    requires
        0 < share_len(host, path) < path.len(),
    ensures
        is_separator(host, path[share_len(host, path)]),
{
    let server = component_end(host, path, 2);
    lemma_component_end(host, path, 2);
    lemma_component_end(host, path, server + 1);
}

/// Seen from an absolute directory, every path names an absolute place.
pub proof fn resolved_path_is_absolute(host: HostPlatform, dir: Seq<char>, path: Seq<char>)
    ensures
        is_absolute(host, dir) ==> is_absolute(host, resolved(host, dir, path)),
{
    if is_absolute(host, dir) && !is_absolute(host, path) {
        let place = resolved(host, dir, path);
        lemma_prefix_len(host, dir);
        lemma_prefix_len(host, path);
        if has_drive(host, path) {
            if same_drive(host, dir, path) {
                child_of_absolute_is_absolute(host, dir, path.skip(2));
            } else {
                assert(place[0] == path[0]);
                assert(place[1] == path[1]);
                assert(place[2] == '\\');
            }
        } else if is_rooted(host, path) {
            assert(host == HostPlatform::Windows);
            let n = prefix_len(host, dir);
            assert(place =~= dir.take(n) + path);
            assert(place[n] == path[0]);
            if has_drive(host, dir) {
                assert(place[0] == dir[0]);
                assert(place[1] == dir[1]);
            } else {
                assert forall|k: int| 0 <= k < n implies place[k] == dir[k] by {}
                lemma_share_stays(host, dir, place);
            }
        } else {
            child_of_absolute_is_absolute(host, dir, path);
        }
    }
}

proof fn lemma_without_trailing(host: HostPlatform, head: int, path: Seq<char>)
    requires
        0 <= head <= path.len(),
    ensures
        head <= without_trailing(host, head, path).len() <= path.len(),
        without_trailing(host, head, path) == path.take(
            without_trailing(host, head, path).len() as int,
        ),
    decreases path.len(),
{
    if has_idle_end(host, head, path) {
        lemma_without_trailing(host, head, path.drop_last());
        let n = without_trailing(host, head, path).len() as int;
        assert(path.drop_last().take(n) =~= path.take(n));
    } else {
        assert(path.take(path.len() as int) =~= path);
    }
}

proof fn lemma_name_start_bounds(host: HostPlatform, head: int, path: Seq<char>)
    requires
        0 <= head <= path.len(),
    ensures
        head <= name_start(host, head, path) <= path.len(),
    decreases path.len(),
{
    if path.len() > head && !is_separator(host, path.last()) {
        lemma_name_start_bounds(host, head, path.drop_last());
    }
}

/// The directory that an absolute path stands in is absolute.
pub proof fn parent_of_absolute_is_absolute(host: HostPlatform, path: Seq<char>)
    requires
        is_absolute(host, path),
        parent_of(host, path) is Some,
    ensures
        is_absolute(host, parent_of(host, path)->0),
{
    let head = head_len(host, path);
    lemma_prefix_len(host, path);
    let p = without_trailing(host, head, path);
    lemma_without_trailing(host, head, path);
    lemma_name_start_bounds(host, head, p);
    let dir = p.take(name_start(host, head, p));
    lemma_without_trailing(host, head, dir);
    let parent = without_trailing(host, head, dir);
    assert forall|k: int| 0 <= k < head implies parent[k] == path[k] by {}
    if host == HostPlatform::Windows && !has_drive(host, path) {
        let n = share_len(host, path);
        lemma_share_ends_at_separator(host, path);
        assert(head == n + 1);
        assert(parent[n] == path[n]);
        lemma_share_stays(host, path, parent);
    } else if host == HostPlatform::Windows {
        assert(parent[2] == path[2]);
    } else {
        assert(parent[0] == path[0]);
    }
}

} // verus!
