//! Laws of paths: what stands below a directory, which paths are absolute, and how names and
//! directories come out of a path again.

use vstd::prelude::*;
use crate::path::{
    child, component_count, component_end, components, components_of, file_name_of, has_idle_end, head_len,
    is_absolute, is_component, is_drive_letter, is_rooted, is_separator, joined, name_start,
    parent_of, pieces_of, prefix_len, prefix_of, resolved, same_place, separator_of, slashed,
    without_trailing, HostPlatform,
};
use crate::text_laws::{
    first_piece_ends_at_the_separator, free_of, text_without_separator_is_one_piece,
};
use crate::text_scan::{ascii_lowered, char_pos, lemma_char_pos_bounds, split};

verus! {

// ---------------------------------------------------------------------------------------------
// Separators, roots and prefixes

/// A slash separates everywhere, a backslash on Windows alone, and nothing else does; what is put
/// between two components separates them.
pub proof fn separators_of_a_host(host: HostPlatform, c: char)
    ensures
        is_separator(host, '/'),
        is_separator(host, '\\') <==> host is Windows,
        c != '/' && c != '\\' ==> !is_separator(host, c),
        is_separator(host, separator_of(host)),
        host is Windows <==> separator_of(host) == '\\',
        !(host is Windows) <==> separator_of(host) == '/',
{
}

/// But for Windows, the paths that begin with a slash are the absolute ones.
pub proof fn slash_makes_a_path_absolute(host: HostPlatform, path: Seq<char>)
    requires
        !(host is Windows),
    ensures
        is_absolute(host, path) <==> path.len() > 0 && path[0] == '/',
        prefix_len(host, path) == 0,
{
}

/// On Windows a path is absolute behind a drive and a separator; without the separator it is
/// relative to the drive. One that begins with a single separator is at a root, and still not
/// absolute.
pub proof fn drive_and_root_make_a_path_absolute(letter: char, c: char, rest: Seq<char>)
    requires
        is_drive_letter(letter),
        is_separator(HostPlatform::Windows, c),
    ensures
        ({
            let host = HostPlatform::Windows;
            &&& is_absolute(host, seq![letter, ':', c] + rest)
            &&& prefix_len(host, seq![letter, ':', c] + rest) == 2
            &&& rest.len() == 0 || !is_separator(host, rest[0]) ==> {
                &&& !is_absolute(host, seq![letter, ':'] + rest)
                &&& prefix_len(host, seq![letter, ':'] + rest) == 2
                &&& !is_absolute(host, seq![c] + rest)
                &&& is_rooted(host, seq![c] + rest)
                &&& prefix_len(host, seq![c] + rest) == 0
            }
        }),
{
    let host = HostPlatform::Windows;
    let a = seq![letter, ':', c] + rest;
    let b = seq![letter, ':'] + rest;
    let d = seq![c] + rest;
    assert(a[0] == letter && a[1] == ':' && a[2] == c);
    assert(b[0] == letter && b[1] == ':');
    assert(d[0] == c);
    if rest.len() > 0 {
        assert(b[2] == rest[0]);
        assert(d[1] == rest[0]);
    }
    assert(!is_drive_letter(c));
    assert(!is_separator(host, letter));
}

proof fn lemma_component_end(host: HostPlatform, path: Seq<char>, i: int, k: int)
    requires
        0 <= i <= k <= path.len(),
        forall|j: int| i <= j < k ==> !is_separator(host, #[trigger] path[j]),
        k < path.len() ==> is_separator(host, path[k]),
    ensures
        component_end(host, path, i) == k,
    decreases k - i,
{
    if i < k {
        lemma_component_end(host, path, i + 1, k);
    }
}

/// On Windows a server and a share make a path absolute, and nothing behind them belongs to the
/// prefix.
pub proof fn share_makes_a_path_absolute(server: Seq<char>, share: Seq<char>, rest: Seq<char>)
    requires
        server.len() > 0,
        share.len() > 0,
        forall|i: int|
            0 <= i < server.len() ==> !is_separator(HostPlatform::Windows, #[trigger] server[i]),
        forall|i: int|
            0 <= i < share.len() ==> !is_separator(HostPlatform::Windows, #[trigger] share[i]),
        rest.len() > 0 ==> is_separator(HostPlatform::Windows, rest[0]),
    ensures
        ({
            let path = seq!['\\', '\\'] + server + seq!['\\'] + share + rest;
            &&& is_absolute(HostPlatform::Windows, path)
            &&& prefix_len(HostPlatform::Windows, path) == 3 + server.len() + share.len()
        }),
{
    let host = HostPlatform::Windows;
    let path = seq!['\\', '\\'] + server + seq!['\\'] + share + rest;
    let n = 2 + server.len() as int;
    let m = n + 1 + share.len() as int;
    assert forall|j: int| 2 <= j < n implies !is_separator(host, #[trigger] path[j]) by {
        assert(path[j] == server[j - 2]);
    }
    assert(path[n] == '\\');
    assert forall|j: int| n + 1 <= j < m implies !is_separator(host, #[trigger] path[j]) by {
        assert(path[j] == share[j - n - 1]);
    }
    if m < path.len() {
        assert(path[m] == rest[0]);
    }
    lemma_component_end(host, path, 2, n);
    lemma_component_end(host, path, n + 1, m);
    assert(path[0] == '\\' && path[1] == '\\');
}

// ---------------------------------------------------------------------------------------------
// Below a directory

/// A name below a directory is the directory, one separator and the name, in this order. A separator
/// that is there already is not doubled.
pub proof fn one_separator_stands_before_the_name(
    host: HostPlatform,
    dir: Seq<char>,
    name: Seq<char>,
)
    requires
        !(host is Windows),
    ensures
        dir.len() > 0 && dir.last() != '/' ==> child(host, dir, name) == dir + seq!['/'] + name,
        child(host, dir.push('/'), name) == dir + seq!['/'] + name,
        child(host, Seq::empty(), name) == name,
{
    assert(dir.push('/') + name =~= dir + seq!['/'] + name);
    assert(Seq::<char>::empty() + name =~= name);
}

/// On Windows the separator is a backslash; either separator that is there already is kept, and none
/// is put behind a bare drive.
pub proof fn backslash_stands_before_the_name(letter: char, dir: Seq<char>, name: Seq<char>)
    requires
        is_drive_letter(letter),
    ensures
        ({
            let host = HostPlatform::Windows;
            let place = seq![letter, ':', '\\'] + dir;
            &&& dir.len() > 0 && dir.last() != '/' && dir.last() != '\\' ==> child(
                host,
                place,
                name,
            ) == place + seq!['\\'] + name
            &&& child(host, dir.push('/'), name) == dir.push('/') + name
            &&& child(host, dir.push('\\'), name) == dir.push('\\') + name
            &&& child(host, seq![letter, ':'], name) == seq![letter, ':'] + name
        }),
{
    let place = seq![letter, ':', '\\'] + dir;
    assert(place.push('\\') + name =~= place + seq!['\\'] + name);
    let drive = seq![letter, ':'];
    assert(drive[0] == letter && drive[1] == ':');
    assert(place.len() > 2);
}

/// An absolute path stands for itself, wherever it is seen from; any other without a prefix and a
/// root is seen below the place it is seen from.
pub proof fn absolute_path_stands_for_itself(
    host: HostPlatform,
    base: Seq<char>,
    path: Seq<char>,
)
    ensures
        is_absolute(host, path) ==> joined(host, base, path) == path,
        is_absolute(host, path) ==> resolved(host, base, path) == path,
        prefix_len(host, path) == 0 && !is_rooted(host, path) ==> joined(host, base, path) == child(
            host,
            base,
            path,
        ),
        prefix_len(host, path) == 0 && !is_rooted(host, path) ==> resolved(host, base, path)
            == child(host, base, path),
{
}

/// On Windows a path at a root keeps the drive it is seen from.
pub proof fn rooted_path_keeps_the_drive(letter: char, dir: Seq<char>, rest: Seq<char>)
    requires
        is_drive_letter(letter),
        rest.len() > 0 ==> !is_separator(HostPlatform::Windows, rest[0]),
    ensures
        joined(HostPlatform::Windows, seq![letter, ':'] + dir, seq!['\\'] + rest) == seq![
            letter,
            ':',
            '\\',
        ] + rest,
        resolved(HostPlatform::Windows, seq![letter, ':'] + dir, seq!['\\'] + rest) == seq![
            letter,
            ':',
            '\\',
        ] + rest,
{
    drive_and_root_make_a_path_absolute(letter, '\\', rest);
    let base = seq![letter, ':'] + dir;
    let path = seq!['\\'] + rest;
    assert(base[0] == letter && base[1] == ':');
    assert(path[0] == '\\');
    assert(base.take(2) + path =~= seq![letter, ':', '\\'] + rest);
}

// ---------------------------------------------------------------------------------------------
// Components

/// A text in two parts with a separator between them has the pieces of the one and then those of the
/// other.
pub proof fn pieces_of_two_parts(a: Seq<char>, c: char, b: Seq<char>)
    ensures
        split(a.push(c) + b, c) == split(a, c) + split(b, c),
    decreases a.len(),
{
    lemma_char_pos_bounds(a, c);
    let at = char_pos(a, c) as int;
    if at == a.len() {
        assert(free_of(a, c));
        first_piece_ends_at_the_separator(a, c, b);
        text_without_separator_is_one_piece(a, c);
    } else {
        let head = a.subrange(0, at);
        let tail = a.subrange(at + 1, a.len() as int);
        assert(free_of(head, c));
        assert(a =~= head.push(c) + tail);
        first_piece_ends_at_the_separator(head, c, tail);
        first_piece_ends_at_the_separator(head, c, tail.push(c) + b);
        assert(a.push(c) + b =~= head.push(c) + (tail.push(c) + b));
        pieces_of_two_parts(tail, c, b);
        assert(seq![head] + (split(tail, c) + split(b, c)) =~= (seq![head] + split(tail, c))
            + split(b, c));
    }
}

proof fn lemma_components_prefix(a: Seq<Seq<char>>, b: Seq<Seq<char>>, n: int)
    requires
        n <= a.len(),
    ensures
        components_of(a + b, n) == components_of(a, n),
    decreases n,
{
    if n > 0 {
        lemma_components_prefix(a, b, n - 1);
        assert((a + b)[n - 1] == a[n - 1]);
    }
}

proof fn lemma_plain_pieces(host: HostPlatform, path: Seq<char>)
    requires
        !(host is Windows),
    ensures
        pieces_of(host, path) == split(path, '/'),
{
    assert(path.skip(0) =~= path);
    assert(slashed(host, path) =~= path);
}

/// The components of a name below a directory are those of the directory and then the name.
/// Separators in a row separate once, and a separator at the end adds nothing.
pub proof fn components_stand_in_order(host: HostPlatform, dir: Seq<char>, name: Seq<char>)
    requires
        !(host is Windows),
        name.len() > 0,
        free_of(name, '/'),
        name != "."@,
    ensures
        components(host, dir + seq!['/'] + name) == components(host, dir).push(name),
        components(host, dir + seq!['/']) == components(host, dir),
        components(host, name) == seq![name],
        components(host, seq!['/'] + name) == seq![name],
        dir.len() > 0 ==> components(host, child(host, dir, name)) == components(host, dir).push(
            name,
        ),
{
    lemma_name_adds_one(host, dir, name);
    lemma_name_adds_one(host, Seq::empty(), name);
    lemma_plain_pieces(host, Seq::empty());
    text_without_separator_is_one_piece(Seq::empty(), '/');
    assert(Seq::<char>::empty() + seq!['/'] + name =~= seq!['/'] + name);
    let none = seq![Seq::<char>::empty()];
    assert(components_of(none, 0).len() == 0);
    assert(!is_component(none, 0));
    assert(components(host, Seq::empty()) =~= Seq::empty());
    lemma_plain_pieces(host, name);
    text_without_separator_is_one_piece(name, '/');
    let one = seq![name];
    assert(is_component(one, 0));
    assert(components_of(one, 0) =~= Seq::empty());
    assert(components_of(one, 1) =~= seq![name]);
    if dir.len() > 0 && dir.last() == '/' {
        let d = dir.drop_last();
        assert(d.push('/') =~= dir);
        assert(d + seq!['/'] =~= dir);
        lemma_name_adds_one(host, d, name);
        one_separator_stands_before_the_name(host, d, name);
    } else {
        one_separator_stands_before_the_name(host, dir, name);
    }
}

proof fn lemma_name_adds_one(host: HostPlatform, dir: Seq<char>, name: Seq<char>)
    requires
        !(host is Windows),
        name.len() > 0,
        free_of(name, '/'),
        name != "."@,
    ensures
        components(host, dir + seq!['/'] + name) == components(host, dir).push(name),
        components(host, dir + seq!['/']) == components(host, dir),
{
    let pieces = split(dir, '/');
    let n = pieces.len() as int;
    let empty = Seq::<char>::empty();
    lemma_plain_pieces(host, dir);
    lemma_plain_pieces(host, dir + seq!['/'] + name);
    lemma_plain_pieces(host, dir + seq!['/']);
    assert(dir.push('/') + name =~= dir + seq!['/'] + name);
    assert(dir.push('/') + empty =~= dir + seq!['/']);
    pieces_of_two_parts(dir, '/', name);
    pieces_of_two_parts(dir, '/', empty);
    text_without_separator_is_one_piece(name, '/');
    text_without_separator_is_one_piece(empty, '/');
    lemma_components_prefix(pieces, seq![name], n);
    lemma_components_prefix(pieces, seq![empty], n);
    assert((pieces + seq![name])[n] == name);
    assert((pieces + seq![empty])[n] == empty);
}

proof fn lemma_no_prefix(host: HostPlatform, path: Seq<char>)
    requires
        !(host is Windows),
    ensures
        prefix_of(host, path) == Seq::<char>::empty(),
{
    assert(path.take(0) =~= Seq::<char>::empty());
    assert(slashed(host, Seq::empty()) =~= Seq::<char>::empty());
}

/// Two paths that differ only in a separator at the end, or in one that is doubled, name the same
/// place; two names below one directory do only where they are the same.
pub proof fn same_place_goes_by_the_components(
    host: HostPlatform,
    dir: Seq<char>,
    a: Seq<char>,
    b: Seq<char>,
)
    requires
        !(host is Windows),
        dir.len() > 0,
        dir.last() != '/',
        a.len() > 0 && free_of(a, '/') && a != "."@,
        b.len() > 0 && free_of(b, '/') && b != "."@,
    ensures
        same_place(host, dir, dir + seq!['/']),
        same_place(host, dir + seq!['/'] + a, dir + seq!['/', '/'] + a),
        same_place(host, child(host, dir, a), child(host, dir, b)) <==> a == b,
        same_place(host, dir, dir),
{
    components_stand_in_order(host, dir, a);
    components_stand_in_order(host, dir, b);
    components_stand_in_order(host, dir + seq!['/'], a);
    assert(dir + seq!['/'] + seq!['/'] + a =~= dir + seq!['/', '/'] + a);
    assert((dir + seq!['/'])[0] == dir[0]);
    assert((dir + seq!['/'] + a)[0] == dir[0]);
    assert((dir + seq!['/', '/'] + a)[0] == dir[0]);
    one_separator_stands_before_the_name(host, dir, a);
    one_separator_stands_before_the_name(host, dir, b);
    assert((dir + seq!['/'] + b)[0] == dir[0]);
    lemma_no_prefix(host, dir);
    lemma_no_prefix(host, dir + seq!['/']);
    lemma_no_prefix(host, dir + seq!['/'] + a);
    lemma_no_prefix(host, dir + seq!['/', '/'] + a);
    lemma_no_prefix(host, dir + seq!['/'] + b);
    let known = components(host, dir);
    assert(known.push(a).last() == a);
    assert(known.push(b).last() == b);
}

// ---------------------------------------------------------------------------------------------
// Names and directories

proof fn lemma_name_start(
    host: HostPlatform,
    head: int,
    dir: Seq<char>,
    name: Seq<char>,
)
    requires
        !(host is Windows),
        head <= dir.len() + 1,
        free_of(name, '/'),
    ensures
        name_start(host, head, dir.push('/') + name) == dir.len() + 1,
    decreases name.len(),
{
    let path = dir.push('/') + name;
    if name.len() == 0 {
        assert(path =~= dir.push('/'));
    } else {
        assert(path.last() == name.last());
        assert(path.drop_last() =~= dir.push('/') + name.drop_last());
        lemma_name_start(host, head, dir, name.drop_last());
    }
}

/// The name and the directory of a path are what it was put together from.
pub proof fn path_comes_apart_as_it_was_put_together(
    host: HostPlatform,
    dir: Seq<char>,
    name: Seq<char>,
)
    requires
        !(host is Windows),
        name.len() > 0,
        free_of(name, '/'),
        name != "."@,
        name != ".."@,
    ensures
        file_name_of(host, dir + seq!['/'] + name) == Some(name),
        file_name_of(host, dir + seq!['/'] + name + seq!['/']) == Some(name),
        dir.len() > 0 && !has_idle_end(host, 0, dir) ==> parent_of(host, dir + seq!['/'] + name)
            == Some(dir),
        parent_of(host, seq!['/'] + name) == Some(seq!['/']),
        parent_of(host, seq!['/']) is None,
        file_name_of(host, seq!['/']) is None,
{
    reveal_strlit(".");
    let path = dir.push('/') + name;
    assert(path =~= dir + seq!['/'] + name);
    let head = head_len(host, path);
    assert(head <= 1);
    assert(path.last() == name.last());
    assert(!is_separator(host, path.last()));
    if path.last() == '.' {
        if name.len() == 1 {
            assert(name =~= "."@);
        } else {
            assert(path[path.len() - 2] == name[name.len() - 2]);
        }
    }
    assert(!has_idle_end(host, head, path));
    lemma_name_start(host, head, dir, name);
    assert(path.skip((dir.len() + 1) as int) =~= name);
    assert(path.take((dir.len() + 1) as int) =~= dir.push('/'));
    assert(dir.push('/').drop_last() =~= dir);
    let longer = path + seq!['/'];
    assert(longer.last() == '/');
    assert(longer.drop_last() =~= path);
    assert(longer[0] == path[0]);
    assert(without_trailing(host, head, longer) == path);
    if dir.len() > 0 && !has_idle_end(host, 0, dir) {
        assert(path[0] == dir[0]);
        assert(head <= dir.len());
        assert(!has_idle_end(host, head, dir));
        assert(without_trailing(host, head, dir) == dir);
        assert(has_idle_end(host, head, dir.push('/')));
        assert(without_trailing(host, head, dir.push('/')) == dir);
    }
    let root = seq!['/'];
    let none = Seq::<char>::empty();
    let top = none.push('/') + name;
    assert(root + name =~= top);
    assert(top[0] == '/');
    assert(head_len(host, top) == 1);
    assert(top.last() == name.last());
    if top.last() == '.' {
        if name.len() == 1 {
            assert(name =~= "."@);
        } else {
            assert(top[top.len() - 2] == name[name.len() - 2]);
        }
    }
    assert(!has_idle_end(host, 1, top));
    lemma_name_start(host, 1, none, name);
    assert(top.take(1) =~= root);
    assert(!has_idle_end(host, 1, root));
    assert(head_len(host, root) == 1);
    assert(name_start(host, 1, root) == 1);
    assert(root.skip(1) =~= none);
}

/// Drives are letters, small or capital, and nothing else.
pub proof fn drives_are_letters(c: char)
    ensures
        is_drive_letter(c) <==> (0x41 <= c as int <= 0x5a || 0x61 <= c as int <= 0x7a),
{
}

/// A root and a prefix are one component each, beside the names of a path.
pub proof fn root_and_prefix_count_as_components(
    host: HostPlatform,
    path: Seq<char>,
    letter: char,
    rest: Seq<char>,
)
    requires
        !(host is Windows),
        is_drive_letter(letter),
    ensures
        path.len() > 0 && path[0] == '/' ==> component_count(host, path) == components(
            host,
            path,
        ).len() + 1,
        path.len() > 0 && path[0] != '/' ==> component_count(host, path) == components(
            host,
            path,
        ).len(),
        component_count(HostPlatform::Windows, seq![letter, ':', '\\'] + rest) == components(
            HostPlatform::Windows,
            seq![letter, ':', '\\'] + rest,
        ).len() + 2,
{
    drive_and_root_make_a_path_absolute(letter, '\\', rest);
}

/// A dot that a relative path begins with is a component, and a dot behind a separator is none.
pub proof fn dot_counts_at_the_beginning_only(host: HostPlatform, dir: Seq<char>, name: Seq<char>)
    requires
        !(host is Windows),
        name.len() > 0,
        free_of(name, '/'),
        name != "."@,
    ensures
        components(host, seq!['.', '/'] + name) == seq![seq!['.'], name],
        components(host, dir + seq!['/', '.']) == components(host, dir),
{
    reveal_strlit(".");
    let dot = seq!['.'];
    assert(dot =~= "."@);
    lemma_name_adds_one(host, dot, name);
    assert(dot + seq!['/'] + name =~= seq!['.', '/'] + name);
    lemma_plain_pieces(host, dot);
    text_without_separator_is_one_piece(dot, '/');
    let one = seq![dot];
    assert(is_component(one, 0));
    assert(components_of(one, 0) =~= Seq::empty());
    assert(components_of(one, 1) =~= seq![dot]);
    let pieces = split(dir, '/');
    let n = pieces.len() as int;
    lemma_plain_pieces(host, dir);
    lemma_plain_pieces(host, dir + seq!['/', '.']);
    assert(dir.push('/') + dot =~= dir + seq!['/', '.']);
    pieces_of_two_parts(dir, '/', dot);
    lemma_components_prefix(pieces, seq![dot], n);
    assert((pieces + seq![dot])[n] == dot);
    lemma_has_a_piece(dir);
}

proof fn lemma_has_a_piece(s: Seq<char>)
    ensures
        split(s, '/').len() > 0,
{
}

/// On Windows a path that is relative to a drive stands below the directory it is seen from where
/// that is on the same drive, and at the root of its own drive where it is not.
pub proof fn path_relative_to_a_drive_stays_on_it(
    a: char,
    b: char,
    dir: Seq<char>,
    rest: Seq<char>,
)
    requires
        'a' <= a <= 'z',
        'a' <= b <= 'z',
        rest.len() > 0 ==> !is_separator(HostPlatform::Windows, rest[0]),
    ensures
        ({
            let host = HostPlatform::Windows;
            let place = seq![a, ':', '\\'] + dir;
            let seen = resolved(host, place, seq![b, ':'] + rest);
            &&& a == b ==> seen == child(host, place, rest)
            &&& a != b ==> seen == seq![b, ':', '\\'] + rest
        }),
{
    let host = HostPlatform::Windows;
    drive_and_root_make_a_path_absolute(b, '\\', rest);
    let place = seq![a, ':', '\\'] + dir;
    let path = seq![b, ':'] + rest;
    assert(place[0] == a && place[1] == ':');
    assert(path[0] == b && path[1] == ':');
    assert(path.skip(2) =~= rest);
    assert(path.take(2) =~= seq![b, ':']);
    assert(place.take(2) =~= seq![a, ':']);
    assert(ascii_lowered(place.take(2))[0] == a);
    assert(ascii_lowered(path.take(2))[0] == b);
    assert(seq![b, ':'].push('\\') + rest =~= seq![b, ':', '\\'] + rest);
}

} // verus!
