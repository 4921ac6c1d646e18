//! Searching, splitting and case folding of text.

use vstd::prelude::*;
use crate::text::{chars_eq, chars_of, string_of_range, texts};

verus! {

/// `needle` stands in `hay` at position `at`.
pub open spec fn stands_at(hay: Seq<char>, needle: Seq<char>, at: int) -> bool {
    &&& 0 <= at
    &&& at + needle.len() <= hay.len()
    &&& hay.subrange(at, at + needle.len()) == needle
}

/// `needle` stands somewhere in `hay`.
pub open spec fn contains(hay: Seq<char>, needle: Seq<char>) -> bool {
    exists|at: int| #[trigger] stands_at(hay, needle, at)
}

/// `hay` begins with `needle`.
pub open spec fn starts_with(hay: Seq<char>, needle: Seq<char>) -> bool {
    stands_at(hay, needle, 0)
}

fn chars_stand_at(hay: &Vec<char>, needle: &Vec<char>, at: usize) -> (r: bool)
    requires
        at <= hay.len(),
    ensures
        r == stands_at(hay@, needle@, at as int),
{
    if hay.len() - at < needle.len() {
        return false;
    }
    let mut i: usize = 0;
    while i < needle.len()
        invariant
            i <= needle.len(),
            at + needle.len() <= hay.len(),
            forall|k: int| 0 <= k < i ==> hay@[at + k] == needle@[k],
        decreases needle.len() - i,
    {
        if hay[at + i] != needle[i] {
            assert(hay@.subrange(at as int, at + needle@.len())[i as int] == hay@[at + i]);
            return false;
        }
        i += 1;
    }
    assert(hay@.subrange(at as int, at + needle@.len()) =~= needle@);
    true
}

/// `str::contains` for a string needle.
pub fn text_contains(hay: &str, needle: &str) -> (r: bool)
    ensures
        r == contains(hay@, needle@),
{
    let h = chars_of(hay);
    let n = chars_of(needle);
    if h.len() < n.len() {
        return false;
    }
    let mut at: usize = 0;
    while at <= h.len() - n.len()
        invariant
            at <= h.len() - n.len() + 1,
            n.len() <= h.len(),
            h@ == hay@,
            n@ == needle@,
            forall|k: int| 0 <= k < at ==> !stands_at(h@, n@, k),
        decreases h.len() - at + 1,
    {
        if chars_stand_at(&h, &n, at) {
            return true;
        }
        if at == h.len() - n.len() {
            return false;
        }
        at += 1;
    }
    false
}

/// `str::starts_with`.
pub fn text_starts_with(hay: &str, needle: &str) -> (r: bool)
    ensures
        r == starts_with(hay@, needle@),
{
    let h = chars_of(hay);
    let n = chars_of(needle);
    chars_stand_at(&h, &n, 0)
}

// ---------------------------------------------------------------------------------------------
// Splitting

/// Position of the first `c`, or the length where there is none.
pub open spec fn char_pos(s: Seq<char>, c: char) -> nat
    decreases s.len(),
{
    if s.len() == 0 || s[0] == c {
        0
    } else {
        1 + char_pos(s.subrange(1, s.len() as int), c)
    }
}

pub proof fn lemma_char_pos(s: Seq<char>, c: char, k: int)
    requires
        0 <= k <= s.len(),
        forall|i: int| 0 <= i < k ==> s[i] != c,
        k < s.len() ==> s[k] == c,
    ensures
        char_pos(s, c) == k,
    decreases k,
{
    if k > 0 {
        let t = s.subrange(1, s.len() as int);
        assert(forall|i: int| 0 <= i < k - 1 ==> t[i] == s[i + 1]);
        lemma_char_pos(t, c, k - 1);
    }
}

pub proof fn lemma_char_pos_bounds(s: Seq<char>, c: char)
    ensures
        0 <= char_pos(s, c) <= s.len(),
        char_pos(s, c) < s.len() ==> s[char_pos(s, c) as int] == c,
        forall|i: int| 0 <= i < char_pos(s, c) ==> s[i] != c,
    decreases s.len(),
{
    if s.len() > 0 && s[0] != c {
        let t = s.subrange(1, s.len() as int);
        lemma_char_pos_bounds(t, c);
        assert forall|i: int| 0 <= i < char_pos(s, c) implies s[i] != c by {
            if i > 0 {
                assert(s[i] == t[i - 1]);
            }
        }
    }
}

/// Position of the first `c` at or after `from`, relative to `from`.
fn find_char(chars: &Vec<char>, c: char, from: usize) -> (r: usize)
    requires
        from <= chars.len(),
    ensures
        from <= r <= chars.len(),
        r - from == char_pos(chars@.subrange(from as int, chars@.len() as int), c),
        r < chars.len() ==> chars@[r as int] == c,
{
    let mut i: usize = from;
    let ghost rest = chars@.subrange(from as int, chars@.len() as int);
    while i < chars.len() && chars[i] != c
        invariant
            from <= i <= chars.len(),
            rest == chars@.subrange(from as int, chars@.len() as int),
            forall|k: int| 0 <= k < i - from ==> rest[k] != c,
        decreases chars.len() - i,
    {
        assert(rest[i - from] == chars@[i as int]);
        i += 1;
    }
    proof {
        if i < chars.len() {
            assert(rest[i - from] == chars@[i as int]);
        }
        lemma_char_pos(rest, c, i - from);
    }
    i
}

/// The text before and behind the first `c`.
pub open spec fn split_once(s: Seq<char>, c: char) -> Option<(Seq<char>, Seq<char>)> {
    let at = char_pos(s, c) as int;
    if at < s.len() {
        Some((s.subrange(0, at), s.subrange(at + 1, s.len() as int)))
    } else {
        None
    }
}

/// `str::split_once` for a character.
pub fn text_split_once(s: &str, c: char) -> (r: Option<(String, String)>)
    ensures
        match r {
            Some(p) => split_once(s@, c) == Some((p.0@, p.1@)),
            None => split_once(s@, c) is None,
        },
{
    let chars = chars_of(s);
    let at: usize = find_char(&chars, c, 0);
    assert(chars@.subrange(0, chars@.len() as int) =~= s@);
    if at < chars.len() {
        let a = string_of_range(&chars, 0, at);
        let b = string_of_range(&chars, at + 1, chars.len());
        Some((a, b))
    } else {
        None
    }
}

/// The pieces of `s` between the separators `c`: one more than there are separators.
pub open spec fn split(s: Seq<char>, c: char) -> Seq<Seq<char>>
    decreases s.len(),
{
    match split_once(s, c) {
        Some((head, tail)) => if tail.len() < s.len() {
            seq![head] + split(tail, c)
        } else {
            seq![s]
        },
        None => seq![s],
    }
}

/// `str::split` for a character.
pub fn text_split(s: &str, c: char) -> (r: Vec<String>)
    ensures
        texts(r@) == split(s@, c),
        r@.len() > 0,
{
    let chars = chars_of(s);
    let mut out: Vec<String> = Vec::new();
    let mut from: usize = 0;
    assert(chars@.subrange(0, chars@.len() as int) =~= s@);
    assert(texts(out@) + split(s@, c) =~= split(s@, c));
    loop
        invariant
            from <= chars.len(),
            chars@ == s@,
            texts(out@) + split(s@.subrange(from as int, s@.len() as int), c) == split(s@, c),
        decreases chars.len() - from,
    {
        let at: usize = find_char(&chars, c, from);
        let piece = string_of_range(&chars, from, at);
        let ghost rest = s@.subrange(from as int, s@.len() as int);
        let ghost before = texts(out@);
        assert(rest.subrange(0, at - from) =~= chars@.subrange(from as int, at as int));
        out.push(piece);
        assert(texts(out@) =~= before.push(piece@));
        if at >= chars.len() {
            proof {
                assert(piece@ =~= rest);
                assert(split(rest, c) =~= seq![rest]);
                assert(before.push(piece@) =~= before + seq![rest]);
            }
            return out;
        }
        proof {
            let tail = s@.subrange(at + 1, s@.len() as int);
            assert(rest.subrange(at - from + 1, rest.len() as int) =~= tail);
            assert(split(rest, c) == seq![piece@] + split(tail, c));
            assert(before + (seq![piece@] + split(tail, c)) =~= before.push(piece@) + split(
                tail,
                c,
            ));
        }
        from = at + 1;
    }
}

/// Text without one trailing `c`.
pub open spec fn strip_last(s: Seq<char>, c: char) -> Seq<char> {
    if s.len() > 0 && s[s.len() - 1] == c {
        s.subrange(0, s.len() - 1)
    } else {
        s
    }
}

/// The lines of `s`: pieces ended by `\n` or `\r\n`, the last ending optional.
pub open spec fn lines(s: Seq<char>) -> Seq<Seq<char>>
    decreases s.len(),
{
    if s.len() == 0 {
        Seq::empty()
    } else {
        match split_once(s, '\n') {
            Some((head, tail)) => if tail.len() < s.len() {
                seq![strip_last(head, '\r')] + lines(tail)
            } else {
                Seq::empty()
            },
            None => seq![s],
        }
    }
}

/// The lines of a text that goes on behind a line feed are those up to it and those behind it.
pub proof fn lemma_lines_of_two(a: Seq<char>, b: Seq<char>)
    ensures
        lines(a.push('\n') + b) == lines(a.push('\n')) + lines(b),
    decreases a.len(),
{
    let ended = a.push('\n');
    let whole = ended + b;
    let p = char_pos(a, '\n') as int;
    lemma_char_pos_bounds(a, '\n');
    assert forall|i: int| 0 <= i < p implies whole[i] != '\n' && ended[i] != '\n' by {
        assert(whole[i] == a[i]);
    }
    assert(whole[p] == '\n');
    assert(ended[p] == '\n');
    lemma_char_pos(whole, '\n', p);
    lemma_char_pos(ended, '\n', p);
    assert(whole.subrange(0, p) =~= ended.subrange(0, p));
    let line = strip_last(ended.subrange(0, p), '\r');
    if p < a.len() {
        let rest = a.subrange(p + 1, a.len() as int);
        lemma_lines_of_two(rest, b);
        assert(whole.subrange(p + 1, whole.len() as int) =~= rest.push('\n') + b);
        assert(ended.subrange(p + 1, ended.len() as int) =~= rest.push('\n'));
        assert(seq![line] + (lines(rest.push('\n')) + lines(b)) =~= (seq![line] + lines(
            rest.push('\n'),
        )) + lines(b));
    } else {
        assert(whole.subrange(p + 1, whole.len() as int) =~= b);
        assert(ended.subrange(p + 1, ended.len() as int) =~= Seq::<char>::empty());
        assert(lines(Seq::<char>::empty()) =~= Seq::<Seq<char>>::empty());
        assert(seq![line] + lines(b) =~= (seq![line] + Seq::<Seq<char>>::empty()) + lines(b));
    }
}

/// What a line feed at the end does to the lines of a text: it adds an empty one where the text is
/// empty or ends with a line feed, and else it takes a carriage return off the last one.
pub proof fn lemma_lines_ended(a: Seq<char>)
    ensures
        a.len() == 0 || a.last() == '\n' ==> lines(a.push('\n')) == lines(a).push(Seq::empty()),
        a.len() > 0 && a.last() != '\n' ==> lines(a).len() > 0 && lines(a.push('\n')) == lines(
            a,
        ).drop_last().push(strip_last(lines(a).last(), '\r')),
    decreases a.len(),
{
    let ended = a.push('\n');
    let none = Seq::<char>::empty();
    let p = char_pos(a, '\n') as int;
    lemma_char_pos_bounds(a, '\n');
    assert forall|i: int| 0 <= i < p implies ended[i] != '\n' by {
        assert(ended[i] == a[i]);
    }
    assert(ended[p] == '\n');
    lemma_char_pos(ended, '\n', p);
    assert(ended.subrange(0, p) =~= a.subrange(0, p));
    let line = strip_last(a.subrange(0, p), '\r');
    assert(lines(none) =~= Seq::<Seq<char>>::empty());
    if p < a.len() {
        let rest = a.subrange(p + 1, a.len() as int);
        lemma_lines_ended(rest);
        assert(ended.subrange(p + 1, ended.len() as int) =~= rest.push('\n'));
        assert(lines(a) == seq![line] + lines(rest));
        assert(lines(ended) == seq![line] + lines(rest.push('\n')));
        if rest.len() == 0 {
            assert(a.last() == a[p]);
        } else {
            assert(rest.last() == a.last());
        }
        if rest.len() == 0 || rest.last() == '\n' {
            assert(lines(ended) =~= lines(a).push(none));
        } else {
            assert(lines(a).last() == lines(rest).last());
            assert(lines(ended) =~= lines(a).drop_last().push(
                strip_last(lines(a).last(), '\r'),
            ));
        }
    } else {
        assert(ended.subrange(p + 1, ended.len() as int) =~= none);
        assert(a.subrange(0, p) =~= a);
        assert(lines(ended) =~= seq![line]);
        if a.len() == 0 {
            assert(line =~= none);
            assert(a =~= none);
            assert(lines(ended) =~= lines(a).push(none));
        } else {
            assert(a[a.len() - 1] != '\n');
            assert(lines(a) =~= seq![a]);
            assert(lines(ended) =~= lines(a).drop_last().push(line));
        }
    }
}

/// `str::lines`.
pub fn text_lines(s: &str) -> (r: Vec<String>)
    ensures
        texts(r@) == lines(s@),
{
    let chars = chars_of(s);
    let mut out: Vec<String> = Vec::new();
    let mut from: usize = 0;
    assert(chars@.subrange(0, chars@.len() as int) =~= s@);
    assert(texts(out@) + lines(s@) =~= lines(s@));
    while from < chars.len()
        invariant
            from <= chars.len(),
            chars@ == s@,
            texts(out@) + lines(s@.subrange(from as int, s@.len() as int)) == lines(s@),
        decreases chars.len() - from,
    {
        let at: usize = find_char(&chars, '\n', from);
        let ghost rest = s@.subrange(from as int, s@.len() as int);
        let ghost before = texts(out@);
        if at >= chars.len() {
            let piece = string_of_range(&chars, from, chars.len());
            out.push(piece);
            proof {
                assert(texts(out@) =~= before.push(piece@));
                assert(piece@ =~= rest);
                assert(lines(rest) =~= seq![rest]);
                let end = s@.subrange(s@.len() as int, s@.len() as int);
                assert(lines(end) =~= Seq::<Seq<char>>::empty());
                assert(before + seq![rest] =~= before.push(piece@) + lines(end));
            }
            from = chars.len();
        } else {
            let end: usize = if at > from && chars[at - 1] == '\r' {
                at - 1
            } else {
                at
            };
            let piece = string_of_range(&chars, from, end);
            out.push(piece);
            proof {
                assert(texts(out@) =~= before.push(piece@));
                let head = rest.subrange(0, at - from);
                if at > from {
                    assert(head[head.len() - 1] == chars@[at - 1]);
                }
                assert(piece@ =~= strip_last(head, '\r'));
                let tail = s@.subrange(at + 1, s@.len() as int);
                assert(rest.subrange(at - from + 1, rest.len() as int) =~= tail);
                assert(lines(rest) == seq![piece@] + lines(tail));
                assert(before + (seq![piece@] + lines(tail)) =~= before.push(piece@) + lines(
                    tail,
                ));
            }
            from = at + 1;
        }
    }
    assert(s@.subrange(from as int, s@.len() as int) =~= Seq::<char>::empty());
    assert(texts(out@) + Seq::<Seq<char>>::empty() =~= texts(out@));
    out
}

// ---------------------------------------------------------------------------------------------
// ASCII case

/// An ASCII capital letter becomes small; any other character stays.
pub open spec fn ascii_lower(c: char) -> char {
    if 'A' <= c <= 'Z' {
        ((c as u32 + 32) as u32) as char
    } else {
        c
    }
}

/// Text with ASCII capital letters made small.
pub open spec fn ascii_lowered(s: Seq<char>) -> Seq<char> {
    s.map_values(|c: char| ascii_lower(c))
}

/// `char::to_ascii_lowercase`.
pub fn char_to_ascii_lower(c: char) -> (r: char)
    ensures
        r == ascii_lower(c),
{
    if 'A' <= c && c <= 'Z' {
        ((c as u8) + 32) as char
    } else {
        c
    }
}

/// `str::to_ascii_lowercase`.
pub fn text_ascii_lower(s: &str) -> (r: String)
    ensures
        r@ == ascii_lowered(s@),
{
    let chars = chars_of(s);
    let mut out = String::new();
    let mut i: usize = 0;
    while i < chars.len()
        invariant
            i <= chars.len(),
            out@ == ascii_lowered(chars@.take(i as int)),
        decreases chars.len() - i,
    {
        out.push(char_to_ascii_lower(chars[i]));
        assert(ascii_lowered(chars@.take(i + 1)) =~= ascii_lowered(chars@.take(i as int)).push(
            ascii_lower(chars@[i as int]),
        ));
        i += 1;
    }
    assert(chars@.take(chars@.len() as int) =~= chars@);
    out
}

/// `str::eq_ignore_ascii_case`.
pub fn text_eq_ignore_ascii_case(a: &str, b: &str) -> (r: bool)
    ensures
        r == (ascii_lowered(a@) == ascii_lowered(b@)),
{
    let x = chars_of(text_ascii_lower(a).as_str());
    let y = chars_of(text_ascii_lower(b).as_str());
    chars_eq(&x, &y)
}

/// Text with every `from` replaced by `to`.
pub open spec fn replaced_char(s: Seq<char>, from: char, to: char) -> Seq<char> {
    s.map_values(|c: char| if c == from { to } else { c })
}

/// `str::replace` of one character by another.
pub fn text_replace_char(s: &str, from: char, to: char) -> (r: String)
    ensures
        r@ == replaced_char(s@, from, to),
{
    let chars = chars_of(s);
    let mut out = String::new();
    let mut i: usize = 0;
    while i < chars.len()
        invariant
            i <= chars.len(),
            out@ == replaced_char(chars@.take(i as int), from, to),
        decreases chars.len() - i,
    {
        let c = chars[i];
        out.push(if c == from { to } else { c });
        assert(replaced_char(chars@.take(i + 1), from, to) =~= replaced_char(
            chars@.take(i as int),
            from,
            to,
        ).push(if c == from { to } else { c }));
        i += 1;
    }
    assert(chars@.take(chars@.len() as int) =~= chars@);
    out
}

} // verus!
