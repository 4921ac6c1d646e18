//! Versions of the utilities, and how they compare.

use vstd::prelude::*;
use crate::text::{chars_of, is_space, join_texts, join_with, push_text, texts, trim, trimmed};
use crate::text_number::{
    decimal, decimal_round_trip, decimal_u64, is_digit, lemma_decimal_digits, parse_u32,
    parse_unsigned,
};
use crate::text_scan::{lemma_char_pos, split, text_split};

verus! {

/// Version of the 1C platform, of four parts.
#[derive(Clone, Copy, Debug, PartialEq, Eq, Structural)]
pub struct PlatformVersion {
    pub major: u32,
    pub minor: u32,
    pub patch: u32,
    pub build: u32,
}

/// Number in a part of a version.
pub open spec fn part_number(part: Seq<char>) -> Option<u32> {
    match parse_unsigned(trim(part), u32::MAX as nat) {
        Some(n) => Some(n as u32),
        None => None,
    }
}

/// Version written as `major.minor.patch.build`.
pub open spec fn strict_version(value: Seq<char>) -> Option<PlatformVersion> {
    let parts = split(value, '.');
    if parts.len() == 4 && part_number(parts[0]) is Some && part_number(parts[1]) is Some
        && part_number(parts[2]) is Some && part_number(parts[3]) is Some {
        Some(
            PlatformVersion {
                major: part_number(parts[0])->0,
                minor: part_number(parts[1])->0,
                patch: part_number(parts[2])->0,
                build: part_number(parts[3])->0,
            },
        )
    } else {
        None
    }
}

/// Text of a version.
pub open spec fn version_text(v: PlatformVersion) -> Seq<char> {
    decimal(v.major as nat) + "."@ + decimal(v.minor as nat) + "."@ + decimal(v.patch as nat)
        + "."@ + decimal(v.build as nat)
}

/// One version is below another: the first part in which they differ decides.
pub open spec fn platform_below(a: PlatformVersion, b: PlatformVersion) -> bool {
    if a.major != b.major {
        a.major < b.major
    } else if a.minor != b.minor {
        a.minor < b.minor
    } else if a.patch != b.patch {
        a.patch < b.patch
    } else {
        a.build < b.build
    }
}

fn number_in(part: &str) -> (r: Option<u32>)
    ensures
        r == part_number(part@),
{
    parse_u32(trimmed(part).as_str())
}

impl PlatformVersion {
    /// Version written as `major.minor.patch.build`.
    pub fn parse_strict(value: &str) -> (r: Option<Self>)
        ensures
            r == strict_version(value@),
    {
        let parts = text_split(value, '.');
        let ghost all = split(value@, '.');
        assert(all == texts(parts@));
        assert(all.len() == parts@.len());
        if parts.len() != 4 {
            return None;
        }
        assert(all[0] == parts@[0]@ && all[1] == parts@[1]@ && all[2] == parts@[2]@ && all[3]
            == parts@[3]@);
        match (
            number_in(parts[0].as_str()),
            number_in(parts[1].as_str()),
            number_in(parts[2].as_str()),
            number_in(parts[3].as_str()),
        ) {
            (Some(major), Some(minor), Some(patch), Some(build)) => Some(
                PlatformVersion { major, minor, patch, build },
            ),
            _ => None,
        }
    }

    /// Text of the version.
    pub fn text(self) -> (r: String)
        ensures
            r@ == version_text(self),
    {
        let mut out = decimal_u64(self.major as u64);
        out.append(".");
        out.append(decimal_u64(self.minor as u64).as_str());
        out.append(".");
        out.append(decimal_u64(self.patch as u64).as_str());
        out.append(".");
        out.append(decimal_u64(self.build as u64).as_str());
        out
    }

    /// Whether the version is below the other.
    pub fn is_below(self, other: PlatformVersion) -> (r: bool)
        ensures
            r == platform_below(self, other),
    {
        if self.major != other.major {
            self.major < other.major
        } else if self.minor != other.minor {
            self.minor < other.minor
        } else if self.patch != other.patch {
            self.patch < other.patch
        } else {
            self.build < other.build
        }
    }
}

// ---------------------------------------------------------------------------------------------
// Versions of EDT

/// Version of EDT: the numbers that its name holds.
#[derive(Debug, PartialEq, Eq)]
pub struct EdtVersion {
    pub parts: Vec<u32>,
}

/// Mathematical value of [`EdtVersion`].
pub struct EdtVersionView {
    pub parts: Seq<u32>,
}

impl View for EdtVersion {
    type V = EdtVersionView;

    open spec fn view(&self) -> EdtVersionView {
        EdtVersionView {
            parts: self.parts@,
        }
    }
}

/// Clones the numbers.
fn clone_numbers(list: &Vec<u32>) -> (r: Vec<u32>)
    ensures
        r@ == list@,
{
    let mut out: Vec<u32> = Vec::new();
    let mut i: usize = 0;
    while i < list.len()
        invariant
            i <= list.len(),
            out@ == list@.take(i as int),
        decreases list.len() - i,
    {
        out.push(list[i]);
        assert(list@.take(i + 1) =~= list@.take(i as int).push(list@[i as int]));
        i += 1;
    }
    assert(list@.take(list@.len() as int) =~= list@);
    out
}

impl Clone for EdtVersion {
    fn clone(&self) -> (r: Self)
        ensures
            r@ == self@,
    {
        EdtVersion { parts: clone_numbers(&self.parts) }
    }
}

/// Numbers with one more, where the digits make up a number of 32 bits.
pub open spec fn with_number(numbers: Seq<u32>, digits: Seq<char>) -> Seq<u32> {
    if digits.len() == 0 {
        numbers
    } else {
        match parse_unsigned(digits, u32::MAX as nat) {
            Some(n) => numbers.push(n as u32),
            None => numbers,
        }
    }
}

/// Numbers that the first `n` characters hold, and the digits at their end.
pub open spec fn numbers_in(value: Seq<char>, n: int) -> (Seq<u32>, Seq<char>)
    decreases n,
{
    if n <= 0 {
        (Seq::empty(), Seq::empty())
    } else {
        let (numbers, digits) = numbers_in(value, n - 1);
        if is_digit(value[n - 1]) {
            (numbers, digits.push(value[n - 1]))
        } else {
            (with_number(numbers, digits), Seq::empty())
        }
    }
}

/// Numbers that the text holds, each run of digits one of them.
pub open spec fn numbers_of(value: Seq<char>) -> Seq<u32> {
    let (numbers, digits) = numbers_in(value, value.len() as int);
    with_number(numbers, digits)
}

/// Version from any text that holds numbers.
pub open spec fn lenient_version(value: Seq<char>) -> Option<EdtVersionView> {
    if numbers_of(value).len() == 0 {
        None
    } else {
        Some(EdtVersionView { parts: numbers_of(value) })
    }
}

/// The numbers stand in the list from position `at` on.
pub open spec fn numbers_at(list: Seq<u32>, numbers: Seq<u32>, at: int) -> bool {
    &&& 0 <= at
    &&& at + numbers.len() <= list.len()
    &&& list.subrange(at, at + numbers.len()) == numbers
}

/// The version asked for matches: its numbers stand in the other in a row.
pub open spec fn edt_matches(required: EdtVersionView, candidate: EdtVersionView) -> bool {
    required.parts.len() > 0 && exists|at: int|
        #[trigger] numbers_at(candidate.parts, required.parts, at)
}

/// One list of numbers is below another: the first number in which they differ decides, and a list
/// that ends there is below the longer one.
pub open spec fn numbers_below(a: Seq<u32>, b: Seq<u32>, i: int) -> bool
    decreases a.len() - i,
{
    if i < 0 || i >= b.len() {
        false
    } else if i >= a.len() {
        true
    } else if a[i] != b[i] {
        a[i] < b[i]
    } else {
        numbers_below(a, b, i + 1)
    }
}

/// One version is below another.
pub open spec fn edt_below(a: EdtVersionView, b: EdtVersionView) -> bool {
    numbers_below(a.parts, b.parts, 0)
}

/// Text of a version: its numbers with dots between them.
pub open spec fn edt_version_text(v: EdtVersionView) -> Seq<char> {
    join_with(v.parts.map_values(|n: u32| decimal(n as nat)), "."@)
}

fn push_number(numbers: &mut Vec<u32>, digits: &str)
    ensures
        final(numbers)@ == with_number(old(numbers)@, digits@),
{
    if !digits.is_empty() {
        if let Some(n) = parse_u32(digits) {
            numbers.push(n);
        }
    }
}

fn char_is_digit(c: char) -> (r: bool)
    ensures
        r == is_digit(c),
{
    '0' <= c && c <= '9'
}

impl EdtVersion {
    /// Version from any text that holds numbers.
    pub fn parse_lenient(value: &str) -> (r: Option<Self>)
        ensures
            match r {
                Some(v) => lenient_version(value@) == Some(v@),
                None => lenient_version(value@) is None,
            },
    {
        let chars = chars_of(value);
        let mut parts: Vec<u32> = Vec::new();
        let mut digits = String::new();
        let mut i: usize = 0;
        assert(parts@ =~= Seq::<u32>::empty());
        while i < chars.len()
            invariant
                i <= chars.len(),
                chars@ == value@,
                numbers_in(value@, i as int) == (parts@, digits@),
            decreases chars.len() - i,
        {
            let c = chars[i];
            if char_is_digit(c) {
                digits.push(c);
            } else {
                push_number(&mut parts, digits.as_str());
                digits = String::new();
            }
            i += 1;
        }
        push_number(&mut parts, digits.as_str());
        if parts.len() == 0 {
            None
        } else {
            Some(EdtVersion { parts })
        }
    }

    /// Text of the version.
    pub fn text(&self) -> (r: String)
        ensures
            r@ == edt_version_text(self@),
    {
        let ghost all = self@.parts.map_values(|n: u32| decimal(n as nat));
        let mut pieces: Vec<String> = Vec::new();
        let mut i: usize = 0;
        assert(texts(pieces@) =~= all.take(0));
        while i < self.parts.len()
            invariant
                i <= self.parts.len(),
                all == self@.parts.map_values(|n: u32| decimal(n as nat)),
                texts(pieces@) == all.take(i as int),
            decreases self.parts.len() - i,
        {
            push_text(&mut pieces, decimal_u64(self.parts[i] as u64).as_str());
            assert(all.take(i + 1) =~= all.take(i as int).push(all[i as int]));
            i += 1;
        }
        assert(all.take(all.len() as int) =~= all);
        join_texts(&pieces, ".")
    }

    /// Whether the version is below the other.
    pub fn is_below(&self, other: &EdtVersion) -> (r: bool)
        ensures
            r == edt_below(self@, other@),
    {
        let mut i: usize = 0;
        while i < self.parts.len() && i < other.parts.len()
            invariant
                i <= self.parts.len(),
                i <= other.parts.len(),
                edt_below(self@, other@) == numbers_below(self.parts@, other.parts@, i as int),
            decreases self.parts.len() - i,
        {
            if self.parts[i] != other.parts[i] {
                return self.parts[i] < other.parts[i];
            }
            i += 1;
        }
        i < other.parts.len()
    }
}

/// Whether the version asked for matches: its numbers stand in the other in a row.
pub fn edt_version_matches(required: &EdtVersion, candidate: &EdtVersion) -> (r: bool)
    ensures
        r == edt_matches(required@, candidate@),
{
    let n: usize = required.parts.len();
    if n == 0 || n > candidate.parts.len() {
        assert forall|at: int| n > 0 implies !(#[trigger] numbers_at(
            candidate@.parts,
            required@.parts,
            at,
        )) by {}
        return false;
    }
    let mut at: usize = 0;
    while at <= candidate.parts.len() - n
        invariant
            0 < n <= candidate.parts.len(),
            n == required.parts.len(),
            at <= candidate.parts.len() - n + 1,
            forall|k: int|
                0 <= k < at ==> !(#[trigger] numbers_at(candidate@.parts, required@.parts, k)),
        decreases candidate.parts.len() - at,
    {
        let mut k: usize = 0;
        let mut same = true;
        while k < n
            invariant
                k <= n,
                n == required.parts.len(),
                at + n <= candidate.parts.len(),
                same <==> (forall|j: int|
                    0 <= j < k ==> candidate.parts@[at + j] == required.parts@[j]),
            decreases n - k,
        {
            if candidate.parts[at + k] != required.parts[k] {
                same = false;
            }
            k += 1;
        }
        if same {
            assert(candidate@.parts.subrange(at as int, at + n) =~= required@.parts);
            assert(numbers_at(candidate@.parts, required@.parts, at as int));
            return true;
        }
        proof {
            if numbers_at(candidate@.parts, required@.parts, at as int) {
                assert forall|j: int| 0 <= j < n implies candidate.parts@[at + j]
                    == required.parts@[j] by {
                    assert(candidate@.parts.subrange(at as int, at + n)[j] == required@.parts[j]);
                }
            }
        }
        at += 1;
    }
    assert forall|k: int| !(#[trigger] numbers_at(candidate@.parts, required@.parts, k)) by {
        if k >= 0 && k + n <= candidate.parts.len() {
            assert(k < at);
        }
    }
    false
}

// ---------------------------------------------------------------------------------------------
// Laws

/// Platform versions are ordered: of two different ones exactly one is below the other, and none is
/// below itself.
pub proof fn platform_versions_are_ordered(
    a: PlatformVersion,
    b: PlatformVersion,
    c: PlatformVersion,
)
    ensures
        !platform_below(a, a),
        a != b ==> platform_below(a, b) != platform_below(b, a),
        platform_below(a, b) && platform_below(b, c) ==> platform_below(a, c),
{
}

proof fn lemma_numbers_ordered(a: Seq<u32>, b: Seq<u32>, i: int)
    requires
        0 <= i <= a.len(),
        i <= b.len(),
        a.take(i) == b.take(i),
    ensures
        !numbers_below(a, a, i),
        a != b ==> numbers_below(a, b, i) != numbers_below(b, a, i),
    decreases a.len() - i,
{
    if i < a.len() {
        if i < b.len() && a[i] == b[i] {
            assert(a.take(i + 1) =~= a.take(i).push(a[i]));
            assert(b.take(i + 1) =~= b.take(i).push(b[i]));
            lemma_numbers_ordered(a, b, i + 1);
        } else {
            lemma_numbers_ordered(a, a, i + 1);
        }
    }
    if i == a.len() && i == b.len() {
        assert(a.take(i) =~= a);
        assert(b.take(i) =~= b);
    }
}

proof fn lemma_numbers_chain(a: Seq<u32>, b: Seq<u32>, c: Seq<u32>, i: int)
    requires
        0 <= i <= a.len(),
        i <= b.len(),
        i <= c.len(),
        numbers_below(a, b, i),
        numbers_below(b, c, i),
    ensures
        numbers_below(a, c, i),
    decreases a.len() - i,
{
    if i < a.len() && i < b.len() && i < c.len() && a[i] == b[i] && b[i] == c[i] {
        lemma_numbers_chain(a, b, c, i + 1);
    }
}

/// EDT versions are ordered: of two different ones exactly one is below the other, none is below
/// itself, and what is below a version is below every version above that one.
pub proof fn edt_versions_are_ordered(a: EdtVersionView, b: EdtVersionView, c: EdtVersionView)
    ensures
        !edt_below(a, a),
        a != b ==> edt_below(a, b) != edt_below(b, a),
        edt_below(a, b) && edt_below(b, c) ==> edt_below(a, c),
{
    assert(a.parts.take(0) =~= b.parts.take(0));
    lemma_numbers_ordered(a.parts, b.parts, 0);
    if edt_below(a, b) && edt_below(b, c) {
        lemma_numbers_chain(a.parts, b.parts, c.parts, 0);
    }
}

/// Every version matches itself.
pub proof fn version_matches_itself(v: EdtVersionView)
    requires
        v.parts.len() > 0,
    ensures
        edt_matches(v, v),
{
    assert(v.parts.subrange(0, v.parts.len() as int) =~= v.parts);
    assert(numbers_at(v.parts, v.parts, 0));
}

proof fn lemma_trimmed_number(n: nat)
    ensures
        trim(decimal(n)) == decimal(n),
{
    lemma_decimal_digits(n);
    let text = decimal(n);
    assert(is_digit(text[0]));
    assert(is_digit(text[text.len() - 1]));
    assert(!is_space(text[0]));
    assert(!is_space(text[text.len() - 1]));
}

proof fn lemma_split_number(n: nat, rest: Seq<char>)
    ensures
        split(decimal(n) + "."@ + rest, '.') == seq![decimal(n)] + split(rest, '.'),
{
    reveal_strlit(".");
    lemma_decimal_digits(n);
    let text = decimal(n) + "."@ + rest;
    let at = decimal(n).len() as int;
    assert forall|k: int| 0 <= k < at implies text[k] != '.' by {
        assert(text[k] == decimal(n)[k]);
        assert(is_digit(decimal(n)[k]));
    }
    assert(text[at] == '.');
    lemma_char_pos(text, '.', at);
    assert(text.subrange(0, at) =~= decimal(n));
    assert(text.subrange(at + 1, text.len() as int) =~= rest);
    assert(text.subrange(at, text.len() as int)[0] == '.');
}

proof fn lemma_split_last(n: nat)
    ensures
        split(decimal(n), '.') == seq![decimal(n)],
{
    lemma_decimal_digits(n);
    let text = decimal(n);
    assert forall|k: int| 0 <= k < text.len() implies text[k] != '.' by {
        assert(is_digit(text[k]));
    }
    lemma_char_pos(text, '.', text.len() as int);
}

/// Parsing the text of a version gives the version back: the directory that is named by a version
/// is recognised as one of it.
pub proof fn version_round_trip(v: PlatformVersion)
    ensures
        strict_version(version_text(v)) == Some(v),
{
    let a = decimal(v.major as nat);
    let b = decimal(v.minor as nat);
    let c = decimal(v.patch as nat);
    let d = decimal(v.build as nat);
    assert(version_text(v) =~= a + "."@ + (b + "."@ + (c + "."@ + d)));
    lemma_split_number(v.major as nat, b + "."@ + (c + "."@ + d));
    lemma_split_number(v.minor as nat, c + "."@ + d);
    lemma_split_number(v.patch as nat, d);
    lemma_split_last(v.build as nat);
    assert(split(version_text(v), '.') =~= seq![a, b, c, d]);
    lemma_trimmed_number(v.major as nat);
    lemma_trimmed_number(v.minor as nat);
    lemma_trimmed_number(v.patch as nat);
    lemma_trimmed_number(v.build as nat);
    decimal_round_trip(v.major as nat, u32::MAX as nat);
    decimal_round_trip(v.minor as nat, u32::MAX as nat);
    decimal_round_trip(v.patch as nat, u32::MAX as nat);
    decimal_round_trip(v.build as nat, u32::MAX as nat);
}

} // verus!
