//! Laws of versions: how they are read, how they compare, and which one is chosen.

use vstd::prelude::*;
use crate::path::{child, HostPlatform};
use crate::platform::locator::{
    all_fit, candidates_in_root, candidates_of_version, edt_candidates, edt_candidates_in_root,
    edt_pair, edt_wanted, executable_of, first_of_version, is_best, is_valid, path_candidates_of,
    platform_candidates, platform_pair, selection, something_is_chosen_if_anything_is_valid,
    version_above, version_in_name, version_in_names, version_in_path, CandidateView,
    RootListingView, UtilityType, UtilityVersionView,
};
use crate::platform::version::{
    edt_below, edt_matches, lenient_version, numbers_at, numbers_below, numbers_in, numbers_of,
    part_number, platform_below, strict_version, version_text, with_number, EdtVersionView,
    PlatformVersion,
};
use crate::text::{join_with, trim};
use crate::text_laws::{free_of, split_undoes_join};
use crate::text_number::{
    decimal, decimal_round_trip, is_digit, lemma_decimal_digits, unsigned_body,
};

verus! {

// ---------------------------------------------------------------------------------------------
// Order

/// The first part in which two platform versions differ decides, and the one with the smaller
/// number there is below: the release before the minor one, that before the patch, and the build
/// last. Equal versions are not below each other.
pub proof fn first_different_part_decides(a: PlatformVersion, b: PlatformVersion)
    ensures
        a.major < b.major ==> platform_below(a, b) && !platform_below(b, a),
        a.major == b.major && a.minor < b.minor ==> platform_below(a, b) && !platform_below(b, a),
        a.major == b.major && a.minor == b.minor && a.patch < b.patch ==> platform_below(a, b)
            && !platform_below(b, a),
        a.major == b.major && a.minor == b.minor && a.patch == b.patch && a.build < b.build
            ==> platform_below(a, b) && !platform_below(b, a),
        a.major == b.major && a.minor == b.minor && a.patch == b.patch && a.build == b.build
            ==> !platform_below(a, b) && !platform_below(b, a),
{
}

proof fn lemma_common_beginning(a: Seq<u32>, b: Seq<u32>, i: int, k: int)
    requires
        0 <= k <= i <= a.len(),
        i <= b.len(),
        forall|j: int| 0 <= j < i ==> a[j] == b[j],
    ensures
        numbers_below(a, b, k) == numbers_below(a, b, i),
    decreases i - k,
{
    if k < i {
        lemma_common_beginning(a, b, i, k + 1);
    }
}

/// The first number in which two versions of EDT differ decides, and the one with the smaller
/// number there is below; a version that goes on behind another one is above it.
pub proof fn first_different_number_decides(a: EdtVersionView, b: EdtVersionView, i: int)
    requires
        0 <= i <= a.parts.len(),
        i < b.parts.len(),
        forall|j: int| 0 <= j < i ==> a.parts[j] == b.parts[j],
    ensures
        i == a.parts.len() ==> edt_below(a, b) && !edt_below(b, a),
        i < a.parts.len() && a.parts[i] < b.parts[i] ==> edt_below(a, b) && !edt_below(b, a),
        !edt_below(a, a),
{
    lemma_common_beginning(a.parts, b.parts, i, 0);
    lemma_common_beginning(b.parts, a.parts, i, 0);
    lemma_common_beginning(a.parts, a.parts, a.parts.len() as int, 0);
}

// ---------------------------------------------------------------------------------------------
// Reading

/// A platform version is read from four numbers with dots between them, in the order major, minor,
/// patch and build, white space around each aside.
pub proof fn four_numbers_are_a_version(
    a: Seq<char>,
    b: Seq<char>,
    c: Seq<char>,
    d: Seq<char>,
    v: PlatformVersion,
)
    requires
        free_of(a, '.') && free_of(b, '.') && free_of(c, '.') && free_of(d, '.'),
        trim(a) == decimal(v.major as nat),
        trim(b) == decimal(v.minor as nat),
        trim(c) == decimal(v.patch as nat),
        trim(d) == decimal(v.build as nat),
    ensures
        strict_version(join_with(seq![a, b, c, d], seq!['.'])) == Some(v),
{
    let parts = seq![a, b, c, d];
    split_undoes_join(parts, '.');
    decimal_round_trip(v.major as nat, u32::MAX as nat);
    decimal_round_trip(v.minor as nat, u32::MAX as nat);
    decimal_round_trip(v.patch as nat, u32::MAX as nat);
    decimal_round_trip(v.build as nat, u32::MAX as nat);
}

/// Fewer or more than four parts, or a part without a digit, make no platform version.
pub proof fn other_texts_are_no_version(parts: Seq<Seq<char>>, i: int)
    requires
        parts.len() > 0,
        forall|k: int| 0 <= k < parts.len() ==> free_of(#[trigger] parts[k], '.'),
    ensures
        parts.len() != 4 ==> strict_version(join_with(parts, seq!['.'])) is None,
        0 <= i < parts.len() && (forall|k: int|
            0 <= k < trim(parts[i]).len() ==> !is_digit(#[trigger] trim(parts[i])[k]))
            ==> strict_version(join_with(parts, seq!['.'])) is None,
{
    split_undoes_join(parts, '.');
    if 0 <= i < parts.len() && (forall|k: int|
        0 <= k < trim(parts[i]).len() ==> !is_digit(#[trigger] trim(parts[i])[k])) {
        let text = trim(parts[i]);
        let body = unsigned_body(text);
        if body.len() > 0 {
            if text[0] == '+' {
                assert(body[0] == text[1]);
            } else {
                assert(body[0] == text[0]);
            }
            assert(!is_digit(body[0]));
        }
        assert(part_number(parts[i]) is None);
    }
}

/// The text of a version is its four numbers, major first, with dots between them.
pub proof fn text_of_a_version_is_its_numbers(v: PlatformVersion)
    ensures
        version_text(v) == join_with(
            seq![
                decimal(v.major as nat),
                decimal(v.minor as nat),
                decimal(v.patch as nat),
                decimal(v.build as nat),
            ],
            seq!['.'],
        ),
{
    reveal_strlit(".");
    assert("."@ =~= seq!['.']);
    let a = decimal(v.major as nat);
    let b = decimal(v.minor as nat);
    let c = decimal(v.patch as nat);
    let d = decimal(v.build as nat);
    let parts = seq![a, b, c, d];
    let dot = seq!['.'];
    assert(parts.drop_last() =~= seq![a, b, c]);
    assert(seq![a, b, c].drop_last() =~= seq![a, b]);
    assert(seq![a, b].drop_last() =~= seq![a]);
    assert(join_with(seq![a], dot) == a);
    assert(join_with(seq![a, b], dot) == a + dot + b);
    assert(join_with(seq![a, b, c], dot) == a + dot + b + dot + c);
    assert(join_with(parts, dot) == a + dot + b + dot + c + dot + d);
}

proof fn lemma_numbers_behind(a: Seq<char>, b: Seq<char>, k: int)
    requires
        0 <= k <= b.len(),
        numbers_in(a, a.len() as int).1.len() == 0,
    ensures
        numbers_in(a + b, a.len() + k) == (
            numbers_in(a, a.len() as int).0 + numbers_in(b, k).0,
            numbers_in(b, k).1,
        ),
    decreases k,
{
    let head = numbers_in(a, a.len() as int).0;
    if k == 0 {
        lemma_numbers_prefix(a, b, a.len() as int);
        assert(head + Seq::<u32>::empty() =~= head);
        assert(numbers_in(a, a.len() as int).1 =~= Seq::<char>::empty());
    } else {
        lemma_numbers_behind(a, b, k - 1);
        assert((a + b)[a.len() + k - 1] == b[k - 1]);
        let (numbers, digits) = numbers_in(b, k - 1);
        assert(with_number(head + numbers, digits) =~= head + with_number(numbers, digits));
    }
}

proof fn lemma_numbers_prefix(a: Seq<char>, b: Seq<char>, k: int)
    requires
        0 <= k <= a.len(),
    ensures
        numbers_in(a + b, k) == numbers_in(a, k),
    decreases k,
{
    if k > 0 {
        lemma_numbers_prefix(a, b, k - 1);
        assert((a + b)[k - 1] == a[k - 1]);
    }
}

proof fn lemma_all_digits(a: Seq<char>, k: int)
    requires
        0 <= k <= a.len(),
        forall|i: int| 0 <= i < a.len() ==> is_digit(#[trigger] a[i]),
    ensures
        numbers_in(a, k) == (Seq::<u32>::empty(), a.take(k)),
    decreases k,
{
    if k > 0 {
        lemma_all_digits(a, k - 1);
        assert(is_digit(a[k - 1]));
        assert(a.take(k) =~= a.take(k - 1).push(a[k - 1]));
    } else {
        assert(a.take(0) =~= Seq::<char>::empty());
    }
}

/// A version of EDT is the numbers that stand in a text, in their order: a number at its beginning
/// comes before those behind it, and any other character only ends a number.
pub proof fn numbers_are_read_in_order(n: u32, c: char, rest: Seq<char>)
    requires
        !is_digit(c),
    ensures
        numbers_of(decimal(n as nat).push(c) + rest) == seq![n] + numbers_of(rest),
        numbers_of(decimal(n as nat)) == seq![n],
        numbers_of(seq![c] + rest) == numbers_of(rest),
        numbers_of(Seq::empty()).len() == 0,
{
    let digits = decimal(n as nat);
    lemma_decimal_digits(n as nat);
    decimal_round_trip(n as nat, u32::MAX as nat);
    lemma_all_digits(digits, digits.len() as int);
    assert(digits.take(digits.len() as int) =~= digits);
    assert(with_number(Seq::empty(), digits) =~= seq![n]);
    let head = digits.push(c);
    lemma_numbers_prefix(digits, seq![c], digits.len() as int);
    assert(digits + seq![c] =~= head);
    assert(numbers_in(head, head.len() as int) == (seq![n], Seq::<char>::empty()));
    let k = rest.len() as int;
    lemma_numbers_behind(head, rest, k);
    assert((head + rest).len() == head.len() + k);
    let (numbers, last) = numbers_in(rest, k);
    assert(with_number(seq![n] + numbers, last) =~= seq![n] + with_number(numbers, last));
    let one = seq![c];
    assert(numbers_in(one, 0) == (Seq::<u32>::empty(), Seq::<char>::empty()));
    assert(numbers_in(one, 1) == (Seq::<u32>::empty(), Seq::<char>::empty()));
    lemma_numbers_behind(one, rest, k);
    assert((one + rest).len() == 1 + k);
    assert(Seq::<u32>::empty() + numbers =~= numbers);
}

/// The version asked for matches exactly those that hold its numbers in a row, whatever stands
/// before and behind them.
pub proof fn numbers_in_a_row_match(
    before: Seq<u32>,
    required: EdtVersionView,
    after: Seq<u32>,
    other: EdtVersionView,
    i: int,
)
    requires
        required.parts.len() > 0,
        0 <= i < required.parts.len(),
        !other.parts.contains(required.parts[i]),
    ensures
        edt_matches(required, EdtVersionView { parts: before + required.parts + after }),
        !edt_matches(required, other),
{
    let all = before + required.parts + after;
    let at = before.len() as int;
    assert(all.subrange(at, at + required.parts.len()) =~= required.parts);
    let whole = EdtVersionView { parts: all };
    assert(numbers_at(whole.parts, required.parts, at));
    assert(edt_matches(required, whole));
    if edt_matches(required, other) {
        let at = choose|at: int| #[trigger] numbers_at(other.parts, required.parts, at);
        assert(other.parts.subrange(at, at + required.parts.len())[i] == other.parts[at + i]);
        assert(other.parts.contains(other.parts[at + i]));
    }
}

/// The version of a path is that of its innermost component that has one.
pub proof fn innermost_version_counts(
    utility: UtilityType,
    before: Seq<Seq<char>>,
    name: Seq<char>,
    after: Seq<Seq<char>>,
    k: int,
)
    requires
        version_in_name(utility, name) is Some,
        0 <= k <= after.len(),
        forall|i: int| 0 <= i < after.len() ==> version_in_name(utility, #[trigger] after[i]) is None,
    ensures
        version_in_names(utility, before + seq![name] + after, before.len() + 1 + k)
            == version_in_name(utility, name),
    decreases k,
{
    let all = before + seq![name] + after;
    if k == 0 {
        assert(all[before.len() as int] == name);
    } else {
        assert(all[before.len() + k] == after[k - 1]);
        innermost_version_counts(utility, before, name, after, k - 1);
    }
}

// ---------------------------------------------------------------------------------------------
// Choice

/// Where any version will do, the chosen platform is the newest that can be executed: no other one
/// has a larger major number, with the same major a larger minor, with the same minor a larger
/// patch, or with the same patch a larger build.
pub proof fn newest_platform_is_chosen(
    utility: UtilityType,
    candidates: Seq<CandidateView>,
    valid: Seq<bool>,
    i: int,
    v: PlatformVersion,
)
    requires
        !(utility is EdtCli),
        all_fit(utility, candidates),
        0 <= i < candidates.len(),
        is_valid(valid, i),
        candidates[i].version == Some(UtilityVersionView::Platform(v)),
    ensures
        ({
            let choice = selection(utility, None, candidates, valid);
            &&& choice is Ok
            &&& choice->Ok_0.version is Some
            &&& choice->Ok_0.version->0 is Platform
            &&& ({
                let best = choice->Ok_0.version->0->Platform_0;
                &&& v.major <= best.major
                &&& v.major == best.major ==> v.minor <= best.minor
                &&& v.major == best.major && v.minor == best.minor ==> v.patch <= best.patch
                &&& v.major == best.major && v.minor == best.minor && v.patch == best.patch
                    ==> v.build <= best.build
            })
        }),
{
    let n = candidates.len() as int;
    something_is_chosen_if_anything_is_valid(utility, candidates, valid);
    assert(exists|i: int| 0 <= i < candidates.len() && #[trigger] is_valid(valid, i));
    let k = choose|k: int| is_best(candidates, valid, n, k);
    assert(is_best(candidates, valid, n, k));
    assert(crate::platform::locator::fits(utility, candidates[k].version));
    assert(!version_above(candidates[i].version, candidates[k].version));
}

/// Where any version will do, the chosen EDT is the newest that can be executed: no other one has a
/// larger number where their versions first differ, nor goes on behind its version.
pub proof fn newest_edt_is_chosen(
    candidates: Seq<CandidateView>,
    valid: Seq<bool>,
    i: int,
    v: EdtVersionView,
    k: int,
)
    requires
        all_fit(UtilityType::EdtCli, candidates),
        0 <= i < candidates.len(),
        is_valid(valid, i),
        candidates[i].version == Some(UtilityVersionView::Edt(v)),
    ensures
        ({
            let choice = selection(UtilityType::EdtCli, None, candidates, valid);
            &&& choice is Ok
            &&& choice->Ok_0.version is Some
            &&& choice->Ok_0.version->0 is Edt
            &&& ({
                let best = choice->Ok_0.version->0->Edt_0;
                0 <= k < v.parts.len() && k <= best.parts.len() && (forall|j: int|
                    0 <= j < k ==> v.parts[j] == best.parts[j]) ==> k < best.parts.len()
                    && v.parts[k] <= best.parts[k]
            })
        }),
{
    let n = candidates.len() as int;
    something_is_chosen_if_anything_is_valid(UtilityType::EdtCli, candidates, valid);
    assert(exists|i: int| 0 <= i < candidates.len() && #[trigger] is_valid(valid, i));
    let b = choose|b: int| is_best(candidates, valid, n, b);
    assert(is_best(candidates, valid, n, b));
    assert(crate::platform::locator::fits(UtilityType::EdtCli, candidates[b].version));
    assert(!version_above(candidates[i].version, candidates[b].version));
    let best = candidates[b].version->0->Edt_0;
    if 0 <= k < v.parts.len() && k <= best.parts.len() && (forall|j: int|
        0 <= j < k ==> v.parts[j] == best.parts[j]) {
        first_different_number_decides(best, v, k);
    }
}

/// Of several candidates of the newest version the last one that can be executed is chosen, and one
/// without a version only where none has one.
pub proof fn last_of_equals_is_chosen(
    utility: UtilityType,
    candidates: Seq<CandidateView>,
    valid: Seq<bool>,
    k: int,
)
    requires
        0 <= k < candidates.len(),
        is_valid(valid, k),
        forall|j: int|
            0 <= j < candidates.len() && #[trigger] is_valid(valid, j) ==> candidates[j].version
                == candidates[k].version,
        forall|j: int| k < j < candidates.len() ==> !#[trigger] is_valid(valid, j),
        crate::platform::locator::fits(utility, candidates[k].version),
    ensures
        selection(utility, None, candidates, valid) is Ok,
        selection(utility, None, candidates, valid)->Ok_0.path == candidates[k].path,
        selection(utility, None, candidates, valid)->Ok_0.version == candidates[k].version,
        selection(utility, None, candidates, valid)->Ok_0.utility == utility,
{
    let n = candidates.len() as int;
    let version = candidates[k].version;
    crate::platform::locator::versions_are_ordered(utility, version, version, version);
    assert(is_best(candidates, valid, n, k));
    let b = choose|b: int| is_best(candidates, valid, n, b);
    crate::platform::locator::best_candidate_is_unique(candidates, valid, k, b);
}

/// Where a version of the platform is asked for, the first candidate of it that can be executed is
/// chosen; where there is none, nothing is.
pub proof fn first_of_the_asked_version_is_chosen(
    utility: UtilityType,
    candidates: Seq<CandidateView>,
    valid: Seq<bool>,
    version: PlatformVersion,
    k: int,
)
    requires
        !(utility is EdtCli),
        0 <= k <= candidates.len(),
        forall|j: int|
            0 <= j < k && #[trigger] is_valid(valid, j) ==> candidates[j].version != Some(
                UtilityVersionView::Platform(version),
            ),
        k < candidates.len() ==> is_valid(valid, k) && candidates[k].version == Some(
            UtilityVersionView::Platform(version),
        ),
    ensures
        k < candidates.len() ==> selection(utility, Some(version), candidates, valid) is Ok
            && selection(utility, Some(version), candidates, valid)->Ok_0.path
            == candidates[k].path,
        k == candidates.len() ==> selection(utility, Some(version), candidates, valid) is Err,
{
    lemma_first_at(candidates, valid, version, 0, k);
}

proof fn lemma_first_at(
    candidates: Seq<CandidateView>,
    valid: Seq<bool>,
    version: PlatformVersion,
    i: int,
    k: int,
)
    requires
        0 <= i <= k <= candidates.len(),
        forall|j: int|
            0 <= j < k && #[trigger] is_valid(valid, j) ==> candidates[j].version != Some(
                UtilityVersionView::Platform(version),
            ),
        k < candidates.len() ==> is_valid(valid, k) && candidates[k].version == Some(
            UtilityVersionView::Platform(version),
        ),
    ensures
        first_of_version(candidates, valid, version, i) == (if k < candidates.len() {
            Some(candidates[k])
        } else {
            None
        }),
    decreases k - i,
{
    if i < k {
        lemma_first_at(candidates, valid, version, i + 1, k);
    }
}

// ---------------------------------------------------------------------------------------------
// Places

proof fn lemma_in_root(
    host: HostPlatform,
    name: Seq<char>,
    root: Seq<char>,
    dirs: Seq<Seq<char>>,
    k: int,
    n: int,
    candidate: CandidateView,
)
    requires
        0 <= k < n <= dirs.len(),
        strict_version(dirs[k]) is Some,
        platform_pair(host, child(host, root, dirs[k]), name, strict_version(dirs[k])->0).contains(
            candidate,
        ),
    ensures
        candidates_in_root(host, name, root, dirs, n).contains(candidate),
    decreases n,
{
    let pair = platform_pair(host, child(host, root, dirs[k]), name, strict_version(dirs[k])->0);
    let before = candidates_in_root(host, name, root, dirs, n - 1);
    if k == n - 1 {
        lemma_contains_right(before, pair, candidate);
    } else {
        lemma_in_root(host, name, root, dirs, k, n - 1, candidate);
        let last = match strict_version(dirs[n - 1]) {
            Some(version) => platform_pair(host, child(host, root, dirs[n - 1]), name, version),
            None => Seq::empty(),
        };
        lemma_contains_left(before, last, candidate);
    }
}

proof fn lemma_contains_right<T>(a: Seq<T>, b: Seq<T>, x: T)
    requires
        b.contains(x),
    ensures
        (a + b).contains(x),
{
    let i = choose|i: int| 0 <= i < b.len() && b[i] == x;
    assert((a + b)[a.len() + i] == x);
}

proof fn lemma_contains_left<T>(a: Seq<T>, b: Seq<T>, x: T)
    requires
        a.contains(x),
    ensures
        (a + b).contains(x),
{
    let i = choose|i: int| 0 <= i < a.len() && a[i] == x;
    assert((a + b)[i] == x);
}

/// Every directory below a root that is named by a version is searched: the utility may lie in it
/// or in its `bin`, and is then of that version.
pub proof fn every_version_directory_is_searched(
    host: HostPlatform,
    name: Seq<char>,
    listings: Seq<RootListingView>,
    i: int,
    k: int,
    n: int,
)
    requires
        0 <= i < n <= listings.len(),
        0 <= k < listings[i].dirs.len(),
        strict_version(listings[i].dirs[k]) is Some,
    ensures
        ({
            let dir = child(host, listings[i].root, listings[i].dirs[k]);
            let version = Some(
                UtilityVersionView::Platform(strict_version(listings[i].dirs[k])->0),
            );
            let all = platform_candidates(host, name, listings, n);
            &&& all.contains(CandidateView { path: child(host, dir, name), version })
            &&& all.contains(
                CandidateView { path: child(host, child(host, dir, "bin"@), name), version },
            )
        }),
    decreases n,
{
    let dir = child(host, listings[i].root, listings[i].dirs[k]);
    let own = strict_version(listings[i].dirs[k])->0;
    let version = Some(UtilityVersionView::Platform(own));
    let first = CandidateView { path: child(host, dir, name), version };
    let second = CandidateView { path: child(host, child(host, dir, "bin"@), name), version };
    let before = platform_candidates(host, name, listings, n - 1);
    let last = listings[n - 1];
    let here = candidates_in_root(host, name, last.root, last.dirs, last.dirs.len() as int);
    if i == n - 1 {
        let pair = platform_pair(host, dir, name, own);
        assert(pair[0] == first && pair[1] == second);
        assert(pair.contains(first) && pair.contains(second));
        lemma_in_root(host, name, last.root, last.dirs, k, last.dirs.len() as int, first);
        lemma_in_root(host, name, last.root, last.dirs, k, last.dirs.len() as int, second);
        lemma_contains_right(before, here, first);
        lemma_contains_right(before, here, second);
    } else {
        every_version_directory_is_searched(host, name, listings, i, k, n - 1);
        lemma_contains_left(before, here, first);
        lemma_contains_left(before, here, second);
    }
}

/// A version that is asked for is searched below every root, in the directory that is named by it
/// and in its `bin`, and nowhere else.
pub proof fn asked_version_is_searched_below_every_root(
    host: HostPlatform,
    name: Seq<char>,
    version: PlatformVersion,
    roots: Seq<Seq<char>>,
    i: int,
    n: int,
)
    requires
        0 <= i < n <= roots.len(),
    ensures
        ({
            let dir = child(host, roots[i], version_text(version));
            let own = Some(UtilityVersionView::Platform(version));
            let all = candidates_of_version(host, name, version, roots, n);
            &&& all.len() == 2 * n
            &&& all[2 * i] == (CandidateView { path: child(host, dir, name), version: own })
            &&& all[2 * i + 1] == (CandidateView {
                path: child(host, child(host, dir, "bin"@), name),
                version: own,
            })
        }),
    decreases n,
{
    let before = candidates_of_version(host, name, version, roots, n - 1);
    lemma_two_per_root(host, name, version, roots, n - 1);
    if i < n - 1 {
        asked_version_is_searched_below_every_root(host, name, version, roots, i, n - 1);
    }
}

proof fn lemma_two_per_root(
    host: HostPlatform,
    name: Seq<char>,
    version: PlatformVersion,
    roots: Seq<Seq<char>>,
    n: int,
)
    requires
        0 <= n <= roots.len(),
    ensures
        candidates_of_version(host, name, version, roots, n).len() == 2 * n,
    decreases n,
{
    if n > 0 {
        lemma_two_per_root(host, name, version, roots, n - 1);
    }
}

proof fn lemma_edt_in_root(
    host: HostPlatform,
    name: Seq<char>,
    required: Option<EdtVersionView>,
    root: Seq<char>,
    dirs: Seq<Seq<char>>,
    k: int,
    n: int,
    candidate: CandidateView,
)
    requires
        0 <= k < n <= dirs.len(),
        edt_wanted(required, lenient_version(dirs[k])),
        edt_pair(host, root, dirs[k], name).contains(candidate),
    ensures
        edt_candidates_in_root(host, name, required, root, dirs, n).contains(candidate),
    decreases n,
{
    let before = edt_candidates_in_root(host, name, required, root, dirs, n - 1);
    if k == n - 1 {
        lemma_contains_right(before, edt_pair(host, root, dirs[k], name), candidate);
    } else {
        lemma_edt_in_root(host, name, required, root, dirs, k, n - 1, candidate);
        let last = if edt_wanted(required, lenient_version(dirs[n - 1])) {
            edt_pair(host, root, dirs[n - 1], name)
        } else {
            Seq::empty()
        };
        lemma_contains_left(before, last, candidate);
    }
}

/// Every component of EDT below a root is searched, where a version is asked for every one of it:
/// the utility may lie in its `1cedt` or in the component itself, and is then of the version that
/// the name of the component holds.
pub proof fn every_edt_component_is_searched(
    host: HostPlatform,
    name: Seq<char>,
    required: Option<EdtVersionView>,
    listings: Seq<RootListingView>,
    i: int,
    k: int,
    n: int,
)
    requires
        0 <= i < n <= listings.len(),
        0 <= k < listings[i].dirs.len(),
        lenient_version(listings[i].dirs[k]) is Some,
        required matches Some(wanted) ==> edt_matches(
            wanted,
            lenient_version(listings[i].dirs[k])->0,
        ),
    ensures
        ({
            let dir = child(host, listings[i].root, listings[i].dirs[k]);
            let version = Some(UtilityVersionView::Edt(lenient_version(listings[i].dirs[k])->0));
            let all = edt_candidates(host, name, required, listings, n);
            &&& all.contains(
                CandidateView { path: child(host, child(host, dir, "1cedt"@), name), version },
            )
            &&& all.contains(CandidateView { path: child(host, dir, name), version })
        }),
    decreases n,
{
    let dir = child(host, listings[i].root, listings[i].dirs[k]);
    let version = Some(UtilityVersionView::Edt(lenient_version(listings[i].dirs[k])->0));
    let first = CandidateView { path: child(host, child(host, dir, "1cedt"@), name), version };
    let second = CandidateView { path: child(host, dir, name), version };
    let before = edt_candidates(host, name, required, listings, n - 1);
    let last = listings[n - 1];
    let m = last.dirs.len() as int;
    let here = edt_candidates_in_root(host, name, required, last.root, last.dirs, m);
    if i == n - 1 {
        let pair = edt_pair(host, last.root, last.dirs[k], name);
        assert(pair[0] == first && pair[1] == second);
        assert(pair.contains(first) && pair.contains(second));
        lemma_edt_in_root(host, name, required, last.root, last.dirs, k, m, first);
        lemma_edt_in_root(host, name, required, last.root, last.dirs, k, m, second);
        lemma_contains_right(before, here, first);
        lemma_contains_right(before, here, second);
    } else {
        every_edt_component_is_searched(host, name, required, listings, i, k, n - 1);
        lemma_contains_left(before, here, first);
        lemma_contains_left(before, here, second);
    }
}

/// Where a version of EDT is asked for, every candidate below the roots is of a version that
/// matches it.
pub proof fn edt_candidates_match_what_is_asked(
    host: HostPlatform,
    name: Seq<char>,
    required: EdtVersionView,
    listings: Seq<RootListingView>,
    n: int,
    j: int,
)
    requires
        0 <= n <= listings.len(),
        0 <= j < edt_candidates(host, name, Some(required), listings, n).len(),
    ensures
        ({
            let candidate = edt_candidates(host, name, Some(required), listings, n)[j];
            &&& candidate.version is Some
            &&& candidate.version->0 is Edt
            &&& edt_matches(required, candidate.version->0->Edt_0)
        }),
    decreases n,
{
    if n > 0 {
        let before = edt_candidates(host, name, Some(required), listings, n - 1);
        if j < before.len() {
            edt_candidates_match_what_is_asked(host, name, required, listings, n - 1, j);
        } else {
            let last = listings[n - 1];
            lemma_root_matches(
                host,
                name,
                required,
                last.root,
                last.dirs,
                last.dirs.len() as int,
                j - before.len(),
            );
        }
    }
}

proof fn lemma_root_matches(
    host: HostPlatform,
    name: Seq<char>,
    required: EdtVersionView,
    root: Seq<char>,
    dirs: Seq<Seq<char>>,
    n: int,
    j: int,
)
    requires
        0 <= n <= dirs.len(),
        0 <= j < edt_candidates_in_root(host, name, Some(required), root, dirs, n).len(),
    ensures
        ({
            let candidate = edt_candidates_in_root(host, name, Some(required), root, dirs, n)[j];
            &&& candidate.version is Some
            &&& candidate.version->0 is Edt
            &&& edt_matches(required, candidate.version->0->Edt_0)
        }),
    decreases n,
{
    if n > 0 {
        let before = edt_candidates_in_root(host, name, Some(required), root, dirs, n - 1);
        if j < before.len() {
            lemma_root_matches(host, name, required, root, dirs, n - 1, j);
        }
    }
}

/// In the search path the utility may lie in each of the directories, in their order.
pub proof fn search_path_is_searched_in_order(
    utility: UtilityType,
    host: HostPlatform,
    dirs: Seq<Seq<char>>,
    i: int,
)
    requires
        0 <= i < dirs.len(),
    ensures
        path_candidates_of(utility, host, dirs).len() == dirs.len(),
        path_candidates_of(utility, host, dirs)[i].path == child(
            host,
            dirs[i],
            executable_of(utility, host),
        ),
        path_candidates_of(utility, host, dirs)[i].version == version_in_path(
            utility,
            path_candidates_of(utility, host, dirs)[i].path,
            host,
        ),
{
}

/// Utilities have different file names, and on Windows the same ones with `.exe` behind them.
pub proof fn utilities_have_names_of_their_own(a: UtilityType, b: UtilityType)
    ensures
        a != b ==> executable_of(a, HostPlatform::Linux) != executable_of(b, HostPlatform::Linux),
        executable_of(a, HostPlatform::Windows) == executable_of(a, HostPlatform::Linux) + ".exe"@,
        executable_of(a, HostPlatform::Other) == executable_of(a, HostPlatform::Linux),
{
    reveal_strlit("1cv8");
    reveal_strlit("1cv8c");
    reveal_strlit("ibcmd");
    reveal_strlit("1cedtcli");
    reveal_strlit("1cv8.exe");
    reveal_strlit("1cv8c.exe");
    reveal_strlit("ibcmd.exe");
    reveal_strlit("1cedtcli.exe");
    reveal_strlit(".exe");
    assert("1cv8"@ + ".exe"@ =~= "1cv8.exe"@);
    assert("1cv8c"@ + ".exe"@ =~= "1cv8c.exe"@);
    assert("ibcmd"@ + ".exe"@ =~= "ibcmd.exe"@);
    assert("1cedtcli"@ + ".exe"@ =~= "1cedtcli.exe"@);
    assert("1cv8"@[0] == '1' && "ibcmd"@[0] == 'i');
    assert("1cv8c"@[0] == '1' && "1cedtcli"@[0] == '1');
}

/// A text names a version of EDT exactly where a number stands in it, and its numbers are the
/// version.
pub proof fn version_of_edt_is_its_numbers(value: Seq<char>)
    ensures
        lenient_version(value) is Some <==> numbers_of(value).len() > 0,
        lenient_version(value) is Some ==> lenient_version(value)->0.parts == numbers_of(value),
{
}

/// A requirement without a number is met by no version.
pub proof fn empty_requirement_is_never_met(candidate: EdtVersionView)
    ensures
        !edt_matches(EdtVersionView { parts: Seq::empty() }, candidate),
{
}

/// A name holds a version of the kind that its utility has: for EDT the numbers in it, and for any
/// other utility the four numbers that it is.
pub proof fn name_holds_a_version_of_its_utility(utility: UtilityType, name: Seq<char>)
    ensures
        utility is EdtCli ==> (version_in_name(utility, name) is Some <==> lenient_version(name)
            is Some),
        utility is EdtCli && lenient_version(name) is Some ==> version_in_name(utility, name)
            == Some(UtilityVersionView::Edt(lenient_version(name)->0)),
        !(utility is EdtCli) ==> (version_in_name(utility, name) is Some <==> strict_version(name)
            is Some),
        !(utility is EdtCli) && strict_version(name) is Some ==> version_in_name(utility, name)
            == Some(UtilityVersionView::Platform(strict_version(name)->0)),
{
}

} // verus!
