//! Laws of the search for a utility: what is looked at, in which order, and what the end of it is.

use vstd::prelude::*;
use crate::path::{child, has_idle_end, resolved, HostPlatform};
use crate::path_laws::path_comes_apart_as_it_was_put_together;
use crate::platform::locate::{
    candidates_in, hint_of, key_of, locate_next, locate_start, placed_listings, requirement_of,
    roots_of, LocateAnswerView, LocateAskView, LocatePhaseView, LocateRunView, LocateStepView,
    LocatorView,
};
use crate::platform::locator::{
    executable_of, path_by_hint, selection, version_in_path, CandidateView, HintFacts,
    LocatorError, RootListingView, UtilityLocationView, UtilityType,
};
use crate::platform::version::{edt_version_text, version_text, EdtVersionView, PlatformVersion};
use crate::text_laws::free_of;

verus! {

/// The search for a utility in a phase.
pub open spec fn search(utility: UtilityType, phase: LocatePhaseView) -> LocateRunView {
    LocateRunView { utility, phase }
}

// ---------------------------------------------------------------------------------------------
// Where a search begins

/// EDT is looked for by its own version, hint and places, and the other utilities by those of the
/// platform. Hints and places are seen from the working directory.
pub proof fn each_utility_has_its_own_settings(
    l: LocatorView,
    utility: UtilityType,
    edt: EdtVersionView,
    platform: PlatformVersion,
    hint: Seq<char>,
    i: int,
)
    ensures
        utility is EdtCli && l.edt_version == Some(edt) ==> requirement_of(l, utility) == Some(
            edt_version_text(edt),
        ),
        utility is EdtCli && l.edt_version is None ==> requirement_of(l, utility) is None,
        !(utility is EdtCli) && l.platform_version == Some(platform) ==> requirement_of(l, utility)
            == Some(version_text(platform)),
        !(utility is EdtCli) && l.platform_version is None ==> requirement_of(l, utility) is None,
        utility is EdtCli && l.edt_hint == Some(hint) ==> hint_of(l, utility) == Some(
            resolved(l.host, l.work_dir, hint),
        ),
        !(utility is EdtCli) && l.platform_hint == Some(hint) ==> hint_of(l, utility) == Some(
            resolved(l.host, l.work_dir, hint),
        ),
        utility is EdtCli && l.edt_hint is None ==> hint_of(l, utility) is None,
        !(utility is EdtCli) && l.platform_hint is None ==> hint_of(l, utility) is None,
        utility is EdtCli ==> roots_of(l, utility).len() == l.edt_roots.len() && (0 <= i
            < l.edt_roots.len() ==> roots_of(l, utility)[i] == resolved(
            l.host,
            l.work_dir,
            l.edt_roots[i],
        )),
        !(utility is EdtCli) ==> roots_of(l, utility).len() == l.platform_roots.len() && (0 <= i
            < l.platform_roots.len() ==> roots_of(l, utility)[i] == resolved(
            l.host,
            l.work_dir,
            l.platform_roots[i],
        )),
        key_of(l, utility) == (utility, requirement_of(l, utility)),
{
}

/// What is remembered is looked at first, then the hint, and only without either the places of
/// installation and the search path.
pub proof fn memory_and_hint_come_first(l: LocatorView, utility: UtilityType)
    ensures
        ({
            let first = locate_start(l, utility);
            let known = l.cache.dom().contains(key_of(l, utility));
            let hint = hint_of(l, utility);
            &&& known ==> first.ask == (LocateAskView::CheckExecutable {
                path: l.cache[key_of(l, utility)].path,
            })
            &&& !known && hint is Some ==> first.ask == (LocateAskView::InspectHint {
                path: hint->0,
                direct: child(l.host, hint->0, executable_of(utility, l.host)),
            })
            &&& !known && hint is None ==> first.ask is ListRoots && first.ask->with_path
                && first.run.phase is Roots
            &&& !known && hint is None && (utility is EdtCli || l.platform_version is None)
                ==> first.ask->roots == roots_of(l, utility)
            &&& first.run.utility == utility
        }),
{
}

/// What is remembered is the answer while it can be executed; where it cannot it is forgotten, and
/// the search begins as if it had never been known.
pub proof fn remembered_location_is_the_answer_while_it_holds(
    l: LocatorView,
    utility: UtilityType,
)
    requires
        l.cache.dom().contains(key_of(l, utility)),
    ensures
        ({
            let first = locate_start(l, utility);
            let good = locate_next(
                l,
                first.run,
                LocateAnswerView::Executable { executable: true },
            );
            let bad = locate_next(
                l,
                first.run,
                LocateAnswerView::Executable { executable: false },
            );
            &&& good == (
                l,
                LocateStepView {
                    run: search(utility, LocatePhaseView::Over),
                    ask: LocateAskView::Found { location: l.cache[key_of(l, utility)] },
                },
            )
            &&& !bad.0.cache.dom().contains(key_of(l, utility))
            &&& bad.1 == locate_start(bad.0, utility)
        }),
{
}

// ---------------------------------------------------------------------------------------------
// Hints

proof fn lemma_executable_is_a_name(host: HostPlatform, utility: UtilityType)
    requires
        !(host is Windows),
    ensures
        executable_of(utility, host).len() > 2,
        free_of(executable_of(utility, host), '/'),
        executable_of(utility, host) != "."@,
        executable_of(utility, host) != ".."@,
{
    reveal_strlit(".");
    reveal_strlit("..");
    reveal_strlit("1cv8");
    reveal_strlit("1cv8c");
    reveal_strlit("ibcmd");
    reveal_strlit("1cedtcli");
    assert("."@.len() == 1 && ".."@.len() == 2);
}

/// A hint that is a file names the utility where it has its name, and else the directory it lies in.
/// A hint that is a directory holds the utility itself or in its `bin`. One that is neither says
/// nothing.
pub proof fn hint_names_a_file_or_a_directory(
    host: HostPlatform,
    utility: UtilityType,
    dir: Seq<char>,
    other: Seq<char>,
    direct_exists: bool,
)
    requires
        !(host is Windows),
        dir.len() > 0,
        !has_idle_end(host, 0, dir),
        other.len() > 0,
        free_of(other, '/'),
        other != "."@,
        other != ".."@,
    ensures
        ({
            let name = executable_of(utility, host);
            let file = HintFacts { is_file: true, is_dir: false, direct_exists };
            let none = HintFacts { is_file: false, is_dir: false, direct_exists };
            let own = dir + seq!['/'] + name;
            let sibling = dir + seq!['/'] + other;
            &&& path_by_hint(own, file, utility, host) == Some(own)
            &&& path_by_hint(sibling, file, utility, host) == Some(own)
            &&& path_by_hint(
                dir,
                HintFacts { is_file: false, is_dir: true, direct_exists: true },
                utility,
                host,
            ) == Some(own)
            &&& path_by_hint(
                dir,
                HintFacts { is_file: false, is_dir: true, direct_exists: false },
                utility,
                host,
            ) == Some(dir + seq!['/'] + "bin"@ + seq!['/'] + name)
            &&& path_by_hint(dir, none, utility, host) is None
        }),
{
    reveal_strlit("bin");
    let name = executable_of(utility, host);
    lemma_executable_is_a_name(host, utility);
    path_comes_apart_as_it_was_put_together(host, dir, name);
    path_comes_apart_as_it_was_put_together(host, dir, other);
    assert(dir.push('/') + name =~= dir + seq!['/'] + name);
    let bin = dir.push('/') + "bin"@;
    assert(bin.last() == 'n');
    assert(bin.push('/') + name =~= dir + seq!['/'] + "bin"@ + seq!['/'] + name);
}

/// What the hint names is the answer where it can be executed, with the version that its path
/// holds, and is remembered. Where it cannot, a directory is searched, and a hint of any other kind
/// is passed over.
pub proof fn hint_is_the_answer_where_it_can_be_executed(
    l: LocatorView,
    utility: UtilityType,
    hint: Seq<char>,
    facts: HintFacts,
    candidate: Seq<char>,
)
    requires
        path_by_hint(hint, facts, utility, l.host) == Some(candidate),
    ensures
        ({
            let (same, asked) = locate_next(
                l,
                search(utility, LocatePhaseView::Hint { hint }),
                LocateAnswerView::Hint { facts },
            );
            let good = locate_next(l, asked.run, LocateAnswerView::Executable { executable: true });
            let bad = locate_next(l, asked.run, LocateAnswerView::Executable { executable: false });
            let location = UtilityLocationView {
                utility,
                path: candidate,
                version: version_in_path(utility, candidate, l.host),
            };
            &&& same == l && asked.ask == (LocateAskView::CheckExecutable { path: candidate })
            &&& good.1.ask == (LocateAskView::Found { location })
            &&& good.0.cache == l.cache.insert(key_of(l, utility), location)
            &&& bad.0 == l
            &&& !facts.is_dir ==> bad.1.ask is ListRoots && bad.1.ask->with_path
            &&& facts.is_dir && (utility is EdtCli || l.platform_version is None) ==> bad.1.ask == (
            LocateAskView::ListRoots { roots: seq![hint], with_path: false })
            &&& facts.is_dir && !(utility is EdtCli) && l.platform_version is Some ==> bad.1.ask
                is CheckCandidates
        }),
{
}

// ---------------------------------------------------------------------------------------------
// Candidates

/// The candidates below the places of installation come before those of the search path, and all of
/// them are looked at. A hint below which there is none leads on to the places of installation.
pub proof fn installed_candidates_come_before_the_search_path(
    l: LocatorView,
    utility: UtilityType,
    listings: Seq<RootListingView>,
    path_dirs: Seq<Seq<char>>,
    hint: Seq<char>,
    i: int,
)
    ensures
        ({
            let answer = LocateAnswerView::Roots { listings, path_dirs };
            let step = locate_next(l, search(utility, LocatePhaseView::Roots), answer).1;
            let installed = candidates_in(
                l,
                utility,
                roots_of(l, utility),
                placed_listings(l, listings),
            );
            let below = candidates_in(l, utility, seq![hint], placed_listings(l, listings));
            let by_hint = locate_next(
                l,
                search(utility, LocatePhaseView::HintRoots { hint }),
                answer,
            ).1;
            &&& step.ask is CheckCandidates
            &&& step.ask->paths.len() == installed.len() + path_dirs.len()
            &&& 0 <= i < installed.len() ==> step.ask->paths[i] == installed[i].path
            &&& 0 <= i < path_dirs.len() ==> step.ask->paths[installed.len() + i] == child(
                l.host,
                resolved(l.host, l.work_dir, path_dirs[i]),
                executable_of(utility, l.host),
            )
            &&& below.len() == 0 ==> by_hint.ask is ListRoots && by_hint.ask->with_path
            &&& below.len() > 0 ==> by_hint.ask is CheckCandidates && by_hint.ask->paths.len()
                == below.len()
            &&& 0 <= i < below.len() ==> by_hint.ask->paths[i] == below[i].path
        }),
{
}

/// The candidate that is chosen is the answer and is remembered; where none can be, the utility was
/// not found, and nothing is.
pub proof fn chosen_candidate_is_the_answer(
    l: LocatorView,
    utility: UtilityType,
    candidates: Seq<CandidateView>,
    valid: Seq<bool>,
)
    ensures
        ({
            let (next, step) = locate_next(
                l,
                search(utility, LocatePhaseView::Candidates { candidates }),
                LocateAnswerView::Candidates { valid },
            );
            let choice = selection(utility, l.platform_version, candidates, valid);
            &&& choice is Ok ==> step.ask == (LocateAskView::Found { location: choice->Ok_0 })
                && next.cache == l.cache.insert(key_of(l, utility), choice->Ok_0)
            &&& choice is Err ==> step.ask == (LocateAskView::Failed {
                error: LocatorError::NotFound(utility),
            }) && next == l
            &&& step.run.phase is Over
        }),
{
}

} // verus!
