//! How a utility is located: the cache first, the hint next, the places of installation and the
//! search path last.
//!
//! The file system is asked by the caller: [`Locator::locate`] gives the first question, and
//! [`Locator::resume`] takes an answer and gives the next question or the end.

use vstd::prelude::*;
use crate::path::{
    child, is_absolute, path_child, path_resolve, resolved, resolved_path_is_absolute,
    HostPlatform,
};
use crate::platform::locator::{
    all_absolute, candidates_of_version, choice_is_valid, chosen_candidate, default_edt_roots,
    default_platform_roots, edt_candidates, edt_candidates_for_version, edt_roots_of,
    executable_of, infer_version, is_valid, lemma_candidates_of_version, lemma_edt_candidates,
    lemma_path_candidates, lemma_platform_candidates, path_by_absolute_hint_is_absolute,
    path_by_hint, path_candidates, path_candidates_of, platform_candidates,
    platform_candidates_any_version, platform_candidates_for_version, platform_roots_of,
    resolve_from_hint, roots_absolute, select_candidate, selection, sound, version_in_path,
    Candidate, CandidateView, HintFacts, LocatorError, RootListing, RootListingView,
    UtilityLocation, UtilityLocationView, UtilityType,
};
use crate::platform::version::{
    edt_version_text, version_text, EdtVersion, EdtVersionView, PlatformVersion,
};
use crate::text::{clone_opt, clone_texts, opt_text, opt_view, push_text, text_eq, texts, views};

verus! {

/// What a location is remembered by.
pub type LocationKey = (UtilityType, Option<Seq<char>>);

/// Location that is remembered.
#[derive(Debug, PartialEq, Eq)]
pub struct CachedLocation {
    pub utility: UtilityType,
    pub requirement: Option<String>,
    pub location: UtilityLocation,
}

impl CachedLocation {
    /// What the location is remembered by.
    pub open spec fn key(self) -> LocationKey {
        (self.utility, opt_text(self.requirement))
    }
}

/// Locations that the first `n` entries remember; of two for one key the later counts.
pub open spec fn remembered(entries: Seq<CachedLocation>, n: int) -> Map<
    LocationKey,
    UtilityLocationView,
>
    decreases n,
{
    if n <= 0 {
        Map::empty()
    } else {
        remembered(entries, n - 1).insert(entries[n - 1].key(), entries[n - 1].location@)
    }
}

/// Where utilities are looked for, and what was found.
#[derive(Debug)]
pub struct Locator {
    pub platform_hint: Option<String>,
    pub platform_version: Option<PlatformVersion>,
    pub edt_hint: Option<String>,
    pub edt_version: Option<EdtVersion>,
    pub cache: Vec<CachedLocation>,
    pub platform_roots: Vec<String>,
    pub edt_roots: Vec<String>,
    pub host: HostPlatform,
    /// Directory that relative paths are seen from.
    pub work_dir: String,
}

/// Mathematical value of [`Locator`].
pub struct LocatorView {
    pub platform_hint: Option<Seq<char>>,
    pub platform_version: Option<PlatformVersion>,
    pub edt_hint: Option<Seq<char>>,
    pub edt_version: Option<EdtVersionView>,
    pub cache: Map<LocationKey, UtilityLocationView>,
    pub platform_roots: Seq<Seq<char>>,
    pub edt_roots: Seq<Seq<char>>,
    pub host: HostPlatform,
    pub work_dir: Seq<char>,
}

impl View for Locator {
    type V = LocatorView;

    open spec fn view(&self) -> LocatorView {
        LocatorView {
            platform_hint: opt_text(self.platform_hint),
            platform_version: self.platform_version,
            edt_hint: opt_text(self.edt_hint),
            edt_version: opt_view(self.edt_version),
            cache: remembered(self.cache@, self.cache@.len() as int),
            platform_roots: texts(self.platform_roots@),
            edt_roots: texts(self.edt_roots@),
            host: self.host,
            work_dir: self.work_dir@,
        }
    }
}

/// Question about the file system, or the end.
#[derive(Debug, PartialEq, Eq)]
pub enum LocateAsk {
    /// Can the file be executed?
    CheckExecutable { path: String },
    /// Is the hint a file or a directory, and does `direct` exist?
    InspectHint { path: String, direct: String },
    /// Which directories lie below the roots, and, where asked for, what does the search path hold?
    ListRoots { roots: Vec<String>, with_path: bool },
    /// Which of the files can be executed?
    CheckCandidates { paths: Vec<String> },
    /// The utility was found.
    Found { location: UtilityLocation },
    /// The utility was not found.
    Failed { error: LocatorError },
    /// The answer belongs to another question.
    Repeat,
}

/// Mathematical value of [`LocateAsk`].
pub enum LocateAskView {
    CheckExecutable { path: Seq<char> },
    InspectHint { path: Seq<char>, direct: Seq<char> },
    ListRoots { roots: Seq<Seq<char>>, with_path: bool },
    CheckCandidates { paths: Seq<Seq<char>> },
    Found { location: UtilityLocationView },
    Failed { error: LocatorError },
    Repeat,
}

impl View for LocateAsk {
    type V = LocateAskView;

    open spec fn view(&self) -> LocateAskView {
        match *self {
            LocateAsk::CheckExecutable { path } => LocateAskView::CheckExecutable { path: path@ },
            LocateAsk::InspectHint { path, direct } => LocateAskView::InspectHint {
                path: path@,
                direct: direct@,
            },
            LocateAsk::ListRoots { roots, with_path } => LocateAskView::ListRoots {
                roots: texts(roots@),
                with_path,
            },
            LocateAsk::CheckCandidates { paths } => LocateAskView::CheckCandidates {
                paths: texts(paths@),
            },
            LocateAsk::Found { location } => LocateAskView::Found { location: location@ },
            LocateAsk::Failed { error } => LocateAskView::Failed { error },
            LocateAsk::Repeat => LocateAskView::Repeat,
        }
    }
}

/// Answer to a question.
#[derive(Debug, PartialEq, Eq)]
pub enum LocateAnswer {
    Executable { executable: bool },
    Hint { facts: HintFacts },
    Roots { listings: Vec<RootListing>, path_dirs: Vec<String> },
    Candidates { valid: Vec<bool> },
}

/// Mathematical value of [`LocateAnswer`].
pub enum LocateAnswerView {
    Executable { executable: bool },
    Hint { facts: HintFacts },
    Roots { listings: Seq<RootListingView>, path_dirs: Seq<Seq<char>> },
    Candidates { valid: Seq<bool> },
}

impl View for LocateAnswer {
    type V = LocateAnswerView;

    open spec fn view(&self) -> LocateAnswerView {
        match self {
            LocateAnswer::Executable { executable } => LocateAnswerView::Executable {
                executable: *executable,
            },
            LocateAnswer::Hint { facts } => LocateAnswerView::Hint { facts: *facts },
            LocateAnswer::Roots { listings, path_dirs } => LocateAnswerView::Roots {
                listings: views(listings@),
                path_dirs: texts(path_dirs@),
            },
            LocateAnswer::Candidates { valid } => LocateAnswerView::Candidates { valid: valid@ },
        }
    }
}

/// Question that waits for its answer.
#[derive(Debug, PartialEq, Eq)]
pub enum LocatePhase {
    Cached { location: UtilityLocation },
    Hint { hint: String },
    HintBinary { hint: String, candidate: String, is_dir: bool },
    HintRoots { hint: String },
    Roots,
    Candidates { candidates: Vec<Candidate> },
    Over,
}

/// Mathematical value of [`LocatePhase`].
pub enum LocatePhaseView {
    Cached { location: UtilityLocationView },
    Hint { hint: Seq<char> },
    HintBinary { hint: Seq<char>, candidate: Seq<char>, is_dir: bool },
    HintRoots { hint: Seq<char> },
    Roots,
    Candidates { candidates: Seq<CandidateView> },
    Over,
}

impl View for LocatePhase {
    type V = LocatePhaseView;

    open spec fn view(&self) -> LocatePhaseView {
        match *self {
            LocatePhase::Cached { location } => LocatePhaseView::Cached { location: location@ },
            LocatePhase::Hint { hint } => LocatePhaseView::Hint { hint: hint@ },
            LocatePhase::HintBinary { hint, candidate, is_dir } => LocatePhaseView::HintBinary {
                hint: hint@,
                candidate: candidate@,
                is_dir,
            },
            LocatePhase::HintRoots { hint } => LocatePhaseView::HintRoots { hint: hint@ },
            LocatePhase::Roots => LocatePhaseView::Roots,
            LocatePhase::Candidates { candidates } => LocatePhaseView::Candidates {
                candidates: views(candidates@),
            },
            LocatePhase::Over => LocatePhaseView::Over,
        }
    }
}

/// Search for one utility.
#[derive(Debug, PartialEq, Eq)]
pub struct LocateRun {
    pub utility: UtilityType,
    pub phase: LocatePhase,
}

/// Mathematical value of [`LocateRun`].
pub struct LocateRunView {
    pub utility: UtilityType,
    pub phase: LocatePhaseView,
}

impl View for LocateRun {
    type V = LocateRunView;

    open spec fn view(&self) -> LocateRunView {
        LocateRunView {
            utility: self.utility,
            phase: self.phase@,
        }
    }
}

/// Search and its question.
#[derive(Debug, PartialEq, Eq)]
pub struct LocateStep {
    pub run: LocateRun,
    pub ask: LocateAsk,
}

/// Mathematical value of [`LocateStep`].
pub struct LocateStepView {
    pub run: LocateRunView,
    pub ask: LocateAskView,
}

impl View for LocateStep {
    type V = LocateStepView;

    open spec fn view(&self) -> LocateStepView {
        LocateStepView {
            run: self.run@,
            ask: self.ask@,
        }
    }
}

// ---------------------------------------------------------------------------------------------
// What a search does

/// Version that is asked for, as text.
pub open spec fn requirement_of(l: LocatorView, utility: UtilityType) -> Option<Seq<char>> {
    if utility is EdtCli {
        match l.edt_version {
            Some(version) => Some(edt_version_text(version)),
            None => None,
        }
    } else {
        match l.platform_version {
            Some(version) => Some(version_text(version)),
            None => None,
        }
    }
}

/// What the location of a utility is remembered by.
pub open spec fn key_of(l: LocatorView, utility: UtilityType) -> LocationKey {
    (utility, requirement_of(l, utility))
}

/// The place that a path names, seen from the working directory.
pub open spec fn placed(l: LocatorView, path: Seq<char>) -> Seq<char> {
    resolved(l.host, l.work_dir, path)
}

/// The places that the paths name.
pub open spec fn all_placed(l: LocatorView, paths: Seq<Seq<char>>) -> Seq<Seq<char>> {
    let host = l.host;
    let work_dir = l.work_dir;
    paths.map_values(|path: Seq<char>| resolved(host, work_dir, path))
}

/// The listings of the places that the roots name.
pub open spec fn placed_listings(l: LocatorView, listings: Seq<RootListingView>) -> Seq<
    RootListingView,
> {
    let host = l.host;
    let work_dir = l.work_dir;
    listings.map_values(
        |listing: RootListingView|
            RootListingView {
                root: resolved(host, work_dir, listing.root),
                dirs: listing.dirs,
            },
    )
}

/// Hint for a utility.
pub open spec fn hint_of(l: LocatorView, utility: UtilityType) -> Option<Seq<char>> {
    let hint = if utility is EdtCli {
        l.edt_hint
    } else {
        l.platform_hint
    };
    match hint {
        Some(path) => Some(placed(l, path)),
        None => None,
    }
}

/// Places where a utility is installed.
pub open spec fn roots_of(l: LocatorView, utility: UtilityType) -> Seq<Seq<char>> {
    all_placed(
        l,
        if utility is EdtCli {
            l.edt_roots
        } else {
            l.platform_roots
        },
    )
}

/// The directory of the utility follows from the version that is asked for.
pub open spec fn is_exact(l: LocatorView, utility: UtilityType) -> bool {
    !(utility is EdtCli) && l.platform_version is Some
}

/// Candidates below the roots.
pub open spec fn candidates_in(
    l: LocatorView,
    utility: UtilityType,
    roots: Seq<Seq<char>>,
    listings: Seq<RootListingView>,
) -> Seq<CandidateView> {
    let name = executable_of(utility, l.host);
    if utility is EdtCli {
        edt_candidates(l.host, name, l.edt_version, listings, listings.len() as int)
    } else {
        match l.platform_version {
            Some(version) => candidates_of_version(l.host, name, version, roots, roots.len() as int),
            None => platform_candidates(l.host, name, listings, listings.len() as int),
        }
    }
}

/// Paths of the candidates.
pub open spec fn paths_of(candidates: Seq<CandidateView>) -> Seq<Seq<char>> {
    candidates.map_values(|c: CandidateView| c.path)
}

/// Search with its question.
pub open spec fn step_of(
    utility: UtilityType,
    phase: LocatePhaseView,
    ask: LocateAskView,
) -> LocateStepView {
    LocateStepView { run: LocateRunView { utility, phase }, ask }
}

/// Choice among the candidates.
pub open spec fn candidates_stage(
    utility: UtilityType,
    candidates: Seq<CandidateView>,
) -> LocateStepView {
    step_of(
        utility,
        LocatePhaseView::Candidates { candidates },
        LocateAskView::CheckCandidates { paths: paths_of(candidates) },
    )
}

/// Search in the places of installation and in the search path.
pub open spec fn roots_stage(l: LocatorView, utility: UtilityType) -> LocateStepView {
    step_of(
        utility,
        LocatePhaseView::Roots,
        LocateAskView::ListRoots {
            roots: if is_exact(l, utility) {
                Seq::empty()
            } else {
                roots_of(l, utility)
            },
            with_path: true,
        },
    )
}

/// Search below the hint, which counts where it is a directory.
pub open spec fn hint_roots_stage(
    l: LocatorView,
    utility: UtilityType,
    hint: Seq<char>,
    is_dir: bool,
) -> LocateStepView {
    if !is_dir {
        roots_stage(l, utility)
    } else if is_exact(l, utility) {
        candidates_stage(utility, candidates_in(l, utility, seq![hint], Seq::empty()))
    } else {
        step_of(
            utility,
            LocatePhaseView::HintRoots { hint },
            LocateAskView::ListRoots { roots: seq![hint], with_path: false },
        )
    }
}

/// Search by the hint.
pub open spec fn hint_stage(l: LocatorView, utility: UtilityType) -> LocateStepView {
    match hint_of(l, utility) {
        Some(hint) => step_of(
            utility,
            LocatePhaseView::Hint { hint },
            LocateAskView::InspectHint {
                path: hint,
                direct: child(l.host, hint, executable_of(utility, l.host)),
            },
        ),
        None => roots_stage(l, utility),
    }
}

/// First question of a search.
pub open spec fn locate_start(l: LocatorView, utility: UtilityType) -> LocateStepView {
    let key = key_of(l, utility);
    if l.cache.dom().contains(key) {
        step_of(
            utility,
            LocatePhaseView::Cached { location: l.cache[key] },
            LocateAskView::CheckExecutable { path: l.cache[key].path },
        )
    } else {
        hint_stage(l, utility)
    }
}

/// End of a search that found the utility.
pub open spec fn found(utility: UtilityType, location: UtilityLocationView) -> LocateStepView {
    step_of(utility, LocatePhaseView::Over, LocateAskView::Found { location })
}

/// The locator with its cache changed.
pub open spec fn with_cache(
    l: LocatorView,
    cache: Map<LocationKey, UtilityLocationView>,
) -> LocatorView {
    LocatorView { cache, ..l }
}

/// The locator after the location was found.
pub open spec fn remembering(
    l: LocatorView,
    utility: UtilityType,
    location: UtilityLocationView,
) -> LocatorView {
    with_cache(l, l.cache.insert(key_of(l, utility), location))
}

/// The locator without what it remembers of the utility.
pub open spec fn forgetting(l: LocatorView, utility: UtilityType) -> LocatorView {
    with_cache(l, l.cache.remove(key_of(l, utility)))
}

/// What follows an answer: the locator afterwards, and the next question.
pub open spec fn locate_next(
    l: LocatorView,
    run: LocateRunView,
    answer: LocateAnswerView,
) -> (LocatorView, LocateStepView) {
    let utility = run.utility;
    match (run.phase, answer) {
        (LocatePhaseView::Cached { location }, LocateAnswerView::Executable { executable: valid }) => if valid {
            (l, found(utility, location))
        } else {
            (forgetting(l, utility), hint_stage(l, utility))
        },
        (LocatePhaseView::Hint { hint }, LocateAnswerView::Hint { facts }) => match path_by_hint(
            hint,
            facts,
            utility,
            l.host,
        ) {
            Some(candidate) => (
                l,
                step_of(
                    utility,
                    LocatePhaseView::HintBinary { hint, candidate, is_dir: facts.is_dir },
                    LocateAskView::CheckExecutable { path: candidate },
                ),
            ),
            None => (l, hint_roots_stage(l, utility, hint, facts.is_dir)),
        },
        (
            LocatePhaseView::HintBinary { hint, candidate, is_dir },
            LocateAnswerView::Executable { executable: valid },
        ) => if valid {
            let location = UtilityLocationView {
                utility,
                path: candidate,
                version: version_in_path(utility, candidate, l.host),
            };
            (remembering(l, utility, location), found(utility, location))
        } else {
            (l, hint_roots_stage(l, utility, hint, is_dir))
        },
        (
            LocatePhaseView::HintRoots { hint },
            LocateAnswerView::Roots { listings, path_dirs },
        ) => {
            let candidates = candidates_in(
                l,
                utility,
                seq![hint],
                placed_listings(l, listings),
            );
            if candidates.len() == 0 {
                (l, roots_stage(l, utility))
            } else {
                (l, candidates_stage(utility, candidates))
            }
        },
        (LocatePhaseView::Roots, LocateAnswerView::Roots { listings, path_dirs }) => (
            l,
            candidates_stage(
                utility,
                candidates_in(
                    l,
                    utility,
                    roots_of(l, utility),
                    placed_listings(l, listings),
                ) + path_candidates_of(utility, l.host, all_placed(l, path_dirs)),
            ),
        ),
        (
            LocatePhaseView::Candidates { candidates },
            LocateAnswerView::Candidates { valid },
        ) => match selection(utility, l.platform_version, candidates, valid) {
            Ok(location) => (remembering(l, utility, location), found(utility, location)),
            Err(error) => (
                l,
                step_of(utility, LocatePhaseView::Over, LocateAskView::Failed { error }),
            ),
        },
        _ => (l, LocateStepView { run, ask: LocateAskView::Repeat }),
    }
}

/// What holds of a locator at all times: it works in an absolute directory, and what it remembers
/// is absolute and filed under its utility.
pub open spec fn is_placed(l: LocatorView) -> bool {
    &&& is_absolute(l.host, l.work_dir)
    &&& forall|key: LocationKey|
        l.cache.dom().contains(key) ==> is_absolute(l.host, (#[trigger] l.cache[key]).path)
            && l.cache[key].utility == key.0
}

/// What holds of a search at all times: the paths it goes by are absolute, and its candidates have
/// versions of the kind that the utility has.
pub open spec fn run_is_placed(l: LocatorView, run: LocateRunView) -> bool {
    match run.phase {
        LocatePhaseView::Cached { location } => is_absolute(l.host, location.path)
            && location.utility == run.utility,
        LocatePhaseView::Hint { hint } => is_absolute(l.host, hint),
        LocatePhaseView::HintBinary { hint, candidate, is_dir } => is_absolute(l.host, hint)
            && is_absolute(l.host, candidate),
        LocatePhaseView::HintRoots { hint } => is_absolute(l.host, hint),
        LocatePhaseView::Candidates { candidates } => sound(l.host, run.utility, candidates),
        LocatePhaseView::Roots | LocatePhaseView::Over => true,
    }
}

/// What holds of a step: its search is one for the utility, and a location that it finds is that of
/// the utility, at an absolute path.
pub open spec fn step_is_placed(
    l: LocatorView,
    step: LocateStepView,
    utility: UtilityType,
) -> bool {
    &&& run_is_placed(l, step.run)
    &&& step.run.utility == utility
    &&& step.ask matches LocateAskView::Found { location } ==> is_absolute(l.host, location.path)
        && location.utility == utility
}

// ---------------------------------------------------------------------------------------------
// The cache

proof fn lemma_remembered_push(entries: Seq<CachedLocation>, more: CachedLocation, n: int)
    requires
        0 <= n <= entries.len(),
    ensures
        remembered(entries.push(more), n) == remembered(entries, n),
    decreases n,
{
    if n > 0 {
        lemma_remembered_push(entries, more, n - 1);
    }
}

fn same_opt(a: &Option<String>, b: &Option<String>) -> (r: bool)
    ensures
        r == (opt_text(*a) == opt_text(*b)),
{
    match (a, b) {
        (Some(x), Some(y)) => text_eq(x.as_str(), y.as_str()),
        (None, None) => true,
        _ => false,
    }
}

fn cached_location(
    entries: &Vec<CachedLocation>,
    utility: UtilityType,
    requirement: &Option<String>,
) -> (r: Option<UtilityLocation>)
    ensures
        ({
            let all = remembered(entries@, entries@.len() as int);
            let key = (utility, opt_text(*requirement));
            match r {
                Some(location) => all.dom().contains(key) && location@ == all[key],
                None => !all.dom().contains(key),
            }
        }),
{
    let ghost all = remembered(entries@, entries@.len() as int);
    let ghost key = (utility, opt_text(*requirement));
    let mut n: usize = entries.len();
    while n > 0
        invariant
            n <= entries.len(),
            key == (utility, opt_text(*requirement)),
            all == remembered(entries@, entries@.len() as int),
            all.dom().contains(key) <==> remembered(entries@, n as int).dom().contains(key),
            all.dom().contains(key) ==> all[key] == remembered(entries@, n as int)[key],
        decreases n,
    {
        let entry = &entries[n - 1];
        if entry.utility == utility && same_opt(&entry.requirement, requirement) {
            return Some(entry.location.clone());
        }
        n -= 1;
    }
    None
}

fn without_location(
    entries: Vec<CachedLocation>,
    utility: UtilityType,
    requirement: &Option<String>,
) -> (r: Vec<CachedLocation>)
    ensures
        remembered(r@, r@.len() as int) == remembered(entries@, entries@.len() as int).remove(
            (utility, opt_text(*requirement)),
        ),
{
    let ghost key = (utility, opt_text(*requirement));
    let mut out: Vec<CachedLocation> = Vec::new();
    let mut i: usize = 0;
    assert(remembered(out@, 0) =~= remembered(entries@, 0).remove(key));
    while i < entries.len()
        invariant
            i <= entries.len(),
            key == (utility, opt_text(*requirement)),
            remembered(out@, out@.len() as int) == remembered(entries@, i as int).remove(key),
        decreases entries.len() - i,
    {
        let entry = &entries[i];
        let ghost before = remembered(entries@, i as int);
        let ghost kept = out@;
        if entry.utility == utility && same_opt(&entry.requirement, requirement) {
            assert(before.insert(key, entry.location@).remove(key) =~= before.remove(key));
        } else {
            let copy = CachedLocation {
                utility: entry.utility,
                requirement: clone_opt(&entry.requirement),
                location: entry.location.clone(),
            };
            out.push(copy);
            proof {
                lemma_remembered_push(kept, copy, kept.len() as int);
            }
            assert(before.insert(entry.key(), entry.location@).remove(key) =~= before.remove(
                key,
            ).insert(entry.key(), entry.location@));
        }
        i += 1;
    }
    out
}

// ---------------------------------------------------------------------------------------------
// The locator

fn one_text(text: &str) -> (r: Vec<String>)
    ensures
        texts(r@) == seq![text@],
{
    let mut list: Vec<String> = Vec::new();
    push_text(&mut list, text);
    assert(texts(list@) =~= seq![text@]);
    list
}

fn candidate_paths(candidates: &Vec<Candidate>) -> (r: Vec<String>)
    ensures
        texts(r@) == paths_of(views(candidates@)),
{
    let ghost all = paths_of(views(candidates@));
    let mut out: Vec<String> = Vec::new();
    let mut i: usize = 0;
    assert(texts(out@) =~= all.take(0));
    while i < candidates.len()
        invariant
            i <= candidates.len(),
            all == paths_of(views(candidates@)),
            texts(out@) == all.take(i as int),
        decreases candidates.len() - i,
    {
        push_text(&mut out, candidates[i].path.as_str());
        assert(all.take(i + 1) =~= all.take(i as int).push(candidates@[i as int]@.path));
        i += 1;
    }
    assert(all.take(all.len() as int) =~= all);
    out
}

fn make_candidates_stage(utility: UtilityType, candidates: Vec<Candidate>) -> (r: LocateStep)
    ensures
        r@ == candidates_stage(utility, views(candidates@)),
{
    let paths = candidate_paths(&candidates);
    LocateStep {
        run: LocateRun { utility, phase: LocatePhase::Candidates { candidates } },
        ask: LocateAsk::CheckCandidates { paths },
    }
}

fn make_found(utility: UtilityType, location: UtilityLocation) -> (r: LocateStep)
    ensures
        r@ == found(utility, location@),
{
    LocateStep {
        run: LocateRun { utility, phase: LocatePhase::Over },
        ask: LocateAsk::Found { location },
    }
}

impl Locator {
    /// Locator that looks in the places where the system installs programs.
    pub fn new(
        platform_hint: Option<String>,
        platform_version: Option<PlatformVersion>,
        edt_hint: Option<String>,
        edt_version: Option<EdtVersion>,
        host: HostPlatform,
        work_dir: String,
    ) -> (r: Self)
        requires
            is_absolute(host, work_dir@),
        ensures
            is_placed(r@),
            r@ == (LocatorView {
                platform_hint: opt_text(platform_hint),
                platform_version,
                edt_hint: opt_text(edt_hint),
                edt_version: opt_view(edt_version),
                cache: Map::empty(),
                platform_roots: platform_roots_of(host),
                edt_roots: edt_roots_of(host),
                host,
                work_dir: work_dir@,
            }),
    {
        Locator::with_roots(
            platform_hint,
            platform_version,
            edt_hint,
            edt_version,
            default_platform_roots(host),
            default_edt_roots(host),
            host,
            work_dir,
        )
    }

    /// Locator that looks in the given places.
    pub fn with_roots(
        platform_hint: Option<String>,
        platform_version: Option<PlatformVersion>,
        edt_hint: Option<String>,
        edt_version: Option<EdtVersion>,
        platform_roots: Vec<String>,
        edt_roots: Vec<String>,
        host: HostPlatform,
        work_dir: String,
    ) -> (r: Self)
        requires
            is_absolute(host, work_dir@),
        ensures
            is_placed(r@),
            r@ == (LocatorView {
                platform_hint: opt_text(platform_hint),
                platform_version,
                edt_hint: opt_text(edt_hint),
                edt_version: opt_view(edt_version),
                cache: Map::empty(),
                platform_roots: texts(platform_roots@),
                edt_roots: texts(edt_roots@),
                host,
                work_dir: work_dir@,
            }),
    {
        Locator {
            platform_hint,
            platform_version,
            edt_hint,
            edt_version,
            cache: Vec::new(),
            platform_roots,
            edt_roots,
            host,
            work_dir,
        }
    }

    /// Version that is asked for, as text.
    pub fn version_requirement_string(&self, utility: UtilityType) -> (r: Option<String>)
        ensures
            opt_text(r) == requirement_of(self@, utility),
    {
        if utility.is_platform() {
            match self.platform_version {
                Some(version) => Some(version.text()),
                None => None,
            }
        } else {
            match &self.edt_version {
                Some(version) => Some(version.text()),
                None => None,
            }
        }
    }

    fn hint(&self, utility: UtilityType) -> (r: Option<String>)
        ensures
            opt_text(r) == hint_of(self@, utility),
    {
        let hint = if utility.is_platform() {
            &self.platform_hint
        } else {
            &self.edt_hint
        };
        match hint {
            Some(path) => Some(self.place(path.as_str())),
            None => None,
        }
    }

    fn place(&self, path: &str) -> (r: String)
        ensures
            r@ == placed(self@, path@),
    {
        path_resolve(self.host, self.work_dir.as_str(), path)
    }

    fn place_all(&self, paths: &Vec<String>) -> (r: Vec<String>)
        ensures
            texts(r@) == all_placed(self@, texts(paths@)),
    {
        let ghost all = all_placed(self@, texts(paths@));
        let mut out: Vec<String> = Vec::new();
        let mut i: usize = 0;
        assert(texts(out@) =~= all.take(0));
        while i < paths.len()
            invariant
                i <= paths.len(),
                all == all_placed(self@, texts(paths@)),
                texts(out@) == all.take(i as int),
            decreases paths.len() - i,
        {
            let place = self.place(paths[i].as_str());
            push_text(&mut out, place.as_str());
            assert(all.take(i + 1) =~= all.take(i as int).push(all[i as int]));
            i += 1;
        }
        assert(all.take(all.len() as int) =~= all);
        out
    }

    fn place_listings(&self, listings: &Vec<RootListing>) -> (r: Vec<RootListing>)
        ensures
            views(r@) == placed_listings(self@, views(listings@)),
    {
        let ghost all = placed_listings(self@, views(listings@));
        let mut out: Vec<RootListing> = Vec::new();
        let mut i: usize = 0;
        assert(views(out@) =~= all.take(0));
        while i < listings.len()
            invariant
                i <= listings.len(),
                all == placed_listings(self@, views(listings@)),
                views(out@) == all.take(i as int),
            decreases listings.len() - i,
        {
            let ghost before = views(out@);
            let listing = RootListing {
                root: self.place(listings[i].root.as_str()),
                dirs: clone_texts(&listings[i].dirs),
            };
            out.push(listing);
            assert(views(out@) =~= before.push(all[i as int]));
            assert(all.take(i + 1) =~= all.take(i as int).push(all[i as int]));
            i += 1;
        }
        assert(all.take(all.len() as int) =~= all);
        out
    }

    fn roots(&self, utility: UtilityType) -> (r: Vec<String>)
        ensures
            texts(r@) == roots_of(self@, utility),
    {
        if utility.is_platform() {
            self.place_all(&self.platform_roots)
        } else {
            self.place_all(&self.edt_roots)
        }
    }

    fn exact(&self, utility: UtilityType) -> (r: bool)
        ensures
            r == is_exact(self@, utility),
    {
        utility.is_platform() && self.platform_version.is_some()
    }

    fn make_candidates(
        &self,
        utility: UtilityType,
        roots: &Vec<String>,
        listings: &Vec<RootListing>,
    ) -> (r: Vec<Candidate>)
        ensures
            views(r@) == candidates_in(self@, utility, texts(roots@), views(listings@)),
    {
        if utility.is_platform() {
            match self.platform_version {
                Some(version) => platform_candidates_for_version(
                    utility,
                    self.host,
                    version,
                    roots,
                ),
                None => platform_candidates_any_version(utility, self.host, listings),
            }
        } else {
            edt_candidates_for_version(utility, self.host, &self.edt_version, listings)
        }
    }

    /// Candidates in the places of installation and in the search path.
    pub fn search_candidates(
        &self,
        utility: UtilityType,
        listings: &Vec<RootListing>,
        path_dirs: &Vec<String>,
    ) -> (r: Vec<Candidate>)
        ensures
            views(r@) == candidates_in(
                self@,
                utility,
                roots_of(self@, utility),
                placed_listings(self@, views(listings@)),
            ) + path_candidates_of(utility, self.host, all_placed(self@, texts(path_dirs@))),
    {
        let roots = self.roots(utility);
        let listings = self.place_listings(listings);
        let mut candidates = self.make_candidates(utility, &roots, &listings);
        let ghost first = views(candidates@);
        let path_dirs = self.place_all(path_dirs);
        let mut more = path_candidates(utility, self.host, &path_dirs);
        let ghost second = views(more@);
        candidates.append(&mut more);
        assert(views(candidates@) =~= first + second);
        candidates
    }

    /// Candidates below the hint.
    pub fn search_hint_candidates(
        &self,
        utility: UtilityType,
        hint: &str,
        listings: &Vec<RootListing>,
    ) -> (r: Vec<Candidate>)
        ensures
            views(r@) == candidates_in(
                self@,
                utility,
                seq![hint@],
                placed_listings(self@, views(listings@)),
            ),
    {
        let roots = one_text(hint);
        let listings = self.place_listings(listings);
        self.make_candidates(utility, &roots, &listings)
    }

    fn start_roots(&self, utility: UtilityType) -> (r: LocateStep)
        ensures
            r@ == roots_stage(self@, utility),
    {
        let roots: Vec<String> = if self.exact(utility) {
            Vec::new()
        } else {
            self.roots(utility)
        };
        assert(is_exact(self@, utility) ==> texts(roots@) =~= Seq::<Seq<char>>::empty());
        LocateStep {
            run: LocateRun { utility, phase: LocatePhase::Roots },
            ask: LocateAsk::ListRoots { roots, with_path: true },
        }
    }

    fn start_hint_roots(&self, utility: UtilityType, hint: String, is_dir: bool) -> (r: LocateStep)
        ensures
            r@ == hint_roots_stage(self@, utility, hint@, is_dir),
    {
        if !is_dir {
            return self.start_roots(utility);
        }
        if self.exact(utility) {
            let none: Vec<RootListing> = Vec::new();
            assert(placed_listings(self@, views(none@)) =~= Seq::<RootListingView>::empty());
            let candidates = self.search_hint_candidates(utility, hint.as_str(), &none);
            return make_candidates_stage(utility, candidates);
        }
        let roots = one_text(hint.as_str());
        LocateStep {
            run: LocateRun { utility, phase: LocatePhase::HintRoots { hint } },
            ask: LocateAsk::ListRoots { roots, with_path: false },
        }
    }

    fn start_hint(&self, utility: UtilityType) -> (r: LocateStep)
        ensures
            r@ == hint_stage(self@, utility),
    {
        match self.hint(utility) {
            Some(hint) => {
                let direct = path_child(
                    self.host,
                    hint.as_str(),
                    utility.executable_name(self.host),
                );
                let path = hint.clone();
                LocateStep {
                    run: LocateRun { utility, phase: LocatePhase::Hint { hint } },
                    ask: LocateAsk::InspectHint { path, direct },
                }
            },
            None => self.start_roots(utility),
        }
    }

    fn remember(&mut self, utility: UtilityType, location: &UtilityLocation)
        ensures
            final(self)@ == remembering(old(self)@, utility, location@),
    {
        let ghost before = self.cache@;
        let entry = CachedLocation {
            utility,
            requirement: self.version_requirement_string(utility),
            location: location.clone(),
        };
        self.cache.push(entry);
        proof {
            lemma_remembered_push(before, entry, before.len() as int);
        }
    }

    fn forget(&mut self, utility: UtilityType)
        ensures
            final(self)@ == forgetting(old(self)@, utility),
    {
        let requirement = self.version_requirement_string(utility);
        let mut entries: Vec<CachedLocation> = Vec::new();
        std::mem::swap(&mut entries, &mut self.cache);
        self.cache = without_location(entries, utility, &requirement);
    }

    /// First question of a search for a utility.
    pub fn locate(&self, utility: UtilityType) -> (r: LocateStep)
        requires
            is_placed(self@),
        ensures
            r@ == locate_start(self@, utility),
            step_is_placed(self@, r@, utility),
    {
        proof {
            search_begins_sound(self@, utility);
        }
        let requirement = self.version_requirement_string(utility);
        match cached_location(&self.cache, utility, &requirement) {
            Some(location) => {
                let path = location.path.clone();
                LocateStep {
                    run: LocateRun { utility, phase: LocatePhase::Cached { location } },
                    ask: LocateAsk::CheckExecutable { path },
                }
            },
            None => self.start_hint(utility),
        }
    }

    /// What follows an answer.
    pub fn resume(&mut self, run: LocateRun, answer: LocateAnswer) -> (r: LocateStep)
        requires
            is_placed(old(self)@),
            run_is_placed(old(self)@, run@),
        ensures
            (final(self)@, r@) == locate_next(old(self)@, run@, answer@),
            is_placed(final(self)@),
            step_is_placed(final(self)@, r@, run@.utility),
    {
        proof {
            found_path_is_absolute(self@, run@, answer@);
        }
        let utility = run.utility;
        match (run.phase, answer) {
            (LocatePhase::Cached { location }, LocateAnswer::Executable { executable: valid }) => {
                if valid {
                    return make_found(utility, location);
                }
                let step = self.start_hint(utility);
                self.forget(utility);
                step
            },
            (LocatePhase::Hint { hint }, LocateAnswer::Hint { facts }) => {
                match resolve_from_hint(hint.as_str(), facts, utility, self.host) {
                    Some(candidate) => {
                        let path = candidate.clone();
                        LocateStep {
                            run: LocateRun {
                                utility,
                                phase: LocatePhase::HintBinary {
                                    hint,
                                    candidate,
                                    is_dir: facts.is_dir,
                                },
                            },
                            ask: LocateAsk::CheckExecutable { path },
                        }
                    },
                    None => self.start_hint_roots(utility, hint, facts.is_dir),
                }
            },
            (
                LocatePhase::HintBinary { hint, candidate, is_dir },
                LocateAnswer::Executable { executable: valid },
            ) => {
                if valid {
                    let version = infer_version(utility, candidate.as_str(), self.host);
                    let location = UtilityLocation { utility, path: candidate, version };
                    self.remember(utility, &location);
                    make_found(utility, location)
                } else {
                    self.start_hint_roots(utility, hint, is_dir)
                }
            },
            (LocatePhase::HintRoots { hint }, LocateAnswer::Roots { listings, path_dirs }) => {
                let candidates = self.search_hint_candidates(utility, hint.as_str(), &listings);
                assert(views(candidates@).len() == candidates@.len());
                if candidates.len() == 0 {
                    self.start_roots(utility)
                } else {
                    make_candidates_stage(utility, candidates)
                }
            },
            (LocatePhase::Roots, LocateAnswer::Roots { listings, path_dirs }) => {
                let candidates = self.search_candidates(utility, &listings, &path_dirs);
                make_candidates_stage(utility, candidates)
            },
            (LocatePhase::Candidates { candidates }, LocateAnswer::Candidates { valid }) => {
                match select_candidate(utility, self.platform_version, &candidates, &valid) {
                    Ok(location) => {
                        self.remember(utility, &location);
                        make_found(utility, location)
                    },
                    Err(error) => LocateStep {
                        run: LocateRun { utility, phase: LocatePhase::Over },
                        ask: LocateAsk::Failed { error },
                    },
                }
            },
            (phase, _) => LocateStep {
                run: LocateRun { utility, phase },
                ask: LocateAsk::Repeat,
            },
        }
    }
}

// ---------------------------------------------------------------------------------------------
// Laws

proof fn lemma_placed_listings(l: LocatorView, listings: Seq<RootListingView>)
    requires
        is_absolute(l.host, l.work_dir),
    ensures
        roots_absolute(l.host, placed_listings(l, listings)),
{
    let all = placed_listings(l, listings);
    assert forall|i: int| 0 <= i < all.len() implies is_absolute(l.host, (#[trigger] all[i]).root) by {
        resolved_path_is_absolute(l.host, l.work_dir, listings[i].root);
    }
}

proof fn lemma_all_placed(l: LocatorView, paths: Seq<Seq<char>>)
    requires
        is_absolute(l.host, l.work_dir),
    ensures
        all_absolute(l.host, all_placed(l, paths)),
{
    let all = all_placed(l, paths);
    assert forall|i: int| 0 <= i < all.len() implies is_absolute(l.host, #[trigger] all[i]) by {
        resolved_path_is_absolute(l.host, l.work_dir, paths[i]);
    }
}

proof fn lemma_candidates_sound(
    l: LocatorView,
    utility: UtilityType,
    roots: Seq<Seq<char>>,
    listings: Seq<RootListingView>,
)
    requires
        all_absolute(l.host, roots),
        roots_absolute(l.host, listings),
    ensures
        sound(l.host, utility, candidates_in(l, utility, roots, listings)),
{
    let name = executable_of(utility, l.host);
    if utility is EdtCli {
        lemma_edt_candidates(l.host, name, l.edt_version, listings, listings.len() as int);
    } else {
        match l.platform_version {
            Some(version) => lemma_candidates_of_version(
                l.host,
                utility,
                name,
                version,
                roots,
                roots.len() as int,
            ),
            None => lemma_platform_candidates(
                l.host,
                utility,
                name,
                listings,
                listings.len() as int,
            ),
        }
    }
}

proof fn lemma_hint_roots_sound(
    l: LocatorView,
    utility: UtilityType,
    hint: Seq<char>,
    is_dir: bool,
)
    requires
        is_placed(l),
        is_absolute(l.host, hint),
    ensures
        step_is_placed(l, hint_roots_stage(l, utility, hint, is_dir), utility),
{
    lemma_candidates_sound(l, utility, seq![hint], Seq::empty());
}

proof fn lemma_hint_sound(l: LocatorView, utility: UtilityType)
    requires
        is_placed(l),
    ensures
        step_is_placed(l, hint_stage(l, utility), utility),
{
    let raw = if utility is EdtCli {
        l.edt_hint
    } else {
        l.platform_hint
    };
    if let Some(path) = raw {
        resolved_path_is_absolute(l.host, l.work_dir, path);
    }
}

/// A search begins with absolute paths.
pub proof fn search_begins_sound(l: LocatorView, utility: UtilityType)
    requires
        is_placed(l),
    ensures
        step_is_placed(l, locate_start(l, utility), utility),
{
    lemma_hint_sound(l, utility);
}

/// A search goes on with absolute paths, and what it finds is the utility that was searched for, at
/// an absolute path.
pub proof fn found_path_is_absolute(l: LocatorView, run: LocateRunView, answer: LocateAnswerView)
    requires
        is_placed(l),
        run_is_placed(l, run),
    ensures
        is_placed(locate_next(l, run, answer).0),
        step_is_placed(
            locate_next(l, run, answer).0,
            locate_next(l, run, answer).1,
            run.utility,
        ),
{
    let utility = run.utility;
    match (run.phase, answer) {
        (LocatePhaseView::Cached { location }, LocateAnswerView::Executable { executable }) => {
            lemma_hint_sound(l, utility);
        },
        (LocatePhaseView::Hint { hint }, LocateAnswerView::Hint { facts }) => {
            if path_by_hint(hint, facts, utility, l.host) is Some {
                path_by_absolute_hint_is_absolute(hint, facts, utility, l.host);
            }
            lemma_hint_roots_sound(l, utility, hint, facts.is_dir);
        },
        (
            LocatePhaseView::HintBinary { hint, candidate, is_dir },
            LocateAnswerView::Executable { executable },
        ) => {
            lemma_hint_roots_sound(l, utility, hint, is_dir);
        },
        (LocatePhaseView::HintRoots { hint }, LocateAnswerView::Roots { listings, path_dirs }) => {
            lemma_placed_listings(l, listings);
            lemma_candidates_sound(l, utility, seq![hint], placed_listings(l, listings));
        },
        (LocatePhaseView::Roots, LocateAnswerView::Roots { listings, path_dirs }) => {
            lemma_placed_listings(l, listings);
            lemma_all_placed(
                l,
                if utility is EdtCli {
                    l.edt_roots
                } else {
                    l.platform_roots
                },
            );
            lemma_all_placed(l, path_dirs);
            lemma_candidates_sound(
                l,
                utility,
                roots_of(l, utility),
                placed_listings(l, listings),
            );
            lemma_path_candidates(utility, l.host, all_placed(l, path_dirs));
        },
        (
            LocatePhaseView::Candidates { candidates },
            LocateAnswerView::Candidates { valid },
        ) => {
            if chosen_candidate(utility, l.platform_version, candidates, valid) is Some {
                choice_is_valid(utility, l.platform_version, candidates, valid);
                let i = choose|i: int|
                    0 <= i < candidates.len() && #[trigger] is_valid(valid, i) && candidates[i]
                        == chosen_candidate(utility, l.platform_version, candidates, valid)->0;
                assert(is_absolute(l.host, candidates[i].path));
            }
        },
        _ => {},
    }
}

/// Nothing is found that was not seen to be executable: the answer confirms the very file.
pub proof fn found_file_was_seen(l: LocatorView, run: LocateRunView, answer: LocateAnswerView)
    requires
        locate_next(l, run, answer).1.ask is Found,
    ensures
        ({
            let path = locate_next(l, run, answer).1.ask->Found_location.path;
            match (run.phase, answer) {
                (LocatePhaseView::Cached { location }, LocateAnswerView::Executable { executable: valid }) =>
                    valid && location.path == path,
                (
                    LocatePhaseView::HintBinary { candidate, .. },
                    LocateAnswerView::Executable { executable: valid },
                ) => valid && candidate == path,
                (
                    LocatePhaseView::Candidates { candidates },
                    LocateAnswerView::Candidates { valid },
                ) => exists|i: int|
                    0 <= i < candidates.len() && #[trigger] is_valid(valid, i)
                        && candidates[i].path == path,
                _ => false,
            }
        }),
{
    if let (LocatePhaseView::Candidates { candidates }, LocateAnswerView::Candidates { valid }) = (
        run.phase,
        answer,
    ) {
        choice_is_valid(run.utility, l.platform_version, candidates, valid);
        let i = choose|i: int|
            0 <= i < candidates.len() && #[trigger] is_valid(valid, i) && candidates[i]
                == chosen_candidate(run.utility, l.platform_version, candidates, valid)->0;
        assert(is_valid(valid, i));
    }
}

/// What was found by a search that began without an entry in the cache is remembered: the next
/// search begins with it.
pub proof fn found_location_is_remembered(
    l: LocatorView,
    run: LocateRunView,
    answer: LocateAnswerView,
)
    requires
        !(run.phase is Cached),
        locate_next(l, run, answer).1.ask is Found,
    ensures
        ({
            let after = locate_next(l, run, answer).0;
            let location = locate_next(l, run, answer).1.ask->Found_location;
            locate_start(after, run.utility) == step_of(
                run.utility,
                LocatePhaseView::Cached { location },
                LocateAskView::CheckExecutable { path: location.path },
            )
        }),
{
}

/// An entry whose file is gone is dropped, and the search goes on as if it had never been there.
pub proof fn stale_location_is_forgotten(
    l: LocatorView,
    run: LocateRunView,
    answer: LocateAnswerView,
)
    requires
        run.phase is Cached,
        answer == (LocateAnswerView::Executable { executable: false }),
    ensures
        ({
            let (after, step) = locate_next(l, run, answer);
            &&& !after.cache.dom().contains(key_of(l, run.utility))
            &&& step == locate_start(after, run.utility)
        }),
{
}

/// A search touches nothing of the locator but what it remembers of the utility that is searched
/// for.
pub proof fn search_keeps_the_rest(
    l: LocatorView,
    run: LocateRunView,
    answer: LocateAnswerView,
    other: LocationKey,
)
    requires
        other != key_of(l, run.utility),
    ensures
        ({
            let after = locate_next(l, run, answer).0;
            &&& after == with_cache(l, after.cache)
            &&& after.cache.dom().contains(other) <==> l.cache.dom().contains(other)
            &&& l.cache.dom().contains(other) ==> after.cache[other] == l.cache[other]
        }),
{
}

} // verus!
