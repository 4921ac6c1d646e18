//! Where the utilities are found: candidates, choice among them, and the cache of what was found.

use vstd::prelude::*;
use crate::path::{
    child, child_of_absolute_is_absolute, components, file_name_of, is_absolute, parent_of,
    parent_of_absolute_is_absolute, path_child, path_components, path_file_name, path_parent,
    HostPlatform,
};
use crate::platform::version::{
    edt_below, edt_matches, edt_version_matches, edt_versions_are_ordered, lenient_version,
    platform_below, strict_version, version_text, EdtVersion, EdtVersionView, PlatformVersion,
};
use crate::text::{cat3, opt_text, opt_view, push_text, text_eq, texts, views};

verus! {

/// Utility.
#[derive(Clone, Copy, Debug, PartialEq, Eq, Structural)]
pub enum UtilityType {
    V8,
    V8C,
    Ibcmd,
    EdtCli,
}

/// File name of a utility.
pub open spec fn executable_of(utility: UtilityType, host: HostPlatform) -> Seq<char> {
    let windows = host == HostPlatform::Windows;
    match utility {
        UtilityType::V8 => if windows {
            "1cv8.exe"@
        } else {
            "1cv8"@
        },
        UtilityType::V8C => if windows {
            "1cv8c.exe"@
        } else {
            "1cv8c"@
        },
        UtilityType::Ibcmd => if windows {
            "ibcmd.exe"@
        } else {
            "ibcmd"@
        },
        UtilityType::EdtCli => if windows {
            "1cedtcli.exe"@
        } else {
            "1cedtcli"@
        },
    }
}

impl UtilityType {
    /// File name of the utility.
    pub fn executable_name(self, host: HostPlatform) -> (r: &'static str)
        ensures
            r@ == executable_of(self, host),
    {
        let windows = host == HostPlatform::Windows;
        match self {
            UtilityType::V8 => if windows {
                "1cv8.exe"
            } else {
                "1cv8"
            },
            UtilityType::V8C => if windows {
                "1cv8c.exe"
            } else {
                "1cv8c"
            },
            UtilityType::Ibcmd => if windows {
                "ibcmd.exe"
            } else {
                "ibcmd"
            },
            UtilityType::EdtCli => if windows {
                "1cedtcli.exe"
            } else {
                "1cedtcli"
            },
        }
    }

    /// Whether the utility belongs to the platform.
    pub fn is_platform(self) -> (r: bool)
        ensures
            r == !(self is EdtCli),
    {
        match self {
            UtilityType::EdtCli => false,
            _ => true,
        }
    }
}

/// Version of a utility.
#[derive(Debug, PartialEq, Eq)]
pub enum UtilityVersion {
    Platform(PlatformVersion),
    Edt(EdtVersion),
}

/// Mathematical value of [`UtilityVersion`].
pub enum UtilityVersionView {
    Platform(PlatformVersion),
    Edt(EdtVersionView),
}

impl View for UtilityVersion {
    type V = UtilityVersionView;

    open spec fn view(&self) -> UtilityVersionView {
        match *self {
            UtilityVersion::Platform(x0) => UtilityVersionView::Platform(x0),
            UtilityVersion::Edt(x0) => UtilityVersionView::Edt(x0@),
        }
    }
}

impl Clone for UtilityVersion {
    fn clone(&self) -> (r: Self)
        ensures
            r@ == self@,
    {
        match self {
            UtilityVersion::Platform(v) => UtilityVersion::Platform(*v),
            UtilityVersion::Edt(v) => UtilityVersion::Edt(v.clone()),
        }
    }
}

/// Utility that was found.
#[derive(Debug, PartialEq, Eq)]
pub struct UtilityLocation {
    pub utility: UtilityType,
    /// Absolute path of the executable.
    pub path: String,
    pub version: Option<UtilityVersion>,
}

/// Mathematical value of [`UtilityLocation`].
pub struct UtilityLocationView {
    pub utility: UtilityType,
    pub path: Seq<char>,
    pub version: Option<UtilityVersionView>,
}

impl View for UtilityLocation {
    type V = UtilityLocationView;

    open spec fn view(&self) -> UtilityLocationView {
        UtilityLocationView {
            utility: self.utility,
            path: self.path@,
            version: opt_view(self.version),
        }
    }
}

impl Clone for UtilityLocation {
    fn clone(&self) -> (r: Self)
        ensures
            r@ == self@,
    {
        UtilityLocation {
            utility: self.utility,
            path: self.path.clone(),
            version: clone_version(&self.version),
        }
    }
}

fn clone_version(version: &Option<UtilityVersion>) -> (r: Option<UtilityVersion>)
    ensures
        opt_view(r) == opt_view(*version),
{
    match version {
        Some(v) => Some(v.clone()),
        None => None,
    }
}

/// The utility was not found.
#[derive(Clone, Copy, Debug, PartialEq, Eq, Structural)]
pub enum LocatorError {
    NotFound(UtilityType),
}

impl LocatorError {
    /// Text shown to the user.
    pub fn message(&self, host: HostPlatform) -> (r: String)
        ensures
            r@ == "utility '"@ + executable_of(self->0, host) + "' was not found"@,
    {
        match self {
            LocatorError::NotFound(utility) => cat3(
                "utility '",
                utility.executable_name(host),
                "' was not found",
            ),
        }
    }
}

/// Place where a utility may be.
#[derive(Debug, PartialEq, Eq)]
pub struct Candidate {
    pub path: String,
    pub version: Option<UtilityVersion>,
}

/// Mathematical value of [`Candidate`].
pub struct CandidateView {
    pub path: Seq<char>,
    pub version: Option<UtilityVersionView>,
}

impl View for Candidate {
    type V = CandidateView;

    open spec fn view(&self) -> CandidateView {
        CandidateView {
            path: self.path@,
            version: opt_view(self.version),
        }
    }
}

/// Directories below a root, by name.
#[derive(Debug, PartialEq, Eq)]
pub struct RootListing {
    pub root: String,
    pub dirs: Vec<String>,
}

/// Mathematical value of [`RootListing`].
pub struct RootListingView {
    pub root: Seq<char>,
    pub dirs: Seq<Seq<char>>,
}

impl View for RootListing {
    type V = RootListingView;

    open spec fn view(&self) -> RootListingView {
        RootListingView {
            root: self.root@,
            dirs: texts(self.dirs@),
        }
    }
}

/// Places where the platform is installed.
pub open spec fn platform_roots_of(host: HostPlatform) -> Seq<Seq<char>> {
    match host {
        HostPlatform::Windows => seq![
            "C:\\Program Files\\1cv8"@,
            "C:\\Program Files (x86)\\1cv8"@,
        ],
        HostPlatform::Linux => seq![
            "/opt/1cv8/x86_64"@,
            "/opt/1cv8/i386"@,
            "/usr/local/1cv8"@,
        ],
        HostPlatform::Other => seq!["/opt/1cv8"@],
    }
}

/// Places where EDT is installed.
pub open spec fn edt_roots_of(host: HostPlatform) -> Seq<Seq<char>> {
    match host {
        HostPlatform::Windows => seq!["C:\\Program Files\\1C\\1CE\\components"@],
        _ => seq!["/opt/1C/1CE/components"@],
    }
}

/// Places where the platform is installed.
pub fn default_platform_roots(host: HostPlatform) -> (r: Vec<String>)
    ensures
        texts(r@) == platform_roots_of(host),
{
    let mut roots: Vec<String> = Vec::new();
    match host {
        HostPlatform::Windows => {
            push_text(&mut roots, "C:\\Program Files\\1cv8");
            push_text(&mut roots, "C:\\Program Files (x86)\\1cv8");
        },
        HostPlatform::Linux => {
            push_text(&mut roots, "/opt/1cv8/x86_64");
            push_text(&mut roots, "/opt/1cv8/i386");
            push_text(&mut roots, "/usr/local/1cv8");
        },
        HostPlatform::Other => {
            push_text(&mut roots, "/opt/1cv8");
        },
    }
    assert(texts(roots@) =~= platform_roots_of(host));
    roots
}

/// Places where EDT is installed.
pub fn default_edt_roots(host: HostPlatform) -> (r: Vec<String>)
    ensures
        texts(r@) == edt_roots_of(host),
{
    let mut roots: Vec<String> = Vec::new();
    match host {
        HostPlatform::Windows => {
            push_text(&mut roots, "C:\\Program Files\\1C\\1CE\\components");
        },
        _ => {
            push_text(&mut roots, "/opt/1C/1CE/components");
        },
    }
    assert(texts(roots@) =~= edt_roots_of(host));
    roots
}

// ---------------------------------------------------------------------------------------------
// Versions

/// The version on the left is above the one on the right: any version is above none, and versions
/// of different kinds are not compared.
pub open spec fn version_above(
    left: Option<UtilityVersionView>,
    right: Option<UtilityVersionView>,
) -> bool {
    match (left, right) {
        (Some(UtilityVersionView::Platform(a)), Some(UtilityVersionView::Platform(b))) =>
            platform_below(b, a),
        (Some(UtilityVersionView::Edt(a)), Some(UtilityVersionView::Edt(b))) => edt_below(b, a),
        (Some(_), None) => true,
        _ => false,
    }
}

/// Whether the version on the left is above the one on the right.
pub fn is_version_above(left: &Option<UtilityVersion>, right: &Option<UtilityVersion>) -> (r: bool)
    ensures
        r == version_above(opt_view(*left), opt_view(*right)),
{
    match (left, right) {
        (Some(UtilityVersion::Platform(a)), Some(UtilityVersion::Platform(b))) => b.is_below(*a),
        (Some(UtilityVersion::Edt(a)), Some(UtilityVersion::Edt(b))) => b.is_below(a),
        (Some(_), None) => true,
        _ => false,
    }
}

/// Version in a name.
pub open spec fn version_in_name(utility: UtilityType, name: Seq<char>) -> Option<
    UtilityVersionView,
> {
    if utility is EdtCli {
        match lenient_version(name) {
            Some(v) => Some(UtilityVersionView::Edt(v)),
            None => None,
        }
    } else {
        match strict_version(name) {
            Some(v) => Some(UtilityVersionView::Platform(v)),
            None => None,
        }
    }
}

/// Version in the last of the first `n` names that has one.
pub open spec fn version_in_names(utility: UtilityType, names: Seq<Seq<char>>, n: int) -> Option<
    UtilityVersionView,
>
    decreases n,
{
    if n <= 0 {
        None
    } else if version_in_name(utility, names[n - 1]) is Some {
        version_in_name(utility, names[n - 1])
    } else {
        version_in_names(utility, names, n - 1)
    }
}

/// Version of a utility by its path: that of the innermost component which has one.
pub open spec fn version_in_path(
    utility: UtilityType,
    path: Seq<char>,
    host: HostPlatform,
) -> Option<UtilityVersionView> {
    version_in_names(utility, components(host, path), components(host, path).len() as int)
}

fn name_version(utility: UtilityType, name: &str) -> (r: Option<UtilityVersion>)
    ensures
        opt_view(r) == version_in_name(utility, name@),
{
    if utility.is_platform() {
        match PlatformVersion::parse_strict(name) {
            Some(v) => Some(UtilityVersion::Platform(v)),
            None => None,
        }
    } else {
        match EdtVersion::parse_lenient(name) {
            Some(v) => Some(UtilityVersion::Edt(v)),
            None => None,
        }
    }
}

/// Version of a utility by its path.
pub fn infer_version(utility: UtilityType, path: &str, host: HostPlatform) -> (r: Option<
    UtilityVersion,
>)
    ensures
        opt_view(r) == version_in_path(utility, path@, host),
{
    let names = path_components(host, path);
    let ghost all = texts(names@);
    let mut n: usize = names.len();
    while n > 0
        invariant
            n <= names.len(),
            all == texts(names@),
            all == components(host, path@),
            version_in_names(utility, all, all.len() as int) == version_in_names(
                utility,
                all,
                n as int,
            ),
        decreases n,
    {
        assert(all[n - 1] == names@[n - 1]@);
        let version = name_version(utility, names[n - 1].as_str());
        if version.is_some() {
            return version;
        }
        n -= 1;
    }
    None
}

// ---------------------------------------------------------------------------------------------
// Candidates

/// What is known of a hint.
#[derive(Clone, Copy, Debug, PartialEq, Eq, Structural)]
pub struct HintFacts {
    pub is_file: bool,
    pub is_dir: bool,
    /// The utility lies in the directory itself.
    pub direct_exists: bool,
}

/// Path of a utility by a hint: the file itself or its sibling, or a file in the directory or in
/// its `bin`.
pub open spec fn path_by_hint(
    hint: Seq<char>,
    facts: HintFacts,
    utility: UtilityType,
    host: HostPlatform,
) -> Option<Seq<char>> {
    let name = executable_of(utility, host);
    if facts.is_file {
        if file_name_of(host, hint) == Some(name) {
            Some(hint)
        } else {
            match parent_of(host, hint) {
                Some(parent) => Some(child(host, parent, name)),
                None => None,
            }
        }
    } else if facts.is_dir {
        if facts.direct_exists {
            Some(child(host, hint, name))
        } else {
            Some(child(host, child(host, hint, "bin"@), name))
        }
    } else {
        None
    }
}

/// Path of a utility by a hint.
pub fn resolve_from_hint(
    hint: &str,
    facts: HintFacts,
    utility: UtilityType,
    host: HostPlatform,
) -> (r: Option<String>)
    ensures
        opt_text(r) == path_by_hint(hint@, facts, utility, host),
{
    let name = utility.executable_name(host);
    if facts.is_file {
        if let Some(own) = path_file_name(host, hint) {
            if text_eq(own.as_str(), name) {
                return Some(hint.to_owned());
            }
        }
        return match path_parent(host, hint) {
            Some(parent) => Some(path_child(host, parent.as_str(), name)),
            None => None,
        };
    }
    if facts.is_dir {
        if facts.direct_exists {
            return Some(path_child(host, hint, name));
        }
        return Some(path_child(host, path_child(host, hint, "bin").as_str(), name));
    }
    None
}

/// Two places below a directory of a version.
pub open spec fn platform_pair(
    host: HostPlatform,
    dir: Seq<char>,
    name: Seq<char>,
    version: PlatformVersion,
) -> Seq<CandidateView> {
    let version = Some(UtilityVersionView::Platform(version));
    seq![
        CandidateView { path: child(host, dir, name), version },
        CandidateView { path: child(host, child(host, dir, "bin"@), name), version },
    ]
}

/// Places of the version below the first `n` roots.
pub open spec fn candidates_of_version(
    host: HostPlatform,
    name: Seq<char>,
    version: PlatformVersion,
    roots: Seq<Seq<char>>,
    n: int,
) -> Seq<CandidateView>
    decreases n,
{
    if n <= 0 {
        Seq::empty()
    } else {
        candidates_of_version(host, name, version, roots, n - 1) + platform_pair(
            host,
            child(host, roots[n - 1], version_text(version)),
            name,
            version,
        )
    }
}

/// Places below the first `n` directories of a root that are named by a version.
pub open spec fn candidates_in_root(
    host: HostPlatform,
    name: Seq<char>,
    root: Seq<char>,
    dirs: Seq<Seq<char>>,
    n: int,
) -> Seq<CandidateView>
    decreases n,
{
    if n <= 0 {
        Seq::empty()
    } else {
        candidates_in_root(host, name, root, dirs, n - 1) + match strict_version(dirs[n - 1]) {
            Some(version) => platform_pair(host, child(host, root, dirs[n - 1]), name, version),
            None => Seq::empty(),
        }
    }
}

/// Places below the first `n` roots.
pub open spec fn platform_candidates(
    host: HostPlatform,
    name: Seq<char>,
    listings: Seq<RootListingView>,
    n: int,
) -> Seq<CandidateView>
    decreases n,
{
    if n <= 0 {
        Seq::empty()
    } else {
        platform_candidates(host, name, listings, n - 1) + candidates_in_root(
            host,
            name,
            listings[n - 1].root,
            listings[n - 1].dirs,
            listings[n - 1].dirs.len() as int,
        )
    }
}

/// Two places below a component of EDT, with the version that its name holds.
pub open spec fn edt_pair(
    host: HostPlatform,
    root: Seq<char>,
    dir: Seq<char>,
    name: Seq<char>,
) -> Seq<CandidateView> {
    let version = match lenient_version(dir) {
        Some(v) => Some(UtilityVersionView::Edt(v)),
        None => None,
    };
    seq![
        CandidateView {
            path: child(host, child(host, child(host, root, dir), "1cedt"@), name),
            version,
        },
        CandidateView { path: child(host, child(host, root, dir), name), version },
    ]
}

/// The candidate is of the version asked for, where one is asked for.
pub open spec fn edt_wanted(
    required: Option<EdtVersionView>,
    version: Option<EdtVersionView>,
) -> bool {
    match required {
        None => true,
        Some(wanted) => version is Some && edt_matches(wanted, version->0),
    }
}

/// Places below the first `n` directories of a root.
pub open spec fn edt_candidates_in_root(
    host: HostPlatform,
    name: Seq<char>,
    required: Option<EdtVersionView>,
    root: Seq<char>,
    dirs: Seq<Seq<char>>,
    n: int,
) -> Seq<CandidateView>
    decreases n,
{
    if n <= 0 {
        Seq::empty()
    } else {
        edt_candidates_in_root(host, name, required, root, dirs, n - 1) + if edt_wanted(
            required,
            lenient_version(dirs[n - 1]),
        ) {
            edt_pair(host, root, dirs[n - 1], name)
        } else {
            Seq::empty()
        }
    }
}

/// Places below the first `n` roots.
pub open spec fn edt_candidates(
    host: HostPlatform,
    name: Seq<char>,
    required: Option<EdtVersionView>,
    listings: Seq<RootListingView>,
    n: int,
) -> Seq<CandidateView>
    decreases n,
{
    if n <= 0 {
        Seq::empty()
    } else {
        edt_candidates(host, name, required, listings, n - 1) + edt_candidates_in_root(
            host,
            name,
            required,
            listings[n - 1].root,
            listings[n - 1].dirs,
            listings[n - 1].dirs.len() as int,
        )
    }
}

/// Place of a utility in a directory of the search path.
pub open spec fn path_candidate(
    utility: UtilityType,
    host: HostPlatform,
    dir: Seq<char>,
) -> CandidateView {
    let path = child(host, dir, executable_of(utility, host));
    CandidateView { path, version: version_in_path(utility, path, host) }
}

/// Places of a utility in the directories of the search path.
pub open spec fn path_candidates_of(
    utility: UtilityType,
    host: HostPlatform,
    dirs: Seq<Seq<char>>,
) -> Seq<CandidateView> {
    dirs.map_values(|dir: Seq<char>| path_candidate(utility, host, dir))
}

fn push_platform_pair(
    host: HostPlatform,
    list: &mut Vec<Candidate>,
    dir: &str,
    name: &str,
    version: PlatformVersion,
)
    ensures
        views(final(list)@) == views(old(list)@) + platform_pair(host, dir@, name@, version),
{
    let ghost before = views(list@);
    let first = Candidate {
        path: path_child(host, dir, name),
        version: Some(UtilityVersion::Platform(version)),
    };
    let second = Candidate {
        path: path_child(host, path_child(host, dir, "bin").as_str(), name),
        version: Some(UtilityVersion::Platform(version)),
    };
    list.push(first);
    list.push(second);
    assert(views(list@) =~= before + platform_pair(host, dir@, name@, version));
}

/// Places of a version of the platform.
pub fn platform_candidates_for_version(
    utility: UtilityType,
    host: HostPlatform,
    version: PlatformVersion,
    roots: &Vec<String>,
) -> (r: Vec<Candidate>)
    ensures
        views(r@) == candidates_of_version(
            host,
            executable_of(utility, host),
            version,
            texts(roots@),
            roots@.len() as int,
        ),
{
    let name = utility.executable_name(host);
    let version_dir = version.text();
    let ghost all = texts(roots@);
    let mut out: Vec<Candidate> = Vec::new();
    let mut i: usize = 0;
    assert(views(out@) =~= Seq::<CandidateView>::empty());
    while i < roots.len()
        invariant
            i <= roots.len(),
            all == texts(roots@),
            name@ == executable_of(utility, host),
            version_dir@ == version_text(version),
            views(out@) == candidates_of_version(host, name@, version, all, i as int),
        decreases roots.len() - i,
    {
        assert(all[i as int] == roots@[i as int]@);
        let dir = path_child(host, roots[i].as_str(), version_dir.as_str());
        push_platform_pair(host, &mut out, dir.as_str(), name, version);
        i += 1;
    }
    out
}

/// Places of any version of the platform.
pub fn platform_candidates_any_version(
    utility: UtilityType,
    host: HostPlatform,
    listings: &Vec<RootListing>,
) -> (r: Vec<Candidate>)
    ensures
        views(r@) == platform_candidates(
            host,
            executable_of(utility, host),
            views(listings@),
            listings@.len() as int,
        ),
{
    let name = utility.executable_name(host);
    let ghost all = views(listings@);
    let mut out: Vec<Candidate> = Vec::new();
    let mut i: usize = 0;
    assert(views(out@) =~= Seq::<CandidateView>::empty());
    while i < listings.len()
        invariant
            i <= listings.len(),
            all == views(listings@),
            name@ == executable_of(utility, host),
            views(out@) == platform_candidates(host, name@, all, i as int),
        decreases listings.len() - i,
    {
        let root = listings[i].root.as_str();
        let dirs = &listings[i].dirs;
        let ghost start = views(out@);
        let ghost names = texts(dirs@);
        assert(all[i as int] == listings@[i as int]@);
        let mut k: usize = 0;
        assert(views(out@) =~= start + Seq::<CandidateView>::empty());
        while k < dirs.len()
            invariant
                k <= dirs.len(),
                names == texts(dirs@),
                views(out@) == start + candidates_in_root(host, name@, root@, names, k as int),
            decreases dirs.len() - k,
        {
            assert(names[k as int] == dirs@[k as int]@);
            let ghost before = views(out@);
            if let Some(version) = PlatformVersion::parse_strict(dirs[k].as_str()) {
                let dir = path_child(host, root, dirs[k].as_str());
                push_platform_pair(host, &mut out, dir.as_str(), name, version);
            } else {
                assert(before =~= before + Seq::<CandidateView>::empty());
            }
            assert(views(out@) =~= start + candidates_in_root(host, name@, root@, names, k + 1));
            k += 1;
        }
        i += 1;
    }
    out
}

fn push_edt_pair(
    host: HostPlatform,
    list: &mut Vec<Candidate>,
    root: &str,
    dir: &str,
    name: &str,
)
    ensures
        views(final(list)@) == views(old(list)@) + edt_pair(host, root@, dir@, name@),
{
    let ghost before = views(list@);
    let base = path_child(host, root, dir);
    let first = Candidate {
        path: path_child(host, path_child(host, base.as_str(), "1cedt").as_str(), name),
        version: name_version(UtilityType::EdtCli, dir),
    };
    let second = Candidate {
        path: path_child(host, base.as_str(), name),
        version: name_version(UtilityType::EdtCli, dir),
    };
    list.push(first);
    list.push(second);
    assert(views(list@) =~= before + edt_pair(host, root@, dir@, name@));
}

fn is_wanted(required: &Option<EdtVersion>, dir: &str) -> (r: bool)
    ensures
        r == edt_wanted(opt_view(*required), lenient_version(dir@)),
{
    match required {
        None => true,
        Some(wanted) => match EdtVersion::parse_lenient(dir) {
            Some(version) => edt_version_matches(wanted, &version),
            None => false,
        },
    }
}

/// Places of EDT, of the version asked for where one is.
pub fn edt_candidates_for_version(
    utility: UtilityType,
    host: HostPlatform,
    required: &Option<EdtVersion>,
    listings: &Vec<RootListing>,
) -> (r: Vec<Candidate>)
    ensures
        views(r@) == edt_candidates(
            host,
            executable_of(utility, host),
            opt_view(*required),
            views(listings@),
            listings@.len() as int,
        ),
{
    let name = utility.executable_name(host);
    let ghost all = views(listings@);
    let ghost wanted = opt_view(*required);
    let mut out: Vec<Candidate> = Vec::new();
    let mut i: usize = 0;
    assert(views(out@) =~= Seq::<CandidateView>::empty());
    while i < listings.len()
        invariant
            i <= listings.len(),
            all == views(listings@),
            wanted == opt_view(*required),
            name@ == executable_of(utility, host),
            views(out@) == edt_candidates(host, name@, wanted, all, i as int),
        decreases listings.len() - i,
    {
        let root = listings[i].root.as_str();
        let dirs = &listings[i].dirs;
        let ghost start = views(out@);
        let ghost names = texts(dirs@);
        assert(all[i as int] == listings@[i as int]@);
        let mut k: usize = 0;
        assert(views(out@) =~= start + Seq::<CandidateView>::empty());
        while k < dirs.len()
            invariant
                k <= dirs.len(),
                names == texts(dirs@),
                wanted == opt_view(*required),
                views(out@) == start + edt_candidates_in_root(
                    host,
                    name@,
                    wanted,
                    root@,
                    names,
                    k as int,
                ),
            decreases dirs.len() - k,
        {
            assert(names[k as int] == dirs@[k as int]@);
            let ghost before = views(out@);
            if is_wanted(required, dirs[k].as_str()) {
                push_edt_pair(host, &mut out, root, dirs[k].as_str(), name);
            } else {
                assert(before =~= before + Seq::<CandidateView>::empty());
            }
            assert(views(out@) =~= start + edt_candidates_in_root(
                host,
                name@,
                wanted,
                root@,
                names,
                k + 1,
            ));
            k += 1;
        }
        i += 1;
    }
    out
}

/// Places of a utility in the directories of the search path.
pub fn path_candidates(utility: UtilityType, host: HostPlatform, dirs: &Vec<String>) -> (r: Vec<
    Candidate,
>)
    ensures
        views(r@) == path_candidates_of(utility, host, texts(dirs@)),
{
    let ghost all = path_candidates_of(utility, host, texts(dirs@));
    let mut out: Vec<Candidate> = Vec::new();
    let mut i: usize = 0;
    assert(views(out@) =~= all.take(0));
    while i < dirs.len()
        invariant
            i <= dirs.len(),
            all == path_candidates_of(utility, host, texts(dirs@)),
            views(out@) == all.take(i as int),
        decreases dirs.len() - i,
    {
        let ghost before = views(out@);
        let path = path_child(host, dirs[i].as_str(), utility.executable_name(host));
        let version = infer_version(utility, path.as_str(), host);
        let candidate = Candidate { path, version };
        out.push(candidate);
        assert(views(out@) =~= before.push(all[i as int]));
        assert(all.take(i + 1) =~= all.take(i as int).push(all[i as int]));
        i += 1;
    }
    assert(all.take(all.len() as int) =~= all);
    out
}

// ---------------------------------------------------------------------------------------------
// Choice

/// The candidate at position `i` can be executed.
pub open spec fn is_valid(valid: Seq<bool>, i: int) -> bool {
    0 <= i < valid.len() && valid[i]
}

/// First candidate, from position `i` on, that can be executed and has the version.
pub open spec fn first_of_version(
    candidates: Seq<CandidateView>,
    valid: Seq<bool>,
    version: PlatformVersion,
    i: int,
) -> Option<CandidateView>
    decreases candidates.len() - i,
{
    if i < 0 || i >= candidates.len() {
        None
    } else if is_valid(valid, i) && candidates[i].version == Some(
        UtilityVersionView::Platform(version),
    ) {
        Some(candidates[i])
    } else {
        first_of_version(candidates, valid, version, i + 1)
    }
}

/// Of the first `n` candidates, the one at position `i` can be executed, none that can be executed
/// has a version above its, and it is the last one with that version.
pub open spec fn is_best(
    candidates: Seq<CandidateView>,
    valid: Seq<bool>,
    n: int,
    i: int,
) -> bool {
    &&& 0 <= i < n
    &&& is_valid(valid, i)
    &&& forall|j: int|
        0 <= j < n && #[trigger] is_valid(valid, j) ==> !version_above(
            candidates[j].version,
            candidates[i].version,
        )
    &&& forall|j: int|
        i < j < n && #[trigger] is_valid(valid, j) ==> version_above(
            candidates[i].version,
            candidates[j].version,
        )
}

/// Candidate of the highest version among those that can be executed, of equals the last.
pub open spec fn best_candidate(candidates: Seq<CandidateView>, valid: Seq<bool>) -> Option<
    CandidateView,
> {
    let n = candidates.len() as int;
    if exists|i: int| is_best(candidates, valid, n, i) {
        Some(candidates[choose|i: int| is_best(candidates, valid, n, i)])
    } else {
        None
    }
}

/// The version is of the kind that the utility has.
pub open spec fn fits(utility: UtilityType, version: Option<UtilityVersionView>) -> bool {
    match version {
        None => true,
        Some(UtilityVersionView::Platform(_)) => !(utility is EdtCli),
        Some(UtilityVersionView::Edt(_)) => utility is EdtCli,
    }
}

/// The candidates have versions of the kind that the utility has.
pub open spec fn all_fit(utility: UtilityType, candidates: Seq<CandidateView>) -> bool {
    forall|i: int| 0 <= i < candidates.len() ==> fits(utility, (#[trigger] candidates[i]).version)
}

/// Candidate that is chosen.
pub open spec fn chosen_candidate(
    utility: UtilityType,
    required: Option<PlatformVersion>,
    candidates: Seq<CandidateView>,
    valid: Seq<bool>,
) -> Option<CandidateView> {
    if !(utility is EdtCli) && required is Some {
        first_of_version(candidates, valid, required->0, 0)
    } else {
        best_candidate(candidates, valid)
    }
}

/// Location of a candidate.
pub open spec fn location_of(
    utility: UtilityType,
    candidate: CandidateView,
) -> UtilityLocationView {
    UtilityLocationView { utility, path: candidate.path, version: candidate.version }
}

/// What a choice gives.
pub open spec fn selection(
    utility: UtilityType,
    required: Option<PlatformVersion>,
    candidates: Seq<CandidateView>,
    valid: Seq<bool>,
) -> Result<UtilityLocationView, LocatorError> {
    match chosen_candidate(utility, required, candidates, valid) {
        Some(candidate) => Ok(location_of(utility, candidate)),
        None => Err(LocatorError::NotFound(utility)),
    }
}

fn flag_at(valid: &Vec<bool>, i: usize) -> (r: bool)
    ensures
        r == is_valid(valid@, i as int),
{
    i < valid.len() && valid[i]
}

fn has_version(candidate: &Candidate, version: PlatformVersion) -> (r: bool)
    ensures
        r == (candidate@.version == Some(UtilityVersionView::Platform(version))),
{
    match &candidate.version {
        Some(UtilityVersion::Platform(own)) => *own == version,
        _ => false,
    }
}

fn make_location(utility: UtilityType, candidate: &Candidate) -> (r: UtilityLocation)
    ensures
        r@ == location_of(utility, candidate@),
{
    UtilityLocation {
        utility,
        path: candidate.path.clone(),
        version: clone_version(&candidate.version),
    }
}

/// Chooses among the candidates that can be executed: the first of the platform version asked for,
/// else the one of the highest version, of equals the last.
pub fn select_candidate(
    utility: UtilityType,
    required: Option<PlatformVersion>,
    candidates: &Vec<Candidate>,
    valid: &Vec<bool>,
) -> (r: Result<UtilityLocation, LocatorError>)
    requires
        all_fit(utility, views(candidates@)),
    ensures
        match r {
            Ok(location) => selection(utility, required, views(candidates@), valid@) == Ok::<
                UtilityLocationView,
                LocatorError,
            >(location@),
            Err(e) => selection(utility, required, views(candidates@), valid@) == Err::<
                UtilityLocationView,
                LocatorError,
            >(e),
        },
{
    let ghost all = views(candidates@);
    if utility.is_platform() {
        if let Some(version) = required {
            let mut i: usize = 0;
            while i < candidates.len()
                invariant
                    i <= candidates.len(),
                    all == views(candidates@),
                    required == Some(version),
                    !(utility is EdtCli),
                    first_of_version(all, valid@, version, 0) == first_of_version(
                        all,
                        valid@,
                        version,
                        i as int,
                    ),
                decreases candidates.len() - i,
            {
                assert(all[i as int] == candidates@[i as int]@);
                if flag_at(valid, i) && has_version(&candidates[i], version) {
                    return Ok(make_location(utility, &candidates[i]));
                }
                i += 1;
            }
            return Err(LocatorError::NotFound(utility));
        }
    }
    let mut best: Option<usize> = None;
    let mut i: usize = 0;
    while i < candidates.len()
        invariant
            i <= candidates.len(),
            all == views(candidates@),
            all_fit(utility, all),
            match best {
                Some(b) => is_best(all, valid@, i as int, b as int),
                None => forall|j: int| 0 <= j < i ==> !#[trigger] is_valid(valid@, j),
            },
        decreases candidates.len() - i,
    {
        let ghost before = best;
        assert(all[i as int] == candidates@[i as int]@);
        if flag_at(valid, i) {
            let keep = match best {
                Some(b) => {
                    assert(all[b as int] == candidates@[b as int]@);
                    is_version_above(&candidates[b].version, &candidates[i].version)
                },
                None => false,
            };
            if !keep {
                best = Some(i);
            }
        }
        proof {
            if is_valid(valid@, i as int) && best == Some(i) && before is Some {
                let b = before->0 as int;
                assert forall|j: int| 0 <= j < i + 1 && #[trigger] is_valid(
                    valid@,
                    j,
                ) implies !version_above(all[j].version, all[i as int].version) by {
                    versions_are_ordered(
                        utility,
                        all[j].version,
                        all[b].version,
                        all[i as int].version,
                    );
                }
            }
            if is_valid(valid@, i as int) && before is Some {
                let b = before->0 as int;
                versions_are_ordered(
                    utility,
                    all[b].version,
                    all[i as int].version,
                    all[i as int].version,
                );
            }
            if is_valid(valid@, i as int) && before is None {
                versions_are_ordered(
                    utility,
                    all[i as int].version,
                    all[i as int].version,
                    all[i as int].version,
                );
            }
        }
        i += 1;
    }
    proof {
        if best is None {
            assert forall|k: int| !is_best(all, valid@, all.len() as int, k) by {
                if 0 <= k < all.len() {
                    assert(!is_valid(valid@, k));
                }
            }
        } else {
            let k = choose|k: int| is_best(all, valid@, all.len() as int, k);
            best_candidate_is_unique(all, valid@, best->0 as int, k);
        }
    }
    match best {
        Some(b) => {
            assert(all[b as int] == candidates@[b as int]@);
            Ok(make_location(utility, &candidates[b]))
        },
        None => Err(LocatorError::NotFound(utility)),
    }
}

// ---------------------------------------------------------------------------------------------
// Laws

/// What is chosen can be executed: it is one of the candidates that were found valid.
pub proof fn choice_is_valid(
    utility: UtilityType,
    required: Option<PlatformVersion>,
    candidates: Seq<CandidateView>,
    valid: Seq<bool>,
)
    requires
        chosen_candidate(utility, required, candidates, valid) is Some,
    ensures
        exists|i: int|
            0 <= i < candidates.len() && #[trigger] is_valid(valid, i) && candidates[i]
                == chosen_candidate(utility, required, candidates, valid)->0,
{
    if !(utility is EdtCli) && required is Some {
        lemma_first_is_valid(candidates, valid, required->0, 0);
    } else {
        let n = candidates.len() as int;
        let i = choose|i: int| is_best(candidates, valid, n, i);
        assert(is_best(candidates, valid, n, i));
        assert(is_valid(valid, i));
    }
}

proof fn lemma_first_is_valid(
    candidates: Seq<CandidateView>,
    valid: Seq<bool>,
    version: PlatformVersion,
    i: int,
)
    requires
        0 <= i,
        first_of_version(candidates, valid, version, i) is Some,
    ensures
        exists|k: int|
            0 <= k < candidates.len() && #[trigger] is_valid(valid, k) && candidates[k]
                == first_of_version(candidates, valid, version, i)->0,
        first_of_version(candidates, valid, version, i)->0.version == Some(
            UtilityVersionView::Platform(version),
        ),
    decreases candidates.len() - i,
{
    if is_valid(valid, i) && candidates[i].version == Some(UtilityVersionView::Platform(version)) {
    } else {
        lemma_first_is_valid(candidates, valid, version, i + 1);
    }
}

/// Where a version of the platform is asked for, nothing else is ever chosen.
pub proof fn asked_version_is_kept(
    utility: UtilityType,
    version: PlatformVersion,
    candidates: Seq<CandidateView>,
    valid: Seq<bool>,
)
    requires
        !(utility is EdtCli),
        selection(utility, Some(version), candidates, valid) is Ok,
    ensures
        selection(utility, Some(version), candidates, valid)->Ok_0.version == Some(
            UtilityVersionView::Platform(version),
        ),
{
    lemma_first_is_valid(candidates, valid, version, 0);
}

/// Versions of one kind are ordered: where one is above another, a third is below the first or above
/// the second. None is above itself.
pub proof fn versions_are_ordered(
    utility: UtilityType,
    a: Option<UtilityVersionView>,
    b: Option<UtilityVersionView>,
    c: Option<UtilityVersionView>,
)
    requires
        fits(utility, a),
        fits(utility, b),
        fits(utility, c),
    ensures
        !version_above(a, a),
        version_above(a, b) ==> !version_above(b, a),
        version_above(a, c) ==> version_above(a, b) || version_above(b, c),
{
    match (a, b, c) {
        (
            Some(UtilityVersionView::Platform(x)),
            Some(UtilityVersionView::Platform(y)),
            Some(UtilityVersionView::Platform(z)),
        ) => {},
        (
            Some(UtilityVersionView::Edt(x)),
            Some(UtilityVersionView::Edt(y)),
            Some(UtilityVersionView::Edt(z)),
        ) => {
            edt_versions_are_ordered(x, y, z);
            edt_versions_are_ordered(z, y, x);
            edt_versions_are_ordered(y, z, x);
            edt_versions_are_ordered(z, x, y);
            edt_versions_are_ordered(x, z, y);
        },
        _ => {
            if let (
                Some(UtilityVersionView::Edt(x)),
                Some(UtilityVersionView::Edt(y)),
            ) = (a, b) {
                edt_versions_are_ordered(x, y, x);
            }
            if let Some(UtilityVersionView::Edt(x)) = a {
                edt_versions_are_ordered(x, x, x);
            }
        },
    }
}

/// There is at most one best candidate.
pub proof fn best_candidate_is_unique(
    candidates: Seq<CandidateView>,
    valid: Seq<bool>,
    i: int,
    k: int,
)
    requires
        is_best(candidates, valid, candidates.len() as int, i),
        is_best(candidates, valid, candidates.len() as int, k),
    ensures
        i == k,
{
    if i < k {
        assert(is_valid(valid, k));
    } else if k < i {
        assert(is_valid(valid, i));
    }
}

/// Where any version will do, the highest one is chosen: no candidate that can be executed has a
/// version above that of the choice.
pub proof fn highest_version_is_chosen(
    utility: UtilityType,
    candidates: Seq<CandidateView>,
    valid: Seq<bool>,
    i: int,
)
    requires
        selection(utility, None, candidates, valid) is Ok,
        0 <= i < candidates.len(),
        is_valid(valid, i),
    ensures
        !version_above(
            candidates[i].version,
            selection(utility, None, candidates, valid)->Ok_0.version,
        ),
{
    let n = candidates.len() as int;
    let k = choose|k: int| is_best(candidates, valid, n, k);
    assert(is_best(candidates, valid, n, k));
}

/// Where any version will do, something is chosen exactly where something can be executed.
pub proof fn something_is_chosen_if_anything_is_valid(
    utility: UtilityType,
    candidates: Seq<CandidateView>,
    valid: Seq<bool>,
)
    requires
        all_fit(utility, candidates),
    ensures
        best_candidate(candidates, valid) is Some <==> exists|i: int|
            0 <= i < candidates.len() && #[trigger] is_valid(valid, i),
{
    let n = candidates.len() as int;
    lemma_some_is_best(utility, candidates, valid, n);
    if best_candidate(candidates, valid) is Some {
        let k = choose|k: int| is_best(candidates, valid, n, k);
        assert(is_valid(valid, k));
    }
}

proof fn lemma_some_is_best(
    utility: UtilityType,
    candidates: Seq<CandidateView>,
    valid: Seq<bool>,
    n: int,
)
    requires
        0 <= n <= candidates.len(),
        all_fit(utility, candidates),
    ensures
        (exists|i: int| 0 <= i < n && #[trigger] is_valid(valid, i)) ==> exists|i: int|
            is_best(candidates, valid, n, i),
    decreases n,
{
    if n > 0 {
        lemma_some_is_best(utility, candidates, valid, n - 1);
        let last = candidates[n - 1].version;
        if exists|i: int| 0 <= i < n - 1 && #[trigger] is_valid(valid, i) {
            let m = n - 1;
            let b = choose|b: int| is_best(candidates, valid, m, b);
            let best = candidates[b].version;
            if !is_valid(valid, n - 1) || version_above(best, last) {
                if is_valid(valid, n - 1) {
                    versions_are_ordered(utility, best, last, last);
                }
                assert(is_best(candidates, valid, n, b));
            } else {
                assert forall|j: int| 0 <= j < n && #[trigger] is_valid(
                    valid,
                    j,
                ) implies !version_above(candidates[j].version, last) by {
                    versions_are_ordered(utility, candidates[j].version, best, last);
                }
                assert(is_best(candidates, valid, n, n - 1));
            }
        } else if is_valid(valid, n - 1) {
            versions_are_ordered(utility, last, last, last);
            assert(is_best(candidates, valid, n, n - 1));
        }
    }
}

// ---------------------------------------------------------------------------------------------
// Candidates are absolute, and of the kind of their utility

/// The candidates are absolute, and have versions of the kind that the utility has.
pub open spec fn sound(
    host: HostPlatform,
    utility: UtilityType,
    candidates: Seq<CandidateView>,
) -> bool {
    forall|i: int|
        0 <= i < candidates.len() ==> is_absolute(host, (#[trigger] candidates[i]).path) && fits(
            utility,
            candidates[i].version,
        )
}

/// The places are absolute.
pub open spec fn all_absolute(host: HostPlatform, places: Seq<Seq<char>>) -> bool {
    forall|i: int| 0 <= i < places.len() ==> is_absolute(host, #[trigger] places[i])
}

/// The roots are absolute.
pub open spec fn roots_absolute(host: HostPlatform, listings: Seq<RootListingView>) -> bool {
    forall|i: int| 0 <= i < listings.len() ==> is_absolute(host, (#[trigger] listings[i]).root)
}

proof fn lemma_platform_pair(
    host: HostPlatform,
    utility: UtilityType,
    dir: Seq<char>,
    name: Seq<char>,
    version: PlatformVersion,
)
    requires
        is_absolute(host, dir),
        !(utility is EdtCli),
    ensures
        sound(host, utility, platform_pair(host, dir, name, version)),
{
    child_of_absolute_is_absolute(host, dir, name);
    child_of_absolute_is_absolute(host, dir, "bin"@);
    child_of_absolute_is_absolute(host, child(host, dir, "bin"@), name);
}

/// Below absolute roots, the places of a version are absolute.
pub proof fn lemma_candidates_of_version(
    host: HostPlatform,
    utility: UtilityType,
    name: Seq<char>,
    version: PlatformVersion,
    roots: Seq<Seq<char>>,
    n: int,
)
    requires
        n <= roots.len(),
        all_absolute(host, roots),
        !(utility is EdtCli),
    ensures
        sound(host, utility, candidates_of_version(host, name, version, roots, n)),
    decreases n,
{
    if n > 0 {
        lemma_candidates_of_version(host, utility, name, version, roots, n - 1);
        let dir = child(host, roots[n - 1], version_text(version));
        child_of_absolute_is_absolute(host, roots[n - 1], version_text(version));
        lemma_platform_pair(host, utility, dir, name, version);
    }
}

proof fn lemma_candidates_in_root(
    host: HostPlatform,
    utility: UtilityType,
    name: Seq<char>,
    root: Seq<char>,
    dirs: Seq<Seq<char>>,
    n: int,
)
    requires
        is_absolute(host, root),
        !(utility is EdtCli),
    ensures
        sound(host, utility, candidates_in_root(host, name, root, dirs, n)),
    decreases n,
{
    if n > 0 {
        lemma_candidates_in_root(host, utility, name, root, dirs, n - 1);
        if let Some(version) = strict_version(dirs[n - 1]) {
            child_of_absolute_is_absolute(host, root, dirs[n - 1]);
            lemma_platform_pair(host, utility, child(host, root, dirs[n - 1]), name, version);
        }
    }
}

/// Below absolute roots, the places of the platform are absolute.
pub proof fn lemma_platform_candidates(
    host: HostPlatform,
    utility: UtilityType,
    name: Seq<char>,
    listings: Seq<RootListingView>,
    n: int,
)
    requires
        n <= listings.len(),
        roots_absolute(host, listings),
        !(utility is EdtCli),
    ensures
        sound(host, utility, platform_candidates(host, name, listings, n)),
    decreases n,
{
    if n > 0 {
        lemma_platform_candidates(host, utility, name, listings, n - 1);
        let last = listings[n - 1];
        lemma_candidates_in_root(
            host,
            utility,
            name,
            last.root,
            last.dirs,
            last.dirs.len() as int,
        );
    }
}

proof fn lemma_edt_candidates_in_root(
    host: HostPlatform,
    name: Seq<char>,
    required: Option<EdtVersionView>,
    root: Seq<char>,
    dirs: Seq<Seq<char>>,
    n: int,
)
    requires
        is_absolute(host, root),
    ensures
        sound(
            host,
            UtilityType::EdtCli,
            edt_candidates_in_root(host, name, required, root, dirs, n),
        ),
    decreases n,
{
    if n > 0 {
        lemma_edt_candidates_in_root(host, name, required, root, dirs, n - 1);
        let dir = child(host, root, dirs[n - 1]);
        child_of_absolute_is_absolute(host, root, dirs[n - 1]);
        child_of_absolute_is_absolute(host, dir, "1cedt"@);
        child_of_absolute_is_absolute(host, child(host, dir, "1cedt"@), name);
        child_of_absolute_is_absolute(host, dir, name);
        assert(sound(host, UtilityType::EdtCli, edt_pair(host, root, dirs[n - 1], name)));
    }
}

/// Below absolute roots, the places of EDT are absolute.
pub proof fn lemma_edt_candidates(
    host: HostPlatform,
    name: Seq<char>,
    required: Option<EdtVersionView>,
    listings: Seq<RootListingView>,
    n: int,
)
    requires
        n <= listings.len(),
        roots_absolute(host, listings),
    ensures
        sound(host, UtilityType::EdtCli, edt_candidates(host, name, required, listings, n)),
    decreases n,
{
    if n > 0 {
        lemma_edt_candidates(host, name, required, listings, n - 1);
        let last = listings[n - 1];
        lemma_edt_candidates_in_root(
            host,
            name,
            required,
            last.root,
            last.dirs,
            last.dirs.len() as int,
        );
    }
}

proof fn lemma_version_in_names_fits(utility: UtilityType, names: Seq<Seq<char>>, n: int)
    ensures
        fits(utility, version_in_names(utility, names, n)),
    decreases n,
{
    if n > 0 {
        lemma_version_in_names_fits(utility, names, n - 1);
    }
}

/// In absolute directories of the search path, the places of a utility are absolute.
pub proof fn lemma_path_candidates(
    utility: UtilityType,
    host: HostPlatform,
    dirs: Seq<Seq<char>>,
)
    requires
        all_absolute(host, dirs),
    ensures
        sound(host, utility, path_candidates_of(utility, host, dirs)),
{
    let all = path_candidates_of(utility, host, dirs);
    assert forall|i: int| 0 <= i < all.len() implies is_absolute(host, (#[trigger] all[i]).path)
        && fits(utility, all[i].version) by {
        assert(all[i] == path_candidate(utility, host, dirs[i]));
        child_of_absolute_is_absolute(host, dirs[i], executable_of(utility, host));
        let names = components(host, all[i].path);
        lemma_version_in_names_fits(utility, names, names.len() as int);
    }
}

/// The path that an absolute hint gives is absolute.
pub proof fn path_by_absolute_hint_is_absolute(
    hint: Seq<char>,
    facts: HintFacts,
    utility: UtilityType,
    host: HostPlatform,
)
    requires
        is_absolute(host, hint),
        path_by_hint(hint, facts, utility, host) is Some,
    ensures
        is_absolute(host, path_by_hint(hint, facts, utility, host)->0),
{
    let name = executable_of(utility, host);
    if facts.is_file {
        if file_name_of(host, hint) != Some(name) {
            parent_of_absolute_is_absolute(host, hint);
            child_of_absolute_is_absolute(host, parent_of(host, hint)->0, name);
        }
    } else {
        child_of_absolute_is_absolute(host, hint, name);
        child_of_absolute_is_absolute(host, hint, "bin"@);
        child_of_absolute_is_absolute(host, child(host, hint, "bin"@), name);
    }
}

} // verus!
