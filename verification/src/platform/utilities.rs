//! Utilities of the platform and of EDT, as the configuration describes them.

use vstd::prelude::*;
use crate::config::{AppConfig, AppConfigView};
use crate::path::{
    component_count, is_absolute, path_has_many_components, path_is_absolute, separator_of,
    HostPlatform,
};
use crate::platform::locate::{
    is_placed, locate_next, locate_start, run_is_placed, step_is_placed, LocateAnswer, LocateRun,
    LocateStep, Locator, LocatorView,
};
use crate::platform::locator::{edt_roots_of, platform_roots_of, UtilityType};
use crate::platform::version::{
    lenient_version, strict_version, EdtVersion, EdtVersionView, PlatformVersion,
};
use crate::text::{chars_of, clone_opt, opt_text, opt_view};

verus! {

/// The path of EDT serves as a hint: it cannot be taken for a version.
pub open spec fn is_edt_hint(
    host: HostPlatform,
    path: Seq<char>,
    present: bool,
    has_version: bool,
) -> bool {
    is_absolute(host, path) || component_count(host, path) > 1 || present || !has_version
}

/// Hint for EDT.
pub open spec fn edt_hint_of(
    config: AppConfigView,
    path_exists: bool,
    host: HostPlatform,
) -> Option<Seq<char>> {
    match config.tools.edt_cli.path {
        Some(path) => if is_edt_hint(
            host,
            path,
            path_exists,
            config.tools.edt_cli.version is Some,
        ) {
            Some(path)
        } else {
            None
        },
        None => None,
    }
}

/// Version in a path that is no path: a single name.
pub open spec fn version_in_bare_path(path: Option<Seq<char>>, host: HostPlatform) -> Option<
    EdtVersionView,
> {
    match path {
        Some(text) => if text.contains(separator_of(host)) {
            None
        } else {
            lenient_version(text)
        },
        None => None,
    }
}

/// Version of EDT: the one configured, or else the one that a bare name in place of the path holds.
pub open spec fn edt_version_of(config: AppConfigView, host: HostPlatform) -> Option<
    EdtVersionView,
> {
    let configured = match config.tools.edt_cli.version {
        Some(text) => lenient_version(text),
        None => None,
    };
    if configured is Some {
        configured
    } else {
        version_in_bare_path(config.tools.edt_cli.path, host)
    }
}

/// Version of the platform.
pub open spec fn platform_version_of(config: AppConfigView) -> Option<PlatformVersion> {
    match config.tools.platform.version {
        Some(text) => strict_version(text),
        None => None,
    }
}

/// Locator that the configuration describes.
pub open spec fn configured_locator(
    config: AppConfigView,
    edt_path_exists: bool,
    host: HostPlatform,
    work_dir: Seq<char>,
) -> LocatorView {
    LocatorView {
        platform_hint: config.tools.platform.path,
        platform_version: platform_version_of(config),
        edt_hint: edt_hint_of(config, edt_path_exists, host),
        edt_version: edt_version_of(config, host),
        cache: Map::empty(),
        platform_roots: platform_roots_of(host),
        edt_roots: edt_roots_of(host),
        host,
        work_dir,
    }
}

fn has_char(text: &str, c: char) -> (r: bool)
    ensures
        r == text@.contains(c),
{
    let chars = chars_of(text);
    let mut i: usize = 0;
    while i < chars.len()
        invariant
            i <= chars.len(),
            chars@ == text@,
            forall|k: int| 0 <= k < i ==> chars@[k] != c,
        decreases chars.len() - i,
    {
        if chars[i] == c {
            assert(text@[i as int] == c);
            return true;
        }
        i += 1;
    }
    false
}

fn serves_as_hint(host: HostPlatform, path: &str, present: bool, has_version: bool) -> (r: bool)
    ensures
        r == is_edt_hint(host, path@, present, has_version),
{
    path_is_absolute(host, path) || path_has_many_components(host, path) || present || !has_version
}

fn find_edt_version(
    version: &Option<String>,
    path: &Option<String>,
    host: HostPlatform,
) -> (r: Option<EdtVersion>)
    ensures
        opt_view(r) == (match opt_text(*version) {
            Some(text) => if lenient_version(text) is Some {
                lenient_version(text)
            } else {
                version_in_bare_path(opt_text(*path), host)
            },
            None => version_in_bare_path(opt_text(*path), host),
        }),
{
    if let Some(text) = version {
        let parsed = EdtVersion::parse_lenient(text.as_str());
        if parsed.is_some() {
            return parsed;
        }
    }
    let separator = match host {
        HostPlatform::Windows => '\\',
        _ => '/',
    };
    match path {
        Some(text) => if has_char(text.as_str(), separator) {
            None
        } else {
            EdtVersion::parse_lenient(text.as_str())
        },
        None => None,
    }
}

/// Utilities that can be located.
#[derive(Debug)]
pub struct PlatformUtilities {
    pub locator: Locator,
}

impl PlatformUtilities {
    /// Utilities that the configuration describes; `edt_path_exists` says whether the path
    /// configured for EDT exists, and `work_dir` is where relative paths are seen from.
    pub fn from_config(
        config: &AppConfig,
        edt_path_exists: bool,
        host: HostPlatform,
        work_dir: String,
    ) -> (r: Self)
        requires
            is_absolute(host, work_dir@),
        ensures
            r.locator@ == configured_locator(config@, edt_path_exists, host, work_dir@),
            is_placed(r.locator@),
    {
        let edt = &config.tools.edt_cli;
        let edt_hint = match &edt.path {
            Some(path) => if serves_as_hint(
                host,
                path.as_str(),
                edt_path_exists,
                edt.version.is_some(),
            ) {
                Some(path.clone())
            } else {
                None
            },
            None => None,
        };
        let edt_version = find_edt_version(&edt.version, &edt.path, host);
        let platform_version = match &config.tools.platform.version {
            Some(text) => PlatformVersion::parse_strict(text.as_str()),
            None => None,
        };
        PlatformUtilities {
            locator: Locator::new(
                clone_opt(&config.tools.platform.path),
                platform_version,
                edt_hint,
                edt_version,
                host,
                work_dir,
            ),
        }
    }

    /// Utilities that the locator finds.
    pub fn with_locator(locator: Locator) -> (r: Self)
        ensures
            r.locator == locator,
    {
        PlatformUtilities { locator }
    }

    /// First question of a search for a utility.
    pub fn locate(&self, utility: UtilityType) -> (r: LocateStep)
        requires
            is_placed(self.locator@),
        ensures
            r@ == locate_start(self.locator@, utility),
            step_is_placed(self.locator@, r@, utility),
    {
        self.locator.locate(utility)
    }

    /// What follows an answer.
    pub fn resume(&mut self, run: LocateRun, answer: LocateAnswer) -> (r: LocateStep)
        requires
            is_placed(old(self).locator@),
            run_is_placed(old(self).locator@, run@),
        ensures
            (final(self).locator@, r@) == locate_next(old(self).locator@, run@, answer@),
            is_placed(final(self).locator@),
            step_is_placed(final(self).locator@, r@, run@.utility),
    {
        self.locator.resume(run, answer)
    }
}

} // verus!
