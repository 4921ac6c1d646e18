use v8_runner::config::{AppConfig, BuilderBackend, InfobaseConfig, SourceFormat};
use v8_runner::config::{BuildConfig, McpConfig, TestsConfig, ToolsConfig};
use v8_runner::path::HostPlatform;
use v8_runner::platform::locate::{LocateAnswer, LocateAsk, Locator};
use v8_runner::platform::locator::{
    infer_version, resolve_from_hint, select_candidate, Candidate, HintFacts, LocatorError,
    RootListing, UtilityLocation, UtilityType, UtilityVersion,
};
use v8_runner::platform::utilities::PlatformUtilities;
use v8_runner::platform::version::{edt_version_matches, EdtVersion, PlatformVersion};

/// File system that holds executable files.
#[derive(Default)]
struct Disk {
    files: Vec<String>,
}

impl Disk {
    fn with(files: &[&str]) -> Self {
        Disk {
            files: files.iter().map(|file| (*file).to_owned()).collect(),
        }
    }

    fn is_file(&self, path: &str) -> bool {
        self.files.iter().any(|file| file == path)
    }

    fn is_dir(&self, path: &str) -> bool {
        let prefix = format!("{path}/");
        self.files.iter().any(|file| file.starts_with(&prefix))
    }

    fn dirs_below(&self, root: &str) -> Vec<String> {
        let prefix = format!("{root}/");
        let mut dirs: Vec<String> = self
            .files
            .iter()
            .filter_map(|file| file.strip_prefix(&prefix))
            .filter_map(|rest| rest.split_once('/'))
            .map(|(dir, _)| dir.to_owned())
            .collect();
        dirs.sort();
        dirs.dedup();
        dirs
    }

    fn answer(&self, ask: &LocateAsk) -> LocateAnswer {
        match ask {
            LocateAsk::CheckExecutable { path } => LocateAnswer::Executable {
                executable: self.is_file(path),
            },
            LocateAsk::InspectHint { path, direct } => LocateAnswer::Hint {
                facts: HintFacts {
                    is_file: self.is_file(path),
                    is_dir: self.is_dir(path),
                    direct_exists: self.is_file(direct) || self.is_dir(direct),
                },
            },
            LocateAsk::ListRoots { roots, .. } => LocateAnswer::Roots {
                listings: roots
                    .iter()
                    .map(|root| RootListing {
                        root: root.clone(),
                        dirs: self.dirs_below(root),
                    })
                    .collect(),
                path_dirs: vec![],
            },
            LocateAsk::CheckCandidates { paths } => LocateAnswer::Candidates {
                valid: paths.iter().map(|path| self.is_file(path)).collect(),
            },
            other => panic!("unexpected question: {other:?}"),
        }
    }

    fn locate(
        &self,
        locator: &mut Locator,
        utility: UtilityType,
    ) -> Result<UtilityLocation, LocatorError> {
        let mut step = locator.locate(utility);
        loop {
            match step.ask {
                LocateAsk::Found { location } => return Ok(location),
                LocateAsk::Failed { error } => return Err(error),
                ask => {
                    let answer = self.answer(&ask);
                    step = locator.resume(step.run, answer);
                }
            }
        }
    }
}

fn text(value: &str) -> Option<String> {
    Some(value.to_owned())
}

fn locator(
    platform_hint: Option<String>,
    platform_version: Option<&str>,
    edt_hint: Option<String>,
    edt_version: Option<&str>,
    platform_roots: &[&str],
    edt_roots: &[&str],
) -> Locator {
    Locator::with_roots(
        platform_hint,
        platform_version.map(|v| PlatformVersion::parse_strict(v).expect("version")),
        edt_hint,
        edt_version.map(|v| EdtVersion::parse_lenient(v).expect("version")),
        platform_roots.iter().map(|r| (*r).to_owned()).collect(),
        edt_roots.iter().map(|r| (*r).to_owned()).collect(),
        HostPlatform::Linux,
        "/work".to_owned(),
    )
}

#[test]
fn parse_strict_platform_version_requires_four_parts() {
    assert!(PlatformVersion::parse_strict("8.3.25").is_none());
    assert!(PlatformVersion::parse_strict("8.3.25.1234").is_some());
}

#[test]
fn parse_lenient_edt_version_extracts_numeric_tokens() {
    let version = EdtVersion::parse_lenient("1c-edt-2025.1.0+656-x86_64").expect("version");
    assert_eq!(version.parts, vec![1, 2025, 1, 0, 656, 86, 64]);
}

#[test]
fn platform_version_survives_its_text() {
    let version = PlatformVersion::parse_strict("8.3.25.1234").expect("version");
    assert_eq!(version.text(), "8.3.25.1234");
    assert_eq!(PlatformVersion::parse_strict(&version.text()), Some(version));
}

#[test]
fn versions_are_ordered_part_by_part() {
    let older = PlatformVersion::parse_strict("8.3.9.2000").expect("version");
    let newer = PlatformVersion::parse_strict("8.3.10.1000").expect("version");
    assert!(older.is_below(newer));
    assert!(!newer.is_below(older));
    assert!(!newer.is_below(newer));

    let short = EdtVersion::parse_lenient("2025.1").expect("version");
    let long = EdtVersion::parse_lenient("2025.1.0").expect("version");
    assert!(short.is_below(&long));
    assert_eq!(long.text(), "2025.1.0");
}

#[test]
fn edt_version_matches_in_a_row_only() {
    let required = EdtVersion::parse_lenient("2025.2").expect("version");
    let same = EdtVersion::parse_lenient("1c-edt-2025.2.3").expect("version");
    let other = EdtVersion::parse_lenient("1c-edt-2025.1.2").expect("version");
    assert!(edt_version_matches(&required, &same));
    assert!(!edt_version_matches(&required, &other));
    assert!(edt_version_matches(&required, &required));
}

#[test]
fn explicit_file_hint_supports_sibling_binary_lookup() {
    let disk = Disk::with(&["/work/1cv8", "/work/1cv8c"]);
    let mut locator = locator(text("/work/1cv8"), None, None, None, &[], &[]);

    let location = disk.locate(&mut locator, UtilityType::V8C).expect("locate");
    assert_eq!(location.path, "/work/1cv8c");
}

#[test]
fn explicit_directory_hint_checks_direct_and_bin_layouts() {
    let disk = Disk::with(&["/work/install/bin/1cv8"]);
    let mut locator = locator(text("/work/install"), None, None, None, &[], &[]);

    let location = disk.locate(&mut locator, UtilityType::V8).expect("locate");
    assert_eq!(location.path, "/work/install/bin/1cv8");
}

#[test]
fn explicit_root_hint_searches_versioned_children() {
    let disk = Disk::with(&["/work/platform-root/8.3.25.1234/bin/1cv8c"]);
    let mut locator = locator(
        text("/work/platform-root"),
        Some("8.3.25.1234"),
        None,
        None,
        &[],
        &[],
    );

    let location = disk.locate(&mut locator, UtilityType::V8C).expect("locate");
    assert_eq!(location.path, "/work/platform-root/8.3.25.1234/bin/1cv8c");
}

#[test]
fn platform_search_prefers_exact_version_match() {
    let disk = Disk::with(&["/work/platform/8.3.25.1234/1cv8", "/work/platform/8.3.24.9999/1cv8"]);
    let mut locator = locator(None, Some("8.3.25.1234"), None, None, &["/work/platform"], &[]);

    let location = disk.locate(&mut locator, UtilityType::V8).expect("locate");
    assert_eq!(location.path, "/work/platform/8.3.25.1234/1cv8");
    assert!(matches!(
        location.version,
        Some(UtilityVersion::Platform(_))
    ));
}

#[test]
fn edt_search_picks_highest_lenient_version() {
    let newer = "/work/edt/1c-edt-2025.1.0+656-x86_64/1cedt/1cedtcli";
    let older = "/work/edt/1c-edt-2024.2.0+100-x86_64/1cedt/1cedtcli";
    let disk = Disk::with(&[newer, older]);
    let mut locator = locator(None, None, None, None, &[], &["/work/edt"]);

    let location = disk
        .locate(&mut locator, UtilityType::EdtCli)
        .expect("locate");
    assert_eq!(location.path, newer);
}

#[test]
fn invalidates_broken_cache_entries_and_relocates() {
    let first = "/work/platform/8.3.25.1234/1cv8";
    let second = "/work/platform/8.3.25.1234/bin/1cv8";
    let mut locator = locator(None, Some("8.3.25.1234"), None, None, &["/work/platform"], &[]);

    let disk = Disk::with(&[first]);
    let first_path = disk
        .locate(&mut locator, UtilityType::V8)
        .expect("first")
        .path;
    assert_eq!(first_path, first);

    let disk = Disk::with(&[second]);
    let second_path = disk
        .locate(&mut locator, UtilityType::V8)
        .expect("second")
        .path;
    assert_eq!(second_path, second);
}

#[test]
fn utility_location_can_infer_platform_version_from_path() {
    let version = infer_version(
        UtilityType::V8,
        "/opt/1cv8/x86_64/8.3.25.1234/1cv8",
        HostPlatform::Linux,
    );

    assert!(matches!(version, Some(UtilityVersion::Platform(_))));
}

#[test]
fn edt_search_accepts_version_prefix_hint() {
    let wanted = "/work/edt/1c-edt-2025.2.3+30-x86_64/1cedt/1cedtcli";
    let other = "/work/edt/1c-edt-2025.1.9+100-x86_64/1cedt/1cedtcli";
    let disk = Disk::with(&[wanted, other]);
    let mut locator = locator(None, None, None, Some("1c-edt-2025.2.3"), &[], &["/work/edt"]);

    let location = disk
        .locate(&mut locator, UtilityType::EdtCli)
        .expect("locate");
    assert_eq!(location.path, wanted);
}

#[test]
fn edt_search_accepts_plain_numeric_version_hint() {
    let wanted = "/work/edt/1c-edt-2025.2.3+30-x86_64/1cedt/1cedtcli";
    let other = "/work/edt/1c-edt-2025.1.9+100-x86_64/1cedt/1cedtcli";
    let disk = Disk::with(&[wanted, other]);
    let mut locator = locator(None, None, None, Some("2025.2.3"), &[], &["/work/edt"]);

    let location = disk
        .locate(&mut locator, UtilityType::EdtCli)
        .expect("locate");
    assert_eq!(location.path, wanted);
}

#[test]
fn found_location_is_asked_first_the_next_time() {
    let path = "/work/platform/8.3.25.1234/1cv8";
    let disk = Disk::with(&[path]);
    let mut locator = locator(None, None, None, None, &["/work/platform"], &[]);
    disk.locate(&mut locator, UtilityType::V8).expect("locate");

    assert_eq!(
        locator.locate(UtilityType::V8).ask,
        LocateAsk::CheckExecutable {
            path: path.to_owned()
        }
    );
    assert!(matches!(
        locator.locate(UtilityType::V8C).ask,
        LocateAsk::ListRoots {
            with_path: true,
            ..
        }
    ));
}

#[test]
fn answer_to_another_question_is_asked_for_again() {
    let mut locator = locator(None, None, None, None, &[], &[]);
    let step = locator.locate(UtilityType::V8);
    let step = locator.resume(step.run, LocateAnswer::Executable { executable: true });
    assert_eq!(step.ask, LocateAsk::Repeat);
}

#[test]
fn version_that_is_asked_for_is_the_only_one_taken() {
    let version = |text: &str| PlatformVersion::parse_strict(text).expect("version");
    let candidates = vec![Candidate {
        path: "/opt/1cv8/8.3.24.1/1cv8".to_owned(),
        version: Some(UtilityVersion::Platform(version("8.3.24.1"))),
    }];
    let valid = vec![true];
    assert_eq!(
        select_candidate(
            UtilityType::V8,
            Some(version("8.3.25.1")),
            &candidates,
            &valid
        ),
        Err(LocatorError::NotFound(UtilityType::V8))
    );
    assert!(select_candidate(UtilityType::V8, None, &candidates, &valid).is_ok());
    assert!(select_candidate(UtilityType::V8, None, &candidates, &vec![false]).is_err());
}

#[test]
fn utilities_have_the_names_of_their_system() {
    assert_eq!(
        UtilityType::V8.executable_name(HostPlatform::Windows),
        "1cv8.exe"
    );
    assert_eq!(
        LocatorError::NotFound(UtilityType::EdtCli).message(HostPlatform::Linux),
        "utility '1cedtcli' was not found"
    );
    assert!(!UtilityType::EdtCli.is_platform());
    assert!(UtilityType::Ibcmd.is_platform());
}

#[test]
fn locate_edt_cli_uses_configured_binary_path() {
    let disk = Disk::with(&["/work/1cedtcli"]);
    let mut utilities = PlatformUtilities::with_locator(locator(
        None,
        None,
        text("/work/1cedtcli"),
        None,
        &[],
        &[],
    ));

    let location = disk
        .locate(&mut utilities.locator, UtilityType::EdtCli)
        .expect("locate edt");
    assert_eq!(location.path, "/work/1cedtcli");
}

#[test]
fn locate_edt_cli_returns_not_found_when_unconfigured() {
    let disk = Disk::default();
    let mut utilities =
        PlatformUtilities::with_locator(locator(None, None, None, None, &[], &[]));

    let error = disk
        .locate(&mut utilities.locator, UtilityType::EdtCli)
        .expect_err("expected not found");
    assert!(matches!(
        error,
        LocatorError::NotFound(UtilityType::EdtCli)
    ));
}

#[test]
fn locate_edt_cli_uses_version_filtered_autodiscovery() {
    let wanted = "/work/components/1c-edt-2025.2.3+30-x86_64/1cedt/1cedtcli";
    let older = "/work/components/1c-edt-2025.1.9+10-x86_64/1cedt/1cedtcli";
    let disk = Disk::with(&[wanted, older]);
    let mut utilities = PlatformUtilities::with_locator(locator(
        None,
        None,
        None,
        Some("1c-edt-2025.2.3"),
        &[],
        &["/work/components"],
    ));

    let location = disk
        .locate(&mut utilities.locator, UtilityType::EdtCli)
        .expect("locate edt");
    assert_eq!(location.path, wanted);
}

fn config() -> AppConfig {
    AppConfig {
        base_path: "/tmp/project".to_owned(),
        work_path: "/tmp/work".to_owned(),
        execution_timeout: 300_000,
        format: SourceFormat::Edt,
        builder: BuilderBackend::Designer,
        infobase: InfobaseConfig::file("File=/tmp/ib"),
        source_sets: vec![],
        build: BuildConfig::default(),
        tools: ToolsConfig::default(),
        mcp: McpConfig::default(),
        tests: TestsConfig::default(),
    }
}

#[test]
fn bare_name_in_place_of_the_edt_path_is_a_version() {
    let mut config = config();
    config.tools.edt_cli.path = text("2025.2");
    config.tools.edt_cli.version = text("latest");
    let utilities = PlatformUtilities::from_config(
        &config,
        false,
        HostPlatform::Linux,
        "/work".to_owned(),
    );
    assert_eq!(utilities.locator.edt_hint, None);
    assert_eq!(
        utilities.locator.edt_version,
        Some(EdtVersion {
            parts: vec![2025, 2]
        })
    );

    config.tools.edt_cli.path = text("/opt/edt");
    let utilities = PlatformUtilities::from_config(
        &config,
        false,
        HostPlatform::Linux,
        "/work".to_owned(),
    );
    assert_eq!(utilities.locator.edt_hint.as_deref(), Some("/opt/edt"));
    assert_eq!(utilities.locator.edt_version, None);
}

#[test]
fn relative_hint_is_found_at_an_absolute_path() {
    let disk = Disk::with(&["/work/1cv8", "/work/tools/ibcmd"]);

    let mut locator = locator(text("1cv8"), None, None, None, &[], &[]);
    let location = disk.locate(&mut locator, UtilityType::V8).expect("1cv8");
    assert_eq!(location.utility, UtilityType::V8);
    assert_eq!(location.path, "/work/1cv8");

    locator.platform_hint = text("tools");
    let location = disk
        .locate(&mut locator, UtilityType::Ibcmd)
        .expect("ibcmd");
    assert_eq!(location.path, "/work/tools/ibcmd");
}

#[test]
fn relative_roots_are_seen_from_the_working_directory() {
    let disk = Disk::with(&["/work/install/8.3.25.1000/1cv8"]);
    let mut locator = locator(None, None, None, None, &["install"], &[]);
    let location = disk.locate(&mut locator, UtilityType::V8).expect("1cv8");
    assert_eq!(location.path, "/work/install/8.3.25.1000/1cv8");
}

#[test]
fn relative_directory_of_the_search_path_is_seen_from_the_working_directory() {
    let locator = locator(None, None, None, None, &[], &[]);
    let candidates = locator.search_candidates(
        UtilityType::V8,
        &vec![],
        &vec!["bin".to_owned(), "/usr/bin".to_owned()],
    );
    let paths: Vec<&str> = candidates.iter().map(|c| c.path.as_str()).collect();
    assert_eq!(paths, vec!["/work/bin/1cv8", "/usr/bin/1cv8"]);
}

#[test]
fn absolute_windows_path_of_edt_is_kept_beside_a_version() {
    let mut config = config();
    config.tools.edt_cli.path = text("C:\\edt\\1cedtcli.exe");
    config.tools.edt_cli.version = text("2025.2");
    let utilities = PlatformUtilities::from_config(
        &config,
        false,
        HostPlatform::Windows,
        "C:\\work".to_owned(),
    );
    assert_eq!(
        utilities.locator.edt_hint.as_deref(),
        Some("C:\\edt\\1cedtcli.exe")
    );

    config.tools.edt_cli.path = text("edt");
    let utilities = PlatformUtilities::from_config(
        &config,
        false,
        HostPlatform::Windows,
        "C:\\work".to_owned(),
    );
    assert_eq!(utilities.locator.edt_hint, None);
}

#[test]
fn windows_hint_leads_to_the_file_or_its_sibling() {
    let file = HintFacts {
        is_file: true,
        is_dir: false,
        direct_exists: false,
    };
    for (hint, utility, path) in [
        ("C:\\x\\1cv8.exe", UtilityType::V8, "C:\\x\\1cv8.exe"),
        ("C:\\x\\1cv8.exe", UtilityType::Ibcmd, "C:\\x\\ibcmd.exe"),
        ("C:/x/1cv8.exe", UtilityType::V8C, "C:/x\\1cv8c.exe"),
    ] {
        assert_eq!(
            resolve_from_hint(hint, file, utility, HostPlatform::Windows).as_deref(),
            Some(path)
        );
    }
    assert_eq!(
        infer_version(
            UtilityType::V8,
            "C:\\Program Files\\1cv8\\8.3.25.1000\\bin\\1cv8.exe",
            HostPlatform::Windows,
        ),
        PlatformVersion::parse_strict("8.3.25.1000").map(UtilityVersion::Platform)
    );
}

#[test]
fn last_of_the_highest_versions_is_chosen() {
    let candidate = |path: &str, version: Option<&str>| Candidate {
        path: path.to_owned(),
        version: version.and_then(EdtVersion::parse_lenient).map(UtilityVersion::Edt),
    };
    let candidates = vec![
        candidate("/a", Some("2024.2.1")),
        candidate("/b", Some("2025.1")),
        candidate("/c", None),
        candidate("/d", Some("2025.1")),
        candidate("/e", Some("2025.2")),
    ];
    let chosen = |valid: [bool; 5]| {
        select_candidate(UtilityType::EdtCli, None, &candidates, &valid.to_vec())
            .map(|location| location.path)
    };
    assert_eq!(chosen([true, true, true, true, true]), Ok("/e".to_owned()));
    assert_eq!(chosen([true, true, true, true, false]), Ok("/d".to_owned()));
    assert_eq!(chosen([true, false, true, false, false]), Ok("/a".to_owned()));
    assert_eq!(
        chosen([false; 5]),
        Err(LocatorError::NotFound(UtilityType::EdtCli))
    );
}
