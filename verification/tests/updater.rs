use wynobserve::checksum::{calculate_sha256, find_expected_digest, verify_checksum, ChecksumError};
use wynobserve::component::Component;
use wynobserve::install::{download_directory, helper_arguments, observatory_updated, partial_name, VerifiedPackage};
use wynobserve::options::{confirms_install, install_step, parse_options, InstallStep, Invocation, Options, OptionsError};
use wynobserve::plan::{
    build, download_decision, interpret_dpkg_query, parse_debian_version, plan_lines, update_count,
    ComponentPlan, DetectError, DownloadDecision, InstalledComponent, UpdateState,
};
use wynobserve::release::{select_latest_release, GithubAsset, GithubRelease, LatestRelease, ReleaseError};
use wynobserve::version::SemVer;

const EMPTY_SHA256: &str = "e3b0c44298fc1c149afbf4c8996fb92427ae41e4649b934ca495991b7852b855";
const ABC_SHA256: &str = "ba7816bf8f01cfea414140de5dae2223b00361a396177a9cb410ff61f20015ad";

fn args(list: &[&str]) -> Vec<String> {
    list.iter().map(|s| s.to_string()).collect()
}

fn version(text: &str) -> SemVer {
    parse_debian_version(text).unwrap()
}

/// The version that release selection reads from a tag.
fn tagged_version(text: &str) -> Option<SemVer> {
    let tag = format!("agent-v{text}");
    let releases = vec![release(&tag, false, false, &["wyncommand-agent_x.deb", "SHA256SUMS"])];
    select_latest_release(Component::Agent, &releases).unwrap().map(|r| r.version)
}

/// Whether the Updater offers `latest` over an installed `installed`.
fn offers_update(installed: &str, latest: &str) -> bool {
    let release = latest_with(Component::Agent, &format!("agent-v{latest}"), tagged_version(latest).unwrap());
    let plan = build(Component::Agent, Some(InstalledComponent { version: tagged_version(installed).unwrap() }), Some(release));
    matches!(plan.state, UpdateState::UpdateAvailable { .. })
}

fn asset(name: &str) -> GithubAsset {
    GithubAsset {
        name: name.to_string(),
        browser_download_url: format!("https://example.invalid/{name}"),
    }
}

fn release(tag: &str, draft: bool, prerelease: bool, assets: &[&str]) -> GithubRelease {
    GithubRelease {
        tag_name: tag.to_string(),
        draft,
        prerelease,
        assets: assets.iter().map(|a| asset(a)).collect(),
    }
}

fn latest_with(component: Component, tag: &str, version: SemVer) -> LatestRelease {
    LatestRelease {
        component,
        tag: tag.to_string(),
        deb_name: format!("{}_{}_amd64.deb", component.package_name(), version.text()),
        version,
        deb_url: "https://example.invalid/deb".to_string(),
        checksum_url: "https://example.invalid/SHA256SUMS".to_string(),
    }
}

fn latest(component: Component, tag: &str, v: &str) -> LatestRelease {
    latest_with(component, tag, version(v))
}

// ----- components -----

#[test]
fn component_names() {
    assert_eq!(Component::ALL.len(), 3);
    assert_eq!(Component::Agent.display_name(), "Agent");
    assert_eq!(Component::Observatory.display_name(), "Observatory");
    assert_eq!(Component::Updater.display_name(), "Updater");
    assert_eq!(Component::Agent.package_name(), "wyncommand-agent");
    assert_eq!(Component::Observatory.package_name(), "wynobserve");
    assert_eq!(Component::Updater.package_name(), "wyn-updater");
    assert_eq!(Component::Agent.release_prefix(), "agent-v");
    assert_eq!(Component::Observatory.release_prefix(), "observatory-v");
    assert_eq!(Component::Updater.release_prefix(), "updater-v");
}

// ----- command line -----

#[test]
fn options_default_to_checking_only() {
    let r = parse_options(&args(&[])).unwrap();
    assert_eq!(r, Invocation::Run(Options::default()));
}

#[test]
fn install_implies_download() {
    let r = parse_options(&args(&["--install"])).unwrap();
    assert_eq!(r, Invocation::Run(Options { download: true, install: true, force: false, yes: false }));
    let r = parse_options(&args(&["--install", "--yes", "--force"])).unwrap();
    assert_eq!(r, Invocation::Run(Options { download: true, install: true, force: true, yes: true }));
    let r = parse_options(&args(&["-y", "--install"])).unwrap();
    assert_eq!(r, Invocation::Run(Options { download: true, install: true, force: false, yes: true }));
}

#[test]
fn option_errors() {
    assert_eq!(
        parse_options(&args(&["--bogus"])),
        Err(OptionsError::UnknownArgument { argument: "--bogus".to_string() })
    );
    assert_eq!(parse_options(&args(&["--force"])), Err(OptionsError::ForceWithoutDownload));
    assert_eq!(parse_options(&args(&["--download", "--yes"])), Err(OptionsError::YesWithoutInstall));
    assert_eq!(
        OptionsError::UnknownArgument { argument: "-x".to_string() }.message(),
        "unknown argument `-x`"
    );
    assert_eq!(OptionsError::ForceWithoutDownload.message(), "--force requires --download or --install");
    assert_eq!(OptionsError::YesWithoutInstall.message(), "--yes requires --install");
}

#[test]
fn help_and_version_stop_reading() {
    assert_eq!(parse_options(&args(&["--help", "--bogus"])), Ok(Invocation::Help));
    assert_eq!(parse_options(&args(&["-h"])), Ok(Invocation::Help));
    assert_eq!(parse_options(&args(&["--version"])), Ok(Invocation::Version));
    assert_eq!(parse_options(&args(&["--download", "-V"])), Ok(Invocation::Version));
    assert!(matches!(parse_options(&args(&["--bogus", "--help"])), Err(OptionsError::UnknownArgument { .. })));
}

#[test]
fn confirmation_answers() {
    assert!(confirms_install("y"));
    assert!(confirms_install("YES\n"));
    assert!(confirms_install("  Yes  "));
    assert!(!confirms_install(""));
    assert!(!confirms_install("no"));
    assert!(!confirms_install("yeah"));
}

#[test]
fn install_steps() {
    let install = Options { download: true, install: true, force: false, yes: false };
    let yes = Options { yes: true, ..install };
    assert_eq!(install_step(install, 0), InstallStep::Skip);
    assert_eq!(install_step(install, 2), InstallStep::Confirm);
    assert_eq!(install_step(yes, 1), InstallStep::Proceed);
    assert_eq!(install_step(Options::default(), 3), InstallStep::Skip);
}

// ----- versions -----

#[test]
fn semver_parsing_and_order() {
    let v = tagged_version("1.2.3-rc.1+build.5").unwrap();
    assert_eq!((v.major(), v.minor(), v.patch()), (1, 2, 3));
    assert_eq!(v.pre(), "rc.1");
    assert_eq!(v.build(), "build.5");
    assert_eq!(v.text(), "1.2.3-rc.1+build.5");
    assert_eq!(version("0.10.0").text(), "0.10.0");
    assert!(tagged_version("1.2").is_none());
    assert!(tagged_version("v1.2.3").is_none());
    assert!(tagged_version("01.2.3").is_none());
    assert!(offers_update("0.9.9", "0.10.0"));
    assert!(offers_update("1.0.0-alpha", "1.0.0"));
    assert!(offers_update("1.0.0-alpha", "1.0.0-beta"));
    assert!(!offers_update("1.0.0", "1.0.0"));
    assert!(!offers_update("2.0.0", "1.99.99"));
    assert!(!offers_update("1.0.0", "1.0.0-rc.1"));
}

#[test]
fn debian_revision_is_ignored() {
    assert_eq!(parse_debian_version("0.2.0").unwrap().text(), "0.2.0");
    assert_eq!(parse_debian_version("0.2.0-1").unwrap().text(), "0.2.0");
    assert!(parse_debian_version("garbage").is_err());
}

#[test]
fn dpkg_query_outcomes() {
    let r = interpret_dpkg_query(Component::Agent, true, "install ok installed\t0.3.1-2\n").unwrap();
    assert_eq!(r.unwrap().version.text(), "0.3.1");
    assert!(interpret_dpkg_query(Component::Agent, false, "").unwrap().is_none());
    assert!(interpret_dpkg_query(Component::Agent, true, "deinstall ok config-files\t0.3.1").unwrap().is_none());
    let e = interpret_dpkg_query(Component::Observatory, true, "no tab here").unwrap_err();
    assert!(matches!(e, DetectError::UnexpectedOutput { component: Component::Observatory }));
    assert_eq!(e.message().unwrap(), "unexpected dpkg-query output for Observatory");
    let e = interpret_dpkg_query(Component::Agent, true, "install ok installed\tnot-a-version").unwrap_err();
    assert!(matches!(e, DetectError::InvalidVersion(_)));
    assert!(e.message().is_none());
}

// ----- plans -----

#[test]
fn plan_states() {
    let none = build(Component::Agent, None, Some(latest(Component::Agent, "agent-v0.2.0", "0.2.0")));
    assert!(matches!(none.state, UpdateState::NotInstalled));

    let older = InstalledComponent { version: version("0.1.0") };
    let p = build(Component::Agent, Some(older), Some(latest(Component::Agent, "agent-v0.2.0", "0.2.0")));
    match &p.state {
        UpdateState::UpdateAvailable { installed, latest } => {
            assert_eq!(installed.text(), "0.1.0");
            assert_eq!(latest.text(), "0.2.0");
        }
        other => panic!("unexpected {other:?}"),
    }

    let same = InstalledComponent { version: version("0.2.0") };
    let p = build(Component::Agent, Some(same), Some(latest(Component::Agent, "agent-v0.2.0", "0.2.0")));
    assert!(matches!(&p.state, UpdateState::Current { version } if version.text() == "0.2.0"));

    let newer = InstalledComponent { version: version("0.3.0") };
    let p = build(Component::Agent, Some(newer), Some(latest(Component::Agent, "agent-v0.2.0", "0.2.0")));
    assert!(matches!(&p.state, UpdateState::Current { version } if version.text() == "0.3.0"));

    let alone = InstalledComponent { version: version("0.3.0") };
    let p = build(Component::Updater, Some(alone), None);
    assert!(matches!(&p.state, UpdateState::Current { .. }));
    assert!(p.release.is_none());
}

#[test]
fn plan_lines_and_summary() {
    let p = build(
        Component::Observatory,
        Some(InstalledComponent { version: version("0.1.0") }),
        Some(latest(Component::Observatory, "observatory-v0.2.0", "0.2.0")),
    );
    assert_eq!(
        plan_lines(&p),
        vec![
            "Observatory".to_string(),
            "  Installed   0.1.0".to_string(),
            "  Latest      0.2.0".to_string(),
            "  Status      UPDATE AVAILABLE".to_string(),
        ]
    );
    let q = build(Component::Agent, None, None);
    assert_eq!(
        plan_lines(&q),
        vec!["Agent".to_string(), "  Installed   NOT INSTALLED".to_string(), "  Status      NOT INSTALLED".to_string()]
    );
    let c = build(
        Component::Updater,
        Some(InstalledComponent { version: version("1.0.0") }),
        Some(latest(Component::Updater, "updater-v1.0.0", "1.0.0")),
    );
    assert_eq!(
        plan_lines(&c),
        vec![
            "Updater".to_string(),
            "  Installed   1.0.0".to_string(),
            "  Latest      1.0.0".to_string(),
            "  Status      CURRENT".to_string(),
        ]
    );
    let plans: Vec<ComponentPlan> = vec![p, q, c];
    assert_eq!(update_count(&plans), 1);
    assert_eq!(download_decision(&plans[0], false), DownloadDecision::Download);
    assert_eq!(download_decision(&plans[1], false), DownloadDecision::Skip);
    assert_eq!(download_decision(&plans[1], true), DownloadDecision::NoRelease);
    assert_eq!(download_decision(&plans[2], false), DownloadDecision::Skip);
    assert_eq!(download_decision(&plans[2], true), DownloadDecision::Download);
}

// ----- release selection -----

#[test]
fn newest_published_release_wins() {
    let releases = vec![
        release("agent-v0.2.0", false, false, &["wyncommand-agent_0.2.0_amd64.deb", "SHA256SUMS"]),
        release("agent-v0.10.0", false, false, &["wyncommand-agent_0.10.0_amd64.deb", "SHA256SUMS"]),
        release("agent-v0.11.0", true, false, &["wyncommand-agent_0.11.0_amd64.deb", "SHA256SUMS"]),
        release("agent-v0.12.0", false, true, &["wyncommand-agent_0.12.0_amd64.deb", "SHA256SUMS"]),
        release("observatory-v9.0.0", false, false, &["wynobserve_9.0.0_amd64.deb", "SHA256SUMS"]),
        release("agent-vbroken", false, false, &[]),
    ];
    let r = select_latest_release(Component::Agent, &releases).unwrap().unwrap();
    assert_eq!(r.tag, "agent-v0.10.0");
    assert_eq!(r.version.text(), "0.10.0");
    assert_eq!(r.deb_name, "wyncommand-agent_0.10.0_amd64.deb");
    assert_eq!(r.deb_url, "https://example.invalid/wyncommand-agent_0.10.0_amd64.deb");
    assert_eq!(r.checksum_url, "https://example.invalid/SHA256SUMS");
    assert!(matches!(r.component, Component::Agent));
}

#[test]
fn no_candidate_gives_none() {
    let releases = vec![release("observatory-v1.0.0", false, false, &["wynobserve_1.0.0_amd64.deb", "SHA256SUMS"])];
    assert!(select_latest_release(Component::Updater, &releases).unwrap().is_none());
    assert!(select_latest_release(Component::Updater, &Vec::new()).unwrap().is_none());
}

#[test]
fn malformed_newest_release_is_reported() {
    let releases = vec![
        release("observatory-v1.0.0", false, false, &["wynobserve_1.0.0_amd64.deb", "SHA256SUMS"]),
        release("observatory-v1.1.0", false, false, &["SHA256SUMS"]),
    ];
    let e = select_latest_release(Component::Observatory, &releases).unwrap_err();
    assert!(matches!(&e, ReleaseError::MissingPackage { tag, .. } if tag == "observatory-v1.1.0"));
    assert_eq!(e.message(), "observatory-v1.1.0 does not contain a Debian package for Observatory");

    let releases = vec![release("observatory-v1.2.0", false, false, &["wynobserve_1.2.0_amd64.deb"])];
    let e = select_latest_release(Component::Observatory, &releases).unwrap_err();
    assert!(matches!(&e, ReleaseError::MissingChecksums { tag } if tag == "observatory-v1.2.0"));
    assert_eq!(e.message(), "observatory-v1.2.0 does not contain SHA256SUMS");
}

#[test]
fn first_matching_assets_are_used() {
    let releases = vec![release(
        "updater-v2.0.0",
        false,
        false,
        &["wyn-updater.tar.gz", "wyn-updater_2.0.0_amd64.deb", "wyn-updater_2.0.0_arm64.deb", "SHA256SUMS"],
    )];
    let r = select_latest_release(Component::Updater, &releases).unwrap().unwrap();
    assert_eq!(r.deb_name, "wyn-updater_2.0.0_amd64.deb");
}

// ----- checksums -----

#[test]
fn sha256_of_known_inputs() {
    assert_eq!(calculate_sha256(b""), EMPTY_SHA256);
    assert_eq!(calculate_sha256(b"abc"), ABC_SHA256);
}

#[test]
fn manifest_lookup() {
    let manifest = format!("{ABC_SHA256}  other.deb\n{}  *pkg.deb\n", EMPTY_SHA256.to_uppercase());
    assert_eq!(find_expected_digest(&manifest, "pkg.deb").unwrap(), EMPTY_SHA256);
    assert_eq!(find_expected_digest(&manifest, "other.deb").unwrap(), ABC_SHA256);
    assert!(find_expected_digest(&manifest, "missing.deb").is_none());
    assert!(find_expected_digest("lonelyhash\n\n", "lonelyhash").is_none());
}

#[test]
fn package_verification() {
    let manifest = format!("{ABC_SHA256}  pkg.deb\n");
    assert_eq!(verify_checksum(&manifest, "pkg.deb", b"abc").unwrap(), ABC_SHA256);

    let e = verify_checksum(&manifest, "pkg.deb", b"abd").unwrap_err();
    assert!(matches!(&e, ChecksumError::Mismatch { expected, .. } if expected == ABC_SHA256));
    assert_eq!(
        e.message(),
        format!("checksum mismatch for pkg.deb\nexpected: {ABC_SHA256}\nactual:   {}", calculate_sha256(b"abd"))
    );

    let e = verify_checksum(&manifest, "other.deb", b"abc").unwrap_err();
    assert!(matches!(e, ChecksumError::MissingEntry { .. }));
    assert_eq!(e.message(), "SHA256SUMS does not contain other.deb");

    let e = verify_checksum("abcd  pkg.deb\n", "pkg.deb", b"abc").unwrap_err();
    assert!(matches!(e, ChecksumError::InvalidDigest { .. }));
    assert_eq!(e.message(), "invalid SHA-256 digest for pkg.deb");
}

// ----- handing packages to the helper -----

fn package(component: Component, sha256: &str, path: &str) -> (Component, VerifiedPackage) {
    (component, VerifiedPackage { path: path.to_string(), sha256: sha256.to_string() })
}

#[test]
fn helper_command_line() {
    let packages = vec![
        package(Component::Agent, ABC_SHA256, "/tmp/wynobserve-update/a.deb"),
        package(Component::Observatory, EMPTY_SHA256, "/tmp/wynobserve-update/o.deb"),
    ];
    assert_eq!(
        helper_arguments("/usr/libexec/wynobserve/wyn-update-helper", &packages, true),
        args(&[
            "/usr/libexec/wynobserve/wyn-update-helper",
            "install",
            "--reinstall",
            "--package",
            ABC_SHA256,
            "/tmp/wynobserve-update/a.deb",
            "--package",
            EMPTY_SHA256,
            "/tmp/wynobserve-update/o.deb",
        ])
    );
    assert_eq!(helper_arguments("h", &Vec::new(), false), args(&["h", "install"]));
    assert!(observatory_updated(&packages));
    assert!(!observatory_updated(&packages[..1].to_vec()));
}

#[test]
fn download_paths() {
    let r = latest(Component::Agent, "agent-v0.2.0", "0.2.0");
    assert_eq!(download_directory(&r), args(&["wynobserve-update", "wyncommand-agent", "agent-v0.2.0"]));
    assert_eq!(partial_name("pkg.deb"), "pkg.deb.part");
}

#[test]
fn final_release_beats_its_pre_releases() {
    let releases = vec![
        release("agent-v1.0.0-rc.1", false, false, &["wyncommand-agent_1.0.0~rc1_amd64.deb", "SHA256SUMS"]),
        release("agent-v1.0.0", false, false, &["wyncommand-agent_1.0.0_amd64.deb", "SHA256SUMS"]),
        release("agent-v1.0.0-beta", false, false, &["wyncommand-agent_1.0.0~beta_amd64.deb", "SHA256SUMS"]),
        release("agent-v0.99.0", false, false, &["wyncommand-agent_0.99.0_amd64.deb", "SHA256SUMS"]),
    ];
    let r = select_latest_release(Component::Agent, &releases).unwrap().unwrap();
    assert_eq!(r.tag, "agent-v1.0.0");
    let releases = vec![
        release("agent-v1.0.0-alpha", false, false, &["wyncommand-agent_a.deb", "SHA256SUMS"]),
        release("agent-v1.0.0-alpha.1", false, false, &["wyncommand-agent_b.deb", "SHA256SUMS"]),
    ];
    let r = select_latest_release(Component::Agent, &releases).unwrap().unwrap();
    assert_eq!(r.tag, "agent-v1.0.0-alpha.1");
}
