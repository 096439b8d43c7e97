use wynobserve::component::Component;
use wynobserve::helper::{
    apt_get_arguments, ensure_allowed_package, file_extension, needs_agent_restart, parse_helper_args,
    validate_architecture, validate_filename, validate_hash, validate_source, validate_staged_digest,
    HelperAction, HelperError, StageAndInstall,
};
use wynobserve::install::{helper_arguments, VerifiedPackage};
use wynobserve::checksum::{calculate_sha256, verify_checksum};

const ABC_SHA256: &str = "ba7816bf8f01cfea414140de5dae2223b00361a396177a9cb410ff61f20015ad";

fn args(list: &[&str]) -> Vec<String> {
    list.iter().map(|s| s.to_string()).collect()
}

#[test]
fn digests_are_checked_and_lowered() {
    assert_eq!(validate_hash(ABC_SHA256).unwrap(), ABC_SHA256);
    assert_eq!(validate_hash(&ABC_SHA256.to_uppercase()).unwrap(), ABC_SHA256);
    assert_eq!(validate_hash(&ABC_SHA256[..63]), Err(HelperError::InvalidDigest));
    let mut bad = ABC_SHA256.to_string();
    bad.replace_range(0..1, "g");
    assert_eq!(validate_hash(&bad), Err(HelperError::InvalidDigest));
    assert_eq!(validate_hash(""), Err(HelperError::InvalidDigest));
}

#[test]
fn helper_command_lines() {
    let r = parse_helper_args(&args(&["install", "--package", ABC_SHA256, "/tmp/wynobserve-update/a.deb"])).unwrap();
    assert!(!r.reinstall);
    assert_eq!(r.packages.len(), 1);
    assert_eq!(r.packages[0].expected_sha256, ABC_SHA256);
    assert_eq!(r.packages[0].source, "/tmp/wynobserve-update/a.deb");

    let upper = ABC_SHA256.to_uppercase();
    let r = parse_helper_args(&args(&["install", "--package", &upper, "a", "--reinstall", "--package", ABC_SHA256, "b"])).unwrap();
    assert!(r.reinstall);
    assert_eq!(r.packages.len(), 2);
    assert_eq!(r.packages[0].expected_sha256, ABC_SHA256);
    assert_eq!(r.packages[1].source, "b");
}

#[test]
fn helper_command_line_errors() {
    assert_eq!(parse_helper_args(&args(&[])).unwrap_err(), HelperError::MissingAction);
    assert_eq!(
        parse_helper_args(&args(&["remove"])).unwrap_err(),
        HelperError::UnknownAction { action: "remove".to_string() }
    );
    assert_eq!(parse_helper_args(&args(&["install"])).unwrap_err(), HelperError::NoPackages);
    assert_eq!(parse_helper_args(&args(&["install", "--reinstall"])).unwrap_err(), HelperError::NoPackages);
    assert_eq!(parse_helper_args(&args(&["install", "--package"])).unwrap_err(), HelperError::MissingDigest);
    assert_eq!(parse_helper_args(&args(&["install", "--package", ABC_SHA256])).unwrap_err(), HelperError::MissingPath);
    assert_eq!(parse_helper_args(&args(&["install", "--package", "123", "p"])).unwrap_err(), HelperError::InvalidDigest);
    assert_eq!(
        parse_helper_args(&args(&["install", "--yes"])).unwrap_err(),
        HelperError::UnknownArgument { argument: "--yes".to_string() }
    );
}

#[test]
fn helper_messages() {
    assert_eq!(HelperError::MissingAction.message(), "missing helper action");
    assert_eq!(HelperError::UnknownAction { action: "x".into() }.message(), "unknown helper action `x`");
    assert_eq!(HelperError::MissingDigest.message(), "--package requires a SHA-256 digest");
    assert_eq!(HelperError::MissingPath.message(), "--package requires a package path");
    assert_eq!(HelperError::InvalidDigest.message(), "invalid SHA-256 digest");
    assert_eq!(HelperError::UnknownArgument { argument: "-q".into() }.message(), "unknown helper argument `-q`");
    assert_eq!(HelperError::NoPackages.message(), "no update packages supplied");
    assert_eq!(
        HelperError::NotAllowed { package_name: "bash".into() }.message(),
        "package `bash` is not an allowed WynObserve component"
    );
    assert_eq!(HelperError::InvalidFilename.message(), "invalid package filename");
    assert_eq!(
        HelperError::FilenameMismatch { file_name: "a.deb".into(), package_name: "wynobserve".into() }.message(),
        "filename `a.deb` does not match package `wynobserve`"
    );
    assert_eq!(
        HelperError::ArchitectureMismatch { package: "arm64".into(), system: "amd64".into() }.message(),
        "package architecture `arm64` does not match system `amd64`"
    );
    assert_eq!(
        HelperError::StagedChecksumMismatch { path: "/var/x.deb".into() }.message(),
        "root-side checksum mismatch for /var/x.deb"
    );
    assert_eq!(HelperError::OutsideUpdateRoot.message(), "package is outside /tmp/wynobserve-update");
    assert_eq!(HelperError::NotDeb.message(), "update package is not a .deb");
}

#[test]
fn staged_package_checks() {
    assert!(ensure_allowed_package("wyncommand-agent").is_ok());
    assert!(ensure_allowed_package("wynobserve").is_ok());
    assert_eq!(
        ensure_allowed_package("wyn-updater"),
        Err(HelperError::NotAllowed { package_name: "wyn-updater".to_string() })
    );
    assert!(validate_filename(Some("wynobserve_0.2.0_amd64.deb"), "wynobserve").is_ok());
    assert_eq!(validate_filename(None, "wynobserve"), Err(HelperError::InvalidFilename));
    assert_eq!(
        validate_filename(Some("wynobserve-extra_0.2.0_amd64.deb"), "wynobserve"),
        Err(HelperError::FilenameMismatch {
            file_name: "wynobserve-extra_0.2.0_amd64.deb".to_string(),
            package_name: "wynobserve".to_string()
        })
    );
    assert!(validate_architecture("amd64", "amd64").is_ok());
    assert!(matches!(validate_architecture("all", "amd64"), Err(HelperError::ArchitectureMismatch { .. })));
    assert!(validate_staged_digest(ABC_SHA256, ABC_SHA256, "/p").is_ok());
    assert_eq!(
        validate_staged_digest(ABC_SHA256, "00", "/p"),
        Err(HelperError::StagedChecksumMismatch { path: "/p".to_string() })
    );
}

#[test]
fn extensions_follow_path_rules() {
    assert_eq!(file_extension("pkg.deb").as_deref(), Some("deb"));
    assert_eq!(file_extension("a.b.deb").as_deref(), Some("deb"));
    assert_eq!(file_extension("archive.").as_deref(), Some(""));
    assert_eq!(file_extension(".deb"), None);
    assert_eq!(file_extension("deb"), None);
    assert_eq!(file_extension(".."), None);
    assert_eq!(file_extension("..deb").as_deref(), Some("deb"));
}

#[test]
fn sources_must_be_debs_under_the_update_root() {
    let root = args(&["/", "tmp", "wynobserve-update"]);
    assert!(validate_source(&args(&["/", "tmp", "wynobserve-update", "x", "p.deb"]), &root).is_ok());
    assert_eq!(
        validate_source(&args(&["/", "tmp", "wynobserve-update-evil", "p.deb"]), &root),
        Err(HelperError::OutsideUpdateRoot)
    );
    assert_eq!(validate_source(&args(&["/", "tmp"]), &root), Err(HelperError::OutsideUpdateRoot));
    assert_eq!(
        validate_source(&args(&["/", "tmp", "wynobserve-update", "p.rpm"]), &root),
        Err(HelperError::NotDeb)
    );
    assert_eq!(validate_source(&root, &root), Err(HelperError::NotDeb));
}

#[test]
fn apt_get_command_line() {
    assert_eq!(
        apt_get_arguments(&args(&["/var/a.deb", "/var/b.deb"]), false),
        args(&["install", "-y", "--no-remove", "--", "/var/a.deb", "/var/b.deb"])
    );
    assert_eq!(
        apt_get_arguments(&args(&["/var/a.deb"]), true),
        args(&["install", "-y", "--no-remove", "--reinstall", "--", "/var/a.deb"])
    );
}

#[test]
fn agent_restart_only_for_the_agent() {
    assert!(needs_agent_restart(&args(&["wynobserve", "wyncommand-agent"])));
    assert!(!needs_agent_restart(&args(&["wynobserve"])));
    assert!(!needs_agent_restart(&Vec::new()));
}

#[test]
fn stage_and_install_order_with_agent() {
    let mut run = StageAndInstall::new(2);
    assert_eq!(run.next_action(), HelperAction::Stage(0));
    run.record_completed();
    assert_eq!(run.next_action(), HelperAction::Stage(0));
    run.record_staged("wynobserve".to_string());
    assert_eq!(run.next_action(), HelperAction::Stage(1));
    run.record_staged("wyncommand-agent".to_string());
    assert_eq!(run.next_action(), HelperAction::Install);
    run.record_staged("ignored".to_string());
    assert_eq!(run.staged_packages(), &args(&["wynobserve", "wyncommand-agent"]));
    run.record_completed();
    assert_eq!(run.next_action(), HelperAction::RefreshSystemd);
    run.record_completed();
    assert_eq!(run.next_action(), HelperAction::RestartAgent);
    run.record_completed();
    assert_eq!(run.next_action(), HelperAction::Done);
    run.record_completed();
    assert_eq!(run.next_action(), HelperAction::Done);
}

#[test]
fn stage_and_install_order_without_agent() {
    let mut run = StageAndInstall::new(1);
    run.record_staged("wynobserve".to_string());
    assert_eq!(run.next_action(), HelperAction::Install);
    run.record_completed();
    run.record_completed();
    assert_eq!(run.next_action(), HelperAction::Done);
}

#[test]
fn helper_accepts_what_the_updater_sends() {
    let digest = verify_checksum(&format!("{ABC_SHA256}  a.deb\n"), "a.deb", b"abc").unwrap();
    assert_eq!(validate_hash(&digest).unwrap(), digest);
    let packages = vec![
        (Component::Agent, VerifiedPackage { path: "/tmp/wynobserve-update/a.deb".into(), sha256: digest.clone() }),
        (Component::Observatory, VerifiedPackage { path: "--reinstall".into(), sha256: calculate_sha256(b"") }),
    ];
    for reinstall in [false, true] {
        let full = helper_arguments("/usr/libexec/wynobserve/wyn-update-helper", &packages, reinstall);
        let request = parse_helper_args(&full[1..].to_vec()).unwrap();
        assert_eq!(request.reinstall, reinstall);
        assert_eq!(request.packages.len(), 2);
        assert_eq!(request.packages[0].expected_sha256, digest);
        assert_eq!(request.packages[0].source, "/tmp/wynobserve-update/a.deb");
        assert_eq!(request.packages[1].expected_sha256, calculate_sha256(b""));
        assert_eq!(request.packages[1].source, "--reinstall");
    }
}
