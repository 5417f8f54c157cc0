use release_manager::errors::{IoErrorKind, IoFailure, ManagerError};
use release_manager::process::{Action, CommandLine, CommandOutcome, Event};
use release_manager::reversion::{
    DebianReversioner, reversion_debian_package, ReversionConfig, ReversionStage,
};
use tempfile::NamedTempFile;

fn config(new_name: Option<&str>) -> ReversionConfig {
    ReversionConfig {
        deb_path: "/cache/bullseye/test-package_1.0.0.deb".to_string(),
        package_name: "test-package".to_string(),
        source_version: "1.0.0".to_string(),
        new_version: "1.0.1".to_string(),
        suite: "unstable".to_string(),
        new_suite: "stable".to_string(),
        new_name: new_name.map(|s| s.to_string()),
    }
}

fn reversioner(new_name: Option<&str>) -> DebianReversioner {
    DebianReversioner::new(config(new_name), Ok("/tmp/work".to_string())).unwrap()
}

fn ran(success: bool, stderr: &str) -> Event {
    Event::Command(CommandOutcome::Exited {
        success,
        stdout: String::new(),
        stderr: stderr.to_string(),
    })
}

fn line(program: &str, args: &[&str]) -> CommandLine {
    CommandLine { program: program.to_string(), args: args.iter().map(|s| s.to_string()).collect() }
}

fn io_failure(message: &str) -> IoFailure {
    IoFailure { kind: IoErrorKind::Other, message: message.to_string() }
}

#[test]
fn test_reversion_config_validation() {
    let temp_file = NamedTempFile::new().unwrap();
    let config = ReversionConfig {
        deb_path: temp_file.path().to_string_lossy().to_string(),
        package_name: "test-package".to_string(),
        source_version: "1.0.0".to_string(),
        new_version: "1.0.1".to_string(),
        suite: "unstable".to_string(),
        new_suite: "stable".to_string(),
        new_name: None,
    };

    let reversioner = DebianReversioner::new(config, Ok("/tmp/work".to_string())).unwrap();
    assert!(reversioner.validate_inputs(temp_file.path().exists()).is_ok());
}

#[test]
fn test_control_content_update() {
    let temp_file = NamedTempFile::new().unwrap();
    let config = ReversionConfig {
        deb_path: temp_file.path().to_string_lossy().to_string(),
        package_name: "test-package".to_string(),
        source_version: "1.0.0".to_string(),
        new_version: "1.0.1".to_string(),
        suite: "unstable".to_string(),
        new_suite: "stable".to_string(),
        new_name: Some("new-package".to_string()),
    };

    let reversioner = DebianReversioner::new(config, Ok("/tmp/work".to_string())).unwrap();

    let control_content = r#"Package: test-package
Version: 1.0.0-1
Architecture: amd64
Maintainer: Test <test@example.com>
Description: Test package
 Multi-line description
 with more details
"#;

    let updated_content = reversioner.update_control_content(control_content).unwrap();

    assert!(updated_content.contains("Package: new-package"));
    assert!(updated_content.contains("Version: 1.0.1-1"));
    assert!(updated_content.ends_with("\n"), "Control file should end with newline");
    assert!(
        updated_content.contains("Multi-line description"),
        "Multi-line fields should be preserved"
    );
}

#[test]
fn test_invalid_deb_path() {
    let config = ReversionConfig {
        deb_path: "/nonexistent/path.deb".to_string(),
        package_name: "test-package".to_string(),
        source_version: "1.0.0".to_string(),
        new_version: "1.0.1".to_string(),
        suite: "unstable".to_string(),
        new_suite: "stable".to_string(),
        new_name: None,
    };

    let reversioner = DebianReversioner::new(config, Ok("/tmp/work".to_string())).unwrap();
    assert!(reversioner
        .validate_inputs(std::path::Path::new("/nonexistent/path.deb").exists())
        .is_err());
}

#[test]
fn control_update_is_exact() {
    let control = "Package: test-package\nVersion: 1.0.0-1\nArchitecture: amd64\nMaintainer: Test <test@example.com>\nDescription: Test package\n Multi-line description\n with more details\n";
    assert_eq!(
        reversioner(Some("new-package")).update_control_content(control).unwrap(),
        "Package: new-package\nVersion: 1.0.1-1\nArchitecture: amd64\nMaintainer: Test <test@example.com>\nDescription: Test package\n Multi-line description\n with more details\n"
    );
}

#[test]
fn archive_moves_from_unstable_to_stable() {
    let config = ReversionConfig {
        deb_path: "/cache/mina-archive_1.0.0.deb".to_string(),
        package_name: "mina-archive".to_string(),
        source_version: "1.0.0".to_string(),
        new_version: "1.0.1".to_string(),
        suite: "unstable".to_string(),
        new_suite: "stable".to_string(),
        new_name: None,
    };
    let reversioner = DebianReversioner::new(config, Ok("/tmp/w".to_string())).unwrap();
    assert_eq!(
        reversioner
            .update_control_content(
                "Package: mina-archive\nVersion: 1.0.0-1\nDistribution: unstable\nArchitecture: amd64\n"
            )
            .unwrap(),
        "Package: mina-archive\nVersion: 1.0.1-1\nDistribution: stable\nArchitecture: amd64\n"
    );
}

#[test]
fn untouched_lines_are_kept_and_trimmed() {
    let control = "Source: x  \nPackage: other\nDescription: d\t\n continuation line   \n\tanother one\n .\n last words\n";
    assert_eq!(
        reversioner(Some("new-package")).update_control_content(control).unwrap(),
        "Source: x\nPackage: other\nDescription: d\n continuation line\n\tanother one\n .\n last words\n"
    );
}

#[test]
fn output_ends_in_exactly_one_line_feed() {
    let r = reversioner(None);
    assert_eq!(r.update_control_content("").unwrap(), "\n");
    assert_eq!(r.update_control_content("\n\n\n").unwrap(), "\n");
    assert_eq!(r.update_control_content("  \n \t \n").unwrap(), "\n");
    assert_eq!(r.update_control_content("Package: a").unwrap(), "Package: a\n");
    assert_eq!(r.update_control_content("Package: a\n\n\n\n").unwrap(), "Package: a\n");
    assert_eq!(r.update_control_content("a\n\nb\n \n").unwrap(), "a\n\nb\n");
    assert_eq!(r.update_control_content("a\r\nb\r\n").unwrap(), "a\nb\n");
}

#[test]
fn only_the_exact_package_line_is_renamed() {
    let r = reversioner(Some("new-package"));
    assert_eq!(
        r.update_control_content("Package: test-package-extra\nDepends: Package: test-package\nPackage: test-package   \n").unwrap(),
        "Package: test-package-extra\nDepends: Package: test-package\nPackage: new-package\n"
    );
    assert_eq!(
        reversioner(None).update_control_content("Package: test-package\n").unwrap(),
        "Package: test-package\n"
    );
}

#[test]
fn version_changes_in_its_own_line_only() {
    let r = reversioner(None);
    assert_eq!(
        r.update_control_content("Depends: lib (= 1.0.0)\nStandards-Version: 1.0.0\nVersion: 1.0.0-1.0.0\nVersion: 1.0.0\n Version: 1.0.0\n").unwrap(),
        "Depends: lib (= 1.0.0)\nStandards-Version: 1.0.0\nVersion: 1.0.1-1.0.1\nVersion: 1.0.0\n Version: 1.0.0\n"
    );
    assert_eq!(r.update_control_content("Version: 2.0.0\n").unwrap(), "Version: 2.0.0\n");
    assert_eq!(r.update_control_content("Version: 1.0.0").unwrap(), "Version: 1.0.1\n");
}

#[test]
fn distribution_is_replaced_where_present() {
    let r = reversioner(None);
    assert_eq!(
        r.update_control_content("Distribution: unstable extra\nDistribution: unstable\n").unwrap(),
        "Distribution: stable\nDistribution: unstable\n"
    );
    assert_eq!(r.update_control_content("Package: p\n").unwrap(), "Package: p\n");
    assert_eq!(r.update_control_content("Distribution:unstable\n").unwrap(), "Distribution:unstable\n");
}

#[test]
fn empty_names_and_versions_are_rejected() {
    let mut c = config(None);
    c.source_version = String::new();
    let r = DebianReversioner::new(c, Ok("/tmp/w".to_string())).unwrap();
    assert_eq!(
        r.validate_inputs(true),
        Err(ManagerError::ValidationError("Source version cannot be empty".to_string()))
    );
    assert_eq!(
        r.update_control_content("Version: 1\n"),
        Err(ManagerError::ValidationError("Source version cannot be empty".to_string()))
    );
    assert_eq!(
        r.validate_inputs(false),
        Err(ManagerError::ValidationError(
            "Source .deb file does not exist: /cache/bullseye/test-package_1.0.0.deb".to_string()
        ))
    );
    let mut c = config(None);
    c.new_version = String::new();
    c.package_name = String::new();
    assert_eq!(
        c.validate_fields(),
        Err(ManagerError::ValidationError("New version cannot be empty".to_string()))
    );
    let mut c = config(None);
    c.package_name = String::new();
    assert_eq!(
        c.validate_fields(),
        Err(ManagerError::ValidationError("Package name cannot be empty".to_string()))
    );
    assert_eq!(config(None).validate_fields(), Ok(()));
}

#[test]
fn patching_does_not_depend_on_paths() {
    let control = "Package: test-package\nVersion: 1.0.0\nDistribution: unstable\n";
    let mut other = config(Some("n"));
    other.deb_path = "/elsewhere/p.deb".to_string();
    other.suite = "alpha".to_string();
    let a = DebianReversioner::new(config(Some("n")), Ok("/tmp/a".to_string())).unwrap();
    let b = DebianReversioner::new(other, Ok("/tmp/b".to_string())).unwrap();
    assert_eq!(a.update_control_content(control), b.update_control_content(control));
    assert_eq!(a.update_control_content(control), a.update_control_content(control));
    assert_eq!(
        a.update_control_content(control).unwrap(),
        "Package: n\nVersion: 1.0.1\nDistribution: stable\n"
    );
}

#[test]
fn change_of_a_field_is_noticed() {
    assert!(reversioner(None).modifies_control("Version: 1.0.0\n"));
    assert!(reversioner(None).modifies_control("Distribution: x\n"));
    assert!(reversioner(Some("n")).modifies_control("Package: test-package\n"));
    assert!(!reversioner(None).modifies_control("Package: test-package\n"));
    assert!(!reversioner(None).modifies_control("Version: 2.0.0\nDescription: 1.0.0\n"));
    assert!(!reversioner(Some("n")).modifies_control(""));
}

#[test]
fn temp_dir_failure_is_reported() {
    let r = DebianReversioner::new(config(None), Err(io_failure("disk full")));
    assert_eq!(
        r.err(),
        Some(ManagerError::IoError(io_failure("Failed to create temp directory: disk full")))
    );
    let r = reversion_debian_package("/a/p.deb", "p", "1", "2", "unstable", "stable", Some("q"), Ok("/t".to_string())).unwrap();
    assert_eq!(r.config.deb_path, "/a/p.deb");
    assert_eq!(r.config.package_name, "p");
    assert_eq!(r.config.source_version, "1");
    assert_eq!(r.config.new_version, "2");
    assert_eq!(r.config.suite, "unstable");
    assert_eq!(r.config.new_suite, "stable");
    assert_eq!(r.config.new_name, Some("q".to_string()));
    assert_eq!(r.temp_dir, "/t");
}

#[test]
fn paths_of_a_reversioning() {
    let r = reversioner(Some("new-package"));
    assert_eq!(r.extract_dir(), "/tmp/work/extracted");
    assert_eq!(r.control_file(), "/tmp/work/extracted/DEBIAN/control");
    assert_eq!(r.doc_dir("p"), "/tmp/work/extracted/usr/share/doc/p");
    assert_eq!(
        r.source_changelog("changelog.gz"),
        "/tmp/work/extracted/usr/share/doc/test-package/changelog.gz"
    );
    assert_eq!(
        r.changelog_file(),
        "/tmp/work/extracted/usr/share/doc/new-package/changelog.Debian"
    );
    assert_eq!(r.output_path(), "/cache/bullseye/new-package_1.0.1.deb");
    assert_eq!(reversioner(None).output_path(), "/cache/bullseye/test-package_1.0.1.deb");
    assert_eq!(
        r.extract_package(),
        line("dpkg-deb", &["-R", "/cache/bullseye/test-package_1.0.0.deb", "/tmp/work/extracted"])
    );
    assert_eq!(
        r.rebuild_package(),
        line("dpkg-deb", &["--build", "/tmp/work/extracted", "/cache/bullseye/new-package_1.0.1.deb"])
    );
}

#[test]
fn changelog_entry_records_the_transition() {
    assert_eq!(
        reversioner(Some("new-package")).create_changelog_entry("Mon, 01 Jan 2024 00:00:00 +0000"),
        "new-package (1.0.1) stable; urgency=medium\n\n  * Reversion from 1.0.0 to 1.0.1\n  * Automated reversion by release-manager\n\n -- Release Manager <release@minaprotocol.com>  Mon, 01 Jan 2024 00:00:00 +0000\n\n"
    );
}

#[test]
fn missing_source_fails_before_any_extraction() {
    let r = reversioner(None);
    let (stage, action) = r.reversion(ReversionStage::Start, Event::Begin);
    assert_eq!(stage, ReversionStage::CheckingSource);
    assert_eq!(action, Action::PathExists("/cache/bullseye/test-package_1.0.0.deb".to_string()));
    let (stage, action) = r.reversion(stage, Event::Exists(false));
    assert_eq!(stage, ReversionStage::Done);
    assert_eq!(
        action,
        Action::Fail(ManagerError::ValidationError(
            "Source .deb file does not exist: /cache/bullseye/test-package_1.0.0.deb".to_string()
        ))
    );
}

#[test]
fn reversioning_runs_through_its_stages() {
    let r = reversioner(None);
    let time = "Mon, 01 Jan 2024 00:00:00 +0000";
    let (stage, action) = r.reversion_at(ReversionStage::Start, Event::Begin, time);
    assert_eq!(action, Action::PathExists("/cache/bullseye/test-package_1.0.0.deb".to_string()));
    let (stage, action) = r.reversion_at(stage, Event::Exists(true), time);
    assert_eq!(stage, ReversionStage::CreatingExtractDir);
    assert_eq!(action, Action::CreateDirAll("/tmp/work/extracted".to_string()));
    let (stage, action) = r.reversion_at(stage, Event::Io(Ok(())), time);
    assert_eq!(stage, ReversionStage::Extracting);
    assert_eq!(action, Action::Run(r.extract_package()));
    let (stage, action) = r.reversion_at(stage, ran(true, ""), time);
    assert_eq!(stage, ReversionStage::CheckingControl);
    assert_eq!(action, Action::PathExists("/tmp/work/extracted/DEBIAN/control".to_string()));
    let (stage, action) = r.reversion_at(stage, Event::Exists(true), time);
    assert_eq!(stage, ReversionStage::ReadingControl);
    assert_eq!(action, Action::ReadToString("/tmp/work/extracted/DEBIAN/control".to_string()));
    let (stage, action) = r.reversion_at(
        stage,
        Event::Text(Ok("Package: test-package\nVersion: 1.0.0\n".to_string())),
        time,
    );
    assert_eq!(stage, ReversionStage::WritingControl);
    assert_eq!(
        action,
        Action::WriteFile {
            path: "/tmp/work/extracted/DEBIAN/control".to_string(),
            content: "Package: test-package\nVersion: 1.0.1\n".to_string(),
        }
    );
    let (stage, action) = r.reversion_at(stage, Event::Io(Ok(())), time);
    assert_eq!(stage, ReversionStage::CheckingDebianChangelog);
    assert_eq!(
        action,
        Action::PathExists(
            "/tmp/work/extracted/usr/share/doc/test-package/changelog.Debian.gz".to_string()
        )
    );
    let (stage, action) = r.reversion_at(stage, Event::Exists(false), time);
    assert_eq!(stage, ReversionStage::CheckingChangelog);
    assert_eq!(
        action,
        Action::PathExists("/tmp/work/extracted/usr/share/doc/test-package/changelog.gz".to_string())
    );
    let (stage, action) = r.reversion_at(stage, Event::Exists(true), time);
    assert_eq!(stage, ReversionStage::CreatingDocDir);
    assert_eq!(
        action,
        Action::CreateDirAll("/tmp/work/extracted/usr/share/doc/test-package".to_string())
    );
    let (stage, action) = r.reversion_at(stage, Event::Io(Ok(())), time);
    assert_eq!(stage, ReversionStage::WritingChangelog);
    assert_eq!(
        action,
        Action::WriteFile {
            path: "/tmp/work/extracted/usr/share/doc/test-package/changelog.Debian".to_string(),
            content: r.create_changelog_entry("Mon, 01 Jan 2024 00:00:00 +0000"),
        }
    );
    let (stage, action) = r.reversion_at(stage, Event::Io(Err(io_failure("read-only"))), time);
    assert_eq!(stage, ReversionStage::Compressing);
    assert_eq!(
        action,
        Action::Run(line(
            "gzip",
            &["-f", "/tmp/work/extracted/usr/share/doc/test-package/changelog.Debian"]
        ))
    );
    let (stage, action) = r.reversion_at(
        stage,
        Event::Command(CommandOutcome::NotStarted { reason: "no gzip".to_string() }),
        time,
    );
    assert_eq!(stage, ReversionStage::CheckingOutput);
    assert_eq!(action, Action::PathExists("/cache/bullseye/test-package_1.0.1.deb".to_string()));
    let (stage, action) = r.reversion_at(stage, Event::Exists(true), time);
    assert_eq!(stage, ReversionStage::RemovingOutput);
    assert_eq!(action, Action::RemoveFile("/cache/bullseye/test-package_1.0.1.deb".to_string()));
    let (stage, action) = r.reversion_at(stage, Event::Io(Ok(())), time);
    assert_eq!(stage, ReversionStage::Building);
    assert_eq!(action, Action::Run(r.rebuild_package()));
    let (stage, action) = r.reversion_at(stage, ran(true, ""), time);
    assert_eq!(stage, ReversionStage::ConfirmingOutput);
    assert_eq!(action, Action::PathExists("/cache/bullseye/test-package_1.0.1.deb".to_string()));
    let (stage, action) = r.reversion_at(stage, Event::Exists(true), time);
    assert_eq!(stage, ReversionStage::Done);
    assert_eq!(action, Action::Complete(Some("/cache/bullseye/test-package_1.0.1.deb".to_string())));
    let (stage, action) = r.reversion_at(stage, Event::Begin, time);
    assert_eq!(stage, ReversionStage::Done);
    assert_eq!(action, Action::Fail(ManagerError::ValidationError("unexpected event".to_string())));
}

#[test]
fn fatal_failures_end_the_reversioning() {
    let r = reversioner(None);
    let fatal = |stage: ReversionStage, event: Event, error: ManagerError| {
        let (next, action) = r.reversion_at(stage, event, "");
        assert_eq!(next, ReversionStage::Done);
        assert_eq!(action, Action::Fail(error));
    };
    fatal(
        ReversionStage::CreatingExtractDir,
        Event::Io(Err(io_failure("denied"))),
        ManagerError::IoError(io_failure("denied")),
    );
    fatal(
        ReversionStage::Extracting,
        Event::Command(CommandOutcome::NotStarted { reason: "no such program".to_string() }),
        ManagerError::CommandFailed("Failed to execute dpkg-deb: no such program".to_string()),
    );
    fatal(
        ReversionStage::Extracting,
        ran(false, "bad archive"),
        ManagerError::CommandFailed("dpkg-deb extraction failed: bad archive".to_string()),
    );
    fatal(
        ReversionStage::CheckingControl,
        Event::Exists(false),
        ManagerError::IoError(IoFailure {
            kind: IoErrorKind::NotFound,
            message: "Control file not found: /tmp/work/extracted/DEBIAN/control".to_string(),
        }),
    );
    fatal(
        ReversionStage::ReadingControl,
        Event::Text(Err(io_failure("unreadable"))),
        ManagerError::IoError(io_failure("unreadable")),
    );
    fatal(
        ReversionStage::WritingControl,
        Event::Io(Err(io_failure("full"))),
        ManagerError::IoError(io_failure("full")),
    );
    fatal(
        ReversionStage::RemovingOutput,
        Event::Io(Err(io_failure("busy"))),
        ManagerError::IoError(io_failure("busy")),
    );
    fatal(
        ReversionStage::Building,
        Event::Command(CommandOutcome::NotStarted { reason: "gone".to_string() }),
        ManagerError::CommandFailed("Failed to execute dpkg-deb build: gone".to_string()),
    );
    fatal(
        ReversionStage::Building,
        ran(false, "cannot build"),
        ManagerError::CommandFailed("dpkg-deb build failed: cannot build".to_string()),
    );
    fatal(
        ReversionStage::ConfirmingOutput,
        Event::Exists(false),
        ManagerError::IoError(IoFailure {
            kind: IoErrorKind::NotFound,
            message: "New .deb package was not created: /cache/bullseye/test-package_1.0.1.deb"
                .to_string(),
        }),
    );
    fatal(
        ReversionStage::Extracting,
        Event::Exists(true),
        ManagerError::ValidationError("unexpected event".to_string()),
    );
}

#[test]
fn changelog_failures_are_not_fatal() {
    let r = reversioner(None);
    let rebuild = Action::PathExists("/cache/bullseye/test-package_1.0.1.deb".to_string());
    let (stage, action) =
        r.reversion_at(ReversionStage::CheckingChangelog, Event::Exists(false), "now");
    assert_eq!((stage, action), (ReversionStage::CheckingOutput, rebuild.clone()));
    let (stage, action) =
        r.reversion_at(ReversionStage::CreatingDocDir, Event::Io(Err(io_failure("x"))), "now");
    assert_eq!((stage, action), (ReversionStage::CheckingOutput, rebuild.clone()));
    let (stage, action) = r.reversion_at(ReversionStage::Compressing, ran(false, "x"), "now");
    assert_eq!((stage, action), (ReversionStage::CheckingOutput, rebuild.clone()));
    let (stage, action) = r.reversion_at(ReversionStage::CheckingOutput, Event::Exists(false), "");
    assert_eq!(stage, ReversionStage::Building);
    assert_eq!(action, Action::Run(r.rebuild_package()));
}

#[test]
fn found_changelog_is_always_written() {
    let r = reversioner(None);
    let place = Action::CreateDirAll("/tmp/work/extracted/usr/share/doc/test-package".to_string());
    for stage in [ReversionStage::CheckingDebianChangelog, ReversionStage::CheckingChangelog] {
        let (next, action) = r.reversion(stage, Event::Exists(true));
        assert_eq!((next, action), (ReversionStage::CreatingDocDir, place.clone()));
    }
    let (stage, action) = r.reversion_at(ReversionStage::CreatingDocDir, Event::Io(Ok(())), "");
    assert_eq!(stage, ReversionStage::WritingChangelog);
    assert_eq!(
        action,
        Action::WriteFile {
            path: "/tmp/work/extracted/usr/share/doc/test-package/changelog.Debian".to_string(),
            content: r.create_changelog_entry(""),
        }
    );
}

#[test]
fn channel_line_with_an_empty_value_is_set() {
    let r = reversioner(None);
    assert_eq!(r.update_control_content("Distribution: \n").unwrap(), "Distribution: stable\n");
    assert_eq!(r.update_control_content("Distribution:  \t\n").unwrap(), "Distribution: stable\n");
    assert_eq!(r.update_control_content("Distribution:\n").unwrap(), "Distribution:\n");
    assert!(r.modifies_control("Distribution: \n"));
}

#[test]
fn version_is_replaced_in_the_line_as_read() {
    let mut c = config(None);
    c.source_version = "1 ".to_string();
    c.new_version = "2".to_string();
    let r = DebianReversioner::new(c, Ok("/tmp/w".to_string())).unwrap();
    assert_eq!(r.update_control_content("Version: 1 \n").unwrap(), "Version: 2\n");
    assert_eq!(r.update_control_content("Version: 1 -1 \n").unwrap(), "Version: 2-2\n");
    assert_eq!(r.update_control_content("Version: 1\n").unwrap(), "Version: 1\n");
    let mut c = config(None);
    c.source_version = "1\r".to_string();
    c.new_version = "2".to_string();
    let r = DebianReversioner::new(c, Ok("/tmp/w".to_string())).unwrap();
    assert_eq!(r.update_control_content("Version: 1\r\nX: y\r\n").unwrap(), "Version: 2\nX: y\n");
}

#[test]
fn package_line_is_matched_as_read() {
    let mut c = config(Some("n"));
    c.package_name = "p ".to_string();
    let r = DebianReversioner::new(c, Ok("/tmp/w".to_string())).unwrap();
    assert_eq!(r.update_control_content("Package: p  \n").unwrap(), "Package: n\n");
    assert_eq!(r.update_control_content("Package: p \n").unwrap(), "Package: n\n");
    assert_eq!(r.update_control_content("Package: p\n").unwrap(), "Package: p\n");
    assert_eq!(r.update_control_content("Package: p x\n").unwrap(), "Package: p x\n");
}

#[test]
fn no_written_line_ends_in_white_space() {
    let trimmed = |text: &str| {
        assert!(text.ends_with('\n'));
        assert!(!text.ends_with("\n\n") || text == "\n\n");
        for line in text.lines() {
            assert_eq!(line, line.trim_end(), "in {:?}", text);
        }
    };
    let mut c = config(Some("new \t\nname  "));
    c.new_suite = " \nb".to_string();
    c.new_version = "9 \n 9 ".to_string();
    let r = DebianReversioner::new(c, Ok("/tmp/w".to_string())).unwrap();
    assert_eq!(r.update_control_content("Distribution: x").unwrap(), "Distribution:\nb\n");
    assert_eq!(
        r.update_control_content("Package: test-package\nVersion: 1.0.0 \nDistribution: x\n  kept \n")
            .unwrap(),
        "Package: new\nname\nVersion: 9\n 9\nDistribution:\nb\n  kept\n"
    );
    for content in [
        "",
        "Distribution: x",
        "Package: test-package  \nVersion: 1.0.0\t\nDistribution: d \n",
        " a \r\n\tb\t\r\n \n",
        "x \u{a0}\ny\u{3000}\n",
    ] {
        trimmed(&r.update_control_content(content).unwrap());
        trimmed(&reversioner(Some("q")).update_control_content(content).unwrap());
    }
}

#[test]
fn content_without_anything_aimed_at_comes_back() {
    let r = reversioner(None);
    for content in [
        "Package: test-package\nArchitecture: amd64\nDescription: d\n more\n .\n last\n",
        "\n",
        "Version: 2.0.0\n",
        "a\n\nb\n",
    ] {
        assert_eq!(r.update_control_content(content).unwrap(), content);
        assert!(!r.modifies_control(content));
    }
}

#[test]
fn changelog_entry_carries_the_time_of_the_clock() {
    let r = reversioner(None);
    let (stage, action) = r.reversion(ReversionStage::CreatingDocDir, Event::Io(Ok(())));
    assert_eq!(stage, ReversionStage::WritingChangelog);
    match action {
        Action::WriteFile { path, content } => {
            assert_eq!(path, "/tmp/work/extracted/usr/share/doc/test-package/changelog.Debian");
            let head = "test-package (1.0.1) stable; urgency=medium\n\n  * Reversion from 1.0.0 to 1.0.1\n  * Automated reversion by release-manager\n\n -- Release Manager <release@minaprotocol.com>  ";
            assert!(content.starts_with(head));
            let time = &content[head.len()..];
            assert!(time.ends_with(" +0000\n\n"));
            assert_eq!(time.len(), "Mon, 01 Jan 2024 00:00:00 +0000\n\n".len());
            assert_eq!(&time[3..5], ", ");
            let year: i32 = time[12..16].parse().unwrap();
            assert!(year >= 2024);
        }
        other => panic!("unexpected action {:?}", other),
    }
}

#[test]
fn new_package_must_not_take_the_place_of_the_source() {
    let mut c = config(None);
    c.deb_path = "/cache/test-package_1.0.1.deb".to_string();
    let r = DebianReversioner::new(c, Ok("/tmp/w".to_string())).unwrap();
    assert_eq!(r.output_path(), "/cache/test-package_1.0.1.deb");
    let error = ManagerError::ValidationError(
        "New package would overwrite the source: /cache/test-package_1.0.1.deb".to_string(),
    );
    assert_eq!(r.validate_inputs(true), Err(error.clone()));
    let (stage, action) = r.reversion(ReversionStage::CheckingSource, Event::Exists(true));
    assert_eq!((stage, action), (ReversionStage::Done, Action::Fail(error)));
    assert_eq!(reversioner(None).validate_inputs(true), Ok(()));
    assert_eq!(config(Some("n")).output_path(), "/cache/bullseye/n_1.0.1.deb");
}
