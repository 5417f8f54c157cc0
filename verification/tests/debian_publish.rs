use release_manager::debian_publish::{
    DebianPublishConfig, DebianPublisher, lock_verdict, LockStage, LockVerdict,
    publish_debian_package, PublishStage,
};
use release_manager::errors::ManagerError;
use release_manager::process::{Action, CommandLine, CommandOutcome, Event};
use tempfile::NamedTempFile;

// 2023-12-01 14:30:45 UTC in seconds since 1970.
const MARKER_TIME: i64 = 1701441045;

fn config() -> DebianPublishConfig {
    DebianPublishConfig {
        package_path: "/cache/bullseye/mina-archive_1.0.1.deb".to_string(),
        version: "1.0.1".to_string(),
        bucket: "packages.o1test.net".to_string(),
        codename: "bullseye".to_string(),
        release: "stable".to_string(),
        sign_key: None,
        debug: false,
    }
}

fn publisher() -> DebianPublisher {
    DebianPublisher::new(config())
}

fn exited(success: bool, stdout: &str, stderr: &str) -> Event {
    Event::Command(CommandOutcome::Exited {
        success,
        stdout: stdout.to_string(),
        stderr: stderr.to_string(),
    })
}

fn not_started(reason: &str) -> Event {
    Event::Command(CommandOutcome::NotStarted { reason: reason.to_string() })
}

fn line(program: &str, args: &[&str]) -> CommandLine {
    CommandLine { program: program.to_string(), args: args.iter().map(|s| s.to_string()).collect() }
}

fn list_lock() -> Action {
    Action::Run(line(
        "aws",
        &["s3", "ls", "s3://packages.o1test.net/dists/bullseye/stable/binary-/lockfile"],
    ))
}

fn remove_lock() -> Action {
    Action::Run(line(
        "aws",
        &["s3", "rm", "s3://packages.o1test.net/dists/bullseye/stable/binary-/lockfile"],
    ))
}

fn too_recent() -> ManagerError {
    ManagerError::ValidationError(
        "Lockfile is too recent. There may be an active deb-s3 instance using it.".to_string(),
    )
}

#[test]
fn debian_publish_test_config_validation() {
    let temp_file = NamedTempFile::new().unwrap();
    let config = DebianPublishConfig {
        package_path: temp_file.path().to_string_lossy().to_string(),
        version: "1.0.0".to_string(),
        bucket: "test-bucket".to_string(),
        codename: "bullseye".to_string(),
        release: "stable".to_string(),
        sign_key: None,
        debug: false,
    };

    let publisher = DebianPublisher::new(config);
    assert!(publisher.validate_config().is_ok());
}

#[test]
fn test_empty_version_validation() {
    let config = DebianPublishConfig {
        package_path: "/tmp/test.deb".to_string(),
        version: "".to_string(),
        bucket: "test-bucket".to_string(),
        codename: "bullseye".to_string(),
        release: "stable".to_string(),
        sign_key: None,
        debug: false,
    };

    let publisher = DebianPublisher::new(config);
    assert!(publisher.validate_config().is_err());
}

#[test]
fn test_empty_bucket_validation() {
    let config = DebianPublishConfig {
        package_path: "/tmp/test.deb".to_string(),
        version: "1.0.0".to_string(),
        bucket: "".to_string(),
        codename: "bullseye".to_string(),
        release: "stable".to_string(),
        sign_key: None,
        debug: false,
    };

    let publisher = DebianPublisher::new(config);
    assert!(publisher.validate_config().is_err());
}

#[test]
fn each_empty_field_has_its_error() {
    let check = |change: &dyn Fn(&mut DebianPublishConfig), message: &str| {
        let mut c = config();
        change(&mut c);
        assert_eq!(
            DebianPublisher::new(c).validate_config(),
            Err(ManagerError::ValidationError(message.to_string()))
        );
    };
    check(&|c| c.package_path.clear(), "Package path cannot be empty");
    check(&|c| c.version.clear(), "Version cannot be empty");
    check(&|c| c.bucket.clear(), "Bucket cannot be empty");
    check(&|c| c.codename.clear(), "Codename cannot be empty");
    check(&|c| c.release.clear(), "Release cannot be empty");
    check(
        &|c| {
            c.release.clear();
            c.version.clear()
        },
        "Version cannot be empty",
    );
}

#[test]
fn commands_of_a_publication() {
    let p = publisher();
    assert_eq!(
        p.lockfile_path(),
        "s3://packages.o1test.net/dists/bullseye/stable/binary-/lockfile"
    );
    assert_eq!(
        p.upload_command(),
        line(
            "deb-s3",
            &[
                "upload",
                "--s3-region=us-west-2",
                "--bucket",
                "packages.o1test.net",
                "--codename",
                "bullseye",
                "--component",
                "stable",
                "--suite",
                "stable",
                "--preserve-versions",
                "--lock",
                "--fail-if-exists",
                "--cache-control=max-age=120",
                "/cache/bullseye/mina-archive_1.0.1.deb",
            ]
        )
    );
    assert_eq!(
        p.verify_upload(),
        line(
            "deb-s3",
            &[
                "verify",
                "--bucket",
                "packages.o1test.net",
                "--s3-region=us-west-2",
                "--codename",
                "bullseye",
                "--component",
                "stable",
                "--suite",
                "stable",
            ]
        )
    );
    assert_eq!(Action::Run(p.delete_lockfile()), remove_lock());
    let signed = publish_debian_package("/p.deb", "1", "b", "focal", "alpha", Some("KEY"), true);
    let args = signed.upload_command().args;
    assert_eq!(&args[args.len() - 3..], ["/p.deb", "--sign", "KEY"]);
    assert!(signed.config.debug);
    assert_eq!(signed.config.sign_key, Some("KEY".to_string()));
    assert_eq!(signed.config.release, "alpha");
}

#[test]
fn lock_is_stale_from_300_seconds() {
    assert_eq!(lock_verdict(Ok(1000), 1299), LockVerdict::Fresh);
    assert_eq!(lock_verdict(Ok(1000), 1300), LockVerdict::Stale);
    assert_eq!(lock_verdict(Ok(1000), 1301), LockVerdict::Stale);
    assert_eq!(lock_verdict(Ok(1000), 1000), LockVerdict::Fresh);
    assert_eq!(lock_verdict(Ok(1000), 0), LockVerdict::Fresh);
    assert_eq!(lock_verdict(Ok(i64::MIN), i64::MAX), LockVerdict::Stale);
    assert_eq!(lock_verdict(Ok(i64::MAX), i64::MIN), LockVerdict::Fresh);
    assert_eq!(
        lock_verdict(Err("bad".to_string()), 5),
        LockVerdict::Unreadable(ManagerError::ValidationError(
            "Failed to parse timestamp: bad".to_string()
        ))
    );
}

#[test]
fn marker_time_is_read_from_the_listing() {
    let listing = "2023-12-01 14:30:45          0 lockfile\n";
    assert_eq!(DebianPublisher::marker_verdict(listing, MARKER_TIME + 299), LockVerdict::Fresh);
    assert_eq!(DebianPublisher::marker_verdict(listing, MARKER_TIME + 300), LockVerdict::Stale);
    assert_eq!(DebianPublisher::marker_verdict(listing, MARKER_TIME + 600), LockVerdict::Stale);
    assert_eq!(DebianPublisher::marker_verdict(listing, MARKER_TIME - 1), LockVerdict::Fresh);
    assert_eq!(
        DebianPublisher::marker_verdict("lockfile", MARKER_TIME),
        LockVerdict::Unreadable(ManagerError::CommandFailed(
            "Could not get lockfile timestamp from S3 bucket. Check AWS credentials.".to_string()
        ))
    );
    match DebianPublisher::marker_verdict("yesterday at noon", MARKER_TIME) {
        LockVerdict::Unreadable(ManagerError::ValidationError(message)) => {
            assert!(message.starts_with("Failed to parse timestamp: "));
            assert!(message.len() > "Failed to parse timestamp: ".len());
        }
        other => panic!("unexpected verdict {:?}", other),
    }
}

#[test]
fn young_marker_is_left_intact() {
    let p = publisher();
    let (stage, action) = p.remove_lockfile_at(LockStage::Start, Event::Begin, 0);
    assert_eq!(stage, LockStage::Listing);
    assert_eq!(action, list_lock());
    let (stage, action) = p.remove_lockfile_at(
        stage,
        exited(true, "2023-12-01 14:30:45 0 lockfile", ""),
        MARKER_TIME + 299,
    );
    assert_eq!(stage, LockStage::Done);
    assert_eq!(action, Action::Fail(too_recent()));
}

#[test]
fn old_marker_is_removed() {
    let p = publisher();
    let (stage, action) = p.remove_lockfile_at(
        LockStage::Listing,
        exited(true, "2023-12-01 14:30:45 0 lockfile", ""),
        MARKER_TIME + 300,
    );
    assert_eq!(stage, LockStage::Deleting { report: None });
    assert_eq!(action, remove_lock());
    let (stage, action) = p.remove_lockfile_at(stage, exited(true, "delete: ...", ""), MARKER_TIME + 301);
    assert_eq!(stage, LockStage::Done);
    assert_eq!(action, Action::Complete(None));
}

#[test]
fn absent_marker_needs_nothing() {
    let p = publisher();
    let (stage, action) = p.remove_lockfile_at(LockStage::Listing, exited(false, "", "NoSuchKey"), 0);
    assert_eq!((stage, action), (LockStage::Done, Action::Complete(None)));
    let (stage, action) = p.remove_lockfile_at(LockStage::Listing, exited(true, " \n", ""), 0);
    assert_eq!((stage, action), (LockStage::Done, Action::Complete(None)));
    let (stage, action) = p.remove_lockfile_at(LockStage::Listing, not_started("no aws"), 0);
    assert_eq!(stage, LockStage::Done);
    assert_eq!(
        action,
        Action::Fail(ManagerError::CommandFailed("Failed to execute aws s3 ls: no aws".to_string()))
    );
}

#[test]
fn unreadable_marker_is_removed_and_reported() {
    let p = publisher();
    let report = ManagerError::CommandFailed(
        "Could not get lockfile timestamp from S3 bucket. Check AWS credentials.".to_string(),
    );
    let (stage, action) = p.remove_lockfile_at(LockStage::Listing, exited(true, "lockfile", ""), 0);
    assert_eq!(stage, LockStage::Deleting { report: Some(report.clone()) });
    assert_eq!(action, remove_lock());
    let (stage, action) = p.remove_lockfile_at(stage, exited(true, "", ""), 0);
    assert_eq!((stage, action), (LockStage::Done, Action::Fail(report)));
    let (stage, action) = p.remove_lockfile_at(LockStage::Listing, exited(true, "not a-date 0 lockfile", ""), 0);
    assert!(matches!(stage, LockStage::Deleting { report: Some(ManagerError::ValidationError(_)) }));
    assert_eq!(action, remove_lock());
}

#[test]
fn failed_removal_is_reported() {
    let p = publisher();
    let (stage, action) =
        p.remove_lockfile_at(LockStage::Deleting { report: None }, exited(false, "", "denied"), 0);
    assert_eq!(stage, LockStage::Done);
    assert_eq!(
        action,
        Action::Fail(ManagerError::CommandFailed("Failed to delete lockfile: denied".to_string()))
    );
    let (_, action) =
        p.remove_lockfile_at(LockStage::Deleting { report: None }, not_started("no aws"), 0);
    assert_eq!(
        action,
        Action::Fail(ManagerError::CommandFailed("Failed to execute aws s3 rm: no aws".to_string()))
    );
    let (_, action) = p.remove_lockfile_at(LockStage::Done, Event::Begin, 0);
    assert_eq!(action, Action::Fail(ManagerError::ValidationError("unexpected event".to_string())));
}

#[test]
fn marker_age_is_taken_against_the_clock() {
    let p = publisher();
    let (stage, action) =
        p.remove_lockfile(LockStage::Listing, exited(true, "2000-01-01 00:00:00 0 lockfile", ""));
    assert_eq!(stage, LockStage::Deleting { report: None });
    assert_eq!(action, remove_lock());
    let (stage, action) =
        p.remove_lockfile(LockStage::Listing, exited(true, "2999-01-01 00:00:00 0 lockfile", ""));
    assert_eq!((stage, action), (LockStage::Done, Action::Fail(too_recent())));
}

#[test]
fn publication_runs_through_its_stages() {
    let p = publisher();
    let (stage, action) = p.publish(PublishStage::Start, Event::Begin);
    assert_eq!(stage, PublishStage::CheckingPackage);
    assert_eq!(action, Action::PathExists("/cache/bullseye/mina-archive_1.0.1.deb".to_string()));
    let (stage, action) = p.publish(stage, Event::Exists(true));
    assert_eq!(stage, PublishStage::Uploading);
    assert_eq!(action, Action::Run(p.upload_command()));
    let (stage, action) = p.publish(stage, exited(true, "uploaded", ""));
    assert_eq!(stage, PublishStage::Verifying);
    assert_eq!(action, Action::Run(p.verify_upload()));
    let (stage, action) = p.publish(stage, exited(true, "", ""));
    assert_eq!((stage, action), (PublishStage::Done, Action::Complete(None)));
}

#[test]
fn publication_fails_fast() {
    let mut c = config();
    c.codename.clear();
    let (stage, action) = DebianPublisher::new(c).publish(PublishStage::Start, Event::Begin);
    assert_eq!(stage, PublishStage::Done);
    assert_eq!(
        action,
        Action::Fail(ManagerError::ValidationError("Codename cannot be empty".to_string()))
    );
    let p = publisher();
    let (stage, action) = p.publish(PublishStage::CheckingPackage, Event::Exists(false));
    assert_eq!(stage, PublishStage::Done);
    assert_eq!(
        action,
        Action::Fail(ManagerError::ValidationError(
            "Package file not found: /cache/bullseye/mina-archive_1.0.1.deb".to_string()
        ))
    );
    let (_, action) = p.publish(PublishStage::Uploading, not_started("no deb-s3"));
    assert_eq!(
        action,
        Action::Fail(ManagerError::CommandFailed("Failed to execute deb-s3: no deb-s3".to_string()))
    );
    let (stage, action) = p.publish(PublishStage::Uploading, exited(false, "out", "already exists"));
    assert_eq!(stage, PublishStage::Done);
    assert_eq!(
        action,
        Action::Fail(ManagerError::CommandFailed(
            "deb-s3 upload failed. Stdout: out, Stderr: already exists".to_string()
        ))
    );
}

#[test]
fn unverified_upload_is_a_failure() {
    let p = publisher();
    let (stage, action) = p.publish(PublishStage::Verifying, exited(false, "", "manifest broken"));
    assert_eq!(stage, PublishStage::Done);
    assert_eq!(
        action,
        Action::Fail(ManagerError::CommandFailed("deb-s3 verify failed: manifest broken".to_string()))
    );
    let (_, action) = p.publish(PublishStage::Verifying, not_started("gone"));
    assert_eq!(
        action,
        Action::Fail(ManagerError::CommandFailed(
            "Failed to execute deb-s3 verify: gone".to_string()
        ))
    );
}

#[test]
fn stale_lock_is_cleared_and_upload_failure_reported() {
    let p = publisher();
    let upload_error = ManagerError::CommandFailed(
        "deb-s3 upload failed. Stdout: , Stderr: Repository is locked: lockfile present"
            .to_string(),
    );
    let now = MARKER_TIME + 600;
    let (stage, action) = p.publish_at(
        PublishStage::Uploading,
        exited(false, "", "Repository is locked: lockfile present"),
        now,
    );
    assert_eq!(
        stage,
        PublishStage::Recovering { lock: LockStage::Listing, upload_error: upload_error.clone() }
    );
    assert_eq!(action, list_lock());
    let (stage, action) =
        p.publish_at(stage, exited(true, "2023-12-01 14:30:45          0 lockfile\n", ""), now);
    assert_eq!(
        stage,
        PublishStage::Recovering {
            lock: LockStage::Deleting { report: None },
            upload_error: upload_error.clone()
        }
    );
    assert_eq!(action, remove_lock());
    let (stage, action) = p.publish_at(stage, exited(true, "", ""), now);
    assert_eq!(stage, PublishStage::Done);
    assert_eq!(action, Action::Fail(upload_error));
}

#[test]
fn fresh_lock_stays_and_the_conflict_is_reported() {
    let p = publisher();
    let upload_error =
        ManagerError::CommandFailed("deb-s3 upload failed. Stdout: o, Stderr: lockfile".to_string());
    let now = MARKER_TIME + 10;
    let (stage, action) = p.publish_at(PublishStage::Uploading, exited(false, "o", "lockfile"), now);
    assert_eq!(
        stage,
        PublishStage::Recovering { lock: LockStage::Listing, upload_error: upload_error.clone() }
    );
    assert_eq!(action, list_lock());
    let (stage, action) = p.publish_at(stage, exited(true, "2023-12-01 14:30:45 0 lockfile", ""), now);
    assert_eq!(stage, PublishStage::Done);
    assert_eq!(action, Action::Fail(too_recent()));
    assert!(matches!(too_recent(), ManagerError::ValidationError(_)));
    let (stage, action) = p.publish_at(
        PublishStage::Recovering { lock: LockStage::Listing, upload_error: upload_error.clone() },
        exited(true, "2023-12-01 14:30:45 0 lockfile", ""),
        MARKER_TIME + 299,
    );
    assert_eq!((stage, action), (PublishStage::Done, Action::Fail(too_recent())));
}

#[test]
fn fresh_lock_is_seen_against_the_clock() {
    let p = publisher();
    let upload_error = ManagerError::CommandFailed("upload".to_string());
    let (stage, action) = p.publish(
        PublishStage::Recovering { lock: LockStage::Listing, upload_error: upload_error.clone() },
        exited(true, "2999-01-01 00:00:00 0 lockfile", ""),
    );
    assert_eq!((stage, action), (PublishStage::Done, Action::Fail(too_recent())));
    let (stage, action) = p.publish(
        PublishStage::Recovering { lock: LockStage::Listing, upload_error: upload_error.clone() },
        exited(true, "2000-01-01 00:00:00 0 lockfile", ""),
    );
    assert_eq!(
        stage,
        PublishStage::Recovering { lock: LockStage::Deleting { report: None }, upload_error }
    );
    assert_eq!(action, remove_lock());
}

#[test]
fn other_ends_of_a_recovery_report_the_upload_failure() {
    let p = publisher();
    let upload_error =
        ManagerError::CommandFailed("deb-s3 upload failed. Stdout: o, Stderr: locked".to_string());
    let recovering = |lock: LockStage| PublishStage::Recovering {
        lock,
        upload_error: upload_error.clone(),
    };
    let failed = (PublishStage::Done, Action::Fail(upload_error.clone()));
    assert_eq!(p.publish_at(recovering(LockStage::Listing), exited(false, "", ""), 0), failed);
    assert_eq!(p.publish_at(recovering(LockStage::Listing), exited(true, " ", ""), 0), failed);
    assert_eq!(p.publish_at(recovering(LockStage::Listing), Event::Exists(true), 0), failed);
    assert_eq!(p.publish_at(recovering(LockStage::Listing), not_started("no aws"), 0), failed);
    assert_eq!(
        p.publish_at(recovering(LockStage::Deleting { report: None }), exited(true, "", ""), 0),
        failed
    );
    assert_eq!(
        p.publish_at(recovering(LockStage::Deleting { report: None }), exited(false, "", "x"), 0),
        failed
    );
    let unreadable = ManagerError::ValidationError("Failed to parse timestamp: x".to_string());
    assert_eq!(
        p.publish_at(
            recovering(LockStage::Deleting { report: Some(unreadable) }),
            exited(true, "", ""),
            0
        ),
        failed
    );
    let (stage, action) =
        p.publish_at(recovering(LockStage::Listing), exited(true, "lockfile", ""), 0);
    assert!(matches!(stage, PublishStage::Recovering { lock: LockStage::Deleting { .. }, .. }));
    assert_eq!(action, remove_lock());
}
