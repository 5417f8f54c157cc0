use release_manager::errors::{IoErrorKind, IoFailure, ManagerError};
use release_manager::process::{Action, CommandLine, CommandOutcome, Event};
use release_manager::storage::{
    CacheStage, first_word_of, get_cached_debian_or_download, HetznerSettings, local_hash,
    remote_package_path, remote_shell_command, StorageBackend, StorageClient, TransferStage,
};

const HETZNER_ROOT: &str = "/home/o1labs-generic/pvc-4d294645-6466-4260-b933-1b909ff9c3a1";

fn exited(success: bool, stdout: &str, stderr: &str) -> CommandOutcome {
    CommandOutcome::Exited { success, stdout: stdout.to_string(), stderr: stderr.to_string() }
}

fn ok(stdout: &str) -> Event {
    Event::Command(exited(true, stdout, ""))
}

fn line(program: &str, args: &[&str]) -> CommandLine {
    CommandLine { program: program.to_string(), args: args.iter().map(|s| s.to_string()).collect() }
}

fn no_settings() -> HetznerSettings {
    HetznerSettings { user: None, host: None, key_path: None, home: None }
}

fn hetzner() -> StorageClient {
    StorageClient::new(StorageBackend::Hetzner {
        user: "u1".to_string(),
        host: "box.example".to_string(),
        key_path: "/keys/id".to_string(),
    })
}

fn local() -> StorageClient {
    StorageClient::new(StorageBackend::Local)
}

fn gs() -> StorageClient {
    StorageClient::new(StorageBackend::Gs)
}

fn names(items: &[&str]) -> Vec<String> {
    items.iter().map(|s| s.to_string()).collect()
}

fn step(storage: &StorageClient, stage: CacheStage, event: Event) -> (CacheStage, Action) {
    get_cached_debian_or_download(
        storage,
        "mina-daemon",
        "bullseye",
        Some("devnet"),
        "build-1",
        "/cache",
        stage,
        event,
    )
}

#[test]
fn backends_by_name() {
    assert!(matches!(StorageBackend::from_str("local", &no_settings()), Ok(StorageBackend::Local)));
    assert!(matches!(StorageBackend::from_str("gs", &no_settings()), Ok(StorageBackend::Gs)));
    assert_eq!(
        StorageBackend::from_str("s3", &no_settings()).err(),
        Some(ManagerError::UnsupportedBackend("s3".to_string()))
    );
    assert_eq!(
        StorageBackend::from_str("", &no_settings()).err(),
        Some(ManagerError::UnsupportedBackend(String::new()))
    );
}

#[test]
fn remote_host_falls_back_to_defaults() {
    match StorageBackend::from_str("hetzner", &no_settings()).unwrap() {
        StorageBackend::Hetzner { user, host, key_path } => {
            assert_eq!(user, "u434410");
            assert_eq!(host, "u434410-sub2.your-storagebox.de");
            assert_eq!(key_path, "/.ssh/id_rsa");
        }
        other => panic!("unexpected backend {:?}", other),
    }
    let home = HetznerSettings { home: Some("/home/me".to_string()), ..no_settings() };
    match StorageBackend::from_str("hetzner", &home).unwrap() {
        StorageBackend::Hetzner { key_path, .. } => assert_eq!(key_path, "/home/me/.ssh/id_rsa"),
        other => panic!("unexpected backend {:?}", other),
    }
    let all = HetznerSettings {
        user: Some("u".to_string()),
        host: Some("h".to_string()),
        key_path: Some("/k".to_string()),
        home: Some("/home/me".to_string()),
    };
    match StorageBackend::from_str("hetzner", &all).unwrap() {
        StorageBackend::Hetzner { user, host, key_path } => {
            assert_eq!((user.as_str(), host.as_str(), key_path.as_str()), ("u", "h", "/k"));
        }
        other => panic!("unexpected backend {:?}", other),
    }
}

#[test]
fn root_paths() {
    assert_eq!(StorageBackend::Local.root_path(), "/var/storagebox/");
    assert_eq!(StorageBackend::Gs.root_path(), "gs://buildkite_k8s/coda/shared");
    assert_eq!(hetzner().backend.root_path(), HETZNER_ROOT);
}

#[test]
fn commands_of_a_local_store() {
    let s = local();
    assert_eq!(s.list_command("/p/x_*"), line("ls", &["/p/x_*"]));
    assert_eq!(s.md5_command("/p/x_*"), line("md5sum", &["/p/x_*"]));
    assert_eq!(s.upload_command("/l", "/r"), line("cp", &["/l", "/r"]));
    assert_eq!(s.fetch_command("/r", "/l"), line("cp", &["/r", "/l"]));
}

#[test]
fn commands_of_a_cloud_store() {
    let s = gs();
    assert_eq!(s.list_command("gs://b/x_*"), line("gsutil", &["list", "gs://b/x_*"]));
    assert_eq!(s.md5_command("gs://b/x"), line("gsutil", &["hash", "-h", "-m", "gs://b/x"]));
    assert_eq!(s.upload_command("/l", "gs://b/"), line("gsutil", &["cp", "/l", "gs://b/"]));
    assert_eq!(s.fetch_command("gs://b/x", "/l"), line("gsutil", &["cp", "gs://b/x", "/l"]));
}

#[test]
fn commands_of_a_remote_host() {
    let s = hetzner();
    assert_eq!(
        s.list_command("/data/mina_1.0.deb"),
        line("ssh", &["-p", "23", "-i", "/keys/id", "u1@box.example", "ls /data/mina_1.0.deb"])
    );
    assert_eq!(
        s.list_command("/data/my files/x_*"),
        line("ssh", &["-p", "23", "-i", "/keys/id", "u1@box.example", "ls '/data/my files/x_*'"])
    );
    assert_eq!(
        s.md5_command("it's"),
        line("ssh", &["-p", "23", "-i", "/keys/id", "u1@box.example", "md5sum 'it'\\''s'"])
    );
    assert_eq!(
        s.upload_command("/l/*x*", "/r/"),
        line("rsync", &["-avz", "-e", "ssh -p 23 -i /keys/id", "/l/*x*", "u1@box.example:/r/"])
    );
    assert_eq!(
        s.fetch_command("/r/x.deb", "/l"),
        line("rsync", &["-avz", "--rsh", "ssh -p 23 -i /keys/id", "u1@box.example:/r/x.deb", "/l"])
    );
    assert_eq!(
        remote_shell_command("u", "h", "/k", "ls", "'a b'"),
        line("ssh", &["-p", "23", "-i", "/k", "u@h", "ls 'a b'"])
    );
}

#[test]
fn output_of_the_store_is_trimmed() {
    assert_eq!(StorageClient::run_command(&exited(true, "  a b \n", "")), Ok("a b".to_string()));
    assert_eq!(
        StorageClient::run_command(&exited(false, "out", "boom")),
        Err(ManagerError::CommandFailed("boom".to_string()))
    );
    assert_eq!(
        StorageClient::run_command(&CommandOutcome::NotStarted { reason: "none".to_string() }),
        Err(ManagerError::IoError(IoFailure { kind: IoErrorKind::Other, message: "none".to_string() }))
    );
    assert_eq!(StorageClient::upload(&exited(true, "x", "")), Ok(()));
    assert_eq!(
        StorageClient::upload(&exited(false, "", "denied")),
        Err(ManagerError::CommandFailed("denied".to_string()))
    );
}

#[test]
fn listing_is_read_line_by_line() {
    assert_eq!(StorageClient::list(&exited(true, "a.deb\nb.deb\n", "")), Ok(names(&["a.deb", "b.deb"])));
    assert_eq!(StorageClient::list(&exited(true, "\n \n", "")), Ok(names(&[])));
    assert_eq!(StorageClient::list(&exited(true, "", "")), Ok(names(&[])));
    assert_eq!(
        StorageClient::list(&exited(false, "", "No such file")),
        Err(ManagerError::CommandFailed("No such file".to_string()))
    );
}

#[test]
fn hash_is_read_from_the_answer() {
    let no_hash = || Err(ManagerError::StorageError("Could not parse MD5 hash".to_string()));
    assert_eq!(
        local().md5(&exited(true, "d41d8cd98f00b204e9800998ecf8427e  /p/x.deb\n", "")),
        Ok("d41d8cd98f00b204e9800998ecf8427e".to_string())
    );
    assert_eq!(hetzner().md5(&exited(true, "abc /x\ndef /y\n", "")), Ok("abc".to_string()));
    assert_eq!(local().md5(&exited(true, "  \n", "")), no_hash());
    assert_eq!(
        local().md5(&exited(false, "abc x", "fail")),
        Err(ManagerError::CommandFailed("fail".to_string()))
    );
    let report = "Hashes [hex] for x.deb:\n\tHash (crc32c):\t\t11223344\n\tHash (md5):\t\tcafe0123\n";
    assert_eq!(gs().md5(&exited(true, report, "")), Ok("cafe0123".to_string()));
    assert_eq!(gs().md5(&exited(true, "Hash (md5):\nHash (md5): second\n", "")), Ok("second".to_string()));
    assert_eq!(gs().md5(&exited(true, "cafe0123 x.deb", "")), no_hash());
    assert_eq!(gs().md5(&exited(true, "", "")), no_hash());
    assert_eq!(first_word_of(" a b"), Some("a".to_string()));
    assert_eq!(first_word_of(" \t"), None);
}

#[test]
fn download_from_a_local_store_is_one_copy() {
    let s = local();
    let (stage, action) = s.download("/r/x_*", "/l", TransferStage::Start, Event::Begin);
    assert_eq!(stage, TransferStage::Copying);
    assert_eq!(action, Action::Run(line("cp", &["/r/x_*", "/l"])));
    let (stage, action) = s.download("/r/x_*", "/l", stage, ok(""));
    assert_eq!((stage, action), (TransferStage::Done, Action::Complete(None)));
    let (stage, action) =
        s.download("/r/x_*", "/l", TransferStage::Copying, Event::Command(exited(false, "", "no")));
    assert_eq!(stage, TransferStage::Done);
    assert_eq!(action, Action::Fail(ManagerError::CommandFailed("no".to_string())));
    let (_, action) = gs().download("gs://r", "/l", TransferStage::Start, Event::Begin);
    assert_eq!(action, Action::Run(line("gsutil", &["cp", "gs://r", "/l"])));
}

#[test]
fn download_from_a_remote_host_fetches_file_by_file() {
    let s = hetzner();
    let (stage, action) = s.download("/r/x_*", "/l", TransferStage::Start, Event::Begin);
    assert_eq!(stage, TransferStage::Listing);
    assert_eq!(action, Action::Run(s.list_command("/r/x_*")));
    let (stage, action) = s.download("/r/x_*", "/l", stage, ok(" /r/x_1.deb \n\n/r/x_2.deb\n"));
    assert_eq!(stage, TransferStage::Fetching { files: names(&["/r/x_1.deb", "/r/x_2.deb"]), next: 0 });
    assert_eq!(action, Action::Run(s.fetch_command("/r/x_1.deb", "/l")));
    let (stage, action) = s.download("/r/x_*", "/l", stage, ok(""));
    assert_eq!(stage, TransferStage::Fetching { files: names(&["/r/x_1.deb", "/r/x_2.deb"]), next: 1 });
    assert_eq!(action, Action::Run(s.fetch_command("/r/x_2.deb", "/l")));
    let (stage, action) = s.download("/r/x_*", "/l", stage, ok(""));
    assert_eq!((stage, action), (TransferStage::Done, Action::Complete(None)));
    let (stage, action) = s.download(
        "/r/x_*",
        "/l",
        TransferStage::Fetching { files: names(&["a", "b"]), next: 0 },
        Event::Command(exited(false, "", "broken pipe")),
    );
    assert_eq!(stage, TransferStage::Done);
    assert_eq!(action, Action::Fail(ManagerError::CommandFailed("broken pipe".to_string())));
    let (stage, action) = s.download("/r/x_*", "/l", TransferStage::Listing, ok("\n"));
    assert_eq!((stage, action), (TransferStage::Done, Action::Complete(None)));
    let (_, action) = s.download("/r/x_*", "/l", TransferStage::Done, Event::Begin);
    assert_eq!(action, Action::Fail(ManagerError::ValidationError("unexpected event".to_string())));
}

#[test]
fn remote_path_of_a_package() {
    assert_eq!(
        remote_package_path(&gs(), "mina-daemon", "bullseye", Some("devnet"), "build-1"),
        "gs://buildkite_k8s/coda/shared/build-1/debians/bullseye/mina-devnet_*"
    );
    assert_eq!(
        remote_package_path(&local(), "mina-logproc", "focal", None, "b"),
        "/var/storagebox//b/debians/focal/mina-logproc_*"
    );
}

#[test]
fn missing_artifact_is_reported() {
    let s = gs();
    let remote = "gs://buildkite_k8s/coda/shared/build-1/debians/bullseye/mina-devnet_*";
    let (stage, action) = step(&s, CacheStage::Start, Event::Begin);
    assert_eq!(stage, CacheStage::ListingRemote);
    assert_eq!(action, Action::Run(line("gsutil", &["list", remote])));
    let (stage, action) = step(&s, stage, ok("\n"));
    assert_eq!(stage, CacheStage::Done);
    assert_eq!(
        action,
        Action::Fail(ManagerError::ArtifactNotFound(
            "No debian package found for mina-devnet (build: build-1)".to_string()
        ))
    );
    let (stage, action) = step(&s, CacheStage::ListingRemote, Event::Command(exited(false, "", "denied")));
    assert_eq!(stage, CacheStage::Done);
    assert_eq!(action, Action::Fail(ManagerError::CommandFailed("denied".to_string())));
}

#[test]
fn cached_package_is_not_downloaded() {
    let s = gs();
    let remote = "gs://buildkite_k8s/coda/shared/build-1/debians/bullseye/mina-devnet_*";
    let (stage, action) = step(&s, CacheStage::ListingRemote, ok("gs://.../mina-devnet_1.0.deb\n"));
    assert_eq!(stage, CacheStage::HashingRemote);
    assert_eq!(action, Action::Run(line("gsutil", &["hash", "-h", "-m", remote])));
    let (stage, action) = step(&s, stage, ok("\tHash (md5):\t\tcafe\n"));
    assert_eq!(stage, CacheStage::CreatingCacheDir { target_hash: "cafe".to_string() });
    assert_eq!(action, Action::CreateDirAll("/cache/bullseye".to_string()));
    let (stage, action) = step(&s, stage, Event::Io(Ok(())));
    assert_eq!(stage, CacheStage::ReadingCacheDir { target_hash: "cafe".to_string() });
    assert_eq!(action, Action::ReadDir("/cache/bullseye".to_string()));
    let entries = names(&[
        "mina-devnet-extra_1.deb",
        "mina-devnet_0.9.deb",
        "Mina-devnet_1.0.deb",
        "mina-devnet_1.0.deb",
        "mina-devnet_1.1.deb",
    ]);
    let candidates = names(&["mina-devnet_0.9.deb", "mina-devnet_1.0.deb", "mina-devnet_1.1.deb"]);
    let (stage, action) = step(&s, stage, Event::Entries(Ok(entries)));
    assert_eq!(
        stage,
        CacheStage::HashingLocal {
            target_hash: "cafe".to_string(),
            candidates: candidates.clone(),
            next: 0
        }
    );
    assert_eq!(action, Action::Run(line("md5sum", &["/cache/bullseye/mina-devnet_0.9.deb"])));
    let (stage, action) = step(&s, stage, ok("beef  /cache/bullseye/mina-devnet_0.9.deb\n"));
    assert_eq!(
        stage,
        CacheStage::HashingLocal { target_hash: "cafe".to_string(), candidates, next: 1 }
    );
    assert_eq!(action, Action::Run(line("md5sum", &["/cache/bullseye/mina-devnet_1.0.deb"])));
    let (stage, action) = step(&s, stage, ok("cafe  /cache/bullseye/mina-devnet_1.0.deb\n"));
    assert_eq!((stage, action), (CacheStage::Done, Action::Complete(None)));
}

#[test]
fn changed_package_is_downloaded_again() {
    let s = gs();
    let remote = "gs://buildkite_k8s/coda/shared/build-1/debians/bullseye/mina-devnet_*";
    let download = Action::Run(line("gsutil", &["cp", remote, "/cache/bullseye"]));
    let scanning = |next: usize| CacheStage::HashingLocal {
        target_hash: "new".to_string(),
        candidates: names(&["mina-devnet_1.0.deb", "mina-devnet_1.1.deb"]),
        next,
    };
    let (stage, action) = step(&s, scanning(0), ok("old  x\n"));
    assert_eq!(stage, scanning(1));
    assert_eq!(action, Action::Run(line("md5sum", &["/cache/bullseye/mina-devnet_1.1.deb"])));
    let (stage, action) = step(&s, stage, ok("CAFE  x\n"));
    assert_eq!(stage, CacheStage::Downloading { transfer: TransferStage::Copying });
    assert_eq!(action, download);
    let (stage, action) = step(&s, stage, ok(""));
    assert_eq!((stage, action), (CacheStage::Done, Action::Complete(None)));
    for event in [
        Event::Command(CommandOutcome::NotStarted { reason: "no md5sum".to_string() }),
        ok(""),
        Event::Command(exited(false, "newer x", "")),
    ] {
        let (stage, action) = step(&s, scanning(1), event);
        assert_eq!(stage, CacheStage::Downloading { transfer: TransferStage::Copying });
        assert_eq!(action, download);
    }
    let (stage, action) = step(&s, scanning(1), Event::Command(exited(false, "new x", "")));
    assert_eq!((stage, action), (CacheStage::Done, Action::Complete(None)));
}

#[test]
fn empty_or_unreadable_cache_leads_to_a_download() {
    let s = local();
    let remote = "/var/storagebox//build-1/debians/bullseye/mina-devnet_*";
    let download = Action::Run(line("cp", &[remote, "/cache/bullseye"]));
    let reading = || CacheStage::ReadingCacheDir { target_hash: "h".to_string() };
    let (stage, action) = step(&s, reading(), Event::Entries(Ok(vec![])));
    assert_eq!(stage, CacheStage::Downloading { transfer: TransferStage::Copying });
    assert_eq!(action, download);
    let (_, action) = step(&s, reading(), Event::Entries(Ok(names(&["other_1.deb"]))));
    assert_eq!(action, download);
    let failure = IoFailure { kind: IoErrorKind::Other, message: "denied".to_string() };
    let (_, action) = step(&s, reading(), Event::Entries(Err(failure.clone())));
    assert_eq!(action, download);
    let (stage, action) = step(
        &s,
        CacheStage::CreatingCacheDir { target_hash: "h".to_string() },
        Event::Io(Err(failure.clone())),
    );
    assert_eq!(stage, CacheStage::Done);
    assert_eq!(action, Action::Fail(ManagerError::IoError(failure)));
    let (stage, action) = step(
        &s,
        CacheStage::Downloading { transfer: TransferStage::Copying },
        Event::Command(exited(false, "", "disk full")),
    );
    assert_eq!(stage, CacheStage::Done);
    assert_eq!(action, Action::Fail(ManagerError::CommandFailed("disk full".to_string())));
    let (stage, action) = step(&s, CacheStage::HashingRemote, ok(""));
    assert_eq!(stage, CacheStage::Done);
    assert_eq!(
        action,
        Action::Fail(ManagerError::StorageError("Could not parse MD5 hash".to_string()))
    );
}

#[test]
fn download_into_the_cache_from_a_remote_host() {
    let s = hetzner();
    let remote = format!("{}/build-1/debians/bullseye/mina-devnet_*", HETZNER_ROOT);
    let (stage, action) =
        step(&s, CacheStage::ReadingCacheDir { target_hash: "h".to_string() }, Event::Entries(Ok(vec![])));
    assert_eq!(stage, CacheStage::Downloading { transfer: TransferStage::Listing });
    assert_eq!(action, Action::Run(s.list_command(&remote)));
    let (stage, action) = step(&s, stage, ok("/r/mina-devnet_1.deb\n"));
    assert_eq!(
        stage,
        CacheStage::Downloading {
            transfer: TransferStage::Fetching { files: names(&["/r/mina-devnet_1.deb"]), next: 0 }
        }
    );
    assert_eq!(action, Action::Run(s.fetch_command("/r/mina-devnet_1.deb", "/cache/bullseye")));
    let (stage, action) = step(&s, stage, ok(""));
    assert_eq!((stage, action), (CacheStage::Done, Action::Complete(None)));
}

#[test]
fn local_hash_is_the_first_word() {
    assert_eq!(local_hash(&exited(true, "abc  file\n", "")), Some("abc".to_string()));
    assert_eq!(local_hash(&exited(false, "abc  file\n", "err")), Some("abc".to_string()));
    assert_eq!(local_hash(&exited(true, "", "")), None);
    assert_eq!(local_hash(&CommandOutcome::NotStarted { reason: "x".to_string() }), None);
}

#[test]
fn remote_paths_are_quoted_for_the_shell() {
    let s = hetzner();
    let remote = |path: &str| s.md5_command(path).args[5].clone();
    assert_eq!(remote("/a/B-c_d=e,f.g+h/0"), "md5sum /a/B-c_d=e,f.g+h/0");
    assert_eq!(remote(""), "md5sum ''");
    assert_eq!(remote("a!b"), "md5sum 'a'\\!'b'");
    assert_eq!(remote("'"), "md5sum ''\\'''");
    assert_eq!(remote("a b"), "md5sum 'a b'");
    assert_eq!(remote("x_*"), "md5sum 'x_*'");
    assert_eq!(remote("é"), "md5sum 'é'");
    assert_eq!(remote("a\nb"), "md5sum 'a\nb'");
}
