//! Publishing of a package into the shared repository, and the recovery
//! from a lock marker that another publisher left behind.

use vstd::prelude::*;
use crate::errors::{ErrorView, ManagerError, ManagerResult, unit_view};
use crate::process::{
    Action, ActionView, check_command, command, command_failure, CommandLine, CommandLineView,
    CommandOutcome, CommandOutcomeView, Event, EventView,
};
use crate::text::{contains, has_substring, split_whitespace, str_eq, trim, trimmed, words_of};

verus! {

/// The age in seconds from which a lock marker counts as left behind.
pub const LOCK_STALE_AFTER_SECONDS: i64 = 300;

/// What a recovery ends with that found a young lock marker.
pub const LOCK_TOO_RECENT: &'static str =
    "Lockfile is too recent. There may be an active deb-s3 instance using it.";

/// How the time of a lock marker is written in a listing of the repository.
pub const LOCK_TIME_FORMAT: &'static str = "%Y-%m-%d %H:%M:%S";

/// What a publication is asked to do.
#[derive(Clone, Debug)]
pub struct DebianPublishConfig {
    /// Path of the package file.
    pub package_path: String,
    /// Version that is published.
    pub version: String,
    /// Bucket that holds the repository.
    pub bucket: String,
    /// Codename of the distribution.
    pub codename: String,
    /// Channel that is published to.
    pub release: String,
    /// Key to sign with, where the repository is signed.
    pub sign_key: Option<String>,
    /// Whether commands are shown.
    pub debug: bool,
}

/// The mathematical content of a [`DebianPublishConfig`].
pub struct DebianPublishConfigView {
    pub package_path: Seq<char>,
    pub version: Seq<char>,
    pub bucket: Seq<char>,
    pub codename: Seq<char>,
    pub release: Seq<char>,
    pub sign_key: Option<Seq<char>>,
    pub debug: bool,
}

impl View for DebianPublishConfig {
    type V = DebianPublishConfigView;

    open spec fn view(&self) -> DebianPublishConfigView {
        DebianPublishConfigView {
            package_path: self.package_path@,
            version: self.version@,
            bucket: self.bucket@,
            codename: self.codename@,
            release: self.release@,
            sign_key: match self.sign_key {
                Some(key) => Some(key@),
                None => None,
            },
            debug: self.debug,
        }
    }
}

/// What is to be done about a lock marker.
#[derive(Clone, Debug, PartialEq, Eq)]
pub enum LockVerdict {
    /// The marker is old enough to be removed.
    Stale,
    /// The marker is young: a publisher may be at work, and it stays.
    Fresh,
    /// The time of the marker cannot be told. The marker is removed, and
    /// the error is reported.
    Unreadable(ManagerError),
}

/// The mathematical content of a [`LockVerdict`].
pub enum LockVerdictView {
    Stale,
    Fresh,
    Unreadable(ErrorView),
}

impl View for LockVerdict {
    type V = LockVerdictView;

    open spec fn view(&self) -> LockVerdictView {
        match self {
            LockVerdict::Stale => LockVerdictView::Stale,
            LockVerdict::Fresh => LockVerdictView::Fresh,
            LockVerdict::Unreadable(e) => LockVerdictView::Unreadable(e@),
        }
    }
}

/// The time that `text` holds when it is read as `format` says, in seconds
/// since the start of 1970 in UTC; or the message of the parser where `text`
/// does not hold a date and a time of day in that form.
pub uninterp spec fn parsed_timestamp(text: Seq<char>, format: Seq<char>) -> Result<i64, Seq<char>>;

/// A parsed time with the message of a failure taken by its view.
pub open spec fn stamp_view(parsed: Result<i64, String>) -> Result<i64, Seq<char>> {
    match parsed {
        Ok(seconds) => Ok(seconds),
        Err(message) => Err(message@),
    }
}

/// Reads `text` with `chrono::NaiveDateTime::parse_from_str` and takes the
/// result as a time in UTC. Nothing is proved of the outcome: it is taken to
/// be `parsed_timestamp` of the same text and format.
#[verifier::external_body]
fn parse_timestamp(text: &str, format: &str) -> (parsed: Result<i64, String>)
    ensures
        stamp_view(parsed) == parsed_timestamp(text@, format@),
{
    match chrono::NaiveDateTime::parse_from_str(text, format) {
        Ok(time) => Ok(time.and_utc().timestamp()),
        Err(e) => Err(e.to_string()),
    }
}

/// Asks `chrono::Utc::now` for the time, in seconds since the start of 1970.
/// The result depends on the clock, so nothing is claimed of it.
#[verifier::external_body]
fn unix_now() -> (seconds: i64) {
    chrono::Utc::now().timestamp()
}

/// Whether a lock marker of the given age in seconds counts as left behind.
pub open spec fn is_stale(age: int) -> bool {
    age >= LOCK_STALE_AFTER_SECONDS
}

/// What is to be done about a lock marker whose time was read with the
/// given result, at the time `now`.
pub open spec fn verdict_of(parsed: Result<i64, Seq<char>>, now: int) -> LockVerdictView {
    match parsed {
        Ok(stamp) => if is_stale(now - stamp) {
            LockVerdictView::Stale
        } else {
            LockVerdictView::Fresh
        },
        Err(message) => LockVerdictView::Unreadable(
            ErrorView::ValidationError("Failed to parse timestamp: "@ + message),
        ),
    }
}

/// What is to be done about the lock marker that `listing` shows, at the
/// time `now`. The listing starts with the date and the time of day of the
/// marker; one that has fewer than two words shows no time.
pub open spec fn marker_verdict(listing: Seq<char>, now: int) -> LockVerdictView {
    let words = words_of(listing);
    if words.len() < 2 {
        LockVerdictView::Unreadable(
            ErrorView::CommandFailed(
                "Could not get lockfile timestamp from S3 bucket. Check AWS credentials."@,
            ),
        )
    } else {
        verdict_of(parsed_timestamp(words[0] + " "@ + words[1], LOCK_TIME_FORMAT@), now)
    }
}

/// What is to be done about a lock marker whose time was read with the
/// result `parsed`, at the time `now`: a marker of 300 seconds or more is
/// stale, a younger one is fresh.
pub fn lock_verdict(parsed: Result<i64, String>, now: i64) -> (verdict: LockVerdict)
    ensures
        verdict@ == verdict_of(stamp_view(parsed), now as int),
        parsed matches Ok(stamp) ==> (verdict == LockVerdict::Stale <==> now - stamp >= 300),
        parsed matches Ok(stamp) ==> (verdict == LockVerdict::Fresh <==> now - stamp < 300),
{
    match parsed {
        Ok(stamp) => {
            let age: i128 = (now as i128) - (stamp as i128);
            if age >= (LOCK_STALE_AFTER_SECONDS as i128) {
                LockVerdict::Stale
            } else {
                LockVerdict::Fresh
            }
        },
        Err(message) => LockVerdict::Unreadable(
            ManagerError::ValidationError(
                crate::errors::describe("Failed to parse timestamp: ", message.as_str()),
            ),
        ),
    }
}

/// How far the recovery from a lock marker has come.
#[derive(Clone, Debug, PartialEq, Eq)]
pub enum LockStage {
    /// Nothing was done yet.
    Start,
    /// The marker is being listed.
    Listing,
    /// The marker is being removed. `report` is the error to end with once
    /// it is gone, if there is one.
    Deleting { report: Option<ManagerError> },
    /// The recovery is over.
    Done,
}

/// The mathematical content of a [`LockStage`].
pub enum LockStageView {
    Start,
    Listing,
    Deleting { report: Option<ErrorView> },
    Done,
}

impl View for LockStage {
    type V = LockStageView;

    open spec fn view(&self) -> LockStageView {
        match self {
            LockStage::Start => LockStageView::Start,
            LockStage::Listing => LockStageView::Listing,
            LockStage::Deleting { report: Some(e) } => LockStageView::Deleting {
                report: Some(e@),
            },
            LockStage::Deleting { report: None } => LockStageView::Deleting { report: None },
            LockStage::Done => LockStageView::Done,
        }
    }
}

/// How far a publication has come.
#[derive(Clone, Debug, PartialEq, Eq)]
pub enum PublishStage {
    /// Nothing was done yet.
    Start,
    /// Looking whether the package file is there.
    CheckingPackage,
    /// The package is being uploaded.
    Uploading,
    /// The upload failed on a lock, and the lock marker is being seen to.
    /// `upload_error` is the failure of the upload.
    Recovering { lock: LockStage, upload_error: ManagerError },
    /// The repository is being checked after the upload.
    Verifying,
    /// The publication is over.
    Done,
}

/// The mathematical content of a [`PublishStage`].
pub enum PublishStageView {
    Start,
    CheckingPackage,
    Uploading,
    Recovering { lock: LockStageView, upload_error: ErrorView },
    Verifying,
    Done,
}

impl View for PublishStage {
    type V = PublishStageView;

    open spec fn view(&self) -> PublishStageView {
        match self {
            PublishStage::Start => PublishStageView::Start,
            PublishStage::CheckingPackage => PublishStageView::CheckingPackage,
            PublishStage::Uploading => PublishStageView::Uploading,
            PublishStage::Recovering { lock, upload_error } => PublishStageView::Recovering {
                lock: lock@,
                upload_error: upload_error@,
            },
            PublishStage::Verifying => PublishStageView::Verifying,
            PublishStage::Done => PublishStageView::Done,
        }
    }
}

/// The error of a lock marker that is too young to be removed: another
/// publisher may be at work.
pub open spec fn lock_too_recent() -> ErrorView {
    ErrorView::ValidationError(LOCK_TOO_RECENT@)
}

/// Whether the step of a recovery at `stage` on `event` reads the clock: it
/// is the step that has the listing of the marker before it.
pub open spec fn reads_clock(stage: LockStageView, event: EventView) -> bool {
    match (stage, event) {
        (
            LockStageView::Listing,
            EventView::Command(CommandOutcomeView::Exited { success, .. }),
        ) => success,
        _ => false,
    }
}

/// Whether the step of a publication at `stage` on `event` reads the clock:
/// it is the step of its recovery that does.
pub open spec fn publish_reads_clock(stage: PublishStageView, event: EventView) -> bool {
    match stage {
        PublishStageView::Recovering { lock, .. } => reads_clock(lock, event),
        _ => false,
    }
}

/// The failure that ends the recovery from a lock marker.
pub open spec fn recovery_failed(e: ErrorView) -> (LockStageView, ActionView) {
    (LockStageView::Done, ActionView::Fail(e))
}

/// The failure that ends a publication.
pub open spec fn publication_failed(e: ErrorView) -> (PublishStageView, ActionView) {
    (PublishStageView::Done, ActionView::Fail(e))
}

/// Whether the output of a failed upload tells of a lock on the repository.
pub open spec fn tells_of_lock(stderr: Seq<char>) -> bool {
    has_substring(stderr, "lockfile"@) || has_substring(stderr, "locked"@)
}

impl DebianPublishConfigView {
    /// What is wrong with the configuration, if anything: the package path,
    /// the version, the bucket, the codename and the channel must not be
    /// empty.
    pub open spec fn config_error(self) -> Option<ErrorView> {
        if self.package_path.len() == 0 {
            Some(ErrorView::ValidationError("Package path cannot be empty"@))
        } else if self.version.len() == 0 {
            Some(ErrorView::ValidationError("Version cannot be empty"@))
        } else if self.bucket.len() == 0 {
            Some(ErrorView::ValidationError("Bucket cannot be empty"@))
        } else if self.codename.len() == 0 {
            Some(ErrorView::ValidationError("Codename cannot be empty"@))
        } else if self.release.len() == 0 {
            Some(ErrorView::ValidationError("Release cannot be empty"@))
        } else {
            None
        }
    }

    /// Where the lock marker of the repository lies.
    pub open spec fn lockfile_path(self) -> Seq<char> {
        "s3://"@ + self.bucket + "/dists/"@ + self.codename + "/"@ + self.release
            + "/binary-/lockfile"@
    }

    /// The command that uploads the package. It holds the lock of the
    /// repository while it runs, keeps the versions that are there, and
    /// fails where the same version is there already.
    pub open spec fn upload_command(self) -> CommandLineView {
        let line = command("deb-s3"@).arg("upload"@).arg("--s3-region=us-west-2"@).arg(
            "--bucket"@,
        ).arg(self.bucket).arg("--codename"@).arg(self.codename).arg("--component"@).arg(
            self.release,
        ).arg("--suite"@).arg(self.release).arg("--preserve-versions"@).arg("--lock"@).arg(
            "--fail-if-exists"@,
        ).arg("--cache-control=max-age=120"@).arg(self.package_path);
        match self.sign_key {
            Some(key) => line.arg("--sign"@).arg(key),
            None => line,
        }
    }

    /// The command that checks the repository without changing it.
    pub open spec fn verify_command(self) -> CommandLineView {
        command("deb-s3"@).arg("verify"@).arg("--bucket"@).arg(self.bucket).arg(
            "--s3-region=us-west-2"@,
        ).arg("--codename"@).arg(self.codename).arg("--component"@).arg(self.release).arg(
            "--suite"@,
        ).arg(self.release)
    }

    /// The command that lists the lock marker.
    pub open spec fn list_lock_command(self) -> CommandLineView {
        command("aws"@).arg("s3"@).arg("ls"@).arg(self.lockfile_path())
    }

    /// The command that removes the lock marker.
    pub open spec fn delete_lock_command(self) -> CommandLineView {
        command("aws"@).arg("s3"@).arg("rm"@).arg(self.lockfile_path())
    }

    /// The step that the recovery from a lock marker takes at `stage` when
    /// `event` comes in, at the time `now`.
    ///
    /// The marker is listed. Where there is none, nothing is to be done. A
    /// marker of 300 seconds or more is removed. A younger one stays, and
    /// the recovery fails, since a publisher may be at work. A marker whose
    /// time cannot be told is removed, and the recovery fails.
    pub open spec fn lock_step(self, stage: LockStageView, event: EventView, now: int) -> (
        LockStageView,
        ActionView,
    ) {
        match (stage, event) {
            (LockStageView::Start, EventView::Begin) => (
                LockStageView::Listing,
                ActionView::Run(self.list_lock_command()),
            ),
            (
                LockStageView::Listing,
                EventView::Command(CommandOutcomeView::NotStarted { reason }),
            ) => recovery_failed(
                ErrorView::CommandFailed("Failed to execute aws s3 ls: "@ + reason),
            ),
            (
                LockStageView::Listing,
                EventView::Command(CommandOutcomeView::Exited { success, stdout, stderr }),
            ) => if !success || trimmed(stdout).len() == 0 {
                (LockStageView::Done, ActionView::Complete(None))
            } else {
                match marker_verdict(stdout, now) {
                    LockVerdictView::Stale => (
                        LockStageView::Deleting { report: None },
                        ActionView::Run(self.delete_lock_command()),
                    ),
                    LockVerdictView::Unreadable(e) => (
                        LockStageView::Deleting { report: Some(e) },
                        ActionView::Run(self.delete_lock_command()),
                    ),
                    LockVerdictView::Fresh => recovery_failed(lock_too_recent()),
                }
            },
            (LockStageView::Deleting { report }, EventView::Command(outcome)) => {
                match command_failure(
                    outcome,
                    "Failed to execute aws s3 rm: "@,
                    "Failed to delete lockfile: "@,
                ) {
                    Some(e) => recovery_failed(e),
                    None => match report {
                        Some(e) => recovery_failed(e),
                        None => (LockStageView::Done, ActionView::Complete(None)),
                    },
                }
            },
            _ => recovery_failed(ErrorView::ValidationError("unexpected event"@)),
        }
    }

    /// The error of an upload that ended with a failure status.
    pub open spec fn upload_error(stdout: Seq<char>, stderr: Seq<char>) -> ErrorView {
        ErrorView::CommandFailed(
            "deb-s3 upload failed. Stdout: "@ + stdout + ", Stderr: "@ + stderr,
        )
    }

    /// The step that a publication takes at `stage` when `event` comes in,
    /// at the time `now`.
    ///
    /// The configuration is checked before anything else, and the package
    /// file must be there. Then the package is uploaded. A failed upload
    /// ends the publication with the failure of the upload; where its output
    /// tells of a lock, the lock marker is seen to first, and the upload is
    /// not tried again. A marker that is too young to be removed makes the
    /// publication fail with the error of that conflict, in place of the
    /// failure of the upload. After an upload that succeeded the repository is
    /// checked, and a failure of that check is the failure of the
    /// publication.
    pub open spec fn step(self, stage: PublishStageView, event: EventView, now: int) -> (
        PublishStageView,
        ActionView,
    ) {
        match (stage, event) {
            (PublishStageView::Start, EventView::Begin) => match self.config_error() {
                Some(e) => publication_failed(e),
                None => (
                    PublishStageView::CheckingPackage,
                    ActionView::PathExists(self.package_path),
                ),
            },
            (PublishStageView::CheckingPackage, EventView::Exists(found)) => if found {
                (PublishStageView::Uploading, ActionView::Run(self.upload_command()))
            } else {
                publication_failed(
                    ErrorView::ValidationError("Package file not found: "@ + self.package_path),
                )
            },
            (
                PublishStageView::Uploading,
                EventView::Command(CommandOutcomeView::NotStarted { reason }),
            ) => publication_failed(
                ErrorView::CommandFailed("Failed to execute deb-s3: "@ + reason),
            ),
            (
                PublishStageView::Uploading,
                EventView::Command(CommandOutcomeView::Exited { success, stdout, stderr }),
            ) => if success {
                (PublishStageView::Verifying, ActionView::Run(self.verify_command()))
            } else if tells_of_lock(stderr) {
                (
                    PublishStageView::Recovering {
                        lock: self.lock_step(LockStageView::Start, EventView::Begin, now).0,
                        upload_error: Self::upload_error(stdout, stderr),
                    },
                    self.lock_step(LockStageView::Start, EventView::Begin, now).1,
                )
            } else {
                publication_failed(Self::upload_error(stdout, stderr))
            },
            (PublishStageView::Recovering { lock, upload_error }, event) => {
                let next = self.lock_step(lock, event, now);
                if next.1 == ActionView::Fail(lock_too_recent()) {
                    publication_failed(lock_too_recent())
                } else if next.1.is_final() {
                    publication_failed(upload_error)
                } else {
                    (PublishStageView::Recovering { lock: next.0, upload_error }, next.1)
                }
            },
            (PublishStageView::Verifying, EventView::Command(outcome)) => match command_failure(
                outcome,
                "Failed to execute deb-s3 verify: "@,
                "deb-s3 verify failed: "@,
            ) {
                Some(e) => publication_failed(e),
                None => (PublishStageView::Done, ActionView::Complete(None)),
            },
            _ => publication_failed(ErrorView::ValidationError("unexpected event"@)),
        }
    }
}

/// The staleness of a lock marker has its boundary at 300 seconds. A marker
/// that the listing shows with a readable time is removed where its age is
/// 300 seconds or more; a younger one is left as it is, and the recovery
/// ends in a validation failure without asking for any command.
pub proof fn lemma_lock_staleness_boundary(
    config: DebianPublishConfigView,
    stdout: Seq<char>,
    stderr: Seq<char>,
    stamp: i64,
    now: int,
)
    requires
        trimmed(stdout).len() > 0,
        words_of(stdout).len() >= 2,
        parsed_timestamp(words_of(stdout)[0] + " "@ + words_of(stdout)[1], LOCK_TIME_FORMAT@)
            == Ok::<i64, Seq<char>>(stamp),
    ensures
        ({
            let next = config.lock_step(
                LockStageView::Listing,
                EventView::Command(CommandOutcomeView::Exited { success: true, stdout, stderr }),
                now,
            );
            &&& now - stamp >= 300 ==> next.1 == ActionView::Run(config.delete_lock_command())
            &&& now - stamp < 300 ==> next.0 == LockStageView::Done && next.1
                == ActionView::Fail(lock_too_recent())
        }),
{
}

/// While a publication recovers from a lock, it can end in two ways only.
/// Where the marker is too young to be removed, the publication fails with
/// the error of that conflict. In every other case, the marker removed or
/// not, it fails with the failure of the upload, which is not tried again.
pub proof fn lemma_recovery_reports_upload_failure(
    config: DebianPublishConfigView,
    lock: LockStageView,
    upload_error: ErrorView,
    event: EventView,
    now: int,
)
    ensures
        ({
            let found = config.lock_step(lock, event, now).1;
            let next = config.step(PublishStageView::Recovering { lock, upload_error }, event, now);
            &&& found == ActionView::Fail(lock_too_recent()) ==> next == publication_failed(
                lock_too_recent(),
            )
            &&& found.is_final() && found != ActionView::Fail(lock_too_recent()) ==> next
                == publication_failed(upload_error)
            &&& !found.is_final() ==> next.0 is Recovering && next.0->upload_error == upload_error
                && next.1 == found
        }),
{
}

/// A young lock marker is left intact, and the conflict is what the
/// publication reports. Where the upload failed on a lock and the listing
/// shows a marker with a readable time of less than 300 seconds ago, the
/// publication ends in the validation error of the conflict, and no command
/// that removes the marker is asked for.
pub proof fn lemma_fresh_lock_fails_the_publication(
    config: DebianPublishConfigView,
    upload_error: ErrorView,
    stdout: Seq<char>,
    stderr: Seq<char>,
    stamp: i64,
    now: int,
)
    requires
        trimmed(stdout).len() > 0,
        words_of(stdout).len() >= 2,
        parsed_timestamp(words_of(stdout)[0] + " "@ + words_of(stdout)[1], LOCK_TIME_FORMAT@)
            == Ok::<i64, Seq<char>>(stamp),
        now - stamp < 300,
    ensures
        config.step(
            PublishStageView::Recovering { lock: LockStageView::Listing, upload_error },
            EventView::Command(CommandOutcomeView::Exited { success: true, stdout, stderr }),
            now,
        ) == publication_failed(lock_too_recent()),
        lock_too_recent() is ValidationError,
{
}

/// The clock is read in one step only. Every other step of a recovery, and
/// so of a publication, is the same at every time.
pub proof fn lemma_clock_is_read_in_one_step(
    config: DebianPublishConfigView,
    lock: LockStageView,
    stage: PublishStageView,
    event: EventView,
    now: int,
    then: int,
)
    ensures
        !reads_clock(lock, event) ==> config.lock_step(lock, event, now) == config.lock_step(
            lock,
            event,
            then,
        ),
        !publish_reads_clock(stage, event) ==> config.step(stage, event, now) == config.step(
            stage,
            event,
            then,
        ),
{
}

/// Publishes one package into the repository.
#[derive(Debug)]
pub struct DebianPublisher {
    pub config: DebianPublishConfig,
}

impl View for DebianPublisher {
    type V = DebianPublishConfigView;

    open spec fn view(&self) -> DebianPublishConfigView {
        self.config@
    }
}

/// Whether the step of a recovery at `stage` on `event` reads the clock.
fn lock_reads_clock(stage: &LockStage, event: &Event) -> (reads: bool)
    ensures
        reads == reads_clock(stage@, event@),
{
    match (stage, event) {
        (LockStage::Listing, Event::Command(CommandOutcome::Exited { success, .. })) => *success,
        _ => false,
    }
}

fn recovery_fails(e: ManagerError) -> (r: (LockStage, Action))
    ensures
        (r.0@, r.1@) == recovery_failed(e@),
{
    (LockStage::Done, Action::Fail(e))
}

fn publication_fails(e: ManagerError) -> (r: (PublishStage, Action))
    ensures
        (r.0@, r.1@) == publication_failed(e@),
{
    (PublishStage::Done, Action::Fail(e))
}

impl DebianPublisher {
    /// A publisher for the publication that `config` describes.
    pub fn new(config: DebianPublishConfig) -> (publisher: DebianPublisher)
        ensures
            publisher.config == config,
    {
        DebianPublisher { config }
    }

    /// Checks that the package path, the version, the bucket, the codename
    /// and the channel are not empty.
    pub fn validate_config(&self) -> (r: ManagerResult<()>)
        ensures
            unit_view(r) == match self@.config_error() {
                Some(e) => Err::<(), ErrorView>(e),
                None => Ok::<(), ErrorView>(()),
            },
    {
        if self.config.package_path.as_str().is_empty() {
            Err(ManagerError::validation("Package path cannot be empty"))
        } else if self.config.version.as_str().is_empty() {
            Err(ManagerError::validation("Version cannot be empty"))
        } else if self.config.bucket.as_str().is_empty() {
            Err(ManagerError::validation("Bucket cannot be empty"))
        } else if self.config.codename.as_str().is_empty() {
            Err(ManagerError::validation("Codename cannot be empty"))
        } else if self.config.release.as_str().is_empty() {
            Err(ManagerError::validation("Release cannot be empty"))
        } else {
            Ok(())
        }
    }

    /// Where the lock marker of the repository lies.
    pub fn lockfile_path(&self) -> (path: String)
        ensures
            path@ == self@.lockfile_path(),
    {
        let mut path = String::from_str("s3://");
        path.append(self.config.bucket.as_str());
        path.append("/dists/");
        path.append(self.config.codename.as_str());
        path.append("/");
        path.append(self.config.release.as_str());
        path.append("/binary-/lockfile");
        path
    }

    /// The command that removes the lock marker.
    pub fn delete_lockfile(&self) -> (line: CommandLine)
        ensures
            line@ == self@.delete_lock_command(),
    {
        CommandLine::new("aws").arg("s3").arg("rm").arg(self.lockfile_path().as_str())
    }

    /// The command that uploads the package.
    pub fn upload_command(&self) -> (line: CommandLine)
        ensures
            line@ == self@.upload_command(),
    {
        let line = CommandLine::new("deb-s3").arg("upload").arg("--s3-region=us-west-2").arg(
            "--bucket",
        ).arg(self.config.bucket.as_str()).arg("--codename").arg(
            self.config.codename.as_str(),
        ).arg("--component").arg(self.config.release.as_str()).arg("--suite").arg(
            self.config.release.as_str(),
        ).arg("--preserve-versions").arg("--lock").arg("--fail-if-exists").arg(
            "--cache-control=max-age=120",
        ).arg(self.config.package_path.as_str());
        match &self.config.sign_key {
            Some(key) => line.arg("--sign").arg(key.as_str()),
            None => line,
        }
    }

    /// The command that checks the repository after an upload.
    pub fn verify_upload(&self) -> (line: CommandLine)
        ensures
            line@ == self@.verify_command(),
    {
        CommandLine::new("deb-s3").arg("verify").arg("--bucket").arg(
            self.config.bucket.as_str(),
        ).arg("--s3-region=us-west-2").arg("--codename").arg(self.config.codename.as_str()).arg(
            "--component",
        ).arg(self.config.release.as_str()).arg("--suite").arg(self.config.release.as_str())
    }

    /// What is to be done about the lock marker that `listing` shows, at the
    /// time `now`.
    pub fn marker_verdict(listing: &str, now: i64) -> (verdict: LockVerdict)
        ensures
            verdict@ == marker_verdict(listing@, now as int),
    {
        let words = split_whitespace(listing);
        if words.len() < 2 {
            LockVerdict::Unreadable(
                ManagerError::CommandFailed(
                    String::from_str(
                        "Could not get lockfile timestamp from S3 bucket. Check AWS credentials.",
                    ),
                ),
            )
        } else {
            let mut date = words[0].clone();
            date.append(" ");
            date.append(words[1].as_str());
            lock_verdict(parse_timestamp(date.as_str(), LOCK_TIME_FORMAT), now)
        }
    }

    /// The step that the recovery from a lock marker takes at `stage` when
    /// `event` comes in, at the time `now`.
    pub fn remove_lockfile_at(&self, stage: LockStage, event: Event, now: i64) -> (r: (
        LockStage,
        Action,
    ))
        ensures
            (r.0@, r.1@) == self@.lock_step(stage@, event@, now as int),
    {
        match (stage, event) {
            (LockStage::Start, Event::Begin) => (
                LockStage::Listing,
                Action::Run(
                    CommandLine::new("aws").arg("s3").arg("ls").arg(
                        self.lockfile_path().as_str(),
                    ),
                ),
            ),
            (LockStage::Listing, Event::Command(CommandOutcome::NotStarted { reason })) => {
                recovery_fails(
                    ManagerError::CommandFailed(
                        crate::errors::describe("Failed to execute aws s3 ls: ", reason.as_str()),
                    ),
                )
            },
            (
                LockStage::Listing,
                Event::Command(CommandOutcome::Exited { success, stdout, stderr }),
            ) => {
                if !success || trim(stdout.as_str()).is_empty() {
                    (LockStage::Done, Action::Complete(None))
                } else {
                    match Self::marker_verdict(stdout.as_str(), now) {
                        LockVerdict::Stale => (
                            LockStage::Deleting { report: None },
                            Action::Run(self.delete_lockfile()),
                        ),
                        LockVerdict::Unreadable(e) => (
                            LockStage::Deleting { report: Some(e) },
                            Action::Run(self.delete_lockfile()),
                        ),
                        LockVerdict::Fresh => recovery_fails(
                            ManagerError::validation(LOCK_TOO_RECENT),
                        ),
                    }
                }
            },
            (LockStage::Deleting { report }, Event::Command(outcome)) => {
                match check_command(
                    &outcome,
                    "Failed to execute aws s3 rm: ",
                    "Failed to delete lockfile: ",
                ) {
                    Some(e) => recovery_fails(e),
                    None => match report {
                        Some(e) => recovery_fails(e),
                        None => (LockStage::Done, Action::Complete(None)),
                    },
                }
            },
            _ => recovery_fails(ManagerError::validation("unexpected event")),
        }
    }

    /// The step that the recovery from a lock marker takes at `stage` when
    /// `event` comes in. The first call takes [`LockStage::Start`] and
    /// [`Event::Begin`]; each later call takes the stage that the call
    /// before gave, and the outcome of the command that it asked for. The
    /// age of the marker is taken against the clock.
    pub fn remove_lockfile(&self, stage: LockStage, event: Event) -> (r: (LockStage, Action))
        ensures
            exists|now: int| (r.0@, r.1@) == #[trigger] self@.lock_step(stage@, event@, now),
            !reads_clock(stage@, event@) ==> forall|now: int|
                (r.0@, r.1@) == #[trigger] self@.lock_step(stage@, event@, now),
    {
        let now = if lock_reads_clock(&stage, &event) {
            unix_now()
        } else {
            0
        };
        self.remove_lockfile_at(stage, event, now)
    }

    /// The step that the publication takes at `stage` when `event` comes in,
    /// at the time `now`.
    pub fn publish_at(&self, stage: PublishStage, event: Event, now: i64) -> (r: (
        PublishStage,
        Action,
    ))
        ensures
            (r.0@, r.1@) == self@.step(stage@, event@, now as int),
    {
        match (stage, event) {
            (PublishStage::Start, Event::Begin) => match self.validate_config() {
                Err(e) => publication_fails(e),
                Ok(_) => (
                    PublishStage::CheckingPackage,
                    Action::PathExists(self.config.package_path.clone()),
                ),
            },
            (PublishStage::CheckingPackage, Event::Exists(found)) => if found {
                (PublishStage::Uploading, Action::Run(self.upload_command()))
            } else {
                publication_fails(
                    ManagerError::ValidationError(
                        crate::errors::describe(
                            "Package file not found: ",
                            self.config.package_path.as_str(),
                        ),
                    ),
                )
            },
            (PublishStage::Uploading, Event::Command(CommandOutcome::NotStarted { reason })) => {
                publication_fails(
                    ManagerError::CommandFailed(
                        crate::errors::describe("Failed to execute deb-s3: ", reason.as_str()),
                    ),
                )
            },
            (
                PublishStage::Uploading,
                Event::Command(CommandOutcome::Exited { success, stdout, stderr }),
            ) => {
                if success {
                    (PublishStage::Verifying, Action::Run(self.verify_upload()))
                } else {
                    let mut detail = String::from_str("deb-s3 upload failed. Stdout: ");
                    detail.append(stdout.as_str());
                    detail.append(", Stderr: ");
                    detail.append(stderr.as_str());
                    let upload_error = ManagerError::CommandFailed(detail);
                    if contains(stderr.as_str(), "lockfile") || contains(
                        stderr.as_str(),
                        "locked",
                    ) {
                        let (lock, action) = self.remove_lockfile_at(
                            LockStage::Start,
                            Event::Begin,
                            now,
                        );
                        (PublishStage::Recovering { lock, upload_error }, action)
                    } else {
                        publication_fails(upload_error)
                    }
                }
            },
            (PublishStage::Recovering { lock, upload_error }, event) => {
                let (lock, action) = self.remove_lockfile_at(lock, event, now);
                match action {
                    Action::Fail(ManagerError::ValidationError(detail)) => {
                        if str_eq(detail.as_str(), LOCK_TOO_RECENT) {
                            publication_fails(ManagerError::ValidationError(detail))
                        } else {
                            publication_fails(upload_error)
                        }
                    },
                    Action::Fail(_) => publication_fails(upload_error),
                    Action::Complete(_) => publication_fails(upload_error),
                    action => (PublishStage::Recovering { lock, upload_error }, action),
                }
            },
            (PublishStage::Verifying, Event::Command(outcome)) => match check_command(
                &outcome,
                "Failed to execute deb-s3 verify: ",
                "deb-s3 verify failed: ",
            ) {
                Some(e) => publication_fails(e),
                None => (PublishStage::Done, Action::Complete(None)),
            },
            _ => publication_fails(ManagerError::validation("unexpected event")),
        }
    }

    /// The step that the publication takes at `stage` when `event` comes in.
    /// The first call takes [`PublishStage::Start`] and [`Event::Begin`];
    /// each later call takes the stage that the call before gave, and the
    /// outcome of the action that it asked for. The age of a lock marker is
    /// taken against the clock.
    pub fn publish(&self, stage: PublishStage, event: Event) -> (r: (PublishStage, Action))
        ensures
            exists|now: int| (r.0@, r.1@) == #[trigger] self@.step(stage@, event@, now),
            !publish_reads_clock(stage@, event@) ==> forall|now: int|
                (r.0@, r.1@) == #[trigger] self@.step(stage@, event@, now),
    {
        let reads = match &stage {
            PublishStage::Recovering { lock, .. } => lock_reads_clock(lock, &event),
            _ => false,
        };
        let now = if reads {
            unix_now()
        } else {
            0
        };
        self.publish_at(stage, event, now)
    }
}

/// A publisher for the package at `package_path`, ready to take its first
/// step.
pub fn publish_debian_package(
    package_path: &str,
    version: &str,
    bucket: &str,
    codename: &str,
    release: &str,
    sign_key: Option<&str>,
    debug: bool,
) -> (publisher: DebianPublisher)
    ensures
        publisher@ == (DebianPublishConfigView {
            package_path: package_path@,
            version: version@,
            bucket: bucket@,
            codename: codename@,
            release: release@,
            sign_key: crate::text::opt_text(sign_key),
            debug,
        }),
{
    DebianPublisher::new(
        DebianPublishConfig {
            package_path: String::from_str(package_path),
            version: String::from_str(version),
            bucket: String::from_str(bucket),
            codename: String::from_str(codename),
            release: String::from_str(release),
            sign_key: match sign_key {
                Some(key) => Some(String::from_str(key)),
                None => None,
            },
            debug,
        },
    )
}

/// A publication that is not well configured, or whose package file is not
/// there, ends in a validation failure before any command is asked for.
pub proof fn lemma_invalid_publication_uploads_nothing(
    config: DebianPublishConfigView,
    now: int,
)
    ensures
        config.config_error() is Some ==> config.step(
            PublishStageView::Start,
            EventView::Begin,
            now,
        ) == publication_failed(config.config_error()->0),
        config.config_error() is None ==> config.step(
            PublishStageView::Start,
            EventView::Begin,
            now,
        ).1 is PathExists,
        config.step(PublishStageView::CheckingPackage, EventView::Exists(false), now).1
            == ActionView::Fail(
            ErrorView::ValidationError("Package file not found: "@ + config.package_path),
        ),
{
}

} // verus!
