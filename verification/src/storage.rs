//! The store of build artifacts, and the local cache of packages that were
//! downloaded from it.
//!
//! A store is reached by commands. This module says which command each
//! operation takes on each kind of store, and what the output of the command
//! means.

use vstd::prelude::*;
use crate::artifacts::{entries_of, get_artifact_with_suffix, nonblank_entries, package_name_of};
use crate::errors::{ErrorView, ManagerError, ManagerResult, text_view};
use crate::paths::{join_path, joined_path};
use crate::process::{
    Action, ActionView, command, CommandLine, CommandLineView, CommandOutcome, CommandOutcomeView,
    Event, EventView, output_of,
};
use crate::text::{
    contains, has_prefix, has_substring, lines, lines_of, opt_text, opt_view, split_whitespace,
    starts_with, str_eq, trim, trimmed, words_of,
};

verus! {

/// A store of build artifacts.
#[derive(Clone, Debug)]
pub enum StorageBackend {
    /// A directory of this machine.
    Local,
    /// A bucket in the cloud.
    Gs,
    /// A host that is reached over a secure shell.
    Hetzner { user: String, host: String, key_path: String },
}

/// The mathematical content of a [`StorageBackend`].
pub enum StorageBackendView {
    Local,
    Gs,
    Hetzner { user: Seq<char>, host: Seq<char>, key_path: Seq<char> },
}

impl View for StorageBackend {
    type V = StorageBackendView;

    open spec fn view(&self) -> StorageBackendView {
        match self {
            StorageBackend::Local => StorageBackendView::Local,
            StorageBackend::Gs => StorageBackendView::Gs,
            StorageBackend::Hetzner { user, host, key_path } => StorageBackendView::Hetzner {
                user: user@,
                host: host@,
                key_path: key_path@,
            },
        }
    }
}

/// How the remote host is reached, as far as it was configured. What is not
/// given here falls back to a default.
#[derive(Clone, Debug)]
pub struct HetznerSettings {
    /// The user to log in as.
    pub user: Option<String>,
    /// The host to log in to.
    pub host: Option<String>,
    /// The path of the private key.
    pub key_path: Option<String>,
    /// The home directory, under which the default key lies.
    pub home: Option<String>,
}

/// The mathematical content of a [`HetznerSettings`].
pub struct HetznerSettingsView {
    pub user: Option<Seq<char>>,
    pub host: Option<Seq<char>>,
    pub key_path: Option<Seq<char>>,
    pub home: Option<Seq<char>>,
}

impl View for HetznerSettings {
    type V = HetznerSettingsView;

    open spec fn view(&self) -> HetznerSettingsView {
        HetznerSettingsView {
            user: opt_view(self.user),
            host: opt_view(self.host),
            key_path: opt_view(self.key_path),
            home: opt_view(self.home),
        }
    }
}

/// `value` where it is given, `fallback` otherwise.
pub open spec fn or_default(value: Option<Seq<char>>, fallback: Seq<char>) -> Seq<char> {
    match value {
        Some(v) => v,
        None => fallback,
    }
}

/// The store that `name` names, with the remote host configured by
/// `settings`; `None` where `name` names no store.
pub open spec fn backend_named(name: Seq<char>, settings: HetznerSettingsView) -> Option<
    StorageBackendView,
> {
    if name == "local"@ {
        Some(StorageBackendView::Local)
    } else if name == "gs"@ {
        Some(StorageBackendView::Gs)
    } else if name == "hetzner"@ {
        Some(
            StorageBackendView::Hetzner {
                user: or_default(settings.user, "u434410"@),
                host: or_default(settings.host, "u434410-sub2.your-storagebox.de"@),
                key_path: or_default(
                    settings.key_path,
                    or_default(settings.home, Seq::empty()) + "/.ssh/id_rsa"@,
                ),
            },
        )
    } else {
        None
    }
}

impl StorageBackendView {
    /// The path under which the store keeps the artifacts.
    pub open spec fn root_path(self) -> Seq<char> {
        match self {
            StorageBackendView::Local => "/var/storagebox/"@,
            StorageBackendView::Gs => "gs://buildkite_k8s/coda/shared"@,
            StorageBackendView::Hetzner { .. } =>
                "/home/o1labs-generic/pvc-4d294645-6466-4260-b933-1b909ff9c3a1"@,
        }
    }
}

fn or_default_string(value: &Option<String>, fallback: &str) -> (chosen: String)
    ensures
        chosen@ == or_default(opt_view(*value), fallback@),
{
    match value {
        Some(v) => v.clone(),
        None => String::from_str(fallback),
    }
}

impl StorageBackend {
    /// The store that `backend` names. The remote host is configured by
    /// `settings`. A name that names no store is an error that carries it.
    pub fn from_str(backend: &str, settings: &HetznerSettings) -> (r: ManagerResult<
        StorageBackend,
    >)
        ensures
            match r {
                Ok(store) => backend_named(backend@, settings@) == Some(store@),
                Err(e) => backend_named(backend@, settings@) is None && e@
                    == ErrorView::UnsupportedBackend(backend@),
            },
    {
        if str_eq(backend, "local") {
            Ok(StorageBackend::Local)
        } else if str_eq(backend, "gs") {
            Ok(StorageBackend::Gs)
        } else if str_eq(backend, "hetzner") {
            let user = or_default_string(&settings.user, "u434410");
            let host = or_default_string(&settings.host, "u434410-sub2.your-storagebox.de");
            let mut default_key = or_default_string(&settings.home, "");
            proof {
                reveal_strlit("");
            }
            default_key.append("/.ssh/id_rsa");
            let key_path = or_default_string(&settings.key_path, default_key.as_str());
            Ok(StorageBackend::Hetzner { user, host, key_path })
        } else {
            Err(ManagerError::UnsupportedBackend(String::from_str(backend)))
        }
    }

    /// The path under which the store keeps the artifacts.
    pub fn root_path(&self) -> (path: &'static str)
        ensures
            path@ == self@.root_path(),
    {
        match self {
            StorageBackend::Local => "/var/storagebox/",
            StorageBackend::Gs => "gs://buildkite_k8s/coda/shared",
            StorageBackend::Hetzner { .. } =>
                "/home/o1labs-generic/pvc-4d294645-6466-4260-b933-1b909ff9c3a1",
        }
    }
}

/// Whether a POSIX shell reads `c` as it stands: a letter or digit of
/// ASCII, or one of `-`, `_`, `=`, `/`, `,`, `.` and `+`.
pub open spec fn is_shell_safe(c: char) -> bool {
    let n = c as u32;
    ||| 0x61 <= n <= 0x7a
    ||| 0x41 <= n <= 0x5a
    ||| 0x30 <= n <= 0x39
    ||| c == '-'
    ||| c == '_'
    ||| c == '='
    ||| c == '/'
    ||| c == ','
    ||| c == '.'
    ||| c == '+'
}

/// `text` as it stands between single quotes: a single quote or an
/// exclamation mark leaves the quotes, is escaped with a backslash, and
/// enters them again.
pub open spec fn within_quotes(text: Seq<char>) -> Seq<char>
    decreases text.len(),
{
    if text.len() == 0 {
        Seq::empty()
    } else if text[0] == '\'' || text[0] == '!' {
        seq!['\'', '\\', text[0], '\''] + within_quotes(text.drop_first())
    } else {
        seq![text[0]] + within_quotes(text.drop_first())
    }
}

/// `text` as one word of a command line for a POSIX shell: as it is where
/// it is not empty and holds nothing that a shell reads specially, between
/// single quotes otherwise.
pub open spec fn shell_quoted(text: Seq<char>) -> Seq<char> {
    if text.len() > 0 && forall|i: int| 0 <= i < text.len() ==> is_shell_safe(#[trigger] text[i]) {
        text
    } else {
        seq!['\''] + within_quotes(text) + seq!['\'']
    }
}

/// Quotes `text` with `shell_escape::unix::escape`. Nothing is proved of the
/// outcome: it is taken to be what `shell_quoted` says of the same text,
/// which is what that function does.
#[verifier::external_body]
fn shell_quote(text: &str) -> (quoted: String)
    ensures
        quoted@ == shell_quoted(text@),
{
    shell_escape::unix::escape(std::borrow::Cow::Borrowed(text)).into_owned()
}

/// The command that runs `remote_command` on the remote host.
pub open spec fn remote_shell(
    user: Seq<char>,
    host: Seq<char>,
    key_path: Seq<char>,
    remote_command: Seq<char>,
) -> CommandLineView {
    command("ssh"@).arg("-p"@).arg("23"@).arg("-i"@).arg(key_path).arg(user + "@"@ + host).arg(
        remote_command,
    )
}

/// The command that runs `program` on the remote host, on a path that is
/// already quoted for the shell there.
pub fn remote_shell_command(
    user: &str,
    host: &str,
    key_path: &str,
    program: &str,
    quoted_path: &str,
) -> (line: CommandLine)
    ensures
        line@ == remote_shell(user@, host@, key_path@, program@ + " "@ + quoted_path@),
{
    let mut login = String::from_str(user);
    login.append("@");
    login.append(host);
    let mut remote_command = String::from_str(program);
    remote_command.append(" ");
    remote_command.append(quoted_path);
    CommandLine::new("ssh").arg("-p").arg("23").arg("-i").arg(key_path).arg(login.as_str()).arg(
        remote_command.as_str(),
    )
}

/// How the secure shell is started for a copy to or from the remote host.
pub open spec fn copy_shell(key_path: Seq<char>) -> Seq<char> {
    "ssh -p 23 -i "@ + key_path
}

/// A path on the remote host, as a copy names it.
pub open spec fn remote_location(user: Seq<char>, host: Seq<char>, path: Seq<char>) -> Seq<char> {
    user + "@"@ + host + ":"@ + path
}

impl StorageBackendView {
    /// The command that lists what the store holds at `path`.
    pub open spec fn list_command(self, path: Seq<char>) -> CommandLineView {
        match self {
            StorageBackendView::Local => command("ls"@).arg(path),
            StorageBackendView::Gs => command("gsutil"@).arg("list"@).arg(path),
            StorageBackendView::Hetzner { user, host, key_path } => remote_shell(
                user,
                host,
                key_path,
                "ls"@ + " "@ + shell_quoted(path),
            ),
        }
    }

    /// The command that computes the content hash of what the store holds
    /// at `path`.
    pub open spec fn md5_command(self, path: Seq<char>) -> CommandLineView {
        match self {
            StorageBackendView::Local => command("md5sum"@).arg(path),
            StorageBackendView::Gs => command("gsutil"@).arg("hash"@).arg("-h"@).arg("-m"@).arg(
                path,
            ),
            StorageBackendView::Hetzner { user, host, key_path } => remote_shell(
                user,
                host,
                key_path,
                "md5sum"@ + " "@ + shell_quoted(path),
            ),
        }
    }

    /// The command that copies `local_path` into the store at `remote_path`.
    pub open spec fn upload_command(
        self,
        local_path: Seq<char>,
        remote_path: Seq<char>,
    ) -> CommandLineView {
        match self {
            StorageBackendView::Local => command("cp"@).arg(local_path).arg(remote_path),
            StorageBackendView::Gs => command("gsutil"@).arg("cp"@).arg(local_path).arg(
                remote_path,
            ),
            StorageBackendView::Hetzner { user, host, key_path } => command("rsync"@).arg(
                "-avz"@,
            ).arg("-e"@).arg(copy_shell(key_path)).arg(local_path).arg(
                remote_location(user, host, remote_path),
            ),
        }
    }

    /// The command that copies what a local or cloud store holds at
    /// `remote_path` to `local_path`.
    pub open spec fn copy_command(
        self,
        remote_path: Seq<char>,
        local_path: Seq<char>,
    ) -> CommandLineView {
        match self {
            StorageBackendView::Gs => command("gsutil"@).arg("cp"@).arg(remote_path).arg(
                local_path,
            ),
            _ => command("cp"@).arg(remote_path).arg(local_path),
        }
    }

    /// The command that fetches one file from the remote host to
    /// `local_path`.
    pub open spec fn fetch_command(
        self,
        file: Seq<char>,
        local_path: Seq<char>,
    ) -> CommandLineView {
        match self {
            StorageBackendView::Hetzner { user, host, key_path } => command("rsync"@).arg(
                "-avz"@,
            ).arg("--rsh"@).arg(copy_shell(key_path)).arg(remote_location(user, host, file)).arg(
                local_path,
            ),
            _ => self.copy_command(file, local_path),
        }
    }
}

/// What a command of the store yields: its standard output without the
/// white space around it where it succeeded, its failure otherwise.
pub open spec fn store_output(outcome: CommandOutcomeView) -> Result<Seq<char>, ErrorView> {
    match output_of(outcome) {
        Ok(stdout) => Ok(trimmed(stdout)),
        Err(e) => Err(e),
    }
}

/// The names that a listing of the store shows: one on each line.
pub open spec fn listed(outcome: CommandOutcomeView) -> Result<Seq<Seq<char>>, ErrorView> {
    match store_output(outcome) {
        Ok(output) => Ok(lines_of(output)),
        Err(e) => Err(e),
    }
}

/// The first word of `text`, where it has one.
pub open spec fn first_word(text: Seq<char>) -> Option<Seq<char>> {
    if words_of(text).len() > 0 {
        Some(words_of(text)[0])
    } else {
        None
    }
}

/// The hash that a line of the report of a cloud store shows: its third
/// word, where the line is the one on the MD5 hash.
pub open spec fn reported_hash(line: Seq<char>) -> Option<Seq<char>> {
    if has_substring(line, "Hash (md5)"@) && words_of(line).len() >= 3 {
        Some(words_of(line)[2])
    } else {
        None
    }
}

/// The hash that the first of `rows` to show one shows.
pub open spec fn first_reported_hash(rows: Seq<Seq<char>>) -> Option<Seq<char>>
    decreases rows.len(),
{
    if rows.len() == 0 {
        None
    } else {
        match reported_hash(rows[0]) {
            Some(hash) => Some(hash),
            None => first_reported_hash(rows.drop_first()),
        }
    }
}

/// The error of a store whose answer shows no content hash.
pub open spec fn no_hash() -> ErrorView {
    ErrorView::StorageError("Could not parse MD5 hash"@)
}

impl StorageBackendView {
    /// The content hash that the outcome of the hash command shows. A cloud
    /// store reports it on a line of its own; the others print it as the
    /// first word. An answer that shows no hash is a storage error.
    pub open spec fn md5_of(self, outcome: CommandOutcomeView) -> Result<Seq<char>, ErrorView> {
        match store_output(outcome) {
            Err(e) => Err(e),
            Ok(output) => {
                let found = match self {
                    StorageBackendView::Gs => first_reported_hash(lines_of(output)),
                    _ => first_word(output),
                };
                match found {
                    Some(hash) => Ok(hash),
                    None => Err(no_hash()),
                }
            },
        }
    }
}

/// How far a download from the store has come.
#[derive(Debug, PartialEq, Eq)]
pub enum TransferStage {
    /// Nothing was done yet.
    Start,
    /// The artifact is being copied in one go.
    Copying,
    /// The files at the remote path are being listed.
    Listing,
    /// The files are being fetched one by one; `next` counts those that
    /// were asked for before the one that is being fetched.
    Fetching { files: Vec<String>, next: usize },
    /// The download is over.
    Done,
}

/// The mathematical content of a [`TransferStage`].
pub enum TransferStageView {
    Start,
    Copying,
    Listing,
    Fetching { files: Seq<Seq<char>>, next: int },
    Done,
}

impl View for TransferStage {
    type V = TransferStageView;

    open spec fn view(&self) -> TransferStageView {
        match self {
            TransferStage::Start => TransferStageView::Start,
            TransferStage::Copying => TransferStageView::Copying,
            TransferStage::Listing => TransferStageView::Listing,
            TransferStage::Fetching { files, next } => TransferStageView::Fetching {
                files: files.deep_view(),
                next: *next as int,
            },
            TransferStage::Done => TransferStageView::Done,
        }
    }
}

/// The failure that ends a download.
pub open spec fn transfer_failed(e: ErrorView) -> (TransferStageView, ActionView) {
    (TransferStageView::Done, ActionView::Fail(e))
}

impl StorageBackendView {
    /// What a download does once the files before `files[next]` were
    /// fetched: it fetches that file, or it is done.
    pub open spec fn fetch_from(self, files: Seq<Seq<char>>, next: int, local_path: Seq<char>) -> (
        TransferStageView,
        ActionView,
    ) {
        if 0 <= next < files.len() {
            (
                TransferStageView::Fetching { files, next },
                ActionView::Run(self.fetch_command(files[next], local_path)),
            )
        } else {
            (TransferStageView::Done, ActionView::Complete(None))
        }
    }

    /// The step that a download of `remote_path` to `local_path` takes at
    /// `stage` when `event` comes in.
    ///
    /// A local or cloud store copies in one command. From a remote host the
    /// files are listed first and then fetched one by one, in the order of
    /// the listing; empty lines of the listing name no file. The first
    /// command that fails ends the download, and none is tried again.
    pub open spec fn download_step(
        self,
        remote_path: Seq<char>,
        local_path: Seq<char>,
        stage: TransferStageView,
        event: EventView,
    ) -> (TransferStageView, ActionView) {
        match (stage, event) {
            (TransferStageView::Start, EventView::Begin) => match self {
                StorageBackendView::Hetzner { .. } => (
                    TransferStageView::Listing,
                    ActionView::Run(self.list_command(remote_path)),
                ),
                _ => (
                    TransferStageView::Copying,
                    ActionView::Run(self.copy_command(remote_path, local_path)),
                ),
            },
            (TransferStageView::Copying, EventView::Command(outcome)) => match store_output(
                outcome,
            ) {
                Err(e) => transfer_failed(e),
                Ok(_) => (TransferStageView::Done, ActionView::Complete(None)),
            },
            (TransferStageView::Listing, EventView::Command(outcome)) => match listed(outcome) {
                Err(e) => transfer_failed(e),
                Ok(rows) => self.fetch_from(entries_of(rows), 0, local_path),
            },
            (TransferStageView::Fetching { files, next }, EventView::Command(outcome)) => {
                match store_output(outcome) {
                    Err(e) => transfer_failed(e),
                    Ok(_) => self.fetch_from(files, next + 1, local_path),
                }
            },
            _ => transfer_failed(ErrorView::ValidationError("unexpected event"@)),
        }
    }
}

/// Reaches a store by commands.
#[derive(Debug)]
pub struct StorageClient {
    pub backend: StorageBackend,
}

impl View for StorageClient {
    type V = StorageBackendView;

    open spec fn view(&self) -> StorageBackendView {
        self.backend@
    }
}

/// A list of names with its error taken by its view.
pub open spec fn names_view(r: ManagerResult<Vec<String>>) -> Result<Seq<Seq<char>>, ErrorView> {
    match r {
        Ok(names) => Ok(names.deep_view()),
        Err(e) => Err(e@),
    }
}

/// The hash that the first of `rows` to show one shows.
fn find_reported_hash(rows: &Vec<String>) -> (found: Option<String>)
    ensures
        opt_view(found) == first_reported_hash(rows.deep_view()),
{
    let mut i: usize = 0;
    assert(rows.deep_view().skip(0) =~= rows.deep_view());
    while i < rows.len()
        invariant
            i <= rows.len(),
            first_reported_hash(rows.deep_view()) == first_reported_hash(
                rows.deep_view().skip(i as int),
            ),
        decreases rows.len() - i,
    {
        let ghost rest = rows.deep_view().skip(i as int);
        assert(rest.drop_first() =~= rows.deep_view().skip(i + 1));
        if contains(rows[i].as_str(), "Hash (md5)") {
            let mut words = split_whitespace(rows[i].as_str());
            if words.len() >= 3 {
                return Some(words.swap_remove(2));
            }
        }
        i += 1;
    }
    None
}

/// The first word of `text`, where it has one.
pub fn first_word_of(text: &str) -> (found: Option<String>)
    ensures
        opt_view(found) == first_word(text@),
{
    let mut words = split_whitespace(text);
    if words.len() > 0 {
        Some(words.swap_remove(0))
    } else {
        None
    }
}

fn transfer_fails(e: ManagerError) -> (r: (TransferStage, Action))
    ensures
        (r.0@, r.1@) == transfer_failed(e@),
{
    (TransferStage::Done, Action::Fail(e))
}

impl StorageClient {
    /// A client for the store `backend`.
    pub fn new(backend: StorageBackend) -> (client: StorageClient)
        ensures
            client.backend == backend,
    {
        StorageClient { backend }
    }

    /// What a command of the store yields: its standard output without the
    /// white space around it, or its failure.
    pub fn run_command(outcome: &CommandOutcome) -> (r: ManagerResult<String>)
        ensures
            text_view(r) == store_output(outcome@),
    {
        match crate::process::command_output(outcome) {
            Ok(stdout) => Ok(String::from_str(trim(stdout.as_str()))),
            Err(e) => Err(e),
        }
    }

    /// The command that lists what the store holds at `path`.
    pub fn list_command(&self, path: &str) -> (line: CommandLine)
        ensures
            line@ == self@.list_command(path@),
    {
        match &self.backend {
            StorageBackend::Local => CommandLine::new("ls").arg(path),
            StorageBackend::Gs => CommandLine::new("gsutil").arg("list").arg(path),
            StorageBackend::Hetzner { user, host, key_path } => remote_shell_command(
                user.as_str(),
                host.as_str(),
                key_path.as_str(),
                "ls",
                shell_quote(path).as_str(),
            ),
        }
    }

    /// The names that the outcome of the listing command shows.
    pub fn list(outcome: &CommandOutcome) -> (r: ManagerResult<Vec<String>>)
        ensures
            names_view(r) == listed(outcome@),
    {
        match Self::run_command(outcome) {
            Ok(output) => Ok(lines(output.as_str())),
            Err(e) => Err(e),
        }
    }

    /// The command that computes the content hash of what the store holds
    /// at `path`.
    pub fn md5_command(&self, path: &str) -> (line: CommandLine)
        ensures
            line@ == self@.md5_command(path@),
    {
        match &self.backend {
            StorageBackend::Local => CommandLine::new("md5sum").arg(path),
            StorageBackend::Gs => CommandLine::new("gsutil").arg("hash").arg("-h").arg("-m").arg(
                path,
            ),
            StorageBackend::Hetzner { user, host, key_path } => remote_shell_command(
                user.as_str(),
                host.as_str(),
                key_path.as_str(),
                "md5sum",
                shell_quote(path).as_str(),
            ),
        }
    }

    /// The content hash that the outcome of the hash command shows.
    pub fn md5(&self, outcome: &CommandOutcome) -> (r: ManagerResult<String>)
        ensures
            text_view(r) == self@.md5_of(outcome@),
    {
        match Self::run_command(outcome) {
            Err(e) => Err(e),
            Ok(output) => {
                let found = match &self.backend {
                    StorageBackend::Gs => {
                        let rows = lines(output.as_str());
                        find_reported_hash(&rows)
                    },
                    _ => first_word_of(output.as_str()),
                };
                match found {
                    Some(hash) => Ok(hash),
                    None => Err(
                        ManagerError::StorageError(String::from_str("Could not parse MD5 hash")),
                    ),
                }
            },
        }
    }

    /// The command that copies `local_path` into the store at `remote_path`.
    pub fn upload_command(&self, local_path: &str, remote_path: &str) -> (line: CommandLine)
        ensures
            line@ == self@.upload_command(local_path@, remote_path@),
    {
        match &self.backend {
            StorageBackend::Local => CommandLine::new("cp").arg(local_path).arg(remote_path),
            StorageBackend::Gs => CommandLine::new("gsutil").arg("cp").arg(local_path).arg(
                remote_path,
            ),
            StorageBackend::Hetzner { user, host, key_path } => {
                let shell = crate::errors::describe("ssh -p 23 -i ", key_path.as_str());
                let mut target = user.clone();
                target.append("@");
                target.append(host.as_str());
                target.append(":");
                target.append(remote_path);
                CommandLine::new("rsync").arg("-avz").arg("-e").arg(shell.as_str()).arg(
                    local_path,
                ).arg(target.as_str())
            },
        }
    }

    /// Whether the upload went through: the outcome of the upload command,
    /// without its output.
    pub fn upload(outcome: &CommandOutcome) -> (r: ManagerResult<()>)
        ensures
            r is Ok <==> store_output(outcome@) is Ok,
            r matches Err(e) ==> store_output(outcome@) == Err::<Seq<char>, ErrorView>(e@),
    {
        match Self::run_command(outcome) {
            Ok(_) => Ok(()),
            Err(e) => Err(e),
        }
    }

    /// The command that fetches or copies one file from the store to
    /// `local_path`.
    pub fn fetch_command(&self, file: &str, local_path: &str) -> (line: CommandLine)
        ensures
            line@ == self@.fetch_command(file@, local_path@),
    {
        match &self.backend {
            StorageBackend::Local => CommandLine::new("cp").arg(file).arg(local_path),
            StorageBackend::Gs => CommandLine::new("gsutil").arg("cp").arg(file).arg(local_path),
            StorageBackend::Hetzner { user, host, key_path } => {
                let shell = crate::errors::describe("ssh -p 23 -i ", key_path.as_str());
                let mut source = user.clone();
                source.append("@");
                source.append(host.as_str());
                source.append(":");
                source.append(file);
                CommandLine::new("rsync").arg("-avz").arg("--rsh").arg(shell.as_str()).arg(
                    source.as_str(),
                ).arg(local_path)
            },
        }
    }

    fn fetch_from(&self, files: Vec<String>, next: usize, local_path: &str) -> (r: (
        TransferStage,
        Action,
    ))
        ensures
            (r.0@, r.1@) == self@.fetch_from(files.deep_view(), next as int, local_path@),
    {
        if next < files.len() {
            let line = self.fetch_command(files[next].as_str(), local_path);
            (TransferStage::Fetching { files, next }, Action::Run(line))
        } else {
            (TransferStage::Done, Action::Complete(None))
        }
    }

    /// The step that a download of `remote_path` to `local_path` takes at
    /// `stage` when `event` comes in. The first call takes
    /// [`TransferStage::Start`] and [`Event::Begin`]; each later call takes
    /// the stage that the call before gave, and the outcome of the command
    /// that it asked for.
    pub fn download(
        &self,
        remote_path: &str,
        local_path: &str,
        stage: TransferStage,
        event: Event,
    ) -> (r: (TransferStage, Action))
        ensures
            (r.0@, r.1@) == self@.download_step(remote_path@, local_path@, stage@, event@),
    {
        match (stage, event) {
            (TransferStage::Start, Event::Begin) => match &self.backend {
                StorageBackend::Hetzner { .. } => (
                    TransferStage::Listing,
                    Action::Run(self.list_command(remote_path)),
                ),
                _ => (
                    TransferStage::Copying,
                    Action::Run(self.fetch_command(remote_path, local_path)),
                ),
            },
            (TransferStage::Copying, Event::Command(outcome)) => match Self::run_command(
                &outcome,
            ) {
                Err(e) => transfer_fails(e),
                Ok(_) => (TransferStage::Done, Action::Complete(None)),
            },
            (TransferStage::Listing, Event::Command(outcome)) => match Self::list(&outcome) {
                Err(e) => transfer_fails(e),
                Ok(rows) => self.fetch_from(nonblank_entries(&rows), 0, local_path),
            },
            (TransferStage::Fetching { files, next }, Event::Command(outcome)) => {
                match Self::run_command(&outcome) {
                    Err(e) => transfer_fails(e),
                    Ok(_) => {
                        if next < files.len() {
                            self.fetch_from(files, next + 1, local_path)
                        } else {
                            (TransferStage::Done, Action::Complete(None))
                        }
                    },
                }
            },
            _ => transfer_fails(ManagerError::validation("unexpected event")),
        }
    }
}

/// Which package a look into the cache is about, and where the cache lies.
pub struct CacheRequestView {
    pub artifact: Seq<char>,
    pub codename: Seq<char>,
    pub network: Option<Seq<char>>,
    pub build_id: Seq<char>,
    pub cache_folder: Seq<char>,
}

impl CacheRequestView {
    /// The name of the package.
    pub open spec fn full_name(self) -> Seq<char> {
        package_name_of(self.artifact, self.network)
    }

    /// Where the store keeps the package: under the build and the codename,
    /// in files whose names begin with the package name and an underscore.
    pub open spec fn remote_path(self, root: Seq<char>) -> Seq<char> {
        root + "/"@ + self.build_id + "/debians/"@ + self.codename + "/"@ + self.full_name()
            + "_*"@
    }

    /// The directory of the cache that holds the packages of the codename.
    pub open spec fn cache_dir(self) -> Seq<char> {
        joined_path(self.cache_folder, self.codename)
    }

    /// What the name of a cached file of the package begins with.
    pub open spec fn file_prefix(self) -> Seq<char> {
        self.full_name() + "_"@
    }

    /// The error of a package that the store does not hold.
    pub open spec fn not_found(self) -> ErrorView {
        ErrorView::ArtifactNotFound(
            "No debian package found for "@ + self.full_name() + " (build: "@ + self.build_id
                + ")"@,
        )
    }
}

/// Those of `names` that begin with `prefix`, in order. Names are compared
/// exactly.
pub open spec fn prefixed_names(names: Seq<Seq<char>>, prefix: Seq<char>) -> Seq<Seq<char>>
    decreases names.len(),
{
    if names.len() == 0 {
        Seq::empty()
    } else {
        let before = prefixed_names(names.drop_last(), prefix);
        if has_prefix(names.last(), prefix) {
            before.push(names.last())
        } else {
            before
        }
    }
}

/// The content hash of a cached file, as the outcome of the hash command
/// shows it: the first word of what the command printed, where it ran and
/// printed anything.
pub open spec fn local_hash_of(outcome: CommandOutcomeView) -> Option<Seq<char>> {
    match outcome {
        CommandOutcomeView::NotStarted { .. } => None,
        CommandOutcomeView::Exited { success, stdout, stderr } => first_word(stdout),
    }
}

/// How far a look into the cache has come.
#[derive(Debug, PartialEq, Eq)]
pub enum CacheStage {
    /// Nothing was done yet.
    Start,
    /// The store is being asked whether it holds the package.
    ListingRemote,
    /// The store is being asked for the content hash of the package.
    HashingRemote,
    /// The directory of the cache is being made.
    CreatingCacheDir { target_hash: String },
    /// The directory of the cache is being read.
    ReadingCacheDir { target_hash: String },
    /// The cached files of the package are being hashed one by one; `next`
    /// counts those that were ruled out before the one that is being hashed.
    HashingLocal { target_hash: String, candidates: Vec<String>, next: usize },
    /// The package is being downloaded.
    Downloading { transfer: TransferStage },
    /// The look into the cache is over.
    Done,
}

/// The mathematical content of a [`CacheStage`].
pub enum CacheStageView {
    Start,
    ListingRemote,
    HashingRemote,
    CreatingCacheDir { target_hash: Seq<char> },
    ReadingCacheDir { target_hash: Seq<char> },
    HashingLocal { target_hash: Seq<char>, candidates: Seq<Seq<char>>, next: int },
    Downloading { transfer: TransferStageView },
    Done,
}

impl View for CacheStage {
    type V = CacheStageView;

    open spec fn view(&self) -> CacheStageView {
        match self {
            CacheStage::Start => CacheStageView::Start,
            CacheStage::ListingRemote => CacheStageView::ListingRemote,
            CacheStage::HashingRemote => CacheStageView::HashingRemote,
            CacheStage::CreatingCacheDir { target_hash } => CacheStageView::CreatingCacheDir {
                target_hash: target_hash@,
            },
            CacheStage::ReadingCacheDir { target_hash } => CacheStageView::ReadingCacheDir {
                target_hash: target_hash@,
            },
            CacheStage::HashingLocal { target_hash, candidates, next } => {
                CacheStageView::HashingLocal {
                    target_hash: target_hash@,
                    candidates: candidates.deep_view(),
                    next: *next as int,
                }
            },
            CacheStage::Downloading { transfer } => CacheStageView::Downloading {
                transfer: transfer@,
            },
            CacheStage::Done => CacheStageView::Done,
        }
    }
}

/// The failure that ends a look into the cache.
pub open spec fn cache_failed(e: ErrorView) -> (CacheStageView, ActionView) {
    (CacheStageView::Done, ActionView::Fail(e))
}

/// The end of a look into the cache that found the package, or that has
/// downloaded it.
pub open spec fn cache_ready() -> (CacheStageView, ActionView) {
    (CacheStageView::Done, ActionView::Complete(None))
}

impl StorageBackendView {
    /// The step of a look into the cache that a step of the download makes.
    pub open spec fn while_downloading(next: (TransferStageView, ActionView)) -> (
        CacheStageView,
        ActionView,
    ) {
        match next.1 {
            ActionView::Complete(_) => cache_ready(),
            ActionView::Fail(e) => cache_failed(e),
            _ => (CacheStageView::Downloading { transfer: next.0 }, next.1),
        }
    }

    /// What a look into the cache does once no cached file has the content
    /// hash of the package in the store: it begins the download into the
    /// directory of the cache.
    pub open spec fn begin_download(self, request: CacheRequestView) -> (
        CacheStageView,
        ActionView,
    ) {
        Self::while_downloading(
            self.download_step(
                request.remote_path(self.root_path()),
                request.cache_dir(),
                TransferStageView::Start,
                EventView::Begin,
            ),
        )
    }

    /// What a look into the cache does once the candidates before
    /// `candidates[next]` were ruled out: it asks for the hash of that
    /// candidate, or, with none left, begins the download.
    pub open spec fn scan_from(
        self,
        request: CacheRequestView,
        target_hash: Seq<char>,
        candidates: Seq<Seq<char>>,
        next: int,
    ) -> (CacheStageView, ActionView) {
        if 0 <= next < candidates.len() {
            (
                CacheStageView::HashingLocal { target_hash, candidates, next },
                ActionView::Run(
                    command("md5sum"@).arg(joined_path(request.cache_dir(), candidates[next])),
                ),
            )
        } else {
            self.begin_download(request)
        }
    }

    /// The step that a look into the cache takes at `stage` when `event`
    /// comes in.
    ///
    /// The store is asked whether it holds the package, and a store that
    /// holds none ends the look with an error. The content hash of the
    /// package in the store is asked for once. The directory of the cache is
    /// made where it is missing. Then each cached file whose name begins
    /// with the package name and an underscore is hashed, in the order in
    /// which the directory was read. The first one whose hash is that of the
    /// store ends the look: the package is cached. With no such file the
    /// package is downloaded into the cache.
    pub open spec fn cache_step(
        self,
        request: CacheRequestView,
        stage: CacheStageView,
        event: EventView,
    ) -> (CacheStageView, ActionView) {
        let remote_path = request.remote_path(self.root_path());
        match (stage, event) {
            (CacheStageView::Start, EventView::Begin) => (
                CacheStageView::ListingRemote,
                ActionView::Run(self.list_command(remote_path)),
            ),
            (CacheStageView::ListingRemote, EventView::Command(outcome)) => match listed(
                outcome,
            ) {
                Err(e) => cache_failed(e),
                Ok(files) => if files.len() == 0 {
                    cache_failed(request.not_found())
                } else {
                    (
                        CacheStageView::HashingRemote,
                        ActionView::Run(self.md5_command(remote_path)),
                    )
                },
            },
            (CacheStageView::HashingRemote, EventView::Command(outcome)) => match self.md5_of(
                outcome,
            ) {
                Err(e) => cache_failed(e),
                Ok(target_hash) => (
                    CacheStageView::CreatingCacheDir { target_hash },
                    ActionView::CreateDirAll(request.cache_dir()),
                ),
            },
            (CacheStageView::CreatingCacheDir { target_hash }, EventView::Io(Err(failure))) => {
                cache_failed(ErrorView::IoError(failure))
            },
            (CacheStageView::CreatingCacheDir { target_hash }, EventView::Io(Ok(_))) => (
                CacheStageView::ReadingCacheDir { target_hash },
                ActionView::ReadDir(request.cache_dir()),
            ),
            (CacheStageView::ReadingCacheDir { target_hash }, EventView::Entries(Err(_))) => {
                self.begin_download(request)
            },
            (CacheStageView::ReadingCacheDir { target_hash }, EventView::Entries(Ok(names))) => {
                self.scan_from(
                    request,
                    target_hash,
                    prefixed_names(names, request.file_prefix()),
                    0,
                )
            },
            (
                CacheStageView::HashingLocal { target_hash, candidates, next },
                EventView::Command(outcome),
            ) => if local_hash_of(outcome) == Some(target_hash) {
                cache_ready()
            } else {
                self.scan_from(request, target_hash, candidates, next + 1)
            },
            (CacheStageView::Downloading { transfer }, event) => Self::while_downloading(
                self.download_step(remote_path, request.cache_dir(), transfer, event),
            ),
            _ => cache_failed(ErrorView::ValidationError("unexpected event"@)),
        }
    }

    /// The steps of hashing the cached files, from the one for
    /// `candidates[next]` on, when the hash command for `candidates[i]` ends
    /// as `outcomes[i]` says: each step with the stage that it leads to and
    /// the action that it asks for, up to the step that finds the package
    /// cached or begins the download.
    pub open spec fn scan_steps(
        self,
        request: CacheRequestView,
        target_hash: Seq<char>,
        candidates: Seq<Seq<char>>,
        next: int,
        outcomes: Seq<CommandOutcomeView>,
    ) -> Seq<(CacheStageView, ActionView)>
        decreases candidates.len() - next,
    {
        if 0 <= next < candidates.len() {
            let after = self.cache_step(
                request,
                CacheStageView::HashingLocal { target_hash, candidates, next },
                EventView::Command(outcomes[next]),
            );
            if after.0 == (CacheStageView::HashingLocal {
                target_hash,
                candidates,
                next: next + 1,
            }) {
                seq![after] + self.scan_steps(request, target_hash, candidates, next + 1, outcomes)
            } else {
                seq![after]
            }
        } else {
            Seq::empty()
        }
    }

    /// The steps of a look into the cache from the reading of its directory
    /// on, when the directory holds `names` and the hash command for the
    /// candidate with number `i` ends as `outcomes[i]` says.
    pub open spec fn cache_steps(
        self,
        request: CacheRequestView,
        target_hash: Seq<char>,
        names: Seq<Seq<char>>,
        outcomes: Seq<CommandOutcomeView>,
    ) -> Seq<(CacheStageView, ActionView)> {
        let candidates = prefixed_names(names, request.file_prefix());
        let first = self.cache_step(
            request,
            CacheStageView::ReadingCacheDir { target_hash },
            EventView::Entries(Ok(names)),
        );
        if first.0 == (CacheStageView::HashingLocal { target_hash, candidates, next: 0 }) {
            seq![first] + self.scan_steps(request, target_hash, candidates, 0, outcomes)
        } else {
            seq![first]
        }
    }
}

/// Whether one of the cached files from `candidates[next]` on has the
/// content hash `target_hash`.
pub open spec fn cache_holds(
    target_hash: Seq<char>,
    candidates: Seq<Seq<char>>,
    next: int,
    outcomes: Seq<CommandOutcomeView>,
) -> bool {
    exists|i: int|
        next <= i < candidates.len() && local_hash_of(#[trigger] outcomes[i]) == Some(target_hash)
}

/// Hashing the cached files from `candidates[next]` on asks for the hash of
/// one cached file after the other, and of nothing else, until it ends:
/// with the package found where one of the files has the hash of the store,
/// and with the first step of the download where none has.
pub proof fn lemma_scan_steps(
    backend: StorageBackendView,
    request: CacheRequestView,
    target_hash: Seq<char>,
    candidates: Seq<Seq<char>>,
    next: int,
    outcomes: Seq<CommandOutcomeView>,
)
    requires
        0 <= next < candidates.len(),
    ensures
        ({
            let steps = backend.scan_steps(request, target_hash, candidates, next, outcomes);
            &&& steps.len() >= 1
            &&& forall|k: int|
                0 <= k < steps.len() - 1 ==> #[trigger] steps[k] == backend.scan_from(
                    request,
                    target_hash,
                    candidates,
                    next + k + 1,
                ) && next + k + 1 < candidates.len()
            &&& cache_holds(target_hash, candidates, next, outcomes) ==> steps.last()
                == cache_ready()
            &&& !cache_holds(target_hash, candidates, next, outcomes) ==> steps.last()
                == backend.begin_download(request)
        }),
    decreases candidates.len() - next,
{
    let steps = backend.scan_steps(request, target_hash, candidates, next, outcomes);
    let after = backend.cache_step(
        request,
        CacheStageView::HashingLocal { target_hash, candidates, next },
        EventView::Command(outcomes[next]),
    );
    if local_hash_of(outcomes[next]) != Some(target_hash) && next + 1 < candidates.len() {
        let rest = backend.scan_steps(request, target_hash, candidates, next + 1, outcomes);
        lemma_scan_steps(backend, request, target_hash, candidates, next + 1, outcomes);
    }
}

/// A package that is cached is not downloaded again. Where one of the cached
/// files of the package has the content hash that the store reports, the
/// look into the cache ends with the package ready. On the way it asks for
/// the hashes of cached files only: at no step does it download.
pub proof fn lemma_cached_package_is_not_downloaded(
    backend: StorageBackendView,
    request: CacheRequestView,
    target_hash: Seq<char>,
    names: Seq<Seq<char>>,
    outcomes: Seq<CommandOutcomeView>,
)
    requires
        cache_holds(target_hash, prefixed_names(names, request.file_prefix()), 0, outcomes),
    ensures
        ({
            let steps = backend.cache_steps(request, target_hash, names, outcomes);
            &&& steps.last() == cache_ready()
            &&& forall|k: int| 0 <= k < steps.len() ==> !((#[trigger] steps[k]).0 is Downloading)
            &&& forall|k: int| 0 <= k < steps.len() - 1 ==> (#[trigger] steps[k]).0 is HashingLocal
        }),
{
    let candidates = prefixed_names(names, request.file_prefix());
    lemma_scan_steps(backend, request, target_hash, candidates, 0, outcomes);
}

/// A package whose content in the store has changed is downloaded again.
/// Where no cached file of the package has the content hash that the store
/// reports, the look into the cache hashes each cached file of the package
/// and then begins the download, whatever else the cache holds.
pub proof fn lemma_changed_package_is_downloaded(
    backend: StorageBackendView,
    request: CacheRequestView,
    target_hash: Seq<char>,
    names: Seq<Seq<char>>,
    outcomes: Seq<CommandOutcomeView>,
)
    requires
        !cache_holds(target_hash, prefixed_names(names, request.file_prefix()), 0, outcomes),
    ensures
        ({
            let steps = backend.cache_steps(request, target_hash, names, outcomes);
            &&& steps.last() == backend.begin_download(request)
            &&& steps.last().0 is Downloading
            &&& steps.last().1 is Run
            &&& steps.len() == prefixed_names(names, request.file_prefix()).len() + 1
            &&& forall|k: int| 0 <= k < steps.len() - 1 ==> (#[trigger] steps[k]).0 is HashingLocal
        }),
{
    let candidates = prefixed_names(names, request.file_prefix());
    if candidates.len() > 0 {
        lemma_scan_steps(backend, request, target_hash, candidates, 0, outcomes);
        lemma_scan_length(backend, request, target_hash, candidates, 0, outcomes);
    } else {
    }
}

/// Where no cached file has the hash of the store, every one of them is
/// hashed.
pub proof fn lemma_scan_length(
    backend: StorageBackendView,
    request: CacheRequestView,
    target_hash: Seq<char>,
    candidates: Seq<Seq<char>>,
    next: int,
    outcomes: Seq<CommandOutcomeView>,
)
    requires
        0 <= next <= candidates.len(),
        !cache_holds(target_hash, candidates, next, outcomes),
    ensures
        backend.scan_steps(request, target_hash, candidates, next, outcomes).len()
            == candidates.len() - next,
    decreases candidates.len() - next,
{
    if next < candidates.len() {
        if next + 1 < candidates.len() {
            lemma_scan_length(backend, request, target_hash, candidates, next + 1, outcomes);
        }
    }
}

/// The request for the package of `artifact` on `network`.
pub open spec fn cache_request(
    artifact: Seq<char>,
    codename: Seq<char>,
    network: Option<Seq<char>>,
    build_id: Seq<char>,
    cache_folder: Seq<char>,
) -> CacheRequestView {
    CacheRequestView { artifact, codename, network, build_id, cache_folder }
}

/// Those of `names` that begin with `prefix`, in order.
fn names_with_prefix(names: &Vec<String>, prefix: &str) -> (found: Vec<String>)
    ensures
        found.deep_view() == prefixed_names(names.deep_view(), prefix@),
{
    let mut found: Vec<String> = Vec::new();
    let mut i: usize = 0;
    while i < names.len()
        invariant
            i <= names.len(),
            found.deep_view() == prefixed_names(names.deep_view().take(i as int), prefix@),
        decreases names.len() - i,
    {
        proof {
            let n = names.deep_view();
            assert(n.take(i + 1).drop_last() =~= n.take(i as int));
        }
        if starts_with(names[i].as_str(), prefix) {
            found.push(names[i].clone());
        }
        i += 1;
    }
    assert(names.deep_view().take(names.len() as int) =~= names.deep_view());
    found
}

/// The content hash of a cached file, as the outcome of the hash command
/// shows it.
pub fn local_hash(outcome: &CommandOutcome) -> (hash: Option<String>)
    ensures
        opt_view(hash) == local_hash_of(outcome@),
{
    match outcome {
        CommandOutcome::NotStarted { .. } => None,
        CommandOutcome::Exited { success, stdout, stderr } => first_word_of(stdout.as_str()),
    }
}

fn cache_fails(e: ManagerError) -> (r: (CacheStage, Action))
    ensures
        (r.0@, r.1@) == cache_failed(e@),
{
    (CacheStage::Done, Action::Fail(e))
}

fn while_downloading(next: (TransferStage, Action)) -> (r: (CacheStage, Action))
    ensures
        (r.0@, r.1@) == StorageBackendView::while_downloading((next.0@, next.1@)),
{
    match next.1 {
        Action::Complete(_) => (CacheStage::Done, Action::Complete(None)),
        Action::Fail(e) => cache_fails(e),
        action => (CacheStage::Downloading { transfer: next.0 }, action),
    }
}

/// The path in the store of the package of `artifact` from the build
/// `buildkite_build_id`.
pub fn remote_package_path(
    storage: &StorageClient,
    artifact: &str,
    codename: &str,
    network: Option<&str>,
    buildkite_build_id: &str,
) -> (path: String)
    ensures
        path@ == cache_request(
            artifact@,
            codename@,
            opt_text(network),
            buildkite_build_id@,
            Seq::empty(),
        ).remote_path(storage@.root_path()),
{
    let full_name = get_artifact_with_suffix(artifact, network);
    let mut path = String::from_str(storage.backend.root_path());
    path.append("/");
    path.append(buildkite_build_id);
    path.append("/debians/");
    path.append(codename);
    path.append("/");
    path.append(full_name.as_str());
    path.append("_*");
    path
}

fn begin_download(storage: &StorageClient, remote_path: &str, cache_dir: &str) -> (r: (
    CacheStage,
    Action,
))
    ensures
        (r.0@, r.1@) == StorageBackendView::while_downloading(
            storage@.download_step(
                remote_path@,
                cache_dir@,
                TransferStageView::Start,
                EventView::Begin,
            ),
        ),
{
    while_downloading(storage.download(remote_path, cache_dir, TransferStage::Start, Event::Begin))
}

fn scan_from(
    storage: &StorageClient,
    remote_path: &str,
    cache_dir: &str,
    target_hash: String,
    candidates: Vec<String>,
    next: usize,
) -> (r: (CacheStage, Action))
    ensures
        r.1@ == (if next < candidates.len() {
            ActionView::Run(
                command("md5sum"@).arg(
                    joined_path(cache_dir@, candidates.deep_view()[next as int]),
                ),
            )
        } else {
            StorageBackendView::while_downloading(
                storage@.download_step(
                    remote_path@,
                    cache_dir@,
                    TransferStageView::Start,
                    EventView::Begin,
                ),
            ).1
        }),
        r.0@ == (if next < candidates.len() {
            CacheStageView::HashingLocal {
                target_hash: target_hash@,
                candidates: candidates.deep_view(),
                next: next as int,
            }
        } else {
            StorageBackendView::while_downloading(
                storage@.download_step(
                    remote_path@,
                    cache_dir@,
                    TransferStageView::Start,
                    EventView::Begin,
                ),
            ).0
        }),
{
    if next < candidates.len() {
        let path = join_path(cache_dir, candidates[next].as_str());
        (
            CacheStage::HashingLocal { target_hash, candidates, next },
            Action::Run(CommandLine::new("md5sum").arg(path.as_str())),
        )
    } else {
        begin_download(storage, remote_path, cache_dir)
    }
}

/// The step that a look into the cache for the package of `artifact` takes
/// at `stage` when `event` comes in. The first call takes
/// [`CacheStage::Start`] and [`Event::Begin`]; each later call takes the
/// stage that the call before gave, and the outcome of the action that it
/// asked for. When the look ends without a failure, the cache holds the
/// package as the store has it.
pub fn get_cached_debian_or_download(
    storage: &StorageClient,
    artifact: &str,
    codename: &str,
    network: Option<&str>,
    buildkite_build_id: &str,
    cache_folder: &str,
    stage: CacheStage,
    event: Event,
) -> (r: (CacheStage, Action))
    ensures
        (r.0@, r.1@) == storage@.cache_step(
            cache_request(
                artifact@,
                codename@,
                opt_text(network),
                buildkite_build_id@,
                cache_folder@,
            ),
            stage@,
            event@,
        ),
{
    let full_name = get_artifact_with_suffix(artifact, network);
    let remote_path = remote_package_path(storage, artifact, codename, network, buildkite_build_id);
    let cache_dir = join_path(cache_folder, codename);
    match (stage, event) {
        (CacheStage::Start, Event::Begin) => (
            CacheStage::ListingRemote,
            Action::Run(storage.list_command(remote_path.as_str())),
        ),
        (CacheStage::ListingRemote, Event::Command(outcome)) => match StorageClient::list(
            &outcome,
        ) {
            Err(e) => cache_fails(e),
            Ok(files) => {
                if files.len() == 0 {
                    let mut detail = String::from_str("No debian package found for ");
                    detail.append(full_name.as_str());
                    detail.append(" (build: ");
                    detail.append(buildkite_build_id);
                    detail.append(")");
                    cache_fails(ManagerError::ArtifactNotFound(detail))
                } else {
                    (
                        CacheStage::HashingRemote,
                        Action::Run(storage.md5_command(remote_path.as_str())),
                    )
                }
            },
        },
        (CacheStage::HashingRemote, Event::Command(outcome)) => match storage.md5(&outcome) {
            Err(e) => cache_fails(e),
            Ok(target_hash) => (
                CacheStage::CreatingCacheDir { target_hash },
                Action::CreateDirAll(cache_dir),
            ),
        },
        (CacheStage::CreatingCacheDir { target_hash }, Event::Io(Err(failure))) => cache_fails(
            ManagerError::IoError(failure),
        ),
        (CacheStage::CreatingCacheDir { target_hash }, Event::Io(Ok(_))) => (
            CacheStage::ReadingCacheDir { target_hash },
            Action::ReadDir(cache_dir),
        ),
        (CacheStage::ReadingCacheDir { target_hash }, Event::Entries(Err(_))) => begin_download(
            storage,
            remote_path.as_str(),
            cache_dir.as_str(),
        ),
        (CacheStage::ReadingCacheDir { target_hash }, Event::Entries(Ok(names))) => {
            let mut prefix = full_name.clone();
            prefix.append("_");
            let candidates = names_with_prefix(&names, prefix.as_str());
            scan_from(
                storage,
                remote_path.as_str(),
                cache_dir.as_str(),
                target_hash,
                candidates,
                0,
            )
        },
        (CacheStage::HashingLocal { target_hash, candidates, next }, Event::Command(outcome)) => {
            let hit = match local_hash(&outcome) {
                Some(hash) => str_eq(hash.as_str(), target_hash.as_str()),
                None => false,
            };
            if hit {
                (CacheStage::Done, Action::Complete(None))
            } else if next < candidates.len() {
                scan_from(
                    storage,
                    remote_path.as_str(),
                    cache_dir.as_str(),
                    target_hash,
                    candidates,
                    next + 1,
                )
            } else {
                begin_download(storage, remote_path.as_str(), cache_dir.as_str())
            }
        },
        (CacheStage::Downloading { transfer }, event) => while_downloading(
            storage.download(remote_path.as_str(), cache_dir.as_str(), transfer, event),
        ),
        _ => cache_fails(ManagerError::validation("unexpected event")),
    }
}

} // verus!
