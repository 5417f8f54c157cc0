//! Verification of what was published: a package is installed from the
//! repository in a fresh container and its programs are run; the programs
//! of an image are run in a container of that image.

use vstd::prelude::*;
use crate::errors::{ErrorView, ManagerError, ManagerResult, unit_view};
use crate::process::{
    Action, ActionView, check_command, command, command_failure, CommandLine, CommandLineView,
    CommandOutcome, CommandOutcomeView, Event, EventView,
};
use crate::text::{has_prefix, join, joined, starts_with, str_eq};

verus! {

/// Which package is verified, and in which repository.
#[derive(Clone, Debug)]
pub struct DebianVerifyConfig {
    /// Name of the package.
    pub package: String,
    /// Version of the package.
    pub version: String,
    /// Host of the repository.
    pub repo: String,
    /// Codename of the distribution.
    pub codename: String,
    /// Channel of the repository.
    pub channel: String,
    /// Whether the repository is signed.
    pub signed: bool,
}

/// The mathematical content of a [`DebianVerifyConfig`].
pub struct DebianVerifyConfigView {
    pub package: Seq<char>,
    pub version: Seq<char>,
    pub repo: Seq<char>,
    pub codename: Seq<char>,
    pub channel: Seq<char>,
    pub signed: bool,
}

impl View for DebianVerifyConfig {
    type V = DebianVerifyConfigView;

    open spec fn view(&self) -> DebianVerifyConfigView {
        DebianVerifyConfigView {
            package: self.package@,
            version: self.version@,
            repo: self.repo@,
            codename: self.codename@,
            channel: self.channel@,
            signed: self.signed,
        }
    }
}

/// Which image is verified, and in which registry.
#[derive(Clone, Debug)]
pub struct DockerVerifyConfig {
    /// Name of the image.
    pub package: String,
    /// Version of the image.
    pub version: String,
    /// Registry of the image.
    pub repo: String,
    /// Codename of the distribution.
    pub codename: String,
    /// What the tag ends in, such as `-devnet`.
    pub suffix: String,
}

/// The mathematical content of a [`DockerVerifyConfig`].
pub struct DockerVerifyConfigView {
    pub package: Seq<char>,
    pub version: Seq<char>,
    pub repo: Seq<char>,
    pub codename: Seq<char>,
    pub suffix: Seq<char>,
}

impl View for DockerVerifyConfig {
    type V = DockerVerifyConfigView;

    open spec fn view(&self) -> DockerVerifyConfigView {
        DockerVerifyConfigView {
            package: self.package@,
            version: self.version@,
            repo: self.repo@,
            codename: self.codename@,
            suffix: self.suffix@,
        }
    }
}

/// How far the verification of a package has come.
#[derive(Clone, Copy, Debug, PartialEq, Eq, Structural)]
pub enum DebianVerifyStage {
    /// Nothing was done yet.
    Start,
    /// The package is being installed and run in a container.
    Running,
    /// The verification is over.
    Done,
}

/// How far the verification of an image has come.
#[derive(Clone, Copy, Debug, PartialEq, Eq, Structural)]
pub enum DockerVerifyStage {
    /// Nothing was done yet.
    Start,
    /// The image is being pulled.
    Pulling,
    /// A program of the image is being run: the program with number `app`,
    /// with the argument with number `check`.
    Testing { app: usize, check: usize },
    /// The verification is over.
    Done,
}

/// The failure that ends the verification of a package.
pub open spec fn package_check_failed(e: ErrorView) -> (DebianVerifyStage, ActionView) {
    (DebianVerifyStage::Done, ActionView::Fail(e))
}

/// The failure that ends the verification of an image.
pub open spec fn image_check_failed(e: ErrorView) -> (DockerVerifyStage, ActionView) {
    (DockerVerifyStage::Done, ActionView::Fail(e))
}

/// The arguments with which each program of an image is run.
pub open spec fn program_checks() -> Seq<Seq<char>> {
    seq!["--version"@, "--help"@]
}

impl DebianVerifyConfigView {
    /// What is wrong with the configuration, if anything: none of its texts
    /// may be empty.
    pub open spec fn config_error(self) -> Option<ErrorView> {
        if self.package.len() == 0 {
            Some(ErrorView::ValidationError("Package cannot be empty"@))
        } else if self.version.len() == 0 {
            Some(ErrorView::ValidationError("Version cannot be empty"@))
        } else if self.repo.len() == 0 {
            Some(ErrorView::ValidationError("Repository cannot be empty"@))
        } else if self.codename.len() == 0 {
            Some(ErrorView::ValidationError("Codename cannot be empty"@))
        } else if self.channel.len() == 0 {
            Some(ErrorView::ValidationError("Channel cannot be empty"@))
        } else {
            None
        }
    }

    /// The image of the container that the package is installed in: that of
    /// the distribution with the codename, or of the oldest one supported
    /// where the codename is not known.
    pub open spec fn test_image(self) -> Seq<char> {
        if self.codename == "bullseye"@ {
            "debian:bullseye"@
        } else if self.codename == "focal"@ {
            "ubuntu:20.04"@
        } else if self.codename == "jammy"@ {
            "ubuntu:22.04"@
        } else {
            "debian:bullseye"@
        }
    }

    /// The commands that try the programs of the package once it is
    /// installed.
    pub open spec fn test_commands(self) -> Seq<Seq<char>> {
        if has_prefix(self.package, "mina-archive"@) {
            seq!["mina-archive --version"@, "mina-archive --help"@]
        } else if self.package == "mina-logproc"@ {
            seq!["echo 'Skipped execution for mina-logproc'"@]
        } else if has_prefix(self.package, "mina-rosetta"@) {
            seq!["mina --version"@, "mina-archive --version"@, "mina-rosetta --help"@]
        } else if has_prefix(self.package, "mina-"@) {
            seq!["mina --version"@, "mina --help"@]
        } else {
            seq![self.package + " --version"@, self.package + " --help"@]
        }
    }

    /// The commands that make the key of a signed repository known.
    pub open spec fn key_commands(self) -> Seq<Seq<char>> {
        if self.signed {
            seq![
                "apt-get install -y curl gnupg2"@,
                "curl -fsSL https://"@ + self.repo + "/keys/minaprotocol.asc | apt-key add -"@,
            ]
        } else {
            Seq::empty()
        }
    }

    /// The commands that install the package from the repository.
    pub open spec fn install_commands(self) -> Seq<Seq<char>> {
        seq![
            "echo 'deb [trusted=yes] https://"@ + self.repo + " "@ + self.codename + " "@
                + self.channel + "' | tee /etc/apt/sources.list.d/mina.list"@,
            "apt-get update"@,
            "apt-get install -y "@ + self.package + "="@ + self.version,
        ]
    }

    /// The commands of the verification, in order: the package lists are
    /// updated, the key of a signed repository is made known, the package
    /// is installed, and its programs are tried.
    pub open spec fn script_commands(self) -> Seq<Seq<char>> {
        seq!["apt-get update"@] + self.key_commands() + self.install_commands()
            + self.test_commands()
    }

    /// The script that the container runs: the commands, each run only
    /// where the one before it succeeded.
    pub open spec fn script(self) -> Seq<char> {
        joined(self.script_commands(), " && "@)
    }

    /// The command that runs the script in a fresh container, which is
    /// removed afterwards.
    pub open spec fn run_command(self) -> CommandLineView {
        command("docker"@).arg("run"@).arg("--rm"@).arg("-i"@).arg(self.test_image()).arg(
            "bash"@,
        ).arg("-c"@).arg(self.script())
    }

    /// The failure of a script that did not run through, if it did not.
    pub open spec fn run_failure(outcome: CommandOutcomeView) -> Option<ErrorView> {
        match outcome {
            CommandOutcomeView::NotStarted { reason } => Some(
                ErrorView::CommandFailed("Failed to run Docker verification: "@ + reason),
            ),
            CommandOutcomeView::Exited { success, stdout, stderr } => if success {
                None
            } else {
                Some(
                    ErrorView::CommandFailed(
                        "Docker verification failed. Stdout: "@ + stdout + ", Stderr: "@ + stderr,
                    ),
                )
            },
        }
    }

    /// The step that the verification of a package takes at `stage` when
    /// `event` comes in: the configuration is checked, and then the script
    /// is run in a container.
    pub open spec fn step(self, stage: DebianVerifyStage, event: EventView) -> (
        DebianVerifyStage,
        ActionView,
    ) {
        match (stage, event) {
            (DebianVerifyStage::Start, EventView::Begin) => match self.config_error() {
                Some(e) => package_check_failed(e),
                None => (DebianVerifyStage::Running, ActionView::Run(self.run_command())),
            },
            (DebianVerifyStage::Running, EventView::Command(outcome)) => match Self::run_failure(
                outcome,
            ) {
                Some(e) => package_check_failed(e),
                None => (DebianVerifyStage::Done, ActionView::Complete(None)),
            },
            _ => package_check_failed(ErrorView::ValidationError("unexpected event"@)),
        }
    }
}

impl DockerVerifyConfigView {
    /// What is wrong with the configuration, if anything: the package, the
    /// version, the registry and the codename must not be empty.
    pub open spec fn config_error(self) -> Option<ErrorView> {
        if self.package.len() == 0 {
            Some(ErrorView::ValidationError("Package cannot be empty"@))
        } else if self.version.len() == 0 {
            Some(ErrorView::ValidationError("Version cannot be empty"@))
        } else if self.repo.len() == 0 {
            Some(ErrorView::ValidationError("Repository cannot be empty"@))
        } else if self.codename.len() == 0 {
            Some(ErrorView::ValidationError("Codename cannot be empty"@))
        } else {
            None
        }
    }

    /// The image without its tag: the registry and the name.
    pub open spec fn full_image_name(self) -> Seq<char> {
        self.repo + "/"@ + self.package
    }

    /// The full reference of the image: its tag is the version, the
    /// codename and the suffix.
    pub open spec fn image(self) -> Seq<char> {
        self.full_image_name() + ":"@ + self.version + "-"@ + self.codename + self.suffix
    }

    /// The programs of the image that are tried.
    pub open spec fn applications(self) -> Seq<Seq<char>> {
        if self.package == "mina-archive"@ {
            seq!["mina-archive"@]
        } else if self.package == "mina-logproc"@ {
            Seq::empty()
        } else if has_prefix(self.package, "mina-rosetta"@) {
            seq!["mina"@, "mina-archive"@, "mina-rosetta"@]
        } else if has_prefix(self.package, "mina-"@) {
            seq!["mina"@]
        } else {
            seq![self.package]
        }
    }

    /// The command that runs the program `app` of the image with the
    /// argument `check`.
    pub open spec fn test_command(self, app: Seq<char>, check: Seq<char>) -> CommandLineView {
        command("docker"@).arg("run"@).arg("--entrypoint"@).arg(app).arg("--rm"@).arg(
            self.image(),
        ).arg(check)
    }

    /// What the verification does once the runs before that of program
    /// `app` with argument `check` went well: it asks for that run, or it is
    /// done.
    pub open spec fn test_from(self, app: int, check: int) -> (DockerVerifyStage, ActionView) {
        if 0 <= app < self.applications().len() && 0 <= check < program_checks().len() {
            (
                DockerVerifyStage::Testing { app: app as usize, check: check as usize },
                ActionView::Run(
                    self.test_command(self.applications()[app], program_checks()[check]),
                ),
            )
        } else {
            (DockerVerifyStage::Done, ActionView::Complete(None))
        }
    }

    /// The step that the verification of an image takes at `stage` when
    /// `event` comes in: the configuration is checked, the image is pulled,
    /// and then each of its programs is run with each argument, program by
    /// program. The first command that fails ends the verification.
    pub open spec fn step(self, stage: DockerVerifyStage, event: EventView) -> (
        DockerVerifyStage,
        ActionView,
    ) {
        match (stage, event) {
            (DockerVerifyStage::Start, EventView::Begin) => match self.config_error() {
                Some(e) => image_check_failed(e),
                None => (
                    DockerVerifyStage::Pulling,
                    ActionView::Run(command("docker"@).arg("pull"@).arg(self.image())),
                ),
            },
            (DockerVerifyStage::Pulling, EventView::Command(outcome)) => match command_failure(
                outcome,
                "Failed to pull Docker image: "@,
                "Docker pull failed for "@ + self.image() + ": "@,
            ) {
                Some(e) => image_check_failed(e),
                None => self.test_from(0, 0),
            },
            (DockerVerifyStage::Testing { app, check }, EventView::Command(outcome)) => {
                if app < self.applications().len() && check < program_checks().len() {
                    let program = self.applications()[app as int];
                    let argument = program_checks()[check as int];
                    match command_failure(
                        outcome,
                        "Failed to test "@ + program + " "@ + argument + ": "@,
                        "Command "@ + program + " "@ + argument + " failed in "@ + self.image()
                            + ": "@,
                    ) {
                        Some(e) => image_check_failed(e),
                        None => if check + 1 < program_checks().len() {
                            self.test_from(app as int, check + 1)
                        } else {
                            self.test_from(app + 1, 0)
                        },
                    }
                } else {
                    image_check_failed(ErrorView::ValidationError("unexpected event"@))
                }
            },
            _ => image_check_failed(ErrorView::ValidationError("unexpected event"@)),
        }
    }
}

/// Adds `text` at the end of `list`.
fn push_text(list: &mut Vec<String>, text: &str)
    ensures
        final(list).deep_view() == old(list).deep_view().push(text@),
{
    list.push(String::from_str(text));
}

/// Adds `text` at the end of `list`.
fn push_string(list: &mut Vec<String>, text: String)
    ensures
        final(list).deep_view() == old(list).deep_view().push(text@),
{
    list.push(text);
}

/// `front` followed by `back`.
fn append_all(front: Vec<String>, back: &Vec<String>) -> (all: Vec<String>)
    ensures
        all.deep_view() == front.deep_view() + back.deep_view(),
{
    let mut all = front;
    let mut i: usize = 0;
    while i < back.len()
        invariant
            i <= back.len(),
            all.deep_view() == front.deep_view() + back.deep_view().take(i as int),
        decreases back.len() - i,
    {
        push_string(&mut all, back[i].clone());
        i += 1;
    }
    all
}

/// Verifies a package in a repository.
#[derive(Debug)]
pub struct DebianVerifier {
    pub config: DebianVerifyConfig,
}

impl View for DebianVerifier {
    type V = DebianVerifyConfigView;

    open spec fn view(&self) -> DebianVerifyConfigView {
        self.config@
    }
}

fn package_check_fails(e: ManagerError) -> (r: (DebianVerifyStage, Action))
    ensures
        (r.0, r.1@) == package_check_failed(e@),
{
    (DebianVerifyStage::Done, Action::Fail(e))
}

fn image_check_fails(e: ManagerError) -> (r: (DockerVerifyStage, Action))
    ensures
        (r.0, r.1@) == image_check_failed(e@),
{
    (DockerVerifyStage::Done, Action::Fail(e))
}

impl DebianVerifier {
    /// A verifier for the package that `config` describes.
    pub fn new(config: DebianVerifyConfig) -> (verifier: DebianVerifier)
        ensures
            verifier.config == config,
    {
        DebianVerifier { config }
    }

    /// Checks that none of the texts of the configuration is empty.
    pub fn validate_config(&self) -> (r: ManagerResult<()>)
        ensures
            unit_view(r) == match self@.config_error() {
                Some(e) => Err::<(), ErrorView>(e),
                None => Ok::<(), ErrorView>(()),
            },
    {
        if self.config.package.as_str().is_empty() {
            Err(ManagerError::validation("Package cannot be empty"))
        } else if self.config.version.as_str().is_empty() {
            Err(ManagerError::validation("Version cannot be empty"))
        } else if self.config.repo.as_str().is_empty() {
            Err(ManagerError::validation("Repository cannot be empty"))
        } else if self.config.codename.as_str().is_empty() {
            Err(ManagerError::validation("Codename cannot be empty"))
        } else if self.config.channel.as_str().is_empty() {
            Err(ManagerError::validation("Channel cannot be empty"))
        } else {
            Ok(())
        }
    }

    /// The image of the container that the package is installed in.
    pub fn get_test_docker_image(&self) -> (image: String)
        ensures
            image@ == self@.test_image(),
    {
        let codename = self.config.codename.as_str();
        if str_eq(codename, "bullseye") {
            String::from_str("debian:bullseye")
        } else if str_eq(codename, "focal") {
            String::from_str("ubuntu:20.04")
        } else if str_eq(codename, "jammy") {
            String::from_str("ubuntu:22.04")
        } else {
            String::from_str("debian:bullseye")
        }
    }

    /// The commands that try the programs of the package once it is
    /// installed.
    pub fn get_test_commands(&self) -> (commands: Vec<String>)
        ensures
            commands.deep_view() == self@.test_commands(),
    {
        let package = self.config.package.as_str();
        let mut commands: Vec<String> = Vec::new();
        if starts_with(package, "mina-archive") {
            push_text(&mut commands, "mina-archive --version");
            push_text(&mut commands, "mina-archive --help");
        } else if str_eq(package, "mina-logproc") {
            push_text(&mut commands, "echo 'Skipped execution for mina-logproc'");
        } else if starts_with(package, "mina-rosetta") {
            push_text(&mut commands, "mina --version");
            push_text(&mut commands, "mina-archive --version");
            push_text(&mut commands, "mina-rosetta --help");
        } else if starts_with(package, "mina-") {
            push_text(&mut commands, "mina --version");
            push_text(&mut commands, "mina --help");
        } else {
            push_string(&mut commands, crate::errors::describe(package, " --version"));
            push_string(&mut commands, crate::errors::describe(package, " --help"));
        }
        commands
    }

    /// The commands of the verification, in order.
    pub fn script_commands(&self) -> (commands: Vec<String>)
        ensures
            commands.deep_view() == self@.script_commands(),
    {
        let mut commands: Vec<String> = Vec::new();
        push_text(&mut commands, "apt-get update");
        if self.config.signed {
            push_text(&mut commands, "apt-get install -y curl gnupg2");
            let mut key = String::from_str("curl -fsSL https://");
            key.append(self.config.repo.as_str());
            key.append("/keys/minaprotocol.asc | apt-key add -");
            push_string(&mut commands, key);
        }
        let mut source = String::from_str("echo 'deb [trusted=yes] https://");
        source.append(self.config.repo.as_str());
        source.append(" ");
        source.append(self.config.codename.as_str());
        source.append(" ");
        source.append(self.config.channel.as_str());
        source.append("' | tee /etc/apt/sources.list.d/mina.list");
        push_string(&mut commands, source);
        push_text(&mut commands, "apt-get update");
        let mut install = String::from_str("apt-get install -y ");
        install.append(self.config.package.as_str());
        install.append("=");
        install.append(self.config.version.as_str());
        push_string(&mut commands, install);
        let tests = self.get_test_commands();
        append_all(commands, &tests)
    }

    /// The script that the container runs.
    pub fn build_verification_script(&self) -> (script: String)
        ensures
            script@ == self@.script(),
    {
        let commands = self.script_commands();
        join(&commands, " && ")
    }

    /// The command that runs the script in a fresh container.
    pub fn run_verification_in_docker(&self) -> (line: CommandLine)
        ensures
            line@ == self@.run_command(),
    {
        CommandLine::new("docker").arg("run").arg("--rm").arg("-i").arg(
            self.get_test_docker_image().as_str(),
        ).arg("bash").arg("-c").arg(self.build_verification_script().as_str())
    }

    /// The step that the verification takes at `stage` when `event` comes
    /// in. The first call takes [`DebianVerifyStage::Start`] and
    /// [`Event::Begin`]; the next one takes the stage that the first gave,
    /// and the outcome of the command that it asked for.
    pub fn verify(&self, stage: DebianVerifyStage, event: Event) -> (r: (
        DebianVerifyStage,
        Action,
    ))
        ensures
            (r.0, r.1@) == self@.step(stage, event@),
    {
        match (stage, event) {
            (DebianVerifyStage::Start, Event::Begin) => match self.validate_config() {
                Err(e) => package_check_fails(e),
                Ok(_) => (
                    DebianVerifyStage::Running,
                    Action::Run(self.run_verification_in_docker()),
                ),
            },
            (
                DebianVerifyStage::Running,
                Event::Command(CommandOutcome::NotStarted { reason }),
            ) => package_check_fails(
                ManagerError::CommandFailed(
                    crate::errors::describe(
                        "Failed to run Docker verification: ",
                        reason.as_str(),
                    ),
                ),
            ),
            (
                DebianVerifyStage::Running,
                Event::Command(CommandOutcome::Exited { success, stdout, stderr }),
            ) => {
                if success {
                    (DebianVerifyStage::Done, Action::Complete(None))
                } else {
                    let mut detail = String::from_str("Docker verification failed. Stdout: ");
                    detail.append(stdout.as_str());
                    detail.append(", Stderr: ");
                    detail.append(stderr.as_str());
                    package_check_fails(ManagerError::CommandFailed(detail))
                }
            },
            _ => package_check_fails(ManagerError::validation("unexpected event")),
        }
    }
}

/// Verifies an image in a registry.
#[derive(Debug)]
pub struct DockerVerifier {
    pub config: DockerVerifyConfig,
}

impl View for DockerVerifier {
    type V = DockerVerifyConfigView;

    open spec fn view(&self) -> DockerVerifyConfigView {
        self.config@
    }
}

impl DockerVerifier {
    /// A verifier for the image that `config` describes.
    pub fn new(config: DockerVerifyConfig) -> (verifier: DockerVerifier)
        ensures
            verifier.config == config,
    {
        DockerVerifier { config }
    }

    /// Checks that the package, the version, the registry and the codename
    /// are not empty.
    pub fn validate_config(&self) -> (r: ManagerResult<()>)
        ensures
            unit_view(r) == match self@.config_error() {
                Some(e) => Err::<(), ErrorView>(e),
                None => Ok::<(), ErrorView>(()),
            },
    {
        if self.config.package.as_str().is_empty() {
            Err(ManagerError::validation("Package cannot be empty"))
        } else if self.config.version.as_str().is_empty() {
            Err(ManagerError::validation("Version cannot be empty"))
        } else if self.config.repo.as_str().is_empty() {
            Err(ManagerError::validation("Repository cannot be empty"))
        } else if self.config.codename.as_str().is_empty() {
            Err(ManagerError::validation("Codename cannot be empty"))
        } else {
            Ok(())
        }
    }

    /// The image without its tag: the registry and the name.
    pub fn get_full_image_name(&self) -> (name: String)
        ensures
            name@ == self@.full_image_name(),
    {
        let mut name = self.config.repo.clone();
        name.append("/");
        name.append(self.config.package.as_str());
        name
    }

    /// The full reference of the image.
    pub fn image(&self) -> (image: String)
        ensures
            image@ == self@.image(),
    {
        let mut image = self.get_full_image_name();
        image.append(":");
        image.append(self.config.version.as_str());
        image.append("-");
        image.append(self.config.codename.as_str());
        image.append(self.config.suffix.as_str());
        image
    }

    /// The programs of the image that are tried.
    pub fn get_applications(&self) -> (apps: Vec<String>)
        ensures
            apps.deep_view() == self@.applications(),
    {
        let package = self.config.package.as_str();
        let mut apps: Vec<String> = Vec::new();
        if str_eq(package, "mina-archive") {
            push_text(&mut apps, "mina-archive");
        } else if str_eq(package, "mina-logproc") {
        } else if starts_with(package, "mina-rosetta") {
            push_text(&mut apps, "mina");
            push_text(&mut apps, "mina-archive");
            push_text(&mut apps, "mina-rosetta");
        } else if starts_with(package, "mina-") {
            push_text(&mut apps, "mina");
        } else {
            push_text(&mut apps, package);
        }
        apps
    }

    /// The command that pulls the image.
    pub fn pull_image(&self) -> (line: CommandLine)
        ensures
            line@ == command("docker"@).arg("pull"@).arg(self@.image()),
    {
        CommandLine::new("docker").arg("pull").arg(self.image().as_str())
    }

    /// The argument with number `check` that each program is run with.
    fn check_argument(check: usize) -> (argument: &'static str)
        requires
            check < 2,
        ensures
            argument@ == program_checks()[check as int],
    {
        if check == 0 {
            "--version"
        } else {
            "--help"
        }
    }

    /// What the verification does once the runs before that of program
    /// `app` with argument `check` went well.
    fn test_applications(&self, app: usize, check: usize) -> (r: (DockerVerifyStage, Action))
        ensures
            (r.0, r.1@) == self@.test_from(app as int, check as int),
    {
        let apps = self.get_applications();
        if app < apps.len() && check < 2 {
            let line = CommandLine::new("docker").arg("run").arg("--entrypoint").arg(
                apps[app].as_str(),
            ).arg("--rm").arg(self.image().as_str()).arg(Self::check_argument(check));
            (DockerVerifyStage::Testing { app, check }, Action::Run(line))
        } else {
            (DockerVerifyStage::Done, Action::Complete(None))
        }
    }

    /// The step that the verification takes at `stage` when `event` comes
    /// in. The first call takes [`DockerVerifyStage::Start`] and
    /// [`Event::Begin`]; each later call takes the stage that the call
    /// before gave, and the outcome of the command that it asked for.
    pub fn verify(&self, stage: DockerVerifyStage, event: Event) -> (r: (
        DockerVerifyStage,
        Action,
    ))
        ensures
            (r.0, r.1@) == self@.step(stage, event@),
    {
        match (stage, event) {
            (DockerVerifyStage::Start, Event::Begin) => match self.validate_config() {
                Err(e) => image_check_fails(e),
                Ok(_) => (DockerVerifyStage::Pulling, Action::Run(self.pull_image())),
            },
            (DockerVerifyStage::Pulling, Event::Command(outcome)) => {
                let mut failed = String::from_str("Docker pull failed for ");
                failed.append(self.image().as_str());
                failed.append(": ");
                match check_command(&outcome, "Failed to pull Docker image: ", failed.as_str()) {
                    Some(e) => image_check_fails(e),
                    None => self.test_applications(0, 0),
                }
            },
            (DockerVerifyStage::Testing { app, check }, Event::Command(outcome)) => {
                let apps = self.get_applications();
                if app < apps.len() && check < 2 {
                    let program = apps[app].as_str();
                    let argument = Self::check_argument(check);
                    let mut not_started = String::from_str("Failed to test ");
                    not_started.append(program);
                    not_started.append(" ");
                    not_started.append(argument);
                    not_started.append(": ");
                    let mut failed = String::from_str("Command ");
                    failed.append(program);
                    failed.append(" ");
                    failed.append(argument);
                    failed.append(" failed in ");
                    failed.append(self.image().as_str());
                    failed.append(": ");
                    match check_command(&outcome, not_started.as_str(), failed.as_str()) {
                        Some(e) => image_check_fails(e),
                        None => if check + 1 < 2 {
                            self.test_applications(app, check + 1)
                        } else {
                            self.test_applications(app + 1, 0)
                        },
                    }
                } else {
                    image_check_fails(ManagerError::validation("unexpected event"))
                }
            },
            _ => image_check_fails(ManagerError::validation("unexpected event")),
        }
    }
}

/// A verifier for the package `package`, ready to take its first step.
pub fn verify_debian_package(
    package: &str,
    version: &str,
    repo: &str,
    codename: &str,
    channel: &str,
    signed: bool,
) -> (verifier: DebianVerifier)
    ensures
        verifier@ == (DebianVerifyConfigView {
            package: package@,
            version: version@,
            repo: repo@,
            codename: codename@,
            channel: channel@,
            signed,
        }),
{
    DebianVerifier::new(
        DebianVerifyConfig {
            package: String::from_str(package),
            version: String::from_str(version),
            repo: String::from_str(repo),
            codename: String::from_str(codename),
            channel: String::from_str(channel),
            signed,
        },
    )
}

/// A verifier for the image `package`, ready to take its first step.
pub fn verify_docker_image(
    package: &str,
    version: &str,
    repo: &str,
    codename: &str,
    suffix: &str,
) -> (verifier: DockerVerifier)
    ensures
        verifier@ == (DockerVerifyConfigView {
            package: package@,
            version: version@,
            repo: repo@,
            codename: codename@,
            suffix: suffix@,
        }),
{
    DockerVerifier::new(
        DockerVerifyConfig {
            package: String::from_str(package),
            version: String::from_str(version),
            repo: String::from_str(repo),
            codename: String::from_str(codename),
            suffix: String::from_str(suffix),
        },
    )
}

/// A verification that is not well configured asks for no command: its
/// first step is the validation failure.
pub proof fn lemma_invalid_verification_runs_nothing(
    package: DebianVerifyConfigView,
    image: DockerVerifyConfigView,
)
    ensures
        package.config_error() is Some ==> package.step(DebianVerifyStage::Start, EventView::Begin)
            == package_check_failed(package.config_error()->0),
        image.config_error() is Some ==> image.step(DockerVerifyStage::Start, EventView::Begin)
            == image_check_failed(image.config_error()->0),
{
}

} // verus!
