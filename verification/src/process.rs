//! The vocabulary between an operation and whoever carries out its effects.
//!
//! An operation never runs a command or touches the file system itself. It
//! hands out an [`Action`], and is handed back the [`Event`] that says how the
//! action went.

use vstd::prelude::*;
use crate::errors::{ErrorView, IoErrorKind, IoFailure, IoFailureView, ManagerError, ManagerResult};
use crate::text::{join, joined, lines, lines_of};

verus! {

/// A command to run: the program, then its arguments in order.
#[derive(Clone, Debug, PartialEq, Eq)]
pub struct CommandLine {
    pub program: String,
    pub args: Vec<String>,
}

/// The mathematical content of a [`CommandLine`].
pub struct CommandLineView {
    pub program: Seq<char>,
    pub args: Seq<Seq<char>>,
}

impl CommandLineView {
    /// This command with one more argument at its end.
    pub open spec fn arg(self, value: Seq<char>) -> CommandLineView {
        CommandLineView { program: self.program, args: self.args.push(value) }
    }

    /// The command as one line: the program and its arguments, a blank
    /// between each two.
    pub open spec fn display(self) -> Seq<char> {
        if self.args.len() == 0 {
            self.program
        } else {
            self.program + " "@ + joined(self.args, " "@)
        }
    }
}

/// The command that runs `program` without arguments.
pub open spec fn command(program: Seq<char>) -> CommandLineView {
    CommandLineView { program, args: Seq::empty() }
}

impl View for CommandLine {
    type V = CommandLineView;

    open spec fn view(&self) -> CommandLineView {
        CommandLineView { program: self.program@, args: self.args.deep_view() }
    }
}

impl CommandLine {
    /// The command that runs `program` without arguments.
    pub fn new(program: &str) -> (line: CommandLine)
        ensures
            line@ == command(program@),
    {
        let line = CommandLine { program: String::from_str(program), args: Vec::new() };
        assert(line.args.deep_view() =~= Seq::empty());
        line
    }

    /// This command with one more argument at its end.
    pub fn arg(self, value: &str) -> (line: CommandLine)
        ensures
            line@ == self@.arg(value@),
    {
        let mut args = self.args;
        let ghost before = args.deep_view();
        args.push(String::from_str(value));
        assert(args.deep_view() =~= before.push(value@));
        CommandLine { program: self.program, args }
    }

    /// The command as one line, for showing it to the operator.
    pub fn display(&self) -> (text: String)
        ensures
            text@ == self@.display(),
    {
        if self.args.len() == 0 {
            self.program.clone()
        } else {
            let mut text = self.program.clone();
            text.append(" ");
            let rest = join(&self.args, " ");
            text.append(rest.as_str());
            text
        }
    }
}

/// How a command ended.
#[derive(Clone, Debug, PartialEq, Eq)]
pub enum CommandOutcome {
    /// The program could not be started; `reason` says why.
    NotStarted { reason: String },
    /// The program ran to its end. `success` tells whether its exit status
    /// was zero.
    Exited { success: bool, stdout: String, stderr: String },
}

/// The mathematical content of a [`CommandOutcome`].
pub enum CommandOutcomeView {
    NotStarted { reason: Seq<char> },
    Exited { success: bool, stdout: Seq<char>, stderr: Seq<char> },
}

impl View for CommandOutcome {
    type V = CommandOutcomeView;

    open spec fn view(&self) -> CommandOutcomeView {
        match self {
            CommandOutcome::NotStarted { reason } => CommandOutcomeView::NotStarted {
                reason: reason@,
            },
            CommandOutcome::Exited { success, stdout, stderr } => CommandOutcomeView::Exited {
                success: *success,
                stdout: stdout@,
                stderr: stderr@,
            },
        }
    }
}

/// What came back from carrying out an [`Action`].
#[derive(Debug, PartialEq, Eq)]
pub enum Event {
    /// Nothing yet: the operation is asked for its first action.
    Begin,
    /// A command was run.
    Command(CommandOutcome),
    /// A path was looked up; the flag tells whether something is there.
    Exists(bool),
    /// A directory was created, or a file written or removed.
    Io(Result<(), IoFailure>),
    /// A file was read as text.
    Text(Result<String, IoFailure>),
    /// The names of the entries of a directory were read.
    Entries(Result<Vec<String>, IoFailure>),
}

/// The mathematical content of an [`Event`].
pub enum EventView {
    Begin,
    Command(CommandOutcomeView),
    Exists(bool),
    Io(Result<(), IoFailureView>),
    Text(Result<Seq<char>, IoFailureView>),
    Entries(Result<Seq<Seq<char>>, IoFailureView>),
}

impl View for Event {
    type V = EventView;

    open spec fn view(&self) -> EventView {
        match self {
            Event::Begin => EventView::Begin,
            Event::Command(outcome) => EventView::Command(outcome@),
            Event::Exists(found) => EventView::Exists(*found),
            Event::Io(Ok(_)) => EventView::Io(Ok(())),
            Event::Io(Err(failure)) => EventView::Io(Err(failure@)),
            Event::Text(Ok(text)) => EventView::Text(Ok(text@)),
            Event::Text(Err(failure)) => EventView::Text(Err(failure@)),
            Event::Entries(Ok(names)) => EventView::Entries(Ok(names.deep_view())),
            Event::Entries(Err(failure)) => EventView::Entries(Err(failure@)),
        }
    }
}

/// What an operation asks for next, or how it ended.
#[derive(Clone, Debug, PartialEq, Eq)]
pub enum Action {
    /// Run the command and report its outcome with [`Event::Command`].
    Run(CommandLine),
    /// Report with [`Event::Exists`] whether something is at the path.
    PathExists(String),
    /// Create the directory and those above it; report with [`Event::Io`].
    CreateDirAll(String),
    /// Read the file as text; report with [`Event::Text`].
    ReadToString(String),
    /// Write `content` to the file at `path`, replacing what is there;
    /// report with [`Event::Io`].
    WriteFile { path: String, content: String },
    /// Remove the file; report with [`Event::Io`].
    RemoveFile(String),
    /// Read the names of the entries of the directory; report with
    /// [`Event::Entries`].
    ReadDir(String),
    /// The operation succeeded. Where it produced a file, this is its path.
    Complete(Option<String>),
    /// The operation failed.
    Fail(ManagerError),
}

/// The mathematical content of an [`Action`].
pub enum ActionView {
    Run(CommandLineView),
    PathExists(Seq<char>),
    CreateDirAll(Seq<char>),
    ReadToString(Seq<char>),
    WriteFile { path: Seq<char>, content: Seq<char> },
    RemoveFile(Seq<char>),
    ReadDir(Seq<char>),
    Complete(Option<Seq<char>>),
    Fail(ErrorView),
}

impl View for Action {
    type V = ActionView;

    open spec fn view(&self) -> ActionView {
        match self {
            Action::Run(line) => ActionView::Run(line@),
            Action::PathExists(path) => ActionView::PathExists(path@),
            Action::CreateDirAll(path) => ActionView::CreateDirAll(path@),
            Action::ReadToString(path) => ActionView::ReadToString(path@),
            Action::WriteFile { path, content } => ActionView::WriteFile {
                path: path@,
                content: content@,
            },
            Action::RemoveFile(path) => ActionView::RemoveFile(path@),
            Action::ReadDir(path) => ActionView::ReadDir(path@),
            Action::Complete(Some(path)) => ActionView::Complete(Some(path@)),
            Action::Complete(None) => ActionView::Complete(None),
            Action::Fail(e) => ActionView::Fail(e@),
        }
    }
}

impl ActionView {
    /// Whether the operation has ended with this action.
    pub open spec fn is_final(self) -> bool {
        self is Complete || self is Fail
    }
}

impl Action {
    /// Whether the operation has ended with this action.
    pub fn is_final(&self) -> (ended: bool)
        ensures
            ended == self@.is_final(),
    {
        match self {
            Action::Complete(_) => true,
            Action::Fail(_) => true,
            _ => false,
        }
    }
}

/// What a command that was run for its output yields: its standard output
/// where it succeeded, its standard error as a failure where it did not.
pub open spec fn output_of(outcome: CommandOutcomeView) -> Result<Seq<char>, ErrorView> {
    match outcome {
        CommandOutcomeView::NotStarted { reason } => Err(
            ErrorView::IoError(IoFailureView { kind: IoErrorKind::Other, message: reason }),
        ),
        CommandOutcomeView::Exited { success, stdout, stderr } => if success {
            Ok(stdout)
        } else {
            Err(ErrorView::CommandFailed(stderr))
        },
    }
}

/// What a command that was run for its output yields.
pub fn command_output(outcome: &CommandOutcome) -> (r: ManagerResult<String>)
    ensures
        crate::errors::text_view(r) == output_of(outcome@),
{
    match outcome {
        CommandOutcome::NotStarted { reason } => Err(
            ManagerError::IoError(IoFailure { kind: IoErrorKind::Other, message: reason.clone() }),
        ),
        CommandOutcome::Exited { success, stdout, stderr } => if *success {
            Ok(stdout.clone())
        } else {
            Err(ManagerError::CommandFailed(stderr.clone()))
        },
    }
}

/// Each of `rows` with `prefix` before it.
pub open spec fn prefixed(prefix: Seq<char>, rows: Seq<Seq<char>>) -> Seq<Seq<char>> {
    Seq::new(rows.len(), |i: int| prefix + rows[i])
}

/// The lines of `output`, each with `prefix` before it, a line feed between
/// each two.
pub open spec fn prefixed_output(prefix: Seq<char>, output: Seq<char>) -> Seq<char> {
    joined(prefixed(prefix, lines_of(output)), "\n"@)
}

/// The output of a sub-command as it is shown: every line behind `prefix`.
pub fn prefix_lines(prefix: &str, output: &str) -> (text: String)
    ensures
        text@ == prefixed_output(prefix@, output@),
{
    let rows = lines(output);
    let mut shown: Vec<String> = Vec::new();
    let mut i: usize = 0;
    while i < rows.len()
        invariant
            i <= rows.len(),
            shown.deep_view() == prefixed(prefix@, rows.deep_view().take(i as int)),
        decreases rows.len() - i,
    {
        let mut row = String::from_str(prefix);
        row.append(rows[i].as_str());
        let ghost before = shown.deep_view();
        shown.push(row);
        assert(shown.deep_view() =~= before.push(prefix@ + rows@[i as int]@));
        i += 1;
    }
    assert(rows.deep_view().take(rows.len() as int) =~= rows.deep_view());
    join(&shown, "\n")
}

/// Why a command that was run for its effect counts as failed, if it does:
/// it could not be started, or it ended with a failure status. The error
/// carries `not_started` and the reason, or `failed` and the standard error.
pub open spec fn command_failure(
    outcome: CommandOutcomeView,
    not_started: Seq<char>,
    failed: Seq<char>,
) -> Option<ErrorView> {
    match outcome {
        CommandOutcomeView::NotStarted { reason } => Some(
            ErrorView::CommandFailed(not_started + reason),
        ),
        CommandOutcomeView::Exited { success, stdout, stderr } => if success {
            None
        } else {
            Some(ErrorView::CommandFailed(failed + stderr))
        },
    }
}

/// The view of an optional error.
pub open spec fn opt_error_view(e: Option<ManagerError>) -> Option<ErrorView> {
    match e {
        Some(e) => Some(e@),
        None => None,
    }
}

/// Why a command that was run for its effect counts as failed, if it does.
pub fn check_command(outcome: &CommandOutcome, not_started: &str, failed: &str) -> (e: Option<
    ManagerError,
>)
    ensures
        opt_error_view(e) == command_failure(outcome@, not_started@, failed@),
{
    match outcome {
        CommandOutcome::NotStarted { reason } => Some(
            ManagerError::CommandFailed(crate::errors::describe(not_started, reason.as_str())),
        ),
        CommandOutcome::Exited { success, stdout, stderr } => if *success {
            None
        } else {
            Some(ManagerError::CommandFailed(crate::errors::describe(failed, stderr.as_str())))
        },
    }
}

} // verus!
