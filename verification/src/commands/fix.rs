//! Repair: the manifests of the repository are rebuilt, codename by
//! codename.

use vstd::prelude::*;
use crate::artifacts::{list_items, parse_string_list};
use crate::cli::FixArgs;
use crate::errors::{ErrorView, IoErrorKind, IoFailure, ManagerError, ManagerResult, unit_view};
use crate::process::{
    command, CommandLine, CommandLineView, CommandOutcome, CommandOutcomeView, output_of,
};

verus! {

/// The command that rebuilds the manifests of one codename in a channel.
pub open spec fn fix_command(codename: Seq<char>, channel: Seq<char>) -> CommandLineView {
    command("deb-s3"@).arg("verify"@).arg("--fix-manifests"@).arg(
        "--bucket=packages.o1test.net"@,
    ).arg("--s3-region=us-west-2"@).arg("--codename="@ + codename).arg("--component="@ + channel)
}

/// The commands of a repair: one for each codename, in order.
pub open spec fn fix_commands(args: FixArgs) -> Seq<CommandLineView> {
    let codenames = list_items(args.codenames@);
    Seq::new(codenames.len(), |i: int| fix_command(codenames[i], args.channel@))
}

/// The views of a list of commands.
pub open spec fn lines_view(lines: Seq<CommandLine>) -> Seq<CommandLineView> {
    Seq::new(lines.len(), |i: int| lines[i]@)
}

/// The commands of a repair, in the order in which they are run.
pub fn plan(args: &FixArgs) -> (lines: Vec<CommandLine>)
    ensures
        lines_view(lines@) == fix_commands(*args),
{
    let codenames = parse_string_list(args.codenames.as_str());
    let mut lines: Vec<CommandLine> = Vec::new();
    let mut i: usize = 0;
    while i < codenames.len()
        invariant
            i <= codenames.len(),
            codenames.deep_view() == list_items(args.codenames@),
            lines@.len() == i,
            forall|k: int|
                0 <= k < i ==> (#[trigger] lines@[k])@ == fix_command(
                    codenames.deep_view()[k],
                    args.channel@,
                ),
        decreases codenames.len() - i,
    {
        let codename = crate::errors::describe("--codename=", codenames[i].as_str());
        let component = crate::errors::describe("--component=", args.channel.as_str());
        lines.push(
            CommandLine::new("deb-s3").arg("verify").arg("--fix-manifests").arg(
                "--bucket=packages.o1test.net",
            ).arg("--s3-region=us-west-2").arg(codename.as_str()).arg(component.as_str()),
        );
        i += 1;
    }
    lines
}

/// What the outcome of one command of a repair means for the repair. Where
/// commands are shown, a command that fails ends the repair. Otherwise only
/// a command that could not be started does; one that ran and failed is
/// reported, and the repair goes on.
pub open spec fn fix_result(debug: bool, outcome: CommandOutcomeView) -> Result<(), ErrorView> {
    match output_of(outcome) {
        Ok(_) => Ok(()),
        Err(e) => if debug || outcome is NotStarted {
            Err(e)
        } else {
            Ok(())
        },
    }
}

/// What the outcome of one command of a repair means for the repair.
pub fn check_outcome(debug: bool, outcome: &CommandOutcome) -> (r: ManagerResult<()>)
    ensures
        unit_view(r) == fix_result(debug, outcome@),
{
    match outcome {
        CommandOutcome::NotStarted { reason } => Err(
            ManagerError::IoError(IoFailure { kind: IoErrorKind::Other, message: reason.clone() }),
        ),
        CommandOutcome::Exited { success, stdout, stderr } => if !*success && debug {
            Err(ManagerError::CommandFailed(stderr.clone()))
        } else {
            Ok(())
        },
    }
}

} // verus!
