//! Keeping: the packages of a build are copied into long-term storage, under
//! a new version where one is asked for.

use vstd::prelude::*;
use crate::cli::PersistArgs;
use crate::errors::ManagerError;
use crate::process::{command, CommandLine};
use crate::utils::{first_missing, lemma_first_missing_push, require_arg};

verus! {

/// The arguments that keeping cannot do without, each with its value.
pub open spec fn required(args: PersistArgs) -> Seq<(Seq<char>, Option<Seq<char>>)> {
    seq![
        ("buildkite-build-id"@, Some(args.buildkite_build_id@)),
        ("target"@, Some(args.target@)),
        ("codename"@, Some(args.codename@)),
        ("artifacts"@, Some(args.artifacts@)),
    ]
}

/// Checks the arguments of keeping before anything is done: the first
/// required argument that is empty is reported.
pub fn check_args(args: &PersistArgs) -> (e: Option<ManagerError>)
    ensures
        crate::process::opt_error_view(e) == first_missing(required(*args)),
{
    let ghost a0 = Seq::<(Seq<char>, Option<Seq<char>>)>::empty();
    let ghost a1 = a0.push(("buildkite-build-id"@, Some(args.buildkite_build_id@)));
    let ghost a2 = a1.push(("target"@, Some(args.target@)));
    let ghost a3 = a2.push(("codename"@, Some(args.codename@)));
    let ghost a4 = a3.push(("artifacts"@, Some(args.artifacts@)));
    proof {
        assert(a4 =~= required(*args));
        lemma_first_missing_push(a1, "target"@, Some(args.target@));
        lemma_first_missing_push(a2, "codename"@, Some(args.codename@));
        lemma_first_missing_push(a3, "artifacts"@, Some(args.artifacts@));
    }
    match require_arg("buildkite-build-id", Some(args.buildkite_build_id.as_str())) {
        Some(e) => {
            return Some(e);
        },
        None => {},
    }
    match require_arg("target", Some(args.target.as_str())) {
        Some(e) => {
            return Some(e);
        },
        None => {},
    }
    match require_arg("codename", Some(args.codename.as_str())) {
        Some(e) => {
            return Some(e);
        },
        None => {},
    }
    require_arg("artifacts", Some(args.artifacts.as_str()))
}

/// Where the store keeps the files of `artifact` from a build.
pub fn source_path(root: &str, build_id: &str, codename: &str, artifact: &str) -> (path: String)
    ensures
        path@ == root@ + "/"@ + build_id@ + "/debians/"@ + codename@ + "/"@ + artifact@ + "_*"@,
{
    let mut path = String::from_str(root);
    path.append("/");
    path.append(build_id);
    path.append("/debians/");
    path.append(codename);
    path.append("/");
    path.append(artifact);
    path.append("_*");
    path
}

/// Where the store keeps the packages that are kept under `target`.
pub fn target_path(root: &str, target: &str, codename: &str) -> (path: String)
    ensures
        path@ == root@ + "/"@ + target@ + "/debians/"@ + codename@ + "/"@,
{
    let mut path = String::from_str(root);
    path.append("/");
    path.append(target);
    path.append("/debians/");
    path.append(codename);
    path.append("/");
    path
}

/// The pattern of the local files of `artifact` that are uploaded.
pub fn local_pattern(directory: &str, artifact: &str) -> (pattern: String)
    ensures
        pattern@ == directory@ + "/*"@ + artifact@ + "*"@,
{
    let mut pattern = String::from_str(directory);
    pattern.append("/*");
    pattern.append(artifact);
    pattern.append("*");
    pattern
}

/// The command line that gives a package a new version.
pub open spec fn reversion_script(
    deb_path: Seq<char>,
    package: Seq<char>,
    source_version: Seq<char>,
    new_version: Seq<char>,
    suite: Seq<char>,
) -> Seq<char> {
    "reversion --deb "@ + deb_path + " --package "@ + package + " --source-version "@
        + source_version + " --new-version "@ + new_version + " --suite unstable --new-suite "@
        + suite + " --new-name "@ + package
}

/// The command that gives the package at `deb_path` a new version.
pub fn reversion_command(
    deb_path: &str,
    package: &str,
    source_version: &str,
    new_version: &str,
    suite: &str,
) -> (line: CommandLine)
    ensures
        line@ == command("bash"@).arg("-c"@).arg(
            reversion_script(deb_path@, package@, source_version@, new_version@, suite@),
        ),
{
    let mut script = String::from_str("reversion --deb ");
    script.append(deb_path);
    script.append(" --package ");
    script.append(package);
    script.append(" --source-version ");
    script.append(source_version);
    script.append(" --new-version ");
    script.append(new_version);
    script.append(" --suite unstable --new-suite ");
    script.append(suite);
    script.append(" --new-name ");
    script.append(package);
    CommandLine::new("bash").arg("-c").arg(script.as_str())
}

} // verus!
