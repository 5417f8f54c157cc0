//! Promotion: each package is reversioned into the target channel, and each
//! image is promoted to the target tag.

use vstd::prelude::*;
use crate::artifacts::{artifacts_named, list_items, parse_artifact_list, parse_string_list};
use crate::cli::PromoteArgs;
use crate::commands::publish::jobs_view;
use crate::artifacts::{
    Artifact, get_artifact_with_suffix, get_repo, get_suffix, package_name_of, registry_of,
    suffix_of,
};
use crate::commands::publish::image_version;
use crate::commands::{
    Job, jobs_for, JobView, one_then_other, Operation, OperationView, PackageSource,
    PackageSourceView, plan_jobs, push_operation, Selection,
};
use crate::docker_promote::{DockerPromoteConfig, DockerPromoteConfigView};
use crate::storage::or_default;
use crate::verification::{
    DebianVerifyConfig, DebianVerifyConfigView, DockerVerifyConfig, DockerVerifyConfigView,
};
use crate::errors::{ErrorView, ManagerError, ManagerResult};
use crate::paths::{join_path, joined_path};
use crate::text::{as_text, opt_view};
use crate::utils::{first_missing, lemma_first_missing_push, require_arg};

verus! {

/// The versions, which a promotion cannot do without.
pub open spec fn required_versions(args: PromoteArgs) -> Seq<(Seq<char>, Option<Seq<char>>)> {
    seq![
        ("target-version"@, Some(args.target_version@)),
        ("source-version"@, Some(args.source_version@)),
    ]
}

/// The channels, which a promotion of packages cannot do without.
pub open spec fn required_channels(args: PromoteArgs) -> Seq<(Seq<char>, Option<Seq<char>>)> {
    seq![
        ("source-channel"@, opt_view(args.source_channel)),
        ("target-channel"@, opt_view(args.target_channel)),
    ]
}

/// What is wrong with the arguments, if anything: a version is missing, or
/// packages are promoted and a channel is missing.
pub open spec fn args_error(args: PromoteArgs) -> Option<ErrorView> {
    match first_missing(required_versions(args)) {
        Some(e) => Some(e),
        None => if args.only_dockers {
            None
        } else {
            first_missing(required_channels(args))
        },
    }
}

/// What a promotion amounts to: the error of the arguments or of the list
/// of artifacts, or else the jobs in order.
pub open spec fn planned(args: PromoteArgs) -> Result<Seq<JobView>, ErrorView> {
    match args_error(args) {
        Some(e) => Err(e),
        None => match artifacts_named(list_items(args.artifacts@)) {
            Err(e) => Err(e),
            Ok(artifacts) => Ok(
                jobs_for(
                    artifacts,
                    list_items(args.codenames@),
                    list_items(args.networks@),
                    Selection { only_dockers: args.only_dockers, only_debians: args.only_debians },
                ),
            ),
        },
    }
}

/// Checks the arguments of a promotion before anything is done.
pub fn check_args(args: &PromoteArgs) -> (e: Option<ManagerError>)
    ensures
        crate::process::opt_error_view(e) == args_error(*args),
{
    let ghost none = Seq::<(Seq<char>, Option<Seq<char>>)>::empty();
    let ghost v1 = none.push(("target-version"@, Some(args.target_version@)));
    let ghost v2 = v1.push(("source-version"@, Some(args.source_version@)));
    let ghost c1 = none.push(("source-channel"@, opt_view(args.source_channel)));
    let ghost c2 = c1.push(("target-channel"@, opt_view(args.target_channel)));
    proof {
        assert(v2 =~= required_versions(*args));
        assert(c2 =~= required_channels(*args));
        lemma_first_missing_push(v1, "source-version"@, Some(args.source_version@));
        lemma_first_missing_push(c1, "target-channel"@, opt_view(args.target_channel));
    }
    match require_arg("target-version", Some(args.target_version.as_str())) {
        Some(e) => {
            return Some(e);
        },
        None => {},
    }
    match require_arg("source-version", Some(args.source_version.as_str())) {
        Some(e) => {
            return Some(e);
        },
        None => {},
    }
    if args.only_dockers {
        return None;
    }
    match require_arg("source-channel", as_text(&args.source_channel)) {
        Some(e) => {
            return Some(e);
        },
        None => {},
    }
    require_arg("target-channel", as_text(&args.target_channel))
}

/// The jobs of a promotion, in the order in which they are done; or the
/// error that keeps anything from being done.
pub fn plan(args: &PromoteArgs) -> (r: ManagerResult<Vec<Job>>)
    ensures
        jobs_view(r) == planned(*args),
{
    match check_args(args) {
        Some(e) => {
            return Err(e);
        },
        None => {},
    }
    let artifacts = match parse_artifact_list(args.artifacts.as_str()) {
        Err(e) => {
            return Err(e);
        },
        Ok(artifacts) => artifacts,
    };
    let networks = parse_string_list(args.networks.as_str());
    let codenames = parse_string_list(args.codenames.as_str());
    Ok(
        plan_jobs(
            &artifacts,
            &codenames,
            &networks,
            Selection { only_dockers: args.only_dockers, only_debians: args.only_debians },
        ),
    )
}

/// Whether a promotion changes anything by its versions: where the source
/// and the target version are the same, only a move of images between
/// registries has an effect, and the operator is warned.
pub fn same_version(args: &PromoteArgs) -> (same: bool)
    ensures
        same == (args.source_version@ == args.target_version@),
{
    crate::text::str_eq(args.source_version.as_str(), args.target_version.as_str())
}

/// Where the package called `package` lies in the repository: under the
/// repository, in a file named after the package.
pub fn package_source(debian_repo: &str, package: &str) -> (path: String)
    ensures
        path@ == joined_path(debian_repo@, package@ + ".deb"@),
{
    let file = crate::errors::describe(package, ".deb");
    join_path(debian_repo, file.as_str())
}

/// The operations that promote one package. Unless the run is dry, the
/// package is reversioned from the source channel into the target channel
/// under its own name, and then verified where that is asked for.
pub open spec fn package_operations(
    args: PromoteArgs,
    artifact: Artifact,
    codename: Seq<char>,
    network: Option<Seq<char>>,
) -> Seq<OperationView> {
    let package = package_name_of(artifact.name(), network);
    let target_channel = or_default(opt_view(args.target_channel), Seq::empty());
    one_then_other(
        !args.dry_run,
        OperationView::Reversion {
            source: PackageSourceView::At(joined_path(args.debian_repo@, package + ".deb"@)),
            package_name: package,
            source_version: args.source_version@,
            new_version: args.target_version@,
            suite: or_default(opt_view(args.source_channel), Seq::empty()),
            new_suite: target_channel,
            new_name: Some(package),
        },
        args.verify,
        OperationView::VerifyPackage(
            DebianVerifyConfigView {
                package,
                version: args.target_version@,
                repo: args.debian_repo@,
                codename,
                channel: target_channel,
                signed: args.debian_sign_key is Some,
            },
        ),
    )
}

/// The operations that promote one image. Unless the run is dry, the image
/// is promoted from the tag of the source version to the tag of the target
/// version, and then verified where that is asked for.
pub open spec fn image_operations(
    args: PromoteArgs,
    artifact: Artifact,
    codename: Seq<char>,
    network: Seq<char>,
) -> Seq<OperationView> {
    let suffix = suffix_of(artifact.name(), Some(network));
    one_then_other(
        !args.dry_run,
        OperationView::PromoteImage(
            DockerPromoteConfigView {
                name: artifact.name(),
                source_version: args.source_version@ + "-"@ + codename + suffix,
                target_version: args.target_version@ + "-"@ + codename + suffix,
                publish_to_docker_io: args.publish_to_docker_io,
                quiet: true,
            },
        ),
        args.verify,
        OperationView::VerifyImage(
            DockerVerifyConfigView {
                package: artifact.name(),
                version: args.target_version@,
                repo: registry_of(args.publish_to_docker_io),
                codename,
                suffix,
            },
        ),
    )
}

/// The operations of one job of a promotion.
pub open spec fn job_operations(args: PromoteArgs, job: JobView) -> Seq<OperationView> {
    match job {
        JobView::Package { artifact, codename, network } => package_operations(
            args,
            artifact,
            codename,
            network,
        ),
        JobView::Image { artifact, codename, network } => image_operations(
            args,
            artifact,
            codename,
            network,
        ),
        JobView::NoImage { .. } => Seq::empty(),
    }
}

fn channel(value: &Option<String>) -> (name: String)
    ensures
        name@ == or_default(opt_view(*value), Seq::empty()),
{
    match value {
        Some(name) => name.clone(),
        None => String::new(),
    }
}

/// The operations of one job of a promotion, in the order in which they are
/// carried out.
pub fn operations(args: &PromoteArgs, job: &Job) -> (planned: Vec<Operation>)
    ensures
        planned.deep_view() == job_operations(*args, job.deep_view()),
{
    let mut planned: Vec<Operation> = Vec::new();
    match job {
        Job::Package { artifact, codename, network } => {
            if !args.dry_run {
                let package = get_artifact_with_suffix(artifact.as_str(), as_text(network));
                push_operation(
                    &mut planned,
                    Operation::Reversion {
                        source: PackageSource::At(
                            package_source(args.debian_repo.as_str(), package.as_str()),
                        ),
                        package_name: package.clone(),
                        source_version: args.source_version.clone(),
                        new_version: args.target_version.clone(),
                        suite: channel(&args.source_channel),
                        new_suite: channel(&args.target_channel),
                        new_name: Some(package.clone()),
                    },
                );
                if args.verify {
                    push_operation(
                        &mut planned,
                        Operation::VerifyPackage(
                            DebianVerifyConfig {
                                package,
                                version: args.target_version.clone(),
                                repo: args.debian_repo.clone(),
                                codename: codename.clone(),
                                channel: channel(&args.target_channel),
                                signed: args.debian_sign_key.is_some(),
                            },
                        ),
                    );
                }
            }
        },
        Job::Image { artifact, codename, network } => {
            if !args.dry_run {
                let suffix = get_suffix(artifact.as_str(), Some(network.as_str()));
                push_operation(
                    &mut planned,
                    Operation::PromoteImage(
                        DockerPromoteConfig {
                            name: String::from_str(artifact.as_str()),
                            source_version: image_version(
                                args.source_version.as_str(),
                                codename.as_str(),
                                suffix.as_str(),
                            ),
                            target_version: image_version(
                                args.target_version.as_str(),
                                codename.as_str(),
                                suffix.as_str(),
                            ),
                            publish_to_docker_io: args.publish_to_docker_io,
                            quiet: true,
                        },
                    ),
                );
                if args.verify {
                    push_operation(
                        &mut planned,
                        Operation::VerifyImage(
                            DockerVerifyConfig {
                                package: String::from_str(artifact.as_str()),
                                version: args.target_version.clone(),
                                repo: String::from_str(get_repo(args.publish_to_docker_io)),
                                codename: codename.clone(),
                                suffix,
                            },
                        ),
                    );
                }
            }
        },
        Job::NoImage { .. } => {},
    }
    planned
}

} // verus!
