//! Verification: each package is installed from the repository, and each
//! image is run.

use vstd::prelude::*;
use crate::artifacts::{artifacts_named, list_items, parse_artifact_list, parse_string_list};
use crate::cli::VerifyArgs;
use crate::commands::publish::jobs_view;
use crate::artifacts::{
    combine_docker_suffixes, get_artifact_with_suffix, get_repo, package_name_of, registry_of,
};
use crate::commands::{
    Job, jobs_for, JobView, Operation, OperationView, plan_jobs, push_operation, Selection,
};
use crate::text::{as_text, opt_view};
use crate::verification::{
    DebianVerifyConfig, DebianVerifyConfigView, DockerVerifyConfig, DockerVerifyConfigView,
};
use crate::errors::{ErrorView, ManagerResult};

verus! {

/// What a verification amounts to: the error of the list of artifacts, or
/// else the jobs in order.
pub open spec fn planned(args: VerifyArgs) -> Result<Seq<JobView>, ErrorView> {
    match artifacts_named(list_items(args.artifacts@)) {
        Err(e) => Err(e),
        Ok(artifacts) => Ok(
            jobs_for(
                artifacts,
                list_items(args.codenames@),
                list_items(args.networks@),
                Selection { only_dockers: args.only_dockers, only_debians: args.only_debians },
            ),
        ),
    }
}

/// The jobs of a verification, in the order in which they are done; or the
/// error that keeps anything from being done.
pub fn plan(args: &VerifyArgs) -> (r: ManagerResult<Vec<Job>>)
    ensures
        jobs_view(r) == planned(*args),
{
    let artifacts = match parse_artifact_list(args.artifacts.as_str()) {
        Err(e) => {
            return Err(e);
        },
        Ok(artifacts) => artifacts,
    };
    let networks = parse_string_list(args.networks.as_str());
    let codenames = parse_string_list(args.codenames.as_str());
    Ok(
        plan_jobs(
            &artifacts,
            &codenames,
            &networks,
            Selection { only_dockers: args.only_dockers, only_debians: args.only_debians },
        ),
    )
}

/// The operations of one job of a verification: the package is verified
/// under its name for the network, and the image with a tag that ends in
/// the network and the suffix that was given.
pub open spec fn job_operations(args: VerifyArgs, job: JobView) -> Seq<OperationView> {
    match job {
        JobView::Package { artifact, codename, network } => seq![
            OperationView::VerifyPackage(
                DebianVerifyConfigView {
                    package: package_name_of(artifact.name(), network),
                    version: args.version@,
                    repo: args.debian_repo@,
                    codename,
                    channel: args.channel@,
                    signed: args.signed_debian_repo,
                },
            ),
        ],
        JobView::Image { artifact, codename, network } => seq![
            OperationView::VerifyImage(
                DockerVerifyConfigView {
                    package: artifact.name(),
                    version: args.version@,
                    repo: registry_of(args.docker_io),
                    codename,
                    suffix: match opt_view(args.docker_suffix) {
                        Some(extra) => "-"@ + network + "-"@ + extra,
                        None => "-"@ + network,
                    },
                },
            ),
        ],
        JobView::NoImage { .. } => Seq::empty(),
    }
}

/// The operations of one job of a verification.
pub fn operations(args: &VerifyArgs, job: &Job) -> (planned: Vec<Operation>)
    ensures
        planned.deep_view() == job_operations(*args, job.deep_view()),
{
    let mut planned: Vec<Operation> = Vec::new();
    match job {
        Job::Package { artifact, codename, network } => {
            push_operation(
                &mut planned,
                Operation::VerifyPackage(
                    DebianVerifyConfig {
                        package: get_artifact_with_suffix(artifact.as_str(), as_text(network)),
                        version: args.version.clone(),
                        repo: args.debian_repo.clone(),
                        codename: codename.clone(),
                        channel: args.channel.clone(),
                        signed: args.signed_debian_repo,
                    },
                ),
            );
        },
        Job::Image { artifact, codename, network } => {
            push_operation(
                &mut planned,
                Operation::VerifyImage(
                    DockerVerifyConfig {
                        package: String::from_str(artifact.as_str()),
                        version: args.version.clone(),
                        repo: String::from_str(get_repo(args.docker_io)),
                        codename: codename.clone(),
                        suffix: combine_docker_suffixes(
                            network.as_str(),
                            as_text(&args.docker_suffix),
                        ),
                    },
                ),
            );
        },
        Job::NoImage { .. } => {},
    }
    planned
}

} // verus!
