//! Publishing: each artifact is taken from the cache, reversioned where its
//! version changes, and published.

use vstd::prelude::*;
use crate::artifacts::{
    Artifact, artifacts_named, get_artifact_with_suffix, list_items, package_name_of,
    parse_artifact_list, parse_string_list,
};
use crate::text::opt_text;
use crate::cli::PublishArgs;
use crate::artifacts::{get_repo, get_suffix, registry_of, suffix_of};
use crate::commands::{
    Job, jobs_for, JobView, Operation, OperationView, PackageSource, PackageSourceView, plan_jobs,
    push_operation, Selection,
};
use crate::debian_publish::{DebianPublishConfig, DebianPublishConfigView};
use crate::docker_promote::{DockerPromoteConfig, DockerPromoteConfigView};
use crate::text::{as_text, opt_view};
use crate::verification::{
    DebianVerifyConfig, DebianVerifyConfigView, DockerVerifyConfig, DockerVerifyConfigView,
};
use crate::errors::{ErrorView, IoErrorKind, IoFailureView, ManagerError, ManagerResult};
use crate::paths::{join_path, joined_path};
use crate::text::{ends_with, has_prefix, has_suffix, starts_with, str_eq};
use crate::utils::{
    first_missing, is_backend, lemma_first_missing_push, require_arg, validate_backend,
};

verus! {

/// The arguments that publishing cannot do without, each with its value.
pub open spec fn required(args: PublishArgs) -> Seq<(Seq<char>, Option<Seq<char>>)> {
    seq![
        ("target-version"@, Some(args.target_version@)),
        ("source-version"@, Some(args.source_version@)),
        ("buildkite-build-id"@, Some(args.buildkite_build_id@)),
        ("channel"@, Some(args.channel@)),
    ]
}

/// What is wrong with the arguments, if anything: a required argument is
/// missing, or the store is not one that is supported.
pub open spec fn args_error(args: PublishArgs) -> Option<ErrorView> {
    match first_missing(required(args)) {
        Some(e) => Some(e),
        None => if is_backend(args.backend@) {
            None
        } else {
            Some(ErrorView::UnsupportedBackend(args.backend@))
        },
    }
}

/// Which kinds of artifact are published.
pub open spec fn selection(args: PublishArgs) -> Selection {
    Selection { only_dockers: args.only_dockers, only_debians: args.only_debians }
}

/// What publishing amounts to: the error of the arguments or of the list of
/// artifacts, or else the jobs in order.
pub open spec fn planned(args: PublishArgs) -> Result<Seq<JobView>, ErrorView> {
    match args_error(args) {
        Some(e) => Err(e),
        None => match artifacts_named(list_items(args.artifacts@)) {
            Err(e) => Err(e),
            Ok(artifacts) => Ok(
                jobs_for(
                    artifacts,
                    list_items(args.codenames@),
                    list_items(args.networks@),
                    selection(args),
                ),
            ),
        },
    }
}

/// A list of jobs with its error taken by its view.
pub open spec fn jobs_view(r: ManagerResult<Vec<Job>>) -> Result<Seq<JobView>, ErrorView> {
    match r {
        Ok(jobs) => Ok(jobs.deep_view()),
        Err(e) => Err(e@),
    }
}

/// Checks the arguments of publishing before anything is done.
pub fn check_args(args: &PublishArgs) -> (e: Option<ManagerError>)
    ensures
        crate::process::opt_error_view(e) == args_error(*args),
{
    let ghost a0 = Seq::<(Seq<char>, Option<Seq<char>>)>::empty();
    let ghost a1 = a0.push(("target-version"@, Some(args.target_version@)));
    let ghost a2 = a1.push(("source-version"@, Some(args.source_version@)));
    let ghost a3 = a2.push(("buildkite-build-id"@, Some(args.buildkite_build_id@)));
    let ghost a4 = a3.push(("channel"@, Some(args.channel@)));
    proof {
        assert(a4 =~= required(*args));
        lemma_first_missing_push(a1, "source-version"@, Some(args.source_version@));
        lemma_first_missing_push(a2, "buildkite-build-id"@, Some(args.buildkite_build_id@));
        lemma_first_missing_push(a3, "channel"@, Some(args.channel@));
    }
    match require_arg("target-version", Some(args.target_version.as_str())) {
        Some(e) => {
            return Some(e);
        },
        None => {},
    }
    match require_arg("source-version", Some(args.source_version.as_str())) {
        Some(e) => {
            return Some(e);
        },
        None => {},
    }
    match require_arg("buildkite-build-id", Some(args.buildkite_build_id.as_str())) {
        Some(e) => {
            return Some(e);
        },
        None => {},
    }
    match require_arg("channel", Some(args.channel.as_str())) {
        Some(e) => {
            return Some(e);
        },
        None => {},
    }
    match validate_backend(args.backend.as_str()) {
        Err(e) => Some(e),
        Ok(_) => None,
    }
}

/// The jobs of publishing, in the order in which they are done; or the
/// error that keeps anything from being done.
pub fn plan(args: &PublishArgs) -> (r: ManagerResult<Vec<Job>>)
    ensures
        jobs_view(r) == planned(*args),
{
    match check_args(args) {
        Some(e) => {
            return Err(e);
        },
        None => {},
    }
    let artifacts = match parse_artifact_list(args.artifacts.as_str()) {
        Err(e) => {
            return Err(e);
        },
        Ok(artifacts) => artifacts,
    };
    let networks = parse_string_list(args.networks.as_str());
    let codenames = parse_string_list(args.codenames.as_str());
    Ok(
        plan_jobs(
            &artifacts,
            &codenames,
            &networks,
            Selection { only_dockers: args.only_dockers, only_debians: args.only_debians },
        ),
    )
}

/// The name under which a package is published: that of the package, but
/// for the archive where its network is to be stripped.
pub open spec fn published_name_of(
    strip_network_from_archive: bool,
    artifact: Artifact,
    network: Option<Seq<char>>,
) -> Seq<char> {
    if artifact == Artifact::MinaArchive && network is Some && strip_network_from_archive {
        "mina-archive"@
    } else {
        package_name_of(artifact.name(), network)
    }
}

/// The name under which the package of `artifact` is published.
pub fn published_name(args: &PublishArgs, artifact: Artifact, network: Option<&str>) -> (name:
    String)
    ensures
        name@ == published_name_of(args.strip_network_from_archive, artifact, opt_text(network)),
{
    let strip = match (artifact, network) {
        (Artifact::MinaArchive, Some(_)) => args.strip_network_from_archive,
        _ => false,
    };
    if strip {
        String::from_str("mina-archive")
    } else {
        get_artifact_with_suffix(artifact.as_str(), network)
    }
}

/// Whether a package must be reversioned before it is published: that is
/// where the version that it gets is not the one that it has.
pub fn needs_reversion(source_version: &str, target_version: &str) -> (needed: bool)
    ensures
        needed == (source_version@ != target_version@),
{
    !str_eq(source_version, target_version)
}

/// Whether a file of this name holds the package called `package`: the
/// name begins with the package name and an underscore, and ends in `.deb`.
pub open spec fn is_package_file(name: Seq<char>, package: Seq<char>) -> bool {
    has_prefix(name, package + "_"@) && has_suffix(name, ".deb"@)
}

/// The first of `names` that is a file of the package, where there is one.
pub open spec fn first_package_file(names: Seq<Seq<char>>, package: Seq<char>) -> Option<
    Seq<char>,
>
    decreases names.len(),
{
    if names.len() == 0 {
        None
    } else if is_package_file(names[0], package) {
        Some(names[0])
    } else {
        first_package_file(names.drop_first(), package)
    }
}

/// The first of `names` that is a file of the package called `package`.
pub fn find_package_file(names: &Vec<String>, package: &str) -> (found: Option<String>)
    ensures
        crate::text::opt_view(found) == first_package_file(names.deep_view(), package@),
{
    let prefix = crate::errors::describe(package, "_");
    let mut i: usize = 0;
    assert(names.deep_view().skip(0) =~= names.deep_view());
    while i < names.len()
        invariant
            i <= names.len(),
            prefix@ == package@ + "_"@,
            first_package_file(names.deep_view(), package@) == first_package_file(
                names.deep_view().skip(i as int),
                package@,
            ),
        decreases names.len() - i,
    {
        let ghost rest = names.deep_view().skip(i as int);
        assert(rest.drop_first() =~= names.deep_view().skip(i + 1));
        if starts_with(names[i].as_str(), prefix.as_str()) && ends_with(names[i].as_str(), ".deb") {
            return Some(names[i].clone());
        }
        i += 1;
    }
    None
}

/// The error of a cache that holds no file of the package.
pub fn missing_package(package: &str, directory: &str) -> (e: ManagerError)
    ensures
        e@ == ErrorView::IoError(
            IoFailureView {
                kind: IoErrorKind::NotFound,
                message: "Could not find .deb file matching pattern: "@ + package@ + "_*.deb in "@
                    + directory@,
            },
        ),
{
    let mut message = String::from_str("Could not find .deb file matching pattern: ");
    message.append(package);
    message.append("_*.deb in ");
    message.append(directory);
    ManagerError::not_found(message)
}

/// The file name of a package: its name, an underscore, its version, and
/// `.deb`.
pub open spec fn package_file_name(name: Seq<char>, version: Seq<char>) -> Seq<char> {
    name + "_"@ + version + ".deb"@
}

/// Where in the cache the package lies that is published.
pub fn package_path(cache_folder: &str, codename: &str, name: &str, version: &str) -> (path:
    String)
    ensures
        path@ == joined_path(
            joined_path(cache_folder@, codename@),
            package_file_name(name@, version@),
        ),
{
    let mut file = String::from_str(name);
    file.append("_");
    file.append(version);
    file.append(".deb");
    let directory = join_path(cache_folder, codename);
    join_path(directory.as_str(), file.as_str())
}

/// The tag of an image: the version, the codename, and what the tag ends
/// in.
pub fn image_version(version: &str, codename: &str, suffix: &str) -> (tag: String)
    ensures
        tag@ == version@ + "-"@ + codename@ + suffix@,
{
    let mut tag = String::from_str(version);
    tag.append("-");
    tag.append(codename);
    tag.append(suffix);
    tag
}

/// The operations that publish one package. The cache is made to hold the
/// package. Where the version changes, the cached package is reversioned
/// from the unstable channel into the target channel, under the name that
/// it is published under. Unless the run is dry, the package is published,
/// and then verified where that is asked for.
pub open spec fn package_operations(
    args: PublishArgs,
    artifact: Artifact,
    codename: Seq<char>,
    network: Option<Seq<char>>,
    cache_folder: Seq<char>,
) -> Seq<OperationView> {
    let package = package_name_of(artifact.name(), network);
    let name = published_name_of(args.strip_network_from_archive, artifact, network);
    seq![
        OperationView::Cache {
            artifact: artifact.name(),
            codename,
            network,
            build_id: args.buildkite_build_id@,
            cache_folder,
        },
    ] + (if args.source_version@ != args.target_version@ {
        seq![
            OperationView::Reversion {
                source: PackageSourceView::In {
                    directory: joined_path(cache_folder, codename),
                    package,
                },
                package_name: package,
                source_version: args.source_version@,
                new_version: args.target_version@,
                suite: "unstable"@,
                new_suite: args.channel@,
                new_name: Some(name),
            },
        ]
    } else {
        Seq::empty()
    }) + crate::commands::one_then_other(
        !args.dry_run,
        OperationView::Publish(
            DebianPublishConfigView {
                package_path: joined_path(
                    joined_path(cache_folder, codename),
                    package_file_name(name, args.target_version@),
                ),
                version: args.target_version@,
                bucket: args.debian_repo@,
                codename,
                release: args.channel@,
                sign_key: opt_view(args.debian_sign_key),
                debug: args.debug,
            },
        ),
        args.verify,
        OperationView::VerifyPackage(
            DebianVerifyConfigView {
                package: name,
                version: args.target_version@,
                repo: args.debian_repo@,
                codename,
                channel: args.channel@,
                signed: args.debian_sign_key is Some,
            },
        ),
    )
}

/// The operations that publish one image. Unless the run is dry, the image
/// is promoted from the tag of the source version to the tag of the target
/// version, and then verified where that is asked for.
pub open spec fn image_operations(
    args: PublishArgs,
    artifact: Artifact,
    codename: Seq<char>,
    network: Seq<char>,
) -> Seq<OperationView> {
    let suffix = suffix_of(artifact.name(), Some(network));
    crate::commands::one_then_other(
        !args.dry_run,
        OperationView::PromoteImage(
            DockerPromoteConfigView {
                name: artifact.name(),
                source_version: args.source_version@ + "-"@ + codename + suffix,
                target_version: args.target_version@ + "-"@ + codename + suffix,
                publish_to_docker_io: args.publish_to_docker_io,
                quiet: false,
            },
        ),
        args.verify,
        OperationView::VerifyImage(
            DockerVerifyConfigView {
                package: artifact.name(),
                version: args.target_version@ + "-"@ + codename + suffix,
                repo: registry_of(args.publish_to_docker_io),
                codename,
                suffix,
            },
        ),
    )
}

/// The operations of one job of publishing.
pub open spec fn job_operations(args: PublishArgs, job: JobView, cache_folder: Seq<char>) -> Seq<
    OperationView,
> {
    match job {
        JobView::Package { artifact, codename, network } => package_operations(
            args,
            artifact,
            codename,
            network,
            cache_folder,
        ),
        JobView::Image { artifact, codename, network } => image_operations(
            args,
            artifact,
            codename,
            network,
        ),
        JobView::NoImage { .. } => Seq::empty(),
    }
}

/// The operations of one job of publishing, in the order in which they are
/// carried out. `cache_folder` is where downloaded packages are kept.
pub fn operations(args: &PublishArgs, job: &Job, cache_folder: &str) -> (planned: Vec<Operation>)
    ensures
        planned.deep_view() == job_operations(*args, job.deep_view(), cache_folder@),
{
    let mut planned: Vec<Operation> = Vec::new();
    match job {
        Job::Package { artifact, codename, network } => {
            let package = get_artifact_with_suffix(artifact.as_str(), as_text(network));
            let name = published_name(args, *artifact, as_text(network));
            push_operation(
                &mut planned,
                Operation::Cache {
                    artifact: String::from_str(artifact.as_str()),
                    codename: codename.clone(),
                    network: network.clone(),
                    build_id: args.buildkite_build_id.clone(),
                    cache_folder: String::from_str(cache_folder),
                },
            );
            if needs_reversion(args.source_version.as_str(), args.target_version.as_str()) {
                push_operation(
                    &mut planned,
                    Operation::Reversion {
                        source: PackageSource::In {
                            directory: join_path(cache_folder, codename.as_str()),
                            package: package.clone(),
                        },
                        package_name: package.clone(),
                        source_version: args.source_version.clone(),
                        new_version: args.target_version.clone(),
                        suite: String::from_str("unstable"),
                        new_suite: args.channel.clone(),
                        new_name: Some(name.clone()),
                    },
                );
            }
            if !args.dry_run {
                push_operation(
                    &mut planned,
                    Operation::Publish(
                        DebianPublishConfig {
                            package_path: package_path(
                                cache_folder,
                                codename.as_str(),
                                name.as_str(),
                                args.target_version.as_str(),
                            ),
                            version: args.target_version.clone(),
                            bucket: args.debian_repo.clone(),
                            codename: codename.clone(),
                            release: args.channel.clone(),
                            sign_key: args.debian_sign_key.clone(),
                            debug: args.debug,
                        },
                    ),
                );
                if args.verify {
                    push_operation(
                        &mut planned,
                        Operation::VerifyPackage(
                            DebianVerifyConfig {
                                package: name.clone(),
                                version: args.target_version.clone(),
                                repo: args.debian_repo.clone(),
                                codename: codename.clone(),
                                channel: args.channel.clone(),
                                signed: args.debian_sign_key.is_some(),
                            },
                        ),
                    );
                }
            }
        },
        Job::Image { artifact, codename, network } => {
            if !args.dry_run {
                let suffix = get_suffix(artifact.as_str(), Some(network.as_str()));
                push_operation(
                    &mut planned,
                    Operation::PromoteImage(
                        DockerPromoteConfig {
                            name: String::from_str(artifact.as_str()),
                            source_version: image_version(
                                args.source_version.as_str(),
                                codename.as_str(),
                                suffix.as_str(),
                            ),
                            target_version: image_version(
                                args.target_version.as_str(),
                                codename.as_str(),
                                suffix.as_str(),
                            ),
                            publish_to_docker_io: args.publish_to_docker_io,
                            quiet: false,
                        },
                    ),
                );
                if args.verify {
                    push_operation(
                        &mut planned,
                        Operation::VerifyImage(
                            DockerVerifyConfig {
                                package: String::from_str(artifact.as_str()),
                                version: image_version(
                                    args.target_version.as_str(),
                                    codename.as_str(),
                                    suffix.as_str(),
                                ),
                                repo: String::from_str(get_repo(args.publish_to_docker_io)),
                                codename: codename.clone(),
                                suffix,
                            },
                        ),
                    );
                }
            }
        },
        Job::NoImage { .. } => {},
    }
    planned
}

} // verus!
