//! What each command of the operator amounts to: which checks come first,
//! and which jobs are done in which order.

use vstd::prelude::*;
use crate::artifacts::Artifact;
use crate::debian_publish::{DebianPublishConfig, DebianPublishConfigView};
use crate::docker_promote::{DockerPromoteConfig, DockerPromoteConfigView};
use crate::commands::publish::{find_package_file, first_package_file, missing_package};
use crate::errors::{ErrorView, IoErrorKind, IoFailureView, ManagerResult, text_view};
use crate::paths::{join_path, joined_path};
use crate::text::opt_view;
use crate::verification::{
    DebianVerifyConfig, DebianVerifyConfigView, DockerVerifyConfig, DockerVerifyConfigView,
};

pub mod fix;
pub mod persist;
pub mod promote;
pub mod publish;
pub mod pull;
pub mod verify;

verus! {

/// One piece of work of a command: one artifact for one codename, and for
/// one network where the artifact is built per network.
#[derive(Clone, Debug, PartialEq, Eq)]
pub enum Job {
    /// The package of the artifact is worked on.
    Package { artifact: Artifact, codename: String, network: Option<String> },
    /// The image of the artifact is worked on.
    Image { artifact: Artifact, codename: String, network: String },
    /// The artifact has no image: the operator is told so, and nothing is
    /// done.
    NoImage { artifact: Artifact, codename: String },
}

/// The mathematical content of a [`Job`].
pub enum JobView {
    Package { artifact: Artifact, codename: Seq<char>, network: Option<Seq<char>> },
    Image { artifact: Artifact, codename: Seq<char>, network: Seq<char> },
    NoImage { artifact: Artifact, codename: Seq<char> },
}

impl DeepView for Job {
    type V = JobView;

    open spec fn deep_view(&self) -> JobView {
        match self {
            Job::Package { artifact, codename, network } => JobView::Package {
                artifact: *artifact,
                codename: codename@,
                network: match network {
                    Some(net) => Some(net@),
                    None => None,
                },
            },
            Job::Image { artifact, codename, network } => JobView::Image {
                artifact: *artifact,
                codename: codename@,
                network: network@,
            },
            Job::NoImage { artifact, codename } => JobView::NoImage {
                artifact: *artifact,
                codename: codename@,
            },
        }
    }
}

/// Which kinds of artifact a command works on.
#[derive(Clone, Copy, Debug, PartialEq, Eq, Structural)]
pub struct Selection {
    /// Packages are left out.
    pub only_dockers: bool,
    /// Images are left out.
    pub only_debians: bool,
}

/// The jobs for one artifact, codename and network: the package first, then
/// the image, each unless it is left out.
pub open spec fn jobs_for_network(
    artifact: Artifact,
    codename: Seq<char>,
    network: Seq<char>,
    selection: Selection,
) -> Seq<JobView> {
    (if selection.only_dockers {
        Seq::empty()
    } else {
        seq![JobView::Package { artifact, codename, network: Some(network) }]
    }) + (if selection.only_debians {
        Seq::empty()
    } else {
        seq![JobView::Image { artifact, codename, network }]
    })
}

/// The jobs for one artifact and codename on each of `networks`, in order.
pub open spec fn jobs_for_networks(
    artifact: Artifact,
    codename: Seq<char>,
    networks: Seq<Seq<char>>,
    selection: Selection,
) -> Seq<JobView>
    decreases networks.len(),
{
    if networks.len() == 0 {
        Seq::empty()
    } else {
        jobs_for_networks(artifact, codename, networks.drop_last(), selection) + jobs_for_network(
            artifact,
            codename,
            networks.last(),
            selection,
        )
    }
}

/// The jobs for one artifact and codename. The log processor is built once
/// and has no image; every other artifact is built for each network.
pub open spec fn jobs_for_codename(
    artifact: Artifact,
    codename: Seq<char>,
    networks: Seq<Seq<char>>,
    selection: Selection,
) -> Seq<JobView> {
    match artifact {
        Artifact::MinaLogproc => (if selection.only_dockers {
            Seq::empty()
        } else {
            seq![JobView::Package { artifact, codename, network: None }]
        }) + (if selection.only_debians {
            Seq::empty()
        } else {
            seq![JobView::NoImage { artifact, codename }]
        }),
        _ => jobs_for_networks(artifact, codename, networks, selection),
    }
}

/// The jobs for one artifact on each of `codenames`, in order.
pub open spec fn jobs_for_codenames(
    artifact: Artifact,
    codenames: Seq<Seq<char>>,
    networks: Seq<Seq<char>>,
    selection: Selection,
) -> Seq<JobView>
    decreases codenames.len(),
{
    if codenames.len() == 0 {
        Seq::empty()
    } else {
        jobs_for_codenames(artifact, codenames.drop_last(), networks, selection)
            + jobs_for_codename(artifact, codenames.last(), networks, selection)
    }
}

/// The jobs of a command: artifact by artifact, for each artifact codename
/// by codename, and for each codename network by network.
pub open spec fn jobs_for(
    artifacts: Seq<Artifact>,
    codenames: Seq<Seq<char>>,
    networks: Seq<Seq<char>>,
    selection: Selection,
) -> Seq<JobView>
    decreases artifacts.len(),
{
    if artifacts.len() == 0 {
        Seq::empty()
    } else {
        jobs_for(artifacts.drop_last(), codenames, networks, selection) + jobs_for_codenames(
            artifacts.last(),
            codenames,
            networks,
            selection,
        )
    }
}

/// Adds `job` at the end of `jobs`.
fn push_job(jobs: &mut Vec<Job>, job: Job)
    ensures
        final(jobs).deep_view() == old(jobs).deep_view().push(job.deep_view()),
{
    jobs.push(job);
}

fn add_network_jobs(
    jobs: &mut Vec<Job>,
    artifact: Artifact,
    codename: &str,
    network: &str,
    selection: Selection,
)
    ensures
        final(jobs).deep_view() == old(jobs).deep_view() + jobs_for_network(
            artifact,
            codename@,
            network@,
            selection,
        ),
{
    if !selection.only_dockers {
        push_job(
            jobs,
            Job::Package {
                artifact,
                codename: String::from_str(codename),
                network: Some(String::from_str(network)),
            },
        );
    }
    if !selection.only_debians {
        push_job(
            jobs,
            Job::Image {
                artifact,
                codename: String::from_str(codename),
                network: String::from_str(network),
            },
        );
    }
}

fn add_codename_jobs(
    jobs: &mut Vec<Job>,
    artifact: Artifact,
    codename: &str,
    networks: &Vec<String>,
    selection: Selection,
)
    ensures
        final(jobs).deep_view() == old(jobs).deep_view() + jobs_for_codename(
            artifact,
            codename@,
            networks.deep_view(),
            selection,
        ),
{
    let ghost before = jobs.deep_view();
    match artifact {
        Artifact::MinaLogproc => {
            if !selection.only_dockers {
                push_job(
                    jobs,
                    Job::Package { artifact, codename: String::from_str(codename), network: None },
                );
            }
            if !selection.only_debians {
                push_job(jobs, Job::NoImage { artifact, codename: String::from_str(codename) });
            }
        },
        _ => {
            let mut k: usize = 0;
            while k < networks.len()
                invariant
                    k <= networks.len(),
                    jobs.deep_view() == before + jobs_for_networks(
                        artifact,
                        codename@,
                        networks.deep_view().take(k as int),
                        selection,
                    ),
                decreases networks.len() - k,
            {
                let ghost seen = networks.deep_view().take(k as int);
                let ghost next = networks.deep_view().take(k + 1);
                assert(next.drop_last() =~= seen);
                add_network_jobs(jobs, artifact, codename, networks[k].as_str(), selection);
                k += 1;
            }
            assert(networks.deep_view().take(networks.len() as int) =~= networks.deep_view());
        },
    }
}

fn add_artifact_jobs(
    jobs: &mut Vec<Job>,
    artifact: Artifact,
    codenames: &Vec<String>,
    networks: &Vec<String>,
    selection: Selection,
)
    ensures
        final(jobs).deep_view() == old(jobs).deep_view() + jobs_for_codenames(
            artifact,
            codenames.deep_view(),
            networks.deep_view(),
            selection,
        ),
{
    let ghost before = jobs.deep_view();
    let mut j: usize = 0;
    while j < codenames.len()
        invariant
            j <= codenames.len(),
            jobs.deep_view() == before + jobs_for_codenames(
                artifact,
                codenames.deep_view().take(j as int),
                networks.deep_view(),
                selection,
            ),
        decreases codenames.len() - j,
    {
        let ghost seen = codenames.deep_view().take(j as int);
        let ghost next = codenames.deep_view().take(j + 1);
        assert(next.drop_last() =~= seen);
        add_codename_jobs(jobs, artifact, codenames[j].as_str(), networks, selection);
        j += 1;
    }
    assert(codenames.deep_view().take(codenames.len() as int) =~= codenames.deep_view());
}

/// The jobs of a command on the given artifacts, codenames and networks,
/// in the order in which they are done.
pub fn plan_jobs(
    artifacts: &Vec<Artifact>,
    codenames: &Vec<String>,
    networks: &Vec<String>,
    selection: Selection,
) -> (jobs: Vec<Job>)
    ensures
        jobs.deep_view() == jobs_for(
            artifacts@,
            codenames.deep_view(),
            networks.deep_view(),
            selection,
        ),
{
    let mut jobs: Vec<Job> = Vec::new();
    let mut i: usize = 0;
    while i < artifacts.len()
        invariant
            i <= artifacts.len(),
            jobs.deep_view() == jobs_for(
                artifacts@.take(i as int),
                codenames.deep_view(),
                networks.deep_view(),
                selection,
            ),
        decreases artifacts.len() - i,
    {
        let ghost next = artifacts@.take(i + 1);
        assert(next.drop_last() =~= artifacts@.take(i as int));
        add_artifact_jobs(&mut jobs, artifacts[i], codenames, networks, selection);
        i += 1;
    }
    assert(artifacts@.take(artifacts.len() as int) =~= artifacts@);
    jobs
}

/// Where the package lies that is reversioned.
#[derive(Clone, Debug, PartialEq, Eq)]
pub enum PackageSource {
    /// At this path.
    At(String),
    /// In this directory: the first of its files that holds the package.
    In { directory: String, package: String },
}

/// The mathematical content of a [`PackageSource`].
pub enum PackageSourceView {
    At(Seq<char>),
    In { directory: Seq<char>, package: Seq<char> },
}

impl DeepView for PackageSource {
    type V = PackageSourceView;

    open spec fn deep_view(&self) -> PackageSourceView {
        match self {
            PackageSource::At(path) => PackageSourceView::At(path@),
            PackageSource::In { directory, package } => PackageSourceView::In {
                directory: directory@,
                package: package@,
            },
        }
    }
}

/// One operation of a job. The operations of a job are carried out in
/// order, and the first one that fails ends the command.
#[derive(Clone, Debug)]
pub enum Operation {
    /// The cache is made to hold the package as the store has it.
    Cache {
        artifact: String,
        codename: String,
        network: Option<String>,
        build_id: String,
        cache_folder: String,
    },
    /// The package is reversioned.
    Reversion {
        source: PackageSource,
        package_name: String,
        source_version: String,
        new_version: String,
        suite: String,
        new_suite: String,
        new_name: Option<String>,
    },
    /// The package is published.
    Publish(DebianPublishConfig),
    /// The published package is verified.
    VerifyPackage(DebianVerifyConfig),
    /// The image is promoted.
    PromoteImage(DockerPromoteConfig),
    /// The promoted image is verified.
    VerifyImage(DockerVerifyConfig),
}

/// The mathematical content of an [`Operation`].
pub enum OperationView {
    Cache {
        artifact: Seq<char>,
        codename: Seq<char>,
        network: Option<Seq<char>>,
        build_id: Seq<char>,
        cache_folder: Seq<char>,
    },
    Reversion {
        source: PackageSourceView,
        package_name: Seq<char>,
        source_version: Seq<char>,
        new_version: Seq<char>,
        suite: Seq<char>,
        new_suite: Seq<char>,
        new_name: Option<Seq<char>>,
    },
    Publish(DebianPublishConfigView),
    VerifyPackage(DebianVerifyConfigView),
    PromoteImage(DockerPromoteConfigView),
    VerifyImage(DockerVerifyConfigView),
}

impl DeepView for Operation {
    type V = OperationView;

    open spec fn deep_view(&self) -> OperationView {
        match self {
            Operation::Cache { artifact, codename, network, build_id, cache_folder } => {
                OperationView::Cache {
                    artifact: artifact@,
                    codename: codename@,
                    network: opt_view(*network),
                    build_id: build_id@,
                    cache_folder: cache_folder@,
                }
            },
            Operation::Reversion {
                source,
                package_name,
                source_version,
                new_version,
                suite,
                new_suite,
                new_name,
            } => OperationView::Reversion {
                source: source.deep_view(),
                package_name: package_name@,
                source_version: source_version@,
                new_version: new_version@,
                suite: suite@,
                new_suite: new_suite@,
                new_name: opt_view(*new_name),
            },
            Operation::Publish(config) => OperationView::Publish(config@),
            Operation::VerifyPackage(config) => OperationView::VerifyPackage(config@),
            Operation::PromoteImage(config) => OperationView::PromoteImage(config@),
            Operation::VerifyImage(config) => OperationView::VerifyImage(config@),
        }
    }
}

/// The first of two operations where `first` holds, then the second where
/// `second` holds as well.
pub open spec fn one_then_other(
    first: bool,
    one: OperationView,
    second: bool,
    other: OperationView,
) -> Seq<OperationView> {
    if !first {
        Seq::empty()
    } else if !second {
        seq![one]
    } else {
        seq![one, other]
    }
}

/// Adds `operation` at the end of `operations`.
pub fn push_operation(operations: &mut Vec<Operation>, operation: Operation)
    ensures
        final(operations).deep_view() == old(operations).deep_view().push(operation.deep_view()),
{
    operations.push(operation);
}

/// Where the package of a reversioning lies, once the names of the files
/// in its directory are known: the path that was given; or the first file
/// of the package in the directory, and an error where it holds none.
pub open spec fn located(source: PackageSourceView, names: Seq<Seq<char>>) -> Result<
    Seq<char>,
    ErrorView,
> {
    match source {
        PackageSourceView::At(path) => Ok(path),
        PackageSourceView::In { directory, package } => match first_package_file(names, package) {
            Some(file) => Ok(joined_path(directory, file)),
            None => Err(
                ErrorView::IoError(
                    IoFailureView {
                        kind: IoErrorKind::NotFound,
                        message: "Could not find .deb file matching pattern: "@ + package
                            + "_*.deb in "@ + directory,
                    },
                ),
            ),
        },
    }
}

/// Where the package of a reversioning lies. `names` are the names of the
/// files in the directory of the source, which are read only for a source
/// that lies in a directory.
pub fn locate_package(source: &PackageSource, names: &Vec<String>) -> (r: ManagerResult<String>)
    ensures
        text_view(r) == located(source.deep_view(), names.deep_view()),
{
    match source {
        PackageSource::At(path) => Ok(path.clone()),
        PackageSource::In { directory, package } => match find_package_file(
            names,
            package.as_str(),
        ) {
            Some(file) => Ok(join_path(directory.as_str(), file.as_str())),
            None => Err(missing_package(package.as_str(), directory.as_str())),
        },
    }
}

} // verus!
