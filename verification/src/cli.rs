//! What the operator asks for on the command line, as plain values.

use vstd::prelude::*;
use crate::text::str_eq;

verus! {

/// The artifacts that an operation works on where none are named.
pub const DEFAULT_ARTIFACTS: &'static str = "mina-logproc,mina-archive,mina-rosetta,mina-daemon";

/// The networks that an operation works on where none are named.
pub const DEFAULT_NETWORKS: &'static str = "devnet,mainnet";

/// The codenames that an operation works on where none are named.
pub const DEFAULT_CODENAMES: &'static str = "bullseye,focal";

/// The repository that an operation works on where none is named.
pub const DEFAULT_DEBIAN_REPO: &'static str = "packages.o1test.net";

/// Publish build artifacts from the cache.
#[derive(Clone, Debug)]
pub struct PublishArgs {
    /// Artifacts to publish, with commas between them.
    pub artifacts: String,
    /// Networks to publish for, with commas between them.
    pub networks: String,
    /// The build whose artifacts are published.
    pub buildkite_build_id: String,
    /// Version that the build has.
    pub source_version: String,
    /// Version that is published.
    pub target_version: String,
    /// Codenames to publish for, with commas between them.
    pub codenames: String,
    /// Channel to publish to.
    pub channel: String,
    /// Publish images to the public registry.
    pub publish_to_docker_io: bool,
    /// Publish images only.
    pub only_dockers: bool,
    /// Publish packages only.
    pub only_debians: bool,
    /// Verify what was published.
    pub verify: bool,
    /// Show what would be published, and publish nothing.
    pub dry_run: bool,
    /// Name of the store.
    pub backend: String,
    /// Repository to publish to.
    pub debian_repo: String,
    /// Key to sign the repository with.
    pub debian_sign_key: Option<String>,
    /// Publish the archive under its name without the network.
    pub strip_network_from_archive: bool,
    /// Show the commands that are run.
    pub debug: bool,
}

/// Promote artifacts from one channel or registry to another.
#[derive(Clone, Debug)]
pub struct PromoteArgs {
    /// Artifacts to promote, with commas between them.
    pub artifacts: String,
    /// Networks to promote for, with commas between them.
    pub networks: String,
    /// Version that is promoted.
    pub source_version: String,
    /// Version that it is promoted to.
    pub target_version: String,
    /// Codenames to promote for, with commas between them.
    pub codenames: String,
    /// Channel to promote from.
    pub source_channel: Option<String>,
    /// Channel to promote to.
    pub target_channel: Option<String>,
    /// Promote images to the public registry.
    pub publish_to_docker_io: bool,
    /// Promote images only.
    pub only_dockers: bool,
    /// Promote packages only.
    pub only_debians: bool,
    /// Verify what was promoted.
    pub verify: bool,
    /// Show what would be promoted, and promote nothing.
    pub dry_run: bool,
    /// Repository to promote in.
    pub debian_repo: String,
    /// Key to sign the repository with.
    pub debian_sign_key: Option<String>,
    /// Promote the archive under its name without the network.
    pub strip_network_from_archive: bool,
    /// Show the commands that are run.
    pub debug: bool,
}

/// Verify artifacts in a channel or registry.
#[derive(Clone, Debug)]
pub struct VerifyArgs {
    /// Artifacts to verify, with commas between them.
    pub artifacts: String,
    /// Networks to verify for, with commas between them.
    pub networks: String,
    /// Version to verify.
    pub version: String,
    /// Codenames to verify for, with commas between them.
    pub codenames: String,
    /// Channel to verify in.
    pub channel: String,
    /// Repository to verify in.
    pub debian_repo: String,
    /// Verify images in the public registry.
    pub docker_io: bool,
    /// Verify images only.
    pub only_dockers: bool,
    /// Verify packages only.
    pub only_debians: bool,
    /// The repository is signed.
    pub signed_debian_repo: bool,
    /// What the tags of the images end in, after the network.
    pub docker_suffix: Option<String>,
    /// Show the commands that are run.
    pub debug: bool,
}

/// Repair the manifests of the repository.
#[derive(Clone, Debug)]
pub struct FixArgs {
    /// Codenames to repair, with commas between them.
    pub codenames: String,
    /// Channel to repair.
    pub channel: String,
    /// Show the commands that are run.
    pub debug: bool,
}

/// Keep artifacts in long-term storage.
#[derive(Clone, Debug)]
pub struct PersistArgs {
    /// Name of the store.
    pub backend: String,
    /// Artifacts to keep, with commas between them.
    pub artifacts: String,
    /// The build whose artifacts are kept.
    pub buildkite_build_id: String,
    /// Where the artifacts are kept.
    pub target: String,
    /// Codename of the artifacts.
    pub codename: String,
    /// Version that the artifacts get, where it changes.
    pub new_version: Option<String>,
    /// Channel of the artifacts.
    pub suite: String,
    /// Show the commands that are run.
    pub debug: bool,
}

/// Fetch artifacts from the store to a local directory.
#[derive(Clone, Debug)]
pub struct PullArgs {
    /// Name of the store.
    pub backend: String,
    /// Artifacts to fetch, with commas between them.
    pub artifacts: String,
    /// The build whose artifacts are fetched.
    pub buildkite_build_id: String,
    /// Directory to fetch into.
    pub target: String,
    /// Codenames to fetch for, with commas between them.
    pub codenames: String,
    /// Networks to fetch for, with commas between them.
    pub networks: String,
    /// Show the commands that are run.
    pub debug: bool,
}

/// What the operator asks for.
#[derive(Clone, Debug)]
pub enum Commands {
    Publish(PublishArgs),
    Promote(PromoteArgs),
    Verify(VerifyArgs),
    Fix(FixArgs),
    Persist(PersistArgs),
    Pull(PullArgs),
}

/// The programs that must be installed before the command is carried out,
/// in the order in which they are looked for. Publishing from the cloud
/// store needs its tool; verifying needs containers; repairing needs the
/// repository tool.
pub open spec fn required_programs(command: Commands) -> Seq<Seq<char>> {
    match command {
        Commands::Publish(args) => (if args.backend@ == "gs"@ {
            seq!["gsutil"@]
        } else {
            Seq::empty()
        }) + (if args.verify {
            seq!["docker"@]
        } else {
            Seq::empty()
        }),
        Commands::Promote(args) => if args.verify {
            seq!["docker"@]
        } else {
            Seq::empty()
        },
        Commands::Verify(_) => seq!["docker"@],
        Commands::Fix(_) => seq!["deb-s3"@],
        _ => Seq::empty(),
    }
}

/// The programs that must be installed before the command is carried out.
pub fn check_prerequisites(command: &Commands) -> (programs: Vec<String>)
    ensures
        programs.deep_view() == required_programs(*command),
{
    let mut programs: Vec<String> = Vec::new();
    match command {
        Commands::Publish(args) => {
            if str_eq(args.backend.as_str(), "gs") {
                programs.push(String::from_str("gsutil"));
            }
            if args.verify {
                programs.push(String::from_str("docker"));
            }
        },
        Commands::Promote(args) => {
            if args.verify {
                programs.push(String::from_str("docker"));
            }
        },
        Commands::Verify(_) => {
            programs.push(String::from_str("docker"));
        },
        Commands::Fix(_) => {
            programs.push(String::from_str("deb-s3"));
        },
        _ => {},
    }
    programs
}

} // verus!
