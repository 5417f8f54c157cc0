//! Fetching: the packages of a build are downloaded to a local directory.

use vstd::prelude::*;
use crate::artifacts::{list_items, parse_string_list};
use crate::cli::PullArgs;
use crate::errors::{ErrorView, ManagerResult};
use crate::utils::{first_missing, require_arg};

verus! {

/// One package to fetch.
#[derive(Clone, Debug, PartialEq, Eq)]
pub struct PullJob {
    pub artifact: String,
    pub codename: String,
    pub network: String,
}

/// The mathematical content of a [`PullJob`].
pub struct PullJobView {
    pub artifact: Seq<char>,
    pub codename: Seq<char>,
    pub network: Seq<char>,
}

impl DeepView for PullJob {
    type V = PullJobView;

    open spec fn deep_view(&self) -> PullJobView {
        PullJobView { artifact: self.artifact@, codename: self.codename@, network: self.network@ }
    }
}

/// The packages of one artifact and codename on each of `networks`.
pub open spec fn pulls_for_networks(
    artifact: Seq<char>,
    codename: Seq<char>,
    networks: Seq<Seq<char>>,
) -> Seq<PullJobView> {
    Seq::new(networks.len(), |i: int| PullJobView { artifact, codename, network: networks[i] })
}

/// The packages of one artifact on each of `codenames`, codename by
/// codename.
pub open spec fn pulls_for_codenames(
    artifact: Seq<char>,
    codenames: Seq<Seq<char>>,
    networks: Seq<Seq<char>>,
) -> Seq<PullJobView>
    decreases codenames.len(),
{
    if codenames.len() == 0 {
        Seq::empty()
    } else {
        pulls_for_codenames(artifact, codenames.drop_last(), networks) + pulls_for_networks(
            artifact,
            codenames.last(),
            networks,
        )
    }
}

/// The packages to fetch: artifact by artifact, codename by codename,
/// network by network.
pub open spec fn pulls_for(
    artifacts: Seq<Seq<char>>,
    codenames: Seq<Seq<char>>,
    networks: Seq<Seq<char>>,
) -> Seq<PullJobView>
    decreases artifacts.len(),
{
    if artifacts.len() == 0 {
        Seq::empty()
    } else {
        pulls_for(artifacts.drop_last(), codenames, networks) + pulls_for_codenames(
            artifacts.last(),
            codenames,
            networks,
        )
    }
}

/// What fetching amounts to: the error of a missing build, or else the
/// packages in order.
pub open spec fn planned(args: PullArgs) -> Result<Seq<PullJobView>, ErrorView> {
    match first_missing(seq![("buildkite-build-id"@, Some(args.buildkite_build_id@))]) {
        Some(e) => Err(e),
        None => Ok(
            pulls_for(
                list_items(args.artifacts@),
                list_items(args.codenames@),
                list_items(args.networks@),
            ),
        ),
    }
}

/// A list of packages to fetch with its error taken by its view.
pub open spec fn pulls_view(r: ManagerResult<Vec<PullJob>>) -> Result<Seq<PullJobView>, ErrorView> {
    match r {
        Ok(jobs) => Ok(jobs.deep_view()),
        Err(e) => Err(e@),
    }
}

/// The packages to fetch, in the order in which they are fetched; or the
/// error that keeps anything from being done.
pub fn plan(args: &PullArgs) -> (r: ManagerResult<Vec<PullJob>>)
    ensures
        pulls_view(r) == planned(*args),
{
    match require_arg("buildkite-build-id", Some(args.buildkite_build_id.as_str())) {
        Some(e) => {
            return Err(e);
        },
        None => {},
    }
    let artifacts = parse_string_list(args.artifacts.as_str());
    let codenames = parse_string_list(args.codenames.as_str());
    let networks = parse_string_list(args.networks.as_str());
    let mut jobs: Vec<PullJob> = Vec::new();
    let mut i: usize = 0;
    while i < artifacts.len()
        invariant
            i <= artifacts.len(),
            jobs.deep_view() == pulls_for(
                artifacts.deep_view().take(i as int),
                codenames.deep_view(),
                networks.deep_view(),
            ),
        decreases artifacts.len() - i,
    {
        let ghost done = jobs.deep_view();
        let ghost artifact = artifacts@[i as int]@;
        let mut j: usize = 0;
        while j < codenames.len()
            invariant
                i < artifacts.len(),
                j <= codenames.len(),
                artifact == artifacts@[i as int]@,
                jobs.deep_view() == done + pulls_for_codenames(
                    artifact,
                    codenames.deep_view().take(j as int),
                    networks.deep_view(),
                ),
            decreases codenames.len() - j,
        {
            let ghost before = jobs.deep_view();
            let ghost codename = codenames@[j as int]@;
            let mut k: usize = 0;
            while k < networks.len()
                invariant
                    i < artifacts.len(),
                    j < codenames.len(),
                    k <= networks.len(),
                    artifact == artifacts@[i as int]@,
                    codename == codenames@[j as int]@,
                    jobs.deep_view() == before + pulls_for_networks(
                        artifact,
                        codename,
                        networks.deep_view().take(k as int),
                    ),
                decreases networks.len() - k,
            {
                let job = PullJob {
                    artifact: artifacts[i].clone(),
                    codename: codenames[j].clone(),
                    network: networks[k].clone(),
                };
                let ghost so_far = jobs.deep_view();
                jobs.push(job);
                assert(jobs.deep_view() =~= so_far.push(job.deep_view()));
                k += 1;
            }
            proof {
                let next = codenames.deep_view().take(j + 1);
                assert(next.drop_last() =~= codenames.deep_view().take(j as int));
            }
            j += 1;
        }
        proof {
            assert(codenames.deep_view().take(codenames.len() as int) =~= codenames.deep_view());
            let next = artifacts.deep_view().take(i + 1);
            assert(next.drop_last() =~= artifacts.deep_view().take(i as int));
        }
        i += 1;
    }
    assert(artifacts.deep_view().take(artifacts.len() as int) =~= artifacts.deep_view());
    Ok(jobs)
}

} // verus!
