//! The artifacts that are released, and how their packages, versions and
//! image tags are named.

use vstd::prelude::*;
use regex::Regex;
use crate::errors::{ErrorView, ManagerError, ManagerResult, text_view};
use crate::text::{opt_text, split, split_on, str_eq, trim, trimmed};

verus! {

/// One of the artifacts that a release consists of.
#[derive(Clone, Copy, Debug, PartialEq, Eq, Structural)]
pub enum Artifact {
    MinaDaemon,
    MinaArchive,
    MinaRosetta,
    MinaLogproc,
}

impl Artifact {
    /// The name under which the artifact is built and stored.
    pub open spec fn name(self) -> Seq<char> {
        match self {
            Artifact::MinaDaemon => "mina-daemon"@,
            Artifact::MinaArchive => "mina-archive"@,
            Artifact::MinaRosetta => "mina-rosetta"@,
            Artifact::MinaLogproc => "mina-logproc"@,
        }
    }

    /// The artifact that has the given name, if there is one. Names are
    /// compared exactly.
    pub open spec fn named(name: Seq<char>) -> Option<Artifact> {
        if name == "mina-daemon"@ {
            Some(Artifact::MinaDaemon)
        } else if name == "mina-archive"@ {
            Some(Artifact::MinaArchive)
        } else if name == "mina-rosetta"@ {
            Some(Artifact::MinaRosetta)
        } else if name == "mina-logproc"@ {
            Some(Artifact::MinaLogproc)
        } else {
            None
        }
    }

    /// Every artifact is found again by its own name.
    pub proof fn lemma_named_by_own_name(self)
        ensures
            Artifact::named(self.name()) == Some(self),
    {
        reveal_strlit("mina-daemon");
        reveal_strlit("mina-archive");
        reveal_strlit("mina-rosetta");
        reveal_strlit("mina-logproc");
        assert("mina-daemon"@[5] == 'd');
        assert("mina-archive"@[5] == 'a');
        assert("mina-rosetta"@[5] == 'r');
    }

    /// The artifact that `s` names; an unknown name is an error that carries
    /// the name.
    pub fn from_str(s: &str) -> (r: ManagerResult<Artifact>)
        ensures
            match r {
                Ok(artifact) => Artifact::named(s@) == Some(artifact),
                Err(e) => Artifact::named(s@) is None && e@ == ErrorView::UnknownArtifact(s@),
            },
    {
        if str_eq(s, "mina-daemon") {
            Ok(Artifact::MinaDaemon)
        } else if str_eq(s, "mina-archive") {
            Ok(Artifact::MinaArchive)
        } else if str_eq(s, "mina-rosetta") {
            Ok(Artifact::MinaRosetta)
        } else if str_eq(s, "mina-logproc") {
            Ok(Artifact::MinaLogproc)
        } else {
            Err(ManagerError::UnknownArtifact(String::from_str(s)))
        }
    }

    /// The name under which the artifact is built and stored. It names this
    /// artifact and no other.
    pub fn as_str(&self) -> (name: &'static str)
        ensures
            name@ == self.name(),
            Artifact::named(name@) == Some(*self),
    {
        proof {
            self.lemma_named_by_own_name();
        }
        match self {
            Artifact::MinaDaemon => "mina-daemon",
            Artifact::MinaArchive => "mina-archive",
            Artifact::MinaRosetta => "mina-rosetta",
            Artifact::MinaLogproc => "mina-logproc",
        }
    }
}

/// Whether the artifact of this name is built once per network.
pub open spec fn built_per_network(artifact: Seq<char>) -> bool {
    artifact == "mina-daemon"@ || artifact == "mina-rosetta"@ || artifact == "mina-archive"@
}

/// What a version or tag of `artifact` ends in: a hyphen and the network for
/// an artifact that is built per network, nothing otherwise.
pub open spec fn suffix_of(artifact: Seq<char>, network: Option<Seq<char>>) -> Seq<char> {
    match network {
        Some(net) => if built_per_network(artifact) {
            "-"@ + net
        } else {
            Seq::empty()
        },
        None => Seq::empty(),
    }
}

/// The name of the package of `artifact` for `network`. The daemon's package
/// is named after the network alone; the other per-network packages add the
/// network to their name.
pub open spec fn package_name_of(artifact: Seq<char>, network: Option<Seq<char>>) -> Seq<char> {
    match network {
        Some(net) => if artifact == "mina-daemon"@ {
            "mina-"@ + net
        } else if artifact == "mina-rosetta"@ {
            "mina-rosetta-"@ + net
        } else if artifact == "mina-archive"@ {
            "mina-archive-"@ + net
        } else {
            artifact
        },
        None => artifact,
    }
}

/// The registry of container images: the public one, or the staging one.
pub open spec fn registry_of(publish_to_docker_io: bool) -> Seq<char> {
    if publish_to_docker_io {
        "docker.io/minaprotocol"@
    } else {
        "gcr.io/o1labs-192920"@
    }
}

/// What a version or tag of `artifact` ends in.
pub fn get_suffix(artifact: &str, network: Option<&str>) -> (suffix: String)
    ensures
        suffix@ == suffix_of(artifact@, opt_text(network)),
{
    match network {
        Some(net) => {
            if str_eq(artifact, "mina-daemon") || str_eq(artifact, "mina-rosetta") || str_eq(
                artifact,
                "mina-archive",
            ) {
                let mut suffix = String::from_str("-");
                suffix.append(net);
                suffix
            } else {
                String::new()
            }
        },
        None => String::new(),
    }
}

/// The name of the package of `artifact` for `network`.
pub fn get_artifact_with_suffix(artifact: &str, network: Option<&str>) -> (name: String)
    ensures
        name@ == package_name_of(artifact@, opt_text(network)),
{
    match network {
        Some(net) => {
            if str_eq(artifact, "mina-daemon") {
                let mut name = String::from_str("mina-");
                name.append(net);
                name
            } else if str_eq(artifact, "mina-rosetta") {
                let mut name = String::from_str("mina-rosetta-");
                name.append(net);
                name
            } else if str_eq(artifact, "mina-archive") {
                let mut name = String::from_str("mina-archive-");
                name.append(net);
                name
            } else {
                String::from_str(artifact)
            }
        },
        None => String::from_str(artifact),
    }
}

/// The full version of a package as the repository shows it:
/// `artifact:version-codename`, then the network suffix.
pub fn calculate_debian_version(
    artifact: &str,
    target_version: &str,
    codename: &str,
    network: Option<&str>,
) -> (version: String)
    ensures
        version@ == artifact@ + ":"@ + target_version@ + "-"@ + codename@ + suffix_of(
            artifact@,
            opt_text(network),
        ),
{
    let suffix = get_suffix(artifact, network);
    let mut version = String::from_str(artifact);
    version.append(":");
    version.append(target_version);
    version.append("-");
    version.append(codename);
    version.append(suffix.as_str());
    version
}

/// The registry of container images that is published to.
pub fn get_repo(publish_to_docker_io: bool) -> (repo: &'static str)
    ensures
        repo@ == registry_of(publish_to_docker_io),
{
    if publish_to_docker_io {
        "docker.io/minaprotocol"
    } else {
        "gcr.io/o1labs-192920"
    }
}

/// The full reference of an image: `registry/artifact:version-codename`,
/// then the network suffix.
pub fn calculate_docker_tag(
    publish_to_docker_io: bool,
    artifact: &str,
    target_version: &str,
    codename: &str,
    network: Option<&str>,
) -> (tag: String)
    ensures
        tag@ == registry_of(publish_to_docker_io) + "/"@ + artifact@ + ":"@ + target_version@
            + "-"@ + codename@ + suffix_of(artifact@, opt_text(network)),
{
    let suffix = get_suffix(artifact, network);
    let mut tag = String::from_str(get_repo(publish_to_docker_io));
    tag.append("/");
    tag.append(artifact);
    tag.append(":");
    tag.append(target_version);
    tag.append("-");
    tag.append(codename);
    tag.append(suffix.as_str());
    tag
}

/// What an image tag ends in: a hyphen and the network, then a hyphen and
/// the extra suffix where one is given.
pub fn combine_docker_suffixes(network: &str, docker_suffix: Option<&str>) -> (suffix: String)
    ensures
        suffix@ == match opt_text(docker_suffix) {
            Some(extra) => "-"@ + network@ + "-"@ + extra,
            None => "-"@ + network@,
        },
{
    let mut suffix = String::from_str("-");
    suffix.append(network);
    match docker_suffix {
        Some(extra) => {
            suffix.append("-");
            suffix.append(extra);
        },
        None => {},
    }
    suffix
}

/// The pattern that a package file name is held against: an underscore, the
/// version without any underscore, and `.deb` at the end.
pub const DEB_VERSION_PATTERN: &'static str = ".*_([^_]*)\\.deb$";

/// What a search of `text` for the regular expression `pattern` gives for
/// the capture group with the given number: the group's text where the
/// leftmost match has one, `None` where nothing matches or the group took no
/// part, and the message of the compiler where `pattern` is no regular
/// expression.
pub uninterp spec fn regex_group(pattern: Seq<char>, text: Seq<char>, group: nat) -> Result<
    Option<Seq<char>>,
    Seq<char>,
>;

/// The result of a search for a capture group, taken by its views.
pub open spec fn capture_view(capture: Result<Option<String>, String>) -> Result<
    Option<Seq<char>>,
    Seq<char>,
> {
    match capture {
        Ok(Some(found)) => Ok(Some(found@)),
        Ok(None) => Ok(None),
        Err(message) => Err(message@),
    }
}

/// Compiles `pattern` with `regex::Regex::new` and searches `text` with
/// `Regex::captures`. Nothing is proved of the outcome: it is taken to be
/// `regex_group` of the same pattern, text and group number.
#[verifier::external_body]
fn capture_group(pattern: &str, text: &str, group: usize) -> (capture: Result<
    Option<String>,
    String,
>)
    ensures
        capture_view(capture) == regex_group(pattern@, text@, group as nat),
{
    let re = match Regex::new(pattern) {
        Ok(re) => re,
        Err(e) => return Err(e.to_string()),
    };
    match re.captures(text) {
        Some(found) => match found.get(group) {
            Some(m) => Ok(Some(m.as_str().to_string())),
            None => Ok(None),
        },
        None => Ok(None),
    }
}

/// The version that a search of a package file name yielded: the captured
/// text, or a validation error where the name has no version to capture or
/// the pattern could not be compiled.
pub open spec fn version_of_capture(
    capture: Result<Option<Seq<char>>, Seq<char>>,
    deb_file: Seq<char>,
) -> Result<Seq<char>, ErrorView> {
    match capture {
        Ok(Some(version)) => Ok(version),
        Ok(None) => Err(
            ErrorView::ValidationError("Could not extract version from: "@ + deb_file),
        ),
        Err(message) => Err(ErrorView::ValidationError(message)),
    }
}

/// The version that a search of the package file name `deb_file` yielded.
pub fn version_from_capture(capture: Result<Option<String>, String>, deb_file: &str) -> (r:
    ManagerResult<String>)
    ensures
        text_view(r) == version_of_capture(capture_view(capture), deb_file@),
{
    match capture {
        Ok(Some(version)) => Ok(version),
        Ok(None) => {
            let mut message = String::from_str("Could not extract version from: ");
            message.append(deb_file);
            Err(ManagerError::ValidationError(message))
        },
        Err(message) => Err(ManagerError::ValidationError(message)),
    }
}

/// The version in the name of a package file: what stands between the last
/// underscore and the `.deb` at the end.
pub fn extract_version_from_deb(deb_file: &str) -> (r: ManagerResult<String>)
    ensures
        text_view(r) == version_of_capture(
            regex_group(DEB_VERSION_PATTERN@, deb_file@, 1),
            deb_file@,
        ),
{
    let capture = capture_group(DEB_VERSION_PATTERN, deb_file, 1);
    version_from_capture(capture, deb_file)
}

/// The entries of a list: each of `pieces` without the white space around
/// it, the empty ones left out.
pub open spec fn entries_of(pieces: Seq<Seq<char>>) -> Seq<Seq<char>>
    decreases pieces.len(),
{
    if pieces.len() == 0 {
        Seq::empty()
    } else {
        let before = entries_of(pieces.drop_last());
        let entry = trimmed(pieces.last());
        if entry.len() > 0 {
            before.push(entry)
        } else {
            before
        }
    }
}

/// The entries of a list that is written with commas between them.
pub open spec fn list_items(input: Seq<char>) -> Seq<Seq<char>> {
    entries_of(split_on(input, ','))
}

/// The entries among `pieces`: each piece without the white space around it,
/// the empty ones left out.
pub fn nonblank_entries(pieces: &Vec<String>) -> (items: Vec<String>)
    ensures
        items.deep_view() == entries_of(pieces.deep_view()),
{
    let mut items: Vec<String> = Vec::new();
    let mut i: usize = 0;
    while i < pieces.len()
        invariant
            i <= pieces.len(),
            items.deep_view() == entries_of(pieces.deep_view().take(i as int)),
        decreases pieces.len() - i,
    {
        let entry = trim(pieces[i].as_str());
        proof {
            let p = pieces.deep_view();
            assert(p.take(i + 1).drop_last() =~= p.take(i as int));
        }
        if !entry.is_empty() {
            items.push(String::from_str(entry));
        }
        i += 1;
    }
    assert(pieces.deep_view().take(pieces.len() as int) =~= pieces.deep_view());
    items
}

/// The entries of a list that is written with commas between them: white
/// space around an entry does not count, and an empty entry is no entry.
pub fn parse_string_list(input: &str) -> (items: Vec<String>)
    ensures
        items.deep_view() == list_items(input@),
{
    let pieces = split(input, ',');
    nonblank_entries(&pieces)
}

/// The artifacts that `names` name, in order; the first name that names none
/// is an error that carries it.
pub open spec fn artifacts_named(names: Seq<Seq<char>>) -> Result<Seq<Artifact>, ErrorView>
    decreases names.len(),
{
    if names.len() == 0 {
        Ok(Seq::empty())
    } else {
        match artifacts_named(names.drop_last()) {
            Err(e) => Err(e),
            Ok(before) => match Artifact::named(names.last()) {
                Some(artifact) => Ok(before.push(artifact)),
                None => Err(ErrorView::UnknownArtifact(names.last())),
            },
        }
    }
}

/// An error among the first names is the error of the whole list.
pub proof fn lemma_artifacts_named_error(names: Seq<Seq<char>>, k: int)
    requires
        0 <= k <= names.len(),
        artifacts_named(names.take(k)) is Err,
    ensures
        artifacts_named(names) == artifacts_named(names.take(k)),
    decreases names.len() - k,
{
    if k == names.len() {
        assert(names.take(k) =~= names);
    } else {
        assert(names.take(k + 1).drop_last() =~= names.take(k));
        lemma_artifacts_named_error(names, k + 1);
    }
}

/// The artifacts of a list that is written with commas between them.
pub fn parse_artifact_list(artifacts: &str) -> (r: ManagerResult<Vec<Artifact>>)
    ensures
        match r {
            Ok(list) => artifacts_named(list_items(artifacts@)) == Ok::<Seq<Artifact>, ErrorView>(
                list@,
            ),
            Err(e) => artifacts_named(list_items(artifacts@)) == Err::<Seq<Artifact>, ErrorView>(
                e@,
            ),
        },
{
    let names = parse_string_list(artifacts);
    let mut list: Vec<Artifact> = Vec::new();
    let mut i: usize = 0;
    while i < names.len()
        invariant
            i <= names.len(),
            names.deep_view() == list_items(artifacts@),
            artifacts_named(names.deep_view().take(i as int)) == Ok::<Seq<Artifact>, ErrorView>(
                list@,
            ),
        decreases names.len() - i,
    {
        proof {
            let n = names.deep_view();
            assert(n.take(i + 1).drop_last() =~= n.take(i as int));
        }
        match Artifact::from_str(names[i].as_str()) {
            Ok(artifact) => {
                list.push(artifact);
            },
            Err(e) => {
                proof {
                    lemma_artifacts_named_error(names.deep_view(), i + 1);
                }
                return Err(e);
            },
        }
        i += 1;
    }
    assert(names.deep_view().take(names.len() as int) =~= names.deep_view());
    Ok(list)
}

} // verus!
