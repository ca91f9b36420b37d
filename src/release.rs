//! Choosing the release to update to, and deciding whether an update is due.

use crate::version::{semver_parse, version_cmp, Version, VersionModel};
use std::cmp::Ordering;
use vstd::prelude::*;

verus! {

/// One published version of a package, as the remote catalog lists it.
pub struct RemoteRelease {
    pub version: String,
    pub download_url: String,
    pub file_name: String,
    pub sha1: String,
}

/// The version that release `j` declares, if it parses.
pub open spec fn parsed(releases: Seq<RemoteRelease>, j: int) -> Option<VersionModel> {
    semver_parse(releases[j].version@)
}

pub open spec fn valid_at(releases: Seq<RemoteRelease>, j: int) -> bool {
    0 <= j < releases.len() && parsed(releases, j) is Some
}

pub open spec fn has_valid(releases: Seq<RemoteRelease>) -> bool {
    exists|j: int| #[trigger] valid_at(releases, j)
}

/// Release `i`, with version `v`, is a selection from `releases`: it is
/// valid, and no valid release compares greater than it.
pub open spec fn is_selection(releases: Seq<RemoteRelease>, v: VersionModel, i: int) -> bool {
    &&& valid_at(releases, i)
    &&& parsed(releases, i) == Some(v)
    &&& forall|j: int| #[trigger]
        valid_at(releases, j) ==> version_cmp(parsed(releases, j)->0, v) != Ordering::Greater
}

/// Picks the release with the highest valid version, skipping entries whose
/// version does not parse; `None` when no entry parses.
pub fn pick_latest(releases: &Vec<RemoteRelease>) -> (r: Option<(Version, usize)>)
    ensures
        r is None <==> !has_valid(releases@),
        r matches Some((v, i)) ==> is_selection(releases@, v@, i as int),
{
    let mut best: Option<(Version, usize)> = None;
    let mut k: usize = 0;
    while k < releases.len()
        invariant
            k <= releases.len(),
            best is None <==> forall|j: int| 0 <= j < k ==> !#[trigger] valid_at(releases@, j),
            best matches Some((v, i)) ==> {
                &&& i < k
                &&& valid_at(releases@, i as int)
                &&& parsed(releases@, i as int) == Some(v@)
                &&& forall|j: int|
                    0 <= j < k && #[trigger] valid_at(releases@, j) ==> version_cmp(
                        parsed(releases@, j)->0,
                        v@,
                    ) != Ordering::Greater
            },
        decreases releases.len() - k,
    {
        let candidate = Version::parse(releases[k].version.as_str());
        match candidate {
            Some(c) => {
                assert(valid_at(releases@, k as int));
                assert(version_cmp(c@, c@) == Ordering::Equal);
                let replace = match &best {
                    Some((b, _)) => matches!(c.compare(b), Ordering::Greater),
                    None => true,
                };
                if replace {
                    best = Some((c, k));
                }
            },
            None => {
                assert(!valid_at(releases@, k as int));
            },
        }
        k = k + 1;
    }
    best
}

/// A package's update is due when the remote version is greater.
pub open spec fn needs_update(remote: VersionModel, local: VersionModel) -> bool {
    version_cmp(remote, local) == Ordering::Greater
}

/// What a package needs after comparing its local version to the catalog.
pub enum UpdateDecision {
    /// No release in the catalog has a valid version: nothing to update to.
    NoRelease,
    /// The selected release is not newer than the local version.
    UpToDate { remote: Version, index: usize },
    /// The selected release is newer and should be installed.
    Install { remote: Version, index: usize },
}

/// The local manifest declares a version that does not parse.
pub struct InvalidLocalVersion;

/// Selects the latest release and compares it with the local version string:
/// no valid release is no error; otherwise the local version must parse, and
/// an install is due exactly when the selected version is greater.
pub fn decide_update(local_version: &str, releases: &Vec<RemoteRelease>) -> (r: Result<
    UpdateDecision,
    InvalidLocalVersion,
>)
    ensures
        r matches Ok(UpdateDecision::NoRelease) <==> !has_valid(releases@),
        r is Err <==> has_valid(releases@) && semver_parse(local_version@) is None,
        r matches Ok(UpdateDecision::UpToDate { remote, index }) ==> {
            &&& is_selection(releases@, remote@, index as int)
            &&& semver_parse(local_version@) matches Some(l) && !needs_update(remote@, l)
        },
        r matches Ok(UpdateDecision::Install { remote, index }) ==> {
            &&& is_selection(releases@, remote@, index as int)
            &&& semver_parse(local_version@) matches Some(l) && needs_update(remote@, l)
        },
{
    match pick_latest(releases) {
        None => Ok(UpdateDecision::NoRelease),
        Some((remote, index)) => match Version::parse(local_version) {
            None => Err(InvalidLocalVersion),
            Some(local) => {
                if matches!(remote.compare(&local), Ordering::Greater) {
                    Ok(UpdateDecision::Install { remote, index })
                } else {
                    Ok(UpdateDecision::UpToDate { remote, index })
                }
            },
        },
    }
}

/// A selected release is never a malformed entry, and it is a maximum: no
/// valid release compares greater.
pub proof fn lemma_selection_is_maximum(releases: Seq<RemoteRelease>, v: VersionModel, i: int)
    requires
        is_selection(releases, v, i),
    ensures
        semver_parse(releases[i].version@) == Some(v),
        forall|j: int|
            0 <= j < releases.len() && #[trigger] semver_parse(releases[j].version@) is Some
                ==> version_cmp(semver_parse(releases[j].version@)->0, v) != Ordering::Greater,
{
    assert forall|j: int|
        0 <= j < releases.len() && #[trigger] semver_parse(releases[j].version@) is Some
            implies version_cmp(semver_parse(releases[j].version@)->0, v) != Ordering::Greater by {
        assert(valid_at(releases, j));
    }
}

/// The selection does not depend on the order of the releases: from two
/// lists holding the same valid versions, neither selected version compares
/// greater than the other.
pub proof fn lemma_selection_ignores_order(
    r1: Seq<RemoteRelease>,
    r2: Seq<RemoteRelease>,
    v1: VersionModel,
    i1: int,
    v2: VersionModel,
    i2: int,
)
    requires
        is_selection(r1, v1, i1),
        is_selection(r2, v2, i2),
        forall|j: int| #[trigger]
            valid_at(r1, j) ==> exists|k: int| #[trigger]
                valid_at(r2, k) && parsed(r2, k) == parsed(r1, j),
        forall|k: int| #[trigger]
            valid_at(r2, k) ==> exists|j: int| #[trigger]
                valid_at(r1, j) && parsed(r1, j) == parsed(r2, k),
    ensures
        version_cmp(v1, v2) != Ordering::Greater,
        version_cmp(v2, v1) != Ordering::Greater,
{
    assert(valid_at(r1, i1));
    let k = choose|k: int| #[trigger] valid_at(r2, k) && parsed(r2, k) == parsed(r1, i1);
    assert(valid_at(r2, k));
    assert(valid_at(r2, i2));
    let j = choose|j: int| #[trigger] valid_at(r1, j) && parsed(r1, j) == parsed(r2, i2);
    assert(valid_at(r1, j));
}

/// Once the local version equals the selected one, a second run decides that
/// no update is due.
pub proof fn lemma_same_version_needs_no_update(v: VersionModel)
    ensures
        !needs_update(v, v),
{
}

} // verus!
