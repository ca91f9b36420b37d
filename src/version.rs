//! Semantic versions and their ordering.

use std::cmp::Ordering;
use vstd::prelude::*;

verus! {

/// A parsed semantic version: three numeric components, then the
/// pre-release and build-metadata identifiers as text (empty when absent).
pub struct Version {
    pub major: u64,
    pub minor: u64,
    pub patch: u64,
    pub pre: String,
    pub build: String,
}

/// The components of a version, as plain values.
pub type VersionModel = (u64, u64, u64, Seq<char>, Seq<char>);

impl View for Version {
    type V = VersionModel;

    open spec fn view(&self) -> VersionModel {
        (self.major, self.minor, self.patch, self.pre@, self.build@)
    }
}

/// What `semver` reads from a string: `None` when it is no valid version.
pub uninterp spec fn semver_parse(s: Seq<char>) -> Option<VersionModel>;

/// How `semver` orders two (pre-release, build) suffixes.
pub uninterp spec fn suffix_order(
    a_pre: Seq<char>,
    a_build: Seq<char>,
    b_pre: Seq<char>,
    b_build: Seq<char>,
) -> Ordering;

/// Suffix comparison over the (pre-release, build) texts of two versions:
/// identical suffixes compare equal.
pub open spec fn suffix_cmp_of(
    a_pre: Seq<char>,
    a_build: Seq<char>,
    b_pre: Seq<char>,
    b_build: Seq<char>,
) -> Ordering {
    if a_pre == b_pre && a_build == b_build {
        Ordering::Equal
    } else {
        suffix_order(a_pre, a_build, b_pre, b_build)
    }
}

/// Suffix comparison of two versions.
pub open spec fn suffix_cmp(a: VersionModel, b: VersionModel) -> Ordering {
    suffix_cmp_of(a.3, a.4, b.3, b.4)
}

pub open spec fn int_cmp(a: u64, b: u64) -> Ordering {
    if a < b {
        Ordering::Less
    } else if a > b {
        Ordering::Greater
    } else {
        Ordering::Equal
    }
}

/// Semantic-version ordering: major, minor and patch numerically, then the
/// suffixes.
pub open spec fn version_cmp(a: VersionModel, b: VersionModel) -> Ordering {
    if a.0 != b.0 {
        int_cmp(a.0, b.0)
    } else if a.1 != b.1 {
        int_cmp(a.1, b.1)
    } else if a.2 != b.2 {
        int_cmp(a.2, b.2)
    } else {
        suffix_cmp(a, b)
    }
}

pub open spec fn option_model(r: Option<Version>) -> Option<VersionModel> {
    match r {
        Some(v) => Some(v@),
        None => None,
    }
}

/// Relies on semver::Version::parse, whose fields are copied out as plain
/// values.
#[verifier::external_body]
fn semver_parse_str(s: &str) -> (r: Option<Version>)
    ensures
        option_model(r) == semver_parse(s@),
{
    match semver::Version::parse(s) {
        Ok(v) => Some(Version {
            major: v.major,
            minor: v.minor,
            patch: v.patch,
            pre: v.pre.as_str().to_string(),
            build: v.build.as_str().to_string(),
        }),
        Err(_) => None,
    }
}

/// Relies on the `Ord` impls of semver::Prerelease and semver::BuildMetadata,
/// compared as a pair the way semver::Version compares them. `Ord` is a total
/// order: identical identifiers compare equal, swapping the operands reverses
/// the result, and "not greater" is transitive through the compared pair.
#[verifier::external_body]
fn semver_suffix_cmp(a_pre: &str, a_build: &str, b_pre: &str, b_build: &str) -> (r: Ordering)
    ensures
        r == (if a_pre@ == b_pre@ && a_build@ == b_build@ {
            Ordering::Equal
        } else {
            suffix_order(a_pre@, a_build@, b_pre@, b_build@)
        }),
        (r == Ordering::Greater) == (suffix_cmp_of(b_pre@, b_build@, a_pre@, a_build@)
            == Ordering::Less),
        (r == Ordering::Equal) == (suffix_cmp_of(b_pre@, b_build@, a_pre@, a_build@)
            == Ordering::Equal),
        r != Ordering::Less ==> forall|x_pre: Seq<char>, x_build: Seq<char>|
            #[trigger] suffix_cmp_of(x_pre, x_build, b_pre@, b_build@) != Ordering::Greater
                ==> suffix_cmp_of(x_pre, x_build, a_pre@, a_build@) != Ordering::Greater,
        r != Ordering::Greater ==> forall|x_pre: Seq<char>, x_build: Seq<char>|
            #[trigger] suffix_cmp_of(b_pre@, b_build@, x_pre, x_build) != Ordering::Greater
                ==> suffix_cmp_of(a_pre@, a_build@, x_pre, x_build) != Ordering::Greater,
{
    let a = (semver::Prerelease::new(a_pre).ok(), semver::BuildMetadata::new(a_build).ok());
    let b = (semver::Prerelease::new(b_pre).ok(), semver::BuildMetadata::new(b_build).ok());
    a.cmp(&b)
}

fn cmp_u64(a: u64, b: u64) -> (r: Ordering)
    ensures
        r == int_cmp(a, b),
{
    if a < b {
        Ordering::Less
    } else if a > b {
        Ordering::Greater
    } else {
        Ordering::Equal
    }
}

impl Version {
    /// Parses a semantic version; `None` when the text is not one.
    pub fn parse(s: &str) -> (r: Option<Version>)
        ensures
            option_model(r) == semver_parse(s@),
    {
        semver_parse_str(s)
    }

    /// Compares two versions by semantic-version ordering. Swapping the
    /// operands reverses the result, and when `self` is not less than
    /// `other`, whatever is not greater than `other` is not greater than
    /// `self`.
    pub fn compare(&self, other: &Version) -> (r: Ordering)
        ensures
            r == version_cmp(self@, other@),
            (r == Ordering::Greater) == (version_cmp(other@, self@) == Ordering::Less),
            (r == Ordering::Equal) == (version_cmp(other@, self@) == Ordering::Equal),
            r != Ordering::Less ==> forall|x: VersionModel| #[trigger]
                version_cmp(x, other@) != Ordering::Greater ==> version_cmp(x, self@)
                    != Ordering::Greater,
    {
        if self.major != other.major {
            cmp_u64(self.major, other.major)
        } else if self.minor != other.minor {
            cmp_u64(self.minor, other.minor)
        } else if self.patch != other.patch {
            cmp_u64(self.patch, other.patch)
        } else {
            let r = semver_suffix_cmp(
                self.pre.as_str(),
                self.build.as_str(),
                other.pre.as_str(),
                other.build.as_str(),
            );
            proof {
                if r != Ordering::Less {
                    assert forall|x: VersionModel| #[trigger]
                        version_cmp(x, other@) != Ordering::Greater implies version_cmp(x, self@)
                        != Ordering::Greater by {
                        if x.0 == self.major && x.1 == self.minor && x.2 == self.patch {
                            assert(suffix_cmp_of(x.3, x.4, other.pre@, other.build@)
                                != Ordering::Greater);
                        }
                    }
                }
            }
            r
        }
    }

}

} // verus!
