//! One update pass over the package root: which folders are packages, and
//! the per-package report that a failure in one package cannot disturb.

use crate::install::InstallError;
use crate::naming::same_text;
use crate::version::Version;
use vstd::prelude::*;

verus! {

/// A folder name reserved for a built-in package.
pub open spec fn is_builtin(name: Seq<char>) -> bool {
    name == "base"@ || name == "core"@
}

/// Whether a package-root entry is a package to check: a directory, not a
/// built-in package, and holding a manifest file.
pub fn should_process_mod(name: &str, is_dir: bool, has_manifest: bool) -> (r: bool)
    ensures
        r == (is_dir && has_manifest && !is_builtin(name@)),
{
    is_dir && has_manifest && !same_text(name, "base") && !same_text(name, "core")
}

/// Why one package could not be brought up to date.
pub enum PackageFailure {
    /// The manifest could not be read or parsed.
    Manifest,
    /// The manifest's version is no semantic version.
    InvalidLocalVersion,
    /// The release list could not be fetched.
    Network,
    /// The release list could not be parsed.
    Parse,
    /// The install failed.
    Install(InstallError),
}

/// How one package ended up.
pub enum PackageOutcome {
    /// The catalog lists no valid release.
    NoRelease,
    /// The local version is the newest.
    UpToDate,
    /// The package was replaced by the newer version `to`, installed as
    /// folder `folder`.
    Updated { to: Version, folder: String },
    Failed(PackageFailure),
}

/// The report line of one package.
pub struct PackageReport {
    pub package: String,
    pub outcome: PackageOutcome,
}

/// A pass over the discovered packages, in order; each gets one report.
pub struct UpdatePass {
    pub packages: Vec<String>,
    pub reports: Vec<PackageReport>,
}

/// The reports after recording `outcomes` one after another.
pub open spec fn recorded(packages: Seq<String>, outcomes: Seq<PackageOutcome>) -> Seq<PackageReport>
    decreases outcomes.len(),
{
    if outcomes.len() == 0 {
        Seq::empty()
    } else {
        let n = outcomes.len() - 1;
        recorded(packages, outcomes.take(n)).push(
            PackageReport { package: packages[n], outcome: outcomes[n] },
        )
    }
}

impl UpdatePass {
    pub open spec fn outcomes(&self) -> Seq<PackageOutcome> {
        self.reports@.map_values(|r: PackageReport| r.outcome)
    }

    pub open spec fn wf(&self) -> bool {
        &&& self.reports@.len() <= self.packages@.len()
        &&& self.reports@ == recorded(self.packages@, self.outcomes())
    }

    /// A pass over `packages` with nothing recorded yet.
    pub fn new(packages: Vec<String>) -> (r: UpdatePass)
        ensures
            r.wf(),
            r.packages@ == packages@,
            r.reports@.len() == 0,
    {
        let r = UpdatePass { packages, reports: Vec::new() };
        assert(r.outcomes() =~= Seq::<PackageOutcome>::empty());
        r
    }

    /// The index of the package to process next, if any is left.
    pub fn next_package(&self) -> (r: Option<usize>)
        ensures
            r is Some <==> self.reports@.len() < self.packages@.len(),
            r matches Some(i) ==> i == self.reports@.len(),
    {
        if self.reports.len() < self.packages.len() {
            Some(self.reports.len())
        } else {
            None
        }
    }

    /// Every package has its report.
    pub fn is_complete(&self) -> (r: bool)
        ensures
            r == (self.reports@.len() == self.packages@.len()),
    {
        self.reports.len() == self.packages.len()
    }

    /// Records the outcome of the next package, whatever it is.
    pub fn record(&mut self, outcome: PackageOutcome)
        requires
            old(self).wf(),
            old(self).reports@.len() < old(self).packages@.len(),
        ensures
            final(self).wf(),
            final(self).packages == old(self).packages,
            final(self).reports@ == old(self).reports@.push(
                PackageReport {
                    package: old(self).packages@[old(self).reports@.len() as int],
                    outcome,
                },
            ),
    {
        let ghost prev = self.outcomes();
        let i = self.reports.len();
        let package = self.packages[i].clone();
        self.reports.push(PackageReport { package, outcome });
        assert(self.outcomes().take(i as int) =~= prev);
    }
}

/// Recording one outcome per package, failures included, gives each package
/// exactly its own report, in order: an outcome never changes another
/// package's report.
pub proof fn lemma_outcomes_are_independent(packages: Seq<String>, outcomes: Seq<PackageOutcome>)
    requires
        outcomes.len() <= packages.len(),
    ensures
        recorded(packages, outcomes).len() == outcomes.len(),
        forall|i: int|
            0 <= i < outcomes.len() ==> #[trigger] recorded(packages, outcomes)[i] == (PackageReport {
                package: packages[i],
                outcome: outcomes[i],
            }),
    decreases outcomes.len(),
{
    if outcomes.len() > 0 {
        let n = outcomes.len() - 1;
        lemma_outcomes_are_independent(packages, outcomes.take(n));
    }
}

} // verus!
