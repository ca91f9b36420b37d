//! The install sequence for one package, as a state machine.
//!
//! The caller performs each returned action (download, unpack into a scratch
//! directory, list the package root, remove stale folders and rename the new
//! one into place, remove the scratch directory) and reports the outcome back.
//! Verification comes before unpacking, unpacking happens in scratch space,
//! and the rename is the only step that commits; the scratch directory is
//! removed on every path that created it.

use crate::integrity::{content_digest, integrity_ok, sha1_hex, verify_integrity};
use crate::naming::{
    canonical_name,
    canonical_of,
    is_stale,
    is_slug_end,
    lemma_slug_end_exists,
    name_set,
    shares_slug,
    slug_end,
    stale_versions,
};
use crate::remote::{archive_address, archive_url};
use vstd::prelude::*;

verus! {

/// Why an install failed.
pub enum InstallError {
    /// The archive address is no valid URL; no request was sent.
    InvalidUrl { package: String, url: String },
    /// The download request could not be made or did not complete.
    Request { package: String, url: String },
    /// The server answered with a non-success status; `url` is the address
    /// that answered.
    HttpStatus { package: String, status: u16, url: String },
    /// The payload's digest differs from the expected one.
    IntegrityMismatch { package: String, expected: String, actual: String },
    /// The archive could not be read or unpacked.
    Archive,
    /// No manifest file was found anywhere in the archive.
    MissingManifest,
    /// The folder holding the manifest has no usable name.
    BadFolderName,
    /// Removing old folders or renaming the new one failed.
    Filesystem,
}

/// Where an install stands: which report it waits for next.
pub enum Stage {
    Download,
    Extract,
    List,
    Commit,
    Cleanup,
    Finished,
}

/// What the caller is to do next.
pub enum InstallAction {
    /// Fetch the archive from the installer's `url`; nothing is written.
    Download,
    /// Empty the scratch directory and unpack the verified archive into it.
    Extract,
    /// Read the folder names in the package root; nothing is written.
    ListRoot,
    /// Remove the folders in `remove` from the package root, then rename the
    /// unpacked folder into it as `target`.
    Commit { remove: Vec<String>, target: String },
    /// Remove the scratch directory.
    RemoveScratch,
    /// The install is over.
    Finish { result: Result<String, InstallError> },
}

/// The state of one install of a package archive.
pub struct Installer {
    pub package: String,
    /// The absolute address of the archive, before credentials are added.
    pub url: String,
    pub expected_hash: String,
    pub stage: Stage,
    /// The install folder name, once the archive has been unpacked.
    pub target: String,
    /// The failure to report once the scratch directory is gone.
    pub failure: Option<InstallError>,
}

/// The part of the filesystem an install touches: the folder names in the
/// package root, and whether the scratch directory exists.
pub struct FsModel {
    pub dirs: Set<Seq<char>>,
    pub scratch: bool,
}

/// The package root after removing `remove` and moving `target` in.
pub open spec fn commit_dirs(dirs: Set<Seq<char>>, remove: Set<Seq<char>>, target: Seq<char>) -> Set<
    Seq<char>,
> {
    dirs.difference(remove).insert(target)
}

/// What performing an action does to the filesystem, when it succeeds.
pub open spec fn effect(fs: FsModel, a: InstallAction) -> FsModel {
    match a {
        InstallAction::Extract => FsModel { dirs: fs.dirs, scratch: true },
        InstallAction::Commit { remove, target } => FsModel {
            dirs: commit_dirs(fs.dirs, name_set(remove@), target@),
            scratch: fs.scratch,
        },
        InstallAction::RemoveScratch => FsModel { dirs: fs.dirs, scratch: false },
        _ => fs,
    }
}

/// The folders among `dirs` that installing `target` removes.
pub open spec fn stale_set(dirs: Set<Seq<char>>, target: Seq<char>) -> Set<Seq<char>> {
    dirs.filter(|s: Seq<char>| is_stale(s, target))
}

pub open spec fn is_success_status(status: u16) -> bool {
    200 <= status < 300
}

impl Installer {
    /// A failure is only ever recorded on the way to the cleanup.
    pub open spec fn wf(&self) -> bool {
        !(self.stage is Cleanup) && !(self.stage is Finished) ==> self.failure is None
    }
    /// An install that starts by downloading the archive.
    pub fn new(package: String, download_url: &str, expected_hash: String) -> (r: Installer)
        ensures
            r.package@ == package@,
            r.url@ == archive_address(download_url@),
            r.expected_hash@ == expected_hash@,
            r.stage is Download,
            r.failure is None,
            r.wf(),
    {
        let url = archive_url(download_url);
        Installer {
            package,
            url,
            expected_hash,
            stage: Stage::Download,
            target: String::new(),
            failure: None,
        }
    }

    /// The archive address does not parse as a URL: the install ends with
    /// nothing sent and nothing written.
    pub fn on_invalid_url(&mut self) -> (a: InstallAction)
        requires
            old(self).wf(),
            old(self).stage is Download,
        ensures
            final(self).wf(),
            a matches InstallAction::Finish { result: Err(InstallError::InvalidUrl { package, url }) }
                && package@ == old(self).package@ && url@ == old(self).url@,
            final(self).stage is Finished,
    {
        self.stage = Stage::Finished;
        let package = self.package.clone();
        let url = self.url.clone();
        InstallAction::Finish { result: Err(InstallError::InvalidUrl { package, url }) }
    }

    /// The download request failed: the install ends with nothing written.
    pub fn on_request_failed(&mut self) -> (a: InstallAction)
        requires
            old(self).wf(),
            old(self).stage is Download,
        ensures
            final(self).wf(),
            a matches InstallAction::Finish { result: Err(InstallError::Request { package, url }) }
                && package@ == old(self).package@ && url@ == old(self).url@,
            final(self).stage is Finished,
    {
        self.stage = Stage::Finished;
        let package = self.package.clone();
        let url = self.url.clone();
        InstallAction::Finish { result: Err(InstallError::Request { package, url }) }
    }

    /// The server at `effective_url` answered with `status` and `body`: a
    /// non-success status or a digest mismatch ends the install with nothing
    /// written; otherwise the archive is unpacked next.
    pub fn on_downloaded(&mut self, status: u16, effective_url: String, body: &Vec<u8>) -> (a:
        InstallAction)
        requires
            old(self).wf(),
            old(self).stage is Download,
        ensures
            final(self).wf(),
            final(self).package@ == old(self).package@,
            final(self).expected_hash@ == old(self).expected_hash@,
            final(self).failure == old(self).failure,
            !is_success_status(status) ==> {
                &&& a matches InstallAction::Finish {
                    result: Err(InstallError::HttpStatus { package, status: s, url }),
                } && s == status && package@ == old(self).package@ && url@ == effective_url@
                &&& final(self).stage is Finished
            },
            is_success_status(status) && !integrity_ok(body@, old(self).expected_hash@) ==> {
                &&& a matches InstallAction::Finish {
                    result: Err(InstallError::IntegrityMismatch { package, expected, actual }),
                } && package@ == old(self).package@ && expected@ == old(self).expected_hash@
                    && actual@ == sha1_hex(body@)
                &&& final(self).stage is Finished
            },
            is_success_status(status) && integrity_ok(body@, old(self).expected_hash@) ==> {
                &&& a is Extract
                &&& final(self).stage is Extract
            },
    {
        if status < 200 || status >= 300 {
            self.stage = Stage::Finished;
            let package = self.package.clone();
            return InstallAction::Finish {
                result: Err(InstallError::HttpStatus { package, status, url: effective_url }),
            };
        }
        if !verify_integrity(body, self.expected_hash.as_str()) {
            self.stage = Stage::Finished;
            let actual = content_digest(body);
            let package = self.package.clone();
            let expected = self.expected_hash.clone();
            return InstallAction::Finish {
                result: Err(InstallError::IntegrityMismatch { package, expected, actual }),
            };
        }
        self.stage = Stage::Extract;
        InstallAction::Extract
    }

    /// Unpacking failed: the scratch directory is removed next.
    pub fn on_extract_failed(&mut self) -> (a: InstallAction)
        requires
            old(self).wf(),
            old(self).stage is Extract,
        ensures
            final(self).wf(),
            a is RemoveScratch,
            final(self).stage is Cleanup,
            final(self).failure == Some(InstallError::Archive),
    {
        self.stage = Stage::Cleanup;
        self.failure = Some(InstallError::Archive);
        InstallAction::RemoveScratch
    }

    /// The archive was unpacked; `manifest_dir` is the name of the folder
    /// where the walk first found a manifest, if it found one.
    pub fn on_extracted(&mut self, manifest_dir: Option<String>) -> (a: InstallAction)
        requires
            old(self).wf(),
            old(self).stage is Extract,
        ensures
            final(self).wf(),
            manifest_dir is None ==> {
                &&& a is RemoveScratch
                &&& final(self).stage is Cleanup
                &&& final(self).failure == Some(InstallError::MissingManifest)
            },
            manifest_dir is Some && canonical_of(manifest_dir->0@).len() == 0 ==> {
                &&& a is RemoveScratch
                &&& final(self).stage is Cleanup
                &&& final(self).failure == Some(InstallError::BadFolderName)
            },
            manifest_dir is Some && canonical_of(manifest_dir->0@).len() > 0 ==> {
                &&& a is ListRoot
                &&& final(self).stage is List
                &&& final(self).target@ == canonical_of(manifest_dir->0@)
                &&& final(self).failure == old(self).failure
            },
    {
        match manifest_dir {
            None => {
                self.stage = Stage::Cleanup;
                self.failure = Some(InstallError::MissingManifest);
                InstallAction::RemoveScratch
            },
            Some(d) => {
                let name = canonical_name(d.as_str());
                if name.as_str().unicode_len() == 0 {
                    self.stage = Stage::Cleanup;
                    self.failure = Some(InstallError::BadFolderName);
                    InstallAction::RemoveScratch
                } else {
                    self.target = name;
                    self.stage = Stage::List;
                    InstallAction::ListRoot
                }
            },
        }
    }

    /// The package root holds `names`: every other version of the package is
    /// removed and the new folder moved in under its canonical name.
    pub fn on_listed(&mut self, names: &Vec<String>) -> (a: InstallAction)
        requires
            old(self).wf(),
            old(self).stage is List,
        ensures
            final(self).wf(),
            final(self).stage is Commit,
            final(self).target@ == old(self).target@,
            final(self).failure == old(self).failure,
            a matches InstallAction::Commit { remove, target } && target@ == old(self).target@
                && name_set(remove@) == stale_set(name_set(names@), target@),
    {
        let remove = stale_versions(names, self.target.as_str());
        let target = self.target.clone();
        self.stage = Stage::Commit;
        assert(name_set(remove@) =~= stale_set(name_set(names@), target@));
        InstallAction::Commit { remove, target }
    }

    /// The package root could not be listed: nothing is committed, and the
    /// scratch directory is removed next.
    pub fn on_list_failed(&mut self) -> (a: InstallAction)
        requires
            old(self).wf(),
            old(self).stage is List,
        ensures
            final(self).wf(),
            a is RemoveScratch,
            final(self).stage is Cleanup,
            final(self).failure == Some(InstallError::Filesystem),
    {
        self.stage = Stage::Cleanup;
        self.failure = Some(InstallError::Filesystem);
        InstallAction::RemoveScratch
    }

    /// The commit was attempted: the scratch directory is removed next.
    pub fn on_committed(&mut self, ok: bool) -> (a: InstallAction)
        requires
            old(self).wf(),
            old(self).stage is Commit,
        ensures
            final(self).wf(),
            a is RemoveScratch,
            final(self).stage is Cleanup,
            final(self).target@ == old(self).target@,
            ok ==> final(self).failure is None,
            !ok ==> final(self).failure == Some(InstallError::Filesystem),
    {
        self.stage = Stage::Cleanup;
        if !ok {
            self.failure = Some(InstallError::Filesystem);
        }
        InstallAction::RemoveScratch
    }

    /// The scratch directory is gone: the install ends with the new folder's
    /// name, or with the failure recorded earlier.
    pub fn on_scratch_removed(&mut self) -> (a: InstallAction)
        requires
            old(self).wf(),
            old(self).stage is Cleanup,
        ensures
            final(self).wf(),
            final(self).stage is Finished,
            old(self).failure is None ==> (a matches InstallAction::Finish { result: Ok(t) } && t@
                == old(self).target@),
            old(self).failure matches Some(e) ==> a == (InstallAction::Finish { result: Err(e) }),
    {
        self.stage = Stage::Finished;
        match self.failure.take() {
            Some(e) => InstallAction::Finish { result: Err(e) },
            None => {
                let mut t = String::new();
                std::mem::swap(&mut t, &mut self.target);
                InstallAction::Finish { result: Ok(t) }
            },
        }
    }
}

/// A rejected download changes nothing: neither the package root nor the
/// scratch directory.
pub proof fn lemma_rejected_download_is_inert(fs: FsModel, a: InstallAction)
    requires
        a is Finish,
    ensures
        effect(fs, a) == fs,
{
}

/// Before the commit no action removes or adds a folder in the package root.
pub proof fn lemma_only_commit_changes_root(fs: FsModel, a: InstallAction)
    requires
        !(a is Commit),
    ensures
        effect(fs, a).dirs == fs.dirs,
{
}

/// After a commit of `target` over the listed folders, followed by the
/// scratch cleanup, the package root holds `target` and no other folder
/// sharing its slug, and the scratch directory is gone. (`target` must hold
/// a `_`, so that it shares its own slug.)
pub proof fn lemma_install_leaves_one_version(fs: FsModel, remove: Vec<String>, target: String)
    requires
        name_set(remove@) == stale_set(fs.dirs, target@),
        slug_end(target@) < target@.len(),
    ensures
        ({
            let after = effect(
                effect(fs, InstallAction::Commit { remove, target }),
                InstallAction::RemoveScratch,
            );
            &&& after.dirs.contains(target@)
            &&& shares_slug(target@, target@)
            &&& forall|s: Seq<char>| #[trigger]
                after.dirs.contains(s) && shares_slug(s, target@) ==> s == target@
            &&& !after.scratch
        }),
{
    let t = target@;
    lemma_slug_end_exists(t, 0);
    let k = slug_end(t);
    assert(is_slug_end(t, k));
    assert(shares_slug(t, t));
}

} // verus!
