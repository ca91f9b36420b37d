use mod_manager::install::{InstallAction, InstallError, Installer, Stage};
use mod_manager::integrity::{content_digest, digest_matches, verify_integrity};
use mod_manager::release::{decide_update, RemoteRelease, UpdateDecision};
use mod_manager::naming::{canonical_name, is_stale_version, same_text, slug, slug_len, stale_versions};

/// Applies an action to a package root held as a list of folder names.
fn apply(root: &mut Vec<String>, scratch: &mut bool, action: &InstallAction) {
    match action {
        InstallAction::Extract => *scratch = true,
        InstallAction::Commit { remove, target } => {
            root.retain(|d| !remove.contains(d));
            root.push(target.clone());
        }
        InstallAction::RemoveScratch => *scratch = false,
        _ => {}
    }
}

fn names(v: &[&str]) -> Vec<String> {
    v.iter().map(|s| s.to_string()).collect()
}

#[test]
fn digest_of_known_input() {
    let d = content_digest(&b"abc".to_vec());
    assert_eq!(d, "a9993e364706816aba3e25717850c26c9cd0d89d");
    assert_eq!(content_digest(&Vec::new()), "da39a3ee5e6b4b0d3255bfef95601890afd80709");
}

#[test]
fn integrity_accepts_matching_digest_in_any_case() {
    let body = b"abc".to_vec();
    assert!(verify_integrity(&body, "a9993e364706816aba3e25717850c26c9cd0d89d"));
    assert!(verify_integrity(&body, "A9993E364706816ABA3E25717850C26C9CD0D89D"));
}

#[test]
fn integrity_rejects_flipped_byte() {
    let mut body = b"payload bytes".to_vec();
    let expected = content_digest(&body);
    assert!(verify_integrity(&body, &expected));
    body[3] ^= 0x01;
    assert!(!verify_integrity(&body, &expected));
}

#[test]
fn integrity_rejects_wrong_or_truncated_digest() {
    let body = b"abc".to_vec();
    assert!(!verify_integrity(&body, "a9993e364706816aba3e25717850c26c9cd0d89e"));
    assert!(!verify_integrity(&body, "a9993e364706816aba3e25717850c26c9cd0d89"));
    assert!(!verify_integrity(&body, ""));
}

#[test]
fn digest_comparison_ignores_ascii_case_only() {
    assert!(digest_matches("abcdef", "ABCDEF"));
    assert!(!digest_matches("abcdef", "abcdeg"));
    assert!(!digest_matches("abc", "abcd"));
    assert!(!digest_matches("a[", "A{"));
}

#[test]
fn canonical_name_strips_archive_extension() {
    assert_eq!(canonical_name("boblogistics_1.3.0.zip"), "boblogistics_1.3.0");
    assert_eq!(canonical_name("boblogistics_1.3.0"), "boblogistics_1.3.0");
    assert_eq!(canonical_name("a.zip.zip"), "a");
    assert_eq!(canonical_name(".zip"), "");
}

#[test]
fn slug_is_text_before_first_underscore() {
    assert_eq!(slug("boblogistics_1.3.0"), "boblogistics");
    assert_eq!(slug("a_b_c"), "a");
    assert_eq!(slug("plain"), "plain");
    assert_eq!(slug_len("_x"), 0);
}

#[test]
fn stale_versions_share_the_slug_only() {
    assert!(is_stale_version("boblogistics_1.2.0", "boblogistics_1.3.0"));
    assert!(!is_stale_version("boblogistics_1.3.0", "boblogistics_1.3.0"));
    assert!(!is_stale_version("boblogisticsx_1.0.0", "boblogistics_1.3.0"));
    assert!(!is_stale_version("boblogistics", "boblogistics_1.3.0"));
    assert!(!is_stale_version("bobplates_1.0.0", "boblogistics_1.3.0"));
    let root = names(&["boblogistics_1.2.0", "bobplates_1.0.0", "boblogistics_1.1.0", "boblogistics_1.3.0"]);
    assert_eq!(stale_versions(&root, "boblogistics_1.3.0"), names(&["boblogistics_1.2.0", "boblogistics_1.1.0"]));
}

#[test]
fn same_text_compares_exactly() {
    assert!(same_text("core", "core"));
    assert!(!same_text("core", "Core"));
    assert!(!same_text("core", "cores"));
}

#[test]
fn successful_install_leaves_single_version() {
    let body = b"zip archive bytes".to_vec();
    let hash = content_digest(&body);
    let mut root = names(&["boblogistics_1.2.0", "bobplates_1.0.0"]);
    let mut scratch = false;
    let mut inst = Installer::new("boblogistics".to_string(), "/download/pkg", hash.to_uppercase());

    let a = inst.on_downloaded(200, "https://mods.factorio.com/download/pkg".to_string(), &body);
    assert!(matches!(a, InstallAction::Extract));
    apply(&mut root, &mut scratch, &a);
    assert!(scratch);

    let a = inst.on_extracted(Some("boblogistics_1.3.0.zip".to_string()));
    assert!(matches!(a, InstallAction::ListRoot));
    assert_eq!(inst.target, "boblogistics_1.3.0");

    let a = inst.on_listed(&root);
    match &a {
        InstallAction::Commit { remove, target } => {
            assert_eq!(remove, &names(&["boblogistics_1.2.0"]));
            assert_eq!(target, "boblogistics_1.3.0");
        }
        _ => panic!("expected a commit"),
    }
    apply(&mut root, &mut scratch, &a);

    let a = inst.on_committed(true);
    assert!(matches!(a, InstallAction::RemoveScratch));
    apply(&mut root, &mut scratch, &a);

    let a = inst.on_scratch_removed();
    match a {
        InstallAction::Finish { result: Ok(folder) } => assert_eq!(folder, "boblogistics_1.3.0"),
        _ => panic!("expected success"),
    }
    assert!(matches!(inst.stage, Stage::Finished));
    assert!(!scratch);
    let mut sorted = root.clone();
    sorted.sort();
    assert_eq!(sorted, names(&["boblogistics_1.3.0", "bobplates_1.0.0"]));
}

#[test]
fn digest_mismatch_changes_nothing() {
    let body = b"tampered bytes".to_vec();
    let root_before = names(&["boblogistics_1.2.0"]);
    let mut root = root_before.clone();
    let mut scratch = false;
    let mut inst = Installer::new("boblogistics".to_string(), "/download/pkg", "0000000000000000000000000000000000000000".to_string());
    let a = inst.on_downloaded(200, "https://mods.factorio.com/download/pkg".to_string(), &body);
    apply(&mut root, &mut scratch, &a);
    match a {
        InstallAction::Finish { result: Err(InstallError::IntegrityMismatch { package, expected, actual }) } => {
            assert_eq!(package, "boblogistics");
            assert_eq!(expected, "0000000000000000000000000000000000000000");
            assert_eq!(actual, content_digest(&body));
        }
        _ => panic!("expected a digest mismatch"),
    }
    assert_eq!(root, root_before);
    assert!(!scratch);
    assert!(matches!(inst.stage, Stage::Finished));
}

#[test]
fn http_error_ends_install() {
    let mut inst = Installer::new("p".to_string(), "/download/pkg", String::new());
    let a = inst.on_downloaded(404, "https://cdn.example.com/p.zip".to_string(), &Vec::new());
    match a {
        InstallAction::Finish { result: Err(InstallError::HttpStatus { package, status, url }) } => {
            assert_eq!(package, "p");
            assert_eq!(status, 404);
            assert_eq!(url, "https://cdn.example.com/p.zip");
        }
        _ => panic!("expected an HTTP error"),
    }
}

#[test]
fn request_failure_ends_install() {
    let mut inst = Installer::new("p".to_string(), "/download/pkg", String::new());
    assert_eq!(inst.url, "https://mods.factorio.com//download/pkg");
    match inst.on_request_failed() {
        InstallAction::Finish { result: Err(InstallError::Request { package, url }) } => {
            assert_eq!(package, "p");
            assert_eq!(url, "https://mods.factorio.com//download/pkg");
        }
        _ => panic!("expected a request error"),
    }
}

#[test]
fn invalid_url_ends_install_naming_package_and_url() {
    let mut inst = Installer::new("p".to_string(), "https://", String::new());
    match inst.on_invalid_url() {
        InstallAction::Finish { result: Err(InstallError::InvalidUrl { package, url }) } => {
            assert_eq!(package, "p");
            assert_eq!(url, "https://");
        }
        _ => panic!("expected an invalid-URL error"),
    }
    assert!(matches!(inst.stage, Stage::Finished));
}

#[test]
fn archive_without_manifest_cleans_scratch_and_fails() {
    let body = b"x".to_vec();
    let mut inst = Installer::new("p".to_string(), "/download/pkg", content_digest(&body));
    assert!(matches!(inst.on_downloaded(200, "https://mods.factorio.com/download/pkg".to_string(), &body), InstallAction::Extract));
    assert!(matches!(inst.on_extracted(None), InstallAction::RemoveScratch));
    assert!(matches!(inst.on_scratch_removed(), InstallAction::Finish { result: Err(InstallError::MissingManifest) }));
}

#[test]
fn unreadable_archive_cleans_scratch_and_fails() {
    let body = b"x".to_vec();
    let mut inst = Installer::new("p".to_string(), "/download/pkg", content_digest(&body));
    inst.on_downloaded(200, "https://mods.factorio.com/download/pkg".to_string(), &body);
    assert!(matches!(inst.on_extract_failed(), InstallAction::RemoveScratch));
    assert!(matches!(inst.on_scratch_removed(), InstallAction::Finish { result: Err(InstallError::Archive) }));
}

#[test]
fn unnamed_package_folder_fails() {
    let body = b"x".to_vec();
    let mut inst = Installer::new("p".to_string(), "/download/pkg", content_digest(&body));
    inst.on_downloaded(200, "https://mods.factorio.com/download/pkg".to_string(), &body);
    assert!(matches!(inst.on_extracted(Some(".zip".to_string())), InstallAction::RemoveScratch));
    assert!(matches!(inst.on_scratch_removed(), InstallAction::Finish { result: Err(InstallError::BadFolderName) }));
}

#[test]
fn failed_commit_still_removes_scratch() {
    let body = b"x".to_vec();
    let mut inst = Installer::new("p".to_string(), "/download/pkg", content_digest(&body));
    inst.on_downloaded(200, "https://mods.factorio.com/download/pkg".to_string(), &body);
    inst.on_extracted(Some("p_2.0.0".to_string()));
    inst.on_listed(&names(&["p_1.0.0"]));
    assert!(matches!(inst.on_committed(false), InstallAction::RemoveScratch));
    assert!(matches!(inst.on_scratch_removed(), InstallAction::Finish { result: Err(InstallError::Filesystem) }));
}

#[test]
fn unlistable_root_commits_nothing() {
    let body = b"x".to_vec();
    let mut inst = Installer::new("p".to_string(), "/download/pkg", content_digest(&body));
    inst.on_downloaded(200, "https://mods.factorio.com/download/pkg".to_string(), &body);
    inst.on_extracted(Some("p_2.0.0".to_string()));
    assert!(matches!(inst.on_list_failed(), InstallAction::RemoveScratch));
    assert!(matches!(inst.on_scratch_removed(), InstallAction::Finish { result: Err(InstallError::Filesystem) }));
}

#[test]
fn outdated_package_is_replaced_by_newest_release() {
    let payload = b"boblogistics 1.3.0 archive".to_vec();
    let rel = |v: &str, sha1: String| RemoteRelease {
        version: v.to_string(),
        download_url: format!("/download/boblogistics/{}", v),
        file_name: format!("boblogistics_{}.zip", v),
        sha1,
    };
    let releases = vec![
        rel("1.2.0", "1111111111111111111111111111111111111111".to_string()),
        rel("1.3.0", content_digest(&payload)),
        rel("invalid", String::new()),
    ];
    let chosen = match decide_update("1.2.0", &releases) {
        Ok(UpdateDecision::Install { index, .. }) => &releases[index],
        _ => panic!("expected an install"),
    };
    let mut root = names(&["boblogistics_1.2.0"]);
    let mut scratch = false;
    let mut inst = Installer::new("boblogistics".to_string(), &chosen.download_url, chosen.sha1.clone());
    let mut action = inst.on_downloaded(200, "https://mods.factorio.com/download/pkg".to_string(), &payload);
    loop {
        apply(&mut root, &mut scratch, &action);
        action = match action {
            InstallAction::Extract => inst.on_extracted(Some(chosen.file_name.clone())),
            InstallAction::ListRoot => inst.on_listed(&root),
            InstallAction::Commit { .. } => inst.on_committed(true),
            InstallAction::RemoveScratch => inst.on_scratch_removed(),
            InstallAction::Finish { result } => {
                assert_eq!(result.ok(), Some("boblogistics_1.3.0".to_string()));
                break;
            }
            InstallAction::Download => panic!("unexpected download"),
        };
    }
    assert_eq!(root, names(&["boblogistics_1.3.0"]));
    assert!(!scratch);
}
