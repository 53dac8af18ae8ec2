use pkgstrap::links::classify_link;
use pkgstrap::{
    ensure_symlink, link_plan, AcquireError, CommitTransition, DependencyDirs, Directories,
    LinkAction, LinkError, LinkProbe, ResolvedDependency,
};

fn scratch(name: &str) -> String {
    let dir = format!("/tmp/pkgstrap_scratch_{}", name);
    let _ = remove_dir_all::remove_dir_all(&dir);
    fs_extra::dir::create_all(&dir, true).unwrap();
    dir
}

/// Where a symlink leads, as the canonical path of what it points at.
fn link_destination(link: &str) -> String {
    assert!(std::path::Path::new(link).is_symlink());
    canonical(link)
}

fn canonical(p: &str) -> String {
    std::path::Path::new(p)
        .canonicalize()
        .unwrap()
        .to_string_lossy()
        .into_owned()
}

#[test]
fn ensure_symlink_twice_is_idempotent() {
    let dir = scratch("link_idem");
    let source = format!("{}/source", dir);
    fs_extra::dir::create_all(&source, false).unwrap();
    let link = format!("{}/link", dir);

    ensure_symlink(&link, &source).unwrap();
    ensure_symlink(&link, &source).unwrap();

    assert_eq!(link_destination(&link), canonical(&source));
}

#[test]
fn ensure_symlink_refuses_real_directory() {
    let dir = scratch("link_refuse");
    let source = format!("{}/source", dir);
    fs_extra::dir::create_all(&source, false).unwrap();
    let link = format!("{}/link", dir);
    fs_extra::dir::create_all(&link, false).unwrap();
    fs_extra::file::write_all(format!("{}/precious.txt", link), "keep me").unwrap();

    let err = ensure_symlink(&link, &source).unwrap_err();
    assert_eq!(err, LinkError::PathConflict { path: link.clone() });

    // Nothing was deleted: the directory and its file are still there.
    assert!(std::path::Path::new(&link).is_dir());
    assert_eq!(
        fs_extra::file::read_to_string(format!("{}/precious.txt", link)).unwrap(),
        "keep me"
    );
}

#[test]
fn ensure_symlink_replaces_stale_link() {
    let dir = scratch("link_stale");
    let old_source = format!("{}/old", dir);
    let new_source = format!("{}/new", dir);
    fs_extra::dir::create_all(&old_source, false).unwrap();
    fs_extra::dir::create_all(&new_source, false).unwrap();
    let link = format!("{}/link", dir);

    ensure_symlink(&link, &old_source).unwrap();
    assert_eq!(link_destination(&link), canonical(&old_source));

    // A stale symlink from a previous run is replaced without error.
    ensure_symlink(&link, &new_source).unwrap();
    assert_eq!(link_destination(&link), canonical(&new_source));
}

#[test]
fn ensure_symlink_rejects_missing_source() {
    let dir = scratch("link_nosource");
    let source = format!("{}/never_created", dir);
    let link = format!("{}/link", dir);
    let err = ensure_symlink(&link, &source).unwrap_err();
    assert_eq!(err, LinkError::CanonicalizeFailed { path: source });
}

fn dirs_for(dir: &str) -> DependencyDirs {
    DependencyDirs {
        base: Directories {
            pkgstrap_dir: format!("{}/.pkgstrap", dir),
            deps_dir: format!("{}/.pkgstrap/deps", dir),
            local_git_workdirs: format!("{}/.pkgstrap/git", dir),
            global_git_repos: format!("{}/repos", dir),
        },
        std_target_dir: format!("{}/.pkgstrap/deps/foo", dir),
        in_tree_target_dirs: vec![],
        local_git_worktree: format!("{}/.pkgstrap/git/foo", dir),
    }
}

#[test]
fn acquire_local_path_links_target() {
    let dir = scratch("acquire_local");
    let payload = format!("{}/payload", dir);
    fs_extra::dir::create_all(&payload, false).unwrap();
    fs_extra::dir::create_all(format!("{}/.pkgstrap/deps", dir), false).unwrap();

    let resolved = ResolvedDependency::LocalPath {
        local_path: payload.clone(),
    };
    let dirs = dirs_for(&dir);
    let transition = resolved.acquire(&dirs).unwrap();
    assert_eq!(transition, None);
    assert_eq!(link_destination(&dirs.std_target_dir), canonical(&payload));
}

#[test]
fn acquire_local_path_replaces_stale_target_link() {
    let dir = scratch("acquire_stale");
    let payload = format!("{}/payload", dir);
    let elsewhere = format!("{}/elsewhere", dir);
    fs_extra::dir::create_all(&payload, false).unwrap();
    fs_extra::dir::create_all(&elsewhere, false).unwrap();
    fs_extra::dir::create_all(format!("{}/.pkgstrap/deps", dir), false).unwrap();

    let dirs = dirs_for(&dir);
    // A stale link from a previous run points somewhere else.
    ensure_symlink(&dirs.std_target_dir, &elsewhere).unwrap();

    let resolved = ResolvedDependency::LocalPath {
        local_path: payload.clone(),
    };
    resolved.acquire(&dirs).unwrap();
    assert_eq!(link_destination(&dirs.std_target_dir), canonical(&payload));
}

#[test]
fn acquire_local_path_fills_in_tree_targets() {
    let dir = scratch("acquire_intree");
    let payload = format!("{}/payload", dir);
    fs_extra::dir::create_all(&payload, false).unwrap();
    fs_extra::dir::create_all(format!("{}/.pkgstrap/deps", dir), false).unwrap();

    let mut dirs = dirs_for(&dir);
    dirs.in_tree_target_dirs = vec![format!("{}/mirror", dir)];
    let resolved = ResolvedDependency::LocalPath {
        local_path: payload.clone(),
    };
    resolved.acquire(&dirs).unwrap();
    // The in-tree mirror points at the primary target.
    assert_eq!(
        link_destination(&format!("{}/mirror", dir)),
        canonical(&dirs.std_target_dir)
    );
}

#[test]
fn acquire_refuses_occupied_target() {
    let dir = scratch("acquire_occupied");
    let payload = format!("{}/payload", dir);
    fs_extra::dir::create_all(&payload, false).unwrap();
    fs_extra::dir::create_all(format!("{}/.pkgstrap/deps", dir), false).unwrap();

    let dirs = dirs_for(&dir);
    fs_extra::dir::create_all(&dirs.std_target_dir, false).unwrap();

    let resolved = ResolvedDependency::LocalPath {
        local_path: payload.clone(),
    };
    let err = resolved.acquire(&dirs).unwrap_err();
    assert_eq!(
        err,
        AcquireError::Link(LinkError::PathConflict {
            path: dirs.std_target_dir.clone()
        })
    );
}

#[test]
fn commit_transition_reports_movement() {
    let same = CommitTransition {
        before: "abc".to_string(),
        after: "abc".to_string(),
    };
    assert!(!same.updated());
    let moved = CommitTransition {
        before: "abc".to_string(),
        after: "def".to_string(),
    };
    assert!(moved.updated());
}

#[test]
fn link_plan_decides_per_observed_state() {
    assert_eq!(link_plan(LinkProbe::IsSymlink), LinkAction::ReplaceLink);
    assert_eq!(link_plan(LinkProbe::Absent), LinkAction::CreateLink);
    assert_eq!(link_plan(LinkProbe::Occupied), LinkAction::RefuseConflict);
}

#[test]
fn ensure_symlink_reports_failed_creation() {
    let dir = scratch("link_noparent");
    let source = format!("{}/source", dir);
    fs_extra::dir::create_all(&source, false).unwrap();
    // The link path's parent directory does not exist, so creation fails.
    let link = format!("{}/missing_parent/link", dir);
    let err = ensure_symlink(&link, &source).unwrap_err();
    assert_eq!(err, LinkError::SymlinkFailed { path: link });
}

#[test]
fn classify_link_maps_raw_probes() {
    assert_eq!(classify_link(true, true), LinkProbe::IsSymlink);
    // A dangling symlink: the path itself is a link though nothing is behind it.
    assert_eq!(classify_link(true, false), LinkProbe::IsSymlink);
    assert_eq!(classify_link(false, true), LinkProbe::Occupied);
    assert_eq!(classify_link(false, false), LinkProbe::Absent);
}
