use pkgstrap::gitcache::cache_shape_acceptable;
use pkgstrap::{cache_repo_path, get_or_create_bare, CacheError};

fn scratch(name: &str) -> String {
    let dir = format!("/tmp/pkgstrap_scratch_{}", name);
    let _ = remove_dir_all::remove_dir_all(&dir);
    fs_extra::dir::create_all(&dir, true).unwrap();
    dir
}

#[test]
fn cache_path_is_root_plus_normalized_url() {
    let root = "/srv/repos".to_string();
    let url = "https://github.com/org/repo.git".to_string();
    assert_eq!(
        cache_repo_path(&root, &url).unwrap(),
        "/srv/repos/github.com/org/repo"
    );
}

#[test]
fn cache_path_rejects_bad_urls() {
    let root = "/srv/repos".to_string();
    assert_eq!(
        cache_repo_path(&root, &"no url here".to_string()),
        Err(CacheError::UnparsableUrl {
            url: "no url here".to_string()
        })
    );
    assert_eq!(
        cache_repo_path(&root, &"file:///x/y".to_string()),
        Err(CacheError::MissingDomain {
            url: "file:///x/y".to_string()
        })
    );
}

#[test]
fn cache_refuses_non_bare_repository() {
    let root = scratch("cache_nonbare");
    let url = "https://example.com/org/thing.git".to_string();
    let entry = cache_repo_path(&root, &url).unwrap();
    // A non-bare repository occupies the cache entry: corrupted external
    // state, reported rather than repaired.
    git2::Repository::init(&entry).unwrap();

    let err = match get_or_create_bare(&root, &url) {
        Ok(_) => panic!("a non-bare cache entry must be refused"),
        Err(e) => e,
    };
    assert_eq!(err, CacheError::WrongRepoKind { path: entry });
}

#[test]
fn cache_refuses_unopenable_entry() {
    let root = scratch("cache_plain");
    let url = "https://example.com/org/other.git".to_string();
    let entry = cache_repo_path(&root, &url).unwrap();
    // A plain directory occupies the cache entry.
    fs_extra::dir::create_all(&entry, false).unwrap();

    let err = match get_or_create_bare(&root, &url) {
        Ok(_) => panic!("a plain directory must not open as a cache repository"),
        Err(e) => e,
    };
    assert_eq!(err, CacheError::OpenFailed { path: entry });
}

#[test]
fn cache_opens_existing_bare_repository() {
    let root = scratch("cache_bare");
    let url = "https://example.com/org/good.git".to_string();
    let entry = cache_repo_path(&root, &url).unwrap();
    git2::Repository::init_bare(&entry).unwrap();

    let repo = match get_or_create_bare(&root, &url) {
        Ok(r) => r,
        Err(e) => panic!("expected the bare cache entry to open: {:?}", e),
    };
    assert!(repo.is_bare());
}

#[test]
fn cache_shape_decision_requires_bare_non_worktree() {
    assert!(cache_shape_acceptable(false, true));
    assert!(!cache_shape_acceptable(true, true));
    assert!(!cache_shape_acceptable(false, false));
    assert!(!cache_shape_acceptable(true, false));
}
