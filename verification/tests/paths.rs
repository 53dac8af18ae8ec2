use pkgstrap::{normalize_url_for_dir, UrlError};

#[test]
fn normalize_urls() {
    assert_eq!(
        normalize_url_for_dir(&"https://github.com/torkleyy/async-rust-parser.git".to_string())
            .unwrap(),
        "github.com/torkleyy/async-rust-parser"
    );
}

#[test]
fn normalize_with_and_without_git_suffix_agree() {
    let with = normalize_url_for_dir(&"https://github.com/org/repo.git".to_string()).unwrap();
    let without = normalize_url_for_dir(&"https://github.com/org/repo".to_string()).unwrap();
    assert_eq!(with, "github.com/org/repo");
    assert_eq!(with, without);
}

#[test]
fn normalize_twice_is_identical() {
    let url = "https://example.com/some/deep/path/repo.git".to_string();
    let first = normalize_url_for_dir(&url).unwrap();
    let second = normalize_url_for_dir(&url).unwrap();
    assert_eq!(first, second);
    assert_eq!(first, "example.com/some/deep/path/repo");
}

#[test]
fn normalize_url_without_path_keeps_domain_rule() {
    // With no path segments the domain itself is the final component, so its
    // trailing extension is stripped like any other.
    assert_eq!(
        normalize_url_for_dir(&"https://example.com".to_string()).unwrap(),
        "example"
    );
}

#[test]
fn normalize_rejects_unparsable() {
    assert_eq!(
        normalize_url_for_dir(&"not a url at all".to_string()),
        Err(UrlError::Unparsable)
    );
}

#[test]
fn normalize_rejects_missing_domain() {
    assert_eq!(
        normalize_url_for_dir(&"file:///tmp/somewhere".to_string()),
        Err(UrlError::MissingDomain)
    );
}
