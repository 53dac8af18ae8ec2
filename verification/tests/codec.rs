use pkgstrap::{
    Config, ConfigOverrides, Dependency, DependencyOverride, DependencySource, GitRef,
    ResolveError, ResolvedDependency, Resolver,
};

#[test]
fn checkout_refs() {
    assert_eq!(
        GitRef::Branch {
            branch: "main".to_string()
        }
        .to_checkout_refspec(),
        "refs/remotes/origin/main"
    );
    assert_eq!(
        GitRef::Tag {
            tag: "1.0.0".to_string()
        }
        .to_checkout_refspec(),
        "refs/tags/1.0.0"
    );
    assert_eq!(
        GitRef::Commit {
            branch: "main".to_string(),
            commit: "12f123".to_owned()
        }
        .to_checkout_refspec(),
        "12f123"
    );
}

#[test]
fn lib_checkout_refs() {
    assert_eq!(
        GitRef::Branch {
            branch: "main".to_string()
        }
        .to_checkout_refspec(),
        "refs/remotes/origin/main"
    );
    assert_eq!(
        GitRef::Tag {
            tag: "1.0.0".to_string()
        }
        .to_checkout_refspec(),
        "refs/tags/1.0.0"
    );
    assert_eq!(
        GitRef::Commit {
            branch: "main".to_string(),
            commit: "12f123".to_owned()
        }
        .to_checkout_refspec(),
        "12f123"
    );
}

#[test]
fn fetch_refs() {
    assert_eq!(
        GitRef::Branch {
            branch: "dev".to_string()
        }
        .to_fetch_ref(),
        "dev"
    );
    assert_eq!(
        GitRef::Tag {
            tag: "2.1.0".to_string()
        }
        .to_fetch_ref(),
        "2.1.0"
    );
    assert_eq!(
        GitRef::Commit {
            branch: "dev".to_string(),
            commit: "abc123".to_string()
        }
        .to_fetch_ref(),
        "dev"
    );
}

#[test]
fn checked_refspec_accepts_valid_names() {
    let r = GitRef::Branch {
        branch: "main".to_string(),
    };
    assert_eq!(
        r.checkout_refspec_checked(),
        Some("refs/remotes/origin/main".to_string())
    );
    let t = GitRef::Tag {
        tag: "v1".to_string(),
    };
    assert_eq!(
        t.checkout_refspec_checked(),
        Some("refs/tags/v1".to_string())
    );
}

#[test]
fn checked_refspec_rejects_invalid_names() {
    // A name with a space, and one with "..", are not valid reference names.
    let bad = GitRef::Branch {
        branch: "no spaces allowed".to_string(),
    };
    assert_eq!(bad.checkout_refspec_checked(), None);
    let dots = GitRef::Tag {
        tag: "a..b".to_string(),
    };
    assert_eq!(dots.checkout_refspec_checked(), None);
    // A raw commit hash is taken as given, never validated as a ref name.
    let c = GitRef::Commit {
        branch: "main".to_string(),
        commit: "deadbeef".to_string(),
    };
    assert_eq!(
        c.checkout_refspec_checked(),
        Some("deadbeef".to_string())
    );
}

fn base_entry(name: &str, url: &str, git_ref: GitRef) -> (String, Dependency) {
    (
        name.to_string(),
        Dependency {
            source: DependencySource::GitRepository {
                git_repo: url.to_string(),
                git_ref,
            },
            target: None,
        },
    )
}

#[test]
fn resolve_without_overrides() {
    let config = Config {
        dependencies: vec![base_entry(
            "foo",
            "https://example.com/org/foo.git",
            GitRef::Branch {
                branch: "main".to_string(),
            },
        )],
    };
    let resolved = Resolver::new(config).resolve_all().unwrap();
    assert_eq!(resolved.len(), 1);
    assert_eq!(resolved[0].0, "foo");
    assert_eq!(
        resolved[0].1,
        ResolvedDependency::GitRepository {
            url: "https://example.com/org/foo.git".to_string(),
            fetch_ref: "main".to_string(),
            checkout_ref: "refs/remotes/origin/main".to_string(),
        }
    );
}

#[test]
fn override_ref_keeps_base_url() {
    // An override with no URL and ref R2: the result has the base URL U1 and
    // exactly R2's ref strings, never a field-by-field ref merge.
    let config = Config {
        dependencies: vec![base_entry(
            "foo",
            "https://example.com/org/foo.git",
            GitRef::Commit {
                branch: "main".to_string(),
                commit: "abc".to_string(),
            },
        )],
    };
    let overrides = ConfigOverrides {
        dependencies: vec![(
            "foo".to_string(),
            DependencyOverride::GitRepository {
                git_repo: None,
                git_ref: GitRef::Tag {
                    tag: "v2".to_string(),
                },
            },
        )],
    };
    let resolved = Resolver::new(config)
        .with_config_overrides(overrides)
        .resolve_all()
        .unwrap();
    assert_eq!(
        resolved[0].1,
        ResolvedDependency::GitRepository {
            url: "https://example.com/org/foo.git".to_string(),
            fetch_ref: "v2".to_string(),
            checkout_ref: "refs/tags/v2".to_string(),
        }
    );
}

#[test]
fn override_url_replaces_base_url() {
    let config = Config {
        dependencies: vec![base_entry(
            "foo",
            "https://example.com/org/foo.git",
            GitRef::Branch {
                branch: "main".to_string(),
            },
        )],
    };
    let overrides = ConfigOverrides {
        dependencies: vec![(
            "foo".to_string(),
            DependencyOverride::GitRepository {
                git_repo: Some("https://example.com/fork/foo.git".to_string()),
                git_ref: GitRef::Branch {
                    branch: "fix".to_string(),
                },
            },
        )],
    };
    let resolved = Resolver::new(config)
        .with_config_overrides(overrides)
        .resolve_all()
        .unwrap();
    assert_eq!(
        resolved[0].1,
        ResolvedDependency::GitRepository {
            url: "https://example.com/fork/foo.git".to_string(),
            fetch_ref: "fix".to_string(),
            checkout_ref: "refs/remotes/origin/fix".to_string(),
        }
    );
}

#[test]
fn missing_url_everywhere_fails() {
    // Base omits the URL and the override omits it too.
    let config = Config {
        dependencies: vec![base_entry(
            "foo",
            "",
            GitRef::Branch {
                branch: "main".to_string(),
            },
        )],
    };
    let overrides = ConfigOverrides {
        dependencies: vec![(
            "foo".to_string(),
            DependencyOverride::GitRepository {
                git_repo: None,
                git_ref: GitRef::Branch {
                    branch: "dev".to_string(),
                },
            },
        )],
    };
    let err = Resolver::new(config)
        .with_config_overrides(overrides)
        .resolve_all()
        .unwrap_err();
    assert_eq!(
        err,
        ResolveError::MissingRepositoryUrl {
            name: "foo".to_string()
        }
    );
}

#[test]
fn local_path_override_missing_path_fails() {
    let config = Config {
        dependencies: vec![base_entry(
            "foo",
            "https://example.com/org/foo.git",
            GitRef::Branch {
                branch: "main".to_string(),
            },
        )],
    };
    let overrides = ConfigOverrides {
        dependencies: vec![(
            "foo".to_string(),
            DependencyOverride::LocalPath {
                local_path: "this/path/should/not/exist/anywhere".to_string(),
            },
        )],
    };
    let err = Resolver::new(config)
        .with_config_overrides(overrides)
        .resolve_all()
        .unwrap_err();
    assert_eq!(
        err,
        ResolveError::InvalidPath {
            path: "this/path/should/not/exist/anywhere".to_string()
        }
    );
}

#[test]
fn local_path_override_keeps_user_spelling() {
    let config = Config {
        dependencies: vec![base_entry(
            "foo",
            "https://example.com/org/foo.git",
            GitRef::Branch {
                branch: "main".to_string(),
            },
        )],
    };
    let overrides = ConfigOverrides {
        dependencies: vec![(
            "foo".to_string(),
            DependencyOverride::LocalPath {
                local_path: ".".to_string(),
            },
        )],
    };
    let resolved = Resolver::new(config)
        .with_config_overrides(overrides)
        .resolve_all()
        .unwrap();
    assert_eq!(
        resolved[0].1,
        ResolvedDependency::LocalPath {
            local_path: ".".to_string()
        }
    );
}

#[test]
fn checked_resolution_reports_invalid_ref_name() {
    let config = Config {
        dependencies: vec![base_entry(
            "foo",
            "https://example.com/org/foo.git",
            GitRef::Branch {
                branch: "bad name".to_string(),
            },
        )],
    };
    let err = Resolver::new(config).resolve_all_checked().unwrap_err();
    assert_eq!(
        err,
        ResolveError::InvalidRefName {
            name: "foo".to_string()
        }
    );
}

#[test]
fn ignored_override_names_do_not_affect_resolution() {
    let config = Config {
        dependencies: vec![base_entry(
            "foo",
            "https://example.com/org/foo.git",
            GitRef::Branch {
                branch: "main".to_string(),
            },
        )],
    };
    let overrides = ConfigOverrides {
        dependencies: vec![(
            "bar".to_string(),
            DependencyOverride::LocalPath {
                local_path: "does/not/matter".to_string(),
            },
        )],
    };
    let resolved = Resolver::new(config)
        .with_config_overrides(overrides)
        .resolve_all_checked()
        .unwrap();
    assert_eq!(resolved.len(), 1);
    assert_eq!(
        resolved[0].1,
        ResolvedDependency::GitRepository {
            url: "https://example.com/org/foo.git".to_string(),
            fetch_ref: "main".to_string(),
            checkout_ref: "refs/remotes/origin/main".to_string(),
        }
    );
}

#[test]
fn git_repo_url_reads_the_source() {
    let source = DependencySource::GitRepository {
        git_repo: "https://example.com/a/b".to_string(),
        git_ref: GitRef::Branch {
            branch: "main".to_string(),
        },
    };
    assert_eq!(
        source.git_repo_url(),
        Some(&"https://example.com/a/b".to_string())
    );
    let dep = Dependency {
        source,
        target: None,
    };
    assert_eq!(
        dep.git_repo_url(),
        Some(&"https://example.com/a/b".to_string())
    );
}
