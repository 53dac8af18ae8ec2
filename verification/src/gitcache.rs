//! The global repository cache: one bare git repository per distinct
//! normalized URL, shared by every dependency and project that references
//! that URL.

use vstd::prelude::*;
use vstd::string::*;

use crate::fsprobe::path_exists;
use crate::gitwrap::{clone_bare, open_repo, repo_is_bare, repo_is_worktree};
use crate::urlnorm::{normalize_url_for_dir, normalized_of, url_domain_of, url_parse_ok, UrlError};

verus! {

/// Why a cache repository cannot be produced.
#[derive(Debug, Clone, PartialEq, Eq)]
pub enum CacheError {
    /// The URL does not parse.
    UnparsableUrl { url: String },
    /// The URL parses but has no domain to key the cache with.
    MissingDomain { url: String },
    /// A repository exists at the cache path but cannot be opened.
    OpenFailed { path: String },
    /// Cloning the URL into the cache path failed.
    CloneFailed { url: String },
    /// What sits at the cache path is not a bare repository (or is itself a
    /// worktree): corrupted external state, never repaired automatically.
    WrongRepoKind { path: String },
}

/// The on-disk location of the cache entry for `url` under `root`.
pub open spec fn cache_path_of(root: Seq<char>, url: Seq<char>) -> Seq<char> {
    root + "/"@ + normalized_of(url)
}

/// The cache directory for a repository URL: the normalized URL path under
/// the cache root. Fails exactly when the URL does not parse or has no
/// domain, and the error classifies the URL: `UnparsableUrl` iff the URL does
/// not parse, `MissingDomain` iff it parses without a domain.
pub fn cache_repo_path(global_git_repos: &String, url: &String) -> (r: Result<String, CacheError>)
    ensures
        r is Ok <==> url_parse_ok(url@) && url_domain_of(url@) is Some,
        r matches Ok(p) ==> p@ == cache_path_of(global_git_repos@, url@),
        !url_parse_ok(url@) ==> r matches Err(CacheError::UnparsableUrl { .. }),
        url_parse_ok(url@) && url_domain_of(url@) is None ==> r matches Err(
            CacheError::MissingDomain { .. },
        ),
        r matches Err(e) ==> match e {
            CacheError::UnparsableUrl { url: u } => u@ == url@ && !url_parse_ok(url@),
            CacheError::MissingDomain { url: u } => u@ == url@ && url_parse_ok(url@)
                && url_domain_of(url@) is None,
            _ => false,
        },
{
    match normalize_url_for_dir(url) {
        Ok(rel) => {
            let mut p = global_git_repos.clone();
            p.append("/");
            p.append(rel.as_str());
            Ok(p)
        },
        Err(UrlError::Unparsable) => Err(CacheError::UnparsableUrl { url: url.clone() }),
        Err(UrlError::MissingDomain) => Err(CacheError::MissingDomain { url: url.clone() }),
    }
}

/// Whether what sits at a cache path may serve as a cache entry: it must be
/// bare and must not itself be a linked worktree.
pub open spec fn cache_shape_ok(is_worktree: bool, is_bare: bool) -> bool {
    !is_worktree && is_bare
}

/// The shape decision, as executable code over the two probed answers.
pub fn cache_shape_acceptable(is_worktree: bool, is_bare: bool) -> (r: bool)
    ensures
        r == cache_shape_ok(is_worktree, is_bare),
{
    !is_worktree && is_bare
}

/// Opens the cache repository for `url`, cloning it bare when the cache path
/// is empty. The URL classification precedes every repository operation:
/// an unparsable URL always yields `UnparsableUrl`, a domainless one always
/// `MissingDomain`. Whatever was opened or cloned must satisfy
/// `cache_shape_ok`; anything else is corrupted external state and surfaces
/// as `WrongRepoKind` rather than being deleted.
pub fn get_or_create_bare(global_git_repos: &String, url: &String) -> (r: Result<
    git2::Repository,
    CacheError,
>)
    ensures
        !url_parse_ok(url@) ==> r matches Err(CacheError::UnparsableUrl { .. }),
        url_parse_ok(url@) && url_domain_of(url@) is None ==> r matches Err(
            CacheError::MissingDomain { .. },
        ),
        r matches Err(e) ==> match e {
            CacheError::UnparsableUrl { url: u } => u@ == url@ && !url_parse_ok(url@),
            CacheError::MissingDomain { url: u } => u@ == url@ && url_parse_ok(url@)
                && url_domain_of(url@) is None,
            CacheError::OpenFailed { path } => path@ == cache_path_of(global_git_repos@, url@),
            CacheError::CloneFailed { url: u } => u@ == url@,
            CacheError::WrongRepoKind { path } => path@ == cache_path_of(global_git_repos@, url@),
        },
{
    let dir = cache_repo_path(global_git_repos, url)?;
    let repo = if path_exists(&dir) {
        match open_repo(&dir) {
            Ok(repo) => repo,
            Err(_) => {
                return Err(CacheError::OpenFailed { path: dir });
            },
        }
    } else {
        match clone_bare(url, &dir) {
            Ok(repo) => repo,
            Err(_) => {
                return Err(CacheError::CloneFailed { url: url.clone() });
            },
        }
    };
    if !cache_shape_acceptable(repo_is_worktree(&repo), repo_is_bare(&repo)) {
        return Err(CacheError::WrongRepoKind { path: dir });
    }
    Ok(repo)
}

} // verus!
