//! The acquisition protocol: for a git dependency, fetch the declared ref
//! into the shared cache, converge the dependency's worktree, check out the
//! target and report how the commit moved; for a local path, none of that.
//! Either way, point every target directory at the resolved source.

use vstd::prelude::*;

use crate::config::Directories;
use crate::gitcache::{cache_path_of, get_or_create_bare, CacheError};
use crate::gitwrap::{checkout_head_force, fetch_anonymous, head_commit_hex, set_head};
use crate::links::{ensure_symlink, LinkError};
use crate::resolve::ResolvedDependency;
use crate::urlnorm::{url_domain_of, url_parse_ok};
use crate::worktree::{ensure_worktree, WorktreeError};

verus! {

/// The paths one acquisition works with: the fixed base directories, the
/// dependency's primary target directory, any additional in-tree targets
/// that mirror it, and the dependency's own local worktree path.
#[derive(Debug, Clone)]
pub struct DependencyDirs {
    pub base: Directories,
    pub std_target_dir: String,
    pub in_tree_target_dirs: Vec<String>,
    pub local_git_worktree: String,
}

/// Whether `path` is one of the in-tree target directories.
pub open spec fn names_in_tree_target(dirs: DependencyDirs, path: Seq<char>) -> bool {
    exists|i: int|
        0 <= i < dirs.in_tree_target_dirs@.len() && path == #[trigger] dirs.in_tree_target_dirs@[i]@
}

/// Whether `path` is a path this acquisition creates a symlink at: the
/// primary target directory or one of the in-tree targets.
pub open spec fn names_link_path(dirs: DependencyDirs, path: Seq<char>) -> bool {
    path == dirs.std_target_dir@ || names_in_tree_target(dirs, path)
}

/// Whether `path` is a directory this acquisition points a symlink at: the
/// dependency's resolved source, or the primary target when mirrored in-tree.
pub open spec fn names_link_source(
    dep: ResolvedDependency,
    dirs: DependencyDirs,
    path: Seq<char>,
) -> bool {
    ||| (dep is GitRepository && path == dirs.local_git_worktree@)
    ||| (dep matches ResolvedDependency::LocalPath { local_path } && path == local_path@)
    ||| path == dirs.std_target_dir@
}

/// The worktree's HEAD commit before and after a checkout.
#[derive(Debug, Clone, PartialEq, Eq)]
pub struct CommitTransition {
    pub before: String,
    pub after: String,
}

impl CommitTransition {
    /// Whether the checkout moved HEAD to a different commit.
    pub open spec fn spec_updated(&self) -> bool {
        self.before@ != self.after@
    }

    /// Reports whether the checkout moved HEAD: false exactly when the
    /// commit before and after are the same.
    pub fn updated(&self) -> (r: bool)
        ensures
            r == self.spec_updated(),
    {
        !(self.before == self.after)
    }
}

/// Why an acquisition fails.
#[derive(Debug, Clone, PartialEq, Eq)]
pub enum AcquireError {
    /// The cache repository could not be produced.
    Cache(CacheError),
    /// Fetching the ref from the URL failed (network, authentication, or an
    /// unknown ref).
    FetchFailed { url: String },
    /// The worktree could not be converged.
    Worktree(WorktreeError),
    /// HEAD could not be resolved to a commit.
    HeadUnresolved,
    /// HEAD could not be switched to the checkout target.
    SetHeadFailed { refspec: String },
    /// The forced checkout failed.
    CheckoutFailed,
    /// A target symlink could not be materialized.
    Link(LinkError),
}

impl ResolvedDependency {
    /// Materializes this dependency. A git repository is fetched into the
    /// shared cache, its worktree converged and force-checked-out at the
    /// checkout target, and the commit transition reported; a local path is
    /// used as it stands and reports no transition. The primary target, and
    /// then every in-tree target, is pointed at the resolved source.
    pub fn acquire(&self, dirs: &DependencyDirs) -> (r: Result<
        Option<CommitTransition>,
        AcquireError,
    >)
        ensures
            r matches Ok(t) ==> (t is Some <==> self is GitRepository),
            self matches ResolvedDependency::GitRepository { url, .. } && !url_parse_ok(url@)
                ==> r matches Err(AcquireError::Cache(CacheError::UnparsableUrl { .. })),
            self matches ResolvedDependency::GitRepository { url, .. } && url_parse_ok(url@)
                && url_domain_of(url@) is None ==> r matches Err(
                AcquireError::Cache(CacheError::MissingDomain { .. }),
            ),
            r matches Err(e) ==> match e {
                AcquireError::FetchFailed { url } => self matches
                    ResolvedDependency::GitRepository { url: u, .. } && url@ == u@,
                AcquireError::SetHeadFailed { refspec } => self matches
                    ResolvedDependency::GitRepository { checkout_ref, .. } && refspec@
                    == checkout_ref@,
                AcquireError::Cache(ce) => self matches ResolvedDependency::GitRepository {
                    url: u,
                    ..
                } && match ce {
                    CacheError::UnparsableUrl { url: cu } => cu@ == u@ && !url_parse_ok(u@),
                    CacheError::MissingDomain { url: cu } => cu@ == u@ && url_parse_ok(u@)
                        && url_domain_of(u@) is None,
                    CacheError::OpenFailed { path } => path@ == cache_path_of(
                        dirs.base.global_git_repos@,
                        u@,
                    ),
                    CacheError::CloneFailed { url: cu } => cu@ == u@,
                    CacheError::WrongRepoKind { path } => path@ == cache_path_of(
                        dirs.base.global_git_repos@,
                        u@,
                    ),
                },
                AcquireError::Worktree(_) => self is GitRepository,
                AcquireError::HeadUnresolved => self is GitRepository,
                AcquireError::CheckoutFailed => self is GitRepository,
                AcquireError::Link(le) => match le {
                    LinkError::PathConflict { path } => names_link_path(*dirs, path@),
                    LinkError::RemoveFailed { path } => names_link_path(*dirs, path@),
                    LinkError::SymlinkFailed { path } => names_link_path(*dirs, path@),
                    LinkError::CanonicalizeFailed { path } => names_link_source(
                        *self,
                        *dirs,
                        path@,
                    ),
                },
            },
    {
        let target_dir = &dirs.std_target_dir;
        let transition: Option<CommitTransition> = match self {
            ResolvedDependency::GitRepository { url, fetch_ref, checkout_ref } => {
                let global_repo = match get_or_create_bare(&dirs.base.global_git_repos, url) {
                    Ok(repo) => repo,
                    Err(e) => {
                        return Err(AcquireError::Cache(e));
                    },
                };
                if fetch_anonymous(&global_repo, url, fetch_ref).is_err() {
                    return Err(AcquireError::FetchFailed { url: url.clone() });
                }
                let repo = match ensure_worktree(&global_repo, &dirs.local_git_worktree) {
                    Ok(repo) => repo,
                    Err(e) => {
                        return Err(AcquireError::Worktree(e));
                    },
                };
                let before = match head_commit_hex(&repo) {
                    Ok(c) => c,
                    Err(_) => {
                        return Err(AcquireError::HeadUnresolved);
                    },
                };
                if set_head(&repo, checkout_ref).is_err() {
                    return Err(AcquireError::SetHeadFailed { refspec: checkout_ref.clone() });
                }
                if checkout_head_force(&repo).is_err() {
                    return Err(AcquireError::CheckoutFailed);
                }
                let after = match head_commit_hex(&repo) {
                    Ok(c) => c,
                    Err(_) => {
                        return Err(AcquireError::HeadUnresolved);
                    },
                };
                if let Err(e) = ensure_symlink(target_dir, &dirs.local_git_worktree) {
                    return Err(AcquireError::Link(e));
                }
                Some(CommitTransition { before, after })
            },
            ResolvedDependency::LocalPath { local_path } => {
                if let Err(e) = ensure_symlink(target_dir, local_path) {
                    return Err(AcquireError::Link(e));
                }
                None
            },
        };

        let mut i: usize = 0;
        while i < dirs.in_tree_target_dirs.len()
            invariant
                self matches ResolvedDependency::GitRepository { url, .. } ==> url_parse_ok(url@)
                    && url_domain_of(url@) is Some,
            decreases dirs.in_tree_target_dirs.len() - i,
        {
            if let Err(e) = ensure_symlink(&dirs.in_tree_target_dirs[i], &dirs.std_target_dir) {
                proof {
                    let k = i as int;
                    assert(names_in_tree_target(*dirs, dirs.in_tree_target_dirs@[k]@)) by {
                        assert(0 <= k < dirs.in_tree_target_dirs@.len() && dirs.in_tree_target_dirs@[
                            k
                        ]@ == dirs.in_tree_target_dirs@[k]@);
                    }
                }
                return Err(AcquireError::Link(e));
            }
            i = i + 1;
        }
        Ok(transition)
    }
}

} // verus!
