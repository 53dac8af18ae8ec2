//! Dependency-acquisition engine: resolves a manifest of named dependencies
//! (git repositories at a ref, or local paths) against optional overrides and
//! materializes each one into a target directory through a shared bare-repository
//! cache, per-dependency worktrees and safe symlinks.

pub mod acquire;
pub mod config;
pub mod fsprobe;
pub mod gitcache;
pub mod gitwrap;
pub mod links;
pub mod resolve;
pub mod strutil;
pub mod urlnorm;
pub mod worktree;

pub use acquire::{AcquireError, CommitTransition, DependencyDirs};
pub use config::{
    Config, ConfigOverrides, Dependency, DependencyOverride, DependencySource, Directories, GitRef,
};
pub use gitcache::{cache_repo_path, get_or_create_bare, CacheError};
pub use links::{ensure_symlink, link_plan, LinkAction, LinkError, LinkProbe};
pub use resolve::{ResolveError, ResolvedDependency, Resolver};
pub use urlnorm::{normalize_url_for_dir, UrlError};
pub use worktree::{ensure_worktree, WorktreeAction, WorktreeError, WorktreeProbe};
