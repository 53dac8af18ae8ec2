//! Manifest data model and the ref codec: the declared shape of a dependency,
//! its overrides, the fixed directory layout, and the translation of a symbolic
//! git ref into the name to fetch and the target to check out.

use vstd::prelude::*;
use vstd::string::*;

verus! {

/// A parsed base manifest: named dependencies in manifest order.
///
/// Keys are expected to be unique; `resolve_all` processes entries in order.
#[derive(Debug, Clone)]
pub struct Config {
    pub dependencies: Vec<(String, Dependency)>,
}

/// One manifest entry: where the dependency comes from, and an optional
/// override of the default target directory.
#[derive(Debug, Clone)]
pub struct Dependency {
    pub source: DependencySource,
    pub target: Option<String>,
}

/// The declared, un-overridden source of a dependency.
#[derive(Debug, Clone)]
pub enum DependencySource {
    GitRepository { git_repo: String, git_ref: GitRef },
}

/// A parsed override manifest: per-name overrides.
#[derive(Debug, Clone)]
pub struct ConfigOverrides {
    pub dependencies: Vec<(String, DependencyOverride)>,
}

/// A per-name override: redirect the dependency entirely to a local path,
/// or replace its ref and/or URL (an absent URL inherits the base URL).
#[derive(Debug, Clone)]
pub enum DependencyOverride {
    LocalPath { local_path: String },
    GitRepository { git_repo: Option<String>, git_ref: GitRef },
}

/// The four process-wide base paths: the tool's working state root, the
/// default per-dependency target root, the root for local git worktrees,
/// and the root holding the shared bare-repository cache.
#[derive(Debug, Clone)]
pub struct Directories {
    pub pkgstrap_dir: String,
    pub deps_dir: String,
    pub local_git_workdirs: String,
    pub global_git_repos: String,
}

/// A symbolic git ref. `Commit` carries the branch the commit is reachable
/// from, because fetching needs a ref name while checkout uses the hash.
#[derive(Debug, Clone, PartialEq, Eq)]
pub enum GitRef {
    Branch { branch: String },
    Tag { tag: String },
    Commit { branch: String, commit: String },
}

/// The name passed to a remote fetch: the branch for `Branch` and `Commit`,
/// the tag for `Tag`.
pub open spec fn fetch_ref_of(r: GitRef) -> Seq<char> {
    match r {
        GitRef::Branch { branch } => branch@,
        GitRef::Tag { tag } => tag@,
        GitRef::Commit { branch, .. } => branch@,
    }
}

/// The local object checked out after the fetch: a remote-tracking ref for
/// `Branch`, a tag ref for `Tag`, and the raw hash for `Commit`.
pub open spec fn checkout_target_of(r: GitRef) -> Seq<char> {
    match r {
        GitRef::Branch { branch } => "refs/remotes/origin/"@ + branch@,
        GitRef::Tag { tag } => "refs/tags/"@ + tag@,
        GitRef::Commit { commit, .. } => commit@,
    }
}

/// Whether a character sequence is a syntactically valid full git reference
/// name, exactly as libgit2 decides it.
pub uninterp spec fn ref_name_valid(s: Seq<char>) -> bool;

/// Relies on git2::Reference::is_valid_name: checks a full reference name
/// against git's syntax rules; the result depends on the characters alone.
#[verifier::external_body]
pub(crate) fn git_ref_name_is_valid(name: &str) -> (r: bool)
    ensures
        r == ref_name_valid(name@),
{
    git2::Reference::is_valid_name(name)
}

/// A ref whose checkout target may be checked out: branch and tag targets
/// must be syntactically valid reference names; a raw commit hash is taken
/// as given.
pub open spec fn checkout_valid(r: GitRef) -> bool {
    match r {
        GitRef::Commit { .. } => true,
        _ => ref_name_valid(checkout_target_of(r)),
    }
}

impl GitRef {
    /// The name to request from the remote during a fetch.
    pub fn to_fetch_ref(&self) -> (r: String)
        ensures
            r@ == fetch_ref_of(*self),
    {
        match self {
            GitRef::Branch { branch } => branch.clone(),
            GitRef::Tag { tag } => tag.clone(),
            GitRef::Commit { branch, .. } => branch.clone(),
        }
    }

    /// The checkout target string, built without any validity check.
    fn build_checkout_target(&self) -> (r: String)
        ensures
            r@ == checkout_target_of(*self),
    {
        match self {
            GitRef::Branch { branch } => {
                let mut s = String::from_str("refs/remotes/origin/");
                s.append(branch.as_str());
                s
            }
            GitRef::Tag { tag } => {
                let mut s = String::from_str("refs/tags/");
                s.append(tag.as_str());
                s
            }
            GitRef::Commit { commit, .. } => commit.clone(),
        }
    }

    /// The local refspec or commit hash to check out. A malformed branch or
    /// tag name is a configuration bug, excluded by precondition rather than
    /// reported at runtime.
    pub fn to_checkout_refspec(&self) -> (r: String)
        requires
            checkout_valid(*self),
        ensures
            r@ == checkout_target_of(*self),
    {
        self.build_checkout_target()
    }

    /// The checkout target, or `None` when the branch or tag name would not
    /// form a valid reference name.
    pub fn checkout_refspec_checked(&self) -> (r: Option<String>)
        ensures
            r is Some <==> checkout_valid(*self),
            r matches Some(s) ==> s@ == checkout_target_of(*self),
    {
        let candidate = self.build_checkout_target();
        match self {
            GitRef::Commit { .. } => Some(candidate),
            _ => {
                if git_ref_name_is_valid(candidate.as_str()) {
                    Some(candidate)
                } else {
                    None
                }
            }
        }
    }
}

/// For every ref, the fetched name is the branch for `Branch { b }` and
/// `Commit { b, _ }`, and the tag for `Tag { t }`.
pub proof fn lemma_fetch_ref_of(r: GitRef)
    ensures
        r matches GitRef::Branch { branch } ==> fetch_ref_of(r) == branch@,
        r matches GitRef::Commit { branch, .. } ==> fetch_ref_of(r) == branch@,
        r matches GitRef::Tag { tag } ==> fetch_ref_of(r) == tag@,
{
}

/// For every ref, the checkout target is `refs/remotes/origin/` + branch for
/// `Branch`, `refs/tags/` + tag for `Tag`, and exactly the hash for `Commit`.
pub proof fn lemma_checkout_target_of(r: GitRef)
    ensures
        r matches GitRef::Branch { branch } ==> checkout_target_of(r) == "refs/remotes/origin/"@
            + branch@,
        r matches GitRef::Tag { tag } ==> checkout_target_of(r) == "refs/tags/"@ + tag@,
        r matches GitRef::Commit { commit, .. } ==> checkout_target_of(r) == commit@,
{
}

/// The URL a source declares.
pub open spec fn source_url_of(s: DependencySource) -> Seq<char> {
    match s {
        DependencySource::GitRepository { git_repo, .. } => git_repo@,
    }
}

impl DependencySource {
    /// The declared repository URL, when the source is a git repository.
    pub fn git_repo_url(&self) -> (r: Option<&String>)
        ensures
            r matches Some(u) && u@ == source_url_of(*self),
    {
        match self {
            DependencySource::GitRepository { git_repo, .. } => Some(git_repo),
        }
    }
}

impl Dependency {
    /// The declared repository URL of this entry's source.
    pub fn git_repo_url(&self) -> (r: Option<&String>)
        ensures
            r matches Some(u) && u@ == source_url_of(self.source),
    {
        self.source.git_repo_url()
    }
}

} // verus!
