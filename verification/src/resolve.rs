//! The resolver: merges base manifest entries with optional per-name
//! overrides into fully specified dependencies, ready for acquisition.

use vstd::prelude::*;

use crate::config::{
    checkout_target_of, checkout_valid, fetch_ref_of, source_url_of, Config, ConfigOverrides,
    Dependency, DependencyOverride, DependencySource, GitRef,
};
use crate::fsprobe::canonicalize_path;

verus! {

/// The fully merged descriptor for one manifest entry: either a git
/// repository with its URL and both ref strings resolved, or a local path
/// that bypasses git entirely.
#[derive(Debug, Clone, PartialEq, Eq)]
pub enum ResolvedDependency {
    GitRepository { url: String, fetch_ref: String, checkout_ref: String },
    LocalPath { local_path: String },
}

/// Why resolution fails.
#[derive(Debug, Clone, PartialEq, Eq)]
pub enum ResolveError {
    /// A git entry ends up with no repository URL: the override gives none
    /// and the base manifest gives none either.
    MissingRepositoryUrl { name: String },
    /// A local-path override does not resolve to an existing path.
    InvalidPath { path: String },
    /// A branch or tag name would not form a valid reference name.
    InvalidRefName { name: String },
}

/// First value stored under key `k`, if any.
pub open spec fn lookup<T>(entries: Seq<(String, T)>, k: Seq<char>) -> Option<T>
    decreases entries.len(),
{
    if entries.len() == 0 {
        None
    } else if entries[0].0@ == k {
        Some(entries[0].1)
    } else {
        lookup(entries.drop_first(), k)
    }
}

/// An option of a reference, as an option of the value.
pub open spec fn opt_deref<T>(o: Option<&T>) -> Option<T> {
    match o {
        Some(x) => Some(*x),
        None => None,
    }
}

/// The URL a git entry resolves to: the override's URL when it gives a
/// nonempty one, else the base entry's. Empty means no URL was provided.
pub open spec fn effective_git_url(base: DependencySource, ovr_url: Option<String>) -> Seq<char> {
    match ovr_url {
        Some(u) => if u@.len() > 0 {
            u@
        } else {
            source_url_of(base)
        },
        None => source_url_of(base),
    }
}

/// The URL an entry resolves to, `None` when a local-path override bypasses
/// git.
pub open spec fn entry_effective_url(dep: Dependency, ovr: Option<DependencyOverride>) -> Option<
    Seq<char>,
> {
    match ovr {
        None => Some(source_url_of(dep.source)),
        Some(o) => match o {
            DependencyOverride::GitRepository { git_repo, .. } => Some(
                effective_git_url(dep.source, git_repo),
            ),
            DependencyOverride::LocalPath { .. } => None,
        },
    }
}

/// The ref an entry resolves to: wholly the override's when a git override is
/// present, else the base entry's; `None` for a local-path override.
pub open spec fn entry_effective_ref(dep: Dependency, ovr: Option<DependencyOverride>) -> Option<
    GitRef,
> {
    match ovr {
        None => match dep.source {
            DependencySource::GitRepository { git_ref, .. } => Some(git_ref),
        },
        Some(o) => match o {
            DependencyOverride::GitRepository { git_ref, .. } => Some(git_ref),
            DependencyOverride::LocalPath { .. } => None,
        },
    }
}

/// Whether a git entry ends up with no repository URL at all.
pub open spec fn entry_missing_url(dep: Dependency, ovr: Option<DependencyOverride>) -> bool {
    match entry_effective_url(dep, ovr) {
        Some(u) => u.len() == 0,
        None => false,
    }
}

/// Whether the entry's effective ref, if it has one, may be checked out.
pub open spec fn entry_ref_valid(dep: Dependency, ovr: Option<DependencyOverride>) -> bool {
    match entry_effective_ref(dep, ovr) {
        Some(g) => checkout_valid(g),
        None => true,
    }
}

/// What one manifest entry resolves to: the merge of the base declaration
/// with its override, field by field.
pub open spec fn resolution_of(
    dep: Dependency,
    ovr: Option<DependencyOverride>,
    r: ResolvedDependency,
) -> bool {
    match ovr {
        None => match dep.source {
            DependencySource::GitRepository { git_repo, git_ref } => {
                &&& r matches ResolvedDependency::GitRepository { url, fetch_ref, checkout_ref }
                &&& url@ == git_repo@
                &&& fetch_ref@ == fetch_ref_of(git_ref)
                &&& checkout_ref@ == checkout_target_of(git_ref)
            },
        },
        Some(o) => match o {
            DependencyOverride::LocalPath { local_path } => {
                &&& r matches ResolvedDependency::LocalPath { local_path: p }
                &&& p@ == local_path@
            },
            DependencyOverride::GitRepository { git_repo, git_ref } => {
                &&& r matches ResolvedDependency::GitRepository { url, fetch_ref, checkout_ref }
                &&& url@ == effective_git_url(dep.source, git_repo)
                &&& fetch_ref@ == fetch_ref_of(git_ref)
                &&& checkout_ref@ == checkout_target_of(git_ref)
            },
        },
    }
}

/// Resolves one entry. Success is owed whenever the entry has a URL and no
/// local-path override; a local-path override succeeds exactly when its path
/// resolves on disk, and then preserves the path as the user wrote it.
fn resolve_entry(name: &String, dep: &Dependency, ovr: Option<&DependencyOverride>) -> (r: Result<
    ResolvedDependency,
    ResolveError,
>)
    requires
        entry_ref_valid(*dep, opt_deref(ovr)),
    ensures
        r matches Ok(rd) ==> resolution_of(*dep, opt_deref(ovr), rd) && !entry_missing_url(
            *dep,
            opt_deref(ovr),
        ),
        r matches Ok(rd) ==> (rd matches ResolvedDependency::GitRepository { url, .. } ==> url@.len()
            > 0),
        r matches Err(e) ==> match e {
            ResolveError::MissingRepositoryUrl { name: n } => n@ == name@ && entry_missing_url(
                *dep,
                opt_deref(ovr),
            ),
            ResolveError::InvalidPath { path } => opt_deref(ovr) matches Some(
                DependencyOverride::LocalPath { local_path },
            ) && path@ == local_path@,
            ResolveError::InvalidRefName { .. } => false,
        },
        !entry_missing_url(*dep, opt_deref(ovr)) && !(opt_deref(ovr) matches Some(
            DependencyOverride::LocalPath { .. },
        )) ==> r is Ok,
{
    match ovr {
        None => {
            let DependencySource::GitRepository { git_repo, git_ref } = &dep.source;
            if git_repo.as_str().unicode_len() == 0 {
                Err(ResolveError::MissingRepositoryUrl { name: name.clone() })
            } else {
                Ok(
                    ResolvedDependency::GitRepository {
                        url: git_repo.clone(),
                        fetch_ref: git_ref.to_fetch_ref(),
                        checkout_ref: git_ref.to_checkout_refspec(),
                    },
                )
            }
        },
        Some(DependencyOverride::LocalPath { local_path }) => {
            // Validate that the path resolves; keep the user's own spelling.
            match canonicalize_path(local_path) {
                Some(_) => Ok(ResolvedDependency::LocalPath { local_path: local_path.clone() }),
                None => Err(ResolveError::InvalidPath { path: local_path.clone() }),
            }
        },
        Some(DependencyOverride::GitRepository { git_repo, git_ref }) => {
            let DependencySource::GitRepository { git_repo: base_url, .. } = &dep.source;
            let url: &String = match git_repo {
                Some(u) => if u.as_str().unicode_len() > 0 {
                    u
                } else {
                    base_url
                },
                None => base_url,
            };
            if url.as_str().unicode_len() == 0 {
                Err(ResolveError::MissingRepositoryUrl { name: name.clone() })
            } else {
                Ok(
                    ResolvedDependency::GitRepository {
                        url: url.clone(),
                        fetch_ref: git_ref.to_fetch_ref(),
                        checkout_ref: git_ref.to_checkout_refspec(),
                    },
                )
            }
        },
    }
}

/// Merges base declarations with overrides, per name.
#[derive(Debug, Clone)]
pub struct Resolver {
    config: Config,
    config_overrides: Option<ConfigOverrides>,
}

impl Resolver {
    /// The base manifest this resolver was built over.
    pub closed spec fn spec_config(&self) -> Config {
        self.config
    }

    /// The override manifest, if one was supplied.
    pub closed spec fn spec_overrides(&self) -> Option<ConfigOverrides> {
        self.config_overrides
    }

    /// The base entries, in manifest order.
    pub open spec fn dep_entries(&self) -> Seq<(String, Dependency)> {
        self.spec_config().dependencies@
    }

    /// The override entries; empty when no overrides were supplied.
    pub open spec fn ovr_entries(&self) -> Seq<(String, DependencyOverride)> {
        match self.spec_overrides() {
            Some(co) => co.dependencies@,
            None => Seq::empty(),
        }
    }

    /// The override that applies to entry `i`, if any.
    pub open spec fn ovr_for(&self, i: int) -> Option<DependencyOverride> {
        lookup(self.ovr_entries(), self.dep_entries()[i].0@)
    }

    /// Whether entry `i`'s effective ref may be checked out.
    pub open spec fn entry_valid(&self, i: int) -> bool {
        entry_ref_valid(self.dep_entries()[i].1, self.ovr_for(i))
    }

    /// Whether entry `i` ends up without a repository URL.
    pub open spec fn missing_url_at(&self, i: int) -> bool {
        entry_missing_url(self.dep_entries()[i].1, self.ovr_for(i))
    }

    /// Whether every entry's effective ref may be checked out.
    pub open spec fn refs_all_valid(&self) -> bool {
        forall|i: int| 0 <= i < self.dep_entries().len() ==> #[trigger] self.entry_valid(i)
    }

    pub fn new(config: Config) -> (r: Resolver)
        ensures
            r.spec_config() == config,
            r.spec_overrides() is None,
    {
        Resolver { config, config_overrides: None }
    }

    pub fn with_config_overrides(self, config_overrides: ConfigOverrides) -> (r: Resolver)
        ensures
            r.spec_config() == self.spec_config(),
            r.spec_overrides() == Some(config_overrides),
    {
        Resolver { config: self.config, config_overrides: Some(config_overrides) }
    }

    /// The override stored under `name`, if any.
    fn find_override<'a>(&'a self, name: &String) -> (r: Option<&'a DependencyOverride>)
        ensures
            opt_deref(r) == lookup(self.ovr_entries(), name@),
    {
        let entries: &Vec<(String, DependencyOverride)> = match &self.config_overrides {
            Some(co) => &co.dependencies,
            None => {
                return None;
            },
        };
        let ghost all = self.ovr_entries();
        proof {
            assert(all.skip(0) =~= all);
        }
        let mut j: usize = 0;
        while j < entries.len()
            invariant
                j <= entries.len(),
                all == entries@,
                all == self.ovr_entries(),
                lookup(all, name@) == lookup(all.skip(j as int), name@),
            decreases entries.len() - j,
        {
            proof {
                assert(all.skip(j as int).drop_first() =~= all.skip(j + 1));
                assert(all.skip(j as int)[0] == all[j as int]);
            }
            let hit = entries[j].0 == *name;
            proof {
                if hit {
                    assert(lookup(all.skip(j as int), name@) == Some(all[j as int].1));
                } else {
                    assert(lookup(all.skip(j as int), name@) == lookup(all.skip(j + 1), name@));
                }
            }
            if hit {
                return Some(&entries[j].1);
            }
            j = j + 1;
        }
        proof {
            assert(all.skip(entries.len() as int).len() == 0);
        }
        None
    }

    /// Resolves every entry, in manifest order. Fails only on an entry that
    /// ends up without a URL — `MissingRepositoryUrl` then names the first
    /// such entry — or on a local-path override that does not resolve on
    /// disk; with no local-path overrides and no missing URLs, success is
    /// owed. Branch and tag names must be valid reference names;
    /// `resolve_all_checked` establishes that at runtime.
    pub fn resolve_all(&self) -> (r: Result<Vec<(String, ResolvedDependency)>, ResolveError>)
        requires
            self.refs_all_valid(),
        ensures
            r matches Ok(out) ==> {
                &&& out@.len() == self.dep_entries().len()
                &&& forall|i: int|
                    0 <= i < out@.len() ==> #[trigger] out@[i].0@ == self.dep_entries()[i].0@
                        && resolution_of(self.dep_entries()[i].1, self.ovr_for(i), out@[i].1)
                        && !entry_missing_url(self.dep_entries()[i].1, self.ovr_for(i))
            },
            r matches Err(e) ==> match e {
                ResolveError::MissingRepositoryUrl { name } => exists|i: int|
                    0 <= i < self.dep_entries().len() && #[trigger] self.dep_entries()[i].0@
                        == name@ && self.missing_url_at(i) && (forall|j: int|
                        0 <= j < i ==> !(#[trigger] self.missing_url_at(j))),
                ResolveError::InvalidPath { .. } => exists|i: int|
                    0 <= i < self.dep_entries().len() && #[trigger] self.ovr_for(i) matches Some(
                        DependencyOverride::LocalPath { .. },
                    ),
                ResolveError::InvalidRefName { .. } => false,
            },
            (forall|i: int|
                0 <= i < self.dep_entries().len() ==> !entry_missing_url(
                    #[trigger] self.dep_entries()[i].1,
                    self.ovr_for(i),
                ) && !(self.ovr_for(i) matches Some(DependencyOverride::LocalPath { .. })))
                ==> r is Ok,
    {
        let entries = &self.config.dependencies;
        let mut out: Vec<(String, ResolvedDependency)> = Vec::new();
        let mut i: usize = 0;
        while i < entries.len()
            invariant
                i <= entries.len(),
                self.dep_entries() == entries@,
                self.refs_all_valid(),
                out@.len() == i,
                forall|j: int|
                    0 <= j < i as int ==> #[trigger] out@[j].0@ == self.dep_entries()[j].0@
                        && resolution_of(self.dep_entries()[j].1, self.ovr_for(j), out@[j].1)
                        && !entry_missing_url(self.dep_entries()[j].1, self.ovr_for(j)),
                forall|j: int| 0 <= j < i as int ==> !(#[trigger] self.missing_url_at(j)),
            decreases entries.len() - i,
        {
            let name = &entries[i].0;
            let dep = &entries[i].1;
            let ovr = self.find_override(name);
            proof {
                assert(self.entry_valid(i as int));
                assert(opt_deref(ovr) == self.ovr_for(i as int));
            }
            match resolve_entry(name, dep, ovr) {
                Ok(rd) => {
                    out.push((name.clone(), rd));
                    proof {
                        assert(!self.missing_url_at(i as int));
                    }
                },
                Err(e) => {
                    proof {
                        if e matches ResolveError::MissingRepositoryUrl { .. } {
                            assert(self.missing_url_at(i as int));
                        }
                    }
                    return Err(e);
                },
            }
            i = i + 1;
        }
        Ok(out)
    }

    /// `resolve_all`, with the reference names checked at runtime first: an
    /// entry whose effective branch or tag would not form a valid reference
    /// name is reported as `InvalidRefName` instead of being assumed away.
    pub fn resolve_all_checked(&self) -> (r: Result<
        Vec<(String, ResolvedDependency)>,
        ResolveError,
    >)
        ensures
            r matches Ok(out) ==> {
                &&& self.refs_all_valid()
                &&& out@.len() == self.dep_entries().len()
                &&& forall|i: int|
                    0 <= i < out@.len() ==> #[trigger] out@[i].0@ == self.dep_entries()[i].0@
                        && resolution_of(self.dep_entries()[i].1, self.ovr_for(i), out@[i].1)
                        && !entry_missing_url(self.dep_entries()[i].1, self.ovr_for(i))
            },
            r matches Err(e) ==> match e {
                ResolveError::InvalidRefName { name } => exists|i: int|
                    0 <= i < self.dep_entries().len() && #[trigger] self.dep_entries()[i].0@
                        == name@ && !self.entry_valid(i),
                ResolveError::MissingRepositoryUrl { name } => exists|i: int|
                    0 <= i < self.dep_entries().len() && #[trigger] self.dep_entries()[i].0@
                        == name@ && self.missing_url_at(i) && (forall|j: int|
                        0 <= j < i ==> !(#[trigger] self.missing_url_at(j))),
                ResolveError::InvalidPath { .. } => exists|i: int|
                    0 <= i < self.dep_entries().len() && #[trigger] self.ovr_for(i) matches Some(
                        DependencyOverride::LocalPath { .. },
                    ),
            },
    {
        let entries = &self.config.dependencies;
        let mut i: usize = 0;
        while i < entries.len()
            invariant
                i <= entries.len(),
                self.dep_entries() == entries@,
                forall|j: int| 0 <= j < i as int ==> #[trigger] self.entry_valid(j),
            decreases entries.len() - i,
        {
            let name = &entries[i].0;
            let dep = &entries[i].1;
            let ovr = self.find_override(name);
            proof {
                assert(opt_deref(ovr) == self.ovr_for(i as int));
            }
            let git_ref: Option<&GitRef> = match ovr {
                None => {
                    let DependencySource::GitRepository { git_ref, .. } = &dep.source;
                    Some(git_ref)
                },
                Some(DependencyOverride::GitRepository { git_ref, .. }) => Some(git_ref),
                Some(DependencyOverride::LocalPath { .. }) => None,
            };
            match git_ref {
                Some(g) => {
                    if g.checkout_refspec_checked().is_none() {
                        return Err(ResolveError::InvalidRefName { name: name.clone() });
                    }
                },
                None => {},
            }
            proof {
                assert(self.entry_valid(i as int));
            }
            i = i + 1;
        }
        self.resolve_all()
    }
}

/// Override merge law: a git override without a URL keeps the base entry's
/// URL, and its ref replaces the base ref wholly, never field by field.
pub proof fn lemma_override_merge_keeps_base_url(
    dep: Dependency,
    ovr_ref: GitRef,
    r: ResolvedDependency,
)
    requires
        resolution_of(
            dep,
            Some(DependencyOverride::GitRepository { git_repo: None, git_ref: ovr_ref }),
            r,
        ),
    ensures
        r matches ResolvedDependency::GitRepository { url, fetch_ref, checkout_ref } ==> {
            &&& url@ == source_url_of(dep.source)
            &&& fetch_ref@ == fetch_ref_of(ovr_ref)
            &&& checkout_ref@ == checkout_target_of(ovr_ref)
        },
{
}

/// Missing-URL law: a git override without a URL over a base entry without a
/// URL resolves to nothing — the entry is exactly the missing-URL case.
pub proof fn lemma_missing_url(dep: Dependency, ovr_ref: GitRef)
    requires
        source_url_of(dep.source).len() == 0,
    ensures
        entry_missing_url(
            dep,
            Some(DependencyOverride::GitRepository { git_repo: None, git_ref: ovr_ref }),
        ),
        forall|r: ResolvedDependency|
            !(#[trigger] resolution_of(
                dep,
                Some(DependencyOverride::GitRepository { git_repo: None, git_ref: ovr_ref }),
                r,
            )) || !(r matches ResolvedDependency::GitRepository { url, .. } && url@.len() > 0),
{
}

} // verus!
