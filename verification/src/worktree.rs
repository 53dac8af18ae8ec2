//! The worktree lifecycle manager: converges a dependency's local path to
//! exactly one linked worktree of the shared cache repository, whatever
//! stale state earlier runs or outside tampering left there.

use vstd::prelude::*;
use vstd::string::*;

use crate::fsprobe::{canonicalize_path, path_exists};
use crate::gitwrap::{
    create_worktree, delete_local_branch, open_repo, prune_worktree_of, remove_dir_all_at,
    remove_worktree_admin_dir, repo_is_worktree, worktree_admin_dir_exists, worktree_names,
    worktree_recorded_path, worktree_target_exists,
};
use crate::strutil::{find_last_index, last_index_of, string_skip};

verus! {

/// What occupies the local worktree path, as observed on disk.
#[derive(Debug, Clone, Copy, PartialEq, Eq)]
pub enum WorktreeProbe {
    /// Nothing is at the path.
    Absent,
    /// The path is a registered worktree of the cache repository.
    RegisteredOurs,
    /// The path opens as a linked worktree, but not one the cache repository
    /// registers: it belongs to some other repository.
    ForeignWorktree,
    /// The path opens as a standalone repository, not a linked worktree.
    StandaloneRepo,
    /// The path exists but does not open as a repository at all.
    PlainFiles,
}

/// What the manager does for an observed state.
#[derive(Debug, Clone, Copy, PartialEq, Eq)]
pub enum WorktreeAction {
    /// Open and reuse the worktree as it stands.
    Reuse,
    /// Create a fresh worktree at the path.
    CreateFresh,
    /// Prune the foreign worktree, then create a fresh one.
    PruneThenCreate,
    /// Delete the leftover files, then create a fresh worktree.
    DeleteThenCreate,
    /// Touch nothing: a standalone repository is not this tool's to replace.
    Refuse,
}

/// The decision rule of the manager: reuse its own worktree, clear what can
/// only be stale (a foreign worktree, leftover plain files), and refuse to
/// destroy a standalone repository.
pub open spec fn worktree_plan_of(probe: WorktreeProbe) -> WorktreeAction {
    match probe {
        WorktreeProbe::Absent => WorktreeAction::CreateFresh,
        WorktreeProbe::RegisteredOurs => WorktreeAction::Reuse,
        WorktreeProbe::ForeignWorktree => WorktreeAction::PruneThenCreate,
        WorktreeProbe::StandaloneRepo => WorktreeAction::Refuse,
        WorktreeProbe::PlainFiles => WorktreeAction::DeleteThenCreate,
    }
}

/// The decision rule, as executable code.
pub fn worktree_plan(probe: WorktreeProbe) -> (a: WorktreeAction)
    ensures
        a == worktree_plan_of(probe),
{
    match probe {
        WorktreeProbe::Absent => WorktreeAction::CreateFresh,
        WorktreeProbe::RegisteredOurs => WorktreeAction::Reuse,
        WorktreeProbe::ForeignWorktree => WorktreeAction::PruneThenCreate,
        WorktreeProbe::StandaloneRepo => WorktreeAction::Refuse,
        WorktreeProbe::PlainFiles => WorktreeAction::DeleteThenCreate,
    }
}

/// One manager run over the observed state: the state it leaves at the local
/// path, and whether it succeeds. Every action but `Refuse` converges to a
/// registered worktree of the cache repository.
pub open spec fn worktree_step(st: WorktreeProbe) -> (WorktreeProbe, bool) {
    match worktree_plan_of(st) {
        WorktreeAction::Reuse => (WorktreeProbe::RegisteredOurs, true),
        WorktreeAction::CreateFresh => (WorktreeProbe::RegisteredOurs, true),
        WorktreeAction::PruneThenCreate => (WorktreeProbe::RegisteredOurs, true),
        WorktreeAction::DeleteThenCreate => (WorktreeProbe::RegisteredOurs, true),
        WorktreeAction::Refuse => (st, false),
    }
}

/// Convergence law: a successful run leaves the path a registered worktree,
/// and a second run for the same path and cache repository reuses that
/// worktree — it creates nothing new.
pub proof fn lemma_worktree_step_idempotent(st: WorktreeProbe)
    ensures
        worktree_step(st).1 ==> worktree_step(st).0 == WorktreeProbe::RegisteredOurs,
        worktree_step(st).1 ==> worktree_step(worktree_step(st).0) == (
            WorktreeProbe::RegisteredOurs,
            true,
        ),
        worktree_plan_of(WorktreeProbe::RegisteredOurs) == WorktreeAction::Reuse,
{
}

/// Safety law: a standalone repository at the path stops the run and is left
/// exactly as it was.
pub proof fn lemma_worktree_step_refuses_standalone()
    ensures
        worktree_step(WorktreeProbe::StandaloneRepo) == (WorktreeProbe::StandaloneRepo, false),
{
}

/// The final path component: everything after the last `/`.
pub open spec fn last_path_component(s: Seq<char>) -> Seq<char> {
    match last_index_of(s, '/') {
        Some(i) => s.skip(i + 1),
        None => s,
    }
}

/// The worktree name derived for a local path: a fixed prefix and the path's
/// final component.
pub open spec fn derived_worktree_name(s: Seq<char>) -> Seq<char> {
    "todo-"@ + last_path_component(s)
}

/// What the manager does about the derived name's worktree-admin entry
/// before creating: nothing when none exists, removal when the entry is
/// orphaned (its working directory is gone), refusal when it still backs a
/// live worktree elsewhere.
#[derive(Debug, Clone, Copy, PartialEq, Eq)]
pub enum AdminAction {
    Proceed,
    RemoveStaleEntry,
    RefuseConflict,
}

/// The decision rule for a stale or conflicting admin entry.
pub open spec fn admin_plan_of(entry_exists: bool, its_target_exists: bool) -> AdminAction {
    if !entry_exists {
        AdminAction::Proceed
    } else if its_target_exists {
        AdminAction::RefuseConflict
    } else {
        AdminAction::RemoveStaleEntry
    }
}

/// The decision rule, as executable code.
pub fn admin_plan(entry_exists: bool, its_target_exists: bool) -> (a: AdminAction)
    ensures
        a == admin_plan_of(entry_exists, its_target_exists),
{
    if !entry_exists {
        AdminAction::Proceed
    } else if its_target_exists {
        AdminAction::RefuseConflict
    } else {
        AdminAction::RemoveStaleEntry
    }
}

/// Why the manager fails.
#[derive(Debug, Clone, PartialEq, Eq)]
pub enum WorktreeError {
    /// The local path exists but cannot be canonicalized.
    CanonicalizeFailed { path: String },
    /// The cache repository's worktree list cannot be read.
    QueryFailed,
    /// The derived name already belongs to a live worktree elsewhere.
    NameConflict { name: String },
    /// A standalone repository occupies the local path.
    CorruptLocalState { path: String },
    /// Stale state (leftover files, orphaned metadata, an old worktree)
    /// could not be removed.
    CleanupFailed { path: String },
    /// The old tracking branch of the derived name could not be deleted.
    BranchCleanupFailed { name: String },
    /// The worktree could not be created.
    CreateFailed { name: String },
    /// The worktree exists but does not open as a repository.
    OpenFailed { path: String },
}

/// The observation the raw probe answers amount to: an absent path, then a
/// registration with the cache repository, then whether what is there opens
/// as a repository and whether that repository is a linked worktree.
pub open spec fn worktree_probe_of(
    exists: bool,
    registered: bool,
    opens_as_repo: bool,
    is_linked_worktree: bool,
) -> WorktreeProbe {
    if !exists {
        WorktreeProbe::Absent
    } else if registered {
        WorktreeProbe::RegisteredOurs
    } else if !opens_as_repo {
        WorktreeProbe::PlainFiles
    } else if is_linked_worktree {
        WorktreeProbe::ForeignWorktree
    } else {
        WorktreeProbe::StandaloneRepo
    }
}

/// The observation classification, as executable code.
pub fn classify_worktree(
    exists: bool,
    registered: bool,
    opens_as_repo: bool,
    is_linked_worktree: bool,
) -> (r: WorktreeProbe)
    ensures
        r == worktree_probe_of(exists, registered, opens_as_repo, is_linked_worktree),
{
    if !exists {
        WorktreeProbe::Absent
    } else if registered {
        WorktreeProbe::RegisteredOurs
    } else if !opens_as_repo {
        WorktreeProbe::PlainFiles
    } else if is_linked_worktree {
        WorktreeProbe::ForeignWorktree
    } else {
        WorktreeProbe::StandaloneRepo
    }
}

/// Observes the local path: exactly `worktree_probe_of` over what the disk
/// and the cache repository answer. Fails only when the path exists but
/// cannot be canonicalized, or when the worktree list cannot be read.
fn probe_worktree(global_repo: &git2::Repository, local_path: &String) -> (r: Result<
    WorktreeProbe,
    WorktreeError,
>)
    ensures
        r matches Err(e) ==> match e {
            WorktreeError::CanonicalizeFailed { path } => path@ == local_path@,
            WorktreeError::QueryFailed => true,
            _ => false,
        },
{
    if !path_exists(local_path) {
        return Ok(classify_worktree(false, false, false, false));
    }
    let canonical = match canonicalize_path(local_path) {
        Some(c) => c,
        None => {
            return Err(WorktreeError::CanonicalizeFailed { path: local_path.clone() });
        },
    };
    let names = match worktree_names(global_repo) {
        Ok(ns) => ns,
        Err(_) => {
            return Err(WorktreeError::QueryFailed);
        },
    };
    let mut i: usize = 0;
    let mut registered = false;
    while i < names.len() && !registered
        invariant
            i <= names.len(),
        decreases names.len() - i,
    {
        match worktree_recorded_path(global_repo, &names[i]) {
            Some(p) => {
                match canonicalize_path(&p) {
                    Some(cp) => {
                        if cp == canonical {
                            registered = true;
                        }
                    },
                    None => {},
                }
            },
            None => {},
        }
        i = i + 1;
    }
    if registered {
        return Ok(classify_worktree(true, true, false, false));
    }
    match open_repo(local_path) {
        Ok(repo) => {
            let linked = repo_is_worktree(&repo);
            Ok(classify_worktree(true, false, true, linked))
        },
        Err(_) => Ok(classify_worktree(true, false, false, false)),
    }
}

/// The worktree name derived for the local path.
fn derive_name(local_path: &String) -> (r: String)
    ensures
        r@ == derived_worktree_name(local_path@),
{
    let n = local_path.as_str().unicode_len();
    let component = match find_last_index(local_path, '/') {
        Some(i) => {
            proof {
                assert(i < n);
            }
            string_skip(local_path, i + 1)
        },
        None => local_path.clone(),
    };
    let mut name = String::from_str("todo-");
    name.append(component.as_str());
    name
}

/// Creates a fresh worktree under the derived name. Before creating, handles
/// the name's admin entry exactly as `admin_plan_of` decides (failing with
/// `NameConflict` when the entry still backs a live worktree, removing it
/// when orphaned) and deletes an old tracking branch of the same name.
fn create_fresh_worktree(global_repo: &git2::Repository, local_path: &String) -> (r: Result<
    (),
    WorktreeError,
>)
    ensures
        r matches Err(e) ==> match e {
            WorktreeError::NameConflict { name } => name@ == derived_worktree_name(local_path@),
            WorktreeError::CleanupFailed { .. } => true,
            WorktreeError::BranchCleanupFailed { name } => name@ == derived_worktree_name(
                local_path@,
            ),
            WorktreeError::CreateFailed { name } => name@ == derived_worktree_name(local_path@),
            _ => false,
        },
{
    let name = derive_name(local_path);
    let entry_exists = worktree_admin_dir_exists(global_repo, &name);
    let its_target_exists = if entry_exists {
        worktree_target_exists(global_repo, &name)
    } else {
        false
    };
    match admin_plan(entry_exists, its_target_exists) {
        AdminAction::RefuseConflict => {
            return Err(WorktreeError::NameConflict { name });
        },
        AdminAction::RemoveStaleEntry => {
            // The admin entry is orphaned: its working directory is gone.
            if remove_worktree_admin_dir(global_repo, &name).is_err() {
                return Err(WorktreeError::CleanupFailed { path: name });
            }
        },
        AdminAction::Proceed => {},
    }
    if delete_local_branch(global_repo, &name).is_err() {
        return Err(WorktreeError::BranchCleanupFailed { name });
    }
    match create_worktree(global_repo, &name, local_path) {
        Ok(()) => Ok(()),
        Err(_) => Err(WorktreeError::CreateFailed { name }),
    }
}

/// Converges the local path to exactly one linked worktree of the cache
/// repository and opens it: reusing a worktree the repository already
/// registers there, pruning a foreign one, deleting leftover plain files,
/// and refusing — with the path untouched — when a standalone repository
/// occupies it. The decision for each observed state is exactly
/// `worktree_plan_of`.
pub fn ensure_worktree(global_repo: &git2::Repository, local_path: &String) -> (r: Result<
    git2::Repository,
    WorktreeError,
>)
    ensures
        r matches Err(e) ==> match e {
            WorktreeError::CanonicalizeFailed { path } => path@ == local_path@,
            WorktreeError::QueryFailed => true,
            WorktreeError::NameConflict { name } => name@ == derived_worktree_name(local_path@),
            WorktreeError::CorruptLocalState { path } => path@ == local_path@,
            WorktreeError::CleanupFailed { .. } => true,
            WorktreeError::BranchCleanupFailed { name } => name@ == derived_worktree_name(
                local_path@,
            ),
            WorktreeError::CreateFailed { name } => name@ == derived_worktree_name(local_path@),
            WorktreeError::OpenFailed { path } => path@ == local_path@,
        },
{
    let probe = probe_worktree(global_repo, local_path)?;
    match worktree_plan(probe) {
        WorktreeAction::Refuse => {
            return Err(WorktreeError::CorruptLocalState { path: local_path.clone() });
        },
        WorktreeAction::Reuse => {},
        WorktreeAction::PruneThenCreate => {
            // Open it again to prune it: the worktree's own handle knows its
            // admin record.
            match open_repo(local_path) {
                Ok(repo) => {
                    if prune_worktree_of(&repo).is_err() {
                        return Err(WorktreeError::CleanupFailed { path: local_path.clone() });
                    }
                },
                Err(_) => {
                    return Err(WorktreeError::OpenFailed { path: local_path.clone() });
                },
            }
            create_fresh_worktree(global_repo, local_path)?;
        },
        WorktreeAction::DeleteThenCreate => {
            if remove_dir_all_at(local_path).is_err() {
                return Err(WorktreeError::CleanupFailed { path: local_path.clone() });
            }
            create_fresh_worktree(global_repo, local_path)?;
        },
        WorktreeAction::CreateFresh => {
            create_fresh_worktree(global_repo, local_path)?;
        },
    }
    match open_repo(local_path) {
        Ok(repo) => Ok(repo),
        Err(_) => Err(WorktreeError::OpenFailed { path: local_path.clone() }),
    }
}

} // verus!
