//! Safe symlink materialization: idempotently points a target path at a
//! source directory, replacing a stale symlink but refusing to clobber
//! anything that is not a symlink — the tool's core data-safety invariant.

use vstd::prelude::*;

use crate::fsprobe::{canonicalize_path, path_exists, path_is_symlink};

verus! {

/// What occupies a link path, as observed on disk.
#[derive(Debug, Clone, Copy, PartialEq, Eq)]
pub enum LinkProbe {
    /// The path is a symlink (whatever it points at).
    IsSymlink,
    /// The path exists and is not a symlink: a real file or directory.
    Occupied,
    /// Nothing is at the path.
    Absent,
}

/// What the materializer does for an observed link path.
#[derive(Debug, Clone, Copy, PartialEq, Eq)]
pub enum LinkAction {
    /// Remove the old symlink, then create the new one.
    ReplaceLink,
    /// Create the new symlink.
    CreateLink,
    /// Touch nothing: the path holds real data.
    RefuseConflict,
}

/// The decision rule of the materializer: a symlink is replaced, an absent
/// path is linked, and anything else is left untouched and reported.
pub open spec fn link_plan_of(probe: LinkProbe) -> LinkAction {
    match probe {
        LinkProbe::IsSymlink => LinkAction::ReplaceLink,
        LinkProbe::Absent => LinkAction::CreateLink,
        LinkProbe::Occupied => LinkAction::RefuseConflict,
    }
}

/// The decision rule, as executable code.
pub fn link_plan(probe: LinkProbe) -> (a: LinkAction)
    ensures
        a == link_plan_of(probe),
{
    match probe {
        LinkProbe::IsSymlink => LinkAction::ReplaceLink,
        LinkProbe::Absent => LinkAction::CreateLink,
        LinkProbe::Occupied => LinkAction::RefuseConflict,
    }
}

/// A model of one link path on disk: absent, a symlink to some target, or
/// occupied by real data.
pub enum LinkModel {
    Absent,
    SymlinkTo(Seq<char>),
    Occupied,
}

/// The observation the model state yields.
pub open spec fn model_probe(st: LinkModel) -> LinkProbe {
    match st {
        LinkModel::Absent => LinkProbe::Absent,
        LinkModel::SymlinkTo(_) => LinkProbe::IsSymlink,
        LinkModel::Occupied => LinkProbe::Occupied,
    }
}

/// One materializer run over the model: the state it leaves at the link path
/// and whether the run succeeds.
pub open spec fn link_step(st: LinkModel, source: Seq<char>) -> (LinkModel, bool) {
    match link_plan_of(model_probe(st)) {
        LinkAction::ReplaceLink => (LinkModel::SymlinkTo(source), true),
        LinkAction::CreateLink => (LinkModel::SymlinkTo(source), true),
        LinkAction::RefuseConflict => (st, false),
    }
}

/// Idempotence law: once a run succeeds, the link path holds exactly one
/// symlink to the source, and a second run with the same arguments succeeds
/// and leaves that same state.
pub proof fn lemma_link_step_idempotent(st: LinkModel, source: Seq<char>)
    ensures
        link_step(st, source).1 ==> link_step(st, source).0 == LinkModel::SymlinkTo(source),
        link_step(st, source).1 ==> link_step(link_step(st, source).0, source) == (
            LinkModel::SymlinkTo(source),
            true,
        ),
{
}

/// Safety law: when the link path holds real data, the run fails and deletes
/// nothing — the state is left exactly as it was.
pub proof fn lemma_link_step_refuses_occupied(source: Seq<char>)
    ensures
        link_step(LinkModel::Occupied, source) == (LinkModel::Occupied, false),
{
}

/// Stale-link law: a symlink left behind by an earlier run, wherever it
/// points, is replaced by a symlink to the newly resolved source, and the
/// run succeeds.
pub proof fn lemma_link_step_replaces_stale(stale: Seq<char>, source: Seq<char>)
    ensures
        link_step(LinkModel::SymlinkTo(stale), source) == (LinkModel::SymlinkTo(source), true),
{
}

/// Why materialization fails.
#[derive(Debug, Clone, PartialEq, Eq)]
pub enum LinkError {
    /// The link path exists but is not a symlink; nothing was deleted.
    PathConflict { path: String },
    /// The source directory does not resolve on disk.
    CanonicalizeFailed { path: String },
    /// The old symlink could not be removed.
    RemoveFailed { path: String },
    /// The new symlink could not be created.
    SymlinkFailed { path: String },
}

/// Relies on symlink::remove_symlink_dir: removes a directory symlink without
/// touching what it points at.
#[verifier::external_body]
fn remove_symlink_dir(p: &String) -> (r: Result<(), ()>) {
    symlink::remove_symlink_dir(p).map_err(|_| ())
}

/// Relies on symlink::symlink_dir: creates a directory symlink at `link` that
/// points at `source`.
#[verifier::external_body]
fn symlink_dir(source: &String, link: &String) -> (r: Result<(), ()>) {
    symlink::symlink_dir(source, link).map_err(|_| ())
}

/// The observation the two raw probe answers amount to: a symlink — even a
/// dangling one — counts as a symlink, anything else that exists is occupied,
/// the rest is absent.
pub open spec fn link_probe_of(is_symlink: bool, exists: bool) -> LinkProbe {
    if is_symlink {
        LinkProbe::IsSymlink
    } else if exists {
        LinkProbe::Occupied
    } else {
        LinkProbe::Absent
    }
}

/// The observation classification, as executable code.
pub fn classify_link(is_symlink: bool, exists: bool) -> (r: LinkProbe)
    ensures
        r == link_probe_of(is_symlink, exists),
{
    if is_symlink {
        LinkProbe::IsSymlink
    } else if exists {
        LinkProbe::Occupied
    } else {
        LinkProbe::Absent
    }
}

/// Observes what occupies the link path right now: exactly
/// `link_probe_of` over the two probed answers.
fn probe_link(p: &String) -> (r: LinkProbe) {
    let is_symlink = path_is_symlink(p);
    let exists = path_exists(p);
    classify_link(is_symlink, exists)
}

/// Points `link_path` at `source_dir`: removes `link_path` when it is a
/// stale symlink, refuses when it is anything else that exists, canonicalizes
/// the source (which must exist) and links to the canonical path. The
/// decision for each observed state is exactly `link_plan_of`; each error
/// names the path it is about.
pub fn ensure_symlink(link_path: &String, source_dir: &String) -> (r: Result<(), LinkError>)
    ensures
        r matches Err(e) ==> match e {
            LinkError::PathConflict { path } => path@ == link_path@,
            LinkError::CanonicalizeFailed { path } => path@ == source_dir@,
            LinkError::RemoveFailed { path } => path@ == link_path@,
            LinkError::SymlinkFailed { path } => path@ == link_path@,
        },
{
    let probe = probe_link(link_path);
    match link_plan(probe) {
        LinkAction::RefuseConflict => {
            return Err(LinkError::PathConflict { path: link_path.clone() });
        },
        LinkAction::ReplaceLink => {
            if remove_symlink_dir(link_path).is_err() {
                return Err(LinkError::RemoveFailed { path: link_path.clone() });
            }
        },
        LinkAction::CreateLink => {},
    }
    let canonical = match canonicalize_path(source_dir) {
        Some(c) => c,
        None => {
            return Err(LinkError::CanonicalizeFailed { path: source_dir.clone() });
        },
    };
    match symlink_dir(&canonical, link_path) {
        Ok(()) => Ok(()),
        Err(()) => Err(LinkError::SymlinkFailed { path: link_path.clone() }),
    }
}

} // verus!
