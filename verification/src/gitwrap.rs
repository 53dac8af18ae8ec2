//! The crate's view of git: type declarations for the git2 values that flow
//! through the logic, and one trusted wrapper per git operation the logic
//! performs. Every result reflects repository and network state at the moment
//! of the call, so the wrappers state only what holds of every outcome.

use vstd::prelude::*;

verus! {

#[verifier::external_type_specification]
#[verifier::external_body]
pub struct ExRepository(git2::Repository);

#[verifier::external_type_specification]
#[verifier::external_body]
pub struct ExGitError(git2::Error);

/// Relies on git2::Repository::open: opens the repository at `path`.
#[verifier::external_body]
pub(crate) fn open_repo(path: &String) -> (r: Result<git2::Repository, git2::Error>) {
    git2::Repository::open(path)
}

/// Relies on git2::build::RepoBuilder::clone with `bare(true)`: clones `url`
/// into `dir` (creating the directory path) as a bare repository,
/// authenticating with the SSH key at the default location under the home
/// directory and the username from the URL, or `git`.
#[verifier::external_body]
pub(crate) fn clone_bare(url: &String, dir: &String) -> (r: Result<git2::Repository, git2::Error>) {
    let mut cb = git2::RemoteCallbacks::new();
    cb.credentials(|_url, username, _allowed| {
        let key = dirs::home_dir().unwrap_or_else(|| ".".into()).join(".ssh").join("id_rsa");
        git2::Cred::ssh_key(username.unwrap_or("git"), None, &key, None)
    });
    let mut fo = git2::FetchOptions::new();
    fo.remote_callbacks(cb);
    let mut builder = git2::build::RepoBuilder::new();
    builder.fetch_options(fo);
    builder.bare(true);
    builder.clone(url, std::path::Path::new(dir))
}

/// Relies on git2::Repository::remote_anonymous and git2::Remote::fetch:
/// fetches `fetch_ref` from `url` directly, with no stored remote
/// configuration, authenticating as `clone_bare` does.
#[verifier::external_body]
pub(crate) fn fetch_anonymous(repo: &git2::Repository, url: &String, fetch_ref: &String) -> (r:
    Result<(), git2::Error>) {
    let mut cb = git2::RemoteCallbacks::new();
    cb.credentials(|_url, username, _allowed| {
        let key = dirs::home_dir().unwrap_or_else(|| ".".into()).join(".ssh").join("id_rsa");
        git2::Cred::ssh_key(username.unwrap_or("git"), None, &key, None)
    });
    let mut fo = git2::FetchOptions::new();
    fo.remote_callbacks(cb);
    repo.remote_anonymous(url)?.fetch(&[fetch_ref.as_str()], Some(&mut fo), None)
}

/// Relies on git2::Repository::is_bare.
#[verifier::external_body]
pub(crate) fn repo_is_bare(repo: &git2::Repository) -> (r: bool) {
    repo.is_bare()
}

/// Relies on git2::Repository::is_worktree.
#[verifier::external_body]
pub(crate) fn repo_is_worktree(repo: &git2::Repository) -> (r: bool) {
    repo.is_worktree()
}

/// Relies on git2::Repository::head, git2::Reference::resolve and
/// git2::Reference::peel_to_commit: the hex id of the commit HEAD points at.
#[verifier::external_body]
pub(crate) fn head_commit_hex(repo: &git2::Repository) -> (r: Result<String, git2::Error>) {
    let commit = repo.head()?.resolve()?.peel_to_commit()?;
    Ok(commit.id().to_string())
}

/// Relies on git2::Repository::set_head: points HEAD at the given reference
/// name; fails on a name that is not a valid reference.
#[verifier::external_body]
pub(crate) fn set_head(repo: &git2::Repository, refname: &String) -> (r: Result<
    (),
    git2::Error,
>) {
    repo.set_head(refname)
}

/// Relies on git2::Repository::checkout_head with `force()`: makes the
/// working tree match HEAD, discarding local modifications.
#[verifier::external_body]
pub(crate) fn checkout_head_force(repo: &git2::Repository) -> (r: Result<(), git2::Error>) {
    repo.checkout_head(Some(git2::build::CheckoutBuilder::new().force()))
}

/// Relies on git2::Repository::worktrees: the names of the repository's
/// registered worktrees, read lossily as UTF-8.
#[verifier::external_body]
pub(crate) fn worktree_names(repo: &git2::Repository) -> (r: Result<Vec<String>, git2::Error>) {
    let names = repo.worktrees()?;
    Ok(names.iter_bytes().map(|name| String::from_utf8_lossy(name).into_owned()).collect())
}

/// Relies on git2::Repository::find_worktree and git2::Worktree::path: the
/// working-directory path recorded for the named worktree, if the name is
/// registered.
#[verifier::external_body]
pub(crate) fn worktree_recorded_path(repo: &git2::Repository, name: &String) -> (r: Option<
    String,
>) {
    repo.find_worktree(name).ok().map(|w| w.path().to_string_lossy().into_owned())
}

/// Relies on git2::Repository::find_worktree, git2::Worktree::path and
/// std::path::Path::exists: whether the named worktree is registered and its
/// recorded working directory still exists on disk.
#[verifier::external_body]
pub(crate) fn worktree_target_exists(repo: &git2::Repository, name: &String) -> (r: bool) {
    repo.find_worktree(name).map(|w| w.path().exists()).unwrap_or(false)
}

/// Relies on git2::Repository::path and std::path::Path::exists: whether the
/// repository's internal worktree-admin area has an entry directory for the
/// given name.
#[verifier::external_body]
pub(crate) fn worktree_admin_dir_exists(repo: &git2::Repository, name: &String) -> (r: bool) {
    repo.path().join("worktrees").join(name).exists()
}

/// Relies on git2::Repository::path: removes the worktree-admin entry
/// directory for the given name with remove_dir_all::remove_dir_all.
#[verifier::external_body]
pub(crate) fn remove_worktree_admin_dir(repo: &git2::Repository, name: &String) -> (r: Result<
    (),
    (),
>) {
    remove_dir_all::remove_dir_all(repo.path().join("worktrees").join(name)).map_err(|_| ())
}

/// Relies on remove_dir_all::remove_dir_all: recursively deletes the
/// directory at `p`.
#[verifier::external_body]
pub(crate) fn remove_dir_all_at(p: &String) -> (r: Result<(), ()>) {
    remove_dir_all::remove_dir_all(p).map_err(|_| ())
}

/// Relies on git2::Repository::find_branch and git2::Branch::delete: deletes
/// the named local branch if it exists.
#[verifier::external_body]
pub(crate) fn delete_local_branch(repo: &git2::Repository, name: &String) -> (r: Result<
    (),
    git2::Error,
>) {
    match repo.find_branch(name, git2::BranchType::Local) {
        Ok(mut b) => b.delete(),
        Err(_) => Ok(()),
    }
}

/// Relies on git2::Repository::worktree: registers and populates a new linked
/// worktree with the given name at the given path.
#[verifier::external_body]
pub(crate) fn create_worktree(repo: &git2::Repository, name: &String, path: &String) -> (r: Result<
    (),
    git2::Error,
>) {
    repo.worktree(name, std::path::Path::new(path), None).map(|_| ())
}

/// Relies on git2::Worktree::open_from_repository and git2::Worktree::prune
/// with `valid(true)` and `working_tree(true)`: prunes the worktree the open
/// repository belongs to, removing both its admin metadata and its working
/// directory.
#[verifier::external_body]
pub(crate) fn prune_worktree_of(repo: &git2::Repository) -> (r: Result<(), git2::Error>) {
    let wt = git2::Worktree::open_from_repository(repo)?;
    wt.prune(Some(git2::WorktreePruneOptions::new().valid(true).working_tree(true)))
}

} // verus!
