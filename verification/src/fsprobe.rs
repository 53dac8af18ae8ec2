//! Probes of filesystem state. Each result reflects what is on disk at the
//! moment of the call, so nothing beyond the shape of the answer is assumed.

use vstd::prelude::*;

verus! {

/// Relies on std::path::Path::canonicalize: resolves an existing path to its
/// canonical absolute form, failing when the path does not exist or cannot be
/// resolved. The result depends on the state of the filesystem.
#[verifier::external_body]
pub(crate) fn canonicalize_path(p: &String) -> (r: Option<String>) {
    match std::path::Path::new(p).canonicalize() {
        Ok(c) => Some(c.to_string_lossy().into_owned()),
        Err(_) => None,
    }
}

/// Relies on std::path::Path::exists: whether the path points at anything,
/// following symlinks. The result depends on the state of the filesystem.
#[verifier::external_body]
pub(crate) fn path_exists(p: &String) -> (r: bool) {
    std::path::Path::new(p).exists()
}

/// Relies on std::path::Path::symlink_metadata: queries the path itself
/// without following it, so a symlink — even a dangling one — answers true.
/// The result depends on the state of the filesystem.
#[verifier::external_body]
pub(crate) fn path_is_symlink(p: &String) -> (r: bool) {
    std::path::Path::new(p).symlink_metadata().map(|m| m.file_type().is_symlink()).unwrap_or(false)
}

} // verus!
