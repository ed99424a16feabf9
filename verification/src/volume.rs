//! The volume store's edge: where the library touches durable storage.
//!
//! A copy-on-write volume is known to the library only by its path; what
//! lives at that path is the volume store's business. The two functions
//! that actually inspect or change the disk are trusted wrappers around
//! single system calls, and their answers depend on the machine's disk
//! state: the contracts assume nothing about which way they come out.

use vstd::prelude::*;

verus! {

/// A named location of a copy-on-write volume on durable storage.
#[derive(Debug)]
pub struct VolumeRef {
    /// Absolute path of the volume's root directory.
    pub path: String,
}

/// Relies on `nix::sys::stat::stat`: returns whether the path currently
/// resolves to an inode. The answer depends on disk state, so nothing is
/// assumed of it.
#[verifier::external_body]
pub(crate) fn path_present(path: &String) -> (r: bool) {
    nix::sys::stat::stat(path.as_str()).is_ok()
}

/// Relies on `nix::unistd::mkdir`: creates the directory, or reports the
/// OS error number (`EEXIST` on an identity collision, `ENOENT` on a
/// missing parent). The outcome depends on disk state, so nothing is
/// assumed of it.
#[verifier::external_body]
pub(crate) fn make_directory(path: &String) -> (r: Result<(), i32>) {
    match nix::unistd::mkdir(path.as_str(), nix::sys::stat::Mode::from_bits_truncate(0o755)) {
        Ok(()) => Ok(()),
        Err(e) => Err(e as i32),
    }
}

} // verus!
