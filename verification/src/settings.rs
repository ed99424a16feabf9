//! The configuration snapshot the runtime consumes.
//!
//! Loading and merging (a defaults file plus prefix-scoped environment
//! overrides) happens outside the library; the library only requires the
//! resulting object to be fully populated before resolution begins, and
//! reads it without ever mutating it.

use vstd::prelude::*;

verus! {

/// The on-disk layout the runtime works in: three absolute directories.
#[derive(Debug)]
pub struct Disk {
    /// The root storage directory.
    pub root_dir: String,
    /// Where image volumes live, one per `<name>/<tag>`.
    pub images_dir: String,
    /// Where container directories are created, one per identity.
    pub containers_dir: String,
}

/// An immutable settings object for the process lifetime.
#[derive(Debug)]
pub struct Settings {
    /// The disk layout.
    pub disk: Disk,
}

} // verus!
