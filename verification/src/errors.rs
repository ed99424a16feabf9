//! Error kinds raised by the runtime's stages.
use vstd::prelude::*;

verus! {

/// The reason a command vector was rejected before any launch work began.
#[derive(Debug, Clone, Copy, PartialEq, Eq, Structural)]
pub enum InvalidCommandError {
    /// The command vector held no program to execute.
    Empty,
}

/// Every failure the runtime reports, by stage.
///
/// The integer payloads carry the raw OS error number observed by the
/// operation that failed.
#[derive(Debug, Clone, Copy, PartialEq, Eq, Structural)]
pub enum Error {
    /// The image reference string was malformed.
    InvalidReference,
    /// The reference was well formed but no volume backs it.
    ImageNotFound,
    /// The command vector was rejected before any OS resource was created.
    InvalidCommand(InvalidCommandError),
    /// A directory creation, snapshot, mount or file write failed.
    IoError(i32),
    /// A namespace transition (clone, unshare, pivot, identity switch) failed.
    NamespaceError(i32),
    /// A synchronization-channel message was missing, short or unreadable.
    ProtocolError,
    /// Replacing the process image with the requested command failed.
    ExecError(i32),
}

} // verus!
