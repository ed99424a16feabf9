//! A minimal single-host container launcher.
//!
//! Given a named copy-on-write filesystem image and a command, the library
//! resolves the image reference to a backing volume, allocates a fresh
//! container identity and root-filesystem snapshot path, and prepares the
//! namespace session in which the command runs: the ordered mount
//! transition, the user-namespace capability handshake between parent and
//! child, and the final identity switch and program replacement.
//!
//! Everything that decides — reference parsing, identity generation, path
//! layout, the channel message codec, the uid/gid map contents, and the two
//! protocol state machines — is verified here. The thin surrounding binary
//! performs the actual system calls that the state machines order.

pub mod container;
pub mod errors;
pub mod executor;
pub mod image;
pub mod opts;
pub mod protocol;
pub mod session;
pub mod settings;
pub mod volume;

use vstd::prelude::*;

use crate::container::Container;
use crate::errors::{Error, InvalidCommandError};
use crate::executor::{Executor, LaunchPlan};
use crate::image::{spec_image_volume_path, spec_parse_reference, Image};
use crate::opts::Opts;
use crate::settings::Settings;

verus! {

/// A fully prepared launch: the resolved image, the allocated container,
/// and the plan the namespace session runs. The session's remaining work
/// — snapshotting the image volume at the container's `fs` path, then
/// driving the two machines of [`crate::session`] — happens outside.
#[derive(Debug)]
pub struct Launch {
    /// The resolved image whose volume is the snapshot source.
    pub image: Image,
    /// The allocated container.
    pub container: Container,
    /// The validated session plan.
    pub plan: LaunchPlan,
}

/// Resolve, allocate and validate one launch request against the given
/// settings. Stages run in order and fail fast: a malformed reference is
/// rejected before any disk access, a missing volume before any
/// allocation, and an empty command before any process or channel exists.
pub fn run(opts: Opts, settings: &Settings) -> (r: Result<Launch, Error>)
    ensures
        match r {
            Ok(l) => {
                &&& spec_parse_reference(opts.image@) matches Some(p) && l.image.volume.path@
                    == spec_image_volume_path(settings.disk.images_dir@, p.0, p.1)
                &&& l.image.name@ == opts.image@
                &&& l.container.wf(settings.disk.containers_dir@)
                &&& opts.command@.len() > 0
                &&& l.plan.hostname@ == l.container.uuid@
                &&& l.plan.root_volume.path@ == l.container.fs.path@
                &&& l.plan.command.deep_view() == opts.command.deep_view()
            },
            Err(Error::InvalidReference) => spec_parse_reference(opts.image@) is None,
            Err(Error::ImageNotFound) => spec_parse_reference(opts.image@) is Some,
            Err(Error::IoError(_)) => spec_parse_reference(opts.image@) is Some,
            Err(Error::InvalidCommand(c)) => c == InvalidCommandError::Empty
                && spec_parse_reference(opts.image@) is Some && opts.command@.len() == 0,
            Err(_) => false,
        },
{
    let image = match Image::new(opts.image.clone(), settings) {
        Ok(im) => im,
        Err(e) => {
            return Err(e);
        },
    };
    let container = match Container::new(settings) {
        Ok(c) => c,
        Err(e) => {
            return Err(e);
        },
    };
    let executor = Executor::new();
    let plan = match executor.execute(&container, &opts.command) {
        Ok(p) => p,
        Err(e) => {
            return Err(e);
        },
    };
    Ok(Launch { image, container, plan })
}

} // verus!

