//! The namespace executor's entry: validate the command and fix the
//! launch before any OS resource is touched.
//!
//! The session itself — the channel pair, the clone into fresh namespaces,
//! and the handshake — is ordered by the machines in [`crate::session`];
//! an empty command is rejected here first, so no channel is created and
//! no process is spawned for it.

use vstd::prelude::*;

use crate::container::Container;
use crate::errors::{Error, InvalidCommandError};
use crate::volume::VolumeRef;

verus! {

/// Everything the namespace session consumes: the host name to give the
/// child (the container identity), the volume to bind as its root, and
/// the command to exec.
#[derive(Debug)]
pub struct LaunchPlan {
    /// The child's host name: the container identity.
    pub hostname: String,
    /// The volume bound as the container's root filesystem.
    pub root_volume: VolumeRef,
    /// The program and arguments the child execs, never empty.
    pub command: Vec<String>,
}

/// Copy a command vector, element for element.
fn clone_command(command: &Vec<String>) -> (r: Vec<String>)
    ensures
        r@ == command@,
        r.deep_view() == command.deep_view(),
{
    let mut out: Vec<String> = Vec::new();
    let mut k: usize = 0;
    while k < command.len()
        invariant
            0 <= k <= command.len(),
            out@.len() == k,
            forall|i: int| 0 <= i < k ==> #[trigger] out@[i] == command@[i],
        decreases command.len() - k,
    {
        let s = command[k].clone();
        out.push(s);
        k = k + 1;
    }
    proof {
        assert(out@ =~= command@);
    }
    out
}

/// The namespace executor.
#[derive(Debug)]
pub struct Executor;

impl Executor {
    /// A fresh executor.
    pub fn new() -> (r: Self) {
        Executor
    }

    /// Fix the launch for a container: an empty command is rejected with
    /// `InvalidCommand` before any channel exists or any process is
    /// spawned; any other command yields the plan the session runs.
    pub fn execute(&self, container: &Container, command: &Vec<String>) -> (r: Result<
        LaunchPlan,
        Error,
    >)
        ensures
            command@.len() == 0 ==> r == Err::<LaunchPlan, Error>(
                Error::InvalidCommand(InvalidCommandError::Empty),
            ),
            command@.len() > 0 ==> (r matches Ok(p) && p.hostname@ == container.uuid@
                && p.root_volume.path@ == container.fs.path@ && p.command.deep_view()
                == command.deep_view()),
    {
        if command.is_empty() {
            return Err(Error::InvalidCommand(InvalidCommandError::Empty));
        }
        Ok(
            LaunchPlan {
                hostname: container.uuid.clone(),
                root_volume: VolumeRef { path: container.fs.path.clone() },
                command: clone_command(command),
            },
        )
    }
}

} // verus!
