//! The namespace session, as two state machines.
//!
//! A launch runs in two cooperating processes. The child walks through the
//! mount transition, the user-namespace negotiation and the identity switch
//! before replacing itself with the command; the parent answers the child's
//! capability signal, writes the identity maps when a new user namespace
//! exists, and acknowledges. Each machine is a pure step function from the
//! last completed milestone and the outcome of the action taken there to
//! the next milestone; the surrounding binary performs each action (a
//! system call or a channel transfer) and feeds the outcome back. The
//! ordering these machines force — private remount before bind, bind before
//! pivot, pivot before detach, detach before `/proc`, and no identity
//! switch before a full acknowledgement arrived — is proved below.

use vstd::prelude::*;
use vstd::bytes::spec_u64_from_le_bytes;

use crate::errors::Error;
use crate::protocol::MESSAGE_SIZE;

verus! {

/// The child's last completed milestone.
#[derive(Debug, Clone, Copy, PartialEq, Eq, Structural)]
pub enum ChildPhase {
    /// The child exists inside its fresh namespaces; nothing ran yet.
    Spawned,
    /// The visible host name is the container identity.
    HostnameSet,
    /// Every inherited mount is private: nothing leaks back to the host.
    MountsPrivate,
    /// The container root volume is bind-mounted on a private directory.
    RootBound,
    /// The process root now is the container root.
    Pivoted,
    /// The old root is detached and its mount point removed.
    OldRootDetached,
    /// A fresh `/proc` is mounted inside the new root.
    ProcMounted,
    /// The user-namespace unshare was attempted; the flag says if it took.
    UserNsAttempted(bool),
    /// The capability flag went to the parent; the child may only block now.
    AwaitingAck,
    /// A full 8-byte acknowledgement arrived.
    AckReceived,
    /// The child runs as uid 0 / gid 0 of its (possibly new) namespace.
    IdentitySwitched,
    /// The process image was replaced by the command.
    Execed,
    /// A step failed; the child terminates with this error.
    Failed(Error),
}

/// What the child does next in a given phase.
#[derive(Debug, Clone, Copy, PartialEq, Eq, Structural)]
pub enum ChildAction {
    /// Set the visible host name to the container identity.
    SetHostname,
    /// Recursively remount `/` private.
    RemountPrivate,
    /// Bind-mount the container root volume onto a fresh private directory,
    /// with a nested directory ready to receive the old root.
    BindRoot,
    /// Pivot the process root into the bound directory and move to `/`.
    PivotRoot,
    /// Lazily detach the old root and remove its mount point.
    DetachOldRoot,
    /// Mount a fresh `proc` filesystem on `/proc`.
    MountProc,
    /// Try to unshare into a new user namespace; both outcomes continue.
    TryUserNamespace,
    /// Send the capability flag over the channel.
    SendCapability(bool),
    /// Block until the parent's acknowledgement message arrives.
    AwaitAck,
    /// Clear supplementary groups and become uid 0 / gid 0.
    SwitchIdentity,
    /// Replace the process image with the requested command.
    Exec,
}

/// The outcome of one child action, reported by the process that ran it.
#[derive(Debug)]
pub enum ChildEvent {
    /// The action completed.
    Succeeded,
    /// The action failed with this OS error number.
    Failed(i32),
    /// The user-namespace attempt finished; the flag says if it took.
    UserNs(bool),
    /// A channel read returned these bytes.
    Message(Vec<u8>),
}

/// The child machine's transition: from a milestone and the outcome of the
/// action taken there to the next milestone. Failures carry the error kind
/// of the stage; an outcome that the phase cannot produce is a protocol
/// breach. Terminal phases absorb every outcome.
pub open spec fn child_transition(phase: ChildPhase, event: ChildEvent) -> ChildPhase {
    match (phase, event) {
        (ChildPhase::Spawned, ChildEvent::Succeeded) => ChildPhase::HostnameSet,
        (ChildPhase::Spawned, ChildEvent::Failed(e)) => ChildPhase::Failed(
            Error::NamespaceError(e),
        ),
        (ChildPhase::HostnameSet, ChildEvent::Succeeded) => ChildPhase::MountsPrivate,
        (ChildPhase::HostnameSet, ChildEvent::Failed(e)) => ChildPhase::Failed(Error::IoError(e)),
        (ChildPhase::MountsPrivate, ChildEvent::Succeeded) => ChildPhase::RootBound,
        (ChildPhase::MountsPrivate, ChildEvent::Failed(e)) => ChildPhase::Failed(
            Error::IoError(e),
        ),
        (ChildPhase::RootBound, ChildEvent::Succeeded) => ChildPhase::Pivoted,
        (ChildPhase::RootBound, ChildEvent::Failed(e)) => ChildPhase::Failed(
            Error::NamespaceError(e),
        ),
        (ChildPhase::Pivoted, ChildEvent::Succeeded) => ChildPhase::OldRootDetached,
        (ChildPhase::Pivoted, ChildEvent::Failed(e)) => ChildPhase::Failed(Error::IoError(e)),
        (ChildPhase::OldRootDetached, ChildEvent::Succeeded) => ChildPhase::ProcMounted,
        (ChildPhase::OldRootDetached, ChildEvent::Failed(e)) => ChildPhase::Failed(
            Error::IoError(e),
        ),
        (ChildPhase::ProcMounted, ChildEvent::UserNs(flag)) => ChildPhase::UserNsAttempted(flag),
        (ChildPhase::UserNsAttempted(_), ChildEvent::Succeeded) => ChildPhase::AwaitingAck,
        (ChildPhase::AwaitingAck, ChildEvent::Message(m)) => if m@.len() == MESSAGE_SIZE {
            ChildPhase::AckReceived
        } else {
            ChildPhase::Failed(Error::ProtocolError)
        },
        (ChildPhase::AckReceived, ChildEvent::Succeeded) => ChildPhase::IdentitySwitched,
        (ChildPhase::AckReceived, ChildEvent::Failed(e)) => ChildPhase::Failed(
            Error::NamespaceError(e),
        ),
        (ChildPhase::IdentitySwitched, ChildEvent::Succeeded) => ChildPhase::Execed,
        (ChildPhase::IdentitySwitched, ChildEvent::Failed(e)) => ChildPhase::Failed(
            Error::ExecError(e),
        ),
        (ChildPhase::Execed, _) => ChildPhase::Execed,
        (ChildPhase::Failed(e), _) => ChildPhase::Failed(e),
        (_, _) => ChildPhase::Failed(Error::ProtocolError),
    }
}

/// The action the child takes in a phase; terminal phases have none.
pub open spec fn spec_child_action(phase: ChildPhase) -> Option<ChildAction> {
    match phase {
        ChildPhase::Spawned => Some(ChildAction::SetHostname),
        ChildPhase::HostnameSet => Some(ChildAction::RemountPrivate),
        ChildPhase::MountsPrivate => Some(ChildAction::BindRoot),
        ChildPhase::RootBound => Some(ChildAction::PivotRoot),
        ChildPhase::Pivoted => Some(ChildAction::DetachOldRoot),
        ChildPhase::OldRootDetached => Some(ChildAction::MountProc),
        ChildPhase::ProcMounted => Some(ChildAction::TryUserNamespace),
        ChildPhase::UserNsAttempted(flag) => Some(ChildAction::SendCapability(flag)),
        ChildPhase::AwaitingAck => Some(ChildAction::AwaitAck),
        ChildPhase::AckReceived => Some(ChildAction::SwitchIdentity),
        ChildPhase::IdentitySwitched => Some(ChildAction::Exec),
        ChildPhase::Execed => None,
        ChildPhase::Failed(_) => None,
    }
}

/// Step the child machine once.
pub fn child_step(phase: ChildPhase, event: ChildEvent) -> (r: ChildPhase)
    ensures
        r == child_transition(phase, event),
{
    match (phase, event) {
        (ChildPhase::Spawned, ChildEvent::Succeeded) => ChildPhase::HostnameSet,
        (ChildPhase::Spawned, ChildEvent::Failed(e)) => ChildPhase::Failed(
            Error::NamespaceError(e),
        ),
        (ChildPhase::HostnameSet, ChildEvent::Succeeded) => ChildPhase::MountsPrivate,
        (ChildPhase::HostnameSet, ChildEvent::Failed(e)) => ChildPhase::Failed(Error::IoError(e)),
        (ChildPhase::MountsPrivate, ChildEvent::Succeeded) => ChildPhase::RootBound,
        (ChildPhase::MountsPrivate, ChildEvent::Failed(e)) => ChildPhase::Failed(
            Error::IoError(e),
        ),
        (ChildPhase::RootBound, ChildEvent::Succeeded) => ChildPhase::Pivoted,
        (ChildPhase::RootBound, ChildEvent::Failed(e)) => ChildPhase::Failed(
            Error::NamespaceError(e),
        ),
        (ChildPhase::Pivoted, ChildEvent::Succeeded) => ChildPhase::OldRootDetached,
        (ChildPhase::Pivoted, ChildEvent::Failed(e)) => ChildPhase::Failed(Error::IoError(e)),
        (ChildPhase::OldRootDetached, ChildEvent::Succeeded) => ChildPhase::ProcMounted,
        (ChildPhase::OldRootDetached, ChildEvent::Failed(e)) => ChildPhase::Failed(
            Error::IoError(e),
        ),
        (ChildPhase::ProcMounted, ChildEvent::UserNs(flag)) => ChildPhase::UserNsAttempted(flag),
        (ChildPhase::UserNsAttempted(_), ChildEvent::Succeeded) => ChildPhase::AwaitingAck,
        (ChildPhase::AwaitingAck, ChildEvent::Message(m)) => if m.len() == MESSAGE_SIZE {
            ChildPhase::AckReceived
        } else {
            ChildPhase::Failed(Error::ProtocolError)
        },
        (ChildPhase::AckReceived, ChildEvent::Succeeded) => ChildPhase::IdentitySwitched,
        (ChildPhase::AckReceived, ChildEvent::Failed(e)) => ChildPhase::Failed(
            Error::NamespaceError(e),
        ),
        (ChildPhase::IdentitySwitched, ChildEvent::Succeeded) => ChildPhase::Execed,
        (ChildPhase::IdentitySwitched, ChildEvent::Failed(e)) => ChildPhase::Failed(
            Error::ExecError(e),
        ),
        (ChildPhase::Execed, _) => ChildPhase::Execed,
        (ChildPhase::Failed(e), _) => ChildPhase::Failed(e),
        (_, _) => ChildPhase::Failed(Error::ProtocolError),
    }
}

/// The action the child takes next, or nothing when its run is over.
pub fn child_action(phase: &ChildPhase) -> (r: Option<ChildAction>)
    ensures
        r == spec_child_action(*phase),
{
    match phase {
        ChildPhase::Spawned => Some(ChildAction::SetHostname),
        ChildPhase::HostnameSet => Some(ChildAction::RemountPrivate),
        ChildPhase::MountsPrivate => Some(ChildAction::BindRoot),
        ChildPhase::RootBound => Some(ChildAction::PivotRoot),
        ChildPhase::Pivoted => Some(ChildAction::DetachOldRoot),
        ChildPhase::OldRootDetached => Some(ChildAction::MountProc),
        ChildPhase::ProcMounted => Some(ChildAction::TryUserNamespace),
        ChildPhase::UserNsAttempted(flag) => Some(ChildAction::SendCapability(*flag)),
        ChildPhase::AwaitingAck => Some(ChildAction::AwaitAck),
        ChildPhase::AckReceived => Some(ChildAction::SwitchIdentity),
        ChildPhase::IdentitySwitched => Some(ChildAction::Exec),
        ChildPhase::Execed => None,
        ChildPhase::Failed(_) => None,
    }
}

/// The parent's last completed milestone.
#[derive(Debug, Clone, Copy, PartialEq, Eq, Structural)]
pub enum ParentPhase {
    /// The private channel pair exists; the child does not yet.
    ChannelCreated,
    /// The child runs under this process id.
    ChildSpawned(u32),
    /// The child's capability flag arrived and decoded to this value.
    CapabilityKnown(u32, bool),
    /// Both identity-map files of the child were written.
    MapsWritten(u32),
    /// The acknowledgement went out; the child may switch identity now.
    AckSent,
    /// The deferred wait reaped the child.
    Done,
    /// A step failed; the launch reports this error.
    Failed(Error),
}

/// What the parent does next in a given phase.
#[derive(Debug, Clone, Copy, PartialEq, Eq, Structural)]
pub enum ParentAction {
    /// Clone the child into its fresh namespaces.
    SpawnChild,
    /// Block until the child's capability message arrives.
    AwaitCapability,
    /// Write the uid and gid map files of this child process.
    WriteIdMaps(u32),
    /// Send the 8-byte success acknowledgement.
    SendAck,
    /// Wait for the child to exit, reaping its process-table entry.
    AwaitChildExit,
}

/// The outcome of one parent action.
#[derive(Debug)]
pub enum ParentEvent {
    /// The child was cloned; its process id follows.
    Spawned(i32),
    /// The action completed.
    Succeeded,
    /// The action failed with this OS error number.
    Failed(i32),
    /// A channel read returned these bytes.
    Message(Vec<u8>),
}

/// The parent machine's transition. The identity maps are written exactly
/// when the capability flag decoded nonzero; the acknowledgement follows in
/// either case. Outcomes of the final wait are ignored, as reaping may race
/// with an already-exited child. An outcome that the phase cannot produce
/// is a protocol breach; terminal phases absorb every outcome.
pub open spec fn parent_transition(phase: ParentPhase, event: ParentEvent) -> ParentPhase {
    match (phase, event) {
        (ParentPhase::ChannelCreated, ParentEvent::Spawned(pid)) => if pid > 0 {
            ParentPhase::ChildSpawned(pid as u32)
        } else {
            ParentPhase::Failed(Error::NamespaceError(0))
        },
        (ParentPhase::ChannelCreated, ParentEvent::Failed(e)) => ParentPhase::Failed(
            Error::NamespaceError(e),
        ),
        (ParentPhase::ChildSpawned(pid), ParentEvent::Message(m)) => if m@.len() != MESSAGE_SIZE {
            ParentPhase::Failed(Error::ProtocolError)
        } else {
            ParentPhase::CapabilityKnown(pid, spec_u64_from_le_bytes(m@) != 0)
        },
        (ParentPhase::ChildSpawned(_), ParentEvent::Failed(_)) => ParentPhase::Failed(
            Error::ProtocolError,
        ),
        (ParentPhase::CapabilityKnown(pid, true), ParentEvent::Succeeded) => ParentPhase::MapsWritten(
            pid,
        ),
        (ParentPhase::CapabilityKnown(_, true), ParentEvent::Failed(e)) => ParentPhase::Failed(
            Error::IoError(e),
        ),
        (ParentPhase::CapabilityKnown(_, false), ParentEvent::Succeeded) => ParentPhase::AckSent,
        (ParentPhase::CapabilityKnown(_, false), ParentEvent::Failed(_)) => ParentPhase::Failed(
            Error::ProtocolError,
        ),
        (ParentPhase::MapsWritten(_), ParentEvent::Succeeded) => ParentPhase::AckSent,
        (ParentPhase::MapsWritten(_), ParentEvent::Failed(_)) => ParentPhase::Failed(
            Error::ProtocolError,
        ),
        (ParentPhase::AckSent, _) => ParentPhase::Done,
        (ParentPhase::Done, _) => ParentPhase::Done,
        (ParentPhase::Failed(e), _) => ParentPhase::Failed(e),
        (_, _) => ParentPhase::Failed(Error::ProtocolError),
    }
}

/// The action the parent takes in a phase; terminal phases have none.
pub open spec fn spec_parent_action(phase: ParentPhase) -> Option<ParentAction> {
    match phase {
        ParentPhase::ChannelCreated => Some(ParentAction::SpawnChild),
        ParentPhase::ChildSpawned(_) => Some(ParentAction::AwaitCapability),
        ParentPhase::CapabilityKnown(pid, flag) => if flag {
            Some(ParentAction::WriteIdMaps(pid))
        } else {
            Some(ParentAction::SendAck)
        },
        ParentPhase::MapsWritten(_) => Some(ParentAction::SendAck),
        ParentPhase::AckSent => Some(ParentAction::AwaitChildExit),
        ParentPhase::Done => None,
        ParentPhase::Failed(_) => None,
    }
}

/// Step the parent machine once.
pub fn parent_step(phase: ParentPhase, event: ParentEvent) -> (r: ParentPhase)
    ensures
        r == parent_transition(phase, event),
{
    match (phase, event) {
        (ParentPhase::ChannelCreated, ParentEvent::Spawned(pid)) => if pid > 0 {
            ParentPhase::ChildSpawned(pid as u32)
        } else {
            ParentPhase::Failed(Error::NamespaceError(0))
        },
        (ParentPhase::ChannelCreated, ParentEvent::Failed(e)) => ParentPhase::Failed(
            Error::NamespaceError(e),
        ),
        (ParentPhase::ChildSpawned(pid), ParentEvent::Message(m)) => {
            match crate::protocol::read_capability(&m) {
                Ok(flag) => ParentPhase::CapabilityKnown(pid, flag),
                Err(_) => ParentPhase::Failed(Error::ProtocolError),
            }
        },
        (ParentPhase::ChildSpawned(_), ParentEvent::Failed(_)) => ParentPhase::Failed(
            Error::ProtocolError,
        ),
        (ParentPhase::CapabilityKnown(pid, true), ParentEvent::Succeeded) => ParentPhase::MapsWritten(
            pid,
        ),
        (ParentPhase::CapabilityKnown(_, true), ParentEvent::Failed(e)) => ParentPhase::Failed(
            Error::IoError(e),
        ),
        (ParentPhase::CapabilityKnown(_, false), ParentEvent::Succeeded) => ParentPhase::AckSent,
        (ParentPhase::CapabilityKnown(_, false), ParentEvent::Failed(_)) => ParentPhase::Failed(
            Error::ProtocolError,
        ),
        (ParentPhase::MapsWritten(_), ParentEvent::Succeeded) => ParentPhase::AckSent,
        (ParentPhase::MapsWritten(_), ParentEvent::Failed(_)) => ParentPhase::Failed(
            Error::ProtocolError,
        ),
        (ParentPhase::AckSent, _) => ParentPhase::Done,
        (ParentPhase::Done, _) => ParentPhase::Done,
        (ParentPhase::Failed(e), _) => ParentPhase::Failed(e),
        (_, _) => ParentPhase::Failed(Error::ProtocolError),
    }
}

/// The child phase after a run, replaying its outcomes from the start.
pub open spec fn child_run(events: Seq<ChildEvent>) -> ChildPhase
    decreases events.len(),
{
    if events.len() == 0 {
        ChildPhase::Spawned
    } else {
        child_transition(child_run(events.drop_last()), events.last())
    }
}

/// The parent phase after a run, replaying its outcomes from the start.
pub open spec fn parent_run(events: Seq<ParentEvent>) -> ParentPhase
    decreases events.len(),
{
    if events.len() == 0 {
        ParentPhase::ChannelCreated
    } else {
        parent_transition(parent_run(events.drop_last()), events.last())
    }
}

/// How far into the child sequence a phase lies; the failure phase has no
/// place in the sequence.
pub open spec fn child_rank(phase: ChildPhase) -> int {
    match phase {
        ChildPhase::Spawned => 0,
        ChildPhase::HostnameSet => 1,
        ChildPhase::MountsPrivate => 2,
        ChildPhase::RootBound => 3,
        ChildPhase::Pivoted => 4,
        ChildPhase::OldRootDetached => 5,
        ChildPhase::ProcMounted => 6,
        ChildPhase::UserNsAttempted(_) => 7,
        ChildPhase::AwaitingAck => 8,
        ChildPhase::AckReceived => 9,
        ChildPhase::IdentitySwitched => 10,
        ChildPhase::Execed => 11,
        ChildPhase::Failed(_) => -1,
    }
}

/// One child step either fails, stays at the terminal phase, or completes
/// exactly the next milestone: no step of the sequence can be skipped.
pub proof fn lemma_child_step_is_next_milestone(phase: ChildPhase, event: ChildEvent)
    ensures
        child_transition(phase, event) matches ChildPhase::Failed(_)
            || (phase == ChildPhase::Execed && child_transition(phase, event)
                == ChildPhase::Execed)
            || child_rank(child_transition(phase, event)) == child_rank(phase) + 1,
{
}

/// The mount transition and the handshake happen in their stated order: a
/// run standing at some milestone passed through every earlier milestone.
/// In particular `/proc` is mounted only after the root was pivoted, the
/// root is pivoted only after the volume was bound, and the volume is bound
/// only after every inherited mount became private.
pub proof fn lemma_child_passes_every_milestone(events: Seq<ChildEvent>, j: int)
    requires
        0 <= j <= child_rank(child_run(events)),
    ensures
        exists|i: int|
            0 <= i <= events.len() && child_rank(#[trigger] child_run(events.take(i))) == j,
    decreases events.len(),
{
    if events.len() == 0 {
        assert(child_run(events.take(0)) == child_run(events));
    } else {
        let prev = events.drop_last();
        let p = child_run(prev);
        let cur = child_run(events);
        lemma_child_step_is_next_milestone(p, events.last());
        if j == child_rank(cur) {
            assert(events.take(events.len() as int) =~= events);
            assert(child_rank(child_run(events.take(events.len() as int))) == j);
        } else {
            assert(j <= child_rank(p));
            lemma_child_passes_every_milestone(prev, j);
            let i = choose|i: int|
                0 <= i <= prev.len() && child_rank(#[trigger] child_run(prev.take(i))) == j;
            assert(events.take(i) =~= prev.take(i));
            assert(child_rank(child_run(events.take(i))) == j);
        }
    }
}

/// The child switches identity only after a full 8-byte acknowledgement
/// arrived on the channel: the rendezvous cannot be skipped.
pub proof fn lemma_identity_switch_needs_ack(events: Seq<ChildEvent>)
    requires
        child_rank(child_run(events)) >= child_rank(ChildPhase::AckReceived),
    ensures
        exists|i: int|
            0 <= i < events.len() && (#[trigger] events[i] matches ChildEvent::Message(m)
                && m@.len() == MESSAGE_SIZE),
    decreases events.len(),
{
    let prev = events.drop_last();
    let p = child_run(prev);
    lemma_child_step_is_next_milestone(p, events.last());
    if child_rank(p) >= child_rank(ChildPhase::AckReceived) {
        lemma_identity_switch_needs_ack(prev);
        let i = choose|i: int|
            0 <= i < prev.len() && (#[trigger] prev[i] matches ChildEvent::Message(m)
                && m@.len() == MESSAGE_SIZE);
        assert(events[i] matches ChildEvent::Message(m) && m@.len() == MESSAGE_SIZE);
    } else {
        assert(p == ChildPhase::AwaitingAck);
        assert(events.last() matches ChildEvent::Message(m) && m@.len() == MESSAGE_SIZE);
        assert(events[events.len() - 1] matches ChildEvent::Message(m) && m@.len()
            == MESSAGE_SIZE);
    }
}

/// The parent acknowledges only once the identity maps are dealt with:
/// either both map files were written, or the capability flag said no new
/// user namespace exists and there was nothing to write. This is the
/// ordering guarantee the child's blocking read relies on.
pub proof fn lemma_ack_only_after_maps_handled(events: Seq<ParentEvent>)
    requires
        parent_run(events) == ParentPhase::AckSent,
    ensures
        events.len() > 0,
        exists|pid: u32|
            parent_run(events.drop_last()) == ParentPhase::MapsWritten(pid) || parent_run(
                events.drop_last(),
            ) == ParentPhase::CapabilityKnown(pid, false),
{
    let p = parent_run(events.drop_last());
    match p {
        ParentPhase::MapsWritten(pid) => {
            assert(parent_run(events.drop_last()) == ParentPhase::MapsWritten(pid));
        },
        ParentPhase::CapabilityKnown(pid, flag) => {
            assert(parent_run(events.drop_last()) == ParentPhase::CapabilityKnown(pid, false));
        },
        _ => {
            assert(false);
        },
    }
}

/// The identity maps are written only for a child whose capability flag
/// decoded nonzero: on a host without user namespaces the parent skips the
/// map files entirely and still acknowledges.
pub proof fn lemma_maps_need_capability(events: Seq<ParentEvent>, pid: u32)
    requires
        parent_run(events) == ParentPhase::MapsWritten(pid),
    ensures
        events.len() > 0,
        parent_run(events.drop_last()) == ParentPhase::CapabilityKnown(pid, true),
{
}

/// Whatever the user-namespace attempt yields, the child's run completes:
/// with every action succeeding and any full 8-byte acknowledgement, both
/// capability values walk the same sequence to the program replacement.
/// Missing user namespaces alone never fail or block the child.
pub proof fn lemma_child_completes_either_capability(flag: bool, ack: Vec<u8>)
    requires
        ack@.len() == MESSAGE_SIZE,
    ensures
        child_run(
            seq![
                ChildEvent::Succeeded,
                ChildEvent::Succeeded,
                ChildEvent::Succeeded,
                ChildEvent::Succeeded,
                ChildEvent::Succeeded,
                ChildEvent::Succeeded,
                ChildEvent::UserNs(flag),
                ChildEvent::Succeeded,
                ChildEvent::Message(ack),
                ChildEvent::Succeeded,
                ChildEvent::Succeeded,
            ],
        ) == ChildPhase::Execed,
{
    reveal_with_fuel(child_run, 3);
    let s0 = Seq::<ChildEvent>::empty();
    let s1 = s0.push(ChildEvent::Succeeded);
    let s2 = s1.push(ChildEvent::Succeeded);
    let s3 = s2.push(ChildEvent::Succeeded);
    let s4 = s3.push(ChildEvent::Succeeded);
    let s5 = s4.push(ChildEvent::Succeeded);
    let s6 = s5.push(ChildEvent::Succeeded);
    let s7 = s6.push(ChildEvent::UserNs(flag));
    let s8 = s7.push(ChildEvent::Succeeded);
    let s9 = s8.push(ChildEvent::Message(ack));
    let s10 = s9.push(ChildEvent::Succeeded);
    let s11 = s10.push(ChildEvent::Succeeded);
    assert(s1.drop_last() =~= s0);
    assert(s2.drop_last() =~= s1);
    assert(s3.drop_last() =~= s2);
    assert(s4.drop_last() =~= s3);
    assert(s5.drop_last() =~= s4);
    assert(s6.drop_last() =~= s5);
    assert(s7.drop_last() =~= s6);
    assert(s8.drop_last() =~= s7);
    assert(s9.drop_last() =~= s8);
    assert(s10.drop_last() =~= s9);
    assert(s11.drop_last() =~= s10);
    assert(child_run(s1) == ChildPhase::HostnameSet);
    assert(child_run(s2) == ChildPhase::MountsPrivate);
    assert(child_run(s3) == ChildPhase::RootBound);
    assert(child_run(s4) == ChildPhase::Pivoted);
    assert(child_run(s5) == ChildPhase::OldRootDetached);
    assert(child_run(s6) == ChildPhase::ProcMounted);
    assert(child_run(s7) == ChildPhase::UserNsAttempted(flag));
    assert(child_run(s8) == ChildPhase::AwaitingAck);
    assert(child_run(s9) == ChildPhase::AckReceived);
    assert(child_run(s10) == ChildPhase::IdentitySwitched);
    assert(child_run(s11) == ChildPhase::Execed);
    assert(s11 =~= seq![
        ChildEvent::Succeeded,
        ChildEvent::Succeeded,
        ChildEvent::Succeeded,
        ChildEvent::Succeeded,
        ChildEvent::Succeeded,
        ChildEvent::Succeeded,
        ChildEvent::UserNs(flag),
        ChildEvent::Succeeded,
        ChildEvent::Message(ack),
        ChildEvent::Succeeded,
        ChildEvent::Succeeded,
    ]);
}

/// Whatever capability value a full 8-byte message carries, the parent's
/// run completes: with a nonzero flag it writes the maps first; with a
/// zero flag it acknowledges at once. Either way the acknowledgement goes
/// out and the run ends.
pub proof fn lemma_parent_always_acknowledges(pid: i32, m: Vec<u8>)
    requires
        pid > 0,
        m@.len() == MESSAGE_SIZE,
    ensures
        spec_u64_from_le_bytes(m@) != 0 ==> parent_run(
            seq![
                ParentEvent::Spawned(pid),
                ParentEvent::Message(m),
                ParentEvent::Succeeded,
                ParentEvent::Succeeded,
                ParentEvent::Succeeded,
            ],
        ) == ParentPhase::Done,
        spec_u64_from_le_bytes(m@) == 0 ==> parent_run(
            seq![
                ParentEvent::Spawned(pid),
                ParentEvent::Message(m),
                ParentEvent::Succeeded,
                ParentEvent::Succeeded,
            ],
        ) == ParentPhase::Done,
{
    reveal_with_fuel(parent_run, 3);
    let flag = spec_u64_from_le_bytes(m@) != 0;
    let s0 = Seq::<ParentEvent>::empty();
    let s1 = s0.push(ParentEvent::Spawned(pid));
    let s2 = s1.push(ParentEvent::Message(m));
    assert(s1.drop_last() =~= s0);
    assert(s2.drop_last() =~= s1);
    assert(parent_run(s1) == ParentPhase::ChildSpawned(pid as u32));
    assert(parent_run(s2) == ParentPhase::CapabilityKnown(pid as u32, flag));
    if flag {
        let s3 = s2.push(ParentEvent::Succeeded);
        let s4 = s3.push(ParentEvent::Succeeded);
        let s5 = s4.push(ParentEvent::Succeeded);
        assert(s3.drop_last() =~= s2);
        assert(s4.drop_last() =~= s3);
        assert(s5.drop_last() =~= s4);
        assert(parent_run(s3) == ParentPhase::MapsWritten(pid as u32));
        assert(parent_run(s4) == ParentPhase::AckSent);
        assert(parent_run(s5) == ParentPhase::Done);
        assert(s5 =~= seq![
            ParentEvent::Spawned(pid),
            ParentEvent::Message(m),
            ParentEvent::Succeeded,
            ParentEvent::Succeeded,
            ParentEvent::Succeeded,
        ]);
    } else {
        let s3 = s2.push(ParentEvent::Succeeded);
        let s4 = s3.push(ParentEvent::Succeeded);
        assert(s3.drop_last() =~= s2);
        assert(s4.drop_last() =~= s3);
        assert(parent_run(s3) == ParentPhase::AckSent);
        assert(parent_run(s4) == ParentPhase::Done);
        assert(s4 =~= seq![
            ParentEvent::Spawned(pid),
            ParentEvent::Message(m),
            ParentEvent::Succeeded,
            ParentEvent::Succeeded,
        ]);
    }
}

/// A finished parent run sent the acknowledgement at some point.
pub proof fn lemma_done_passed_ack(events: Seq<ParentEvent>)
    requires
        parent_run(events) == ParentPhase::Done,
    ensures
        exists|i: int|
            0 <= i <= events.len() && #[trigger] parent_run(events.take(i))
                == ParentPhase::AckSent,
    decreases events.len(),
{
    let prev = events.drop_last();
    let p = parent_run(prev);
    if p == ParentPhase::Done {
        lemma_done_passed_ack(prev);
        let i = choose|i: int|
            0 <= i <= prev.len() && #[trigger] parent_run(prev.take(i)) == ParentPhase::AckSent;
        assert(events.take(i) =~= prev.take(i));
        assert(parent_run(events.take(i)) == ParentPhase::AckSent);
    } else {
        assert(p == ParentPhase::AckSent);
        assert(events.take(events.len() - 1) =~= prev);
        assert(parent_run(events.take(events.len() - 1)) == ParentPhase::AckSent);
    }
}

/// The action the parent takes next, or nothing when its run is over.
pub fn parent_action(phase: &ParentPhase) -> (r: Option<ParentAction>)
    ensures
        r == spec_parent_action(*phase),
{
    match phase {
        ParentPhase::ChannelCreated => Some(ParentAction::SpawnChild),
        ParentPhase::ChildSpawned(_) => Some(ParentAction::AwaitCapability),
        ParentPhase::CapabilityKnown(pid, flag) => if *flag {
            Some(ParentAction::WriteIdMaps(*pid))
        } else {
            Some(ParentAction::SendAck)
        },
        ParentPhase::MapsWritten(_) => Some(ParentAction::SendAck),
        ParentPhase::AckSent => Some(ParentAction::AwaitChildExit),
        ParentPhase::Done => None,
        ParentPhase::Failed(_) => None,
    }
}

} // verus!
