use container::container::Container;
use container::errors::{Error, InvalidCommandError};
use container::executor::Executor;
use container::protocol::{
    ack_message, capability_message, decode_message, encode_message, gid_map_path, id_map_line,
    read_capability, uid_map_path, USERNS_COUNT, USERNS_OFFSET,
};
use container::session::{
    child_action, child_step, parent_action, parent_step, ChildAction, ChildEvent, ChildPhase,
    ParentAction, ParentEvent, ParentPhase,
};
use container::volume::VolumeRef;

#[test]
fn messages_are_eight_bytes_little_endian() {
    let m = encode_message(1);
    assert_eq!(m, vec![1, 0, 0, 0, 0, 0, 0, 0]);
    assert_eq!(decode_message(&m).unwrap(), 1);
    let big = encode_message(0x0102030405060708);
    assert_eq!(big, vec![8, 7, 6, 5, 4, 3, 2, 1]);
    assert_eq!(decode_message(&big).unwrap(), 0x0102030405060708);
}

#[test]
fn acknowledgement_is_eight_zero_bytes() {
    let ack = ack_message();
    assert_eq!(ack.len(), 8);
    assert_eq!(ack, vec![0; 8]);
    assert_eq!(decode_message(&ack).unwrap(), 0);
}

#[test]
fn short_messages_are_rejected() {
    assert_eq!(decode_message(&vec![0; 7]).unwrap_err(), Error::ProtocolError);
    assert_eq!(decode_message(&Vec::new()).unwrap_err(), Error::ProtocolError);
    assert_eq!(read_capability(&vec![1, 0, 0]).unwrap_err(), Error::ProtocolError);
}

#[test]
fn capability_flag_round_trips() {
    assert_eq!(read_capability(&capability_message(true)).unwrap(), true);
    assert_eq!(read_capability(&capability_message(false)).unwrap(), false);
    assert_eq!(read_capability(&encode_message(7)).unwrap(), true);
}

#[test]
fn id_map_line_covers_the_whole_space() {
    let line = id_map_line(USERNS_OFFSET, USERNS_COUNT);
    assert_eq!(line.as_str(), "0 0 4294967295\n");
    assert_eq!(id_map_line(10000, 2000).as_str(), "0 10000 2000\n");
}

#[test]
fn id_map_paths_name_the_child() {
    assert_eq!(uid_map_path(42).as_str(), "/proc/42/uid_map");
    assert_eq!(gid_map_path(42).as_str(), "/proc/42/gid_map");
}

#[test]
fn child_walks_the_full_sequence_in_order() {
    let expected_actions = vec![
        ChildAction::SetHostname,
        ChildAction::RemountPrivate,
        ChildAction::BindRoot,
        ChildAction::PivotRoot,
        ChildAction::DetachOldRoot,
        ChildAction::MountProc,
        ChildAction::TryUserNamespace,
        ChildAction::SendCapability(true),
        ChildAction::AwaitAck,
        ChildAction::SwitchIdentity,
        ChildAction::Exec,
    ];
    let mut phase = ChildPhase::Spawned;
    for (i, want) in expected_actions.iter().enumerate() {
        assert_eq!(child_action(&phase).unwrap(), *want);
        let event = match want {
            ChildAction::TryUserNamespace => ChildEvent::UserNs(true),
            ChildAction::AwaitAck => ChildEvent::Message(ack_message()),
            _ => ChildEvent::Succeeded,
        };
        phase = child_step(phase, event);
        if i + 1 == expected_actions.len() {
            assert_eq!(phase, ChildPhase::Execed);
        }
    }
    assert_eq!(child_action(&phase), None);
}

#[test]
fn child_without_user_namespace_still_completes() {
    let mut phase = ChildPhase::ProcMounted;
    phase = child_step(phase, ChildEvent::UserNs(false));
    assert_eq!(child_action(&phase).unwrap(), ChildAction::SendCapability(false));
    phase = child_step(phase, ChildEvent::Succeeded);
    assert_eq!(phase, ChildPhase::AwaitingAck);
    phase = child_step(phase, ChildEvent::Message(ack_message()));
    assert_eq!(phase, ChildPhase::AckReceived);
    phase = child_step(phase, ChildEvent::Succeeded);
    assert_eq!(phase, ChildPhase::IdentitySwitched);
    phase = child_step(phase, ChildEvent::Succeeded);
    assert_eq!(phase, ChildPhase::Execed);
}

#[test]
fn child_rejects_short_acknowledgement() {
    let phase = child_step(ChildPhase::AwaitingAck, ChildEvent::Message(vec![0; 4]));
    assert_eq!(phase, ChildPhase::Failed(Error::ProtocolError));
    assert_eq!(child_action(&phase), None);
}

#[test]
fn child_mount_failure_is_fatal() {
    let phase = child_step(ChildPhase::HostnameSet, ChildEvent::Failed(5));
    assert_eq!(phase, ChildPhase::Failed(Error::IoError(5)));
}

#[test]
fn child_pivot_failure_is_a_namespace_error() {
    let phase = child_step(ChildPhase::RootBound, ChildEvent::Failed(1));
    assert_eq!(phase, ChildPhase::Failed(Error::NamespaceError(1)));
}

#[test]
fn parent_writes_maps_when_child_has_capability() {
    let mut phase = ParentPhase::ChannelCreated;
    assert_eq!(parent_action(&phase).unwrap(), ParentAction::SpawnChild);
    phase = parent_step(phase, ParentEvent::Spawned(42));
    assert_eq!(parent_action(&phase).unwrap(), ParentAction::AwaitCapability);
    phase = parent_step(phase, ParentEvent::Message(capability_message(true)));
    assert_eq!(parent_action(&phase).unwrap(), ParentAction::WriteIdMaps(42));
    phase = parent_step(phase, ParentEvent::Succeeded);
    assert_eq!(parent_action(&phase).unwrap(), ParentAction::SendAck);
    phase = parent_step(phase, ParentEvent::Succeeded);
    assert_eq!(phase, ParentPhase::AckSent);
    phase = parent_step(phase, ParentEvent::Succeeded);
    assert_eq!(phase, ParentPhase::Done);
}

#[test]
fn parent_skips_maps_without_capability() {
    let mut phase = ParentPhase::ChannelCreated;
    phase = parent_step(phase, ParentEvent::Spawned(42));
    phase = parent_step(phase, ParentEvent::Message(capability_message(false)));
    // Straight to the acknowledgement: no map files are written.
    assert_eq!(parent_action(&phase).unwrap(), ParentAction::SendAck);
    phase = parent_step(phase, ParentEvent::Succeeded);
    assert_eq!(phase, ParentPhase::AckSent);
    phase = parent_step(phase, ParentEvent::Succeeded);
    assert_eq!(phase, ParentPhase::Done);
}

#[test]
fn parent_rejects_short_capability_message() {
    let mut phase = ParentPhase::ChannelCreated;
    phase = parent_step(phase, ParentEvent::Spawned(42));
    phase = parent_step(phase, ParentEvent::Message(vec![1, 0]));
    assert_eq!(phase, ParentPhase::Failed(Error::ProtocolError));
}

#[test]
fn parent_map_write_failure_is_an_io_error() {
    let phase = ParentPhase::CapabilityKnown(42, true);
    assert_eq!(
        parent_step(phase, ParentEvent::Failed(13)),
        ParentPhase::Failed(Error::IoError(13))
    );
}

#[test]
fn empty_command_is_rejected_before_any_session() {
    let container = Container {
        uuid: "0123456789ab".to_string(),
        dir: "/containers/0123456789ab".to_string(),
        fs: VolumeRef { path: "/containers/0123456789ab/fs".to_string() },
    };
    let executor = Executor::new();
    let r = executor.execute(&container, &Vec::new());
    assert_eq!(
        r.unwrap_err(),
        Error::InvalidCommand(InvalidCommandError::Empty)
    );
}

#[test]
fn execute_plans_the_session() {
    let container = Container {
        uuid: "0123456789ab".to_string(),
        dir: "/containers/0123456789ab".to_string(),
        fs: VolumeRef { path: "/containers/0123456789ab/fs".to_string() },
    };
    let executor = Executor::new();
    let command = vec!["cat".to_string(), "/marker".to_string()];
    let plan = executor.execute(&container, &command).unwrap();
    assert_eq!(plan.hostname.as_str(), "0123456789ab");
    assert_eq!(plan.root_volume.path.as_str(), "/containers/0123456789ab/fs");
    assert_eq!(plan.command, command);
}
