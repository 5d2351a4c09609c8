use enclave_proc::fatal::FatalError;
use enclave_proc::monitor::{MonitorState, Observation};
use enclave_proc::notify::{is_removal_kind, watch_mask, IN_ATTRIB, IN_DELETE_SELF};
use enclave_proc::socket::{CloseAction, EnclaveProcSock};
use inotify::{EventMask, WatchMask};

fn seen(mask: u32, endpoint_present: bool, remove_requested: bool) -> Observation {
    Observation {
        mask,
        endpoint_present,
        remove_requested,
    }
}

#[test]
fn removal_kinds_are_attribute_change_and_self_deletion() {
    assert!(is_removal_kind(EventMask::ATTRIB.bits()));
    assert!(is_removal_kind(EventMask::DELETE_SELF.bits()));
    assert!(is_removal_kind(
        (EventMask::ATTRIB | EventMask::DELETE_SELF).bits()
    ));
    assert!(is_removal_kind(
        (EventMask::DELETE_SELF | EventMask::ISDIR).bits()
    ));
    assert!(is_removal_kind(0x0000_0004));
    assert!(is_removal_kind(0x0000_0400));
    assert!(is_removal_kind(0xffff_ffff));

    assert!(!is_removal_kind(0));
    for other in [
        EventMask::ACCESS,
        EventMask::CLOSE_WRITE,
        EventMask::CLOSE_NOWRITE,
        EventMask::CREATE,
        EventMask::DELETE,
        EventMask::MODIFY,
        EventMask::MOVE_SELF,
        EventMask::MOVED_FROM,
        EventMask::MOVED_TO,
        EventMask::OPEN,
        EventMask::IGNORED,
        EventMask::ISDIR,
        EventMask::Q_OVERFLOW,
        EventMask::UNMOUNT,
    ] {
        assert!(!is_removal_kind(other.bits()), "{:?}", other);
    }
    assert!(!is_removal_kind(0xffff_fbfb));
}

#[test]
fn flags_are_those_of_the_notification_interface() {
    assert_eq!(IN_ATTRIB, EventMask::ATTRIB.bits());
    assert_eq!(IN_DELETE_SELF, EventMask::DELETE_SELF.bits());
    assert_eq!(IN_ATTRIB, WatchMask::ATTRIB.bits());
    assert_eq!(IN_DELETE_SELF, WatchMask::DELETE_SELF.bits());
}

#[test]
fn the_watch_asks_for_the_removal_kinds() {
    assert_eq!(watch_mask(), 0x0000_0404);
    assert_eq!(
        WatchMask::from_bits(watch_mask()),
        Some(WatchMask::ATTRIB | WatchMask::DELETE_SELF)
    );
    for bit in 0..32 {
        let mask = 1u32 << bit;
        assert_eq!(is_removal_kind(mask), mask & watch_mask() != 0, "{}", bit);
    }
}

#[test]
fn a_watcher_starts_watching() {
    assert_eq!(MonitorState::start(), MonitorState::Watching);
    assert!(MonitorState::start().watching());
    assert!(!MonitorState::Done.watching());
    assert!(!MonitorState::Terminated(FatalError::SocketRemoved).watching());
}

#[test]
fn requested_removal_ends_the_watch_gracefully() {
    let state = MonitorState::start();
    assert_eq!(
        state.on_event(&seen(IN_DELETE_SELF, false, true)),
        MonitorState::Done
    );
    assert_eq!(
        state.on_event(&seen(IN_ATTRIB, false, true)),
        MonitorState::Done
    );
}

#[test]
fn external_removal_ends_the_process() {
    let state = MonitorState::start();
    assert_eq!(
        state.on_event(&seen(IN_DELETE_SELF, false, false)),
        MonitorState::Terminated(FatalError::SocketRemoved)
    );
    assert_eq!(
        state.on_event(&seen(IN_ATTRIB, false, false)),
        MonitorState::Terminated(FatalError::SocketRemoved)
    );
}

#[test]
fn external_removal_while_monitoring_finds_the_flag_down() {
    let mut socket = EnclaveProcSock::new("i-0000000000000000-enc0123456789012345").unwrap();
    socket.start_monitoring(Ok(())).unwrap();
    // Somebody else unlinks the endpoint.
    let event = seen(IN_DELETE_SELF, false, socket.remove_requested());
    assert!(!event.remove_requested);
    let state = MonitorState::start().on_event(&event);
    assert_eq!(state, MonitorState::Terminated(FatalError::SocketRemoved));
    match state {
        MonitorState::Terminated(cause) => assert_eq!(cause.exit_status(), 1),
        _ => panic!("the watcher went on"),
    }
}

#[test]
fn removal_by_close_finds_the_flag_up() {
    let mut socket = EnclaveProcSock::new("i-0000000000000000-enc0123456789012345").unwrap();
    socket.start_monitoring(Ok(())).unwrap();
    socket.close_mut(true);
    let event = seen(IN_DELETE_SELF, false, socket.remove_requested());
    assert!(event.remove_requested);
    assert_eq!(MonitorState::start().on_event(&event), MonitorState::Done);
}

#[test]
fn attribute_change_without_removal_moves_nothing() {
    let state = MonitorState::start();
    for flag in [false, true] {
        assert_eq!(
            state.on_event(&seen(IN_ATTRIB, true, flag)),
            MonitorState::Watching
        );
        assert_eq!(
            state.on_event(&seen(IN_DELETE_SELF, true, flag)),
            MonitorState::Watching
        );
        assert_eq!(
            state.on_event(&seen(IN_ATTRIB | IN_DELETE_SELF, true, flag)),
            MonitorState::Watching
        );
    }
}

#[test]
fn other_kinds_move_nothing() {
    let state = MonitorState::start();
    for present in [false, true] {
        for flag in [false, true] {
            assert_eq!(
                state.on_event(&seen(EventMask::IGNORED.bits(), present, flag)),
                MonitorState::Watching
            );
            assert_eq!(
                state.on_event(&seen(EventMask::MODIFY.bits(), present, flag)),
                MonitorState::Watching
            );
            assert_eq!(
                state.on_event(&seen(0, present, flag)),
                MonitorState::Watching
            );
        }
    }
}

#[test]
fn final_states_stay() {
    let finals = [
        MonitorState::Done,
        MonitorState::Terminated(FatalError::SocketRemoved),
        MonitorState::Terminated(FatalError::NotifyReadFailed),
    ];
    for state in finals {
        assert_eq!(state.on_event(&seen(IN_DELETE_SELF, false, false)), state);
        assert_eq!(state.on_event(&seen(IN_DELETE_SELF, false, true)), state);
        assert_eq!(state.on_event(&seen(IN_ATTRIB, true, false)), state);
        assert_eq!(state.on_read_failure(), state);
        assert_eq!(
            state.on_batch(&vec![
                seen(IN_ATTRIB, false, false),
                seen(IN_ATTRIB, false, true)
            ]),
            state
        );
    }
}

#[test]
fn a_failed_read_ends_the_process() {
    assert_eq!(
        MonitorState::start().on_read_failure(),
        MonitorState::Terminated(FatalError::NotifyReadFailed)
    );
}

#[test]
fn batches_are_taken_in_order() {
    let state = MonitorState::start();
    assert_eq!(state.on_batch(&vec![]), MonitorState::Watching);
    assert_eq!(
        state.on_batch(&vec![
            seen(IN_ATTRIB, true, false),
            seen(EventMask::MODIFY.bits(), false, false),
            seen(EventMask::IGNORED.bits(), false, true),
        ]),
        MonitorState::Watching
    );
    // The unlink by the owner shows up as an attribute change, a deletion and the
    // end of the watch.
    assert_eq!(
        state.on_batch(&vec![
            seen(IN_ATTRIB, false, true),
            seen(IN_DELETE_SELF, false, true),
            seen(EventMask::IGNORED.bits(), false, true),
        ]),
        MonitorState::Done
    );
    assert_eq!(
        state.on_batch(&vec![
            seen(IN_ATTRIB, true, false),
            seen(IN_DELETE_SELF, false, false),
            seen(IN_DELETE_SELF, false, true),
        ]),
        MonitorState::Terminated(FatalError::SocketRemoved)
    );
    assert_eq!(
        state.on_batch(&vec![
            seen(IN_ATTRIB, true, false),
            seen(IN_DELETE_SELF, false, true),
            seen(IN_DELETE_SELF, false, false),
        ]),
        MonitorState::Done
    );
}

#[test]
fn every_failure_has_its_warning() {
    assert_eq!(
        FatalError::SocketRemoved.message(),
        "The enclave process socket has been deleted!"
    );
    assert_eq!(
        FatalError::NotifyReadFailed.message(),
        "Failed to read inotify events."
    );
    assert_eq!(FatalError::UnlinkFailed.message(), "Failed to remove socket.");
    assert_eq!(
        FatalError::JoinFailed.message(),
        "Failed to join socket notification thread."
    );
    assert_eq!(
        FatalError::ReleaseFailed.message(),
        "Could not close enclave descriptor."
    );
}

#[test]
fn exit_statuses_are_distinguished() {
    let all = [
        FatalError::SocketRemoved,
        FatalError::NotifyReadFailed,
        FatalError::UnlinkFailed,
        FatalError::JoinFailed,
        FatalError::ReleaseFailed,
    ];
    assert_eq!(FatalError::SocketRemoved.exit_status(), 1);
    assert_eq!(FatalError::NotifyReadFailed.exit_status(), 2);
    assert_eq!(FatalError::UnlinkFailed.exit_status(), 3);
    assert_eq!(FatalError::JoinFailed.exit_status(), 4);
    assert_eq!(FatalError::ReleaseFailed.exit_status(), 5);
    for a in all {
        assert_ne!(a.exit_status(), 0);
        for b in all {
            assert_eq!(a.exit_status() == b.exit_status(), a == b);
        }
    }
}

#[test]
fn close_right_after_start_lets_the_watcher_return() {
    let mut socket = EnclaveProcSock::new("i-0000000000000000-enc0").unwrap();
    assert_eq!(
        socket.get_path(),
        "/var/run/nitro_enclaves/i-0000000000000000-enc0.sock"
    );
    let observer = socket.observer();

    // A listener is bound on the path, so the watch can be set up.
    assert_eq!(socket.start_monitoring(Ok(())), Ok(()));
    let mut watcher = MonitorState::start();
    let mut flag = socket.remove_requested();
    let mut present = true;
    let mut joined = false;
    assert!(!flag);

    for action in socket.close_mut(present) {
        match action {
            CloseAction::RaiseFlag => flag = true,
            CloseAction::Unlink => {
                assert!(flag, "the path goes before the flag is up");
                present = false;
                // The kernel reports the lost link and the deletion.
                watcher = watcher.on_batch(&vec![
                    seen(IN_ATTRIB, present, flag),
                    seen(IN_DELETE_SELF, present, flag),
                    seen(EventMask::IGNORED.bits(), present, flag),
                ]);
            }
            CloseAction::Join => {
                assert_eq!(watcher, MonitorState::Done);
                joined = true;
            }
        }
    }

    // The watcher read the one flag that the owner wrote.
    assert!(flag);
    assert_eq!(flag, socket.remove_requested());
    assert_eq!(observer.get_path(), socket.get_path());
    assert!(!present);
    assert!(joined);
    assert!(!socket.is_monitoring());
}
