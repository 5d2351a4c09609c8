use enclave_proc::fatal::FatalError;
use enclave_proc::path::{find_token, get_socket_path, id_char, token_char};
use enclave_proc::socket::{CloseAction, EnclaveProcSock, SocketError};

const DUMMY_ENCLAVE_ID: &str = "i-0000000000000000-enc0123456789012345";

/// Tests that the initial values of the EnclaveProcSock attributes match the
/// expected ones.
#[test]
fn test_enclaveprocsock_init() {
    let socket = EnclaveProcSock::new(&DUMMY_ENCLAVE_ID.to_string());

    assert!(socket.is_ok());

    if let Ok(socket) = socket {
        assert!(socket.get_path().contains("0123456789012345"));
        assert!(!socket.is_monitoring());
        assert!(!socket.remove_requested());
    }
}

/// Tests that removing the socket file by means other than `close()` does not
/// change the removal flag.
#[test]
fn test_start_monitoring() {
    let socket = EnclaveProcSock::new(&DUMMY_ENCLAVE_ID.to_string());

    assert!(socket.is_ok());

    if let Ok(mut socket) = socket {
        let result = socket.start_monitoring(Ok(()));

        assert!(result.is_ok());
        assert!(socket.is_monitoring());

        // Whatever happens to the socket file, only `close()` raises the flag.
        assert!(!socket.remove_requested());
    }
}

/// Tests that closing raises the removal flag and that no watcher is left.
#[test]
fn test_close() {
    let socket = EnclaveProcSock::new(&DUMMY_ENCLAVE_ID.to_string());

    assert!(socket.is_ok());

    if let Ok(mut socket) = socket {
        let watchers_before = socket.is_monitoring();
        let result = socket.start_monitoring(Ok(()));

        assert!(result.is_ok());

        let plan = socket.close_mut(true);

        assert!(socket.remove_requested());
        assert_eq!(
            plan,
            vec![CloseAction::RaiseFlag, CloseAction::Unlink, CloseAction::Join]
        );
        assert_eq!(watchers_before, socket.is_monitoring());
    }
}

#[test]
fn socket_path_is_made_of_the_identifier() {
    let socket = EnclaveProcSock::new(DUMMY_ENCLAVE_ID).unwrap();
    assert_eq!(
        socket.get_path(),
        "/var/run/nitro_enclaves/i-0000000000000000-enc0123456789012345.sock"
    );
    assert_eq!(
        get_socket_path("i-0f1e2d3c4b5a69788-encABCdef019").unwrap(),
        "/var/run/nitro_enclaves/i-0f1e2d3c4b5a69788-encABCdef019.sock"
    );
    assert_eq!(
        get_socket_path("-enc7").unwrap(),
        "/var/run/nitro_enclaves/-enc7.sock"
    );
}

#[test]
fn socket_path_is_stable() {
    let first = EnclaveProcSock::new(DUMMY_ENCLAVE_ID).unwrap();
    let second = EnclaveProcSock::new(DUMMY_ENCLAVE_ID).unwrap();
    assert_eq!(first.get_path(), second.get_path());
}

#[test]
fn socket_paths_of_distinct_identifiers_differ() {
    let a = get_socket_path("i-0000000000000000-enc0123456789012345").unwrap();
    let b = get_socket_path("i-0000000000000000-enc0123456789012346").unwrap();
    let c = get_socket_path("i-1111111111111111-enc0123456789012345").unwrap();
    let d = get_socket_path("i-0000000000000000-enc-enc0123456789012345").unwrap();
    assert_ne!(a, b);
    assert_ne!(a, c);
    assert_ne!(a, d);
    assert_ne!(b, c);
    assert_eq!(
        a,
        get_socket_path("i-0000000000000000-enc0123456789012345").unwrap()
    );
}

#[test]
fn the_last_marker_starts_the_token() {
    assert_eq!(find_token("i-0-enc12"), Some(7));
    assert_eq!(find_token("a-enc1-enc22"), Some(10));
    assert_eq!(
        get_socket_path("a-enc1-enc22").unwrap(),
        "/var/run/nitro_enclaves/a-enc1-enc22.sock"
    );
    assert_eq!(find_token("-enc-encenc"), Some(8));
    assert_eq!(
        get_socket_path("-enc-encenc").unwrap(),
        "/var/run/nitro_enclaves/-enc-encenc.sock"
    );
    // What stands before the marker does not move the token.
    assert_eq!(find_token("\u{e9}\u{e9}-encab"), Some(6));
    assert_eq!(find_token("../x-encab"), Some(8));
}

#[test]
fn identifiers_without_a_token_are_refused() {
    let malformed = [
        "",
        "enc",
        "-enc",
        "i-0000000000000000",
        "i-0000000000000000-enc",
        "i-0-enc12!",
        "i-0-enc12/34",
        "i-0-enc12.sock",
        "i-0-enc../etc",
        "i-0-ENC12",
        "i-0-en12",
        "i-0enc12",
        "0123456789012345",
        "i-0-enc12-",
        "i-0-enc1\u{e9}",
        "i-0-enc 12",
    ];
    for id in malformed {
        assert_eq!(find_token(id), None, "{:?}", id);
        assert_eq!(get_socket_path(id), None, "{:?}", id);
        let socket = EnclaveProcSock::new(id);
        assert!(matches!(socket, Err(SocketError::MalformedId)), "{:?}", id);
    }
}

#[test]
fn identifiers_that_could_leave_the_directory_are_refused() {
    let malformed = [
        "../x-encab",
        "/etc/x-encab",
        "i.0-enc12",
        "i_0-enc12",
        "i 0-enc12",
        "i-0\0-enc12",
        "\u{e9}\u{e9}-encab",
        "i-0-enc12\u{ff10}-enc3",
        "~-enc1",
    ];
    for id in malformed {
        assert!(find_token(id).is_some(), "{:?}", id);
        assert_eq!(get_socket_path(id), None, "{:?}", id);
        let socket = EnclaveProcSock::new(id);
        assert!(matches!(socket, Err(SocketError::MalformedId)), "{:?}", id);
    }
}

#[test]
fn token_characters_are_ascii_letters_and_digits() {
    for c in ['0', '5', '9', 'a', 'm', 'z', 'A', 'M', 'Z'] {
        assert!(token_char(c), "{:?}", c);
    }
    for c in ['-', '.', '/', '_', ' ', '\0', '@', '[', '`', '{', ':', '\u{e9}', '\u{ff10}'] {
        assert!(!token_char(c), "{:?}", c);
    }
    for c in ['0', '9', 'a', 'z', 'A', 'Z', '-'] {
        assert!(id_char(c), "{:?}", c);
    }
    for c in ['.', '/', '_', ' ', '\0', '@', '[', '`', '{', ':', ',', '+', '\u{e9}', '\u{ff10}'] {
        assert!(!id_char(c), "{:?}", c);
    }
}

#[test]
fn a_failed_watch_is_reported_and_changes_nothing() {
    let mut socket = EnclaveProcSock::new(DUMMY_ENCLAVE_ID).unwrap();
    assert_eq!(
        socket.start_monitoring(Err(2)),
        Err(SocketError::WatchFailed(2))
    );
    assert!(!socket.is_monitoring());
    assert!(!socket.remove_requested());
    // The endpoint can be bound and watched afterwards.
    assert_eq!(socket.start_monitoring(Ok(())), Ok(()));
    assert!(socket.is_monitoring());
}

#[test]
fn an_endpoint_has_one_watcher_at_most() {
    let mut socket = EnclaveProcSock::new(DUMMY_ENCLAVE_ID).unwrap();
    assert_eq!(socket.start_monitoring(Ok(())), Ok(()));
    assert_eq!(
        socket.start_monitoring(Ok(())),
        Err(SocketError::AlreadyMonitoring)
    );
    assert_eq!(
        socket.start_monitoring(Err(13)),
        Err(SocketError::AlreadyMonitoring)
    );
    assert!(socket.is_monitoring());
}

#[test]
fn a_closed_endpoint_gets_no_watcher() {
    let mut socket = EnclaveProcSock::new(DUMMY_ENCLAVE_ID).unwrap();
    socket.start_monitoring(Ok(())).unwrap();
    socket.close_mut(true);
    assert_eq!(socket.start_monitoring(Ok(())), Err(SocketError::Closed));
    assert_eq!(socket.start_monitoring(Err(2)), Err(SocketError::Closed));
    assert!(!socket.is_monitoring());
    assert!(socket.remove_requested());

    let mut unwatched = EnclaveProcSock::new(DUMMY_ENCLAVE_ID).unwrap();
    unwatched.close_mut(false);
    assert_eq!(unwatched.start_monitoring(Ok(())), Err(SocketError::Closed));
    assert!(!unwatched.is_monitoring());
}

#[test]
fn close_plans_raise_the_flag_first() {
    let plans = [
        (false, false, vec![CloseAction::RaiseFlag]),
        (false, true, vec![CloseAction::RaiseFlag, CloseAction::Unlink]),
        (true, false, vec![CloseAction::RaiseFlag, CloseAction::Join]),
        (
            true,
            true,
            vec![CloseAction::RaiseFlag, CloseAction::Unlink, CloseAction::Join],
        ),
    ];
    for (watched, present, expected) in plans {
        let mut socket = EnclaveProcSock::new(DUMMY_ENCLAVE_ID).unwrap();
        if watched {
            socket.start_monitoring(Ok(())).unwrap();
        }
        let plan = socket.close_mut(present);
        assert_eq!(plan, expected);
        assert!(socket.remove_requested());
        assert!(!socket.is_monitoring());
        assert_eq!(
            socket.get_path(),
            "/var/run/nitro_enclaves/i-0000000000000000-enc0123456789012345.sock"
        );

        let mut again = EnclaveProcSock::new(DUMMY_ENCLAVE_ID).unwrap();
        if watched {
            again.start_monitoring(Ok(())).unwrap();
        }
        assert_eq!(again.close(present), expected);
    }
}

#[test]
fn closing_twice_joins_once() {
    let mut socket = EnclaveProcSock::new(DUMMY_ENCLAVE_ID).unwrap();
    socket.start_monitoring(Ok(())).unwrap();
    assert_eq!(
        socket.close_mut(true),
        vec![CloseAction::RaiseFlag, CloseAction::Unlink, CloseAction::Join]
    );
    assert_eq!(socket.close_mut(false), vec![CloseAction::RaiseFlag]);
    assert!(socket.remove_requested());
}

#[test]
fn failed_close_steps_are_fatal() {
    assert_eq!(CloseAction::RaiseFlag.failure(), None);
    assert_eq!(CloseAction::Unlink.failure(), Some(FatalError::UnlinkFailed));
    assert_eq!(CloseAction::Join.failure(), Some(FatalError::JoinFailed));
}

#[test]
fn an_observer_holds_the_path_and_nothing_else() {
    let mut socket = EnclaveProcSock::new(DUMMY_ENCLAVE_ID).unwrap();
    let early = socket.observer();
    assert_eq!(early.get_path(), socket.get_path());

    socket.start_monitoring(Ok(())).unwrap();
    let observer = socket.observer();
    assert_eq!(
        observer.get_path(),
        "/var/run/nitro_enclaves/i-0000000000000000-enc0123456789012345.sock"
    );
    // The owner keeps its watcher and its flag.
    assert!(socket.is_monitoring());
    assert!(!socket.remove_requested());

    // The flag is the owner's: after the close it is up, whenever the observers
    // were made.
    socket.close_mut(true);
    assert!(socket.remove_requested());
    assert_eq!(early.get_path(), socket.get_path());
    assert_eq!(observer.get_path(), socket.get_path());
}

#[test]
fn an_observer_keeps_the_path_it_was_made_with() {
    let mut socket = EnclaveProcSock::new(DUMMY_ENCLAVE_ID).unwrap();
    let observer = socket.observer();
    socket.set_path(String::from("/tmp/test.sock"));
    assert_eq!(
        observer.get_path(),
        "/var/run/nitro_enclaves/i-0000000000000000-enc0123456789012345.sock"
    );
    assert_eq!(socket.observer().get_path(), "/tmp/test.sock");
}

#[test]
fn set_path_moves_the_endpoint_only() {
    let mut socket = EnclaveProcSock::new(DUMMY_ENCLAVE_ID).unwrap();
    socket.start_monitoring(Ok(())).unwrap();
    socket.set_path(String::from("/tmp/test.sock"));
    assert_eq!(socket.get_path(), "/tmp/test.sock");
    assert!(socket.is_monitoring());
    assert!(!socket.remove_requested());
}

#[test]
fn the_default_socket_has_no_path() {
    let socket = EnclaveProcSock::default();
    assert_eq!(socket.get_path(), "");
    assert!(!socket.is_monitoring());
    assert!(!socket.remove_requested());
}
