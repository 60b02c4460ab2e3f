use herdr::ipc::{
    named_pipe_available, named_pipe_closed_error, pipe_poll_state, socket_probe_closed,
    socket_read_state, LocalStreamRead, PeekOutcome, ReadErrorKind, ReadOutcome,
};

#[test]
fn socket_reads_are_classified() {
    assert_eq!(socket_read_state(ReadOutcome::Read(0)), Some(LocalStreamRead::Closed));
    assert_eq!(socket_read_state(ReadOutcome::Read(12)), Some(LocalStreamRead::Data));
    assert_eq!(
        socket_read_state(ReadOutcome::Failed(ReadErrorKind::WouldBlock)),
        Some(LocalStreamRead::Pending)
    );
    assert_eq!(socket_read_state(ReadOutcome::Failed(ReadErrorKind::Other)), None);
    assert_eq!(socket_probe_closed(ReadOutcome::Failed(ReadErrorKind::Interrupted)), Some(false));
    assert_eq!(socket_probe_closed(ReadOutcome::Failed(ReadErrorKind::ConnectionClosed)), Some(true));
    assert_eq!(socket_probe_closed(ReadOutcome::Read(1)), Some(true));
}

#[test]
fn named_pipe_errors_that_mean_closed() {
    for code in [6, 109, 232, 233] {
        assert!(named_pipe_closed_error(Some(code)));
    }
    assert!(!named_pipe_closed_error(Some(5)));
    assert!(!named_pipe_closed_error(None));
    assert_eq!(
        named_pipe_available(PeekOutcome::Failed { connection_closed: false, code: Some(109) }),
        Some(None)
    );
    assert_eq!(named_pipe_available(PeekOutcome::Available(4)), Some(Some(4)));
    assert_eq!(pipe_poll_state(Some(0), ReadOutcome::Read(3)), Some(LocalStreamRead::Pending));
    assert_eq!(pipe_poll_state(None, ReadOutcome::Read(3)), Some(LocalStreamRead::Closed));
}
