use daemon_session::attach::{
    run_stream, AttachMachine, AttachPhase, StreamAction, StreamEvent,
};
use daemon_session::errors::ErrorKind;

#[test]
fn attach_duplex_with_clean_shutdown() {
    // The outbound chunks reach the channel in order, the data frame's
    // body reaches stdin exactly, the sentinel begins termination, and on
    // return the listener registration is gone.
    let mut m = AttachMachine::start();
    m.accept();
    let events = vec![
        StreamEvent::OutboundChunk("hello\n".to_string()),
        StreamEvent::UiMessage(b"data|ls\n".to_vec()),
        StreamEvent::OutboundChunk("world\n".to_string()),
        StreamEvent::UiMessage(b"END_TUNNEL|".to_vec()),
    ];
    let out = run_stream(m, events);
    assert_eq!(out.emitted, vec!["hello\n".to_string(), "world\n".to_string()]);
    assert_eq!(out.stdin_writes, vec![b"ls\n".to_vec()]);
    let mut m = out.machine;
    assert_eq!(m.phase, AttachPhase::Terminating);
    assert!(m.terminated);
    m.finish_teardown();
    assert!(!m.listener_registered);
    assert!(!m.sink_held);
    assert!(!m.reader_held);
    assert!(m.finish().is_ok());
}

#[test]
fn attach_handshake_failure() {
    // A 404 on the attach request closes the call at once: the mapped
    // error is returned, no listener was registered, nothing was emitted.
    let mut m = AttachMachine::start();
    m.reject(bollard::errors::Error::DockerResponseServerError {
        status_code: 404,
        message: "no such container: nope".to_string(),
    });
    assert_eq!(m.phase, AttachPhase::Closed);
    assert!(!m.listener_registered);
    let e = m.finish().unwrap_err();
    assert_eq!(e.kind, ErrorKind::DockerResponseServerError);
    assert_eq!(e.status_code, Some(404));
}

#[test]
fn outbound_end_terminates_session() {
    let mut m = AttachMachine::start();
    m.accept();
    let a = m.step(StreamEvent::OutboundEnd);
    assert!(matches!(a, StreamAction::BeginTeardown));
    assert_eq!(m.phase, AttachPhase::Terminating);
    assert!(m.terminated);
}

#[test]
fn sink_error_terminates_session() {
    let mut m = AttachMachine::start();
    m.accept();
    let a = m.step(StreamEvent::SinkError);
    assert!(matches!(a, StreamAction::BeginTeardown));
    assert_eq!(m.phase, AttachPhase::Terminating);
}

#[test]
fn listener_error_terminates_session() {
    let mut m = AttachMachine::start();
    m.accept();
    let a = m.step(StreamEvent::ListenerClosed);
    assert!(matches!(a, StreamAction::BeginTeardown));
    assert_eq!(m.phase, AttachPhase::Terminating);
}

#[test]
fn late_chunk_is_dropped_not_emitted() {
    let mut m = AttachMachine::start();
    m.accept();
    m.step(StreamEvent::UiMessage(b"END_TUNNEL|".to_vec()));
    let a = m.step(StreamEvent::OutboundChunk("late\n".to_string()));
    assert!(matches!(a, StreamAction::Ignore));
    assert_eq!(m.phase, AttachPhase::Terminating);
}

#[test]
fn malformed_ui_message_is_ignored() {
    let mut m = AttachMachine::start();
    m.accept();
    let a = m.step(StreamEvent::UiMessage(b"no separator here".to_vec()));
    assert!(matches!(a, StreamAction::Ignore));
    assert_eq!(m.phase, AttachPhase::Streaming);
}

#[test]
fn data_frame_body_goes_to_stdin_even_with_separators() {
    let mut m = AttachMachine::start();
    m.accept();
    let a = m.step(StreamEvent::UiMessage(b"data|echo a|b\n".to_vec()));
    match a {
        StreamAction::WriteStdin(b) => assert_eq!(b, b"echo a|b\n".to_vec()),
        _ => panic!("expected a stdin write"),
    }
    assert_eq!(m.phase, AttachPhase::Streaming);
}

#[test]
fn sentinel_body_never_reaches_stdin() {
    let mut m = AttachMachine::start();
    m.accept();
    let out = run_stream(m, vec![StreamEvent::UiMessage(b"END_TUNNEL|rm -rf\n".to_vec())]);
    assert!(out.stdin_writes.is_empty());
    assert_eq!(out.machine.phase, AttachPhase::Terminating);
}
