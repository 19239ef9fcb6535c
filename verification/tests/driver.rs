use bytes::Bytes;
use ssh_rev::driver::{recv, DriverAction, DriverPhase, ExecDriver, ReplyError};
use ssh_rev::rpc::{Event, EventError};
use ssh_rev::ssh_agent::Message;

fn message(message_type: u8, contents: &[u8]) -> Message {
    Message { message_type, contents: Bytes::copy_from_slice(contents) }
}

fn ack() -> Message {
    message(6, b"")
}

fn event(payload: Bytes) -> Message {
    Message { message_type: 6, contents: payload }
}

fn ours(payload: &[u8]) -> Vec<u8> {
    let mut expected = vec![0u8, 0, 0, 26];
    expected.extend_from_slice(b"ssh-rev-exec.1@koba789.com");
    expected.extend_from_slice(payload);
    expected
}

fn is_watch(m: &Message) -> bool {
    m.message_type == 27 && m.contents.to_vec() == ours(&[2])
}

fn running() -> ExecDriver {
    let (mut driver, _) = ExecDriver::exec(Bytes::from_static(b"{}"));
    assert!(matches!(driver.on_reply(ack()), DriverAction::Send(m) if is_watch(&m)));
    driver
}

#[test]
fn recv_reads_an_acknowledgement() {
    assert!(matches!(recv(ack()), Ok(None)));
}

#[test]
fn recv_reads_events() {
    assert!(matches!(recv(event(Event::cancelled())), Ok(Some(Event::Cancelled))));
    assert!(matches!(recv(event(Event::stdout(b"hi"))), Ok(Some(Event::Stdout(d))) if &d[..] == b"hi"));
    assert!(matches!(recv(event(Event::stderr(b"e"))), Ok(Some(Event::Stderr(d))) if &d[..] == b"e"));
    assert!(matches!(recv(event(Event::exited(42))), Ok(Some(Event::Exited(42)))));
}

#[test]
fn recv_rejects_failures() {
    assert!(matches!(recv(message(5, b"")), Err(ReplyError::AgentFailure)));
    assert!(matches!(recv(message(5, b"ignored")), Err(ReplyError::AgentFailure)));
    assert!(matches!(recv(message(28, b"")), Err(ReplyError::ExtensionFailure)));
}

#[test]
fn recv_rejects_other_message_types() {
    assert!(matches!(recv(message(12, b"ids")), Err(ReplyError::UnknownMessageType(12))));
    assert!(matches!(recv(message(27, b"")), Err(ReplyError::UnknownMessageType(27))));
    assert!(matches!(recv(message(0, b"")), Err(ReplyError::UnknownMessageType(0))));
}

#[test]
fn recv_rejects_malformed_events() {
    assert!(matches!(
        recv(message(6, b"\x07")),
        Err(ReplyError::Malformed(EventError::UnknownEventCode(7)))
    ));
    assert!(matches!(
        recv(message(6, &[3, 0, 0])),
        Err(ReplyError::Malformed(EventError::MalformedExited))
    ));
}

#[test]
fn exec_builds_the_exec_request() {
    let (driver, request) = ExecDriver::exec(Bytes::from_static(b"{\"cmd\":\"ls\"}"));
    assert_eq!(driver.phase(), DriverPhase::Starting);
    assert_eq!(request.message_type, 27);
    assert_eq!(request.contents.to_vec(), ours(b"\x00{\"cmd\":\"ls\"}"));
}

#[test]
fn acknowledged_exec_is_followed_by_the_first_watch() {
    let (mut driver, _) = ExecDriver::exec(Bytes::from_static(b"{}"));
    assert!(matches!(driver.on_reply(ack()), DriverAction::Send(m) if is_watch(&m)));
    assert_eq!(driver.phase(), DriverPhase::Running);
}

#[test]
fn anything_but_an_acknowledgement_of_exec_is_fatal() {
    let replies: Vec<(Message, ReplyError)> = vec![
        (message(5, b""), ReplyError::AgentFailure),
        (message(28, b""), ReplyError::ExtensionFailure),
        (message(12, b""), ReplyError::UnknownMessageType(12)),
        (event(Event::stdout(b"early")), ReplyError::UnexpectedEvent),
        (event(Event::exited(0)), ReplyError::UnexpectedEvent),
        (message(6, b"\x09"), ReplyError::Malformed(EventError::UnknownEventCode(9))),
    ];
    for (reply, expected) in replies {
        let (mut driver, _) = ExecDriver::exec(Bytes::from_static(b"{}"));
        assert!(matches!(driver.on_reply(reply), DriverAction::Fail(e) if e == expected));
        assert_eq!(driver.phase(), DriverPhase::Failed(expected));
    }
}

#[test]
fn stdout_is_written_then_watched_again() {
    let mut driver = running();
    match driver.on_reply(event(Event::stdout(b"hi"))) {
        DriverAction::Stdout { data, then } => {
            assert_eq!(&data[..], b"hi");
            assert!(is_watch(&then));
        }
        other => panic!("{:?}", other),
    }
    assert_eq!(driver.phase(), DriverPhase::Running);
}

#[test]
fn stderr_is_written_then_watched_again() {
    let mut driver = running();
    match driver.on_reply(event(Event::stderr(b"err"))) {
        DriverAction::Stderr { data, then } => {
            assert_eq!(&data[..], b"err");
            assert!(is_watch(&then));
        }
        other => panic!("{:?}", other),
    }
}

#[test]
fn cancelled_rearms_the_watch() {
    let mut driver = running();
    assert!(matches!(
        driver.on_reply(event(Event::cancelled())),
        DriverAction::Send(m) if is_watch(&m)
    ));
    assert_eq!(driver.phase(), DriverPhase::Running);
}

#[test]
fn acknowledgement_while_running_asks_for_nothing() {
    let mut driver = running();
    assert!(matches!(driver.on_reply(ack()), DriverAction::Wait));
    assert_eq!(driver.phase(), DriverPhase::Running);
}

#[test]
fn exited_ends_with_the_exit_code() {
    for code in [0, 42, -1, 255] {
        let mut driver = running();
        assert!(matches!(
            driver.on_reply(event(Event::exited(code))),
            DriverAction::Exit(c) if c == code
        ));
        assert_eq!(driver.phase(), DriverPhase::Exited(code));
        // and keeps saying so
        assert!(matches!(driver.on_reply(ack()), DriverAction::Exit(c) if c == code));
    }
}

#[test]
fn failure_while_running_is_fatal() {
    let mut driver = running();
    assert!(matches!(
        driver.on_reply(message(28, b"")),
        DriverAction::Fail(ReplyError::ExtensionFailure)
    ));
    assert_eq!(driver.phase(), DriverPhase::Failed(ReplyError::ExtensionFailure));
    assert!(matches!(
        driver.on_reply(event(Event::exited(0))),
        DriverAction::Fail(ReplyError::ExtensionFailure)
    ));

    let mut driver = running();
    assert!(matches!(
        driver.on_reply(message(5, b"")),
        DriverAction::Fail(ReplyError::AgentFailure)
    ));
}

#[test]
fn stdin_is_passed_on_chunk_by_chunk_and_eof_once() {
    let mut driver = running();
    let m = driver.on_stdin(Bytes::from_static(b"abc")).unwrap();
    assert_eq!(m.message_type, 27);
    assert_eq!(m.contents.to_vec(), ours(b"\x01abc"));
    let m = driver.on_stdin(Bytes::from_static(b"def")).unwrap();
    assert_eq!(m.contents.to_vec(), ours(b"\x01def"));
    let m = driver.on_stdin(Bytes::new()).unwrap();
    assert_eq!(m.contents.to_vec(), ours(b"\x01"));
    assert!(driver.on_stdin(Bytes::from_static(b"late")).is_none());
    assert!(driver.on_stdin(Bytes::new()).is_none());
}

#[test]
fn stdin_is_not_passed_on_unless_the_child_runs() {
    let (mut driver, _) = ExecDriver::exec(Bytes::from_static(b"{}"));
    assert!(driver.on_stdin(Bytes::from_static(b"abc")).is_none());

    let mut driver = running();
    driver.on_reply(event(Event::exited(0)));
    assert!(driver.on_stdin(Bytes::from_static(b"abc")).is_none());

    let mut driver = running();
    driver.on_reply(message(5, b""));
    assert!(driver.on_stdin(Bytes::from_static(b"abc")).is_none());
}
