use bytes::Bytes;
use ssh_rev::rpc::{
    build_request_message, Event, EventCode, EventError, OpCode, Request, RequestError,
    UnknownCode, EXTENSION_TYPE,
};
use ssh_rev::ssh_agent::Extension;

#[test]
fn test_stdout() {
    let content_bytes = Event::stdout(b"hello");
    assert_eq!(b"\x01hello", &*content_bytes);
}

#[test]
fn extension_type_is_the_ascii_name() {
    assert_eq!(&EXTENSION_TYPE[..], b"ssh-rev-exec.1@koba789.com");
}

#[test]
fn opcodes_have_their_wire_values() {
    assert_eq!(OpCode::Exec.code(), 0);
    assert_eq!(OpCode::Stdin.code(), 1);
    assert_eq!(OpCode::Watch.code(), 2);
}

#[test]
fn opcode_try_from_accepts_known_and_rejects_unknown() {
    assert_eq!(OpCode::try_from(0), Ok(OpCode::Exec));
    assert_eq!(OpCode::try_from(1), Ok(OpCode::Stdin));
    assert_eq!(OpCode::try_from(2), Ok(OpCode::Watch));
    for number in 3..=255u8 {
        assert_eq!(OpCode::try_from(number), Err(UnknownCode { number }));
    }
}

#[test]
fn event_codes_have_their_wire_values() {
    assert_eq!(EventCode::Cancelled.code(), 0);
    assert_eq!(EventCode::Stdout.code(), 1);
    assert_eq!(EventCode::Stderr.code(), 2);
    assert_eq!(EventCode::Exited.code(), 3);
}

#[test]
fn event_code_try_from_accepts_known_and_rejects_unknown() {
    assert_eq!(EventCode::try_from(0), Ok(EventCode::Cancelled));
    assert_eq!(EventCode::try_from(1), Ok(EventCode::Stdout));
    assert_eq!(EventCode::try_from(2), Ok(EventCode::Stderr));
    assert_eq!(EventCode::try_from(3), Ok(EventCode::Exited));
    for number in 4..=255u8 {
        assert_eq!(EventCode::try_from(number), Err(UnknownCode { number }));
    }
}

#[test]
fn request_payloads() {
    assert_eq!(&Request::watch()[..], &[2u8][..]);
    assert_eq!(&Request::stdin(Bytes::from_static(b"abc"))[..], b"\x01abc");
    assert_eq!(&Request::stdin(Bytes::new())[..], b"\x01");
    assert_eq!(&Request::exec(b"{\"cmd\":\"ls\"}")[..], b"\x00{\"cmd\":\"ls\"}");
}

#[test]
fn request_into_bytes_agrees_with_the_builders() {
    assert_eq!(&Request::Watch.into_bytes()[..], &[2u8][..]);
    assert_eq!(&Request::Stdin(Bytes::from_static(b"abc")).into_bytes()[..], b"\x01abc");
    assert_eq!(&Request::Exec(Bytes::from_static(b"{}")).into_bytes()[..], b"\x00{}");
}

#[test]
fn request_try_from_reads_each_request() {
    match Request::try_from(Bytes::from_static(b"\x00{\"cmd\":\"ls\"}")).unwrap() {
        Request::Exec(descriptor) => assert_eq!(&descriptor[..], b"{\"cmd\":\"ls\"}"),
        other => panic!("{:?}", other),
    }
    match Request::try_from(Bytes::from_static(b"\x01abc")).unwrap() {
        Request::Stdin(data) => assert_eq!(&data[..], b"abc"),
        other => panic!("{:?}", other),
    }
    match Request::try_from(Bytes::from_static(b"\x01")).unwrap() {
        Request::Stdin(data) => assert!(data.is_empty()),
        other => panic!("{:?}", other),
    }
    assert!(matches!(Request::try_from(Bytes::from_static(b"\x02")), Ok(Request::Watch)));
    assert!(matches!(Request::try_from(Bytes::from_static(b"\x02junk")), Ok(Request::Watch)));
}

#[test]
fn request_try_from_rejects_empty_and_unknown() {
    assert!(matches!(Request::try_from(Bytes::new()), Err(RequestError::Empty)));
    assert!(matches!(
        Request::try_from(Bytes::from_static(b"\x03abc")),
        Err(RequestError::UnknownOpCode(3))
    ));
    assert!(matches!(
        Request::try_from(Bytes::from_static(b"\xff")),
        Err(RequestError::UnknownOpCode(255))
    ));
}

#[test]
fn event_payloads() {
    assert_eq!(&Event::cancelled()[..], &[0u8][..]);
    assert_eq!(&Event::stdout(b"hi")[..], b"\x01hi");
    assert_eq!(&Event::stdout(b"")[..], b"\x01");
    assert_eq!(&Event::stderr(b"err")[..], b"\x02err");
    assert_eq!(&Event::exited(0)[..], &[3u8, 0, 0, 0, 0][..]);
    assert_eq!(&Event::exited(42)[..], &[3u8, 0, 0, 0, 42][..]);
    assert_eq!(&Event::exited(0x0102_0304)[..], &[3u8, 1, 2, 3, 4][..]);
    assert_eq!(&Event::exited(-1)[..], &[3u8, 0xff, 0xff, 0xff, 0xff][..]);
    assert_eq!(&Event::exited(i32::MIN)[..], &[3u8, 0x80, 0, 0, 0][..]);
    assert_eq!(&Event::exited(i32::MAX)[..], &[3u8, 0x7f, 0xff, 0xff, 0xff][..]);
}

#[test]
fn event_into_bytes_agrees_with_the_builders() {
    assert_eq!(&Event::Cancelled.into_bytes()[..], &[0u8][..]);
    assert_eq!(&Event::Stdout(Bytes::from_static(b"hi")).into_bytes()[..], b"\x01hi");
    assert_eq!(&Event::Stderr(Bytes::from_static(b"err")).into_bytes()[..], b"\x02err");
    assert_eq!(&Event::Exited(42).into_bytes()[..], &[3u8, 0, 0, 0, 42][..]);
}

#[test]
fn event_try_from_reads_each_event() {
    assert!(matches!(Event::try_from(Bytes::from_static(b"\x00")), Ok(Event::Cancelled)));
    match Event::try_from(Bytes::from_static(b"\x01hi")).unwrap() {
        Event::Stdout(data) => assert_eq!(&data[..], b"hi"),
        other => panic!("{:?}", other),
    }
    match Event::try_from(Bytes::from_static(b"\x02err")).unwrap() {
        Event::Stderr(data) => assert_eq!(&data[..], b"err"),
        other => panic!("{:?}", other),
    }
    assert!(matches!(
        Event::try_from(Bytes::from_static(&[3, 0, 0, 0, 42])),
        Ok(Event::Exited(42))
    ));
    assert!(matches!(
        Event::try_from(Bytes::from_static(&[3, 0xff, 0xff, 0xff, 0xfe])),
        Ok(Event::Exited(-2))
    ));
    assert!(matches!(
        Event::try_from(Bytes::from_static(&[3, 0, 0, 1, 0, 9, 9])),
        Ok(Event::Exited(256))
    ));
}

#[test]
fn event_try_from_rejects_empty_unknown_and_truncated() {
    assert!(matches!(Event::try_from(Bytes::new()), Err(EventError::Empty)));
    assert!(matches!(
        Event::try_from(Bytes::from_static(b"\x04")),
        Err(EventError::UnknownEventCode(4))
    ));
    for n in 0..4 {
        let mut payload = vec![3u8];
        payload.extend(vec![0u8; n]);
        assert!(matches!(
            Event::try_from(Bytes::from(payload)),
            Err(EventError::MalformedExited)
        ));
    }
}

#[test]
fn exit_codes_round_trip() {
    for code in [0, 1, 42, 255, 256, -1, -128, 65_536, i32::MIN, i32::MAX] {
        assert!(matches!(Event::try_from(Event::exited(code)), Ok(Event::Exited(c)) if c == code));
    }
}

#[test]
fn request_message_is_an_extension_addressed_to_us() {
    let m = build_request_message(Request::Stdin(Bytes::from_static(b"abc")));
    assert_eq!(m.message_type, 27);
    let mut expected = vec![0u8, 0, 0, 26];
    expected.extend_from_slice(b"ssh-rev-exec.1@koba789.com");
    expected.extend_from_slice(b"\x01abc");
    assert_eq!(m.contents.to_vec(), expected);

    let ext = Extension::try_from(m.contents).unwrap();
    assert_eq!(&ext.extension_type[..], &EXTENSION_TYPE[..]);
    assert!(matches!(Request::try_from(ext.contents), Ok(Request::Stdin(d)) if &d[..] == b"abc"));
}

#[test]
fn watch_message_bytes() {
    let m = build_request_message(Request::Watch);
    let mut expected = vec![0u8, 0, 0, 26];
    expected.extend_from_slice(b"ssh-rev-exec.1@koba789.com");
    expected.push(2);
    assert_eq!(m.message_type, 27);
    assert_eq!(m.contents.to_vec(), expected);
}
