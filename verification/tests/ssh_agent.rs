use bytes::{Bytes, BytesMut};
use ssh_rev::ssh_agent::{
    Codec, Extension, ExtensionError, FrameError, Message, MAX_CONTENTS_LEN, SSH_AGENTC_EXTENSION,
    SSH_AGENT_EXTENSION_FAILURE, SSH_AGENT_FAILURE, SSH_AGENT_SUCCESS,
};

fn message(message_type: u8, contents: &[u8]) -> Message {
    Message { message_type, contents: Bytes::copy_from_slice(contents) }
}

fn frame(message_type: u8, contents: &[u8]) -> Vec<u8> {
    let mut dst = BytesMut::new();
    Codec.encode(&message(message_type, contents), &mut dst).unwrap();
    dst.to_vec()
}

/// Feeds `chunks` to a decoder one by one and collects what comes out.
fn feed(chunks: &[&[u8]]) -> Result<(Vec<(u8, Vec<u8>)>, Vec<u8>), FrameError> {
    let mut codec = Codec;
    let mut buf = BytesMut::new();
    let mut out = Vec::new();
    for chunk in chunks {
        buf.extend_from_slice(chunk);
        while let Some(m) = codec.decode(&mut buf)? {
            out.push((m.message_type, m.contents.to_vec()));
        }
    }
    Ok((out, buf.to_vec()))
}

#[test]
fn constants_have_the_agent_protocol_values() {
    assert_eq!(SSH_AGENT_FAILURE, 5);
    assert_eq!(SSH_AGENT_SUCCESS, 6);
    assert_eq!(SSH_AGENTC_EXTENSION, 27);
    assert_eq!(SSH_AGENT_EXTENSION_FAILURE, 28);
    assert_eq!(MAX_CONTENTS_LEN, u32::MAX - 1);
}

#[test]
fn failure_is_type_5_without_contents() {
    let m = Message::failure();
    assert_eq!(m.message_type, 5);
    assert!(m.contents.is_empty());
}

#[test]
fn extension_failure_is_type_28_without_contents() {
    let m = Message::extension_failure();
    assert_eq!(m.message_type, 28);
    assert!(m.contents.is_empty());
}

#[test]
fn success_frame_decodes() {
    let mut buf = BytesMut::from(&[0u8, 0, 0, 1, 6][..]);
    let m = Codec.decode(&mut buf).unwrap().unwrap();
    assert_eq!(m.message_type, 6);
    assert_eq!(&m.contents[..], b"");
    assert!(buf.is_empty());
}

#[test]
fn success_frame_encodes() {
    assert_eq!(frame(6, b""), vec![0u8, 0, 0, 1, 6]);
}

#[test]
fn zero_length_frame_is_rejected() {
    let mut buf = BytesMut::from(&[0u8, 0, 0, 0][..]);
    assert!(matches!(Codec.decode(&mut buf), Err(FrameError::ZeroLength)));
    assert_eq!(&buf[..], &[0u8, 0, 0, 0][..]);
}

#[test]
fn zero_length_frame_is_rejected_whatever_follows() {
    let mut buf = BytesMut::from(&[0u8, 0, 0, 0, 6, 1, 2][..]);
    assert!(matches!(Codec.decode(&mut buf), Err(FrameError::ZeroLength)));
}

#[test]
fn short_prefix_waits_for_more() {
    for n in 0..4 {
        let mut buf = BytesMut::from(&[0u8, 0, 0][..n.min(3)]);
        assert!(matches!(Codec.decode(&mut buf), Ok(None)));
        assert_eq!(buf.len(), n.min(3));
    }
}

#[test]
fn partial_frame_is_kept_until_whole() {
    let mut codec = Codec;
    let mut buf = BytesMut::from(&[0u8, 0, 0, 3, 11, 0xaa][..]);
    assert!(matches!(codec.decode(&mut buf), Ok(None)));
    assert_eq!(&buf[..], &[0u8, 0, 0, 3, 11, 0xaa][..]);
    buf.extend_from_slice(&[0xbb, 0, 0]);
    let m = codec.decode(&mut buf).unwrap().unwrap();
    assert_eq!(m.message_type, 11);
    assert_eq!(&m.contents[..], &[0xaa, 0xbb][..]);
    assert_eq!(&buf[..], &[0u8, 0][..]);
}

#[test]
fn encode_writes_big_endian_length_type_and_contents() {
    assert_eq!(frame(27, b"abc"), vec![0, 0, 0, 4, 27, b'a', b'b', b'c']);
    let long = vec![7u8; 0x0102];
    let framed = frame(13, &long);
    assert_eq!(&framed[..5], &[0, 0, 0x01, 0x03, 13][..]);
    assert_eq!(&framed[5..], &long[..]);
}

#[test]
fn encode_appends_to_what_is_there() {
    let mut dst = BytesMut::from(&b"xy"[..]);
    Codec.encode(&message(5, b""), &mut dst).unwrap();
    assert_eq!(&dst[..], &[b'x', b'y', 0, 0, 0, 1, 5][..]);
}

#[test]
fn frame_round_trip() {
    let cases: Vec<(u8, Vec<u8>)> = vec![
        (0, vec![]),
        (6, vec![0]),
        (27, b"hello world".to_vec()),
        (255, (0..=255u8).collect()),
        (11, vec![0xff; 70_000]),
    ];
    for (message_type, contents) in cases {
        let mut buf = BytesMut::from(&frame(message_type, &contents)[..]);
        let m = Codec.decode(&mut buf).unwrap().unwrap();
        assert_eq!(m.message_type, message_type);
        assert_eq!(m.contents.to_vec(), contents);
        assert!(buf.is_empty());
    }
}

#[test]
fn concatenated_frames_decode_in_order() {
    let mut stream = Vec::new();
    stream.extend(frame(11, b""));
    stream.extend(frame(27, b"first"));
    stream.extend(frame(6, b"\x01second"));
    let (out, rest) = feed(&[&stream]).unwrap();
    assert_eq!(
        out,
        vec![(11, vec![]), (27, b"first".to_vec()), (6, b"\x01second".to_vec())]
    );
    assert!(rest.is_empty());
}

#[test]
fn chunking_does_not_matter() {
    let mut stream = Vec::new();
    stream.extend(frame(11, b""));
    stream.extend(frame(27, b"first"));
    stream.extend(frame(6, b"\x01second"));
    let whole = feed(&[&stream]).unwrap();
    // every cut into two
    for cut in 0..=stream.len() {
        let (a, b) = stream.split_at(cut);
        assert_eq!(feed(&[a, b]).unwrap(), whole);
    }
    // byte by byte
    let bytes: Vec<&[u8]> = stream.chunks(1).collect();
    assert_eq!(feed(&bytes).unwrap(), whole);
    // in threes, with empty chunks in between
    let mut threes: Vec<&[u8]> = Vec::new();
    for chunk in stream.chunks(3) {
        threes.push(chunk);
        threes.push(&[]);
    }
    assert_eq!(feed(&threes).unwrap(), whole);
}

#[test]
fn trailing_partial_frame_is_held_back() {
    let mut stream = frame(6, b"ok");
    stream.extend_from_slice(&[0, 0, 0, 9, 1]);
    let (out, rest) = feed(&[&stream]).unwrap();
    assert_eq!(out, vec![(6, b"ok".to_vec())]);
    assert_eq!(rest, vec![0, 0, 0, 9, 1]);
}

#[test]
fn stream_fails_at_a_zero_length_frame() {
    let mut stream = frame(6, b"ok");
    stream.extend_from_slice(&[0, 0, 0, 0]);
    stream.extend(frame(6, b"never"));
    assert_eq!(feed(&[&stream]), Err(FrameError::ZeroLength));
    let (a, b) = stream.split_at(8);
    assert_eq!(feed(&[a, b]), Err(FrameError::ZeroLength));
}

#[test]
fn extension_parses() {
    let payload = [0u8, 0, 0, 3, b'a', b'b', b'c', 1, 2];
    let ext = Extension::try_from(Bytes::copy_from_slice(&payload)).unwrap();
    assert_eq!(&ext.extension_type[..], b"abc");
    assert_eq!(&ext.contents[..], &[1u8, 2][..]);
}

#[test]
fn extension_with_empty_name_and_contents_parses() {
    let ext = Extension::try_from(Bytes::copy_from_slice(&[0u8, 0, 0, 0])).unwrap();
    assert!(ext.extension_type.is_empty());
    assert!(ext.contents.is_empty());
}

#[test]
fn extension_shorter_than_its_length_field_is_too_short() {
    for n in 0..4 {
        let payload = vec![0u8; n];
        assert!(matches!(
            Extension::try_from(Bytes::from(payload)),
            Err(ExtensionError::TooShort)
        ));
    }
}

#[test]
fn extension_with_name_longer_than_payload_is_a_mismatch() {
    let payload = [0u8, 0, 0, 4, b'a', b'b', b'c'];
    assert!(matches!(
        Extension::try_from(Bytes::copy_from_slice(&payload)),
        Err(ExtensionError::LengthMismatch)
    ));
    let huge = [0xffu8, 0xff, 0xff, 0xff, 1];
    assert!(matches!(
        Extension::try_from(Bytes::copy_from_slice(&huge)),
        Err(ExtensionError::LengthMismatch)
    ));
}

#[test]
fn extension_writes_length_name_and_contents() {
    let ext = Extension {
        extension_type: Bytes::from_static(b"query"),
        contents: Bytes::from_static(&[9, 8, 7]),
    };
    assert_eq!(&ext.into_bytes()[..], &[0, 0, 0, 5, b'q', b'u', b'e', b'r', b'y', 9, 8, 7][..]);
}

#[test]
fn extension_round_trip() {
    let name = vec![b'n'; 300];
    let ext = Extension {
        extension_type: Bytes::from(name.clone()),
        contents: Bytes::from_static(b"payload"),
    };
    let wire = ext.into_bytes();
    assert_eq!(&wire[..4], &[0, 0, 0x01, 0x2c][..]);
    let back = Extension::try_from(wire).unwrap();
    assert_eq!(back.extension_type.to_vec(), name);
    assert_eq!(&back.contents[..], b"payload");
}

#[test]
fn message_clone_keeps_type_and_contents() {
    let m = message(27, b"abc");
    let c = m.clone();
    assert_eq!(c.message_type, 27);
    assert_eq!(&c.contents[..], b"abc");
}
