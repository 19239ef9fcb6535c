//! The SSH agent wire: messages, the extension envelope, and the frame codec.

use crate::buffer::{
    be32, be32_value, buf_view, bytes_view, get_u32, put_bytes, put_u32, put_u8,
    u32_from_be_bytes, u32_to_be_bytes,
};
use bytes::Buf;
use bytes::BufMut;
use bytes::Bytes;
use bytes::BytesMut;
use std::ops::Deref;
use vstd::prelude::*;

pub mod stream;

verus! {

/// The type of the reply to a request that failed.
pub const SSH_AGENT_FAILURE: u8 = 5;

/// The type of the reply to a request that succeeded.
pub const SSH_AGENT_SUCCESS: u8 = 6;

/// The type of an extension request.
pub const SSH_AGENTC_EXTENSION: u8 = 27;

/// The type of the reply to an extension request that failed.
pub const SSH_AGENT_EXTENSION_FAILURE: u8 = 28;

/// One unit of the agent wire: a type byte and its payload.
#[derive(Debug)]
pub struct Message {
    pub message_type: u8,
    pub contents: Bytes,
}

/// What a `Message` is, as plain values.
pub struct MessageView {
    pub message_type: u8,
    pub contents: Seq<u8>,
}

impl View for Message {
    type V = MessageView;

    open spec fn view(&self) -> MessageView {
        MessageView { message_type: self.message_type, contents: bytes_view(self.contents) }
    }
}

impl Clone for Message {
    /// A second message of the same type with the same payload. The payload
    /// is shared, not copied.
    fn clone(&self) -> (m: Self)
        ensures
            m@ == self@,
    {
        Message { message_type: self.message_type, contents: self.contents.clone() }
    }
}

/// The reply that reports a failed request: type `SSH_AGENT_FAILURE`, no payload.
pub open spec fn failure_view() -> MessageView {
    MessageView { message_type: SSH_AGENT_FAILURE, contents: Seq::empty() }
}

/// The reply that reports a failed extension request: type
/// `SSH_AGENT_EXTENSION_FAILURE`, no payload.
pub open spec fn extension_failure_view() -> MessageView {
    MessageView { message_type: SSH_AGENT_EXTENSION_FAILURE, contents: Seq::empty() }
}

/// A successful reply with the given payload.
pub open spec fn success_view(contents: Seq<u8>) -> MessageView {
    MessageView { message_type: SSH_AGENT_SUCCESS, contents }
}

impl Message {
    /// The reply to a request that failed.
    pub fn failure() -> (m: Self)
        ensures
            m@ == failure_view(),
    {
        Self { message_type: SSH_AGENT_FAILURE, contents: Bytes::new() }
    }

    /// The reply to an extension request that failed.
    pub fn extension_failure() -> (m: Self)
        ensures
            m@ == extension_failure_view(),
    {
        Self { message_type: SSH_AGENT_EXTENSION_FAILURE, contents: Bytes::new() }
    }
}

/// The payload of an `SSH_AGENTC_EXTENSION` message: the name of the
/// extension and what is addressed to it.
pub struct Extension {
    pub extension_type: Bytes,
    pub contents: Bytes,
}

/// What an `Extension` is, as plain values.
pub struct ExtensionView {
    pub extension_type: Seq<u8>,
    pub contents: Seq<u8>,
}

impl View for Extension {
    type V = ExtensionView;

    open spec fn view(&self) -> ExtensionView {
        ExtensionView {
            extension_type: bytes_view(self.extension_type),
            contents: bytes_view(self.contents),
        }
    }
}

/// Why a payload is no extension envelope.
#[derive(Debug, Clone, Copy, PartialEq, Eq, Structural)]
pub enum ExtensionError {
    /// Fewer than four bytes: the length of the name is missing.
    TooShort,
    /// The name is announced longer than what follows.
    LengthMismatch,
}

/// The number that stands in a four-byte length field for a length of `n`:
/// `n` itself while it fits, its low 32 bits beyond.
pub open spec fn length_field(n: nat) -> u32 {
    (n % 0x1_0000_0000) as u32
}

/// Computes the length field for a length of `n`.
fn length_field_of(n: usize) -> (r: u32)
    ensures
        r == length_field(n as nat),
{
    ((n as u64) % 0x1_0000_0000) as u32
}

/// The envelope on the wire: the length of the name in four big-endian bytes,
/// the name, and the contents.
pub open spec fn extension_bytes(e: ExtensionView) -> Seq<u8> {
    be32(length_field(e.extension_type.len())) + e.extension_type + e.contents
}

/// The envelope that a payload holds, or why it holds none.
pub open spec fn parse_extension(s: Seq<u8>) -> Result<ExtensionView, ExtensionError> {
    if s.len() < 4 {
        Err(ExtensionError::TooShort)
    } else if s.len() - 4 < be32_value(s) {
        Err(ExtensionError::LengthMismatch)
    } else {
        Ok(
            ExtensionView {
                extension_type: s.subrange(4, 4 + be32_value(s)),
                contents: s.skip(4 + be32_value(s)),
            },
        )
    }
}

/// An envelope that is parsed gives back the envelope that was written, as
/// long as the length of its name fits the length field.
pub proof fn lemma_extension_round_trip(e: ExtensionView)
    requires
        e.extension_type.len() <= u32::MAX,
    ensures
        parse_extension(extension_bytes(e)) == Ok::<ExtensionView, ExtensionError>(e),
{
    let n = length_field(e.extension_type.len());
    let s = extension_bytes(e);
    crate::buffer::lemma_be32_value_of_be32(n);
    assert(s.subrange(4, 4 + n) =~= e.extension_type);
    assert(s.skip(4 + n) =~= e.contents);
}

/// A payload that parses as an envelope is the envelope written out again.
pub proof fn lemma_extension_parse_is_exact(s: Seq<u8>)
    requires
        parse_extension(s) is Ok,
    ensures
        extension_bytes(parse_extension(s)->Ok_0) == s,
{
    let e = parse_extension(s)->Ok_0;
    crate::buffer::lemma_be32_of_be32_value(s);
}

impl Extension {
    /// Reads an extension envelope from a message payload.
    pub fn try_from(bytes: Bytes) -> (r: Result<Self, ExtensionError>)
        ensures
            match parse_extension(bytes_view(bytes)) {
                Ok(e) => r matches Ok(ext) && ext@ == e,
                Err(err) => r matches Err(got) && got == err,
            },
    {
        let mut bytes = bytes;
        let ghost whole = bytes_view(bytes);
        if bytes.len() < 4 {
            return Err(ExtensionError::TooShort);
        }
        let ext_type_len = get_u32(&mut bytes) as usize;
        if bytes.len() < ext_type_len {
            return Err(ExtensionError::LengthMismatch);
        }
        let extension_type = bytes.split_to(ext_type_len);
        proof {
            assert(bytes_view(extension_type) =~= whole.subrange(4, 4 + be32_value(whole)));
            assert(bytes_view(bytes) =~= whole.skip(4 + be32_value(whole)));
        }
        Ok(Self { extension_type, contents: bytes })
    }

    /// Writes the envelope as a message payload.
    pub fn into_bytes(self) -> (b: Bytes)
        requires
            4 + self@.extension_type.len() + self@.contents.len() <= isize::MAX,
        ensures
            bytes_view(b) == extension_bytes(self@),
    {
        let mut bytes = BytesMut::with_capacity(
            4 + self.extension_type.len() + self.contents.len(),
        );
        put_u32(&mut bytes, length_field_of(self.extension_type.len()));
        put_bytes(&mut bytes, self.extension_type);
        put_bytes(&mut bytes, self.contents);
        bytes.freeze()
    }
}

/// Why a byte stream is no sequence of frames.
#[derive(Debug, Clone, Copy, PartialEq, Eq, Structural)]
pub enum FrameError {
    /// A length prefix of zero: a frame holds at least its type byte.
    ZeroLength,
}

/// The frame codec of the agent wire. It keeps no state of its own: what is
/// left over between two calls stays in the caller's buffer.
pub struct Codec;

/// A message on the wire: the length of what follows in four big-endian
/// bytes, the type byte, and the payload.
pub open spec fn frame(m: MessageView) -> Seq<u8> {
    be32(length_field(m.contents.len() + 1)) + seq![m.message_type] + m.contents
}

/// What the front of a buffer holds.
pub enum Decoded {
    /// Not yet a whole frame: more bytes are needed.
    Incomplete,
    /// A length prefix of zero.
    Invalid,
    /// A whole frame, and what follows it in the buffer.
    Frame { message: MessageView, rest: Seq<u8> },
}

/// Reads the front of a buffer.
pub open spec fn decode_frame(buf: Seq<u8>) -> Decoded {
    if buf.len() < 4 {
        Decoded::Incomplete
    } else if be32_value(buf) == 0 {
        Decoded::Invalid
    } else if buf.len() - 4 < be32_value(buf) {
        Decoded::Incomplete
    } else {
        Decoded::Frame {
            message: MessageView {
                message_type: buf[4],
                contents: buf.subrange(5, 4 + be32_value(buf)),
            },
            rest: buf.skip(4 + be32_value(buf)),
        }
    }
}

impl Codec {
    /// Takes one frame off the front of `src`, if a whole one is there.
    /// Otherwise `src` is left as it was, to be tried again when more bytes
    /// have come in.
    pub fn decode(&mut self, src: &mut BytesMut) -> (r: Result<Option<Message>, FrameError>)
        ensures
            match decode_frame(buf_view(*old(src))) {
                Decoded::Incomplete => r matches Ok(None) && buf_view(*final(src)) == buf_view(
                    *old(src),
                ),
                Decoded::Invalid => r matches Err(FrameError::ZeroLength) && buf_view(*final(src))
                    == buf_view(*old(src)),
                Decoded::Frame { message, rest } => r matches Ok(Some(m)) && m@ == message
                    && buf_view(*final(src)) == rest,
            },
    {
        let ghost whole = buf_view(*src);
        if src.len() < 4 {
            return Ok(None);
        }
        let prefix = [src[0], src[1], src[2], src[3]];
        let len = u32_from_be_bytes(prefix) as usize;
        if len == 0 {
            return Err(FrameError::ZeroLength);
        }
        if src.len() - 4 < len {
            return Ok(None);
        }
        src.advance(4);
        let mut body = src.split_to(len);
        let message_type = body[0];
        let contents = body.split_off(1).freeze();
        proof {
            assert(bytes_view(contents) =~= whole.subrange(5, 4 + be32_value(whole)));
        }
        Ok(Some(Message { message_type, contents }))
    }

    /// Appends the frame of `msg` to `dst`.
    pub fn encode(&mut self, msg: &Message, dst: &mut BytesMut) -> (r: Result<(), FrameError>)
        requires
            buf_view(*old(dst)).len() + 5 + msg@.contents.len() <= isize::MAX,
        ensures
            r is Ok,
            buf_view(*final(dst)) == buf_view(*old(dst)) + frame(msg@),
    {
        let len = length_field_of(msg.contents.len() + 1);
        let len_bytes = u32_to_be_bytes(len);
        dst.put_slice(len_bytes.as_slice());
        put_u8(dst, msg.message_type);
        dst.put_slice(msg.contents.deref());
        Ok(())
    }
}

/// The largest payload whose frame length still fits the four-byte prefix.
pub const MAX_CONTENTS_LEN: u32 = 0xffff_fffe;

/// Whether a message can be framed without loss: its payload and the type
/// byte together fit the length prefix.
pub open spec fn encodable(m: MessageView) -> bool {
    m.contents.len() <= MAX_CONTENTS_LEN
}

/// A frame that is decoded gives back the message that was encoded, and
/// leaves what followed it.
pub proof fn lemma_frame_round_trip(m: MessageView, tail: Seq<u8>)
    requires
        encodable(m),
    ensures
        decode_frame(frame(m) + tail) == (Decoded::Frame { message: m, rest: tail }),
{
    let n = length_field(m.contents.len() + 1);
    let buf = frame(m) + tail;
    crate::buffer::lemma_be32_value_of_be32(n);
    assert(buf.subrange(5, 4 + n) =~= m.contents);
    assert(buf.skip(4 + n) =~= tail);
}

} // verus!
