//! A stream of frames, and a decoder that is fed it piece by piece.

use crate::buffer::be32_value;
use crate::ssh_agent::{
    decode_frame, encodable, frame, lemma_frame_round_trip, Decoded, MessageView,
};
use vstd::prelude::*;

verus! {

/// The frames of several messages, one after the other.
pub open spec fn frames(msgs: Seq<MessageView>) -> Seq<u8> {
    msgs.map_values(|m: MessageView| frame(m)).flatten()
}

/// What a decoder has made of a byte stream so far.
pub struct Drained {
    /// The messages taken off, in the order of their frames.
    pub messages: Seq<MessageView>,
    /// The bytes still held back: the start of a frame not yet whole, or, after
    /// a failure, what could not be read.
    pub rest: Seq<u8>,
    /// Whether a length prefix of zero was met. The stream ends there.
    pub failed: bool,
}

/// Decodes frame after frame until the buffer holds no whole frame any more.
pub open spec fn drain(buf: Seq<u8>) -> Drained
    decreases buf.len(),
{
    match decode_frame(buf) {
        Decoded::Incomplete => Drained { messages: Seq::empty(), rest: buf, failed: false },
        Decoded::Invalid => Drained { messages: Seq::empty(), rest: buf, failed: true },
        Decoded::Frame { message, rest } => {
            let then = drain(rest);
            Drained {
                messages: seq![message] + then.messages,
                rest: then.rest,
                failed: then.failed,
            }
        },
    }
}

/// A decoder that is handed a stream chunk by chunk: each chunk is appended
/// to what was held back, and the buffer is drained again. After a failure
/// nothing more is taken in.
pub open spec fn feed(chunks: Seq<Seq<u8>>) -> Drained
    decreases chunks.len(),
{
    if chunks.len() == 0 {
        Drained { messages: Seq::empty(), rest: Seq::empty(), failed: false }
    } else {
        let before = feed(chunks.drop_last());
        if before.failed {
            before
        } else {
            let now = drain(before.rest + chunks.last());
            Drained {
                messages: before.messages + now.messages,
                rest: now.rest,
                failed: now.failed,
            }
        }
    }
}

/// A whole frame at the front of a buffer is read the same whatever follows.
proof fn lemma_decode_frame_extend(a: Seq<u8>, b: Seq<u8>)
    ensures
        match decode_frame(a) {
            Decoded::Incomplete => true,
            Decoded::Invalid => decode_frame(a + b) == Decoded::Invalid,
            Decoded::Frame { message, rest } => decode_frame(a + b) == (Decoded::Frame {
                message,
                rest: rest + b,
            }),
        },
{
    if a.len() >= 4 {
        let n = be32_value(a);
        if n != 0 && a.len() - 4 >= n {
            assert((a + b).subrange(5, 4 + n) =~= a.subrange(5, 4 + n));
            assert((a + b).skip(4 + n) =~= a.skip(4 + n) + b);
        }
    }
}

/// Draining `a` and then, with `b` appended to what was held back, draining
/// again, takes off the same messages as draining `a + b` at once.
pub proof fn lemma_drain_append(a: Seq<u8>, b: Seq<u8>)
    ensures
        drain(a).failed ==> drain(a + b).failed && drain(a + b).messages == drain(a).messages,
        !drain(a).failed ==> drain(a + b) == (Drained {
            messages: drain(a).messages + drain(drain(a).rest + b).messages,
            rest: drain(drain(a).rest + b).rest,
            failed: drain(drain(a).rest + b).failed,
        }),
    decreases a.len(),
{
    lemma_decode_frame_extend(a, b);
    if let Decoded::Frame { message, rest } = decode_frame(a) {
        lemma_drain_append(rest, b);
        if !drain(rest).failed {
            let later = drain(drain(rest).rest + b).messages;
            assert(seq![message] + (drain(rest).messages + later) =~= (seq![message] + drain(
                rest,
            ).messages) + later);
        }
    }
}

/// The frames of several messages, with anything behind them, decode to
/// those messages, in order, and then to what the rest decodes to.
pub proof fn lemma_drain_frames(msgs: Seq<MessageView>, tail: Seq<u8>)
    requires
        forall|i: int| 0 <= i < msgs.len() ==> encodable(#[trigger] msgs[i]),
    ensures
        drain(frames(msgs) + tail) == (Drained {
            messages: msgs + drain(tail).messages,
            rest: drain(tail).rest,
            failed: drain(tail).failed,
        }),
    decreases msgs.len(),
{
    if msgs.len() > 0 {
        let framed = msgs.map_values(|m: MessageView| frame(m));
        let others = msgs.drop_first();
        assert(framed.drop_first() =~= others.map_values(|m: MessageView| frame(m)));
        assert(frames(msgs) + tail =~= frame(msgs[0]) + (frames(others) + tail));
        lemma_frame_round_trip(msgs[0], frames(others) + tail);
        lemma_drain_frames(others, tail);
        assert(seq![msgs[0]] + (others + drain(tail).messages) =~= msgs + drain(tail).messages);
    }
}

/// Frame round-trip, for a whole stream and under any chunking: when the
/// frames of `msgs` arrive cut into `chunks` at arbitrary places, a decoder
/// fed chunk by chunk takes off exactly `msgs`, in order, holds nothing back
/// and does not fail.
pub proof fn lemma_frames_round_trip_chunked(msgs: Seq<MessageView>, chunks: Seq<Seq<u8>>)
    requires
        forall|i: int| 0 <= i < msgs.len() ==> encodable(#[trigger] msgs[i]),
        chunks.flatten() == frames(msgs),
    ensures
        feed(chunks) == (Drained { messages: msgs, rest: Seq::empty(), failed: false }),
{
    lemma_feed_is_drain(chunks);
    lemma_drain_frames(msgs, Seq::empty());
}

/// Chunking does not matter: a decoder fed chunk by chunk takes off the
/// messages that draining the whole stream at once takes off, fails exactly
/// when that fails, and otherwise holds the same bytes back.
pub proof fn lemma_feed_is_drain(chunks: Seq<Seq<u8>>)
    ensures
        feed(chunks).messages == drain(chunks.flatten()).messages,
        feed(chunks).failed == drain(chunks.flatten()).failed,
        !feed(chunks).failed ==> feed(chunks).rest == drain(chunks.flatten()).rest,
    decreases chunks.len(),
{
    if chunks.len() > 0 {
        let init = chunks.drop_last();
        lemma_feed_is_drain(init);
        assert(init.push(chunks.last()) =~= chunks);
        Seq::lemma_flatten_push(init, chunks.last());
        lemma_drain_append(init.flatten(), chunks.last());
    }
}

} // verus!
