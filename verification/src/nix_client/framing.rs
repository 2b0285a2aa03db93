//! Streams whose length is not known in advance, which are written in frames.
use vstd::bytes::{
    lemma_auto_spec_u64_to_from_le_bytes, spec_u64_from_le_bytes, spec_u64_to_le_bytes,
    u64_to_le_bytes,
};
use vstd::prelude::*;

verus! {

/// How much of a stream is read for one frame.
pub const FRAME_SIZE: usize = 65536;

/// A frame: the length of what it holds, and what it holds. An empty frame ends the stream.
pub open spec fn frame(chunk: Seq<u8>) -> Seq<u8> {
    spec_u64_to_le_bytes(chunk.len() as u64) + chunk
}

/// Writes a frame with what was read of a stream. Nothing is read only at the end of a stream,
/// which then ends for the reader too.
pub fn framed_write(chunk: &[u8]) -> (r: Vec<u8>)
    ensures
        r@ == frame(chunk@),
{
    let mut r = u64_to_le_bytes(chunk.len() as u64);
    r.extend_from_slice(chunk);
    r
}

/// The frames of a stream that was read in these parts.
pub open spec fn framed(chunks: Seq<Seq<u8>>) -> Seq<u8>
    decreases chunks.len(),
{
    if chunks.len() == 0 {
        frame(Seq::empty())
    } else {
        frame(chunks[0]) + framed(chunks.skip(1))
    }
}

/// The stream of which these are the frames, where they are frames.
pub open spec fn unframed(bytes: Seq<u8>) -> Option<Seq<u8>>
    decreases bytes.len(),
{
    if bytes.len() < 8 {
        None
    } else {
        let length = spec_u64_from_le_bytes(bytes.take(8));
        let rest = bytes.skip(8);
        if length == 0 {
            if rest.len() == 0 {
                Some(Seq::empty())
            } else {
                None
            }
        } else if rest.len() < length {
            None
        } else {
            match unframed(rest.skip(length as int)) {
                Some(tail) => Some(rest.take(length as int) + tail),
                None => None,
            }
        }
    }
}

/// What is written in frames is read back as it was, however the stream was cut into parts.
pub proof fn frames_hold_the_stream(chunks: Seq<Seq<u8>>)
    requires
        forall|i: int| 0 <= i < chunks.len() ==> 0 < (#[trigger] chunks[i]).len() <= FRAME_SIZE,
    ensures
        unframed(framed(chunks)) == Some(chunks.flatten()),
    decreases chunks.len(),
{
    lemma_auto_spec_u64_to_from_le_bytes();
    let bytes = framed(chunks);
    if chunks.len() == 0 {
        assert(bytes.take(8) =~= spec_u64_to_le_bytes(0));
        assert(bytes.skip(8) =~= Seq::empty());
        assert(chunks.flatten() =~= Seq::empty());
    } else {
        let head = chunks[0];
        let tail = chunks.skip(1);
        frames_hold_the_stream(tail);
        assert(bytes.take(8) =~= spec_u64_to_le_bytes(head.len() as u64));
        assert(bytes.skip(8) =~= head + framed(tail));
        assert(bytes.skip(8).take(head.len() as int) =~= head);
        assert(bytes.skip(8).skip(head.len() as int) =~= framed(tail));
        assert(chunks.drop_first() =~= tail);
        assert(chunks.flatten() =~= head + tail.flatten());
    }
}

} // verus!
