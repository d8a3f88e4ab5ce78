//! The rolling buffer of compressed bytes that the pipeline decodes from.
//!
//! The buffer holds what has been received and not yet given up, and counts
//! the frames of it that have been forwarded. The count is an index into the
//! frames that the buffer decodes to. When the buffer outgrows its limit it
//! is cut down to its tail and the count starts again from zero.

use vstd::prelude::*;
use crate::decoder::{decode_frames, frame_seqs, mp3_frames};

verus! {

/// The buffer is cut down once it holds more than this many bytes.
pub const TRIM_THRESHOLD_BYTES: usize = 5_242_880;

/// The number of bytes that a cut keeps, taken from the end.
pub const KEEP_BYTES: usize = 2_097_152;

/// True if a buffer of `len` bytes is due for a cut.
pub open spec fn over_limit(len: nat) -> bool {
    len > 5_242_880
}

/// The buffer after the cut, if one is due: its last `KEEP_BYTES` bytes.
pub open spec fn trimmed(bytes: Seq<u8>) -> Seq<u8> {
    if over_limit(bytes.len()) {
        bytes.subrange(bytes.len() - 2_097_152, bytes.len() as int)
    } else {
        bytes
    }
}

/// The frames among `frames` that have not been forwarded yet, when the
/// first `emitted` of them have.
pub open spec fn frames_beyond<F>(frames: Seq<F>, emitted: nat) -> Seq<F> {
    if emitted <= frames.len() {
        frames.subrange(emitted as int, frames.len() as int)
    } else {
        Seq::empty()
    }
}

/// The count of forwarded frames after those beyond `emitted` have been
/// forwarded too.
pub open spec fn emitted_through(frame_count: nat, emitted: nat) -> nat {
    if emitted <= frame_count {
        frame_count
    } else {
        emitted
    }
}

/// Picks from `frames`, the frames of the whole buffer, those that have not
/// been forwarded, and counts them in.
pub fn select_new_frames(frames: Vec<Vec<i16>>, emitted: usize) -> (out: (Vec<Vec<i16>>, usize))
    ensures
        out.0@ == frames_beyond(frames@, emitted as nat),
        out.1 == emitted_through(frames@.len(), emitted as nat),
{
    let mut frames = frames;
    let count = frames.len();
    if emitted <= count {
        let fresh = frames.split_off(emitted);
        (fresh, count)
    } else {
        (Vec::new(), emitted)
    }
}

/// Cuts `bytes` down to its last `KEEP_BYTES` bytes if it holds more than
/// `TRIM_THRESHOLD_BYTES`. Returns whether it did.
pub fn trim_to_tail(bytes: &mut Vec<u8>) -> (cut: bool)
    ensures
        final(bytes)@ == trimmed(old(bytes)@),
        cut == over_limit(old(bytes)@.len()),
        final(bytes)@.len() <= TRIM_THRESHOLD_BYTES,
        cut ==> final(bytes)@.len() == KEEP_BYTES,
{
    let len = bytes.len();
    if len > TRIM_THRESHOLD_BYTES {
        let tail = bytes.split_off(len - KEEP_BYTES);
        *bytes = tail;
        true
    } else {
        false
    }
}

/// The rolling buffer and the count of its frames that have been forwarded.
#[derive(Debug)]
pub struct StreamBuffer {
    bytes: Vec<u8>,
    frames_emitted: usize,
}

impl StreamBuffer {
    /// The bytes that the buffer holds.
    pub closed spec fn bytes(&self) -> Seq<u8> {
        self.bytes@
    }

    /// How many of the buffer's frames, from its start, have been forwarded.
    pub closed spec fn emitted(&self) -> nat {
        self.frames_emitted as nat
    }

    /// The buffer never stays above its limit.
    pub open spec fn wf(&self) -> bool {
        self.bytes().len() <= TRIM_THRESHOLD_BYTES
    }

    /// The frames that taking in `chunk` forwards: those that the buffer
    /// with the chunk at its end decodes to, beyond the ones forwarded
    /// already.
    pub open spec fn forwarded_by(&self, chunk: Seq<u8>) -> Seq<Seq<i16>> {
        frames_beyond(mp3_frames(self.bytes() + chunk), self.emitted())
    }

    /// The bytes held after `chunk` has been taken in.
    pub open spec fn bytes_after(&self, chunk: Seq<u8>) -> Seq<u8> {
        trimmed(self.bytes() + chunk)
    }

    /// The count after `chunk` has been taken in: zero after a cut, since
    /// the frames are then counted from the buffer's new start.
    pub open spec fn emitted_after(&self, chunk: Seq<u8>) -> nat {
        if over_limit((self.bytes() + chunk).len()) {
            0
        } else {
            emitted_through(mp3_frames(self.bytes() + chunk).len(), self.emitted())
        }
    }

    /// An empty buffer.
    pub fn new() -> (b: StreamBuffer)
        ensures
            b.bytes() == Seq::<u8>::empty(),
            b.emitted() == 0,
            b.wf(),
    {
        StreamBuffer { bytes: Vec::new(), frames_emitted: 0 }
    }

    /// The number of bytes held.
    pub fn len(&self) -> (n: usize)
        ensures
            n == self.bytes().len(),
    {
        self.bytes.len()
    }

    /// The count of forwarded frames.
    pub fn frames_emitted(&self) -> (n: usize)
        ensures
            n == self.emitted(),
    {
        self.frames_emitted
    }

    /// Takes in a chunk: appends it, decodes the buffer from its start,
    /// hands back the frames that were not forwarded before, and cuts the
    /// buffer down if it has outgrown its limit.
    pub fn absorb(&mut self, chunk: &[u8]) -> (fresh: Vec<Vec<i16>>)
        ensures
            frame_seqs(fresh@) == old(self).forwarded_by(chunk@),
            final(self).bytes() == old(self).bytes_after(chunk@),
            final(self).emitted() == old(self).emitted_after(chunk@),
            final(self).wf(),
    {
        let ghost joined = self.bytes@ + chunk@;
        self.bytes.extend_from_slice(chunk);
        assert(self.bytes@ =~= joined);
        let frames = decode_frames(self.bytes.as_slice());
        let ghost decoded = frames@;
        let (fresh, count) = select_new_frames(frames, self.frames_emitted);
        proof {
            lemma_frames_beyond_views(decoded, self.frames_emitted as nat);
        }
        let cut = trim_to_tail(&mut self.bytes);
        if cut {
            self.frames_emitted = 0;
        } else {
            self.frames_emitted = count;
        }
        fresh
    }

    /// The frames that are left to forward when the stream has ended: those
    /// that the buffer decodes to, beyond the ones forwarded already.
    pub fn remaining_frames(&self) -> (fresh: Vec<Vec<i16>>)
        ensures
            frame_seqs(fresh@) == frames_beyond(mp3_frames(self.bytes()), self.emitted()),
    {
        let frames = decode_frames(self.bytes.as_slice());
        let ghost decoded = frames@;
        let (fresh, _count) = select_new_frames(frames, self.frames_emitted);
        proof {
            lemma_frames_beyond_views(decoded, self.frames_emitted as nat);
        }
        fresh
    }
}

/// Picking the frames not yet forwarded and taking views can be done in
/// either order.
pub proof fn lemma_frames_beyond_views(frames: Seq<Vec<i16>>, emitted: nat)
    ensures
        frame_seqs(frames_beyond(frames, emitted)) == frames_beyond(frame_seqs(frames), emitted),
{
    assert(frame_seqs(frames_beyond(frames, emitted)) =~= frames_beyond(
        frame_seqs(frames),
        emitted,
    ));
}

/// Once the buffer has grown past its limit, it holds exactly `KEEP_BYTES`
/// bytes right after the chunk that did it, they are the last bytes
/// received, and the count of forwarded frames is back at zero.
pub proof fn lemma_trim_bounds_buffer(buffer: StreamBuffer, chunk: Seq<u8>)
    requires
        over_limit((buffer.bytes() + chunk).len()),
    ensures
        buffer.bytes_after(chunk).len() == KEEP_BYTES,
        buffer.bytes_after(chunk).len() <= 2_097_152,
        buffer.bytes_after(chunk) == (buffer.bytes() + chunk).subrange(
            (buffer.bytes() + chunk).len() - KEEP_BYTES,
            (buffer.bytes() + chunk).len() as int,
        ),
        buffer.emitted_after(chunk) == 0,
{
}

/// Whatever comes in, the buffer holds no more than `TRIM_THRESHOLD_BYTES`
/// bytes afterwards.
pub proof fn lemma_buffer_stays_bounded(buffer: StreamBuffer, chunk: Seq<u8>)
    ensures
        buffer.bytes_after(chunk).len() <= TRIM_THRESHOLD_BYTES,
{
}

/// Between two cuts no frame is forwarded twice: the frames that a chunk
/// forwards start at the count, and the count then stands at or past the
/// last frame that the buffer decodes to. A chunk that adds no frame to
/// those counted forwards none.
pub proof fn lemma_no_frame_forwarded_twice(buffer: StreamBuffer, chunk: Seq<u8>)
    requires
        !over_limit((buffer.bytes() + chunk).len()),
    ensures
        buffer.emitted_after(chunk) >= buffer.emitted(),
        buffer.emitted_after(chunk) >= mp3_frames(buffer.bytes() + chunk).len(),
        buffer.forwarded_by(chunk).len() + buffer.emitted() == buffer.emitted_after(chunk)
            || buffer.forwarded_by(chunk).len() == 0,
        forall|i: int|
            0 <= i < buffer.forwarded_by(chunk).len() ==> #[trigger] buffer.forwarded_by(chunk)[i]
                == mp3_frames(buffer.bytes() + chunk)[buffer.emitted() + i],
        mp3_frames(buffer.bytes() + chunk).len() <= buffer.emitted() ==> buffer.forwarded_by(
            chunk,
        ).len() == 0,
{
}

/// From one chunk to the next, without a cut between them, the frames that
/// are forwarded move on: those of the later chunk have places in the
/// buffer's frames past the places of all that the earlier chunk forwarded.
pub proof fn lemma_later_chunks_forward_later_frames(
    before: StreamBuffer,
    first: Seq<u8>,
    after: StreamBuffer,
    second: Seq<u8>,
    i: int,
    k: int,
)
    requires
        !over_limit((before.bytes() + first).len()),
        after.bytes() == before.bytes_after(first),
        after.emitted() == before.emitted_after(first),
        0 <= i < before.forwarded_by(first).len(),
        0 <= k < after.forwarded_by(second).len(),
    ensures
        before.forwarded_by(first)[i] == mp3_frames(before.bytes() + first)[before.emitted() + i],
        after.forwarded_by(second)[k] == mp3_frames(after.bytes() + second)[after.emitted() + k],
        before.emitted() + i < after.emitted() <= after.emitted() + k,
{
}

} // verus!
