//! Decoding of compressed audio into frames of PCM samples.
//!
//! The decoding itself is the work of the `minimp3` crate. What this module
//! states of it is not proved here: it is the meaning given to the two names
//! `mp3_frames` and `pending_frames`.

use vstd::prelude::*;

verus! {

/// The decoder of the `minimp3` crate over a reader.
#[verifier::external_type_specification]
#[verifier::external_body]
#[verifier::reject_recursive_types(R)]
pub struct ExDecoder<R>(minimp3::Decoder<R>);

/// The frames that `minimp3` decodes from `bytes`, read from their start, up
/// to the first point at which it reports no further frame. Each frame is its
/// samples, channels interleaved.
pub uninterp spec fn mp3_frames(bytes: Seq<u8>) -> Seq<Seq<i16>>;

/// The frames that `decoder` has yet to hand out before it first reports
/// that there is no further frame.
pub uninterp spec fn pending_frames(decoder: minimp3::Decoder<&[u8]>) -> Seq<Seq<i16>>;

/// The views of the frames in `frames`, in order.
pub open spec fn frame_seqs(frames: Seq<Vec<i16>>) -> Seq<Seq<i16>> {
    frames.map_values(|frame: Vec<i16>| frame@)
}

/// `minimp3::Decoder::new` over a slice of bytes. The claim: a new decoder
/// has yet to hand out every frame that the bytes hold, which is what
/// `mp3_frames` names.
#[verifier::external_body]
fn open_decoder<'a>(bytes: &'a [u8]) -> (decoder: minimp3::Decoder<&'a [u8]>)
    ensures
        pending_frames(decoder) == mp3_frames(bytes@),
{
    minimp3::Decoder::new(bytes)
}

/// `minimp3::Decoder::next_frame`, with the samples of the frame for a
/// success and `None` for any error. The claim: a frame comes out as long as
/// one is pending; it is the first of those pending, and the others stay
/// pending in their order.
#[verifier::external_body]
fn next_frame(decoder: &mut minimp3::Decoder<&[u8]>) -> (frame: Option<Vec<i16>>)
    ensures
        match frame {
            Some(samples) => {
                &&& pending_frames(*old(decoder)).len() > 0
                &&& samples@ == pending_frames(*old(decoder))[0]
                &&& pending_frames(*final(decoder)) == pending_frames(*old(decoder)).drop_first()
            },
            None => pending_frames(*old(decoder)).len() == 0,
        },
{
    match decoder.next_frame() {
        Ok(frame) => Some(frame.data),
        Err(_) => None,
    }
}

/// Decodes all complete frames of `bytes`, from their start.
pub fn decode_frames(bytes: &[u8]) -> (frames: Vec<Vec<i16>>)
    ensures
        frame_seqs(frames@) == mp3_frames(bytes@),
{
    let mut decoder = open_decoder(bytes);
    let mut frames: Vec<Vec<i16>> = Vec::new();
    loop
        invariant_except_break
            frame_seqs(frames@) + pending_frames(decoder) == mp3_frames(bytes@),
        ensures
            frame_seqs(frames@) == mp3_frames(bytes@),
        decreases pending_frames(decoder).len(),
    {
        let ghost before = frames@;
        let ghost pending = pending_frames(decoder);
        match next_frame(&mut decoder) {
            Some(samples) => {
                frames.push(samples);
                assert(frame_seqs(frames@) =~= frame_seqs(before).push(pending[0]));
                assert(frame_seqs(before).push(pending[0]) + pending.drop_first() =~= frame_seqs(
                    before,
                ) + pending);
            },
            None => {
                assert(frame_seqs(frames@) + pending =~= frame_seqs(frames@));
                break ;
            },
        }
    }
    frames
}

} // verus!
