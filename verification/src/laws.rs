//! What holds of the adapters across calls.

use vstd::prelude::*;
use crate::codec::{decoded, Codec};
use crate::error::DecodeError;
use crate::gif_frames::{lemma_sum_to_grows, outcome, sum_to, walk};
use crate::inflate::inflated;
use crate::jpeg_image;
use crate::png_frame::{overlaid, png_frame, ColorType};

verus! {

/// Decoding is deterministic: two decodes of the same input that start from
/// the same buffers count the same bytes and leave the same bytes behind, as
/// far as the adapters say what they count and leave.
///
/// For JPEG, GIF and PNG the result is the same on every input, for Deflate
/// on every stream without a defect and every stream that fits the buffer.
/// The second buffer is always left the same; the first is left the same by
/// JPEG, by PNG where the frame decodes and fits, and by GIF and Deflate where
/// they succeed.
pub proof fn lemma_decode_deterministic(
    codec: Codec,
    src: Seq<u8>,
    output_32_bit_color: bool,
    before0: Seq<u8>,
    before1: Seq<u8>,
    first0: Seq<u8>,
    first1: Seq<u8>,
    first: Result<u64, DecodeError>,
    second0: Seq<u8>,
    second1: Seq<u8>,
    second: Result<u64, DecodeError>,
)
    requires
        decoded(codec, src, output_32_bit_color, before0, before1, first0, first1, first),
        decoded(codec, src, output_32_bit_color, before0, before1, second0, second1, second),
    ensures
        first1 == second1,
        codec is Jpeg || codec is Png ==> first == second,
        codec is Jpeg ==> first0 == second0,
        codec is Png && (png_frame(src) matches Some((frame, _)) && frame.num_bytes
            <= before0.len()) ==> first0 == second0,
        codec is Deflate && (inflated(src).1 || inflated(src).0.len() <= before0.len())
            ==> first == second,
        codec is Deflate && first is Ok ==> first0 == second0,
        codec is Gif ==> first == second,
        codec is Gif && first is Ok ==> first0 == second0,
{
}

/// Decoding twice in a row counts the same bytes: a second decode of the same
/// input, into the buffers as the first decode left them, returns what the
/// first returned.
///
/// For JPEG, GIF and PNG that is so of every input, for Deflate of every
/// stream without a defect and every stream that fits the buffer. The second
/// decode then also leaves the buffers as it found them: for JPEG always, for
/// GIF and Deflate where the first succeeded, for PNG where the frame decodes
/// and fits and, if it is RGBA, the decoder writes every byte of it. The swap
/// of an RGBA frame in place reverts, at the second decode, what it did at
/// the first to a byte that the decoder has not written.
pub proof fn lemma_decode_twice(
    codec: Codec,
    src: Seq<u8>,
    output_32_bit_color: bool,
    before0: Seq<u8>,
    before1: Seq<u8>,
    between0: Seq<u8>,
    between1: Seq<u8>,
    first: Result<u64, DecodeError>,
    after0: Seq<u8>,
    after1: Seq<u8>,
    second: Result<u64, DecodeError>,
)
    requires
        between0.len() == before0.len(),
        between1.len() == before1.len(),
        decoded(codec, src, output_32_bit_color, before0, before1, between0, between1, first),
        decoded(codec, src, output_32_bit_color, between0, between1, after0, after1, second),
    ensures
        codec is Jpeg ==> second == first && after0 == between0 && after1 == between1,
        codec is Png ==> second == first,
        codec is Png && (png_frame(src) matches Some((frame, written)) && frame.num_bytes
            <= before0.len() && (frame.color_type != ColorType::Rgba || forall|i: int|
            0 <= i < written.len() ==> (#[trigger] written[i]) is Some)) ==> after0 == between0
            && after1 == between1,
        codec is Deflate && (inflated(src).1 || inflated(src).0.len() <= before0.len())
            ==> second == first,
        codec is Deflate && first is Ok ==> after0 == between0,
        codec is Gif ==> second == first,
        codec is Gif && first is Ok ==> after0 == between0,
{
    if codec is Jpeg {
        lemma_jpeg_decode_twice(src, before1);
    }
    if codec is Png {
        if let Some((frame, written)) = png_frame(src) {
            if frame.num_bytes <= before0.len() {
                let painted = overlaid(written, before0);
                if frame.color_type != ColorType::Rgba {
                    assert(overlaid(written, between0) =~= painted);
                } else if forall|i: int| 0 <= i < written.len() ==> (#[trigger] written[i]) is Some
                {
                    assert(overlaid(written, between0) =~= painted);
                }
            }
        }
    }
}

/// Decoding a JPEG a second time, into the buffer that the first decode left,
/// counts the same bytes and leaves the buffer as it is.
pub proof fn lemma_jpeg_decode_twice(src: Seq<u8>, before: Seq<u8>)
    ensures
        jpeg_image::decoded(src, jpeg_image::decoded(src, before).1) == jpeg_image::decoded(
            src,
            before,
        ),
{
    let once = jpeg_image::decoded(src, before);
    let twice = jpeg_image::decoded(src, once.1);
    assert(once.1.len() == before.len());
    assert(twice.1 =~= once.1);
}

/// The walk over the frames of a GIF succeeds exactly when it ends at the end
/// of the file, every frame reads, and the buffer holds all frames together;
/// it then returns the sum of their sizes.
pub proof fn lemma_outcome_ok(frames: (Seq<(nat, bool)>, bool), room: nat)
    requires
        room <= u64::MAX,
    ensures
        outcome(frames, room) is Ok <==> {
            &&& frames.1
            &&& sum_to(frames.0, frames.0.len()) <= room
            &&& forall|j: int| 0 <= j < frames.0.len() ==> (#[trigger] frames.0[j]).1
        },
        outcome(frames, room) is Ok ==> outcome(frames, room) == Ok::<u64, DecodeError>(
            sum_to(frames.0, frames.0.len()) as u64,
        ),
{
    lemma_walk_ok(frames.0, frames.1, room, 0);
}

proof fn lemma_walk_ok(sizes: Seq<(nat, bool)>, clean: bool, room: nat, k: nat)
    requires
        k <= sizes.len(),
        sum_to(sizes, k) <= room <= u64::MAX,
    ensures
        walk(sizes, clean, room, k, sum_to(sizes, k)) is Ok <==> {
            &&& clean
            &&& sum_to(sizes, sizes.len()) <= room
            &&& forall|j: int| k <= j < sizes.len() ==> (#[trigger] sizes[j]).1
        },
        walk(sizes, clean, room, k, sum_to(sizes, k)) is Ok ==> walk(
            sizes,
            clean,
            room,
            k,
            sum_to(sizes, k),
        ) == Ok::<u64, DecodeError>(sum_to(sizes, sizes.len()) as u64),
    decreases sizes.len() - k,
{
    if k < sizes.len() {
        assert(sum_to(sizes, k + 1) == sum_to(sizes, k) + sizes[k as int].0);
        lemma_sum_to_grows(sizes, k + 1, sizes.len());
        if sum_to(sizes, k + 1) <= room && sizes[k as int].1 {
            lemma_walk_ok(sizes, clean, room, k + 1);
        }
    }
}

} // verus!
