//! The GIF adapter: walks the frames of a GIF through the `gif` crate, reads
//! them into the destination buffer one behind the other, and counts the bytes
//! of all of them.

use vstd::prelude::*;
use gif::{Reader, SetParameter};
use crate::error::DecodeError;

verus! {

/// `gif::Reader` over a byte slice, which walks the frames of one GIF. Nothing
/// is known of a value of it but what [`origin`], [`frames_ahead`] and
/// [`frame_at_hand`] name. A reader that has reported a failure is never
/// handed back: a further call on it need not return.
#[verifier::external_body]
pub struct FrameReader<'a> {
    inner: Reader<&'a [u8]>,
}

/// How the decoder lays out the pixels of a frame.
#[derive(Clone, Copy, Debug, PartialEq, Eq, Structural)]
pub enum ColorOutput {
    /// Four bytes per pixel: red, green, blue, alpha.
    Rgba,
    /// One byte per pixel: an index into the palette.
    Indexed,
}

/// The frames of a GIF, as a walk meets them that reads the data of every
/// frame before it asks for the next and stops at the first failure. For each
/// frame that the decoder announces in `src`: its buffer size under the colour
/// output `rgba` (32-bit colour when true, palette indices when false), and
/// whether its data reads into a buffer that holds it. The flag tells whether
/// the walk ends at the end of the file, rather than at a failure.
pub uninterp spec fn gif_frames(src: Seq<u8>, rgba: bool) -> (Seq<(nat, bool)>, bool);

/// What frame `k` of the walk over `src` leaves in the bytes that it is read
/// into, as many as its buffer size, if they held `before` and its data
/// reads.
pub uninterp spec fn gif_painted(src: Seq<u8>, rgba: bool, k: nat, before: Seq<u8>) -> Seq<u8>;

/// Where a reader comes from and how far it is: the file that it reads, its
/// colour output, and the number of frames whose data it has read.
pub uninterp spec fn origin(reader: FrameReader) -> (Seq<u8>, bool, nat);

/// What a reader has ahead of it, once the data of the frame at hand, if
/// there is one, has been read: the frames that the walk has yet to meet, and
/// whether it ends at the end of the file.
pub uninterp spec fn frames_ahead(reader: FrameReader) -> (Seq<(nat, bool)>, bool);

/// The frame that a reader has announced and whose data it has not read yet,
/// if there is one: its buffer size, and whether its data reads.
pub uninterp spec fn frame_at_hand(reader: FrameReader) -> Option<(nat, bool)>;

/// `gif::Decoder::new` on a byte slice, `set` with the colour output, and
/// `read_info`, with the error dropped. A reader that comes back has the whole
/// file ahead of it, no frame read and none at hand; none comes back only
/// from a file with a defect before its first frame.
#[verifier::external_body]
fn open_reader<'a>(src: &'a [u8], output: ColorOutput) -> (r: Option<FrameReader<'a>>)
    ensures
        match r {
            Some(reader) => {
                &&& origin(reader) == (src@, output == ColorOutput::Rgba, 0nat)
                &&& frames_ahead(reader) == gif_frames(src@, output == ColorOutput::Rgba)
                &&& frame_at_hand(reader) is None
            },
            None => gif_frames(src@, output == ColorOutput::Rgba) == (
                Seq::<(nat, bool)>::empty(),
                false,
            ),
        },
{
    let mut decoder = gif::Decoder::new(src);
    decoder.set(
        match output {
            ColorOutput::Rgba => gif::ColorOutput::RGBA,
            ColorOutput::Indexed => gif::ColorOutput::Indexed,
        },
    );
    match decoder.read_info() {
        Ok(inner) => Some(FrameReader { inner }),
        Err(_) => None,
    }
}

/// `gif::Reader::next_frame_info` on a reader with no frame at hand. The
/// reader comes back with `true` if a frame was announced and with `false` if
/// the file ended; it does not come back if the call failed. A frame that is
/// announced is the first of those ahead and is then at hand; the end is
/// reported only when no frame is ahead and the walk ends at the end of the
/// file, a failure only when no frame is ahead and it does not.
#[verifier::external_body]
fn next_frame_info<'a>(reader: FrameReader<'a>) -> (r: Option<(FrameReader<'a>, bool)>)
    requires
        frame_at_hand(reader) is None,
    ensures
        match r {
            Some((next, true)) => {
                &&& origin(next) == origin(reader)
                &&& frames_ahead(reader).0.len() > 0
                &&& frame_at_hand(next) == Some(frames_ahead(reader).0[0])
                &&& frames_ahead(next) == (frames_ahead(reader).0.skip(1), frames_ahead(reader).1)
            },
            Some((next, false)) => {
                &&& origin(next) == origin(reader)
                &&& frames_ahead(reader) == (Seq::<(nat, bool)>::empty(), true)
                &&& frames_ahead(next) == frames_ahead(reader)
                &&& frame_at_hand(next) is None
            },
            None => frames_ahead(reader) == (Seq::<(nat, bool)>::empty(), false),
        },
{
    let mut reader = reader;
    let step = match reader.inner.next_frame_info() {
        Ok(Some(_)) => Some(true),
        Ok(None) => Some(false),
        Err(_) => None,
    };
    match step {
        Some(announced) => Some((reader, announced)),
        None => None,
    }
}

/// `gif::Reader::buffer_size`: the buffer size of the frame at hand.
#[verifier::external_body]
fn buffer_size(reader: &FrameReader) -> (n: usize)
    requires
        frame_at_hand(*reader) is Some,
    ensures
        n == frame_at_hand(*reader).unwrap().0,
{
    reader.inner.buffer_size()
}

/// `gif::Reader::read_into_buffer` on a reader with a frame at hand that
/// `dst` holds. The reader comes back exactly if the data of the frame reads;
/// it then has read one frame more, has none at hand and ahead of it what was
/// ahead, and the front of `dst` holds what that frame leaves in it. What it
/// writes it takes from the file alone, so the frame leaves as they are the
/// bytes that it has left. No byte of `dst` beyond the buffer size of the
/// frame is written to.
#[verifier::external_body]
fn read_into_buffer<'a>(reader: FrameReader<'a>, dst: &mut [u8]) -> (r: Option<FrameReader<'a>>)
    requires
        frame_at_hand(reader) matches Some(frame) && frame.0 <= old(dst)@.len(),
    ensures
        final(dst)@.len() == old(dst)@.len(),
        final(dst)@.skip(frame_at_hand(reader).unwrap().0 as int) == old(dst)@.skip(
            frame_at_hand(reader).unwrap().0 as int,
        ),
        r is Some <==> frame_at_hand(reader).unwrap().1,
        r matches Some(next) ==> {
            &&& origin(next) == (origin(reader).0, origin(reader).1, origin(reader).2 + 1)
            &&& frames_ahead(next) == frames_ahead(reader)
            &&& frame_at_hand(next) is None
            &&& final(dst)@.take(frame_at_hand(reader).unwrap().0 as int) == gif_painted(
                origin(reader).0,
                origin(reader).1,
                origin(reader).2,
                old(dst)@.take(frame_at_hand(reader).unwrap().0 as int),
            )
            &&& gif_painted(
                origin(reader).0,
                origin(reader).1,
                origin(reader).2,
                final(dst)@.take(frame_at_hand(reader).unwrap().0 as int),
            ) == final(dst)@.take(frame_at_hand(reader).unwrap().0 as int)
        },
{
    let mut reader = reader;
    match reader.inner.read_into_buffer(dst) {
        Ok(()) => Some(reader),
        Err(_) => None,
    }
}

/// The sum of the buffer sizes of the first `k` of `frames`.
pub open spec fn sum_to(frames: Seq<(nat, bool)>, k: nat) -> nat
    decreases k,
{
    if k == 0 {
        0
    } else {
        sum_to(frames, (k - 1) as nat) + frames[k - 1].0
    }
}

/// The bytes of `buf` that frame `j` of `frames` is read into, when the frames
/// lie one behind the other.
pub open spec fn region(frames: Seq<(nat, bool)>, j: int, buf: Seq<u8>) -> Seq<u8> {
    buf.subrange(sum_to(frames, j as nat) as int, (sum_to(frames, j as nat) + frames[j].0) as int)
}

/// What the destination holds after the first `k` of `frames` have been read
/// into a buffer that held `before`, one behind the other.
pub open spec fn laid(src: Seq<u8>, rgba: bool, frames: Seq<(nat, bool)>, k: nat, before: Seq<u8>)
    -> Seq<u8>
    decreases k,
{
    if k == 0 {
        before
    } else {
        let so_far = laid(src, rgba, frames, (k - 1) as nat, before);
        so_far.take(sum_to(frames, (k - 1) as nat) as int) + gif_painted(
            src,
            rgba,
            (k - 1) as nat,
            region(frames, k - 1, so_far),
        ) + so_far.skip(sum_to(frames, k) as int)
    }
}

/// Whether each of the first `k` of `frames` leaves as it is what `buf` holds
/// where that frame is read to.
pub open spec fn settled(src: Seq<u8>, rgba: bool, frames: Seq<(nat, bool)>, k: nat, buf: Seq<u8>)
    -> bool {
    forall|j: int|
        0 <= j < k ==> gif_painted(src, rgba, j as nat, #[trigger] region(frames, j, buf))
            == region(frames, j, buf)
}

/// Reading the frames again into a buffer in which each of them is settled
/// leaves the buffer as it is.
pub proof fn lemma_settled_stays(
    src: Seq<u8>,
    rgba: bool,
    frames: Seq<(nat, bool)>,
    k: nat,
    buf: Seq<u8>,
)
    requires
        k <= frames.len(),
        sum_to(frames, k) <= buf.len(),
        settled(src, rgba, frames, k, buf),
    ensures
        laid(src, rgba, frames, k, buf) == buf,
    decreases k,
{
    if k > 0 {
        lemma_sum_to_grows(frames, (k - 1) as nat, k);
        lemma_settled_stays(src, rgba, frames, (k - 1) as nat, buf);
        assert(region(frames, k - 1, buf) == gif_painted(
            src,
            rgba,
            (k - 1) as nat,
            region(frames, k - 1, buf),
        ));
        assert(buf =~= buf.take(sum_to(frames, (k - 1) as nat) as int) + region(
            frames,
            k - 1,
            buf,
        ) + buf.skip(sum_to(frames, k) as int));
    }
}

/// What the walk over the frames returns from frame `k` on, with `count` bytes
/// counted so far: each frame is read behind the ones before it; the walk
/// fails at the first frame that the rest of `room` bytes does not hold or
/// that does not read, and at a file that does not reach its end.
pub open spec fn walk(frames: Seq<(nat, bool)>, clean: bool, room: nat, k: nat, count: nat)
    -> Result<u64, DecodeError>
    decreases frames.len() - k,
{
    if k >= frames.len() {
        if clean {
            Ok(count as u64)
        } else {
            Err(DecodeError::Rejected)
        }
    } else if count + frames[k as int].0 > room {
        Err(DecodeError::BufferTooSmall)
    } else if !frames[k as int].1 {
        Err(DecodeError::Rejected)
    } else {
        walk(frames, clean, room, k + 1, count + frames[k as int].0)
    }
}

/// What [`decode`] returns for a GIF that holds `frames`, read into a buffer
/// of `room` bytes.
pub open spec fn outcome(frames: (Seq<(nat, bool)>, bool), room: nat) -> Result<u64, DecodeError> {
    walk(frames.0, frames.1, room, 0, 0)
}

/// Whether [`decode`] may return `r` for the encoded bytes `src` and leave
/// `after` in a buffer that held `before`.
///
/// The result is that of the walk over the frames. After a success the frames
/// lie in the buffer one behind the other, and reading them again into what
/// the buffer then holds leaves it as it is. No byte at or beyond the size of
/// all frames together changes in any case.
pub open spec fn decoded(
    src: Seq<u8>,
    rgba: bool,
    before: Seq<u8>,
    after: Seq<u8>,
    r: Result<u64, DecodeError>,
) -> bool {
    let frames = gif_frames(src, rgba);
    &&& after.len() == before.len()
    &&& r == outcome(frames, before.len())
    &&& r is Ok ==> after == laid(src, rgba, frames.0, frames.0.len(), before)
    &&& r is Ok ==> laid(src, rgba, frames.0, frames.0.len(), after) == after
    &&& forall|i: int|
        sum_to(frames.0, frames.0.len()) <= i < before.len() ==> after[i] == before[i]
}

/// The sizes add up: the sum of fewer frames is no more than that of more.
pub proof fn lemma_sum_to_grows(frames: Seq<(nat, bool)>, k: nat, n: nat)
    requires
        k <= n,
    ensures
        sum_to(frames, k) <= sum_to(frames, n),
    decreases n - k,
{
    if k < n {
        lemma_sum_to_grows(frames, k, (n - 1) as nat);
    }
}

/// Decodes every frame of the GIF in `src` into `dst`, one behind the other,
/// as 32-bit colour if `output_32_bit_color` is set and as palette indices
/// otherwise, and returns the number of bytes processed.
pub fn decode(dst: &mut [u8], src: &[u8], output_32_bit_color: bool) -> (r: Result<
    u64,
    DecodeError,
>)
    ensures
        decoded(src@, output_32_bit_color, old(dst)@, final(dst)@, r),
{
    let output = if output_32_bit_color {
        ColorOutput::Rgba
    } else {
        ColorOutput::Indexed
    };
    let ghost all = gif_frames(src@, output_32_bit_color);
    let ghost room = dst@.len();
    let mut num_bytes: usize = 0;
    let mut reader = match open_reader(src, output) {
        Some(reader) => reader,
        None => {
            return Err(DecodeError::Rejected);
        },
    };
    let ghost mut k: nat = 0;
    assert(all.0.skip(0) == all.0);
    loop
        invariant
            all == gif_frames(src@, output_32_bit_color),
            dst@.len() == room == old(dst)@.len(),
            k <= all.0.len(),
            num_bytes == sum_to(all.0, k) <= room,
            origin(reader) == (src@, output_32_bit_color, k),
            frames_ahead(reader) == (all.0.skip(k as int), all.1),
            frame_at_hand(reader) is None,
            walk(all.0, all.1, room, k, num_bytes as nat) == outcome(all, room),
            dst@ == laid(src@, output_32_bit_color, all.0, k, old(dst)@),
            settled(src@, output_32_bit_color, all.0, k, dst@),
            forall|i: int| num_bytes <= i < room ==> dst@[i] == old(dst)@[i],
        decreases all.0.len() - k,
    {
        proof {
            lemma_sum_to_grows(all.0, k, all.0.len());
        }
        let (at_frame, announced) = match next_frame_info(reader) {
            Some(step) => step,
            None => {
                assert(all.0.skip(k as int).len() == 0);
                return Err(DecodeError::Rejected);
            },
        };
        if !announced {
            assert(all.0.skip(k as int).len() == 0);
            proof {
                lemma_settled_stays(src@, output_32_bit_color, all.0, k, dst@);
            }
            return Ok(num_bytes as u64);
        }
        let size = buffer_size(&at_frame);
        assert(size == all.0[k as int].0);
        assert(all.0.skip(k as int).skip(1) == all.0.skip(k as int + 1));
        proof {
            lemma_sum_to_grows(all.0, k + 1, all.0.len());
        }
        if size > dst.len() - num_bytes {
            return Err(DecodeError::BufferTooSmall);
        }
        let ghost so_far = dst@;
        let (_, rest) = dst.split_at_mut(num_bytes);
        let ghost rest_before = rest@;
        let read = read_into_buffer(at_frame, rest);
        assert forall|i: int| num_bytes + size <= i < room implies dst@[i] == old(dst)@[i] by {
            assert(rest@.skip(size as int)[i - num_bytes - size] == rest_before.skip(
                size as int,
            )[i - num_bytes - size]);
        }
        reader = match read {
            Some(next) => next,
            None => {
                return Err(DecodeError::Rejected);
            },
        };
        assert(region(all.0, k as int, so_far) == rest_before.take(size as int));
        assert(region(all.0, k as int, dst@) == rest@.take(size as int));
        assert(dst@ =~= so_far.take(num_bytes as int) + gif_painted(
            src@,
            output_32_bit_color,
            k,
            region(all.0, k as int, so_far),
        ) + so_far.skip(num_bytes + size));
        assert forall|j: int| 0 <= j < k implies gif_painted(
            src@,
            output_32_bit_color,
            j as nat,
            #[trigger] region(all.0, j, dst@),
        ) == region(all.0, j, dst@) by {
            lemma_sum_to_grows(all.0, (j + 1) as nat, k);
            assert(region(all.0, j, dst@) == region(all.0, j, so_far));
        }
        num_bytes = num_bytes + size;
        proof {
            k = k + 1;
        }
    }
}

} // verus!
