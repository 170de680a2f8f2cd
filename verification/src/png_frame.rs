//! The PNG adapter: decodes a PNG through the `png` crate and turns colour
//! images into BGRA.

use vstd::prelude::*;
use crate::error::DecodeError;
use crate::pixel::{bgra_of_rgb, red_blue_swapped, rgb_to_bgra, rgba_to_bgra, LayoutError};

verus! {

/// The layout of the samples in a decoded pixel.
#[derive(Clone, Copy, Debug, PartialEq, Eq, Structural)]
pub enum ColorType {
    Grayscale,
    Rgb,
    Indexed,
    GrayscaleAlpha,
    Rgba,
}

/// What the decoder reports of the frame it has written.
#[derive(Clone, Copy, Debug, PartialEq, Eq, Structural)]
pub struct Frame {
    /// The size in bytes of the decoded frame.
    pub num_bytes: usize,
    /// The layout of its pixels.
    pub color_type: ColorType,
}

/// What the bytes `src` decode to as a PNG, if they decode into a buffer that
/// holds the frame: the report on the frame, and for each byte of the frame
/// what the decoder writes to it, if it writes to it.
pub uninterp spec fn png_frame(src: Seq<u8>) -> Option<(Frame, Seq<Option<u8>>)>;

/// The buffer `before` with every byte that `written` holds written to its
/// place.
pub open spec fn overlaid(written: Seq<Option<u8>>, before: Seq<u8>) -> Seq<u8> {
    Seq::new(
        before.len(),
        |i: int|
            if i < written.len() && written[i] is Some {
                written[i].unwrap()
            } else {
                before[i]
            },
    )
}

/// `png::Decoder::new` on a byte slice, `read_info`, `Reader::next_frame` into
/// `dst0` and `OutputInfo::buffer_size`, with the error dropped. A frame that
/// comes back is the one that `src` decodes to and fits `dst0`; the decoder
/// has written its bytes to their places and no other byte. What it reports
/// and writes it takes from the file alone. No frame comes back from a file
/// that decodes only if `dst0` is too small for the frame.
#[verifier::external_body]
fn read_frame(src: &[u8], dst0: &mut [u8]) -> (r: Option<Frame>)
    ensures
        final(dst0)@.len() == old(dst0)@.len(),
        match r {
            Some(frame) => {
                &&& png_frame(src@) matches Some((named, written))
                &&& named == frame
                &&& written.len() == frame.num_bytes <= old(dst0)@.len()
                &&& final(dst0)@ == overlaid(written, old(dst0)@)
            },
            None => png_frame(src@) matches Some((named, _)) ==> named.num_bytes > old(
                dst0,
            )@.len(),
        },
{
    let (info, mut reader) = png::Decoder::new(src).read_info().ok()?;
    reader.next_frame(dst0).ok()?;
    let color_type = match info.color_type {
        png::ColorType::Grayscale => ColorType::Grayscale,
        png::ColorType::RGB => ColorType::Rgb,
        png::ColorType::Indexed => ColorType::Indexed,
        png::ColorType::GrayscaleAlpha => ColorType::GrayscaleAlpha,
        png::ColorType::RGBA => ColorType::Rgba,
    };
    Some(Frame { num_bytes: info.buffer_size(), color_type })
}

/// What [`normalize`] returns for `frame`, and what it leaves in the two
/// buffers, of which the first held the decoded frame in `decoded` and the
/// second held `before`.
///
/// Grayscale needs no conversion. RGB is written as BGRA to the front of the
/// second buffer and counts four bytes for every three. RGBA becomes BGRA in
/// place. Any other layout counts nothing.
pub open spec fn normalized(frame: Frame, decoded: Seq<u8>, before: Seq<u8>) -> (
    Result<u64, DecodeError>,
    Seq<u8>,
    Seq<u8>,
) {
    let n = frame.num_bytes as int;
    match frame.color_type {
        ColorType::Grayscale => (Ok(n as u64), decoded, before),
        ColorType::Rgb => {
            if n > decoded.len() || (n / 3) * 4 > before.len() {
                (Err(DecodeError::BufferTooSmall), decoded, before)
            } else if n % 3 != 0 {
                (Err(DecodeError::Layout(LayoutError::SourceNotTriples)), decoded, before)
            } else {
                (
                    Ok(((n / 3) * 4) as u64),
                    decoded,
                    bgra_of_rgb(decoded.take(n)) + before.skip((n / 3) * 4),
                )
            }
        },
        ColorType::Rgba => {
            if n > decoded.len() {
                (Err(DecodeError::BufferTooSmall), decoded, before)
            } else {
                (Ok(n as u64), red_blue_swapped(decoded.take(n)) + decoded.skip(n), before)
            }
        },
        _ => (Ok(0u64), decoded, before),
    }
}

/// Whether [`decode`] may return `r` for the encoded bytes `src` and leave
/// `after0` and `after1` in buffers that held `before0` and `before1`.
///
/// A frame that decodes and fits the first buffer is written to it; the
/// result and both buffers are then those of [`normalized`]. A frame that
/// does not decode, or does not fit, is rejected and leaves the second buffer
/// alone.
pub open spec fn decoded(
    src: Seq<u8>,
    before0: Seq<u8>,
    before1: Seq<u8>,
    after0: Seq<u8>,
    after1: Seq<u8>,
    r: Result<u64, DecodeError>,
) -> bool {
    match png_frame(src) {
        Some((frame, written)) if frame.num_bytes <= before0.len() => {
            &&& written.len() == frame.num_bytes
            &&& (r, after0, after1) == normalized(frame, overlaid(written, before0), before1)
        },
        _ => r == Err::<u64, DecodeError>(DecodeError::Rejected) && after1 == before1,
    }
}

/// Brings a decoded frame, which lies at the front of `dst0`, into the
/// benchmark's layout and returns the number of bytes processed.
pub fn normalize(frame: Frame, dst0: &mut [u8], dst1: &mut [u8]) -> (r: Result<u64, DecodeError>)
    ensures
        (r, final(dst0)@, final(dst1)@) == normalized(frame, old(dst0)@, old(dst1)@),
{
    let num_bytes: usize = frame.num_bytes;
    if frame.color_type == ColorType::Grayscale {
        // No conversion necessary.
        return Ok(num_bytes as u64);
    } else if frame.color_type == ColorType::Rgb {
        // Convert RGB => BGRA.
        if num_bytes > dst0.len() || num_bytes / 3 > dst1.len() / 4 {
            return Err(DecodeError::BufferTooSmall);
        }
        if num_bytes % 3 != 0 {
            return Err(DecodeError::Layout(LayoutError::SourceNotTriples));
        }
        let new_size: usize = (num_bytes / 3) * 4;
        let (rgb, _) = dst0.split_at(num_bytes);
        let (bgra, _) = dst1.split_at_mut(new_size);
        rgb_to_bgra(rgb, bgra);
        return Ok(new_size as u64);
    } else if frame.color_type == ColorType::Rgba {
        // Convert RGBA => BGRA.
        if num_bytes > dst0.len() {
            return Err(DecodeError::BufferTooSmall);
        }
        let (rgba, _) = dst0.split_at_mut(num_bytes);
        rgba_to_bgra(rgba);
        return Ok(num_bytes as u64);
    }
    // Counting nothing leads to a failed size check in the harness.
    Ok(0)
}

/// Decodes the PNG in `src` into `dst0`, brings it into the benchmark's
/// layout, for which RGB needs `dst1`, and returns the number of bytes
/// processed.
pub fn decode(dst0: &mut [u8], dst1: &mut [u8], src: &[u8]) -> (r: Result<u64, DecodeError>)
    ensures
        final(dst0)@.len() == old(dst0)@.len(),
        final(dst1)@.len() == old(dst1)@.len(),
        decoded(src@, old(dst0)@, old(dst1)@, final(dst0)@, final(dst1)@, r),
{
    match read_frame(src, dst0) {
        Some(frame) => normalize(frame, dst0, dst1),
        None => Err(DecodeError::Rejected),
    }
}

} // verus!
