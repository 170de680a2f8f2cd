//! The Deflate adapter: drains a raw DEFLATE stream through `flate2` into the
//! destination buffer and counts the bytes that come out.

use vstd::prelude::*;
use std::io::Read;
use flate2::read::DeflateDecoder;
use crate::error::DecodeError;

verus! {

/// `flate2::read::DeflateDecoder`, a reader that decompresses what it reads
/// from the reader inside it. Nothing is known of a value of it but what
/// [`unread`] names.
#[verifier::external_type_specification]
#[verifier::external_body]
#[verifier::reject_recursive_types(R)]
pub struct ExDeflateDecoder<R>(DeflateDecoder<R>);

/// What a raw DEFLATE stream holds: the bytes that decompress from `src` up to
/// the end of the stream or to its first defect, and whether the stream
/// reaches its end without a defect.
pub uninterp spec fn inflated(src: Seq<u8>) -> (Seq<u8>, bool);

/// What a decoder has left: the decompressed bytes between the place it has
/// read to and the end of its stream or the first defect, and whether the
/// stream reaches its end without a defect.
pub uninterp spec fn unread(decoder: DeflateDecoder<&[u8]>) -> (Seq<u8>, bool);

/// `flate2::read::DeflateDecoder::new` on a byte slice. The new decoder has
/// handed out nothing yet, so it has the whole stream in `src` left.
#[verifier::external_body]
fn open_stream<'a>(src: &'a [u8]) -> (decoder: DeflateDecoder<&'a [u8]>)
    ensures
        unread(decoder) == inflated(src@),
{
    DeflateDecoder::new(src)
}

/// `std::io::Read::read` of a `flate2::read::DeflateDecoder`, with the error
/// dropped. A successful read puts the next `n` bytes of what the decoder had
/// left at the front of `dst`, never more than `dst` takes, and writes to no
/// byte behind them; with room in `dst` it hands out none only at the clean
/// end of the stream. It fails only on a stream with a defect.
#[verifier::external_body]
fn read_piece(decoder: &mut DeflateDecoder<&[u8]>, dst: &mut [u8]) -> (r: Option<usize>)
    ensures
        final(dst)@.len() == old(dst)@.len(),
        match r {
            Some(n) => {
                &&& n <= old(dst)@.len()
                &&& n <= unread(*old(decoder)).0.len()
                &&& final(dst)@ == unread(*old(decoder)).0.take(n as int) + old(dst)@.skip(
                    n as int,
                )
                &&& unread(*final(decoder)) == (
                    unread(*old(decoder)).0.skip(n as int),
                    unread(*old(decoder)).1,
                )
                &&& n == 0 && old(dst)@.len() > 0 ==> unread(*old(decoder)).0.len() == 0
                    && unread(*old(decoder)).1
            },
            None => !unread(*old(decoder)).1,
        },
{
    decoder.read(dst).ok()
}

/// Whether [`decode`] may return `r` and leave `after` in a buffer that held
/// `before`, for a stream that holds `stream`.
///
/// A stream without a defect whose bytes fit the buffer gives its size and
/// lies at the front of the buffer, with the bytes behind it as they were; if
/// they do not fit, the buffer is too small. A stream with a defect is
/// rejected, unless the buffer is full before the defect is met.
pub open spec fn decoded(
    stream: (Seq<u8>, bool),
    before: Seq<u8>,
    after: Seq<u8>,
    r: Result<u64, DecodeError>,
) -> bool {
    let size = stream.0.len();
    if stream.1 && size <= before.len() {
        &&& r == Ok::<u64, DecodeError>(size as u64)
        &&& after == stream.0 + before.skip(size as int)
    } else if stream.1 {
        r == Err::<u64, DecodeError>(DecodeError::BufferTooSmall)
    } else if size <= before.len() {
        r == Err::<u64, DecodeError>(DecodeError::Rejected)
    } else {
        r == Err::<u64, DecodeError>(DecodeError::Rejected) || r == Err::<u64, DecodeError>(
            DecodeError::BufferTooSmall,
        )
    }
}

/// Decompresses the raw DEFLATE stream in `src` into the front of `dst`,
/// piece behind piece, and returns the number of bytes processed.
pub fn decode(dst: &mut [u8], src: &[u8]) -> (r: Result<u64, DecodeError>)
    ensures
        final(dst)@.len() == old(dst)@.len(),
        decoded(inflated(src@), old(dst)@, final(dst)@, r),
{
    let ghost stream = inflated(src@);
    let mut num_bytes: usize = 0;
    let mut decoder = open_stream(src);
    while num_bytes < dst.len()
        invariant
            stream == inflated(src@),
            dst@.len() == old(dst)@.len(),
            num_bytes <= dst@.len(),
            num_bytes <= stream.0.len(),
            unread(decoder) == (stream.0.skip(num_bytes as int), stream.1),
            dst@ == stream.0.take(num_bytes as int) + old(dst)@.skip(num_bytes as int),
        decreases stream.0.len() - num_bytes,
    {
        let (_, rest) = dst.split_at_mut(num_bytes);
        let n = match read_piece(&mut decoder, rest) {
            Some(n) => n,
            None => {
                return Err(DecodeError::Rejected);
            },
        };
        assert(dst@ =~= stream.0.take(num_bytes + n) + old(dst)@.skip(num_bytes + n));
        assert(stream.0.skip(num_bytes as int).skip(n as int) == stream.0.skip(num_bytes + n));
        if n == 0 {
            assert(stream.0.take(num_bytes as int) == stream.0);
            return Ok(num_bytes as u64);
        }
        num_bytes = num_bytes + n;
    }
    // The buffer is full: one more byte tells a stream that ends here from one
    // that goes on.
    let mut further: Vec<u8> = Vec::new();
    further.push(0);
    match read_piece(&mut decoder, further.as_mut_slice()) {
        None => Err(DecodeError::Rejected),
        Some(n) => {
            if n == 0 {
                assert(stream.0.take(num_bytes as int) == stream.0);
                Ok(num_bytes as u64)
            } else {
                Err(DecodeError::BufferTooSmall)
            }
        },
    }
}

} // verus!
