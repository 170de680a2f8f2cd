//! Sentinel checks for a decoder that fills a buffer of a size known
//! beforehand: the buffer's two ends are marked before the decode and examined
//! after it.

use vstd::prelude::*;

verus! {

/// Why a decoded buffer was not accepted.
#[derive(Clone, Copy, Debug, PartialEq, Eq, Structural)]
pub enum CheckError {
    /// The decoder produced another number of bytes than expected.
    WrongNumBytes,
    /// The first or the last decoded byte is not the expected one.
    WrongPixels,
}

/// What [`check`] returns for a buffer that holds `dst`, of which the decoder
/// says it filled `got_num_bytes`, where `want_num_bytes` were expected, with
/// `first` at their start and `last` at their end.
pub open spec fn checked(
    dst: Seq<u8>,
    got_num_bytes: usize,
    want_num_bytes: usize,
    first: u8,
    last: u8,
) -> Result<(), CheckError> {
    if got_num_bytes != want_num_bytes {
        Err(CheckError::WrongNumBytes)
    } else if dst[0] != first || dst[want_num_bytes - 1] != last {
        Err(CheckError::WrongPixels)
    } else {
        Ok(())
    }
}

/// Marks the two ends of the first `num_bytes` bytes of `dst` with `mark`, so
/// that a decode that leaves them alone is found out afterwards.
pub fn arm(dst: &mut [u8], num_bytes: usize, mark: u8)
    requires
        0 < num_bytes <= old(dst)@.len(),
    ensures
        final(dst)@ == old(dst)@.update(0, mark).update(num_bytes - 1, mark),
{
    dst[0] = mark;
    dst[num_bytes - 1] = mark;
}

/// Examines a decoded buffer: the number of bytes that the decoder reported,
/// then the first and the last of them.
pub fn check(dst: &[u8], got_num_bytes: usize, want_num_bytes: usize, first: u8, last: u8) -> (r:
    Result<(), CheckError>)
    requires
        0 < want_num_bytes <= dst@.len(),
    ensures
        r == checked(dst@, got_num_bytes, want_num_bytes, first, last),
{
    if got_num_bytes != want_num_bytes {
        return Err(CheckError::WrongNumBytes);
    }
    if dst[0] != first || dst[want_num_bytes - 1] != last {
        return Err(CheckError::WrongPixels);
    }
    Ok(())
}

/// A buffer passes the check exactly if the decoder filled the expected number
/// of bytes and the first and the last of them are the expected ones.
pub proof fn lemma_check_ok(
    dst: Seq<u8>,
    got_num_bytes: usize,
    want_num_bytes: usize,
    first: u8,
    last: u8,
)
    ensures
        checked(dst, got_num_bytes, want_num_bytes, first, last) is Ok <==> {
            &&& got_num_bytes == want_num_bytes
            &&& dst[0] == first
            &&& dst[want_num_bytes - 1] == last
        },
{
}

/// A buffer that was marked and then left alone does not pass the check,
/// whenever the mark differs from one of the two expected bytes.
pub proof fn lemma_untouched_buffer_fails(
    dst: Seq<u8>,
    num_bytes: usize,
    mark: u8,
    first: u8,
    last: u8,
)
    requires
        0 < num_bytes <= dst.len(),
        mark != first || mark != last,
    ensures
        checked(
            dst.update(0, mark).update(num_bytes - 1, mark),
            num_bytes,
            num_bytes,
            first,
            last,
        ) == Err::<(), CheckError>(CheckError::WrongPixels),
{
}

} // verus!
