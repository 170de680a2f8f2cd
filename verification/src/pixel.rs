//! Pixel-layout normalisation: RGB to BGRA expansion and the in-place
//! RGBA to BGRA channel swap.

use vstd::prelude::*;

verus! {

/// Alpha value given to every pixel that is expanded from three channels to four.
pub const OPAQUE: u8 = 0xff;

/// Why a source and a destination cannot be paired for [`rgb_to_bgra`].
#[derive(Clone, Copy, Debug, PartialEq, Eq, Structural)]
pub enum LayoutError {
    /// The source length is not a multiple of 3.
    SourceNotTriples,
    /// The destination length is not a multiple of 4.
    DestinationNotQuads,
    /// Source and destination do not hold the same number of pixels.
    PixelCountsDiffer,
}

/// Whether `nsrc` bytes of RGB and `ndst` bytes of BGRA describe the same
/// whole number of pixels.
pub open spec fn layouts_agree(nsrc: int, ndst: int) -> bool {
    &&& nsrc % 3 == 0
    &&& ndst % 4 == 0
    &&& nsrc == (ndst / 4) * 3
}

/// The first objection to pairing `nsrc` source bytes with `ndst` destination
/// bytes, in the order in which the lengths are examined.
pub open spec fn layout_objection(nsrc: int, ndst: int) -> Option<LayoutError> {
    if nsrc % 3 != 0 {
        Some(LayoutError::SourceNotTriples)
    } else if ndst % 4 != 0 {
        Some(LayoutError::DestinationNotQuads)
    } else if nsrc != (ndst / 4) * 3 {
        Some(LayoutError::PixelCountsDiffer)
    } else {
        None
    }
}

/// The BGRA rendering of a sequence of RGB pixels: per pixel the three
/// channels in reverse order, followed by an opaque alpha byte.
pub open spec fn bgra_of_rgb(src: Seq<u8>) -> Seq<u8> {
    Seq::new(
        ((src.len() / 3) * 4) as nat,
        |i: int|
            if i % 4 == 3 {
                OPAQUE
            } else {
                src[(i / 4) * 3 + (2 - i % 4)]
            },
    )
}

/// The RGBA buffer `buf` with the first and third byte of every complete
/// 4-byte group exchanged; a trailing partial group is left alone.
pub open spec fn red_blue_swapped(buf: Seq<u8>) -> Seq<u8> {
    Seq::new(
        buf.len(),
        |i: int|
            if i >= (buf.len() / 4) * 4 {
                buf[i]
            } else if i % 4 == 0 {
                buf[i + 2]
            } else if i % 4 == 2 {
                buf[i - 2]
            } else {
                buf[i]
            },
    )
}

/// Channel `c` of pixel `p` in `bytes`, which hold `width` bytes per pixel.
pub open spec fn channel(bytes: Seq<u8>, width: int, p: int, c: int) -> u8 {
    bytes[p * width + c]
}

/// The BGRA rendering of `src`, a source of whole RGB pixels, has four bytes
/// for every three of `src`, which is a whole number of BGRA pixels of the
/// same count. Each of its pixels holds the three channels of the source
/// pixel in reverse order and an opaque alpha byte behind them.
pub proof fn lemma_bgra_of_rgb(src: Seq<u8>)
    requires
        src.len() % 3 == 0,
    ensures
        bgra_of_rgb(src).len() == (src.len() / 3) * 4,
        bgra_of_rgb(src).len() % 4 == 0,
        layouts_agree(src.len() as int, bgra_of_rgb(src).len() as int),
        forall|p: int|
            0 <= p < src.len() / 3 ==> {
                &&& #[trigger] channel(bgra_of_rgb(src), 4, p, 0) == channel(src, 3, p, 2)
                &&& channel(bgra_of_rgb(src), 4, p, 1) == channel(src, 3, p, 1)
                &&& channel(bgra_of_rgb(src), 4, p, 2) == channel(src, 3, p, 0)
                &&& channel(bgra_of_rgb(src), 4, p, 3) == OPAQUE
            },
{
}

/// Lengths are refused exactly when they do not agree: a source that is not
/// whole RGB pixels, else a destination that is not whole BGRA pixels, else
/// two that do not hold the same number of pixels.
pub proof fn lemma_layout_refusals(nsrc: int, ndst: int)
    ensures
        layout_objection(nsrc, ndst) is None <==> layouts_agree(nsrc, ndst),
        nsrc % 3 != 0 ==> layout_objection(nsrc, ndst) == Some(LayoutError::SourceNotTriples),
        nsrc % 3 == 0 && ndst % 4 != 0 ==> layout_objection(nsrc, ndst) == Some(
            LayoutError::DestinationNotQuads,
        ),
        nsrc % 3 == 0 && ndst % 4 == 0 && nsrc / 3 != ndst / 4 ==> layout_objection(nsrc, ndst)
            == Some(LayoutError::PixelCountsDiffer),
{
}

/// The swap of red and blue exchanges the first and the third byte of every
/// whole pixel of four bytes and leaves its second and fourth byte, and the
/// bytes behind the last whole pixel, as they are.
pub proof fn lemma_red_blue_swapped(buf: Seq<u8>)
    ensures
        red_blue_swapped(buf).len() == buf.len(),
        forall|p: int|
            0 <= p < buf.len() / 4 ==> {
                &&& #[trigger] channel(red_blue_swapped(buf), 4, p, 0) == channel(buf, 4, p, 2)
                &&& channel(red_blue_swapped(buf), 4, p, 1) == channel(buf, 4, p, 1)
                &&& channel(red_blue_swapped(buf), 4, p, 2) == channel(buf, 4, p, 0)
                &&& channel(red_blue_swapped(buf), 4, p, 3) == channel(buf, 4, p, 3)
            },
        forall|i: int|
            (buf.len() / 4) * 4 <= i < buf.len() ==> #[trigger] red_blue_swapped(buf)[i] == buf[i],
        red_blue_swapped(red_blue_swapped(buf)) == buf,
{
    assert(red_blue_swapped(red_blue_swapped(buf)) =~= buf);
}

/// Examines the two lengths as [`rgb_to_bgra`] demands them and names the first
/// one that is out of order.
pub fn check_layout(nsrc: usize, ndst: usize) -> (r: Result<(), LayoutError>)
    ensures
        r is Ok <==> layouts_agree(nsrc as int, ndst as int),
        r matches Err(e) ==> layout_objection(nsrc as int, ndst as int) == Some(e),
{
    if nsrc % 3 != 0 {
        Err(LayoutError::SourceNotTriples)
    } else if ndst % 4 != 0 {
        Err(LayoutError::DestinationNotQuads)
    } else if nsrc != (ndst / 4) * 3 {
        Err(LayoutError::PixelCountsDiffer)
    } else {
        Ok(())
    }
}

/// Copy `src` (treated as 3-byte chunks) into `dst` (treated as 4-byte
/// chunks), reversing the channel order of each chunk and filling out `dst` by
/// adding an opaque alpha value at the end of each entry.
pub fn rgb_to_bgra(src: &[u8], dst: &mut [u8])
    requires
        layouts_agree(src@.len() as int, old(dst)@.len() as int),
    ensures
        final(dst)@ == bgra_of_rgb(src@),
        final(dst)@.len() == old(dst)@.len(),
{
    let n: usize = dst.len() / 4;
    let mut p: usize = 0;
    while p < n
        invariant
            dst@.len() == old(dst)@.len(),
            dst@.len() == 4 * n <= usize::MAX,
            src@.len() == 3 * n,
            p <= n,
            forall|i: int| 0 <= i < 4 * p ==> dst@[i] == bgra_of_rgb(src@)[i],
        decreases n - p,
    {
        let s: usize = 3 * p;
        let d: usize = 4 * p;
        // B
        dst[d] = src[s + 2];
        // G
        dst[d + 1] = src[s + 1];
        // R
        dst[d + 2] = src[s];
        // A
        dst[d + 3] = OPAQUE;
        p = p + 1;
    }
    assert(dst@ =~= bgra_of_rgb(src@));
}

/// [`rgb_to_bgra`] for lengths of any kind: lengths that are out of order are
/// refused with the first objection to them and leave `dst` as it is.
pub fn try_rgb_to_bgra(src: &[u8], dst: &mut [u8]) -> (r: Result<(), LayoutError>)
    ensures
        match layout_objection(src@.len() as int, old(dst)@.len() as int) {
            Some(e) => r == Err::<(), LayoutError>(e) && final(dst)@ == old(dst)@,
            None => r is Ok && final(dst)@ == bgra_of_rgb(src@),
        },
{
    match check_layout(src.len(), dst.len()) {
        Ok(()) => {
            rgb_to_bgra(src, dst);
            Ok(())
        },
        Err(e) => Err(e),
    }
}

/// Copies `src` to the front of `dst` and leaves the bytes behind it alone.
pub(crate) fn copy_to_front(src: &[u8], dst: &mut [u8])
    requires
        src@.len() <= old(dst)@.len(),
    ensures
        final(dst)@ == src@ + old(dst)@.skip(src@.len() as int),
{
    let n: usize = src.len();
    let mut i: usize = 0;
    while i < n
        invariant
            n == src@.len(),
            n <= dst@.len() == old(dst)@.len(),
            i <= n,
            forall|j: int| 0 <= j < i ==> dst@[j] == src@[j],
            forall|j: int| i <= j < dst@.len() ==> dst@[j] == old(dst)@[j],
        decreases n - i,
    {
        dst[i] = src[i];
        i = i + 1;
    }
    assert(dst@ =~= src@ + old(dst)@.skip(src@.len() as int));
}

/// Turns RGBA into BGRA in place: in every complete 4-byte group of `buf` the
/// first and third byte change places, the second and fourth stay.
pub fn rgba_to_bgra(buf: &mut [u8])
    ensures
        final(buf)@ == red_blue_swapped(old(buf)@),
{
    let n: usize = buf.len() / 4;
    let mut p: usize = 0;
    while p < n
        invariant
            n == old(buf)@.len() / 4,
            buf@.len() == old(buf)@.len(),
            4 * n <= buf@.len() <= usize::MAX,
            p <= n,
            forall|i: int| 0 <= i < 4 * p ==> buf@[i] == red_blue_swapped(old(buf)@)[i],
            forall|i: int| 4 * p <= i < buf@.len() ==> buf@[i] == old(buf)@[i],
        decreases n - p,
    {
        let d: u8 = buf[4 * p];
        buf[4 * p] = buf[4 * p + 2];
        buf[4 * p + 2] = d;
        p = p + 1;
    }
    assert(buf@ =~= red_blue_swapped(old(buf)@));
}

} // verus!
