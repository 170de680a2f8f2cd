//! The JPEG adapter: decodes a JPEG through `jpeg_decoder` and lays colour
//! images out as BGRA in the destination buffer.

use vstd::prelude::*;
use crate::error::DecodeError;
use crate::pixel::{
    bgra_of_rgb, check_layout, copy_to_front, layout_objection, rgb_to_bgra, LayoutError,
};

verus! {

/// The combinations of colour space and bit depth that a decoded pixel can have.
#[derive(Clone, Copy, Debug, PartialEq, Eq, Structural)]
pub enum PixelFormat {
    /// Luminance (grayscale), 8 bits.
    L8,
    /// Luminance (grayscale), 16 bits.
    L16,
    /// RGB, 8 bits per channel.
    Rgb24,
    /// CMYK, 8 bits per channel.
    Cmyk32,
}

/// A decoded image: its pixels and the metadata that the decoder reports.
#[derive(Debug)]
pub struct Image {
    /// The decoded pixels, row by row.
    pub pixels: Vec<u8>,
    /// The width of the image, in pixels.
    pub width: u16,
    /// The height of the image, in pixels.
    pub height: u16,
    /// The pixel format of the image.
    pub pixel_format: PixelFormat,
}

/// An [`Image`] as a mathematical value.
pub struct ImageView {
    pub pixels: Seq<u8>,
    pub width: nat,
    pub height: nat,
    pub pixel_format: PixelFormat,
}

impl View for Image {
    type V = ImageView;

    open spec fn view(&self) -> ImageView {
        ImageView {
            pixels: self.pixels@,
            width: self.width as nat,
            height: self.height as nat,
            pixel_format: self.pixel_format,
        }
    }
}

/// The bytes that one pixel of this format takes.
pub open spec fn bytes_per_pixel(format: PixelFormat) -> nat {
    match format {
        PixelFormat::L8 => 1,
        PixelFormat::L16 => 2,
        PixelFormat::Rgb24 => 3,
        PixelFormat::Cmyk32 => 4,
    }
}

/// Whether `image` has one byte for every sample: its format is none of 16
/// bits, and its pixels fill its area at the bytes that its format takes.
pub open spec fn plain(image: ImageView) -> bool {
    &&& image.pixel_format != PixelFormat::L16
    &&& image.pixels.len() == image.width * image.height * bytes_per_pixel(image.pixel_format)
}

/// Whether the decoded image `actual` is the one that `named` stands for:
/// the same width, height and format, as many pixel bytes, and the same pixel
/// bytes where the image is plain.
pub open spec fn stands_for(named: ImageView, actual: ImageView) -> bool {
    &&& named.width == actual.width
    &&& named.height == actual.height
    &&& named.pixel_format == actual.pixel_format
    &&& named.pixels.len() == actual.pixels.len()
    &&& plain(named) ==> named.pixels == actual.pixels
}

/// The image that the bytes `src` decode to as a JPEG, if they decode: its
/// width, height, pixel format and number of pixel bytes, and its pixel bytes
/// where it is plain. Samples of more than one byte come out in the byte
/// order of the machine, so of the pixels of such an image the name holds the
/// number only.
pub uninterp spec fn jpeg_image(src: Seq<u8>) -> Option<ImageView>;

/// `jpeg_decoder::Decoder::new` on a byte slice, `decode`, and `info`, with
/// the error dropped. What comes back is the image that `src` decodes to, as
/// far as that is the same on every machine; nothing comes back exactly when
/// `src` does not decode.
#[verifier::external_body]
fn decode_image(src: &[u8]) -> (r: Option<Image>)
    ensures
        match r {
            Some(image) => jpeg_image(src@) matches Some(named) && stands_for(named, image@),
            None => jpeg_image(src@) is None,
        },
{
    let mut decoder = jpeg_decoder::Decoder::new(src);
    let pixels = decoder.decode().ok()?;
    let info = decoder.info()?;
    let pixel_format = match info.pixel_format {
        jpeg_decoder::PixelFormat::L8 => PixelFormat::L8,
        jpeg_decoder::PixelFormat::L16 => PixelFormat::L16,
        jpeg_decoder::PixelFormat::RGB24 => PixelFormat::Rgb24,
        jpeg_decoder::PixelFormat::CMYK32 => PixelFormat::Cmyk32,
    };
    Some(Image { pixels, width: info.width, height: info.height, pixel_format })
}

/// What [`normalize`] returns for `image` and leaves in a destination that
/// held `before`.
///
/// A grayscale image is written as it is to the front of the destination and
/// counts one byte per pixel. An RGB image is written there as BGRA and
/// counts four bytes per pixel. Either fails if the destination is too small
/// or the pixels do not fill the image. Any other format counts nothing.
pub open spec fn normalized(image: ImageView, before: Seq<u8>) -> (
    Result<u64, DecodeError>,
    Seq<u8>,
) {
    let area = (image.width * image.height) as int;
    match image.pixel_format {
        PixelFormat::L8 => {
            if area > before.len() {
                (Err(DecodeError::BufferTooSmall), before)
            } else if image.pixels.len() != area {
                (Err(DecodeError::Layout(LayoutError::PixelCountsDiffer)), before)
            } else {
                (Ok(area as u64), image.pixels + before.skip(area))
            }
        },
        PixelFormat::Rgb24 => {
            if area * 4 > before.len() {
                (Err(DecodeError::BufferTooSmall), before)
            } else if let Some(e) = layout_objection(image.pixels.len() as int, area * 4) {
                (Err(DecodeError::Layout(e)), before)
            } else {
                (Ok((area * 4) as u64), bgra_of_rgb(image.pixels) + before.skip(area * 4))
            }
        },
        _ => (Ok(0u64), before),
    }
}

/// What [`decode`] returns for the encoded bytes `src` and leaves in a
/// destination that held `before`.
pub open spec fn decoded(src: Seq<u8>, before: Seq<u8>) -> (Result<u64, DecodeError>, Seq<u8>) {
    match jpeg_image(src) {
        Some(image) => normalized(image, before),
        None => (Err(DecodeError::Rejected), before),
    }
}

/// Brings a decoded image into the benchmark's layout and returns the number
/// of bytes processed.
pub fn normalize(image: &Image, dst1: &mut [u8]) -> (r: Result<u64, DecodeError>)
    ensures
        (r, final(dst1)@) == normalized(image@, old(dst1)@),
{
    let w: u64 = image.width as u64;
    let h: u64 = image.height as u64;
    assert(w * h * 4 <= 0xffff * 0xffff * 4) by (nonlinear_arith)
        requires
            w <= 0xffff,
            h <= 0xffff,
    ;
    assert(w * h <= w * h * 4) by (nonlinear_arith);
    if image.pixel_format == PixelFormat::L8 {
        // No conversion necessary.
        let n: u64 = w * h;
        if n > dst1.len() as u64 {
            return Err(DecodeError::BufferTooSmall);
        }
        if image.pixels.len() as u64 != n {
            return Err(DecodeError::Layout(LayoutError::PixelCountsDiffer));
        }
        copy_to_front(image.pixels.as_slice(), dst1);
        return Ok(n);
    } else if image.pixel_format == PixelFormat::Rgb24 {
        // Convert RGB => BGRA.
        let n: u64 = w * h * 4;
        if n > dst1.len() as u64 {
            return Err(DecodeError::BufferTooSmall);
        }
        if let Err(e) = check_layout(image.pixels.len(), n as usize) {
            return Err(DecodeError::Layout(e));
        }
        let (head, _) = dst1.split_at_mut(n as usize);
        rgb_to_bgra(image.pixels.as_slice(), head);
        return Ok(n);
    }
    // Counting nothing leads to a failed size check in the harness.
    Ok(0)
}

/// Decodes the JPEG in `src`, brings it into the benchmark's layout in
/// `dst1`, and returns the number of bytes processed.
pub fn decode(dst1: &mut [u8], src: &[u8]) -> (r: Result<u64, DecodeError>)
    ensures
        (r, final(dst1)@) == decoded(src@, old(dst1)@),
        jpeg_image(src@) matches Some(named) ==> named.width <= 0xffff && named.height <= 0xffff,
{
    match decode_image(src) {
        Some(image) => {
            proof {
                lemma_normalized_alike(jpeg_image(src@).unwrap(), image@, dst1@);
            }
            normalize(&image, dst1)
        },
        None => Err(DecodeError::Rejected),
    }
}

/// Two images of which one stands for the other are brought into the
/// benchmark's layout alike.
pub proof fn lemma_normalized_alike(named: ImageView, actual: ImageView, before: Seq<u8>)
    requires
        stands_for(named, actual),
    ensures
        normalized(named, before) == normalized(actual, before),
{
    let area = (named.width * named.height) as int;
    if named.pixel_format == PixelFormat::Rgb24 && area * 4 <= before.len() && layout_objection(
        named.pixels.len() as int,
        area * 4,
    ) is None {
        assert(named.pixels.len() == area * 3);
        assert(plain(named));
    }
    if named.pixel_format == PixelFormat::L8 && named.pixels.len() == area {
        assert(plain(named));
    }
}

} // verus!
