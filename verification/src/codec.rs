//! The decoder families that the harness can time, and what tells them apart.

use vstd::prelude::*;
use vstd::string::*;
use crate::error::DecodeError;
use crate::{gif_frames, inflate, jpeg_image, png_frame};

verus! {

/// A decoder family.
#[derive(Clone, Copy, Debug, PartialEq, Eq, Structural)]
pub enum Codec {
    Deflate,
    Gif,
    Jpeg,
    Png,
}

/// The factor by which a family scales the base iteration count of each of
/// its configurations.
pub open spec fn iter_scale_of(codec: Codec) -> u64 {
    match codec {
        Codec::Deflate => 20,
        Codec::Gif => 10,
        Codec::Jpeg => 50,
        Codec::Png => 50,
    }
}

/// What stands between `Benchmark` and the configuration's name in a
/// family's report lines.
pub open spec fn label_of(codec: Codec) -> Seq<char> {
    match codec {
        Codec::Deflate => "rust_deflate_decode_"@,
        Codec::Gif => "rust_gif_decode_"@,
        Codec::Jpeg => "rust_jpeg_decode_image_"@,
        Codec::Png => "rust_png_decode_image_"@,
    }
}

/// The `go` subcommand that a family's report header names for installing
/// the tool that reads the report.
pub open spec fn install_verb_of(codec: Codec) -> Seq<char> {
    match codec {
        Codec::Jpeg => "install"@,
        _ => "get"@,
    }
}

/// Whether `text` ends with `suffix`.
pub open spec fn ends_with(text: Seq<char>, suffix: Seq<char>) -> bool {
    text.len() >= suffix.len() && text.subrange(text.len() - suffix.len(), text.len() as int)
        == suffix
}

/// Whether `r` is what decoding `src` with `codec` may return, given what the
/// family's own adapter promises of the two buffers before and after.
pub open spec fn decoded(
    codec: Codec,
    src: Seq<u8>,
    output_32_bit_color: bool,
    before0: Seq<u8>,
    before1: Seq<u8>,
    after0: Seq<u8>,
    after1: Seq<u8>,
    r: Result<u64, DecodeError>,
) -> bool {
    match codec {
        Codec::Deflate => {
            &&& after1 == before1
            &&& inflate::decoded(inflate::inflated(src), before0, after0, r)
        },
        Codec::Gif => {
            &&& after1 == before1
            &&& gif_frames::decoded(src, output_32_bit_color, before0, after0, r)
        },
        Codec::Jpeg => {
            &&& after0 == before0
            &&& (r, after1) == jpeg_image::decoded(src, before1)
        },
        Codec::Png => png_frame::decoded(src, before0, before1, after0, after1, r),
    }
}

impl Codec {
    /// The factor by which this family scales base iteration counts.
    pub fn iter_scale(self) -> (scale: u64)
        ensures
            scale == iter_scale_of(self),
            scale > 0,
    {
        match self {
            Codec::Deflate => 20,
            Codec::Gif => 10,
            Codec::Jpeg => 50,
            Codec::Png => 50,
        }
    }

    /// What stands between `Benchmark` and the configuration's name in this
    /// family's report lines.
    pub fn label(self) -> (label: &'static str)
        ensures
            label@ == label_of(self),
    {
        match self {
            Codec::Deflate => "rust_deflate_decode_",
            Codec::Gif => "rust_gif_decode_",
            Codec::Jpeg => "rust_jpeg_decode_image_",
            Codec::Png => "rust_png_decode_image_",
        }
    }

    /// The `go` subcommand that this family's report header names for
    /// installing the tool that reads the report.
    pub fn install_verb(self) -> (verb: &'static str)
        ensures
            verb@ == install_verb_of(self),
    {
        match self {
            Codec::Jpeg => "install",
            _ => "get",
        }
    }
}

/// Whether a configuration of this name asks for 32-bit colour: its name ends
/// in `_bgra`.
pub fn wants_32_bit_color(name: &str) -> (b: bool)
    ensures
        b == ends_with(name@, "_bgra"@),
{
    proof {
        reveal_strlit("_bgra");
    }
    let n = name.unicode_len();
    if n < 5 {
        return false;
    }
    let b = name.get_char(n - 5) == '_' && name.get_char(n - 4) == 'b' && name.get_char(n - 3)
        == 'g' && name.get_char(n - 2) == 'r' && name.get_char(n - 1) == 'a';
    proof {
        let tail = name@.subrange(n - 5, n as int);
        if b {
            assert(tail =~= "_bgra"@);
        } else {
            assert(tail[0] == name@[n - 5]);
            assert(tail[1] == name@[n - 4]);
            assert(tail[2] == name@[n - 3]);
            assert(tail[3] == name@[n - 2]);
            assert(tail[4] == name@[n - 1]);
        }
    }
    b
}

/// Decodes `src` with the adapter of `codec` and returns the number of bytes
/// processed. Deflate and GIF decode into `dst0`, JPEG into `dst1`, PNG into
/// `dst0` and, for RGB, from there into `dst1`; only GIF looks at
/// `output_32_bit_color`.
pub fn decode(
    codec: Codec,
    dst0: &mut [u8],
    dst1: &mut [u8],
    src: &[u8],
    output_32_bit_color: bool,
) -> (r: Result<u64, DecodeError>)
    ensures
        final(dst0)@.len() == old(dst0)@.len(),
        final(dst1)@.len() == old(dst1)@.len(),
        decoded(
            codec,
            src@,
            output_32_bit_color,
            old(dst0)@,
            old(dst1)@,
            final(dst0)@,
            final(dst1)@,
            r,
        ),
{
    match codec {
        Codec::Deflate => inflate::decode(dst0, src),
        Codec::Gif => gif_frames::decode(dst0, src, output_32_bit_color),
        Codec::Jpeg => jpeg_image::decode(dst1, src),
        Codec::Png => png_frame::decode(dst0, dst1, src),
    }
}

} // verus!
