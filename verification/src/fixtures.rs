//! The benchmark configurations of each decoder family: which fixture is
//! decoded, how many bytes must come out, and how often.

use vstd::prelude::*;
use vstd::slice::slice_subrange;
use crate::codec::{iter_scale_of, Codec};

verus! {

/// The length of the output buffers that the harness is run with: 64 MiB.
pub const OUTPUT_BUFFER_LEN: usize = 67_108_864;

/// The number of measured rounds over a family's configurations, which
/// follow one warm-up round.
pub const REPS: u64 = 5;

/// The directory that holds the fixtures.
pub const DATA_DIR: &'static str = "test/data";

/// The directory that held the fixtures before, whose files are kept apart
/// from those of [`DATA_DIR`] though they bear the same names.
pub const LEGACY_DATA_DIR: &'static str = "test/testdata";

/// The two runs of the table-free GIF decoder.
#[derive(Clone, Copy, Debug, PartialEq, Eq, Structural)]
pub enum FixedRun {
    /// The earlier one: fixture from the legacy directory, buffer marked with
    /// zeros, a bare line.
    Plain,
    /// The later one: fixture from the data directory, buffer marked with
    /// `0xFE`, a line under the decoder's name.
    Labelled,
}

/// One benchmark configuration.
#[derive(Clone, Copy, Debug)]
pub struct Configuration {
    /// The benchmark's name.
    pub name: &'static str,
    /// The directory of the fixture.
    pub dir: &'static str,
    /// The file name of the fixture.
    pub file: &'static str,
    /// Where in the file the encoded data starts.
    pub start: usize,
    /// Where in the file the encoded data ends, if before the file's end.
    pub end: Option<usize>,
    /// The number of bytes that one decode must count.
    pub want_num_bytes: u64,
    /// The base number of iterations.
    pub iters_unscaled: u64,
}

/// The fixed image that the table-free GIF decoder is run on.
#[derive(Clone, Copy, Debug)]
pub struct FixedImage {
    /// The directory of the fixture.
    pub dir: &'static str,
    /// The file name of the fixture.
    pub file: &'static str,
    /// The width of the image, in pixels.
    pub width: u32,
    /// The height of the image, in pixels.
    pub height: u32,
    /// The bytes that one decoded pixel takes: red, green, blue.
    pub bytes_per_pixel: u32,
    /// How many entries the colour table has.
    pub color_table_element_count: u16,
    /// Where in the file the colour table starts.
    pub color_table_offset: usize,
    /// Where in the file the graphic block starts.
    pub graphic_block_offset: usize,
    /// The red component of the top left pixel.
    pub first_pixel: u8,
    /// The blue component of the bottom right pixel.
    pub last_pixel: u8,
    /// What the two ends of the buffer are marked with before a decode.
    pub mark: u8,
    /// The number of decodes that are timed.
    pub reps: u32,
    /// Whether the rate is reported under the decoder's name.
    pub labelled: bool,
}

/// Whether a configuration of `codec` keeps within what the harness can hold
/// and count: a decode that counts nothing never passes for it, its output
/// fits the buffers, it runs at least once, the part of the file that it
/// names is in order, and neither its scaled iteration count nor the bytes of
/// all its passes overflow.
pub open spec fn within_limits(codec: Codec, c: Configuration) -> bool {
    &&& 0 < c.want_num_bytes <= OUTPUT_BUFFER_LEN
    &&& 0 < c.iters_unscaled
    &&& c.iters_unscaled * iter_scale_of(codec) * c.want_num_bytes <= u64::MAX
    &&& c.end matches Some(end) ==> c.start <= end
}

/// How many configurations the family has.
pub open spec fn table_len(codec: Codec) -> nat {
    match codec {
        Codec::Deflate => 3,
        Codec::Gif => 9,
        Codec::Jpeg => 7,
        Codec::Png => 5,
    }
}

/// The encoded data that `c` names in the contents `file` of its fixture, if
/// the file is long enough to hold it.
pub open spec fn source_in(c: Configuration, file: Seq<u8>) -> Option<Seq<u8>> {
    let end = match c.end {
        Some(end) => end as int,
        None => file.len() as int,
    };
    if c.start <= end <= file.len() {
        Some(file.subrange(c.start as int, end))
    } else {
        None
    }
}

/// The configuration `name` that decodes the whole of `file`.
pub open spec fn whole_of(
    name: &'static str,
    file: &'static str,
    want_num_bytes: u64,
    iters_unscaled: u64,
) -> Configuration {
    Configuration { name, dir: DATA_DIR, file, start: 0, end: None, want_num_bytes, iters_unscaled }
}

/// The configuration `name` that decodes the bytes of `file` from `start` up
/// to `end`.
pub open spec fn part_of(
    name: &'static str,
    file: &'static str,
    start: usize,
    end: usize,
    want_num_bytes: u64,
    iters_unscaled: u64,
) -> Configuration {
    Configuration {
        name,
        dir: DATA_DIR,
        file,
        start,
        end: Some(end),
        want_num_bytes,
        iters_unscaled,
    }
}

/// The configurations of the Deflate family.
pub open spec fn deflate_rows() -> Seq<Configuration> {
    seq![
        part_of("1k", "romeo.txt.gz", 20, 550, 942, 2000),
        part_of("10k", "midsummer.txt.gz", 24, 5166, 11_065, 300),
        part_of("100k", "pi.txt.gz", 17, 48335, 100_003, 30),
    ]
}

/// The configurations of the GIF family.
pub open spec fn gif_rows() -> Seq<Configuration> {
    seq![
        whole_of("1k_bw", "pjw-thumbnail.gif", 1_024, 2000),
        whole_of("1k_color", "hippopotamus.regular.gif", 1_008, 1000),
        whole_of("10k_bgra", "hat.gif", 40_320, 100),
        whole_of("10k_indexed", "hat.gif", 10_080, 100),
        whole_of("20k", "bricks-gray.gif", 19_200, 50),
        whole_of("100k_artificial", "hibiscus.primitive.gif", 137_904, 15),
        whole_of("100k_realistic", "hibiscus.regular.gif", 137_904, 10),
        whole_of("1000k", "harvesters.gif", 1_000_735, 1),
        whole_of("anim_screencap", "gifplayer-muybridge.gif", 4_652_198, 1),
    ]
}

/// The configurations of the JPEG family.
pub open spec fn jpeg_rows() -> Seq<Configuration> {
    seq![
        whole_of("19k_8bpp", "bricks-gray.jpeg", 19_200, 100),
        whole_of("30k_24bpp_progressive", "peacock.progressive.jpeg", 30_000, 50),
        whole_of("30k_24bpp_sequential", "peacock.default.jpeg", 30_000, 50),
        whole_of("77k_24bpp", "bricks-color.jpeg", 76_800, 30),
        whole_of("552k_24bpp_420", "hibiscus.regular.jpeg", 551_616, 5),
        whole_of("552k_24bpp_444", "hibiscus.primitive.jpeg", 551_616, 5),
        whole_of("4002k_24bpp", "harvesters.jpeg", 4_002_940, 1),
    ]
}

/// The configurations of the PNG family.
pub open spec fn png_rows() -> Seq<Configuration> {
    seq![
        whole_of("19k_8bpp", "bricks-gray.no-ancillary.png", 19_200, 50),
        whole_of("40k_24bpp", "hat.png", 40_320, 30),
        whole_of("77k_8bpp", "bricks-dither.png", 76_800, 30),
        whole_of("552k_32bpp_verify_checksum", "hibiscus.primitive.png", 551_616, 4),
        whole_of("4002k_24bpp", "harvesters.png", 4_002_940, 1),
    ]
}

/// The configurations of a family, in the order in which they are run.
pub open spec fn rows(codec: Codec) -> Seq<Configuration> {
    match codec {
        Codec::Deflate => deflate_rows(),
        Codec::Gif => gif_rows(),
        Codec::Jpeg => jpeg_rows(),
        Codec::Png => png_rows(),
    }
}

/// The image that a run of the table-free GIF decoder decodes, and the values
/// that a decode of it is held to.
pub open spec fn harvesters(run: FixedRun) -> FixedImage {
    FixedImage {
        dir: if run == FixedRun::Plain {
            LEGACY_DATA_DIR
        } else {
            DATA_DIR
        },
        file: "harvesters.gif",
        width: 1165,
        height: 859,
        bytes_per_pixel: 3,
        color_table_element_count: 256,
        color_table_offset: 13,
        graphic_block_offset: 782,
        first_pixel: 1,
        last_pixel: 3,
        mark: if run == FixedRun::Plain {
            0
        } else {
            0xFE
        },
        reps: 50,
        labelled: run == FixedRun::Labelled,
    }
}

/// The number of bytes that a decode of `image` fills.
pub open spec fn image_len(image: FixedImage) -> int {
    image.width * image.height * image.bytes_per_pixel
}

fn whole(
    name: &'static str,
    file: &'static str,
    want_num_bytes: u64,
    iters_unscaled: u64,
) -> (c: Configuration)
    ensures
        c == whole_of(name, file, want_num_bytes, iters_unscaled),
{
    Configuration { name, dir: DATA_DIR, file, start: 0, end: None, want_num_bytes, iters_unscaled }
}

fn part(
    name: &'static str,
    file: &'static str,
    start: usize,
    end: usize,
    want_num_bytes: u64,
    iters_unscaled: u64,
) -> (c: Configuration)
    ensures
        c == part_of(name, file, start, end, want_num_bytes, iters_unscaled),
{
    Configuration {
        name,
        dir: DATA_DIR,
        file,
        start,
        end: Some(end),
        want_num_bytes,
        iters_unscaled,
    }
}

fn deflate_table() -> (table: Vec<Configuration>)
    ensures
        table@ == deflate_rows(),
{
    let mut table: Vec<Configuration> = Vec::new();
    table.push(part("1k", "romeo.txt.gz", 20, 550, 942, 2000));
    table.push(part("10k", "midsummer.txt.gz", 24, 5166, 11_065, 300));
    table.push(part("100k", "pi.txt.gz", 17, 48335, 100_003, 30));
    assert(table@ =~= deflate_rows());
    table
}

fn gif_table() -> (table: Vec<Configuration>)
    ensures
        table@ == gif_rows(),
{
    let mut table: Vec<Configuration> = Vec::new();
    table.push(whole("1k_bw", "pjw-thumbnail.gif", 1_024, 2000));
    table.push(whole("1k_color", "hippopotamus.regular.gif", 1_008, 1000));
    table.push(whole("10k_bgra", "hat.gif", 40_320, 100));
    table.push(whole("10k_indexed", "hat.gif", 10_080, 100));
    table.push(whole("20k", "bricks-gray.gif", 19_200, 50));
    table.push(whole("100k_artificial", "hibiscus.primitive.gif", 137_904, 15));
    table.push(whole("100k_realistic", "hibiscus.regular.gif", 137_904, 10));
    table.push(whole("1000k", "harvesters.gif", 1_000_735, 1));
    table.push(whole("anim_screencap", "gifplayer-muybridge.gif", 4_652_198, 1));
    assert(table@ =~= gif_rows());
    table
}

fn jpeg_table() -> (table: Vec<Configuration>)
    ensures
        table@ == jpeg_rows(),
{
    let mut table: Vec<Configuration> = Vec::new();
    table.push(whole("19k_8bpp", "bricks-gray.jpeg", 19_200, 100));
    table.push(whole("30k_24bpp_progressive", "peacock.progressive.jpeg", 30_000, 50));
    table.push(whole("30k_24bpp_sequential", "peacock.default.jpeg", 30_000, 50));
    table.push(whole("77k_24bpp", "bricks-color.jpeg", 76_800, 30));
    table.push(whole("552k_24bpp_420", "hibiscus.regular.jpeg", 551_616, 5));
    table.push(whole("552k_24bpp_444", "hibiscus.primitive.jpeg", 551_616, 5));
    table.push(whole("4002k_24bpp", "harvesters.jpeg", 4_002_940, 1));
    assert(table@ =~= jpeg_rows());
    table
}

fn png_table() -> (table: Vec<Configuration>)
    ensures
        table@ == png_rows(),
{
    let mut table: Vec<Configuration> = Vec::new();
    table.push(whole("19k_8bpp", "bricks-gray.no-ancillary.png", 19_200, 50));
    table.push(whole("40k_24bpp", "hat.png", 40_320, 30));
    table.push(whole("77k_8bpp", "bricks-dither.png", 76_800, 30));
    table.push(whole("552k_32bpp_verify_checksum", "hibiscus.primitive.png", 551_616, 4));
    table.push(whole("4002k_24bpp", "harvesters.png", 4_002_940, 1));
    assert(table@ =~= png_rows());
    table
}

/// The configurations of a family, in the order in which they are run.
pub fn configurations(codec: Codec) -> (table: Vec<Configuration>)
    ensures
        table@ == rows(codec),
{
    match codec {
        Codec::Deflate => deflate_table(),
        Codec::Gif => gif_table(),
        Codec::Jpeg => jpeg_table(),
        Codec::Png => png_table(),
    }
}

/// The image that a run of the table-free GIF decoder decodes.
pub fn fixed_image(run: FixedRun) -> (image: FixedImage)
    ensures
        image == harvesters(run),
{
    let plain = match run {
        FixedRun::Plain => true,
        FixedRun::Labelled => false,
    };
    FixedImage {
        dir: if plain {
            LEGACY_DATA_DIR
        } else {
            DATA_DIR
        },
        file: "harvesters.gif",
        width: 1165,
        height: 859,
        bytes_per_pixel: 3,
        color_table_element_count: 256,
        color_table_offset: 13,
        graphic_block_offset: 782,
        first_pixel: 1,
        last_pixel: 3,
        mark: if plain {
            0
        } else {
            0xFE
        },
        reps: 50,
        labelled: !plain,
    }
}

/// The number of bytes that a decode of `image` fills; `None` when a `usize`
/// cannot hold it.
pub fn buffer_len(image: &FixedImage) -> (r: Option<usize>)
    ensures
        r == if image_len(*image) <= usize::MAX {
            Some(image_len(*image) as usize)
        } else {
            None::<usize>
        },
{
    assert(image.width * image.height <= 0xffff_ffff * 0xffff_ffff) by (nonlinear_arith)
        requires
            image.width <= 0xffff_ffff,
            image.height <= 0xffff_ffff,
    ;
    let area: u64 = image.width as u64 * image.height as u64;
    assert(area * image.bytes_per_pixel <= 0xffff_ffff * 0xffff_ffff * 0xffff_ffff)
        by (nonlinear_arith)
        requires
            area <= 0xffff_ffff * 0xffff_ffff,
            image.bytes_per_pixel <= 0xffff_ffff,
    ;
    let len: u128 = area as u128 * image.bytes_per_pixel as u128;
    if len <= usize::MAX as u128 {
        Some(len as usize)
    } else {
        None
    }
}

/// The number of rounds over a family's configurations: one warm-up and the
/// measured ones.
pub fn rounds() -> (n: u64)
    ensures
        n == 1 + REPS,
{
    1 + REPS
}

/// Whether the round of this number, counted from 0, is the warm-up.
pub fn is_warm_up(round: u64) -> (b: bool)
    ensures
        b == (round == 0),
{
    round == 0
}

/// Every configuration keeps within what the harness can hold and count, and
/// every family has its number of configurations.
pub proof fn lemma_rows_within_limits(codec: Codec)
    ensures
        rows(codec).len() == table_len(codec),
        forall|i: int|
            0 <= i < rows(codec).len() ==> within_limits(codec, #[trigger] rows(codec)[i]),
{
    match codec {
        Codec::Deflate => {
            assert(within_limits(Codec::Deflate, deflate_rows()[0]));
            assert(within_limits(Codec::Deflate, deflate_rows()[1]));
            assert(within_limits(Codec::Deflate, deflate_rows()[2]));
        },
        Codec::Gif => {
            assert(within_limits(Codec::Gif, gif_rows()[0]));
            assert(within_limits(Codec::Gif, gif_rows()[1]));
            assert(within_limits(Codec::Gif, gif_rows()[2]));
            assert(within_limits(Codec::Gif, gif_rows()[3]));
            assert(within_limits(Codec::Gif, gif_rows()[4]));
            assert(within_limits(Codec::Gif, gif_rows()[5]));
            assert(within_limits(Codec::Gif, gif_rows()[6]));
            assert(within_limits(Codec::Gif, gif_rows()[7]));
            assert(within_limits(Codec::Gif, gif_rows()[8]));
        },
        Codec::Jpeg => {
            assert(within_limits(Codec::Jpeg, jpeg_rows()[0]));
            assert(within_limits(Codec::Jpeg, jpeg_rows()[1]));
            assert(within_limits(Codec::Jpeg, jpeg_rows()[2]));
            assert(within_limits(Codec::Jpeg, jpeg_rows()[3]));
            assert(within_limits(Codec::Jpeg, jpeg_rows()[4]));
            assert(within_limits(Codec::Jpeg, jpeg_rows()[5]));
            assert(within_limits(Codec::Jpeg, jpeg_rows()[6]));
        },
        Codec::Png => {
            assert(within_limits(Codec::Png, png_rows()[0]));
            assert(within_limits(Codec::Png, png_rows()[1]));
            assert(within_limits(Codec::Png, png_rows()[2]));
            assert(within_limits(Codec::Png, png_rows()[3]));
            assert(within_limits(Codec::Png, png_rows()[4]));
        },
    }
}

/// The image of either run fills a buffer of the harness's length at most,
/// its two offsets are in order, and the mark of the run differs from both
/// bytes that a decode is held to.
pub proof fn lemma_fixed_image_fits(run: FixedRun)
    ensures
        0 < image_len(harvesters(run)) <= OUTPUT_BUFFER_LEN,
        harvesters(run).color_table_offset <= harvesters(run).graphic_block_offset,
        harvesters(run).reps > 0,
        harvesters(run).mark != harvesters(run).first_pixel,
        harvesters(run).mark != harvesters(run).last_pixel,
{
}

/// The encoded data that a configuration names in the contents of its
/// fixture; `None` when the file is too short to hold it.
pub fn source<'a>(c: &Configuration, file: &'a [u8]) -> (r: Option<&'a [u8]>)
    ensures
        match r {
            Some(src) => source_in(*c, file@) == Some(src@),
            None => source_in(*c, file@) is None,
        },
{
    let end: usize = match c.end {
        Some(end) => end,
        None => file.len(),
    };
    if c.start <= end && end <= file.len() {
        Some(slice_subrange(file, c.start, end))
    } else {
        None
    }
}

} // verus!
