//! Decode adapters and a timing harness for benchmarking third-party
//! GIF, Deflate, JPEG and PNG decoders.
//!
//! Every adapter decodes one encoded input into a caller-supplied buffer,
//! normalises the pixel layout where the decoder's native layout differs from
//! BGRA, and reports how many bytes it produced. The harness repeats an
//! adapter, checks each pass against the expected size, and turns the totals
//! into a throughput figure and a report line.
//!
//! The decoders themselves and the clock are taken on trust: what is assumed
//! of them stands in the contracts of `inflate`, `gif_frames`, `jpeg_image`,
//! `png_frame` and `clock`, next to the calls.

pub mod error;
pub mod pixel;
pub mod inflate;
pub mod gif_frames;
pub mod jpeg_image;
pub mod png_frame;
pub mod codec;
pub mod sentinel;
pub mod throughput;
pub mod report;
pub mod clock;
pub mod harness;
pub mod fixtures;
pub mod laws;
