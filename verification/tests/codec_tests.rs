use decode_bench::codec::{decode, wants_32_bit_color, Codec};
use decode_bench::error::DecodeError;
use std::borrow::Cow;
use std::io::Write;

fn deflate(data: &[u8]) -> Vec<u8> {
    let mut encoder =
        flate2::write::DeflateEncoder::new(Vec::new(), flate2::Compression::default());
    encoder.write_all(data).unwrap();
    encoder.finish().unwrap()
}

fn small_gif() -> Vec<u8> {
    let mut file = Vec::new();
    {
        let mut encoder = gif::Encoder::new(&mut file, 2, 2, &[1, 2, 3, 4, 5, 6]).unwrap();
        let mut frame = gif::Frame::default();
        frame.width = 2;
        frame.height = 2;
        frame.buffer = Cow::Owned(vec![1, 0, 0, 1]);
        encoder.write_frame(&frame).unwrap();
    }
    file
}

fn small_png() -> Vec<u8> {
    let mut file = Vec::new();
    {
        let mut encoder = png::Encoder::new(&mut file, 1, 1);
        encoder.set_color(png::ColorType::RGB);
        encoder.set_depth(png::BitDepth::Eight);
        let mut writer = encoder.write_header().unwrap();
        writer.write_image_data(&[1, 2, 3]).unwrap();
    }
    file
}

#[test]
fn codec_scales_and_labels() {
    assert_eq!(Codec::Deflate.iter_scale(), 20);
    assert_eq!(Codec::Gif.iter_scale(), 10);
    assert_eq!(Codec::Jpeg.iter_scale(), 50);
    assert_eq!(Codec::Png.iter_scale(), 50);
    assert_eq!(Codec::Deflate.label(), "rust_deflate_decode_");
    assert_eq!(Codec::Gif.label(), "rust_gif_decode_");
    assert_eq!(Codec::Jpeg.label(), "rust_jpeg_decode_image_");
    assert_eq!(Codec::Png.label(), "rust_png_decode_image_");
    assert_eq!(Codec::Deflate.install_verb(), "get");
    assert_eq!(Codec::Gif.install_verb(), "get");
    assert_eq!(Codec::Jpeg.install_verb(), "install");
    assert_eq!(Codec::Png.install_verb(), "get");
}

#[test]
fn codec_wants_32_bit_color_for_names_that_end_in_bgra() {
    assert!(wants_32_bit_color("10k_bgra"));
    assert!(wants_32_bit_color("_bgra"));
    assert!(!wants_32_bit_color("10k_indexed"));
    assert!(!wants_32_bit_color("bgra"));
    assert!(!wants_32_bit_color("10k_bgra_"));
    assert!(!wants_32_bit_color("10kbgra"));
    assert!(!wants_32_bit_color("10k_BGRA"));
    assert!(!wants_32_bit_color(""));
    assert!(wants_32_bit_color("gr\u{fc}n_bgra"));
    for name in ["1k_bw", "x_bgra", "_bgr", "a_bgrb", "\u{fc}_bgra"] {
        assert_eq!(wants_32_bit_color(name), name.ends_with("_bgra"));
    }
}

#[test]
fn codec_decode_runs_the_deflate_adapter_on_the_first_buffer() {
    let src = deflate(b"hello hello hello");
    let mut dst0 = vec![0u8; 64];
    let mut dst1 = vec![7u8; 64];
    assert_eq!(decode(Codec::Deflate, &mut dst0, &mut dst1, &src, false), Ok(17));
    assert_eq!(&dst0[..17], b"hello hello hello");
    assert!(dst1.iter().all(|&b| b == 7));
}

#[test]
fn codec_decode_runs_the_gif_adapter_with_the_colour_flag() {
    let src = small_gif();
    let mut dst0 = vec![0u8; 64];
    let mut dst1 = vec![7u8; 64];
    assert_eq!(decode(Codec::Gif, &mut dst0, &mut dst1, &src, false), Ok(4));
    assert_eq!(&dst0[..4], &[1, 0, 0, 1]);
    assert_eq!(decode(Codec::Gif, &mut dst0, &mut dst1, &src, true), Ok(16));
    assert_eq!(&dst0[..8], &[4, 5, 6, 0xff, 1, 2, 3, 0xff]);
    assert!(dst1.iter().all(|&b| b == 7));
}

#[test]
fn codec_decode_runs_the_png_adapter_on_both_buffers() {
    let src = small_png();
    let mut dst0 = vec![0u8; 8];
    let mut dst1 = vec![7u8; 8];
    assert_eq!(decode(Codec::Png, &mut dst0, &mut dst1, &src, false), Ok(4));
    assert_eq!(&dst0[..3], &[1, 2, 3]);
    assert_eq!(dst1, [3, 2, 1, 0xff, 7, 7, 7, 7]);
}

#[test]
fn codec_decode_runs_the_jpeg_adapter() {
    let mut dst0 = vec![0u8; 8];
    let mut dst1 = vec![7u8; 8];
    assert_eq!(
        decode(Codec::Jpeg, &mut dst0, &mut dst1, &small_png(), false),
        Err(DecodeError::Rejected)
    );
}

#[test]
fn codec_decode_with_the_wrong_adapter_is_rejected() {
    let mut dst0 = vec![0u8; 64];
    let mut dst1 = vec![0u8; 64];
    assert_eq!(
        decode(Codec::Png, &mut dst0, &mut dst1, &small_gif(), false),
        Err(DecodeError::Rejected)
    );
    assert_eq!(
        decode(Codec::Gif, &mut dst0, &mut dst1, &small_png(), false),
        Err(DecodeError::Rejected)
    );
}
