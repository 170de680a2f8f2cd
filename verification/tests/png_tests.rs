use decode_bench::error::DecodeError;
use decode_bench::pixel::LayoutError;
use decode_bench::png_frame::{decode, normalize, ColorType, Frame};

fn png_of(width: u32, height: u32, color: png::ColorType, data: &[u8]) -> Vec<u8> {
    let mut file = Vec::new();
    {
        let mut encoder = png::Encoder::new(&mut file, width, height);
        encoder.set_color(color);
        encoder.set_depth(png::BitDepth::Eight);
        let mut writer = encoder.write_header().unwrap();
        writer.write_image_data(data).unwrap();
    }
    file
}

#[test]
fn png_decode_grayscale_needs_no_conversion() {
    let data: Vec<u8> = (1..=12).collect();
    let src = png_of(4, 3, png::ColorType::Grayscale, &data);
    let mut dst0 = vec![0xaau8; 32];
    let mut dst1 = vec![0xbbu8; 32];
    assert_eq!(decode(&mut dst0, &mut dst1, &src), Ok(12));
    assert_eq!(&dst0[..12], &data[..]);
    assert!(dst0[12..].iter().all(|&b| b == 0xaa));
    assert!(dst1.iter().all(|&b| b == 0xbb));
}

#[test]
fn png_decode_rgb_writes_bgra_to_the_second_buffer() {
    let data = [1u8, 2, 3, 4, 5, 6, 7, 8, 9, 10, 11, 12];
    let src = png_of(2, 2, png::ColorType::RGB, &data);
    let mut dst0 = vec![0xaau8; 32];
    let mut dst1 = vec![0xbbu8; 32];
    assert_eq!(decode(&mut dst0, &mut dst1, &src), Ok(16));
    assert_eq!(&dst0[..12], &data[..]);
    assert_eq!(
        &dst1[..16],
        &[3, 2, 1, 0xff, 6, 5, 4, 0xff, 9, 8, 7, 0xff, 12, 11, 10, 0xff]
    );
    assert!(dst1[16..].iter().all(|&b| b == 0xbb));
}

#[test]
fn png_decode_rgba_swaps_red_and_blue_in_place() {
    let data = [1u8, 2, 3, 4, 5, 6, 7, 8];
    let src = png_of(2, 1, png::ColorType::RGBA, &data);
    let mut dst0 = vec![0xaau8; 16];
    let mut dst1 = vec![0xbbu8; 16];
    assert_eq!(decode(&mut dst0, &mut dst1, &src), Ok(8));
    assert_eq!(&dst0[..8], &[3, 2, 1, 4, 7, 6, 5, 8]);
    assert!(dst0[8..].iter().all(|&b| b == 0xaa));
    assert!(dst1.iter().all(|&b| b == 0xbb));
}

#[test]
fn png_decode_of_another_layout_counts_nothing() {
    let data = [1u8, 2, 3, 4];
    let src = png_of(2, 1, png::ColorType::GrayscaleAlpha, &data);
    let mut dst0 = vec![0u8; 16];
    let mut dst1 = vec![0u8; 16];
    assert_eq!(decode(&mut dst0, &mut dst1, &src), Ok(0));
    assert_eq!(&dst0[..4], &data[..]);
}

#[test]
fn png_decode_twice_gives_the_same() {
    let data = [1u8, 2, 3, 4, 5, 6, 7, 8];
    let src = png_of(2, 1, png::ColorType::RGBA, &data);
    let mut dst0 = vec![0u8; 16];
    let mut dst1 = vec![0u8; 16];
    let first = decode(&mut dst0, &mut dst1, &src);
    let after_first = dst0.clone();
    let second = decode(&mut dst0, &mut dst1, &src);
    assert_eq!(first, Ok(8));
    assert_eq!(second, first);
    assert_eq!(dst0, after_first);
}

#[test]
fn png_decode_rejects_what_is_no_png() {
    let mut dst0 = vec![0u8; 16];
    let mut dst1 = vec![0xbbu8; 16];
    assert_eq!(decode(&mut dst0, &mut dst1, b"no PNG at all"), Err(DecodeError::Rejected));
    assert!(dst1.iter().all(|&b| b == 0xbb));
}

#[test]
fn png_decode_rejects_a_truncated_file() {
    let data: Vec<u8> = (0..48).collect();
    let whole = png_of(4, 4, png::ColorType::RGB, &data);
    let src = &whole[..whole.len() - 20];
    let mut dst0 = vec![0u8; 64];
    let mut dst1 = vec![0u8; 64];
    assert_eq!(decode(&mut dst0, &mut dst1, src), Err(DecodeError::Rejected));
}

#[test]
fn png_decode_fails_when_the_first_buffer_is_too_small() {
    let data: Vec<u8> = (1..=12).collect();
    let src = png_of(4, 3, png::ColorType::Grayscale, &data);
    let mut dst0 = vec![0u8; 11];
    let mut dst1 = vec![0u8; 32];
    assert_eq!(decode(&mut dst0, &mut dst1, &src), Err(DecodeError::Rejected));
}

#[test]
fn png_decode_stops_when_the_second_buffer_is_too_small() {
    let data = [1u8, 2, 3, 4, 5, 6];
    let src = png_of(2, 1, png::ColorType::RGB, &data);
    let mut dst0 = vec![0u8; 16];
    let mut dst1 = vec![0xbbu8; 7];
    assert_eq!(decode(&mut dst0, &mut dst1, &src), Err(DecodeError::BufferTooSmall));
    assert!(dst1.iter().all(|&b| b == 0xbb));
}

#[test]
fn png_normalize_grayscale_returns_the_size() {
    let mut dst0 = [1u8, 2, 3];
    let mut dst1 = [0u8; 4];
    let frame = Frame { num_bytes: 3, color_type: ColorType::Grayscale };
    assert_eq!(normalize(frame, &mut dst0, &mut dst1), Ok(3));
    assert_eq!(dst0, [1, 2, 3]);
    assert_eq!(dst1, [0, 0, 0, 0]);
}

#[test]
fn png_normalize_rgb_counts_four_bytes_for_three() {
    let mut dst0 = [1u8, 2, 3, 4, 5, 6, 7];
    let mut dst1 = [9u8; 10];
    let frame = Frame { num_bytes: 6, color_type: ColorType::Rgb };
    assert_eq!(normalize(frame, &mut dst0, &mut dst1), Ok(8));
    assert_eq!(dst1, [3, 2, 1, 0xff, 6, 5, 4, 0xff, 9, 9]);
    assert_eq!(dst0, [1, 2, 3, 4, 5, 6, 7]);
}

#[test]
fn png_normalize_rgb_rejects_a_size_that_is_not_triples() {
    let mut dst0 = [1u8, 2, 3, 4];
    let mut dst1 = [9u8; 8];
    let frame = Frame { num_bytes: 4, color_type: ColorType::Rgb };
    assert_eq!(
        normalize(frame, &mut dst0, &mut dst1),
        Err(DecodeError::Layout(LayoutError::SourceNotTriples))
    );
    assert_eq!(dst1, [9u8; 8]);
}

#[test]
fn png_normalize_rejects_a_frame_beyond_the_buffers() {
    let mut dst0 = [1u8, 2, 3, 4];
    let mut dst1 = [9u8; 8];
    let long = Frame { num_bytes: 6, color_type: ColorType::Rgb };
    assert_eq!(normalize(long, &mut dst0, &mut dst1), Err(DecodeError::BufferTooSmall));
    let wide = Frame { num_bytes: 5, color_type: ColorType::Rgba };
    assert_eq!(normalize(wide, &mut dst0, &mut dst1), Err(DecodeError::BufferTooSmall));
    let mut short = [9u8; 3];
    let rgb = Frame { num_bytes: 3, color_type: ColorType::Rgb };
    assert_eq!(normalize(rgb, &mut dst0, &mut short), Err(DecodeError::BufferTooSmall));
}

#[test]
fn png_normalize_rgba_leaves_a_partial_group_alone() {
    let mut dst0 = [1u8, 2, 3, 4, 5, 6, 7, 8];
    let mut dst1 = [0u8; 1];
    let frame = Frame { num_bytes: 7, color_type: ColorType::Rgba };
    assert_eq!(normalize(frame, &mut dst0, &mut dst1), Ok(7));
    assert_eq!(dst0, [3, 2, 1, 4, 5, 6, 7, 8]);
}

#[test]
fn png_normalize_of_other_layouts_counts_nothing() {
    let mut dst0 = [1u8, 2, 3, 4];
    let mut dst1 = [9u8; 8];
    let indexed = Frame { num_bytes: 4, color_type: ColorType::Indexed };
    assert_eq!(normalize(indexed, &mut dst0, &mut dst1), Ok(0));
    let gray_alpha = Frame { num_bytes: 4, color_type: ColorType::GrayscaleAlpha };
    assert_eq!(normalize(gray_alpha, &mut dst0, &mut dst1), Ok(0));
    assert_eq!(dst0, [1, 2, 3, 4]);
}
