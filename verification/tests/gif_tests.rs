use decode_bench::error::DecodeError;
use decode_bench::gif_frames::decode;
use std::borrow::Cow;

const PALETTE: [u8; 12] = [10, 20, 30, 40, 50, 60, 70, 80, 90, 100, 110, 120];

fn frame(width: u16, height: u16, pixels: Vec<u8>) -> gif::Frame<'static> {
    let mut frame = gif::Frame::default();
    frame.width = width;
    frame.height = height;
    frame.buffer = Cow::Owned(pixels);
    frame
}

fn gif_of(width: u16, height: u16, frames: &[gif::Frame<'static>]) -> Vec<u8> {
    let mut file = Vec::new();
    {
        let mut encoder = gif::Encoder::new(&mut file, width, height, &PALETTE).unwrap();
        for frame in frames {
            encoder.write_frame(frame).unwrap();
        }
    }
    file
}

fn thumbnail() -> Vec<u8> {
    let mut pixels = vec![0u8; 32 * 32];
    pixels[0] = 1;
    pixels[1] = 2;
    pixels[1023] = 1;
    gif_of(32, 32, &[frame(32, 32, pixels)])
}

#[test]
fn gif_decode_32_by_32_indexed_gives_1024_bytes_with_both_ends_1() {
    let src = thumbnail();
    let mut dst = vec![0xaau8; 2048];
    assert_eq!(decode(&mut dst, &src, false), Ok(1024));
    assert_eq!(dst[0], 1);
    assert_eq!(dst[1], 2);
    assert_eq!(dst[2], 0);
    assert_eq!(dst[1023], 1);
}

#[test]
fn gif_decode_leaves_what_lies_beyond_the_frame() {
    let src = thumbnail();
    let mut dst = vec![0xaau8; 2048];
    assert_eq!(decode(&mut dst, &src, false), Ok(1024));
    assert!(dst[1024..].iter().all(|&b| b == 0xaa));
    assert_eq!(dst.len(), 2048);
}

#[test]
fn gif_decode_as_32_bit_color_gives_four_bytes_per_pixel() {
    let src = thumbnail();
    let mut dst = vec![0u8; 4096];
    assert_eq!(decode(&mut dst, &src, true), Ok(4096));
    assert_eq!(&dst[0..4], &[40, 50, 60, 0xff]);
    assert_eq!(&dst[4..8], &[70, 80, 90, 0xff]);
    assert_eq!(&dst[8..12], &[10, 20, 30, 0xff]);
    assert_eq!(&dst[4092..4096], &[40, 50, 60, 0xff]);
}

#[test]
fn gif_decode_into_a_buffer_of_exactly_the_frame_size() {
    let src = thumbnail();
    let mut dst = vec![0u8; 1024];
    assert_eq!(decode(&mut dst, &src, false), Ok(1024));
}

#[test]
fn gif_decode_lays_every_frame_behind_the_one_before() {
    let first = frame(4, 4, vec![1u8; 16]);
    let second = frame(2, 2, vec![3u8; 4]);
    let src = gif_of(4, 4, &[first, second]);
    let mut dst = vec![0u8; 64];
    assert_eq!(decode(&mut dst, &src, false), Ok(20));
    assert_eq!(&dst[..16], &[1u8; 16]);
    assert_eq!(&dst[16..20], &[3, 3, 3, 3]);
    assert_eq!(&dst[20..], &[0u8; 44]);
    let mut wide = vec![0u8; 80];
    assert_eq!(decode(&mut wide, &src, true), Ok(80));
    assert_eq!(&wide[..4], &[40, 50, 60, 0xff]);
    assert_eq!(&wide[64..68], &[100, 110, 120, 0xff]);
}

#[test]
fn gif_decode_needs_room_for_all_frames_together() {
    let first = frame(4, 4, vec![1u8; 16]);
    let second = frame(2, 2, vec![3u8; 4]);
    let src = gif_of(4, 4, &[first, second]);
    let mut dst = vec![0u8; 19];
    assert_eq!(decode(&mut dst, &src, false), Err(DecodeError::BufferTooSmall));
    assert_eq!(&dst[..16], &[1u8; 16]);
    assert_eq!(&dst[16..], &[0, 0, 0]);
    let mut exact = vec![0u8; 20];
    assert_eq!(decode(&mut exact, &src, false), Ok(20));
}

#[test]
fn gif_decode_twice_gives_the_same() {
    let src = thumbnail();
    let mut dst = vec![0u8; 4096];
    let first = decode(&mut dst, &src, true);
    let after_first = dst.clone();
    let second = decode(&mut dst, &src, true);
    assert_eq!(first, Ok(4096));
    assert_eq!(second, first);
    assert_eq!(dst, after_first);
}

#[test]
fn gif_decode_stops_at_a_frame_that_does_not_fit() {
    let src = thumbnail();
    let mut dst = vec![0x55u8; 1023];
    assert_eq!(decode(&mut dst, &src, false), Err(DecodeError::BufferTooSmall));
    assert!(dst.iter().all(|&b| b == 0x55));
    let mut narrow = vec![0u8; 1024];
    assert_eq!(decode(&mut narrow, &src, true), Err(DecodeError::BufferTooSmall));
}

#[test]
fn gif_decode_reads_the_frames_before_the_one_that_does_not_fit() {
    let first = frame(2, 2, vec![2u8; 4]);
    let second = frame(4, 4, vec![1u8; 16]);
    let src = gif_of(4, 4, &[first, second]);
    let mut dst = vec![0u8; 8];
    assert_eq!(decode(&mut dst, &src, false), Err(DecodeError::BufferTooSmall));
    assert_eq!(dst, [2, 2, 2, 2, 0, 0, 0, 0]);
}

#[test]
fn gif_decode_rejects_what_is_no_gif() {
    let mut dst = vec![0u8; 64];
    assert_eq!(decode(&mut dst, b"this is not a GIF file", false), Err(DecodeError::Rejected));
    assert_eq!(decode(&mut dst, &[], false), Err(DecodeError::Rejected));
}

#[test]
fn gif_decode_rejects_a_truncated_file() {
    let whole = thumbnail();
    let src = &whole[..whole.len() - 20];
    let mut dst = vec![0u8; 2048];
    assert_eq!(decode(&mut dst, src, false), Err(DecodeError::Rejected));
}

#[test]
fn gif_decode_rejects_a_file_without_its_trailer() {
    let whole = thumbnail();
    let src = &whole[..whole.len() - 1];
    let mut dst = vec![0u8; 2048];
    assert_eq!(decode(&mut dst, src, false), Err(DecodeError::Rejected));
}
