use decode_bench::error::DecodeError;
use decode_bench::fixtures::{source, Configuration};
use decode_bench::inflate::decode;
use std::io::Write;

fn text(len: usize) -> Vec<u8> {
    let words = b"But soft, what light through yonder window breaks? ";
    (0..len).map(|i| words[i % words.len()]).collect()
}

fn deflate(data: &[u8]) -> Vec<u8> {
    let mut encoder =
        flate2::write::DeflateEncoder::new(Vec::new(), flate2::Compression::default());
    encoder.write_all(data).unwrap();
    encoder.finish().unwrap()
}

fn gzip(data: &[u8]) -> Vec<u8> {
    let mut encoder = flate2::write::GzEncoder::new(Vec::new(), flate2::Compression::default());
    encoder.write_all(data).unwrap();
    encoder.finish().unwrap()
}

#[test]
fn inflate_decode_counts_the_942_bytes_of_a_1k_stream() {
    let plain = text(942);
    let src = deflate(&plain);
    let mut dst = vec![0u8; 64 * 1024];
    assert_eq!(decode(&mut dst, &src), Ok(942));
    assert_eq!(&dst[..942], &plain[..]);
    assert_eq!(dst.len(), 64 * 1024);
}

#[test]
fn inflate_decode_of_the_stream_inside_a_gzip_file() {
    let plain = text(942);
    let file = gzip(&plain);
    let c = Configuration {
        name: "1k",
        dir: "test/data",
        file: "text.gz",
        start: 10,
        end: Some(file.len() - 8),
        want_num_bytes: 942,
        iters_unscaled: 1,
    };
    let src = source(&c, &file).unwrap();
    assert_eq!(src.len(), file.len() - 18);
    let mut dst = vec![0u8; 4096];
    assert_eq!(decode(&mut dst, src), Ok(942));
}

#[test]
fn inflate_decode_twice_gives_the_same() {
    let plain = text(5000);
    let src = deflate(&plain);
    let mut dst = vec![0u8; 8192];
    let first = decode(&mut dst, &src);
    let after_first = dst.clone();
    let second = decode(&mut dst, &src);
    assert_eq!(first, Ok(5000));
    assert_eq!(second, first);
    assert_eq!(dst, after_first);
}

#[test]
fn inflate_decode_needs_room_for_the_whole_stream() {
    let plain = text(942);
    let src = deflate(&plain);
    let mut dst = vec![0u8; 100];
    assert_eq!(decode(&mut dst, &src), Err(DecodeError::BufferTooSmall));
    let mut short = vec![0u8; 941];
    assert_eq!(decode(&mut short, &src), Err(DecodeError::BufferTooSmall));
    assert_eq!(short.len(), 941);
}

#[test]
fn inflate_decode_into_a_buffer_of_exactly_the_size() {
    let plain = text(942);
    let src = deflate(&plain);
    let mut dst = vec![0u8; 942];
    assert_eq!(decode(&mut dst, &src), Ok(942));
    assert_eq!(dst, plain);
}

#[test]
fn inflate_decode_leaves_what_lies_behind_the_stream() {
    let plain = text(942);
    let src = deflate(&plain);
    let mut dst = vec![0xaau8; 2000];
    assert_eq!(decode(&mut dst, &src), Ok(942));
    assert_eq!(&dst[..942], &plain[..]);
    assert!(dst[942..].iter().all(|&b| b == 0xaa));
}

#[test]
fn inflate_decode_of_a_long_stream_lays_piece_behind_piece() {
    let mut state = 0x2545_f491_4f6c_dd1du64;
    let plain: Vec<u8> = (0..300_000)
        .map(|_| {
            state ^= state << 13;
            state ^= state >> 7;
            state ^= state << 17;
            (state >> 32) as u8
        })
        .collect();
    let src = deflate(&plain);
    assert!(src.len() > 64 * 1024);
    let mut dst = vec![0x55u8; 300_100];
    assert_eq!(decode(&mut dst, &src), Ok(300_000));
    assert_eq!(&dst[..300_000], &plain[..]);
    assert!(dst[300_000..].iter().all(|&b| b == 0x55));
}

#[test]
fn inflate_decode_of_an_empty_stream_counts_nothing() {
    let src = deflate(&[]);
    let mut dst = vec![0u8; 16];
    assert_eq!(decode(&mut dst, &src), Ok(0));
}

#[test]
fn inflate_decode_without_room() {
    let mut dst: Vec<u8> = Vec::new();
    assert_eq!(decode(&mut dst, &deflate(&text(942))), Err(DecodeError::BufferTooSmall));
    assert_eq!(decode(&mut dst, &deflate(&[])), Ok(0));
    assert_eq!(decode(&mut dst, &[0xff, 0xff]), Err(DecodeError::Rejected));
}

#[test]
fn inflate_decode_ignores_what_follows_the_stream() {
    let mut src = deflate(&text(942));
    src.extend_from_slice(b"trailing bytes that are no part of the stream");
    let mut dst = vec![0u8; 4096];
    assert_eq!(decode(&mut dst, &src), Ok(942));
}

#[test]
fn inflate_decode_rejects_a_corrupt_stream() {
    let src = [0xffu8, 0xff, 0xff, 0xff];
    let mut dst = vec![0u8; 4096];
    assert_eq!(decode(&mut dst, &src), Err(DecodeError::Rejected));
    assert_eq!(dst.len(), 4096);
}

#[test]
fn inflate_decode_rejects_a_truncated_stream() {
    let whole = deflate(&text(942));
    let src = &whole[..whole.len() / 2];
    let mut dst = vec![0u8; 4096];
    assert_eq!(decode(&mut dst, src), Err(DecodeError::Rejected));
}

#[test]
fn inflate_decode_rejects_no_input_at_all() {
    let mut dst = vec![0u8; 16];
    assert_eq!(decode(&mut dst, &[]), Err(DecodeError::Rejected));
}
