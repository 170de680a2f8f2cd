use decode_bench::sentinel::{arm, check, CheckError};

#[test]
fn sentinel_arm_marks_both_ends() {
    let mut dst = [9u8; 6];
    arm(&mut dst, 4, 0xfe);
    assert_eq!(dst, [0xfe, 9, 9, 0xfe, 9, 9]);
}

#[test]
fn sentinel_arm_of_a_single_byte() {
    let mut dst = [9u8; 2];
    arm(&mut dst, 1, 0);
    assert_eq!(dst, [0, 9]);
}

#[test]
fn sentinel_check_accepts_the_expected_ends() {
    let dst = [1u8, 7, 7, 3, 0];
    assert_eq!(check(&dst, 4, 4, 1, 3), Ok(()));
}

#[test]
fn sentinel_check_rejects_another_number_of_bytes() {
    let dst = [1u8, 7, 7, 3, 0];
    assert_eq!(check(&dst, 3, 4, 1, 3), Err(CheckError::WrongNumBytes));
    assert_eq!(check(&dst, 5, 4, 1, 3), Err(CheckError::WrongNumBytes));
}

#[test]
fn sentinel_check_rejects_a_wrong_first_or_last_pixel() {
    let dst = [1u8, 7, 7, 3, 0];
    assert_eq!(check(&dst, 4, 4, 2, 3), Err(CheckError::WrongPixels));
    assert_eq!(check(&dst, 4, 4, 1, 4), Err(CheckError::WrongPixels));
}

#[test]
fn sentinel_check_looks_at_the_size_first() {
    let dst = [0u8; 4];
    assert_eq!(check(&dst, 3, 4, 1, 3), Err(CheckError::WrongNumBytes));
}

#[test]
fn sentinel_an_armed_buffer_that_no_decode_touched_fails() {
    let mut dst = vec![1u8; 3_002_205];
    dst[3_002_204] = 3;
    assert_eq!(check(&dst, 3_002_205, 3_002_205, 1, 3), Ok(()));
    arm(&mut dst, 3_002_205, 0xfe);
    assert_eq!(check(&dst, 3_002_205, 3_002_205, 1, 3), Err(CheckError::WrongPixels));
}
