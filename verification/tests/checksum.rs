use ekko::checksum::{checksum_v4, checksum_v6};

fn patched(data: &[u8], checksum: u16) -> Vec<u8> {
    let mut bytes = data.to_vec();
    bytes[2] = (checksum >> 8) as u8;
    bytes[3] = (checksum & 0xFF) as u8;
    bytes
}

#[test]
fn checksum_v4_of_nothing_is_all_ones() {
    assert_eq!(checksum_v4(&[]), 0xFFFF);
}

#[test]
fn checksum_v4_of_echo_header() {
    // 0x0800 + 0x0000 + 0x1234 + 0x0001 = 0x1A35
    let data = [8u8, 0, 0, 0, 0x12, 0x34, 0x00, 0x01];
    assert_eq!(checksum_v4(&data), 0xFFFF - 0x1A35);
}

#[test]
fn checksum_v4_folds_the_carry_back() {
    // 0x0001 + 0xF203 + 0xF4F5 + 0xF6F7 = 0x2DDF0, folded 0xDDF2
    let data = [0x00u8, 0x01, 0xF2, 0x03, 0xF4, 0xF5, 0xF6, 0xF7];
    assert_eq!(checksum_v4(&data), 0x220D);
}

#[test]
fn checksum_v4_pads_an_odd_trailing_byte_with_zero() {
    assert_eq!(checksum_v4(&[0x12, 0x34, 0x56]), checksum_v4(&[0x12, 0x34, 0x56, 0x00]));
    assert_eq!(checksum_v4(&[0x12, 0x34, 0x56]), 0xFFFF - (0x1234 + 0x5600));
    assert_eq!(checksum_v4(&[0xAB]), 0xFFFF - 0xAB00);
}

#[test]
fn checksum_v4_of_a_sum_that_folds_twice() {
    // 0xFFFF + 0xFFFF = 0x1FFFE, folded 0xFFFF
    assert_eq!(checksum_v4(&[0xFF, 0xFF, 0xFF, 0xFF]), 0);
    // 0xFFFF + 0x0001 = 0x10000, folded 0x0001
    assert_eq!(checksum_v4(&[0xFF, 0xFF, 0x00, 0x01]), 0xFFFE);
}

#[test]
fn checksum_v4_of_data_too_long_for_a_32_bit_sum() {
    // 150_000 words of 0xFFFF add up to more than 32 bits hold; the sum is a
    // positive multiple of 0xFFFF, which folds to 0xFFFF.
    let data = vec![0xFFu8; 300_000];
    assert_eq!(checksum_v4(&data), 0);
    // One more word of 0x0102 moves the folded sum to 0x0102.
    let mut longer = data.clone();
    longer.push(0x01);
    longer.push(0x02);
    assert_eq!(checksum_v4(&longer), 0xFFFF - 0x0102);
}

#[test]
fn checksum_v4_self_check_gives_zero() {
    let mut data = vec![8u8, 0, 0xAA, 0xBB, 0x12, 0x34, 0x00, 0x07, 1, 2, 3, 4, 5];
    data[2] = 0;
    data[3] = 0;
    let checksum = checksum_v4(&data);
    assert_eq!(checksum_v4(&patched(&data, checksum)), 0);
}

#[test]
fn checksum_v4_self_check_of_all_zero_data() {
    let data = [0u8; 8];
    let checksum = checksum_v4(&data);
    assert_eq!(checksum, 0xFFFF);
    assert_eq!(checksum_v4(&patched(&data, checksum)), 0);
}

#[test]
fn checksum_v6_adds_the_pseudo_header() {
    let data = [128u8, 0, 0, 0, 0x12, 0x34, 0x00, 0x01];
    let src = [1u16, 2, 3, 4, 5, 6, 7, 8];
    let dst = [0u16; 8];
    // 0x8000 + 0x1234 + 0x0001 = 0x9235; segments 36; length 24; next header 58
    assert_eq!(checksum_v6(&data, (src, dst), 24), 0xFFFF - (0x9235 + 36 + 24 + 58));
}

#[test]
fn checksum_v6_of_nothing_is_the_complement_of_the_pseudo_header() {
    let src = [0u16; 8];
    let dst = [0u16; 8];
    assert_eq!(checksum_v6(&[], (src, dst), 0), 0xFFFF - 58);
}

#[test]
fn checksum_v6_folds_large_segments_and_length() {
    let src = [0xFFFFu16; 8];
    let dst = [0xFFFFu16; 8];
    // 16 * 0xFFFF folds to 0xFFFF, which adds nothing to a positive sum;
    // the length 0x0001_0000 folds to 1.
    assert_eq!(checksum_v6(&[], (src, dst), 0x0001_0000), 0xFFFF - (58 + 1));
    assert_eq!(checksum_v6(&[], (src, dst), u32::MAX), 0xFFFF - 58);
}

#[test]
fn checksum_v6_self_check_gives_zero() {
    let src = [0x2001u16, 0x0db8, 0, 0, 0, 0, 0, 1];
    let dst = [0x2001u16, 0x0db8, 0, 0, 0, 0, 0, 2];
    let data = [128u8, 0, 0, 0, 0xBE, 0xEF, 0x00, 0x2A, 9, 8, 7];
    let checksum = checksum_v6(&data, (src, dst), 27);
    assert_eq!(checksum_v6(&patched(&data, checksum), (src, dst), 27), 0);
}
