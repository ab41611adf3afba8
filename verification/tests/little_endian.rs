use session_auth::little_endian::{i128_from_le_bytes, i128_to_le_bytes};

#[test]
fn le_bytes_match_std() {
    for x in [0i128, 1, -1, 255, 256, i128::MAX, i128::MIN, 0x0102_0304_0506_0708_090a_0b0c_0d0e_0f10] {
        assert_eq!(i128_to_le_bytes(x), x.to_le_bytes());
        assert_eq!(i128_from_le_bytes(x.to_le_bytes()), x);
    }
}

#[test]
fn le_bytes_of_one_hundred_and_seventy() {
    let mut expected = [0u8; 16];
    expected[0] = 170;
    assert_eq!(i128_to_le_bytes(170), expected);
    assert_eq!(i128_from_le_bytes([0xff; 16]), -1);
}
