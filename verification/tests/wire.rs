use kchaos::protocol::wire::put_le;

#[test]
fn put_le_writes_lowest_byte_first() {
    let mut out: Vec<u8> = Vec::new();
    put_le(&mut out, 0x0102_0304, 4);
    assert_eq!(out, vec![0x04, 0x03, 0x02, 0x01]);
}

#[test]
fn put_le_appends_after_what_is_there() {
    let mut out: Vec<u8> = vec![0xAA, 0xBB];
    put_le(&mut out, 0x1122, 2);
    assert_eq!(out, vec![0xAA, 0xBB, 0x22, 0x11]);
}

#[test]
fn put_le_pads_a_wide_field_with_zeros() {
    let mut out: Vec<u8> = Vec::new();
    put_le(&mut out, 0x01FF, 8);
    assert_eq!(out, vec![0xFF, 0x01, 0, 0, 0, 0, 0, 0]);
}

#[test]
fn put_le_of_width_zero_writes_nothing() {
    let mut out: Vec<u8> = vec![7];
    put_le(&mut out, u64::MAX, 0);
    assert_eq!(out, vec![7]);
}

#[test]
fn put_le_cuts_off_what_does_not_fit() {
    let mut out: Vec<u8> = Vec::new();
    put_le(&mut out, 0x0102_0304_0506_0708, 3);
    assert_eq!(out, vec![0x08, 0x07, 0x06]);
}

#[test]
fn put_le_beyond_eight_bytes_is_zero() {
    let mut out: Vec<u8> = Vec::new();
    put_le(&mut out, u64::MAX, 10);
    assert_eq!(out, vec![0xFF, 0xFF, 0xFF, 0xFF, 0xFF, 0xFF, 0xFF, 0xFF, 0, 0]);
}

#[test]
fn put_le_agrees_with_the_standard_library() {
    let values: [u64; 5] = [0, 1, 255, 256, 0xDEAD_BEEF_0BAD_F00D];
    for value in values {
        let mut out: Vec<u8> = Vec::new();
        put_le(&mut out, value, 8);
        assert_eq!(out, value.to_le_bytes().to_vec());
    }
}
