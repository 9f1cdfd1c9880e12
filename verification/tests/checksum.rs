use am2320::crc16;

#[test]
fn test_crc16() {
    assert_eq!(crc16(&[]), 0xFFFF);
    assert_eq!(crc16(&[0x03, 0x04, 0x02, 0x36, 0x0, 0xDB]), 0x0550);
}

#[test]
fn crc16_is_deterministic() {
    let data = [0x03, 0x04, 0x02, 0x36, 0x00, 0xDB, 0x12, 0x34];
    let first = crc16(&data);
    let second = crc16(&data);
    assert_eq!(first, second);
}

#[test]
fn crc16_single_byte() {
    // One zero byte: 0xFFFF xor 0x00, then eight shift rounds.
    let mut expected: u16 = 0xFFFF;
    for _ in 0..8 {
        if expected & 1 == 1 {
            expected = (expected >> 1) ^ 0xA001;
        } else {
            expected >>= 1;
        }
    }
    assert_eq!(crc16(&[0x00]), expected);
}
