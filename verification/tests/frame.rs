use am2320::crc16;
use am2320::decode_response;
use am2320::Error;
use am2320::Measurement;

fn with_checksum(payload: [u8; 6]) -> [u8; 8] {
    let crc = crc16(&payload);
    [
        payload[0],
        payload[1],
        payload[2],
        payload[3],
        payload[4],
        payload[5],
        (crc & 0xFF) as u8,
        (crc >> 8) as u8,
    ]
}

#[test]
fn decode_canonical_fixture() {
    let frame = [0x03, 0x04, 0x02, 0x36, 0x00, 0xDB, 0x50, 0x05];
    let decoded = decode_response(&frame);
    // 0x0236 = 566 tenths of a percent; 0x00DB = 219 tenths of a degree.
    assert_eq!(
        decoded,
        Ok(Measurement {
            temperature: 219,
            humidity: 566,
        })
    );
}

#[test]
fn decode_rejects_wrong_function_code() {
    // Header byte 0 wrong, checksum valid over the altered payload: still
    // rejected.
    let frame = with_checksum([0x05, 0x04, 0x02, 0x36, 0x00, 0xDB]);
    assert_eq!(decode_response(&frame), Err(Error::SensorError));
}

#[test]
fn decode_rejects_wrong_register_count() {
    let frame = with_checksum([0x03, 0x05, 0x02, 0x36, 0x00, 0xDB]);
    assert_eq!(decode_response(&frame), Err(Error::SensorError));
}

#[test]
fn decode_rejects_corrupted_checksum() {
    // The canonical fixture with one bit flipped in the checksum's low byte.
    let frame = [0x03, 0x04, 0x02, 0x36, 0x00, 0xDB, 0x51, 0x05];
    assert_eq!(decode_response(&frame), Err(Error::SensorError));
}

#[test]
fn decode_negative_temperature() {
    // Byte 4's high bit marks a negative temperature; the magnitude is the
    // remaining 15 bits, here 0x000A = 10 tenths of a degree.
    let frame = with_checksum([0x03, 0x04, 0x00, 0x00, 0x80, 0x0A]);
    assert_eq!(
        decode_response(&frame),
        Ok(Measurement {
            temperature: -10,
            humidity: 0,
        })
    );
}

#[test]
fn decode_negative_temperature_wide_magnitude() {
    // Magnitude spread over both bytes: 0x0190 = 400 tenths, negated.
    let frame = with_checksum([0x03, 0x04, 0x01, 0x90, 0x81, 0x90]);
    assert_eq!(
        decode_response(&frame),
        Ok(Measurement {
            temperature: -400,
            humidity: 400,
        })
    );
}
