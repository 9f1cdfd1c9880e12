//! Validation and decoding of the 8-byte response frame.
//!
//! A frame carries: function code, register count, humidity high/low bytes,
//! temperature high/low bytes, and the checksum low/high bytes. The frame is
//! accepted only when the header echoes the read command and the transmitted
//! checksum matches the one computed over the six payload bytes.

use vstd::prelude::*;

use crate::checksum::crc16;
use crate::checksum::crc16_spec;

verus! {

/// Describes potential errors
#[derive(Debug, Clone, Copy, PartialEq, Eq, Structural)]
pub enum Error {
    /// Something went wrong while writing to the sensor
    WriteError,
    /// Something went wrong while reading from the sensor
    ReadError,
    /// The sensor returned data that is out of spec
    SensorError,
}

/// Representation of a measurement from the sensor.
///
/// Both fields are fixed-point values in tenths of a unit, exactly as the
/// device transmits them: dividing by ten gives degrees Celsius and percent
/// relative humidity.
#[derive(Debug, Clone, Copy, PartialEq, Eq, Structural)]
pub struct Measurement {
    /// Temperature in tenths of a degree Celsius (°C)
    pub temperature: i16,
    /// Humidity in tenths of a percent (%)
    pub humidity: u16,
}

/// A 16-bit value read big-endian from two bytes.
pub open spec fn be16(hi: u8, lo: u8) -> u16 {
    ((hi as u16) << 8) | (lo as u16)
}

/// A 16-bit value read little-endian from two bytes.
pub open spec fn le16(lo: u8, hi: u8) -> u16 {
    (lo as u16) | ((hi as u16) << 8)
}

/// The frame's first byte must echo the function code `0x03` and its second
/// byte the register count `0x04`.
pub open spec fn header_ok(d: Seq<u8>) -> bool {
    d[0] == 0x03 && d[1] == 0x04
}

/// The checksum transmitted in bytes 6 and 7 (little-endian) must equal the
/// CRC-16 of the six payload bytes.
pub open spec fn checksum_ok(d: Seq<u8>) -> bool {
    crc16_spec(d.subrange(0, 6)) == le16(d[6], d[7])
}

/// The humidity carried by a frame: bytes 2 and 3, big-endian, in tenths of
/// a percent.
pub open spec fn humidity_of(d: Seq<u8>) -> u16 {
    be16(d[2], d[3])
}

/// The temperature magnitude carried by a frame: byte 4's low seven bits and
/// byte 5, big-endian. At most `0x7FFF`.
pub open spec fn temperature_magnitude(d: Seq<u8>) -> u16 {
    be16(d[4] & 0x7f, d[5])
}

/// The temperature carried by a frame, in tenths of a degree: the 15-bit
/// magnitude, negated when byte 4's high bit is set.
pub open spec fn temperature_of(d: Seq<u8>) -> i16 {
    if d[4] & 0x80 != 0 {
        (-(temperature_magnitude(d) as int)) as i16
    } else {
        temperature_magnitude(d) as i16
    }
}

/// The measurement carried by a frame.
pub open spec fn measurement_of(d: Seq<u8>) -> Measurement {
    Measurement { temperature: temperature_of(d), humidity: humidity_of(d) }
}

/// What decoding an 8-byte frame yields: `SensorError` on a bad header or a
/// checksum mismatch, the carried measurement otherwise.
pub open spec fn decode_spec(d: Seq<u8>) -> Result<Measurement, Error> {
    if !header_ok(d) {
        Err(Error::SensorError)
    } else if !checksum_ok(d) {
        Err(Error::SensorError)
    } else {
        Ok(measurement_of(d))
    }
}

/// Validates an 8-byte response frame and decodes its measurement.
pub fn decode_response(data: &[u8]) -> (r: Result<Measurement, Error>)
    requires
        data@.len() == 8,
    ensures
        r == decode_spec(data@),
{
    if data[0] != 0x03 || data[1] != 0x04 {
        return Err(Error::SensorError);
    }

    let payload = vstd::slice::slice_subrange(data, 0, 6);
    let crc = crc16(payload);
    let transmitted: u16 = (data[6] as u16) | ((data[7] as u16) << 8);
    if crc != transmitted {
        return Err(Error::SensorError);
    }

    let sign_bit = data[4] & 0x80;
    let magnitude_hi = data[4] & 0x7f;
    let magnitude: u16 = ((magnitude_hi as u16) << 8) | (data[5] as u16);
    proof {
        lemma_magnitude_fits(data@[4], data@[5]);
    }
    let temperature: i16 = if sign_bit != 0 {
        -(magnitude as i16)
    } else {
        magnitude as i16
    };

    let humidity: u16 = ((data[2] as u16) << 8) | (data[3] as u16);

    Ok(Measurement { temperature, humidity })
}

/// The 15-bit temperature magnitude always fits in a signed 16-bit value.
proof fn lemma_magnitude_fits(b4: u8, b5: u8)
    ensures
        be16(b4 & 0x7f, b5) <= 0x7fff,
{
    assert((((b4 & 0x7f) as u16) << 8) | (b5 as u16) <= 0x7fff) by (bit_vector);
}

/// A frame whose header does not echo the function code `0x03` and the
/// register count `0x04` is rejected as a sensor error, whatever its
/// checksum bytes hold.
pub proof fn lemma_bad_header_rejected(d: Seq<u8>)
    requires
        d.len() == 8,
        !header_ok(d),
    ensures
        decode_spec(d) == Err::<Measurement, Error>(Error::SensorError),
{
}

/// A frame whose transmitted checksum differs from the checksum of its six
/// payload bytes is rejected as a sensor error, even when its header is
/// correct.
pub proof fn lemma_checksum_mismatch_rejected(d: Seq<u8>)
    requires
        d.len() == 8,
        !checksum_ok(d),
    ensures
        decode_spec(d) == Err::<Measurement, Error>(Error::SensorError),
{
}

/// A frame with a correct header and a matching checksum decodes to exactly
/// the measurement it carries.
pub proof fn lemma_valid_frame_decodes(d: Seq<u8>)
    requires
        d.len() == 8,
        header_ok(d),
        checksum_ok(d),
    ensures
        decode_spec(d) == Ok::<Measurement, Error>(measurement_of(d)),
{
}

/// A frame whose byte 4 has the high bit set carries a non-positive
/// temperature whose magnitude is the 15-bit value of the remaining
/// magnitude bits; when those bits are nonzero the temperature is strictly
/// negative.
pub proof fn lemma_sign_bit_negates(d: Seq<u8>)
    requires
        d.len() == 8,
        d[4] & 0x80 != 0,
    ensures
        temperature_of(d) as int == -(temperature_magnitude(d) as int),
        temperature_magnitude(d) != 0 ==> temperature_of(d) < 0,
{
    lemma_magnitude_fits(d[4], d[5]);
}

} // verus!
