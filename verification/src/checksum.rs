//! The 16-bit cyclic redundancy check used to validate response frames.
//!
//! The device transmits a reflected CRC-16 (polynomial `0xA001`, initial
//! value `0xFFFF`) over the six payload bytes of each frame.

use vstd::prelude::*;

verus! {

/// One shift round of the reflected CRC: shift right, folding the
/// polynomial `0xA001` back in when the low bit was set.
pub open spec fn crc_shift(crc: u16) -> u16 {
    if crc & 0x0001 == 0x0001 {
        (crc >> 1) ^ 0xA001
    } else {
        crc >> 1
    }
}

/// `n` shift rounds applied to `crc`.
pub open spec fn crc_rounds(crc: u16, n: nat) -> u16
    decreases n,
{
    if n == 0 {
        crc
    } else {
        crc_shift(crc_rounds(crc, (n - 1) as nat))
    }
}

/// Folding one input byte into the accumulator: XOR it into the low
/// eight bits, then run eight shift rounds.
pub open spec fn crc_byte(crc: u16, byte: u8) -> u16 {
    crc_rounds(crc ^ (byte as u16), 8)
}

/// The checksum of a byte sequence: accumulator starts at `0xFFFF` and
/// each byte is folded in, in order. The empty sequence therefore has
/// checksum `0xFFFF`.
pub open spec fn crc16_spec(data: Seq<u8>) -> u16
    decreases data.len(),
{
    if data.len() == 0 {
        0xFFFF
    } else {
        crc_byte(crc16_spec(data.drop_last()), data.last())
    }
}

/// Computes the CRC-16 (polynomial `0xA001`, initial value `0xFFFF`)
/// of `data`.
pub fn crc16(data: &[u8]) -> (crc: u16)
    ensures
        crc == crc16_spec(data@),
{
    let mut crc: u16 = 0xFFFF;
    let mut i: usize = 0;
    while i < data.len()
        invariant
            i <= data@.len(),
            crc == crc16_spec(data@.take(i as int)),
        decreases data@.len() - i,
    {
        let byte = data[i];
        crc = crc ^ (byte as u16);
        let ghost folded = crc;
        let mut round: usize = 0;
        while round < 8
            invariant
                round <= 8,
                crc == crc_rounds(folded, round as nat),
            decreases 8 - round,
        {
            if crc & 0x0001 == 0x0001 {
                crc = (crc >> 1) ^ 0xA001;
            } else {
                crc = crc >> 1;
            }
            round = round + 1;
        }
        proof {
            assert(data@.take(i + 1).drop_last() =~= data@.take(i as int));
            assert(data@.take(i + 1).last() == data@[i as int]);
        }
        i = i + 1;
    }
    proof {
        assert(data@.take(data@.len() as int) =~= data@);
    }
    crc
}

/// The checksum is a pure function of the byte sequence: two equal
/// inputs always have equal checksums, whenever and wherever they are
/// computed.
pub proof fn lemma_checksum_deterministic(a: Seq<u8>, b: Seq<u8>)
    requires
        a == b,
    ensures
        crc16_spec(a) == crc16_spec(b),
{
}

} // verus!
