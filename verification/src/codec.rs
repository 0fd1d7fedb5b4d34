//! Encoding and decoding of the fixed seven-byte brightness feature report:
//! one report-id byte, four little-endian brightness bytes, two reserved
//! bytes that are always zero on write.

use vstd::prelude::*;

verus! {

/// Report id carried in byte 0 of every brightness feature report.
pub const REPORT_ID: u8 = 1;

/// Total length of a brightness feature report, in bytes.
pub const REPORT_LEN: usize = 7;

/// Error raised by the codec when a report violates the fixed layout.
#[derive(Debug, Clone, Copy, PartialEq, Eq)]
pub enum ProtocolError {
    /// A report had a length other than the required one.
    UnexpectedSize { expected: usize, actual: usize },
}

/// Value of four little-endian bytes, least significant first.
pub open spec fn le_u32_of(b: Seq<u8>) -> int
    recommends
        b.len() == 4,
{
    b[0] + b[1] * 0x100 + b[2] * 0x1_0000 + b[3] * 0x100_0000
}

/// The seven bytes of a feature report carrying `brightness`: the report id,
/// the brightness in little-endian order, and two zero reserved bytes.
pub open spec fn report_bytes(report_id: u8, brightness: u32) -> Seq<u8> {
    seq![
        report_id,
        (brightness as int % 0x100) as u8,
        (brightness as int / 0x100 % 0x100) as u8,
        (brightness as int / 0x1_0000 % 0x100) as u8,
        (brightness as int / 0x100_0000 % 0x100) as u8,
        0u8,
        0u8,
    ]
}

/// Splitting a 32-bit value into four little-endian bytes and reassembling
/// them gives the value back.
pub proof fn lemma_report_round_trip(report_id: u8, brightness: u32)
    ensures
        le_u32_of(report_bytes(report_id, brightness).subrange(1, 5)) == brightness as int,
{
    let b = report_bytes(report_id, brightness).subrange(1, 5);
    assert(b[0] == (brightness as int % 0x100) as u8);
    assert(brightness as int % 0x100 + brightness as int / 0x100 % 0x100 * 0x100
        + brightness as int / 0x1_0000 % 0x100 * 0x1_0000
        + brightness as int / 0x100_0000 % 0x100 * 0x100_0000 == brightness as int) by {
        lemma_le_decompose(brightness);
    }
}

/// A 32-bit value equals the weighted sum of its four little-endian bytes.
proof fn lemma_le_decompose(x: u32)
    ensures
        x as int % 0x100 + x as int / 0x100 % 0x100 * 0x100 + x as int / 0x1_0000 % 0x100
            * 0x1_0000 + x as int / 0x100_0000 % 0x100 * 0x100_0000 == x as int,
{
    assert(x % 0x100 + x / 0x100 % 0x100 * 0x100 + x / 0x1_0000 % 0x100 * 0x1_0000
        + x / 0x100_0000 % 0x100 * 0x100_0000 == x) by (bit_vector);
}

/// Encodes a brightness value into a feature report: byte 0 is the report
/// id, bytes 1-4 hold the value little-endian, bytes 5-6 are zero.
pub fn encode(report_id: u8, brightness: u32) -> (r: Vec<u8>)
    ensures
        r@ == report_bytes(report_id, brightness),
        r@.len() == REPORT_LEN,
        r@[0] == report_id,
        le_u32_of(r@.subrange(1, 5)) == brightness as int,
        r@[5] == 0u8,
        r@[6] == 0u8,
{
    let mut buf: Vec<u8> = Vec::new();
    buf.push(report_id);
    buf.push((brightness % 0x100) as u8);
    buf.push((brightness / 0x100 % 0x100) as u8);
    buf.push((brightness / 0x1_0000 % 0x100) as u8);
    buf.push((brightness / 0x100_0000 % 0x100) as u8);
    buf.push(0);
    buf.push(0);
    proof {
        assert(buf@ =~= report_bytes(report_id, brightness));
        lemma_report_round_trip(report_id, brightness);
    }
    buf
}

/// Decodes a feature report: requires exactly seven bytes, extracts bytes
/// 1-4 as a little-endian brightness value, and ignores bytes 0, 5 and 6.
/// Any other length fails with a size-mismatch error naming both lengths.
pub fn decode(buf: &Vec<u8>) -> (r: Result<u32, ProtocolError>)
    ensures
        buf@.len() == REPORT_LEN ==> r == Ok::<u32, ProtocolError>(
            (le_u32_of(buf@.subrange(1, 5)) as u32),
        ),
        buf@.len() != REPORT_LEN ==> r == Err::<u32, ProtocolError>(
            ProtocolError::UnexpectedSize { expected: REPORT_LEN, actual: buf@.len() as usize },
        ),
{
    if buf.len() != REPORT_LEN {
        return Err(ProtocolError::UnexpectedSize { expected: REPORT_LEN, actual: buf.len() });
    }
    let b0 = buf[1] as u32;
    let b1 = buf[2] as u32;
    let b2 = buf[3] as u32;
    let b3 = buf[4] as u32;
    let value: u32 = b0 + b1 * 0x100 + b2 * 0x1_0000 + b3 * 0x100_0000;
    Ok(value)
}

} // verus!
