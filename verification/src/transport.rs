//! The computational half of the feature-report transactions: building the
//! request and write reports, validating the length a transaction returned,
//! and turning report bytes into a percentage. The blocking HID calls
//! themselves happen outside the library, which receives the buffer and the
//! reported size as plain values.

use vstd::prelude::*;

use crate::codec;
use crate::codec::ProtocolError;
use crate::convert;

verus! {

/// Error raised around a feature-report transaction.
#[derive(Debug, PartialEq, Eq)]
pub enum TransportError {
    /// The transaction reported a transferred size other than the length of
    /// the buffer it was given.
    SizeMismatch { expected: usize, actual: usize },
    /// The returned report violated the codec's fixed layout.
    Protocol { error: ProtocolError },
    /// The underlying transaction call itself failed; the message comes
    /// from the device-access layer.
    Io { message: String },
}

/// Builds the zeroed seven-byte report handed to a get-feature-report
/// transaction: the report id followed by six zero bytes.
pub fn make_brightness_request() -> (r: Vec<u8>)
    ensures
        r@ == codec::report_bytes(codec::REPORT_ID, 0u32),
        r@.len() == codec::REPORT_LEN,
{
    codec::encode(codec::REPORT_ID, 0)
}

/// Builds the seven-byte report that writes `brightness` to the device.
pub fn make_brightness_report(brightness: u32) -> (r: Vec<u8>)
    ensures
        r@ == codec::report_bytes(codec::REPORT_ID, brightness),
        r@.len() == codec::REPORT_LEN,
{
    codec::encode(codec::REPORT_ID, brightness)
}

/// Builds the seven-byte report that sets the brightness to `percent`,
/// converting to native units with the mandatory clamp.
pub fn make_percent_report(percent: u8) -> (r: Vec<u8>)
    ensures
        r@ == codec::report_bytes(
            codec::REPORT_ID,
            (convert::raw_of_percent(percent as int) as u32),
        ),
        r@.len() == codec::REPORT_LEN,
{
    let raw = convert::to_raw(percent);
    codec::encode(codec::REPORT_ID, raw)
}

/// Validates and decodes what a get-feature-report transaction returned:
/// `buf` is the buffer the transaction filled and `size` the length it
/// reported. A size differing from the buffer's length is a size mismatch;
/// otherwise the buffer goes through the codec, whose failure is passed on.
pub fn parse_feature_report(buf: &Vec<u8>, size: usize) -> (r: Result<u32, TransportError>)
    ensures
        size != buf@.len() ==> r == Err::<u32, TransportError>(
            TransportError::SizeMismatch { expected: buf@.len() as usize, actual: size },
        ),
        size == buf@.len() && buf@.len() == codec::REPORT_LEN ==> r == Ok::<u32, TransportError>(
            (codec::le_u32_of(buf@.subrange(1, 5)) as u32),
        ),
        size == buf@.len() && buf@.len() != codec::REPORT_LEN ==> r == Err::<u32, TransportError>(
            TransportError::Protocol {
                error: ProtocolError::UnexpectedSize {
                    expected: codec::REPORT_LEN,
                    actual: buf@.len() as usize,
                },
            },
        ),
{
    if size != buf.len() {
        return Err(TransportError::SizeMismatch { expected: buf.len(), actual: size });
    }
    match codec::decode(buf) {
        Ok(raw) => Ok(raw),
        Err(e) => Err(TransportError::Protocol { error: e }),
    }
}

/// Validates, decodes and converts in one step: the percentage that a
/// returned report carries, with the same failures as
/// `parse_feature_report`.
pub fn parse_percent_report(buf: &Vec<u8>, size: usize) -> (r: Result<u8, TransportError>)
    ensures
        size != buf@.len() ==> r == Err::<u8, TransportError>(
            TransportError::SizeMismatch { expected: buf@.len() as usize, actual: size },
        ),
        size == buf@.len() && buf@.len() == codec::REPORT_LEN ==> r == Ok::<u8, TransportError>(
            (convert::percent_of_raw(codec::le_u32_of(buf@.subrange(1, 5))) as u8),
        ),
        size == buf@.len() && buf@.len() != codec::REPORT_LEN ==> r == Err::<u8, TransportError>(
            TransportError::Protocol {
                error: ProtocolError::UnexpectedSize {
                    expected: codec::REPORT_LEN,
                    actual: buf@.len() as usize,
                },
            },
        ),
{
    match parse_feature_report(buf, size) {
        Ok(raw) => Ok(convert::to_percent(raw)),
        Err(e) => Err(e),
    }
}

} // verus!
