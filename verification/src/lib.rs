//! Brightness control core for an external monitor driven over USB HID
//! feature reports.
//!
//! The library covers the device-side protocol and the arithmetic around it:
//! selecting the right HID interface among the connected devices, encoding
//! and decoding the fixed seven-byte brightness feature report, and mapping
//! between the device's native brightness units and a 0-100 percent scale.
//! The surrounding process (argument handling, opening device handles,
//! issuing the actual feature-report transactions) lives outside the library
//! and exchanges plain values with it.

pub mod codec;
pub mod convert;
pub mod device;
pub mod transport;
