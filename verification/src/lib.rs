//! Decoder and encoder for a length-prefixed, checksum-verified byte protocol
//! spoken between a host and a barcode-scanning peripheral over a serial link.
//!
//! A wire frame is laid out as
//! `[length, opcode, source, status, data.., checksum_hi, checksum_lo]`,
//! where `length` counts itself plus the payload, and the trailing two bytes
//! hold the two's-complement negation of the additive checksum over the
//! length byte and the payload.

use vstd::prelude::*;

pub mod checksum;
pub mod codes;
pub mod dispatch;
pub mod frame;

verus! {

/// Configuration for a session: which serial port to listen on and at what
/// baud rate.
pub struct Args {
    pub port: String,
    pub baud: u32,
}

} // verus!
