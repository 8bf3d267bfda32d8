//! The enumeration tables of the protocol: operation codes, frame sources,
//! status bit-flags, and the content-type table of a `DecodeData` frame.

use vstd::prelude::*;
use crate::frame::DecodeError;

verus! {

/// The kind of operation a frame represents. Every byte maps to some
/// variant: the three named codes, or `Other` carrying the raw byte.
#[derive(Debug, Clone, Copy, PartialEq, Eq, Structural)]
pub enum OpCode {
    Ack,
    Nack,
    DecodeData,
    Other(u8),
}

/// The opcode a byte stands for. Total: unrecognized bytes fall back to
/// `Other`.
pub open spec fn opcode_of(b: u8) -> OpCode {
    if b == 0xd0 {
        OpCode::Ack
    } else if b == 0xd1 {
        OpCode::Nack
    } else if b == 0xf3 {
        OpCode::DecodeData
    } else {
        OpCode::Other(b)
    }
}

/// The wire byte of an opcode.
pub open spec fn opcode_byte(c: OpCode) -> u8 {
    match c {
        OpCode::Ack => 0xd0,
        OpCode::Nack => 0xd1,
        OpCode::DecodeData => 0xf3,
        OpCode::Other(b) => b,
    }
}

/// Mapping a byte to an opcode and back is the identity, for every byte.
pub proof fn lemma_opcode_byte_round_trip(b: u8)
    ensures
        opcode_byte(opcode_of(b)) == b,
{
}

impl OpCode {
    pub fn from_byte(b: u8) -> (r: OpCode)
        ensures
            r == opcode_of(b),
    {
        match b {
            0xd0 => OpCode::Ack,
            0xd1 => OpCode::Nack,
            0xf3 => OpCode::DecodeData,
            _ => OpCode::Other(b),
        }
    }

    pub fn to_byte(self) -> (r: u8)
        ensures
            r == opcode_byte(self),
    {
        match self {
            OpCode::Ack => 0xd0,
            OpCode::Nack => 0xd1,
            OpCode::DecodeData => 0xf3,
            OpCode::Other(b) => b,
        }
    }
}

/// Which endpoint originated a frame.
#[derive(Debug, Clone, Copy, PartialEq, Eq, Structural)]
pub enum Source {
    Scanner,
    Host,
}

/// The source a byte stands for. Partial: only two byte values are defined.
pub open spec fn source_of(b: u8) -> Option<Source> {
    if b == 0x00 {
        Some(Source::Scanner)
    } else if b == 0x04 {
        Some(Source::Host)
    } else {
        None
    }
}

/// The wire byte of a source.
pub open spec fn source_byte(s: Source) -> u8 {
    match s {
        Source::Scanner => 0x00,
        Source::Host => 0x04,
    }
}

/// The source mapping is a bijection between {0x00, 0x04} and the two
/// variants.
pub proof fn lemma_source_byte_round_trip(s: Source, b: u8)
    ensures
        source_of(source_byte(s)) == Some(s),
        source_of(b) matches Some(t) ==> source_byte(t) == b,
{
}

impl Source {
    /// Fails on any byte outside the defined set, carrying the byte, rather
    /// than treating such input as unreachable.
    pub fn from_byte(b: u8) -> (r: Result<Source, DecodeError>)
        ensures
            r == match source_of(b) {
                Some(s) => Ok::<Source, DecodeError>(s),
                None => Err::<Source, DecodeError>(DecodeError::InvalidSource(b)),
            },
    {
        match b {
            0x00 => Ok(Source::Scanner),
            0x04 => Ok(Source::Host),
            _ => Err(DecodeError::InvalidSource(b)),
        }
    }

    pub fn to_byte(self) -> (r: u8)
        ensures
            r == source_byte(self),
    {
        match self {
            Source::Scanner => 0x00,
            Source::Host => 0x04,
        }
    }
}

/// The named status bits: Retransmit (bit 0), Continuation (bit 1) and
/// ChangeType (bit 3).
pub const STATUS_MASK: u8 = 0x0b;

/// A set of transmission-state flags over 8 bits. Only the three named bits
/// are ever held; unrecognized bits are truncated away on construction,
/// never rejected.
#[derive(Debug, Clone, Copy, PartialEq, Eq, Structural)]
pub struct Status {
    bits: u8,
}

impl View for Status {
    type V = u8;

    closed spec fn view(&self) -> u8 {
        self.bits
    }
}

impl Status {
    /// The empty flag set.
    pub fn empty() -> (r: Status)
        ensures
            r@ == 0,
    {
        Status { bits: 0 }
    }

    /// Keeps the named bits of `b` and silently drops the rest.
    pub fn from_bits_truncate(b: u8) -> (r: Status)
        ensures
            r@ == b & STATUS_MASK,
    {
        Status { bits: b & STATUS_MASK }
    }

    /// The raw bit pattern of the flag set.
    pub fn bits(&self) -> (r: u8)
        ensures
            r == self@,
    {
        self.bits
    }

    /// Whether the Retransmit flag (bit 0) is set.
    pub fn retransmit(&self) -> (r: bool)
        ensures
            r == (self@ & 0x01 != 0),
    {
        self.bits & 0x01 != 0
    }

    /// Whether the Continuation flag (bit 1) is set.
    pub fn continuation(&self) -> (r: bool)
        ensures
            r == (self@ & 0x02 != 0),
    {
        self.bits & 0x02 != 0
    }

    /// Whether the ChangeType flag (bit 3) is set.
    pub fn change_type(&self) -> (r: bool)
        ensures
            r == (self@ & 0x08 != 0),
    {
        self.bits & 0x08 != 0
    }
}

impl Default for Status {
    /// The default status is the empty flag set.
    fn default() -> (r: Status)
        ensures
            r@ == 0,
    {
        Status::empty()
    }
}

/// The symbology of scanned content, carried as the first data byte of a
/// `DecodeData` frame. A closed set of documented codes; the byte-to-variant
/// mapping is partial and decode-only.
#[derive(Debug, Clone, Copy, PartialEq, Eq, Structural)]
pub enum ContentType {
    Aztec,
    AztecRune,
    Bookland,
    Chinese2of5,
    Codabar,
    Code11,
    Code128,
    Code16K,
    Code32,
    Code39,
    Code39Ascii,
    Code49,
    Code93,
    Coupon,
    CueCat,
    Discrete2of5,
    DataMatrix,
    Dotcode,
    Ean13,
    Ean13Plus2,
    Ean13Plus5,
    Ean8,
    Ean8Plus2,
    Ean8Plus5,
    FrenchLottery,
    GridMatrix,
    Gs1_128,
    Gs1DataBarExpanded,
    Gs1DataBarLimited,
    Gs1DataBar14,
    Gs1DataMatrix,
    Gs1Qr,
    HanXin,
    Iata,
    Isbt128,
    Isbt128Concat,
    Issn,
    Interleaved2of5,
    Korean3of5,
    MacroMicroPdf,
    MacroPdf417,
    MacroQr,
    Mailmark,
    Matrix2of5,
    Maxicode,
    MicroPdf,
    MicroPdfCca,
    MicroQr,
    Msi,
    Multicode,
    Multipacket,
    Nw7,
    OcrB,
    Pdf417,
    PlanetUs,
    PostalAus,
    PostalNl,
    PostalJp,
    PostalUk,
    PostbarCa,
    PostnetUs,
    Qr,
    RfidRaw,
    RfidURI,
    RssExpandedCoupon,
    ScanletWebcode,
    Signature,
    Telepen,
    Tlc39,
    Trioptic,
    UdiParsed,
    UpcA,
    UpcAPlus2,
    UpcAPlus5,
    UpcE,
    UpcEPlus2,
    UpcEPlus5,
    UpcE1,
    UpcE1Plus2,
    UpcE1Plus5,
    UkPlessy,
    FourStateUs,
    FourStateUs4,
}

/// The documented content-type table: which symbology a byte code names,
/// or `None` for a byte outside the table.
pub open spec fn content_type_of(b: u8) -> Option<ContentType> {
    match b {
        0x01 => Some(ContentType::Code39),
        0x02 => Some(ContentType::Codabar),
        0x03 => Some(ContentType::Code128),
        0x04 => Some(ContentType::Discrete2of5),
        0x05 => Some(ContentType::Iata),
        0x06 => Some(ContentType::Interleaved2of5),
        0x07 => Some(ContentType::Code93),
        0x08 => Some(ContentType::UpcA),
        0x09 => Some(ContentType::UpcE),
        0x0a => Some(ContentType::Ean8),
        0x0b => Some(ContentType::Ean13),
        0x0c => Some(ContentType::Code11),
        0x0d => Some(ContentType::Code49),
        0x0e => Some(ContentType::Msi),
        0x0f => Some(ContentType::Gs1_128),
        0x10 => Some(ContentType::UpcE1),
        0x11 => Some(ContentType::Pdf417),
        0x12 => Some(ContentType::Code16K),
        0x13 => Some(ContentType::Code39Ascii),
        0x15 => Some(ContentType::Trioptic),
        0x16 => Some(ContentType::Bookland),
        0x17 => Some(ContentType::Coupon),
        0x18 => Some(ContentType::Nw7),
        0x19 => Some(ContentType::Isbt128),
        0x1a => Some(ContentType::MicroPdf),
        0x1b => Some(ContentType::DataMatrix),
        0x1c => Some(ContentType::Qr),
        0x1d => Some(ContentType::MicroPdfCca),
        0x1e => Some(ContentType::PostnetUs),
        0x1f => Some(ContentType::PlanetUs),
        0x20 => Some(ContentType::Code32),
        0x21 => Some(ContentType::Isbt128Concat),
        0x22 => Some(ContentType::PostalJp),
        0x23 => Some(ContentType::PostalAus),
        0x24 => Some(ContentType::PostalNl),
        0x25 => Some(ContentType::Maxicode),
        0x26 => Some(ContentType::PostbarCa),
        0x27 => Some(ContentType::PostalUk),
        0x28 => Some(ContentType::MacroPdf417),
        0x29 => Some(ContentType::MacroQr),
        0x2c => Some(ContentType::MicroQr),
        0x2d => Some(ContentType::Aztec),
        0x2e => Some(ContentType::AztecRune),
        0x2f => Some(ContentType::FrenchLottery),
        0x30 => Some(ContentType::Gs1DataBar14),
        0x31 => Some(ContentType::Gs1DataBarLimited),
        0x32 => Some(ContentType::Gs1DataBarExpanded),
        0x34 => Some(ContentType::FourStateUs),
        0x35 => Some(ContentType::FourStateUs4),
        0x36 => Some(ContentType::Issn),
        0x37 => Some(ContentType::ScanletWebcode),
        0x38 => Some(ContentType::CueCat),
        0x48 => Some(ContentType::UpcAPlus2),
        0x49 => Some(ContentType::UpcEPlus2),
        0x4a => Some(ContentType::Ean8Plus2),
        0x4b => Some(ContentType::Ean13Plus2),
        0x50 => Some(ContentType::UpcE1Plus2),
        0x5a => Some(ContentType::Tlc39),
        0x69 => Some(ContentType::Signature),
        0x71 => Some(ContentType::Matrix2of5),
        0x72 => Some(ContentType::Chinese2of5),
        0x73 => Some(ContentType::Korean3of5),
        0x88 => Some(ContentType::UpcAPlus5),
        0x89 => Some(ContentType::UpcEPlus5),
        0x8a => Some(ContentType::Ean8Plus5),
        0x8b => Some(ContentType::Ean13Plus5),
        0x90 => Some(ContentType::UpcE1Plus5),
        0x99 => Some(ContentType::Multipacket),
        0x9a => Some(ContentType::MacroMicroPdf),
        0xa0 => Some(ContentType::OcrB),
        0xb4 => Some(ContentType::RssExpandedCoupon),
        0xb7 => Some(ContentType::HanXin),
        0xc1 => Some(ContentType::Gs1DataMatrix),
        0xc2 => Some(ContentType::Gs1Qr),
        0xc3 => Some(ContentType::Mailmark),
        0xc4 => Some(ContentType::Dotcode),
        0xc6 => Some(ContentType::Multicode),
        0xc7 => Some(ContentType::UkPlessy),
        0xc8 => Some(ContentType::GridMatrix),
        0xca => Some(ContentType::Telepen),
        0xcc => Some(ContentType::UdiParsed),
        0xe0 => Some(ContentType::RfidRaw),
        0xe1 => Some(ContentType::RfidURI),
        _ => None,
    }
}

impl ContentType {
    /// Looks a byte up in the documented table; a byte outside it yields
    /// the unrecognized-content-type error carrying the byte.
    pub fn from_byte(b: u8) -> (r: Result<ContentType, DecodeError>)
        ensures
            r == match content_type_of(b) {
                Some(c) => Ok::<ContentType, DecodeError>(c),
                None => Err::<ContentType, DecodeError>(DecodeError::UnrecognizedContentType(b)),
            },
    {
        match b {
            0x01 => Ok(ContentType::Code39),
            0x02 => Ok(ContentType::Codabar),
            0x03 => Ok(ContentType::Code128),
            0x04 => Ok(ContentType::Discrete2of5),
            0x05 => Ok(ContentType::Iata),
            0x06 => Ok(ContentType::Interleaved2of5),
            0x07 => Ok(ContentType::Code93),
            0x08 => Ok(ContentType::UpcA),
            0x09 => Ok(ContentType::UpcE),
            0x0a => Ok(ContentType::Ean8),
            0x0b => Ok(ContentType::Ean13),
            0x0c => Ok(ContentType::Code11),
            0x0d => Ok(ContentType::Code49),
            0x0e => Ok(ContentType::Msi),
            0x0f => Ok(ContentType::Gs1_128),
            0x10 => Ok(ContentType::UpcE1),
            0x11 => Ok(ContentType::Pdf417),
            0x12 => Ok(ContentType::Code16K),
            0x13 => Ok(ContentType::Code39Ascii),
            0x15 => Ok(ContentType::Trioptic),
            0x16 => Ok(ContentType::Bookland),
            0x17 => Ok(ContentType::Coupon),
            0x18 => Ok(ContentType::Nw7),
            0x19 => Ok(ContentType::Isbt128),
            0x1a => Ok(ContentType::MicroPdf),
            0x1b => Ok(ContentType::DataMatrix),
            0x1c => Ok(ContentType::Qr),
            0x1d => Ok(ContentType::MicroPdfCca),
            0x1e => Ok(ContentType::PostnetUs),
            0x1f => Ok(ContentType::PlanetUs),
            0x20 => Ok(ContentType::Code32),
            0x21 => Ok(ContentType::Isbt128Concat),
            0x22 => Ok(ContentType::PostalJp),
            0x23 => Ok(ContentType::PostalAus),
            0x24 => Ok(ContentType::PostalNl),
            0x25 => Ok(ContentType::Maxicode),
            0x26 => Ok(ContentType::PostbarCa),
            0x27 => Ok(ContentType::PostalUk),
            0x28 => Ok(ContentType::MacroPdf417),
            0x29 => Ok(ContentType::MacroQr),
            0x2c => Ok(ContentType::MicroQr),
            0x2d => Ok(ContentType::Aztec),
            0x2e => Ok(ContentType::AztecRune),
            0x2f => Ok(ContentType::FrenchLottery),
            0x30 => Ok(ContentType::Gs1DataBar14),
            0x31 => Ok(ContentType::Gs1DataBarLimited),
            0x32 => Ok(ContentType::Gs1DataBarExpanded),
            0x34 => Ok(ContentType::FourStateUs),
            0x35 => Ok(ContentType::FourStateUs4),
            0x36 => Ok(ContentType::Issn),
            0x37 => Ok(ContentType::ScanletWebcode),
            0x38 => Ok(ContentType::CueCat),
            0x48 => Ok(ContentType::UpcAPlus2),
            0x49 => Ok(ContentType::UpcEPlus2),
            0x4a => Ok(ContentType::Ean8Plus2),
            0x4b => Ok(ContentType::Ean13Plus2),
            0x50 => Ok(ContentType::UpcE1Plus2),
            0x5a => Ok(ContentType::Tlc39),
            0x69 => Ok(ContentType::Signature),
            0x71 => Ok(ContentType::Matrix2of5),
            0x72 => Ok(ContentType::Chinese2of5),
            0x73 => Ok(ContentType::Korean3of5),
            0x88 => Ok(ContentType::UpcAPlus5),
            0x89 => Ok(ContentType::UpcEPlus5),
            0x8a => Ok(ContentType::Ean8Plus5),
            0x8b => Ok(ContentType::Ean13Plus5),
            0x90 => Ok(ContentType::UpcE1Plus5),
            0x99 => Ok(ContentType::Multipacket),
            0x9a => Ok(ContentType::MacroMicroPdf),
            0xa0 => Ok(ContentType::OcrB),
            0xb4 => Ok(ContentType::RssExpandedCoupon),
            0xb7 => Ok(ContentType::HanXin),
            0xc1 => Ok(ContentType::Gs1DataMatrix),
            0xc2 => Ok(ContentType::Gs1Qr),
            0xc3 => Ok(ContentType::Mailmark),
            0xc4 => Ok(ContentType::Dotcode),
            0xc6 => Ok(ContentType::Multicode),
            0xc7 => Ok(ContentType::UkPlessy),
            0xc8 => Ok(ContentType::GridMatrix),
            0xca => Ok(ContentType::Telepen),
            0xcc => Ok(ContentType::UdiParsed),
            0xe0 => Ok(ContentType::RfidRaw),
            0xe1 => Ok(ContentType::RfidURI),
            _ => Err(DecodeError::UnrecognizedContentType(b)),
        }
    }
}

/// Truncation never lets a bit outside the named set surface: whatever the
/// raw status byte held, the kept bits are named ones only.
pub proof fn lemma_status_truncation(b: u8)
    ensures
        (b & STATUS_MASK) & !STATUS_MASK == 0,
{
    assert((b & 0x0b) & !0x0b == 0) by (bit_vector);
}

} // verus!
