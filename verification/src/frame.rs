//! Decoding an inbound byte buffer into a structured frame, and encoding
//! outbound fields into a checksummed wire frame.

use vstd::prelude::*;
use vstd::slice::slice_subrange;
use crate::checksum::{calc_checksum, checksum_spec, sum_bytes, lemma_sum_bytes_bounds, lemma_sum_bytes_update};
use crate::codes::{OpCode, Source, Status, opcode_of, source_of, STATUS_MASK};

verus! {

/// Why a byte buffer, or a byte within one, was rejected.
#[derive(Debug, Clone, Copy, PartialEq, Eq, Structural)]
pub enum DecodeError {
    /// The buffer is too short to contain the mandatory fields.
    InvalidMessageLength,
    /// The stored checksum does not match the one computed over the buffer:
    /// data corruption or framing desync.
    InvalidChecksum,
    /// The source byte is outside the defined set; carries the byte.
    InvalidSource(u8),
    /// A content-type code outside the documented table; carries the byte.
    /// Application-level and non-fatal: reported, never a decode failure.
    UnrecognizedContentType(u8),
}

/// One decoded frame. `data` borrows from the buffer that was decoded;
/// the frame lives only for one decode-dispatch cycle.
#[derive(Debug)]
pub struct RawMessage<'a> {
    /// The wire length byte: 1 + the size of the payload that follows it.
    pub length: u8,
    pub opcode: OpCode,
    pub source: Source,
    pub status: Status,
    /// The payload bytes after the three fixed header bytes; may be empty.
    pub data: &'a [u8],
}

/// The mathematical content of a decoded frame.
#[verifier::ext_equal]
pub ghost struct FrameModel {
    pub length: u8,
    pub opcode: OpCode,
    pub source: Source,
    /// The truncated status bits.
    pub status: u8,
    pub data: Seq<u8>,
}

impl<'a> View for RawMessage<'a> {
    type V = FrameModel;

    open spec fn view(&self) -> FrameModel {
        FrameModel {
            length: self.length,
            opcode: self.opcode,
            source: self.source,
            status: self.status@,
            data: self.data@,
        }
    }
}

/// The 16-bit two's-complement negation of a checksum: what the wire
/// carries, and what undoes it.
pub open spec fn negate_checksum(c: u16) -> u16 {
    ((0x10000 - c) % 0x10000) as u16
}

/// The checksum a buffer claims: its trailing two bytes read as a big-endian
/// 16-bit integer, negated.
pub open spec fn stored_checksum(m: Seq<u8>) -> u16
    recommends
        m.len() >= 2,
{
    negate_checksum((m[m.len() - 2] * 256 + m[m.len() - 1]) as u16)
}

/// Whether the checksum computed over the length byte and payload of `m`
/// matches the one its trailing bytes claim.
pub open spec fn checksum_ok(m: Seq<u8>) -> bool
    recommends
        m.len() >= 4,
{
    checksum_spec(m[0], m.subrange(1, m.len() - 2)) == stored_checksum(m)
}

/// What decoding a byte buffer yields: the frame, or the exact error.
///
/// The cascade mirrors the decoding contract: a buffer that cannot hold the
/// length byte and the two checksum bytes (plus at least one payload byte)
/// is too short; the checksum is verified before any field is interpreted;
/// a payload without the three fixed header bytes is too short; a source
/// byte outside the defined set is rejected.
pub open spec fn decode_spec(m: Seq<u8>) -> Result<FrameModel, DecodeError> {
    if m.len() < 4 {
        Err(DecodeError::InvalidMessageLength)
    } else if !checksum_ok(m) {
        Err(DecodeError::InvalidChecksum)
    } else if m.len() < 6 {
        Err(DecodeError::InvalidMessageLength)
    } else if source_of(m[2]) is None {
        Err(DecodeError::InvalidSource(m[2]))
    } else {
        Ok(FrameModel {
            length: m[0],
            opcode: opcode_of(m[1]),
            source: source_of(m[2])->Some_0,
            status: m[3] & STATUS_MASK,
            data: m.subrange(4, m.len() - 2),
        })
    }
}

/// Computes the 16-bit two's-complement negation with wraparound.
fn negate16(c: u16) -> (r: u16)
    ensures
        r == negate_checksum(c),
{
    if c == 0 {
        0
    } else {
        (0xffffu16 - c) + 1
    }
}

/// Validates and destructures one self-contained byte buffer into a frame.
///
/// Succeeds exactly on buffers of at least 6 bytes whose checksum matches
/// and whose source byte is defined; otherwise returns the error that
/// `decode_spec` assigns to the buffer.
pub fn decode<'a>(message: &'a [u8]) -> (r: Result<RawMessage<'a>, DecodeError>)
    ensures
        match r {
            Ok(f) => decode_spec(message@) == Ok::<FrameModel, DecodeError>(f@),
            Err(e) => decode_spec(message@) == Err::<FrameModel, DecodeError>(e),
        },
{
    let n: usize = message.len();
    if n < 4 {
        return Err(DecodeError::InvalidMessageLength);
    }
    let length: u8 = message[0];
    let payload: &[u8] = slice_subrange(message, 1, n - 2);
    let be: u16 = (message[n - 2] as u16) * 256 + (message[n - 1] as u16);
    let stored: u16 = negate16(be);
    let sum: u16 = calc_checksum(length, payload);
    if sum != stored {
        return Err(DecodeError::InvalidChecksum);
    }
    if n < 6 {
        return Err(DecodeError::InvalidMessageLength);
    }
    let source = match Source::from_byte(message[2]) {
        Ok(s) => s,
        Err(e) => return Err(e),
    };
    let frame = RawMessage {
        length,
        opcode: OpCode::from_byte(message[1]),
        source,
        status: Status::from_bits_truncate(message[3]),
        data: slice_subrange(message, 4, n - 2),
    };
    Ok(frame)
}

/// The frame that carries `f` as its field bytes: the length byte (which
/// counts itself), the fields, and the negated checksum in big-endian order.
pub open spec fn wrap_spec(f: Seq<u8>) -> Seq<u8>
    recommends
        f.len() <= 253,
{
    let size = (f.len() + 1) as u8;
    let neg = negate_checksum(checksum_spec(size, f));
    seq![size] + f + seq![(neg / 256) as u8, (neg % 256) as u8]
}

/// Constructs an outbound wire frame around the given field bytes,
/// computing and appending the checksum. The length limit keeps the size
/// byte, which counts itself, within a byte.
pub fn wrap(data: Vec<u8>) -> (r: Vec<u8>)
    requires
        data@.len() <= 253,
    ensures
        r@ == wrap_spec(data@),
{
    let ghost fields = data@;
    let mut data = data;
    let size: u8 = (data.len() as u8) + 1;
    let checksum: u16 = calc_checksum(size, data.as_slice());
    let neg: u16 = negate16(checksum);
    let mut output: Vec<u8> = Vec::new();
    output.push(size);
    output.append(&mut data);
    output.push((neg / 256) as u8);
    output.push((neg % 256) as u8);
    proof {
        assert(output@ =~= wrap_spec(fields));
    }
    output
}

/// Numbers closer together than the modulus have distinct remainders.
proof fn lemma_mod_distinct(x: int, y: int)
    requires
        x != y,
        -0x10000 < x - y < 0x10000,
    ensures
        x % 0x10000 != y % 0x10000,
{
    vstd::arithmetic::div_mod::lemma_fundamental_div_mod(x, 0x10000);
    vstd::arithmetic::div_mod::lemma_fundamental_div_mod(y, 0x10000);
    if x % 0x10000 == y % 0x10000 {
        let qx = x / 0x10000;
        let qy = y / 0x10000;
        assert(x - y == 0x10000 * (qx - qy));
        assert(qx - qy != 0);
        assert(0x10000 * (qx - qy) >= 0x10000 || 0x10000 * (qx - qy) <= -0x10000)
            by (nonlinear_arith)
            requires
                qx - qy != 0,
        ;
        assert(false);
    }
}

/// Any buffer too short to hold the length byte and the checksum bytes is
/// rejected as a length error; nothing else is reported of it.
pub proof fn lemma_length_guard(m: Seq<u8>)
    requires
        m.len() < 4,
    ensures
        decode_spec(m) == Err::<FrameModel, DecodeError>(DecodeError::InvalidMessageLength),
{
}

/// Round trip: wrapping any field sequence of at least the three header
/// bytes (with a defined source byte) and up to 253 bytes, then decoding,
/// succeeds and recovers the semantic decoding of the fields: the opcode of
/// the first byte, the source of the second, the truncated status bits of
/// the third, and the remainder as data.
pub proof fn lemma_round_trip(f: Seq<u8>)
    requires
        3 <= f.len() <= 253,
        source_of(f[1]) is Some,
    ensures
        decode_spec(wrap_spec(f)) == Ok::<FrameModel, DecodeError>(FrameModel {
            length: (f.len() + 1) as u8,
            opcode: opcode_of(f[0]),
            source: source_of(f[1])->Some_0,
            status: f[2] & STATUS_MASK,
            data: f.subrange(3, f.len() as int),
        }),
{
    let w = wrap_spec(f);
    let size = (f.len() + 1) as u8;
    let chk = checksum_spec(size, f);
    let neg = negate_checksum(chk);
    assert(w.len() == f.len() + 3);
    assert(w[0] == size);
    assert(w.subrange(1, w.len() - 2) =~= f);
    // The trailing bytes recompose to the negated checksum.
    vstd::arithmetic::div_mod::lemma_fundamental_div_mod(neg as int, 256);
    assert(w[w.len() - 2] == (neg / 256) as u8);
    assert(w[w.len() - 1] == (neg % 256) as u8);
    assert((w[w.len() - 2] * 256 + w[w.len() - 1]) as u16 == neg);
    // Negation undoes itself modulo 2^16.
    lemma_sum_bytes_bounds(f);
    assert(negate_checksum(neg) == chk);
    assert(checksum_ok(w));
    assert(w[1] == f[0]);
    assert(w[2] == f[1]);
    assert(w[3] == f[2]);
    assert(w.subrange(4, w.len() - 2) =~= f.subrange(3, f.len() as int));
    assert(decode_spec(w)->Ok_0 =~= FrameModel {
        length: size,
        opcode: opcode_of(f[0]),
        source: source_of(f[1])->Some_0,
        status: f[2] & STATUS_MASK,
        data: f.subrange(3, f.len() as int),
    });
}

/// The byte `b` with bit `k` flipped.
pub open spec fn flip_bit(b: u8, k: u8) -> u8
    recommends
        k < 8,
{
    b ^ (1u8 << k)
}

/// Checksum sensitivity: flipping any single bit of the length byte or of
/// any payload byte of a well-formed frame, without recomputing the
/// checksum, makes decoding fail with a checksum error.
pub proof fn lemma_checksum_sensitivity(m: Seq<u8>, j: int, k: u8)
    requires
        decode_spec(m) is Ok,
        0 <= j < m.len() - 2,
        k < 8,
    ensures
        decode_spec(m.update(j, flip_bit(m[j], k))) == Err::<FrameModel, DecodeError>(
            DecodeError::InvalidChecksum,
        ),
{
    let b = m[j];
    let v = flip_bit(b, k);
    assert(b ^ (1u8 << k) != b) by (bit_vector)
        requires
            k < 8,
    ;
    let m2 = m.update(j, v);
    assert(m2.len() == m.len());
    // The trailing checksum bytes are untouched, so the claimed checksum is
    // unchanged.
    assert(m2[m2.len() - 2] == m[m.len() - 2]);
    assert(m2[m2.len() - 1] == m[m.len() - 1]);
    assert(stored_checksum(m2) == stored_checksum(m));
    let p = m.subrange(1, m.len() - 2);
    let p2 = m2.subrange(1, m2.len() - 2);
    lemma_sum_bytes_bounds(p);
    lemma_sum_bytes_bounds(p2);
    let old_sum = m[0] + sum_bytes(p);
    let new_sum = m2[0] + sum_bytes(p2);
    if j == 0 {
        assert(p2 =~= p);
        assert(new_sum - old_sum == v - b);
    } else {
        assert(p2 =~= p.update(j - 1, v));
        lemma_sum_bytes_update(p, j - 1, v);
        assert(new_sum - old_sum == v - b);
    }
    lemma_mod_distinct(new_sum, old_sum);
    vstd::arithmetic::div_mod::lemma_mod_bound(new_sum, 0x10000);
    vstd::arithmetic::div_mod::lemma_mod_bound(old_sum, 0x10000);
    assert(checksum_spec(m2[0], p2) != checksum_spec(m[0], p));
    assert(checksum_ok(m));
    assert(!checksum_ok(m2));
}

} // verus!
