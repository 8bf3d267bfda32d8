//! The decisions of one read-decode-react cycle of a session.
//!
//! The transport itself (open, read, write, timeout) lives outside this
//! library; a caller hands each inbound buffer to [`dispatch`] and performs
//! the returned reaction: write the acknowledgment, report the frame, or
//! report the decode error.

use vstd::prelude::*;
use crate::codes::{ContentType, OpCode, Source, Status, content_type_of, opcode_byte, source_byte};
use crate::frame::{decode, decode_spec, wrap, wrap_spec, DecodeError, RawMessage};

verus! {

/// The field bytes of the acknowledgment frame a session sends after every
/// successful decode: opcode Ack, source Host, empty status.
pub open spec fn ack_fields() -> Seq<u8> {
    seq![opcode_byte(OpCode::Ack), source_byte(Source::Host), 0u8]
}

/// Builds the wire acknowledgment frame.
pub fn ack_frame() -> (r: Vec<u8>)
    ensures
        r@ == wrap_spec(ack_fields()),
{
    let mut fields: Vec<u8> = Vec::new();
    fields.push(OpCode::Ack.to_byte());
    fields.push(Source::Host.to_byte());
    let status: Status = Default::default();
    fields.push(status.bits());
    proof {
        assert(fields@ =~= ack_fields());
    }
    wrap(fields)
}

/// How the payload of a `DecodeData` frame reads: a recognized symbology
/// and the scanned bytes, an undocumented symbology code and the scanned
/// bytes, or a payload too short to carry a content-type byte at all.
pub enum DataInterpretation<'a> {
    Recognized(ContentType, &'a [u8]),
    Unrecognized(u8, &'a [u8]),
    Empty,
}

/// The mathematical content of a payload interpretation.
#[verifier::ext_equal]
pub ghost enum DataModel {
    Recognized(ContentType, Seq<u8>),
    Unrecognized(u8, Seq<u8>),
    Empty,
}

impl<'a> View for DataInterpretation<'a> {
    type V = DataModel;

    open spec fn view(&self) -> DataModel {
        match self {
            DataInterpretation::Recognized(c, rest) => DataModel::Recognized(*c, rest@),
            DataInterpretation::Unrecognized(b, rest) => DataModel::Unrecognized(*b, rest@),
            DataInterpretation::Empty => DataModel::Empty,
        }
    }
}

/// What interpreting a `DecodeData` payload yields: the first byte looked
/// up in the content-type table, the remainder as the scanned content.
pub open spec fn interpret_spec(data: Seq<u8>) -> DataModel {
    if data.len() == 0 {
        DataModel::Empty
    } else {
        match content_type_of(data[0]) {
            Some(c) => DataModel::Recognized(c, data.subrange(1, data.len() as int)),
            None => DataModel::Unrecognized(data[0], data.subrange(1, data.len() as int)),
        }
    }
}

/// Interprets the payload of a `DecodeData` frame.
pub fn interpret_decode_data<'a>(data: &'a [u8]) -> (r: DataInterpretation<'a>)
    ensures
        r@ == interpret_spec(data@),
{
    if data.len() == 0 {
        DataInterpretation::Empty
    } else {
        let rest: &[u8] = vstd::slice::slice_subrange(data, 1, data.len());
        match ContentType::from_byte(data[0]) {
            Ok(c) => DataInterpretation::Recognized(c, rest),
            Err(_) => DataInterpretation::Unrecognized(data[0], rest),
        }
    }
}

/// The reaction to one inbound buffer: either a decoded frame together with
/// the acknowledgment to send (and, for a `DecodeData` frame, the payload
/// interpretation), or the decode error to report. No acknowledgment is
/// sent on failure.
pub enum Outcome<'a> {
    Reply { frame: RawMessage<'a>, ack: Vec<u8>, content: Option<DataInterpretation<'a>> },
    Failed(DecodeError),
}

/// Decides one decode-dispatch cycle for one self-contained buffer.
///
/// Succeeds exactly when decoding does; the acknowledgment is always the
/// same fixed frame, and the payload is interpreted if and only if the
/// frame's opcode is `DecodeData`.
pub fn dispatch<'a>(message: &'a [u8]) -> (r: Outcome<'a>)
    ensures
        match r {
            Outcome::Reply { frame, ack, content } => {
                &&& decode_spec(message@) == Ok::<_, DecodeError>(frame@)
                &&& ack@ == wrap_spec(ack_fields())
                &&& (content is Some <==> frame.opcode is DecodeData)
                &&& (content matches Some(c) ==> c@ == interpret_spec(frame@.data))
            },
            Outcome::Failed(e) => decode_spec(message@) == Err::<crate::frame::FrameModel, _>(e),
        },
{
    match decode(message) {
        Ok(frame) => {
            let ack = ack_frame();
            let content = match frame.opcode {
                OpCode::DecodeData => Some(interpret_decode_data(frame.data)),
                _ => None,
            };
            Outcome::Reply { frame, ack, content }
        },
        Err(e) => Outcome::Failed(e),
    }
}

} // verus!
