use ssi::checksum::calc_checksum;
use ssi::codes::{ContentType, OpCode, Source, Status, STATUS_MASK};
use ssi::dispatch::{ack_frame, dispatch, interpret_decode_data, DataInterpretation, Outcome};
use ssi::frame::{decode, wrap, DecodeError};

#[test]
fn checksum_exact_value() {
    assert_eq!(calc_checksum(0x06, &[0xf3, 0x00, 0x00, 0x41]), 0x013a);
    assert_eq!(calc_checksum(0x00, &[]), 0x0000);
    assert_eq!(calc_checksum(0xff, &[0x01]), 0x0100);
}

#[test]
fn checksum_wraps_at_sixteen_bits() {
    // 255 + 258 * 255 = 66045, which wraps to 66045 - 65536 = 509.
    let payload = vec![0xffu8; 258];
    assert_eq!(calc_checksum(0xff, &payload), 509);
}

#[test]
fn wrap_exact_bytes() {
    let wire = wrap(vec![0xd0, 0x04, 0x00]);
    assert_eq!(wire, vec![0x04, 0xd0, 0x04, 0x00, 0xff, 0x28]);
}

#[test]
fn round_trip_ack_fields() {
    let wire = wrap(vec![0xd0, 0x04, 0x00]);
    let frame = decode(&wire).unwrap();
    assert_eq!(frame.length, 4);
    assert!(matches!(frame.opcode, OpCode::Ack));
    assert!(matches!(frame.source, Source::Host));
    assert_eq!(frame.status.bits(), 0);
    assert!(frame.data.is_empty());
}

#[test]
fn round_trip_with_data() {
    let wire = wrap(vec![0xf3, 0x00, 0x0b, 0x41, 0x42]);
    let frame = decode(&wire).unwrap();
    assert_eq!(frame.length, 6);
    assert!(matches!(frame.opcode, OpCode::DecodeData));
    assert!(matches!(frame.source, Source::Scanner));
    assert_eq!(frame.status.bits(), 0x0b);
    assert!(frame.status.retransmit());
    assert!(frame.status.continuation());
    assert!(frame.status.change_type());
    assert_eq!(frame.data, &[0x41, 0x42]);
}

#[test]
fn round_trip_largest_fields() {
    let mut fields = vec![0xd1, 0x04, 0x02];
    fields.extend(std::iter::repeat(0xaa).take(250));
    assert_eq!(fields.len(), 253);
    let wire = wrap(fields.clone());
    assert_eq!(wire[0], 254);
    let frame = decode(&wire).unwrap();
    assert_eq!(frame.length, 254);
    assert!(matches!(frame.opcode, OpCode::Nack));
    assert!(matches!(frame.source, Source::Host));
    assert_eq!(frame.status.bits(), 0x02);
    assert_eq!(frame.data, &fields[3..]);
}

#[test]
fn end_to_end_decode_data_example() {
    // checksum = 6 + 0xf3 + 0x00 + 0x00 + 0x41 = 0x013a;
    // negated: 0x10000 - 0x013a = 0xfec6.
    let wire = [0x06, 0xf3, 0x00, 0x00, 0x41, 0xfe, 0xc6];
    let frame = decode(&wire).unwrap();
    assert!(matches!(frame.opcode, OpCode::DecodeData));
    assert!(matches!(frame.source, Source::Scanner));
    assert_eq!(frame.status.bits(), 0);
    assert_eq!(frame.data, &[0x41]);
    assert_eq!(
        ContentType::from_byte(0x41),
        Err(DecodeError::UnrecognizedContentType(0x41))
    );
}

#[test]
fn flipped_payload_bit_fails_checksum() {
    let wire = wrap(vec![0xf3, 0x00, 0x00, 0x41]);
    // Flip each bit of the length byte and of every payload byte in turn.
    for pos in 0..wire.len() - 2 {
        for bit in 0..8 {
            let mut corrupt = wire.clone();
            corrupt[pos] ^= 1u8 << bit;
            assert_eq!(decode(&corrupt).unwrap_err(), DecodeError::InvalidChecksum);
        }
    }
}

#[test]
fn short_buffers_fail_with_length_error() {
    assert_eq!(decode(&[]).unwrap_err(), DecodeError::InvalidMessageLength);
    assert_eq!(decode(&[0x01]).unwrap_err(), DecodeError::InvalidMessageLength);
    assert_eq!(decode(&[0x01, 0x02]).unwrap_err(), DecodeError::InvalidMessageLength);
    assert_eq!(decode(&[0x01, 0x02, 0x03]).unwrap_err(), DecodeError::InvalidMessageLength);
}

#[test]
fn short_payload_with_good_checksum_fails_with_length_error() {
    // [0x02, 0x41, hi, lo]: checksum = 2 + 0x41 = 0x43, negated 0xffbd.
    let wire = [0x02, 0x41, 0xff, 0xbd];
    assert_eq!(decode(&wire).unwrap_err(), DecodeError::InvalidMessageLength);
}

#[test]
fn short_payload_with_bad_checksum_fails_with_checksum_error() {
    // The checksum is verified before the payload is split into fields.
    let wire = [0x02, 0x41, 0x00, 0x00];
    assert_eq!(decode(&wire).unwrap_err(), DecodeError::InvalidChecksum);
}

#[test]
fn opcode_mapping_is_total_and_inverse() {
    for b in 0u8..=0xff {
        let code = OpCode::from_byte(b);
        assert_eq!(code.to_byte(), b);
        match b {
            0xd0 => assert!(matches!(code, OpCode::Ack)),
            0xd1 => assert!(matches!(code, OpCode::Nack)),
            0xf3 => assert!(matches!(code, OpCode::DecodeData)),
            _ => assert!(matches!(code, OpCode::Other(v) if v == b)),
        }
    }
}

#[test]
fn source_mapping_is_partial_and_inverse() {
    assert_eq!(Source::from_byte(0x00), Ok(Source::Scanner));
    assert_eq!(Source::from_byte(0x04), Ok(Source::Host));
    assert_eq!(Source::Scanner.to_byte(), 0x00);
    assert_eq!(Source::Host.to_byte(), 0x04);
    for b in 0u8..=0xff {
        if b != 0x00 && b != 0x04 {
            assert_eq!(Source::from_byte(b), Err(DecodeError::InvalidSource(b)));
        }
    }
}

#[test]
fn undefined_source_byte_is_rejected_not_fatal() {
    let wire = wrap(vec![0xd0, 0x05, 0x00]);
    assert_eq!(decode(&wire).unwrap_err(), DecodeError::InvalidSource(0x05));
}

#[test]
fn content_type_documented_codes() {
    assert_eq!(ContentType::from_byte(0x01), Ok(ContentType::Code39));
    assert_eq!(ContentType::from_byte(0x03), Ok(ContentType::Code128));
    assert_eq!(ContentType::from_byte(0x0b), Ok(ContentType::Ean13));
    assert_eq!(ContentType::from_byte(0x1c), Ok(ContentType::Qr));
    assert_eq!(ContentType::from_byte(0x2d), Ok(ContentType::Aztec));
    assert_eq!(ContentType::from_byte(0x36), Ok(ContentType::Issn));
    assert_eq!(ContentType::from_byte(0x50), Ok(ContentType::UpcE1Plus2));
    assert_eq!(ContentType::from_byte(0x71), Ok(ContentType::Matrix2of5));
    assert_eq!(ContentType::from_byte(0x73), Ok(ContentType::Korean3of5));
    assert_eq!(ContentType::from_byte(0xa0), Ok(ContentType::OcrB));
    assert_eq!(ContentType::from_byte(0xc4), Ok(ContentType::Dotcode));
    assert_eq!(ContentType::from_byte(0xe1), Ok(ContentType::RfidURI));
}

#[test]
fn content_type_undocumented_codes_carry_the_byte() {
    for b in [0x00u8, 0x14, 0x33, 0x41, 0x5b, 0xc5, 0xff] {
        assert_eq!(
            ContentType::from_byte(b),
            Err(DecodeError::UnrecognizedContentType(b))
        );
    }
}

#[test]
fn status_truncates_unknown_bits() {
    // Bit 4 is undefined: it never surfaces as a named flag.
    let s = Status::from_bits_truncate(0x10);
    assert_eq!(s.bits(), 0);
    assert!(!s.retransmit());
    assert!(!s.continuation());
    assert!(!s.change_type());
    // All bits set: only the three named ones remain.
    let all = Status::from_bits_truncate(0xff);
    assert_eq!(all.bits(), STATUS_MASK);
    assert!(all.retransmit());
    assert!(all.continuation());
    assert!(all.change_type());
    assert_eq!(Status::empty().bits(), 0);
    let d: Status = Default::default();
    assert_eq!(d.bits(), 0);
}

#[test]
fn status_bit_four_in_a_frame_is_dropped_without_failure() {
    let wire = wrap(vec![0xd0, 0x00, 0x10]);
    let frame = decode(&wire).unwrap();
    assert_eq!(frame.status.bits(), 0);
}

#[test]
fn ack_frame_exact_bytes() {
    assert_eq!(ack_frame(), vec![0x04, 0xd0, 0x04, 0x00, 0xff, 0x28]);
}

#[test]
fn dispatch_acknowledges_and_interprets_decode_data() {
    let wire = [0x06, 0xf3, 0x00, 0x00, 0x41, 0xfe, 0xc6];
    match dispatch(&wire) {
        Outcome::Reply { frame, ack, content } => {
            assert!(matches!(frame.opcode, OpCode::DecodeData));
            assert_eq!(ack, vec![0x04, 0xd0, 0x04, 0x00, 0xff, 0x28]);
            match content {
                Some(DataInterpretation::Unrecognized(b, rest)) => {
                    assert_eq!(b, 0x41);
                    assert!(rest.is_empty());
                }
                _ => panic!("expected an unrecognized content type"),
            }
        }
        Outcome::Failed(e) => panic!("dispatch failed: {:?}", e),
    }
}

#[test]
fn dispatch_recognizes_documented_content() {
    // Data: content type 0x0b (EAN-13) followed by the scanned text "123".
    let wire = wrap(vec![0xf3, 0x00, 0x00, 0x0b, 0x31, 0x32, 0x33]);
    match dispatch(&wire) {
        Outcome::Reply { content, .. } => match content {
            Some(DataInterpretation::Recognized(c, rest)) => {
                assert_eq!(c, ContentType::Ean13);
                assert_eq!(rest, &[0x31, 0x32, 0x33]);
            }
            _ => panic!("expected a recognized content type"),
        },
        Outcome::Failed(e) => panic!("dispatch failed: {:?}", e),
    }
}

#[test]
fn dispatch_flags_empty_decode_data_payload() {
    let wire = wrap(vec![0xf3, 0x00, 0x00]);
    match dispatch(&wire) {
        Outcome::Reply { content, .. } => {
            assert!(matches!(content, Some(DataInterpretation::Empty)));
        }
        Outcome::Failed(e) => panic!("dispatch failed: {:?}", e),
    }
}

#[test]
fn dispatch_skips_interpretation_for_other_opcodes() {
    let wire = wrap(vec![0xd1, 0x00, 0x00, 0x0b]);
    match dispatch(&wire) {
        Outcome::Reply { frame, content, .. } => {
            assert!(matches!(frame.opcode, OpCode::Nack));
            assert!(content.is_none());
        }
        Outcome::Failed(e) => panic!("dispatch failed: {:?}", e),
    }
}

#[test]
fn dispatch_reports_failure_without_acknowledgment() {
    let mut wire = wrap(vec![0xd0, 0x04, 0x00]);
    wire[1] ^= 0x01;
    match dispatch(&wire) {
        Outcome::Reply { .. } => panic!("corrupt frame must not decode"),
        Outcome::Failed(e) => assert_eq!(e, DecodeError::InvalidChecksum),
    }
}

#[test]
fn interpret_decode_data_directly() {
    assert!(matches!(interpret_decode_data(&[]), DataInterpretation::Empty));
    match interpret_decode_data(&[0x2d, 0x58]) {
        DataInterpretation::Recognized(c, rest) => {
            assert_eq!(c, ContentType::Aztec);
            assert_eq!(rest, &[0x58]);
        }
        _ => panic!("expected Aztec"),
    }
}
