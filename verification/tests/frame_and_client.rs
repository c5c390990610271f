use rusmpp::client::{Action, ActionEffect, ConnectionCore, Error, SequenceNumbers};
use rusmpp::client::check_interface_version;
use rusmpp::codec::{CommandCodec, DecodeError};
use rusmpp::command::{Command, CommandId, CommandStatus, Pdu};
use rusmpp::decode::{COctetStringDecodeError, DecodeErrorKind};
use rusmpp::pdus::submit_sm::SubmitSm;
use rusmpp::tlvs::tlv::TlvValue;
use rusmpp::tlvs::tlv_tag::TlvTag;
use rusmpp::types::c_octet_string::COctetString;
use rusmpp::types::octet_string::OctetString;
use rusmpp::values::{DataCoding, EsmClass, Npi, Ton};
use rusmpp::values::InterfaceVersion;

fn frame_of(command: &Command) -> Vec<u8> {
    let mut codec = CommandCodec::new();
    let mut out: Vec<u8> = Vec::new();
    codec.encode(command, &mut out);
    out
}

#[test]
fn frame_minimum_length_rejected() {
    // A length prefix of 15 is below the 16-octet header minimum.
    let mut codec = CommandCodec::new();
    let mut buf: Vec<u8> = vec![0x00, 0x00, 0x00, 0x0F];
    buf.extend_from_slice(&[0u8; 12]);
    let error = codec.decode(&mut buf).unwrap_err();
    assert!(matches!(error, DecodeError::MinLength { actual: 15, min: 16 }));
}

#[test]
fn frame_maximum_length_rejected() {
    // With max_length 64, a length prefix of 256 is rejected.
    let mut codec = CommandCodec::new().with_max_length(64);
    let mut buf: Vec<u8> = vec![0x00, 0x00, 0x01, 0x00];
    buf.extend_from_slice(&[0u8; 12]);
    let error = codec.decode(&mut buf).unwrap_err();
    assert!(matches!(error, DecodeError::MaxLength { actual: 256, max: 64 }));
}

#[test]
fn frame_need_more_bytes_then_completes() {
    // Ten bytes with a valid prefix: no command yet; the rest completes it.
    let command = Command::new(CommandStatus::EsmeRok, 5, Pdu::EnquireLink);
    let frame = frame_of(&command);
    assert_eq!(frame.len(), 16);

    let mut codec = CommandCodec::new();
    let mut buf: Vec<u8> = frame[..10].to_vec();
    assert!(matches!(codec.decode(&mut buf), Ok(None)));
    buf.extend_from_slice(&frame[10..]);
    let decoded = codec.decode(&mut buf).unwrap().unwrap();
    assert_eq!(decoded.id(), CommandId::EnquireLink);
    assert_eq!(decoded.sequence_number(), 5);
    assert!(buf.is_empty());
}

#[test]
fn frame_round_trip_submit_sm() {
    let body = SubmitSm::builder()
        .source_addr(COctetString::from_string(String::from("12345")).unwrap())
        .destination_addr(COctetString::from_string(String::from("491701234567")).unwrap())
        .short_message(OctetString::from_slice(b"Hi").unwrap())
        .esm_class(EsmClass::default())
        .data_coding(DataCoding::McSpecific)
        .source_addr_ton(Ton::Unknown)
        .source_addr_npi(Npi::Unknown)
        .build();
    let command = Command::new(CommandStatus::EsmeRok, 1, Pdu::SubmitSm(body));
    let frame = frame_of(&command);

    let mut codec = CommandCodec::new();
    let mut buf = frame.clone();
    let decoded = codec.decode(&mut buf).unwrap().unwrap();
    assert!(buf.is_empty());
    assert_eq!(decoded.id(), CommandId::SubmitSm);
    assert_eq!(decoded.status(), CommandStatus::EsmeRok);
    assert_eq!(decoded.sequence_number(), 1);
    match decoded.pdu().as_ref().unwrap() {
        Pdu::SubmitSm(decoded_body) => {
            assert_eq!(
                decoded_body.source_addr().clone().into_vec(),
                b"12345\0".to_vec()
            );
            assert_eq!(
                decoded_body.destination_addr().clone().into_vec(),
                b"491701234567\0".to_vec()
            );
            assert_eq!(
                decoded_body.short_message().clone().into_vec(),
                b"Hi".to_vec()
            );
            assert_eq!(decoded_body.sm_length(), 2);
            assert_eq!(decoded_body.esm_class(), EsmClass::default());
            assert_eq!(decoded_body.data_coding(), DataCoding::McSpecific);
        }
        other => panic!("decoded into the wrong body: {:?}", other),
    }

    // Re-encoding the decoded command gives bit-identical bytes.
    let reencoded = frame_of(&decoded);
    assert_eq!(reencoded, frame);
}

#[test]
fn unknown_tlv_preserved() {
    // A response carrying a TLV with the unassigned tag 0x1400 and a
    // 3-octet value decodes to `Other` and re-encodes bit-identically.
    let mut frame: Vec<u8> = Vec::new();
    let body: Vec<u8> = {
        let mut b: Vec<u8> = b"id\0".to_vec();
        b.extend_from_slice(&[0x14, 0x00, 0x00, 0x03, 0xAA, 0xBB, 0xCC]);
        b
    };
    frame.extend_from_slice(&(16u32 + body.len() as u32).to_be_bytes());
    frame.extend_from_slice(&0x8000_0004u32.to_be_bytes());
    frame.extend_from_slice(&0u32.to_be_bytes());
    frame.extend_from_slice(&7u32.to_be_bytes());
    frame.extend_from_slice(&body);

    let mut codec = CommandCodec::new();
    let mut buf = frame.clone();
    let decoded = codec.decode(&mut buf).unwrap().unwrap();
    assert_eq!(decoded.id(), CommandId::SubmitSmResp);
    match decoded.pdu().as_ref().unwrap() {
        Pdu::SubmitSmResp(resp) => {
            assert_eq!(resp.message_id().clone().into_vec(), b"id\0".to_vec());
            assert_eq!(resp.tlvs().len(), 1);
            let tlv = &resp.tlvs()[0];
            assert_eq!(tlv.tag(), TlvTag::Other(0x1400));
            assert_eq!(tlv.value_length(), 3);
            match tlv.value() {
                Some(TlvValue::Other { tag, value }) => {
                    assert_eq!(*tag, TlvTag::Other(0x1400));
                    assert_eq!(value.bytes().as_slice(), &[0xAA, 0xBB, 0xCC]);
                }
                other => panic!("unknown TLV not preserved: {:?}", other),
            }
        }
        other => panic!("decoded into the wrong body: {:?}", other),
    }
    let reencoded = frame_of(&decoded);
    assert_eq!(reencoded, frame);
}

#[test]
fn decode_error_resynchronizes() {
    // Two concatenated frames: the first carries a malformed string,
    // the second is valid. One error is reported, then the second
    // frame decodes.
    let mut bad_frame: Vec<u8> = Vec::new();
    bad_frame.extend_from_slice(&18u32.to_be_bytes());
    bad_frame.extend_from_slice(&0x8000_0004u32.to_be_bytes());
    bad_frame.extend_from_slice(&0u32.to_be_bytes());
    bad_frame.extend_from_slice(&9u32.to_be_bytes());
    bad_frame.extend_from_slice(b"AB");

    let good = Command::new(CommandStatus::EsmeRok, 11, Pdu::EnquireLink);
    let good_frame = frame_of(&good);

    let mut buf = bad_frame;
    buf.extend_from_slice(&good_frame);

    let mut codec = CommandCodec::new();
    let error = codec.decode(&mut buf).unwrap_err();
    match error {
        DecodeError::Decode(inner) => assert!(matches!(
            inner.kind(),
            DecodeErrorKind::COctetStringDecodeError(COctetStringDecodeError::NotNullTerminated)
        )),
        other => panic!("expected a decode error, got {:?}", other),
    }
    let decoded = codec.decode(&mut buf).unwrap().unwrap();
    assert_eq!(decoded.id(), CommandId::EnquireLink);
    assert_eq!(decoded.sequence_number(), 11);
    assert!(buf.is_empty());
}

#[test]
fn pending_response_reaped_on_timeout() {
    // A registered request's sequence number leaves the pending table
    // when the caller times out and sends a remove action.
    let mut core = ConnectionCore::new();
    let mut numbers = SequenceNumbers::new();
    let sequence_number = numbers.next_sequence_number();
    assert_eq!(sequence_number, 1);

    let body = SubmitSm::default();
    let command = Command::new(CommandStatus::EsmeRok, sequence_number, Pdu::SubmitSm(body));
    match core.handle_action(Action::RegisteredRequest(command)) {
        ActionEffect::WriteRegistered(_) => {}
        other => panic!("expected a registered write, got {:?}", other),
    }
    assert!(core.contains(sequence_number));

    // The caller times out: the actor receives a remove.
    match core.handle_action(Action::Remove(sequence_number)) {
        ActionEffect::Removed => {}
        other => panic!("expected an eviction, got {:?}", other),
    }
    assert!(!core.contains(sequence_number));
    assert!(core.pending_responses().is_empty());
}

#[test]
fn sequence_numbers_step_by_two() {
    let mut numbers = SequenceNumbers::new();
    assert_eq!(numbers.next_sequence_number(), 1);
    assert_eq!(numbers.next_sequence_number(), 3);
    assert_eq!(numbers.next_sequence_number(), 5);
}

#[test]
fn incoming_routes_by_pending() {
    let mut core = ConnectionCore::new();
    core.register(1);
    core.register(3);
    assert!(core.on_incoming(3));
    assert!(!core.on_incoming(3));
    assert!(!core.on_incoming(42));
    assert!(core.contains(1));
}

#[test]
fn close_drains_pending() {
    let mut core = ConnectionCore::new();
    core.register(1);
    core.register(3);
    match core.handle_action(Action::Close) {
        ActionEffect::CloseNow(drained) => assert_eq!(drained, vec![1, 3]),
        other => panic!("expected a close, got {:?}", other),
    }
    assert!(core.pending_responses().is_empty());
}

#[test]
fn interface_version_guard() {
    assert!(check_interface_version(true, InterfaceVersion::Smpp5_0).is_ok());
    assert!(check_interface_version(false, InterfaceVersion::Smpp3_4).is_ok());
    match check_interface_version(true, InterfaceVersion::Smpp3_4) {
        Err(Error::UnsupportedInterfaceVersion(v)) => {
            assert_eq!(v, InterfaceVersion::Smpp3_4)
        }
        other => panic!("expected the version to be rejected, got {:?}", other),
    }
}

#[test]
fn command_status_classifies() {
    let command = Command::new(CommandStatus::EsmeRinvmsglen, 2, Pdu::EnquireLinkResp);
    assert!(command.ok().is_err());
    let command = Command::new(CommandStatus::EsmeRok, 2, Pdu::EnquireLinkResp);
    let command = command.ok().unwrap();
    let command = command.ok_and_matches(CommandId::EnquireLinkResp).unwrap();
    assert!(command.ok_and_matches(CommandId::SubmitSmResp).is_err());
}
