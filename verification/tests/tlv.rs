use rusmpp::decode::Decode;
use rusmpp::encode::Encode;
use rusmpp::tlvs::message_submission_request::MessageSubmissionRequestTlvValue;
use rusmpp::tlvs::tlv::{MessagePayload, Tlv, TlvValue};
use rusmpp::tlvs::tlv_tag::TlvTag;
use rusmpp::types::any_octet_string::AnyOctetString;

#[test]
fn tlv_round_trip() {
    let cases = vec![
        TlvValue::DestPort(0xBEEF),
        TlvValue::SarTotalSegments(3),
        TlvValue::QosTimeToLive(86400),
        TlvValue::MessagePayload(MessagePayload::new(AnyOctetString::from_slice(b"payload"))),
        TlvValue::Other {
            tag: TlvTag::Other(0x1400),
            value: AnyOctetString::from_slice(&[1, 2, 3]),
        },
    ];
    for value in cases {
        let tlv = Tlv::new(value);
        let mut buf: Vec<u8> = Vec::new();
        tlv.encode(&mut buf);
        assert_eq!(tlv.length(), buf.len());
        let (decoded, size) = <Tlv as Decode>::decode(&buf).unwrap();
        assert_eq!(size, buf.len());
        assert_eq!(decoded.tag(), tlv.tag());
        assert_eq!(decoded.value_length(), tlv.value_length());
        let mut buf2: Vec<u8> = Vec::new();
        decoded.encode(&mut buf2);
        assert_eq!(buf2, buf);
    }
}

#[test]
fn tlv_wire_layout() {
    // Tag and length are two-octet big-endian integers; the value
    // follows verbatim.
    let tlv = Tlv::new(TlvValue::SourcePort(0x0102));
    let mut buf: Vec<u8> = Vec::new();
    tlv.encode(&mut buf);
    assert_eq!(buf, vec![0x02, 0x0A, 0x00, 0x02, 0x01, 0x02]);
}

#[test]
fn message_submission_request_narrowing() {
    let value = TlvValue::DestPort(9200);
    match MessageSubmissionRequestTlvValue::from_tlv_value(value) {
        Some(MessageSubmissionRequestTlvValue::DestPort(p)) => assert_eq!(p, 9200),
        other => panic!("destination port not accepted: {:?}", other),
    }
    let value = TlvValue::MessageState(rusmpp::values::MessageState::Delivered);
    assert!(MessageSubmissionRequestTlvValue::from_tlv_value(value).is_none());
    let value = TlvValue::Other {
        tag: TlvTag::Other(0x1400),
        value: AnyOctetString::from_slice(&[7]),
    };
    match MessageSubmissionRequestTlvValue::from_tlv_value(value) {
        Some(MessageSubmissionRequestTlvValue::Other { tag, value }) => {
            assert_eq!(tag, TlvTag::Other(0x1400));
            assert_eq!(value.bytes().as_slice(), &[7]);
        }
        other => panic!("unknown tag not preserved: {:?}", other),
    }
}
