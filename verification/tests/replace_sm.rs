use rusmpp::decode::DecodeWithLength;
use rusmpp::encode::Encode;
use rusmpp::pdus::replace_sm::ReplaceSm;
use rusmpp::tlvs::tlv::{MessagePayload, TlvValue};
use rusmpp::tlvs::tlv_tag::TlvTag;
use rusmpp::types::any_octet_string::AnyOctetString;
use rusmpp::types::c_octet_string::COctetString;
use rusmpp::types::empty_or_full_c_octet_string::EmptyOrFullCOctetString;
use rusmpp::types::octet_string::OctetString;
use rusmpp::values::{Npi, RegisteredDelivery, Ton};

fn assert_round_trip(original: &ReplaceSm) {
    let mut buf: Vec<u8> = Vec::new();
    original.encode(&mut buf);
    assert_eq!(original.length(), buf.len());
    let (decoded, size) = <ReplaceSm as DecodeWithLength>::decode(&buf, buf.len()).unwrap();
    assert_eq!(size, buf.len());
    assert_eq!(
        decoded.message_id().clone().into_vec(),
        original.message_id().clone().into_vec()
    );
    assert_eq!(decoded.source_addr_ton(), original.source_addr_ton());
    assert_eq!(decoded.source_addr_npi(), original.source_addr_npi());
    assert_eq!(
        decoded.source_addr().clone().into_vec(),
        original.source_addr().clone().into_vec()
    );
    assert_eq!(
        decoded.schedule_delivery_time().clone().into_vec(),
        original.schedule_delivery_time().clone().into_vec()
    );
    assert_eq!(
        decoded.validity_period().clone().into_vec(),
        original.validity_period().clone().into_vec()
    );
    assert_eq!(decoded.registered_delivery(), original.registered_delivery());
    assert_eq!(decoded.sm_default_msg_id(), original.sm_default_msg_id());
    assert_eq!(decoded.sm_length(), original.sm_length());
    assert_eq!(
        decoded.short_message().clone().into_vec(),
        original.short_message().clone().into_vec()
    );
    match (decoded.message_payload_tlv(), original.message_payload_tlv()) {
        (None, None) => {}
        (Some(d), Some(o)) => {
            assert_eq!(d.tag(), o.tag());
            assert_eq!(d.value_length(), o.value_length());
            match (d.value(), o.value()) {
                (Some(TlvValue::MessagePayload(dp)), Some(TlvValue::MessagePayload(op))) => {
                    assert_eq!(dp.value().bytes(), op.value().bytes());
                }
                _ => panic!("message_payload TLV lost its value"),
            }
        }
        _ => panic!("message_payload TLV presence changed"),
    }
}

#[test]
fn replace_sm_encode_decode() {
    let instances = [
        ReplaceSm::default(),
        ReplaceSm::builder()
            .message_id(
                COctetString::from_string(String::from("123456789012345678901234")).unwrap(),
            )
            .source_addr_ton(Ton::International)
            .source_addr_npi(Npi::Isdn)
            .source_addr(COctetString::from_string(String::from("Source Addr")).unwrap())
            .schedule_delivery_time(
                EmptyOrFullCOctetString::from_slice(b"2023-10-01T12:00\0").unwrap(),
            )
            .validity_period(EmptyOrFullCOctetString::from_slice(b"2023-10-01T12:00\0").unwrap())
            .registered_delivery(RegisteredDelivery::default())
            .sm_default_msg_id(0)
            .short_message(OctetString::from_slice(b"Short Message").unwrap())
            .build(),
        ReplaceSm::builder()
            .message_id(
                COctetString::from_string(String::from("123456789012345678901234")).unwrap(),
            )
            .source_addr_ton(Ton::International)
            .source_addr_npi(Npi::Isdn)
            .source_addr(COctetString::from_string(String::from("Source Addr")).unwrap())
            .schedule_delivery_time(
                EmptyOrFullCOctetString::from_slice(b"2023-10-01T12:00\0").unwrap(),
            )
            .validity_period(EmptyOrFullCOctetString::from_slice(b"2023-10-01T12:00\0").unwrap())
            .registered_delivery(RegisteredDelivery::default())
            .sm_default_msg_id(0)
            .message_payload(Some(MessagePayload::new(AnyOctetString::from_slice(
                b"Message Payload",
            ))))
            .build(),
        ReplaceSm::builder()
            .validity_period(EmptyOrFullCOctetString::from_slice(b"2023-10-01T12:00\0").unwrap())
            .short_message(OctetString::from_slice(b"Short Message").unwrap())
            .message_payload(Some(MessagePayload::new(AnyOctetString::from_slice(
                b"Message Payload",
            ))))
            .build(),
    ];
    for instance in &instances {
        assert_round_trip(instance);
    }
}

#[test]
fn short_message_length() {
    let short_message = OctetString::from_slice(b"Short Message").unwrap();
    let submit_sm = ReplaceSm::builder()
        .short_message(short_message.clone())
        .build();
    assert_eq!(
        submit_sm.short_message().clone().into_vec(),
        short_message.clone().into_vec()
    );
    assert_eq!(submit_sm.sm_length() as usize, short_message.length());
}

#[test]
fn replace_sm_message_payload_tlv_shape() {
    let body = ReplaceSm::builder()
        .message_payload(Some(MessagePayload::new(AnyOctetString::from_slice(b"abc"))))
        .build();
    let tlv = body.message_payload_tlv().as_ref().unwrap();
    assert_eq!(tlv.tag(), TlvTag::MessagePayload);
    assert_eq!(tlv.value_length(), 3);
    let payload = body.message_payload().unwrap();
    assert_eq!(payload.value().bytes().as_slice(), b"abc");
}

#[test]
fn replace_sm_clear_short_message() {
    let mut body = ReplaceSm::builder()
        .short_message(OctetString::from_slice(b"Hi").unwrap())
        .build();
    assert_eq!(body.sm_length(), 2);
    body.clear_short_message();
    assert_eq!(body.sm_length(), 0);
    assert!(body.short_message().is_empty());
}
