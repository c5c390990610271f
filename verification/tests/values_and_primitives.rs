use rusmpp::decode::Decode;
use rusmpp::encode::Encode;
use rusmpp::values::{
    DataCoding, EsmClass, InterfaceVersion, Npi, RegisteredDelivery, Ton,
};
use rusmpp::values::{
    Ansi41Specific, GsmFeatures, IntermediateNotification, MCDeliveryReceipt, MessagingMode,
    MessageType, SmeOriginatedAcknowledgement,
};

#[test]
fn big_endian_integers() {
    // A 2-octet integer with the decimal value 41746 is encoded as
    // 0xA312, most significant byte first.
    let mut buf: Vec<u8> = Vec::new();
    41746u16.encode(&mut buf);
    assert_eq!(buf, vec![0xA3, 0x12]);
    let (value, size) = <u16 as Decode>::decode(&buf).unwrap();
    assert_eq!(value, 41746);
    assert_eq!(size, 2);

    let mut buf: Vec<u8> = Vec::new();
    5u8.encode(&mut buf);
    assert_eq!(buf, vec![0x05]);

    let mut buf: Vec<u8> = Vec::new();
    0xDEAD_BEEFu32.encode(&mut buf);
    assert_eq!(buf, vec![0xDE, 0xAD, 0xBE, 0xEF]);
    let (value, size) = <u32 as Decode>::decode(&buf).unwrap();
    assert_eq!(value, 0xDEAD_BEEF);
    assert_eq!(size, 4);
}

#[test]
fn value_enums_round_trip() {
    for raw in 0..=255u8 {
        assert_eq!(Ton::from_value(raw).value(), raw);
        assert_eq!(Npi::from_value(raw).value(), raw);
        assert_eq!(DataCoding::from_value(raw).value(), raw);
        assert_eq!(InterfaceVersion::from_value(raw).value(), raw);
    }
    assert_eq!(Ton::from_value(1), Ton::International);
    assert_eq!(Npi::from_value(1), Npi::Isdn);
    assert_eq!(Ton::from_value(200), Ton::Other(200));
    assert_eq!(InterfaceVersion::from_value(0x50), InterfaceVersion::Smpp5_0);
    assert_eq!(InterfaceVersion::from_value(0x34), InterfaceVersion::Smpp3_4);
    assert_eq!(
        InterfaceVersion::from_value(0x33),
        InterfaceVersion::Smpp3_3OrEarlier(0x33)
    );
}

#[test]
fn esm_class_bit_exact() {
    for raw in 0..=255u8 {
        assert_eq!(EsmClass::from_value(raw).value(), raw);
    }
    let esm = EsmClass::from_value(0b0100_0111);
    assert_eq!(esm.messaging_mode, MessagingMode::StoreAndForward);
    assert_eq!(esm.message_type, MessageType::ShortMessageContainsMCDeliveryReceipt);
    assert_eq!(esm.ansi41_specific, Ansi41Specific::Other(0));
    assert_eq!(esm.gsm_features, GsmFeatures::UdhiIndicator);
    assert_eq!(EsmClass::default().value(), 0);
}

#[test]
fn registered_delivery_bit_exact() {
    for raw in 0..=255u8 {
        assert_eq!(RegisteredDelivery::from_value(raw).value(), raw);
    }
    let rd = RegisteredDelivery::request_all();
    assert_eq!(rd.value(), 1);
    assert_eq!(
        rd.mc_delivery_receipt,
        MCDeliveryReceipt::McDeliveryReceiptRequestedWhereFinalDeliveryOutcomeIsSuccessOrFailure
    );
    let rd = RegisteredDelivery::from_value(0b1011_0110);
    assert_eq!(rd.mc_delivery_receipt, MCDeliveryReceipt::McDeliveryReceiptRequestedWhereFinalDeliveryOutcomeIsFailure);
    assert_eq!(
        rd.sme_originated_acknowledgement,
        SmeOriginatedAcknowledgement::SmeDeliveryAcknowledgmentRequested
    );
    assert_eq!(
        rd.intermediate_notification,
        IntermediateNotification::IntermediateNotificationRequested
    );
    assert_eq!(rd.other, 0b1010_0000);
}
