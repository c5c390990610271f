//! Tag-length-value optional parameters: two octets of tag, two octets
//! of value length, then the value itself, decoded under the direction
//! of the tag. Unknown tags are preserved bit-exactly in `Other`.

use vstd::prelude::*;
use vstd::slice::slice_subrange;

use crate::decode::{Decode, DecodeError, DecodeWithKey, DecodeWithLength};
use crate::encode::Encode;
use crate::primitives::lemma_u16_wire_round_trip;
use crate::tlvs::tlv_tag::TlvTag;
use crate::types::any_octet_string::AnyOctetString;
use crate::types::c_octet_string::{
    c_octet_str_wf, lemma_c_octet_string_wire_round_trip, COctetString,
};
use crate::types::octet_string::OctetString;
use crate::types::{lemma_find_nul_some, no_nul};
use crate::values::{
    AddrSubunit, AlertOnMessageDelivery, DisplayTime, InterfaceVersion, LanguageIndicator,
    MessageState, MoreMessagesToSend, PayloadType, PrivacyIndicator, SetDpf, UssdServiceOp,
};

verus! {

/// Up to 65535 octets of user data carried in a `message_payload` TLV,
/// superseding the inline short message when present.
#[derive(Debug)]
pub struct MessagePayload {
    value: AnyOctetString,
}

impl View for MessagePayload {
    type V = Seq<u8>;

    closed spec fn view(&self) -> Seq<u8> {
        self.value@
    }
}

impl DeepView for MessagePayload {
    type V = Seq<u8>;

    open spec fn deep_view(&self) -> Seq<u8> {
        self.view()
    }
}

impl MessagePayload {
    /// Creates a new [`MessagePayload`] carrying the given octets.
    pub fn new(value: AnyOctetString) -> (r: Self)
        ensures
            r@ == value@,
    {
        MessagePayload { value }
    }

    /// Borrows the carried octets.
    pub fn value(&self) -> (r: &AnyOctetString)
        ensures
            r@ == self@,
    {
        &self.value
    }
}

impl Clone for MessagePayload {
    /// Clones the carried octets: the copy views the same sequence.
    fn clone(&self) -> (r: Self)
        ensures
            r@ == self@,
    {
        MessagePayload { value: self.value.clone() }
    }
}

impl DecodeWithLength for MessagePayload {
    open spec fn spec_decode_with_length(src: Seq<u8>, length: int) -> Option<(Seq<u8>, int)> {
        AnyOctetString::spec_decode_with_length(src, length)
    }

    open spec fn spec_decode_with_length_err(src: Seq<u8>, length: int) -> DecodeError {
        AnyOctetString::spec_decode_with_length_err(src, length)
    }

    proof fn lemma_spec_decode_with_length_size(src: Seq<u8>, length: int) {
        AnyOctetString::lemma_spec_decode_with_length_size(src, length);
    }

    fn decode(src: &[u8], length: usize) -> (r: Result<(Self, usize), DecodeError>) {
        match AnyOctetString::decode(src, length) {
            Ok((value, n)) => Ok((MessagePayload { value }, n)),
            Err(e) => Err(e),
        }
    }
}

impl Encode for MessagePayload {
    open spec fn spec_wf(v: Seq<u8>) -> bool {
        true
    }

    open spec fn spec_wire(v: Seq<u8>) -> Seq<u8> {
        v
    }

    fn encode(&self, dst: &mut Vec<u8>) {
        self.value.encode(dst);
    }

    fn length(&self) -> (r: usize) {
        self.value.len()
    }
}

/// The value of a TLV, selected by its tag. Tags without a dedicated
/// variant are preserved bit-exactly in `Other`.
#[derive(Debug)]
pub enum TlvValue {
    DestAddrSubunit(AddrSubunit),
    SourceAddrSubunit(AddrSubunit),
    DestPort(u16),
    SourcePort(u16),
    SarMsgRefNum(u16),
    SarTotalSegments(u8),
    SarSegmentSeqnum(u8),
    UserMessageReference(u16),
    UserResponseCode(u8),
    QosTimeToLive(u32),
    ScInterfaceVersion(InterfaceVersion),
    MoreMessagesToSend(MoreMessagesToSend),
    PayloadType(PayloadType),
    PrivacyIndicator(PrivacyIndicator),
    SetDpf(SetDpf),
    UssdServiceOp(UssdServiceOp),
    LanguageIndicator(LanguageIndicator),
    DisplayTime(DisplayTime),
    AlertOnMessageDelivery(AlertOnMessageDelivery),
    MessageState(MessageState),
    MessagePayload(MessagePayload),
    ReceiptedMessageId(COctetString<1, 65>),
    CallbackNum(OctetString<4, 19>),
    /// A value whose tag has no dedicated variant, preserved as raw
    /// octets.
    Other { tag: TlvTag, value: AnyOctetString },
}

/// The view of a [`TlvValue`]: the same variants over mathematical
/// payloads.
pub enum TlvValueV {
    DestAddrSubunit(AddrSubunit),
    SourceAddrSubunit(AddrSubunit),
    DestPort(u16),
    SourcePort(u16),
    SarMsgRefNum(u16),
    SarTotalSegments(u8),
    SarSegmentSeqnum(u8),
    UserMessageReference(u16),
    UserResponseCode(u8),
    QosTimeToLive(u32),
    ScInterfaceVersion(InterfaceVersion),
    MoreMessagesToSend(MoreMessagesToSend),
    PayloadType(PayloadType),
    PrivacyIndicator(PrivacyIndicator),
    SetDpf(SetDpf),
    UssdServiceOp(UssdServiceOp),
    LanguageIndicator(LanguageIndicator),
    DisplayTime(DisplayTime),
    AlertOnMessageDelivery(AlertOnMessageDelivery),
    MessageState(MessageState),
    MessagePayload(Seq<u8>),
    ReceiptedMessageId(Seq<u8>),
    CallbackNum(Seq<u8>),
    /// A value whose tag has no dedicated variant.
    Other { tag: TlvTag, value: Seq<u8> },
}

impl DeepView for TlvValue {
    type V = TlvValueV;

    open spec fn deep_view(&self) -> TlvValueV {
        match self {
            TlvValue::DestAddrSubunit(value) => TlvValueV::DestAddrSubunit(value.deep_view()),
            TlvValue::SourceAddrSubunit(value) => TlvValueV::SourceAddrSubunit(value.deep_view()),
            TlvValue::DestPort(value) => TlvValueV::DestPort(value.deep_view()),
            TlvValue::SourcePort(value) => TlvValueV::SourcePort(value.deep_view()),
            TlvValue::SarMsgRefNum(value) => TlvValueV::SarMsgRefNum(value.deep_view()),
            TlvValue::SarTotalSegments(value) => TlvValueV::SarTotalSegments(value.deep_view()),
            TlvValue::SarSegmentSeqnum(value) => TlvValueV::SarSegmentSeqnum(value.deep_view()),
            TlvValue::UserMessageReference(value) => TlvValueV::UserMessageReference(value.deep_view()),
            TlvValue::UserResponseCode(value) => TlvValueV::UserResponseCode(value.deep_view()),
            TlvValue::QosTimeToLive(value) => TlvValueV::QosTimeToLive(value.deep_view()),
            TlvValue::ScInterfaceVersion(value) => TlvValueV::ScInterfaceVersion(value.deep_view()),
            TlvValue::MoreMessagesToSend(value) => TlvValueV::MoreMessagesToSend(value.deep_view()),
            TlvValue::PayloadType(value) => TlvValueV::PayloadType(value.deep_view()),
            TlvValue::PrivacyIndicator(value) => TlvValueV::PrivacyIndicator(value.deep_view()),
            TlvValue::SetDpf(value) => TlvValueV::SetDpf(value.deep_view()),
            TlvValue::UssdServiceOp(value) => TlvValueV::UssdServiceOp(value.deep_view()),
            TlvValue::LanguageIndicator(value) => TlvValueV::LanguageIndicator(value.deep_view()),
            TlvValue::DisplayTime(value) => TlvValueV::DisplayTime(value.deep_view()),
            TlvValue::AlertOnMessageDelivery(value) => TlvValueV::AlertOnMessageDelivery(value.deep_view()),
            TlvValue::MessageState(value) => TlvValueV::MessageState(value.deep_view()),
            TlvValue::MessagePayload(value) => TlvValueV::MessagePayload(value.deep_view()),
            TlvValue::ReceiptedMessageId(value) => TlvValueV::ReceiptedMessageId(value.deep_view()),
            TlvValue::CallbackNum(value) => TlvValueV::CallbackNum(value.deep_view()),
            TlvValue::Other { tag, value } => TlvValueV::Other { tag: *tag, value: value@ },
        }
    }
}

impl View for TlvValue {
    type V = TlvValueV;

    open spec fn view(&self) -> TlvValueV {
        self.deep_view()
    }
}

impl Clone for TlvValue {
    /// Clones the payload: the copy views the same value.
    fn clone(&self) -> (r: Self)
        ensures
            r.deep_view() == self.deep_view(),
    {
        match self {
            TlvValue::DestAddrSubunit(value) => TlvValue::DestAddrSubunit(*value),
            TlvValue::SourceAddrSubunit(value) => TlvValue::SourceAddrSubunit(*value),
            TlvValue::DestPort(value) => TlvValue::DestPort(*value),
            TlvValue::SourcePort(value) => TlvValue::SourcePort(*value),
            TlvValue::SarMsgRefNum(value) => TlvValue::SarMsgRefNum(*value),
            TlvValue::SarTotalSegments(value) => TlvValue::SarTotalSegments(*value),
            TlvValue::SarSegmentSeqnum(value) => TlvValue::SarSegmentSeqnum(*value),
            TlvValue::UserMessageReference(value) => TlvValue::UserMessageReference(*value),
            TlvValue::UserResponseCode(value) => TlvValue::UserResponseCode(*value),
            TlvValue::QosTimeToLive(value) => TlvValue::QosTimeToLive(*value),
            TlvValue::ScInterfaceVersion(value) => TlvValue::ScInterfaceVersion(*value),
            TlvValue::MoreMessagesToSend(value) => TlvValue::MoreMessagesToSend(*value),
            TlvValue::PayloadType(value) => TlvValue::PayloadType(*value),
            TlvValue::PrivacyIndicator(value) => TlvValue::PrivacyIndicator(*value),
            TlvValue::SetDpf(value) => TlvValue::SetDpf(*value),
            TlvValue::UssdServiceOp(value) => TlvValue::UssdServiceOp(*value),
            TlvValue::LanguageIndicator(value) => TlvValue::LanguageIndicator(*value),
            TlvValue::DisplayTime(value) => TlvValue::DisplayTime(*value),
            TlvValue::AlertOnMessageDelivery(value) => TlvValue::AlertOnMessageDelivery(*value),
            TlvValue::MessageState(value) => TlvValue::MessageState(*value),
            TlvValue::MessagePayload(value) => TlvValue::MessagePayload(value.clone()),
            TlvValue::ReceiptedMessageId(value) => TlvValue::ReceiptedMessageId(value.clone()),
            TlvValue::CallbackNum(value) => TlvValue::CallbackNum(value.clone()),
            TlvValue::Other { tag, value } => TlvValue::Other { tag: *tag, value: value.clone() },
        }
    }
}

/// The tag that selects this value.
pub open spec fn tlv_value_tag(v: TlvValueV) -> TlvTag {
    match v {
        TlvValueV::DestAddrSubunit(value) => TlvTag::DestAddrSubunit,
        TlvValueV::SourceAddrSubunit(value) => TlvTag::SourceAddrSubunit,
        TlvValueV::DestPort(value) => TlvTag::DestPort,
        TlvValueV::SourcePort(value) => TlvTag::SourcePort,
        TlvValueV::SarMsgRefNum(value) => TlvTag::SarMsgRefNum,
        TlvValueV::SarTotalSegments(value) => TlvTag::SarTotalSegments,
        TlvValueV::SarSegmentSeqnum(value) => TlvTag::SarSegmentSeqnum,
        TlvValueV::UserMessageReference(value) => TlvTag::UserMessageReference,
        TlvValueV::UserResponseCode(value) => TlvTag::UserResponseCode,
        TlvValueV::QosTimeToLive(value) => TlvTag::QosTimeToLive,
        TlvValueV::ScInterfaceVersion(value) => TlvTag::ScInterfaceVersion,
        TlvValueV::MoreMessagesToSend(value) => TlvTag::MoreMessagesToSend,
        TlvValueV::PayloadType(value) => TlvTag::PayloadType,
        TlvValueV::PrivacyIndicator(value) => TlvTag::PrivacyIndicator,
        TlvValueV::SetDpf(value) => TlvTag::SetDpf,
        TlvValueV::UssdServiceOp(value) => TlvTag::UssdServiceOp,
        TlvValueV::LanguageIndicator(value) => TlvTag::LanguageIndicator,
        TlvValueV::DisplayTime(value) => TlvTag::DisplayTime,
        TlvValueV::AlertOnMessageDelivery(value) => TlvTag::AlertOnMessageDelivery,
        TlvValueV::MessageState(value) => TlvTag::MessageState,
        TlvValueV::MessagePayload(value) => TlvTag::MessagePayload,
        TlvValueV::ReceiptedMessageId(value) => TlvTag::ReceiptedMessageId,
        TlvValueV::CallbackNum(value) => TlvTag::CallbackNum,
        TlvValueV::Other { tag, value } => tag,
    }
}

/// The wire octets of a TLV value, without the tag and length prefix.
pub open spec fn tlv_value_wire(v: TlvValueV) -> Seq<u8> {
    match v {
        TlvValueV::DestAddrSubunit(value) => seq![value.spec_value()],
        TlvValueV::SourceAddrSubunit(value) => seq![value.spec_value()],
        TlvValueV::DestPort(value) => u16::spec_wire(value),
        TlvValueV::SourcePort(value) => u16::spec_wire(value),
        TlvValueV::SarMsgRefNum(value) => u16::spec_wire(value),
        TlvValueV::SarTotalSegments(value) => u8::spec_wire(value),
        TlvValueV::SarSegmentSeqnum(value) => u8::spec_wire(value),
        TlvValueV::UserMessageReference(value) => u16::spec_wire(value),
        TlvValueV::UserResponseCode(value) => u8::spec_wire(value),
        TlvValueV::QosTimeToLive(value) => u32::spec_wire(value),
        TlvValueV::ScInterfaceVersion(value) => seq![value.spec_value()],
        TlvValueV::MoreMessagesToSend(value) => seq![value.spec_value()],
        TlvValueV::PayloadType(value) => seq![value.spec_value()],
        TlvValueV::PrivacyIndicator(value) => seq![value.spec_value()],
        TlvValueV::SetDpf(value) => seq![value.spec_value()],
        TlvValueV::UssdServiceOp(value) => seq![value.spec_value()],
        TlvValueV::LanguageIndicator(value) => seq![value.spec_value()],
        TlvValueV::DisplayTime(value) => seq![value.spec_value()],
        TlvValueV::AlertOnMessageDelivery(value) => seq![value.spec_value()],
        TlvValueV::MessageState(value) => seq![value.spec_value()],
        TlvValueV::MessagePayload(value) => value,
        TlvValueV::ReceiptedMessageId(value) => value,
        TlvValueV::CallbackNum(value) => value,
        TlvValueV::Other { tag, value } => value,
    }
}

/// The structural bounds a [`TlvValue`] always satisfies: its string
/// payloads respect their length invariants.
pub open spec fn tlv_value_struct_wf(v: TlvValueV) -> bool {
    match v {
        TlvValueV::ReceiptedMessageId(value) => c_octet_str_wf(value, 65),
        TlvValueV::CallbackNum(value) => 4 <= value.len() <= 19,
        _ => true,
    }
}

/// Whether a tag has a dedicated [`TlvValue`] variant.
pub open spec fn is_typed_tag(tag: TlvTag) -> bool {
    ||| tag == TlvTag::DestAddrSubunit
    ||| tag == TlvTag::SourceAddrSubunit
    ||| tag == TlvTag::DestPort
    ||| tag == TlvTag::SourcePort
    ||| tag == TlvTag::SarMsgRefNum
    ||| tag == TlvTag::SarTotalSegments
    ||| tag == TlvTag::SarSegmentSeqnum
    ||| tag == TlvTag::UserMessageReference
    ||| tag == TlvTag::UserResponseCode
    ||| tag == TlvTag::QosTimeToLive
    ||| tag == TlvTag::ScInterfaceVersion
    ||| tag == TlvTag::MoreMessagesToSend
    ||| tag == TlvTag::PayloadType
    ||| tag == TlvTag::PrivacyIndicator
    ||| tag == TlvTag::SetDpf
    ||| tag == TlvTag::UssdServiceOp
    ||| tag == TlvTag::LanguageIndicator
    ||| tag == TlvTag::DisplayTime
    ||| tag == TlvTag::AlertOnMessageDelivery
    ||| tag == TlvTag::MessageState
    ||| tag == TlvTag::MessagePayload
    ||| tag == TlvTag::ReceiptedMessageId
    ||| tag == TlvTag::CallbackNum
}

/// The full well-formedness of a [`TlvValue`] view: structural bounds,
/// canonical enumeration payloads, a payload that fits the two-octet
/// length field, and — for `Other` — a canonical tag that no dedicated
/// variant claims. Decoded values always satisfy it; the round-trip law
/// holds of exactly these values.
pub open spec fn tlv_value_wf(v: TlvValueV) -> bool {
    &&& tlv_value_struct_wf(v)
    &&& tlv_value_wire(v).len() <= 65535
    &&& match v {
        TlvValueV::DestAddrSubunit(value) => value.canonical(),
        TlvValueV::SourceAddrSubunit(value) => value.canonical(),
        TlvValueV::DestPort(value) => true,
        TlvValueV::SourcePort(value) => true,
        TlvValueV::SarMsgRefNum(value) => true,
        TlvValueV::SarTotalSegments(value) => true,
        TlvValueV::SarSegmentSeqnum(value) => true,
        TlvValueV::UserMessageReference(value) => true,
        TlvValueV::UserResponseCode(value) => true,
        TlvValueV::QosTimeToLive(value) => true,
        TlvValueV::ScInterfaceVersion(value) => value.canonical(),
        TlvValueV::MoreMessagesToSend(value) => value.canonical(),
        TlvValueV::PayloadType(value) => value.canonical(),
        TlvValueV::PrivacyIndicator(value) => value.canonical(),
        TlvValueV::SetDpf(value) => value.canonical(),
        TlvValueV::UssdServiceOp(value) => value.canonical(),
        TlvValueV::LanguageIndicator(value) => value.canonical(),
        TlvValueV::DisplayTime(value) => value.canonical(),
        TlvValueV::AlertOnMessageDelivery(value) => value.canonical(),
        TlvValueV::MessageState(value) => value.canonical(),
        TlvValueV::MessagePayload(value) => value.len() <= 65535,
        TlvValueV::ReceiptedMessageId(value) => c_octet_str_wf(value, 65),
        TlvValueV::CallbackNum(value) => 4 <= value.len() <= 19,
        TlvValueV::Other { tag, value } => tag.canonical() && !is_typed_tag(tag),
    }
}

/// The specification-level parser of a TLV value: the tag directs which
/// shape is read from the value window.
pub open spec fn spec_tlv_value_decode(tag: TlvTag, win: Seq<u8>, length: int) -> Option<
    (TlvValueV, int),
> {
    match tag {
        TlvTag::DestAddrSubunit => match AddrSubunit::spec_decode(win) {
            None => None,
            Some((value, n)) => Some((TlvValueV::DestAddrSubunit(value), n)),
        },
        TlvTag::SourceAddrSubunit => match AddrSubunit::spec_decode(win) {
            None => None,
            Some((value, n)) => Some((TlvValueV::SourceAddrSubunit(value), n)),
        },
        TlvTag::DestPort => match u16::spec_decode(win) {
            None => None,
            Some((value, n)) => Some((TlvValueV::DestPort(value), n)),
        },
        TlvTag::SourcePort => match u16::spec_decode(win) {
            None => None,
            Some((value, n)) => Some((TlvValueV::SourcePort(value), n)),
        },
        TlvTag::SarMsgRefNum => match u16::spec_decode(win) {
            None => None,
            Some((value, n)) => Some((TlvValueV::SarMsgRefNum(value), n)),
        },
        TlvTag::SarTotalSegments => match u8::spec_decode(win) {
            None => None,
            Some((value, n)) => Some((TlvValueV::SarTotalSegments(value), n)),
        },
        TlvTag::SarSegmentSeqnum => match u8::spec_decode(win) {
            None => None,
            Some((value, n)) => Some((TlvValueV::SarSegmentSeqnum(value), n)),
        },
        TlvTag::UserMessageReference => match u16::spec_decode(win) {
            None => None,
            Some((value, n)) => Some((TlvValueV::UserMessageReference(value), n)),
        },
        TlvTag::UserResponseCode => match u8::spec_decode(win) {
            None => None,
            Some((value, n)) => Some((TlvValueV::UserResponseCode(value), n)),
        },
        TlvTag::QosTimeToLive => match u32::spec_decode(win) {
            None => None,
            Some((value, n)) => Some((TlvValueV::QosTimeToLive(value), n)),
        },
        TlvTag::ScInterfaceVersion => match InterfaceVersion::spec_decode(win) {
            None => None,
            Some((value, n)) => Some((TlvValueV::ScInterfaceVersion(value), n)),
        },
        TlvTag::MoreMessagesToSend => match MoreMessagesToSend::spec_decode(win) {
            None => None,
            Some((value, n)) => Some((TlvValueV::MoreMessagesToSend(value), n)),
        },
        TlvTag::PayloadType => match PayloadType::spec_decode(win) {
            None => None,
            Some((value, n)) => Some((TlvValueV::PayloadType(value), n)),
        },
        TlvTag::PrivacyIndicator => match PrivacyIndicator::spec_decode(win) {
            None => None,
            Some((value, n)) => Some((TlvValueV::PrivacyIndicator(value), n)),
        },
        TlvTag::SetDpf => match SetDpf::spec_decode(win) {
            None => None,
            Some((value, n)) => Some((TlvValueV::SetDpf(value), n)),
        },
        TlvTag::UssdServiceOp => match UssdServiceOp::spec_decode(win) {
            None => None,
            Some((value, n)) => Some((TlvValueV::UssdServiceOp(value), n)),
        },
        TlvTag::LanguageIndicator => match LanguageIndicator::spec_decode(win) {
            None => None,
            Some((value, n)) => Some((TlvValueV::LanguageIndicator(value), n)),
        },
        TlvTag::DisplayTime => match DisplayTime::spec_decode(win) {
            None => None,
            Some((value, n)) => Some((TlvValueV::DisplayTime(value), n)),
        },
        TlvTag::AlertOnMessageDelivery => match AlertOnMessageDelivery::spec_decode(win) {
            None => None,
            Some((value, n)) => Some((TlvValueV::AlertOnMessageDelivery(value), n)),
        },
        TlvTag::MessageState => match MessageState::spec_decode(win) {
            None => None,
            Some((value, n)) => Some((TlvValueV::MessageState(value), n)),
        },
        TlvTag::MessagePayload => match MessagePayload::spec_decode_with_length(win, length) {
            None => None,
            Some((value, n)) => Some((TlvValueV::MessagePayload(value), n)),
        },
        TlvTag::ReceiptedMessageId => match COctetString::<1, 65>::spec_decode(win) {
            None => None,
            Some((value, n)) => Some((TlvValueV::ReceiptedMessageId(value), n)),
        },
        TlvTag::CallbackNum => match OctetString::<4, 19>::spec_decode_with_length(win, length) {
            None => None,
            Some((value, n)) => Some((TlvValueV::CallbackNum(value), n)),
        },
        _ => match AnyOctetString::spec_decode_with_length(win, length) {
            None => None,
            Some((value, n)) => Some((TlvValueV::Other { tag, value }, n)),
        },
    }
}

/// The error reported when a TLV value fails to parse.
pub open spec fn spec_tlv_value_decode_err(tag: TlvTag, win: Seq<u8>, length: int) -> DecodeError {
    match tag {
        TlvTag::DestAddrSubunit => AddrSubunit::spec_decode_err(win),
        TlvTag::SourceAddrSubunit => AddrSubunit::spec_decode_err(win),
        TlvTag::DestPort => u16::spec_decode_err(win),
        TlvTag::SourcePort => u16::spec_decode_err(win),
        TlvTag::SarMsgRefNum => u16::spec_decode_err(win),
        TlvTag::SarTotalSegments => u8::spec_decode_err(win),
        TlvTag::SarSegmentSeqnum => u8::spec_decode_err(win),
        TlvTag::UserMessageReference => u16::spec_decode_err(win),
        TlvTag::UserResponseCode => u8::spec_decode_err(win),
        TlvTag::QosTimeToLive => u32::spec_decode_err(win),
        TlvTag::ScInterfaceVersion => InterfaceVersion::spec_decode_err(win),
        TlvTag::MoreMessagesToSend => MoreMessagesToSend::spec_decode_err(win),
        TlvTag::PayloadType => PayloadType::spec_decode_err(win),
        TlvTag::PrivacyIndicator => PrivacyIndicator::spec_decode_err(win),
        TlvTag::SetDpf => SetDpf::spec_decode_err(win),
        TlvTag::UssdServiceOp => UssdServiceOp::spec_decode_err(win),
        TlvTag::LanguageIndicator => LanguageIndicator::spec_decode_err(win),
        TlvTag::DisplayTime => DisplayTime::spec_decode_err(win),
        TlvTag::AlertOnMessageDelivery => AlertOnMessageDelivery::spec_decode_err(win),
        TlvTag::MessageState => MessageState::spec_decode_err(win),
        TlvTag::MessagePayload => MessagePayload::spec_decode_with_length_err(win, length),
        TlvTag::ReceiptedMessageId => COctetString::<1, 65>::spec_decode_err(win),
        TlvTag::CallbackNum => OctetString::<4, 19>::spec_decode_with_length_err(win, length),
        _ => AnyOctetString::spec_decode_with_length_err(win, length),
    }
}

impl TlvValue {
    /// The tag that selects this value.
    pub fn tag(&self) -> (r: TlvTag)
        ensures
            r == tlv_value_tag(self.deep_view()),
    {
        match self {
            TlvValue::DestAddrSubunit(value) => TlvTag::DestAddrSubunit,
            TlvValue::SourceAddrSubunit(value) => TlvTag::SourceAddrSubunit,
            TlvValue::DestPort(value) => TlvTag::DestPort,
            TlvValue::SourcePort(value) => TlvTag::SourcePort,
            TlvValue::SarMsgRefNum(value) => TlvTag::SarMsgRefNum,
            TlvValue::SarTotalSegments(value) => TlvTag::SarTotalSegments,
            TlvValue::SarSegmentSeqnum(value) => TlvTag::SarSegmentSeqnum,
            TlvValue::UserMessageReference(value) => TlvTag::UserMessageReference,
            TlvValue::UserResponseCode(value) => TlvTag::UserResponseCode,
            TlvValue::QosTimeToLive(value) => TlvTag::QosTimeToLive,
            TlvValue::ScInterfaceVersion(value) => TlvTag::ScInterfaceVersion,
            TlvValue::MoreMessagesToSend(value) => TlvTag::MoreMessagesToSend,
            TlvValue::PayloadType(value) => TlvTag::PayloadType,
            TlvValue::PrivacyIndicator(value) => TlvTag::PrivacyIndicator,
            TlvValue::SetDpf(value) => TlvTag::SetDpf,
            TlvValue::UssdServiceOp(value) => TlvTag::UssdServiceOp,
            TlvValue::LanguageIndicator(value) => TlvTag::LanguageIndicator,
            TlvValue::DisplayTime(value) => TlvTag::DisplayTime,
            TlvValue::AlertOnMessageDelivery(value) => TlvTag::AlertOnMessageDelivery,
            TlvValue::MessageState(value) => TlvTag::MessageState,
            TlvValue::MessagePayload(value) => TlvTag::MessagePayload,
            TlvValue::ReceiptedMessageId(value) => TlvTag::ReceiptedMessageId,
            TlvValue::CallbackNum(value) => TlvTag::CallbackNum,
            TlvValue::Other { tag, value } => *tag,
        }
    }
}

impl DecodeWithKey for TlvValue {
    type Key = TlvTag;

    open spec fn spec_decode_with_key(key: TlvTag, src: Seq<u8>, length: int) -> Option<
        (TlvValueV, int),
    > {
        spec_tlv_value_decode(key, src, length)
    }

    open spec fn spec_decode_with_key_err(key: TlvTag, src: Seq<u8>, length: int) -> DecodeError {
        spec_tlv_value_decode_err(key, src, length)
    }

    proof fn lemma_spec_decode_with_key_size(key: TlvTag, src: Seq<u8>, length: int) {
        lemma_spec_tlv_value_decode_size(key, src, length);
    }

    #[verifier::rlimit(100)]
    fn decode(key: TlvTag, src: &[u8], length: usize) -> (r: Result<(Self, usize), DecodeError>) {
        proof {
            assert(<TlvValue as DecodeWithKey>::spec_decode_with_key(key, src@, length as int)
                == spec_tlv_value_decode(key, src@, length as int));
            assert(<TlvValue as DecodeWithKey>::spec_decode_with_key_err(
                key,
                src@,
                length as int,
            ) == spec_tlv_value_decode_err(key, src@, length as int));
        }
        match key {
            TlvTag::DestAddrSubunit => match <AddrSubunit as Decode>::decode(src) {
                Ok((value, n)) => Ok((TlvValue::DestAddrSubunit(value), n)),
                Err(e) => Err(e),
            },
            TlvTag::SourceAddrSubunit => match <AddrSubunit as Decode>::decode(src) {
                Ok((value, n)) => Ok((TlvValue::SourceAddrSubunit(value), n)),
                Err(e) => Err(e),
            },
            TlvTag::DestPort => match <u16 as Decode>::decode(src) {
                Ok((value, n)) => Ok((TlvValue::DestPort(value), n)),
                Err(e) => Err(e),
            },
            TlvTag::SourcePort => match <u16 as Decode>::decode(src) {
                Ok((value, n)) => Ok((TlvValue::SourcePort(value), n)),
                Err(e) => Err(e),
            },
            TlvTag::SarMsgRefNum => match <u16 as Decode>::decode(src) {
                Ok((value, n)) => Ok((TlvValue::SarMsgRefNum(value), n)),
                Err(e) => Err(e),
            },
            TlvTag::SarTotalSegments => match <u8 as Decode>::decode(src) {
                Ok((value, n)) => Ok((TlvValue::SarTotalSegments(value), n)),
                Err(e) => Err(e),
            },
            TlvTag::SarSegmentSeqnum => match <u8 as Decode>::decode(src) {
                Ok((value, n)) => Ok((TlvValue::SarSegmentSeqnum(value), n)),
                Err(e) => Err(e),
            },
            TlvTag::UserMessageReference => match <u16 as Decode>::decode(src) {
                Ok((value, n)) => Ok((TlvValue::UserMessageReference(value), n)),
                Err(e) => Err(e),
            },
            TlvTag::UserResponseCode => match <u8 as Decode>::decode(src) {
                Ok((value, n)) => Ok((TlvValue::UserResponseCode(value), n)),
                Err(e) => Err(e),
            },
            TlvTag::QosTimeToLive => match <u32 as Decode>::decode(src) {
                Ok((value, n)) => Ok((TlvValue::QosTimeToLive(value), n)),
                Err(e) => Err(e),
            },
            TlvTag::ScInterfaceVersion => match <InterfaceVersion as Decode>::decode(src) {
                Ok((value, n)) => Ok((TlvValue::ScInterfaceVersion(value), n)),
                Err(e) => Err(e),
            },
            TlvTag::MoreMessagesToSend => match <MoreMessagesToSend as Decode>::decode(src) {
                Ok((value, n)) => Ok((TlvValue::MoreMessagesToSend(value), n)),
                Err(e) => Err(e),
            },
            TlvTag::PayloadType => match <PayloadType as Decode>::decode(src) {
                Ok((value, n)) => Ok((TlvValue::PayloadType(value), n)),
                Err(e) => Err(e),
            },
            TlvTag::PrivacyIndicator => match <PrivacyIndicator as Decode>::decode(src) {
                Ok((value, n)) => Ok((TlvValue::PrivacyIndicator(value), n)),
                Err(e) => Err(e),
            },
            TlvTag::SetDpf => match <SetDpf as Decode>::decode(src) {
                Ok((value, n)) => Ok((TlvValue::SetDpf(value), n)),
                Err(e) => Err(e),
            },
            TlvTag::UssdServiceOp => match <UssdServiceOp as Decode>::decode(src) {
                Ok((value, n)) => Ok((TlvValue::UssdServiceOp(value), n)),
                Err(e) => Err(e),
            },
            TlvTag::LanguageIndicator => match <LanguageIndicator as Decode>::decode(src) {
                Ok((value, n)) => Ok((TlvValue::LanguageIndicator(value), n)),
                Err(e) => Err(e),
            },
            TlvTag::DisplayTime => match <DisplayTime as Decode>::decode(src) {
                Ok((value, n)) => Ok((TlvValue::DisplayTime(value), n)),
                Err(e) => Err(e),
            },
            TlvTag::AlertOnMessageDelivery => match <AlertOnMessageDelivery as Decode>::decode(src) {
                Ok((value, n)) => Ok((TlvValue::AlertOnMessageDelivery(value), n)),
                Err(e) => Err(e),
            },
            TlvTag::MessageState => match <MessageState as Decode>::decode(src) {
                Ok((value, n)) => Ok((TlvValue::MessageState(value), n)),
                Err(e) => Err(e),
            },
            TlvTag::MessagePayload => match MessagePayload::decode(src, length) {
                Ok((value, n)) => Ok((TlvValue::MessagePayload(value), n)),
                Err(e) => Err(e),
            },
            TlvTag::ReceiptedMessageId => match <COctetString<1, 65> as Decode>::decode(src) {
                Ok((value, n)) => Ok((TlvValue::ReceiptedMessageId(value), n)),
                Err(e) => Err(e),
            },
            TlvTag::CallbackNum => match OctetString::<4, 19>::decode(src, length) {
                Ok((value, n)) => Ok((TlvValue::CallbackNum(value), n)),
                Err(e) => Err(e),
            },
            _ => match AnyOctetString::decode(src, length) {
                Ok((value, n)) => Ok((TlvValue::Other { tag: key, value }, n)),
                Err(e) => Err(e),
            },
        }
    }
}

/// A successful TLV value parse consumes no more than the window.
pub proof fn lemma_spec_tlv_value_decode_size(tag: TlvTag, win: Seq<u8>, length: int)
    ensures
        spec_tlv_value_decode(tag, win, length) matches Some(p) ==> 0 <= p.1 <= win.len(),
{
    match tag {
            TlvTag::DestAddrSubunit => {
                if win.len() >= 1 {
                    assert(win.take(1) =~= seq![win[0]]);
                }
            },
            TlvTag::SourceAddrSubunit => {
                if win.len() >= 1 {
                    assert(win.take(1) =~= seq![win[0]]);
                }
            },
            TlvTag::DestPort => {
                u16::lemma_spec_decode_size(win);
            },
            TlvTag::SourcePort => {
                u16::lemma_spec_decode_size(win);
            },
            TlvTag::SarMsgRefNum => {
                u16::lemma_spec_decode_size(win);
            },
            TlvTag::SarTotalSegments => {
                u8::lemma_spec_decode_size(win);
            },
            TlvTag::SarSegmentSeqnum => {
                u8::lemma_spec_decode_size(win);
            },
            TlvTag::UserMessageReference => {
                u16::lemma_spec_decode_size(win);
            },
            TlvTag::UserResponseCode => {
                u8::lemma_spec_decode_size(win);
            },
            TlvTag::QosTimeToLive => {
                u32::lemma_spec_decode_size(win);
            },
            TlvTag::ScInterfaceVersion => {
                if win.len() >= 1 {
                    assert(win.take(1) =~= seq![win[0]]);
                }
            },
            TlvTag::MoreMessagesToSend => {
                if win.len() >= 1 {
                    assert(win.take(1) =~= seq![win[0]]);
                }
            },
            TlvTag::PayloadType => {
                if win.len() >= 1 {
                    assert(win.take(1) =~= seq![win[0]]);
                }
            },
            TlvTag::PrivacyIndicator => {
                if win.len() >= 1 {
                    assert(win.take(1) =~= seq![win[0]]);
                }
            },
            TlvTag::SetDpf => {
                if win.len() >= 1 {
                    assert(win.take(1) =~= seq![win[0]]);
                }
            },
            TlvTag::UssdServiceOp => {
                if win.len() >= 1 {
                    assert(win.take(1) =~= seq![win[0]]);
                }
            },
            TlvTag::LanguageIndicator => {
                if win.len() >= 1 {
                    assert(win.take(1) =~= seq![win[0]]);
                }
            },
            TlvTag::DisplayTime => {
                if win.len() >= 1 {
                    assert(win.take(1) =~= seq![win[0]]);
                }
            },
            TlvTag::AlertOnMessageDelivery => {
                if win.len() >= 1 {
                    assert(win.take(1) =~= seq![win[0]]);
                }
            },
            TlvTag::MessageState => {
                if win.len() >= 1 {
                    assert(win.take(1) =~= seq![win[0]]);
                }
            },
            TlvTag::MessagePayload => {
            },
            TlvTag::ReceiptedMessageId => {
                COctetString::<1, 65>::lemma_spec_decode_size(win);
            },
            TlvTag::CallbackNum => {
            },
        _ => {},
    }
}

impl Encode for TlvValue {
    open spec fn spec_wf(v: TlvValueV) -> bool {
        tlv_value_struct_wf(v)
    }

    open spec fn spec_wire(v: TlvValueV) -> Seq<u8> {
        tlv_value_wire(v)
    }

    fn encode(&self, dst: &mut Vec<u8>) {
        match self {
            TlvValue::DestAddrSubunit(value) => {
                dst.push(value.value());
            },
            TlvValue::SourceAddrSubunit(value) => {
                dst.push(value.value());
            },
            TlvValue::DestPort(value) => {
                value.encode(dst);
            },
            TlvValue::SourcePort(value) => {
                value.encode(dst);
            },
            TlvValue::SarMsgRefNum(value) => {
                value.encode(dst);
            },
            TlvValue::SarTotalSegments(value) => {
                value.encode(dst);
            },
            TlvValue::SarSegmentSeqnum(value) => {
                value.encode(dst);
            },
            TlvValue::UserMessageReference(value) => {
                value.encode(dst);
            },
            TlvValue::UserResponseCode(value) => {
                value.encode(dst);
            },
            TlvValue::QosTimeToLive(value) => {
                value.encode(dst);
            },
            TlvValue::ScInterfaceVersion(value) => {
                dst.push(value.value());
            },
            TlvValue::MoreMessagesToSend(value) => {
                dst.push(value.value());
            },
            TlvValue::PayloadType(value) => {
                dst.push(value.value());
            },
            TlvValue::PrivacyIndicator(value) => {
                dst.push(value.value());
            },
            TlvValue::SetDpf(value) => {
                dst.push(value.value());
            },
            TlvValue::UssdServiceOp(value) => {
                dst.push(value.value());
            },
            TlvValue::LanguageIndicator(value) => {
                dst.push(value.value());
            },
            TlvValue::DisplayTime(value) => {
                dst.push(value.value());
            },
            TlvValue::AlertOnMessageDelivery(value) => {
                dst.push(value.value());
            },
            TlvValue::MessageState(value) => {
                dst.push(value.value());
            },
            TlvValue::MessagePayload(value) => {
                value.encode(dst);
            },
            TlvValue::ReceiptedMessageId(value) => {
                value.encode(dst);
            },
            TlvValue::CallbackNum(value) => {
                value.encode(dst);
            },
            TlvValue::Other { tag, value } => {
                value.encode(dst);
            },
        }
        proof {
            assert(dst@ =~= old(dst)@ + tlv_value_wire(self.deep_view()));
        }
    }

    fn length(&self) -> (r: usize) {
        match self {
            TlvValue::DestAddrSubunit(value) => 1,
            TlvValue::SourceAddrSubunit(value) => 1,
            TlvValue::DestPort(value) => value.length(),
            TlvValue::SourcePort(value) => value.length(),
            TlvValue::SarMsgRefNum(value) => value.length(),
            TlvValue::SarTotalSegments(value) => value.length(),
            TlvValue::SarSegmentSeqnum(value) => value.length(),
            TlvValue::UserMessageReference(value) => value.length(),
            TlvValue::UserResponseCode(value) => value.length(),
            TlvValue::QosTimeToLive(value) => value.length(),
            TlvValue::ScInterfaceVersion(value) => 1,
            TlvValue::MoreMessagesToSend(value) => 1,
            TlvValue::PayloadType(value) => 1,
            TlvValue::PrivacyIndicator(value) => 1,
            TlvValue::SetDpf(value) => 1,
            TlvValue::UssdServiceOp(value) => 1,
            TlvValue::LanguageIndicator(value) => 1,
            TlvValue::DisplayTime(value) => 1,
            TlvValue::AlertOnMessageDelivery(value) => 1,
            TlvValue::MessageState(value) => 1,
            TlvValue::MessagePayload(value) => value.length(),
            TlvValue::ReceiptedMessageId(value) => value.length(),
            TlvValue::CallbackNum(value) => value.length(),
            TlvValue::Other { tag, value } => value.len(),
        }
    }
}

/// Decoding the wire octets of a well-formed TLV value under its own
/// tag yields exactly that value and consumes the whole window.
pub proof fn lemma_tlv_value_wire_round_trip(v: TlvValueV)
    requires
        tlv_value_wf(v),
    ensures
        spec_tlv_value_decode(tlv_value_tag(v), tlv_value_wire(v), tlv_value_wire(v).len() as int)
            == Some((v, tlv_value_wire(v).len() as int)),
{
    let w = tlv_value_wire(v);
    match v {
        TlvValueV::DestAddrSubunit(value) => {
            assert(w[0] == value.spec_value());
        },
        TlvValueV::SourceAddrSubunit(value) => {
            assert(w[0] == value.spec_value());
        },
        TlvValueV::DestPort(value) => {
            lemma_u16_wire_round_trip(value, Seq::empty());
            assert(w + Seq::<u8>::empty() =~= w);
        },
        TlvValueV::SourcePort(value) => {
            lemma_u16_wire_round_trip(value, Seq::empty());
            assert(w + Seq::<u8>::empty() =~= w);
        },
        TlvValueV::SarMsgRefNum(value) => {
            lemma_u16_wire_round_trip(value, Seq::empty());
            assert(w + Seq::<u8>::empty() =~= w);
        },
        TlvValueV::SarTotalSegments(value) => {
            crate::primitives::lemma_u8_wire_round_trip(value, Seq::empty());
            assert(w + Seq::<u8>::empty() =~= w);
        },
        TlvValueV::SarSegmentSeqnum(value) => {
            crate::primitives::lemma_u8_wire_round_trip(value, Seq::empty());
            assert(w + Seq::<u8>::empty() =~= w);
        },
        TlvValueV::UserMessageReference(value) => {
            lemma_u16_wire_round_trip(value, Seq::empty());
            assert(w + Seq::<u8>::empty() =~= w);
        },
        TlvValueV::UserResponseCode(value) => {
            crate::primitives::lemma_u8_wire_round_trip(value, Seq::empty());
            assert(w + Seq::<u8>::empty() =~= w);
        },
        TlvValueV::QosTimeToLive(value) => {
            crate::primitives::lemma_u32_wire_round_trip(value, Seq::empty());
            assert(w + Seq::<u8>::empty() =~= w);
        },
        TlvValueV::ScInterfaceVersion(value) => {
            assert(w[0] == value.spec_value());
        },
        TlvValueV::MoreMessagesToSend(value) => {
            assert(w[0] == value.spec_value());
        },
        TlvValueV::PayloadType(value) => {
            assert(w[0] == value.spec_value());
        },
        TlvValueV::PrivacyIndicator(value) => {
            assert(w[0] == value.spec_value());
        },
        TlvValueV::SetDpf(value) => {
            assert(w[0] == value.spec_value());
        },
        TlvValueV::UssdServiceOp(value) => {
            assert(w[0] == value.spec_value());
        },
        TlvValueV::LanguageIndicator(value) => {
            assert(w[0] == value.spec_value());
        },
        TlvValueV::DisplayTime(value) => {
            assert(w[0] == value.spec_value());
        },
        TlvValueV::AlertOnMessageDelivery(value) => {
            assert(w[0] == value.spec_value());
        },
        TlvValueV::MessageState(value) => {
            assert(w[0] == value.spec_value());
        },
        TlvValueV::MessagePayload(value) => {
            assert(w.take(w.len() as int) =~= w);
        },
        TlvValueV::ReceiptedMessageId(value) => {
            lemma_c_octet_string_wire_round_trip::<1, 65>(value, Seq::empty());
            assert(value + Seq::<u8>::empty() =~= value);
        },
        TlvValueV::CallbackNum(value) => {
            assert(w.take(w.len() as int) =~= w);
        },
        TlvValueV::Other { tag, value } => {
            assert(w.take(w.len() as int) =~= w);
        },
    }
}

/// The view of a [`Tlv`]: tag, announced value length, and the value's
/// view.
pub struct TlvV {
    pub tag: TlvTag,
    pub value_length: u16,
    pub value: Option<TlvValueV>,
}

/// The full well-formedness of a [`Tlv`] view: a present value is
/// well-formed, non-empty on the wire, as long as announced, and owns
/// the tag; an absent value announces length zero. The tag is
/// canonical. Decoded TLVs always satisfy it; the round-trip law holds
/// of exactly these views.
pub open spec fn tlv_wf(t: TlvV) -> bool {
    &&& t.tag.canonical()
    &&& match t.value {
        Some(v) => {
            &&& tlv_value_wf(v)
            &&& 0 < tlv_value_wire(v).len() <= 65535
            &&& t.value_length == tlv_value_wire(v).len()
            &&& t.tag == tlv_value_tag(v)
        },
        None => t.value_length == 0,
    }
}

/// The wire octets of a whole TLV: two octets of tag, two octets of
/// value length, then the value.
pub open spec fn tlv_wire(t: TlvV) -> Seq<u8> {
    u16::spec_wire(t.tag.spec_value()) + u16::spec_wire(t.value_length) + match t.value {
        Some(v) => tlv_value_wire(v),
        None => Seq::empty(),
    }
}

/// The specification-level parser of a whole TLV. The announced length
/// is authoritative: the value must account for exactly that many
/// octets, and a zero length means the value is absent.
pub open spec fn spec_tlv_decode(src: Seq<u8>) -> Option<(TlvV, int)> {
    match u16::spec_decode(src) {
        None => None,
        Some((traw, n1)) => match u16::spec_decode(src.skip(2)) {
            None => None,
            Some((lraw, n2)) => {
                let tag = TlvTag::spec_from(traw);
                let length = lraw as int;
                if src.len() < 4 + length {
                    None
                } else if length == 0 {
                    Some((TlvV { tag, value_length: lraw, value: None }, 4))
                } else {
                    match spec_tlv_value_decode(tag, src.subrange(4, 4 + length), length) {
                        None => None,
                        Some((v, n)) => {
                            if n != length {
                                None
                            } else {
                                Some(
                                    (TlvV { tag, value_length: lraw, value: Some(v) }, 4 + length),
                                )
                            }
                        },
                    }
                }
            },
        },
    }
}

/// The error reported when a whole TLV fails to parse.
pub open spec fn spec_tlv_decode_err(src: Seq<u8>) -> DecodeError {
    match u16::spec_decode(src) {
        None => DecodeError::spec_unexpected_eof(),
        Some((traw, n1)) => match u16::spec_decode(src.skip(2)) {
            None => DecodeError::spec_unexpected_eof(),
            Some((lraw, n2)) => {
                let tag = TlvTag::spec_from(traw);
                let length = lraw as int;
                if src.len() < 4 + length {
                    DecodeError::spec_unexpected_eof()
                } else {
                    match spec_tlv_value_decode(tag, src.subrange(4, 4 + length), length) {
                        None => spec_tlv_value_decode_err(
                            tag,
                            src.subrange(4, 4 + length),
                            length,
                        ),
                        Some((v, n)) => DecodeError::spec_unexpected_eof(),
                    }
                }
            },
        },
    }
}

/// A tag-length-value optional parameter: two octets of tag, two octets
/// of value length, `value_length` octets of value.
#[derive(Debug)]
pub struct Tlv {
    tag: TlvTag,
    value_length: u16,
    value: Option<TlvValue>,
}

impl DeepView for Tlv {
    type V = TlvV;

    closed spec fn deep_view(&self) -> TlvV {
        TlvV {
            tag: self.tag,
            value_length: self.value_length,
            value: match self.value {
                Some(v) => Some(v.deep_view()),
                None => None,
            },
        }
    }
}

impl View for Tlv {
    type V = TlvV;

    open spec fn view(&self) -> TlvV {
        self.deep_view()
    }
}


impl Tlv {
    #[verifier::type_invariant]
    closed spec fn type_inv(self) -> bool {
        match self.value {
            Some(v) => self.value_length == tlv_value_wire(v.deep_view()).len() && self.tag
                == tlv_value_tag(v.deep_view()) && tlv_value_struct_wf(v.deep_view()),
            None => self.value_length == 0,
        }
    }

    /// Creates a new [`Tlv`] around a value: the tag and the announced
    /// length are taken from the value itself.
    pub fn new(value: TlvValue) -> (r: Tlv)
        requires
            tlv_value_wire(value.deep_view()).len() <= 65535,
        ensures
            r.deep_view() == (TlvV {
                tag: tlv_value_tag(value.deep_view()),
                value_length: tlv_value_wire(value.deep_view()).len() as u16,
                value: Some(value.deep_view()),
            }),
    {
        let tag = value.tag();
        let value_length = value.length() as u16;
        Tlv { tag, value_length, value: Some(value) }
    }

    /// The tag of this TLV.
    pub fn tag(&self) -> (r: TlvTag)
        ensures
            r == self.deep_view().tag,
    {
        self.tag
    }

    /// The announced length of the value in octets.
    ///
    /// Also publishes the invariant every [`Tlv`] satisfies: the
    /// announced length is the value's wire length, and the tag is the
    /// value's own.
    pub fn value_length(&self) -> (r: u16)
        ensures
            r == self.deep_view().value_length,
            match self.deep_view().value {
                Some(v) => r == tlv_value_wire(v).len() && self.deep_view().tag
                    == tlv_value_tag(v),
                None => r == 0,
            },
    {
        proof {
            use_type_invariant(self);
        }
        self.value_length
    }

    /// Borrows the value, absent when the announced length was zero.
    pub fn value(&self) -> (r: &Option<TlvValue>)
        ensures
            r.deep_view() == self.deep_view().value,
    {
        proof {
            assert(self.value.deep_view() =~= self.deep_view().value);
        }
        &self.value
    }
}

impl Clone for Tlv {
    /// Clones the TLV: the copy views the same tag, length and value.
    fn clone(&self) -> (r: Self)
        ensures
            r.deep_view() == self.deep_view(),
    {
        proof {
            use_type_invariant(self);
        }
        match &self.value {
            Some(value) => Tlv { tag: self.tag, value_length: self.value_length, value: Some(value.clone()) },
            None => Tlv { tag: self.tag, value_length: self.value_length, value: None },
        }
    }
}

/// What a successful exact-length value parse pins down: the value is
/// well-formed, its wire form is exactly the window, and it answers to
/// the dispatching tag.
pub proof fn lemma_tlv_value_decode_exact(tag: TlvTag, win: Seq<u8>, length: int)
    requires
        tag.canonical(),
        length == win.len(),
        0 < length <= 65535,
        spec_tlv_value_decode(tag, win, length) matches Some(p) && p.1 == length,
    ensures
        spec_tlv_value_decode(tag, win, length) matches Some(p) ==> {
            &&& tlv_value_wire(p.0) == win
            &&& tlv_value_tag(p.0) == tag
            &&& tlv_value_wf(p.0)
        },
{
    let (v, n) = spec_tlv_value_decode(tag, win, length)->Some_0;
    match tag {
        TlvTag::DestAddrSubunit => {
            assert(tlv_value_wire(v) =~= win);
        },
        TlvTag::SourceAddrSubunit => {
            assert(tlv_value_wire(v) =~= win);
        },
        TlvTag::ScInterfaceVersion => {
            assert(tlv_value_wire(v) =~= win);
        },
        TlvTag::MoreMessagesToSend => {
            assert(tlv_value_wire(v) =~= win);
        },
        TlvTag::PayloadType => {
            assert(tlv_value_wire(v) =~= win);
        },
        TlvTag::PrivacyIndicator => {
            assert(tlv_value_wire(v) =~= win);
        },
        TlvTag::SetDpf => {
            assert(tlv_value_wire(v) =~= win);
        },
        TlvTag::UssdServiceOp => {
            assert(tlv_value_wire(v) =~= win);
        },
        TlvTag::LanguageIndicator => {
            assert(tlv_value_wire(v) =~= win);
        },
        TlvTag::DisplayTime => {
            assert(tlv_value_wire(v) =~= win);
        },
        TlvTag::AlertOnMessageDelivery => {
            assert(tlv_value_wire(v) =~= win);
        },
        TlvTag::MessageState => {
            assert(tlv_value_wire(v) =~= win);
        },
        TlvTag::SarTotalSegments => {
            assert(tlv_value_wire(v) =~= win);
        },
        TlvTag::SarSegmentSeqnum => {
            assert(tlv_value_wire(v) =~= win);
        },
        TlvTag::UserResponseCode => {
            assert(tlv_value_wire(v) =~= win);
        },
        TlvTag::DestPort => {
            lemma_u16_digits(win[0], win[1]);
            assert(tlv_value_wire(v) =~= win);
        },
        TlvTag::SourcePort => {
            lemma_u16_digits(win[0], win[1]);
            assert(tlv_value_wire(v) =~= win);
        },
        TlvTag::SarMsgRefNum => {
            lemma_u16_digits(win[0], win[1]);
            assert(tlv_value_wire(v) =~= win);
        },
        TlvTag::UserMessageReference => {
            lemma_u16_digits(win[0], win[1]);
            assert(tlv_value_wire(v) =~= win);
        },
        TlvTag::QosTimeToLive => {
            lemma_u32_digits(win[0], win[1], win[2], win[3]);
            assert(tlv_value_wire(v) =~= win);
        },
        TlvTag::ReceiptedMessageId => {
            if let Some(i) = crate::types::find_nul(win, 65) {
                lemma_find_nul_some(win, 65, i);
                assert(win.take(i + 1).take(i as int) =~= win.take(i as int));
                assert(tlv_value_wire(v) =~= win);
            }
        },
        TlvTag::CallbackNum => {
            assert(tlv_value_wire(v) =~= win);
            assert(win.take(length) =~= win);
        },
        TlvTag::MessagePayload => {
            assert(tlv_value_wire(v) =~= win);
            assert(win.take(length) =~= win);
        },
        _ => {
            assert(tlv_value_wire(v) =~= win);
            assert(win.take(length) =~= win);
        },
    }
}

/// The two wire octets of a `u16` are recovered exactly by its base-256
/// digits.
pub proof fn lemma_u16_digits(a: u8, b: u8)
    ensures
        ((a as u16 * 256 + b as u16) as u16) / 256 == a as u16,
        ((a as u16 * 256 + b as u16) as u16) % 256 == b as u16,
{
}

/// The four wire octets of a `u32` are recovered exactly by its
/// base-256 digits.
pub proof fn lemma_u32_digits(a: u8, b: u8, c: u8, d: u8)
    ensures
        ((a as u32 * 0x1000000 + b as u32 * 0x10000 + c as u32 * 0x100 + d as u32) as u32)
            / 0x1000000 == a as u32,
        (((a as u32 * 0x1000000 + b as u32 * 0x10000 + c as u32 * 0x100 + d as u32) as u32)
            / 0x10000) % 256 == b as u32,
        (((a as u32 * 0x1000000 + b as u32 * 0x10000 + c as u32 * 0x100 + d as u32) as u32)
            / 0x100) % 256 == c as u32,
        ((a as u32 * 0x1000000 + b as u32 * 0x10000 + c as u32 * 0x100 + d as u32) as u32) % 256
            == d as u32,
{
    let x = (a as u32 * 0x1000000 + b as u32 * 0x10000 + c as u32 * 0x100 + d as u32) as u32;
    assert(x / 0x1000000 == a as u32 && (x / 0x10000) % 256 == b as u32 && (x / 0x100) % 256 == c
        as u32 && x % 256 == d as u32) by (nonlinear_arith)
        requires
            x == a as u32 * 0x1000000 + b as u32 * 0x10000 + c as u32 * 0x100 + d as u32,
            a <= 255 && b <= 255 && c <= 255 && d <= 255,
    ;
}

impl Decode for Tlv {
    open spec fn spec_decode(src: Seq<u8>) -> Option<(TlvV, int)> {
        spec_tlv_decode(src)
    }

    open spec fn spec_decode_err(src: Seq<u8>) -> DecodeError {
        spec_tlv_decode_err(src)
    }

    proof fn lemma_spec_decode_size(src: Seq<u8>) {
    }

    fn decode(src: &[u8]) -> (r: Result<(Self, usize), DecodeError>) {
        let traw = match <u16 as Decode>::decode(src) {
            Ok(p) => p.0,
            Err(e) => {
                return Err(e);
            },
        };
        let rest = slice_subrange(src, 2, src.len());
        proof {
            assert(rest@ =~= src@.skip(2));
        }
        let lraw = match <u16 as Decode>::decode(rest) {
            Ok(p) => p.0,
            Err(e) => {
                return Err(e);
            },
        };
        let tag = TlvTag::from_value(traw);
        let length = lraw as usize;
        if src.len() - 4 < length {
            return Err(DecodeError::unexpected_eof());
        }
        if length == 0 {
            return Ok((Tlv { tag, value_length: lraw, value: None }, 4));
        }
        let win = slice_subrange(src, 4, 4 + length);
        match TlvValue::decode(tag, win, length) {
            Ok((value, n)) => {
                if n != length {
                    return Err(DecodeError::unexpected_eof());
                }
                proof {
                    lemma_tlv_tag_canonical(traw);
                    lemma_tlv_value_decode_exact(tag, win@, length as int);
                }
                Ok((Tlv { tag, value_length: lraw, value: Some(value) }, 4 + length))
            },
            Err(e) => Err(e),
        }
    }
}

/// Reading a tag from its wire integer always yields a canonical tag.
pub proof fn lemma_tlv_tag_canonical(value: u16)
    ensures
        TlvTag::spec_from(value).canonical(),
        TlvTag::spec_from(value).spec_value() == value,
{
}

impl Encode for Tlv {
    open spec fn spec_wf(v: TlvV) -> bool {
        match v.value {
            Some(value) => v.value_length == tlv_value_wire(value).len() && v.tag
                == tlv_value_tag(value) && tlv_value_struct_wf(value),
            None => v.value_length == 0,
        }
    }

    open spec fn spec_wire(v: TlvV) -> Seq<u8> {
        tlv_wire(v)
    }

    fn encode(&self, dst: &mut Vec<u8>) {
        proof {
            use_type_invariant(self);
        }
        self.tag.value().encode(dst);
        self.value_length.encode(dst);
        match &self.value {
            Some(value) => {
                value.encode(dst);
            },
            None => {},
        }
        proof {
            assert(dst@ =~= old(dst)@ + tlv_wire(self.deep_view()));
        }
    }

    fn length(&self) -> (r: usize) {
        proof {
            use_type_invariant(self);
            assert(tlv_wire(self.deep_view()).len() == 4 + (match self.deep_view().value {
                Some(v) => tlv_value_wire(v).len() as int,
                None => 0,
            }));
        }
        match &self.value {
            Some(value) => 4 + value.length(),
            None => 4,
        }
    }
}

/// Decoding the wire octets of a well-formed TLV — whatever bytes
/// follow them — yields exactly that TLV, consuming exactly its length.
pub proof fn lemma_tlv_wire_round_trip(t: TlvV, rest: Seq<u8>)
    requires
        tlv_wf(t),
    ensures
        spec_tlv_decode(tlv_wire(t) + rest) == Some((t, tlv_wire(t).len() as int)),
{
    let w = tlv_wire(t);
    let src = w + rest;
    let tagw = u16::spec_wire(t.tag.spec_value());
    let lenw = u16::spec_wire(t.value_length);
    let vw = match t.value {
        Some(v) => tlv_value_wire(v),
        None => Seq::<u8>::empty(),
    };
    assert(src =~= tagw + (lenw + (vw + rest)));
    lemma_u16_wire_round_trip(t.tag.spec_value(), lenw + (vw + rest));
    assert(src.skip(2) =~= lenw + (vw + rest));
    lemma_u16_wire_round_trip(t.value_length, vw + rest);
    assert(TlvTag::spec_from(t.tag.spec_value()) == t.tag);
    assert(src.len() >= 4 + vw.len());
    match t.value {
        None => {
            assert(spec_tlv_decode(src) == Some((t, 4int)));
            assert(w.len() == 4);
        },
        Some(v) => {
            let length = t.value_length as int;
            assert(length == vw.len());
            assert(src.subrange(4, 4 + length) =~= vw);
            lemma_tlv_value_wire_round_trip(v);
            assert(spec_tlv_value_decode(t.tag, vw, length) == Some((v, length)));
            assert(w.len() == 4 + length);
        },
    }
}

/// The wire octets of a sequence of TLVs, back to back.
pub open spec fn tlvs_wire(ts: Seq<TlvV>) -> Seq<u8>
    decreases ts.len(),
{
    if ts.len() == 0 {
        Seq::empty()
    } else {
        tlv_wire(ts[0]) + tlvs_wire(ts.skip(1))
    }
}

/// Every TLV of a sequence is well-formed.
pub open spec fn tlvs_wf(ts: Seq<TlvV>) -> bool {
    forall|i: int| 0 <= i < ts.len() ==> tlv_wf(#[trigger] ts[i])
}

/// Exhausting the wire octets of a sequence of well-formed TLVs parses
/// back exactly that sequence: trailing TLVs are preserved, never
/// rejected.
#[verifier::rlimit(100)]
#[verifier::spinoff_prover]
pub proof fn lemma_tlvs_wire_round_trip(ts: Seq<TlvV>)
    requires
        tlvs_wf(ts),
    ensures
        crate::decode::spec_decode_exhaust::<Tlv>(tlvs_wire(ts)) == Some(
            (ts, tlvs_wire(ts).len() as int),
        ),
    decreases ts.len(),
{
    if ts.len() == 0 {
    } else {
        let t0 = ts[0];
        let tail = ts.skip(1);
        let w = tlvs_wire(ts);
        assert(tlv_wf(t0));
        assert(tlvs_wf(tail)) by {
            assert(forall|i: int| 0 <= i < tail.len() ==> tail[i] == ts[i + 1]);
        }
        lemma_tlv_wire_round_trip(t0, tlvs_wire(tail));
        assert(w == tlv_wire(t0) + tlvs_wire(tail));
        assert(w.len() >= 4) by {
            assert(tlv_wire(t0).len() >= 4);
        }
        lemma_tlvs_wire_round_trip(tail);
        assert(w.skip(tlv_wire(t0).len() as int) =~= tlvs_wire(tail));
        assert(seq![t0] + tail =~= ts);
    }
}

} // verus!
