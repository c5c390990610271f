//! The TLVs a message submission request may carry: the subset of
//! [`TlvValue`] that `submit_sm` accepts, with unknown tags preserved.

use vstd::prelude::*;

use crate::tlvs::tlv::{MessagePayload, TlvValue};
use crate::tlvs::tlv_tag::TlvTag;
use crate::types::any_octet_string::AnyOctetString;
use crate::types::octet_string::OctetString;
use crate::values::{
    AddrSubunit, AlertOnMessageDelivery, DisplayTime, LanguageIndicator, MoreMessagesToSend,
    PayloadType, PrivacyIndicator, SetDpf, UssdServiceOp,
};

verus! {

/// A TLV value acceptable in a message submission request.
#[derive(Debug)]
pub enum MessageSubmissionRequestTlvValue {
    AlertOnMessageDelivery(AlertOnMessageDelivery),
    CallbackNum(OctetString<4, 19>),
    DestAddrSubunit(AddrSubunit),
    DestPort(u16),
    DisplayTime(DisplayTime),
    LanguageIndicator(LanguageIndicator),
    MessagePayload(MessagePayload),
    MoreMessagesToSend(MoreMessagesToSend),
    PayloadType(PayloadType),
    PrivacyIndicator(PrivacyIndicator),
    QosTimeToLive(u32),
    SarMsgRefNum(u16),
    SarSegmentSeqnum(u8),
    SarTotalSegments(u8),
    SetDpf(SetDpf),
    SourceAddrSubunit(AddrSubunit),
    SourcePort(u16),
    UserMessageReference(u16),
    UserResponseCode(u8),
    UssdServiceOp(UssdServiceOp),
    /// A value whose tag has no dedicated variant, preserved as raw
    /// octets.
    Other { tag: TlvTag, value: AnyOctetString },
}

impl MessageSubmissionRequestTlvValue {
    /// Attempts to narrow a generic [`TlvValue`] to a message
    /// submission request value: succeeds exactly for the variants a
    /// submission may carry, including unknown tags.
    pub fn from_tlv_value(value: TlvValue) -> (r: Option<MessageSubmissionRequestTlvValue>)
        ensures
            match value {
                TlvValue::AlertOnMessageDelivery(x) => r matches Some(
                    MessageSubmissionRequestTlvValue::AlertOnMessageDelivery(y),
                ) && y == x,
                TlvValue::CallbackNum(x) => r matches Some(
                    MessageSubmissionRequestTlvValue::CallbackNum(y),
                ) && y@ == x@,
                TlvValue::DestAddrSubunit(x) => r matches Some(
                    MessageSubmissionRequestTlvValue::DestAddrSubunit(y),
                ) && y == x,
                TlvValue::DestPort(x) => r matches Some(
                    MessageSubmissionRequestTlvValue::DestPort(y),
                ) && y == x,
                TlvValue::DisplayTime(x) => r matches Some(
                    MessageSubmissionRequestTlvValue::DisplayTime(y),
                ) && y == x,
                TlvValue::LanguageIndicator(x) => r matches Some(
                    MessageSubmissionRequestTlvValue::LanguageIndicator(y),
                ) && y == x,
                TlvValue::MessagePayload(x) => r matches Some(
                    MessageSubmissionRequestTlvValue::MessagePayload(y),
                ) && y@ == x@,
                TlvValue::MoreMessagesToSend(x) => r matches Some(
                    MessageSubmissionRequestTlvValue::MoreMessagesToSend(y),
                ) && y == x,
                TlvValue::PayloadType(x) => r matches Some(
                    MessageSubmissionRequestTlvValue::PayloadType(y),
                ) && y == x,
                TlvValue::PrivacyIndicator(x) => r matches Some(
                    MessageSubmissionRequestTlvValue::PrivacyIndicator(y),
                ) && y == x,
                TlvValue::QosTimeToLive(x) => r matches Some(
                    MessageSubmissionRequestTlvValue::QosTimeToLive(y),
                ) && y == x,
                TlvValue::SarMsgRefNum(x) => r matches Some(
                    MessageSubmissionRequestTlvValue::SarMsgRefNum(y),
                ) && y == x,
                TlvValue::SarSegmentSeqnum(x) => r matches Some(
                    MessageSubmissionRequestTlvValue::SarSegmentSeqnum(y),
                ) && y == x,
                TlvValue::SarTotalSegments(x) => r matches Some(
                    MessageSubmissionRequestTlvValue::SarTotalSegments(y),
                ) && y == x,
                TlvValue::SetDpf(x) => r matches Some(
                    MessageSubmissionRequestTlvValue::SetDpf(y),
                ) && y == x,
                TlvValue::SourceAddrSubunit(x) => r matches Some(
                    MessageSubmissionRequestTlvValue::SourceAddrSubunit(y),
                ) && y == x,
                TlvValue::SourcePort(x) => r matches Some(
                    MessageSubmissionRequestTlvValue::SourcePort(y),
                ) && y == x,
                TlvValue::UserMessageReference(x) => r matches Some(
                    MessageSubmissionRequestTlvValue::UserMessageReference(y),
                ) && y == x,
                TlvValue::UserResponseCode(x) => r matches Some(
                    MessageSubmissionRequestTlvValue::UserResponseCode(y),
                ) && y == x,
                TlvValue::UssdServiceOp(x) => r matches Some(
                    MessageSubmissionRequestTlvValue::UssdServiceOp(y),
                ) && y == x,
                TlvValue::Other { tag, value: x } => r matches Some(
                    MessageSubmissionRequestTlvValue::Other { tag: t2, value: y },
                ) && t2 == tag && y@ == x@,
                _ => r is None,
            },
    {
        match value {
            TlvValue::AlertOnMessageDelivery(x) => Some(MessageSubmissionRequestTlvValue::AlertOnMessageDelivery(x)),
            TlvValue::CallbackNum(x) => Some(MessageSubmissionRequestTlvValue::CallbackNum(x)),
            TlvValue::DestAddrSubunit(x) => Some(MessageSubmissionRequestTlvValue::DestAddrSubunit(x)),
            TlvValue::DestPort(x) => Some(MessageSubmissionRequestTlvValue::DestPort(x)),
            TlvValue::DisplayTime(x) => Some(MessageSubmissionRequestTlvValue::DisplayTime(x)),
            TlvValue::LanguageIndicator(x) => Some(MessageSubmissionRequestTlvValue::LanguageIndicator(x)),
            TlvValue::MessagePayload(x) => Some(MessageSubmissionRequestTlvValue::MessagePayload(x)),
            TlvValue::MoreMessagesToSend(x) => Some(MessageSubmissionRequestTlvValue::MoreMessagesToSend(x)),
            TlvValue::PayloadType(x) => Some(MessageSubmissionRequestTlvValue::PayloadType(x)),
            TlvValue::PrivacyIndicator(x) => Some(MessageSubmissionRequestTlvValue::PrivacyIndicator(x)),
            TlvValue::QosTimeToLive(x) => Some(MessageSubmissionRequestTlvValue::QosTimeToLive(x)),
            TlvValue::SarMsgRefNum(x) => Some(MessageSubmissionRequestTlvValue::SarMsgRefNum(x)),
            TlvValue::SarSegmentSeqnum(x) => Some(MessageSubmissionRequestTlvValue::SarSegmentSeqnum(x)),
            TlvValue::SarTotalSegments(x) => Some(MessageSubmissionRequestTlvValue::SarTotalSegments(x)),
            TlvValue::SetDpf(x) => Some(MessageSubmissionRequestTlvValue::SetDpf(x)),
            TlvValue::SourceAddrSubunit(x) => Some(MessageSubmissionRequestTlvValue::SourceAddrSubunit(x)),
            TlvValue::SourcePort(x) => Some(MessageSubmissionRequestTlvValue::SourcePort(x)),
            TlvValue::UserMessageReference(x) => Some(MessageSubmissionRequestTlvValue::UserMessageReference(x)),
            TlvValue::UserResponseCode(x) => Some(MessageSubmissionRequestTlvValue::UserResponseCode(x)),
            TlvValue::UssdServiceOp(x) => Some(MessageSubmissionRequestTlvValue::UssdServiceOp(x)),
            TlvValue::Other { tag, value } => Some(
                MessageSubmissionRequestTlvValue::Other { tag, value },
            ),
            _ => None,
        }
    }
}

} // verus!
