//! The tags that select a TLV's meaning.

use vstd::prelude::*;

use crate::decode::{Decode, DecodeError};
use crate::encode::Encode;

verus! {

/// Tag of a tag-length-value optional parameter, a two-octet integer on the wire.
#[derive(Debug, Clone, Copy, PartialEq, Eq, Structural)]
pub enum TlvTag {
    DestAddrSubunit,
    DestNetworkType,
    DestBearerType,
    DestTelematicsId,
    SourceAddrSubunit,
    SourceNetworkType,
    SourceBearerType,
    SourceTelematicsId,
    QosTimeToLive,
    PayloadType,
    AdditionalStatusInfoText,
    ReceiptedMessageId,
    MsMsgWaitFacilities,
    PrivacyIndicator,
    SourceSubaddress,
    DestSubaddress,
    UserMessageReference,
    UserResponseCode,
    SourcePort,
    DestPort,
    SarMsgRefNum,
    LanguageIndicator,
    SarTotalSegments,
    SarSegmentSeqnum,
    ScInterfaceVersion,
    CallbackNumPresInd,
    CallbackNumAtag,
    NumberOfMessages,
    CallbackNum,
    DpfResult,
    SetDpf,
    MsAvailabilityStatus,
    NetworkErrorCode,
    MessagePayload,
    DeliveryFailureReason,
    MoreMessagesToSend,
    MessageState,
    CongestionState,
    UssdServiceOp,
    BroadcastChannelIndicator,
    BroadcastContentTypeInfo,
    BroadcastMessageClass,
    BroadcastRepNum,
    BroadcastFrequencyInterval,
    BroadcastAreaIdentifier,
    BroadcastErrorStatus,
    BroadcastAreaSuccess,
    BroadcastEndTime,
    BroadcastServiceGroup,
    BillingIdentification,
    SourceNetworkId,
    DestNetworkId,
    SourceNodeId,
    DestNodeId,
    DestAddrNpResolution,
    DestAddrNpInformation,
    DestAddrNpCountry,
    DisplayTime,
    SmsSignal,
    MsValidity,
    AlertOnMessageDelivery,
    ItsReplyType,
    ItsSessionInfo,
    BroadcastContentType,
    /// An unrecognized value, preserved as is.
    Other(u16),
}

impl TlvTag {
    /// The value decoded from its wire integer.
    pub open spec fn spec_from(value: u16) -> TlvTag {
        if value == 0x5 {
            TlvTag::DestAddrSubunit
        } else if value == 0x6 {
            TlvTag::DestNetworkType
        } else if value == 0x7 {
            TlvTag::DestBearerType
        } else if value == 0x8 {
            TlvTag::DestTelematicsId
        } else if value == 0xd {
            TlvTag::SourceAddrSubunit
        } else if value == 0xe {
            TlvTag::SourceNetworkType
        } else if value == 0xf {
            TlvTag::SourceBearerType
        } else if value == 0x10 {
            TlvTag::SourceTelematicsId
        } else if value == 0x17 {
            TlvTag::QosTimeToLive
        } else if value == 0x19 {
            TlvTag::PayloadType
        } else if value == 0x1d {
            TlvTag::AdditionalStatusInfoText
        } else if value == 0x1e {
            TlvTag::ReceiptedMessageId
        } else if value == 0x30 {
            TlvTag::MsMsgWaitFacilities
        } else if value == 0x201 {
            TlvTag::PrivacyIndicator
        } else if value == 0x202 {
            TlvTag::SourceSubaddress
        } else if value == 0x203 {
            TlvTag::DestSubaddress
        } else if value == 0x204 {
            TlvTag::UserMessageReference
        } else if value == 0x205 {
            TlvTag::UserResponseCode
        } else if value == 0x20a {
            TlvTag::SourcePort
        } else if value == 0x20b {
            TlvTag::DestPort
        } else if value == 0x20c {
            TlvTag::SarMsgRefNum
        } else if value == 0x20d {
            TlvTag::LanguageIndicator
        } else if value == 0x20e {
            TlvTag::SarTotalSegments
        } else if value == 0x20f {
            TlvTag::SarSegmentSeqnum
        } else if value == 0x210 {
            TlvTag::ScInterfaceVersion
        } else if value == 0x302 {
            TlvTag::CallbackNumPresInd
        } else if value == 0x303 {
            TlvTag::CallbackNumAtag
        } else if value == 0x304 {
            TlvTag::NumberOfMessages
        } else if value == 0x381 {
            TlvTag::CallbackNum
        } else if value == 0x420 {
            TlvTag::DpfResult
        } else if value == 0x421 {
            TlvTag::SetDpf
        } else if value == 0x422 {
            TlvTag::MsAvailabilityStatus
        } else if value == 0x423 {
            TlvTag::NetworkErrorCode
        } else if value == 0x424 {
            TlvTag::MessagePayload
        } else if value == 0x425 {
            TlvTag::DeliveryFailureReason
        } else if value == 0x426 {
            TlvTag::MoreMessagesToSend
        } else if value == 0x427 {
            TlvTag::MessageState
        } else if value == 0x428 {
            TlvTag::CongestionState
        } else if value == 0x501 {
            TlvTag::UssdServiceOp
        } else if value == 0x600 {
            TlvTag::BroadcastChannelIndicator
        } else if value == 0x602 {
            TlvTag::BroadcastContentTypeInfo
        } else if value == 0x603 {
            TlvTag::BroadcastMessageClass
        } else if value == 0x604 {
            TlvTag::BroadcastRepNum
        } else if value == 0x605 {
            TlvTag::BroadcastFrequencyInterval
        } else if value == 0x606 {
            TlvTag::BroadcastAreaIdentifier
        } else if value == 0x607 {
            TlvTag::BroadcastErrorStatus
        } else if value == 0x608 {
            TlvTag::BroadcastAreaSuccess
        } else if value == 0x609 {
            TlvTag::BroadcastEndTime
        } else if value == 0x60a {
            TlvTag::BroadcastServiceGroup
        } else if value == 0x60b {
            TlvTag::BillingIdentification
        } else if value == 0x60d {
            TlvTag::SourceNetworkId
        } else if value == 0x60e {
            TlvTag::DestNetworkId
        } else if value == 0x60f {
            TlvTag::SourceNodeId
        } else if value == 0x610 {
            TlvTag::DestNodeId
        } else if value == 0x611 {
            TlvTag::DestAddrNpResolution
        } else if value == 0x612 {
            TlvTag::DestAddrNpInformation
        } else if value == 0x613 {
            TlvTag::DestAddrNpCountry
        } else if value == 0x1201 {
            TlvTag::DisplayTime
        } else if value == 0x1203 {
            TlvTag::SmsSignal
        } else if value == 0x1204 {
            TlvTag::MsValidity
        } else if value == 0x130c {
            TlvTag::AlertOnMessageDelivery
        } else if value == 0x1380 {
            TlvTag::ItsReplyType
        } else if value == 0x1383 {
            TlvTag::ItsSessionInfo
        } else if value == 0x601 {
            TlvTag::BroadcastContentType
        } else {
            TlvTag::Other(value)
        }
    }

    /// The wire integer a value encodes to.
    pub open spec fn spec_value(self) -> u16 {
        match self {
            TlvTag::DestAddrSubunit => 0x5,
            TlvTag::DestNetworkType => 0x6,
            TlvTag::DestBearerType => 0x7,
            TlvTag::DestTelematicsId => 0x8,
            TlvTag::SourceAddrSubunit => 0xd,
            TlvTag::SourceNetworkType => 0xe,
            TlvTag::SourceBearerType => 0xf,
            TlvTag::SourceTelematicsId => 0x10,
            TlvTag::QosTimeToLive => 0x17,
            TlvTag::PayloadType => 0x19,
            TlvTag::AdditionalStatusInfoText => 0x1d,
            TlvTag::ReceiptedMessageId => 0x1e,
            TlvTag::MsMsgWaitFacilities => 0x30,
            TlvTag::PrivacyIndicator => 0x201,
            TlvTag::SourceSubaddress => 0x202,
            TlvTag::DestSubaddress => 0x203,
            TlvTag::UserMessageReference => 0x204,
            TlvTag::UserResponseCode => 0x205,
            TlvTag::SourcePort => 0x20a,
            TlvTag::DestPort => 0x20b,
            TlvTag::SarMsgRefNum => 0x20c,
            TlvTag::LanguageIndicator => 0x20d,
            TlvTag::SarTotalSegments => 0x20e,
            TlvTag::SarSegmentSeqnum => 0x20f,
            TlvTag::ScInterfaceVersion => 0x210,
            TlvTag::CallbackNumPresInd => 0x302,
            TlvTag::CallbackNumAtag => 0x303,
            TlvTag::NumberOfMessages => 0x304,
            TlvTag::CallbackNum => 0x381,
            TlvTag::DpfResult => 0x420,
            TlvTag::SetDpf => 0x421,
            TlvTag::MsAvailabilityStatus => 0x422,
            TlvTag::NetworkErrorCode => 0x423,
            TlvTag::MessagePayload => 0x424,
            TlvTag::DeliveryFailureReason => 0x425,
            TlvTag::MoreMessagesToSend => 0x426,
            TlvTag::MessageState => 0x427,
            TlvTag::CongestionState => 0x428,
            TlvTag::UssdServiceOp => 0x501,
            TlvTag::BroadcastChannelIndicator => 0x600,
            TlvTag::BroadcastContentTypeInfo => 0x602,
            TlvTag::BroadcastMessageClass => 0x603,
            TlvTag::BroadcastRepNum => 0x604,
            TlvTag::BroadcastFrequencyInterval => 0x605,
            TlvTag::BroadcastAreaIdentifier => 0x606,
            TlvTag::BroadcastErrorStatus => 0x607,
            TlvTag::BroadcastAreaSuccess => 0x608,
            TlvTag::BroadcastEndTime => 0x609,
            TlvTag::BroadcastServiceGroup => 0x60a,
            TlvTag::BillingIdentification => 0x60b,
            TlvTag::SourceNetworkId => 0x60d,
            TlvTag::DestNetworkId => 0x60e,
            TlvTag::SourceNodeId => 0x60f,
            TlvTag::DestNodeId => 0x610,
            TlvTag::DestAddrNpResolution => 0x611,
            TlvTag::DestAddrNpInformation => 0x612,
            TlvTag::DestAddrNpCountry => 0x613,
            TlvTag::DisplayTime => 0x1201,
            TlvTag::SmsSignal => 0x1203,
            TlvTag::MsValidity => 0x1204,
            TlvTag::AlertOnMessageDelivery => 0x130c,
            TlvTag::ItsReplyType => 0x1380,
            TlvTag::ItsSessionInfo => 0x1383,
            TlvTag::BroadcastContentType => 0x601,
            TlvTag::Other(value) => value,
        }
    }

    /// A value is canonical when its wire integer maps back to it;
    /// decoded values always are.
    pub open spec fn canonical(self) -> bool {
        TlvTag::spec_from(self.spec_value()) == self
    }

    /// The value decoded from its wire integer.
    pub fn from_value(value: u16) -> (r: TlvTag)
        ensures
            r == TlvTag::spec_from(value),
    {
        if value == 0x5 {
            TlvTag::DestAddrSubunit
        } else if value == 0x6 {
            TlvTag::DestNetworkType
        } else if value == 0x7 {
            TlvTag::DestBearerType
        } else if value == 0x8 {
            TlvTag::DestTelematicsId
        } else if value == 0xd {
            TlvTag::SourceAddrSubunit
        } else if value == 0xe {
            TlvTag::SourceNetworkType
        } else if value == 0xf {
            TlvTag::SourceBearerType
        } else if value == 0x10 {
            TlvTag::SourceTelematicsId
        } else if value == 0x17 {
            TlvTag::QosTimeToLive
        } else if value == 0x19 {
            TlvTag::PayloadType
        } else if value == 0x1d {
            TlvTag::AdditionalStatusInfoText
        } else if value == 0x1e {
            TlvTag::ReceiptedMessageId
        } else if value == 0x30 {
            TlvTag::MsMsgWaitFacilities
        } else if value == 0x201 {
            TlvTag::PrivacyIndicator
        } else if value == 0x202 {
            TlvTag::SourceSubaddress
        } else if value == 0x203 {
            TlvTag::DestSubaddress
        } else if value == 0x204 {
            TlvTag::UserMessageReference
        } else if value == 0x205 {
            TlvTag::UserResponseCode
        } else if value == 0x20a {
            TlvTag::SourcePort
        } else if value == 0x20b {
            TlvTag::DestPort
        } else if value == 0x20c {
            TlvTag::SarMsgRefNum
        } else if value == 0x20d {
            TlvTag::LanguageIndicator
        } else if value == 0x20e {
            TlvTag::SarTotalSegments
        } else if value == 0x20f {
            TlvTag::SarSegmentSeqnum
        } else if value == 0x210 {
            TlvTag::ScInterfaceVersion
        } else if value == 0x302 {
            TlvTag::CallbackNumPresInd
        } else if value == 0x303 {
            TlvTag::CallbackNumAtag
        } else if value == 0x304 {
            TlvTag::NumberOfMessages
        } else if value == 0x381 {
            TlvTag::CallbackNum
        } else if value == 0x420 {
            TlvTag::DpfResult
        } else if value == 0x421 {
            TlvTag::SetDpf
        } else if value == 0x422 {
            TlvTag::MsAvailabilityStatus
        } else if value == 0x423 {
            TlvTag::NetworkErrorCode
        } else if value == 0x424 {
            TlvTag::MessagePayload
        } else if value == 0x425 {
            TlvTag::DeliveryFailureReason
        } else if value == 0x426 {
            TlvTag::MoreMessagesToSend
        } else if value == 0x427 {
            TlvTag::MessageState
        } else if value == 0x428 {
            TlvTag::CongestionState
        } else if value == 0x501 {
            TlvTag::UssdServiceOp
        } else if value == 0x600 {
            TlvTag::BroadcastChannelIndicator
        } else if value == 0x602 {
            TlvTag::BroadcastContentTypeInfo
        } else if value == 0x603 {
            TlvTag::BroadcastMessageClass
        } else if value == 0x604 {
            TlvTag::BroadcastRepNum
        } else if value == 0x605 {
            TlvTag::BroadcastFrequencyInterval
        } else if value == 0x606 {
            TlvTag::BroadcastAreaIdentifier
        } else if value == 0x607 {
            TlvTag::BroadcastErrorStatus
        } else if value == 0x608 {
            TlvTag::BroadcastAreaSuccess
        } else if value == 0x609 {
            TlvTag::BroadcastEndTime
        } else if value == 0x60a {
            TlvTag::BroadcastServiceGroup
        } else if value == 0x60b {
            TlvTag::BillingIdentification
        } else if value == 0x60d {
            TlvTag::SourceNetworkId
        } else if value == 0x60e {
            TlvTag::DestNetworkId
        } else if value == 0x60f {
            TlvTag::SourceNodeId
        } else if value == 0x610 {
            TlvTag::DestNodeId
        } else if value == 0x611 {
            TlvTag::DestAddrNpResolution
        } else if value == 0x612 {
            TlvTag::DestAddrNpInformation
        } else if value == 0x613 {
            TlvTag::DestAddrNpCountry
        } else if value == 0x1201 {
            TlvTag::DisplayTime
        } else if value == 0x1203 {
            TlvTag::SmsSignal
        } else if value == 0x1204 {
            TlvTag::MsValidity
        } else if value == 0x130c {
            TlvTag::AlertOnMessageDelivery
        } else if value == 0x1380 {
            TlvTag::ItsReplyType
        } else if value == 0x1383 {
            TlvTag::ItsSessionInfo
        } else if value == 0x601 {
            TlvTag::BroadcastContentType
        } else {
            TlvTag::Other(value)
        }
    }

    /// The wire integer a value encodes to.
    pub fn value(self) -> (r: u16)
        ensures
            r == self.spec_value(),
    {
        match self {
            TlvTag::DestAddrSubunit => 0x5,
            TlvTag::DestNetworkType => 0x6,
            TlvTag::DestBearerType => 0x7,
            TlvTag::DestTelematicsId => 0x8,
            TlvTag::SourceAddrSubunit => 0xd,
            TlvTag::SourceNetworkType => 0xe,
            TlvTag::SourceBearerType => 0xf,
            TlvTag::SourceTelematicsId => 0x10,
            TlvTag::QosTimeToLive => 0x17,
            TlvTag::PayloadType => 0x19,
            TlvTag::AdditionalStatusInfoText => 0x1d,
            TlvTag::ReceiptedMessageId => 0x1e,
            TlvTag::MsMsgWaitFacilities => 0x30,
            TlvTag::PrivacyIndicator => 0x201,
            TlvTag::SourceSubaddress => 0x202,
            TlvTag::DestSubaddress => 0x203,
            TlvTag::UserMessageReference => 0x204,
            TlvTag::UserResponseCode => 0x205,
            TlvTag::SourcePort => 0x20a,
            TlvTag::DestPort => 0x20b,
            TlvTag::SarMsgRefNum => 0x20c,
            TlvTag::LanguageIndicator => 0x20d,
            TlvTag::SarTotalSegments => 0x20e,
            TlvTag::SarSegmentSeqnum => 0x20f,
            TlvTag::ScInterfaceVersion => 0x210,
            TlvTag::CallbackNumPresInd => 0x302,
            TlvTag::CallbackNumAtag => 0x303,
            TlvTag::NumberOfMessages => 0x304,
            TlvTag::CallbackNum => 0x381,
            TlvTag::DpfResult => 0x420,
            TlvTag::SetDpf => 0x421,
            TlvTag::MsAvailabilityStatus => 0x422,
            TlvTag::NetworkErrorCode => 0x423,
            TlvTag::MessagePayload => 0x424,
            TlvTag::DeliveryFailureReason => 0x425,
            TlvTag::MoreMessagesToSend => 0x426,
            TlvTag::MessageState => 0x427,
            TlvTag::CongestionState => 0x428,
            TlvTag::UssdServiceOp => 0x501,
            TlvTag::BroadcastChannelIndicator => 0x600,
            TlvTag::BroadcastContentTypeInfo => 0x602,
            TlvTag::BroadcastMessageClass => 0x603,
            TlvTag::BroadcastRepNum => 0x604,
            TlvTag::BroadcastFrequencyInterval => 0x605,
            TlvTag::BroadcastAreaIdentifier => 0x606,
            TlvTag::BroadcastErrorStatus => 0x607,
            TlvTag::BroadcastAreaSuccess => 0x608,
            TlvTag::BroadcastEndTime => 0x609,
            TlvTag::BroadcastServiceGroup => 0x60a,
            TlvTag::BillingIdentification => 0x60b,
            TlvTag::SourceNetworkId => 0x60d,
            TlvTag::DestNetworkId => 0x60e,
            TlvTag::SourceNodeId => 0x60f,
            TlvTag::DestNodeId => 0x610,
            TlvTag::DestAddrNpResolution => 0x611,
            TlvTag::DestAddrNpInformation => 0x612,
            TlvTag::DestAddrNpCountry => 0x613,
            TlvTag::DisplayTime => 0x1201,
            TlvTag::SmsSignal => 0x1203,
            TlvTag::MsValidity => 0x1204,
            TlvTag::AlertOnMessageDelivery => 0x130c,
            TlvTag::ItsReplyType => 0x1380,
            TlvTag::ItsSessionInfo => 0x1383,
            TlvTag::BroadcastContentType => 0x601,
            TlvTag::Other(value) => value,
        }
    }
}

impl View for TlvTag {
    type V = TlvTag;

    open spec fn view(&self) -> TlvTag {
        *self
    }
}

impl DeepView for TlvTag {
    type V = TlvTag;

    open spec fn deep_view(&self) -> TlvTag {
        *self
    }
}

impl Decode for TlvTag {
    open spec fn spec_decode(src: Seq<u8>) -> Option<(TlvTag, int)> {
        match u16::spec_decode(src) {
            None => None,
            Some((value, n)) => Some((TlvTag::spec_from(value), n)),
        }
    }

    open spec fn spec_decode_err(src: Seq<u8>) -> DecodeError {
        DecodeError::spec_unexpected_eof()
    }

    proof fn lemma_spec_decode_size(src: Seq<u8>) {
        u16::lemma_spec_decode_size(src);
    }

    fn decode(src: &[u8]) -> (r: Result<(Self, usize), DecodeError>) {
        match u16::decode(src) {
            Ok((value, n)) => Ok((TlvTag::from_value(value), n)),
            Err(e) => Err(e),
        }
    }
}

impl Encode for TlvTag {
    open spec fn spec_wf(v: TlvTag) -> bool {
        true
    }

    open spec fn spec_wire(v: TlvTag) -> Seq<u8> {
        u16::spec_wire(v.spec_value())
    }

    fn encode(&self, dst: &mut Vec<u8>) {
        self.value().encode(dst);
    }

    fn length(&self) -> (r: usize) {
        2
    }
}

} // verus!
