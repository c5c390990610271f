//! Command identifiers and command status codes of the envelope.

use vstd::prelude::*;
use vstd::slice::slice_subrange;

use crate::decode::{Decode, DecodeError, DecodeWithKeyOptional, DecodeWithLength};
use crate::encode::Encode;
use crate::pdus::replace_sm::{replace_sm_wf, replace_sm_wire, ReplaceSm, ReplaceSmV};
use crate::pdus::submit_sm::{
    lemma_ss_tail0, submit_sm_resp_wf, submit_sm_resp_wire, submit_sm_wf, submit_sm_wire,
    SubmitSm, SubmitSmResp, SubmitSmRespV, SubmitSmV,
};
use crate::types::any_octet_string::AnyOctetString;

verus! {

/// Identifier selecting the operation a command carries, a four-octet integer on the wire; response identifiers have their high bit set.
#[derive(Debug, Clone, Copy, PartialEq, Eq, Structural)]
pub enum CommandId {
    BindReceiver,
    BindTransmitter,
    QuerySm,
    SubmitSm,
    DeliverSm,
    Unbind,
    ReplaceSm,
    CancelSm,
    BindTransceiver,
    Outbind,
    EnquireLink,
    SubmitMulti,
    AlertNotification,
    DataSm,
    BroadcastSm,
    QueryBroadcastSm,
    CancelBroadcastSm,
    GenericNack,
    BindReceiverResp,
    BindTransmitterResp,
    QuerySmResp,
    SubmitSmResp,
    DeliverSmResp,
    UnbindResp,
    ReplaceSmResp,
    CancelSmResp,
    BindTransceiverResp,
    EnquireLinkResp,
    SubmitMultiResp,
    DataSmResp,
    BroadcastSmResp,
    QueryBroadcastSmResp,
    CancelBroadcastSmResp,
    /// An unrecognized value, preserved as is.
    Other(u32),
}

impl CommandId {
    /// The value decoded from its wire integer.
    pub open spec fn spec_from(value: u32) -> CommandId {
        if value == 0x1 {
            CommandId::BindReceiver
        } else if value == 0x2 {
            CommandId::BindTransmitter
        } else if value == 0x3 {
            CommandId::QuerySm
        } else if value == 0x4 {
            CommandId::SubmitSm
        } else if value == 0x5 {
            CommandId::DeliverSm
        } else if value == 0x6 {
            CommandId::Unbind
        } else if value == 0x7 {
            CommandId::ReplaceSm
        } else if value == 0x8 {
            CommandId::CancelSm
        } else if value == 0x9 {
            CommandId::BindTransceiver
        } else if value == 0xb {
            CommandId::Outbind
        } else if value == 0x15 {
            CommandId::EnquireLink
        } else if value == 0x21 {
            CommandId::SubmitMulti
        } else if value == 0x102 {
            CommandId::AlertNotification
        } else if value == 0x103 {
            CommandId::DataSm
        } else if value == 0x111 {
            CommandId::BroadcastSm
        } else if value == 0x112 {
            CommandId::QueryBroadcastSm
        } else if value == 0x113 {
            CommandId::CancelBroadcastSm
        } else if value == 0x80000000 {
            CommandId::GenericNack
        } else if value == 0x80000001 {
            CommandId::BindReceiverResp
        } else if value == 0x80000002 {
            CommandId::BindTransmitterResp
        } else if value == 0x80000003 {
            CommandId::QuerySmResp
        } else if value == 0x80000004 {
            CommandId::SubmitSmResp
        } else if value == 0x80000005 {
            CommandId::DeliverSmResp
        } else if value == 0x80000006 {
            CommandId::UnbindResp
        } else if value == 0x80000007 {
            CommandId::ReplaceSmResp
        } else if value == 0x80000008 {
            CommandId::CancelSmResp
        } else if value == 0x80000009 {
            CommandId::BindTransceiverResp
        } else if value == 0x80000015 {
            CommandId::EnquireLinkResp
        } else if value == 0x80000021 {
            CommandId::SubmitMultiResp
        } else if value == 0x80000103 {
            CommandId::DataSmResp
        } else if value == 0x80000111 {
            CommandId::BroadcastSmResp
        } else if value == 0x80000112 {
            CommandId::QueryBroadcastSmResp
        } else if value == 0x80000113 {
            CommandId::CancelBroadcastSmResp
        } else {
            CommandId::Other(value)
        }
    }

    /// The wire integer a value encodes to.
    pub open spec fn spec_value(self) -> u32 {
        match self {
            CommandId::BindReceiver => 0x1,
            CommandId::BindTransmitter => 0x2,
            CommandId::QuerySm => 0x3,
            CommandId::SubmitSm => 0x4,
            CommandId::DeliverSm => 0x5,
            CommandId::Unbind => 0x6,
            CommandId::ReplaceSm => 0x7,
            CommandId::CancelSm => 0x8,
            CommandId::BindTransceiver => 0x9,
            CommandId::Outbind => 0xb,
            CommandId::EnquireLink => 0x15,
            CommandId::SubmitMulti => 0x21,
            CommandId::AlertNotification => 0x102,
            CommandId::DataSm => 0x103,
            CommandId::BroadcastSm => 0x111,
            CommandId::QueryBroadcastSm => 0x112,
            CommandId::CancelBroadcastSm => 0x113,
            CommandId::GenericNack => 0x80000000,
            CommandId::BindReceiverResp => 0x80000001,
            CommandId::BindTransmitterResp => 0x80000002,
            CommandId::QuerySmResp => 0x80000003,
            CommandId::SubmitSmResp => 0x80000004,
            CommandId::DeliverSmResp => 0x80000005,
            CommandId::UnbindResp => 0x80000006,
            CommandId::ReplaceSmResp => 0x80000007,
            CommandId::CancelSmResp => 0x80000008,
            CommandId::BindTransceiverResp => 0x80000009,
            CommandId::EnquireLinkResp => 0x80000015,
            CommandId::SubmitMultiResp => 0x80000021,
            CommandId::DataSmResp => 0x80000103,
            CommandId::BroadcastSmResp => 0x80000111,
            CommandId::QueryBroadcastSmResp => 0x80000112,
            CommandId::CancelBroadcastSmResp => 0x80000113,
            CommandId::Other(value) => value,
        }
    }

    /// A value is canonical when its wire integer maps back to it;
    /// decoded values always are.
    pub open spec fn canonical(self) -> bool {
        CommandId::spec_from(self.spec_value()) == self
    }

    /// The value decoded from its wire integer.
    pub fn from_value(value: u32) -> (r: CommandId)
        ensures
            r == CommandId::spec_from(value),
    {
        if value == 0x1 {
            CommandId::BindReceiver
        } else if value == 0x2 {
            CommandId::BindTransmitter
        } else if value == 0x3 {
            CommandId::QuerySm
        } else if value == 0x4 {
            CommandId::SubmitSm
        } else if value == 0x5 {
            CommandId::DeliverSm
        } else if value == 0x6 {
            CommandId::Unbind
        } else if value == 0x7 {
            CommandId::ReplaceSm
        } else if value == 0x8 {
            CommandId::CancelSm
        } else if value == 0x9 {
            CommandId::BindTransceiver
        } else if value == 0xb {
            CommandId::Outbind
        } else if value == 0x15 {
            CommandId::EnquireLink
        } else if value == 0x21 {
            CommandId::SubmitMulti
        } else if value == 0x102 {
            CommandId::AlertNotification
        } else if value == 0x103 {
            CommandId::DataSm
        } else if value == 0x111 {
            CommandId::BroadcastSm
        } else if value == 0x112 {
            CommandId::QueryBroadcastSm
        } else if value == 0x113 {
            CommandId::CancelBroadcastSm
        } else if value == 0x80000000 {
            CommandId::GenericNack
        } else if value == 0x80000001 {
            CommandId::BindReceiverResp
        } else if value == 0x80000002 {
            CommandId::BindTransmitterResp
        } else if value == 0x80000003 {
            CommandId::QuerySmResp
        } else if value == 0x80000004 {
            CommandId::SubmitSmResp
        } else if value == 0x80000005 {
            CommandId::DeliverSmResp
        } else if value == 0x80000006 {
            CommandId::UnbindResp
        } else if value == 0x80000007 {
            CommandId::ReplaceSmResp
        } else if value == 0x80000008 {
            CommandId::CancelSmResp
        } else if value == 0x80000009 {
            CommandId::BindTransceiverResp
        } else if value == 0x80000015 {
            CommandId::EnquireLinkResp
        } else if value == 0x80000021 {
            CommandId::SubmitMultiResp
        } else if value == 0x80000103 {
            CommandId::DataSmResp
        } else if value == 0x80000111 {
            CommandId::BroadcastSmResp
        } else if value == 0x80000112 {
            CommandId::QueryBroadcastSmResp
        } else if value == 0x80000113 {
            CommandId::CancelBroadcastSmResp
        } else {
            CommandId::Other(value)
        }
    }

    /// The wire integer a value encodes to.
    pub fn value(self) -> (r: u32)
        ensures
            r == self.spec_value(),
    {
        match self {
            CommandId::BindReceiver => 0x1,
            CommandId::BindTransmitter => 0x2,
            CommandId::QuerySm => 0x3,
            CommandId::SubmitSm => 0x4,
            CommandId::DeliverSm => 0x5,
            CommandId::Unbind => 0x6,
            CommandId::ReplaceSm => 0x7,
            CommandId::CancelSm => 0x8,
            CommandId::BindTransceiver => 0x9,
            CommandId::Outbind => 0xb,
            CommandId::EnquireLink => 0x15,
            CommandId::SubmitMulti => 0x21,
            CommandId::AlertNotification => 0x102,
            CommandId::DataSm => 0x103,
            CommandId::BroadcastSm => 0x111,
            CommandId::QueryBroadcastSm => 0x112,
            CommandId::CancelBroadcastSm => 0x113,
            CommandId::GenericNack => 0x80000000,
            CommandId::BindReceiverResp => 0x80000001,
            CommandId::BindTransmitterResp => 0x80000002,
            CommandId::QuerySmResp => 0x80000003,
            CommandId::SubmitSmResp => 0x80000004,
            CommandId::DeliverSmResp => 0x80000005,
            CommandId::UnbindResp => 0x80000006,
            CommandId::ReplaceSmResp => 0x80000007,
            CommandId::CancelSmResp => 0x80000008,
            CommandId::BindTransceiverResp => 0x80000009,
            CommandId::EnquireLinkResp => 0x80000015,
            CommandId::SubmitMultiResp => 0x80000021,
            CommandId::DataSmResp => 0x80000103,
            CommandId::BroadcastSmResp => 0x80000111,
            CommandId::QueryBroadcastSmResp => 0x80000112,
            CommandId::CancelBroadcastSmResp => 0x80000113,
            CommandId::Other(value) => value,
        }
    }
}

impl View for CommandId {
    type V = CommandId;

    open spec fn view(&self) -> CommandId {
        *self
    }
}

impl DeepView for CommandId {
    type V = CommandId;

    open spec fn deep_view(&self) -> CommandId {
        *self
    }
}

impl Decode for CommandId {
    open spec fn spec_decode(src: Seq<u8>) -> Option<(CommandId, int)> {
        match u32::spec_decode(src) {
            None => None,
            Some((value, n)) => Some((CommandId::spec_from(value), n)),
        }
    }

    open spec fn spec_decode_err(src: Seq<u8>) -> DecodeError {
        DecodeError::spec_unexpected_eof()
    }

    proof fn lemma_spec_decode_size(src: Seq<u8>) {
        u32::lemma_spec_decode_size(src);
    }

    fn decode(src: &[u8]) -> (r: Result<(Self, usize), DecodeError>) {
        match <u32 as Decode>::decode(src) {
            Ok((value, n)) => Ok((CommandId::from_value(value), n)),
            Err(e) => Err(e),
        }
    }
}

impl Encode for CommandId {
    open spec fn spec_wf(v: CommandId) -> bool {
        true
    }

    open spec fn spec_wire(v: CommandId) -> Seq<u8> {
        u32::spec_wire(v.spec_value())
    }

    fn encode(&self, dst: &mut Vec<u8>) {
        self.value().encode(dst);
    }

    fn length(&self) -> (r: usize) {
        4
    }
}

/// Result of an SMPP request, a four-octet integer on the wire; `EsmeRok` is success, every other value classifies an error.
#[derive(Debug, Clone, Copy, PartialEq, Eq, Structural)]
pub enum CommandStatus {
    EsmeRok,
    EsmeRinvmsglen,
    EsmeRinvcmdlen,
    EsmeRinvcmdid,
    EsmeRinvbndsts,
    EsmeRalybnd,
    EsmeRinvprtflg,
    EsmeRinvregdlvflg,
    EsmeRsyserr,
    EsmeRinvsrcadr,
    EsmeRinvdstadr,
    EsmeRinvmsgid,
    EsmeRbindfail,
    EsmeRinvpaswd,
    EsmeRinvsysid,
    EsmeRcancelfail,
    EsmeRreplacefail,
    EsmeRmsgqful,
    EsmeRinvsertyp,
    EsmeRinvnumdests,
    EsmeRinvdlname,
    EsmeRinvdestflag,
    EsmeRinvsubrep,
    EsmeRinvesmclass,
    EsmeRcntsubdl,
    EsmeRsubmitfail,
    EsmeRinvsrcton,
    EsmeRinvsrcnpi,
    EsmeRinvdstton,
    EsmeRinvdstnpi,
    EsmeRinvsystyp,
    EsmeRinvrepflag,
    EsmeRinvnummsgs,
    EsmeRthrottled,
    EsmeRinvsched,
    EsmeRinvexpiry,
    EsmeRinvdftmsgid,
    EsmeRxTAppn,
    EsmeRxPAppn,
    EsmeRxRAppn,
    EsmeRqueryfail,
    EsmeRinvtlvstream,
    EsmeRtlvnotallwd,
    EsmeRinvtlvlen,
    EsmeRmissingtlv,
    EsmeRinvtlvval,
    EsmeRdeliveryfailure,
    EsmeRunknownerr,
    EsmeRsertypunauth,
    EsmeRprohibited,
    EsmeRsertypunavail,
    EsmeRsertypdenied,
    EsmeRinvdcs,
    EsmeRinvsrcaddrsubunit,
    EsmeRinvdstaddrsubunit,
    EsmeRinvbcastfreqint,
    EsmeRinvbcastaliasName,
    EsmeRinvbcastareafmt,
    EsmeRinvnumbcastAreas,
    EsmeRinvbcastcnttype,
    EsmeRinvbcastmsgclass,
    EsmeRbcastfail,
    EsmeRbcastqueryfail,
    EsmeRbcastcancelfail,
    EsmeRinvbcastRep,
    EsmeRinvbcastsrvgrp,
    EsmeRinvbcastchanind,
    /// An unrecognized value, preserved as is.
    Other(u32),
}

impl CommandStatus {
    /// The value decoded from its wire integer.
    pub open spec fn spec_from(value: u32) -> CommandStatus {
        if value == 0x0 {
            CommandStatus::EsmeRok
        } else if value == 0x1 {
            CommandStatus::EsmeRinvmsglen
        } else if value == 0x2 {
            CommandStatus::EsmeRinvcmdlen
        } else if value == 0x3 {
            CommandStatus::EsmeRinvcmdid
        } else if value == 0x4 {
            CommandStatus::EsmeRinvbndsts
        } else if value == 0x5 {
            CommandStatus::EsmeRalybnd
        } else if value == 0x6 {
            CommandStatus::EsmeRinvprtflg
        } else if value == 0x7 {
            CommandStatus::EsmeRinvregdlvflg
        } else if value == 0x8 {
            CommandStatus::EsmeRsyserr
        } else if value == 0xa {
            CommandStatus::EsmeRinvsrcadr
        } else if value == 0xb {
            CommandStatus::EsmeRinvdstadr
        } else if value == 0xc {
            CommandStatus::EsmeRinvmsgid
        } else if value == 0xd {
            CommandStatus::EsmeRbindfail
        } else if value == 0xe {
            CommandStatus::EsmeRinvpaswd
        } else if value == 0xf {
            CommandStatus::EsmeRinvsysid
        } else if value == 0x11 {
            CommandStatus::EsmeRcancelfail
        } else if value == 0x13 {
            CommandStatus::EsmeRreplacefail
        } else if value == 0x14 {
            CommandStatus::EsmeRmsgqful
        } else if value == 0x15 {
            CommandStatus::EsmeRinvsertyp
        } else if value == 0x33 {
            CommandStatus::EsmeRinvnumdests
        } else if value == 0x34 {
            CommandStatus::EsmeRinvdlname
        } else if value == 0x40 {
            CommandStatus::EsmeRinvdestflag
        } else if value == 0x42 {
            CommandStatus::EsmeRinvsubrep
        } else if value == 0x43 {
            CommandStatus::EsmeRinvesmclass
        } else if value == 0x44 {
            CommandStatus::EsmeRcntsubdl
        } else if value == 0x45 {
            CommandStatus::EsmeRsubmitfail
        } else if value == 0x48 {
            CommandStatus::EsmeRinvsrcton
        } else if value == 0x49 {
            CommandStatus::EsmeRinvsrcnpi
        } else if value == 0x50 {
            CommandStatus::EsmeRinvdstton
        } else if value == 0x51 {
            CommandStatus::EsmeRinvdstnpi
        } else if value == 0x53 {
            CommandStatus::EsmeRinvsystyp
        } else if value == 0x54 {
            CommandStatus::EsmeRinvrepflag
        } else if value == 0x55 {
            CommandStatus::EsmeRinvnummsgs
        } else if value == 0x58 {
            CommandStatus::EsmeRthrottled
        } else if value == 0x61 {
            CommandStatus::EsmeRinvsched
        } else if value == 0x62 {
            CommandStatus::EsmeRinvexpiry
        } else if value == 0x63 {
            CommandStatus::EsmeRinvdftmsgid
        } else if value == 0x64 {
            CommandStatus::EsmeRxTAppn
        } else if value == 0x65 {
            CommandStatus::EsmeRxPAppn
        } else if value == 0x66 {
            CommandStatus::EsmeRxRAppn
        } else if value == 0x67 {
            CommandStatus::EsmeRqueryfail
        } else if value == 0xc0 {
            CommandStatus::EsmeRinvtlvstream
        } else if value == 0xc1 {
            CommandStatus::EsmeRtlvnotallwd
        } else if value == 0xc2 {
            CommandStatus::EsmeRinvtlvlen
        } else if value == 0xc3 {
            CommandStatus::EsmeRmissingtlv
        } else if value == 0xc4 {
            CommandStatus::EsmeRinvtlvval
        } else if value == 0xfe {
            CommandStatus::EsmeRdeliveryfailure
        } else if value == 0xff {
            CommandStatus::EsmeRunknownerr
        } else if value == 0x100 {
            CommandStatus::EsmeRsertypunauth
        } else if value == 0x101 {
            CommandStatus::EsmeRprohibited
        } else if value == 0x102 {
            CommandStatus::EsmeRsertypunavail
        } else if value == 0x103 {
            CommandStatus::EsmeRsertypdenied
        } else if value == 0x104 {
            CommandStatus::EsmeRinvdcs
        } else if value == 0x105 {
            CommandStatus::EsmeRinvsrcaddrsubunit
        } else if value == 0x106 {
            CommandStatus::EsmeRinvdstaddrsubunit
        } else if value == 0x107 {
            CommandStatus::EsmeRinvbcastfreqint
        } else if value == 0x108 {
            CommandStatus::EsmeRinvbcastaliasName
        } else if value == 0x109 {
            CommandStatus::EsmeRinvbcastareafmt
        } else if value == 0x10a {
            CommandStatus::EsmeRinvnumbcastAreas
        } else if value == 0x10b {
            CommandStatus::EsmeRinvbcastcnttype
        } else if value == 0x10c {
            CommandStatus::EsmeRinvbcastmsgclass
        } else if value == 0x10d {
            CommandStatus::EsmeRbcastfail
        } else if value == 0x10e {
            CommandStatus::EsmeRbcastqueryfail
        } else if value == 0x10f {
            CommandStatus::EsmeRbcastcancelfail
        } else if value == 0x110 {
            CommandStatus::EsmeRinvbcastRep
        } else if value == 0x111 {
            CommandStatus::EsmeRinvbcastsrvgrp
        } else if value == 0x112 {
            CommandStatus::EsmeRinvbcastchanind
        } else {
            CommandStatus::Other(value)
        }
    }

    /// The wire integer a value encodes to.
    pub open spec fn spec_value(self) -> u32 {
        match self {
            CommandStatus::EsmeRok => 0x0,
            CommandStatus::EsmeRinvmsglen => 0x1,
            CommandStatus::EsmeRinvcmdlen => 0x2,
            CommandStatus::EsmeRinvcmdid => 0x3,
            CommandStatus::EsmeRinvbndsts => 0x4,
            CommandStatus::EsmeRalybnd => 0x5,
            CommandStatus::EsmeRinvprtflg => 0x6,
            CommandStatus::EsmeRinvregdlvflg => 0x7,
            CommandStatus::EsmeRsyserr => 0x8,
            CommandStatus::EsmeRinvsrcadr => 0xa,
            CommandStatus::EsmeRinvdstadr => 0xb,
            CommandStatus::EsmeRinvmsgid => 0xc,
            CommandStatus::EsmeRbindfail => 0xd,
            CommandStatus::EsmeRinvpaswd => 0xe,
            CommandStatus::EsmeRinvsysid => 0xf,
            CommandStatus::EsmeRcancelfail => 0x11,
            CommandStatus::EsmeRreplacefail => 0x13,
            CommandStatus::EsmeRmsgqful => 0x14,
            CommandStatus::EsmeRinvsertyp => 0x15,
            CommandStatus::EsmeRinvnumdests => 0x33,
            CommandStatus::EsmeRinvdlname => 0x34,
            CommandStatus::EsmeRinvdestflag => 0x40,
            CommandStatus::EsmeRinvsubrep => 0x42,
            CommandStatus::EsmeRinvesmclass => 0x43,
            CommandStatus::EsmeRcntsubdl => 0x44,
            CommandStatus::EsmeRsubmitfail => 0x45,
            CommandStatus::EsmeRinvsrcton => 0x48,
            CommandStatus::EsmeRinvsrcnpi => 0x49,
            CommandStatus::EsmeRinvdstton => 0x50,
            CommandStatus::EsmeRinvdstnpi => 0x51,
            CommandStatus::EsmeRinvsystyp => 0x53,
            CommandStatus::EsmeRinvrepflag => 0x54,
            CommandStatus::EsmeRinvnummsgs => 0x55,
            CommandStatus::EsmeRthrottled => 0x58,
            CommandStatus::EsmeRinvsched => 0x61,
            CommandStatus::EsmeRinvexpiry => 0x62,
            CommandStatus::EsmeRinvdftmsgid => 0x63,
            CommandStatus::EsmeRxTAppn => 0x64,
            CommandStatus::EsmeRxPAppn => 0x65,
            CommandStatus::EsmeRxRAppn => 0x66,
            CommandStatus::EsmeRqueryfail => 0x67,
            CommandStatus::EsmeRinvtlvstream => 0xc0,
            CommandStatus::EsmeRtlvnotallwd => 0xc1,
            CommandStatus::EsmeRinvtlvlen => 0xc2,
            CommandStatus::EsmeRmissingtlv => 0xc3,
            CommandStatus::EsmeRinvtlvval => 0xc4,
            CommandStatus::EsmeRdeliveryfailure => 0xfe,
            CommandStatus::EsmeRunknownerr => 0xff,
            CommandStatus::EsmeRsertypunauth => 0x100,
            CommandStatus::EsmeRprohibited => 0x101,
            CommandStatus::EsmeRsertypunavail => 0x102,
            CommandStatus::EsmeRsertypdenied => 0x103,
            CommandStatus::EsmeRinvdcs => 0x104,
            CommandStatus::EsmeRinvsrcaddrsubunit => 0x105,
            CommandStatus::EsmeRinvdstaddrsubunit => 0x106,
            CommandStatus::EsmeRinvbcastfreqint => 0x107,
            CommandStatus::EsmeRinvbcastaliasName => 0x108,
            CommandStatus::EsmeRinvbcastareafmt => 0x109,
            CommandStatus::EsmeRinvnumbcastAreas => 0x10a,
            CommandStatus::EsmeRinvbcastcnttype => 0x10b,
            CommandStatus::EsmeRinvbcastmsgclass => 0x10c,
            CommandStatus::EsmeRbcastfail => 0x10d,
            CommandStatus::EsmeRbcastqueryfail => 0x10e,
            CommandStatus::EsmeRbcastcancelfail => 0x10f,
            CommandStatus::EsmeRinvbcastRep => 0x110,
            CommandStatus::EsmeRinvbcastsrvgrp => 0x111,
            CommandStatus::EsmeRinvbcastchanind => 0x112,
            CommandStatus::Other(value) => value,
        }
    }

    /// A value is canonical when its wire integer maps back to it;
    /// decoded values always are.
    pub open spec fn canonical(self) -> bool {
        CommandStatus::spec_from(self.spec_value()) == self
    }

    /// The value decoded from its wire integer.
    pub fn from_value(value: u32) -> (r: CommandStatus)
        ensures
            r == CommandStatus::spec_from(value),
    {
        if value == 0x0 {
            CommandStatus::EsmeRok
        } else if value == 0x1 {
            CommandStatus::EsmeRinvmsglen
        } else if value == 0x2 {
            CommandStatus::EsmeRinvcmdlen
        } else if value == 0x3 {
            CommandStatus::EsmeRinvcmdid
        } else if value == 0x4 {
            CommandStatus::EsmeRinvbndsts
        } else if value == 0x5 {
            CommandStatus::EsmeRalybnd
        } else if value == 0x6 {
            CommandStatus::EsmeRinvprtflg
        } else if value == 0x7 {
            CommandStatus::EsmeRinvregdlvflg
        } else if value == 0x8 {
            CommandStatus::EsmeRsyserr
        } else if value == 0xa {
            CommandStatus::EsmeRinvsrcadr
        } else if value == 0xb {
            CommandStatus::EsmeRinvdstadr
        } else if value == 0xc {
            CommandStatus::EsmeRinvmsgid
        } else if value == 0xd {
            CommandStatus::EsmeRbindfail
        } else if value == 0xe {
            CommandStatus::EsmeRinvpaswd
        } else if value == 0xf {
            CommandStatus::EsmeRinvsysid
        } else if value == 0x11 {
            CommandStatus::EsmeRcancelfail
        } else if value == 0x13 {
            CommandStatus::EsmeRreplacefail
        } else if value == 0x14 {
            CommandStatus::EsmeRmsgqful
        } else if value == 0x15 {
            CommandStatus::EsmeRinvsertyp
        } else if value == 0x33 {
            CommandStatus::EsmeRinvnumdests
        } else if value == 0x34 {
            CommandStatus::EsmeRinvdlname
        } else if value == 0x40 {
            CommandStatus::EsmeRinvdestflag
        } else if value == 0x42 {
            CommandStatus::EsmeRinvsubrep
        } else if value == 0x43 {
            CommandStatus::EsmeRinvesmclass
        } else if value == 0x44 {
            CommandStatus::EsmeRcntsubdl
        } else if value == 0x45 {
            CommandStatus::EsmeRsubmitfail
        } else if value == 0x48 {
            CommandStatus::EsmeRinvsrcton
        } else if value == 0x49 {
            CommandStatus::EsmeRinvsrcnpi
        } else if value == 0x50 {
            CommandStatus::EsmeRinvdstton
        } else if value == 0x51 {
            CommandStatus::EsmeRinvdstnpi
        } else if value == 0x53 {
            CommandStatus::EsmeRinvsystyp
        } else if value == 0x54 {
            CommandStatus::EsmeRinvrepflag
        } else if value == 0x55 {
            CommandStatus::EsmeRinvnummsgs
        } else if value == 0x58 {
            CommandStatus::EsmeRthrottled
        } else if value == 0x61 {
            CommandStatus::EsmeRinvsched
        } else if value == 0x62 {
            CommandStatus::EsmeRinvexpiry
        } else if value == 0x63 {
            CommandStatus::EsmeRinvdftmsgid
        } else if value == 0x64 {
            CommandStatus::EsmeRxTAppn
        } else if value == 0x65 {
            CommandStatus::EsmeRxPAppn
        } else if value == 0x66 {
            CommandStatus::EsmeRxRAppn
        } else if value == 0x67 {
            CommandStatus::EsmeRqueryfail
        } else if value == 0xc0 {
            CommandStatus::EsmeRinvtlvstream
        } else if value == 0xc1 {
            CommandStatus::EsmeRtlvnotallwd
        } else if value == 0xc2 {
            CommandStatus::EsmeRinvtlvlen
        } else if value == 0xc3 {
            CommandStatus::EsmeRmissingtlv
        } else if value == 0xc4 {
            CommandStatus::EsmeRinvtlvval
        } else if value == 0xfe {
            CommandStatus::EsmeRdeliveryfailure
        } else if value == 0xff {
            CommandStatus::EsmeRunknownerr
        } else if value == 0x100 {
            CommandStatus::EsmeRsertypunauth
        } else if value == 0x101 {
            CommandStatus::EsmeRprohibited
        } else if value == 0x102 {
            CommandStatus::EsmeRsertypunavail
        } else if value == 0x103 {
            CommandStatus::EsmeRsertypdenied
        } else if value == 0x104 {
            CommandStatus::EsmeRinvdcs
        } else if value == 0x105 {
            CommandStatus::EsmeRinvsrcaddrsubunit
        } else if value == 0x106 {
            CommandStatus::EsmeRinvdstaddrsubunit
        } else if value == 0x107 {
            CommandStatus::EsmeRinvbcastfreqint
        } else if value == 0x108 {
            CommandStatus::EsmeRinvbcastaliasName
        } else if value == 0x109 {
            CommandStatus::EsmeRinvbcastareafmt
        } else if value == 0x10a {
            CommandStatus::EsmeRinvnumbcastAreas
        } else if value == 0x10b {
            CommandStatus::EsmeRinvbcastcnttype
        } else if value == 0x10c {
            CommandStatus::EsmeRinvbcastmsgclass
        } else if value == 0x10d {
            CommandStatus::EsmeRbcastfail
        } else if value == 0x10e {
            CommandStatus::EsmeRbcastqueryfail
        } else if value == 0x10f {
            CommandStatus::EsmeRbcastcancelfail
        } else if value == 0x110 {
            CommandStatus::EsmeRinvbcastRep
        } else if value == 0x111 {
            CommandStatus::EsmeRinvbcastsrvgrp
        } else if value == 0x112 {
            CommandStatus::EsmeRinvbcastchanind
        } else {
            CommandStatus::Other(value)
        }
    }

    /// The wire integer a value encodes to.
    pub fn value(self) -> (r: u32)
        ensures
            r == self.spec_value(),
    {
        match self {
            CommandStatus::EsmeRok => 0x0,
            CommandStatus::EsmeRinvmsglen => 0x1,
            CommandStatus::EsmeRinvcmdlen => 0x2,
            CommandStatus::EsmeRinvcmdid => 0x3,
            CommandStatus::EsmeRinvbndsts => 0x4,
            CommandStatus::EsmeRalybnd => 0x5,
            CommandStatus::EsmeRinvprtflg => 0x6,
            CommandStatus::EsmeRinvregdlvflg => 0x7,
            CommandStatus::EsmeRsyserr => 0x8,
            CommandStatus::EsmeRinvsrcadr => 0xa,
            CommandStatus::EsmeRinvdstadr => 0xb,
            CommandStatus::EsmeRinvmsgid => 0xc,
            CommandStatus::EsmeRbindfail => 0xd,
            CommandStatus::EsmeRinvpaswd => 0xe,
            CommandStatus::EsmeRinvsysid => 0xf,
            CommandStatus::EsmeRcancelfail => 0x11,
            CommandStatus::EsmeRreplacefail => 0x13,
            CommandStatus::EsmeRmsgqful => 0x14,
            CommandStatus::EsmeRinvsertyp => 0x15,
            CommandStatus::EsmeRinvnumdests => 0x33,
            CommandStatus::EsmeRinvdlname => 0x34,
            CommandStatus::EsmeRinvdestflag => 0x40,
            CommandStatus::EsmeRinvsubrep => 0x42,
            CommandStatus::EsmeRinvesmclass => 0x43,
            CommandStatus::EsmeRcntsubdl => 0x44,
            CommandStatus::EsmeRsubmitfail => 0x45,
            CommandStatus::EsmeRinvsrcton => 0x48,
            CommandStatus::EsmeRinvsrcnpi => 0x49,
            CommandStatus::EsmeRinvdstton => 0x50,
            CommandStatus::EsmeRinvdstnpi => 0x51,
            CommandStatus::EsmeRinvsystyp => 0x53,
            CommandStatus::EsmeRinvrepflag => 0x54,
            CommandStatus::EsmeRinvnummsgs => 0x55,
            CommandStatus::EsmeRthrottled => 0x58,
            CommandStatus::EsmeRinvsched => 0x61,
            CommandStatus::EsmeRinvexpiry => 0x62,
            CommandStatus::EsmeRinvdftmsgid => 0x63,
            CommandStatus::EsmeRxTAppn => 0x64,
            CommandStatus::EsmeRxPAppn => 0x65,
            CommandStatus::EsmeRxRAppn => 0x66,
            CommandStatus::EsmeRqueryfail => 0x67,
            CommandStatus::EsmeRinvtlvstream => 0xc0,
            CommandStatus::EsmeRtlvnotallwd => 0xc1,
            CommandStatus::EsmeRinvtlvlen => 0xc2,
            CommandStatus::EsmeRmissingtlv => 0xc3,
            CommandStatus::EsmeRinvtlvval => 0xc4,
            CommandStatus::EsmeRdeliveryfailure => 0xfe,
            CommandStatus::EsmeRunknownerr => 0xff,
            CommandStatus::EsmeRsertypunauth => 0x100,
            CommandStatus::EsmeRprohibited => 0x101,
            CommandStatus::EsmeRsertypunavail => 0x102,
            CommandStatus::EsmeRsertypdenied => 0x103,
            CommandStatus::EsmeRinvdcs => 0x104,
            CommandStatus::EsmeRinvsrcaddrsubunit => 0x105,
            CommandStatus::EsmeRinvdstaddrsubunit => 0x106,
            CommandStatus::EsmeRinvbcastfreqint => 0x107,
            CommandStatus::EsmeRinvbcastaliasName => 0x108,
            CommandStatus::EsmeRinvbcastareafmt => 0x109,
            CommandStatus::EsmeRinvnumbcastAreas => 0x10a,
            CommandStatus::EsmeRinvbcastcnttype => 0x10b,
            CommandStatus::EsmeRinvbcastmsgclass => 0x10c,
            CommandStatus::EsmeRbcastfail => 0x10d,
            CommandStatus::EsmeRbcastqueryfail => 0x10e,
            CommandStatus::EsmeRbcastcancelfail => 0x10f,
            CommandStatus::EsmeRinvbcastRep => 0x110,
            CommandStatus::EsmeRinvbcastsrvgrp => 0x111,
            CommandStatus::EsmeRinvbcastchanind => 0x112,
            CommandStatus::Other(value) => value,
        }
    }
}

impl View for CommandStatus {
    type V = CommandStatus;

    open spec fn view(&self) -> CommandStatus {
        *self
    }
}

impl DeepView for CommandStatus {
    type V = CommandStatus;

    open spec fn deep_view(&self) -> CommandStatus {
        *self
    }
}

impl Decode for CommandStatus {
    open spec fn spec_decode(src: Seq<u8>) -> Option<(CommandStatus, int)> {
        match u32::spec_decode(src) {
            None => None,
            Some((value, n)) => Some((CommandStatus::spec_from(value), n)),
        }
    }

    open spec fn spec_decode_err(src: Seq<u8>) -> DecodeError {
        DecodeError::spec_unexpected_eof()
    }

    proof fn lemma_spec_decode_size(src: Seq<u8>) {
        u32::lemma_spec_decode_size(src);
    }

    fn decode(src: &[u8]) -> (r: Result<(Self, usize), DecodeError>) {
        match <u32 as Decode>::decode(src) {
            Ok((value, n)) => Ok((CommandStatus::from_value(value), n)),
            Err(e) => Err(e),
        }
    }
}

impl Encode for CommandStatus {
    open spec fn spec_wf(v: CommandStatus) -> bool {
        true
    }

    open spec fn spec_wire(v: CommandStatus) -> Seq<u8> {
        u32::spec_wire(v.spec_value())
    }

    fn encode(&self, dst: &mut Vec<u8>) {
        self.value().encode(dst);
    }

    fn length(&self) -> (r: usize) {
        4
    }
}

/// A PDU body: the sum of the supported operations. Bodies of commands
/// that this crate does not model in detail — and commands with
/// unrecognized identifiers — are preserved bit-exactly in `Other`.
#[derive(Debug)]
pub enum Pdu {
    /// A message submission.
    SubmitSm(SubmitSm),
    /// The response to a message submission.
    SubmitSmResp(SubmitSmResp),
    /// A replacement of a pending message.
    ReplaceSm(ReplaceSm),
    /// The response to a replacement; it has no body.
    ReplaceSmResp,
    /// A liveness probe; it has no body.
    EnquireLink,
    /// The response to a liveness probe; it has no body.
    EnquireLinkResp,
    /// A request to release the session; it has no body.
    Unbind,
    /// The response to a release request; it has no body.
    UnbindResp,
    /// The negative acknowledgement of an unparseable command; it has
    /// no body.
    GenericNack,
    /// The raw body of any other command, preserved as is.
    Other { command_id: CommandId, body: AnyOctetString },
}

/// The view of a [`Pdu`].
pub enum PduV {
    SubmitSm(SubmitSmV),
    SubmitSmResp(SubmitSmRespV),
    ReplaceSm(ReplaceSmV),
    ReplaceSmResp,
    EnquireLink,
    EnquireLinkResp,
    Unbind,
    UnbindResp,
    GenericNack,
    Other { command_id: CommandId, body: Seq<u8> },
}

impl DeepView for Pdu {
    type V = PduV;

    open spec fn deep_view(&self) -> PduV {
        match self {
            Pdu::SubmitSm(b) => PduV::SubmitSm(b.deep_view()),
            Pdu::SubmitSmResp(b) => PduV::SubmitSmResp(b.deep_view()),
            Pdu::ReplaceSm(b) => PduV::ReplaceSm(b.deep_view()),
            Pdu::ReplaceSmResp => PduV::ReplaceSmResp,
            Pdu::EnquireLink => PduV::EnquireLink,
            Pdu::EnquireLinkResp => PduV::EnquireLinkResp,
            Pdu::Unbind => PduV::Unbind,
            Pdu::UnbindResp => PduV::UnbindResp,
            Pdu::GenericNack => PduV::GenericNack,
            Pdu::Other { command_id, body } => PduV::Other {
                command_id: *command_id,
                body: body@,
            },
        }
    }
}

impl View for Pdu {
    type V = PduV;

    open spec fn view(&self) -> PduV {
        self.deep_view()
    }
}

/// The command identifier a body answers to.
pub open spec fn pdu_command_id(v: PduV) -> CommandId {
    match v {
        PduV::SubmitSm(b) => CommandId::SubmitSm,
        PduV::SubmitSmResp(b) => CommandId::SubmitSmResp,
        PduV::ReplaceSm(b) => CommandId::ReplaceSm,
        PduV::ReplaceSmResp => CommandId::ReplaceSmResp,
        PduV::EnquireLink => CommandId::EnquireLink,
        PduV::EnquireLinkResp => CommandId::EnquireLinkResp,
        PduV::Unbind => CommandId::Unbind,
        PduV::UnbindResp => CommandId::UnbindResp,
        PduV::GenericNack => CommandId::GenericNack,
        PduV::Other { command_id, body } => command_id,
    }
}

/// Whether an identifier names a command whose body has a dedicated
/// variant, or one of the recognized body-less commands.
pub open spec fn is_modeled_id(id: CommandId) -> bool {
    ||| id == CommandId::SubmitSm
    ||| id == CommandId::SubmitSmResp
    ||| id == CommandId::ReplaceSm
    ||| is_unit_body_id(id)
}

/// Whether an identifier names a recognized command without a body.
pub open spec fn is_unit_body_id(id: CommandId) -> bool {
    ||| id == CommandId::ReplaceSmResp
    ||| id == CommandId::EnquireLink
    ||| id == CommandId::EnquireLinkResp
    ||| id == CommandId::Unbind
    ||| id == CommandId::UnbindResp
    ||| id == CommandId::GenericNack
}

/// The wire octets of a body.
pub open spec fn pdu_wire(v: PduV) -> Seq<u8> {
    match v {
        PduV::SubmitSm(b) => submit_sm_wire(b),
        PduV::SubmitSmResp(b) => submit_sm_resp_wire(b),
        PduV::ReplaceSm(b) => replace_sm_wire(b),
        PduV::Other { command_id, body } => body,
        _ => Seq::empty(),
    }
}

/// The well-formedness of a body view: its fields satisfy their
/// invariants, and an `Other` body answers to a canonical identifier
/// that no dedicated variant claims, and is not empty. The round-trip
/// law holds of exactly these views.
pub open spec fn pdu_wf(v: PduV) -> bool {
    match v {
        PduV::SubmitSm(b) => submit_sm_wf(b),
        PduV::SubmitSmResp(b) => submit_sm_resp_wf(b),
        PduV::ReplaceSm(b) => replace_sm_wf(b),
        PduV::Other { command_id, body } => command_id.canonical() && !is_modeled_id(command_id)
            && body.len() > 0,
        _ => true,
    }
}

impl Pdu {
    /// The command identifier this body answers to.
    pub fn command_id(&self) -> (r: CommandId)
        ensures
            r == pdu_command_id(self.deep_view()),
    {
        match self {
            Pdu::SubmitSm(b) => CommandId::SubmitSm,
            Pdu::SubmitSmResp(b) => CommandId::SubmitSmResp,
            Pdu::ReplaceSm(b) => CommandId::ReplaceSm,
            Pdu::ReplaceSmResp => CommandId::ReplaceSmResp,
            Pdu::EnquireLink => CommandId::EnquireLink,
            Pdu::EnquireLinkResp => CommandId::EnquireLinkResp,
            Pdu::Unbind => CommandId::Unbind,
            Pdu::UnbindResp => CommandId::UnbindResp,
            Pdu::GenericNack => CommandId::GenericNack,
            Pdu::Other { command_id, body } => *command_id,
        }
    }
}

impl DecodeWithKeyOptional for Pdu {
    type Key = CommandId;

    open spec fn spec_decode_with_key_optional(key: CommandId, src: Seq<u8>, length: int) -> Option<
        Option<(PduV, int)>,
    > {
        match key {
            CommandId::SubmitSm => {
                if length == 0 {
                    Some(None)
                } else {
                    match SubmitSm::spec_decode_with_length(src, length) {
                        None => None,
                        Some((b, n)) => Some(Some((PduV::SubmitSm(b), n))),
                    }
                }
            },
            CommandId::SubmitSmResp => {
                if length == 0 {
                    Some(None)
                } else {
                    match SubmitSmResp::spec_decode_with_length(src, length) {
                        None => None,
                        Some((b, n)) => Some(Some((PduV::SubmitSmResp(b), n))),
                    }
                }
            },
            CommandId::ReplaceSm => {
                if length == 0 {
                    Some(None)
                } else {
                    match ReplaceSm::spec_decode_with_length(src, length) {
                        None => None,
                        Some((b, n)) => Some(Some((PduV::ReplaceSm(b), n))),
                    }
                }
            },
            CommandId::ReplaceSmResp => Some(Some((PduV::ReplaceSmResp, 0))),
            CommandId::EnquireLink => Some(Some((PduV::EnquireLink, 0))),
            CommandId::EnquireLinkResp => Some(Some((PduV::EnquireLinkResp, 0))),
            CommandId::Unbind => Some(Some((PduV::Unbind, 0))),
            CommandId::UnbindResp => Some(Some((PduV::UnbindResp, 0))),
            CommandId::GenericNack => Some(Some((PduV::GenericNack, 0))),
            _ => {
                if length == 0 {
                    Some(None)
                } else {
                    match AnyOctetString::spec_decode_with_length(src, length) {
                        None => None,
                        Some((body, n)) => Some(
                            Some((PduV::Other { command_id: key, body }, n)),
                        ),
                    }
                }
            },
        }
    }

    open spec fn spec_decode_with_key_optional_err(
        key: CommandId,
        src: Seq<u8>,
        length: int,
    ) -> DecodeError {
        match key {
            CommandId::SubmitSm => SubmitSm::spec_decode_with_length_err(src, length),
            CommandId::SubmitSmResp => SubmitSmResp::spec_decode_with_length_err(src, length),
            CommandId::ReplaceSm => ReplaceSm::spec_decode_with_length_err(src, length),
            _ => AnyOctetString::spec_decode_with_length_err(src, length),
        }
    }

    proof fn lemma_spec_decode_with_key_optional_size(key: CommandId, src: Seq<u8>, length: int) {
        match key {
            CommandId::SubmitSm => {
                SubmitSm::lemma_spec_decode_with_length_size(src, length);
            },
            CommandId::SubmitSmResp => {
                SubmitSmResp::lemma_spec_decode_with_length_size(src, length);
            },
            CommandId::ReplaceSm => {
                ReplaceSm::lemma_spec_decode_with_length_size(src, length);
            },
            _ => {
                AnyOctetString::lemma_spec_decode_with_length_size(src, length);
            },
        }
    }

    fn decode(key: CommandId, src: &[u8], length: usize) -> (r: Result<
        Option<(Self, usize)>,
        DecodeError,
    >) {
        match key {
            CommandId::SubmitSm => {
                if length == 0 {
                    return Ok(None);
                }
                match <SubmitSm as DecodeWithLength>::decode(src, length) {
                    Ok((b, n)) => Ok(Some((Pdu::SubmitSm(b), n))),
                    Err(e) => Err(e),
                }
            },
            CommandId::SubmitSmResp => {
                if length == 0 {
                    return Ok(None);
                }
                match <SubmitSmResp as DecodeWithLength>::decode(src, length) {
                    Ok((b, n)) => Ok(Some((Pdu::SubmitSmResp(b), n))),
                    Err(e) => Err(e),
                }
            },
            CommandId::ReplaceSm => {
                if length == 0 {
                    return Ok(None);
                }
                match <ReplaceSm as DecodeWithLength>::decode(src, length) {
                    Ok((b, n)) => Ok(Some((Pdu::ReplaceSm(b), n))),
                    Err(e) => Err(e),
                }
            },
            CommandId::ReplaceSmResp => Ok(Some((Pdu::ReplaceSmResp, 0))),
            CommandId::EnquireLink => Ok(Some((Pdu::EnquireLink, 0))),
            CommandId::EnquireLinkResp => Ok(Some((Pdu::EnquireLinkResp, 0))),
            CommandId::Unbind => Ok(Some((Pdu::Unbind, 0))),
            CommandId::UnbindResp => Ok(Some((Pdu::UnbindResp, 0))),
            CommandId::GenericNack => Ok(Some((Pdu::GenericNack, 0))),
            _ => {
                if length == 0 {
                    return Ok(None);
                }
                match <AnyOctetString as DecodeWithLength>::decode(src, length) {
                    Ok((body, n)) => Ok(Some((Pdu::Other { command_id: key, body }, n))),
                    Err(e) => Err(e),
                }
            },
        }
    }
}

impl Encode for Pdu {
    open spec fn spec_wf(v: PduV) -> bool {
        true
    }

    open spec fn spec_wire(v: PduV) -> Seq<u8> {
        pdu_wire(v)
    }

    fn encode(&self, dst: &mut Vec<u8>) {
        match self {
            Pdu::SubmitSm(b) => {
                b.encode(dst);
            },
            Pdu::SubmitSmResp(b) => {
                b.encode(dst);
            },
            Pdu::ReplaceSm(b) => {
                b.encode(dst);
            },
            Pdu::Other { command_id, body } => {
                body.encode(dst);
            },
            _ => {
                proof {
                    assert(dst@ =~= old(dst)@ + pdu_wire(self.deep_view()));
                }
            },
        }
    }

    fn length(&self) -> (r: usize) {
        match self {
            Pdu::SubmitSm(b) => b.length(),
            Pdu::SubmitSmResp(b) => b.length(),
            Pdu::ReplaceSm(b) => b.length(),
            Pdu::Other { command_id, body } => body.length(),
            _ => 0,
        }
    }
}

/// The view of a [`Command`].
pub struct CommandV {
    pub id: CommandId,
    pub status: CommandStatus,
    pub sequence_number: u32,
    pub pdu: Option<PduV>,
}

/// The well-formedness of a command view: canonical identifier and
/// status, a body that answers to the identifier, or — when the body
/// is absent — an identifier whose commands carry one. The round-trip
/// law holds of exactly these views.
pub open spec fn command_wf(v: CommandV) -> bool {
    &&& v.id.canonical()
    &&& v.status.canonical()
    &&& match v.pdu {
        Some(p) => pdu_wf(p) && pdu_command_id(p) == v.id,
        None => !is_unit_body_id(v.id),
    }
}

/// The wire octets of a command, without the 4-octet length prefix:
/// identifier, status and sequence number as big-endian 4-octet
/// integers, then the body.
pub open spec fn command_wire(v: CommandV) -> Seq<u8> {
    u32::spec_wire(v.id.spec_value()) + u32::spec_wire(v.status.spec_value()) + u32::spec_wire(
        v.sequence_number,
    ) + match v.pdu {
        Some(p) => pdu_wire(p),
        None => Seq::empty(),
    }
}

/// An SMPP command: the 16-octet header's identifier, status and
/// sequence number, and the body selected by the identifier.
#[derive(Debug)]
pub struct Command {
    id: CommandId,
    status: CommandStatus,
    sequence_number: u32,
    pdu: Option<Pdu>,
}

impl DeepView for Command {
    type V = CommandV;

    closed spec fn deep_view(&self) -> CommandV {
        CommandV {
            id: self.id,
            status: self.status,
            sequence_number: self.sequence_number,
            pdu: match self.pdu {
                Some(p) => Some(p.deep_view()),
                None => None,
            },
        }
    }
}

impl View for Command {
    type V = CommandV;

    open spec fn view(&self) -> CommandV {
        self.deep_view()
    }
}

impl Command {
    /// Creates a command around a body: the identifier is the body's
    /// own.
    pub fn new(status: CommandStatus, sequence_number: u32, pdu: Pdu) -> (r: Command)
        ensures
            r@ == (CommandV {
                id: pdu_command_id(pdu.deep_view()),
                status,
                sequence_number,
                pdu: Some(pdu.deep_view()),
            }),
    {
        let id = pdu.command_id();
        Command { id, status, sequence_number, pdu: Some(pdu) }
    }

    /// The command identifier.
    pub fn id(&self) -> (r: CommandId)
        ensures
            r == self@.id,
    {
        self.id
    }

    /// The command status.
    pub fn status(&self) -> (r: CommandStatus)
        ensures
            r == self@.status,
    {
        self.status
    }

    /// The sequence number correlating this command with its pair.
    pub fn sequence_number(&self) -> (r: u32)
        ensures
            r == self@.sequence_number,
    {
        self.sequence_number
    }

    /// Borrows the body, absent when the command carried none.
    pub fn pdu(&self) -> (r: &Option<Pdu>)
        ensures
            r.deep_view() == self@.pdu,
    {
        proof {
            assert(self.pdu.deep_view() =~= self@.pdu);
        }
        &self.pdu
    }

    /// Takes the body out of the command.
    pub fn into_pdu(self) -> (r: Option<Pdu>)
        ensures
            r.deep_view() == self@.pdu,
    {
        proof {
            assert(self.pdu.deep_view() =~= self@.pdu);
        }
        self.pdu
    }

    /// Returns the command if its status reports success, and the
    /// command as the error otherwise.
    pub fn ok(self) -> (r: Result<Command, Command>)
        ensures
            match r {
                Ok(c) => self@.status == CommandStatus::EsmeRok && c == self,
                Err(c) => self@.status != CommandStatus::EsmeRok && c == self,
            },
    {
        if matches!(self.status, CommandStatus::EsmeRok) {
            Ok(self)
        } else {
            Err(self)
        }
    }

    /// Returns the command if its status reports success and its
    /// identifier is the expected one, and the command as the error
    /// otherwise.
    pub fn ok_and_matches(self, id: CommandId) -> (r: Result<Command, Command>)
        ensures
            match r {
                Ok(c) => self@.status == CommandStatus::EsmeRok && self@.id == id && c == self,
                Err(c) => (self@.status != CommandStatus::EsmeRok || self@.id != id) && c == self,
            },
    {
        let ok_status = matches!(self.status, CommandStatus::EsmeRok);
        if ok_status && self.id == id {
            Ok(self)
        } else {
            Err(self)
        }
    }
}

impl DecodeWithLength for Command {
    open spec fn spec_decode_with_length(src: Seq<u8>, length: int) -> Option<(CommandV, int)> {
        if length < 12 || length > src.len() {
            None
        } else {
            let win = src.take(length);
            let id = CommandId::spec_from(u32::spec_decode(win)->Some_0.0);
            let status = CommandStatus::spec_from(u32::spec_decode(win.skip(4))->Some_0.0);
            let sequence_number = u32::spec_decode(win.skip(8))->Some_0.0;
            match Pdu::spec_decode_with_key_optional(id, win.skip(12), length - 12) {
                None => None,
                Some(None) => Some(
                    (CommandV { id, status, sequence_number, pdu: None }, 12),
                ),
                Some(Some((p, n))) => Some(
                    (CommandV { id, status, sequence_number, pdu: Some(p) }, 12 + n),
                ),
            }
        }
    }

    open spec fn spec_decode_with_length_err(src: Seq<u8>, length: int) -> DecodeError {
        if length < 12 || length > src.len() {
            DecodeError::spec_unexpected_eof()
        } else {
            let win = src.take(length);
            let id = CommandId::spec_from(u32::spec_decode(win)->Some_0.0);
            Pdu::spec_decode_with_key_optional_err(id, win.skip(12), length - 12)
        }
    }

    proof fn lemma_spec_decode_with_length_size(src: Seq<u8>, length: int) {
        if 12 <= length <= src.len() {
            let win = src.take(length);
            let id = CommandId::spec_from(u32::spec_decode(win)->Some_0.0);
            Pdu::lemma_spec_decode_with_key_optional_size(id, win.skip(12), length - 12);
        }
    }

    fn decode(src: &[u8], length: usize) -> (r: Result<(Self, usize), DecodeError>) {
        if length < 12 || length > src.len() {
            return Err(DecodeError::unexpected_eof());
        }
        let win = slice_subrange(src, 0, length);
        let (id_raw, _) = match <u32 as Decode>::decode(win) {
            Ok(p) => p,
            Err(e) => {
                return Err(e);
            },
        };
        let r4 = slice_subrange(win, 4, length);
        proof {
            assert(r4@ =~= win@.skip(4));
        }
        let (status_raw, _) = match <u32 as Decode>::decode(r4) {
            Ok(p) => p,
            Err(e) => {
                return Err(e);
            },
        };
        let r8 = slice_subrange(win, 8, length);
        proof {
            assert(r8@ =~= win@.skip(8));
        }
        let (sequence_number, _) = match <u32 as Decode>::decode(r8) {
            Ok(p) => p,
            Err(e) => {
                return Err(e);
            },
        };
        let id = CommandId::from_value(id_raw);
        let status = CommandStatus::from_value(status_raw);
        let r12 = slice_subrange(win, 12, length);
        proof {
            assert(r12@ =~= win@.skip(12));
        }
        match Pdu::decode(id, r12, length - 12) {
            Ok(None) => Ok((Command { id, status, sequence_number, pdu: None }, 12)),
            Ok(Some((p, n))) => {
                proof {
                    Pdu::lemma_spec_decode_with_key_optional_size(
                        id,
                        r12@,
                        (length - 12) as int,
                    );
                }
                Ok((Command { id, status, sequence_number, pdu: Some(p) }, 12 + n))
            },
            Err(e) => Err(e),
        }
    }
}

impl Encode for Command {
    open spec fn spec_wf(v: CommandV) -> bool {
        true
    }

    open spec fn spec_wire(v: CommandV) -> Seq<u8> {
        command_wire(v)
    }

    fn encode(&self, dst: &mut Vec<u8>) {
        self.id.value().encode(dst);
        self.status.value().encode(dst);
        self.sequence_number.encode(dst);
        match &self.pdu {
            Some(p) => {
                p.encode(dst);
            },
            None => {},
        }
        proof {
            assert(dst@ =~= old(dst)@ + command_wire(self.deep_view()));
        }
    }

    fn length(&self) -> (r: usize) {
        let body: usize = match &self.pdu {
            Some(p) => p.length(),
            None => 0,
        };
        12 + body
    }
}

/// Decoding the wire octets of a well-formed command — whatever bytes
/// follow them — under their own length yields exactly that command,
/// consuming it whole. Together with the contract of
/// [`Encode::encode`], decoding an encoded command is the identity,
/// and [`Encode::length`] agrees with the encoded size.
#[verifier::rlimit(100)]
#[verifier::spinoff_prover]
pub proof fn lemma_command_wire_round_trip(v: CommandV, rest: Seq<u8>)
    requires
        command_wf(v),
    ensures
        Command::spec_decode_with_length(
            command_wire(v) + rest,
            command_wire(v).len() as int,
        ) == Some((v, command_wire(v).len() as int)),
{
    let w = command_wire(v);
    let length = w.len() as int;
    let src = w + rest;
    let win = src.take(length);
    let bw = match v.pdu {
        Some(p) => pdu_wire(p),
        None => Seq::<u8>::empty(),
    };
    let idw = u32::spec_wire(v.id.spec_value());
    let stw = u32::spec_wire(v.status.spec_value());
    let sqw = u32::spec_wire(v.sequence_number);
    assert(win =~= idw + (stw + (sqw + bw)));
    crate::primitives::lemma_u32_wire_round_trip(v.id.spec_value(), stw + (sqw + bw));
    assert(win.skip(4) =~= stw + (sqw + bw));
    crate::primitives::lemma_u32_wire_round_trip(v.status.spec_value(), sqw + bw);
    assert(win.skip(8) =~= sqw + bw);
    crate::primitives::lemma_u32_wire_round_trip(v.sequence_number, bw);
    assert(win.skip(12) =~= bw);
    assert(CommandId::spec_from(v.id.spec_value()) == v.id);
    assert(CommandStatus::spec_from(v.status.spec_value()) == v.status);
    match v.pdu {
        None => {
            assert(length - 12 == 0);
        },
        Some(p) => {
            match p {
                PduV::SubmitSm(b) => {
                    crate::pdus::submit_sm::lemma_submit_sm_wire_round_trip(b, Seq::empty());
                    assert(submit_sm_wire(b) + Seq::<u8>::empty() =~= submit_sm_wire(b));
                    if submit_sm_wire(b).len() == 0 {
                        assert(b.service_type.len() > 0);
                        lemma_ss_tail0(b);
                    }
                },
                PduV::SubmitSmResp(b) => {
                    crate::pdus::submit_sm::lemma_submit_sm_resp_wire_round_trip(
                        b,
                        Seq::empty(),
                    );
                    assert(submit_sm_resp_wire(b) + Seq::<u8>::empty() =~= submit_sm_resp_wire(
                        b,
                    ));
                    assert(submit_sm_resp_wire(b).len() > 0) by {
                        assert(b.message_id.len() > 0);
                    }
                },
                PduV::ReplaceSm(b) => {
                    crate::pdus::replace_sm::lemma_replace_sm_wire_round_trip(b, Seq::empty());
                    assert(replace_sm_wire(b) + Seq::<u8>::empty() =~= replace_sm_wire(b));
                    assert(replace_sm_wire(b).len() > 0) by {
                        assert(b.message_id.len() > 0);
                    }
                },
                PduV::Other { command_id, body } => {
                    assert(bw.take(bw.len() as int) =~= bw);
                },
                _ => {
                    assert(bw.len() == 0);
                },
            }
        },
    }
}

} // verus!
