//! The `submit_sm` operation: the basic message submission from the
//! ESME to the Message Centre, and its response.

use vstd::prelude::*;
use vstd::slice::slice_subrange;

use crate::decode::{Decode, DecodeError, DecodeWithLength};
use crate::encode::Encode;
use crate::tlvs::tlv::{
    lemma_tlvs_wire_round_trip, tlvs_wf, tlvs_wire, tlv_wire, Tlv, TlvV,
};
use crate::types::c_octet_string::{
    c_octet_str_wf, lemma_c_octet_string_wire_round_trip, COctetString,
};
use crate::types::empty_or_full_c_octet_string::{
    empty_or_full_wf, lemma_empty_or_full_wire_round_trip, EmptyOrFullCOctetString,
};
use crate::types::octet_string::OctetString;
use crate::values::{
    DataCoding, EsmClass, Npi, RegisteredDelivery, ReplaceIfPresentFlag, Ton,
};

verus! {

/// Appends the wire octets of each TLV in order.
pub fn encode_tlvs(tlvs: &Vec<Tlv>, dst: &mut Vec<u8>)
    requires
        old(dst)@.len() + tlvs_wire(tlvs.deep_view()).len() <= usize::MAX,
    ensures
        final(dst)@ == old(dst)@ + tlvs_wire(tlvs.deep_view()),
{
    let mut i: usize = 0;
    proof {
        assert(tlvs.deep_view().skip(0) =~= tlvs.deep_view());
        lemma_tlvs_wire_prefix(tlvs.deep_view(), 0);
    }
    while i < tlvs.len()
        invariant
            i <= tlvs@.len(),
            tlvs.deep_view().len() == tlvs@.len(),
            old(dst)@.len() + tlvs_wire(tlvs.deep_view()).len() <= usize::MAX,
            dst@ == old(dst)@ + tlvs_wire_prefix(tlvs.deep_view(), i as int),
            tlvs_wire_prefix(tlvs.deep_view(), i as int).len() + tlvs_wire(
                tlvs.deep_view().skip(i as int),
            ).len() == tlvs_wire(tlvs.deep_view()).len(),
        decreases tlvs@.len() - i,
    {
        proof {
            assert(tlvs.deep_view().skip(i as int)[0] == tlvs.deep_view()[i as int]);
            assert(tlvs.deep_view()[i as int] == tlvs@[i as int].deep_view());
            lemma_tlvs_wire_prefix(tlvs.deep_view(), i as int);
            assert(tlvs.deep_view().skip(i as int).skip(1) =~= tlvs.deep_view().skip(i + 1));
            lemma_tlvs_wire_prefix(tlvs.deep_view(), i + 1);
        }
        tlvs[i].encode(dst);
        i += 1;
    }
    proof {
        assert(tlvs.deep_view().skip(i as int) =~= Seq::<TlvV>::empty());
        lemma_tlvs_wire_prefix(tlvs.deep_view(), i as int);
        assert(tlvs_wire_prefix(tlvs.deep_view(), i as int) =~= tlvs_wire(tlvs.deep_view()));
    }
}

/// The wire octets of the first `k` TLVs of a sequence.
pub open spec fn tlvs_wire_prefix(ts: Seq<TlvV>, k: int) -> Seq<u8>
    decreases k,
{
    if k <= 0 {
        Seq::empty()
    } else {
        tlvs_wire_prefix(ts, k - 1) + tlv_wire(ts[k - 1])
    }
}

/// A prefix of the TLV wire and the wire of the remainder make up the
/// whole wire.
pub proof fn lemma_tlvs_wire_prefix(ts: Seq<TlvV>, k: int)
    requires
        0 <= k <= ts.len(),
    ensures
        tlvs_wire_prefix(ts, k) + tlvs_wire(ts.skip(k)) == tlvs_wire(ts),
        k < ts.len() ==> tlvs_wire_prefix(ts, k + 1) == tlvs_wire_prefix(ts, k) + tlv_wire(
            ts[k],
        ),
    decreases k,
{
    if k == 0 {
        assert(ts.skip(0) =~= ts);
        assert(tlvs_wire_prefix(ts, 0) + tlvs_wire(ts) =~= tlvs_wire(ts));
    } else {
        lemma_tlvs_wire_prefix(ts, k - 1);
        assert(ts.skip(k - 1)[0] == ts[k - 1]);
        assert(ts.skip(k - 1).skip(1) =~= ts.skip(k));
        assert(tlvs_wire(ts.skip(k - 1)) == tlv_wire(ts[k - 1]) + tlvs_wire(ts.skip(k)));
        assert(tlvs_wire_prefix(ts, k - 1) + (tlv_wire(ts[k - 1]) + tlvs_wire(ts.skip(k))) =~= (
        tlvs_wire_prefix(ts, k - 1) + tlv_wire(ts[k - 1])) + tlvs_wire(ts.skip(k)));
    }
}

/// The view of a [`SubmitSm`].
pub struct SubmitSmV {
    pub service_type: Seq<u8>,
    pub source_addr_ton: Ton,
    pub source_addr_npi: Npi,
    pub source_addr: Seq<u8>,
    pub dest_addr_ton: Ton,
    pub dest_addr_npi: Npi,
    pub destination_addr: Seq<u8>,
    pub esm_class: EsmClass,
    pub protocol_id: u8,
    pub priority_flag: u8,
    pub schedule_delivery_time: Seq<u8>,
    pub validity_period: Seq<u8>,
    pub registered_delivery: RegisteredDelivery,
    pub replace_if_present_flag: ReplaceIfPresentFlag,
    pub data_coding: DataCoding,
    pub sm_default_msg_id: u8,
    pub sm_length: u8,
    pub short_message: Seq<u8>,
    pub tlvs: Seq<TlvV>,
}

/// The well-formedness of a [`SubmitSm`] view: every string field
/// satisfies its own invariant, the enumeration fields are canonical,
/// the length companion matches the short message, and every trailing
/// TLV is well-formed. The round-trip law holds of exactly these views.
pub open spec fn submit_sm_wf(v: SubmitSmV) -> bool {
    &&& c_octet_str_wf(v.service_type, 6)
    &&& v.source_addr_ton.canonical()
    &&& v.source_addr_npi.canonical()
    &&& c_octet_str_wf(v.source_addr, 21)
    &&& v.dest_addr_ton.canonical()
    &&& v.dest_addr_npi.canonical()
    &&& c_octet_str_wf(v.destination_addr, 21)
    &&& v.esm_class.canonical()
    &&& empty_or_full_wf(v.schedule_delivery_time, 17)
    &&& empty_or_full_wf(v.validity_period, 17)
    &&& v.registered_delivery.canonical()
    &&& v.replace_if_present_flag.canonical()
    &&& v.data_coding.canonical()
    &&& v.sm_length == v.short_message.len()
    &&& v.short_message.len() <= 255
    &&& tlvs_wf(v.tlvs)
}

/// The wire octets of a [`SubmitSm`] body: the mandatory fields in
/// declared order, then the message submission request TLVs.
pub open spec fn submit_sm_wire(v: SubmitSmV) -> Seq<u8> {
    v.service_type + seq![v.source_addr_ton.spec_value()] + seq![v.source_addr_npi.spec_value()] + v.source_addr + seq![v.dest_addr_ton.spec_value()] + seq![v.dest_addr_npi.spec_value()] + v.destination_addr + seq![v.esm_class.spec_value()] + seq![v.protocol_id] + seq![v.priority_flag] + v.schedule_delivery_time + v.validity_period + seq![v.registered_delivery.spec_value()] + seq![v.replace_if_present_flag.spec_value()] + seq![v.data_coding.spec_value()] + seq![v.sm_default_msg_id] + seq![v.sm_length] + v.short_message + tlvs_wire(v.tlvs)
}

/// The specification-level parser of a [`SubmitSm`] body: the
/// mandatory fields in declared order, the short message framed by the
/// preceding `sm_length` octet, then TLVs until the body is exhausted.
pub open spec fn spec_submit_sm_parse(src: Seq<u8>, length: int) -> Result<
    (SubmitSmV, int),
    DecodeError,
> {
    if length < 0 || length > src.len() {
        Err(DecodeError::spec_unexpected_eof())
    } else {
        let win = src.take(length);
        match COctetString::<1, 6>::spec_decode(win) {
            None => Err(COctetString::<1, 6>::spec_decode_err(win)),
            Some((service_type, c0)) => {
                let o0 = 0 + c0;
                match Ton::spec_decode(win.skip(o0)) {
                    None => Err(Ton::spec_decode_err(win.skip(o0))),
                    Some((source_addr_ton, c1)) => {
                        let o1 = o0 + c1;
                        match Npi::spec_decode(win.skip(o1)) {
                            None => Err(Npi::spec_decode_err(win.skip(o1))),
                            Some((source_addr_npi, c2)) => {
                                let o2 = o1 + c2;
                                match COctetString::<1, 21>::spec_decode(win.skip(o2)) {
                                    None => Err(COctetString::<1, 21>::spec_decode_err(win.skip(o2))),
                                    Some((source_addr, c3)) => {
                                        let o3 = o2 + c3;
                                        match Ton::spec_decode(win.skip(o3)) {
                                            None => Err(Ton::spec_decode_err(win.skip(o3))),
                                            Some((dest_addr_ton, c4)) => {
                                                let o4 = o3 + c4;
                                                match Npi::spec_decode(win.skip(o4)) {
                                                    None => Err(Npi::spec_decode_err(win.skip(o4))),
                                                    Some((dest_addr_npi, c5)) => {
                                                        let o5 = o4 + c5;
                                                        match COctetString::<1, 21>::spec_decode(win.skip(o5)) {
                                                            None => Err(COctetString::<1, 21>::spec_decode_err(win.skip(o5))),
                                                            Some((destination_addr, c6)) => {
                                                                let o6 = o5 + c6;
                                                                match EsmClass::spec_decode(win.skip(o6)) {
                                                                    None => Err(EsmClass::spec_decode_err(win.skip(o6))),
                                                                    Some((esm_class, c7)) => {
                                                                        let o7 = o6 + c7;
                                                                        match u8::spec_decode(win.skip(o7)) {
                                                                            None => Err(u8::spec_decode_err(win.skip(o7))),
                                                                            Some((protocol_id, c8)) => {
                                                                                let o8 = o7 + c8;
                                                                                match u8::spec_decode(win.skip(o8)) {
                                                                                    None => Err(u8::spec_decode_err(win.skip(o8))),
                                                                                    Some((priority_flag, c9)) => {
                                                                                        let o9 = o8 + c9;
                                                                                        match EmptyOrFullCOctetString::<17>::spec_decode(win.skip(o9)) {
                                                                                            None => Err(EmptyOrFullCOctetString::<17>::spec_decode_err(win.skip(o9))),
                                                                                            Some((schedule_delivery_time, c10)) => {
                                                                                                let o10 = o9 + c10;
                                                                                                match EmptyOrFullCOctetString::<17>::spec_decode(win.skip(o10)) {
                                                                                                    None => Err(EmptyOrFullCOctetString::<17>::spec_decode_err(win.skip(o10))),
                                                                                                    Some((validity_period, c11)) => {
                                                                                                        let o11 = o10 + c11;
                                                                                                        match RegisteredDelivery::spec_decode(win.skip(o11)) {
                                                                                                            None => Err(RegisteredDelivery::spec_decode_err(win.skip(o11))),
                                                                                                            Some((registered_delivery, c12)) => {
                                                                                                                let o12 = o11 + c12;
                                                                                                                match ReplaceIfPresentFlag::spec_decode(win.skip(o12)) {
                                                                                                                    None => Err(ReplaceIfPresentFlag::spec_decode_err(win.skip(o12))),
                                                                                                                    Some((replace_if_present_flag, c13)) => {
                                                                                                                        let o13 = o12 + c13;
                                                                                                                        match DataCoding::spec_decode(win.skip(o13)) {
                                                                                                                            None => Err(DataCoding::spec_decode_err(win.skip(o13))),
                                                                                                                            Some((data_coding, c14)) => {
                                                                                                                                let o14 = o13 + c14;
                                                                                                                                match u8::spec_decode(win.skip(o14)) {
                                                                                                                                    None => Err(u8::spec_decode_err(win.skip(o14))),
                                                                                                                                    Some((sm_default_msg_id, c15)) => {
                                                                                                                                        let o15 = o14 + c15;
                                                                                                                                        match u8::spec_decode(win.skip(o15)) {
                                                                                                                                            None => Err(u8::spec_decode_err(win.skip(o15))),
                                                                                                                                            Some((sm_length, c16)) => {
                                                                                                                                                let o16 = o15 + c16;
                                                                                                                                                match OctetString::<0, 255>::spec_decode_with_length(win.skip(o16), sm_length as int) {
                                                                                                                                                    None => Err(OctetString::<0, 255>::spec_decode_with_length_err(win.skip(o16), sm_length as int)),
                                                                                                                                                    Some((short_message, c17)) => {
                                                                                                                                                        let o17 = o16 + c17;
                                                                                                                                                        match Vec::<Tlv>::spec_decode_with_length(win.skip(o17), length - o17) {
                                                                                                                                                            None => Err(Vec::<Tlv>::spec_decode_with_length_err(win.skip(o17), length - o17)),
                                                                                                                                                            Some((tlvs, ct)) => Ok((SubmitSmV {
                                                                                                                                                                service_type,
                                                                                                                                                                source_addr_ton,
                                                                                                                                                                source_addr_npi,
                                                                                                                                                                source_addr,
                                                                                                                                                                dest_addr_ton,
                                                                                                                                                                dest_addr_npi,
                                                                                                                                                                destination_addr,
                                                                                                                                                                esm_class,
                                                                                                                                                                protocol_id,
                                                                                                                                                                priority_flag,
                                                                                                                                                                schedule_delivery_time,
                                                                                                                                                                validity_period,
                                                                                                                                                                registered_delivery,
                                                                                                                                                                replace_if_present_flag,
                                                                                                                                                                data_coding,
                                                                                                                                                                sm_default_msg_id,
                                                                                                                                                                sm_length,
                                                                                                                                                                short_message,
                                                                                                                                                                tlvs,
                                                                                                                                                            }, o17 + ct)),
                                                                                                                                                        }
                                                                                                                                                    },
                                                                                                                                                }
                                                                                                                                            },
                                                                                                                                        }
                                                                                                                                    },
                                                                                                                                }
                                                                                                                            },
                                                                                                                        }
                                                                                                                    },
                                                                                                                }
                                                                                                            },
                                                                                                        }
                                                                                                    },
                                                                                                }
                                                                                            },
                                                                                        }
                                                                                    },
                                                                                }
                                                                            },
                                                                        }
                                                                    },
                                                                }
                                                            },
                                                        }
                                                    },
                                                }
                                            },
                                        }
                                    },
                                }
                            },
                        }
                    },
                }
            },
        }
    }
}

/// This operation is issued by the ESME to submit a short message to
/// the Message Centre for onward transmission.
///
/// Setting the inline short message updates its `sm_length` companion
/// field automatically; the two never disagree.
#[derive(Debug)]
pub struct SubmitSm {
    service_type: COctetString<1, 6>,
    source_addr_ton: Ton,
    source_addr_npi: Npi,
    source_addr: COctetString<1, 21>,
    dest_addr_ton: Ton,
    dest_addr_npi: Npi,
    destination_addr: COctetString<1, 21>,
    esm_class: EsmClass,
    protocol_id: u8,
    priority_flag: u8,
    schedule_delivery_time: EmptyOrFullCOctetString<17>,
    validity_period: EmptyOrFullCOctetString<17>,
    registered_delivery: RegisteredDelivery,
    replace_if_present_flag: ReplaceIfPresentFlag,
    data_coding: DataCoding,
    sm_default_msg_id: u8,
    sm_length: u8,
    short_message: OctetString<0, 255>,
    tlvs: Vec<Tlv>,
}

impl DeepView for SubmitSm {
    type V = SubmitSmV;

    closed spec fn deep_view(&self) -> SubmitSmV {
        SubmitSmV {
            service_type: self.service_type@,
            source_addr_ton: self.source_addr_ton,
            source_addr_npi: self.source_addr_npi,
            source_addr: self.source_addr@,
            dest_addr_ton: self.dest_addr_ton,
            dest_addr_npi: self.dest_addr_npi,
            destination_addr: self.destination_addr@,
            esm_class: self.esm_class,
            protocol_id: self.protocol_id,
            priority_flag: self.priority_flag,
            schedule_delivery_time: self.schedule_delivery_time@,
            validity_period: self.validity_period@,
            registered_delivery: self.registered_delivery,
            replace_if_present_flag: self.replace_if_present_flag,
            data_coding: self.data_coding,
            sm_default_msg_id: self.sm_default_msg_id,
            sm_length: self.sm_length,
            short_message: self.short_message@,
            tlvs: self.tlvs.deep_view(),
        }
    }
}

impl View for SubmitSm {
    type V = SubmitSmV;

    open spec fn view(&self) -> SubmitSmV {
        self.deep_view()
    }
}

impl SubmitSm {
    /// The `service_type` field.
    pub fn service_type(&self) -> (r: &COctetString<1, 6>)
        ensures
            r@ == self@.service_type,
    {
        &self.service_type
    }

    /// The `source_addr_ton` field.
    pub fn source_addr_ton(&self) -> (r: Ton)
        ensures
            r == self@.source_addr_ton,
    {
        self.source_addr_ton
    }

    /// The `source_addr_npi` field.
    pub fn source_addr_npi(&self) -> (r: Npi)
        ensures
            r == self@.source_addr_npi,
    {
        self.source_addr_npi
    }

    /// The `source_addr` field.
    pub fn source_addr(&self) -> (r: &COctetString<1, 21>)
        ensures
            r@ == self@.source_addr,
    {
        &self.source_addr
    }

    /// The `dest_addr_ton` field.
    pub fn dest_addr_ton(&self) -> (r: Ton)
        ensures
            r == self@.dest_addr_ton,
    {
        self.dest_addr_ton
    }

    /// The `dest_addr_npi` field.
    pub fn dest_addr_npi(&self) -> (r: Npi)
        ensures
            r == self@.dest_addr_npi,
    {
        self.dest_addr_npi
    }

    /// The `destination_addr` field.
    pub fn destination_addr(&self) -> (r: &COctetString<1, 21>)
        ensures
            r@ == self@.destination_addr,
    {
        &self.destination_addr
    }

    /// The `esm_class` field.
    pub fn esm_class(&self) -> (r: EsmClass)
        ensures
            r == self@.esm_class,
    {
        self.esm_class
    }

    /// The `protocol_id` field.
    pub fn protocol_id(&self) -> (r: u8)
        ensures
            r == self@.protocol_id,
    {
        self.protocol_id
    }

    /// The `priority_flag` field.
    pub fn priority_flag(&self) -> (r: u8)
        ensures
            r == self@.priority_flag,
    {
        self.priority_flag
    }

    /// The `schedule_delivery_time` field.
    pub fn schedule_delivery_time(&self) -> (r: &EmptyOrFullCOctetString<17>)
        ensures
            r@ == self@.schedule_delivery_time,
    {
        &self.schedule_delivery_time
    }

    /// The `validity_period` field.
    pub fn validity_period(&self) -> (r: &EmptyOrFullCOctetString<17>)
        ensures
            r@ == self@.validity_period,
    {
        &self.validity_period
    }

    /// The `registered_delivery` field.
    pub fn registered_delivery(&self) -> (r: RegisteredDelivery)
        ensures
            r == self@.registered_delivery,
    {
        self.registered_delivery
    }

    /// The `replace_if_present_flag` field.
    pub fn replace_if_present_flag(&self) -> (r: ReplaceIfPresentFlag)
        ensures
            r == self@.replace_if_present_flag,
    {
        self.replace_if_present_flag
    }

    /// The `data_coding` field.
    pub fn data_coding(&self) -> (r: DataCoding)
        ensures
            r == self@.data_coding,
    {
        self.data_coding
    }

    /// The `sm_default_msg_id` field.
    pub fn sm_default_msg_id(&self) -> (r: u8)
        ensures
            r == self@.sm_default_msg_id,
    {
        self.sm_default_msg_id
    }

    /// The `sm_length` field.
    pub fn sm_length(&self) -> (r: u8)
        ensures
            r == self@.sm_length,
    {
        self.sm_length
    }

    /// The `short_message` field.
    pub fn short_message(&self) -> (r: &OctetString<0, 255>)
        ensures
            r@ == self@.short_message,
    {
        &self.short_message
    }

    /// The trailing message submission request TLVs.
    pub fn tlvs(&self) -> (r: &Vec<Tlv>)
        ensures
            r.deep_view() == self@.tlvs,
    {
        &self.tlvs
    }

    /// Starts building a [`SubmitSm`].
    pub fn builder() -> (r: SubmitSmBuilder)
        ensures
            r@ == spec_submit_sm_default(),
    {
        SubmitSmBuilder::new()
    }

    /// Sets the short message and updates its `sm_length` companion.
    pub fn set_short_message(&mut self, short_message: OctetString<0, 255>)
        ensures
            final(self)@ == (SubmitSmV {
                sm_length: short_message@.len() as u8,
                short_message: short_message@,
                ..old(self)@
            }),
    {
        let sm_length = short_message.len() as u8;
        self.short_message = short_message;
        self.sm_length = sm_length;
    }

    /// Clears the short message and zeroes its `sm_length` companion.
    pub fn clear_short_message(&mut self)
        ensures
            final(self)@ == (SubmitSmV {
                sm_length: 0u8,
                short_message: Seq::empty(),
                ..old(self)@
            }),
    {
        self.short_message = OctetString::empty();
        self.sm_length = 0;
        proof {
            assert(Seq::<u8>::new(0nat, |i: int| 0u8) =~= Seq::<u8>::empty());
        }
    }

    /// Pushes a message submission request TLV.
    pub fn push_tlv(&mut self, tlv: Tlv)
        ensures
            final(self)@ == (SubmitSmV {
                tlvs: old(self)@.tlvs.push(tlv.deep_view()),
                ..old(self)@
            }),
    {
        self.tlvs.push(tlv);
        proof {
            crate::decode::lemma_deep_view_push(old(self).tlvs, self.tlvs, tlv);
        }
    }
}

/// The view of the all-default [`SubmitSm`] a builder starts from.
pub open spec fn spec_submit_sm_default() -> SubmitSmV {
    SubmitSmV {
        service_type: seq![0u8],
        source_addr_ton: Ton::spec_from(0u8),
        source_addr_npi: Npi::spec_from(0u8),
        source_addr: seq![0u8],
        dest_addr_ton: Ton::spec_from(0u8),
        dest_addr_npi: Npi::spec_from(0u8),
        destination_addr: seq![0u8],
        esm_class: EsmClass::spec_from(0u8),
        protocol_id: 0u8,
        priority_flag: 0u8,
        schedule_delivery_time: seq![0u8],
        validity_period: seq![0u8],
        registered_delivery: RegisteredDelivery::spec_from(0u8),
        replace_if_present_flag: ReplaceIfPresentFlag::spec_from(0u8),
        data_coding: DataCoding::spec_from(0u8),
        sm_default_msg_id: 0u8,
        sm_length: 0u8,
        short_message: Seq::empty(),
        tlvs: Seq::empty(),
    }
}

impl Default for SubmitSm {
    /// Every field NULL or empty.
    fn default() -> (r: Self)
        ensures
            r@ == spec_submit_sm_default(),
    {
        let r = SubmitSm {
            service_type: COctetString::empty(),
            source_addr_ton: Ton::from_value(0),
            source_addr_npi: Npi::from_value(0),
            source_addr: COctetString::empty(),
            dest_addr_ton: Ton::from_value(0),
            dest_addr_npi: Npi::from_value(0),
            destination_addr: COctetString::empty(),
            esm_class: EsmClass::from_value(0),
            protocol_id: 0,
            priority_flag: 0,
            schedule_delivery_time: EmptyOrFullCOctetString::empty(),
            validity_period: EmptyOrFullCOctetString::empty(),
            registered_delivery: RegisteredDelivery::from_value(0),
            replace_if_present_flag: ReplaceIfPresentFlag::from_value(0),
            data_coding: DataCoding::from_value(0),
            sm_default_msg_id: 0,
            sm_length: 0,
            short_message: OctetString::empty(),
            tlvs: Vec::new(),
        };
        proof {
            assert(Seq::new(0nat, |i: int| 1u8).push(0u8) =~= seq![0u8]);
            assert(Seq::<u8>::new(0nat, |i: int| 0u8) =~= Seq::<u8>::empty());
            assert(r.tlvs.deep_view() =~= Seq::<TlvV>::empty());
        }
        r
    }
}

/// A fluent builder for [`SubmitSm`].
#[derive(Debug)]
pub struct SubmitSmBuilder {
    inner: SubmitSm,
}

impl View for SubmitSmBuilder {
    type V = SubmitSmV;

    closed spec fn view(&self) -> SubmitSmV {
        self.inner.deep_view()
    }
}

impl SubmitSmBuilder {
    /// Starts from the all-default [`SubmitSm`].
    pub fn new() -> (r: SubmitSmBuilder)
        ensures
            r@ == spec_submit_sm_default(),
    {
        SubmitSmBuilder { inner: SubmitSm::default() }
    }

    /// Sets the `service_type` field.
    pub fn service_type(self, service_type: COctetString<1, 6>) -> (r: Self)
        ensures
            r@ == (SubmitSmV { service_type: service_type@, ..self@ }),
    {
        let mut this = self;
        this.inner.service_type = service_type;
        this
    }

    /// Sets the `source_addr_ton` field.
    pub fn source_addr_ton(self, source_addr_ton: Ton) -> (r: Self)
        ensures
            r@ == (SubmitSmV { source_addr_ton, ..self@ }),
    {
        let mut this = self;
        this.inner.source_addr_ton = source_addr_ton;
        this
    }

    /// Sets the `source_addr_npi` field.
    pub fn source_addr_npi(self, source_addr_npi: Npi) -> (r: Self)
        ensures
            r@ == (SubmitSmV { source_addr_npi, ..self@ }),
    {
        let mut this = self;
        this.inner.source_addr_npi = source_addr_npi;
        this
    }

    /// Sets the `source_addr` field.
    pub fn source_addr(self, source_addr: COctetString<1, 21>) -> (r: Self)
        ensures
            r@ == (SubmitSmV { source_addr: source_addr@, ..self@ }),
    {
        let mut this = self;
        this.inner.source_addr = source_addr;
        this
    }

    /// Sets the `dest_addr_ton` field.
    pub fn dest_addr_ton(self, dest_addr_ton: Ton) -> (r: Self)
        ensures
            r@ == (SubmitSmV { dest_addr_ton, ..self@ }),
    {
        let mut this = self;
        this.inner.dest_addr_ton = dest_addr_ton;
        this
    }

    /// Sets the `dest_addr_npi` field.
    pub fn dest_addr_npi(self, dest_addr_npi: Npi) -> (r: Self)
        ensures
            r@ == (SubmitSmV { dest_addr_npi, ..self@ }),
    {
        let mut this = self;
        this.inner.dest_addr_npi = dest_addr_npi;
        this
    }

    /// Sets the `destination_addr` field.
    pub fn destination_addr(self, destination_addr: COctetString<1, 21>) -> (r: Self)
        ensures
            r@ == (SubmitSmV { destination_addr: destination_addr@, ..self@ }),
    {
        let mut this = self;
        this.inner.destination_addr = destination_addr;
        this
    }

    /// Sets the `esm_class` field.
    pub fn esm_class(self, esm_class: EsmClass) -> (r: Self)
        ensures
            r@ == (SubmitSmV { esm_class, ..self@ }),
    {
        let mut this = self;
        this.inner.esm_class = esm_class;
        this
    }

    /// Sets the `protocol_id` field.
    pub fn protocol_id(self, protocol_id: u8) -> (r: Self)
        ensures
            r@ == (SubmitSmV { protocol_id, ..self@ }),
    {
        let mut this = self;
        this.inner.protocol_id = protocol_id;
        this
    }

    /// Sets the `priority_flag` field.
    pub fn priority_flag(self, priority_flag: u8) -> (r: Self)
        ensures
            r@ == (SubmitSmV { priority_flag, ..self@ }),
    {
        let mut this = self;
        this.inner.priority_flag = priority_flag;
        this
    }

    /// Sets the `schedule_delivery_time` field.
    pub fn schedule_delivery_time(self, schedule_delivery_time: EmptyOrFullCOctetString<17>) -> (r: Self)
        ensures
            r@ == (SubmitSmV { schedule_delivery_time: schedule_delivery_time@, ..self@ }),
    {
        let mut this = self;
        this.inner.schedule_delivery_time = schedule_delivery_time;
        this
    }

    /// Sets the `validity_period` field.
    pub fn validity_period(self, validity_period: EmptyOrFullCOctetString<17>) -> (r: Self)
        ensures
            r@ == (SubmitSmV { validity_period: validity_period@, ..self@ }),
    {
        let mut this = self;
        this.inner.validity_period = validity_period;
        this
    }

    /// Sets the `registered_delivery` field.
    pub fn registered_delivery(self, registered_delivery: RegisteredDelivery) -> (r: Self)
        ensures
            r@ == (SubmitSmV { registered_delivery, ..self@ }),
    {
        let mut this = self;
        this.inner.registered_delivery = registered_delivery;
        this
    }

    /// Sets the `replace_if_present_flag` field.
    pub fn replace_if_present_flag(self, replace_if_present_flag: ReplaceIfPresentFlag) -> (r: Self)
        ensures
            r@ == (SubmitSmV { replace_if_present_flag, ..self@ }),
    {
        let mut this = self;
        this.inner.replace_if_present_flag = replace_if_present_flag;
        this
    }

    /// Sets the `data_coding` field.
    pub fn data_coding(self, data_coding: DataCoding) -> (r: Self)
        ensures
            r@ == (SubmitSmV { data_coding, ..self@ }),
    {
        let mut this = self;
        this.inner.data_coding = data_coding;
        this
    }

    /// Sets the `sm_default_msg_id` field.
    pub fn sm_default_msg_id(self, sm_default_msg_id: u8) -> (r: Self)
        ensures
            r@ == (SubmitSmV { sm_default_msg_id, ..self@ }),
    {
        let mut this = self;
        this.inner.sm_default_msg_id = sm_default_msg_id;
        this
    }

    /// Sets the short message and its length companion.
    pub fn short_message(self, short_message: OctetString<0, 255>) -> (r: Self)
        ensures
            r@ == (SubmitSmV {
                sm_length: short_message@.len() as u8,
                short_message: short_message@,
                ..self@
            }),
    {
        let mut this = self;
        this.inner.set_short_message(short_message);
        this
    }

    /// Pushes a message submission request TLV.
    pub fn push_tlv(self, tlv: Tlv) -> (r: Self)
        ensures
            r@ == (SubmitSmV { tlvs: self@.tlvs.push(tlv.deep_view()), ..self@ }),
    {
        let mut this = self;
        this.inner.push_tlv(tlv);
        this
    }

    /// Finishes the build.
    pub fn build(self) -> (r: SubmitSm)
        ensures
            r@ == self@,
    {
        self.inner
    }
}

impl DecodeWithLength for SubmitSm {
    open spec fn spec_decode_with_length(src: Seq<u8>, length: int) -> Option<(SubmitSmV, int)> {
        match spec_submit_sm_parse(src, length) {
            Ok(p) => Some(p),
            Err(e) => None,
        }
    }

    open spec fn spec_decode_with_length_err(src: Seq<u8>, length: int) -> DecodeError {
        match spec_submit_sm_parse(src, length) {
            Ok(p) => DecodeError::spec_unexpected_eof(),
            Err(e) => e,
        }
    }

    proof fn lemma_spec_decode_with_length_size(src: Seq<u8>, length: int) {
        lemma_spec_submit_sm_parse_size(src, length);
    }

    fn decode(src: &[u8], length: usize) -> (r: Result<(Self, usize), DecodeError>) {
        if length > src.len() {
            return Err(DecodeError::unexpected_eof());
        }
        let win = slice_subrange(src, 0, length);
        let (service_type, c0) = match <COctetString<1, 6> as Decode>::decode(win) {
            Ok(p) => p,
            Err(e) => {
                return Err(e);
            },
        };
        proof {
            COctetString::<1, 6>::lemma_spec_decode_size(win@);
        }
        let o0 = c0;
        let r1 = slice_subrange(win, o0, length);
        proof {
            assert(r1@ =~= win@.skip(o0 as int));
        }
        let (source_addr_ton, c1) = match <Ton as Decode>::decode(r1) {
            Ok(p) => p,
            Err(e) => {
                return Err(e);
            },
        };
        proof {
            Ton::lemma_spec_decode_size(r1@);
        }
        let o1 = o0 + c1;
        let r2 = slice_subrange(win, o1, length);
        proof {
            assert(r2@ =~= win@.skip(o1 as int));
        }
        let (source_addr_npi, c2) = match <Npi as Decode>::decode(r2) {
            Ok(p) => p,
            Err(e) => {
                return Err(e);
            },
        };
        proof {
            Npi::lemma_spec_decode_size(r2@);
        }
        let o2 = o1 + c2;
        let r3 = slice_subrange(win, o2, length);
        proof {
            assert(r3@ =~= win@.skip(o2 as int));
        }
        let (source_addr, c3) = match <COctetString<1, 21> as Decode>::decode(r3) {
            Ok(p) => p,
            Err(e) => {
                return Err(e);
            },
        };
        proof {
            COctetString::<1, 21>::lemma_spec_decode_size(r3@);
        }
        let o3 = o2 + c3;
        let r4 = slice_subrange(win, o3, length);
        proof {
            assert(r4@ =~= win@.skip(o3 as int));
        }
        let (dest_addr_ton, c4) = match <Ton as Decode>::decode(r4) {
            Ok(p) => p,
            Err(e) => {
                return Err(e);
            },
        };
        proof {
            Ton::lemma_spec_decode_size(r4@);
        }
        let o4 = o3 + c4;
        let r5 = slice_subrange(win, o4, length);
        proof {
            assert(r5@ =~= win@.skip(o4 as int));
        }
        let (dest_addr_npi, c5) = match <Npi as Decode>::decode(r5) {
            Ok(p) => p,
            Err(e) => {
                return Err(e);
            },
        };
        proof {
            Npi::lemma_spec_decode_size(r5@);
        }
        let o5 = o4 + c5;
        let r6 = slice_subrange(win, o5, length);
        proof {
            assert(r6@ =~= win@.skip(o5 as int));
        }
        let (destination_addr, c6) = match <COctetString<1, 21> as Decode>::decode(r6) {
            Ok(p) => p,
            Err(e) => {
                return Err(e);
            },
        };
        proof {
            COctetString::<1, 21>::lemma_spec_decode_size(r6@);
        }
        let o6 = o5 + c6;
        let r7 = slice_subrange(win, o6, length);
        proof {
            assert(r7@ =~= win@.skip(o6 as int));
        }
        let (esm_class, c7) = match <EsmClass as Decode>::decode(r7) {
            Ok(p) => p,
            Err(e) => {
                return Err(e);
            },
        };
        proof {
            EsmClass::lemma_spec_decode_size(r7@);
        }
        let o7 = o6 + c7;
        let r8 = slice_subrange(win, o7, length);
        proof {
            assert(r8@ =~= win@.skip(o7 as int));
        }
        let (protocol_id, c8) = match <u8 as Decode>::decode(r8) {
            Ok(p) => p,
            Err(e) => {
                return Err(e);
            },
        };
        let o8 = o7 + c8;
        let r9 = slice_subrange(win, o8, length);
        proof {
            assert(r9@ =~= win@.skip(o8 as int));
        }
        let (priority_flag, c9) = match <u8 as Decode>::decode(r9) {
            Ok(p) => p,
            Err(e) => {
                return Err(e);
            },
        };
        let o9 = o8 + c9;
        let r10 = slice_subrange(win, o9, length);
        proof {
            assert(r10@ =~= win@.skip(o9 as int));
        }
        let (schedule_delivery_time, c10) = match <EmptyOrFullCOctetString<17> as Decode>::decode(r10) {
            Ok(p) => p,
            Err(e) => {
                return Err(e);
            },
        };
        proof {
            EmptyOrFullCOctetString::<17>::lemma_spec_decode_size(r10@);
        }
        let o10 = o9 + c10;
        let r11 = slice_subrange(win, o10, length);
        proof {
            assert(r11@ =~= win@.skip(o10 as int));
        }
        let (validity_period, c11) = match <EmptyOrFullCOctetString<17> as Decode>::decode(r11) {
            Ok(p) => p,
            Err(e) => {
                return Err(e);
            },
        };
        proof {
            EmptyOrFullCOctetString::<17>::lemma_spec_decode_size(r11@);
        }
        let o11 = o10 + c11;
        let r12 = slice_subrange(win, o11, length);
        proof {
            assert(r12@ =~= win@.skip(o11 as int));
        }
        let (registered_delivery, c12) = match <RegisteredDelivery as Decode>::decode(r12) {
            Ok(p) => p,
            Err(e) => {
                return Err(e);
            },
        };
        proof {
            RegisteredDelivery::lemma_spec_decode_size(r12@);
        }
        let o12 = o11 + c12;
        let r13 = slice_subrange(win, o12, length);
        proof {
            assert(r13@ =~= win@.skip(o12 as int));
        }
        let (replace_if_present_flag, c13) = match <ReplaceIfPresentFlag as Decode>::decode(r13) {
            Ok(p) => p,
            Err(e) => {
                return Err(e);
            },
        };
        proof {
            ReplaceIfPresentFlag::lemma_spec_decode_size(r13@);
        }
        let o13 = o12 + c13;
        let r14 = slice_subrange(win, o13, length);
        proof {
            assert(r14@ =~= win@.skip(o13 as int));
        }
        let (data_coding, c14) = match <DataCoding as Decode>::decode(r14) {
            Ok(p) => p,
            Err(e) => {
                return Err(e);
            },
        };
        proof {
            DataCoding::lemma_spec_decode_size(r14@);
        }
        let o14 = o13 + c14;
        let r15 = slice_subrange(win, o14, length);
        proof {
            assert(r15@ =~= win@.skip(o14 as int));
        }
        let (sm_default_msg_id, c15) = match <u8 as Decode>::decode(r15) {
            Ok(p) => p,
            Err(e) => {
                return Err(e);
            },
        };
        let o15 = o14 + c15;
        let r16 = slice_subrange(win, o15, length);
        proof {
            assert(r16@ =~= win@.skip(o15 as int));
        }
        let (sm_length, c16) = match <u8 as Decode>::decode(r16) {
            Ok(p) => p,
            Err(e) => {
                return Err(e);
            },
        };
        let o16 = o15 + c16;
        let r17 = slice_subrange(win, o16, length);
        proof {
            assert(r17@ =~= win@.skip(o16 as int));
        }
        let (short_message, c17) = match <OctetString<0, 255> as DecodeWithLength>::decode(r17, sm_length as usize) {
            Ok(p) => p,
            Err(e) => {
                return Err(e);
            },
        };
        proof {
            OctetString::<0, 255>::lemma_spec_decode_with_length_size(r17@, sm_length as int);
        }
        let o17 = o16 + c17;
        let rt = slice_subrange(win, o17, length);
        proof {
            assert(rt@ =~= win@.skip(o17 as int));
        }
        let (tlvs, ct) = match <Vec<Tlv> as DecodeWithLength>::decode(rt, length - o17) {
            Ok(p) => p,
            Err(e) => {
                return Err(e);
            },
        };
        proof {
            Vec::<Tlv>::lemma_spec_decode_with_length_size(rt@, (length - o17) as int);
        }
        let consumed = o17 + ct;
        Ok(
            (
                SubmitSm {
                    service_type,
                    source_addr_ton,
                    source_addr_npi,
                    source_addr,
                    dest_addr_ton,
                    dest_addr_npi,
                    destination_addr,
                    esm_class,
                    protocol_id,
                    priority_flag,
                    schedule_delivery_time,
                    validity_period,
                    registered_delivery,
                    replace_if_present_flag,
                    data_coding,
                    sm_default_msg_id,
                    sm_length,
                    short_message,
                    tlvs,
                },
                consumed,
            ),
        )
    }
}

/// A successful [`SubmitSm`] parse consumes no more than the window.
#[verifier::rlimit(100)]
#[verifier::spinoff_prover]
pub proof fn lemma_spec_submit_sm_parse_size(src: Seq<u8>, length: int)
    ensures
        spec_submit_sm_parse(src, length) matches Ok(p) ==> 0 <= p.1 <= src.len(),
{
    if 0 <= length <= src.len() {
        let win = src.take(length);
        if spec_submit_sm_parse(src, length) matches Ok(p) {
            lemma_spec_submit_sm_offsets(src, length);
        }
    }
}

/// Bounds of the intermediate offsets of a successful parse.
#[verifier::rlimit(100)]
#[verifier::spinoff_prover]
proof fn lemma_spec_submit_sm_offsets(src: Seq<u8>, length: int)
    requires
        0 <= length <= src.len(),
        spec_submit_sm_parse(src, length) is Ok,
    ensures
        spec_submit_sm_parse(src, length) matches Ok(p) ==> 0 <= p.1 <= length,
{
    let win = src.take(length);
    COctetString::<1, 6>::lemma_spec_decode_size(win);
    let (service_type, c0) = COctetString::<1, 6>::spec_decode(win)->Some_0;
    let o0 = c0;
    Ton::lemma_spec_decode_size(win.skip(o0));
    let (source_addr_ton, c1) = Ton::spec_decode(win.skip(o0))->Some_0;
    let o1 = o0 + c1;
    Npi::lemma_spec_decode_size(win.skip(o1));
    let (source_addr_npi, c2) = Npi::spec_decode(win.skip(o1))->Some_0;
    let o2 = o1 + c2;
    COctetString::<1, 21>::lemma_spec_decode_size(win.skip(o2));
    let (source_addr, c3) = COctetString::<1, 21>::spec_decode(win.skip(o2))->Some_0;
    let o3 = o2 + c3;
    Ton::lemma_spec_decode_size(win.skip(o3));
    let (dest_addr_ton, c4) = Ton::spec_decode(win.skip(o3))->Some_0;
    let o4 = o3 + c4;
    Npi::lemma_spec_decode_size(win.skip(o4));
    let (dest_addr_npi, c5) = Npi::spec_decode(win.skip(o4))->Some_0;
    let o5 = o4 + c5;
    COctetString::<1, 21>::lemma_spec_decode_size(win.skip(o5));
    let (destination_addr, c6) = COctetString::<1, 21>::spec_decode(win.skip(o5))->Some_0;
    let o6 = o5 + c6;
    EsmClass::lemma_spec_decode_size(win.skip(o6));
    let (esm_class, c7) = EsmClass::spec_decode(win.skip(o6))->Some_0;
    let o7 = o6 + c7;
    u8::lemma_spec_decode_size(win.skip(o7));
    let (protocol_id, c8) = u8::spec_decode(win.skip(o7))->Some_0;
    let o8 = o7 + c8;
    u8::lemma_spec_decode_size(win.skip(o8));
    let (priority_flag, c9) = u8::spec_decode(win.skip(o8))->Some_0;
    let o9 = o8 + c9;
    EmptyOrFullCOctetString::<17>::lemma_spec_decode_size(win.skip(o9));
    let (schedule_delivery_time, c10) = EmptyOrFullCOctetString::<17>::spec_decode(win.skip(o9))->Some_0;
    let o10 = o9 + c10;
    EmptyOrFullCOctetString::<17>::lemma_spec_decode_size(win.skip(o10));
    let (validity_period, c11) = EmptyOrFullCOctetString::<17>::spec_decode(win.skip(o10))->Some_0;
    let o11 = o10 + c11;
    RegisteredDelivery::lemma_spec_decode_size(win.skip(o11));
    let (registered_delivery, c12) = RegisteredDelivery::spec_decode(win.skip(o11))->Some_0;
    let o12 = o11 + c12;
    ReplaceIfPresentFlag::lemma_spec_decode_size(win.skip(o12));
    let (replace_if_present_flag, c13) = ReplaceIfPresentFlag::spec_decode(win.skip(o12))->Some_0;
    let o13 = o12 + c13;
    DataCoding::lemma_spec_decode_size(win.skip(o13));
    let (data_coding, c14) = DataCoding::spec_decode(win.skip(o13))->Some_0;
    let o14 = o13 + c14;
    u8::lemma_spec_decode_size(win.skip(o14));
    let (sm_default_msg_id, c15) = u8::spec_decode(win.skip(o14))->Some_0;
    let o15 = o14 + c15;
    u8::lemma_spec_decode_size(win.skip(o15));
    let (sm_length, c16) = u8::spec_decode(win.skip(o15))->Some_0;
    let o16 = o15 + c16;
    OctetString::<0, 255>::lemma_spec_decode_with_length_size(win.skip(o16), sm_length as int);
    let (short_message, c17) = OctetString::<0, 255>::spec_decode_with_length(win.skip(o16), sm_length as int)->Some_0;
    let o17 = o16 + c17;
    Vec::<Tlv>::lemma_spec_decode_with_length_size(win.skip(o17), length - o17);
}

impl Encode for SubmitSm {
    open spec fn spec_wf(v: SubmitSmV) -> bool {
        true
    }

    open spec fn spec_wire(v: SubmitSmV) -> Seq<u8> {
        submit_sm_wire(v)
    }

    #[verifier::rlimit(100)]
    #[verifier::spinoff_prover]
    fn encode(&self, dst: &mut Vec<u8>) {
        self.service_type.encode(dst);
        self.source_addr_ton.encode(dst);
        self.source_addr_npi.encode(dst);
        self.source_addr.encode(dst);
        self.dest_addr_ton.encode(dst);
        self.dest_addr_npi.encode(dst);
        self.destination_addr.encode(dst);
        self.esm_class.encode(dst);
        self.protocol_id.encode(dst);
        self.priority_flag.encode(dst);
        self.schedule_delivery_time.encode(dst);
        self.validity_period.encode(dst);
        self.registered_delivery.encode(dst);
        self.replace_if_present_flag.encode(dst);
        self.data_coding.encode(dst);
        self.sm_default_msg_id.encode(dst);
        self.sm_length.encode(dst);
        self.short_message.encode(dst);
        encode_tlvs(&self.tlvs, dst);
        proof {
            assert(dst@ =~= old(dst)@ + submit_sm_wire(self.deep_view()));
        }
    }

    fn length(&self) -> (r: usize) {
        proof {
            lemma_submit_sm_wire_len(self.deep_view());
        }
        let mut total: usize = self.service_type.length();
        total = total + 1;
        total = total + 1;
        total = total + self.source_addr.length();
        total = total + 1;
        total = total + 1;
        total = total + self.destination_addr.length();
        total = total + 1;
        total = total + 1;
        total = total + 1;
        total = total + self.schedule_delivery_time.length();
        total = total + self.validity_period.length();
        total = total + 1;
        total = total + 1;
        total = total + 1;
        total = total + 1;
        total = total + 1;
        total = total + self.short_message.length();
        total = total + tlvs_length(&self.tlvs);
        total
    }
}

/// The wire length of a [`SubmitSm`] is the sum of its field lengths.
pub proof fn lemma_submit_sm_wire_len(v: SubmitSmV)
    ensures
        submit_sm_wire(v).len() == v.service_type.len() + 1 + 1 + v.source_addr.len() + 1 + 1
            + v.destination_addr.len() + 1 + 1 + 1 + v.schedule_delivery_time.len()
            + v.validity_period.len() + 1 + 1 + 1 + 1 + 1 + v.short_message.len() + tlvs_wire(
            v.tlvs,
        ).len(),
{
}

/// The total wire length of a vector of TLVs.
pub fn tlvs_length(tlvs: &Vec<Tlv>) -> (r: usize)
    requires
        tlvs_wire(tlvs.deep_view()).len() <= usize::MAX,
    ensures
        r == tlvs_wire(tlvs.deep_view()).len(),
{
    let mut total: usize = 0;
    let mut i: usize = 0;
    proof {
        assert(tlvs.deep_view().skip(0) =~= tlvs.deep_view());
        lemma_tlvs_wire_prefix(tlvs.deep_view(), 0);
    }
    while i < tlvs.len()
        invariant
            i <= tlvs@.len(),
            tlvs.deep_view().len() == tlvs@.len(),
            tlvs_wire(tlvs.deep_view()).len() <= usize::MAX,
            total == tlvs_wire_prefix(tlvs.deep_view(), i as int).len(),
            tlvs_wire_prefix(tlvs.deep_view(), i as int).len() + tlvs_wire(
                tlvs.deep_view().skip(i as int),
            ).len() == tlvs_wire(tlvs.deep_view()).len(),
        decreases tlvs@.len() - i,
    {
        proof {
            assert(tlvs.deep_view().skip(i as int)[0] == tlvs.deep_view()[i as int]);
            assert(tlvs.deep_view()[i as int] == tlvs@[i as int].deep_view());
            lemma_tlvs_wire_prefix(tlvs.deep_view(), i as int);
            assert(tlvs.deep_view().skip(i as int).skip(1) =~= tlvs.deep_view().skip(i + 1));
            lemma_tlvs_wire_prefix(tlvs.deep_view(), i + 1);
        }
        total = total + tlvs[i].length();
        i += 1;
    }
    proof {
        assert(tlvs.deep_view().skip(i as int) =~= Seq::<TlvV>::empty());
        lemma_tlvs_wire_prefix(tlvs.deep_view(), i as int);
        assert(tlvs_wire_prefix(tlvs.deep_view(), i as int) =~= tlvs_wire(tlvs.deep_view()));
    }
    total
}

/// The window a [`SubmitSm`] body is parsed from.
pub open spec fn ss_win(v: SubmitSmV, rest: Seq<u8>) -> Seq<u8> {
    (submit_sm_wire(v) + rest).take(submit_sm_wire(v).len() as int)
}

/// Offsets of the fields of a [`SubmitSm`] body inside its wire octets.
pub open spec fn ss_o(v: SubmitSmV, k: int) -> int
    decreases k,
{
    if k <= 0 {
        v.service_type.len() as int
    } else if k == 1 {
        ss_o(v, 0) + 1
    } else if k == 2 {
        ss_o(v, 1) + 1
    } else if k == 3 {
        ss_o(v, 2) + v.source_addr.len() as int
    } else if k == 4 {
        ss_o(v, 3) + 1
    } else if k == 5 {
        ss_o(v, 4) + 1
    } else if k == 6 {
        ss_o(v, 5) + v.destination_addr.len() as int
    } else if k == 7 {
        ss_o(v, 6) + 1
    } else if k == 8 {
        ss_o(v, 7) + 1
    } else if k == 9 {
        ss_o(v, 8) + 1
    } else if k == 10 {
        ss_o(v, 9) + v.schedule_delivery_time.len() as int
    } else if k == 11 {
        ss_o(v, 10) + v.validity_period.len() as int
    } else if k == 12 {
        ss_o(v, 11) + 1
    } else if k == 13 {
        ss_o(v, 12) + 1
    } else if k == 14 {
        ss_o(v, 13) + 1
    } else if k == 15 {
        ss_o(v, 14) + 1
    } else if k == 16 {
        ss_o(v, 15) + 1
    } else if k == 17 {
        ss_o(v, 16) + v.short_message.len() as int
    } else {
        ss_o(v, 17)
    }
}

/// The suffix of the wire octets of a [`SubmitSm`] from field `k` on.
pub open spec fn ss_tail(v: SubmitSmV, k: int) -> Seq<u8>
    decreases 18 - k,
{
    if k <= 0 {
        v.service_type + ss_tail(v, 1)
    } else if k <= 1 {
        seq![v.source_addr_ton.spec_value()] + ss_tail(v, 2)
    } else if k <= 2 {
        seq![v.source_addr_npi.spec_value()] + ss_tail(v, 3)
    } else if k <= 3 {
        v.source_addr + ss_tail(v, 4)
    } else if k <= 4 {
        seq![v.dest_addr_ton.spec_value()] + ss_tail(v, 5)
    } else if k <= 5 {
        seq![v.dest_addr_npi.spec_value()] + ss_tail(v, 6)
    } else if k <= 6 {
        v.destination_addr + ss_tail(v, 7)
    } else if k <= 7 {
        seq![v.esm_class.spec_value()] + ss_tail(v, 8)
    } else if k <= 8 {
        seq![v.protocol_id] + ss_tail(v, 9)
    } else if k <= 9 {
        seq![v.priority_flag] + ss_tail(v, 10)
    } else if k <= 10 {
        v.schedule_delivery_time + ss_tail(v, 11)
    } else if k <= 11 {
        v.validity_period + ss_tail(v, 12)
    } else if k <= 12 {
        seq![v.registered_delivery.spec_value()] + ss_tail(v, 13)
    } else if k <= 13 {
        seq![v.replace_if_present_flag.spec_value()] + ss_tail(v, 14)
    } else if k <= 14 {
        seq![v.data_coding.spec_value()] + ss_tail(v, 15)
    } else if k <= 15 {
        seq![v.sm_default_msg_id] + ss_tail(v, 16)
    } else if k <= 16 {
        seq![v.sm_length] + ss_tail(v, 17)
    } else if k <= 17 {
        v.short_message + ss_tail(v, 18)
    } else {
        tlvs_wire(v.tlvs)
    }
}

/// The whole wire is the suffix from the first field.
#[verifier::rlimit(100)]
#[verifier::spinoff_prover]
pub proof fn lemma_ss_tail0(v: SubmitSmV)
    ensures
        submit_sm_wire(v) == ss_tail(v, 0),
{
    let t18 = tlvs_wire(v.tlvs);
    let t17 = v.short_message + t18;
    let t16 = seq![v.sm_length] + t17;
    let t15 = seq![v.sm_default_msg_id] + t16;
    let t14 = seq![v.data_coding.spec_value()] + t15;
    let t13 = seq![v.replace_if_present_flag.spec_value()] + t14;
    let t12 = seq![v.registered_delivery.spec_value()] + t13;
    let t11 = v.validity_period + t12;
    let t10 = v.schedule_delivery_time + t11;
    let t9 = seq![v.priority_flag] + t10;
    let t8 = seq![v.protocol_id] + t9;
    let t7 = seq![v.esm_class.spec_value()] + t8;
    let t6 = v.destination_addr + t7;
    let t5 = seq![v.dest_addr_npi.spec_value()] + t6;
    let t4 = seq![v.dest_addr_ton.spec_value()] + t5;
    let t3 = v.source_addr + t4;
    let t2 = seq![v.source_addr_npi.spec_value()] + t3;
    let t1 = seq![v.source_addr_ton.spec_value()] + t2;
    let t0 = v.service_type + t1;
    assert(ss_tail(v, 18) == t18);
    assert(ss_tail(v, 17) == t17);
    assert(ss_tail(v, 16) == t16);
    assert(ss_tail(v, 15) == t15);
    assert(ss_tail(v, 14) == t14);
    assert(ss_tail(v, 13) == t13);
    assert(ss_tail(v, 12) == t12);
    assert(ss_tail(v, 11) == t11);
    assert(ss_tail(v, 10) == t10);
    assert(ss_tail(v, 9) == t9);
    assert(ss_tail(v, 8) == t8);
    assert(ss_tail(v, 7) == t7);
    assert(ss_tail(v, 6) == t6);
    assert(ss_tail(v, 5) == t5);
    assert(ss_tail(v, 4) == t4);
    assert(ss_tail(v, 3) == t3);
    assert(ss_tail(v, 2) == t2);
    assert(ss_tail(v, 1) == t1);
    assert(ss_tail(v, 0) == t0);
    assert(submit_sm_wire(v) =~= t0);
}

/// The parse window, past field `k`'s offset, is the suffix from field
/// `k + 1`.
pub proof fn lemma_ss_skip(v: SubmitSmV, rest: Seq<u8>, k: int)
    requires
        0 <= k < 18,
    ensures
        ss_win(v, rest).skip(ss_o(v, k)) == ss_tail(v, k + 1),
        0 <= ss_o(v, k) <= ss_win(v, rest).len(),
        ss_tail(v, k + 1).len() == ss_win(v, rest).len() - ss_o(v, k),
    decreases k,
{
    let win = ss_win(v, rest);
    if k == 0 {
        lemma_ss_tail0(v);
        assert(win =~= ss_tail(v, 0));
        assert(ss_tail(v, 0) == ss_tail(v, 0).take(ss_o(v, 0)) + ss_tail(v, 1)) by {
            assert(ss_tail(v, 0).take(ss_o(v, 0)) =~= ss_tail(v, 0).take(ss_o(v, 0)));
        }
        assert(win.skip(ss_o(v, 0)) =~= ss_tail(v, 1));
    } else {
        lemma_ss_skip(v, rest, k - 1);
        let width = ss_o(v, k) - ss_o(v, k - 1);
        assert(width >= 0);
        assert(ss_tail(v, k).len() == width + ss_tail(v, k + 1).len());
        assert(ss_o(v, k) <= win.len());
        assert(win.skip(ss_o(v, k)) =~= win.skip(ss_o(v, k - 1)).skip(width)) by {
            assert(forall|i: int|
                0 <= i < win.skip(ss_o(v, k)).len() ==> win.skip(ss_o(v, k))[i] == win.index(
                    ss_o(v, k) + i,
                ));
        }
        assert(ss_tail(v, k).skip(width) =~= ss_tail(v, k + 1));
    }
}

/// Field `service_type` of a well-formed body parses back from its offset.
#[verifier::spinoff_prover]
pub proof fn lemma_ss_field_0(v: SubmitSmV, rest: Seq<u8>)
    requires
        submit_sm_wf(v),
    ensures
        COctetString::<1, 6>::spec_decode(ss_win(v, rest)) == Some((v.service_type, v.service_type.len() as int)),
{
        lemma_ss_tail0(v);
        assert(ss_win(v, rest) =~= ss_tail(v, 0));
        lemma_c_octet_string_wire_round_trip::<1, 6>(v.service_type, ss_tail(v, 1));
}

/// Field `source_addr_ton` of a well-formed body parses back from its offset.
#[verifier::spinoff_prover]
pub proof fn lemma_ss_field_1(v: SubmitSmV, rest: Seq<u8>)
    requires
        submit_sm_wf(v),
    ensures
        Ton::spec_decode(ss_win(v, rest).skip(ss_o(v, 0))) == Some((v.source_addr_ton, 1int)),
{
        lemma_ss_skip(v, rest, 0);
        assert(ss_tail(v, 1)[0] == v.source_addr_ton.spec_value());
}

/// Field `source_addr_npi` of a well-formed body parses back from its offset.
#[verifier::spinoff_prover]
pub proof fn lemma_ss_field_2(v: SubmitSmV, rest: Seq<u8>)
    requires
        submit_sm_wf(v),
    ensures
        Npi::spec_decode(ss_win(v, rest).skip(ss_o(v, 1))) == Some((v.source_addr_npi, 1int)),
{
        lemma_ss_skip(v, rest, 1);
        assert(ss_tail(v, 2)[0] == v.source_addr_npi.spec_value());
}

/// Field `source_addr` of a well-formed body parses back from its offset.
#[verifier::spinoff_prover]
pub proof fn lemma_ss_field_3(v: SubmitSmV, rest: Seq<u8>)
    requires
        submit_sm_wf(v),
    ensures
        COctetString::<1, 21>::spec_decode(ss_win(v, rest).skip(ss_o(v, 2))) == Some((v.source_addr, v.source_addr.len() as int)),
{
        lemma_ss_skip(v, rest, 2);
        lemma_c_octet_string_wire_round_trip::<1, 21>(v.source_addr, ss_tail(v, 4));
}

/// Field `dest_addr_ton` of a well-formed body parses back from its offset.
#[verifier::spinoff_prover]
pub proof fn lemma_ss_field_4(v: SubmitSmV, rest: Seq<u8>)
    requires
        submit_sm_wf(v),
    ensures
        Ton::spec_decode(ss_win(v, rest).skip(ss_o(v, 3))) == Some((v.dest_addr_ton, 1int)),
{
        lemma_ss_skip(v, rest, 3);
        assert(ss_tail(v, 4)[0] == v.dest_addr_ton.spec_value());
}

/// Field `dest_addr_npi` of a well-formed body parses back from its offset.
#[verifier::spinoff_prover]
pub proof fn lemma_ss_field_5(v: SubmitSmV, rest: Seq<u8>)
    requires
        submit_sm_wf(v),
    ensures
        Npi::spec_decode(ss_win(v, rest).skip(ss_o(v, 4))) == Some((v.dest_addr_npi, 1int)),
{
        lemma_ss_skip(v, rest, 4);
        assert(ss_tail(v, 5)[0] == v.dest_addr_npi.spec_value());
}

/// Field `destination_addr` of a well-formed body parses back from its offset.
#[verifier::spinoff_prover]
pub proof fn lemma_ss_field_6(v: SubmitSmV, rest: Seq<u8>)
    requires
        submit_sm_wf(v),
    ensures
        COctetString::<1, 21>::spec_decode(ss_win(v, rest).skip(ss_o(v, 5))) == Some((v.destination_addr, v.destination_addr.len() as int)),
{
        lemma_ss_skip(v, rest, 5);
        lemma_c_octet_string_wire_round_trip::<1, 21>(v.destination_addr, ss_tail(v, 7));
}

/// Field `esm_class` of a well-formed body parses back from its offset.
#[verifier::spinoff_prover]
pub proof fn lemma_ss_field_7(v: SubmitSmV, rest: Seq<u8>)
    requires
        submit_sm_wf(v),
    ensures
        EsmClass::spec_decode(ss_win(v, rest).skip(ss_o(v, 6))) == Some((v.esm_class, 1int)),
{
        lemma_ss_skip(v, rest, 6);
        assert(ss_tail(v, 7)[0] == v.esm_class.spec_value());
}

/// Field `protocol_id` of a well-formed body parses back from its offset.
#[verifier::spinoff_prover]
pub proof fn lemma_ss_field_8(v: SubmitSmV, rest: Seq<u8>)
    requires
        submit_sm_wf(v),
    ensures
        u8::spec_decode(ss_win(v, rest).skip(ss_o(v, 7))) == Some((v.protocol_id, 1int)),
{
        lemma_ss_skip(v, rest, 7);
        assert(ss_tail(v, 8)[0] == v.protocol_id);
}

/// Field `priority_flag` of a well-formed body parses back from its offset.
#[verifier::spinoff_prover]
pub proof fn lemma_ss_field_9(v: SubmitSmV, rest: Seq<u8>)
    requires
        submit_sm_wf(v),
    ensures
        u8::spec_decode(ss_win(v, rest).skip(ss_o(v, 8))) == Some((v.priority_flag, 1int)),
{
        lemma_ss_skip(v, rest, 8);
        assert(ss_tail(v, 9)[0] == v.priority_flag);
}

/// Field `schedule_delivery_time` of a well-formed body parses back from its offset.
#[verifier::spinoff_prover]
pub proof fn lemma_ss_field_10(v: SubmitSmV, rest: Seq<u8>)
    requires
        submit_sm_wf(v),
    ensures
        EmptyOrFullCOctetString::<17>::spec_decode(ss_win(v, rest).skip(ss_o(v, 9))) == Some((v.schedule_delivery_time, v.schedule_delivery_time.len() as int)),
{
        lemma_ss_skip(v, rest, 9);
        lemma_empty_or_full_wire_round_trip::<17>(v.schedule_delivery_time, ss_tail(v, 11));
}

/// Field `validity_period` of a well-formed body parses back from its offset.
#[verifier::spinoff_prover]
pub proof fn lemma_ss_field_11(v: SubmitSmV, rest: Seq<u8>)
    requires
        submit_sm_wf(v),
    ensures
        EmptyOrFullCOctetString::<17>::spec_decode(ss_win(v, rest).skip(ss_o(v, 10))) == Some((v.validity_period, v.validity_period.len() as int)),
{
        lemma_ss_skip(v, rest, 10);
        lemma_empty_or_full_wire_round_trip::<17>(v.validity_period, ss_tail(v, 12));
}

/// Field `registered_delivery` of a well-formed body parses back from its offset.
#[verifier::spinoff_prover]
pub proof fn lemma_ss_field_12(v: SubmitSmV, rest: Seq<u8>)
    requires
        submit_sm_wf(v),
    ensures
        RegisteredDelivery::spec_decode(ss_win(v, rest).skip(ss_o(v, 11))) == Some((v.registered_delivery, 1int)),
{
        lemma_ss_skip(v, rest, 11);
        assert(ss_tail(v, 12)[0] == v.registered_delivery.spec_value());
}

/// Field `replace_if_present_flag` of a well-formed body parses back from its offset.
#[verifier::spinoff_prover]
pub proof fn lemma_ss_field_13(v: SubmitSmV, rest: Seq<u8>)
    requires
        submit_sm_wf(v),
    ensures
        ReplaceIfPresentFlag::spec_decode(ss_win(v, rest).skip(ss_o(v, 12))) == Some((v.replace_if_present_flag, 1int)),
{
        lemma_ss_skip(v, rest, 12);
        assert(ss_tail(v, 13)[0] == v.replace_if_present_flag.spec_value());
}

/// Field `data_coding` of a well-formed body parses back from its offset.
#[verifier::spinoff_prover]
pub proof fn lemma_ss_field_14(v: SubmitSmV, rest: Seq<u8>)
    requires
        submit_sm_wf(v),
    ensures
        DataCoding::spec_decode(ss_win(v, rest).skip(ss_o(v, 13))) == Some((v.data_coding, 1int)),
{
        lemma_ss_skip(v, rest, 13);
        assert(ss_tail(v, 14)[0] == v.data_coding.spec_value());
}

/// Field `sm_default_msg_id` of a well-formed body parses back from its offset.
#[verifier::spinoff_prover]
pub proof fn lemma_ss_field_15(v: SubmitSmV, rest: Seq<u8>)
    requires
        submit_sm_wf(v),
    ensures
        u8::spec_decode(ss_win(v, rest).skip(ss_o(v, 14))) == Some((v.sm_default_msg_id, 1int)),
{
        lemma_ss_skip(v, rest, 14);
        assert(ss_tail(v, 15)[0] == v.sm_default_msg_id);
}

/// Field `sm_length` of a well-formed body parses back from its offset.
#[verifier::spinoff_prover]
pub proof fn lemma_ss_field_16(v: SubmitSmV, rest: Seq<u8>)
    requires
        submit_sm_wf(v),
    ensures
        u8::spec_decode(ss_win(v, rest).skip(ss_o(v, 15))) == Some((v.sm_length, 1int)),
{
        lemma_ss_skip(v, rest, 15);
        assert(ss_tail(v, 16)[0] == v.sm_length);
}

/// Field `short_message` of a well-formed body parses back from its offset.
#[verifier::spinoff_prover]
pub proof fn lemma_ss_field_17(v: SubmitSmV, rest: Seq<u8>)
    requires
        submit_sm_wf(v),
    ensures
        OctetString::<0, 255>::spec_decode_with_length(ss_win(v, rest).skip(ss_o(v, 16)), v.sm_length as int) == Some((v.short_message, v.short_message.len() as int)),
{
        lemma_ss_skip(v, rest, 16);
        assert(ss_tail(v, 17).take(v.sm_length as int) =~= v.short_message);
}

/// Past the last mandatory field lie exactly the TLV octets.
#[verifier::spinoff_prover]
pub proof fn lemma_ss_field_tlvs(v: SubmitSmV, rest: Seq<u8>)
    requires
        submit_sm_wf(v),
    ensures
        ss_win(v, rest).skip(ss_o(v, 17)) == tlvs_wire(v.tlvs),
        ss_o(v, 17) + tlvs_wire(v.tlvs).len() == submit_sm_wire(v).len(),
{
    lemma_ss_skip(v, rest, 17);
    lemma_ss_tail0(v);
    lemma_ss_tail_len(v, 0);
}

/// The length of each suffix equals the wire length minus its offset.
pub proof fn lemma_ss_tail_len(v: SubmitSmV, k: int)
    requires
        0 <= k <= 18,
    ensures
        ss_tail(v, k).len() == ss_tail(v, 18).len() + (if k < 18 {
            ss_o(v, 18 - 1) - (if k == 0 {
                0int
            } else {
                ss_o(v, k - 1)
            })
        } else {
            0int
        }),
    decreases 18 - k,
{
    if k < 18 {
        lemma_ss_tail_len(v, k + 1);
    }
}

/// Decoding the wire octets of a well-formed [`SubmitSm`] — whatever
/// bytes follow them — under their own length yields exactly that body,
/// consuming it whole.
#[verifier::rlimit(100)]
#[verifier::spinoff_prover]
pub proof fn lemma_submit_sm_wire_round_trip(v: SubmitSmV, rest: Seq<u8>)
    requires
        submit_sm_wf(v),
    ensures
        SubmitSm::spec_decode_with_length(
            submit_sm_wire(v) + rest,
            submit_sm_wire(v).len() as int,
        ) == Some((v, submit_sm_wire(v).len() as int)),
{
    let w = submit_sm_wire(v);
    let length = w.len() as int;
    let src = w + rest;
    lemma_ss_field_0(v, rest);
    lemma_ss_field_1(v, rest);
    lemma_ss_field_2(v, rest);
    lemma_ss_field_3(v, rest);
    lemma_ss_field_4(v, rest);
    lemma_ss_field_5(v, rest);
    lemma_ss_field_6(v, rest);
    lemma_ss_field_7(v, rest);
    lemma_ss_field_8(v, rest);
    lemma_ss_field_9(v, rest);
    lemma_ss_field_10(v, rest);
    lemma_ss_field_11(v, rest);
    lemma_ss_field_12(v, rest);
    lemma_ss_field_13(v, rest);
    lemma_ss_field_14(v, rest);
    lemma_ss_field_15(v, rest);
    lemma_ss_field_16(v, rest);
    lemma_ss_field_17(v, rest);
    lemma_ss_field_tlvs(v, rest);
    assert(src.take(length) == ss_win(v, rest));
    let olast = ss_o(v, 17);
    let tw = tlvs_wire(v.tlvs);
    lemma_tlvs_wire_round_trip(v.tlvs);
    assert(length - olast == tw.len());
    if tw.len() == 0 {
        assert(v.tlvs =~= Seq::<TlvV>::empty()) by {
            if v.tlvs.len() != 0 {
                assert(tlvs_wire(v.tlvs) == tlv_wire(v.tlvs[0]) + tlvs_wire(v.tlvs.skip(1)));
                assert(tlv_wire(v.tlvs[0]).len() >= 4);
            }
        }
        assert(Vec::<Tlv>::spec_decode_with_length(ss_win(v, rest).skip(olast), 0) == Some(
            (v.tlvs, 0int),
        ));
    } else {
        assert(ss_win(v, rest).skip(olast).take(tw.len() as int) =~= tw);
    }
    assert(spec_submit_sm_parse(src, length) == Ok::<(SubmitSmV, int), DecodeError>(
        (v, length),
    ));
}

/// The view of a [`SubmitSmResp`].
pub struct SubmitSmRespV {
    pub message_id: Seq<u8>,
    pub tlvs: Seq<TlvV>,
}

/// The well-formedness of a [`SubmitSmResp`] view.
pub open spec fn submit_sm_resp_wf(v: SubmitSmRespV) -> bool {
    &&& c_octet_str_wf(v.message_id, 65)
    &&& tlvs_wf(v.tlvs)
}

/// The wire octets of a [`SubmitSmResp`] body.
pub open spec fn submit_sm_resp_wire(v: SubmitSmRespV) -> Seq<u8> {
    v.message_id + tlvs_wire(v.tlvs)
}

/// The specification-level parser of a [`SubmitSmResp`] body: the
/// assigned message id, then TLVs until the body is exhausted.
pub open spec fn spec_submit_sm_resp_parse(src: Seq<u8>, length: int) -> Result<
    (SubmitSmRespV, int),
    DecodeError,
> {
    if length < 0 || length > src.len() {
        Err(DecodeError::spec_unexpected_eof())
    } else {
        let win = src.take(length);
        match COctetString::<1, 65>::spec_decode(win) {
            None => Err(COctetString::<1, 65>::spec_decode_err(win)),
            Some((message_id, c0)) => {
                match Vec::<Tlv>::spec_decode_with_length(win.skip(c0), length - c0) {
                    None => Err(
                        Vec::<Tlv>::spec_decode_with_length_err(win.skip(c0), length - c0),
                    ),
                    Some((tlvs, ct)) => Ok((SubmitSmRespV { message_id, tlvs }, c0 + ct)),
                }
            },
        }
    }
}

/// The response to a [`SubmitSm`]: the Message Centre's assigned
/// message id, then any response TLVs.
#[derive(Debug)]
pub struct SubmitSmResp {
    message_id: COctetString<1, 65>,
    tlvs: Vec<Tlv>,
}

impl DeepView for SubmitSmResp {
    type V = SubmitSmRespV;

    closed spec fn deep_view(&self) -> SubmitSmRespV {
        SubmitSmRespV { message_id: self.message_id@, tlvs: self.tlvs.deep_view() }
    }
}

impl View for SubmitSmResp {
    type V = SubmitSmRespV;

    open spec fn view(&self) -> SubmitSmRespV {
        self.deep_view()
    }
}

impl SubmitSmResp {
    /// Creates a [`SubmitSmResp`] from its fields.
    pub fn new(message_id: COctetString<1, 65>, tlvs: Vec<Tlv>) -> (r: SubmitSmResp)
        ensures
            r@ == (SubmitSmRespV { message_id: message_id@, tlvs: tlvs.deep_view() }),
    {
        SubmitSmResp { message_id, tlvs }
    }

    /// The Message Centre's assigned message id.
    pub fn message_id(&self) -> (r: &COctetString<1, 65>)
        ensures
            r@ == self@.message_id,
    {
        &self.message_id
    }

    /// The trailing response TLVs.
    pub fn tlvs(&self) -> (r: &Vec<Tlv>)
        ensures
            r.deep_view() == self@.tlvs,
    {
        &self.tlvs
    }
}

impl DecodeWithLength for SubmitSmResp {
    open spec fn spec_decode_with_length(src: Seq<u8>, length: int) -> Option<
        (SubmitSmRespV, int),
    > {
        match spec_submit_sm_resp_parse(src, length) {
            Ok(p) => Some(p),
            Err(e) => None,
        }
    }

    open spec fn spec_decode_with_length_err(src: Seq<u8>, length: int) -> DecodeError {
        match spec_submit_sm_resp_parse(src, length) {
            Ok(p) => DecodeError::spec_unexpected_eof(),
            Err(e) => e,
        }
    }

    proof fn lemma_spec_decode_with_length_size(src: Seq<u8>, length: int) {
        if 0 <= length <= src.len() {
            let win = src.take(length);
            COctetString::<1, 65>::lemma_spec_decode_size(win);
            if let Some((message_id, c0)) = COctetString::<1, 65>::spec_decode(win) {
                Vec::<Tlv>::lemma_spec_decode_with_length_size(win.skip(c0), length - c0);
            }
        }
    }

    fn decode(src: &[u8], length: usize) -> (r: Result<(Self, usize), DecodeError>) {
        if length > src.len() {
            return Err(DecodeError::unexpected_eof());
        }
        let win = slice_subrange(src, 0, length);
        let (message_id, c0) = match <COctetString<1, 65> as Decode>::decode(win) {
            Ok(p) => p,
            Err(e) => {
                return Err(e);
            },
        };
        proof {
            COctetString::<1, 65>::lemma_spec_decode_size(win@);
        }
        let rt = slice_subrange(win, c0, length);
        proof {
            assert(rt@ =~= win@.skip(c0 as int));
        }
        let (tlvs, ct) = match <Vec<Tlv> as DecodeWithLength>::decode(rt, length - c0) {
            Ok(p) => p,
            Err(e) => {
                return Err(e);
            },
        };
        proof {
            Vec::<Tlv>::lemma_spec_decode_with_length_size(rt@, (length - c0) as int);
        }
        Ok((SubmitSmResp { message_id, tlvs }, c0 + ct))
    }
}

impl Encode for SubmitSmResp {
    open spec fn spec_wf(v: SubmitSmRespV) -> bool {
        true
    }

    open spec fn spec_wire(v: SubmitSmRespV) -> Seq<u8> {
        submit_sm_resp_wire(v)
    }

    fn encode(&self, dst: &mut Vec<u8>) {
        self.message_id.encode(dst);
        encode_tlvs(&self.tlvs, dst);
        proof {
            assert(dst@ =~= old(dst)@ + submit_sm_resp_wire(self.deep_view()));
        }
    }

    fn length(&self) -> (r: usize) {
        let mut total: usize = self.message_id.length();
        total = total + tlvs_length(&self.tlvs);
        total
    }
}

/// Decoding the wire octets of a well-formed [`SubmitSmResp`] —
/// whatever bytes follow them — under their own length yields exactly
/// that body, consuming it whole.
#[verifier::rlimit(100)]
#[verifier::spinoff_prover]
pub proof fn lemma_submit_sm_resp_wire_round_trip(v: SubmitSmRespV, rest: Seq<u8>)
    requires
        submit_sm_resp_wf(v),
    ensures
        SubmitSmResp::spec_decode_with_length(
            submit_sm_resp_wire(v) + rest,
            submit_sm_resp_wire(v).len() as int,
        ) == Some((v, submit_sm_resp_wire(v).len() as int)),
{
    let w = submit_sm_resp_wire(v);
    let length = w.len() as int;
    let src = w + rest;
    let win = src.take(length);
    let tw = tlvs_wire(v.tlvs);
    assert(win =~= v.message_id + tw);
    lemma_c_octet_string_wire_round_trip::<1, 65>(v.message_id, tw);
    let c0 = v.message_id.len() as int;
    assert(win.skip(c0) =~= tw);
    lemma_tlvs_wire_round_trip(v.tlvs);
    if tw.len() == 0 {
        assert(v.tlvs =~= Seq::<TlvV>::empty()) by {
            if v.tlvs.len() != 0 {
                assert(tlvs_wire(v.tlvs) == tlv_wire(v.tlvs[0]) + tlvs_wire(v.tlvs.skip(1)));
                assert(tlv_wire(v.tlvs[0]).len() >= 4);
            }
        }
        assert(Vec::<Tlv>::spec_decode_with_length(win.skip(c0), 0) == Some((v.tlvs, 0int)));
    } else {
        assert(win.skip(c0).take(tw.len() as int) =~= tw);
    }
    assert(spec_submit_sm_resp_parse(src, length) == Ok::<(SubmitSmRespV, int), DecodeError>(
        (v, length),
    ));
}

} // verus!
