//! The `replace_sm` operation: issued by the ESME to replace a
//! previously submitted short message that is pending delivery. The
//! matching mechanism is based on the message id and source address of
//! the original message.

use vstd::prelude::*;
use vstd::slice::slice_subrange;

use crate::decode::{Decode, DecodeError, DecodeWithLength};
use crate::encode::Encode;
use crate::tlvs::tlv::{
    lemma_tlv_wire_round_trip, spec_tlv_decode, spec_tlv_decode_err, tlv_value_tag,
    tlv_value_wire, tlv_wf, tlv_wire, MessagePayload, Tlv, TlvV, TlvValue, TlvValueV,
};
use crate::types::c_octet_string::{
    c_octet_str_wf, lemma_c_octet_string_wire_round_trip, COctetString,
};
use crate::types::empty_or_full_c_octet_string::{
    empty_or_full_wf, lemma_empty_or_full_wire_round_trip, EmptyOrFullCOctetString,
};
use crate::types::octet_string::OctetString;
use crate::values::{Npi, RegisteredDelivery, Ton};

verus! {

/// The view of a [`ReplaceSm`].
pub struct ReplaceSmV {
    pub message_id: Seq<u8>,
    pub source_addr_ton: Ton,
    pub source_addr_npi: Npi,
    pub source_addr: Seq<u8>,
    pub schedule_delivery_time: Seq<u8>,
    pub validity_period: Seq<u8>,
    pub registered_delivery: RegisteredDelivery,
    pub sm_default_msg_id: u8,
    pub sm_length: u8,
    pub short_message: Seq<u8>,
    pub message_payload: Option<TlvV>,
}

/// The well-formedness of a [`ReplaceSm`] view: every string field
/// satisfies its own invariant, the enumeration fields are canonical,
/// the length companion matches the short message, and the optional
/// `message_payload` TLV is well-formed. The round-trip law holds of
/// exactly these views.
pub open spec fn replace_sm_wf(v: ReplaceSmV) -> bool {
    &&& c_octet_str_wf(v.message_id, 65)
    &&& v.source_addr_ton.canonical()
    &&& v.source_addr_npi.canonical()
    &&& c_octet_str_wf(v.source_addr, 21)
    &&& empty_or_full_wf(v.schedule_delivery_time, 17)
    &&& empty_or_full_wf(v.validity_period, 17)
    &&& v.registered_delivery.canonical()
    &&& v.sm_length == v.short_message.len()
    &&& v.short_message.len() <= 255
    &&& match v.message_payload {
        Some(t) => tlv_wf(t),
        None => true,
    }
}

/// The wire octets of a [`ReplaceSm`] body: the mandatory fields in
/// declared order, then the optional `message_payload` TLV.
pub open spec fn replace_sm_wire(v: ReplaceSmV) -> Seq<u8> {
    v.message_id + seq![v.source_addr_ton.spec_value()] + seq![v.source_addr_npi.spec_value()]
        + v.source_addr + v.schedule_delivery_time + v.validity_period + seq![
        v.registered_delivery.spec_value(),
    ] + seq![v.sm_default_msg_id] + seq![v.sm_length] + v.short_message + (
    match v.message_payload {
        Some(t) => tlv_wire(t),
        None => Seq::<u8>::empty(),
    })
}

/// The specification-level parser of a [`ReplaceSm`] body, as a result:
/// the mandatory fields in declared order, the short message framed by
/// the preceding `sm_length` octet, and — when any octets of the body
/// remain — one `message_payload` TLV.
pub open spec fn spec_replace_sm_parse(src: Seq<u8>, length: int) -> Result<
    (ReplaceSmV, int),
    DecodeError,
> {
    if length < 0 || length > src.len() {
        Err(DecodeError::spec_unexpected_eof())
    } else {
        let win = src.take(length);
        match COctetString::<1, 65>::spec_decode(win) {
            None => Err(COctetString::<1, 65>::spec_decode_err(win)),
            Some((message_id, c1)) => {
                let o1 = c1;
                match Ton::spec_decode(win.skip(o1)) {
                    None => Err(Ton::spec_decode_err(win.skip(o1))),
                    Some((source_addr_ton, c2)) => {
                        let o2 = o1 + c2;
                        match Npi::spec_decode(win.skip(o2)) {
                            None => Err(Npi::spec_decode_err(win.skip(o2))),
                            Some((source_addr_npi, c3)) => {
                                let o3 = o2 + c3;
                                match COctetString::<1, 21>::spec_decode(win.skip(o3)) {
                                    None => Err(COctetString::<1, 21>::spec_decode_err(win.skip(o3))),
                                    Some((source_addr, c4)) => {
                                        let o4 = o3 + c4;
                                        match EmptyOrFullCOctetString::<17>::spec_decode(win.skip(o4)) {
                                            None => Err(EmptyOrFullCOctetString::<17>::spec_decode_err(win.skip(o4))),
                                            Some((schedule_delivery_time, c5)) => {
                                                let o5 = o4 + c5;
                                                match EmptyOrFullCOctetString::<17>::spec_decode(win.skip(o5)) {
                                                    None => Err(EmptyOrFullCOctetString::<17>::spec_decode_err(win.skip(o5))),
                                                    Some((validity_period, c6)) => {
                                                        let o6 = o5 + c6;
                                                        match RegisteredDelivery::spec_decode(win.skip(o6)) {
                                                            None => Err(RegisteredDelivery::spec_decode_err(win.skip(o6))),
                                                            Some((registered_delivery, c7)) => {
                                                                let o7 = o6 + c7;
                                                                match u8::spec_decode(win.skip(o7)) {
                                                                    None => Err(u8::spec_decode_err(win.skip(o7))),
                                                                    Some((sm_default_msg_id, c8)) => {
                                                                        let o8 = o7 + c8;
                                                                        match u8::spec_decode(win.skip(o8)) {
                                                                            None => Err(u8::spec_decode_err(win.skip(o8))),
                                                                            Some((sm_length, c9)) => {
                                                                                let o9 = o8 + c9;
                                                                                match OctetString::<0, 255>::spec_decode_with_length(win.skip(o9), sm_length as int) {
                                                                                    None => Err(OctetString::<0, 255>::spec_decode_with_length_err(win.skip(o9), sm_length as int)),
                                                                                    Some((short_message, c10)) => {
                                                                                        let o10 = o9 + c10;
                                                                                        if length - o10 == 0 {
                                                                                            Ok((ReplaceSmV {
                                                                                                message_id,
                                                                                                source_addr_ton,
                                                                                                source_addr_npi,
                                                                                                source_addr,
                                                                                                schedule_delivery_time,
                                                                                                validity_period,
                                                                                                registered_delivery,
                                                                                                sm_default_msg_id,
                                                                                                sm_length,
                                                                                                short_message,
                                                                                                message_payload: None,
                                                                                            }, o10))
                                                                                        } else {
                                                                                            match spec_tlv_decode(win.skip(o10)) {
                                                                                                None => Err(spec_tlv_decode_err(win.skip(o10))),
                                                                                                Some((tlv, c11)) => Ok((ReplaceSmV {
                                                                                                    message_id,
                                                                                                    source_addr_ton,
                                                                                                    source_addr_npi,
                                                                                                    source_addr,
                                                                                                    schedule_delivery_time,
                                                                                                    validity_period,
                                                                                                    registered_delivery,
                                                                                                    sm_default_msg_id,
                                                                                                    sm_length,
                                                                                                    short_message,
                                                                                                    message_payload: Some(tlv),
                                                                                                }, o10 + c11)),
                                                                                            }
                                                                                        }
                                                                                    },
                                                                                }
                                                                            },
                                                                        }
                                                                    },
                                                                }
                                                            },
                                                        }
                                                    },
                                                }
                                            },
                                        }
                                    },
                                }
                            },
                        }
                    },
                }
            },
        }
    }
}

/// This command is issued by the ESME to replace a previously submitted
/// short message that is pending delivery.
///
/// Setting the inline short message updates its `sm_length` companion
/// field automatically; the two never disagree.
#[derive(Debug)]
pub struct ReplaceSm {
    message_id: COctetString<1, 65>,
    source_addr_ton: Ton,
    source_addr_npi: Npi,
    source_addr: COctetString<1, 21>,
    schedule_delivery_time: EmptyOrFullCOctetString<17>,
    validity_period: EmptyOrFullCOctetString<17>,
    registered_delivery: RegisteredDelivery,
    sm_default_msg_id: u8,
    sm_length: u8,
    short_message: OctetString<0, 255>,
    message_payload: Option<Tlv>,
}

impl DeepView for ReplaceSm {
    type V = ReplaceSmV;

    closed spec fn deep_view(&self) -> ReplaceSmV {
        ReplaceSmV {
            message_id: self.message_id@,
            source_addr_ton: self.source_addr_ton,
            source_addr_npi: self.source_addr_npi,
            source_addr: self.source_addr@,
            schedule_delivery_time: self.schedule_delivery_time@,
            validity_period: self.validity_period@,
            registered_delivery: self.registered_delivery,
            sm_default_msg_id: self.sm_default_msg_id,
            sm_length: self.sm_length,
            short_message: self.short_message@,
            message_payload: match self.message_payload {
                Some(t) => Some(t.deep_view()),
                None => None,
            },
        }
    }
}

impl View for ReplaceSm {
    type V = ReplaceSmV;

    open spec fn view(&self) -> ReplaceSmV {
        self.deep_view()
    }
}

impl ReplaceSm {
    /// Creates a [`ReplaceSm`] from its fields; `sm_length` is derived
    /// from the short message, and the payload TLV is wrapped around
    /// the given [`MessagePayload`].
    pub fn new(
        message_id: COctetString<1, 65>,
        source_addr_ton: Ton,
        source_addr_npi: Npi,
        source_addr: COctetString<1, 21>,
        schedule_delivery_time: EmptyOrFullCOctetString<17>,
        validity_period: EmptyOrFullCOctetString<17>,
        registered_delivery: RegisteredDelivery,
        sm_default_msg_id: u8,
        short_message: OctetString<0, 255>,
        message_payload: Option<MessagePayload>,
    ) -> (r: ReplaceSm)
        requires
            (match message_payload {
                Some(p) => p@.len() <= 65535,
                None => true,
            }),
        ensures
            r@ == (ReplaceSmV {
                message_id: message_id@,
                source_addr_ton,
                source_addr_npi,
                source_addr: source_addr@,
                schedule_delivery_time: schedule_delivery_time@,
                validity_period: validity_period@,
                registered_delivery,
                sm_default_msg_id,
                sm_length: short_message@.len() as u8,
                short_message: short_message@,
                message_payload: match message_payload {
                    Some(p) => Some(TlvV {
                        tag: crate::tlvs::tlv_tag::TlvTag::MessagePayload,
                        value_length: p@.len() as u16,
                        value: Some(TlvValueV::MessagePayload(p@)),
                    }),
                    None => None,
                },
            }),
    {
        let message_payload = match message_payload {
            Some(p) => Some(Tlv::new(TlvValue::MessagePayload(p))),
            None => None,
        };
        let sm_length = short_message.len() as u8;
        ReplaceSm {
            message_id,
            source_addr_ton,
            source_addr_npi,
            source_addr,
            schedule_delivery_time,
            validity_period,
            registered_delivery,
            sm_default_msg_id,
            sm_length,
            short_message,
            message_payload,
        }
    }

    /// The message id of the message to be replaced.
    pub fn message_id(&self) -> (r: &COctetString<1, 65>)
        ensures
            r@ == self@.message_id,
    {
        &self.message_id
    }

    /// Type of Number of the message originator.
    pub fn source_addr_ton(&self) -> (r: Ton)
        ensures
            r == self@.source_addr_ton,
    {
        self.source_addr_ton
    }

    /// Numbering Plan Indicator of the message originator.
    pub fn source_addr_npi(&self) -> (r: Npi)
        ensures
            r == self@.source_addr_npi,
    {
        self.source_addr_npi
    }

    /// Address of the SME which originated this message.
    pub fn source_addr(&self) -> (r: &COctetString<1, 21>)
        ensures
            r@ == self@.source_addr,
    {
        &self.source_addr
    }

    /// New scheduled delivery time, or NULL to keep the original.
    pub fn schedule_delivery_time(&self) -> (r: &EmptyOrFullCOctetString<17>)
        ensures
            r@ == self@.schedule_delivery_time,
    {
        &self.schedule_delivery_time
    }

    /// New expiry time, or NULL to keep the original.
    pub fn validity_period(&self) -> (r: &EmptyOrFullCOctetString<17>)
        ensures
            r@ == self@.validity_period,
    {
        &self.validity_period
    }

    /// The delivery receipt and acknowledgement requests.
    pub fn registered_delivery(&self) -> (r: RegisteredDelivery)
        ensures
            r == self@.registered_delivery,
    {
        self.registered_delivery
    }

    /// The canned message id, or NULL.
    pub fn sm_default_msg_id(&self) -> (r: u8)
        ensures
            r == self@.sm_default_msg_id,
    {
        self.sm_default_msg_id
    }

    /// Length in octets of the short message user data. Every
    /// constructor and setter keeps it equal to the short message's
    /// length.
    pub fn sm_length(&self) -> (r: u8)
        ensures
            r == self@.sm_length,
    {
        self.sm_length
    }

    /// The inline short message user data.
    pub fn short_message(&self) -> (r: &OctetString<0, 255>)
        ensures
            r@ == self@.short_message,
    {
        &self.short_message
    }

    /// The raw `message_payload` TLV, when present.
    pub fn message_payload_tlv(&self) -> (r: &Option<Tlv>)
        ensures
            r.deep_view() == self@.message_payload,
    {
        proof {
            assert(self.message_payload.deep_view() =~= self@.message_payload);
        }
        &self.message_payload
    }

    /// The carried message payload, when the TLV is present and holds
    /// one.
    pub fn message_payload(&self) -> (r: Option<&MessagePayload>)
        ensures
            match r {
                Some(p) => self@.message_payload matches Some(t) && t.value == Some(
                    TlvValueV::MessagePayload(p@),
                ),
                None => match self@.message_payload {
                    Some(t) => !(t.value matches Some(v) && v is MessagePayload),
                    None => true,
                },
            },
    {
        match &self.message_payload {
            Some(tlv) => match tlv.value() {
                Some(TlvValue::MessagePayload(p)) => Some(p),
                _ => None,
            },
            None => None,
        }
    }

    /// Starts building a [`ReplaceSm`].
    pub fn builder() -> (r: ReplaceSmBuilder)
        ensures
            r@ == spec_replace_sm_default(),
    {
        ReplaceSmBuilder::new()
    }

    /// Sets the short message and updates its `sm_length` companion.
    pub fn set_short_message(&mut self, short_message: OctetString<0, 255>)
        ensures
            final(self)@ == (ReplaceSmV {
                sm_length: short_message@.len() as u8,
                short_message: short_message@,
                ..old(self)@
            }),
    {
        let sm_length = short_message.len() as u8;
        self.short_message = short_message;
        self.sm_length = sm_length;
    }

    /// Sets or clears the `message_payload` TLV.
    pub fn set_message_payload(&mut self, message_payload: Option<MessagePayload>)
        requires
            (match message_payload {
                Some(p) => p@.len() <= 65535,
                None => true,
            }),
        ensures
            final(self)@ == (ReplaceSmV {
                message_payload: match message_payload {
                    Some(p) => Some(TlvV {
                        tag: crate::tlvs::tlv_tag::TlvTag::MessagePayload,
                        value_length: p@.len() as u16,
                        value: Some(TlvValueV::MessagePayload(p@)),
                    }),
                    None => None,
                },
                ..old(self)@
            }),
    {
        self.message_payload = match message_payload {
            Some(p) => Some(Tlv::new(TlvValue::MessagePayload(p))),
            None => None,
        };
    }

    /// Clears the short message and zeroes its `sm_length` companion.
    pub fn clear_short_message(&mut self)
        ensures
            final(self)@ == (ReplaceSmV {
                sm_length: 0u8,
                short_message: Seq::empty(),
                ..old(self)@
            }),
    {
        self.short_message = OctetString::empty();
        self.sm_length = 0;
        proof {
            assert(Seq::<u8>::new(0nat, |i: int| 0u8) =~= Seq::<u8>::empty());
        }
    }
}

/// The view of the all-default [`ReplaceSm`] a builder starts from.
pub open spec fn spec_replace_sm_default() -> ReplaceSmV {
    ReplaceSmV {
        message_id: seq![0u8],
        source_addr_ton: Ton::Unknown,
        source_addr_npi: Npi::Unknown,
        source_addr: seq![0u8],
        schedule_delivery_time: seq![0u8],
        validity_period: seq![0u8],
        registered_delivery: RegisteredDelivery {
            mc_delivery_receipt: crate::values::MCDeliveryReceipt::NoMcDeliveryReceiptRequested,
            sme_originated_acknowledgement: crate::values::SmeOriginatedAcknowledgement::NoRecipientSmeAcknowledgmentRequested,
            intermediate_notification: crate::values::IntermediateNotification::NoIntermediaryNotificationRequested,
            other: 0u8,
        },
        sm_default_msg_id: 0u8,
        sm_length: 0u8,
        short_message: Seq::empty(),
        message_payload: None,
    }
}

impl Default for ReplaceSm {
    /// Every field NULL or empty.
    fn default() -> (r: Self)
        ensures
            r@ == spec_replace_sm_default(),
    {
        let r = ReplaceSm {
            message_id: COctetString::empty(),
            source_addr_ton: Ton::Unknown,
            source_addr_npi: Npi::Unknown,
            source_addr: COctetString::empty(),
            schedule_delivery_time: EmptyOrFullCOctetString::empty(),
            validity_period: EmptyOrFullCOctetString::empty(),
            registered_delivery: RegisteredDelivery::default(),
            sm_default_msg_id: 0,
            sm_length: 0,
            short_message: OctetString::empty(),
            message_payload: None,
        };
        proof {
            assert(Seq::new(0nat, |i: int| 1u8).push(0u8) =~= seq![0u8]);
            assert(Seq::<u8>::new(0nat, |i: int| 0u8) =~= Seq::<u8>::empty());
        }
        r
    }
}

/// A fluent builder for [`ReplaceSm`].
#[derive(Debug)]
pub struct ReplaceSmBuilder {
    inner: ReplaceSm,
}

impl View for ReplaceSmBuilder {
    type V = ReplaceSmV;

    closed spec fn view(&self) -> ReplaceSmV {
        self.inner.deep_view()
    }
}

impl ReplaceSmBuilder {
    /// Starts from the all-default [`ReplaceSm`].
    pub fn new() -> (r: ReplaceSmBuilder)
        ensures
            r@ == spec_replace_sm_default(),
    {
        ReplaceSmBuilder { inner: ReplaceSm::default() }
    }

    /// Sets the message id of the message to be replaced.
    pub fn message_id(self, message_id: COctetString<1, 65>) -> (r: Self)
        ensures
            r@ == (ReplaceSmV { message_id: message_id@, ..self@ }),
    {
        let mut this = self;
        this.inner.message_id = message_id;
        this
    }

    /// Sets the Type of Number of the originator.
    pub fn source_addr_ton(self, source_addr_ton: Ton) -> (r: Self)
        ensures
            r@ == (ReplaceSmV { source_addr_ton, ..self@ }),
    {
        let mut this = self;
        this.inner.source_addr_ton = source_addr_ton;
        this
    }

    /// Sets the Numbering Plan Indicator of the originator.
    pub fn source_addr_npi(self, source_addr_npi: Npi) -> (r: Self)
        ensures
            r@ == (ReplaceSmV { source_addr_npi, ..self@ }),
    {
        let mut this = self;
        this.inner.source_addr_npi = source_addr_npi;
        this
    }

    /// Sets the originator address.
    pub fn source_addr(self, source_addr: COctetString<1, 21>) -> (r: Self)
        ensures
            r@ == (ReplaceSmV { source_addr: source_addr@, ..self@ }),
    {
        let mut this = self;
        this.inner.source_addr = source_addr;
        this
    }

    /// Sets the new scheduled delivery time.
    pub fn schedule_delivery_time(self, schedule_delivery_time: EmptyOrFullCOctetString<17>) -> (r:
        Self)
        ensures
            r@ == (ReplaceSmV {
                schedule_delivery_time: schedule_delivery_time@,
                ..self@
            }),
    {
        let mut this = self;
        this.inner.schedule_delivery_time = schedule_delivery_time;
        this
    }

    /// Sets the new expiry time.
    pub fn validity_period(self, validity_period: EmptyOrFullCOctetString<17>) -> (r: Self)
        ensures
            r@ == (ReplaceSmV { validity_period: validity_period@, ..self@ }),
    {
        let mut this = self;
        this.inner.validity_period = validity_period;
        this
    }

    /// Sets the delivery receipt and acknowledgement requests.
    pub fn registered_delivery(self, registered_delivery: RegisteredDelivery) -> (r: Self)
        ensures
            r@ == (ReplaceSmV { registered_delivery, ..self@ }),
    {
        let mut this = self;
        this.inner.registered_delivery = registered_delivery;
        this
    }

    /// Sets the canned message id.
    pub fn sm_default_msg_id(self, sm_default_msg_id: u8) -> (r: Self)
        ensures
            r@ == (ReplaceSmV { sm_default_msg_id, ..self@ }),
    {
        let mut this = self;
        this.inner.sm_default_msg_id = sm_default_msg_id;
        this
    }

    /// Sets the short message and its length companion.
    pub fn short_message(self, short_message: OctetString<0, 255>) -> (r: Self)
        ensures
            r@ == (ReplaceSmV {
                sm_length: short_message@.len() as u8,
                short_message: short_message@,
                ..self@
            }),
    {
        let mut this = self;
        this.inner.set_short_message(short_message);
        this
    }

    /// Sets or clears the `message_payload` TLV.
    pub fn message_payload(self, message_payload: Option<MessagePayload>) -> (r: Self)
        requires
            (match message_payload {
                Some(p) => p@.len() <= 65535,
                None => true,
            }),
        ensures
            r@ == (ReplaceSmV {
                message_payload: match message_payload {
                    Some(p) => Some(TlvV {
                        tag: crate::tlvs::tlv_tag::TlvTag::MessagePayload,
                        value_length: p@.len() as u16,
                        value: Some(TlvValueV::MessagePayload(p@)),
                    }),
                    None => None,
                },
                ..self@
            }),
    {
        let mut this = self;
        this.inner.set_message_payload(message_payload);
        this
    }

    /// Finishes the build.
    pub fn build(self) -> (r: ReplaceSm)
        ensures
            r@ == self@,
    {
        self.inner
    }
}

impl DecodeWithLength for ReplaceSm {
    open spec fn spec_decode_with_length(src: Seq<u8>, length: int) -> Option<(ReplaceSmV, int)> {
        match spec_replace_sm_parse(src, length) {
            Ok(p) => Some(p),
            Err(e) => None,
        }
    }

    open spec fn spec_decode_with_length_err(src: Seq<u8>, length: int) -> DecodeError {
        match spec_replace_sm_parse(src, length) {
            Ok(p) => DecodeError::spec_unexpected_eof(),
            Err(e) => e,
        }
    }

    proof fn lemma_spec_decode_with_length_size(src: Seq<u8>, length: int) {
        if 0 <= length <= src.len() {
            let win = src.take(length);
            COctetString::<1, 65>::lemma_spec_decode_size(win);
            if let Some((f1, o1)) = COctetString::<1, 65>::spec_decode(win) {
                Ton::lemma_spec_decode_size(win.skip(o1));
                if let Some((f2, c2)) = Ton::spec_decode(win.skip(o1)) {
                    let o2 = o1 + c2;
                    Npi::lemma_spec_decode_size(win.skip(o2));
                    if let Some((f3, c3)) = Npi::spec_decode(win.skip(o2)) {
                        let o3 = o2 + c3;
                        COctetString::<1, 21>::lemma_spec_decode_size(win.skip(o3));
                        if let Some((f4, c4)) = COctetString::<1, 21>::spec_decode(win.skip(o3)) {
                            let o4 = o3 + c4;
                            EmptyOrFullCOctetString::<17>::lemma_spec_decode_size(win.skip(o4));
                            if let Some((f5, c5)) = EmptyOrFullCOctetString::<17>::spec_decode(
                                win.skip(o4),
                            ) {
                                let o5 = o4 + c5;
                                EmptyOrFullCOctetString::<17>::lemma_spec_decode_size(
                                    win.skip(o5),
                                );
                                if let Some((f6, c6)) = EmptyOrFullCOctetString::<17>::spec_decode(
                                    win.skip(o5),
                                ) {
                                    let o6 = o5 + c6;
                                    if let Some((f7, c7)) = RegisteredDelivery::spec_decode(
                                        win.skip(o6),
                                    ) {
                                        let o7 = o6 + c7;
                                        if let Some((f8, c8)) = u8::spec_decode(win.skip(o7)) {
                                            let o8 = o7 + c8;
                                            if let Some((f9, c9)) = u8::spec_decode(
                                                win.skip(o8),
                                            ) {
                                                let o9 = o8 + c9;
                                                OctetString::<0, 255>::lemma_spec_decode_with_length_size(win.skip(o9), f9 as int);
                                                if let Some((f10, c10)) = OctetString::<
                                                    0,
                                                    255,
                                                >::spec_decode_with_length(
                                                    win.skip(o9),
                                                    f9 as int,
                                                ) {
                                                    let o10 = o9 + c10;
                                                    if length - o10 != 0 {
                                                        Tlv::lemma_spec_decode_size(
                                                            win.skip(o10),
                                                        );
                                                    }
                                                }
                                            }
                                        }
                                    }
                                }
                            }
                        }
                    }
                }
            }
        }
    }

    fn decode(src: &[u8], length: usize) -> (r: Result<(Self, usize), DecodeError>) {
        if length > src.len() {
            return Err(DecodeError::unexpected_eof());
        }
        let win = slice_subrange(src, 0, length);
        let (message_id, o1) = match <COctetString<1, 65> as Decode>::decode(win) {
            Ok(p) => p,
            Err(e) => {
                return Err(e);
            },
        };
        proof {
            COctetString::<1, 65>::lemma_spec_decode_size(win@);
        }
        let r1 = slice_subrange(win, o1, length);
        proof {
            assert(r1@ =~= win@.skip(o1 as int));
        }
        let (source_addr_ton, c2) = match <Ton as Decode>::decode(r1) {
            Ok(p) => p,
            Err(e) => {
                return Err(e);
            },
        };
        proof {
            Ton::lemma_spec_decode_size(r1@);
        }
        let o2 = o1 + c2;
        let r2 = slice_subrange(win, o2, length);
        proof {
            assert(r2@ =~= win@.skip(o2 as int));
        }
        let (source_addr_npi, c3) = match <Npi as Decode>::decode(r2) {
            Ok(p) => p,
            Err(e) => {
                return Err(e);
            },
        };
        proof {
            Npi::lemma_spec_decode_size(r2@);
        }
        let o3 = o2 + c3;
        let r3 = slice_subrange(win, o3, length);
        proof {
            assert(r3@ =~= win@.skip(o3 as int));
        }
        let (source_addr, c4) = match <COctetString<1, 21> as Decode>::decode(r3) {
            Ok(p) => p,
            Err(e) => {
                return Err(e);
            },
        };
        proof {
            COctetString::<1, 21>::lemma_spec_decode_size(r3@);
        }
        let o4 = o3 + c4;
        let r4 = slice_subrange(win, o4, length);
        proof {
            assert(r4@ =~= win@.skip(o4 as int));
        }
        let (schedule_delivery_time, c5) = match <EmptyOrFullCOctetString<17> as Decode>::decode(
            r4,
        ) {
            Ok(p) => p,
            Err(e) => {
                return Err(e);
            },
        };
        proof {
            EmptyOrFullCOctetString::<17>::lemma_spec_decode_size(r4@);
        }
        let o5 = o4 + c5;
        let r5 = slice_subrange(win, o5, length);
        proof {
            assert(r5@ =~= win@.skip(o5 as int));
        }
        let (validity_period, c6) = match <EmptyOrFullCOctetString<17> as Decode>::decode(r5) {
            Ok(p) => p,
            Err(e) => {
                return Err(e);
            },
        };
        proof {
            EmptyOrFullCOctetString::<17>::lemma_spec_decode_size(r5@);
        }
        let o6 = o5 + c6;
        let r6 = slice_subrange(win, o6, length);
        proof {
            assert(r6@ =~= win@.skip(o6 as int));
        }
        let (registered_delivery, c7) = match <RegisteredDelivery as Decode>::decode(r6) {
            Ok(p) => p,
            Err(e) => {
                return Err(e);
            },
        };
        let o7 = o6 + c7;
        let r7 = slice_subrange(win, o7, length);
        proof {
            assert(r7@ =~= win@.skip(o7 as int));
        }
        let (sm_default_msg_id, c8) = match <u8 as Decode>::decode(r7) {
            Ok(p) => p,
            Err(e) => {
                return Err(e);
            },
        };
        let o8 = o7 + c8;
        let r8 = slice_subrange(win, o8, length);
        proof {
            assert(r8@ =~= win@.skip(o8 as int));
        }
        let (sm_length, c9) = match <u8 as Decode>::decode(r8) {
            Ok(p) => p,
            Err(e) => {
                return Err(e);
            },
        };
        let o9 = o8 + c9;
        let r9 = slice_subrange(win, o9, length);
        proof {
            assert(r9@ =~= win@.skip(o9 as int));
        }
        let (short_message, c10) = match <OctetString<0, 255> as DecodeWithLength>::decode(
            r9,
            sm_length as usize,
        ) {
            Ok(p) => p,
            Err(e) => {
                return Err(e);
            },
        };
        proof {
            OctetString::<0, 255>::lemma_spec_decode_with_length_size(r9@, sm_length as int);
        }
        let o10 = o9 + c10;
        let message_payload: Option<Tlv>;
        let consumed: usize;
        if length - o10 == 0 {
            message_payload = None;
            consumed = o10;
        } else {
            let r10 = slice_subrange(win, o10, length);
            proof {
                assert(r10@ =~= win@.skip(o10 as int));
            }
            match <Tlv as Decode>::decode(r10) {
                Ok((tlv, c11)) => {
                    proof {
                        Tlv::lemma_spec_decode_size(r10@);
                    }
                    message_payload = Some(tlv);
                    consumed = o10 + c11;
                },
                Err(e) => {
                    return Err(e);
                },
            }
        }
        Ok(
            (
                ReplaceSm {
                    message_id,
                    source_addr_ton,
                    source_addr_npi,
                    source_addr,
                    schedule_delivery_time,
                    validity_period,
                    registered_delivery,
                    sm_default_msg_id,
                    sm_length,
                    short_message,
                    message_payload,
                },
                consumed,
            ),
        )
    }
}

impl Encode for ReplaceSm {
    open spec fn spec_wf(v: ReplaceSmV) -> bool {
        true
    }

    open spec fn spec_wire(v: ReplaceSmV) -> Seq<u8> {
        replace_sm_wire(v)
    }

    fn encode(&self, dst: &mut Vec<u8>) {
        self.message_id.encode(dst);
        self.source_addr_ton.encode(dst);
        self.source_addr_npi.encode(dst);
        self.source_addr.encode(dst);
        self.schedule_delivery_time.encode(dst);
        self.validity_period.encode(dst);
        self.registered_delivery.encode(dst);
        self.sm_default_msg_id.encode(dst);
        self.sm_length.encode(dst);
        self.short_message.encode(dst);
        match &self.message_payload {
            Some(tlv) => {
                tlv.encode(dst);
            },
            None => {},
        }
        proof {
            assert(dst@ =~= old(dst)@ + replace_sm_wire(self.deep_view()));
        }
    }

    fn length(&self) -> (r: usize) {
        proof {
            assert(replace_sm_wire(self.deep_view()).len() == self@.message_id.len() + 1 + 1
                + self@.source_addr.len() + self@.schedule_delivery_time.len()
                + self@.validity_period.len() + 1 + 1 + 1 + self@.short_message.len() + (
            match self@.message_payload {
                Some(t) => tlv_wire(t).len() as int,
                None => 0,
            }));
        }
        let mut total: usize = self.message_id.length();
        total = total + 1;
        total = total + 1;
        total = total + self.source_addr.length();
        total = total + self.schedule_delivery_time.length();
        total = total + self.validity_period.length();
        total = total + 1;
        total = total + 1;
        total = total + 1;
        total = total + self.short_message.length();
        match &self.message_payload {
            Some(tlv) => {
                total = total + tlv.length();
            },
            None => {},
        }
        total
    }
}

/// Decoding the wire octets of a well-formed [`ReplaceSm`] — whatever
/// bytes follow them — under their own length yields exactly that body,
/// consuming it whole.
/// The window a [`ReplaceSm`] body is parsed from: its wire octets,
/// whatever follows them cut away.
pub open spec fn rs_win(v: ReplaceSmV, rest: Seq<u8>) -> Seq<u8> {
    (replace_sm_wire(v) + rest).take(replace_sm_wire(v).len() as int)
}

/// Offsets of the fields of a [`ReplaceSm`] body inside its wire
/// octets.
pub open spec fn rs_o(v: ReplaceSmV, k: int) -> int
    decreases k,
{
    if k <= 1 {
        v.message_id.len() as int
    } else if k == 2 {
        rs_o(v, 1) + 1
    } else if k == 3 {
        rs_o(v, 2) + 1
    } else if k == 4 {
        rs_o(v, 3) + v.source_addr.len() as int
    } else if k == 5 {
        rs_o(v, 4) + v.schedule_delivery_time.len() as int
    } else if k == 6 {
        rs_o(v, 5) + v.validity_period.len() as int
    } else if k == 7 {
        rs_o(v, 6) + 1
    } else if k == 8 {
        rs_o(v, 7) + 1
    } else if k == 9 {
        rs_o(v, 8) + 1
    } else {
        rs_o(v, 9) + v.short_message.len() as int
    }
}

/// Each field of a well-formed [`ReplaceSm`] body parses back from its
/// own offset in the wire octets.
#[verifier::rlimit(100)]
#[verifier::spinoff_prover]
pub proof fn lemma_replace_sm_wire_fields(v: ReplaceSmV, rest: Seq<u8>)
    requires
        replace_sm_wf(v),
    ensures
        COctetString::<1, 65>::spec_decode(rs_win(v, rest)) == Some((v.message_id, rs_o(v, 1))),
        Ton::spec_decode(rs_win(v, rest).skip(rs_o(v, 1))) == Some((v.source_addr_ton, 1int)),
        Npi::spec_decode(rs_win(v, rest).skip(rs_o(v, 2))) == Some((v.source_addr_npi, 1int)),
        COctetString::<1, 21>::spec_decode(rs_win(v, rest).skip(rs_o(v, 3))) == Some(
            (v.source_addr, v.source_addr.len() as int),
        ),
        EmptyOrFullCOctetString::<17>::spec_decode(rs_win(v, rest).skip(rs_o(v, 4))) == Some(
            (v.schedule_delivery_time, v.schedule_delivery_time.len() as int),
        ),
        EmptyOrFullCOctetString::<17>::spec_decode(rs_win(v, rest).skip(rs_o(v, 5))) == Some(
            (v.validity_period, v.validity_period.len() as int),
        ),
        RegisteredDelivery::spec_decode(rs_win(v, rest).skip(rs_o(v, 6))) == Some(
            (v.registered_delivery, 1int),
        ),
        u8::spec_decode(rs_win(v, rest).skip(rs_o(v, 7))) == Some((v.sm_default_msg_id, 1int)),
        u8::spec_decode(rs_win(v, rest).skip(rs_o(v, 8))) == Some((v.sm_length, 1int)),
        OctetString::<0, 255>::spec_decode_with_length(
            rs_win(v, rest).skip(rs_o(v, 9)),
            v.sm_length as int,
        ) == Some((v.short_message, v.short_message.len() as int)),
        rs_win(v, rest).skip(rs_o(v, 10)) == (match v.message_payload {
            Some(t) => tlv_wire(t),
            None => Seq::<u8>::empty(),
        }),
        rs_o(v, 10) + (match v.message_payload {
            Some(t) => tlv_wire(t).len() as int,
            None => 0int,
        }) == replace_sm_wire(v).len(),
{
    let w = replace_sm_wire(v);
    let length = w.len() as int;
    let win = rs_win(v, rest);
    let t10 = match v.message_payload {
        Some(t) => tlv_wire(t),
        None => Seq::<u8>::empty(),
    };
    let t9 = v.short_message + t10;
    let t8 = seq![v.sm_length] + t9;
    let t7 = seq![v.sm_default_msg_id] + t8;
    let t6 = seq![v.registered_delivery.spec_value()] + t7;
    let t5 = v.validity_period + t6;
    let t4 = v.schedule_delivery_time + t5;
    let t3 = v.source_addr + t4;
    let t2 = seq![v.source_addr_npi.spec_value()] + t3;
    let t1 = seq![v.source_addr_ton.spec_value()] + t2;
    let t0 = v.message_id + t1;
    assert(w =~= t0);
    assert(win =~= t0);
    let o1 = rs_o(v, 1);
    let o2 = rs_o(v, 2);
    let o3 = rs_o(v, 3);
    let o4 = rs_o(v, 4);
    let o5 = rs_o(v, 5);
    let o6 = rs_o(v, 6);
    let o7 = rs_o(v, 7);
    let o8 = rs_o(v, 8);
    let o9 = rs_o(v, 9);
    let o10 = rs_o(v, 10);
    assert(win.skip(o1) =~= t1);
    assert(win.skip(o2) =~= t2) by {
        assert(win.skip(o1).skip(1) =~= t1.skip(1));
        assert(t1.skip(1) =~= t2);
        assert(win.skip(o2) =~= win.skip(o1).skip(1));
    }
    assert(win.skip(o3) =~= t3) by {
        assert(win.skip(o2).skip(1) =~= t2.skip(1));
        assert(t2.skip(1) =~= t3);
        assert(win.skip(o3) =~= win.skip(o2).skip(1));
    }
    assert(win.skip(o4) =~= t4) by {
        assert(win.skip(o3).skip(v.source_addr.len() as int) =~= t3.skip(
            v.source_addr.len() as int,
        ));
        assert(t3.skip(v.source_addr.len() as int) =~= t4);
        assert(win.skip(o4) =~= win.skip(o3).skip(v.source_addr.len() as int));
    }
    assert(win.skip(o5) =~= t5) by {
        assert(win.skip(o4).skip(v.schedule_delivery_time.len() as int) =~= t4.skip(
            v.schedule_delivery_time.len() as int,
        ));
        assert(t4.skip(v.schedule_delivery_time.len() as int) =~= t5);
        assert(win.skip(o5) =~= win.skip(o4).skip(v.schedule_delivery_time.len() as int));
    }
    assert(win.skip(o6) =~= t6) by {
        assert(win.skip(o5).skip(v.validity_period.len() as int) =~= t5.skip(
            v.validity_period.len() as int,
        ));
        assert(t5.skip(v.validity_period.len() as int) =~= t6);
        assert(win.skip(o6) =~= win.skip(o5).skip(v.validity_period.len() as int));
    }
    assert(win.skip(o7) =~= t7) by {
        assert(win.skip(o6).skip(1) =~= t6.skip(1));
        assert(t6.skip(1) =~= t7);
        assert(win.skip(o7) =~= win.skip(o6).skip(1));
    }
    assert(win.skip(o8) =~= t8) by {
        assert(win.skip(o7).skip(1) =~= t7.skip(1));
        assert(t7.skip(1) =~= t8);
        assert(win.skip(o8) =~= win.skip(o7).skip(1));
    }
    assert(win.skip(o9) =~= t9) by {
        assert(win.skip(o8).skip(1) =~= t8.skip(1));
        assert(t8.skip(1) =~= t9);
        assert(win.skip(o9) =~= win.skip(o8).skip(1));
    }
    assert(win.skip(o10) =~= t10) by {
        assert(win.skip(o9).skip(v.short_message.len() as int) =~= t9.skip(
            v.short_message.len() as int,
        ));
        assert(t9.skip(v.short_message.len() as int) =~= t10);
        assert(win.skip(o10) =~= win.skip(o9).skip(v.short_message.len() as int));
    }
    lemma_c_octet_string_wire_round_trip::<1, 65>(v.message_id, t1);
    assert(t1[0] == v.source_addr_ton.spec_value());
    assert(t2[0] == v.source_addr_npi.spec_value());
    lemma_c_octet_string_wire_round_trip::<1, 21>(v.source_addr, t4);
    lemma_empty_or_full_wire_round_trip::<17>(v.schedule_delivery_time, t5);
    lemma_empty_or_full_wire_round_trip::<17>(v.validity_period, t6);
    assert(t6[0] == v.registered_delivery.spec_value());
    assert(t7[0] == v.sm_default_msg_id);
    assert(t8[0] == v.sm_length);
    assert(t9.take(v.sm_length as int) =~= v.short_message);
}

/// Decoding the wire octets of a well-formed [`ReplaceSm`] — whatever
/// bytes follow them — under their own length yields exactly that body,
/// consuming it whole.
#[verifier::rlimit(100)]
#[verifier::spinoff_prover]
pub proof fn lemma_replace_sm_wire_round_trip(v: ReplaceSmV, rest: Seq<u8>)
    requires
        replace_sm_wf(v),
    ensures
        ReplaceSm::spec_decode_with_length(
            replace_sm_wire(v) + rest,
            replace_sm_wire(v).len() as int,
        ) == Some((v, replace_sm_wire(v).len() as int)),
{
    let w = replace_sm_wire(v);
    let length = w.len() as int;
    let src = w + rest;
    lemma_replace_sm_wire_fields(v, rest);
    assert(src.take(length) == rs_win(v, rest));
    match v.message_payload {
        None => {
            assert(length - rs_o(v, 10) == 0);
            assert(spec_replace_sm_parse(src, length) == Ok::<(ReplaceSmV, int), DecodeError>(
                (v, length),
            ));
        },
        Some(t) => {
            lemma_tlv_wire_round_trip(t, Seq::empty());
            assert(tlv_wire(t) + Seq::<u8>::empty() =~= tlv_wire(t));
            assert(spec_tlv_decode(rs_win(v, rest).skip(rs_o(v, 10))) == Some(
                (t, tlv_wire(t).len() as int),
            ));
            assert(length - rs_o(v, 10) == tlv_wire(t).len());
            assert(tlv_wire(t).len() > 0);
            assert(spec_replace_sm_parse(src, length) == Ok::<(ReplaceSmV, int), DecodeError>(
                (v, length),
            ));
        },
    }
}

} // verus!
