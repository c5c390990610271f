//! The value enumerations of SMPP.
//!
//! Each enumeration has an on-wire one-octet representation and an
//! `Other` catch-all variant that preserves unrecognized values for
//! round-trip fidelity. `canonical` holds of a value when mapping it to
//! its octet and back yields the value itself: every named variant is
//! canonical, and `Other(v)` is canonical exactly when `v` is not a
//! named value, so decoding always yields canonical values.
//!
//! `EsmClass` and `RegisteredDelivery` pack several sub-fields into a
//! single octet via bit fields; the packing is bit-exact.

use vstd::prelude::*;

use crate::decode::{Decode, DecodeError};
use crate::encode::Encode;

verus! {
/// Type of Number of an address.
#[derive(Debug, Clone, Copy, PartialEq, Eq, Structural)]
pub enum Ton {
    Unknown,
    International,
    National,
    NetworkSpecific,
    SubscriberNumber,
    Alphanumeric,
    Abbreviated,
    /// An unrecognized value, preserved as is.
    Other(u8),
}

impl Ton {
    /// The value decoded from an octet.
    pub open spec fn spec_from(value: u8) -> Ton {
        if value == 0 {
            Ton::Unknown
        } else if value == 1 {
            Ton::International
        } else if value == 2 {
            Ton::National
        } else if value == 3 {
            Ton::NetworkSpecific
        } else if value == 4 {
            Ton::SubscriberNumber
        } else if value == 5 {
            Ton::Alphanumeric
        } else if value == 6 {
            Ton::Abbreviated
        } else {
            Ton::Other(value)
        }
    }

    /// The octet a value encodes to.
    pub open spec fn spec_value(self) -> u8 {
        match self {
            Ton::Unknown => 0,
            Ton::International => 1,
            Ton::National => 2,
            Ton::NetworkSpecific => 3,
            Ton::SubscriberNumber => 4,
            Ton::Alphanumeric => 5,
            Ton::Abbreviated => 6,
            Ton::Other(value) => value,
        }
    }

    /// A value is canonical when its octet maps back to it; decoded
    /// values always are.
    pub open spec fn canonical(self) -> bool {
        Ton::spec_from(self.spec_value()) == self
    }

    /// The value decoded from an octet.
    pub fn from_value(value: u8) -> (r: Ton)
        ensures
            r == Ton::spec_from(value),
    {
        if value == 0 {
            Ton::Unknown
        } else if value == 1 {
            Ton::International
        } else if value == 2 {
            Ton::National
        } else if value == 3 {
            Ton::NetworkSpecific
        } else if value == 4 {
            Ton::SubscriberNumber
        } else if value == 5 {
            Ton::Alphanumeric
        } else if value == 6 {
            Ton::Abbreviated
        } else {
            Ton::Other(value)
        }
    }

    /// The octet a value encodes to.
    pub fn value(self) -> (r: u8)
        ensures
            r == self.spec_value(),
    {
        match self {
            Ton::Unknown => 0,
            Ton::International => 1,
            Ton::National => 2,
            Ton::NetworkSpecific => 3,
            Ton::SubscriberNumber => 4,
            Ton::Alphanumeric => 5,
            Ton::Abbreviated => 6,
            Ton::Other(value) => value,
        }
    }
}

impl View for Ton {
    type V = Ton;

    open spec fn view(&self) -> Ton {
        *self
    }
}

impl DeepView for Ton {
    type V = Ton;

    open spec fn deep_view(&self) -> Ton {
        *self
    }
}

impl Decode for Ton {
    open spec fn spec_decode(src: Seq<u8>) -> Option<(Ton, int)> {
        if src.len() < 1 {
            None
        } else {
            Some((Ton::spec_from(src[0]), 1))
        }
    }

    open spec fn spec_decode_err(src: Seq<u8>) -> DecodeError {
        DecodeError::spec_unexpected_eof()
    }

    proof fn lemma_spec_decode_size(src: Seq<u8>) {
    }

    fn decode(src: &[u8]) -> (r: Result<(Self, usize), DecodeError>) {
        if src.len() < 1 {
            return Err(DecodeError::unexpected_eof());
        }
        Ok((Ton::from_value(src[0]), 1))
    }
}

impl Encode for Ton {
    open spec fn spec_wf(v: Ton) -> bool {
        true
    }

    open spec fn spec_wire(v: Ton) -> Seq<u8> {
        seq![v.spec_value()]
    }

    fn encode(&self, dst: &mut Vec<u8>) {
        dst.push(self.value());
        proof {
            assert(dst@ =~= old(dst)@ + Self::spec_wire(self.deep_view()));
        }
    }

    fn length(&self) -> (r: usize) {
        1
    }
}

/// Numbering Plan Indicator of an address.
#[derive(Debug, Clone, Copy, PartialEq, Eq, Structural)]
pub enum Npi {
    Unknown,
    Isdn,
    Data,
    Telex,
    LandMobile,
    National,
    Private,
    Ermes,
    Internet,
    WapClientId,
    /// An unrecognized value, preserved as is.
    Other(u8),
}

impl Npi {
    /// The value decoded from an octet.
    pub open spec fn spec_from(value: u8) -> Npi {
        if value == 0 {
            Npi::Unknown
        } else if value == 1 {
            Npi::Isdn
        } else if value == 3 {
            Npi::Data
        } else if value == 4 {
            Npi::Telex
        } else if value == 6 {
            Npi::LandMobile
        } else if value == 8 {
            Npi::National
        } else if value == 9 {
            Npi::Private
        } else if value == 10 {
            Npi::Ermes
        } else if value == 14 {
            Npi::Internet
        } else if value == 18 {
            Npi::WapClientId
        } else {
            Npi::Other(value)
        }
    }

    /// The octet a value encodes to.
    pub open spec fn spec_value(self) -> u8 {
        match self {
            Npi::Unknown => 0,
            Npi::Isdn => 1,
            Npi::Data => 3,
            Npi::Telex => 4,
            Npi::LandMobile => 6,
            Npi::National => 8,
            Npi::Private => 9,
            Npi::Ermes => 10,
            Npi::Internet => 14,
            Npi::WapClientId => 18,
            Npi::Other(value) => value,
        }
    }

    /// A value is canonical when its octet maps back to it; decoded
    /// values always are.
    pub open spec fn canonical(self) -> bool {
        Npi::spec_from(self.spec_value()) == self
    }

    /// The value decoded from an octet.
    pub fn from_value(value: u8) -> (r: Npi)
        ensures
            r == Npi::spec_from(value),
    {
        if value == 0 {
            Npi::Unknown
        } else if value == 1 {
            Npi::Isdn
        } else if value == 3 {
            Npi::Data
        } else if value == 4 {
            Npi::Telex
        } else if value == 6 {
            Npi::LandMobile
        } else if value == 8 {
            Npi::National
        } else if value == 9 {
            Npi::Private
        } else if value == 10 {
            Npi::Ermes
        } else if value == 14 {
            Npi::Internet
        } else if value == 18 {
            Npi::WapClientId
        } else {
            Npi::Other(value)
        }
    }

    /// The octet a value encodes to.
    pub fn value(self) -> (r: u8)
        ensures
            r == self.spec_value(),
    {
        match self {
            Npi::Unknown => 0,
            Npi::Isdn => 1,
            Npi::Data => 3,
            Npi::Telex => 4,
            Npi::LandMobile => 6,
            Npi::National => 8,
            Npi::Private => 9,
            Npi::Ermes => 10,
            Npi::Internet => 14,
            Npi::WapClientId => 18,
            Npi::Other(value) => value,
        }
    }
}

impl View for Npi {
    type V = Npi;

    open spec fn view(&self) -> Npi {
        *self
    }
}

impl DeepView for Npi {
    type V = Npi;

    open spec fn deep_view(&self) -> Npi {
        *self
    }
}

impl Decode for Npi {
    open spec fn spec_decode(src: Seq<u8>) -> Option<(Npi, int)> {
        if src.len() < 1 {
            None
        } else {
            Some((Npi::spec_from(src[0]), 1))
        }
    }

    open spec fn spec_decode_err(src: Seq<u8>) -> DecodeError {
        DecodeError::spec_unexpected_eof()
    }

    proof fn lemma_spec_decode_size(src: Seq<u8>) {
    }

    fn decode(src: &[u8]) -> (r: Result<(Self, usize), DecodeError>) {
        if src.len() < 1 {
            return Err(DecodeError::unexpected_eof());
        }
        Ok((Npi::from_value(src[0]), 1))
    }
}

impl Encode for Npi {
    open spec fn spec_wf(v: Npi) -> bool {
        true
    }

    open spec fn spec_wire(v: Npi) -> Seq<u8> {
        seq![v.spec_value()]
    }

    fn encode(&self, dst: &mut Vec<u8>) {
        dst.push(self.value());
        proof {
            assert(dst@ =~= old(dst)@ + Self::spec_wire(self.deep_view()));
        }
    }

    fn length(&self) -> (r: usize) {
        1
    }
}

/// Messaging mode carried in the low bits of `esm_class`.
#[derive(Debug, Clone, Copy, PartialEq, Eq, Structural)]
pub enum MessagingMode {
    Default,
    Datagram,
    Forward,
    StoreAndForward,
    /// An unrecognized value, preserved as is.
    Other(u8),
}

impl MessagingMode {
    /// The value decoded from an octet.
    pub open spec fn spec_from(value: u8) -> MessagingMode {
        if value == 0 {
            MessagingMode::Default
        } else if value == 1 {
            MessagingMode::Datagram
        } else if value == 2 {
            MessagingMode::Forward
        } else if value == 3 {
            MessagingMode::StoreAndForward
        } else {
            MessagingMode::Other(value)
        }
    }

    /// The octet a value encodes to.
    pub open spec fn spec_value(self) -> u8 {
        match self {
            MessagingMode::Default => 0,
            MessagingMode::Datagram => 1,
            MessagingMode::Forward => 2,
            MessagingMode::StoreAndForward => 3,
            MessagingMode::Other(value) => value,
        }
    }

    /// A value is canonical when its octet maps back to it; decoded
    /// values always are.
    pub open spec fn canonical(self) -> bool {
        MessagingMode::spec_from(self.spec_value()) == self
    }

    /// The value decoded from an octet.
    pub fn from_value(value: u8) -> (r: MessagingMode)
        ensures
            r == MessagingMode::spec_from(value),
    {
        if value == 0 {
            MessagingMode::Default
        } else if value == 1 {
            MessagingMode::Datagram
        } else if value == 2 {
            MessagingMode::Forward
        } else if value == 3 {
            MessagingMode::StoreAndForward
        } else {
            MessagingMode::Other(value)
        }
    }

    /// The octet a value encodes to.
    pub fn value(self) -> (r: u8)
        ensures
            r == self.spec_value(),
    {
        match self {
            MessagingMode::Default => 0,
            MessagingMode::Datagram => 1,
            MessagingMode::Forward => 2,
            MessagingMode::StoreAndForward => 3,
            MessagingMode::Other(value) => value,
        }
    }
}

impl View for MessagingMode {
    type V = MessagingMode;

    open spec fn view(&self) -> MessagingMode {
        *self
    }
}

impl DeepView for MessagingMode {
    type V = MessagingMode;

    open spec fn deep_view(&self) -> MessagingMode {
        *self
    }
}

impl Decode for MessagingMode {
    open spec fn spec_decode(src: Seq<u8>) -> Option<(MessagingMode, int)> {
        if src.len() < 1 {
            None
        } else {
            Some((MessagingMode::spec_from(src[0]), 1))
        }
    }

    open spec fn spec_decode_err(src: Seq<u8>) -> DecodeError {
        DecodeError::spec_unexpected_eof()
    }

    proof fn lemma_spec_decode_size(src: Seq<u8>) {
    }

    fn decode(src: &[u8]) -> (r: Result<(Self, usize), DecodeError>) {
        if src.len() < 1 {
            return Err(DecodeError::unexpected_eof());
        }
        Ok((MessagingMode::from_value(src[0]), 1))
    }
}

impl Encode for MessagingMode {
    open spec fn spec_wf(v: MessagingMode) -> bool {
        true
    }

    open spec fn spec_wire(v: MessagingMode) -> Seq<u8> {
        seq![v.spec_value()]
    }

    fn encode(&self, dst: &mut Vec<u8>) {
        dst.push(self.value());
        proof {
            assert(dst@ =~= old(dst)@ + Self::spec_wire(self.deep_view()));
        }
    }

    fn length(&self) -> (r: usize) {
        1
    }
}

/// Message type carried in `esm_class`.
#[derive(Debug, Clone, Copy, PartialEq, Eq, Structural)]
pub enum MessageType {
    Default,
    ShortMessageContainsMCDeliveryReceipt,
    ShortMessageContainsIntermediateDeliveryNotification,
    /// An unrecognized value, preserved as is.
    Other(u8),
}

impl MessageType {
    /// The value decoded from an octet.
    pub open spec fn spec_from(value: u8) -> MessageType {
        if value == 0 {
            MessageType::Default
        } else if value == 4 {
            MessageType::ShortMessageContainsMCDeliveryReceipt
        } else if value == 8 {
            MessageType::ShortMessageContainsIntermediateDeliveryNotification
        } else {
            MessageType::Other(value)
        }
    }

    /// The octet a value encodes to.
    pub open spec fn spec_value(self) -> u8 {
        match self {
            MessageType::Default => 0,
            MessageType::ShortMessageContainsMCDeliveryReceipt => 4,
            MessageType::ShortMessageContainsIntermediateDeliveryNotification => 8,
            MessageType::Other(value) => value,
        }
    }

    /// A value is canonical when its octet maps back to it; decoded
    /// values always are.
    pub open spec fn canonical(self) -> bool {
        MessageType::spec_from(self.spec_value()) == self
    }

    /// The value decoded from an octet.
    pub fn from_value(value: u8) -> (r: MessageType)
        ensures
            r == MessageType::spec_from(value),
    {
        if value == 0 {
            MessageType::Default
        } else if value == 4 {
            MessageType::ShortMessageContainsMCDeliveryReceipt
        } else if value == 8 {
            MessageType::ShortMessageContainsIntermediateDeliveryNotification
        } else {
            MessageType::Other(value)
        }
    }

    /// The octet a value encodes to.
    pub fn value(self) -> (r: u8)
        ensures
            r == self.spec_value(),
    {
        match self {
            MessageType::Default => 0,
            MessageType::ShortMessageContainsMCDeliveryReceipt => 4,
            MessageType::ShortMessageContainsIntermediateDeliveryNotification => 8,
            MessageType::Other(value) => value,
        }
    }
}

impl View for MessageType {
    type V = MessageType;

    open spec fn view(&self) -> MessageType {
        *self
    }
}

impl DeepView for MessageType {
    type V = MessageType;

    open spec fn deep_view(&self) -> MessageType {
        *self
    }
}

impl Decode for MessageType {
    open spec fn spec_decode(src: Seq<u8>) -> Option<(MessageType, int)> {
        if src.len() < 1 {
            None
        } else {
            Some((MessageType::spec_from(src[0]), 1))
        }
    }

    open spec fn spec_decode_err(src: Seq<u8>) -> DecodeError {
        DecodeError::spec_unexpected_eof()
    }

    proof fn lemma_spec_decode_size(src: Seq<u8>) {
    }

    fn decode(src: &[u8]) -> (r: Result<(Self, usize), DecodeError>) {
        if src.len() < 1 {
            return Err(DecodeError::unexpected_eof());
        }
        Ok((MessageType::from_value(src[0]), 1))
    }
}

impl Encode for MessageType {
    open spec fn spec_wf(v: MessageType) -> bool {
        true
    }

    open spec fn spec_wire(v: MessageType) -> Seq<u8> {
        seq![v.spec_value()]
    }

    fn encode(&self, dst: &mut Vec<u8>) {
        dst.push(self.value());
        proof {
            assert(dst@ =~= old(dst)@ + Self::spec_wire(self.deep_view()));
        }
    }

    fn length(&self) -> (r: usize) {
        1
    }
}

/// ANSI-41 specific message type carried in `esm_class`.
#[derive(Debug, Clone, Copy, PartialEq, Eq, Structural)]
pub enum Ansi41Specific {
    ShortMessageContainsDeliveryAcknowledgement,
    ShortMessageContainsUserAcknowledgment,
    ShortMessageContainsConversationAbort,
    /// An unrecognized value, preserved as is.
    Other(u8),
}

impl Ansi41Specific {
    /// The value decoded from an octet.
    pub open spec fn spec_from(value: u8) -> Ansi41Specific {
        if value == 16 {
            Ansi41Specific::ShortMessageContainsDeliveryAcknowledgement
        } else if value == 32 {
            Ansi41Specific::ShortMessageContainsUserAcknowledgment
        } else if value == 48 {
            Ansi41Specific::ShortMessageContainsConversationAbort
        } else {
            Ansi41Specific::Other(value)
        }
    }

    /// The octet a value encodes to.
    pub open spec fn spec_value(self) -> u8 {
        match self {
            Ansi41Specific::ShortMessageContainsDeliveryAcknowledgement => 16,
            Ansi41Specific::ShortMessageContainsUserAcknowledgment => 32,
            Ansi41Specific::ShortMessageContainsConversationAbort => 48,
            Ansi41Specific::Other(value) => value,
        }
    }

    /// A value is canonical when its octet maps back to it; decoded
    /// values always are.
    pub open spec fn canonical(self) -> bool {
        Ansi41Specific::spec_from(self.spec_value()) == self
    }

    /// The value decoded from an octet.
    pub fn from_value(value: u8) -> (r: Ansi41Specific)
        ensures
            r == Ansi41Specific::spec_from(value),
    {
        if value == 16 {
            Ansi41Specific::ShortMessageContainsDeliveryAcknowledgement
        } else if value == 32 {
            Ansi41Specific::ShortMessageContainsUserAcknowledgment
        } else if value == 48 {
            Ansi41Specific::ShortMessageContainsConversationAbort
        } else {
            Ansi41Specific::Other(value)
        }
    }

    /// The octet a value encodes to.
    pub fn value(self) -> (r: u8)
        ensures
            r == self.spec_value(),
    {
        match self {
            Ansi41Specific::ShortMessageContainsDeliveryAcknowledgement => 16,
            Ansi41Specific::ShortMessageContainsUserAcknowledgment => 32,
            Ansi41Specific::ShortMessageContainsConversationAbort => 48,
            Ansi41Specific::Other(value) => value,
        }
    }
}

impl View for Ansi41Specific {
    type V = Ansi41Specific;

    open spec fn view(&self) -> Ansi41Specific {
        *self
    }
}

impl DeepView for Ansi41Specific {
    type V = Ansi41Specific;

    open spec fn deep_view(&self) -> Ansi41Specific {
        *self
    }
}

impl Decode for Ansi41Specific {
    open spec fn spec_decode(src: Seq<u8>) -> Option<(Ansi41Specific, int)> {
        if src.len() < 1 {
            None
        } else {
            Some((Ansi41Specific::spec_from(src[0]), 1))
        }
    }

    open spec fn spec_decode_err(src: Seq<u8>) -> DecodeError {
        DecodeError::spec_unexpected_eof()
    }

    proof fn lemma_spec_decode_size(src: Seq<u8>) {
    }

    fn decode(src: &[u8]) -> (r: Result<(Self, usize), DecodeError>) {
        if src.len() < 1 {
            return Err(DecodeError::unexpected_eof());
        }
        Ok((Ansi41Specific::from_value(src[0]), 1))
    }
}

impl Encode for Ansi41Specific {
    open spec fn spec_wf(v: Ansi41Specific) -> bool {
        true
    }

    open spec fn spec_wire(v: Ansi41Specific) -> Seq<u8> {
        seq![v.spec_value()]
    }

    fn encode(&self, dst: &mut Vec<u8>) {
        dst.push(self.value());
        proof {
            assert(dst@ =~= old(dst)@ + Self::spec_wire(self.deep_view()));
        }
    }

    fn length(&self) -> (r: usize) {
        1
    }
}

/// GSM network features carried in the high bits of `esm_class`.
#[derive(Debug, Clone, Copy, PartialEq, Eq, Structural)]
pub enum GsmFeatures {
    NotSelected,
    UdhiIndicator,
    SetReplyPath,
    SetUdhiAndReplyPath,
    /// An unrecognized value, preserved as is.
    Other(u8),
}

impl GsmFeatures {
    /// The value decoded from an octet.
    pub open spec fn spec_from(value: u8) -> GsmFeatures {
        if value == 0 {
            GsmFeatures::NotSelected
        } else if value == 64 {
            GsmFeatures::UdhiIndicator
        } else if value == 128 {
            GsmFeatures::SetReplyPath
        } else if value == 192 {
            GsmFeatures::SetUdhiAndReplyPath
        } else {
            GsmFeatures::Other(value)
        }
    }

    /// The octet a value encodes to.
    pub open spec fn spec_value(self) -> u8 {
        match self {
            GsmFeatures::NotSelected => 0,
            GsmFeatures::UdhiIndicator => 64,
            GsmFeatures::SetReplyPath => 128,
            GsmFeatures::SetUdhiAndReplyPath => 192,
            GsmFeatures::Other(value) => value,
        }
    }

    /// A value is canonical when its octet maps back to it; decoded
    /// values always are.
    pub open spec fn canonical(self) -> bool {
        GsmFeatures::spec_from(self.spec_value()) == self
    }

    /// The value decoded from an octet.
    pub fn from_value(value: u8) -> (r: GsmFeatures)
        ensures
            r == GsmFeatures::spec_from(value),
    {
        if value == 0 {
            GsmFeatures::NotSelected
        } else if value == 64 {
            GsmFeatures::UdhiIndicator
        } else if value == 128 {
            GsmFeatures::SetReplyPath
        } else if value == 192 {
            GsmFeatures::SetUdhiAndReplyPath
        } else {
            GsmFeatures::Other(value)
        }
    }

    /// The octet a value encodes to.
    pub fn value(self) -> (r: u8)
        ensures
            r == self.spec_value(),
    {
        match self {
            GsmFeatures::NotSelected => 0,
            GsmFeatures::UdhiIndicator => 64,
            GsmFeatures::SetReplyPath => 128,
            GsmFeatures::SetUdhiAndReplyPath => 192,
            GsmFeatures::Other(value) => value,
        }
    }
}

impl View for GsmFeatures {
    type V = GsmFeatures;

    open spec fn view(&self) -> GsmFeatures {
        *self
    }
}

impl DeepView for GsmFeatures {
    type V = GsmFeatures;

    open spec fn deep_view(&self) -> GsmFeatures {
        *self
    }
}

impl Decode for GsmFeatures {
    open spec fn spec_decode(src: Seq<u8>) -> Option<(GsmFeatures, int)> {
        if src.len() < 1 {
            None
        } else {
            Some((GsmFeatures::spec_from(src[0]), 1))
        }
    }

    open spec fn spec_decode_err(src: Seq<u8>) -> DecodeError {
        DecodeError::spec_unexpected_eof()
    }

    proof fn lemma_spec_decode_size(src: Seq<u8>) {
    }

    fn decode(src: &[u8]) -> (r: Result<(Self, usize), DecodeError>) {
        if src.len() < 1 {
            return Err(DecodeError::unexpected_eof());
        }
        Ok((GsmFeatures::from_value(src[0]), 1))
    }
}

impl Encode for GsmFeatures {
    open spec fn spec_wf(v: GsmFeatures) -> bool {
        true
    }

    open spec fn spec_wire(v: GsmFeatures) -> Seq<u8> {
        seq![v.spec_value()]
    }

    fn encode(&self, dst: &mut Vec<u8>) {
        dst.push(self.value());
        proof {
            assert(dst@ =~= old(dst)@ + Self::spec_wire(self.deep_view()));
        }
    }

    fn length(&self) -> (r: usize) {
        1
    }
}

/// Message Centre delivery receipt request carried in `registered_delivery`.
#[derive(Debug, Clone, Copy, PartialEq, Eq, Structural)]
pub enum MCDeliveryReceipt {
    NoMcDeliveryReceiptRequested,
    McDeliveryReceiptRequestedWhereFinalDeliveryOutcomeIsSuccessOrFailure,
    McDeliveryReceiptRequestedWhereFinalDeliveryOutcomeIsFailure,
    McDeliveryReceiptRequestedWhereFinalDeliveryOutcomeIsSuccess,
    /// An unrecognized value, preserved as is.
    Other(u8),
}

impl MCDeliveryReceipt {
    /// The value decoded from an octet.
    pub open spec fn spec_from(value: u8) -> MCDeliveryReceipt {
        if value == 0 {
            MCDeliveryReceipt::NoMcDeliveryReceiptRequested
        } else if value == 1 {
            MCDeliveryReceipt::McDeliveryReceiptRequestedWhereFinalDeliveryOutcomeIsSuccessOrFailure
        } else if value == 2 {
            MCDeliveryReceipt::McDeliveryReceiptRequestedWhereFinalDeliveryOutcomeIsFailure
        } else if value == 3 {
            MCDeliveryReceipt::McDeliveryReceiptRequestedWhereFinalDeliveryOutcomeIsSuccess
        } else {
            MCDeliveryReceipt::Other(value)
        }
    }

    /// The octet a value encodes to.
    pub open spec fn spec_value(self) -> u8 {
        match self {
            MCDeliveryReceipt::NoMcDeliveryReceiptRequested => 0,
            MCDeliveryReceipt::McDeliveryReceiptRequestedWhereFinalDeliveryOutcomeIsSuccessOrFailure => 1,
            MCDeliveryReceipt::McDeliveryReceiptRequestedWhereFinalDeliveryOutcomeIsFailure => 2,
            MCDeliveryReceipt::McDeliveryReceiptRequestedWhereFinalDeliveryOutcomeIsSuccess => 3,
            MCDeliveryReceipt::Other(value) => value,
        }
    }

    /// A value is canonical when its octet maps back to it; decoded
    /// values always are.
    pub open spec fn canonical(self) -> bool {
        MCDeliveryReceipt::spec_from(self.spec_value()) == self
    }

    /// The value decoded from an octet.
    pub fn from_value(value: u8) -> (r: MCDeliveryReceipt)
        ensures
            r == MCDeliveryReceipt::spec_from(value),
    {
        if value == 0 {
            MCDeliveryReceipt::NoMcDeliveryReceiptRequested
        } else if value == 1 {
            MCDeliveryReceipt::McDeliveryReceiptRequestedWhereFinalDeliveryOutcomeIsSuccessOrFailure
        } else if value == 2 {
            MCDeliveryReceipt::McDeliveryReceiptRequestedWhereFinalDeliveryOutcomeIsFailure
        } else if value == 3 {
            MCDeliveryReceipt::McDeliveryReceiptRequestedWhereFinalDeliveryOutcomeIsSuccess
        } else {
            MCDeliveryReceipt::Other(value)
        }
    }

    /// The octet a value encodes to.
    pub fn value(self) -> (r: u8)
        ensures
            r == self.spec_value(),
    {
        match self {
            MCDeliveryReceipt::NoMcDeliveryReceiptRequested => 0,
            MCDeliveryReceipt::McDeliveryReceiptRequestedWhereFinalDeliveryOutcomeIsSuccessOrFailure => 1,
            MCDeliveryReceipt::McDeliveryReceiptRequestedWhereFinalDeliveryOutcomeIsFailure => 2,
            MCDeliveryReceipt::McDeliveryReceiptRequestedWhereFinalDeliveryOutcomeIsSuccess => 3,
            MCDeliveryReceipt::Other(value) => value,
        }
    }
}

impl View for MCDeliveryReceipt {
    type V = MCDeliveryReceipt;

    open spec fn view(&self) -> MCDeliveryReceipt {
        *self
    }
}

impl DeepView for MCDeliveryReceipt {
    type V = MCDeliveryReceipt;

    open spec fn deep_view(&self) -> MCDeliveryReceipt {
        *self
    }
}

impl Decode for MCDeliveryReceipt {
    open spec fn spec_decode(src: Seq<u8>) -> Option<(MCDeliveryReceipt, int)> {
        if src.len() < 1 {
            None
        } else {
            Some((MCDeliveryReceipt::spec_from(src[0]), 1))
        }
    }

    open spec fn spec_decode_err(src: Seq<u8>) -> DecodeError {
        DecodeError::spec_unexpected_eof()
    }

    proof fn lemma_spec_decode_size(src: Seq<u8>) {
    }

    fn decode(src: &[u8]) -> (r: Result<(Self, usize), DecodeError>) {
        if src.len() < 1 {
            return Err(DecodeError::unexpected_eof());
        }
        Ok((MCDeliveryReceipt::from_value(src[0]), 1))
    }
}

impl Encode for MCDeliveryReceipt {
    open spec fn spec_wf(v: MCDeliveryReceipt) -> bool {
        true
    }

    open spec fn spec_wire(v: MCDeliveryReceipt) -> Seq<u8> {
        seq![v.spec_value()]
    }

    fn encode(&self, dst: &mut Vec<u8>) {
        dst.push(self.value());
        proof {
            assert(dst@ =~= old(dst)@ + Self::spec_wire(self.deep_view()));
        }
    }

    fn length(&self) -> (r: usize) {
        1
    }
}

/// SME originated acknowledgement request carried in `registered_delivery`.
#[derive(Debug, Clone, Copy, PartialEq, Eq, Structural)]
pub enum SmeOriginatedAcknowledgement {
    NoRecipientSmeAcknowledgmentRequested,
    SmeDeliveryAcknowledgmentRequested,
    SmeUserAcknowledgmentRequested,
    BothDeliveryAndUserAcknowledgmentRequested,
    /// An unrecognized value, preserved as is.
    Other(u8),
}

impl SmeOriginatedAcknowledgement {
    /// The value decoded from an octet.
    pub open spec fn spec_from(value: u8) -> SmeOriginatedAcknowledgement {
        if value == 0 {
            SmeOriginatedAcknowledgement::NoRecipientSmeAcknowledgmentRequested
        } else if value == 4 {
            SmeOriginatedAcknowledgement::SmeDeliveryAcknowledgmentRequested
        } else if value == 8 {
            SmeOriginatedAcknowledgement::SmeUserAcknowledgmentRequested
        } else if value == 12 {
            SmeOriginatedAcknowledgement::BothDeliveryAndUserAcknowledgmentRequested
        } else {
            SmeOriginatedAcknowledgement::Other(value)
        }
    }

    /// The octet a value encodes to.
    pub open spec fn spec_value(self) -> u8 {
        match self {
            SmeOriginatedAcknowledgement::NoRecipientSmeAcknowledgmentRequested => 0,
            SmeOriginatedAcknowledgement::SmeDeliveryAcknowledgmentRequested => 4,
            SmeOriginatedAcknowledgement::SmeUserAcknowledgmentRequested => 8,
            SmeOriginatedAcknowledgement::BothDeliveryAndUserAcknowledgmentRequested => 12,
            SmeOriginatedAcknowledgement::Other(value) => value,
        }
    }

    /// A value is canonical when its octet maps back to it; decoded
    /// values always are.
    pub open spec fn canonical(self) -> bool {
        SmeOriginatedAcknowledgement::spec_from(self.spec_value()) == self
    }

    /// The value decoded from an octet.
    pub fn from_value(value: u8) -> (r: SmeOriginatedAcknowledgement)
        ensures
            r == SmeOriginatedAcknowledgement::spec_from(value),
    {
        if value == 0 {
            SmeOriginatedAcknowledgement::NoRecipientSmeAcknowledgmentRequested
        } else if value == 4 {
            SmeOriginatedAcknowledgement::SmeDeliveryAcknowledgmentRequested
        } else if value == 8 {
            SmeOriginatedAcknowledgement::SmeUserAcknowledgmentRequested
        } else if value == 12 {
            SmeOriginatedAcknowledgement::BothDeliveryAndUserAcknowledgmentRequested
        } else {
            SmeOriginatedAcknowledgement::Other(value)
        }
    }

    /// The octet a value encodes to.
    pub fn value(self) -> (r: u8)
        ensures
            r == self.spec_value(),
    {
        match self {
            SmeOriginatedAcknowledgement::NoRecipientSmeAcknowledgmentRequested => 0,
            SmeOriginatedAcknowledgement::SmeDeliveryAcknowledgmentRequested => 4,
            SmeOriginatedAcknowledgement::SmeUserAcknowledgmentRequested => 8,
            SmeOriginatedAcknowledgement::BothDeliveryAndUserAcknowledgmentRequested => 12,
            SmeOriginatedAcknowledgement::Other(value) => value,
        }
    }
}

impl View for SmeOriginatedAcknowledgement {
    type V = SmeOriginatedAcknowledgement;

    open spec fn view(&self) -> SmeOriginatedAcknowledgement {
        *self
    }
}

impl DeepView for SmeOriginatedAcknowledgement {
    type V = SmeOriginatedAcknowledgement;

    open spec fn deep_view(&self) -> SmeOriginatedAcknowledgement {
        *self
    }
}

impl Decode for SmeOriginatedAcknowledgement {
    open spec fn spec_decode(src: Seq<u8>) -> Option<(SmeOriginatedAcknowledgement, int)> {
        if src.len() < 1 {
            None
        } else {
            Some((SmeOriginatedAcknowledgement::spec_from(src[0]), 1))
        }
    }

    open spec fn spec_decode_err(src: Seq<u8>) -> DecodeError {
        DecodeError::spec_unexpected_eof()
    }

    proof fn lemma_spec_decode_size(src: Seq<u8>) {
    }

    fn decode(src: &[u8]) -> (r: Result<(Self, usize), DecodeError>) {
        if src.len() < 1 {
            return Err(DecodeError::unexpected_eof());
        }
        Ok((SmeOriginatedAcknowledgement::from_value(src[0]), 1))
    }
}

impl Encode for SmeOriginatedAcknowledgement {
    open spec fn spec_wf(v: SmeOriginatedAcknowledgement) -> bool {
        true
    }

    open spec fn spec_wire(v: SmeOriginatedAcknowledgement) -> Seq<u8> {
        seq![v.spec_value()]
    }

    fn encode(&self, dst: &mut Vec<u8>) {
        dst.push(self.value());
        proof {
            assert(dst@ =~= old(dst)@ + Self::spec_wire(self.deep_view()));
        }
    }

    fn length(&self) -> (r: usize) {
        1
    }
}

/// Intermediate notification request carried in `registered_delivery`.
#[derive(Debug, Clone, Copy, PartialEq, Eq, Structural)]
pub enum IntermediateNotification {
    NoIntermediaryNotificationRequested,
    IntermediateNotificationRequested,
    /// An unrecognized value, preserved as is.
    Other(u8),
}

impl IntermediateNotification {
    /// The value decoded from an octet.
    pub open spec fn spec_from(value: u8) -> IntermediateNotification {
        if value == 0 {
            IntermediateNotification::NoIntermediaryNotificationRequested
        } else if value == 16 {
            IntermediateNotification::IntermediateNotificationRequested
        } else {
            IntermediateNotification::Other(value)
        }
    }

    /// The octet a value encodes to.
    pub open spec fn spec_value(self) -> u8 {
        match self {
            IntermediateNotification::NoIntermediaryNotificationRequested => 0,
            IntermediateNotification::IntermediateNotificationRequested => 16,
            IntermediateNotification::Other(value) => value,
        }
    }

    /// A value is canonical when its octet maps back to it; decoded
    /// values always are.
    pub open spec fn canonical(self) -> bool {
        IntermediateNotification::spec_from(self.spec_value()) == self
    }

    /// The value decoded from an octet.
    pub fn from_value(value: u8) -> (r: IntermediateNotification)
        ensures
            r == IntermediateNotification::spec_from(value),
    {
        if value == 0 {
            IntermediateNotification::NoIntermediaryNotificationRequested
        } else if value == 16 {
            IntermediateNotification::IntermediateNotificationRequested
        } else {
            IntermediateNotification::Other(value)
        }
    }

    /// The octet a value encodes to.
    pub fn value(self) -> (r: u8)
        ensures
            r == self.spec_value(),
    {
        match self {
            IntermediateNotification::NoIntermediaryNotificationRequested => 0,
            IntermediateNotification::IntermediateNotificationRequested => 16,
            IntermediateNotification::Other(value) => value,
        }
    }
}

impl View for IntermediateNotification {
    type V = IntermediateNotification;

    open spec fn view(&self) -> IntermediateNotification {
        *self
    }
}

impl DeepView for IntermediateNotification {
    type V = IntermediateNotification;

    open spec fn deep_view(&self) -> IntermediateNotification {
        *self
    }
}

impl Decode for IntermediateNotification {
    open spec fn spec_decode(src: Seq<u8>) -> Option<(IntermediateNotification, int)> {
        if src.len() < 1 {
            None
        } else {
            Some((IntermediateNotification::spec_from(src[0]), 1))
        }
    }

    open spec fn spec_decode_err(src: Seq<u8>) -> DecodeError {
        DecodeError::spec_unexpected_eof()
    }

    proof fn lemma_spec_decode_size(src: Seq<u8>) {
    }

    fn decode(src: &[u8]) -> (r: Result<(Self, usize), DecodeError>) {
        if src.len() < 1 {
            return Err(DecodeError::unexpected_eof());
        }
        Ok((IntermediateNotification::from_value(src[0]), 1))
    }
}

impl Encode for IntermediateNotification {
    open spec fn spec_wf(v: IntermediateNotification) -> bool {
        true
    }

    open spec fn spec_wire(v: IntermediateNotification) -> Seq<u8> {
        seq![v.spec_value()]
    }

    fn encode(&self, dst: &mut Vec<u8>) {
        dst.push(self.value());
        proof {
            assert(dst@ =~= old(dst)@ + Self::spec_wire(self.deep_view()));
        }
    }

    fn length(&self) -> (r: usize) {
        1
    }
}

/// Whether a submitted message replaces an existing one.
#[derive(Debug, Clone, Copy, PartialEq, Eq, Structural)]
pub enum ReplaceIfPresentFlag {
    DoNotReplace,
    Replace,
    /// An unrecognized value, preserved as is.
    Other(u8),
}

impl ReplaceIfPresentFlag {
    /// The value decoded from an octet.
    pub open spec fn spec_from(value: u8) -> ReplaceIfPresentFlag {
        if value == 0 {
            ReplaceIfPresentFlag::DoNotReplace
        } else if value == 1 {
            ReplaceIfPresentFlag::Replace
        } else {
            ReplaceIfPresentFlag::Other(value)
        }
    }

    /// The octet a value encodes to.
    pub open spec fn spec_value(self) -> u8 {
        match self {
            ReplaceIfPresentFlag::DoNotReplace => 0,
            ReplaceIfPresentFlag::Replace => 1,
            ReplaceIfPresentFlag::Other(value) => value,
        }
    }

    /// A value is canonical when its octet maps back to it; decoded
    /// values always are.
    pub open spec fn canonical(self) -> bool {
        ReplaceIfPresentFlag::spec_from(self.spec_value()) == self
    }

    /// The value decoded from an octet.
    pub fn from_value(value: u8) -> (r: ReplaceIfPresentFlag)
        ensures
            r == ReplaceIfPresentFlag::spec_from(value),
    {
        if value == 0 {
            ReplaceIfPresentFlag::DoNotReplace
        } else if value == 1 {
            ReplaceIfPresentFlag::Replace
        } else {
            ReplaceIfPresentFlag::Other(value)
        }
    }

    /// The octet a value encodes to.
    pub fn value(self) -> (r: u8)
        ensures
            r == self.spec_value(),
    {
        match self {
            ReplaceIfPresentFlag::DoNotReplace => 0,
            ReplaceIfPresentFlag::Replace => 1,
            ReplaceIfPresentFlag::Other(value) => value,
        }
    }
}

impl View for ReplaceIfPresentFlag {
    type V = ReplaceIfPresentFlag;

    open spec fn view(&self) -> ReplaceIfPresentFlag {
        *self
    }
}

impl DeepView for ReplaceIfPresentFlag {
    type V = ReplaceIfPresentFlag;

    open spec fn deep_view(&self) -> ReplaceIfPresentFlag {
        *self
    }
}

impl Decode for ReplaceIfPresentFlag {
    open spec fn spec_decode(src: Seq<u8>) -> Option<(ReplaceIfPresentFlag, int)> {
        if src.len() < 1 {
            None
        } else {
            Some((ReplaceIfPresentFlag::spec_from(src[0]), 1))
        }
    }

    open spec fn spec_decode_err(src: Seq<u8>) -> DecodeError {
        DecodeError::spec_unexpected_eof()
    }

    proof fn lemma_spec_decode_size(src: Seq<u8>) {
    }

    fn decode(src: &[u8]) -> (r: Result<(Self, usize), DecodeError>) {
        if src.len() < 1 {
            return Err(DecodeError::unexpected_eof());
        }
        Ok((ReplaceIfPresentFlag::from_value(src[0]), 1))
    }
}

impl Encode for ReplaceIfPresentFlag {
    open spec fn spec_wf(v: ReplaceIfPresentFlag) -> bool {
        true
    }

    open spec fn spec_wire(v: ReplaceIfPresentFlag) -> Seq<u8> {
        seq![v.spec_value()]
    }

    fn encode(&self, dst: &mut Vec<u8>) {
        dst.push(self.value());
        proof {
            assert(dst@ =~= old(dst)@ + Self::spec_wire(self.deep_view()));
        }
    }

    fn length(&self) -> (r: usize) {
        1
    }
}

/// Character encoding scheme of the short message.
#[derive(Debug, Clone, Copy, PartialEq, Eq, Structural)]
pub enum DataCoding {
    McSpecific,
    Ia5,
    OctetUnspecified,
    Latin1,
    OctetUnspecified2,
    Jis,
    Cyrillic,
    LatinHebrew,
    Ucs2,
    PictogramEncoding,
    Iso2022JpMusicCodes,
    ExtendedKanjiJis,
    Ksc5601,
    GsmMwiControl,
    GsmMwiControl2,
    GsmMessageClassControl,
    /// An unrecognized value, preserved as is.
    Other(u8),
}

impl DataCoding {
    /// The value decoded from an octet.
    pub open spec fn spec_from(value: u8) -> DataCoding {
        if value == 0 {
            DataCoding::McSpecific
        } else if value == 1 {
            DataCoding::Ia5
        } else if value == 2 {
            DataCoding::OctetUnspecified
        } else if value == 3 {
            DataCoding::Latin1
        } else if value == 4 {
            DataCoding::OctetUnspecified2
        } else if value == 5 {
            DataCoding::Jis
        } else if value == 6 {
            DataCoding::Cyrillic
        } else if value == 7 {
            DataCoding::LatinHebrew
        } else if value == 8 {
            DataCoding::Ucs2
        } else if value == 9 {
            DataCoding::PictogramEncoding
        } else if value == 10 {
            DataCoding::Iso2022JpMusicCodes
        } else if value == 13 {
            DataCoding::ExtendedKanjiJis
        } else if value == 14 {
            DataCoding::Ksc5601
        } else if value == 192 {
            DataCoding::GsmMwiControl
        } else if value == 208 {
            DataCoding::GsmMwiControl2
        } else if value == 240 {
            DataCoding::GsmMessageClassControl
        } else {
            DataCoding::Other(value)
        }
    }

    /// The octet a value encodes to.
    pub open spec fn spec_value(self) -> u8 {
        match self {
            DataCoding::McSpecific => 0,
            DataCoding::Ia5 => 1,
            DataCoding::OctetUnspecified => 2,
            DataCoding::Latin1 => 3,
            DataCoding::OctetUnspecified2 => 4,
            DataCoding::Jis => 5,
            DataCoding::Cyrillic => 6,
            DataCoding::LatinHebrew => 7,
            DataCoding::Ucs2 => 8,
            DataCoding::PictogramEncoding => 9,
            DataCoding::Iso2022JpMusicCodes => 10,
            DataCoding::ExtendedKanjiJis => 13,
            DataCoding::Ksc5601 => 14,
            DataCoding::GsmMwiControl => 192,
            DataCoding::GsmMwiControl2 => 208,
            DataCoding::GsmMessageClassControl => 240,
            DataCoding::Other(value) => value,
        }
    }

    /// A value is canonical when its octet maps back to it; decoded
    /// values always are.
    pub open spec fn canonical(self) -> bool {
        DataCoding::spec_from(self.spec_value()) == self
    }

    /// The value decoded from an octet.
    pub fn from_value(value: u8) -> (r: DataCoding)
        ensures
            r == DataCoding::spec_from(value),
    {
        if value == 0 {
            DataCoding::McSpecific
        } else if value == 1 {
            DataCoding::Ia5
        } else if value == 2 {
            DataCoding::OctetUnspecified
        } else if value == 3 {
            DataCoding::Latin1
        } else if value == 4 {
            DataCoding::OctetUnspecified2
        } else if value == 5 {
            DataCoding::Jis
        } else if value == 6 {
            DataCoding::Cyrillic
        } else if value == 7 {
            DataCoding::LatinHebrew
        } else if value == 8 {
            DataCoding::Ucs2
        } else if value == 9 {
            DataCoding::PictogramEncoding
        } else if value == 10 {
            DataCoding::Iso2022JpMusicCodes
        } else if value == 13 {
            DataCoding::ExtendedKanjiJis
        } else if value == 14 {
            DataCoding::Ksc5601
        } else if value == 192 {
            DataCoding::GsmMwiControl
        } else if value == 208 {
            DataCoding::GsmMwiControl2
        } else if value == 240 {
            DataCoding::GsmMessageClassControl
        } else {
            DataCoding::Other(value)
        }
    }

    /// The octet a value encodes to.
    pub fn value(self) -> (r: u8)
        ensures
            r == self.spec_value(),
    {
        match self {
            DataCoding::McSpecific => 0,
            DataCoding::Ia5 => 1,
            DataCoding::OctetUnspecified => 2,
            DataCoding::Latin1 => 3,
            DataCoding::OctetUnspecified2 => 4,
            DataCoding::Jis => 5,
            DataCoding::Cyrillic => 6,
            DataCoding::LatinHebrew => 7,
            DataCoding::Ucs2 => 8,
            DataCoding::PictogramEncoding => 9,
            DataCoding::Iso2022JpMusicCodes => 10,
            DataCoding::ExtendedKanjiJis => 13,
            DataCoding::Ksc5601 => 14,
            DataCoding::GsmMwiControl => 192,
            DataCoding::GsmMwiControl2 => 208,
            DataCoding::GsmMessageClassControl => 240,
            DataCoding::Other(value) => value,
        }
    }
}

impl View for DataCoding {
    type V = DataCoding;

    open spec fn view(&self) -> DataCoding {
        *self
    }
}

impl DeepView for DataCoding {
    type V = DataCoding;

    open spec fn deep_view(&self) -> DataCoding {
        *self
    }
}

impl Decode for DataCoding {
    open spec fn spec_decode(src: Seq<u8>) -> Option<(DataCoding, int)> {
        if src.len() < 1 {
            None
        } else {
            Some((DataCoding::spec_from(src[0]), 1))
        }
    }

    open spec fn spec_decode_err(src: Seq<u8>) -> DecodeError {
        DecodeError::spec_unexpected_eof()
    }

    proof fn lemma_spec_decode_size(src: Seq<u8>) {
    }

    fn decode(src: &[u8]) -> (r: Result<(Self, usize), DecodeError>) {
        if src.len() < 1 {
            return Err(DecodeError::unexpected_eof());
        }
        Ok((DataCoding::from_value(src[0]), 1))
    }
}

impl Encode for DataCoding {
    open spec fn spec_wf(v: DataCoding) -> bool {
        true
    }

    open spec fn spec_wire(v: DataCoding) -> Seq<u8> {
        seq![v.spec_value()]
    }

    fn encode(&self, dst: &mut Vec<u8>) {
        dst.push(self.value());
        proof {
            assert(dst@ =~= old(dst)@ + Self::spec_wire(self.deep_view()));
        }
    }

    fn length(&self) -> (r: usize) {
        1
    }
}

/// Subunit an address routes to.
#[derive(Debug, Clone, Copy, PartialEq, Eq, Structural)]
pub enum AddrSubunit {
    Unknown,
    MSDisplay,
    MobileEquipment,
    SmartCard,
    ExternalUnit,
    /// An unrecognized value, preserved as is.
    Other(u8),
}

impl AddrSubunit {
    /// The value decoded from an octet.
    pub open spec fn spec_from(value: u8) -> AddrSubunit {
        if value == 0 {
            AddrSubunit::Unknown
        } else if value == 1 {
            AddrSubunit::MSDisplay
        } else if value == 2 {
            AddrSubunit::MobileEquipment
        } else if value == 3 {
            AddrSubunit::SmartCard
        } else if value == 4 {
            AddrSubunit::ExternalUnit
        } else {
            AddrSubunit::Other(value)
        }
    }

    /// The octet a value encodes to.
    pub open spec fn spec_value(self) -> u8 {
        match self {
            AddrSubunit::Unknown => 0,
            AddrSubunit::MSDisplay => 1,
            AddrSubunit::MobileEquipment => 2,
            AddrSubunit::SmartCard => 3,
            AddrSubunit::ExternalUnit => 4,
            AddrSubunit::Other(value) => value,
        }
    }

    /// A value is canonical when its octet maps back to it; decoded
    /// values always are.
    pub open spec fn canonical(self) -> bool {
        AddrSubunit::spec_from(self.spec_value()) == self
    }

    /// The value decoded from an octet.
    pub fn from_value(value: u8) -> (r: AddrSubunit)
        ensures
            r == AddrSubunit::spec_from(value),
    {
        if value == 0 {
            AddrSubunit::Unknown
        } else if value == 1 {
            AddrSubunit::MSDisplay
        } else if value == 2 {
            AddrSubunit::MobileEquipment
        } else if value == 3 {
            AddrSubunit::SmartCard
        } else if value == 4 {
            AddrSubunit::ExternalUnit
        } else {
            AddrSubunit::Other(value)
        }
    }

    /// The octet a value encodes to.
    pub fn value(self) -> (r: u8)
        ensures
            r == self.spec_value(),
    {
        match self {
            AddrSubunit::Unknown => 0,
            AddrSubunit::MSDisplay => 1,
            AddrSubunit::MobileEquipment => 2,
            AddrSubunit::SmartCard => 3,
            AddrSubunit::ExternalUnit => 4,
            AddrSubunit::Other(value) => value,
        }
    }
}

impl View for AddrSubunit {
    type V = AddrSubunit;

    open spec fn view(&self) -> AddrSubunit {
        *self
    }
}

impl DeepView for AddrSubunit {
    type V = AddrSubunit;

    open spec fn deep_view(&self) -> AddrSubunit {
        *self
    }
}

impl Decode for AddrSubunit {
    open spec fn spec_decode(src: Seq<u8>) -> Option<(AddrSubunit, int)> {
        if src.len() < 1 {
            None
        } else {
            Some((AddrSubunit::spec_from(src[0]), 1))
        }
    }

    open spec fn spec_decode_err(src: Seq<u8>) -> DecodeError {
        DecodeError::spec_unexpected_eof()
    }

    proof fn lemma_spec_decode_size(src: Seq<u8>) {
    }

    fn decode(src: &[u8]) -> (r: Result<(Self, usize), DecodeError>) {
        if src.len() < 1 {
            return Err(DecodeError::unexpected_eof());
        }
        Ok((AddrSubunit::from_value(src[0]), 1))
    }
}

impl Encode for AddrSubunit {
    open spec fn spec_wf(v: AddrSubunit) -> bool {
        true
    }

    open spec fn spec_wire(v: AddrSubunit) -> Seq<u8> {
        seq![v.spec_value()]
    }

    fn encode(&self, dst: &mut Vec<u8>) {
        dst.push(self.value());
        proof {
            assert(dst@ =~= old(dst)@ + Self::spec_wire(self.deep_view()));
        }
    }

    fn length(&self) -> (r: usize) {
        1
    }
}

/// Bearer a message travels over.
#[derive(Debug, Clone, Copy, PartialEq, Eq, Structural)]
pub enum BearerType {
    Unknown,
    Sms,
    Csd,
    PacketData,
    Ussd,
    Cdpd,
    DataTac,
    FlexReFlex,
    CellBroadcast,
    /// An unrecognized value, preserved as is.
    Other(u8),
}

impl BearerType {
    /// The value decoded from an octet.
    pub open spec fn spec_from(value: u8) -> BearerType {
        if value == 0 {
            BearerType::Unknown
        } else if value == 1 {
            BearerType::Sms
        } else if value == 2 {
            BearerType::Csd
        } else if value == 3 {
            BearerType::PacketData
        } else if value == 4 {
            BearerType::Ussd
        } else if value == 5 {
            BearerType::Cdpd
        } else if value == 6 {
            BearerType::DataTac
        } else if value == 7 {
            BearerType::FlexReFlex
        } else if value == 8 {
            BearerType::CellBroadcast
        } else {
            BearerType::Other(value)
        }
    }

    /// The octet a value encodes to.
    pub open spec fn spec_value(self) -> u8 {
        match self {
            BearerType::Unknown => 0,
            BearerType::Sms => 1,
            BearerType::Csd => 2,
            BearerType::PacketData => 3,
            BearerType::Ussd => 4,
            BearerType::Cdpd => 5,
            BearerType::DataTac => 6,
            BearerType::FlexReFlex => 7,
            BearerType::CellBroadcast => 8,
            BearerType::Other(value) => value,
        }
    }

    /// A value is canonical when its octet maps back to it; decoded
    /// values always are.
    pub open spec fn canonical(self) -> bool {
        BearerType::spec_from(self.spec_value()) == self
    }

    /// The value decoded from an octet.
    pub fn from_value(value: u8) -> (r: BearerType)
        ensures
            r == BearerType::spec_from(value),
    {
        if value == 0 {
            BearerType::Unknown
        } else if value == 1 {
            BearerType::Sms
        } else if value == 2 {
            BearerType::Csd
        } else if value == 3 {
            BearerType::PacketData
        } else if value == 4 {
            BearerType::Ussd
        } else if value == 5 {
            BearerType::Cdpd
        } else if value == 6 {
            BearerType::DataTac
        } else if value == 7 {
            BearerType::FlexReFlex
        } else if value == 8 {
            BearerType::CellBroadcast
        } else {
            BearerType::Other(value)
        }
    }

    /// The octet a value encodes to.
    pub fn value(self) -> (r: u8)
        ensures
            r == self.spec_value(),
    {
        match self {
            BearerType::Unknown => 0,
            BearerType::Sms => 1,
            BearerType::Csd => 2,
            BearerType::PacketData => 3,
            BearerType::Ussd => 4,
            BearerType::Cdpd => 5,
            BearerType::DataTac => 6,
            BearerType::FlexReFlex => 7,
            BearerType::CellBroadcast => 8,
            BearerType::Other(value) => value,
        }
    }
}

impl View for BearerType {
    type V = BearerType;

    open spec fn view(&self) -> BearerType {
        *self
    }
}

impl DeepView for BearerType {
    type V = BearerType;

    open spec fn deep_view(&self) -> BearerType {
        *self
    }
}

impl Decode for BearerType {
    open spec fn spec_decode(src: Seq<u8>) -> Option<(BearerType, int)> {
        if src.len() < 1 {
            None
        } else {
            Some((BearerType::spec_from(src[0]), 1))
        }
    }

    open spec fn spec_decode_err(src: Seq<u8>) -> DecodeError {
        DecodeError::spec_unexpected_eof()
    }

    proof fn lemma_spec_decode_size(src: Seq<u8>) {
    }

    fn decode(src: &[u8]) -> (r: Result<(Self, usize), DecodeError>) {
        if src.len() < 1 {
            return Err(DecodeError::unexpected_eof());
        }
        Ok((BearerType::from_value(src[0]), 1))
    }
}

impl Encode for BearerType {
    open spec fn spec_wf(v: BearerType) -> bool {
        true
    }

    open spec fn spec_wire(v: BearerType) -> Seq<u8> {
        seq![v.spec_value()]
    }

    fn encode(&self, dst: &mut Vec<u8>) {
        dst.push(self.value());
        proof {
            assert(dst@ =~= old(dst)@ + Self::spec_wire(self.deep_view()));
        }
    }

    fn length(&self) -> (r: usize) {
        1
    }
}

/// Network an address belongs to.
#[derive(Debug, Clone, Copy, PartialEq, Eq, Structural)]
pub enum NetworkType {
    Unknown,
    Gsm,
    Ansi136,
    Is95,
    Pdc,
    Phs,
    IDen,
    Amps,
    PagingNetwork,
    /// An unrecognized value, preserved as is.
    Other(u8),
}

impl NetworkType {
    /// The value decoded from an octet.
    pub open spec fn spec_from(value: u8) -> NetworkType {
        if value == 0 {
            NetworkType::Unknown
        } else if value == 1 {
            NetworkType::Gsm
        } else if value == 2 {
            NetworkType::Ansi136
        } else if value == 3 {
            NetworkType::Is95
        } else if value == 4 {
            NetworkType::Pdc
        } else if value == 5 {
            NetworkType::Phs
        } else if value == 6 {
            NetworkType::IDen
        } else if value == 7 {
            NetworkType::Amps
        } else if value == 8 {
            NetworkType::PagingNetwork
        } else {
            NetworkType::Other(value)
        }
    }

    /// The octet a value encodes to.
    pub open spec fn spec_value(self) -> u8 {
        match self {
            NetworkType::Unknown => 0,
            NetworkType::Gsm => 1,
            NetworkType::Ansi136 => 2,
            NetworkType::Is95 => 3,
            NetworkType::Pdc => 4,
            NetworkType::Phs => 5,
            NetworkType::IDen => 6,
            NetworkType::Amps => 7,
            NetworkType::PagingNetwork => 8,
            NetworkType::Other(value) => value,
        }
    }

    /// A value is canonical when its octet maps back to it; decoded
    /// values always are.
    pub open spec fn canonical(self) -> bool {
        NetworkType::spec_from(self.spec_value()) == self
    }

    /// The value decoded from an octet.
    pub fn from_value(value: u8) -> (r: NetworkType)
        ensures
            r == NetworkType::spec_from(value),
    {
        if value == 0 {
            NetworkType::Unknown
        } else if value == 1 {
            NetworkType::Gsm
        } else if value == 2 {
            NetworkType::Ansi136
        } else if value == 3 {
            NetworkType::Is95
        } else if value == 4 {
            NetworkType::Pdc
        } else if value == 5 {
            NetworkType::Phs
        } else if value == 6 {
            NetworkType::IDen
        } else if value == 7 {
            NetworkType::Amps
        } else if value == 8 {
            NetworkType::PagingNetwork
        } else {
            NetworkType::Other(value)
        }
    }

    /// The octet a value encodes to.
    pub fn value(self) -> (r: u8)
        ensures
            r == self.spec_value(),
    {
        match self {
            NetworkType::Unknown => 0,
            NetworkType::Gsm => 1,
            NetworkType::Ansi136 => 2,
            NetworkType::Is95 => 3,
            NetworkType::Pdc => 4,
            NetworkType::Phs => 5,
            NetworkType::IDen => 6,
            NetworkType::Amps => 7,
            NetworkType::PagingNetwork => 8,
            NetworkType::Other(value) => value,
        }
    }
}

impl View for NetworkType {
    type V = NetworkType;

    open spec fn view(&self) -> NetworkType {
        *self
    }
}

impl DeepView for NetworkType {
    type V = NetworkType;

    open spec fn deep_view(&self) -> NetworkType {
        *self
    }
}

impl Decode for NetworkType {
    open spec fn spec_decode(src: Seq<u8>) -> Option<(NetworkType, int)> {
        if src.len() < 1 {
            None
        } else {
            Some((NetworkType::spec_from(src[0]), 1))
        }
    }

    open spec fn spec_decode_err(src: Seq<u8>) -> DecodeError {
        DecodeError::spec_unexpected_eof()
    }

    proof fn lemma_spec_decode_size(src: Seq<u8>) {
    }

    fn decode(src: &[u8]) -> (r: Result<(Self, usize), DecodeError>) {
        if src.len() < 1 {
            return Err(DecodeError::unexpected_eof());
        }
        Ok((NetworkType::from_value(src[0]), 1))
    }
}

impl Encode for NetworkType {
    open spec fn spec_wf(v: NetworkType) -> bool {
        true
    }

    open spec fn spec_wire(v: NetworkType) -> Seq<u8> {
        seq![v.spec_value()]
    }

    fn encode(&self, dst: &mut Vec<u8>) {
        dst.push(self.value());
        proof {
            assert(dst@ =~= old(dst)@ + Self::spec_wire(self.deep_view()));
        }
    }

    fn length(&self) -> (r: usize) {
        1
    }
}

/// Alert level signalled on message delivery.
#[derive(Debug, Clone, Copy, PartialEq, Eq, Structural)]
pub enum AlertOnMessageDelivery {
    UseMobileDefaultAlert,
    UseLowPriorityAlert,
    UseMediumPriorityAlert,
    UseHighPriorityAlert,
    /// An unrecognized value, preserved as is.
    Other(u8),
}

impl AlertOnMessageDelivery {
    /// The value decoded from an octet.
    pub open spec fn spec_from(value: u8) -> AlertOnMessageDelivery {
        if value == 0 {
            AlertOnMessageDelivery::UseMobileDefaultAlert
        } else if value == 1 {
            AlertOnMessageDelivery::UseLowPriorityAlert
        } else if value == 2 {
            AlertOnMessageDelivery::UseMediumPriorityAlert
        } else if value == 3 {
            AlertOnMessageDelivery::UseHighPriorityAlert
        } else {
            AlertOnMessageDelivery::Other(value)
        }
    }

    /// The octet a value encodes to.
    pub open spec fn spec_value(self) -> u8 {
        match self {
            AlertOnMessageDelivery::UseMobileDefaultAlert => 0,
            AlertOnMessageDelivery::UseLowPriorityAlert => 1,
            AlertOnMessageDelivery::UseMediumPriorityAlert => 2,
            AlertOnMessageDelivery::UseHighPriorityAlert => 3,
            AlertOnMessageDelivery::Other(value) => value,
        }
    }

    /// A value is canonical when its octet maps back to it; decoded
    /// values always are.
    pub open spec fn canonical(self) -> bool {
        AlertOnMessageDelivery::spec_from(self.spec_value()) == self
    }

    /// The value decoded from an octet.
    pub fn from_value(value: u8) -> (r: AlertOnMessageDelivery)
        ensures
            r == AlertOnMessageDelivery::spec_from(value),
    {
        if value == 0 {
            AlertOnMessageDelivery::UseMobileDefaultAlert
        } else if value == 1 {
            AlertOnMessageDelivery::UseLowPriorityAlert
        } else if value == 2 {
            AlertOnMessageDelivery::UseMediumPriorityAlert
        } else if value == 3 {
            AlertOnMessageDelivery::UseHighPriorityAlert
        } else {
            AlertOnMessageDelivery::Other(value)
        }
    }

    /// The octet a value encodes to.
    pub fn value(self) -> (r: u8)
        ensures
            r == self.spec_value(),
    {
        match self {
            AlertOnMessageDelivery::UseMobileDefaultAlert => 0,
            AlertOnMessageDelivery::UseLowPriorityAlert => 1,
            AlertOnMessageDelivery::UseMediumPriorityAlert => 2,
            AlertOnMessageDelivery::UseHighPriorityAlert => 3,
            AlertOnMessageDelivery::Other(value) => value,
        }
    }
}

impl View for AlertOnMessageDelivery {
    type V = AlertOnMessageDelivery;

    open spec fn view(&self) -> AlertOnMessageDelivery {
        *self
    }
}

impl DeepView for AlertOnMessageDelivery {
    type V = AlertOnMessageDelivery;

    open spec fn deep_view(&self) -> AlertOnMessageDelivery {
        *self
    }
}

impl Decode for AlertOnMessageDelivery {
    open spec fn spec_decode(src: Seq<u8>) -> Option<(AlertOnMessageDelivery, int)> {
        if src.len() < 1 {
            None
        } else {
            Some((AlertOnMessageDelivery::spec_from(src[0]), 1))
        }
    }

    open spec fn spec_decode_err(src: Seq<u8>) -> DecodeError {
        DecodeError::spec_unexpected_eof()
    }

    proof fn lemma_spec_decode_size(src: Seq<u8>) {
    }

    fn decode(src: &[u8]) -> (r: Result<(Self, usize), DecodeError>) {
        if src.len() < 1 {
            return Err(DecodeError::unexpected_eof());
        }
        Ok((AlertOnMessageDelivery::from_value(src[0]), 1))
    }
}

impl Encode for AlertOnMessageDelivery {
    open spec fn spec_wf(v: AlertOnMessageDelivery) -> bool {
        true
    }

    open spec fn spec_wire(v: AlertOnMessageDelivery) -> Seq<u8> {
        seq![v.spec_value()]
    }

    fn encode(&self, dst: &mut Vec<u8>) {
        dst.push(self.value());
        proof {
            assert(dst@ =~= old(dst)@ + Self::spec_wire(self.deep_view()));
        }
    }

    fn length(&self) -> (r: usize) {
        1
    }
}

/// How long a message is displayed.
#[derive(Debug, Clone, Copy, PartialEq, Eq, Structural)]
pub enum DisplayTime {
    Temporary,
    Default,
    Invoke,
    /// An unrecognized value, preserved as is.
    Other(u8),
}

impl DisplayTime {
    /// The value decoded from an octet.
    pub open spec fn spec_from(value: u8) -> DisplayTime {
        if value == 0 {
            DisplayTime::Temporary
        } else if value == 1 {
            DisplayTime::Default
        } else if value == 2 {
            DisplayTime::Invoke
        } else {
            DisplayTime::Other(value)
        }
    }

    /// The octet a value encodes to.
    pub open spec fn spec_value(self) -> u8 {
        match self {
            DisplayTime::Temporary => 0,
            DisplayTime::Default => 1,
            DisplayTime::Invoke => 2,
            DisplayTime::Other(value) => value,
        }
    }

    /// A value is canonical when its octet maps back to it; decoded
    /// values always are.
    pub open spec fn canonical(self) -> bool {
        DisplayTime::spec_from(self.spec_value()) == self
    }

    /// The value decoded from an octet.
    pub fn from_value(value: u8) -> (r: DisplayTime)
        ensures
            r == DisplayTime::spec_from(value),
    {
        if value == 0 {
            DisplayTime::Temporary
        } else if value == 1 {
            DisplayTime::Default
        } else if value == 2 {
            DisplayTime::Invoke
        } else {
            DisplayTime::Other(value)
        }
    }

    /// The octet a value encodes to.
    pub fn value(self) -> (r: u8)
        ensures
            r == self.spec_value(),
    {
        match self {
            DisplayTime::Temporary => 0,
            DisplayTime::Default => 1,
            DisplayTime::Invoke => 2,
            DisplayTime::Other(value) => value,
        }
    }
}

impl View for DisplayTime {
    type V = DisplayTime;

    open spec fn view(&self) -> DisplayTime {
        *self
    }
}

impl DeepView for DisplayTime {
    type V = DisplayTime;

    open spec fn deep_view(&self) -> DisplayTime {
        *self
    }
}

impl Decode for DisplayTime {
    open spec fn spec_decode(src: Seq<u8>) -> Option<(DisplayTime, int)> {
        if src.len() < 1 {
            None
        } else {
            Some((DisplayTime::spec_from(src[0]), 1))
        }
    }

    open spec fn spec_decode_err(src: Seq<u8>) -> DecodeError {
        DecodeError::spec_unexpected_eof()
    }

    proof fn lemma_spec_decode_size(src: Seq<u8>) {
    }

    fn decode(src: &[u8]) -> (r: Result<(Self, usize), DecodeError>) {
        if src.len() < 1 {
            return Err(DecodeError::unexpected_eof());
        }
        Ok((DisplayTime::from_value(src[0]), 1))
    }
}

impl Encode for DisplayTime {
    open spec fn spec_wf(v: DisplayTime) -> bool {
        true
    }

    open spec fn spec_wire(v: DisplayTime) -> Seq<u8> {
        seq![v.spec_value()]
    }

    fn encode(&self, dst: &mut Vec<u8>) {
        dst.push(self.value());
        proof {
            assert(dst@ =~= old(dst)@ + Self::spec_wire(self.deep_view()));
        }
    }

    fn length(&self) -> (r: usize) {
        1
    }
}

/// Language of the short message.
#[derive(Debug, Clone, Copy, PartialEq, Eq, Structural)]
pub enum LanguageIndicator {
    Unspecified,
    English,
    French,
    Spanish,
    German,
    Portuguese,
    /// An unrecognized value, preserved as is.
    Other(u8),
}

impl LanguageIndicator {
    /// The value decoded from an octet.
    pub open spec fn spec_from(value: u8) -> LanguageIndicator {
        if value == 0 {
            LanguageIndicator::Unspecified
        } else if value == 1 {
            LanguageIndicator::English
        } else if value == 2 {
            LanguageIndicator::French
        } else if value == 3 {
            LanguageIndicator::Spanish
        } else if value == 4 {
            LanguageIndicator::German
        } else if value == 5 {
            LanguageIndicator::Portuguese
        } else {
            LanguageIndicator::Other(value)
        }
    }

    /// The octet a value encodes to.
    pub open spec fn spec_value(self) -> u8 {
        match self {
            LanguageIndicator::Unspecified => 0,
            LanguageIndicator::English => 1,
            LanguageIndicator::French => 2,
            LanguageIndicator::Spanish => 3,
            LanguageIndicator::German => 4,
            LanguageIndicator::Portuguese => 5,
            LanguageIndicator::Other(value) => value,
        }
    }

    /// A value is canonical when its octet maps back to it; decoded
    /// values always are.
    pub open spec fn canonical(self) -> bool {
        LanguageIndicator::spec_from(self.spec_value()) == self
    }

    /// The value decoded from an octet.
    pub fn from_value(value: u8) -> (r: LanguageIndicator)
        ensures
            r == LanguageIndicator::spec_from(value),
    {
        if value == 0 {
            LanguageIndicator::Unspecified
        } else if value == 1 {
            LanguageIndicator::English
        } else if value == 2 {
            LanguageIndicator::French
        } else if value == 3 {
            LanguageIndicator::Spanish
        } else if value == 4 {
            LanguageIndicator::German
        } else if value == 5 {
            LanguageIndicator::Portuguese
        } else {
            LanguageIndicator::Other(value)
        }
    }

    /// The octet a value encodes to.
    pub fn value(self) -> (r: u8)
        ensures
            r == self.spec_value(),
    {
        match self {
            LanguageIndicator::Unspecified => 0,
            LanguageIndicator::English => 1,
            LanguageIndicator::French => 2,
            LanguageIndicator::Spanish => 3,
            LanguageIndicator::German => 4,
            LanguageIndicator::Portuguese => 5,
            LanguageIndicator::Other(value) => value,
        }
    }
}

impl View for LanguageIndicator {
    type V = LanguageIndicator;

    open spec fn view(&self) -> LanguageIndicator {
        *self
    }
}

impl DeepView for LanguageIndicator {
    type V = LanguageIndicator;

    open spec fn deep_view(&self) -> LanguageIndicator {
        *self
    }
}

impl Decode for LanguageIndicator {
    open spec fn spec_decode(src: Seq<u8>) -> Option<(LanguageIndicator, int)> {
        if src.len() < 1 {
            None
        } else {
            Some((LanguageIndicator::spec_from(src[0]), 1))
        }
    }

    open spec fn spec_decode_err(src: Seq<u8>) -> DecodeError {
        DecodeError::spec_unexpected_eof()
    }

    proof fn lemma_spec_decode_size(src: Seq<u8>) {
    }

    fn decode(src: &[u8]) -> (r: Result<(Self, usize), DecodeError>) {
        if src.len() < 1 {
            return Err(DecodeError::unexpected_eof());
        }
        Ok((LanguageIndicator::from_value(src[0]), 1))
    }
}

impl Encode for LanguageIndicator {
    open spec fn spec_wf(v: LanguageIndicator) -> bool {
        true
    }

    open spec fn spec_wire(v: LanguageIndicator) -> Seq<u8> {
        seq![v.spec_value()]
    }

    fn encode(&self, dst: &mut Vec<u8>) {
        dst.push(self.value());
        proof {
            assert(dst@ =~= old(dst)@ + Self::spec_wire(self.deep_view()));
        }
    }

    fn length(&self) -> (r: usize) {
        1
    }
}

/// Whether more messages follow in this session.
#[derive(Debug, Clone, Copy, PartialEq, Eq, Structural)]
pub enum MoreMessagesToSend {
    NoMoreMessagesToFollow,
    MoreMessagesToFollow,
    /// An unrecognized value, preserved as is.
    Other(u8),
}

impl MoreMessagesToSend {
    /// The value decoded from an octet.
    pub open spec fn spec_from(value: u8) -> MoreMessagesToSend {
        if value == 0 {
            MoreMessagesToSend::NoMoreMessagesToFollow
        } else if value == 1 {
            MoreMessagesToSend::MoreMessagesToFollow
        } else {
            MoreMessagesToSend::Other(value)
        }
    }

    /// The octet a value encodes to.
    pub open spec fn spec_value(self) -> u8 {
        match self {
            MoreMessagesToSend::NoMoreMessagesToFollow => 0,
            MoreMessagesToSend::MoreMessagesToFollow => 1,
            MoreMessagesToSend::Other(value) => value,
        }
    }

    /// A value is canonical when its octet maps back to it; decoded
    /// values always are.
    pub open spec fn canonical(self) -> bool {
        MoreMessagesToSend::spec_from(self.spec_value()) == self
    }

    /// The value decoded from an octet.
    pub fn from_value(value: u8) -> (r: MoreMessagesToSend)
        ensures
            r == MoreMessagesToSend::spec_from(value),
    {
        if value == 0 {
            MoreMessagesToSend::NoMoreMessagesToFollow
        } else if value == 1 {
            MoreMessagesToSend::MoreMessagesToFollow
        } else {
            MoreMessagesToSend::Other(value)
        }
    }

    /// The octet a value encodes to.
    pub fn value(self) -> (r: u8)
        ensures
            r == self.spec_value(),
    {
        match self {
            MoreMessagesToSend::NoMoreMessagesToFollow => 0,
            MoreMessagesToSend::MoreMessagesToFollow => 1,
            MoreMessagesToSend::Other(value) => value,
        }
    }
}

impl View for MoreMessagesToSend {
    type V = MoreMessagesToSend;

    open spec fn view(&self) -> MoreMessagesToSend {
        *self
    }
}

impl DeepView for MoreMessagesToSend {
    type V = MoreMessagesToSend;

    open spec fn deep_view(&self) -> MoreMessagesToSend {
        *self
    }
}

impl Decode for MoreMessagesToSend {
    open spec fn spec_decode(src: Seq<u8>) -> Option<(MoreMessagesToSend, int)> {
        if src.len() < 1 {
            None
        } else {
            Some((MoreMessagesToSend::spec_from(src[0]), 1))
        }
    }

    open spec fn spec_decode_err(src: Seq<u8>) -> DecodeError {
        DecodeError::spec_unexpected_eof()
    }

    proof fn lemma_spec_decode_size(src: Seq<u8>) {
    }

    fn decode(src: &[u8]) -> (r: Result<(Self, usize), DecodeError>) {
        if src.len() < 1 {
            return Err(DecodeError::unexpected_eof());
        }
        Ok((MoreMessagesToSend::from_value(src[0]), 1))
    }
}

impl Encode for MoreMessagesToSend {
    open spec fn spec_wf(v: MoreMessagesToSend) -> bool {
        true
    }

    open spec fn spec_wire(v: MoreMessagesToSend) -> Seq<u8> {
        seq![v.spec_value()]
    }

    fn encode(&self, dst: &mut Vec<u8>) {
        dst.push(self.value());
        proof {
            assert(dst@ =~= old(dst)@ + Self::spec_wire(self.deep_view()));
        }
    }

    fn length(&self) -> (r: usize) {
        1
    }
}

/// Higher-layer payload type of the message.
#[derive(Debug, Clone, Copy, PartialEq, Eq, Structural)]
pub enum PayloadType {
    Default,
    WcmpMessage,
    /// An unrecognized value, preserved as is.
    Other(u8),
}

impl PayloadType {
    /// The value decoded from an octet.
    pub open spec fn spec_from(value: u8) -> PayloadType {
        if value == 0 {
            PayloadType::Default
        } else if value == 1 {
            PayloadType::WcmpMessage
        } else {
            PayloadType::Other(value)
        }
    }

    /// The octet a value encodes to.
    pub open spec fn spec_value(self) -> u8 {
        match self {
            PayloadType::Default => 0,
            PayloadType::WcmpMessage => 1,
            PayloadType::Other(value) => value,
        }
    }

    /// A value is canonical when its octet maps back to it; decoded
    /// values always are.
    pub open spec fn canonical(self) -> bool {
        PayloadType::spec_from(self.spec_value()) == self
    }

    /// The value decoded from an octet.
    pub fn from_value(value: u8) -> (r: PayloadType)
        ensures
            r == PayloadType::spec_from(value),
    {
        if value == 0 {
            PayloadType::Default
        } else if value == 1 {
            PayloadType::WcmpMessage
        } else {
            PayloadType::Other(value)
        }
    }

    /// The octet a value encodes to.
    pub fn value(self) -> (r: u8)
        ensures
            r == self.spec_value(),
    {
        match self {
            PayloadType::Default => 0,
            PayloadType::WcmpMessage => 1,
            PayloadType::Other(value) => value,
        }
    }
}

impl View for PayloadType {
    type V = PayloadType;

    open spec fn view(&self) -> PayloadType {
        *self
    }
}

impl DeepView for PayloadType {
    type V = PayloadType;

    open spec fn deep_view(&self) -> PayloadType {
        *self
    }
}

impl Decode for PayloadType {
    open spec fn spec_decode(src: Seq<u8>) -> Option<(PayloadType, int)> {
        if src.len() < 1 {
            None
        } else {
            Some((PayloadType::spec_from(src[0]), 1))
        }
    }

    open spec fn spec_decode_err(src: Seq<u8>) -> DecodeError {
        DecodeError::spec_unexpected_eof()
    }

    proof fn lemma_spec_decode_size(src: Seq<u8>) {
    }

    fn decode(src: &[u8]) -> (r: Result<(Self, usize), DecodeError>) {
        if src.len() < 1 {
            return Err(DecodeError::unexpected_eof());
        }
        Ok((PayloadType::from_value(src[0]), 1))
    }
}

impl Encode for PayloadType {
    open spec fn spec_wf(v: PayloadType) -> bool {
        true
    }

    open spec fn spec_wire(v: PayloadType) -> Seq<u8> {
        seq![v.spec_value()]
    }

    fn encode(&self, dst: &mut Vec<u8>) {
        dst.push(self.value());
        proof {
            assert(dst@ =~= old(dst)@ + Self::spec_wire(self.deep_view()));
        }
    }

    fn length(&self) -> (r: usize) {
        1
    }
}

/// Privacy level of the message.
#[derive(Debug, Clone, Copy, PartialEq, Eq, Structural)]
pub enum PrivacyIndicator {
    NotRestricted,
    Restricted,
    Confidential,
    Secret,
    /// An unrecognized value, preserved as is.
    Other(u8),
}

impl PrivacyIndicator {
    /// The value decoded from an octet.
    pub open spec fn spec_from(value: u8) -> PrivacyIndicator {
        if value == 0 {
            PrivacyIndicator::NotRestricted
        } else if value == 1 {
            PrivacyIndicator::Restricted
        } else if value == 2 {
            PrivacyIndicator::Confidential
        } else if value == 3 {
            PrivacyIndicator::Secret
        } else {
            PrivacyIndicator::Other(value)
        }
    }

    /// The octet a value encodes to.
    pub open spec fn spec_value(self) -> u8 {
        match self {
            PrivacyIndicator::NotRestricted => 0,
            PrivacyIndicator::Restricted => 1,
            PrivacyIndicator::Confidential => 2,
            PrivacyIndicator::Secret => 3,
            PrivacyIndicator::Other(value) => value,
        }
    }

    /// A value is canonical when its octet maps back to it; decoded
    /// values always are.
    pub open spec fn canonical(self) -> bool {
        PrivacyIndicator::spec_from(self.spec_value()) == self
    }

    /// The value decoded from an octet.
    pub fn from_value(value: u8) -> (r: PrivacyIndicator)
        ensures
            r == PrivacyIndicator::spec_from(value),
    {
        if value == 0 {
            PrivacyIndicator::NotRestricted
        } else if value == 1 {
            PrivacyIndicator::Restricted
        } else if value == 2 {
            PrivacyIndicator::Confidential
        } else if value == 3 {
            PrivacyIndicator::Secret
        } else {
            PrivacyIndicator::Other(value)
        }
    }

    /// The octet a value encodes to.
    pub fn value(self) -> (r: u8)
        ensures
            r == self.spec_value(),
    {
        match self {
            PrivacyIndicator::NotRestricted => 0,
            PrivacyIndicator::Restricted => 1,
            PrivacyIndicator::Confidential => 2,
            PrivacyIndicator::Secret => 3,
            PrivacyIndicator::Other(value) => value,
        }
    }
}

impl View for PrivacyIndicator {
    type V = PrivacyIndicator;

    open spec fn view(&self) -> PrivacyIndicator {
        *self
    }
}

impl DeepView for PrivacyIndicator {
    type V = PrivacyIndicator;

    open spec fn deep_view(&self) -> PrivacyIndicator {
        *self
    }
}

impl Decode for PrivacyIndicator {
    open spec fn spec_decode(src: Seq<u8>) -> Option<(PrivacyIndicator, int)> {
        if src.len() < 1 {
            None
        } else {
            Some((PrivacyIndicator::spec_from(src[0]), 1))
        }
    }

    open spec fn spec_decode_err(src: Seq<u8>) -> DecodeError {
        DecodeError::spec_unexpected_eof()
    }

    proof fn lemma_spec_decode_size(src: Seq<u8>) {
    }

    fn decode(src: &[u8]) -> (r: Result<(Self, usize), DecodeError>) {
        if src.len() < 1 {
            return Err(DecodeError::unexpected_eof());
        }
        Ok((PrivacyIndicator::from_value(src[0]), 1))
    }
}

impl Encode for PrivacyIndicator {
    open spec fn spec_wf(v: PrivacyIndicator) -> bool {
        true
    }

    open spec fn spec_wire(v: PrivacyIndicator) -> Seq<u8> {
        seq![v.spec_value()]
    }

    fn encode(&self, dst: &mut Vec<u8>) {
        dst.push(self.value());
        proof {
            assert(dst@ =~= old(dst)@ + Self::spec_wire(self.deep_view()));
        }
    }

    fn length(&self) -> (r: usize) {
        1
    }
}

/// Whether delivery pending flag is set on delivery failure.
#[derive(Debug, Clone, Copy, PartialEq, Eq, Structural)]
pub enum SetDpf {
    NotRequested,
    Requested,
    /// An unrecognized value, preserved as is.
    Other(u8),
}

impl SetDpf {
    /// The value decoded from an octet.
    pub open spec fn spec_from(value: u8) -> SetDpf {
        if value == 0 {
            SetDpf::NotRequested
        } else if value == 1 {
            SetDpf::Requested
        } else {
            SetDpf::Other(value)
        }
    }

    /// The octet a value encodes to.
    pub open spec fn spec_value(self) -> u8 {
        match self {
            SetDpf::NotRequested => 0,
            SetDpf::Requested => 1,
            SetDpf::Other(value) => value,
        }
    }

    /// A value is canonical when its octet maps back to it; decoded
    /// values always are.
    pub open spec fn canonical(self) -> bool {
        SetDpf::spec_from(self.spec_value()) == self
    }

    /// The value decoded from an octet.
    pub fn from_value(value: u8) -> (r: SetDpf)
        ensures
            r == SetDpf::spec_from(value),
    {
        if value == 0 {
            SetDpf::NotRequested
        } else if value == 1 {
            SetDpf::Requested
        } else {
            SetDpf::Other(value)
        }
    }

    /// The octet a value encodes to.
    pub fn value(self) -> (r: u8)
        ensures
            r == self.spec_value(),
    {
        match self {
            SetDpf::NotRequested => 0,
            SetDpf::Requested => 1,
            SetDpf::Other(value) => value,
        }
    }
}

impl View for SetDpf {
    type V = SetDpf;

    open spec fn view(&self) -> SetDpf {
        *self
    }
}

impl DeepView for SetDpf {
    type V = SetDpf;

    open spec fn deep_view(&self) -> SetDpf {
        *self
    }
}

impl Decode for SetDpf {
    open spec fn spec_decode(src: Seq<u8>) -> Option<(SetDpf, int)> {
        if src.len() < 1 {
            None
        } else {
            Some((SetDpf::spec_from(src[0]), 1))
        }
    }

    open spec fn spec_decode_err(src: Seq<u8>) -> DecodeError {
        DecodeError::spec_unexpected_eof()
    }

    proof fn lemma_spec_decode_size(src: Seq<u8>) {
    }

    fn decode(src: &[u8]) -> (r: Result<(Self, usize), DecodeError>) {
        if src.len() < 1 {
            return Err(DecodeError::unexpected_eof());
        }
        Ok((SetDpf::from_value(src[0]), 1))
    }
}

impl Encode for SetDpf {
    open spec fn spec_wf(v: SetDpf) -> bool {
        true
    }

    open spec fn spec_wire(v: SetDpf) -> Seq<u8> {
        seq![v.spec_value()]
    }

    fn encode(&self, dst: &mut Vec<u8>) {
        dst.push(self.value());
        proof {
            assert(dst@ =~= old(dst)@ + Self::spec_wire(self.deep_view()));
        }
    }

    fn length(&self) -> (r: usize) {
        1
    }
}

/// USSD service operation.
#[derive(Debug, Clone, Copy, PartialEq, Eq, Structural)]
pub enum UssdServiceOp {
    PssdIndication,
    PssrIndication,
    UssrRequest,
    UssnRequest,
    PssdResponse,
    PssrResponse,
    UssrConfirm,
    UssnConfirm,
    /// An unrecognized value, preserved as is.
    Other(u8),
}

impl UssdServiceOp {
    /// The value decoded from an octet.
    pub open spec fn spec_from(value: u8) -> UssdServiceOp {
        if value == 0 {
            UssdServiceOp::PssdIndication
        } else if value == 1 {
            UssdServiceOp::PssrIndication
        } else if value == 2 {
            UssdServiceOp::UssrRequest
        } else if value == 3 {
            UssdServiceOp::UssnRequest
        } else if value == 16 {
            UssdServiceOp::PssdResponse
        } else if value == 17 {
            UssdServiceOp::PssrResponse
        } else if value == 18 {
            UssdServiceOp::UssrConfirm
        } else if value == 19 {
            UssdServiceOp::UssnConfirm
        } else {
            UssdServiceOp::Other(value)
        }
    }

    /// The octet a value encodes to.
    pub open spec fn spec_value(self) -> u8 {
        match self {
            UssdServiceOp::PssdIndication => 0,
            UssdServiceOp::PssrIndication => 1,
            UssdServiceOp::UssrRequest => 2,
            UssdServiceOp::UssnRequest => 3,
            UssdServiceOp::PssdResponse => 16,
            UssdServiceOp::PssrResponse => 17,
            UssdServiceOp::UssrConfirm => 18,
            UssdServiceOp::UssnConfirm => 19,
            UssdServiceOp::Other(value) => value,
        }
    }

    /// A value is canonical when its octet maps back to it; decoded
    /// values always are.
    pub open spec fn canonical(self) -> bool {
        UssdServiceOp::spec_from(self.spec_value()) == self
    }

    /// The value decoded from an octet.
    pub fn from_value(value: u8) -> (r: UssdServiceOp)
        ensures
            r == UssdServiceOp::spec_from(value),
    {
        if value == 0 {
            UssdServiceOp::PssdIndication
        } else if value == 1 {
            UssdServiceOp::PssrIndication
        } else if value == 2 {
            UssdServiceOp::UssrRequest
        } else if value == 3 {
            UssdServiceOp::UssnRequest
        } else if value == 16 {
            UssdServiceOp::PssdResponse
        } else if value == 17 {
            UssdServiceOp::PssrResponse
        } else if value == 18 {
            UssdServiceOp::UssrConfirm
        } else if value == 19 {
            UssdServiceOp::UssnConfirm
        } else {
            UssdServiceOp::Other(value)
        }
    }

    /// The octet a value encodes to.
    pub fn value(self) -> (r: u8)
        ensures
            r == self.spec_value(),
    {
        match self {
            UssdServiceOp::PssdIndication => 0,
            UssdServiceOp::PssrIndication => 1,
            UssdServiceOp::UssrRequest => 2,
            UssdServiceOp::UssnRequest => 3,
            UssdServiceOp::PssdResponse => 16,
            UssdServiceOp::PssrResponse => 17,
            UssdServiceOp::UssrConfirm => 18,
            UssdServiceOp::UssnConfirm => 19,
            UssdServiceOp::Other(value) => value,
        }
    }
}

impl View for UssdServiceOp {
    type V = UssdServiceOp;

    open spec fn view(&self) -> UssdServiceOp {
        *self
    }
}

impl DeepView for UssdServiceOp {
    type V = UssdServiceOp;

    open spec fn deep_view(&self) -> UssdServiceOp {
        *self
    }
}

impl Decode for UssdServiceOp {
    open spec fn spec_decode(src: Seq<u8>) -> Option<(UssdServiceOp, int)> {
        if src.len() < 1 {
            None
        } else {
            Some((UssdServiceOp::spec_from(src[0]), 1))
        }
    }

    open spec fn spec_decode_err(src: Seq<u8>) -> DecodeError {
        DecodeError::spec_unexpected_eof()
    }

    proof fn lemma_spec_decode_size(src: Seq<u8>) {
    }

    fn decode(src: &[u8]) -> (r: Result<(Self, usize), DecodeError>) {
        if src.len() < 1 {
            return Err(DecodeError::unexpected_eof());
        }
        Ok((UssdServiceOp::from_value(src[0]), 1))
    }
}

impl Encode for UssdServiceOp {
    open spec fn spec_wf(v: UssdServiceOp) -> bool {
        true
    }

    open spec fn spec_wire(v: UssdServiceOp) -> Seq<u8> {
        seq![v.spec_value()]
    }

    fn encode(&self, dst: &mut Vec<u8>) {
        dst.push(self.value());
        proof {
            assert(dst@ =~= old(dst)@ + Self::spec_wire(self.deep_view()));
        }
    }

    fn length(&self) -> (r: usize) {
        1
    }
}

/// State of a queried message.
#[derive(Debug, Clone, Copy, PartialEq, Eq, Structural)]
pub enum MessageState {
    Scheduled,
    Enroute,
    Delivered,
    Expired,
    Deleted,
    Undeliverable,
    Accepted,
    Unknown,
    Rejected,
    Skipped,
    /// An unrecognized value, preserved as is.
    Other(u8),
}

impl MessageState {
    /// The value decoded from an octet.
    pub open spec fn spec_from(value: u8) -> MessageState {
        if value == 1 {
            MessageState::Scheduled
        } else if value == 2 {
            MessageState::Enroute
        } else if value == 3 {
            MessageState::Delivered
        } else if value == 4 {
            MessageState::Expired
        } else if value == 5 {
            MessageState::Deleted
        } else if value == 6 {
            MessageState::Undeliverable
        } else if value == 7 {
            MessageState::Accepted
        } else if value == 8 {
            MessageState::Unknown
        } else if value == 9 {
            MessageState::Rejected
        } else if value == 10 {
            MessageState::Skipped
        } else {
            MessageState::Other(value)
        }
    }

    /// The octet a value encodes to.
    pub open spec fn spec_value(self) -> u8 {
        match self {
            MessageState::Scheduled => 1,
            MessageState::Enroute => 2,
            MessageState::Delivered => 3,
            MessageState::Expired => 4,
            MessageState::Deleted => 5,
            MessageState::Undeliverable => 6,
            MessageState::Accepted => 7,
            MessageState::Unknown => 8,
            MessageState::Rejected => 9,
            MessageState::Skipped => 10,
            MessageState::Other(value) => value,
        }
    }

    /// A value is canonical when its octet maps back to it; decoded
    /// values always are.
    pub open spec fn canonical(self) -> bool {
        MessageState::spec_from(self.spec_value()) == self
    }

    /// The value decoded from an octet.
    pub fn from_value(value: u8) -> (r: MessageState)
        ensures
            r == MessageState::spec_from(value),
    {
        if value == 1 {
            MessageState::Scheduled
        } else if value == 2 {
            MessageState::Enroute
        } else if value == 3 {
            MessageState::Delivered
        } else if value == 4 {
            MessageState::Expired
        } else if value == 5 {
            MessageState::Deleted
        } else if value == 6 {
            MessageState::Undeliverable
        } else if value == 7 {
            MessageState::Accepted
        } else if value == 8 {
            MessageState::Unknown
        } else if value == 9 {
            MessageState::Rejected
        } else if value == 10 {
            MessageState::Skipped
        } else {
            MessageState::Other(value)
        }
    }

    /// The octet a value encodes to.
    pub fn value(self) -> (r: u8)
        ensures
            r == self.spec_value(),
    {
        match self {
            MessageState::Scheduled => 1,
            MessageState::Enroute => 2,
            MessageState::Delivered => 3,
            MessageState::Expired => 4,
            MessageState::Deleted => 5,
            MessageState::Undeliverable => 6,
            MessageState::Accepted => 7,
            MessageState::Unknown => 8,
            MessageState::Rejected => 9,
            MessageState::Skipped => 10,
            MessageState::Other(value) => value,
        }
    }
}

impl View for MessageState {
    type V = MessageState;

    open spec fn view(&self) -> MessageState {
        *self
    }
}

impl DeepView for MessageState {
    type V = MessageState;

    open spec fn deep_view(&self) -> MessageState {
        *self
    }
}

impl Decode for MessageState {
    open spec fn spec_decode(src: Seq<u8>) -> Option<(MessageState, int)> {
        if src.len() < 1 {
            None
        } else {
            Some((MessageState::spec_from(src[0]), 1))
        }
    }

    open spec fn spec_decode_err(src: Seq<u8>) -> DecodeError {
        DecodeError::spec_unexpected_eof()
    }

    proof fn lemma_spec_decode_size(src: Seq<u8>) {
    }

    fn decode(src: &[u8]) -> (r: Result<(Self, usize), DecodeError>) {
        if src.len() < 1 {
            return Err(DecodeError::unexpected_eof());
        }
        Ok((MessageState::from_value(src[0]), 1))
    }
}

impl Encode for MessageState {
    open spec fn spec_wf(v: MessageState) -> bool {
        true
    }

    open spec fn spec_wire(v: MessageState) -> Seq<u8> {
        seq![v.spec_value()]
    }

    fn encode(&self, dst: &mut Vec<u8>) {
        dst.push(self.value());
        proof {
            assert(dst@ =~= old(dst)@ + Self::spec_wire(self.deep_view()));
        }
    }

    fn length(&self) -> (r: usize) {
        1
    }
}


/// SMPP protocol version spoken by a binding peer.
#[derive(Debug, Clone, Copy, PartialEq, Eq, Structural)]
pub enum InterfaceVersion {
    /// Version 3.3 or earlier, carrying the raw version octet.
    Smpp3_3OrEarlier(u8),
    /// Version 3.4.
    Smpp3_4,
    /// Version 5.0.
    Smpp5_0,
    /// An unrecognized value, preserved as is.
    Other(u8),
}

impl InterfaceVersion {
    /// The value decoded from an octet.
    pub open spec fn spec_from(value: u8) -> InterfaceVersion {
        if value == 0x34 {
            InterfaceVersion::Smpp3_4
        } else if value == 0x50 {
            InterfaceVersion::Smpp5_0
        } else if value <= 0x33 {
            InterfaceVersion::Smpp3_3OrEarlier(value)
        } else {
            InterfaceVersion::Other(value)
        }
    }

    /// The octet a value encodes to.
    pub open spec fn spec_value(self) -> u8 {
        match self {
            InterfaceVersion::Smpp3_3OrEarlier(value) => value,
            InterfaceVersion::Smpp3_4 => 0x34,
            InterfaceVersion::Smpp5_0 => 0x50,
            InterfaceVersion::Other(value) => value,
        }
    }

    /// A value is canonical when its octet maps back to it; decoded
    /// values always are.
    pub open spec fn canonical(self) -> bool {
        InterfaceVersion::spec_from(self.spec_value()) == self
    }

    /// The value decoded from an octet.
    pub fn from_value(value: u8) -> (r: InterfaceVersion)
        ensures
            r == InterfaceVersion::spec_from(value),
    {
        if value == 0x34 {
            InterfaceVersion::Smpp3_4
        } else if value == 0x50 {
            InterfaceVersion::Smpp5_0
        } else if value <= 0x33 {
            InterfaceVersion::Smpp3_3OrEarlier(value)
        } else {
            InterfaceVersion::Other(value)
        }
    }

    /// The octet a value encodes to.
    pub fn value(self) -> (r: u8)
        ensures
            r == self.spec_value(),
    {
        match self {
            InterfaceVersion::Smpp3_3OrEarlier(value) => value,
            InterfaceVersion::Smpp3_4 => 0x34,
            InterfaceVersion::Smpp5_0 => 0x50,
            InterfaceVersion::Other(value) => value,
        }
    }
}

impl View for InterfaceVersion {
    type V = InterfaceVersion;

    open spec fn view(&self) -> InterfaceVersion {
        *self
    }
}

impl DeepView for InterfaceVersion {
    type V = InterfaceVersion;

    open spec fn deep_view(&self) -> InterfaceVersion {
        *self
    }
}

impl Decode for InterfaceVersion {
    open spec fn spec_decode(src: Seq<u8>) -> Option<(InterfaceVersion, int)> {
        if src.len() < 1 {
            None
        } else {
            Some((InterfaceVersion::spec_from(src[0]), 1))
        }
    }

    open spec fn spec_decode_err(src: Seq<u8>) -> DecodeError {
        DecodeError::spec_unexpected_eof()
    }

    proof fn lemma_spec_decode_size(src: Seq<u8>) {
    }

    fn decode(src: &[u8]) -> (r: Result<(Self, usize), DecodeError>) {
        if src.len() < 1 {
            return Err(DecodeError::unexpected_eof());
        }
        Ok((InterfaceVersion::from_value(src[0]), 1))
    }
}

impl Encode for InterfaceVersion {
    open spec fn spec_wf(v: InterfaceVersion) -> bool {
        true
    }

    open spec fn spec_wire(v: InterfaceVersion) -> Seq<u8> {
        seq![v.spec_value()]
    }

    fn encode(&self, dst: &mut Vec<u8>) {
        dst.push(self.value());
        proof {
            assert(dst@ =~= old(dst)@ + Self::spec_wire(self.deep_view()));
        }
    }

    fn length(&self) -> (r: usize) {
        1
    }
}

/// The `esm_class` octet: messaging mode in bits 0 and 1, message type
/// in bits 2 and 3, ANSI-41 specifics in bits 4 and 5, GSM network
/// features in bits 6 and 7. The packing is bit-exact: the four fields
/// partition the octet.
#[derive(Debug, Clone, Copy, PartialEq, Eq, Structural)]
pub struct EsmClass {
    pub messaging_mode: MessagingMode,
    pub message_type: MessageType,
    pub ansi41_specific: Ansi41Specific,
    pub gsm_features: GsmFeatures,
}

impl EsmClass {
    /// Creates an [`EsmClass`] from its four sub-fields.
    pub fn new(
        messaging_mode: MessagingMode,
        message_type: MessageType,
        ansi41_specific: Ansi41Specific,
        gsm_features: GsmFeatures,
    ) -> (r: EsmClass)
        ensures
            r == (EsmClass { messaging_mode, message_type, ansi41_specific, gsm_features }),
    {
        EsmClass { messaging_mode, message_type, ansi41_specific, gsm_features }
    }

    /// The value decoded from an octet: each sub-field reads its own
    /// bits.
    pub open spec fn spec_from(value: u8) -> EsmClass {
        EsmClass {
            messaging_mode: MessagingMode::spec_from(value & 0b0000_0011),
            message_type: MessageType::spec_from(value & 0b0000_1100),
            ansi41_specific: Ansi41Specific::spec_from(value & 0b0011_0000),
            gsm_features: GsmFeatures::spec_from(value & 0b1100_0000),
        }
    }

    /// The octet a value encodes to: the bitwise or of the sub-fields.
    pub open spec fn spec_value(self) -> u8 {
        self.messaging_mode.spec_value() | self.message_type.spec_value()
            | self.ansi41_specific.spec_value() | self.gsm_features.spec_value()
    }

    /// A value is canonical when its octet maps back to it; decoded
    /// values always are.
    pub open spec fn canonical(self) -> bool {
        EsmClass::spec_from(self.spec_value()) == self
    }

    /// The value decoded from an octet.
    pub fn from_value(value: u8) -> (r: EsmClass)
        ensures
            r == EsmClass::spec_from(value),
    {
        EsmClass {
            messaging_mode: MessagingMode::from_value(value & 0b0000_0011),
            message_type: MessageType::from_value(value & 0b0000_1100),
            ansi41_specific: Ansi41Specific::from_value(value & 0b0011_0000),
            gsm_features: GsmFeatures::from_value(value & 0b1100_0000),
        }
    }

    /// The octet a value encodes to.
    pub fn value(self) -> (r: u8)
        ensures
            r == self.spec_value(),
    {
        self.messaging_mode.value() | self.message_type.value() | self.ansi41_specific.value()
            | self.gsm_features.value()
    }
}

impl Default for EsmClass {
    /// The all-zero octet: default mode, default type, GSM features not
    /// selected.
    fn default() -> (r: Self)
        ensures
            r == (EsmClass {
                messaging_mode: MessagingMode::Default,
                message_type: MessageType::Default,
                ansi41_specific: Ansi41Specific::Other(0u8),
                gsm_features: GsmFeatures::NotSelected,
            }),
    {
        EsmClass {
            messaging_mode: MessagingMode::Default,
            message_type: MessageType::Default,
            ansi41_specific: Ansi41Specific::Other(0),
            gsm_features: GsmFeatures::NotSelected,
        }
    }
}

/// Reading an octet into an [`EsmClass`] and packing it again yields
/// the same octet: the four bit fields partition all eight bits, and
/// each sub-field preserves unrecognized bit patterns in `Other`.
pub proof fn lemma_esm_class_bit_exact(value: u8)
    ensures
        EsmClass::spec_from(value).spec_value() == value,
        EsmClass::spec_from(value).canonical(),
{
    let mode = value & 0b0000_0011;
    let mtype = value & 0b0000_1100;
    let ansi = value & 0b0011_0000;
    let gsm = value & 0b1100_0000;
    assert((value & 0b0000_0011) | (value & 0b0000_1100) | (value & 0b0011_0000) | (value
        & 0b1100_0000) == value) by (bit_vector);
    assert(MessagingMode::spec_from(mode).spec_value() == mode) by {
        assert(mode == 0 || mode == 1 || mode == 2 || mode == 3) by (bit_vector)
            requires
                mode == value & 0b0000_0011,
        ;
    }
    assert(MessageType::spec_from(mtype).spec_value() == mtype) by {
        assert(mtype == 0 || mtype == 4 || mtype == 8 || mtype == 12) by (bit_vector)
            requires
                mtype == value & 0b0000_1100,
        ;
    }
    assert(Ansi41Specific::spec_from(ansi).spec_value() == ansi) by {
        assert(ansi == 0 || ansi == 0x10 || ansi == 0x20 || ansi == 0x30) by (bit_vector)
            requires
                ansi == value & 0b0011_0000,
        ;
    }
    assert(GsmFeatures::spec_from(gsm).spec_value() == gsm) by {
        assert(gsm == 0 || gsm == 0x40 || gsm == 0x80 || gsm == 0xC0) by (bit_vector)
            requires
                gsm == value & 0b1100_0000,
        ;
    }
    let packed = EsmClass::spec_from(value).spec_value();
    assert(packed == mode | mtype | ansi | gsm);
    assert((packed & 0b0000_0011) == mode && (packed & 0b0000_1100) == mtype && (packed
        & 0b0011_0000) == ansi && (packed & 0b1100_0000) == gsm) by (bit_vector)
        requires
            packed == mode | mtype | ansi | gsm,
            mode == value & 0b0000_0011,
            mtype == value & 0b0000_1100,
            ansi == value & 0b0011_0000,
            gsm == value & 0b1100_0000,
    ;
}

impl View for EsmClass {
    type V = EsmClass;

    open spec fn view(&self) -> EsmClass {
        *self
    }
}

impl DeepView for EsmClass {
    type V = EsmClass;

    open spec fn deep_view(&self) -> EsmClass {
        *self
    }
}

impl Decode for EsmClass {
    open spec fn spec_decode(src: Seq<u8>) -> Option<(EsmClass, int)> {
        if src.len() < 1 {
            None
        } else {
            Some((EsmClass::spec_from(src[0]), 1))
        }
    }

    open spec fn spec_decode_err(src: Seq<u8>) -> DecodeError {
        DecodeError::spec_unexpected_eof()
    }

    proof fn lemma_spec_decode_size(src: Seq<u8>) {
    }

    fn decode(src: &[u8]) -> (r: Result<(Self, usize), DecodeError>) {
        if src.len() < 1 {
            return Err(DecodeError::unexpected_eof());
        }
        Ok((EsmClass::from_value(src[0]), 1))
    }
}

impl Encode for EsmClass {
    open spec fn spec_wf(v: EsmClass) -> bool {
        true
    }

    open spec fn spec_wire(v: EsmClass) -> Seq<u8> {
        seq![v.spec_value()]
    }

    fn encode(&self, dst: &mut Vec<u8>) {
        dst.push(self.value());
        proof {
            assert(dst@ =~= old(dst)@ + Self::spec_wire(self.deep_view()));
        }
    }

    fn length(&self) -> (r: usize) {
        1
    }
}

/// The `registered_delivery` octet: Message Centre delivery receipt in
/// bits 0 and 1, SME originated acknowledgement in bits 2 and 3,
/// intermediate notification in bit 4, and the reserved bits 5 to 7
/// preserved verbatim in `other`. The packing is bit-exact.
#[derive(Debug, Clone, Copy, PartialEq, Eq, Structural)]
pub struct RegisteredDelivery {
    pub mc_delivery_receipt: MCDeliveryReceipt,
    pub sme_originated_acknowledgement: SmeOriginatedAcknowledgement,
    pub intermediate_notification: IntermediateNotification,
    pub other: u8,
}

impl RegisteredDelivery {
    /// Creates a [`RegisteredDelivery`] from its sub-fields.
    pub fn new(
        mc_delivery_receipt: MCDeliveryReceipt,
        sme_originated_acknowledgement: SmeOriginatedAcknowledgement,
        intermediate_notification: IntermediateNotification,
        other: u8,
    ) -> (r: RegisteredDelivery)
        ensures
            r == (RegisteredDelivery {
                mc_delivery_receipt,
                sme_originated_acknowledgement,
                intermediate_notification,
                other,
            }),
    {
        RegisteredDelivery {
            mc_delivery_receipt,
            sme_originated_acknowledgement,
            intermediate_notification,
            other,
        }
    }

    /// A [`RegisteredDelivery`] requesting a delivery receipt on
    /// success or failure, and nothing else.
    pub fn request_all() -> (r: RegisteredDelivery)
        ensures
            r == (RegisteredDelivery {
                mc_delivery_receipt: MCDeliveryReceipt::McDeliveryReceiptRequestedWhereFinalDeliveryOutcomeIsSuccessOrFailure,
                sme_originated_acknowledgement: SmeOriginatedAcknowledgement::NoRecipientSmeAcknowledgmentRequested,
                intermediate_notification: IntermediateNotification::NoIntermediaryNotificationRequested,
                other: 0u8,
            }),
    {
        RegisteredDelivery {
            mc_delivery_receipt: MCDeliveryReceipt::McDeliveryReceiptRequestedWhereFinalDeliveryOutcomeIsSuccessOrFailure,
            sme_originated_acknowledgement: SmeOriginatedAcknowledgement::NoRecipientSmeAcknowledgmentRequested,
            intermediate_notification: IntermediateNotification::NoIntermediaryNotificationRequested,
            other: 0,
        }
    }

    /// The value decoded from an octet: each sub-field reads its own
    /// bits.
    pub open spec fn spec_from(value: u8) -> RegisteredDelivery {
        RegisteredDelivery {
            mc_delivery_receipt: MCDeliveryReceipt::spec_from(value & 0b0000_0011),
            sme_originated_acknowledgement: SmeOriginatedAcknowledgement::spec_from(
                value & 0b0000_1100,
            ),
            intermediate_notification: IntermediateNotification::spec_from(value & 0b0001_0000),
            other: value & 0b1110_0000,
        }
    }

    /// The octet a value encodes to: the bitwise or of the sub-fields.
    pub open spec fn spec_value(self) -> u8 {
        self.mc_delivery_receipt.spec_value() | self.sme_originated_acknowledgement.spec_value()
            | self.intermediate_notification.spec_value() | self.other
    }

    /// A value is canonical when its octet maps back to it; decoded
    /// values always are.
    pub open spec fn canonical(self) -> bool {
        RegisteredDelivery::spec_from(self.spec_value()) == self
    }

    /// The value decoded from an octet.
    pub fn from_value(value: u8) -> (r: RegisteredDelivery)
        ensures
            r == RegisteredDelivery::spec_from(value),
    {
        RegisteredDelivery {
            mc_delivery_receipt: MCDeliveryReceipt::from_value(value & 0b0000_0011),
            sme_originated_acknowledgement: SmeOriginatedAcknowledgement::from_value(
                value & 0b0000_1100,
            ),
            intermediate_notification: IntermediateNotification::from_value(value & 0b0001_0000),
            other: value & 0b1110_0000,
        }
    }

    /// The octet a value encodes to.
    pub fn value(self) -> (r: u8)
        ensures
            r == self.spec_value(),
    {
        self.mc_delivery_receipt.value() | self.sme_originated_acknowledgement.value()
            | self.intermediate_notification.value() | self.other
    }
}

impl Default for RegisteredDelivery {
    /// The all-zero octet: nothing requested.
    fn default() -> (r: Self)
        ensures
            r == (RegisteredDelivery {
                mc_delivery_receipt: MCDeliveryReceipt::NoMcDeliveryReceiptRequested,
                sme_originated_acknowledgement: SmeOriginatedAcknowledgement::NoRecipientSmeAcknowledgmentRequested,
                intermediate_notification: IntermediateNotification::NoIntermediaryNotificationRequested,
                other: 0u8,
            }),
    {
        RegisteredDelivery {
            mc_delivery_receipt: MCDeliveryReceipt::NoMcDeliveryReceiptRequested,
            sme_originated_acknowledgement: SmeOriginatedAcknowledgement::NoRecipientSmeAcknowledgmentRequested,
            intermediate_notification: IntermediateNotification::NoIntermediaryNotificationRequested,
            other: 0,
        }
    }
}

/// Reading an octet into a [`RegisteredDelivery`] and packing it again
/// yields the same octet: the bit fields partition all eight bits.
pub proof fn lemma_registered_delivery_bit_exact(value: u8)
    ensures
        RegisteredDelivery::spec_from(value).spec_value() == value,
        RegisteredDelivery::spec_from(value).canonical(),
{
    let mc = value & 0b0000_0011;
    let sme = value & 0b0000_1100;
    let inter = value & 0b0001_0000;
    let other = value & 0b1110_0000;
    assert((value & 0b0000_0011) | (value & 0b0000_1100) | (value & 0b0001_0000) | (value
        & 0b1110_0000) == value) by (bit_vector);
    assert(MCDeliveryReceipt::spec_from(mc).spec_value() == mc) by {
        assert(mc == 0 || mc == 1 || mc == 2 || mc == 3) by (bit_vector)
            requires
                mc == value & 0b0000_0011,
        ;
    }
    assert(SmeOriginatedAcknowledgement::spec_from(sme).spec_value() == sme) by {
        assert(sme == 0 || sme == 4 || sme == 8 || sme == 12) by (bit_vector)
            requires
                sme == value & 0b0000_1100,
        ;
    }
    assert(IntermediateNotification::spec_from(inter).spec_value() == inter) by {
        assert(inter == 0 || inter == 16) by (bit_vector)
            requires
                inter == value & 0b0001_0000,
        ;
    }
    let packed = RegisteredDelivery::spec_from(value).spec_value();
    assert(packed == mc | sme | inter | other);
    assert((packed & 0b0000_0011) == mc && (packed & 0b0000_1100) == sme && (packed & 0b0001_0000)
        == inter && (packed & 0b1110_0000) == other) by (bit_vector)
        requires
            packed == mc | sme | inter | other,
            mc == value & 0b0000_0011,
            sme == value & 0b0000_1100,
            inter == value & 0b0001_0000,
            other == value & 0b1110_0000,
    ;
}

impl View for RegisteredDelivery {
    type V = RegisteredDelivery;

    open spec fn view(&self) -> RegisteredDelivery {
        *self
    }
}

impl DeepView for RegisteredDelivery {
    type V = RegisteredDelivery;

    open spec fn deep_view(&self) -> RegisteredDelivery {
        *self
    }
}

impl Decode for RegisteredDelivery {
    open spec fn spec_decode(src: Seq<u8>) -> Option<(RegisteredDelivery, int)> {
        if src.len() < 1 {
            None
        } else {
            Some((RegisteredDelivery::spec_from(src[0]), 1))
        }
    }

    open spec fn spec_decode_err(src: Seq<u8>) -> DecodeError {
        DecodeError::spec_unexpected_eof()
    }

    proof fn lemma_spec_decode_size(src: Seq<u8>) {
    }

    fn decode(src: &[u8]) -> (r: Result<(Self, usize), DecodeError>) {
        if src.len() < 1 {
            return Err(DecodeError::unexpected_eof());
        }
        Ok((RegisteredDelivery::from_value(src[0]), 1))
    }
}

impl Encode for RegisteredDelivery {
    open spec fn spec_wf(v: RegisteredDelivery) -> bool {
        true
    }

    open spec fn spec_wire(v: RegisteredDelivery) -> Seq<u8> {
        seq![v.spec_value()]
    }

    fn encode(&self, dst: &mut Vec<u8>) {
        dst.push(self.value());
        proof {
            assert(dst@ =~= old(dst)@ + Self::spec_wire(self.deep_view()));
        }
    }

    fn length(&self) -> (r: usize) {
        1
    }
}

} // verus!
