//! Client-side building blocks for SMPP 5.0 (Short Message Peer-to-Peer),
//! the wire protocol used to exchange SMS between an External Short Message
//! Entity and a Message Centre.
//!
//! The crate provides the codec for SMPP Protocol Data Units — size-bounded
//! string types with strict encoding invariants, value enumerations with
//! `Other` catch-all variants, tag-length-value optional parameters, PDU
//! bodies and the 16-byte command envelope — together with a length-prefixed
//! frame decoder and the pure request/response bookkeeping of a multiplexed
//! client. Every encoder and decoder carries a contract relating it to a
//! specification-level wire function, and the round-trip laws
//! (`decode` after `encode` is the identity, and `length` agrees with the
//! encoded size) are proved from those contracts.

use vstd::prelude::*;

pub mod client;
pub mod codec;
pub mod command;
pub mod decode;
pub mod encoder;
pub mod fallback;
pub mod encode;
pub mod pdus;
pub mod primitives;
pub mod tlvs;
pub mod types;
pub mod values;

verus! {

} // verus!
