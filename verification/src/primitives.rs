//! Codec for the fixed-width integers of SMPP.
//!
//! An unsigned integer value of 1, 2 or 4 octets is always encoded in
//! Most Significant Byte first order (big-endian).

use vstd::prelude::*;

use crate::decode::{Decode, DecodeError};
use crate::encode::Encode;

verus! {

impl Decode for u8 {
    open spec fn spec_decode(src: Seq<u8>) -> Option<(u8, int)> {
        if src.len() < 1 {
            None
        } else {
            Some((src[0], 1))
        }
    }

    open spec fn spec_decode_err(src: Seq<u8>) -> DecodeError {
        DecodeError::spec_unexpected_eof()
    }

    proof fn lemma_spec_decode_size(src: Seq<u8>) {
    }

    fn decode(src: &[u8]) -> (r: Result<(Self, usize), DecodeError>) {
        if src.len() < 1 {
            return Err(DecodeError::unexpected_eof());
        }
        Ok((src[0], 1))
    }
}

impl Encode for u8 {
    open spec fn spec_wf(v: u8) -> bool {
        true
    }

    open spec fn spec_wire(v: u8) -> Seq<u8> {
        seq![v]
    }

    fn encode(&self, dst: &mut Vec<u8>) {
        dst.push(*self);
        proof {
            assert(dst@ =~= old(dst)@ + seq![*self]);
        }
    }

    fn length(&self) -> (r: usize) {
        1
    }
}

impl Decode for u16 {
    open spec fn spec_decode(src: Seq<u8>) -> Option<(u16, int)> {
        if src.len() < 2 {
            None
        } else {
            Some(((src[0] as u16 * 256 + src[1] as u16) as u16, 2))
        }
    }

    open spec fn spec_decode_err(src: Seq<u8>) -> DecodeError {
        DecodeError::spec_unexpected_eof()
    }

    proof fn lemma_spec_decode_size(src: Seq<u8>) {
    }

    fn decode(src: &[u8]) -> (r: Result<(Self, usize), DecodeError>) {
        if src.len() < 2 {
            return Err(DecodeError::unexpected_eof());
        }
        let value: u16 = src[0] as u16 * 256 + src[1] as u16;
        Ok((value, 2))
    }
}

impl Encode for u16 {
    open spec fn spec_wf(v: u16) -> bool {
        true
    }

    open spec fn spec_wire(v: u16) -> Seq<u8> {
        seq![(v / 256) as u8, (v % 256) as u8]
    }

    fn encode(&self, dst: &mut Vec<u8>) {
        let v = *self;
        dst.push((v / 256) as u8);
        dst.push((v % 256) as u8);
        proof {
            assert(dst@ =~= old(dst)@ + Self::spec_wire(v));
        }
    }

    fn length(&self) -> (r: usize) {
        2
    }
}

impl Decode for u32 {
    open spec fn spec_decode(src: Seq<u8>) -> Option<(u32, int)> {
        if src.len() < 4 {
            None
        } else {
            Some(
                (
                    (src[0] as u32 * 0x1000000 + src[1] as u32 * 0x10000 + src[2] as u32 * 0x100
                        + src[3] as u32) as u32,
                    4,
                ),
            )
        }
    }

    open spec fn spec_decode_err(src: Seq<u8>) -> DecodeError {
        DecodeError::spec_unexpected_eof()
    }

    proof fn lemma_spec_decode_size(src: Seq<u8>) {
    }

    fn decode(src: &[u8]) -> (r: Result<(Self, usize), DecodeError>) {
        if src.len() < 4 {
            return Err(DecodeError::unexpected_eof());
        }
        let value: u32 = src[0] as u32 * 0x1000000 + src[1] as u32 * 0x10000 + src[2] as u32 * 0x100
            + src[3] as u32;
        Ok((value, 4))
    }
}

impl Encode for u32 {
    open spec fn spec_wf(v: u32) -> bool {
        true
    }

    open spec fn spec_wire(v: u32) -> Seq<u8> {
        seq![
            (v / 0x1000000) as u8,
            ((v / 0x10000) % 256) as u8,
            ((v / 0x100) % 256) as u8,
            (v % 256) as u8,
        ]
    }

    fn encode(&self, dst: &mut Vec<u8>) {
        let v = *self;
        dst.push((v / 0x1000000) as u8);
        dst.push((v / 0x10000 % 256) as u8);
        dst.push((v / 0x100 % 256) as u8);
        dst.push((v % 256) as u8);
        proof {
            assert(dst@ =~= old(dst)@ + Self::spec_wire(v));
        }
    }

    fn length(&self) -> (r: usize) {
        4
    }
}

/// Decoding the wire bytes of a `u16` yields that `u16` back: the two
/// octets are exact base-256 digits of the value.
pub proof fn lemma_u16_wire_round_trip(v: u16, rest: Seq<u8>)
    ensures
        u16::spec_decode(u16::spec_wire(v) + rest) == Some((v, 2int)),
{
    let s = u16::spec_wire(v) + rest;
    assert(s[0] == (v / 256) as u8 && s[1] == (v % 256) as u8);
}

/// Decoding the wire bytes of a `u32` yields that `u32` back: the four
/// octets are exact base-256 digits of the value.
pub proof fn lemma_u32_wire_round_trip(v: u32, rest: Seq<u8>)
    ensures
        u32::spec_decode(u32::spec_wire(v) + rest) == Some((v, 4int)),
{
    let s = u32::spec_wire(v) + rest;
    assert(s[0] == (v / 0x1000000) as u8);
    assert(s[1] == ((v / 0x10000) % 256) as u8);
    assert(s[2] == ((v / 0x100) % 256) as u8);
    assert(s[3] == (v % 256) as u8);
    assert(v as int == (v as int / 0x1000000) * 0x1000000 + ((v as int / 0x10000) % 256) * 0x10000
        + ((v as int / 0x100) % 256) * 0x100 + (v as int % 256)) by (nonlinear_arith);
}

/// Decoding the wire bytes of a `u8` yields that `u8` back.
pub proof fn lemma_u8_wire_round_trip(v: u8, rest: Seq<u8>)
    ensures
        u8::spec_decode(u8::spec_wire(v) + rest) == Some((v, 1int)),
{
    let s = u8::spec_wire(v) + rest;
    assert(s[0] == v);
}

} // verus!
