//! The frame codec: a two-state machine that reads a 4-octet big-endian
//! length prefix, validates its bounds, and then consumes the remainder
//! of the PDU, with graceful "need more bytes" handling.
//!
//! Feeding any byte string to [`CommandCodec::decode`] either consumes
//! a whole command, reports a classified error, or asks for more bytes;
//! its contract has no precondition, so it can never panic. After a
//! semantic decode error the full frame's bytes have been consumed and
//! the state returns to reading a length, so the next length prefix
//! resynchronizes the stream.

use vstd::prelude::*;
use vstd::slice::{slice_subrange, slice_to_vec};

use crate::command::{Command, CommandV};
use crate::decode::{Decode, DecodeWithLength};
use crate::encode::Encode;

verus! {

/// What the decoder reads next.
#[derive(Debug, Clone, Copy, PartialEq, Eq, Structural)]
pub enum DecodeState {
    /// Reading the 4-octet command length.
    Length,
    /// Reading the rest of a command whose length is known.
    Command { command_length: usize },
}

/// An error that can occur when decoding a frame.
#[derive(Debug, Clone, Copy, PartialEq, Eq, Structural)]
pub enum DecodeError {
    /// The command inside the frame was malformed.
    Decode(crate::decode::DecodeError),
    /// The announced command length is below the 16-octet minimum.
    MinLength { actual: usize, min: usize },
    /// The announced command length exceeds the configured maximum.
    MaxLength { actual: usize, max: usize },
}

/// Codec for encoding and decoding SMPP frames: a 4-octet big-endian
/// `command_length` counting itself, then the command.
#[derive(Debug, Clone, Copy, PartialEq, Eq, Structural)]
pub struct CommandCodec {
    max_length: Option<usize>,
    state: DecodeState,
}

impl CommandCodec {
    /// Frames longer than this are rejected with
    /// [`DecodeError::MaxLength`]; `None` disables the check.
    pub closed spec fn spec_max_length(&self) -> Option<usize> {
        self.max_length
    }

    /// What the decoder reads next.
    pub closed spec fn spec_state(&self) -> DecodeState {
        self.state
    }

    #[verifier::type_invariant]
    closed spec fn type_inv(self) -> bool {
        match self.state {
            DecodeState::Command { command_length } => command_length >= 16,
            DecodeState::Length => true,
        }
    }
}

/// The mathematical value of a 4-octet big-endian length prefix.
pub open spec fn spec_prefix_value(src: Seq<u8>) -> int {
    src[0] * 0x1000000 + src[1] * 0x10000 + src[2] * 0x100 + src[3]
}

/// What one decoder step does once it is reading a command of length
/// `command_length` from `buf`: asks for more bytes, or consumes the
/// whole frame and yields the command or its decode error.
pub open spec fn spec_command_phase(
    command_length: int,
    buf: Seq<u8>,
    r: Result<Option<Command>, DecodeError>,
    state2: DecodeState,
    buf2: Seq<u8>,
) -> bool {
    let pdu_length = command_length - 4;
    if buf.len() < pdu_length {
        &&& r is Ok
        &&& r->Ok_0 is None
        &&& state2 == (DecodeState::Command { command_length: command_length as usize })
        &&& buf2 == buf
    } else {
        &&& buf2 == buf.skip(pdu_length)
        &&& state2 == DecodeState::Length
        &&& match Command::spec_decode_with_length(buf.take(pdu_length), pdu_length) {
            Some(p) => r matches Ok(Some(c)) && c.deep_view() == p.0,
            None => r == Err::<Option<Command>, DecodeError>(
                DecodeError::Decode(
                    Command::spec_decode_with_length_err(buf.take(pdu_length), pdu_length),
                ),
            ),
        }
    }
}

impl CommandCodec {
    /// Creates a new [`CommandCodec`] with a default maximum length of
    /// 8192 octets.
    pub fn new() -> (r: Self)
        ensures
            r.spec_max_length() == Some(8192usize) && r.spec_state() == DecodeState::Length,
    {
        CommandCodec { max_length: Some(8192), state: DecodeState::Length }
    }

    /// The configured maximum frame length.
    pub fn max_length(&self) -> (r: Option<usize>)
        ensures
            r == self.spec_max_length(),
    {
        self.max_length
    }

    /// Replaces the maximum frame length.
    pub fn with_max_length(self, max_length: usize) -> (r: Self)
        ensures
            r.spec_max_length() == Some(max_length),
            r.spec_state() == self.spec_state(),
    {
        proof {
            use_type_invariant(&self);
        }
        CommandCodec { max_length: Some(max_length), ..self }
    }

    /// Disables the maximum frame length check.
    pub fn without_max_length(self) -> (r: Self)
        ensures
            r.spec_max_length() == None::<usize>,
            r.spec_state() == self.spec_state(),
    {
        proof {
            use_type_invariant(&self);
        }
        CommandCodec { max_length: None, ..self }
    }

    /// Sets the decoder state to decode the command length.
    fn decode_length(&mut self)
        ensures
            final(self).spec_state() == DecodeState::Length,
            final(self).spec_max_length() == old(self).spec_max_length(),
    {
        proof {
            use_type_invariant(&*self);
        }
        self.state = DecodeState::Length;
    }

    /// Sets the decoder state to decode the rest of the command.
    fn decode_command(&mut self, command_length: usize)
        requires
            command_length >= 16,
        ensures
            final(self).spec_state() == (DecodeState::Command { command_length }),
            final(self).spec_max_length() == old(self).spec_max_length(),
    {
        proof {
            use_type_invariant(&*self);
        }
        self.state = DecodeState::Command { command_length };
    }

    /// Decodes one frame from the front of `src`, consuming what it
    /// reads.
    ///
    /// For every buffer and every decoder state, this either consumes a
    /// whole command and yields it, reports a classified error, or asks
    /// for more bytes by returning `Ok(None)` — never anything else.
    pub fn decode(&mut self, src: &mut Vec<u8>) -> (r: Result<Option<Command>, DecodeError>)
        ensures
            final(self).spec_max_length() == old(self).spec_max_length(),
            match old(self).spec_state() {
                DecodeState::Length => {
                    if old(src)@.len() < 16 {
                        &&& r is Ok
                        &&& r->Ok_0 is None
                        &&& final(self).spec_state() == old(self).spec_state()
                        &&& final(src)@ == old(src)@
                    } else {
                        let cl = spec_prefix_value(old(src)@);
                        if cl < 16 {
                            &&& r == Err::<Option<Command>, DecodeError>(
                                DecodeError::MinLength { actual: cl as usize, min: 16 },
                            )
                            &&& final(self).spec_state() == DecodeState::Length
                            &&& final(src)@ == old(src)@.skip(4)
                        } else {
                            match old(self).spec_max_length() {
                                Some(max) => {
                                    if cl > max {
                                        &&& r == Err::<Option<Command>, DecodeError>(
                                            DecodeError::MaxLength { actual: cl as usize, max },
                                        )
                                        &&& final(self).spec_state() == DecodeState::Length
                                        &&& final(src)@ == old(src)@.skip(4)
                                    } else {
                                        spec_command_phase(
                                            cl,
                                            old(src)@.skip(4),
                                            r,
                                            final(self).spec_state(),
                                            final(src)@,
                                        )
                                    }
                                },
                                None => spec_command_phase(
                                    cl,
                                    old(src)@.skip(4),
                                    r,
                                    final(self).spec_state(),
                                    final(src)@,
                                ),
                            }
                        }
                    }
                },
                DecodeState::Command { command_length } => spec_command_phase(
                    command_length as int,
                    old(src)@,
                    r,
                    final(self).spec_state(),
                    final(src)@,
                ),
            },
    {
        proof {
            use_type_invariant(&*self);
        }
        let command_length: usize;
        match self.state {
            DecodeState::Length => {
                if src.len() < 16 {
                    return Ok(None);
                }
                let (cl_raw, _) = match <u32 as Decode>::decode(src.as_slice()) {
                    Ok(p) => p,
                    Err(e) => {
                        return Err(DecodeError::Decode(e));
                    },
                };
                let cl = cl_raw as usize;
                let tail = src.split_off(4);
                *src = tail;
                if cl < 16 {
                    return Err(DecodeError::MinLength { actual: cl, min: 16 });
                }
                match self.max_length {
                    Some(max) => {
                        if cl > max {
                            return Err(DecodeError::MaxLength { actual: cl, max });
                        }
                    },
                    None => {},
                }
                self.decode_command(cl);
                command_length = cl;
            },
            DecodeState::Command { command_length: cl } => {
                command_length = cl;
            },
        }
        let pdu_length = command_length - 4;
        if src.len() < pdu_length {
            return Ok(None);
        }
        let frame = slice_to_vec(slice_subrange(src.as_slice(), 0, pdu_length));
        let tail = src.split_off(pdu_length);
        *src = tail;
        self.decode_length();
        match <Command as DecodeWithLength>::decode(frame.as_slice(), pdu_length) {
            Ok((command, _)) => Ok(Some(command)),
            Err(e) => Err(DecodeError::Decode(e)),
        }
    }

    /// Encodes a command as one frame: the 4-octet `command_length`
    /// prefix counting itself, then the command.
    pub fn encode(&mut self, command: &Command, dst: &mut Vec<u8>)
        requires
            4 + crate::command::command_wire(command.deep_view()).len() <= u32::MAX,
            old(dst)@.len() + 4 + crate::command::command_wire(command.deep_view()).len()
                <= usize::MAX,
        ensures
            final(dst)@ == old(dst)@ + u32::spec_wire(
                (4 + crate::command::command_wire(command.deep_view()).len()) as u32,
            ) + crate::command::command_wire(command.deep_view()),
    {
        let command_length = (4 + command.length()) as u32;
        command_length.encode(dst);
        command.encode(dst);
    }
}

impl Default for CommandCodec {
    /// The default codec: maximum length 8192, reading a length.
    fn default() -> (r: Self)
        ensures
            r.spec_max_length() == Some(8192usize) && r.spec_state() == DecodeState::Length,
    {
        CommandCodec::new()
    }
}

/// The frame-level round-trip law: a well-formed command, framed with
/// its 4-octet length prefix and followed by anything, is decoded back
/// exactly by a decoder in the length-reading state — one whole
/// command out, the frame consumed, the decoder ready for the next
/// length.
#[verifier::rlimit(100)]
#[verifier::spinoff_prover]
pub proof fn lemma_frame_round_trip(
    v: CommandV,
    rest: Seq<u8>,
    r: Result<Option<Command>, DecodeError>,
    state2: DecodeState,
    buf2: Seq<u8>,
)
    requires
        crate::command::command_wf(v),
        4 + crate::command::command_wire(v).len() <= u32::MAX,
        spec_command_phase(
            4 + crate::command::command_wire(v).len() as int,
            crate::command::command_wire(v) + rest,
            r,
            state2,
            buf2,
        ),
    ensures
        r matches Ok(Some(c)) && c.deep_view() == v,
        state2 == DecodeState::Length,
        buf2 == rest,
{
    let w = crate::command::command_wire(v);
    let buf = w + rest;
    let pdu_length = w.len() as int;
    crate::command::lemma_command_wire_round_trip(v, Seq::empty());
    assert(w + Seq::<u8>::empty() =~= w);
    assert(buf.take(pdu_length) =~= w);
    assert(buf.skip(pdu_length) =~= rest);
    assert(Command::spec_decode_with_length(w, pdu_length) == Some((v, pdu_length)));
}

/// A 4-octet big-endian prefix reads back the value it was written
/// from: what the frame encoder prepends, the frame decoder's length
/// phase recovers.
pub proof fn lemma_prefix_value_round_trip(value: u32, rest: Seq<u8>)
    ensures
        spec_prefix_value(u32::spec_wire(value) + rest) == value,
{
    let s = u32::spec_wire(value) + rest;
    assert(s[0] == (value / 0x1000000) as u8);
    assert(s[1] == ((value / 0x10000) % 256) as u8);
    assert(s[2] == ((value / 0x100) % 256) as u8);
    assert(s[3] == (value % 256) as u8);
    assert(value as int == (value as int / 0x1000000) * 0x1000000 + ((value as int / 0x10000)
        % 256) * 0x10000 + ((value as int / 0x100) % 256) * 0x100 + (value as int % 256))
        by (nonlinear_arith);
}

} // verus!
