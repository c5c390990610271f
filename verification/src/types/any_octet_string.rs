//! Octet strings of arbitrary length.

use vstd::prelude::*;
use vstd::string::StringSliceAdditionalSpecFns;
use vstd::slice::{slice_subrange, slice_to_vec};

use crate::decode::{DecodeError, DecodeWithLength};
use crate::encode::Encode;
use crate::types::{all_ascii, try_str_from_utf8};

verus! {

/// A sequence of octets of arbitrary length, with no termination
/// requirement: the enclosing field dictates how many bytes it spans.
#[derive(Debug)]
pub struct AnyOctetString {
    bytes: Vec<u8>,
}

impl View for AnyOctetString {
    type V = Seq<u8>;

    closed spec fn view(&self) -> Seq<u8> {
        self.bytes@
    }
}

impl DeepView for AnyOctetString {
    type V = Seq<u8>;

    open spec fn deep_view(&self) -> Seq<u8> {
        self.view()
    }
}

impl AnyOctetString {
    /// Creates a new [`AnyOctetString`] from a sequence of bytes.
    ///
    /// Equivalent to [`AnyOctetString::from_slice`].
    pub fn new(bytes: &[u8]) -> (r: Self)
        ensures
            r@ == bytes@,
    {
        Self::from_slice(bytes)
    }

    /// Creates a new empty [`AnyOctetString`].
    ///
    /// Equivalent to [`AnyOctetString::empty`].
    pub fn null() -> (r: Self)
        ensures
            r@ == Seq::<u8>::empty(),
    {
        Self::empty()
    }

    /// Creates a new empty [`AnyOctetString`].
    pub fn empty() -> (r: Self)
        ensures
            r@ == Seq::<u8>::empty(),
    {
        AnyOctetString { bytes: Vec::new() }
    }

    /// Returns the number of bytes contained in the [`AnyOctetString`].
    pub fn len(&self) -> (r: usize)
        ensures
            r == self@.len(),
    {
        self.bytes.len()
    }

    /// Checks if the [`AnyOctetString`] is empty: it contains no octets.
    pub fn is_empty(&self) -> (r: bool)
        ensures
            r == (self@.len() == 0),
    {
        self.bytes.is_empty()
    }

    /// Creates a new [`AnyOctetString`] from a byte slice.
    pub fn from_slice(bytes: &[u8]) -> (r: Self)
        ensures
            r@ == bytes@,
    {
        AnyOctetString { bytes: slice_to_vec(bytes) }
    }

    /// Creates a new [`AnyOctetString`] from a byte vector.
    pub fn from_vec(bytes: Vec<u8>) -> (r: Self)
        ensures
            r@ == bytes@,
    {
        AnyOctetString { bytes }
    }

    /// Creates a new [`AnyOctetString`] holding the UTF-8 bytes of a
    /// string.
    pub fn from_string(string: String) -> (r: Self)
        ensures
            r@ == vstd::utf8::encode_utf8(string@),
    {
        AnyOctetString { bytes: slice_to_vec(string.as_str().as_bytes()) }
    }

    /// Borrows the contained bytes.
    pub fn bytes(&self) -> (r: &Vec<u8>)
        ensures
            r@ == self@,
    {
        &self.bytes
    }

    /// Converts the [`AnyOctetString`] into a byte vector.
    pub fn into_vec(self) -> (r: Vec<u8>)
        ensures
            r@ == self@,
    {
        self.bytes
    }

    /// Interprets the [`AnyOctetString`] as a string slice, when its
    /// bytes are valid UTF-8. ASCII-only contents always convert.
    pub fn to_str(&self) -> (r: Option<&str>)
        ensures
            all_ascii(self@) ==> r is Some,
            r matches Some(s) ==> s.spec_bytes() == self@,
    {
        try_str_from_utf8(self.bytes.as_slice())
    }
}

impl Clone for AnyOctetString {
    /// Clones the backing bytes: the copy views the same sequence.
    fn clone(&self) -> (r: Self)
        ensures
            r@ == self@,
    {
        AnyOctetString { bytes: slice_to_vec(self.bytes.as_slice()) }
    }
}

impl DecodeWithLength for AnyOctetString {
    open spec fn spec_decode_with_length(src: Seq<u8>, length: int) -> Option<(Seq<u8>, int)> {
        if length < 0 || length > src.len() {
            None
        } else {
            Some((src.take(length), length))
        }
    }

    open spec fn spec_decode_with_length_err(src: Seq<u8>, length: int) -> DecodeError {
        DecodeError::spec_unexpected_eof()
    }

    proof fn lemma_spec_decode_with_length_size(src: Seq<u8>, length: int) {
    }

    fn decode(src: &[u8], length: usize) -> (r: Result<(Self, usize), DecodeError>) {
        if src.len() < length {
            return Err(DecodeError::unexpected_eof());
        }
        let taken = slice_subrange(src, 0, length);
        Ok((AnyOctetString { bytes: slice_to_vec(taken) }, length))
    }
}

impl Encode for AnyOctetString {
    open spec fn spec_wf(v: Seq<u8>) -> bool {
        true
    }

    open spec fn spec_wire(v: Seq<u8>) -> Seq<u8> {
        v
    }

    fn encode(&self, dst: &mut Vec<u8>) {
        dst.extend_from_slice(self.bytes.as_slice());
    }

    fn length(&self) -> (r: usize) {
        self.bytes.len()
    }
}

} // verus!
