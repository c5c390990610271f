//! Size-bounded octet strings.

use vstd::prelude::*;
use vstd::string::StringSliceAdditionalSpecFns;
use vstd::slice::{slice_subrange, slice_to_vec};

use crate::decode::{DecodeError, DecodeWithLength, OctetStringDecodeError};
use crate::encode::Encode;
use crate::types::{all_ascii, try_str_from_utf8};

verus! {

/// Errors that can occur when constructing an [`OctetString`].
#[derive(Debug, Clone, Copy, PartialEq, Eq, Structural)]
pub enum Error {
    /// Fewer bytes were supplied than the minimum length.
    TooFewBytes { actual: usize, min: usize },
    /// More bytes were supplied than the maximum length.
    TooManyBytes { actual: usize, max: usize },
}

/// A sequence of octets, not necessarily NUL-terminated, holding between
/// `MIN` and `MAX` bytes.
///
/// Fields of this encoding carry raw binary data; another field of the
/// enclosing PDU indicates their length, so decoding takes the length as
/// an explicit argument and never scans.
#[derive(Debug)]
pub struct OctetString<const MIN: usize, const MAX: usize> {
    bytes: Vec<u8>,
}

impl<const MIN: usize, const MAX: usize> View for OctetString<MIN, MAX> {
    type V = Seq<u8>;

    closed spec fn view(&self) -> Seq<u8> {
        self.bytes@
    }
}

impl<const MIN: usize, const MAX: usize> DeepView for OctetString<MIN, MAX> {
    type V = Seq<u8>;

    open spec fn deep_view(&self) -> Seq<u8> {
        self.view()
    }
}

/// The length bounds every [`OctetString`] value satisfies.
pub open spec fn octet_string_wf(v: Seq<u8>, min: int, max: int) -> bool {
    min <= v.len() <= max
}

impl<const MIN: usize, const MAX: usize> OctetString<MIN, MAX> {
    #[verifier::type_invariant]
    closed spec fn type_inv(self) -> bool {
        octet_string_wf(self.bytes@, MIN as int, MAX as int)
    }

    /// Creates a new [`OctetString`] from a sequence of bytes.
    ///
    /// Equivalent to [`OctetString::from_slice`].
    pub fn new(bytes: &[u8]) -> (r: Result<Self, Error>)
        ensures
            match r {
                Ok(s) => Self::spec_new_ok(bytes@) && s@ == bytes@,
                Err(e) => !Self::spec_new_ok(bytes@) && e == Self::spec_new_err(bytes@),
            },
    {
        Self::from_slice(bytes)
    }

    /// When the checked constructors accept the given bytes.
    pub open spec fn spec_new_ok(bytes: Seq<u8>) -> bool {
        MIN as int <= bytes.len() <= MAX as int
    }

    /// The error the checked constructors report for rejected bytes.
    pub open spec fn spec_new_err(bytes: Seq<u8>) -> Error {
        if bytes.len() > MAX as int {
            Error::TooManyBytes { actual: bytes.len() as usize, max: MAX }
        } else {
            Error::TooFewBytes { actual: bytes.len() as usize, min: MIN }
        }
    }

    /// Creates a new empty [`OctetString`]: `MIN` NULL octets.
    ///
    /// Equivalent to [`OctetString::empty`].
    pub fn null() -> (r: Self)
        requires
            MIN <= MAX,
        ensures
            r@ == Seq::<u8>::new(MIN as nat, |i: int| 0u8),
    {
        Self::empty()
    }

    /// Creates a new empty [`OctetString`]: `MIN` NULL octets.
    pub fn empty() -> (r: Self)
        requires
            MIN <= MAX,
        ensures
            r@ == Seq::<u8>::new(MIN as nat, |i: int| 0u8),
    {
        let bytes = vec![0u8; MIN];
        proof {
            assert(bytes@ =~= Seq::<u8>::new(MIN as nat, |i: int| 0u8));
        }
        OctetString { bytes }
    }

    /// Returns the number of bytes contained in the [`OctetString`].
    ///
    /// Also publishes the invariant every [`OctetString`] satisfies,
    /// however it was constructed: it holds between `MIN` and `MAX`
    /// bytes.
    pub fn len(&self) -> (r: usize)
        ensures
            r == self@.len(),
            octet_string_wf(self@, MIN as int, MAX as int),
    {
        proof {
            use_type_invariant(self);
        }
        self.bytes.len()
    }

    /// Checks if the [`OctetString`] is empty: it contains no octets.
    pub fn is_empty(&self) -> (r: bool)
        ensures
            r == (self@.len() == 0),
    {
        self.bytes.is_empty()
    }

    /// Creates a new [`OctetString`] from a byte slice, checking the
    /// length bounds.
    pub fn from_slice(bytes: &[u8]) -> (r: Result<Self, Error>)
        ensures
            match r {
                Ok(s) => Self::spec_new_ok(bytes@) && s@ == bytes@,
                Err(e) => !Self::spec_new_ok(bytes@) && e == Self::spec_new_err(bytes@),
            },
    {
        Self::from_vec(slice_to_vec(bytes))
    }

    /// Creates a new [`OctetString`] from a byte vector, checking the
    /// length bounds.
    pub fn from_vec(bytes: Vec<u8>) -> (r: Result<Self, Error>)
        ensures
            match r {
                Ok(s) => Self::spec_new_ok(bytes@) && s@ == bytes@,
                Err(e) => !Self::spec_new_ok(bytes@) && e == Self::spec_new_err(bytes@),
            },
    {
        if bytes.len() > MAX {
            return Err(Error::TooManyBytes { actual: bytes.len(), max: MAX });
        }
        if bytes.len() < MIN {
            return Err(Error::TooFewBytes { actual: bytes.len(), min: MIN });
        }
        Ok(OctetString { bytes })
    }

    /// Creates a new [`OctetString`] from the UTF-8 bytes of a string,
    /// checking the length bounds.
    pub fn from_string(string: String) -> (r: Result<Self, Error>)
        ensures
            match r {
                Ok(s) => Self::spec_new_ok(vstd::utf8::encode_utf8(string@)) && s@
                    == vstd::utf8::encode_utf8(string@),
                Err(e) => !Self::spec_new_ok(vstd::utf8::encode_utf8(string@)) && e
                    == Self::spec_new_err(vstd::utf8::encode_utf8(string@)),
            },
    {
        Self::from_vec(slice_to_vec(string.as_str().as_bytes()))
    }

    /// Converts the [`OctetString`] into a byte vector.
    pub fn into_vec(self) -> (r: Vec<u8>)
        ensures
            r@ == self@,
    {
        self.bytes
    }

    /// Interprets the [`OctetString`] as a string slice, when its bytes
    /// are valid UTF-8. ASCII-only contents always convert.
    pub fn to_str(&self) -> (r: Option<&str>)
        ensures
            all_ascii(self@) ==> r is Some,
            r matches Some(s) ==> s.spec_bytes() == self@,
    {
        try_str_from_utf8(self.bytes.as_slice())
    }
}


impl<const MIN: usize, const MAX: usize> Clone for OctetString<MIN, MAX> {
    /// Clones the backing bytes: the copy views the same sequence.
    fn clone(&self) -> (r: Self)
        ensures
            r@ == self@,
    {
        proof {
            use_type_invariant(self);
        }
        let bytes = slice_to_vec(self.bytes.as_slice());
        OctetString { bytes }
    }
}

impl<const MIN: usize, const MAX: usize> DecodeWithLength for OctetString<MIN, MAX> {
    open spec fn spec_decode_with_length(src: Seq<u8>, length: int) -> Option<(Seq<u8>, int)> {
        if length > MAX as int || length < MIN as int || length > src.len() {
            None
        } else {
            Some((src.take(length), length))
        }
    }

    open spec fn spec_decode_with_length_err(src: Seq<u8>, length: int) -> DecodeError {
        if length > MAX as int {
            DecodeError::spec_octet_string(
                OctetStringDecodeError::TooManyBytes { actual: length as usize, max: MAX },
            )
        } else if length < MIN as int {
            DecodeError::spec_octet_string(
                OctetStringDecodeError::TooFewBytes { actual: length as usize, min: MIN },
            )
        } else {
            DecodeError::spec_unexpected_eof()
        }
    }

    proof fn lemma_spec_decode_with_length_size(src: Seq<u8>, length: int) {
    }

    fn decode(src: &[u8], length: usize) -> (r: Result<(Self, usize), DecodeError>) {
        if length > MAX {
            return Err(
                DecodeError::octet_string_decode_error(
                    OctetStringDecodeError::TooManyBytes { actual: length, max: MAX },
                ),
            );
        }
        if length < MIN {
            return Err(
                DecodeError::octet_string_decode_error(
                    OctetStringDecodeError::TooFewBytes { actual: length, min: MIN },
                ),
            );
        }
        if src.len() < length {
            return Err(DecodeError::unexpected_eof());
        }
        let taken = slice_subrange(src, 0, length);
        Ok((OctetString { bytes: slice_to_vec(taken) }, length))
    }
}

impl<const MIN: usize, const MAX: usize> Encode for OctetString<MIN, MAX> {
    open spec fn spec_wf(v: Seq<u8>) -> bool {
        octet_string_wf(v, MIN as int, MAX as int)
    }

    open spec fn spec_wire(v: Seq<u8>) -> Seq<u8> {
        v
    }

    fn encode(&self, dst: &mut Vec<u8>) {
        proof {
            use_type_invariant(self);
        }
        dst.extend_from_slice(self.bytes.as_slice());
    }

    fn length(&self) -> (r: usize) {
        proof {
            use_type_invariant(self);
        }
        self.bytes.len()
    }
}

} // verus!
