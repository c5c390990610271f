//! NUL-terminated ASCII strings that are either empty or of one fixed
//! length.

use vstd::prelude::*;
use vstd::string::StringSliceAdditionalSpecFns;
use vstd::slice::{slice_subrange, slice_to_vec};

use crate::decode::{COctetStringDecodeError, Decode, DecodeError};
use crate::encode::Encode;
use crate::types::{
    all_ascii, check_all_ascii, find_nul, has_nul_before, lemma_find_nul_complete,
    lemma_find_nul_none_complete, lemma_find_nul_some, no_nul, try_str_from_utf8,
};

verus! {

/// Errors that can occur when constructing an
/// [`EmptyOrFullCOctetString`].
#[derive(Debug, Clone, Copy, PartialEq, Eq, Structural)]
pub enum Error {
    /// Fewer bytes than the fixed length were supplied.
    TooFewBytes { actual: usize },
    /// More bytes than the fixed length were supplied.
    TooManyBytes { actual: usize, max: usize },
    /// The final byte is not a NULL octet.
    NotNullTerminated,
    /// A NULL octet sits before the final byte.
    NullByteFound,
    /// A byte is outside the ASCII range.
    NotAscii,
}

/// A NUL-terminated ASCII string that is either empty — a single NULL
/// octet — or exactly `N` bytes long, terminator included. Fields such
/// as `schedule_delivery_time` use this shape: an absent value is NULL
/// and a present value has one fixed layout.
#[derive(Debug)]
pub struct EmptyOrFullCOctetString<const N: usize> {
    bytes: Vec<u8>,
}

/// The well-formedness every [`EmptyOrFullCOctetString`] value
/// satisfies: a lone NULL octet, or exactly `n` ASCII bytes whose only
/// NULL octet is the final one.
pub open spec fn empty_or_full_wf(v: Seq<u8>, n: int) -> bool {
    ||| (v.len() == 1 && v[0] == 0)
    ||| (v.len() == n && v[v.len() - 1] == 0 && no_nul(v.take(v.len() - 1)) && all_ascii(v))
}

impl<const N: usize> View for EmptyOrFullCOctetString<N> {
    type V = Seq<u8>;

    closed spec fn view(&self) -> Seq<u8> {
        self.bytes@
    }
}

impl<const N: usize> DeepView for EmptyOrFullCOctetString<N> {
    type V = Seq<u8>;

    open spec fn deep_view(&self) -> Seq<u8> {
        self.view()
    }
}

impl<const N: usize> EmptyOrFullCOctetString<N> {
    #[verifier::type_invariant]
    closed spec fn type_inv(self) -> bool {
        empty_or_full_wf(self.bytes@, N as int)
    }

    /// When the checked constructors accept the given bytes.
    pub open spec fn spec_new_ok(bytes: Seq<u8>) -> bool {
        empty_or_full_wf(bytes, N as int)
    }

    /// The error the checked constructors report for rejected bytes, in
    /// the order the checks are made.
    pub open spec fn spec_new_err(bytes: Seq<u8>) -> Error {
        if bytes.len() == 0 {
            Error::TooFewBytes { actual: 0 }
        } else if bytes.len() == 1 {
            Error::NotNullTerminated
        } else if bytes.len() < N as int {
            Error::TooFewBytes { actual: bytes.len() as usize }
        } else if bytes.len() > N as int {
            Error::TooManyBytes { actual: bytes.len() as usize, max: N }
        } else if bytes[bytes.len() - 1] != 0 {
            Error::NotNullTerminated
        } else if !no_nul(bytes.take(bytes.len() - 1)) {
            Error::NullByteFound
        } else {
            Error::NotAscii
        }
    }

    /// Creates a new [`EmptyOrFullCOctetString`] from a sequence of
    /// bytes including the null terminator.
    ///
    /// Equivalent to [`EmptyOrFullCOctetString::from_slice`].
    pub fn new(bytes: &[u8]) -> (r: Result<Self, Error>)
        requires
            N >= 1,
        ensures
            match r {
                Ok(s) => Self::spec_new_ok(bytes@) && s@ == bytes@,
                Err(e) => !Self::spec_new_ok(bytes@) && e == Self::spec_new_err(bytes@),
            },
    {
        Self::from_slice(bytes)
    }

    /// Creates a new empty [`EmptyOrFullCOctetString`]: a single NULL
    /// octet.
    ///
    /// Equivalent to [`EmptyOrFullCOctetString::empty`].
    pub fn null() -> (r: Self)
        requires
            N >= 1,
        ensures
            r@ == seq![0u8],
    {
        Self::empty()
    }

    /// Creates a new empty [`EmptyOrFullCOctetString`]: a single NULL
    /// octet.
    pub fn empty() -> (r: Self)
        requires
            N >= 1,
        ensures
            r@ == seq![0u8],
    {
        let mut bytes = Vec::new();
        bytes.push(0u8);
        proof {
            assert(bytes@ =~= seq![0u8]);
        }
        EmptyOrFullCOctetString { bytes }
    }

    /// Returns the number of bytes contained in the
    /// [`EmptyOrFullCOctetString`], null terminator included.
    ///
    /// Also publishes the invariant every [`EmptyOrFullCOctetString`]
    /// satisfies, however it was constructed: a lone NULL octet, or
    /// exactly `N` ASCII bytes whose only NULL octet is the final one.
    pub fn len(&self) -> (r: usize)
        ensures
            r == self@.len(),
            empty_or_full_wf(self@, N as int),
    {
        proof {
            use_type_invariant(self);
        }
        self.bytes.len()
    }

    /// Checks if the [`EmptyOrFullCOctetString`] is empty: a single NULL
    /// octet.
    pub fn is_empty(&self) -> (r: bool)
        ensures
            r == (self@.len() == 1),
    {
        self.bytes.len() == 1
    }

    /// Creates a new [`EmptyOrFullCOctetString`] from a byte slice
    /// including the null terminator, checking every invariant.
    pub fn from_slice(bytes: &[u8]) -> (r: Result<Self, Error>)
        requires
            N >= 1,
        ensures
            match r {
                Ok(s) => Self::spec_new_ok(bytes@) && s@ == bytes@,
                Err(e) => !Self::spec_new_ok(bytes@) && e == Self::spec_new_err(bytes@),
            },
    {
        Self::from_vec(slice_to_vec(bytes))
    }

    /// Creates a new [`EmptyOrFullCOctetString`] from a byte vector
    /// including the null terminator, checking every invariant.
    pub fn from_vec(bytes: Vec<u8>) -> (r: Result<Self, Error>)
        requires
            N >= 1,
        ensures
            match r {
                Ok(s) => Self::spec_new_ok(bytes@) && s@ == bytes@,
                Err(e) => !Self::spec_new_ok(bytes@) && e == Self::spec_new_err(bytes@),
            },
    {
        if bytes.len() == 0 {
            return Err(Error::TooFewBytes { actual: 0 });
        }
        if bytes.len() == 1 {
            if bytes[0] != 0 {
                return Err(Error::NotNullTerminated);
            }
            return Ok(EmptyOrFullCOctetString { bytes });
        }
        if bytes.len() < N {
            return Err(Error::TooFewBytes { actual: bytes.len() });
        }
        if bytes.len() > N {
            return Err(Error::TooManyBytes { actual: bytes.len(), max: N });
        }
        if bytes[bytes.len() - 1] != 0 {
            return Err(Error::NotNullTerminated);
        }
        if has_nul_before(bytes.as_slice(), bytes.len() - 1) {
            return Err(Error::NullByteFound);
        }
        if !check_all_ascii(bytes.as_slice()) {
            return Err(Error::NotAscii);
        }
        Ok(EmptyOrFullCOctetString { bytes })
    }

    /// Creates a new [`EmptyOrFullCOctetString`] from a string,
    /// appending the null terminator, checking every invariant.
    pub fn from_string(string: String) -> (r: Result<Self, Error>)
        requires
            N >= 1,
        ensures
            match r {
                Ok(s) => Self::spec_new_ok(vstd::utf8::encode_utf8(string@).push(0u8)) && s@
                    == vstd::utf8::encode_utf8(string@).push(0u8),
                Err(e) => !Self::spec_new_ok(vstd::utf8::encode_utf8(string@).push(0u8)) && e
                    == Self::spec_new_err(vstd::utf8::encode_utf8(string@).push(0u8)),
            },
    {
        let mut bytes = slice_to_vec(string.as_str().as_bytes());
        bytes.push(0);
        Self::from_vec(bytes)
    }

    /// Converts the [`EmptyOrFullCOctetString`] into a byte vector
    /// including the null terminator.
    pub fn into_vec(self) -> (r: Vec<u8>)
        ensures
            r@ == self@,
    {
        self.bytes
    }

    /// Interprets the [`EmptyOrFullCOctetString`] as a string slice
    /// without the null terminator.
    pub fn as_str(&self) -> (r: &str)
        requires
            N >= 1,
        ensures
            r.spec_bytes() == self@.take(self@.len() - 1),
    {
        proof {
            use_type_invariant(self);
        }
        let content = slice_subrange(self.bytes.as_slice(), 0, self.bytes.len() - 1);
        match try_str_from_utf8(content) {
            Some(s) => s,
            None => {
                proof {
                    assert(all_ascii(content@)) by {
                        assert(forall|i: int|
                            0 <= i < content@.len() ==> content@[i] == self.bytes@[i]);
                    }
                }
                ""
            },
        }
    }
}


impl<const N: usize> Clone for EmptyOrFullCOctetString<N> {
    /// Clones the backing bytes: the copy views the same sequence.
    fn clone(&self) -> (r: Self)
        ensures
            r@ == self@,
    {
        proof {
            use_type_invariant(self);
        }
        let bytes = slice_to_vec(self.bytes.as_slice());
        EmptyOrFullCOctetString { bytes }
    }
}

impl<const N: usize> Decode for EmptyOrFullCOctetString<N> {
    open spec fn spec_decode(src: Seq<u8>) -> Option<(Seq<u8>, int)> {
        match find_nul(src, N as int) {
            Some(i) => {
                if 1 < i + 1 < N as int {
                    None
                } else if all_ascii(src.take(i + 1)) {
                    Some((src.take(i + 1), i + 1))
                } else {
                    None
                }
            },
            None => None,
        }
    }

    open spec fn spec_decode_err(src: Seq<u8>) -> DecodeError {
        match find_nul(src, N as int) {
            Some(i) => {
                if 1 < i + 1 < N as int {
                    DecodeError::spec_c_octet_string(
                        COctetStringDecodeError::TooFewBytes { actual: (i + 1) as usize, min: N },
                    )
                } else {
                    DecodeError::spec_c_octet_string(COctetStringDecodeError::NotAscii)
                }
            },
            None => {
                if src.len() < N as int {
                    DecodeError::spec_unexpected_eof()
                } else {
                    DecodeError::spec_c_octet_string(COctetStringDecodeError::NotNullTerminated)
                }
            },
        }
    }

    proof fn lemma_spec_decode_size(src: Seq<u8>) {
        match find_nul(src, N as int) {
            None => {},
            Some(i) => {
                lemma_find_nul_some(src, N as int, i);
            },
        }
    }

    fn decode(src: &[u8]) -> (r: Result<(Self, usize), DecodeError>) {
        let mut i: usize = 0;
        while i < N
            invariant
                i <= N,
                i <= src@.len(),
                no_nul(src@.take(i as int)),
            decreases N - i,
        {
            if i >= src.len() {
                proof {
                    assert forall|j: int| 0 <= j < N as int && j < src@.len() implies src@[j]
                        != 0 by {
                        assert(src@.take(i as int)[j] == src@[j]);
                    }
                    lemma_find_nul_none_complete(src@, N as int);
                }
                return Err(DecodeError::unexpected_eof());
            }
            if src[i] == 0 {
                proof {
                    lemma_find_nul_complete(src@, N as int, i as int);
                }
                if i + 1 > 1 && i + 1 < N {
                    return Err(
                        DecodeError::c_octet_string_decode_error(
                            COctetStringDecodeError::TooFewBytes { actual: i + 1, min: N },
                        ),
                    );
                }
                let taken = slice_subrange(src, 0, i + 1);
                if !check_all_ascii(taken) {
                    return Err(
                        DecodeError::c_octet_string_decode_error(
                            COctetStringDecodeError::NotAscii,
                        ),
                    );
                }
                proof {
                    assert(taken@.take(i as int) =~= src@.take(i as int));
                    assert(taken@[taken@.len() - 1] == 0);
                }
                return Ok((EmptyOrFullCOctetString { bytes: slice_to_vec(taken) }, i + 1));
            }
            proof {
                assert(src@.take(i + 1) =~= src@.take(i as int).push(src@[i as int]));
            }
            i += 1;
        }
        proof {
            assert forall|j: int| 0 <= j < N as int && j < src@.len() implies src@[j] != 0 by {
                assert(src@.take(i as int)[j] == src@[j]);
            }
            lemma_find_nul_none_complete(src@, N as int);
        }
        Err(DecodeError::c_octet_string_decode_error(COctetStringDecodeError::NotNullTerminated))
    }
}

impl<const N: usize> Encode for EmptyOrFullCOctetString<N> {
    open spec fn spec_wf(v: Seq<u8>) -> bool {
        empty_or_full_wf(v, N as int)
    }

    open spec fn spec_wire(v: Seq<u8>) -> Seq<u8> {
        v
    }

    fn encode(&self, dst: &mut Vec<u8>) {
        proof {
            use_type_invariant(self);
        }
        dst.extend_from_slice(self.bytes.as_slice());
    }

    fn length(&self) -> (r: usize) {
        proof {
            use_type_invariant(self);
        }
        self.bytes.len()
    }
}

/// Decoding the wire bytes of a well-formed [`EmptyOrFullCOctetString`]
/// — whatever bytes follow them — yields exactly that string, consuming
/// exactly its length.
pub proof fn lemma_empty_or_full_wire_round_trip<const N: usize>(v: Seq<u8>, rest: Seq<u8>)
    requires
        empty_or_full_wf(v, N as int),
        N >= 1,
    ensures
        EmptyOrFullCOctetString::<N>::spec_decode(v + rest) == Some((v, v.len() as int)),
{
    let src = v + rest;
    if v.len() == 1 && v[0] == 0 {
        lemma_find_nul_complete(src, N as int, 0);
        assert(src.take(1) =~= v);
        assert(all_ascii(src.take(1)));
    } else {
        assert(no_nul(src.take(v.len() - 1))) by {
            assert(src.take(v.len() - 1) =~= v.take(v.len() - 1));
        }
        lemma_find_nul_complete(src, N as int, v.len() - 1);
        assert(src.take(v.len() as int) =~= v);
    }
}

} // verus!
