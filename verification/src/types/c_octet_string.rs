//! NUL-terminated ASCII strings.

use vstd::prelude::*;
use vstd::string::StringSliceAdditionalSpecFns;
use vstd::slice::{slice_subrange, slice_to_vec};

use crate::decode::{COctetStringDecodeError, Decode, DecodeError};
use crate::encode::Encode;
use crate::types::{
    all_ascii, check_all_ascii, find_nul, has_nul_before, lemma_find_nul_complete,
    lemma_find_nul_none_complete, lemma_find_nul_some, no_nul, try_str_from_utf8,
};

verus! {

/// Errors that can occur when constructing a [`COctetString`].
#[derive(Debug, Clone, Copy, PartialEq, Eq, Structural)]
pub enum Error {
    /// Fewer bytes were supplied than the minimum length.
    TooFewBytes { actual: usize, min: usize },
    /// More bytes were supplied than the maximum length.
    TooManyBytes { actual: usize, max: usize },
    /// The final byte is not a NULL octet.
    NotNullTerminated,
    /// A NULL octet sits before the final byte.
    NullByteFound,
    /// A byte is outside the ASCII range.
    NotAscii,
}

/// A sequence of ASCII characters terminated by a NULL octet.
///
/// `MIN` and `MAX` bound the length in bytes, terminator included; `MIN`
/// must be at least 1 and no greater than `MAX`. Only the final byte may
/// be NULL, and every byte is ASCII. The empty string is the single NULL
/// octet.
#[derive(Debug)]
pub struct COctetString<const MIN: usize, const MAX: usize> {
    bytes: Vec<u8>,
}

/// The well-formedness every [`COctetString`] value satisfies: at least
/// the terminator, at most `max` bytes, NULL exactly at the end, ASCII
/// throughout.
pub open spec fn c_octet_str_wf(v: Seq<u8>, max: int) -> bool {
    &&& 1 <= v.len() <= max
    &&& v[v.len() - 1] == 0
    &&& no_nul(v.take(v.len() - 1))
    &&& all_ascii(v)
}

impl<const MIN: usize, const MAX: usize> View for COctetString<MIN, MAX> {
    type V = Seq<u8>;

    closed spec fn view(&self) -> Seq<u8> {
        self.bytes@
    }
}

impl<const MIN: usize, const MAX: usize> DeepView for COctetString<MIN, MAX> {
    type V = Seq<u8>;

    open spec fn deep_view(&self) -> Seq<u8> {
        self.view()
    }
}

impl<const MIN: usize, const MAX: usize> COctetString<MIN, MAX> {
    #[verifier::type_invariant]
    closed spec fn type_inv(self) -> bool {
        c_octet_str_wf(self.bytes@, MAX as int)
    }

    /// When the checked constructors accept the given bytes.
    pub open spec fn spec_new_ok(bytes: Seq<u8>) -> bool {
        &&& MIN as int <= bytes.len() <= MAX as int
        &&& bytes[bytes.len() - 1] == 0
        &&& no_nul(bytes.take(bytes.len() - 1))
        &&& all_ascii(bytes)
    }

    /// The error the checked constructors report for rejected bytes, in
    /// the order the checks are made.
    pub open spec fn spec_new_err(bytes: Seq<u8>) -> Error {
        if bytes.len() < MIN as int {
            Error::TooFewBytes { actual: bytes.len() as usize, min: MIN }
        } else if bytes.len() > MAX as int {
            Error::TooManyBytes { actual: bytes.len() as usize, max: MAX }
        } else if bytes[bytes.len() - 1] != 0 {
            Error::NotNullTerminated
        } else if !no_nul(bytes.take(bytes.len() - 1)) {
            Error::NullByteFound
        } else {
            Error::NotAscii
        }
    }

    /// Creates a new [`COctetString`] from a sequence of bytes including
    /// the null terminator.
    ///
    /// Equivalent to [`COctetString::from_slice`].
    pub fn new(bytes: &[u8]) -> (r: Result<Self, Error>)
        requires
            1 <= MIN <= MAX,
        ensures
            match r {
                Ok(s) => Self::spec_new_ok(bytes@) && s@ == bytes@,
                Err(e) => !Self::spec_new_ok(bytes@) && e == Self::spec_new_err(bytes@),
            },
    {
        Self::from_slice(bytes)
    }

    /// Creates a new empty [`COctetString`]: just the null terminator,
    /// padded to `MIN` bytes.
    ///
    /// Equivalent to [`COctetString::empty`].
    pub fn null() -> (r: Self)
        requires
            1 <= MIN <= MAX,
        ensures
            r@ == Seq::new((MIN - 1) as nat, |i: int| 1u8).push(0u8),
    {
        Self::empty()
    }

    /// Creates a new empty [`COctetString`]: `MIN - 1` filler octets
    /// followed by the null terminator.
    pub fn empty() -> (r: Self)
        requires
            1 <= MIN <= MAX,
        ensures
            r@ == Seq::new((MIN - 1) as nat, |i: int| 1u8).push(0u8),
    {
        let mut bytes = vec![1u8; MIN - 1];
        bytes.push(0);
        proof {
            let v = bytes@;
            assert(v.len() == MIN as int);
            assert(no_nul(v.take(v.len() - 1))) by {
                assert(forall|i: int| 0 <= i < MIN - 1 ==> v[i] == 1u8);
            }
        }
        COctetString { bytes }
    }

    /// Returns the number of bytes contained in the [`COctetString`],
    /// null terminator included.
    ///
    /// Also publishes the invariant every [`COctetString`] satisfies,
    /// however it was constructed: at least the terminator and at most
    /// `MAX` bytes, the final byte is the only NULL octet, and every
    /// byte is ASCII.
    pub fn len(&self) -> (r: usize)
        ensures
            r == self@.len(),
            c_octet_str_wf(self@, MAX as int),
    {
        proof {
            use_type_invariant(self);
        }
        self.bytes.len()
    }

    /// Checks if the [`COctetString`] is empty: a single NULL octet.
    pub fn is_empty(&self) -> (r: bool)
        ensures
            r == (self@.len() == 1),
    {
        self.bytes.len() == 1
    }

    /// Creates a new [`COctetString`] from a byte slice including the
    /// null terminator, checking every invariant.
    pub fn from_slice(bytes: &[u8]) -> (r: Result<Self, Error>)
        requires
            1 <= MIN <= MAX,
        ensures
            match r {
                Ok(s) => Self::spec_new_ok(bytes@) && s@ == bytes@,
                Err(e) => !Self::spec_new_ok(bytes@) && e == Self::spec_new_err(bytes@),
            },
    {
        Self::from_vec(slice_to_vec(bytes))
    }

    /// Creates a new [`COctetString`] from a byte vector including the
    /// null terminator, checking every invariant.
    pub fn from_vec(bytes: Vec<u8>) -> (r: Result<Self, Error>)
        requires
            1 <= MIN <= MAX,
        ensures
            match r {
                Ok(s) => Self::spec_new_ok(bytes@) && s@ == bytes@,
                Err(e) => !Self::spec_new_ok(bytes@) && e == Self::spec_new_err(bytes@),
            },
    {
        if bytes.len() < MIN {
            return Err(Error::TooFewBytes { actual: bytes.len(), min: MIN });
        }
        if bytes.len() > MAX {
            return Err(Error::TooManyBytes { actual: bytes.len(), max: MAX });
        }
        if bytes[bytes.len() - 1] != 0 {
            return Err(Error::NotNullTerminated);
        }
        if has_nul_before(bytes.as_slice(), bytes.len() - 1) {
            return Err(Error::NullByteFound);
        }
        if !check_all_ascii(bytes.as_slice()) {
            return Err(Error::NotAscii);
        }
        Ok(COctetString { bytes })
    }

    /// Creates a new [`COctetString`] from a string, appending the null
    /// terminator, checking every invariant.
    pub fn from_string(string: String) -> (r: Result<Self, Error>)
        requires
            1 <= MIN <= MAX,
        ensures
            match r {
                Ok(s) => Self::spec_new_ok(vstd::utf8::encode_utf8(string@).push(0u8)) && s@
                    == vstd::utf8::encode_utf8(string@).push(0u8),
                Err(e) => !Self::spec_new_ok(vstd::utf8::encode_utf8(string@).push(0u8)) && e
                    == Self::spec_new_err(vstd::utf8::encode_utf8(string@).push(0u8)),
            },
    {
        let mut bytes = slice_to_vec(string.as_str().as_bytes());
        bytes.push(0);
        Self::from_vec(bytes)
    }

    /// Converts the [`COctetString`] into a byte vector including the
    /// null terminator.
    pub fn into_vec(self) -> (r: Vec<u8>)
        ensures
            r@ == self@,
    {
        self.bytes
    }

    /// Interprets the [`COctetString`] as a string slice without the
    /// null terminator.
    pub fn as_str(&self) -> (r: &str)
        ensures
            r.spec_bytes() == self@.take(self@.len() - 1),
    {
        proof {
            use_type_invariant(self);
        }
        let content = slice_subrange(self.bytes.as_slice(), 0, self.bytes.len() - 1);
        match try_str_from_utf8(content) {
            Some(s) => s,
            None => {
                proof {
                    assert(all_ascii(content@)) by {
                        assert(forall|i: int|
                            0 <= i < content@.len() ==> content@[i] == self.bytes@[i]);
                    }
                }
                ""
            },
        }
    }
}


impl<const MIN: usize, const MAX: usize> Clone for COctetString<MIN, MAX> {
    /// Clones the backing bytes: the copy views the same sequence.
    fn clone(&self) -> (r: Self)
        ensures
            r@ == self@,
    {
        proof {
            use_type_invariant(self);
        }
        let bytes = slice_to_vec(self.bytes.as_slice());
        COctetString { bytes }
    }
}

impl<const MIN: usize, const MAX: usize> Decode for COctetString<MIN, MAX> {
    open spec fn spec_decode(src: Seq<u8>) -> Option<(Seq<u8>, int)> {
        if src.len() < MIN as int {
            None
        } else {
            match find_nul(src, MAX as int) {
                None => None,
                Some(i) => {
                    if all_ascii(src.take(i + 1)) {
                        Some((src.take(i + 1), i + 1))
                    } else {
                        None
                    }
                },
            }
        }
    }

    open spec fn spec_decode_err(src: Seq<u8>) -> DecodeError {
        if src.len() < MIN as int {
            DecodeError::spec_c_octet_string(
                COctetStringDecodeError::TooFewBytes { actual: src.len() as usize, min: MIN },
            )
        } else if find_nul(src, MAX as int) is None {
            DecodeError::spec_c_octet_string(COctetStringDecodeError::NotNullTerminated)
        } else {
            DecodeError::spec_c_octet_string(COctetStringDecodeError::NotAscii)
        }
    }

    proof fn lemma_spec_decode_size(src: Seq<u8>) {
        if src.len() >= MIN as int {
            match find_nul(src, MAX as int) {
                None => {},
                Some(i) => {
                    lemma_find_nul_some(src, MAX as int, i);
                },
            }
        }
    }

    fn decode(src: &[u8]) -> (r: Result<(Self, usize), DecodeError>) {
        if src.len() < MIN {
            return Err(
                DecodeError::c_octet_string_decode_error(
                    COctetStringDecodeError::TooFewBytes { actual: src.len(), min: MIN },
                ),
            );
        }
        let cap: usize = if MAX < src.len() {
            MAX
        } else {
            src.len()
        };
        let mut i: usize = 0;
        while i < cap
            invariant
                i <= cap,
                cap <= src@.len(),
                cap <= MAX,
                MIN as int <= src@.len(),
                MAX as int <= src@.len() ==> cap == MAX,
                src@.len() <= MAX as int ==> cap == src@.len(),
                no_nul(src@.take(i as int)),
            decreases cap - i,
        {
            if src[i] == 0 {
                proof {
                    lemma_find_nul_complete(src@, MAX as int, i as int);
                }
                let taken = slice_subrange(src, 0, i + 1);
                if !check_all_ascii(taken) {
                    return Err(
                        DecodeError::c_octet_string_decode_error(
                            COctetStringDecodeError::NotAscii,
                        ),
                    );
                }
                proof {
                    assert(taken@.take(i as int) =~= src@.take(i as int));
                    assert(taken@[taken@.len() - 1] == 0);
                }
                return Ok((COctetString { bytes: slice_to_vec(taken) }, i + 1));
            }
            proof {
                assert(src@.take(i + 1) =~= src@.take(i as int).push(src@[i as int]));
            }
            i += 1;
        }
        proof {
            assert forall|j: int| 0 <= j < MAX as int && j < src@.len() implies src@[j] != 0 by {
                assert(src@.take(i as int)[j] == src@[j]);
            }
            lemma_find_nul_none_complete(src@, MAX as int);
        }
        Err(DecodeError::c_octet_string_decode_error(COctetStringDecodeError::NotNullTerminated))
    }
}

impl<const MIN: usize, const MAX: usize> Encode for COctetString<MIN, MAX> {
    open spec fn spec_wf(v: Seq<u8>) -> bool {
        c_octet_str_wf(v, MAX as int)
    }

    open spec fn spec_wire(v: Seq<u8>) -> Seq<u8> {
        v
    }

    fn encode(&self, dst: &mut Vec<u8>) {
        proof {
            use_type_invariant(self);
        }
        dst.extend_from_slice(self.bytes.as_slice());
    }

    fn length(&self) -> (r: usize) {
        proof {
            use_type_invariant(self);
        }
        self.bytes.len()
    }
}

/// Decoding the wire bytes of a well-formed [`COctetString`] — whatever
/// bytes follow them — yields exactly that string, consuming exactly its
/// length.
pub proof fn lemma_c_octet_string_wire_round_trip<const MIN: usize, const MAX: usize>(
    v: Seq<u8>,
    rest: Seq<u8>,
)
    requires
        c_octet_str_wf(v, MAX as int),
        MIN as int <= v.len(),
    ensures
        COctetString::<MIN, MAX>::spec_decode(v + rest) == Some((v, v.len() as int)),
{
    let src = v + rest;
    assert(no_nul(src.take(v.len() - 1))) by {
        assert(src.take(v.len() - 1) =~= v.take(v.len() - 1));
    }
    lemma_find_nul_complete(src, MAX as int, v.len() - 1);
    assert(src.take(v.len() as int) =~= v);
}

} // verus!
