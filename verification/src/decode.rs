//! Decoding traits and decode errors.
//!
//! Every decodable type has a specification-level parser, `spec_decode`,
//! defined over the mathematical view of the input bytes. The executable
//! `decode` is proved to agree with it exactly: it succeeds if and only if
//! the specification parser succeeds, returns the parsed view and consumed
//! size, and otherwise returns exactly the error named by `spec_decode_err`.

use vstd::prelude::*;
use vstd::slice::slice_subrange;

verus! {

/// Errors produced while decoding a C-octet string from the wire.
#[derive(Debug, Clone, Copy, PartialEq, Eq, Structural)]
pub enum COctetStringDecodeError {
    /// The source did not hold the minimum number of bytes.
    TooFewBytes { actual: usize, min: usize },
    /// No NULL octet was found within the permitted window.
    NotNullTerminated,
    /// A decoded byte was outside the ASCII range.
    NotAscii,
}

/// Errors produced while decoding an octet string from the wire.
#[derive(Debug, Clone, Copy, PartialEq, Eq, Structural)]
pub enum OctetStringDecodeError {
    /// The announced length was below the minimum.
    TooFewBytes { actual: usize, min: usize },
    /// The announced length exceeded the maximum.
    TooManyBytes { actual: usize, max: usize },
}

/// The kind of a [`DecodeError`].
#[derive(Debug, Clone, Copy, PartialEq, Eq, Structural)]
pub enum DecodeErrorKind {
    /// The source ended before the value was complete.
    UnexpectedEof,
    /// A C-octet string field was malformed.
    COctetStringDecodeError(COctetStringDecodeError),
    /// An octet string field was malformed.
    OctetStringDecodeError(OctetStringDecodeError),
}

/// An error that can occur when decoding SMPP values.
#[derive(Debug, Clone, Copy, PartialEq, Eq, Structural)]
pub struct DecodeError {
    pub kind: DecodeErrorKind,
}

impl DecodeError {
    /// The kind of this error.
    pub fn kind(&self) -> (r: DecodeErrorKind)
        ensures
            r == self.kind,
    {
        self.kind
    }

    /// Spec-level accessor for the kind.
    pub open spec fn spec_kind(&self) -> DecodeErrorKind {
        self.kind
    }

    /// An error reporting that the source ended too early.
    pub fn unexpected_eof() -> (r: DecodeError)
        ensures
            r == DecodeError::spec_unexpected_eof(),
    {
        DecodeError { kind: DecodeErrorKind::UnexpectedEof }
    }

    /// Spec-level constructor matching [`DecodeError::unexpected_eof`].
    pub open spec fn spec_unexpected_eof() -> DecodeError {
        DecodeError { kind: DecodeErrorKind::UnexpectedEof }
    }

    /// An error wrapping a C-octet string decode error.
    pub fn c_octet_string_decode_error(error: COctetStringDecodeError) -> (r: DecodeError)
        ensures
            r == DecodeError::spec_c_octet_string(error),
    {
        DecodeError { kind: DecodeErrorKind::COctetStringDecodeError(error) }
    }

    /// Spec-level constructor matching [`DecodeError::c_octet_string_decode_error`].
    pub open spec fn spec_c_octet_string(error: COctetStringDecodeError) -> DecodeError {
        DecodeError { kind: DecodeErrorKind::COctetStringDecodeError(error) }
    }

    /// An error wrapping an octet string decode error.
    pub fn octet_string_decode_error(error: OctetStringDecodeError) -> (r: DecodeError)
        ensures
            r == DecodeError::spec_octet_string(error),
    {
        DecodeError { kind: DecodeErrorKind::OctetStringDecodeError(error) }
    }

    /// Spec-level constructor matching [`DecodeError::octet_string_decode_error`].
    pub open spec fn spec_octet_string(error: OctetStringDecodeError) -> DecodeError {
        DecodeError { kind: DecodeErrorKind::OctetStringDecodeError(error) }
    }
}

/// Trait for decoding self-delimiting SMPP values from a byte slice.
///
/// `decode` returns the decoded value together with the number of bytes
/// consumed from the front of `src`; bytes after the consumed prefix are
/// left for the caller.
pub trait Decode: Sized + DeepView {
    /// The specification-level parser: the parsed view of the value and the
    /// number of bytes it occupies, or `None` when `src` does not start
    /// with a valid encoding.
    spec fn spec_decode(src: Seq<u8>) -> Option<(Self::V, int)>;

    /// The error reported when `spec_decode(src)` is `None`.
    spec fn spec_decode_err(src: Seq<u8>) -> DecodeError;

    /// A successful parse consumes at least one byte and no more than the
    /// whole source.
    proof fn lemma_spec_decode_size(src: Seq<u8>)
        ensures
            Self::spec_decode(src) matches Some(p) ==> 0 < p.1 <= src.len(),
    ;

    /// Decode a value from the front of `src`.
    fn decode(src: &[u8]) -> (r: Result<(Self, usize), DecodeError>)
        ensures
            match r {
                Ok(p) => Self::spec_decode(src@) == Some((p.0.deep_view(), p.1 as int)),
                Err(e) => Self::spec_decode(src@) is None && e == Self::spec_decode_err(src@),
            },
    ;
}

/// Trait for decoding SMPP values whose size is dictated by an enclosing
/// field (an explicit length prefix or the remainder of a PDU).
pub trait DecodeWithLength: Sized + DeepView {
    /// The specification-level parser for the given announced length.
    spec fn spec_decode_with_length(src: Seq<u8>, length: int) -> Option<(Self::V, int)>;

    /// The error reported when the parse fails.
    spec fn spec_decode_with_length_err(src: Seq<u8>, length: int) -> DecodeError;

    /// A successful parse consumes no more than the whole source.
    proof fn lemma_spec_decode_with_length_size(src: Seq<u8>, length: int)
        ensures
            Self::spec_decode_with_length(src, length) matches Some(p) ==> 0 <= p.1 <= src.len(),
    ;

    /// Decode a value from the front of `src`, with a specified length.
    fn decode(src: &[u8], length: usize) -> (r: Result<(Self, usize), DecodeError>)
        ensures
            match r {
                Ok(p) => Self::spec_decode_with_length(src@, length as int) == Some(
                    (p.0.deep_view(), p.1 as int),
                ),
                Err(e) => Self::spec_decode_with_length(src@, length as int) is None && e
                    == Self::spec_decode_with_length_err(src@, length as int),
            },
    ;
}

/// Trait for decoding SMPP values whose shape is selected by a key —
/// the tag of a TLV.
pub trait DecodeWithKey: Sized + DeepView {
    /// The key that selects the shape.
    type Key;

    /// The specification-level parser for the given key and announced
    /// length.
    spec fn spec_decode_with_key(key: Self::Key, src: Seq<u8>, length: int) -> Option<
        (Self::V, int),
    >;

    /// The error reported when the parse fails.
    spec fn spec_decode_with_key_err(key: Self::Key, src: Seq<u8>, length: int) -> DecodeError;

    /// A successful parse consumes no more than the whole source.
    proof fn lemma_spec_decode_with_key_size(key: Self::Key, src: Seq<u8>, length: int)
        ensures
            Self::spec_decode_with_key(key, src, length) matches Some(p) ==> 0 <= p.1
                <= src.len(),
    ;

    /// Decode a value from the front of `src`, using a key to determine
    /// the shape.
    fn decode(key: Self::Key, src: &[u8], length: usize) -> (r: Result<
        (Self, usize),
        DecodeError,
    >)
        ensures
            match r {
                Ok(p) => Self::spec_decode_with_key(key, src@, length as int) == Some(
                    (p.0.deep_view(), p.1 as int),
                ),
                Err(e) => Self::spec_decode_with_key(key, src@, length as int) is None && e
                    == Self::spec_decode_with_key_err(key, src@, length as int),
            },
    ;
}

/// Helpers layered over [`DecodeWithKey`].
pub trait DecodeWithKeyExt: DecodeWithKey {
    /// Decode a value using a key, unless the announced length is zero:
    /// a zero length means the value is absent.
    fn optional_length_checked_decode(key: Self::Key, src: &[u8], length: usize) -> (r: Result<
        Option<(Self, usize)>,
        DecodeError,
    >)
        ensures
            match r {
                Ok(None) => length == 0,
                Ok(Some(p)) => length > 0 && Self::spec_decode_with_key(key, src@, length as int)
                    == Some((p.0.deep_view(), p.1 as int)),
                Err(e) => length > 0 && Self::spec_decode_with_key(key, src@, length as int)
                    is None && e == Self::spec_decode_with_key_err(key, src@, length as int),
            },
    {
        if length == 0 {
            return Ok(None);
        }
        match Self::decode(key, src, length) {
            Ok(p) => Ok(Some(p)),
            Err(e) => Err(e),
        }
    }
}

impl<T: DecodeWithKey> DecodeWithKeyExt for T {

}

/// Trait for decoding SMPP values that may be absent: the body of a
/// command, whose presence depends on both the key and the length.
pub trait DecodeWithKeyOptional: Sized + DeepView {
    /// The key that selects the shape.
    type Key;

    /// The specification-level parser: `None` on failure, `Some(None)`
    /// when the value is absent, `Some(Some(..))` when present.
    spec fn spec_decode_with_key_optional(key: Self::Key, src: Seq<u8>, length: int) -> Option<
        Option<(Self::V, int)>,
    >;

    /// The error reported when the parse fails.
    spec fn spec_decode_with_key_optional_err(
        key: Self::Key,
        src: Seq<u8>,
        length: int,
    ) -> DecodeError;

    /// A successful parse consumes no more than the whole source.
    proof fn lemma_spec_decode_with_key_optional_size(key: Self::Key, src: Seq<u8>, length: int)
        ensures
            Self::spec_decode_with_key_optional(key, src, length) matches Some(Some(p)) ==> 0
                <= p.1 <= src.len(),
    ;

    /// Decode an optional value from the front of `src`, using a key to
    /// determine the shape.
    fn decode(key: Self::Key, src: &[u8], length: usize) -> (r: Result<
        Option<(Self, usize)>,
        DecodeError,
    >)
        ensures
            match r {
                Ok(None) => Self::spec_decode_with_key_optional(key, src@, length as int) == Some(
                    None::<(Self::V, int)>,
                ),
                Ok(Some(p)) => Self::spec_decode_with_key_optional(key, src@, length as int)
                    == Some(Some((p.0.deep_view(), p.1 as int))),
                Err(e) => Self::spec_decode_with_key_optional(key, src@, length as int) is None
                    && e == Self::spec_decode_with_key_optional_err(key, src@, length as int),
            },
    ;
}

/// Helpers layered over [`DecodeWithLength`]: offset bookkeeping.
pub trait DecodeWithLengthExt: DecodeWithLength {
    /// Decode a value with a specified length, reporting the consumed
    /// size on top of an already consumed `size`.
    fn decode_move(src: &[u8], length: usize, size: usize) -> (r: Result<
        (Self, usize),
        DecodeError,
    >)
        requires
            size + src@.len() <= usize::MAX,
        ensures
            match r {
                Ok(p) => p.1 >= size && Self::spec_decode_with_length(src@, length as int)
                    == Some((p.0.deep_view(), p.1 - size)),
                Err(e) => Self::spec_decode_with_length(src@, length as int) is None && e
                    == Self::spec_decode_with_length_err(src@, length as int),
            },
    {
        proof {
            Self::lemma_spec_decode_with_length_size(src@, length as int);
        }
        match Self::decode(src, length) {
            Ok(p) => Ok((p.0, p.1 + size)),
            Err(e) => Err(e),
        }
    }
}

impl<T: DecodeWithLength> DecodeWithLengthExt for T {

}

/// Helpers layered over [`DecodeWithKeyOptional`]: offset bookkeeping.
pub trait DecodeWithKeyOptionalExt: DecodeWithKeyOptional {
    /// Decode an optional value using a key, reporting the consumed
    /// size on top of an already consumed `size`.
    fn decode_move(key: Self::Key, src: &[u8], length: usize, size: usize) -> (r: Result<
        Option<(Self, usize)>,
        DecodeError,
    >)
        requires
            size + src@.len() <= usize::MAX,
        ensures
            match r {
                Ok(None) => Self::spec_decode_with_key_optional(key, src@, length as int)
                    == Some(None::<(Self::V, int)>),
                Ok(Some(p)) => p.1 >= size && Self::spec_decode_with_key_optional(
                    key,
                    src@,
                    length as int,
                ) == Some(Some((p.0.deep_view(), p.1 - size))),
                Err(e) => Self::spec_decode_with_key_optional(key, src@, length as int) is None
                    && e == Self::spec_decode_with_key_optional_err(key, src@, length as int),
            },
    {
        proof {
            Self::lemma_spec_decode_with_key_optional_size(key, src@, length as int);
        }
        match Self::decode(key, src, length) {
            Ok(None) => Ok(None),
            Ok(Some(p)) => Ok(Some((p.0, p.1 + size))),
            Err(e) => Err(e),
        }
    }
}

impl<T: DecodeWithKeyOptional> DecodeWithKeyOptionalExt for T {

}

/// The specification-level parser for `count` consecutive values: the
/// parsed views and the total number of bytes they occupy.
pub open spec fn spec_decode_counted<T: Decode>(src: Seq<u8>, count: int) -> Option<
    (Seq<T::V>, int),
>
    decreases count,
{
    if count <= 0 {
        Some((Seq::empty(), 0))
    } else {
        match T::spec_decode(src) {
            None => None,
            Some((v, n)) => {
                if n <= 0 {
                    None
                } else {
                    match spec_decode_counted::<T>(src.skip(n), count - 1) {
                        None => None,
                        Some((vs, m)) => Some((seq![v] + vs, n + m)),
                    }
                }
            },
        }
    }
}

/// The error of the first value that fails in a counted parse.
pub open spec fn spec_decode_counted_err<T: Decode>(src: Seq<u8>, count: int) -> DecodeError
    decreases count,
{
    if count <= 0 {
        DecodeError::spec_unexpected_eof()
    } else {
        match T::spec_decode(src) {
            None => T::spec_decode_err(src),
            Some((v, n)) => {
                if n <= 0 {
                    DecodeError::spec_unexpected_eof()
                } else {
                    spec_decode_counted_err::<T>(src.skip(n), count - 1)
                }
            },
        }
    }
}

/// The specification-level parser that consumes a window of bytes
/// completely: values are parsed back to back until the window is
/// exhausted.
pub open spec fn spec_decode_exhaust<T: Decode>(win: Seq<u8>) -> Option<(Seq<T::V>, int)>
    decreases win.len(),
{
    if win.len() == 0 {
        Some((Seq::empty(), 0))
    } else {
        match T::spec_decode(win) {
            None => None,
            Some((v, n)) => {
                if n <= 0 || n > win.len() {
                    None
                } else {
                    match spec_decode_exhaust::<T>(win.skip(n)) {
                        None => None,
                        Some((vs, m)) => Some((seq![v] + vs, n + m)),
                    }
                }
            },
        }
    }
}

/// The error of the first value that fails in an exhausting parse.
pub open spec fn spec_decode_exhaust_err<T: Decode>(win: Seq<u8>) -> DecodeError
    decreases win.len(),
{
    if win.len() == 0 {
        DecodeError::spec_unexpected_eof()
    } else {
        match T::spec_decode(win) {
            None => T::spec_decode_err(win),
            Some((v, n)) => {
                if n <= 0 || n > win.len() {
                    DecodeError::spec_unexpected_eof()
                } else {
                    spec_decode_exhaust_err::<T>(win.skip(n))
                }
            },
        }
    }
}

/// An exhausting parse that succeeds consumes exactly the whole window.
pub proof fn lemma_spec_decode_exhaust_consumes_all<T: Decode>(win: Seq<u8>)
    ensures
        spec_decode_exhaust::<T>(win) matches Some(p) ==> p.1 == win.len(),
    decreases win.len(),
{
    if win.len() != 0 {
        match T::spec_decode(win) {
            None => {},
            Some((v, n)) => {
                if 0 < n <= win.len() {
                    lemma_spec_decode_exhaust_consumes_all::<T>(win.skip(n));
                }
            },
        }
    }
}

/// A pushed element extends the deep view by its own deep view.
pub proof fn lemma_deep_view_push<T: DeepView>(pre: Vec<T>, post: Vec<T>, x: T)
    requires
        post@ == pre@.push(x),
    ensures
        post.deep_view() == pre.deep_view().push(x.deep_view()),
{
    assert forall|i: int| 0 <= i < post.deep_view().len() implies #[trigger] post.deep_view()[i]
        == pre.deep_view().push(x.deep_view())[i] by {
        if i < pre@.len() {
            assert(post@[i] == pre@[i]);
        } else {
            assert(post@[i] == x);
        }
    }
    assert(post.deep_view() =~= pre.deep_view().push(x.deep_view()));
}

/// Helpers layered over [`Decode`]: offset bookkeeping, counted
/// sequences, and parses guarded by a zero length.
pub trait DecodeExt: Decode {
    /// Decode a value, reporting the consumed size on top of an already
    /// consumed `size`.
    fn decode_move(src: &[u8], size: usize) -> (r: Result<(Self, usize), DecodeError>)
        requires
            size + src@.len() <= usize::MAX,
        ensures
            match r {
                Ok(p) => p.1 >= size && Self::spec_decode(src@) == Some(
                    (p.0.deep_view(), p.1 - size),
                ),
                Err(e) => Self::spec_decode(src@) is None && e == Self::spec_decode_err(src@),
            },
    {
        proof {
            Self::lemma_spec_decode_size(src@);
        }
        match Self::decode(src) {
            Ok(p) => Ok((p.0, p.1 + size)),
            Err(e) => Err(e),
        }
    }

    /// Decode `count` consecutive values.
    fn counted(src: &[u8], count: usize) -> (r: Result<(Vec<Self>, usize), DecodeError>)
        ensures
            match r {
                Ok(p) => spec_decode_counted::<Self>(src@, count as int) == Some(
                    (p.0.deep_view(), p.1 as int),
                ) && p.1 <= src@.len(),
                Err(e) => spec_decode_counted::<Self>(src@, count as int) is None && e
                    == spec_decode_counted_err::<Self>(src@, count as int),
            },
    {
        let mut vec: Vec<Self> = Vec::new();
        let mut size: usize = 0;
        let mut k: usize = 0;
        proof {
            assert(vec.deep_view() =~= Seq::<Self::V>::empty());
            assert(src@.skip(0) =~= src@);
            if let Some(p) = spec_decode_counted::<Self>(src@, count as int) {
                assert(vec.deep_view() + p.0 =~= p.0);
            }
        }
        while k < count
            invariant
                k <= count,
                size <= src@.len(),
                match spec_decode_counted::<Self>(src@.skip(size as int), count - k) {
                    None => spec_decode_counted::<Self>(src@, count as int) is None
                        && spec_decode_counted_err::<Self>(src@, count as int)
                        == spec_decode_counted_err::<Self>(src@.skip(size as int), count - k),
                    Some(p) => spec_decode_counted::<Self>(src@, count as int) == Some(
                        (vec.deep_view() + p.0, size + p.1),
                    ),
                },
            decreases count - k,
        {
            let rest = slice_subrange(src, size, src.len());
            proof {
                Self::lemma_spec_decode_size(rest@);
            }
            match Self::decode(rest) {
                Ok((item, n)) => {
                    let ghost pre = vec;
                    let ghost presize = size;
                    vec.push(item);
                    size += n;
                    proof {
                        lemma_deep_view_push(pre, vec, item);
                        assert(src@.skip(presize as int).skip(n as int) =~= src@.skip(
                            size as int,
                        ));
                        if let Some(p) = spec_decode_counted::<Self>(
                            src@.skip(size as int),
                            count - k - 1,
                        ) {
                            assert(pre.deep_view() + (seq![item.deep_view()] + p.0)
                                =~= vec.deep_view() + p.0);
                        }
                    }
                    k += 1;
                },
                Err(e) => {
                    return Err(e);
                },
            }
        }
        proof {
            assert(vec.deep_view() + Seq::<Self::V>::empty() =~= vec.deep_view());
        }
        Ok((vec, size))
    }

    /// Decode `count` consecutive values, reporting the consumed size on
    /// top of an already consumed `size`.
    fn counted_move(src: &[u8], count: usize, size: usize) -> (r: Result<
        (Vec<Self>, usize),
        DecodeError,
    >)
        requires
            size + src@.len() <= usize::MAX,
        ensures
            match r {
                Ok(p) => p.1 >= size && spec_decode_counted::<Self>(src@, count as int) == Some(
                    (p.0.deep_view(), p.1 - size),
                ),
                Err(e) => spec_decode_counted::<Self>(src@, count as int) is None && e
                    == spec_decode_counted_err::<Self>(src@, count as int),
            },
    {
        match Self::counted(src, count) {
            Ok(p) => Ok((p.0, p.1 + size)),
            Err(e) => Err(e),
        }
    }

    /// Decode a value, unless the announced length is zero: a zero
    /// length means the value is absent.
    fn length_checked_decode(src: &[u8], length: usize) -> (r: Result<
        Option<(Self, usize)>,
        DecodeError,
    >)
        ensures
            match r {
                Ok(None) => length == 0,
                Ok(Some(p)) => length > 0 && Self::spec_decode(src@) == Some(
                    (p.0.deep_view(), p.1 as int),
                ),
                Err(e) => length > 0 && Self::spec_decode(src@) is None && e
                    == Self::spec_decode_err(src@),
            },
    {
        if length == 0 {
            return Ok(None);
        }
        match Self::decode(src) {
            Ok(p) => Ok(Some(p)),
            Err(e) => Err(e),
        }
    }

    /// [`DecodeExt::length_checked_decode`] with offset bookkeeping.
    fn length_checked_decode_move(src: &[u8], length: usize, size: usize) -> (r: Result<
        Option<(Self, usize)>,
        DecodeError,
    >)
        requires
            size + src@.len() <= usize::MAX,
        ensures
            match r {
                Ok(None) => length == 0,
                Ok(Some(p)) => length > 0 && p.1 >= size && Self::spec_decode(src@) == Some(
                    (p.0.deep_view(), p.1 - size),
                ),
                Err(e) => length > 0 && Self::spec_decode(src@) is None && e
                    == Self::spec_decode_err(src@),
            },
    {
        if length == 0 {
            return Ok(None);
        }
        match Self::decode_move(src, size) {
            Ok(p) => Ok(Some(p)),
            Err(e) => Err(e),
        }
    }
}

impl<T: Decode> DecodeExt for T {

}

/// Everything that implements [`Decode`] also implements
/// [`DecodeWithLength`] by ignoring the length.
impl<T: Decode> DecodeWithLength for T {
    open spec fn spec_decode_with_length(src: Seq<u8>, length: int) -> Option<(T::V, int)> {
        T::spec_decode(src)
    }

    open spec fn spec_decode_with_length_err(src: Seq<u8>, length: int) -> DecodeError {
        T::spec_decode_err(src)
    }

    proof fn lemma_spec_decode_with_length_size(src: Seq<u8>, length: int) {
        T::lemma_spec_decode_size(src);
    }

    fn decode(src: &[u8], length: usize) -> (r: Result<(Self, usize), DecodeError>) {
        T::decode(src)
    }
}

/// A vector of values occupies a caller-known number of bytes: the
/// window is split off and consumed completely.
impl<T: Decode> DecodeWithLength for Vec<T> {
    open spec fn spec_decode_with_length(src: Seq<u8>, length: int) -> Option<(Seq<T::V>, int)> {
        if length == 0 {
            Some((Seq::empty(), 0))
        } else if length < 0 || length > src.len() {
            None
        } else {
            spec_decode_exhaust::<T>(src.take(length))
        }
    }

    open spec fn spec_decode_with_length_err(src: Seq<u8>, length: int) -> DecodeError {
        if length < 0 || length > src.len() {
            DecodeError::spec_unexpected_eof()
        } else {
            spec_decode_exhaust_err::<T>(src.take(length))
        }
    }

    proof fn lemma_spec_decode_with_length_size(src: Seq<u8>, length: int) {
        if 0 < length <= src.len() {
            lemma_spec_decode_exhaust_consumes_all::<T>(src.take(length));
        }
    }

    fn decode(src: &[u8], length: usize) -> (r: Result<(Self, usize), DecodeError>) {
        if length == 0 {
            let vec: Vec<T> = Vec::new();
            proof {
                assert(vec.deep_view() =~= Seq::<T::V>::empty());
            }
            return Ok((vec, 0));
        }
        if length > src.len() {
            return Err(DecodeError::unexpected_eof());
        }
        let win = slice_subrange(src, 0, length);
        let mut vec: Vec<T> = Vec::new();
        let mut size: usize = 0;
        proof {
            assert(vec.deep_view() =~= Seq::<T::V>::empty());
            assert(win@.skip(0) =~= win@);
            if let Some(p) = spec_decode_exhaust::<T>(win@) {
                assert(vec.deep_view() + p.0 =~= p.0);
            }
        }
        while size < length
            invariant
                size <= length,
                length == win@.len(),
                0 < length <= src@.len(),
                win@ == src@.take(length as int),
                match spec_decode_exhaust::<T>(win@.skip(size as int)) {
                    None => spec_decode_exhaust::<T>(win@) is None && spec_decode_exhaust_err::<
                        T,
                    >(win@) == spec_decode_exhaust_err::<T>(win@.skip(size as int)),
                    Some(p) => spec_decode_exhaust::<T>(win@) == Some(
                        (vec.deep_view() + p.0, size + p.1),
                    ),
                },
            decreases length - size,
        {
            let rest = slice_subrange(win, size, length);
            proof {
                T::lemma_spec_decode_size(rest@);
                assert(rest@ =~= win@.skip(size as int));
            }
            match T::decode(rest) {
                Ok((item, n)) => {
                    let ghost pre = vec;
                    let ghost presize = size;
                    vec.push(item);
                    size += n;
                    proof {
                        lemma_deep_view_push(pre, vec, item);
                        assert(win@.skip(presize as int).skip(n as int) =~= win@.skip(
                            size as int,
                        ));
                        if let Some(p) = spec_decode_exhaust::<T>(win@.skip(size as int)) {
                            assert(pre.deep_view() + (seq![item.deep_view()] + p.0)
                                =~= vec.deep_view() + p.0);
                        }
                    }
                },
                Err(e) => {
                    return Err(e);
                },
            }
        }
        proof {
            assert(win@.skip(size as int) =~= Seq::<u8>::empty());
            assert(vec.deep_view() + Seq::<T::V>::empty() =~= vec.deep_view());
        }
        Ok((vec, size))
    }
}

} // verus!
