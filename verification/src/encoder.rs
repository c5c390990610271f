//! Configuration descriptors for the optional SMS text encodings.
//!
//! The encoders themselves — GSM 7-bit, UCS-2, Latin-1 — are external
//! collaborators outside this crate; these types carry the options a
//! caller selects for them, and the error shape their failures are
//! reported with.

use vstd::prelude::*;

verus! {

/// The text encoder selected for a message.
#[derive(Debug, Clone, PartialEq, Eq, Structural)]
pub enum Encoder {
    /// GSM 7-bit, one septet per octet.
    Gsm7BitUnpacked(Gsm7BitUnpacked),
    /// UCS-2.
    Ucs2(Ucs2),
    /// Latin-1.
    Latin1(Latin1),
}

/// The GSM 7-bit alphabet in use.
#[derive(Debug, Clone, Copy, PartialEq, Eq, Structural)]
pub enum Gsm7BitAlphabet {
    /// The default alphabet with its extension table.
    Default(Gsm7BitDefaultAlphabet),
}

impl Gsm7BitAlphabet {
    /// The default alphabet.
    pub fn default_() -> (r: Self)
        ensures
            r == Gsm7BitAlphabet::Default(Gsm7BitDefaultAlphabet {  }),
    {
        Gsm7BitAlphabet::Default(Gsm7BitDefaultAlphabet {  })
    }
}

/// The GSM 7-bit default alphabet.
#[derive(Debug, Clone, Copy, PartialEq, Eq, Structural)]
pub struct Gsm7BitDefaultAlphabet {}

/// Options of the unpacked GSM 7-bit encoder.
#[derive(Debug, Clone, Copy, PartialEq, Eq, Structural)]
pub struct Gsm7BitUnpacked {
    /// The alphabet to encode with.
    pub alphabet: Gsm7BitAlphabet,
    /// Whether an extended character may be split across message
    /// parts.
    pub allow_split_extended_character: bool,
}

impl Gsm7BitUnpacked {
    /// The default options: default alphabet, no splitting.
    pub fn default_() -> (r: Self)
        ensures
            r == (Gsm7BitUnpacked {
                alphabet: Gsm7BitAlphabet::Default(Gsm7BitDefaultAlphabet {  }),
                allow_split_extended_character: false,
            }),
    {
        Gsm7BitUnpacked {
            alphabet: Gsm7BitAlphabet::Default(Gsm7BitDefaultAlphabet {  }),
            allow_split_extended_character: false,
        }
    }

    /// Options with the given alphabet and splitting choice.
    pub fn new(alphabet: Gsm7BitAlphabet, allow_split_extended_character: bool) -> (r: Self)
        ensures
            r == (Gsm7BitUnpacked { alphabet, allow_split_extended_character }),
    {
        Gsm7BitUnpacked { alphabet, allow_split_extended_character }
    }
}

/// Options of the UCS-2 encoder.
#[derive(Debug, Clone, Copy, PartialEq, Eq, Structural)]
pub struct Ucs2 {
    /// Whether a character may be split across message parts.
    pub allow_split_character: bool,
}

impl Ucs2 {
    /// The default options: no splitting.
    pub fn default_() -> (r: Self)
        ensures
            r == (Ucs2 { allow_split_character: false }),
    {
        Ucs2 { allow_split_character: false }
    }

    /// Options with the given splitting choice.
    pub fn new(allow_split_character: bool) -> (r: Self)
        ensures
            r == (Ucs2 { allow_split_character }),
    {
        Ucs2 { allow_split_character }
    }
}

/// Options of the Latin-1 encoder; it has none.
#[derive(Debug, Clone, Copy, PartialEq, Eq, Structural)]
pub struct Latin1 {}

impl Latin1 {
    /// The default options.
    pub fn default_() -> (r: Self)
        ensures
            r == (Latin1 {  }),
    {
        Latin1 {  }
    }

    /// The options; Latin-1 has none.
    pub fn new() -> (r: Self)
        ensures
            r == (Latin1 {  }),
    {
        Latin1 {  }
    }
}

/// A text encoding failure: which encoder failed, and its own message.
#[derive(Debug, Clone, PartialEq, Eq)]
pub struct EncodeError {
    /// The name of the encoder that failed.
    pub encoder: String,
    /// The encoder's error message.
    pub error: String,
}

impl EncodeError {
    /// Creates a new [`EncodeError`].
    pub fn new(encoder: String, error: String) -> (r: Self)
        ensures
            r.encoder@ == encoder@,
            r.error@ == error@,
    {
        EncodeError { encoder, error }
    }
}

} // verus!
