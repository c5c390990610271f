//! Encoding traits.
//!
//! Every encodable type has a specification-level wire function,
//! `spec_wire`, giving the exact byte sequence of its encoding as a
//! function of the value's view. The executable `encode` appends exactly
//! those bytes, and `length` returns exactly their count. Both also
//! certify `spec_wf`, the well-formedness that every reachable value of
//! the type satisfies, so that the round-trip laws — which hold of
//! well-formed views — apply to everything that was actually encoded.

use vstd::prelude::*;

verus! {

/// Trait for encoding SMPP values into a byte buffer.
pub trait Encode: DeepView {
    /// The well-formedness every value of the type satisfies.
    spec fn spec_wf(v: Self::V) -> bool;

    /// The exact bytes this value occupies on the wire.
    spec fn spec_wire(v: Self::V) -> Seq<u8>;

    /// Append the wire bytes of this value to `dst`.
    fn encode(&self, dst: &mut Vec<u8>)
        requires
            old(dst)@.len() + Self::spec_wire(self.deep_view()).len() <= usize::MAX,
        ensures
            final(dst)@ == old(dst)@ + Self::spec_wire(self.deep_view()),
            Self::spec_wf(self.deep_view()),
    ;

    /// The number of bytes [`Encode::encode`] appends.
    fn length(&self) -> (r: usize)
        requires
            Self::spec_wire(self.deep_view()).len() <= usize::MAX,
        ensures
            r == Self::spec_wire(self.deep_view()).len(),
            Self::spec_wf(self.deep_view()),
    ;
}

} // verus!
