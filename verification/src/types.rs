//! The string families of SMPP: size-bounded byte containers with ASCII
//! and NUL-termination invariants.

use vstd::prelude::*;
use vstd::string::StringSliceAdditionalSpecFns;

pub mod any_octet_string;
pub mod c_octet_string;
pub mod empty_or_full_c_octet_string;
pub mod octet_string;

verus! {

/// Every byte is in the ASCII range.
pub open spec fn all_ascii(s: Seq<u8>) -> bool {
    forall|i: int| 0 <= i < s.len() ==> s[i] <= 0x7f
}

/// No byte is a NULL octet.
pub open spec fn no_nul(s: Seq<u8>) -> bool {
    forall|i: int| 0 <= i < s.len() ==> s[i] != 0
}

/// The position of the first NULL octet among the first `cap` bytes of
/// `s`, or `None` when none of them is NULL.
pub open spec fn find_nul(s: Seq<u8>, cap: int) -> Option<int>
    decreases cap,
{
    if cap <= 0 || s.len() == 0 {
        None
    } else if s[0] == 0 {
        Some(0int)
    } else {
        match find_nul(s.skip(1), cap - 1) {
            None => None,
            Some(i) => Some(i + 1),
        }
    }
}

/// What a found NULL position means: it is the first NULL octet, and it
/// lies within both the cap and the sequence.
pub proof fn lemma_find_nul_some(s: Seq<u8>, cap: int, i: int)
    requires
        find_nul(s, cap) == Some(i),
    ensures
        0 <= i < cap,
        i < s.len(),
        s[i] == 0,
        no_nul(s.take(i)),
    decreases cap,
{
    if cap <= 0 || s.len() == 0 {
    } else if s[0] == 0 {
    } else {
        let rest = find_nul(s.skip(1), cap - 1);
        match rest {
            None => {},
            Some(j) => {
                lemma_find_nul_some(s.skip(1), cap - 1, j);
                assert(s.take(i) =~= seq![s[0]] + s.skip(1).take(j));
            },
        }
    }
}

/// A NULL octet below the cap, with none before it, is exactly what the
/// search returns.
pub proof fn lemma_find_nul_complete(s: Seq<u8>, cap: int, i: int)
    requires
        0 <= i < cap,
        i < s.len(),
        s[i] == 0,
        no_nul(s.take(i)),
    ensures
        find_nul(s, cap) == Some(i),
    decreases cap,
{
    if i == 0 {
    } else {
        assert(s.take(i)[0] == s[0]);
        assert(no_nul(s.skip(1).take(i - 1))) by {
            assert forall|j: int| 0 <= j < i - 1 implies #[trigger] s.skip(1).take(i - 1)[j]
                != 0 by {
                assert(s.skip(1).take(i - 1)[j] == s[j + 1]);
                assert(s.take(i)[j + 1] == s[j + 1]);
            }
        }
        assert(s.skip(1)[i - 1] == s[i]);
        lemma_find_nul_complete(s.skip(1), cap - 1, i - 1);
    }
}

/// When none of the first `min(cap, |s|)` bytes is NULL, the search
/// fails.
pub proof fn lemma_find_nul_none_complete(s: Seq<u8>, cap: int)
    requires
        forall|i: int| 0 <= i < cap && i < s.len() ==> s[i] != 0,
    ensures
        find_nul(s, cap) is None,
    decreases cap,
{
    if cap <= 0 || s.len() == 0 {
    } else {
        assert forall|i: int| 0 <= i < cap - 1 && i < s.skip(1).len() implies s.skip(1)[i]
            != 0 by {
            assert(s.skip(1)[i] == s[i + 1]);
        }
        lemma_find_nul_none_complete(s.skip(1), cap - 1);
    }
}

/// Checks that every byte is in the ASCII range.
pub(crate) fn check_all_ascii(bytes: &[u8]) -> (r: bool)
    ensures
        r == all_ascii(bytes@),
{
    let mut i: usize = 0;
    while i < bytes.len()
        invariant
            i <= bytes@.len(),
            all_ascii(bytes@.take(i as int)),
        decreases bytes@.len() - i,
    {
        if bytes[i] > 0x7f {
            assert(!all_ascii(bytes@));
            return false;
        }
        proof {
            assert(forall|j: int|
                0 <= j < i + 1 ==> bytes@.take(i + 1)[j] == bytes@.take(i as int).push(
                    bytes@[i as int],
                )[j]);
            assert(bytes@.take(i + 1) =~= bytes@.take(i as int).push(bytes@[i as int]));
        }
        i += 1;
    }
    proof {
        assert(bytes@.take(bytes@.len() as int) =~= bytes@);
    }
    true
}

/// Checks whether any of the first `end` bytes is a NULL octet.
pub(crate) fn has_nul_before(bytes: &[u8], end: usize) -> (r: bool)
    requires
        end <= bytes@.len(),
    ensures
        r == !no_nul(bytes@.take(end as int)),
{
    let mut i: usize = 0;
    while i < end
        invariant
            i <= end <= bytes@.len(),
            no_nul(bytes@.take(i as int)),
        decreases end - i,
    {
        if bytes[i] == 0 {
            assert(bytes@.take(end as int)[i as int] == 0);
            return true;
        }
        proof {
            assert(bytes@.take(i + 1) =~= bytes@.take(i as int).push(bytes@[i as int]));
        }
        i += 1;
    }
    assert(bytes@.take(end as int) =~= bytes@.take(i as int));
    false
}

/// Relies on `core::str::from_utf8`: on success the returned string slice
/// views exactly the input bytes, and a byte sequence that lies entirely
/// in the ASCII range is valid UTF-8.
#[verifier::external_body]
pub(crate) fn try_str_from_utf8(bytes: &[u8]) -> (r: Option<&str>)
    ensures
        all_ascii(bytes@) ==> r is Some,
        r matches Some(s) ==> s.spec_bytes() == bytes@,
{
    core::str::from_utf8(bytes).ok()
}

} // verus!
