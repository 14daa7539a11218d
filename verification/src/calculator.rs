//! Conversions between units of length.

use vstd::prelude::*;

verus! {

/// The number of octets in `dword` 32-bit words.
pub open spec fn spec_double_words_as_octets(dword: usize) -> int {
    dword * 4
}

/// The number of octets in `dword` 32-bit words.
pub fn double_words_as_octets(dword: usize) -> (octets: usize)
    requires
        spec_double_words_as_octets(dword) <= usize::MAX,
    ensures
        octets == spec_double_words_as_octets(dword),
{
    dword * 4
}

} // verus!
