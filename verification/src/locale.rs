//! The locale identifier carried inside a raw keyboard-layout value.
//!
//! The operating system reports a thread's active keyboard layout as a single
//! machine word whose low 16 bits identify the input locale; the remaining
//! bits encode the input device. Only the locale portion is exposed, and the
//! upper bits are given no further meaning.

use vstd::prelude::*;

verus! {

/// The locale identifier of a raw keyboard-layout value: its low 16 bits.
pub open spec fn locale_of_layout(raw: u64) -> u64 {
    raw & 0xffff
}

/// A locale identifier is a 16-bit value, and masking the low bits is the
/// same as reducing the raw value modulo 2^16.
pub proof fn lemma_locale_bounded(raw: u64)
    ensures
        locale_of_layout(raw) < 0x10000,
        locale_of_layout(raw) == raw % 0x10000,
{
    assert(raw & 0xffff < 0x10000) by (bit_vector);
    assert(raw & 0xffff == raw % 0x10000) by (bit_vector);
}

/// Extracts the input-locale identifier from a raw keyboard-layout value.
pub fn locale_from_layout(raw: u64) -> (locale: u64)
    ensures
        locale == locale_of_layout(raw),
        locale < 0x10000,
{
    proof {
        lemma_locale_bounded(raw);
    }
    raw & 0xffff
}

} // verus!
