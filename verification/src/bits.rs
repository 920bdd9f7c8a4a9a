//! Facts about masks and shifts on machine words, proved once and used everywhere.

use vstd::prelude::*;

verus! {

/// Masking keeps a byte below the mask's next power of two, and shifting right divides.
pub broadcast proof fn lemma_mask_u8(x: u8)
    by (bit_vector)
    ensures
        #![trigger x & 1u8]
        #![trigger x & 3u8]
        #![trigger x & 7u8]
        #![trigger x & 15u8]
        #![trigger x & 31u8]
        #![trigger x & 127u8]
        x & 1u8 <= 1u8,
        x & 3u8 <= 3u8,
        x & 7u8 <= 7u8,
        x & 15u8 <= 15u8,
        x & 31u8 <= 31u8,
        x & 63u8 <= 63u8,
        x & 127u8 <= 127u8,
{
}

/// The high fields of a byte, read by shifting.
pub broadcast proof fn lemma_shift_u8(x: u8)
    by (bit_vector)
    ensures
        #![trigger x >> 6u8]
        #![trigger x >> 5u8]
        #![trigger x >> 4u8]
        #![trigger x >> 3u8]
        #![trigger x >> 1u8]
        x >> 6u8 == x / 64u8,
        x >> 5u8 == x / 32u8,
        x >> 4u8 == x / 16u8,
        x >> 3u8 == x / 8u8,
        x >> 1u8 == x / 2u8,
{
}

/// Masking keeps an address below the mask's next power of two.
pub broadcast proof fn lemma_mask_u16(x: u16)
    by (bit_vector)
    ensures
        #![trigger x & 3u16]
        #![trigger x & 7u16]
        #![trigger x & 0x1Fu16]
        #![trigger x & 0x7FFu16]
        #![trigger x & 0xFFFu16]
        #![trigger x & 0x3FFFu16]
        #![trigger x & 0x7FFFu16]
        x & 3u16 <= 3u16,
        x & 7u16 <= 7u16,
        x & 0x1Fu16 <= 0x1Fu16,
        x & 0x7FFu16 <= 0x7FFu16,
        x & 0xFFFu16 <= 0xFFFu16,
        x & 0x3FFFu16 <= 0x3FFFu16,
        x & 0x7FFFu16 <= 0x7FFFu16,
{
}

} // verus!
