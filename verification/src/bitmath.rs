//! Shared facts about byte- and word-level masking that connect the bitwise
//! operators the hardware model uses to the modular arithmetic the contracts
//! speak in.

use vstd::prelude::*;

verus! {

/// Masking a byte with 0x0F is the remainder mod 16; the result is below 16.
pub broadcast proof fn lemma_u8_low_mask(x: u8)
    by (bit_vector)
    ensures
        #[trigger] (x & 0x0F) == x % 16,
{
}

/// Masking a word with 0x0FFF is the remainder mod 4096.
pub broadcast proof fn lemma_u16_low12_mask(x: u16)
    by (bit_vector)
    ensures
        #[trigger] (x & 0x0FFF) == x % 4096,
{
}

/// Masking a word with 0x00FF is the remainder mod 256.
pub broadcast proof fn lemma_u16_low8_mask(x: u16)
    by (bit_vector)
    ensures
        #[trigger] (x & 0x00FF) == x % 256,
{
}


/// Masking a word with 0x000F is the remainder mod 16.
pub broadcast proof fn lemma_u16_low4_mask(x: u16)
    by (bit_vector)
    ensures
        #[trigger] (x & 0x0F) == x % 16,
{
}


/// Masking a byte with 0b11 is the remainder mod 4.
pub broadcast proof fn lemma_u8_low2_mask(x: u8)
    by (bit_vector)
    ensures
        #[trigger] (x & 0b11) == x % 4,
{
}


/// Masking a byte with 1 is the remainder mod 2.
pub broadcast proof fn lemma_u8_low1_mask(x: u8)
    by (bit_vector)
    ensures
        #[trigger] (x & 1) == x % 2,
{
}


/// Shifting a byte right by three is division by eight.
pub broadcast proof fn lemma_u8_shr3(x: u8)
    by (bit_vector)
    ensures
        #[trigger] (x >> 3u8) == x / 8,
{
}

/// Masking a byte with 0b111 is the remainder mod 8.
pub broadcast proof fn lemma_u8_low3_mask(x: u8)
    by (bit_vector)
    ensures
        #[trigger] (x & 0x07) == x % 8,
{
}


/// The low five bits of a byte are all clear exactly when each of them is.
pub proof fn lemma_u8_low5_bits(x: u8)
    by (bit_vector)
    ensures
        (x & 0x1F == 0) <==> (x & 1 == 0 && x & 2 == 0 && x & 4 == 0 && x & 8 == 0 && x & 16 == 0),
        x == 0 ==> x & 0x1F == 0,
{
}

} // verus!
