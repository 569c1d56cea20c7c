//! Small facts about bit masks that the decoders rely on.
use vstd::prelude::*;

verus! {

/// A masked word never exceeds its mask.
pub broadcast proof fn lemma_u32_and_le(x: u32, m: u32)
    ensures
        #[trigger] (x & m) <= m,
        x & m <= x,
{
    assert(x & m <= m && x & m <= x) by (bit_vector);
}

/// A masked halfword never exceeds its mask.
pub broadcast proof fn lemma_u16_and_le(x: u16, m: u16)
    ensures
        #[trigger] (x & m) <= m,
        x & m <= x,
{
    assert(x & m <= m && x & m <= x) by (bit_vector);
}

/// A masked byte never exceeds its mask.
pub broadcast proof fn lemma_u8_and_le(x: u8, m: u8)
    ensures
        #[trigger] (x & m) <= m,
        x & m <= x,
{
    assert(x & m <= m && x & m <= x) by (bit_vector);
}

/// A right-shifted word never grows.
pub broadcast proof fn lemma_u32_shr_le(x: u32, n: u32)
    ensures
        #[trigger] (x >> n) <= x,
{
    assert(x >> n <= x) by (bit_vector);
}

/// A right-shifted halfword never grows.
pub broadcast proof fn lemma_u16_shr_le(x: u16, n: u16)
    ensures
        #[trigger] (x >> n) <= x,
{
    assert(x >> n <= x) by (bit_vector);
}

/// A right-shifted byte never grows.
pub broadcast proof fn lemma_u8_shr_le(x: u8, n: u8)
    ensures
        #[trigger] (x >> n) <= x,
{
    assert(x >> n <= x) by (bit_vector);
}

pub broadcast group group_bits {
    lemma_u8_shr_le,
    lemma_u32_and_le,
    lemma_u16_and_le,
    lemma_u8_and_le,
    lemma_u32_shr_le,
    lemma_u16_shr_le,
}

} // verus!
