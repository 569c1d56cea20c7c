//! The adder shared by every ARM/Thumb arithmetic instruction.
use vstd::prelude::*;

verus! {

/// Result of an ALU add/subtract: the value plus the carry/overflow it
/// produced, ready to feed into CPSR when the instruction sets flags.
#[derive(Debug, Clone, Copy, PartialEq, Eq, Structural)]
pub struct AluResult {
    pub value: u32,
    pub carry: bool,
    pub overflow: bool,
}

/// A 32-bit word read as a two's-complement signed number.
pub open spec fn signed32(x: u32) -> int {
    if x >= 0x8000_0000 {
        x - 0x1_0000_0000
    } else {
        x as int
    }
}

pub open spec fn bit_value(b: bool) -> int {
    if b {
        1
    } else {
        0
    }
}

/// `a + b + carry_in`: the value modulo 2^32, carry when the unsigned sum
/// does not fit in 32 bits, overflow when the signed sum does not.
pub open spec fn spec_add_with_carry(a: u32, b: u32, carry_in: bool) -> AluResult {
    let sum = a + b + bit_value(carry_in);
    let ssum = signed32(a) + signed32(b) + bit_value(carry_in);
    AluResult {
        value: (sum % 0x1_0000_0000) as u32,
        carry: sum >= 0x1_0000_0000,
        overflow: ssum > 0x7FFF_FFFF || ssum < -0x8000_0000,
    }
}

/// `a - b - (1 - carry_in)`: the value modulo 2^32, carry meaning "no
/// borrow occurred", overflow when the signed difference does not fit.
pub open spec fn spec_sub_with_carry(a: u32, b: u32, carry_in: bool) -> AluResult {
    let diff = a - b - (1 - bit_value(carry_in));
    let sdiff = signed32(a) - signed32(b) - (1 - bit_value(carry_in));
    AluResult {
        value: (if diff < 0 {
            diff + 0x1_0000_0000
        } else {
            diff
        }) as u32,
        carry: diff >= 0,
        overflow: sdiff > 0x7FFF_FFFF || sdiff < -0x8000_0000,
    }
}

proof fn lemma_overflow_bit(a: u32, b: u32, ci: u32, v: u32)
    requires
        ci <= 1,
        v == ((a as int + b as int + ci as int) % 0x1_0000_0000) as u32,
    ensures
        ((((!(a ^ b)) & (a ^ v)) >> 31) & 1 == 1) == (signed32(a) + signed32(b) + ci > 0x7FFF_FFFF
            || signed32(a) + signed32(b) + ci < -0x8000_0000),
{
    assert((((!(a ^ b)) & (a ^ v)) >> 31) & 1 == 1 <==> ((a >= 0x8000_0000 && b >= 0x8000_0000
        && v < 0x8000_0000) || (a < 0x8000_0000 && b < 0x8000_0000 && v >= 0x8000_0000)))
        by (bit_vector);
}

/// `a + b + carry_in`, with the carry/overflow flags ARM defines for
/// addition: carry is unsigned overflow, overflow is signed overflow.
pub fn add_with_carry(a: u32, b: u32, carry_in: bool) -> (r: AluResult)
    ensures
        r == spec_add_with_carry(a, b, carry_in),
{
    let r1: u32 = a.wrapping_add(b);
    let c1: bool = r1 < a;
    let ci: u32 = if carry_in {
        1
    } else {
        0
    };
    let value: u32 = r1.wrapping_add(ci);
    let c2: bool = value < r1;
    let carry = c1 || c2;
    let overflow = (((!(a ^ b)) & (a ^ value)) >> 31) & 1 == 1;
    proof {
        lemma_overflow_bit(a, b, ci, value);
    }
    AluResult { value, carry, overflow }
}

/// Subtraction as ARM's hardware does it: through the adder, using
/// `sub(a, b) == add(a, !b, carry_in)`.
pub fn sub_with_carry(a: u32, b: u32, carry_in: bool) -> (r: AluResult)
    ensures
        r == spec_sub_with_carry(a, b, carry_in),
        r == spec_add_with_carry(a, !b, carry_in),
{
    proof {
        lemma_sub_is_add_of_complement(a, b, carry_in);
    }
    add_with_carry(a, !b, carry_in)
}

/// Subtracting `b` is adding its bitwise complement: the identity ARM's
/// adder relies on, for the value and all flags.
pub proof fn lemma_sub_is_add_of_complement(a: u32, b: u32, carry_in: bool)
    ensures
        spec_sub_with_carry(a, b, carry_in) == spec_add_with_carry(a, !b, carry_in),
{
    assert(!b == 0xFFFF_FFFF - b) by (bit_vector);
    assert(signed32(!b) == -signed32(b) - 1);
}

/// Addition with carry is commutative in its two operands.
pub proof fn lemma_add_commutes(a: u32, b: u32, carry_in: bool)
    ensures
        spec_add_with_carry(a, b, carry_in) == spec_add_with_carry(b, a, carry_in),
{
}

/// Subtracting a number from itself with no borrow gives zero with carry
/// set and no overflow (the CMP-equal case).
pub proof fn lemma_sub_self_is_zero(a: u32)
    ensures
        spec_sub_with_carry(a, a, true) == (AluResult { value: 0, carry: true, overflow: false }),
{
}

} // verus!
