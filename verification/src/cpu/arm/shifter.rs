//! The barrel shifter that computes a data-processing instruction's
//! operand2 (and its carry-out, which feeds CPSR C when the instruction
//! sets flags). See ARM7TDMI Data Sheet, "Shifts".
use vstd::prelude::*;

verus! {

#[derive(Debug, Clone, Copy, PartialEq, Eq, Structural)]
pub struct ShifterResult {
    pub value: u32,
    pub carry_out: bool,
}

#[derive(Debug, Clone, Copy, PartialEq, Eq, Structural)]
pub enum ShiftType {
    Lsl,
    Lsr,
    Asr,
    Ror,
}

impl ShiftType {
    pub open spec fn spec_from_bits(bits: u32) -> ShiftType {
        let b = bits & 3;
        if b == 0 {
            ShiftType::Lsl
        } else if b == 1 {
            ShiftType::Lsr
        } else if b == 2 {
            ShiftType::Asr
        } else {
            ShiftType::Ror
        }
    }

    pub fn from_bits(bits: u32) -> (t: ShiftType)
        ensures
            t == Self::spec_from_bits(bits),
    {
        let b: u32 = bits & 0b11;
        if b == 0 {
            ShiftType::Lsl
        } else if b == 1 {
            ShiftType::Lsr
        } else if b == 2 {
            ShiftType::Asr
        } else {
            ShiftType::Ror
        }
    }
}

/// Bit `n` of `v`.
pub open spec fn bit_of(v: u32, n: u32) -> bool {
    (v >> n) & 1 == 1
}

/// `v` rotated right by `n` bits (0 <= n < 32).
pub open spec fn rotr(v: u32, n: u32) -> u32 {
    if n == 0 {
        v
    } else {
        (v >> n) | (v << ((32 - n) as u32))
    }
}

/// Arithmetic (sign-filling) right shift by `n` bits (0 <= n < 32).
pub open spec fn asr_value(v: u32, n: u32) -> u32 {
    if v >= 0x8000_0000 {
        (v >> n) | !(0xFFFF_FFFFu32 >> n)
    } else {
        v >> n
    }
}

/// The shift amount an instruction really means: an immediate LSR/ASR of
/// zero encodes a shift by 32.
pub open spec fn effective_amount(amount: u32, is_immediate: bool) -> u32 {
    if amount == 0 && is_immediate {
        32
    } else {
        amount
    }
}

pub open spec fn spec_lsl(value: u32, amount: u32, carry_in: bool) -> ShifterResult {
    if amount == 0 {
        ShifterResult { value, carry_out: carry_in }
    } else if amount < 32 {
        ShifterResult { value: value << amount, carry_out: bit_of(value, (32 - amount) as u32) }
    } else if amount == 32 {
        ShifterResult { value: 0, carry_out: bit_of(value, 0) }
    } else {
        ShifterResult { value: 0, carry_out: false }
    }
}

pub open spec fn spec_lsr(value: u32, amount: u32, carry_in: bool, is_immediate: bool) -> ShifterResult {
    let e = effective_amount(amount, is_immediate);
    if e == 0 {
        ShifterResult { value, carry_out: carry_in }
    } else if e < 32 {
        ShifterResult { value: value >> e, carry_out: bit_of(value, (e - 1) as u32) }
    } else if e == 32 {
        ShifterResult { value: 0, carry_out: bit_of(value, 31) }
    } else {
        ShifterResult { value: 0, carry_out: false }
    }
}

pub open spec fn spec_asr(value: u32, amount: u32, carry_in: bool, is_immediate: bool) -> ShifterResult {
    let e = effective_amount(amount, is_immediate);
    if e == 0 {
        ShifterResult { value, carry_out: carry_in }
    } else if e < 32 {
        ShifterResult { value: asr_value(value, e), carry_out: bit_of(value, (e - 1) as u32) }
    } else {
        ShifterResult {
            value: if value >= 0x8000_0000 {
                0xFFFF_FFFF
            } else {
                0
            },
            carry_out: bit_of(value, 31),
        }
    }
}

pub open spec fn spec_ror(value: u32, amount: u32, carry_in: bool, is_immediate: bool) -> ShifterResult {
    if amount == 0 && is_immediate {
        // RRX: rotate right through carry by exactly 1 bit.
        ShifterResult {
            value: (value >> 1) | (if carry_in {
                0x8000_0000u32
            } else {
                0u32
            }),
            carry_out: bit_of(value, 0),
        }
    } else if amount == 0 {
        ShifterResult { value, carry_out: carry_in }
    } else if amount % 32 == 0 {
        ShifterResult { value, carry_out: bit_of(value, 31) }
    } else {
        ShifterResult {
            value: rotr(value, amount % 32),
            carry_out: bit_of(value, ((amount % 32) - 1) as u32),
        }
    }
}

/// The barrel shifter's result for `shift_type` by `amount` (see [`shift`]).
pub open spec fn spec_shift(
    shift_type: ShiftType,
    value: u32,
    amount: u32,
    carry_in: bool,
    is_immediate: bool,
) -> ShifterResult {
    match shift_type {
        ShiftType::Lsl => spec_lsl(value, amount, carry_in),
        ShiftType::Lsr => spec_lsr(value, amount, carry_in, is_immediate),
        ShiftType::Asr => spec_asr(value, amount, carry_in, is_immediate),
        ShiftType::Ror => spec_ror(value, amount, carry_in, is_immediate),
    }
}

/// Rotates `v` right by `n` bits.
pub fn rotate_right(v: u32, n: u32) -> (r: u32)
    requires
        n < 32,
    ensures
        r == rotr(v, n),
{
    if n == 0 {
        v
    } else {
        (v >> n) | (v << (32 - n))
    }
}

/// Applies `shift_type` by `amount` to `value`.
///
/// `amount == 0` means two different things depending on how the
/// instruction encoded it, which is why the caller must say so:
/// - immediate shifts can't encode "shift by zero" for LSR/ASR/ROR: those
///   encode LSR#32, ASR#32 and RRX respectively; LSL#0 means no shift;
/// - register-specified shifts encode a literal zero as "no shift at all"
///   for every shift type, carry flag included.
pub fn shift(shift_type: ShiftType, value: u32, amount: u32, carry_in: bool, is_immediate: bool) -> (r:
    ShifterResult)
    ensures
        r == spec_shift(shift_type, value, amount, carry_in, is_immediate),
{
    match shift_type {
        ShiftType::Lsl => lsl(value, amount, carry_in),
        ShiftType::Lsr => lsr(value, amount, carry_in, is_immediate),
        ShiftType::Asr => asr(value, amount, carry_in, is_immediate),
        ShiftType::Ror => ror(value, amount, carry_in, is_immediate),
    }
}

pub fn lsl(value: u32, amount: u32, carry_in: bool) -> (r: ShifterResult)
    ensures
        r == spec_lsl(value, amount, carry_in),
{
    if amount == 0 {
        ShifterResult { value, carry_out: carry_in }
    } else if amount < 32 {
        ShifterResult { value: value << amount, carry_out: (value >> (32 - amount)) & 1 == 1 }
    } else if amount == 32 {
        assert(value >> 0 == value) by (bit_vector);
        ShifterResult { value: 0, carry_out: value & 1 == 1 }
    } else {
        ShifterResult { value: 0, carry_out: false }
    }
}

pub fn lsr(value: u32, amount: u32, carry_in: bool, is_immediate: bool) -> (r: ShifterResult)
    ensures
        r == spec_lsr(value, amount, carry_in, is_immediate),
{
    let effective: u32 = if amount == 0 && is_immediate {
        32
    } else {
        amount
    };
    if effective == 0 {
        ShifterResult { value, carry_out: carry_in }
    } else if effective < 32 {
        ShifterResult { value: value >> effective, carry_out: (value >> (effective - 1)) & 1 == 1 }
    } else if effective == 32 {
        ShifterResult { value: 0, carry_out: (value >> 31) & 1 == 1 }
    } else {
        ShifterResult { value: 0, carry_out: false }
    }
}

pub fn asr(value: u32, amount: u32, carry_in: bool, is_immediate: bool) -> (r: ShifterResult)
    ensures
        r == spec_asr(value, amount, carry_in, is_immediate),
{
    let effective: u32 = if amount == 0 && is_immediate {
        32
    } else {
        amount
    };
    if effective == 0 {
        ShifterResult { value, carry_out: carry_in }
    } else if effective < 32 {
        let shifted: u32 = if value >= 0x8000_0000 {
            (value >> effective) | !(0xFFFF_FFFFu32 >> effective)
        } else {
            value >> effective
        };
        ShifterResult { value: shifted, carry_out: (value >> (effective - 1)) & 1 == 1 }
    } else {
        // >= 32: fully sign-extended, further shifting changes nothing.
        ShifterResult {
            value: if value >= 0x8000_0000 {
                0xFFFF_FFFF
            } else {
                0
            },
            carry_out: (value >> 31) & 1 == 1,
        }
    }
}

pub fn ror(value: u32, amount: u32, carry_in: bool, is_immediate: bool) -> (r: ShifterResult)
    ensures
        r == spec_ror(value, amount, carry_in, is_immediate),
{
    if amount == 0 && is_immediate {
        // RRX: rotate right through carry by exactly 1 bit.
        assert(value >> 0 == value) by (bit_vector);
        let top: u32 = if carry_in {
            0x8000_0000
        } else {
            0
        };
        return ShifterResult { value: (value >> 1) | top, carry_out: value & 1 == 1 };
    }
    if amount == 0 {
        return ShifterResult { value, carry_out: carry_in };
    }
    let effective: u32 = amount & 31;
    assert(amount & 31 == amount % 32) by (bit_vector);
    if effective == 0 {
        // Nonzero multiple of 32: value unchanged, carry = bit 31.
        ShifterResult { value, carry_out: (value >> 31) & 1 == 1 }
    } else {
        ShifterResult {
            value: rotate_right(value, effective),
            carry_out: (value >> (effective - 1)) & 1 == 1,
        }
    }
}

/// Rotating a word right by `n` and then by `32 - n` gives it back.
pub proof fn lemma_rotr_inverse(v: u32, n: u32)
    requires
        0 < n < 32,
    ensures
        rotr(rotr(v, n), (32 - n) as u32) == v,
{
    let m = (32 - n) as u32;
    assert(0 < m < 32);
    assert(((((v >> n) | (v << m)) >> m) | (((v >> n) | (v << m)) << n)) == v) by (bit_vector)
        requires
            0 < n < 32,
            m == 32 - n,
    ;
}

/// A shift that moves no bits (LSL#0, or any register-specified shift by
/// zero) leaves the value and the carry flag untouched.
pub proof fn lemma_zero_shift_is_identity(t: ShiftType, value: u32, carry_in: bool)
    ensures
        spec_shift(t, value, 0, carry_in, false) == (ShifterResult { value, carry_out: carry_in }),
        spec_lsl(value, 0, carry_in) == (ShifterResult { value, carry_out: carry_in }),
{
}

} // verus!
