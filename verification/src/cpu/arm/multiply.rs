//! ARM MUL/MLA and the long multiplies.
use vstd::prelude::*;
use crate::cpu::psr;
use crate::cpu::registers::{Registers, RegsView};

verus! {

broadcast use crate::bits::group_bits;

pub open spec fn spec_execute_mul(regs: RegsView, opcode: u32) -> RegsView {
    let s = (opcode >> 20) & 1 == 1;
    let rd = ((opcode >> 16) & 0xF) as int;
    let rn = ((opcode >> 12) & 0xF) as int;
    let rs = ((opcode >> 8) & 0xF) as int;
    let rm = (opcode & 0xF) as int;
    let product = regs.r[rm].wrapping_mul(regs.r[rs]);
    let result = if (opcode >> 21) & 1 == 1 {
        product.wrapping_add(regs.r[rn])
    } else {
        product
    };
    let written = regs.with_r(rd, result);
    if s {
        written.with_flag(psr::Z, result == 0).with_flag(psr::N, (result >> 31) & 1 == 1)
    } else {
        written
    }
}

/// The 64-bit product of two words, read as signed or unsigned numbers,
/// modulo 2^64.
pub open spec fn spec_product64(a: u32, b: u32, signed: bool) -> u64 {
    if signed {
        ((a as i32) as int * (b as i32) as int) as u64
    } else {
        (a as int * b as int) as u64
    }
}

pub open spec fn spec_execute_mul_long(regs: RegsView, opcode: u32) -> RegsView {
    let rd_hi = ((opcode >> 16) & 0xF) as int;
    let rd_lo = ((opcode >> 12) & 0xF) as int;
    let rs = ((opcode >> 8) & 0xF) as int;
    let rm = (opcode & 0xF) as int;
    let product = spec_product64(regs.r[rm], regs.r[rs], (opcode >> 22) & 1 == 1);
    let result = if (opcode >> 21) & 1 == 1 {
        product.wrapping_add(((regs.r[rd_hi] as u64) << 32) | regs.r[rd_lo] as u64)
    } else {
        product
    };
    let written = regs.with_r(rd_lo, (result & 0xFFFF_FFFF) as u32).with_r(
        rd_hi,
        (result >> 32) as u32,
    );
    if (opcode >> 20) & 1 == 1 {
        written.with_flag(psr::Z, result == 0).with_flag(psr::N, (result >> 63) & 1 == 1)
    } else {
        written
    }
}

/// MUL/MLA: Rd = Rm * Rs (+ Rn if accumulating), modulo 2^32.
pub fn execute_mul(regs: &mut Registers, opcode: u32) -> (out: (u32, bool))
    ensures
        final(regs)@ == spec_execute_mul(old(regs)@, opcode),
        out == (1u32, false),
{
    let s = (opcode >> 20) & 1 == 1;
    let accumulate = (opcode >> 21) & 1 == 1;
    let rd = ((opcode >> 16) & 0xF) as usize;
    let rn = ((opcode >> 12) & 0xF) as usize;
    let rs = ((opcode >> 8) & 0xF) as usize;
    let rm = (opcode & 0xF) as usize;

    let product = regs.r(rm).wrapping_mul(regs.r(rs));
    let result = if accumulate {
        product.wrapping_add(regs.r(rn))
    } else {
        product
    };

    regs.set_r(rd, result);
    if s {
        regs.set_flag(psr::Z, result == 0);
        regs.set_flag(psr::N, (result >> 31) & 1 == 1);
        // C is architecturally meaningless after MUL/MLA on ARMv4; left as-is.
    }
    (1, false)
}

proof fn lemma_i32_product_fits(x: i32, y: i32)
    ensures
        -0x4000_0000_0000_0000 <= x as int * y as int <= 0x4000_0000_0000_0000,
{
    assert(-0x4000_0000_0000_0000 <= x as int * y as int <= 0x4000_0000_0000_0000)
        by (nonlinear_arith)
        requires
            -0x8000_0000 <= x <= 0x7FFF_FFFF,
            -0x8000_0000 <= y <= 0x7FFF_FFFF,
    ;
}

proof fn lemma_u32_product_fits(x: u32, y: u32)
    ensures
        0 <= x as int * y as int <= 0xFFFF_FFFE_0000_0001,
{
    assert(0 <= x as int * y as int <= 0xFFFF_FFFE_0000_0001) by (nonlinear_arith)
        requires
            0 <= x <= 0xFFFF_FFFF,
            0 <= y <= 0xFFFF_FFFF,
    ;
}

/// UMULL/UMLAL/SMULL/SMLAL: 64-bit product (optionally accumulated) split
/// across RdHi:RdLo.
pub fn execute_mul_long(regs: &mut Registers, opcode: u32) -> (out: (u32, bool))
    ensures
        final(regs)@ == spec_execute_mul_long(old(regs)@, opcode),
        out == (1u32, false),
{
    let signed = (opcode >> 22) & 1 == 1;
    let accumulate = (opcode >> 21) & 1 == 1;
    let s = (opcode >> 20) & 1 == 1;
    let rd_hi = ((opcode >> 16) & 0xF) as usize;
    let rd_lo = ((opcode >> 12) & 0xF) as usize;
    let rs = ((opcode >> 8) & 0xF) as usize;
    let rm = (opcode & 0xF) as usize;

    let a = regs.r(rm);
    let b = regs.r(rs);
    let mut result: u64 = if signed {
        let x: i64 = (a as i32) as i64;
        let y: i64 = (b as i32) as i64;
        proof {
            lemma_i32_product_fits(a as i32, b as i32);
        }
        (x * y) as u64
    } else {
        proof {
            lemma_u32_product_fits(a, b);
        }
        (a as u64) * (b as u64)
    };

    if accumulate {
        let acc: u64 = ((regs.r(rd_hi) as u64) << 32) | regs.r(rd_lo) as u64;
        result = result.wrapping_add(acc);
    }

    regs.set_r(rd_lo, (result & 0xFFFF_FFFF) as u32);
    regs.set_r(rd_hi, (result >> 32) as u32);

    if s {
        regs.set_flag(psr::Z, result == 0);
        regs.set_flag(psr::N, (result >> 63) & 1 == 1);
    }
    (1, false)
}

} // verus!
