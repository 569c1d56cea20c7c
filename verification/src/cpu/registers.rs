//! The ARM7TDMI register file with its per-mode banked copies.
use vstd::prelude::*;
use crate::cpu::psr;

verus! {

/// CPU operating mode, encoded in CPSR bits 4:0. Each privileged mode (all
/// but User) banks its own r13/r14 and SPSR; FIQ additionally banks r8-r12.
#[derive(Debug, Clone, Copy, PartialEq, Eq, Structural)]
pub enum Mode {
    User,
    Fiq,
    Irq,
    Supervisor,
    Abort,
    Undefined,
    System,
}

impl Mode {
    /// The 5-bit CPSR encoding of this mode.
    pub open spec fn spec_bits(self) -> u32 {
        match self {
            Mode::User => 0x10,
            Mode::Fiq => 0x11,
            Mode::Irq => 0x12,
            Mode::Supervisor => 0x13,
            Mode::Abort => 0x17,
            Mode::Undefined => 0x1B,
            Mode::System => 0x1F,
        }
    }

    /// The mode a CPSR value selects, if its mode field is a valid encoding.
    pub open spec fn spec_from_bits(bits: u32) -> Option<Mode> {
        let m = bits & 0x1F;
        if m == 0x10 {
            Some(Mode::User)
        } else if m == 0x11 {
            Some(Mode::Fiq)
        } else if m == 0x12 {
            Some(Mode::Irq)
        } else if m == 0x13 {
            Some(Mode::Supervisor)
        } else if m == 0x17 {
            Some(Mode::Abort)
        } else if m == 0x1B {
            Some(Mode::Undefined)
        } else if m == 0x1F {
            Some(Mode::System)
        } else {
            None
        }
    }

    pub fn from_bits(bits: u32) -> (r: Option<Mode>)
        ensures
            r == Self::spec_from_bits(bits),
    {
        let m: u32 = bits & psr::MODE_MASK;
        if m == 0x10 {
            Some(Mode::User)
        } else if m == 0x11 {
            Some(Mode::Fiq)
        } else if m == 0x12 {
            Some(Mode::Irq)
        } else if m == 0x13 {
            Some(Mode::Supervisor)
        } else if m == 0x17 {
            Some(Mode::Abort)
        } else if m == 0x1B {
            Some(Mode::Undefined)
        } else if m == 0x1F {
            Some(Mode::System)
        } else {
            None
        }
    }

    pub fn bits(self) -> (b: u32)
        ensures
            b == self.spec_bits(),
    {
        match self {
            Mode::User => 0x10,
            Mode::Fiq => 0x11,
            Mode::Irq => 0x12,
            Mode::Supervisor => 0x13,
            Mode::Abort => 0x17,
            Mode::Undefined => 0x1B,
            Mode::System => 0x1F,
        }
    }

    /// Whether this mode has its own banked r13/r14/SPSR (every mode but User).
    pub fn is_privileged(self) -> (b: bool)
        ensures
            b == !(self is User),
    {
        !matches!(self, Mode::User)
    }
}

/// Decoding a mode's own encoding gives the mode back.
pub proof fn lemma_mode_bits_round_trip(m: Mode)
    ensures
        Mode::spec_from_bits(m.spec_bits()) == Some(m),
{
    assert(0x10u32 & 0x1F == 0x10 && 0x11u32 & 0x1F == 0x11 && 0x12u32 & 0x1F == 0x12 && 0x13u32
        & 0x1F == 0x13 && 0x17u32 & 0x1F == 0x17 && 0x1Bu32 & 0x1F == 0x1B && 0x1Fu32 & 0x1F
        == 0x1F) by (bit_vector);
}

/// Index into the r13/r14/SPSR bank arrays. User and System share a bank.
pub open spec fn spec_bank_index(mode: Mode) -> int {
    match mode {
        Mode::User | Mode::System => 0,
        Mode::Fiq => 1,
        Mode::Irq => 2,
        Mode::Supervisor => 3,
        Mode::Abort => 4,
        Mode::Undefined => 5,
    }
}

pub fn bank_index(mode: Mode) -> (i: usize)
    ensures
        i == spec_bank_index(mode),
        i < 6,
{
    match mode {
        Mode::User | Mode::System => 0,
        Mode::Fiq => 1,
        Mode::Irq => 2,
        Mode::Supervisor => 3,
        Mode::Abort => 4,
        Mode::Undefined => 5,
    }
}

/// Whether modes `a` and `b` see the same physical copy of register `i`.
pub open spec fn shares_register(a: Mode, b: Mode, i: int) -> bool {
    if 8 <= i < 13 {
        (a is Fiq) == (b is Fiq)
    } else if 13 <= i < 15 {
        spec_bank_index(a) == spec_bank_index(b)
    } else {
        true
    }
}

/// The mathematical model of the register file: the visible r0-r15, the
/// banked copies, CPSR and the current mode.
#[verifier::ext_equal]
pub struct RegsView {
    pub r: Seq<u32>,
    pub r8_12_fiq: Seq<u32>,
    pub r8_12_other: Seq<u32>,
    pub r13_bank: Seq<u32>,
    pub r14_bank: Seq<u32>,
    pub spsr_bank: Seq<u32>,
    pub cpsr: u32,
    pub mode: Mode,
}

impl RegsView {
    pub open spec fn wf(self) -> bool {
        &&& self.r.len() == 16
        &&& self.r8_12_fiq.len() == 5
        &&& self.r8_12_other.len() == 5
        &&& self.r13_bank.len() == 6
        &&& self.r14_bank.len() == 6
        &&& self.spsr_bank.len() == 6
    }

    /// The value register `i` holds as seen from mode `m` (for the current
    /// mode, the visible register; for any other mode, its banked copy).
    pub open spec fn banked(self, m: Mode, i: int) -> u32 {
        if 8 <= i < 13 && (m is Fiq) != (self.mode is Fiq) {
            if m is Fiq {
                self.r8_12_fiq[i - 8]
            } else {
                self.r8_12_other[i - 8]
            }
        } else if 13 <= i < 15 && spec_bank_index(m) != spec_bank_index(self.mode) {
            if i == 13 {
                self.r13_bank[spec_bank_index(m)]
            } else {
                self.r14_bank[spec_bank_index(m)]
            }
        } else {
            self.r[i]
        }
    }

    /// The SPSR belonging to mode `m` (meaningful for privileged modes).
    pub open spec fn spsr_of(self, m: Mode) -> u32 {
        self.spsr_bank[spec_bank_index(m)]
    }

    pub open spec fn flag(self, bit: u32) -> bool {
        self.cpsr & bit != 0
    }

    /// The current mode's SPSR; CPSR in User and System mode (which have
    /// none).
    pub open spec fn spsr(self) -> u32 {
        if self.mode is User || self.mode is System {
            self.cpsr
        } else {
            self.spsr_of(self.mode)
        }
    }

    /// Register `i` of the current mode set to `v`.
    pub open spec fn with_r(self, i: int, v: u32) -> RegsView {
        RegsView { r: self.r.update(i, v), ..self }
    }

    /// CPSR overwritten without any mode switch.
    pub open spec fn with_cpsr_bits(self, c: u32) -> RegsView {
        RegsView { cpsr: c, ..self }
    }

    /// The current mode's registers stored to their banks and `m`'s loaded.
    pub open spec fn switched(self, m: Mode) -> RegsView {
        let old_r = self.r;
        let fiq = if self.mode is Fiq {
            old_r.subrange(8, 13)
        } else {
            self.r8_12_fiq
        };
        let other = if self.mode is Fiq {
            self.r8_12_other
        } else {
            old_r.subrange(8, 13)
        };
        let r13 = self.r13_bank.update(spec_bank_index(self.mode), old_r[13]);
        let r14 = self.r14_bank.update(spec_bank_index(self.mode), old_r[14]);
        let high = if m is Fiq {
            fiq
        } else {
            other
        };
        RegsView {
            r: old_r.subrange(0, 8) + high + seq![
                r13[spec_bank_index(m)],
                r14[spec_bank_index(m)],
                old_r[15],
            ],
            r8_12_fiq: fiq,
            r8_12_other: other,
            r13_bank: r13,
            r14_bank: r14,
            spsr_bank: self.spsr_bank,
            cpsr: self.cpsr,
            mode: m,
        }
    }

    /// Changes only the mode field of CPSR, banking registers as needed.
    pub open spec fn with_mode(self, m: Mode) -> RegsView {
        let s = if m != self.mode {
            self.switched(m)
        } else {
            self
        };
        s.with_cpsr_bits((self.cpsr & !0x1Fu32) | m.spec_bits())
    }

    /// Overwrites the whole CPSR, banking registers if its mode field
    /// selects a different valid mode.
    pub open spec fn with_cpsr(self, value: u32) -> RegsView {
        let s = match Mode::spec_from_bits(value) {
            Some(m) => if m != self.mode {
                self.switched(m)
            } else {
                self
            },
            None => self,
        };
        s.with_cpsr_bits(value)
    }

    /// Sets or clears the CPSR bits of `bit`.
    pub open spec fn with_flag(self, bit: u32, value: bool) -> RegsView {
        self.with_cpsr_bits(
            if value {
                self.cpsr | bit
            } else {
                self.cpsr & !bit
            },
        )
    }

    /// Writes the current mode's SPSR; no effect in User mode.
    pub open spec fn with_spsr(self, value: u32) -> RegsView {
        if self.mode is User {
            self
        } else {
            RegsView { spsr_bank: self.spsr_bank.update(spec_bank_index(self.mode), value), ..self }
        }
    }

    /// Every banked register and SPSR of `self` equals that of `other`.
    pub open spec fn same_banks(self, other: RegsView) -> bool {
        &&& forall|m: Mode, i: int| 0 <= i < 16 ==> #[trigger] self.banked(m, i) == other.banked(m, i)
        &&& forall|m: Mode| #[trigger] self.spsr_of(m) == other.spsr_of(m)
    }
}

/// Switching banks never loses a register: every mode still sees every
/// register and SPSR it saw before, and the new mode becomes current.
pub proof fn lemma_switched_keeps_banks(v: RegsView, m: Mode)
    requires
        v.wf(),
        m != v.mode,
    ensures
        v.switched(m).wf(),
        v.switched(m).mode == m,
        v.switched(m).cpsr == v.cpsr,
        v.switched(m).same_banks(v),
{
    let s = v.switched(m);
    assert(s.r.len() == 16);
    assert forall|mm: Mode, i: int| 0 <= i < 16 implies #[trigger] s.banked(mm, i) == v.banked(
        mm,
        i,
    ) by {
        if i < 8 {
        } else if i < 13 {
        } else if i < 15 {
        } else {
        }
    }
}

/// Setting the mode (or the whole CPSR) keeps every banked register.
pub proof fn lemma_mode_change_keeps_banks(v: RegsView, m: Mode, value: u32)
    requires
        v.wf(),
    ensures
        v.with_mode(m).wf(),
        v.with_mode(m).mode == m,
        v.with_mode(m).same_banks(v),
        v.with_cpsr(value).wf(),
        v.with_cpsr(value).cpsr == value,
        v.with_cpsr(value).same_banks(v),
        v.with_cpsr(value).mode == match Mode::spec_from_bits(value) {
            Some(mm) => mm,
            None => v.mode,
        },
{
    if m != v.mode {
        lemma_switched_keeps_banks(v, m);
    }
    match Mode::spec_from_bits(value) {
        Some(mm) => if mm != v.mode {
            lemma_switched_keeps_banks(v, mm);
        },
        None => {},
    }
}

/// Switching modes never loses a register: after leaving a mode and coming
/// back, every register reads as it did before, and so does the SPSR.
pub proof fn lemma_mode_round_trip(v: RegsView, m: Mode)
    requires
        v.wf(),
    ensures
        v.with_mode(m).with_mode(v.mode).mode == v.mode,
        forall|i: int|
            0 <= i < 16 ==> #[trigger] v.with_mode(m).with_mode(v.mode).r[i] == v.r[i],
        v.with_mode(m).with_mode(v.mode).spsr() == v.spsr() || v.mode is User || v.mode is System,
{
    let a = v.with_mode(m);
    let b = a.with_mode(v.mode);
    lemma_mode_change_keeps_banks(v, m, 0);
    lemma_mode_change_keeps_banks(a, v.mode, 0);
    assert forall|i: int| 0 <= i < 16 implies #[trigger] b.r[i] == v.r[i] by {
        assert(b.banked(v.mode, i) == a.banked(v.mode, i));
        assert(a.banked(v.mode, i) == v.banked(v.mode, i));
    }
    assert(b.spsr_of(v.mode) == a.spsr_of(v.mode));
}

/// A register written in one mode is visible exactly to the modes that
/// share its physical copy; every other mode keeps its own value.
pub proof fn lemma_write_is_private_to_sharing_modes(v: RegsView, i: int, x: u32, other: Mode)
    requires
        v.wf(),
        0 <= i < 16,
    ensures
        v.with_r(i, x).r[i] == x,
        shares_register(other, v.mode, i) ==> v.with_r(i, x).banked(other, i) == x,
        !shares_register(other, v.mode, i) ==> v.with_r(i, x).banked(other, i) == v.banked(
            other,
            i,
        ),
{
}

/// The ARM7TDMI register file: r0-r15 as CPU instructions see them, plus
/// the banked copies that mode switches swap in and out, plus CPSR/SPSR.
#[derive(Debug)]
pub struct Registers {
    r: [u32; 16],
    r8_12_fiq: [u32; 5],
    r8_12_other: [u32; 5],
    r13_bank: [u32; 6],
    r14_bank: [u32; 6],
    spsr_bank: [u32; 6],
    cpsr: u32,
    mode: Mode,
}

impl View for Registers {
    type V = RegsView;

    closed spec fn view(&self) -> RegsView {
        RegsView {
            r: self.r@,
            r8_12_fiq: self.r8_12_fiq@,
            r8_12_other: self.r8_12_other@,
            r13_bank: self.r13_bank@,
            r14_bank: self.r14_bank@,
            spsr_bank: self.spsr_bank@,
            cpsr: self.cpsr,
            mode: self.mode,
        }
    }
}

impl Registers {
    /// Every register file is well formed.
    pub proof fn lemma_wf(&self)
        ensures
            self@.wf(),
    {
    }

    /// The hardware reset state: Supervisor mode, IRQ/FIQ disabled, ARM
    /// state, every register and SPSR zero.
    pub open spec fn reset_view() -> RegsView {
        RegsView {
            r: Seq::new(16, |i: int| 0u32),
            r8_12_fiq: Seq::new(5, |i: int| 0u32),
            r8_12_other: Seq::new(5, |i: int| 0u32),
            r13_bank: Seq::new(6, |i: int| 0u32),
            r14_bank: Seq::new(6, |i: int| 0u32),
            spsr_bank: Seq::new(6, |i: int| 0u32),
            cpsr: 0x13 | psr::I | psr::F,
            mode: Mode::Supervisor,
        }
    }

    /// Hardware reset state: PC=0, Supervisor mode, IRQ/FIQ disabled, ARM
    /// (not Thumb) instruction set, every register and SPSR zero.
    pub fn reset() -> (regs: Self)
        ensures
            regs@ == Self::reset_view(),
    {
        let mode = Mode::Supervisor;
        let regs = Registers {
            r: [0u32; 16],
            r8_12_fiq: [0u32; 5],
            r8_12_other: [0u32; 5],
            r13_bank: [0u32; 6],
            r14_bank: [0u32; 6],
            spsr_bank: [0u32; 6],
            cpsr: mode.bits() | psr::I | psr::F,
            mode,
        };
        assert(regs@.r =~= Seq::new(16, |i: int| 0u32));
        assert(regs@.r8_12_fiq =~= Seq::new(5, |i: int| 0u32));
        assert(regs@.r8_12_other =~= Seq::new(5, |i: int| 0u32));
        assert(regs@.r13_bank =~= Seq::new(6, |i: int| 0u32));
        assert(regs@.r14_bank =~= Seq::new(6, |i: int| 0u32));
        assert(regs@.spsr_bank =~= Seq::new(6, |i: int| 0u32));
        regs
    }

    pub fn r(&self, index: usize) -> (v: u32)
        requires
            index < 16,
        ensures
            v == self@.r[index as int],
    {
        self.r[index]
    }

    pub fn set_r(&mut self, index: usize, value: u32)
        requires
            index < 16,
        ensures
            final(self)@ == old(self)@.with_r(index as int, value),
    {
        self.r[index] = value;
    }

    pub fn pc(&self) -> (v: u32)
        ensures
            v == self@.r[15],
    {
        self.r[15]
    }

    pub fn set_pc(&mut self, value: u32)
        ensures
            final(self)@ == old(self)@.with_r(15, value),
    {
        self.r[15] = value;
    }

    pub fn cpsr(&self) -> (v: u32)
        ensures
            v == self@.cpsr,
    {
        self.cpsr
    }

    /// Overwrites the whole CPSR (as MSR does), banking registers if the
    /// mode field changed to a valid mode.
    pub fn set_cpsr(&mut self, value: u32)
        ensures
            final(self)@ == old(self)@.with_cpsr(value),
    {
        if let Some(new_mode) = Mode::from_bits(value) {
            if new_mode != self.mode {
                self.bank_switch(new_mode);
            }
        }
        self.cpsr = value;
    }

    pub fn mode(&self) -> (m: Mode)
        ensures
            m == self@.mode,
    {
        self.mode
    }

    /// Changes only the mode field, preserving flags/control bits — what
    /// exception entry/return does, as opposed to a full MSR of CPSR.
    pub fn set_mode(&mut self, new_mode: Mode)
        ensures
            final(self)@ == old(self)@.with_mode(new_mode),
    {
        if new_mode != self.mode {
            self.bank_switch(new_mode);
        }
        self.cpsr = (self.cpsr & !psr::MODE_MASK) | new_mode.bits();
    }

    fn bank_switch(&mut self, new_mode: Mode)
        ensures
            final(self)@ == old(self)@.switched(new_mode),
    {
        let old_index = bank_index(self.mode);
        let new_index = bank_index(new_mode);
        let ghost before = self@;

        if self.mode == Mode::Fiq {
            self.r8_12_fiq[0] = self.r[8];
            self.r8_12_fiq[1] = self.r[9];
            self.r8_12_fiq[2] = self.r[10];
            self.r8_12_fiq[3] = self.r[11];
            self.r8_12_fiq[4] = self.r[12];
        } else {
            self.r8_12_other[0] = self.r[8];
            self.r8_12_other[1] = self.r[9];
            self.r8_12_other[2] = self.r[10];
            self.r8_12_other[3] = self.r[11];
            self.r8_12_other[4] = self.r[12];
        }
        self.r13_bank[old_index] = self.r[13];
        self.r14_bank[old_index] = self.r[14];

        if new_mode == Mode::Fiq {
            self.r[8] = self.r8_12_fiq[0];
            self.r[9] = self.r8_12_fiq[1];
            self.r[10] = self.r8_12_fiq[2];
            self.r[11] = self.r8_12_fiq[3];
            self.r[12] = self.r8_12_fiq[4];
        } else {
            self.r[8] = self.r8_12_other[0];
            self.r[9] = self.r8_12_other[1];
            self.r[10] = self.r8_12_other[2];
            self.r[11] = self.r8_12_other[3];
            self.r[12] = self.r8_12_other[4];
        }
        self.r[13] = self.r13_bank[new_index];
        self.r[14] = self.r14_bank[new_index];
        self.mode = new_mode;
        let ghost expect = before.switched(new_mode);
        assert(self@.r =~= expect.r);
        assert(self@.r8_12_fiq =~= expect.r8_12_fiq);
        assert(self@.r8_12_other =~= expect.r8_12_other);
        assert(self@.r13_bank =~= expect.r13_bank);
        assert(self@.r14_bank =~= expect.r14_bank);
    }

    pub fn flag(&self, bit: u32) -> (b: bool)
        ensures
            b == self@.flag(bit),
    {
        self.cpsr & bit != 0
    }

    pub fn set_flag(&mut self, bit: u32, value: bool)
        ensures
            final(self)@ == old(self)@.with_flag(bit, value),
    {
        if value {
            self.cpsr = self.cpsr | bit;
        } else {
            self.cpsr = self.cpsr & !bit;
        }
    }

    pub fn in_thumb_state(&self) -> (b: bool)
        ensures
            b == self@.flag(psr::T),
    {
        self.flag(psr::T)
    }

    /// SPSR of the current mode. Reading this in User/System mode (which
    /// have no SPSR) returns the current CPSR as a harmless fallback.
    pub fn spsr(&self) -> (v: u32)
        ensures
            v == self@.spsr(),
    {
        if self.mode.is_privileged() && !matches!(self.mode, Mode::System) {
            self.spsr_bank[bank_index(self.mode)]
        } else {
            self.cpsr
        }
    }

    /// Writes the current mode's SPSR; a no-op in User mode.
    pub fn set_spsr(&mut self, value: u32)
        ensures
            final(self)@ == old(self)@.with_spsr(value),
    {
        if self.mode.is_privileged() {
            let idx = bank_index(self.mode);
            self.spsr_bank[idx] = value;
        }
    }
}

} // verus!
