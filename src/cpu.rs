//! Processor state: the 128-bit register file, HI/LO, SA and the PC pair.
use vstd::prelude::*;

verus! {

/// Number of general registers.
pub const GPR_COUNT: usize = 32;

/// A 32-bit value sign-extended to a 128-bit register pattern.
pub open spec fn sext32(v: u32) -> u128 {
    v as i32 as u128
}

/// A 64-bit value sign-extended to a 128-bit register pattern.
pub open spec fn sext64(v: u64) -> u128 {
    v as i64 as u128
}

/// The low 32 bits of `v + n`, the way a 32-bit program counter advances.
pub open spec fn pc_add(v: u32, n: u32) -> u32 {
    ((v + n) % 0x1_0000_0000) as u32
}

/// Mathematical model of the processor state.
pub struct CpuView {
    pub gprs: Seq<u128>,
    pub pc: u32,
    pub next_pc: u32,
    pub hi: u64,
    pub lo: u64,
    pub sa: u64,
}

impl CpuView {
    pub open spec fn wf(self) -> bool {
        self.gprs.len() == GPR_COUNT
    }

    /// Low 32 bits of register `i`.
    pub open spec fn word(self, i: usize) -> u32 {
        self.gprs[i as int] as u32
    }

    /// Low 64 bits of register `i`.
    pub open spec fn dword(self, i: usize) -> u64 {
        self.gprs[i as int] as u64
    }

    /// All 128 bits of register `i`.
    pub open spec fn qword(self, i: usize) -> u128 {
        self.gprs[i as int]
    }

    /// Register `i` replaced by `v`, everything else kept.
    pub open spec fn with_qword(self, i: usize, v: u128) -> CpuView {
        CpuView { gprs: self.gprs.update(i as int, v), ..self }
    }

    /// Register `i` replaced by `v` sign-extended from 32 bits.
    pub open spec fn with_word(self, i: usize, v: u32) -> CpuView {
        self.with_qword(i, sext32(v))
    }

    /// Register `i` replaced by `v` sign-extended from 64 bits.
    pub open spec fn with_dword(self, i: usize, v: u64) -> CpuView {
        self.with_qword(i, sext64(v))
    }

    /// The state in which every register and field is zero and the next
    /// instruction is at address 4.
    pub open spec fn initial() -> CpuView {
        CpuView { gprs: Seq::new(32, |i: int| 0u128), pc: 0, next_pc: 4, hi: 0, lo: 0, sa: 0 }
    }

    /// The driver's advance: the pending next-PC becomes current, and the one
    /// after it is four bytes further on.
    pub open spec fn advanced(self) -> CpuView {
        CpuView { pc: self.next_pc, next_pc: pc_add(self.next_pc, 4), ..self }
    }
}

/// The processor core. Register 0 is an ordinary register: it is not wired
/// to zero.
pub struct Cpu {
    gprs: [u128; 32],
    pc: u32,
    next_pc: u32,
    hi: u64,
    lo: u64,
    sa: u64,
}

impl View for Cpu {
    type V = CpuView;

    closed spec fn view(&self) -> CpuView {
        CpuView {
            gprs: self.gprs@,
            pc: self.pc,
            next_pc: self.next_pc,
            hi: self.hi,
            lo: self.lo,
            sa: self.sa,
        }
    }
}

impl Cpu {
    /// Every state has exactly 32 registers.
    pub proof fn lemma_wf(&self)
        ensures
            self@.wf(),
    {
        assert(self.gprs@.len() == 32);
    }

    pub fn new() -> (r: Cpu)
        ensures
            r@ == CpuView::initial(),
    {
        let r = Cpu { gprs: [0u128; 32], pc: 0, next_pc: 4, hi: 0, lo: 0, sa: 0 };
        assert(r.gprs@ =~= CpuView::initial().gprs);
        r
    }

    /// Moves the pending next-PC into PC and points next-PC four bytes on,
    /// wrapping at 32 bits.
    pub fn update_pc(&mut self)
        ensures
            final(self)@ == old(self)@.advanced(),
    {
        self.pc = self.next_pc;
        self.next_pc = self.next_pc.wrapping_add(4);
    }

    pub fn read_gpr_word(&self, index: usize) -> (r: u32)
        requires
            index < GPR_COUNT,
        ensures
            r == self@.word(index),
    {
        self.gprs[index] as u32
    }

    /// Writes `value` sign-extended over all 128 bits of the register.
    pub fn write_gpr_word(&mut self, index: usize, value: u32)
        requires
            index < GPR_COUNT,
        ensures
            final(self)@ == old(self)@.with_word(index, value),
    {
        self.gprs[index] = value as i32 as u128;
        assert(self.gprs@ =~= old(self).gprs@.update(index as int, sext32(value)));
    }

    pub fn read_gpr_dword(&self, index: usize) -> (r: u64)
        requires
            index < GPR_COUNT,
        ensures
            r == self@.dword(index),
    {
        self.gprs[index] as u64
    }

    /// Writes `value` sign-extended over all 128 bits of the register.
    pub fn write_gpr_dword(&mut self, index: usize, value: u64)
        requires
            index < GPR_COUNT,
        ensures
            final(self)@ == old(self)@.with_dword(index, value),
    {
        self.gprs[index] = value as i64 as u128;
        assert(self.gprs@ =~= old(self).gprs@.update(index as int, sext64(value)));
    }

    pub fn read_gpr_qword(&self, index: usize) -> (r: u128)
        requires
            index < GPR_COUNT,
        ensures
            r == self@.qword(index),
    {
        self.gprs[index]
    }

    pub fn write_gpr_qword(&mut self, index: usize, value: u128)
        requires
            index < GPR_COUNT,
        ensures
            final(self)@ == old(self)@.with_qword(index, value),
    {
        self.gprs[index] = value;
        assert(self.gprs@ =~= old(self).gprs@.update(index as int, value));
    }

    pub fn pc(&self) -> (r: u32)
        ensures
            r == self@.pc,
    {
        self.pc
    }

    pub fn next_pc(&self) -> (r: u32)
        ensures
            r == self@.next_pc,
    {
        self.next_pc
    }

    pub fn hi(&self) -> (r: u64)
        ensures
            r == self@.hi,
    {
        self.hi
    }

    pub fn lo(&self) -> (r: u64)
        ensures
            r == self@.lo,
    {
        self.lo
    }

    pub fn sa(&self) -> (r: u64)
        ensures
            r == self@.sa,
    {
        self.sa
    }

    pub fn set_next_pc(&mut self, value: u32)
        ensures
            final(self)@ == (CpuView { next_pc: value, ..old(self)@ }),
    {
        self.next_pc = value;
    }

    pub fn set_hi(&mut self, value: u64)
        ensures
            final(self)@ == (CpuView { hi: value, ..old(self)@ }),
    {
        self.hi = value;
    }

    pub fn set_lo(&mut self, value: u64)
        ensures
            final(self)@ == (CpuView { lo: value, ..old(self)@ }),
    {
        self.lo = value;
    }

    pub fn set_sa(&mut self, value: u64)
        ensures
            final(self)@ == (CpuView { sa: value, ..old(self)@ }),
    {
        self.sa = value;
    }
}

} // verus!
