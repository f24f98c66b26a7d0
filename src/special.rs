//! Execution of one instruction word: the dispatcher and one handler per
//! SPECIAL-family operation.
use vstd::prelude::*;

use crate::cpu::Cpu;
use crate::decode::{
    extract_funct, extract_opcode, extract_rd, extract_rs, extract_rt, extract_sa, FUNCT_ADD,
    FUNCT_ADDU, FUNCT_AND, FUNCT_BREAK, FUNCT_DADD, FUNCT_DADDU, FUNCT_DIV, FUNCT_DIVU,
    FUNCT_DSLL, FUNCT_DSLL32, FUNCT_DSLLV, FUNCT_DSRA, FUNCT_DSRA32, FUNCT_DSRAV, FUNCT_DSRL,
    FUNCT_DSRL32, FUNCT_DSRLV, FUNCT_DSUB, FUNCT_DSUBU, FUNCT_JALR, FUNCT_JR, FUNCT_MFHI,
    FUNCT_MFLO, FUNCT_MFSA, FUNCT_MOVN, FUNCT_MOVZ, FUNCT_MTHI, FUNCT_MTLO, FUNCT_MTSA,
    FUNCT_MULT, FUNCT_MULTU, FUNCT_NOR, FUNCT_OR, FUNCT_SLL, FUNCT_SLLV, FUNCT_SLT, FUNCT_SLTU,
    FUNCT_SRA, FUNCT_SRAV, FUNCT_SRL, FUNCT_SRLV, FUNCT_SUB, FUNCT_SUBU, FUNCT_SYNC,
    FUNCT_SYSCALL, FUNCT_TEQ, FUNCT_TGE, FUNCT_TGEU, FUNCT_TLT, FUNCT_TLTU, FUNCT_TNE,
    FUNCT_XOR, OPCODE_SPECIAL,
};
use crate::fault::{ArithOp, Fault, SoftwareKind, TrapKind};
use crate::semantics::{
    op_add, op_addu, op_and, op_dadd, op_daddu, op_div, op_divu, op_dsll, op_dsll32, op_dsllv,
    op_dsra, op_dsra32, op_dsrav, op_dsrl, op_dsrl32, op_dsrlv, op_dsub, op_dsubu, op_jalr,
    op_jr, op_mfhi, op_mflo, op_mfsa, op_movn, op_movz, op_mthi, op_mtlo, op_mtsa, op_mult,
    op_multu, op_nor, op_or, op_sll, op_sllv, op_slt, op_sltu, op_sra, op_srav, op_srl, op_srlv,
    op_sub, op_subu, op_trap, op_xor, realizes, special_step, step, trunc_div, trunc_rem,
};

verus! {

proof fn lemma_masked_shift(x: u32)
    by (bit_vector)
    ensures
        x & 0x1f < 32,
        x & 0x3f < 64,
{
}

impl Cpu {
    /// Executes one instruction word. On a fault nothing is committed.
    pub fn exec(&mut self, raw: u32) -> (r: Result<(), Fault>)
        ensures
            realizes(old(self)@, final(self)@, r, step(old(self)@, raw)),
    {
        let opcode = extract_opcode(raw);
        if opcode == OPCODE_SPECIAL {
            self.handle_special(raw)
        } else {
            Err(Fault::UnimplementedOpcode { opcode })
        }
    }

    fn handle_special(&mut self, raw: u32) -> (r: Result<(), Fault>)
        ensures
            realizes(old(self)@, final(self)@, r, special_step(old(self)@, raw)),
    {
        let funct = extract_funct(raw);
        match funct {
            FUNCT_SLL => { self.do_sll(raw); Ok(()) },
            FUNCT_SRL => { self.do_srl(raw); Ok(()) },
            FUNCT_SRA => { self.do_sra(raw); Ok(()) },
            FUNCT_SLLV => { self.do_sllv(raw); Ok(()) },
            FUNCT_SRLV => { self.do_srlv(raw); Ok(()) },
            FUNCT_SRAV => { self.do_srav(raw); Ok(()) },
            FUNCT_JR => { self.do_jr(raw); Ok(()) },
            FUNCT_JALR => { self.do_jalr(raw); Ok(()) },
            FUNCT_MOVZ => { self.do_movz(raw); Ok(()) },
            FUNCT_MOVN => { self.do_movn(raw); Ok(()) },
            FUNCT_SYSCALL => self.do_syscall(raw),
            FUNCT_BREAK => self.do_break(raw),
            FUNCT_SYNC => { self.do_sync(raw); Ok(()) },
            FUNCT_MFHI => { self.do_mfhi(raw); Ok(()) },
            FUNCT_MTHI => { self.do_mthi(raw); Ok(()) },
            FUNCT_MFLO => { self.do_mflo(raw); Ok(()) },
            FUNCT_MTLO => { self.do_mtlo(raw); Ok(()) },
            FUNCT_DSLLV => { self.do_dsllv(raw); Ok(()) },
            FUNCT_DSRLV => { self.do_dsrlv(raw); Ok(()) },
            FUNCT_DSRAV => { self.do_dsrav(raw); Ok(()) },
            FUNCT_MULT => { self.do_mult(raw); Ok(()) },
            FUNCT_MULTU => { self.do_multu(raw); Ok(()) },
            FUNCT_DIV => { self.do_div(raw); Ok(()) },
            FUNCT_DIVU => { self.do_divu(raw); Ok(()) },
            FUNCT_ADD => self.do_add(raw),
            FUNCT_ADDU => { self.do_addu(raw); Ok(()) },
            FUNCT_SUB => self.do_sub(raw),
            FUNCT_SUBU => { self.do_subu(raw); Ok(()) },
            FUNCT_AND => { self.do_and(raw); Ok(()) },
            FUNCT_OR => { self.do_or(raw); Ok(()) },
            FUNCT_XOR => { self.do_xor(raw); Ok(()) },
            FUNCT_NOR => { self.do_nor(raw); Ok(()) },
            FUNCT_MFSA => { self.do_mfsa(raw); Ok(()) },
            FUNCT_MTSA => { self.do_mtsa(raw); Ok(()) },
            FUNCT_SLT => { self.do_slt(raw); Ok(()) },
            FUNCT_SLTU => { self.do_sltu(raw); Ok(()) },
            FUNCT_DADD => self.do_dadd(raw),
            FUNCT_DADDU => { self.do_daddu(raw); Ok(()) },
            FUNCT_DSUB => self.do_dsub(raw),
            FUNCT_DSUBU => { self.do_dsubu(raw); Ok(()) },
            FUNCT_TGE => self.do_tge(raw),
            FUNCT_TGEU => self.do_tgeu(raw),
            FUNCT_TLT => self.do_tlt(raw),
            FUNCT_TLTU => self.do_tltu(raw),
            FUNCT_TEQ => self.do_teq(raw),
            FUNCT_TNE => self.do_tne(raw),
            FUNCT_DSLL => { self.do_dsll(raw); Ok(()) },
            FUNCT_DSRL => { self.do_dsrl(raw); Ok(()) },
            FUNCT_DSRA => { self.do_dsra(raw); Ok(()) },
            FUNCT_DSLL32 => { self.do_dsll32(raw); Ok(()) },
            FUNCT_DSRL32 => { self.do_dsrl32(raw); Ok(()) },
            FUNCT_DSRA32 => { self.do_dsra32(raw); Ok(()) },
            _ => Err(Fault::UnimplementedFunction { funct }),
        }
    }

    // ---- 32-bit shifts ----

    fn do_sll(&mut self, raw: u32)
        ensures
            final(self)@ == op_sll(old(self)@, raw),
    {
        let rt = extract_rt(raw);
        let rd = extract_rd(raw);
        let sa = extract_sa(raw);
        let result = self.read_gpr_word(rt) << sa;
        self.write_gpr_word(rd, result);
    }

    fn do_srl(&mut self, raw: u32)
        ensures
            final(self)@ == op_srl(old(self)@, raw),
    {
        let rt = extract_rt(raw);
        let rd = extract_rd(raw);
        let sa = extract_sa(raw);
        let result = self.read_gpr_word(rt) >> sa;
        self.write_gpr_word(rd, result);
    }

    fn do_sra(&mut self, raw: u32)
        ensures
            final(self)@ == op_sra(old(self)@, raw),
    {
        let rt = extract_rt(raw);
        let rd = extract_rd(raw);
        let sa = extract_sa(raw);
        let result = (self.read_gpr_word(rt) as i32) >> sa;
        self.write_gpr_word(rd, result as u32);
    }

    fn do_sllv(&mut self, raw: u32)
        ensures
            final(self)@ == op_sllv(old(self)@, raw),
    {
        let rs = extract_rs(raw);
        let rt = extract_rt(raw);
        let rd = extract_rd(raw);
        let shift = self.read_gpr_word(rs) & 0x1f;
        proof { lemma_masked_shift(old(self)@.word(rs)); }
        let result = self.read_gpr_word(rt) << shift;
        self.write_gpr_word(rd, result);
    }

    fn do_srlv(&mut self, raw: u32)
        ensures
            final(self)@ == op_srlv(old(self)@, raw),
    {
        let rs = extract_rs(raw);
        let rt = extract_rt(raw);
        let rd = extract_rd(raw);
        let shift = self.read_gpr_word(rs) & 0x1f;
        proof { lemma_masked_shift(old(self)@.word(rs)); }
        let result = self.read_gpr_word(rt) >> shift;
        self.write_gpr_word(rd, result);
    }

    fn do_srav(&mut self, raw: u32)
        ensures
            final(self)@ == op_srav(old(self)@, raw),
    {
        let rs = extract_rs(raw);
        let rt = extract_rt(raw);
        let rd = extract_rd(raw);
        let shift = self.read_gpr_word(rs) & 0x1f;
        proof { lemma_masked_shift(old(self)@.word(rs)); }
        let result = (self.read_gpr_word(rt) as i32) >> shift;
        self.write_gpr_word(rd, result as u32);
    }

    // ---- 64-bit shifts ----

    fn do_dsll(&mut self, raw: u32)
        ensures
            final(self)@ == op_dsll(old(self)@, raw),
    {
        let rt = extract_rt(raw);
        let rd = extract_rd(raw);
        let sa = extract_sa(raw);
        let result = self.read_gpr_dword(rt) << sa;
        self.write_gpr_dword(rd, result);
    }

    fn do_dsrl(&mut self, raw: u32)
        ensures
            final(self)@ == op_dsrl(old(self)@, raw),
    {
        let rt = extract_rt(raw);
        let rd = extract_rd(raw);
        let sa = extract_sa(raw);
        let result = self.read_gpr_dword(rt) >> sa;
        self.write_gpr_dword(rd, result);
    }

    fn do_dsra(&mut self, raw: u32)
        ensures
            final(self)@ == op_dsra(old(self)@, raw),
    {
        let rt = extract_rt(raw);
        let rd = extract_rd(raw);
        let sa = extract_sa(raw);
        let result = (self.read_gpr_dword(rt) as i64) >> sa;
        self.write_gpr_dword(rd, result as u64);
    }

    fn do_dsll32(&mut self, raw: u32)
        ensures
            final(self)@ == op_dsll32(old(self)@, raw),
    {
        let rt = extract_rt(raw);
        let rd = extract_rd(raw);
        let sa = extract_sa(raw);
        let result = self.read_gpr_dword(rt) << (sa + 32);
        self.write_gpr_dword(rd, result);
    }

    fn do_dsrl32(&mut self, raw: u32)
        ensures
            final(self)@ == op_dsrl32(old(self)@, raw),
    {
        let rt = extract_rt(raw);
        let rd = extract_rd(raw);
        let sa = extract_sa(raw);
        let result = self.read_gpr_dword(rt) >> (sa + 32);
        self.write_gpr_dword(rd, result);
    }

    fn do_dsra32(&mut self, raw: u32)
        ensures
            final(self)@ == op_dsra32(old(self)@, raw),
    {
        let rt = extract_rt(raw);
        let rd = extract_rd(raw);
        let sa = extract_sa(raw);
        let result = (self.read_gpr_dword(rt) as i64) >> (sa + 32);
        self.write_gpr_dword(rd, result as u64);
    }

    fn do_dsllv(&mut self, raw: u32)
        ensures
            final(self)@ == op_dsllv(old(self)@, raw),
    {
        let rs = extract_rs(raw);
        let rt = extract_rt(raw);
        let rd = extract_rd(raw);
        let shift = self.read_gpr_word(rs) & 0x3f;
        proof { lemma_masked_shift(old(self)@.word(rs)); }
        let result = self.read_gpr_dword(rt) << shift;
        self.write_gpr_dword(rd, result);
    }

    fn do_dsrlv(&mut self, raw: u32)
        ensures
            final(self)@ == op_dsrlv(old(self)@, raw),
    {
        let rs = extract_rs(raw);
        let rt = extract_rt(raw);
        let rd = extract_rd(raw);
        let shift = self.read_gpr_word(rs) & 0x3f;
        proof { lemma_masked_shift(old(self)@.word(rs)); }
        let result = self.read_gpr_dword(rt) >> shift;
        self.write_gpr_dword(rd, result);
    }

    fn do_dsrav(&mut self, raw: u32)
        ensures
            final(self)@ == op_dsrav(old(self)@, raw),
    {
        let rs = extract_rs(raw);
        let rt = extract_rt(raw);
        let rd = extract_rd(raw);
        let shift = self.read_gpr_word(rs) & 0x3f;
        proof { lemma_masked_shift(old(self)@.word(rs)); }
        let result = (self.read_gpr_dword(rt) as i64) >> shift;
        self.write_gpr_dword(rd, result as u64);
    }

    // ---- jumps ----

    fn do_jr(&mut self, raw: u32)
        ensures
            final(self)@ == op_jr(old(self)@, raw),
    {
        let rs = extract_rs(raw);
        let target = self.read_gpr_word(rs);
        self.set_next_pc(target);
    }

    fn do_jalr(&mut self, raw: u32)
        ensures
            final(self)@ == op_jalr(old(self)@, raw),
    {
        let rs = extract_rs(raw);
        let rd = extract_rd(raw);
        // Read the target first: `rd` may name the same register.
        let target = self.read_gpr_word(rs);
        let link = self.pc().wrapping_add(8);
        self.write_gpr_dword(rd, link as u64);
        self.set_next_pc(target);
    }

    // ---- conditional moves ----

    fn do_movz(&mut self, raw: u32)
        ensures
            final(self)@ == op_movz(old(self)@, raw),
    {
        let rs = extract_rs(raw);
        let rt = extract_rt(raw);
        let rd = extract_rd(raw);
        if self.read_gpr_dword(rt) == 0 {
            let value = self.read_gpr_qword(rs);
            self.write_gpr_qword(rd, value);
        }
    }

    fn do_movn(&mut self, raw: u32)
        ensures
            final(self)@ == op_movn(old(self)@, raw),
    {
        let rs = extract_rs(raw);
        let rt = extract_rt(raw);
        let rd = extract_rd(raw);
        if self.read_gpr_dword(rt) != 0 {
            let value = self.read_gpr_qword(rs);
            self.write_gpr_qword(rd, value);
        }
    }

    // ---- exceptions and barrier ----

    fn do_syscall(&self, _raw: u32) -> (r: Result<(), Fault>)
        ensures
            r == Err::<(), Fault>(Fault::SoftwareException { cause: SoftwareKind::Syscall }),
    {
        Err(Fault::SoftwareException { cause: SoftwareKind::Syscall })
    }

    fn do_break(&self, _raw: u32) -> (r: Result<(), Fault>)
        ensures
            r == Err::<(), Fault>(Fault::SoftwareException { cause: SoftwareKind::Break }),
    {
        Err(Fault::SoftwareException { cause: SoftwareKind::Break })
    }

    /// Memory barrier: nothing to order in this model.
    fn do_sync(&self, _raw: u32) {
    }

    // ---- HI, LO and SA transfers ----

    fn do_mfhi(&mut self, raw: u32)
        ensures
            final(self)@ == op_mfhi(old(self)@, raw),
    {
        let rd = extract_rd(raw);
        let value = self.hi();
        self.write_gpr_dword(rd, value);
    }

    fn do_mthi(&mut self, raw: u32)
        ensures
            final(self)@ == op_mthi(old(self)@, raw),
    {
        let rs = extract_rs(raw);
        let value = self.read_gpr_dword(rs);
        self.set_hi(value);
    }

    fn do_mflo(&mut self, raw: u32)
        ensures
            final(self)@ == op_mflo(old(self)@, raw),
    {
        let rd = extract_rd(raw);
        let value = self.lo();
        self.write_gpr_dword(rd, value);
    }

    fn do_mtlo(&mut self, raw: u32)
        ensures
            final(self)@ == op_mtlo(old(self)@, raw),
    {
        let rs = extract_rs(raw);
        let value = self.read_gpr_dword(rs);
        self.set_lo(value);
    }

    fn do_mfsa(&mut self, raw: u32)
        ensures
            final(self)@ == op_mfsa(old(self)@, raw),
    {
        let rd = extract_rd(raw);
        let value = self.sa();
        self.write_gpr_dword(rd, value);
    }

    fn do_mtsa(&mut self, raw: u32)
        ensures
            final(self)@ == op_mtsa(old(self)@, raw),
    {
        let rs = extract_rs(raw);
        let value = self.read_gpr_dword(rs);
        self.set_sa(value);
    }

    // ---- multiply and divide ----

    fn do_mult(&mut self, raw: u32)
        ensures
            final(self)@ == op_mult(old(self)@, raw),
    {
        let rs = extract_rs(raw);
        let rt = extract_rt(raw);
        let a = self.read_gpr_word(rs) as i32 as i64;
        let b = self.read_gpr_word(rt) as i32 as i64;
        assert(-0x8000_0000 <= a <= 0x7fff_ffff && -0x8000_0000 <= b <= 0x7fff_ffff
            ==> -0x4000_0000_0000_0000 <= a * b <= 0x4000_0000_0000_0000) by (nonlinear_arith);
        let product = a * b;
        self.set_lo(product as i32 as u64);
        self.set_hi(((product as u64) >> 32u64) as i32 as u64);
    }

    fn do_multu(&mut self, raw: u32)
        ensures
            final(self)@ == op_multu(old(self)@, raw),
    {
        let rs = extract_rs(raw);
        let rt = extract_rt(raw);
        let a = self.read_gpr_word(rs) as u64;
        let b = self.read_gpr_word(rt) as u64;
        assert(a <= 0xffff_ffff && b <= 0xffff_ffff ==> a * b <= 0xffff_fffe_0000_0001)
            by (nonlinear_arith);
        let product = a * b;
        self.set_lo(product as i32 as u64);
        self.set_hi((product >> 32u64) as i32 as u64);
    }

    /// Division by zero leaves HI and LO as they were.
    fn do_div(&mut self, raw: u32)
        ensures
            final(self)@ == op_div(old(self)@, raw),
    {
        let rs = extract_rs(raw);
        let rt = extract_rt(raw);
        let a = self.read_gpr_word(rs) as i32 as i64;
        let b = self.read_gpr_word(rt) as i32 as i64;
        if b != 0 {
            let ua: u64 = if a < 0 { (-a) as u64 } else { a as u64 };
            let ub: u64 = if b < 0 { (-b) as u64 } else { b as u64 };
            let q = ua / ub;
            let m = ua % ub;
            assert(q <= ua) by (nonlinear_arith) requires ub >= 1, q == ua / ub;
            let quotient: i64 = if (a < 0) == (b < 0) { q as i64 } else { -(q as i64) };
            let remainder: i64 = if a < 0 { -(m as i64) } else { m as i64 };
            assert(quotient == trunc_div(a as int, b as int));
            assert(remainder == trunc_rem(a as int, b as int));
            self.set_lo(quotient as i32 as u64);
            self.set_hi(remainder as i32 as u64);
        }
    }

    /// Division by zero leaves HI and LO as they were.
    fn do_divu(&mut self, raw: u32)
        ensures
            final(self)@ == op_divu(old(self)@, raw),
    {
        let rs = extract_rs(raw);
        let rt = extract_rt(raw);
        let a = self.read_gpr_word(rs);
        let b = self.read_gpr_word(rt);
        if b != 0 {
            self.set_lo((a / b) as i32 as u64);
            self.set_hi((a % b) as i32 as u64);
        }
    }

    // ---- add and subtract ----

    fn do_add(&mut self, raw: u32) -> (r: Result<(), Fault>)
        ensures
            realizes(old(self)@, final(self)@, r, op_add(old(self)@, raw)),
    {
        let rs = extract_rs(raw);
        let rt = extract_rt(raw);
        let rd = extract_rd(raw);
        let a = self.read_gpr_word(rs) as i32;
        let b = self.read_gpr_word(rt) as i32;
        match a.checked_add(b) {
            Some(v) => {
                self.write_gpr_word(rd, v as u32);
                Ok(())
            },
            None => Err(Fault::ArithmeticOverflow { op: ArithOp::Add }),
        }
    }

    fn do_sub(&mut self, raw: u32) -> (r: Result<(), Fault>)
        ensures
            realizes(old(self)@, final(self)@, r, op_sub(old(self)@, raw)),
    {
        let rs = extract_rs(raw);
        let rt = extract_rt(raw);
        let rd = extract_rd(raw);
        let a = self.read_gpr_word(rs) as i32;
        let b = self.read_gpr_word(rt) as i32;
        match a.checked_sub(b) {
            Some(v) => {
                self.write_gpr_word(rd, v as u32);
                Ok(())
            },
            None => Err(Fault::ArithmeticOverflow { op: ArithOp::Sub }),
        }
    }

    fn do_dadd(&mut self, raw: u32) -> (r: Result<(), Fault>)
        ensures
            realizes(old(self)@, final(self)@, r, op_dadd(old(self)@, raw)),
    {
        let rs = extract_rs(raw);
        let rt = extract_rt(raw);
        let rd = extract_rd(raw);
        let a = self.read_gpr_dword(rs) as i64;
        let b = self.read_gpr_dword(rt) as i64;
        match a.checked_add(b) {
            Some(v) => {
                self.write_gpr_dword(rd, v as u64);
                Ok(())
            },
            None => Err(Fault::ArithmeticOverflow { op: ArithOp::Dadd }),
        }
    }

    fn do_dsub(&mut self, raw: u32) -> (r: Result<(), Fault>)
        ensures
            realizes(old(self)@, final(self)@, r, op_dsub(old(self)@, raw)),
    {
        let rs = extract_rs(raw);
        let rt = extract_rt(raw);
        let rd = extract_rd(raw);
        let a = self.read_gpr_dword(rs) as i64;
        let b = self.read_gpr_dword(rt) as i64;
        match a.checked_sub(b) {
            Some(v) => {
                self.write_gpr_dword(rd, v as u64);
                Ok(())
            },
            None => Err(Fault::ArithmeticOverflow { op: ArithOp::Dsub }),
        }
    }

    fn do_addu(&mut self, raw: u32)
        ensures
            final(self)@ == op_addu(old(self)@, raw),
    {
        let rs = extract_rs(raw);
        let rt = extract_rt(raw);
        let rd = extract_rd(raw);
        let result = self.read_gpr_word(rs).wrapping_add(self.read_gpr_word(rt));
        self.write_gpr_word(rd, result);
    }

    fn do_subu(&mut self, raw: u32)
        ensures
            final(self)@ == op_subu(old(self)@, raw),
    {
        let rs = extract_rs(raw);
        let rt = extract_rt(raw);
        let rd = extract_rd(raw);
        let result = self.read_gpr_word(rs).wrapping_sub(self.read_gpr_word(rt));
        self.write_gpr_word(rd, result);
    }

    fn do_daddu(&mut self, raw: u32)
        ensures
            final(self)@ == op_daddu(old(self)@, raw),
    {
        let rs = extract_rs(raw);
        let rt = extract_rt(raw);
        let rd = extract_rd(raw);
        let result = self.read_gpr_dword(rs).wrapping_add(self.read_gpr_dword(rt));
        self.write_gpr_dword(rd, result);
    }

    fn do_dsubu(&mut self, raw: u32)
        ensures
            final(self)@ == op_dsubu(old(self)@, raw),
    {
        let rs = extract_rs(raw);
        let rt = extract_rt(raw);
        let rd = extract_rd(raw);
        let result = self.read_gpr_dword(rs).wrapping_sub(self.read_gpr_dword(rt));
        self.write_gpr_dword(rd, result);
    }

    // ---- bitwise logic ----

    fn do_and(&mut self, raw: u32)
        ensures
            final(self)@ == op_and(old(self)@, raw),
    {
        let rs = extract_rs(raw);
        let rt = extract_rt(raw);
        let rd = extract_rd(raw);
        let result = self.read_gpr_qword(rs) & self.read_gpr_qword(rt);
        self.write_gpr_qword(rd, result);
    }

    fn do_or(&mut self, raw: u32)
        ensures
            final(self)@ == op_or(old(self)@, raw),
    {
        let rs = extract_rs(raw);
        let rt = extract_rt(raw);
        let rd = extract_rd(raw);
        let result = self.read_gpr_qword(rs) | self.read_gpr_qword(rt);
        self.write_gpr_qword(rd, result);
    }

    fn do_xor(&mut self, raw: u32)
        ensures
            final(self)@ == op_xor(old(self)@, raw),
    {
        let rs = extract_rs(raw);
        let rt = extract_rt(raw);
        let rd = extract_rd(raw);
        let result = self.read_gpr_qword(rs) ^ self.read_gpr_qword(rt);
        self.write_gpr_qword(rd, result);
    }

    fn do_nor(&mut self, raw: u32)
        ensures
            final(self)@ == op_nor(old(self)@, raw),
    {
        let rs = extract_rs(raw);
        let rt = extract_rt(raw);
        let rd = extract_rd(raw);
        let result = !(self.read_gpr_qword(rs) | self.read_gpr_qword(rt));
        self.write_gpr_qword(rd, result);
    }

    // ---- set on less than ----

    fn do_slt(&mut self, raw: u32)
        ensures
            final(self)@ == op_slt(old(self)@, raw),
    {
        let rs = extract_rs(raw);
        let rt = extract_rt(raw);
        let rd = extract_rd(raw);
        let result: u64 = if (self.read_gpr_dword(rs) as i64) < (self.read_gpr_dword(rt) as i64) {
            1
        } else {
            0
        };
        self.write_gpr_dword(rd, result);
    }

    fn do_sltu(&mut self, raw: u32)
        ensures
            final(self)@ == op_sltu(old(self)@, raw),
    {
        let rs = extract_rs(raw);
        let rt = extract_rt(raw);
        let rd = extract_rd(raw);
        let result: u64 = if self.read_gpr_dword(rs) < self.read_gpr_dword(rt) {
            1
        } else {
            0
        };
        self.write_gpr_dword(rd, result);
    }

    // ---- traps ----

    fn do_tge(&self, raw: u32) -> (r: Result<(), Fault>)
        ensures
            realizes(self@, self@, r, op_trap(self@, raw, TrapKind::Tge)),
    {
        let rs = extract_rs(raw);
        let rt = extract_rt(raw);
        if (self.read_gpr_dword(rs) as i64) >= (self.read_gpr_dword(rt) as i64) {
            Err(Fault::Trap { kind: TrapKind::Tge, rs, rt })
        } else {
            Ok(())
        }
    }

    fn do_tgeu(&self, raw: u32) -> (r: Result<(), Fault>)
        ensures
            realizes(self@, self@, r, op_trap(self@, raw, TrapKind::Tgeu)),
    {
        let rs = extract_rs(raw);
        let rt = extract_rt(raw);
        if self.read_gpr_dword(rs) >= self.read_gpr_dword(rt) {
            Err(Fault::Trap { kind: TrapKind::Tgeu, rs, rt })
        } else {
            Ok(())
        }
    }

    fn do_tlt(&self, raw: u32) -> (r: Result<(), Fault>)
        ensures
            realizes(self@, self@, r, op_trap(self@, raw, TrapKind::Tlt)),
    {
        let rs = extract_rs(raw);
        let rt = extract_rt(raw);
        if (self.read_gpr_dword(rs) as i64) < (self.read_gpr_dword(rt) as i64) {
            Err(Fault::Trap { kind: TrapKind::Tlt, rs, rt })
        } else {
            Ok(())
        }
    }

    fn do_tltu(&self, raw: u32) -> (r: Result<(), Fault>)
        ensures
            realizes(self@, self@, r, op_trap(self@, raw, TrapKind::Tltu)),
    {
        let rs = extract_rs(raw);
        let rt = extract_rt(raw);
        if self.read_gpr_dword(rs) < self.read_gpr_dword(rt) {
            Err(Fault::Trap { kind: TrapKind::Tltu, rs, rt })
        } else {
            Ok(())
        }
    }

    fn do_teq(&self, raw: u32) -> (r: Result<(), Fault>)
        ensures
            realizes(self@, self@, r, op_trap(self@, raw, TrapKind::Teq)),
    {
        let rs = extract_rs(raw);
        let rt = extract_rt(raw);
        if self.read_gpr_dword(rs) == self.read_gpr_dword(rt) {
            Err(Fault::Trap { kind: TrapKind::Teq, rs, rt })
        } else {
            Ok(())
        }
    }

    fn do_tne(&self, raw: u32) -> (r: Result<(), Fault>)
        ensures
            realizes(self@, self@, r, op_trap(self@, raw, TrapKind::Tne)),
    {
        let rs = extract_rs(raw);
        let rt = extract_rt(raw);
        if self.read_gpr_dword(rs) != self.read_gpr_dword(rt) {
            Err(Fault::Trap { kind: TrapKind::Tne, rs, rt })
        } else {
            Ok(())
        }
    }
}

} // verus!
