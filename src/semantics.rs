//! What each SPECIAL-family instruction does to the processor state, as
//! spec functions over `CpuView`.
use vstd::math::abs;
use vstd::prelude::*;

use crate::cpu::{pc_add, CpuView};
use crate::decode::{
    funct_of, opcode_of, rd_of, rs_of, rt_of, sa_of, FUNCT_ADD, FUNCT_ADDU, FUNCT_AND,
    FUNCT_BREAK, FUNCT_DADD, FUNCT_DADDU, FUNCT_DIV, FUNCT_DIVU, FUNCT_DSLL, FUNCT_DSLL32,
    FUNCT_DSLLV, FUNCT_DSRA, FUNCT_DSRA32, FUNCT_DSRAV, FUNCT_DSRL, FUNCT_DSRL32, FUNCT_DSRLV,
    FUNCT_DSUB, FUNCT_DSUBU, FUNCT_JALR, FUNCT_JR, FUNCT_MFHI, FUNCT_MFLO, FUNCT_MFSA,
    FUNCT_MOVN, FUNCT_MOVZ, FUNCT_MTHI, FUNCT_MTLO, FUNCT_MTSA, FUNCT_MULT, FUNCT_MULTU,
    FUNCT_NOR, FUNCT_OR, FUNCT_SLL, FUNCT_SLLV, FUNCT_SLT, FUNCT_SLTU, FUNCT_SRA, FUNCT_SRAV,
    FUNCT_SRL, FUNCT_SRLV, FUNCT_SUB, FUNCT_SUBU, FUNCT_SYNC, FUNCT_SYSCALL, FUNCT_TEQ,
    FUNCT_TGE, FUNCT_TGEU, FUNCT_TLT, FUNCT_TLTU, FUNCT_TNE, FUNCT_XOR, OPCODE_SPECIAL,
};
use crate::fault::{ArithOp, Fault, SoftwareKind, TrapKind};

verus! {

/// `after` and `r` are what executing `expected` means: on success the new
/// state, on a fault that fault with the state untouched.
pub open spec fn realizes(
    before: CpuView,
    after: CpuView,
    r: Result<(), Fault>,
    expected: Result<CpuView, Fault>,
) -> bool {
    match expected {
        Ok(n) => r is Ok && after == n,
        Err(f) => r == Err::<(), Fault>(f) && after == before,
    }
}

/// Shift amount of the 32-bit variable shifts: the low 5 bits of `rs`.
pub open spec fn shift5(s: CpuView, raw: u32) -> u32 {
    s.word(rs_of(raw)) & 0x1f
}

/// Shift amount of the 64-bit variable shifts: the low 6 bits of `rs`.
pub open spec fn shift6(s: CpuView, raw: u32) -> u32 {
    s.word(rs_of(raw)) & 0x3f
}

// ---- 32-bit shifts: low word of rt, result sign-extended ----

pub open spec fn op_sll(s: CpuView, raw: u32) -> CpuView {
    s.with_word(rd_of(raw), s.word(rt_of(raw)) << sa_of(raw))
}

pub open spec fn op_srl(s: CpuView, raw: u32) -> CpuView {
    s.with_word(rd_of(raw), s.word(rt_of(raw)) >> sa_of(raw))
}

pub open spec fn op_sra(s: CpuView, raw: u32) -> CpuView {
    s.with_word(rd_of(raw), ((s.word(rt_of(raw)) as i32) >> sa_of(raw)) as u32)
}

pub open spec fn op_sllv(s: CpuView, raw: u32) -> CpuView {
    s.with_word(rd_of(raw), s.word(rt_of(raw)) << shift5(s, raw))
}

pub open spec fn op_srlv(s: CpuView, raw: u32) -> CpuView {
    s.with_word(rd_of(raw), s.word(rt_of(raw)) >> shift5(s, raw))
}

pub open spec fn op_srav(s: CpuView, raw: u32) -> CpuView {
    s.with_word(rd_of(raw), ((s.word(rt_of(raw)) as i32) >> shift5(s, raw)) as u32)
}

// ---- 64-bit shifts: low doubleword of rt, result sign-extended ----

pub open spec fn op_dsll(s: CpuView, raw: u32) -> CpuView {
    s.with_dword(rd_of(raw), s.dword(rt_of(raw)) << sa_of(raw))
}

pub open spec fn op_dsrl(s: CpuView, raw: u32) -> CpuView {
    s.with_dword(rd_of(raw), s.dword(rt_of(raw)) >> sa_of(raw))
}

pub open spec fn op_dsra(s: CpuView, raw: u32) -> CpuView {
    s.with_dword(rd_of(raw), ((s.dword(rt_of(raw)) as i64) >> sa_of(raw)) as u64)
}

pub open spec fn op_dsll32(s: CpuView, raw: u32) -> CpuView {
    s.with_dword(rd_of(raw), s.dword(rt_of(raw)) << (sa_of(raw) + 32) as u32)
}

pub open spec fn op_dsrl32(s: CpuView, raw: u32) -> CpuView {
    s.with_dword(rd_of(raw), s.dword(rt_of(raw)) >> (sa_of(raw) + 32) as u32)
}

pub open spec fn op_dsra32(s: CpuView, raw: u32) -> CpuView {
    s.with_dword(rd_of(raw), ((s.dword(rt_of(raw)) as i64) >> (sa_of(raw) + 32) as u32) as u64)
}

pub open spec fn op_dsllv(s: CpuView, raw: u32) -> CpuView {
    s.with_dword(rd_of(raw), s.dword(rt_of(raw)) << shift6(s, raw))
}

pub open spec fn op_dsrlv(s: CpuView, raw: u32) -> CpuView {
    s.with_dword(rd_of(raw), s.dword(rt_of(raw)) >> shift6(s, raw))
}

pub open spec fn op_dsrav(s: CpuView, raw: u32) -> CpuView {
    s.with_dword(rd_of(raw), ((s.dword(rt_of(raw)) as i64) >> shift6(s, raw)) as u64)
}

// ---- jumps: next-PC takes the low word of rs; PC keeps the delay slot ----

pub open spec fn op_jr(s: CpuView, raw: u32) -> CpuView {
    CpuView { next_pc: s.word(rs_of(raw)), ..s }
}

/// The target is read before the link register is written, so `rd == rs`
/// still jumps to the old value of `rs`.
pub open spec fn op_jalr(s: CpuView, raw: u32) -> CpuView {
    CpuView {
        next_pc: s.word(rs_of(raw)),
        ..s.with_dword(rd_of(raw), pc_add(s.pc, 8) as u64)
    }
}

// ---- conditional moves: test the doubleword of rt, copy all of rs ----

pub open spec fn op_movz(s: CpuView, raw: u32) -> CpuView {
    if s.dword(rt_of(raw)) == 0 {
        s.with_qword(rd_of(raw), s.qword(rs_of(raw)))
    } else {
        s
    }
}

pub open spec fn op_movn(s: CpuView, raw: u32) -> CpuView {
    if s.dword(rt_of(raw)) != 0 {
        s.with_qword(rd_of(raw), s.qword(rs_of(raw)))
    } else {
        s
    }
}

// ---- HI, LO and SA transfers ----

pub open spec fn op_mfhi(s: CpuView, raw: u32) -> CpuView {
    s.with_dword(rd_of(raw), s.hi)
}

pub open spec fn op_mthi(s: CpuView, raw: u32) -> CpuView {
    CpuView { hi: s.dword(rs_of(raw)), ..s }
}

pub open spec fn op_mflo(s: CpuView, raw: u32) -> CpuView {
    s.with_dword(rd_of(raw), s.lo)
}

pub open spec fn op_mtlo(s: CpuView, raw: u32) -> CpuView {
    CpuView { lo: s.dword(rs_of(raw)), ..s }
}

pub open spec fn op_mfsa(s: CpuView, raw: u32) -> CpuView {
    s.with_dword(rd_of(raw), s.sa)
}

pub open spec fn op_mtsa(s: CpuView, raw: u32) -> CpuView {
    CpuView { sa: s.dword(rs_of(raw)), ..s }
}

// ---- multiply and divide ----

/// Low 32 bits of `p`, sign-extended to 64.
pub open spec fn low_half(p: int) -> u64 {
    p as i32 as u64
}

/// Bits 63..32 of the 64-bit pattern of `p`, sign-extended to 64.
pub open spec fn high_half(p: int) -> u64 {
    ((p as u64) >> 32u64) as i32 as u64
}

pub open spec fn op_mult(s: CpuView, raw: u32) -> CpuView {
    let p = (s.word(rs_of(raw)) as i32) * (s.word(rt_of(raw)) as i32);
    CpuView { lo: low_half(p), hi: high_half(p), ..s }
}

pub open spec fn op_multu(s: CpuView, raw: u32) -> CpuView {
    let p = s.word(rs_of(raw)) * s.word(rt_of(raw));
    CpuView { lo: low_half(p), hi: high_half(p), ..s }
}

/// Quotient rounded toward zero.
pub open spec fn trunc_div(a: int, b: int) -> int {
    let q = (abs(a) / abs(b)) as int;
    if (a < 0) == (b < 0) {
        q
    } else {
        -q
    }
}

/// Remainder of `trunc_div`: it takes the sign of the dividend.
pub open spec fn trunc_rem(a: int, b: int) -> int {
    let r = (abs(a) % abs(b)) as int;
    if a < 0 {
        -r
    } else {
        r
    }
}

/// LO takes the quotient and HI the remainder, each as a word sign-extended
/// to 64 bits; `i32::MIN / -1` therefore leaves `i32::MIN` in LO. Division
/// by zero is a no-op: HI and LO keep their values.
pub open spec fn op_div(s: CpuView, raw: u32) -> CpuView {
    let a = s.word(rs_of(raw)) as i32 as int;
    let b = s.word(rt_of(raw)) as i32 as int;
    if b == 0 {
        s
    } else {
        CpuView {
            lo: trunc_div(a, b) as i32 as u64,
            hi: trunc_rem(a, b) as i32 as u64,
            ..s
        }
    }
}

/// LO takes the quotient and HI the remainder, each as a word sign-extended
/// to 64 bits. Division by zero is a no-op: HI and LO keep their values.
pub open spec fn op_divu(s: CpuView, raw: u32) -> CpuView {
    let a = s.word(rs_of(raw));
    let b = s.word(rt_of(raw));
    if b == 0 {
        s
    } else {
        CpuView { lo: (a / b) as i32 as u64, hi: (a % b) as i32 as u64, ..s }
    }
}

// ---- add and subtract ----

pub open spec fn op_add(s: CpuView, raw: u32) -> Result<CpuView, Fault> {
    let v = (s.word(rs_of(raw)) as i32) + (s.word(rt_of(raw)) as i32);
    if i32::MIN <= v <= i32::MAX {
        Ok(s.with_word(rd_of(raw), v as u32))
    } else {
        Err(Fault::ArithmeticOverflow { op: ArithOp::Add })
    }
}

pub open spec fn op_sub(s: CpuView, raw: u32) -> Result<CpuView, Fault> {
    let v = (s.word(rs_of(raw)) as i32) - (s.word(rt_of(raw)) as i32);
    if i32::MIN <= v <= i32::MAX {
        Ok(s.with_word(rd_of(raw), v as u32))
    } else {
        Err(Fault::ArithmeticOverflow { op: ArithOp::Sub })
    }
}

pub open spec fn op_dadd(s: CpuView, raw: u32) -> Result<CpuView, Fault> {
    let v = (s.dword(rs_of(raw)) as i64) + (s.dword(rt_of(raw)) as i64);
    if i64::MIN <= v <= i64::MAX {
        Ok(s.with_dword(rd_of(raw), v as u64))
    } else {
        Err(Fault::ArithmeticOverflow { op: ArithOp::Dadd })
    }
}

pub open spec fn op_dsub(s: CpuView, raw: u32) -> Result<CpuView, Fault> {
    let v = (s.dword(rs_of(raw)) as i64) - (s.dword(rt_of(raw)) as i64);
    if i64::MIN <= v <= i64::MAX {
        Ok(s.with_dword(rd_of(raw), v as u64))
    } else {
        Err(Fault::ArithmeticOverflow { op: ArithOp::Dsub })
    }
}

pub open spec fn op_addu(s: CpuView, raw: u32) -> CpuView {
    s.with_word(rd_of(raw), ((s.word(rs_of(raw)) + s.word(rt_of(raw))) % 0x1_0000_0000) as u32)
}

pub open spec fn op_subu(s: CpuView, raw: u32) -> CpuView {
    s.with_word(rd_of(raw), ((s.word(rs_of(raw)) - s.word(rt_of(raw))) % 0x1_0000_0000) as u32)
}

pub open spec fn op_daddu(s: CpuView, raw: u32) -> CpuView {
    s.with_dword(
        rd_of(raw),
        ((s.dword(rs_of(raw)) + s.dword(rt_of(raw))) % 0x1_0000_0000_0000_0000) as u64,
    )
}

pub open spec fn op_dsubu(s: CpuView, raw: u32) -> CpuView {
    s.with_dword(
        rd_of(raw),
        ((s.dword(rs_of(raw)) - s.dword(rt_of(raw))) % 0x1_0000_0000_0000_0000) as u64,
    )
}

// ---- bitwise logic over all 128 bits ----

pub open spec fn op_and(s: CpuView, raw: u32) -> CpuView {
    s.with_qword(rd_of(raw), s.qword(rs_of(raw)) & s.qword(rt_of(raw)))
}

pub open spec fn op_or(s: CpuView, raw: u32) -> CpuView {
    s.with_qword(rd_of(raw), s.qword(rs_of(raw)) | s.qword(rt_of(raw)))
}

pub open spec fn op_xor(s: CpuView, raw: u32) -> CpuView {
    s.with_qword(rd_of(raw), s.qword(rs_of(raw)) ^ s.qword(rt_of(raw)))
}

pub open spec fn op_nor(s: CpuView, raw: u32) -> CpuView {
    s.with_qword(rd_of(raw), !(s.qword(rs_of(raw)) | s.qword(rt_of(raw))))
}

// ---- set on less than, over the 64-bit view ----

pub open spec fn op_slt(s: CpuView, raw: u32) -> CpuView {
    let lt = (s.dword(rs_of(raw)) as i64) < (s.dword(rt_of(raw)) as i64);
    s.with_dword(rd_of(raw), if lt { 1 } else { 0 })
}

pub open spec fn op_sltu(s: CpuView, raw: u32) -> CpuView {
    let lt = s.dword(rs_of(raw)) < s.dword(rt_of(raw));
    s.with_dword(rd_of(raw), if lt { 1 } else { 0 })
}

// ---- traps, over the 64-bit view ----

/// Whether a trap of `kind` fires on the doublewords `a` (rs) and `b` (rt).
pub open spec fn trap_fires(kind: TrapKind, a: u64, b: u64) -> bool {
    match kind {
        TrapKind::Tge => a as i64 >= b as i64,
        TrapKind::Tgeu => a >= b,
        TrapKind::Tlt => (a as i64) < (b as i64),
        TrapKind::Tltu => a < b,
        TrapKind::Teq => a == b,
        TrapKind::Tne => a != b,
    }
}

pub open spec fn op_trap(s: CpuView, raw: u32, kind: TrapKind) -> Result<CpuView, Fault> {
    if trap_fires(kind, s.dword(rs_of(raw)), s.dword(rt_of(raw))) {
        Err(Fault::Trap { kind, rs: rs_of(raw), rt: rt_of(raw) })
    } else {
        Ok(s)
    }
}

// ---- dispatch ----

/// One instruction of the SPECIAL family, chosen by its function field.
pub open spec fn special_step(s: CpuView, raw: u32) -> Result<CpuView, Fault> {
    let f = funct_of(raw);
    if f == FUNCT_SLL { Ok(op_sll(s, raw)) }
    else if f == FUNCT_SRL { Ok(op_srl(s, raw)) }
    else if f == FUNCT_SRA { Ok(op_sra(s, raw)) }
    else if f == FUNCT_SLLV { Ok(op_sllv(s, raw)) }
    else if f == FUNCT_SRLV { Ok(op_srlv(s, raw)) }
    else if f == FUNCT_SRAV { Ok(op_srav(s, raw)) }
    else if f == FUNCT_JR { Ok(op_jr(s, raw)) }
    else if f == FUNCT_JALR { Ok(op_jalr(s, raw)) }
    else if f == FUNCT_MOVZ { Ok(op_movz(s, raw)) }
    else if f == FUNCT_MOVN { Ok(op_movn(s, raw)) }
    else if f == FUNCT_SYSCALL {
        Err(Fault::SoftwareException { cause: SoftwareKind::Syscall })
    } else if f == FUNCT_BREAK {
        Err(Fault::SoftwareException { cause: SoftwareKind::Break })
    } else if f == FUNCT_SYNC { Ok(s) }
    else if f == FUNCT_MFHI { Ok(op_mfhi(s, raw)) }
    else if f == FUNCT_MTHI { Ok(op_mthi(s, raw)) }
    else if f == FUNCT_MFLO { Ok(op_mflo(s, raw)) }
    else if f == FUNCT_MTLO { Ok(op_mtlo(s, raw)) }
    else if f == FUNCT_DSLLV { Ok(op_dsllv(s, raw)) }
    else if f == FUNCT_DSRLV { Ok(op_dsrlv(s, raw)) }
    else if f == FUNCT_DSRAV { Ok(op_dsrav(s, raw)) }
    else if f == FUNCT_MULT { Ok(op_mult(s, raw)) }
    else if f == FUNCT_MULTU { Ok(op_multu(s, raw)) }
    else if f == FUNCT_DIV { Ok(op_div(s, raw)) }
    else if f == FUNCT_DIVU { Ok(op_divu(s, raw)) }
    else if f == FUNCT_ADD { op_add(s, raw) }
    else if f == FUNCT_ADDU { Ok(op_addu(s, raw)) }
    else if f == FUNCT_SUB { op_sub(s, raw) }
    else if f == FUNCT_SUBU { Ok(op_subu(s, raw)) }
    else if f == FUNCT_AND { Ok(op_and(s, raw)) }
    else if f == FUNCT_OR { Ok(op_or(s, raw)) }
    else if f == FUNCT_XOR { Ok(op_xor(s, raw)) }
    else if f == FUNCT_NOR { Ok(op_nor(s, raw)) }
    else if f == FUNCT_MFSA { Ok(op_mfsa(s, raw)) }
    else if f == FUNCT_MTSA { Ok(op_mtsa(s, raw)) }
    else if f == FUNCT_SLT { Ok(op_slt(s, raw)) }
    else if f == FUNCT_SLTU { Ok(op_sltu(s, raw)) }
    else if f == FUNCT_DADD { op_dadd(s, raw) }
    else if f == FUNCT_DADDU { Ok(op_daddu(s, raw)) }
    else if f == FUNCT_DSUB { op_dsub(s, raw) }
    else if f == FUNCT_DSUBU { Ok(op_dsubu(s, raw)) }
    else if f == FUNCT_TGE { op_trap(s, raw, TrapKind::Tge) }
    else if f == FUNCT_TGEU { op_trap(s, raw, TrapKind::Tgeu) }
    else if f == FUNCT_TLT { op_trap(s, raw, TrapKind::Tlt) }
    else if f == FUNCT_TLTU { op_trap(s, raw, TrapKind::Tltu) }
    else if f == FUNCT_TEQ { op_trap(s, raw, TrapKind::Teq) }
    else if f == FUNCT_TNE { op_trap(s, raw, TrapKind::Tne) }
    else if f == FUNCT_DSLL { Ok(op_dsll(s, raw)) }
    else if f == FUNCT_DSRL { Ok(op_dsrl(s, raw)) }
    else if f == FUNCT_DSRA { Ok(op_dsra(s, raw)) }
    else if f == FUNCT_DSLL32 { Ok(op_dsll32(s, raw)) }
    else if f == FUNCT_DSRL32 { Ok(op_dsrl32(s, raw)) }
    else if f == FUNCT_DSRA32 { Ok(op_dsra32(s, raw)) }
    else { Err(Fault::UnimplementedFunction { funct: f }) }
}

/// One instruction: only the SPECIAL primary opcode is implemented.
pub open spec fn step(s: CpuView, raw: u32) -> Result<CpuView, Fault> {
    if opcode_of(raw) == OPCODE_SPECIAL {
        special_step(s, raw)
    } else {
        Err(Fault::UnimplementedOpcode { opcode: opcode_of(raw) })
    }
}

} // verus!
