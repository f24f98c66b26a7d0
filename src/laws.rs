//! General properties of the instruction semantics, proved once for every
//! state and instruction word.
use vstd::prelude::*;

use crate::cpu::{pc_add, sext32, sext64, CpuView};
use crate::decode::{
    funct_of, lemma_fields_bounded, opcode_of, rd_of, rs_of, rt_of, FUNCT_ADD, FUNCT_ADDU, FUNCT_BREAK, FUNCT_JALR,
    FUNCT_JR, FUNCT_MOVN, FUNCT_MOVZ, FUNCT_SYSCALL, FUNCT_TEQ, FUNCT_TGE, FUNCT_TGEU,
    FUNCT_TLT, FUNCT_TLTU, FUNCT_TNE, OPCODE_SPECIAL,
};
use crate::fault::{ArithOp, Fault, SoftwareKind, TrapKind};
use crate::semantics::{realizes, step};

verus! {

/// `raw` is the SPECIAL-family instruction with function field `funct`.
pub open spec fn is_special(raw: u32, funct: u32) -> bool {
    opcode_of(raw) == OPCODE_SPECIAL && funct_of(raw) == funct
}

/// `n` differs from `s` in at most register `i`.
pub open spec fn only_gpr_changed(s: CpuView, n: CpuView, i: usize) -> bool {
    &&& n.gprs.len() == s.gprs.len()
    &&& forall|j: int| 0 <= j < s.gprs.len() && j != i ==> n.gprs[j] == s.gprs[j]
    &&& n.pc == s.pc && n.next_pc == s.next_pc
    &&& n.hi == s.hi && n.lo == s.lo && n.sa == s.sa
}

proof fn lemma_sext32_of_signed(x: i32)
    ensures
        sext32(x as u32) == x as u128,
{
    assert((x as u32) as i32 as u128 == x as u128) by (bit_vector);
}

proof fn lemma_sext64_of_small(v: u64)
    requires
        v < 0x8000_0000_0000_0000,
    ensures
        sext64(v) == v as u128,
{
    assert(v as i64 as u128 == v as u128) by (bit_vector)
        requires
            v < 0x8000_0000_0000_0000u64,
    ;
}

/// A signed word add that fits in 32 bits writes the sum, sign-extended to
/// 128 bits, into `rd`; one that does not fit reports an overflow and
/// commits nothing.
pub proof fn lemma_add_overflow_checked(s: CpuView, raw: u32)
    requires
        s.wf(),
        is_special(raw, FUNCT_ADD),
    ensures
        ({
            let v = (s.word(rs_of(raw)) as i32) + (s.word(rt_of(raw)) as i32);
            i32::MIN <= v <= i32::MAX ==> step(s, raw) == Ok::<CpuView, Fault>(
                s.with_qword(rd_of(raw), v as u128),
            )
        }),
        ({
            let v = (s.word(rs_of(raw)) as i32) + (s.word(rt_of(raw)) as i32);
            !(i32::MIN <= v <= i32::MAX) ==> forall|after: CpuView, r: Result<(), Fault>|
                realizes(s, after, r, step(s, raw)) ==> after == s && r == Err::<(), Fault>(
                    Fault::ArithmeticOverflow { op: ArithOp::Add },
                )
        }),
{
    let v = (s.word(rs_of(raw)) as i32) + (s.word(rt_of(raw)) as i32);
    if i32::MIN <= v <= i32::MAX {
        lemma_sext32_of_signed(v as i32);
    }
}

/// ADDU never faults; it writes the sum modulo 2^32, sign-extended from
/// bit 31.
pub proof fn lemma_addu_wraps(s: CpuView, raw: u32)
    requires
        s.wf(),
        is_special(raw, FUNCT_ADDU),
    ensures
        step(s, raw) == Ok::<CpuView, Fault>(
            s.with_word(
                rd_of(raw),
                ((s.word(rs_of(raw)) + s.word(rt_of(raw))) % 0x1_0000_0000) as u32,
            ),
        ),
{
}

/// MOVZ copies all 128 bits of `rs` into `rd` when the doubleword of `rt`
/// is zero and otherwise changes nothing; MOVN does the same on a nonzero
/// `rt`. Neither faults.
pub proof fn lemma_conditional_moves(s: CpuView, raw: u32)
    requires
        s.wf(),
        opcode_of(raw) == OPCODE_SPECIAL,
        funct_of(raw) == FUNCT_MOVZ || funct_of(raw) == FUNCT_MOVN,
    ensures
        step(s, raw) is Ok,
        ({
            let n = step(s, raw)->Ok_0;
            let moves = if funct_of(raw) == FUNCT_MOVZ {
                s.dword(rt_of(raw)) == 0
            } else {
                s.dword(rt_of(raw)) != 0
            };
            &&& moves ==> n.qword(rd_of(raw)) == s.qword(rs_of(raw))
            &&& moves ==> only_gpr_changed(s, n, rd_of(raw))
            &&& !moves ==> n == s
        }),
{
    lemma_fields_bounded(raw);
}

/// JR only redirects next-PC, to the low word of `rs`: no register, PC,
/// HI, LO or SA changes.
pub proof fn lemma_jr_writes_no_register(s: CpuView, raw: u32)
    requires
        s.wf(),
        is_special(raw, FUNCT_JR),
    ensures
        step(s, raw) is Ok,
        ({
            let n = step(s, raw)->Ok_0;
            &&& n.gprs == s.gprs
            &&& n.pc == s.pc && n.hi == s.hi && n.lo == s.lo && n.sa == s.sa
            &&& n.next_pc == s.word(rs_of(raw))
        }),
{
}

/// JALR redirects next-PC to the low word that `rs` held before the
/// instruction, even when `rd` names the same register, and links `rd` to
/// PC + 8; PC itself keeps the delay slot.
pub proof fn lemma_jalr_links(s: CpuView, raw: u32)
    requires
        s.wf(),
        is_special(raw, FUNCT_JALR),
    ensures
        step(s, raw) is Ok,
        ({
            let n = step(s, raw)->Ok_0;
            &&& n.next_pc == s.word(rs_of(raw))
            &&& n.qword(rd_of(raw)) == pc_add(s.pc, 8) as u128
            &&& n.pc == s.pc
            &&& forall|j: int|
                0 <= j < 32 && j != rd_of(raw) ==> n.gprs[j] == s.gprs[j]
            &&& n.hi == s.hi && n.lo == s.lo && n.sa == s.sa
        }),
{
    lemma_fields_bounded(raw);
    lemma_sext64_of_small(pc_add(s.pc, 8) as u64);
}

/// The six trap instructions fault exactly when their condition holds on
/// the 64-bit views of `rs` and `rt`, naming the kind and both registers,
/// and otherwise change nothing.
pub proof fn lemma_trap_conditions(s: CpuView, raw: u32)
    requires
        s.wf(),
        opcode_of(raw) == OPCODE_SPECIAL,
    ensures
        ({
            let a = s.dword(rs_of(raw));
            let b = s.dword(rt_of(raw));
            let trap = |k: TrapKind|
                Err::<CpuView, Fault>(Fault::Trap { kind: k, rs: rs_of(raw), rt: rt_of(raw) });
            let quiet = Ok::<CpuView, Fault>(s);
            &&& funct_of(raw) == FUNCT_TEQ ==> step(s, raw) == if a == b {
                trap(TrapKind::Teq)
            } else {
                quiet
            }
            &&& funct_of(raw) == FUNCT_TNE ==> step(s, raw) == if a != b {
                trap(TrapKind::Tne)
            } else {
                quiet
            }
            &&& funct_of(raw) == FUNCT_TGE ==> step(s, raw) == if a as i64 >= b as i64 {
                trap(TrapKind::Tge)
            } else {
                quiet
            }
            &&& funct_of(raw) == FUNCT_TGEU ==> step(s, raw) == if a >= b {
                trap(TrapKind::Tgeu)
            } else {
                quiet
            }
            &&& funct_of(raw) == FUNCT_TLT ==> step(s, raw) == if (a as i64) < (b as i64) {
                trap(TrapKind::Tlt)
            } else {
                quiet
            }
            &&& funct_of(raw) == FUNCT_TLTU ==> step(s, raw) == if a < b {
                trap(TrapKind::Tltu)
            } else {
                quiet
            }
        }),
{
}

/// TEQ traps exactly when the two registers are equal over all 128 bits,
/// and TNE exactly when they differ, for registers whose low doublewords
/// are equal only when the whole registers are.
pub proof fn lemma_teq_tne_full_width(s: CpuView, raw: u32)
    requires
        s.wf(),
        is_special(raw, FUNCT_TEQ) || is_special(raw, FUNCT_TNE),
        s.dword(rs_of(raw)) == s.dword(rt_of(raw)) ==> s.qword(rs_of(raw)) == s.qword(
            rt_of(raw),
        ),
    ensures
        funct_of(raw) == FUNCT_TEQ ==> (step(s, raw) is Err <==> s.qword(rs_of(raw)) == s.qword(
            rt_of(raw),
        )),
        funct_of(raw) == FUNCT_TNE ==> (step(s, raw) is Err <==> s.qword(rs_of(raw)) != s.qword(
            rt_of(raw),
        )),
{
}

/// Writing a word and reading it back gives the word; the register then
/// holds exactly its sign extension, whatever it held before. Likewise a
/// doubleword, and a quadword verbatim.
pub proof fn lemma_register_round_trip(s: CpuView, i: usize, w: u32, d: u64, q: u128)
    requires
        s.wf(),
        i < 32,
    ensures
        s.with_word(i, w).word(i) == w,
        s.with_word(i, w).qword(i) == (w as i32) as u128,
        s.with_dword(i, d).dword(i) == d,
        s.with_dword(i, d).qword(i) == (d as i64) as u128,
        s.with_qword(i, q).qword(i) == q,
        forall|j: int| 0 <= j < 32 && j != i ==> s.with_word(i, w).gprs[j] == s.gprs[j],
{
    assert((w as i32 as u128) as u32 == w) by (bit_vector);
    assert((d as i64 as u128) as u64 == d) by (bit_vector);
}

/// SYSCALL and BREAK always report their software exception and commit
/// nothing.
pub proof fn lemma_software_exceptions(s: CpuView, raw: u32)
    requires
        s.wf(),
        is_special(raw, FUNCT_SYSCALL) || is_special(raw, FUNCT_BREAK),
    ensures
        forall|after: CpuView, r: Result<(), Fault>|
            #![trigger realizes(s, after, r, step(s, raw))]
            realizes(s, after, r, step(s, raw)) ==> {
                &&& after == s
                &&& funct_of(raw) == FUNCT_SYSCALL ==> r == Err::<(), Fault>(
                    Fault::SoftwareException { cause: SoftwareKind::Syscall },
                )
                &&& funct_of(raw) == FUNCT_BREAK ==> r == Err::<(), Fault>(
                    Fault::SoftwareException { cause: SoftwareKind::Break },
                )
            },
{
}

} // verus!
