//! Bit-field extraction from a raw 32-bit instruction word.
use vstd::prelude::*;

verus! {

/// Primary opcode of the SPECIAL family.
pub const OPCODE_SPECIAL: u32 = 0x00;

pub const FUNCT_SLL: u32 = 0x00;
pub const FUNCT_SRL: u32 = 0x02;
pub const FUNCT_SRA: u32 = 0x03;
pub const FUNCT_SLLV: u32 = 0x04;
pub const FUNCT_SRLV: u32 = 0x06;
pub const FUNCT_SRAV: u32 = 0x07;
pub const FUNCT_JR: u32 = 0x08;
pub const FUNCT_JALR: u32 = 0x09;
pub const FUNCT_MOVZ: u32 = 0x0A;
pub const FUNCT_MOVN: u32 = 0x0B;
pub const FUNCT_SYSCALL: u32 = 0x0C;
pub const FUNCT_BREAK: u32 = 0x0D;
pub const FUNCT_SYNC: u32 = 0x0F;
pub const FUNCT_MFHI: u32 = 0x10;
pub const FUNCT_MTHI: u32 = 0x11;
pub const FUNCT_MFLO: u32 = 0x12;
pub const FUNCT_MTLO: u32 = 0x13;
pub const FUNCT_DSLLV: u32 = 0x14;
pub const FUNCT_DSRLV: u32 = 0x16;
pub const FUNCT_DSRAV: u32 = 0x17;
pub const FUNCT_MULT: u32 = 0x18;
pub const FUNCT_MULTU: u32 = 0x19;
pub const FUNCT_DIV: u32 = 0x1A;
pub const FUNCT_DIVU: u32 = 0x1B;
pub const FUNCT_ADD: u32 = 0x20;
pub const FUNCT_ADDU: u32 = 0x21;
pub const FUNCT_SUB: u32 = 0x22;
pub const FUNCT_SUBU: u32 = 0x23;
pub const FUNCT_AND: u32 = 0x24;
pub const FUNCT_OR: u32 = 0x25;
pub const FUNCT_XOR: u32 = 0x26;
pub const FUNCT_NOR: u32 = 0x27;
pub const FUNCT_MFSA: u32 = 0x28;
pub const FUNCT_MTSA: u32 = 0x29;
pub const FUNCT_SLT: u32 = 0x2A;
pub const FUNCT_SLTU: u32 = 0x2B;
pub const FUNCT_DADD: u32 = 0x2C;
pub const FUNCT_DADDU: u32 = 0x2D;
pub const FUNCT_DSUB: u32 = 0x2E;
pub const FUNCT_DSUBU: u32 = 0x2F;
pub const FUNCT_TGE: u32 = 0x30;
pub const FUNCT_TGEU: u32 = 0x31;
pub const FUNCT_TLT: u32 = 0x32;
pub const FUNCT_TLTU: u32 = 0x33;
pub const FUNCT_TEQ: u32 = 0x34;
pub const FUNCT_TNE: u32 = 0x36;
pub const FUNCT_DSLL: u32 = 0x38;
pub const FUNCT_DSRL: u32 = 0x3A;
pub const FUNCT_DSRA: u32 = 0x3B;
pub const FUNCT_DSLL32: u32 = 0x3C;
pub const FUNCT_DSRL32: u32 = 0x3E;
pub const FUNCT_DSRA32: u32 = 0x3F;

/// Primary opcode, bits 31..26.
pub open spec fn opcode_of(raw: u32) -> u32 {
    (raw >> 26u32) & 0x3f
}

/// Function field of the SPECIAL family, bits 5..0.
pub open spec fn funct_of(raw: u32) -> u32 {
    raw & 0x3f
}

/// Source register index, bits 25..21.
pub open spec fn rs_of(raw: u32) -> usize {
    ((raw >> 21u32) & 0x1f) as usize
}

/// Target register index, bits 20..16.
pub open spec fn rt_of(raw: u32) -> usize {
    ((raw >> 16u32) & 0x1f) as usize
}

/// Destination register index, bits 15..11.
pub open spec fn rd_of(raw: u32) -> usize {
    ((raw >> 11u32) & 0x1f) as usize
}

/// Shift-amount field, bits 10..6.
pub open spec fn sa_of(raw: u32) -> u32 {
    (raw >> 6u32) & 0x1f
}

/// Every field fits its width, so register indices are always below 32.
pub proof fn lemma_fields_bounded(raw: u32)
    ensures
        opcode_of(raw) < 64,
        funct_of(raw) < 64,
        rs_of(raw) < 32,
        rt_of(raw) < 32,
        rd_of(raw) < 32,
        sa_of(raw) < 32,
{
    assert(((raw >> 26u32) & 0x3f) < 64 && (raw & 0x3f) < 64 && ((raw >> 21u32) & 0x1f) < 32
        && ((raw >> 16u32) & 0x1f) < 32 && ((raw >> 11u32) & 0x1f) < 32 && ((raw >> 6u32)
        & 0x1f) < 32) by (bit_vector);
}

pub fn extract_opcode(raw: u32) -> (r: u32)
    ensures
        r == opcode_of(raw),
        r < 64,
{
    proof { lemma_fields_bounded(raw); }
    (raw >> 26u32) & 0x3f
}

pub fn extract_funct(raw: u32) -> (r: u32)
    ensures
        r == funct_of(raw),
        r < 64,
{
    proof { lemma_fields_bounded(raw); }
    raw & 0x3f
}

pub fn extract_rs(raw: u32) -> (r: usize)
    ensures
        r == rs_of(raw),
        r < 32,
{
    proof { lemma_fields_bounded(raw); }
    ((raw >> 21u32) & 0x1f) as usize
}

pub fn extract_rt(raw: u32) -> (r: usize)
    ensures
        r == rt_of(raw),
        r < 32,
{
    proof { lemma_fields_bounded(raw); }
    ((raw >> 16u32) & 0x1f) as usize
}

pub fn extract_rd(raw: u32) -> (r: usize)
    ensures
        r == rd_of(raw),
        r < 32,
{
    proof { lemma_fields_bounded(raw); }
    ((raw >> 11u32) & 0x1f) as usize
}

pub fn extract_sa(raw: u32) -> (r: u32)
    ensures
        r == sa_of(raw),
        r < 32,
{
    proof { lemma_fields_bounded(raw); }
    (raw >> 6u32) & 0x1f
}

} // verus!
