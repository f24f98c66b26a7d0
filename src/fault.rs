//! Faults reported by one instruction instead of committing its effects.
use vstd::prelude::*;

verus! {

/// Trapping add/subtract whose signed result overflowed.
#[derive(Clone, Copy, Debug, PartialEq, Eq, Structural)]
pub enum ArithOp {
    Add,
    Sub,
    Dadd,
    Dsub,
}

/// Conditional trap instructions.
#[derive(Clone, Copy, Debug, PartialEq, Eq, Structural)]
pub enum TrapKind {
    Tge,
    Tgeu,
    Tlt,
    Tltu,
    Teq,
    Tne,
}

/// Instructions that always raise a software exception.
#[derive(Clone, Copy, Debug, PartialEq, Eq, Structural)]
pub enum SoftwareKind {
    Syscall,
    Break,
}

/// Why an instruction did not complete. A faulting instruction leaves the
/// processor state exactly as it found it.
#[derive(Clone, Copy, Debug, PartialEq, Eq, Structural)]
pub enum Fault {
    /// The primary opcode is not the SPECIAL family.
    UnimplementedOpcode { opcode: u32 },
    /// The SPECIAL function field names no known operation.
    UnimplementedFunction { funct: u32 },
    /// A trapping add or subtract overflowed its signed width.
    ArithmeticOverflow { op: ArithOp },
    /// A trap condition held between registers `rs` and `rt`.
    Trap { kind: TrapKind, rs: usize, rt: usize },
    /// SYSCALL or BREAK was executed.
    SoftwareException { cause: SoftwareKind },
}

} // verus!
