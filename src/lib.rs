//! Instruction-execution core for the SPECIAL opcode family of a 64-bit
//! MIPS-derived processor with 128-bit general registers.
//!
//! `Cpu::exec` runs one instruction word and either commits its effects or
//! reports a `Fault` with the state untouched. Its contract is the spec
//! function `semantics::step`; `laws` holds properties proved of it.
use vstd::prelude::*;

pub mod cpu;
pub mod decode;
pub mod fault;
pub mod laws;
pub mod semantics;
pub mod special;

pub use cpu::Cpu;
pub use fault::{ArithOp, Fault, SoftwareKind, TrapKind};

verus! {

} // verus!
