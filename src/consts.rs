//! Symbolic operation codes, sentinel operand indices and the recognised
//! base opcodes.
use vstd::prelude::*;

verus! {

/// Register move.
pub const MOV: u32 = 0;

/// Addition of an immediate (or of a second operand) to the first operand.
pub const ADDI: u32 = 1;

/// Arithmetic or logic operation selected by `funct3` / `funct7`.
pub const ALU: u32 = 2;

/// Comparison of two operands, the kind selected by `funct3`.
pub const CMP: u32 = 3;

/// Memory load.
pub const LD: u32 = 4;

/// Memory store.
pub const ST: u32 = 5;

/// Unconditional jump.
pub const JMP: u32 = 6;

/// Jump to an address held in a register.
pub const JPR: u32 = 7;

/// Conditional jump.
pub const JCC: u32 = 8;

/// System or privileged instruction.
pub const SPC: u32 = 9;

/// Nothing further to do.
pub const NOP: u32 = 10;

/// Illegal instruction: the caller must raise a trap.
pub const EXP: u32 = 11;

/// Operand index meaning "the resolved immediate". Register indices proper
/// run from 0 to 31, so the values from 32 up stand for operands that are
/// not registers.
pub const IMMD_OPERAND: u32 = 32;

/// Operand index meaning "the current program counter".
pub const PC_OPERAND: u32 = 33;

/// Operand index meaning "the program counter plus 4" (the return address).
pub const PC_NEXT_OPERAND: u32 = 34;

/// Load upper immediate (U-type).
pub const OPCODE_LUI: u32 = 0x37;

/// Add upper immediate to the program counter (U-type).
pub const OPCODE_AUIPC: u32 = 0x17;

/// Jump and link (J-type).
pub const OPCODE_JAL: u32 = 0x6f;

/// Jump and link through a register (I-type).
pub const OPCODE_JALR: u32 = 0x67;

/// Conditional branches (B-type).
pub const OPCODE_BRANCH: u32 = 0x63;

/// Loads (I-type).
pub const OPCODE_LOAD: u32 = 0x03;

/// Stores (S-type).
pub const OPCODE_STORE: u32 = 0x23;

/// Register-immediate arithmetic (I-type).
pub const OPCODE_OP_IMM: u32 = 0x13;

/// Register-register arithmetic (R-type).
pub const OPCODE_OP: u32 = 0x33;

/// Memory-ordering fences (I-type).
pub const OPCODE_MISC_MEM: u32 = 0x0f;

/// Environment calls and breakpoints (I-type).
pub const OPCODE_SYSTEM: u32 = 0x73;

} // verus!
