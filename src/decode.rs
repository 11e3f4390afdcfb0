//! The decoder: fields, immediates and the dispatch on the opcode.
//!
//! Register index fields (`rd`, `rs1`, `rs2`, `rs3`) hold either a register
//! number from 0 to 31 or one of the sentinel operand indices of
//! [`crate::consts`]: `IMMD_OPERAND` (32), `PC_OPERAND` (33) or
//! `PC_NEXT_OPERAND` (34).
use vstd::prelude::*;
use crate::consts::{
    ADDI, ALU, CMP, EXP, IMMD_OPERAND, JCC, JMP, JPR, LD, MOV, NOP, OPCODE_AUIPC, OPCODE_BRANCH,
    OPCODE_JAL, OPCODE_JALR, OPCODE_LOAD, OPCODE_LUI, OPCODE_MISC_MEM, OPCODE_OP, OPCODE_OP_IMM,
    OPCODE_STORE, OPCODE_SYSTEM, PC_NEXT_OPERAND, PC_OPERAND, SPC, ST,
};
use crate::fields::{bits, funct3_of, funct7_of, opcode_of, rd_of, rs1_of, rs2_of};
use crate::immediate::{
    b_immd_zex, i_immd_zex, j_immd_zex, s_immd_zex, sign_extend, to_b_immd_sex, to_b_immd_zex,
    to_i_immd_sex, to_i_immd_zex, to_j_immd_sex, to_j_immd_zex, to_s_immd_zex, to_u_immd, u_immd,
};

verus! {

/// A decoded instruction word.
#[derive(Debug, Clone, Copy)]
pub struct Instruction {
    /// Bits `[6:0]` of the word.
    pub opcode: u32,
    /// Destination register, or 0 where the instruction writes none.
    pub rd: u32,
    /// Bits `[14:12]` of the word.
    pub funct3: u32,
    /// First source operand.
    pub rs1: u32,
    /// Second source operand.
    pub rs2: u32,
    /// Third source operand: the data register of a store, else 0.
    pub rs3: u32,
    /// Bits `[30:25]` of the word.
    pub funct7: u32,
    /// The immediate of the instruction's format, extended to 32 bits; 0
    /// where the format carries none.
    pub immd: u32,
    /// Primary operation.
    pub op: u32,
    /// Secondary classification.
    pub op2: u32,
}

/// The fields that every format shares, before any handler has run.
pub open spec fn raw_fields(w: u32) -> Instruction {
    Instruction {
        opcode: opcode_of(w),
        rd: rd_of(w),
        funct3: funct3_of(w),
        rs1: rs1_of(w),
        rs2: rs2_of(w),
        rs3: 0,
        funct7: funct7_of(w),
        immd: 0,
        op: 0,
        op2: 0,
    }
}

/// The shift amount of a register-immediate shift is the low five bits of
/// the immediate; other register-immediate operations take it whole.
pub open spec fn op_imm_immd(funct3: u32, i_sex: u32) -> u32 {
    if funct3 == 1 || funct3 == 5 {
        i_sex & 0x1f
    } else {
        i_sex
    }
}

/// The record that the word `w` decodes to.
pub open spec fn decoded(w: u32) -> Instruction {
    let f = raw_fields(w);
    let opc = opcode_of(w);
    let i_sex = sign_extend(i_immd_zex(w), 11);
    if opc == OPCODE_LUI {
        Instruction { immd: u_immd(w), rs2: IMMD_OPERAND, op: MOV, op2: NOP, ..f }
    } else if opc == OPCODE_AUIPC {
        Instruction { immd: u_immd(w), rs1: PC_OPERAND, rs2: IMMD_OPERAND, op: ADDI, op2: NOP, ..f }
    } else if opc == OPCODE_JAL {
        Instruction {
            immd: sign_extend(j_immd_zex(w), 20),
            rs2: PC_NEXT_OPERAND,
            op: MOV,
            op2: JMP,
            ..f
        }
    } else if opc == OPCODE_JALR {
        Instruction { rs2: PC_NEXT_OPERAND, op: MOV, op2: JPR, ..f }
    } else if opc == OPCODE_BRANCH {
        Instruction { immd: sign_extend(b_immd_zex(w), 12), rd: 0, op: CMP, op2: JCC, ..f }
    } else if opc == OPCODE_LOAD {
        Instruction { immd: i_sex, rs2: IMMD_OPERAND, op: ADDI, op2: LD, ..f }
    } else if opc == OPCODE_STORE {
        Instruction {
            immd: sign_extend(s_immd_zex(w), 11),
            rs3: f.rs2,
            rs2: IMMD_OPERAND,
            rd: 0,
            op: ADDI,
            op2: ST,
            ..f
        }
    } else if opc == OPCODE_OP_IMM {
        Instruction {
            immd: op_imm_immd(f.funct3, i_sex),
            rs2: IMMD_OPERAND,
            op: if f.funct3 == 0 {
                ADDI
            } else {
                ALU
            },
            op2: NOP,
            ..f
        }
    } else if opc == OPCODE_OP {
        Instruction { op: ALU, op2: NOP, ..f }
    } else if opc == OPCODE_MISC_MEM {
        Instruction { immd: i_sex, rd: 0, op: NOP, op2: NOP, ..f }
    } else if opc == OPCODE_SYSTEM {
        Instruction { immd: i_sex, rd: 0, op: NOP, op2: SPC, ..f }
    } else {
        Instruction { rd: 0, rs1: 0, rs2: 0, op: NOP, op2: EXP, ..f }
    }
}

/// A register-register instruction keeps the raw register fields of its
/// word and carries no immediate.
pub proof fn lemma_register_register_keeps_fields(w: u32)
    requires
        opcode_of(w) == OPCODE_OP,
    ensures
        decoded(w).rd == rd_of(w),
        decoded(w).rs1 == rs1_of(w),
        decoded(w).rs2 == rs2_of(w),
        decoded(w).immd == 0,
        decoded(w).op == ALU,
        decoded(w).op2 == NOP,
{
}

/// A register-immediate instruction is an addition with the whole
/// sign-extended immediate when `funct3` is 0; a shift (`funct3` 1 or 5)
/// takes only the low five bits of the raw immediate.
pub proof fn lemma_register_immediate_operand(w: u32)
    requires
        opcode_of(w) == OPCODE_OP_IMM,
    ensures
        funct3_of(w) == 0 ==> decoded(w).op == ADDI && decoded(w).immd == sign_extend(
            i_immd_zex(w),
            11,
        ),
        funct3_of(w) != 0 ==> decoded(w).op == ALU,
        funct3_of(w) == 1 || funct3_of(w) == 5 ==> decoded(w).immd == i_immd_zex(w) & 0x1f,
        decoded(w).rs2 == IMMD_OPERAND,
{
    let z = i_immd_zex(w);
    assert(sign_extend(z, 11) & 0x1f == z & 0x1f) by (bit_vector);
}

/// A word whose opcode is none of the eleven base opcodes is marked illegal
/// and names no register.
pub proof fn lemma_unknown_opcode_is_illegal(w: u32)
    requires
        opcode_of(w) != OPCODE_LUI,
        opcode_of(w) != OPCODE_AUIPC,
        opcode_of(w) != OPCODE_JAL,
        opcode_of(w) != OPCODE_JALR,
        opcode_of(w) != OPCODE_BRANCH,
        opcode_of(w) != OPCODE_LOAD,
        opcode_of(w) != OPCODE_STORE,
        opcode_of(w) != OPCODE_OP_IMM,
        opcode_of(w) != OPCODE_OP,
        opcode_of(w) != OPCODE_MISC_MEM,
        opcode_of(w) != OPCODE_SYSTEM,
    ensures
        decoded(w).op2 == EXP,
        decoded(w).op == NOP,
        decoded(w).rd == 0,
        decoded(w).rs1 == 0,
        decoded(w).rs2 == 0,
        decoded(w).immd == 0,
{
}

/// Decodes the instruction word `inst_reg`. Every word decodes; an opcode
/// outside the base set gives `op2 == EXP` and no register operands.
pub fn decode(inst_reg: u32) -> (r: Instruction)
    ensures
        r == decoded(inst_reg),
{
    let mut x = Instruction::new(inst_reg);

    let i_immd_zex = to_i_immd_zex(inst_reg);
    let i_immd_sex = to_i_immd_sex(i_immd_zex);
    let s_immd_zex = to_s_immd_zex(inst_reg);
    let s_immd_sex = to_i_immd_sex(s_immd_zex);
    let u_immd_sex = to_u_immd(inst_reg);
    let b_immd_zex = to_b_immd_zex(inst_reg);
    let b_immd_sex = to_b_immd_sex(b_immd_zex);
    let j_immd_zex = to_j_immd_zex(inst_reg);
    let j_immd_sex = to_j_immd_sex(j_immd_zex);

    let o = x.opcode;
    if o == OPCODE_LUI {
        x.match_0x37(u_immd_sex);
    } else if o == OPCODE_AUIPC {
        x.match_0x17(u_immd_sex);
    } else if o == OPCODE_JAL {
        x.match_0x6f(j_immd_sex);
    } else if o == OPCODE_JALR {
        x.match_0x67();
    } else if o == OPCODE_BRANCH {
        x.match_0x63(b_immd_sex);
    } else if o == OPCODE_LOAD {
        x.match_0x03(i_immd_sex);
    } else if o == OPCODE_STORE {
        x.match_0x23(s_immd_sex);
    } else if o == OPCODE_OP_IMM {
        x.match_0x13(i_immd_sex);
    } else if o == OPCODE_OP {
        x.match_0x33();
    } else if o == OPCODE_MISC_MEM {
        x.match_0x0f(i_immd_sex);
    } else if o == OPCODE_SYSTEM {
        x.match_0x73(i_immd_sex);
    } else {
        x.match_default();
    }
    x
}

impl Instruction {
    /// The fields that every format shares; no immediate and no operation yet.
    fn new(inst_reg: u32) -> (r: Instruction)
        ensures
            r == raw_fields(inst_reg),
    {
        assert(inst_reg & 0x7f == bits(inst_reg, 6, 0)) by (bit_vector);
        assert((inst_reg >> 7) & 0x1f == bits(inst_reg, 11, 7)) by (bit_vector);
        assert((inst_reg >> 12) & 0x7 == bits(inst_reg, 14, 12)) by (bit_vector);
        assert((inst_reg >> 15) & 0x1f == bits(inst_reg, 19, 15)) by (bit_vector);
        assert((inst_reg >> 20) & 0x1f == bits(inst_reg, 24, 20)) by (bit_vector);
        assert((inst_reg >> 25) & 0x3f == bits(inst_reg, 30, 25)) by (bit_vector);
        Instruction {
            opcode: inst_reg & 0x7f,
            rd: (inst_reg >> 7) & 0x1f,
            funct3: (inst_reg >> 12) & 0x7,
            rs1: (inst_reg >> 15) & 0x1f,
            rs2: (inst_reg >> 20) & 0x1f,
            rs3: 0,
            funct7: (inst_reg >> 25) & 0x3f,
            immd: 0,
            op: 0,
            op2: 0,
        }
    }

    /// Load upper immediate: moves the immediate into `rd`.
    fn match_0x37(&mut self, u_immd_sex: u32)
        ensures
            *final(self) == (Instruction {
                immd: u_immd_sex,
                rs2: IMMD_OPERAND,
                op: MOV,
                op2: NOP,
                ..*old(self)
            }),
    {
        self.immd = u_immd_sex;
        self.rs2 = IMMD_OPERAND;
        self.op = MOV;
        self.op2 = NOP;
    }

    /// Add upper immediate to the program counter.
    fn match_0x17(&mut self, u_immd_sex: u32)
        ensures
            *final(self) == (Instruction {
                immd: u_immd_sex,
                rs1: PC_OPERAND,
                rs2: IMMD_OPERAND,
                op: ADDI,
                op2: NOP,
                ..*old(self)
            }),
    {
        self.immd = u_immd_sex;
        self.rs1 = PC_OPERAND;
        self.rs2 = IMMD_OPERAND;
        self.op = ADDI;
        self.op2 = NOP;
    }

    /// Jump and link: the return address goes to `rd`.
    fn match_0x6f(&mut self, j_immd_sex: u32)
        ensures
            *final(self) == (Instruction {
                immd: j_immd_sex,
                rs2: PC_NEXT_OPERAND,
                op: MOV,
                op2: JMP,
                ..*old(self)
            }),
    {
        self.immd = j_immd_sex;
        self.rs2 = PC_NEXT_OPERAND;
        self.op = MOV;
        self.op2 = JMP;
    }

    /// Jump and link through a register.
    fn match_0x67(&mut self)
        ensures
            *final(self) == (Instruction { rs2: PC_NEXT_OPERAND, op: MOV, op2: JPR, ..*old(self) }),
    {
        self.rs2 = PC_NEXT_OPERAND;
        self.op = MOV;
        self.op2 = JPR;
    }

    /// Conditional branch: compares `rs1` with `rs2`, the kind given by
    /// `funct3`; writes no register.
    fn match_0x63(&mut self, b_immd_sex: u32)
        ensures
            *final(self) == (Instruction {
                immd: b_immd_sex,
                rd: 0,
                op: CMP,
                op2: JCC,
                ..*old(self)
            }),
    {
        self.immd = b_immd_sex;
        self.rd = 0;
        self.op = CMP;
        self.op2 = JCC;
    }

    /// Load: the address is `rs1` plus the immediate; width and signedness
    /// are given by `funct3`.
    fn match_0x03(&mut self, i_immd_sex: u32)
        ensures
            *final(self) == (Instruction {
                immd: i_immd_sex,
                rs2: IMMD_OPERAND,
                op: ADDI,
                op2: LD,
                ..*old(self)
            }),
    {
        self.immd = i_immd_sex;
        self.rs2 = IMMD_OPERAND;
        self.op = ADDI;
        self.op2 = LD;
    }

    /// Store: the address is `rs1` plus the immediate, the data register
    /// moves to `rs3`; writes no register.
    fn match_0x23(&mut self, s_immd_sex: u32)
        ensures
            *final(self) == (Instruction {
                immd: s_immd_sex,
                rs3: old(self).rs2,
                rs2: IMMD_OPERAND,
                rd: 0,
                op: ADDI,
                op2: ST,
                ..*old(self)
            }),
    {
        self.immd = s_immd_sex;
        self.rs3 = self.rs2;
        self.rs2 = IMMD_OPERAND;
        self.rd = 0;
        self.op = ADDI;
        self.op2 = ST;
    }

    /// Register-immediate arithmetic: an addition where `funct3` is 0, else
    /// the operation that `funct3` selects; shifts take five bits of the
    /// immediate.
    fn match_0x13(&mut self, i_immd_sex: u32)
        ensures
            *final(self) == (Instruction {
                immd: op_imm_immd(old(self).funct3, i_immd_sex),
                rs2: IMMD_OPERAND,
                op: if old(self).funct3 == 0 {
                    ADDI
                } else {
                    ALU
                },
                op2: NOP,
                ..*old(self)
            }),
    {
        self.immd = if (self.funct3 == 1) || (self.funct3 == 5) {
            i_immd_sex & 0x1f
        } else {
            i_immd_sex
        };
        self.rs2 = IMMD_OPERAND;
        self.op = if self.funct3 == 0 {
            ADDI
        } else {
            ALU
        };
        self.op2 = NOP;
    }

    /// Register-register arithmetic, the operation given by `funct3` and
    /// `funct7`; no immediate.
    fn match_0x33(&mut self)
        ensures
            *final(self) == (Instruction { op: ALU, op2: NOP, ..*old(self) }),
    {
        self.op = ALU;
        self.op2 = NOP;
    }

    /// Memory-ordering fence: no register effect.
    fn match_0x0f(&mut self, i_immd_sex: u32)
        ensures
            *final(self) == (Instruction {
                immd: i_immd_sex,
                rd: 0,
                op: NOP,
                op2: NOP,
                ..*old(self)
            }),
    {
        self.immd = i_immd_sex;
        self.rd = 0;
        self.op = NOP;
        self.op2 = NOP;
    }

    /// System instruction.
    fn match_0x73(&mut self, i_immd_sex: u32)
        ensures
            *final(self) == (Instruction {
                immd: i_immd_sex,
                rd: 0,
                op: NOP,
                op2: SPC,
                ..*old(self)
            }),
    {
        self.immd = i_immd_sex;
        self.rd = 0;
        self.op = NOP;
        self.op2 = SPC;
    }

    /// Unrecognised opcode: marks the instruction illegal and clears the
    /// register operands.
    fn match_default(&mut self)
        ensures
            *final(self) == (Instruction { rd: 0, rs1: 0, rs2: 0, op: NOP, op2: EXP, ..*old(self) }),
    {
        self.rs1 = 0;
        self.rs2 = 0;
        self.rd = 0;
        self.op = NOP;
        self.op2 = EXP;
    }
}

} // verus!
