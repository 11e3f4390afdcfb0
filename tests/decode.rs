use riscv_isa::consts::{
    ADDI, ALU, CMP, EXP, IMMD_OPERAND, JCC, JMP, JPR, LD, MOV, NOP, PC_NEXT_OPERAND, PC_OPERAND,
    SPC, ST,
};
use riscv_isa::decode::{decode, Instruction};

fn regs(x: &Instruction) -> (u32, u32, u32, u32) {
    (x.rd, x.rs1, x.rs2, x.rs3)
}

#[test]
fn canonical_nop_decodes_to_addi() {
    let x = decode(0x0000_0013);
    assert_eq!(x.opcode, 0x13);
    assert_eq!(x.op, ADDI);
    assert_eq!(x.op2, NOP);
    assert_eq!(x.rd, 0);
    assert_eq!(x.rs1, 0);
    assert_eq!(x.rs2, IMMD_OPERAND);
    assert_eq!(x.immd, 0);
}

#[test]
fn shift_immediate_is_masked_to_five_bits() {
    // funct3 == 1, raw immediate 0x3f
    let x = decode(0x03f0_1013);
    assert_eq!(x.funct3, 1);
    assert_eq!(x.immd, 0x1f);
    assert_eq!(x.op, ALU);
    // funct3 == 5
    let x = decode(0x03f0_5013);
    assert_eq!(x.immd, 0x1f);
    assert_eq!(x.op, ALU);
}

#[test]
fn add_immediate_takes_full_sign_extended_immediate() {
    let x = decode(0x03f0_0013);
    assert_eq!(x.op, ADDI);
    assert_eq!(x.immd, 0x3f);
    // addi x0, x0, -1
    let x = decode(0xfff0_0013);
    assert_eq!(x.op, ADDI);
    assert_eq!(x.immd, 0xffff_ffff);
    // xori with funct3 == 4 keeps the whole immediate
    let x = decode(0xfff0_4013);
    assert_eq!(x.op, ALU);
    assert_eq!(x.immd, 0xffff_ffff);
}

#[test]
fn register_register_keeps_raw_fields() {
    // add x3, x1, x2
    let x = decode(0x0020_81b3);
    assert_eq!(regs(&x), (3, 1, 2, 0));
    assert_eq!(x.immd, 0);
    assert_eq!(x.op, ALU);
    assert_eq!(x.op2, NOP);
    // sub x3, x1, x2: funct7 keeps six bits
    let x = decode(0x4020_81b3);
    assert_eq!(regs(&x), (3, 1, 2, 0));
    assert_eq!(x.funct7, 0x20);
    assert_eq!(x.immd, 0);
}

#[test]
fn unknown_opcode_is_illegal() {
    for w in [0xffff_ffffu32, 0x0000_0000, 0x0000_007b, 0xfe20_8c07] {
        let x = decode(w);
        assert_eq!(x.op2, EXP);
        assert_eq!(x.op, NOP);
        assert_eq!(regs(&x), (0, 0, 0, 0));
        assert_eq!(x.immd, 0);
    }
    assert_eq!(decode(0xffff_ffff).opcode, 0x7f);
}

#[test]
fn load_upper_immediate() {
    let x = decode(0x1234_52b7);
    assert_eq!(regs(&x), (5, 8, IMMD_OPERAND, 0));
    assert_eq!(x.immd, 0x1234_5000);
    assert_eq!((x.op, x.op2), (MOV, NOP));
}

#[test]
fn add_upper_immediate_to_pc() {
    let x = decode(0xffff_f097);
    assert_eq!(regs(&x), (1, PC_OPERAND, IMMD_OPERAND, 0));
    assert_eq!(x.immd, 0xffff_f000);
    assert_eq!((x.op, x.op2), (ADDI, NOP));
}

#[test]
fn jump_and_link() {
    let x = decode(0xffdf_f0ef);
    assert_eq!(regs(&x), (1, 31, PC_NEXT_OPERAND, 0));
    assert_eq!(x.immd, 0xffff_fffc);
    assert_eq!((x.op, x.op2), (MOV, JMP));
}

#[test]
fn jump_and_link_register() {
    // jalr x0, 0(x1)
    let x = decode(0x0000_8067);
    assert_eq!(regs(&x), (0, 1, PC_NEXT_OPERAND, 0));
    assert_eq!(x.immd, 0);
    assert_eq!((x.op, x.op2), (MOV, JPR));
    // the immediate is not resolved for this form
    let x = decode(0x0040_80e7);
    assert_eq!(regs(&x), (1, 1, PC_NEXT_OPERAND, 0));
    assert_eq!(x.immd, 0);
}

#[test]
fn conditional_branch() {
    // beq x1, x2, -8
    let x = decode(0xfe20_8ce3);
    assert_eq!(regs(&x), (0, 1, 2, 0));
    assert_eq!(x.immd, 0xffff_fff8);
    assert_eq!((x.op, x.op2), (CMP, JCC));
    // bne x3, x4, 0x7fe
    let x = decode(0x7e41_9f63);
    assert_eq!(x.funct3, 1);
    assert_eq!(x.immd, 0x7fe);
}

#[test]
fn load() {
    // lw x5, -4(x2)
    let x = decode(0xffc1_2283);
    assert_eq!(regs(&x), (5, 2, IMMD_OPERAND, 0));
    assert_eq!(x.funct3, 2);
    assert_eq!(x.immd, 0xffff_fffc);
    assert_eq!((x.op, x.op2), (ADDI, LD));
}

#[test]
fn store() {
    // sw x5, 8(x2)
    let x = decode(0x0051_2423);
    assert_eq!(regs(&x), (0, 2, IMMD_OPERAND, 5));
    assert_eq!(x.immd, 8);
    assert_eq!((x.op, x.op2), (ADDI, ST));
    // sw x7, -32(x10)
    let x = decode(0xfe75_2023);
    assert_eq!(regs(&x), (0, 10, IMMD_OPERAND, 7));
    assert_eq!(x.immd, 0xffff_ffe0);
}

#[test]
fn fence() {
    let x = decode(0x0ff0_000f);
    assert_eq!(regs(&x), (0, 0, 31, 0));
    assert_eq!(x.immd, 0xff);
    assert_eq!((x.op, x.op2), (NOP, NOP));
}

#[test]
fn system() {
    // ecall
    let x = decode(0x0000_0073);
    assert_eq!((x.op, x.op2), (NOP, SPC));
    assert_eq!(x.immd, 0);
    // ebreak
    let x = decode(0x0010_0073);
    assert_eq!(regs(&x), (0, 0, 1, 0));
    assert_eq!(x.immd, 1);
    assert_eq!((x.op, x.op2), (NOP, SPC));
}
