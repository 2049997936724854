use virtualboy_core::instruction::{from_halfwords, Instruction, Opcode};

#[test]
fn decode_mov_register() {
    // MOV r5 -> r1: main opcode 000000, reg2 = 1, reg1 = 5
    assert_eq!(from_halfwords(0x0025, 0), Instruction::FormatI(Opcode::Mov, 5, 1));
}

#[test]
fn decode_add_register() {
    // ADD r1 -> r2: main opcode 000001, reg2 = 2, reg1 = 1
    assert_eq!(from_halfwords(0x0441, 0), Instruction::FormatI(Opcode::Add, 1, 2));
}

#[test]
fn decode_mov_immediate() {
    // MOV imm5 = -3 (0b11101), r2 = 1: main opcode 010000
    assert_eq!(from_halfwords(0x403d, 0), Instruction::FormatII(Opcode::Mov, 1, 0x1d));
}

#[test]
fn decode_bcond_bz_positive_disp() {
    // BZ +8: prefix 100, condition 0010, displacement 8
    assert_eq!(from_halfwords(0x8408, 0), Instruction::FormatIII(Opcode::Bz, 8));
}

#[test]
fn decode_bcond_negative_disp_clears_bit0() {
    // BR with a negative displacement: all nine low bits set gives -2 after
    // the low bit is forced to zero
    let a = (0b100u16 << 13) | (5u16 << 9) | 0x1ff;
    assert_eq!(from_halfwords(a, 0), Instruction::FormatIII(Opcode::Br, -2));
}

#[test]
fn decode_jal_disp26() {
    // JAL +0x100: main opcode 101011
    assert_eq!(from_halfwords(0xac00, 0x0100), Instruction::FormatIV(Opcode::Jal, 0x100));
}

#[test]
fn decode_jr_negative_disp26() {
    // JR with bit 25 of the displacement set sign-extends and clears bit 0
    let a = 0xa800u16 | 0x0200; // JR, displacement high bits 10 0000 0000
    let r = from_halfwords(a, 0x0001);
    assert_eq!(r, Instruction::FormatIV(Opcode::Jr, 0xfe000000));
}

#[test]
fn decode_movea() {
    assert_eq!(
        from_halfwords(0xa020, 0x1234),
        Instruction::FormatV(Opcode::MovEa, 0, 1, 0x1234)
    );
}

#[test]
fn decode_movhi() {
    assert_eq!(
        from_halfwords(0xbc20, 0xabcd),
        Instruction::FormatV(Opcode::MovHi, 0, 1, 0xabcd)
    );
}

#[test]
fn decode_load_store() {
    // LD.B disp16 = -1, reg1 = 2, reg2 = 3
    let a = (0b110000u16 << 10) | (3 << 5) | 2;
    assert_eq!(from_halfwords(a, 0xffff), Instruction::FormatVI(Opcode::LdB, 2, 3, -1));
    // ST.W disp16 = 16, reg1 = 4, reg2 = 5
    let a = (0b110110u16 << 10) | (5 << 5) | 4;
    assert_eq!(from_halfwords(a, 0x0010), Instruction::FormatVI(Opcode::StW, 4, 5, 16));
}

#[test]
fn decode_floating_point_format_vii() {
    // FP main opcode 111110; sub-opcode 000010 selects CVT.WS
    let a = (0b111110u16 << 10) | (7 << 5) | 6;
    let b = 0b000010u16 << 10;
    assert_eq!(from_halfwords(a, b), Instruction::FormatVII(Opcode::CvtWS, 2, 6, 7));
}

#[test]
fn decode_bit_string_format_vii() {
    // Bit-string main opcode 011111; sub-opcode 01011 selects MOVBSU
    let a = 0b011111u16 << 10;
    let b = 0b01011u16 << 10;
    assert_eq!(from_halfwords(a, b), Instruction::FormatVII(Opcode::MovBSU, 0b01011, 0, 0));
}

#[test]
fn decode_unknown_opcode_is_illegal() {
    // main opcode 011011 is unassigned
    assert_eq!(from_halfwords(0b011011u16 << 10, 0), Instruction::Illegal);
    // main opcode 110011 is unassigned
    assert_eq!(from_halfwords(0b110011u16 << 10, 0), Instruction::Illegal);
    // FP with an unassigned sub-opcode
    assert_eq!(from_halfwords(0b111110u16 << 10, 0b111111u16 << 10), Instruction::Illegal);
}

#[test]
fn decode_is_total_over_main_opcodes() {
    // every main opcode together with every condition decodes to something
    for op in 0u16..64 {
        let a = op << 10;
        let _ = from_halfwords(a, 0);
        let _ = from_halfwords(a | 0x3ff, 0xffff);
    }
}

#[test]
fn opcode_mnemonics() {
    assert_eq!(Opcode::Mov.mnemonic(), "MOV");
    assert_eq!(Opcode::MovEa.mnemonic(), "MOVEA");
    assert_eq!(Opcode::LdB.mnemonic(), "LD.B");
    assert_eq!(Opcode::Bnz.mnemonic(), "BNZ");
    assert_eq!(Opcode::CmpFS.mnemonic(), "CMPF.S");
    assert_eq!(Opcode::Sch0BSU.mnemonic(), "SCH0BSU");
}
