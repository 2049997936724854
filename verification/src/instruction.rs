//! Instruction decoder: classifies one or two 16-bit halfwords into a typed
//! instruction with extracted register, immediate and displacement fields.

use vstd::prelude::*;

verus! {

/// Top three bits of the first halfword that mark a conditional branch.
pub const OPCODE_BITS_BCOND_PREFIX: u16 = 0b100;

pub const OPCODE_BITS_BCOND_BV: u16 = 0b1000000;
pub const OPCODE_BITS_BCOND_BC: u16 = 0b1000001;
pub const OPCODE_BITS_BCOND_BZ: u16 = 0b1000010;
pub const OPCODE_BITS_BCOND_BNH: u16 = 0b1000011;
pub const OPCODE_BITS_BCOND_BN: u16 = 0b1000100;
pub const OPCODE_BITS_BCOND_BR: u16 = 0b1000101;
pub const OPCODE_BITS_BCOND_BLT: u16 = 0b1000110;
pub const OPCODE_BITS_BCOND_BLE: u16 = 0b1000111;
pub const OPCODE_BITS_BCOND_BNV: u16 = 0b1001000;
pub const OPCODE_BITS_BCOND_BNC: u16 = 0b1001001;
pub const OPCODE_BITS_BCOND_BNZ: u16 = 0b1001010;
pub const OPCODE_BITS_BCOND_BH: u16 = 0b1001011;
pub const OPCODE_BITS_BCOND_BP: u16 = 0b1001100;
pub const OPCODE_BITS_BCOND_NOP: u16 = 0b1001101;
pub const OPCODE_BITS_BCOND_BGE: u16 = 0b1001110;
pub const OPCODE_BITS_BCOND_BGT: u16 = 0b1001111;

pub const OPCODE_BITS_MOV_R: u16 = 0b000000;
pub const OPCODE_BITS_ADD_R: u16 = 0b000001;
pub const OPCODE_BITS_SUB: u16 = 0b000010;
pub const OPCODE_BITS_CMP_R: u16 = 0b000011;
pub const OPCODE_BITS_SHL_R: u16 = 0b000100;
pub const OPCODE_BITS_SHR_R: u16 = 0b000101;
pub const OPCODE_BITS_JMP: u16 = 0b000110;
pub const OPCODE_BITS_SAR_R: u16 = 0b000111;
pub const OPCODE_BITS_MUL: u16 = 0b001000;
pub const OPCODE_BITS_DIV: u16 = 0b001001;
pub const OPCODE_BITS_MULU: u16 = 0b001010;
pub const OPCODE_BITS_DIVU: u16 = 0b001011;
pub const OPCODE_BITS_OR: u16 = 0b001100;
pub const OPCODE_BITS_AND: u16 = 0b001101;
pub const OPCODE_BITS_XOR: u16 = 0b001110;
pub const OPCODE_BITS_NOT: u16 = 0b001111;
pub const OPCODE_BITS_MOV_I: u16 = 0b010000;
pub const OPCODE_BITS_ADD_I: u16 = 0b010001;
pub const OPCODE_BITS_SETF: u16 = 0b010010;
pub const OPCODE_BITS_CMP_I: u16 = 0b010011;
pub const OPCODE_BITS_SHL_I: u16 = 0b010100;
pub const OPCODE_BITS_SHR_I: u16 = 0b010101;
pub const OPCODE_BITS_CLI: u16 = 0b010110;
pub const OPCODE_BITS_SAR_I: u16 = 0b010111;
pub const OPCODE_BITS_TRAP: u16 = 0b011000;
pub const OPCODE_BITS_RETI: u16 = 0b011001;
pub const OPCODE_BITS_HALT: u16 = 0b011010;
pub const OPCODE_BITS_LDSR: u16 = 0b011100;
pub const OPCODE_BITS_STSR: u16 = 0b011101;
pub const OPCODE_BITS_SEI: u16 = 0b011110;
pub const OPCODE_BITS_BS: u16 = 0b011111;
pub const OPCODE_BITS_MOVEA: u16 = 0b101000;
pub const OPCODE_BITS_ADDI: u16 = 0b101001;
pub const OPCODE_BITS_JR: u16 = 0b101010;
pub const OPCODE_BITS_JAL: u16 = 0b101011;
pub const OPCODE_BITS_ORI: u16 = 0b101100;
pub const OPCODE_BITS_ANDI: u16 = 0b101101;
pub const OPCODE_BITS_XORI: u16 = 0b101110;
pub const OPCODE_BITS_MOVHI: u16 = 0b101111;
pub const OPCODE_BITS_LD_B: u16 = 0b110000;
pub const OPCODE_BITS_LD_H: u16 = 0b110001;
pub const OPCODE_BITS_LD_W: u16 = 0b110010;
pub const OPCODE_BITS_ST_B: u16 = 0b110100;
pub const OPCODE_BITS_ST_H: u16 = 0b110101;
pub const OPCODE_BITS_ST_W: u16 = 0b110110;
pub const OPCODE_BITS_IN_B: u16 = 0b111000;
pub const OPCODE_BITS_IN_H: u16 = 0b111001;
pub const OPCODE_BITS_CAXI: u16 = 0b111010;
pub const OPCODE_BITS_IN_W: u16 = 0b111011;
pub const OPCODE_BITS_OUT_B: u16 = 0b111100;
pub const OPCODE_BITS_OUT_H: u16 = 0b111101;
pub const OPCODE_BITS_FP: u16 = 0b111110;
pub const OPCODE_BITS_OUT_W: u16 = 0b111111;

/// System-register selectors for LDSR/STSR.
pub const OPCODE_SYSREG_EIPC: u16 = 0;
pub const OPCODE_SYSREG_EIPSW: u16 = 1;
pub const OPCODE_SYSREG_FEPC: u16 = 2;
pub const OPCODE_SYSREG_FEPSW: u16 = 3;
pub const OPCODE_SYSREG_ECR: u16 = 4;
pub const OPCODE_SYSREG_PSW: u16 = 5;
pub const OPCODE_SYSREG_PIR: u16 = 6;
pub const OPCODE_SYSREG_TKCW: u16 = 7;
pub const OPCODE_SYSREG_CHCW: u16 = 24;
pub const OPCODE_SYSREG_ADTRE: u16 = 25;

#[derive(Clone, Copy, Debug, PartialEq, Eq, Structural)]
pub enum Opcode {
    Mov,
    Add,
    Sub,
    Cmp,
    Shl,
    Shr,
    Jmp,
    Sar,
    Mul,
    Div,
    Mulu,
    Divu,
    Or,
    And,
    Xor,
    Not,
    Setf,
    Cli,
    Trap,
    Reti,
    Halt,
    Ldsr,
    Stsr,
    Sei,
    MovEa,
    AddI,
    Jr,
    Jal,
    OrI,
    AndI,
    XorI,
    MovHi,
    LdB,
    LdH,
    LdW,
    StB,
    StH,
    StW,
    InB,
    InH,
    Caxi,
    InW,
    OutB,
    OutH,
    OutW,
    // Conditional branches
    Bv,
    Bc,
    Bz,
    Bnh,
    Bn,
    Br,
    Blt,
    Ble,
    Bnv,
    Bnc,
    Bnz,
    Bh,
    Bp,
    Nop,
    Bge,
    Bgt,
    // Bit-string opcodes, main opcode 0b011111
    Sch0BSU,
    Sch0BSD,
    Sch1BSU,
    Sch1BSD,
    OrBSU,
    AndBSU,
    XorBSU,
    MovBSU,
    OrNBSU,
    AndNBSU,
    XorNBSU,
    NotBSU,
    // Floating-point opcodes, main opcode 0b111110
    CmpFS,
    CvtWS,
    CvtSW,
    AddFS,
    SubFS,
    MulFS,
    DivFS,
    XB,
    XH,
    Rev,
    TrncSW,
    MpyHw,
}

/// Typed intermediate form of one decoded instruction.
#[derive(Clone, Copy, Debug, PartialEq, Eq, Structural)]
pub enum Instruction {
    Illegal,
    FormatI(Opcode, u16, u16),
    FormatII(Opcode, u16, u16),
    FormatIII(Opcode, i16),
    FormatIV(Opcode, u32),
    FormatV(Opcode, u16, u16, u16),
    FormatVI(Opcode, u16, u16, i16),
    FormatVII(Opcode, u16, u16, u16),
}

pub open spec fn spec_format_i(opcode: Opcode, a: u16) -> Instruction {
    Instruction::FormatI(opcode, a & 0x1f, (a >> 5) & 0x1f)
}

pub open spec fn spec_format_ii(opcode: Opcode, a: u16) -> Instruction {
    Instruction::FormatII(opcode, (a >> 5) & 0x1f, a & 0x1f)
}

/// The 9-bit branch displacement: sign-extended to 16 bits, low bit cleared.
pub open spec fn spec_disp9(a: u16) -> i16 {
    if a & 0x100 != 0 {
        ((a & 0x1fe) | 0xfe00) as i16
    } else {
        (a & 0xfe) as i16
    }
}

pub open spec fn spec_format_iii(opcode: Opcode, a: u16) -> Instruction {
    Instruction::FormatIII(opcode, spec_disp9(a))
}

/// The 26-bit jump displacement `(a[9:0] << 16) | b`, sign-extended from
/// bit 25, low bit cleared.
pub open spec fn spec_disp26(a: u16, b: u16) -> u32 {
    let raw = (((a & 0x3ff) as u32) << 16) | (b as u32);
    if raw & 0x02000000 != 0 {
        (raw | 0xfc000000) & 0xfffffffe
    } else {
        raw & 0xfffffffe
    }
}

pub open spec fn spec_format_iv(opcode: Opcode, a: u16, b: u16) -> Instruction {
    Instruction::FormatIV(opcode, spec_disp26(a, b))
}

pub open spec fn spec_format_v(opcode: Opcode, a: u16, b: u16) -> Instruction {
    Instruction::FormatV(opcode, a & 0x1f, (a >> 5) & 0x1f, b)
}

pub open spec fn spec_format_vi(opcode: Opcode, a: u16, b: u16) -> Instruction {
    Instruction::FormatVI(opcode, a & 0x1f, (a >> 5) & 0x1f, b as i16)
}

pub open spec fn spec_format_vii(opcode: Opcode, a: u16, b: u16) -> Instruction {
    Instruction::FormatVII(opcode, b >> 10, a & 0x1f, (a >> 5) & 0x1f)
}

/// Bit-string opcode selected by the Format VII sub-opcode.
pub open spec fn spec_bit_string_opcode(subop: u16) -> Option<Opcode> {
    match subop {
        0b00000 => Some(Opcode::Sch0BSU),
        0b00001 => Some(Opcode::Sch0BSD),
        0b00010 => Some(Opcode::Sch1BSU),
        0b00011 => Some(Opcode::Sch1BSD),
        0b01000 => Some(Opcode::OrBSU),
        0b01001 => Some(Opcode::AndBSU),
        0b01010 => Some(Opcode::XorBSU),
        0b01011 => Some(Opcode::MovBSU),
        0b01100 => Some(Opcode::OrNBSU),
        0b01101 => Some(Opcode::AndNBSU),
        0b01110 => Some(Opcode::XorNBSU),
        0b01111 => Some(Opcode::NotBSU),
        _ => None,
    }
}

/// Floating-point/extended opcode selected by the Format VII sub-opcode.
pub open spec fn spec_fp_opcode(subop: u16) -> Option<Opcode> {
    match subop {
        0b000000 => Some(Opcode::CmpFS),
        0b000010 => Some(Opcode::CvtWS),
        0b000011 => Some(Opcode::CvtSW),
        0b000100 => Some(Opcode::AddFS),
        0b000101 => Some(Opcode::SubFS),
        0b000110 => Some(Opcode::MulFS),
        0b000111 => Some(Opcode::DivFS),
        0b001000 => Some(Opcode::XB),
        0b001001 => Some(Opcode::XH),
        0b001010 => Some(Opcode::Rev),
        0b001011 => Some(Opcode::TrncSW),
        0b001100 => Some(Opcode::MpyHw),
        _ => None,
    }
}

/// What `from_halfwords` returns: the full opcode table.
pub open spec fn decode_spec(a: u16, b: u16) -> Instruction {
    if a >> 13 == OPCODE_BITS_BCOND_PREFIX {
        match a >> 9 {
            OPCODE_BITS_BCOND_BV => spec_format_iii(Opcode::Bv, a),
            OPCODE_BITS_BCOND_BC => spec_format_iii(Opcode::Bc, a),
            OPCODE_BITS_BCOND_BZ => spec_format_iii(Opcode::Bz, a),
            OPCODE_BITS_BCOND_BNH => spec_format_iii(Opcode::Bnh, a),
            OPCODE_BITS_BCOND_BN => spec_format_iii(Opcode::Bn, a),
            OPCODE_BITS_BCOND_BR => spec_format_iii(Opcode::Br, a),
            OPCODE_BITS_BCOND_BLT => spec_format_iii(Opcode::Blt, a),
            OPCODE_BITS_BCOND_BLE => spec_format_iii(Opcode::Ble, a),
            OPCODE_BITS_BCOND_BNV => spec_format_iii(Opcode::Bnv, a),
            OPCODE_BITS_BCOND_BNC => spec_format_iii(Opcode::Bnc, a),
            OPCODE_BITS_BCOND_BNZ => spec_format_iii(Opcode::Bnz, a),
            OPCODE_BITS_BCOND_BH => spec_format_iii(Opcode::Bh, a),
            OPCODE_BITS_BCOND_BP => spec_format_iii(Opcode::Bp, a),
            OPCODE_BITS_BCOND_NOP => spec_format_iii(Opcode::Nop, a),
            OPCODE_BITS_BCOND_BGE => spec_format_iii(Opcode::Bge, a),
            OPCODE_BITS_BCOND_BGT => spec_format_iii(Opcode::Bgt, a),
            _ => Instruction::Illegal,
        }
    } else {
        match a >> 10 {
            OPCODE_BITS_MOV_R => spec_format_i(Opcode::Mov, a),
            OPCODE_BITS_ADD_R => spec_format_i(Opcode::Add, a),
            OPCODE_BITS_SUB => spec_format_i(Opcode::Sub, a),
            OPCODE_BITS_CMP_R => spec_format_i(Opcode::Cmp, a),
            OPCODE_BITS_SHL_R => spec_format_i(Opcode::Shl, a),
            OPCODE_BITS_SHR_R => spec_format_i(Opcode::Shr, a),
            OPCODE_BITS_JMP => spec_format_i(Opcode::Jmp, a),
            OPCODE_BITS_SAR_R => spec_format_i(Opcode::Sar, a),
            OPCODE_BITS_MUL => spec_format_i(Opcode::Mul, a),
            OPCODE_BITS_DIV => spec_format_i(Opcode::Div, a),
            OPCODE_BITS_MULU => spec_format_i(Opcode::Mulu, a),
            OPCODE_BITS_DIVU => spec_format_i(Opcode::Divu, a),
            OPCODE_BITS_OR => spec_format_i(Opcode::Or, a),
            OPCODE_BITS_AND => spec_format_i(Opcode::And, a),
            OPCODE_BITS_XOR => spec_format_i(Opcode::Xor, a),
            OPCODE_BITS_NOT => spec_format_i(Opcode::Not, a),
            OPCODE_BITS_MOV_I => spec_format_ii(Opcode::Mov, a),
            OPCODE_BITS_ADD_I => spec_format_ii(Opcode::Add, a),
            OPCODE_BITS_SETF => spec_format_ii(Opcode::Setf, a),
            OPCODE_BITS_CMP_I => spec_format_ii(Opcode::Cmp, a),
            OPCODE_BITS_SHL_I => spec_format_ii(Opcode::Shl, a),
            OPCODE_BITS_SHR_I => spec_format_ii(Opcode::Shr, a),
            OPCODE_BITS_CLI => spec_format_ii(Opcode::Cli, a),
            OPCODE_BITS_SAR_I => spec_format_ii(Opcode::Sar, a),
            OPCODE_BITS_TRAP => spec_format_ii(Opcode::Trap, a),
            OPCODE_BITS_RETI => spec_format_ii(Opcode::Reti, a),
            OPCODE_BITS_HALT => spec_format_ii(Opcode::Halt, a),
            OPCODE_BITS_LDSR => spec_format_ii(Opcode::Ldsr, a),
            OPCODE_BITS_STSR => spec_format_ii(Opcode::Stsr, a),
            OPCODE_BITS_SEI => spec_format_ii(Opcode::Sei, a),
            OPCODE_BITS_BS => match spec_bit_string_opcode(b >> 10) {
                Some(op) => spec_format_vii(op, a, b),
                None => Instruction::Illegal,
            },
            OPCODE_BITS_MOVEA => spec_format_v(Opcode::MovEa, a, b),
            OPCODE_BITS_ADDI => spec_format_v(Opcode::AddI, a, b),
            OPCODE_BITS_JR => spec_format_iv(Opcode::Jr, a, b),
            OPCODE_BITS_JAL => spec_format_iv(Opcode::Jal, a, b),
            OPCODE_BITS_ORI => spec_format_v(Opcode::OrI, a, b),
            OPCODE_BITS_ANDI => spec_format_v(Opcode::AndI, a, b),
            OPCODE_BITS_XORI => spec_format_v(Opcode::XorI, a, b),
            OPCODE_BITS_MOVHI => spec_format_v(Opcode::MovHi, a, b),
            OPCODE_BITS_LD_B => spec_format_vi(Opcode::LdB, a, b),
            OPCODE_BITS_LD_H => spec_format_vi(Opcode::LdH, a, b),
            OPCODE_BITS_LD_W => spec_format_vi(Opcode::LdW, a, b),
            OPCODE_BITS_ST_B => spec_format_vi(Opcode::StB, a, b),
            OPCODE_BITS_ST_H => spec_format_vi(Opcode::StH, a, b),
            OPCODE_BITS_ST_W => spec_format_vi(Opcode::StW, a, b),
            OPCODE_BITS_IN_B => spec_format_vi(Opcode::InB, a, b),
            OPCODE_BITS_IN_H => spec_format_vi(Opcode::InH, a, b),
            OPCODE_BITS_CAXI => spec_format_vi(Opcode::Caxi, a, b),
            OPCODE_BITS_IN_W => spec_format_vi(Opcode::InW, a, b),
            OPCODE_BITS_OUT_B => spec_format_vi(Opcode::OutB, a, b),
            OPCODE_BITS_OUT_H => spec_format_vi(Opcode::OutH, a, b),
            OPCODE_BITS_FP => match spec_fp_opcode(b >> 10) {
                Some(op) => spec_format_vii(op, a, b),
                None => Instruction::Illegal,
            },
            OPCODE_BITS_OUT_W => spec_format_vi(Opcode::OutW, a, b),
            _ => Instruction::Illegal,
        }
    }
}

pub fn format_i(opcode: Opcode, a: u16, _b: u16) -> (r: Instruction)
    ensures
        r == spec_format_i(opcode, a),
{
    Instruction::FormatI(opcode, a & 0x1f, (a >> 5) & 0x1f)
}

pub fn format_ii(opcode: Opcode, a: u16, _b: u16) -> (r: Instruction)
    ensures
        r == spec_format_ii(opcode, a),
{
    Instruction::FormatII(opcode, (a >> 5) & 0x1f, a & 0x1f)
}

pub fn format_iii(opcode: Opcode, a: u16, _b: u16) -> (r: Instruction)
    ensures
        r == spec_format_iii(opcode, a),
{
    let disp9: i16 = if a & 0x100 != 0 {
        ((a & 0x1fe) | 0xfe00) as i16
    } else {
        (a & 0xfe) as i16
    };
    Instruction::FormatIII(opcode, disp9)
}

pub fn format_iv(opcode: Opcode, a: u16, b: u16) -> (r: Instruction)
    ensures
        r == spec_format_iv(opcode, a, b),
{
    let raw: u32 = (((a & 0x3ff) as u32) << 16) | (b as u32);
    let disp26: u32 = if raw & 0x02000000 != 0 {
        (raw | 0xfc000000) & 0xfffffffe
    } else {
        raw & 0xfffffffe
    };
    Instruction::FormatIV(opcode, disp26)
}

pub fn format_v(opcode: Opcode, a: u16, b: u16) -> (r: Instruction)
    ensures
        r == spec_format_v(opcode, a, b),
{
    Instruction::FormatV(opcode, a & 0x1f, (a >> 5) & 0x1f, b)
}

pub fn format_vi(opcode: Opcode, a: u16, b: u16) -> (r: Instruction)
    ensures
        r == spec_format_vi(opcode, a, b),
{
    Instruction::FormatVI(opcode, a & 0x1f, (a >> 5) & 0x1f, b as i16)
}

pub fn format_vii(opcode: Opcode, a: u16, b: u16) -> (r: Instruction)
    ensures
        r == spec_format_vii(opcode, a, b),
{
    Instruction::FormatVII(opcode, b >> 10, a & 0x1f, (a >> 5) & 0x1f)
}

/// Decode one instruction from its first halfword `a` and, for 32-bit
/// encodings, its second halfword `b`.
pub fn from_halfwords(a: u16, b: u16) -> (r: Instruction)
    ensures
        r == decode_spec(a, b),
{
    if a >> 13 == OPCODE_BITS_BCOND_PREFIX {
        match a >> 9 {
            OPCODE_BITS_BCOND_BV => format_iii(Opcode::Bv, a, b),
            OPCODE_BITS_BCOND_BC => format_iii(Opcode::Bc, a, b),
            OPCODE_BITS_BCOND_BZ => format_iii(Opcode::Bz, a, b),
            OPCODE_BITS_BCOND_BNH => format_iii(Opcode::Bnh, a, b),
            OPCODE_BITS_BCOND_BN => format_iii(Opcode::Bn, a, b),
            OPCODE_BITS_BCOND_BR => format_iii(Opcode::Br, a, b),
            OPCODE_BITS_BCOND_BLT => format_iii(Opcode::Blt, a, b),
            OPCODE_BITS_BCOND_BLE => format_iii(Opcode::Ble, a, b),
            OPCODE_BITS_BCOND_BNV => format_iii(Opcode::Bnv, a, b),
            OPCODE_BITS_BCOND_BNC => format_iii(Opcode::Bnc, a, b),
            OPCODE_BITS_BCOND_BNZ => format_iii(Opcode::Bnz, a, b),
            OPCODE_BITS_BCOND_BH => format_iii(Opcode::Bh, a, b),
            OPCODE_BITS_BCOND_BP => format_iii(Opcode::Bp, a, b),
            OPCODE_BITS_BCOND_NOP => format_iii(Opcode::Nop, a, b),
            OPCODE_BITS_BCOND_BGE => format_iii(Opcode::Bge, a, b),
            OPCODE_BITS_BCOND_BGT => format_iii(Opcode::Bgt, a, b),
            _ => Instruction::Illegal,
        }
    } else {
        match a >> 10 {
            OPCODE_BITS_MOV_R => format_i(Opcode::Mov, a, b),
            OPCODE_BITS_ADD_R => format_i(Opcode::Add, a, b),
            OPCODE_BITS_SUB => format_i(Opcode::Sub, a, b),
            OPCODE_BITS_CMP_R => format_i(Opcode::Cmp, a, b),
            OPCODE_BITS_SHL_R => format_i(Opcode::Shl, a, b),
            OPCODE_BITS_SHR_R => format_i(Opcode::Shr, a, b),
            OPCODE_BITS_JMP => format_i(Opcode::Jmp, a, b),
            OPCODE_BITS_SAR_R => format_i(Opcode::Sar, a, b),
            OPCODE_BITS_MUL => format_i(Opcode::Mul, a, b),
            OPCODE_BITS_DIV => format_i(Opcode::Div, a, b),
            OPCODE_BITS_MULU => format_i(Opcode::Mulu, a, b),
            OPCODE_BITS_DIVU => format_i(Opcode::Divu, a, b),
            OPCODE_BITS_OR => format_i(Opcode::Or, a, b),
            OPCODE_BITS_AND => format_i(Opcode::And, a, b),
            OPCODE_BITS_XOR => format_i(Opcode::Xor, a, b),
            OPCODE_BITS_NOT => format_i(Opcode::Not, a, b),
            OPCODE_BITS_MOV_I => format_ii(Opcode::Mov, a, b),
            OPCODE_BITS_ADD_I => format_ii(Opcode::Add, a, b),
            OPCODE_BITS_SETF => format_ii(Opcode::Setf, a, b),
            OPCODE_BITS_CMP_I => format_ii(Opcode::Cmp, a, b),
            OPCODE_BITS_SHL_I => format_ii(Opcode::Shl, a, b),
            OPCODE_BITS_SHR_I => format_ii(Opcode::Shr, a, b),
            OPCODE_BITS_CLI => format_ii(Opcode::Cli, a, b),
            OPCODE_BITS_SAR_I => format_ii(Opcode::Sar, a, b),
            OPCODE_BITS_TRAP => format_ii(Opcode::Trap, a, b),
            OPCODE_BITS_RETI => format_ii(Opcode::Reti, a, b),
            OPCODE_BITS_HALT => format_ii(Opcode::Halt, a, b),
            OPCODE_BITS_LDSR => format_ii(Opcode::Ldsr, a, b),
            OPCODE_BITS_STSR => format_ii(Opcode::Stsr, a, b),
            OPCODE_BITS_SEI => format_ii(Opcode::Sei, a, b),
            OPCODE_BITS_BS => match bit_string_opcode(b >> 10) {
                Some(op) => format_vii(op, a, b),
                None => Instruction::Illegal,
            },
            OPCODE_BITS_MOVEA => format_v(Opcode::MovEa, a, b),
            OPCODE_BITS_ADDI => format_v(Opcode::AddI, a, b),
            OPCODE_BITS_JR => format_iv(Opcode::Jr, a, b),
            OPCODE_BITS_JAL => format_iv(Opcode::Jal, a, b),
            OPCODE_BITS_ORI => format_v(Opcode::OrI, a, b),
            OPCODE_BITS_ANDI => format_v(Opcode::AndI, a, b),
            OPCODE_BITS_XORI => format_v(Opcode::XorI, a, b),
            OPCODE_BITS_MOVHI => format_v(Opcode::MovHi, a, b),
            OPCODE_BITS_LD_B => format_vi(Opcode::LdB, a, b),
            OPCODE_BITS_LD_H => format_vi(Opcode::LdH, a, b),
            OPCODE_BITS_LD_W => format_vi(Opcode::LdW, a, b),
            OPCODE_BITS_ST_B => format_vi(Opcode::StB, a, b),
            OPCODE_BITS_ST_H => format_vi(Opcode::StH, a, b),
            OPCODE_BITS_ST_W => format_vi(Opcode::StW, a, b),
            OPCODE_BITS_IN_B => format_vi(Opcode::InB, a, b),
            OPCODE_BITS_IN_H => format_vi(Opcode::InH, a, b),
            OPCODE_BITS_CAXI => format_vi(Opcode::Caxi, a, b),
            OPCODE_BITS_IN_W => format_vi(Opcode::InW, a, b),
            OPCODE_BITS_OUT_B => format_vi(Opcode::OutB, a, b),
            OPCODE_BITS_OUT_H => format_vi(Opcode::OutH, a, b),
            OPCODE_BITS_FP => match fp_opcode(b >> 10) {
                Some(op) => format_vii(op, a, b),
                None => Instruction::Illegal,
            },
            OPCODE_BITS_OUT_W => format_vi(Opcode::OutW, a, b),
            _ => Instruction::Illegal,
        }
    }
}

fn bit_string_opcode(subop: u16) -> (r: Option<Opcode>)
    ensures
        r == spec_bit_string_opcode(subop),
{
    match subop {
        0b00000 => Some(Opcode::Sch0BSU),
        0b00001 => Some(Opcode::Sch0BSD),
        0b00010 => Some(Opcode::Sch1BSU),
        0b00011 => Some(Opcode::Sch1BSD),
        0b01000 => Some(Opcode::OrBSU),
        0b01001 => Some(Opcode::AndBSU),
        0b01010 => Some(Opcode::XorBSU),
        0b01011 => Some(Opcode::MovBSU),
        0b01100 => Some(Opcode::OrNBSU),
        0b01101 => Some(Opcode::AndNBSU),
        0b01110 => Some(Opcode::XorNBSU),
        0b01111 => Some(Opcode::NotBSU),
        _ => None,
    }
}

fn fp_opcode(subop: u16) -> (r: Option<Opcode>)
    ensures
        r == spec_fp_opcode(subop),
{
    match subop {
        0b000000 => Some(Opcode::CmpFS),
        0b000010 => Some(Opcode::CvtWS),
        0b000011 => Some(Opcode::CvtSW),
        0b000100 => Some(Opcode::AddFS),
        0b000101 => Some(Opcode::SubFS),
        0b000110 => Some(Opcode::MulFS),
        0b000111 => Some(Opcode::DivFS),
        0b001000 => Some(Opcode::XB),
        0b001001 => Some(Opcode::XH),
        0b001010 => Some(Opcode::Rev),
        0b001011 => Some(Opcode::TrncSW),
        0b001100 => Some(Opcode::MpyHw),
        _ => None,
    }
}

/// Decoding is total: every pair of halfwords yields some instruction, and
/// every halfword whose top three bits mark a conditional branch yields a
/// Format III branch, never `Illegal`.
pub proof fn lemma_decode_total(a: u16, b: u16)
    ensures
        a >> 13 == OPCODE_BITS_BCOND_PREFIX ==> decode_spec(a, b) matches Instruction::FormatIII(
            _,
            _,
        ),
{
    if a >> 13 == OPCODE_BITS_BCOND_PREFIX {
        assert(0b1000000 <= a >> 9 <= 0b1001111) by (bit_vector)
            requires
                a >> 13 == 0b100,
        ;
    }
}

/// The assembler mnemonic of each opcode.
pub open spec fn spec_mnemonic(op: Opcode) -> Seq<char> {
    match op {
        Opcode::Mov => "MOV"@,
        Opcode::Add => "ADD"@,
        Opcode::Sub => "SUB"@,
        Opcode::Cmp => "CMP"@,
        Opcode::Shl => "SHL"@,
        Opcode::Shr => "SHR"@,
        Opcode::Jmp => "JMP"@,
        Opcode::Sar => "SAR"@,
        Opcode::Mul => "MUL"@,
        Opcode::Div => "DIV"@,
        Opcode::Mulu => "MULU"@,
        Opcode::Divu => "DIVU"@,
        Opcode::Or => "OR"@,
        Opcode::And => "AND"@,
        Opcode::Xor => "XOR"@,
        Opcode::Not => "NOT"@,
        Opcode::Setf => "SETF"@,
        Opcode::Cli => "CLI"@,
        Opcode::Trap => "TRAP"@,
        Opcode::Reti => "RETI"@,
        Opcode::Halt => "HALT"@,
        Opcode::Ldsr => "LDSR"@,
        Opcode::Stsr => "STSR"@,
        Opcode::Sei => "SEI"@,
        Opcode::MovEa => "MOVEA"@,
        Opcode::AddI => "ADDI"@,
        Opcode::Jr => "JR"@,
        Opcode::Jal => "JAL"@,
        Opcode::OrI => "ORI"@,
        Opcode::AndI => "ANDI"@,
        Opcode::XorI => "XORI"@,
        Opcode::MovHi => "MOVHI"@,
        Opcode::LdB => "LD.B"@,
        Opcode::LdH => "LD.H"@,
        Opcode::LdW => "LD.W"@,
        Opcode::StB => "ST.B"@,
        Opcode::StH => "ST.H"@,
        Opcode::StW => "ST.W"@,
        Opcode::InB => "IN.B"@,
        Opcode::InH => "IN.H"@,
        Opcode::Caxi => "CAXI"@,
        Opcode::InW => "IN.W"@,
        Opcode::OutB => "OUT.B"@,
        Opcode::OutH => "OUT.H"@,
        Opcode::OutW => "OUT.W"@,
        Opcode::Bv => "BV"@,
        Opcode::Bc => "BC"@,
        Opcode::Bz => "BZ"@,
        Opcode::Bnh => "BNH"@,
        Opcode::Bn => "BN"@,
        Opcode::Br => "BR"@,
        Opcode::Blt => "BLT"@,
        Opcode::Ble => "BLE"@,
        Opcode::Bnv => "BNV"@,
        Opcode::Bnc => "BNC"@,
        Opcode::Bnz => "BNZ"@,
        Opcode::Bh => "BH"@,
        Opcode::Bp => "BP"@,
        Opcode::Nop => "NOP"@,
        Opcode::Bge => "BGE"@,
        Opcode::Bgt => "BGT"@,
        Opcode::Sch0BSU => "SCH0BSU"@,
        Opcode::Sch0BSD => "SCH0BSD"@,
        Opcode::Sch1BSU => "SCH1BSU"@,
        Opcode::Sch1BSD => "SCH1BSD"@,
        Opcode::OrBSU => "ORBSU"@,
        Opcode::AndBSU => "ANDBSU"@,
        Opcode::XorBSU => "XORBSU"@,
        Opcode::MovBSU => "MOVBSU"@,
        Opcode::OrNBSU => "ORNBSU"@,
        Opcode::AndNBSU => "ANDNBSU"@,
        Opcode::XorNBSU => "XORNBSU"@,
        Opcode::NotBSU => "NOTBSU"@,
        Opcode::CmpFS => "CMPF.S"@,
        Opcode::CvtWS => "CVT.WS"@,
        Opcode::CvtSW => "CVT.SW"@,
        Opcode::AddFS => "ADDF.S"@,
        Opcode::SubFS => "SUBF.S"@,
        Opcode::MulFS => "MULF.S"@,
        Opcode::DivFS => "DIVF.S"@,
        Opcode::XB => "XB"@,
        Opcode::XH => "XH"@,
        Opcode::Rev => "REV"@,
        Opcode::TrncSW => "TRNC.SW"@,
        Opcode::MpyHw => "MPYHW"@,
    }
}

impl Opcode {
    /// The assembler mnemonic of this opcode.
    pub fn mnemonic(&self) -> (r: String)
        ensures
            r@ == spec_mnemonic(*self),
    {
        match self {
            Opcode::Mov => "MOV".to_owned(),
            Opcode::Add => "ADD".to_owned(),
            Opcode::Sub => "SUB".to_owned(),
            Opcode::Cmp => "CMP".to_owned(),
            Opcode::Shl => "SHL".to_owned(),
            Opcode::Shr => "SHR".to_owned(),
            Opcode::Jmp => "JMP".to_owned(),
            Opcode::Sar => "SAR".to_owned(),
            Opcode::Mul => "MUL".to_owned(),
            Opcode::Div => "DIV".to_owned(),
            Opcode::Mulu => "MULU".to_owned(),
            Opcode::Divu => "DIVU".to_owned(),
            Opcode::Or => "OR".to_owned(),
            Opcode::And => "AND".to_owned(),
            Opcode::Xor => "XOR".to_owned(),
            Opcode::Not => "NOT".to_owned(),
            Opcode::Setf => "SETF".to_owned(),
            Opcode::Cli => "CLI".to_owned(),
            Opcode::Trap => "TRAP".to_owned(),
            Opcode::Reti => "RETI".to_owned(),
            Opcode::Halt => "HALT".to_owned(),
            Opcode::Ldsr => "LDSR".to_owned(),
            Opcode::Stsr => "STSR".to_owned(),
            Opcode::Sei => "SEI".to_owned(),
            Opcode::MovEa => "MOVEA".to_owned(),
            Opcode::AddI => "ADDI".to_owned(),
            Opcode::Jr => "JR".to_owned(),
            Opcode::Jal => "JAL".to_owned(),
            Opcode::OrI => "ORI".to_owned(),
            Opcode::AndI => "ANDI".to_owned(),
            Opcode::XorI => "XORI".to_owned(),
            Opcode::MovHi => "MOVHI".to_owned(),
            Opcode::LdB => "LD.B".to_owned(),
            Opcode::LdH => "LD.H".to_owned(),
            Opcode::LdW => "LD.W".to_owned(),
            Opcode::StB => "ST.B".to_owned(),
            Opcode::StH => "ST.H".to_owned(),
            Opcode::StW => "ST.W".to_owned(),
            Opcode::InB => "IN.B".to_owned(),
            Opcode::InH => "IN.H".to_owned(),
            Opcode::Caxi => "CAXI".to_owned(),
            Opcode::InW => "IN.W".to_owned(),
            Opcode::OutB => "OUT.B".to_owned(),
            Opcode::OutH => "OUT.H".to_owned(),
            Opcode::OutW => "OUT.W".to_owned(),
            Opcode::Bv => "BV".to_owned(),
            Opcode::Bc => "BC".to_owned(),
            Opcode::Bz => "BZ".to_owned(),
            Opcode::Bnh => "BNH".to_owned(),
            Opcode::Bn => "BN".to_owned(),
            Opcode::Br => "BR".to_owned(),
            Opcode::Blt => "BLT".to_owned(),
            Opcode::Ble => "BLE".to_owned(),
            Opcode::Bnv => "BNV".to_owned(),
            Opcode::Bnc => "BNC".to_owned(),
            Opcode::Bnz => "BNZ".to_owned(),
            Opcode::Bh => "BH".to_owned(),
            Opcode::Bp => "BP".to_owned(),
            Opcode::Nop => "NOP".to_owned(),
            Opcode::Bge => "BGE".to_owned(),
            Opcode::Bgt => "BGT".to_owned(),
            Opcode::Sch0BSU => "SCH0BSU".to_owned(),
            Opcode::Sch0BSD => "SCH0BSD".to_owned(),
            Opcode::Sch1BSU => "SCH1BSU".to_owned(),
            Opcode::Sch1BSD => "SCH1BSD".to_owned(),
            Opcode::OrBSU => "ORBSU".to_owned(),
            Opcode::AndBSU => "ANDBSU".to_owned(),
            Opcode::XorBSU => "XORBSU".to_owned(),
            Opcode::MovBSU => "MOVBSU".to_owned(),
            Opcode::OrNBSU => "ORNBSU".to_owned(),
            Opcode::AndNBSU => "ANDNBSU".to_owned(),
            Opcode::XorNBSU => "XORNBSU".to_owned(),
            Opcode::NotBSU => "NOTBSU".to_owned(),
            Opcode::CmpFS => "CMPF.S".to_owned(),
            Opcode::CvtWS => "CVT.WS".to_owned(),
            Opcode::CvtSW => "CVT.SW".to_owned(),
            Opcode::AddFS => "ADDF.S".to_owned(),
            Opcode::SubFS => "SUBF.S".to_owned(),
            Opcode::MulFS => "MULF.S".to_owned(),
            Opcode::DivFS => "DIVF.S".to_owned(),
            Opcode::XB => "XB".to_owned(),
            Opcode::XH => "XH".to_owned(),
            Opcode::Rev => "REV".to_owned(),
            Opcode::TrncSW => "TRNC.SW".to_owned(),
            Opcode::MpyHw => "MPYHW".to_owned(),
        }
    }
}

} // verus!
