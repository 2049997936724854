//! The V810 CPU: architectural registers, processor status word, and the
//! fetch-decode-execute step against the interconnect. `step_spec` states the
//! whole transition a step makes; the executable `step` is proved to match.
//!
//! The status word is held packed in its 32-bit layout: bit 0 zero, bit 1
//! sign, bit 2 overflow, bit 3 carry, bits 4 to 9 the floating-point flags,
//! bit 12 interrupt disable, bit 13 address-trap enable, bit 14 exception
//! pending, bit 15 NMI pending, bits 16 to 19 the interrupt mask level.

use vstd::prelude::*;

use crate::bits::{branch_disp9, lemma_reg_fields, sext5, sext16, wrap_add32, wrap_sub32};
use crate::errors::EmuError;
use crate::instruction::from_halfwords;
use crate::instruction::{decode_spec, spec_disp26, spec_format_ii, Opcode};
use crate::instruction::{
    OPCODE_BITS_ADDI, OPCODE_BITS_ADD_I, OPCODE_BITS_ADD_R, OPCODE_BITS_AND, OPCODE_BITS_ANDI,
    OPCODE_BITS_BCOND_PREFIX, OPCODE_BITS_CLI, OPCODE_BITS_CMP_I, OPCODE_BITS_CMP_R,
    OPCODE_BITS_JAL, OPCODE_BITS_JMP, OPCODE_BITS_JR, OPCODE_BITS_LDSR, OPCODE_BITS_LD_B,
    OPCODE_BITS_LD_H, OPCODE_BITS_LD_W, OPCODE_BITS_MOVEA, OPCODE_BITS_MOVHI, OPCODE_BITS_MOV_I,
    OPCODE_BITS_MOV_R, OPCODE_BITS_NOT, OPCODE_BITS_OR, OPCODE_BITS_ORI, OPCODE_BITS_SAR_I,
    OPCODE_BITS_SAR_R, OPCODE_BITS_SEI, OPCODE_BITS_SHL_I, OPCODE_BITS_SHL_R, OPCODE_BITS_SHR_I,
    OPCODE_BITS_SHR_R, OPCODE_BITS_STSR, OPCODE_BITS_ST_B, OPCODE_BITS_ST_H, OPCODE_BITS_ST_W,
    OPCODE_BITS_SUB, OPCODE_BITS_XOR, OPCODE_BITS_XORI, OPCODE_SYSREG_CHCW, OPCODE_SYSREG_ECR,
    OPCODE_SYSREG_PIR, OPCODE_SYSREG_PSW, OPCODE_SYSREG_TKCW,
};
use crate::interconnect::{bus_write_byte, bus_write_halfword, bus_write_word, BusV, Interconnect};

verus! {

/// The bits of the packed status word that are defined: the four condition
/// flags, the six floating-point flags, the four control flags, and the
/// 4-bit interrupt mask level.
pub const PSW_DEFINED_BITS: u32 = 0x000ff3ff;

/// The architectural state of the CPU as plain values: program counter,
/// general-purpose registers, system registers, and the packed status word.
#[verifier::ext_equal]
pub ghost struct CpuV {
    pub pc: u32,
    pub gpr: Seq<u32>,
    pub eipc: u32,
    pub eipsw: u32,
    pub fepc: u32,
    pub fepsw: u32,
    pub ecr: u32,
    pub tkcw: u32,
    pub chcw: u32,
    pub adtre: u32,
    pub psw: u32,
}

/// Thirty-two general-purpose registers, with r0 hardwired to zero.
pub open spec fn cpu_wf(c: CpuV) -> bool {
    c.gpr.len() == 32 && c.gpr[0] == 0
}

/// Write `val` to register `idx`; a write to r0 is discarded.
pub open spec fn set_gpr(c: CpuV, idx: u16, val: u32) -> CpuV {
    if idx == 0 {
        c
    } else {
        CpuV { gpr: c.gpr.update(idx as int, val), ..c }
    }
}

pub open spec fn with_pc(c: CpuV, pc: u32) -> CpuV {
    CpuV { pc, ..c }
}

/// The status-word zero flag.
pub open spec fn psw_zero(psw: u32) -> bool {
    psw & 0x1 != 0
}

/// The status-word sign flag.
pub open spec fn psw_sign(psw: u32) -> bool {
    psw & 0x2 != 0
}

/// The status-word overflow flag.
pub open spec fn psw_overflow(psw: u32) -> bool {
    psw & 0x4 != 0
}

/// The status-word carry flag.
pub open spec fn psw_carry(psw: u32) -> bool {
    psw & 0x8 != 0
}

/// The zero and sign flag bits a result gives rise to.
pub open spec fn zs_bits(res: u32) -> u32 {
    (if res == 0 {
        0x1u32
    } else {
        0u32
    }) | (if res & 0x80000000 != 0 {
        0x2u32
    } else {
        0u32
    })
}

/// The condition flags after an addition: zero and sign from the result,
/// overflow from signed overflow, carry from unsigned overflow.
pub open spec fn add_flags(psw: u32, lhs: u32, rhs: u32, res: u32) -> u32 {
    (psw & 0xfffffff0) | zs_bits(res) | (if (!(lhs ^ rhs) & (rhs ^ res)) & 0x80000000 != 0 {
        0x4u32
    } else {
        0u32
    }) | (if lhs + rhs > 0xffffffff {
        0x8u32
    } else {
        0u32
    })
}

/// The condition flags after a subtraction: zero and sign from the result,
/// overflow from signed overflow, carry from unsigned borrow.
pub open spec fn sub_flags(psw: u32, lhs: u32, rhs: u32, res: u32) -> u32 {
    (psw & 0xfffffff0) | zs_bits(res) | (if ((lhs ^ rhs) & !(rhs ^ res)) & 0x80000000 != 0 {
        0x4u32
    } else {
        0u32
    }) | (if lhs < rhs {
        0x8u32
    } else {
        0u32
    })
}

/// The condition flags after a bitwise operation: zero and sign from the
/// result, overflow cleared, carry untouched.
pub open spec fn logic_flags(psw: u32, res: u32) -> u32 {
    (psw & 0xfffffff8) | zs_bits(res)
}

/// The condition flags after ANDI, which clears the sign flag
/// unconditionally.
pub open spec fn andi_flags(psw: u32, res: u32) -> u32 {
    (psw & 0xfffffff8) | (if res == 0 {
        0x1u32
    } else {
        0u32
    })
}

/// The condition flags after a shift: zero and sign from the result,
/// overflow cleared, carry as given.
pub open spec fn shift_flags(psw: u32, res: u32, carry: bool) -> u32 {
    (psw & 0xfffffff0) | zs_bits(res) | (if carry {
        0x8u32
    } else {
        0u32
    })
}

/// Addition: result to `reg2`, flags from the operands and the result.
pub open spec fn add_spec(c: CpuV, lhs: u32, rhs: u32, reg2: u16) -> CpuV {
    let res = wrap_add32(lhs, rhs);
    set_gpr(CpuV { psw: add_flags(c.psw, lhs, rhs, res), ..c }, reg2, res)
}

/// Subtraction: flags from the operands and the result, which is returned
/// for SUB to store and CMP to discard.
pub open spec fn sub_spec(c: CpuV, lhs: u32, rhs: u32) -> (CpuV, u32) {
    let res = wrap_sub32(lhs, rhs);
    (CpuV { psw: sub_flags(c.psw, lhs, rhs, res), ..c }, res)
}

/// A bitwise result to `reg2`: overflow cleared, zero and sign from the
/// result.
pub open spec fn logic_spec(c: CpuV, res: u32, reg2: u16) -> CpuV {
    set_gpr(CpuV { psw: logic_flags(c.psw, res), ..c }, reg2, res)
}

/// ANDI clears the sign flag unconditionally.
pub open spec fn andi_spec(c: CpuV, res: u32, reg2: u16) -> CpuV {
    set_gpr(CpuV { psw: andi_flags(c.psw, res), ..c }, reg2, res)
}

/// Left shift by `shift` taken mod 32. A zero shift clears carry; otherwise
/// the last bit shifted out becomes carry. Overflow is cleared.
pub open spec fn shl_spec(c: CpuV, val: u32, shift: u32) -> (CpuV, u32) {
    let sh = shift & 0x1f;
    if sh == 0 {
        (CpuV { psw: shift_flags(c.psw, val, false), ..c }, val)
    } else {
        let r1 = val << ((sh - 1) as u32);
        let res = r1 << 1u32;
        (CpuV { psw: shift_flags(c.psw, res, r1 & 0x80000000 != 0), ..c }, res)
    }
}

/// Logical right shift, with the same flag discipline as `shl_spec`.
pub open spec fn shr_spec(c: CpuV, val: u32, shift: u32) -> (CpuV, u32) {
    let sh = shift & 0x1f;
    if sh == 0 {
        (CpuV { psw: shift_flags(c.psw, val, false), ..c }, val)
    } else {
        let r1 = val >> ((sh - 1) as u32);
        let res = r1 >> 1u32;
        (CpuV { psw: shift_flags(c.psw, res, r1 & 0x1 != 0), ..c }, res)
    }
}

/// A 32-bit arithmetic right shift by `n`, for `n` below 32.
pub open spec fn sar32(val: u32, n: u32) -> u32 {
    if n == 0 {
        val
    } else if val & 0x80000000 != 0 {
        (val >> n) | (0xffffffffu32 << ((32 - n) as u32))
    } else {
        val >> n
    }
}

/// Arithmetic right shift, with the same flag discipline as `shr_spec`.
pub open spec fn sar_spec(c: CpuV, val: u32, shift: u32) -> (CpuV, u32) {
    let sh = shift & 0x1f;
    if sh == 0 {
        (CpuV { psw: shift_flags(c.psw, val, false), ..c }, val)
    } else {
        let r1 = sar32(val, (sh - 1) as u32);
        let res = sar32(r1, 1);
        (CpuV { psw: shift_flags(c.psw, res, r1 & 0x1 != 0), ..c }, res)
    }
}

/// Whether a conditional branch with the given 4-bit condition is taken.
pub open spec fn bcond_taken(c: CpuV, cond: u16) -> bool {
    let z = psw_zero(c.psw);
    let s = psw_sign(c.psw);
    let ov = psw_overflow(c.psw);
    let cy = psw_carry(c.psw);
    match cond {
        0 => ov,  // BV
        1 => cy,  // BC / BL
        2 => z,  // BZ / BE
        3 => cy || z,  // BNH
        4 => s,  // BN
        5 => true,  // BR
        6 => s != ov,  // BLT
        7 => (s != ov) || z,  // BLE
        8 => !ov,  // BNV
        9 => !cy,  // BNC / BNL
        10 => !z,  // BNZ / BNE
        11 => !(cy || z),  // BH
        12 => !s,  // BP
        13 => false,  // NOP
        14 => !(s != ov),  // BGE
        15 => !((s != ov) || z),  // BGT
        _ => false,
    }
}

/// The packed status word carries only its defined bits: bits 10, 11 and
/// 20 and above always read as zero.
pub open spec fn psw_defined(psw: u32) -> bool {
    psw & PSW_DEFINED_BITS == psw
}

/// Masking by the defined bits yields a word of defined bits alone, as do
/// the power-on and reset values.
proof fn lemma_mask_gives_defined(val: u32)
    by (bit_vector)
    ensures
        psw_defined(val & PSW_DEFINED_BITS),
        psw_defined(0u32),
        psw_defined(0x00008000u32),
{
}

/// An addition's flag update writes only defined bits.
proof fn lemma_add_flags_defined(psw: u32, lhs: u32, rhs: u32, res: u32)
    by (bit_vector)
    requires
        psw_defined(psw),
    ensures
        psw_defined(add_flags(psw, lhs, rhs, res)),
{
}

/// A subtraction's flag update writes only defined bits.
proof fn lemma_sub_flags_defined(psw: u32, lhs: u32, rhs: u32, res: u32)
    by (bit_vector)
    requires
        psw_defined(psw),
    ensures
        psw_defined(sub_flags(psw, lhs, rhs, res)),
{
}

/// A bitwise operation's flag update writes only defined bits.
proof fn lemma_logic_flags_defined(psw: u32, res: u32)
    by (bit_vector)
    requires
        psw_defined(psw),
    ensures
        psw_defined(logic_flags(psw, res)),
        psw_defined(andi_flags(psw, res)),
{
}

/// A shift's flag update writes only defined bits.
proof fn lemma_shift_flags_defined(psw: u32, res: u32)
    by (bit_vector)
    requires
        psw_defined(psw),
    ensures
        psw_defined(shift_flags(psw, res, true)),
        psw_defined(shift_flags(psw, res, false)),
{
}

/// Toggling the interrupt-disable bit touches only defined bits.
proof fn lemma_int_disable_defined(psw: u32)
    by (bit_vector)
    requires
        psw_defined(psw),
    ensures
        psw_defined(psw & 0xffffefff),
        psw_defined(psw | 0x1000),
{
}

/// An opcode whose execution is not modeled: the second halfword is fetched
/// so the failure can carry the decoded instruction.
#[verifier::opaque]
pub open spec fn step_unimpl(c: CpuV, ic: Interconnect, first: u16, next_pc: u32) -> (
    CpuV,
    BusV,
    Result<usize, EmuError>,
) {
    match ic.spec_read_halfword(next_pc) {
        Err(e) => (c, ic@, Err(e)),
        Ok(second) => (
            c,
            ic@,
            Err(
                EmuError::UnimplementedInstruction {
                    pc: c.pc,
                    instruction: decode_spec(first, second),
                },
            ),
        ),
    }
}

/// The register-register opcodes, main opcode below 0b010000.
#[verifier::opaque]
pub open spec fn step_op_i(c: CpuV, ic: Interconnect, first: u16, next_pc: u32) -> (
    CpuV,
    BusV,
    Result<usize, EmuError>,
) {
    let reg1 = first & 0x1f;
    let reg2 = (first >> 5) & 0x1f;
    match first >> 10 {
        OPCODE_BITS_MOV_R => (with_pc(set_gpr(c, reg2, c.gpr[reg1 as int]), next_pc), ic@, Ok(1)),
        OPCODE_BITS_ADD_R => (
            with_pc(add_spec(c, c.gpr[reg1 as int], c.gpr[reg2 as int], reg2), next_pc),
            ic@,
            Ok(1),
        ),
        OPCODE_BITS_SUB => {
            let (c1, res) = sub_spec(c, c.gpr[reg2 as int], c.gpr[reg1 as int]);
            (with_pc(set_gpr(c1, reg2, res), next_pc), ic@, Ok(1))
        },
        OPCODE_BITS_CMP_R => {
            let (c1, _) = sub_spec(c, c.gpr[reg2 as int], c.gpr[reg1 as int]);
            (with_pc(c1, next_pc), ic@, Ok(1))
        },
        OPCODE_BITS_SHL_R => {
            let (c1, res) = shl_spec(c, c.gpr[reg2 as int], c.gpr[reg1 as int]);
            (with_pc(set_gpr(c1, reg2, res), next_pc), ic@, Ok(1))
        },
        OPCODE_BITS_SHR_R => {
            let (c1, res) = shr_spec(c, c.gpr[reg2 as int], c.gpr[reg1 as int]);
            (with_pc(set_gpr(c1, reg2, res), next_pc), ic@, Ok(1))
        },
        OPCODE_BITS_JMP => (with_pc(c, c.gpr[reg1 as int]), ic@, Ok(1)),
        OPCODE_BITS_SAR_R => {
            let (c1, res) = sar_spec(c, c.gpr[reg2 as int], c.gpr[reg1 as int]);
            (with_pc(set_gpr(c1, reg2, res), next_pc), ic@, Ok(1))
        },
        OPCODE_BITS_OR => (
            with_pc(logic_spec(c, c.gpr[reg1 as int] | c.gpr[reg2 as int], reg2), next_pc),
            ic@,
            Ok(1),
        ),
        OPCODE_BITS_AND => (
            with_pc(logic_spec(c, c.gpr[reg1 as int] & c.gpr[reg2 as int], reg2), next_pc),
            ic@,
            Ok(1),
        ),
        OPCODE_BITS_XOR => (
            with_pc(logic_spec(c, c.gpr[reg1 as int] ^ c.gpr[reg2 as int], reg2), next_pc),
            ic@,
            Ok(1),
        ),
        OPCODE_BITS_NOT => (with_pc(logic_spec(c, !c.gpr[reg1 as int], reg2), next_pc), ic@, Ok(1)),
        _ => step_unimpl(c, ic, first, next_pc),
    }
}

/// The small-immediate and system opcodes, main opcode 0b010000 to 0b011111.
#[verifier::opaque]
pub open spec fn step_op_ii(c: CpuV, ic: Interconnect, first: u16, next_pc: u32) -> (
    CpuV,
    BusV,
    Result<usize, EmuError>,
) {
    let reg2 = (first >> 5) & 0x1f;
    let imm5 = first & 0x1f;
    match first >> 10 {
        OPCODE_BITS_MOV_I => (with_pc(set_gpr(c, reg2, sext5(imm5)), next_pc), ic@, Ok(1)),
        OPCODE_BITS_ADD_I => (
            with_pc(add_spec(c, c.gpr[reg2 as int], sext5(imm5), reg2), next_pc),
            ic@,
            Ok(1),
        ),
        OPCODE_BITS_CMP_I => {
            let (c1, _) = sub_spec(c, c.gpr[reg2 as int], sext5(imm5));
            (with_pc(c1, next_pc), ic@, Ok(1))
        },
        OPCODE_BITS_SHL_I => {
            let (c1, res) = shl_spec(c, c.gpr[reg2 as int], imm5 as u32);
            (with_pc(set_gpr(c1, reg2, res), next_pc), ic@, Ok(1))
        },
        OPCODE_BITS_SHR_I => {
            let (c1, res) = shr_spec(c, c.gpr[reg2 as int], imm5 as u32);
            (with_pc(set_gpr(c1, reg2, res), next_pc), ic@, Ok(1))
        },
        OPCODE_BITS_CLI => (with_pc(CpuV { psw: c.psw & 0xffffefff, ..c }, next_pc), ic@, Ok(1)),
        OPCODE_BITS_SAR_I => {
            let (c1, res) = sar_spec(c, c.gpr[reg2 as int], imm5 as u32);
            (with_pc(set_gpr(c1, reg2, res), next_pc), ic@, Ok(1))
        },
        OPCODE_BITS_LDSR => {
            if imm5 == OPCODE_SYSREG_PSW {
                (
                    with_pc(CpuV { psw: c.gpr[reg2 as int] & PSW_DEFINED_BITS, ..c }, next_pc),
                    ic@,
                    Ok(1),
                )
            } else if imm5 == OPCODE_SYSREG_ECR || imm5 == OPCODE_SYSREG_PIR || imm5
                == OPCODE_SYSREG_TKCW || imm5 == OPCODE_SYSREG_CHCW {
                // accepted and acknowledged only; nothing is stored yet
                (with_pc(c, next_pc), ic@, Ok(1))
            } else {
                (
                    c,
                    ic@,
                    Err(
                        EmuError::UnimplementedInstruction {
                            pc: c.pc,
                            instruction: spec_format_ii(Opcode::Ldsr, first),
                        },
                    ),
                )
            }
        },
        OPCODE_BITS_STSR => {
            if imm5 == OPCODE_SYSREG_PSW {
                (with_pc(set_gpr(c, reg2, c.psw), next_pc), ic@, Ok(1))
            } else {
                (
                    c,
                    ic@,
                    Err(
                        EmuError::UnimplementedInstruction {
                            pc: c.pc,
                            instruction: spec_format_ii(Opcode::Stsr, first),
                        },
                    ),
                )
            }
        },
        OPCODE_BITS_SEI => (with_pc(CpuV { psw: c.psw | 0x1000, ..c }, next_pc), ic@, Ok(1)),
        _ => step_unimpl(c, ic, first, next_pc),
    }
}

/// The register-plus-immediate and jump opcodes, main opcode 0b100000 to
/// 0b101111. The conditional-branch encodings in this range never reach
/// here: the step handles them before the main opcode is consulted.
#[verifier::opaque]
pub open spec fn step_op_v(c: CpuV, ic: Interconnect, first: u16, next_pc: u32) -> (
    CpuV,
    BusV,
    Result<usize, EmuError>,
) {
    let reg1 = first & 0x1f;
    let reg2 = (first >> 5) & 0x1f;
    match first >> 10 {
        OPCODE_BITS_MOVEA => match ic.spec_read_halfword(next_pc) {
            Err(e) => (c, ic@, Err(e)),
            Ok(second) => {
                let np = wrap_add32(next_pc, 2);
                (
                    with_pc(set_gpr(c, reg2, wrap_add32(c.gpr[reg1 as int], sext16(second))), np),
                    ic@,
                    Ok(1),
                )
            },
        },
        OPCODE_BITS_ADDI => match ic.spec_read_halfword(next_pc) {
            Err(e) => (c, ic@, Err(e)),
            Ok(second) => {
                let np = wrap_add32(next_pc, 2);
                (with_pc(add_spec(c, c.gpr[reg1 as int], sext16(second), reg2), np), ic@, Ok(1))
            },
        },
        OPCODE_BITS_JR => match ic.spec_read_halfword(next_pc) {
            Err(e) => (c, ic@, Err(e)),
            Ok(second) => (with_pc(c, wrap_add32(c.pc, spec_disp26(first, second))), ic@, Ok(1)),
        },
        OPCODE_BITS_JAL => match ic.spec_read_halfword(next_pc) {
            Err(e) => (c, ic@, Err(e)),
            Ok(second) => {
                let np = wrap_add32(next_pc, 2);
                (
                    with_pc(set_gpr(c, 31, np), wrap_add32(c.pc, spec_disp26(first, second))),
                    ic@,
                    Ok(1),
                )
            },
        },
        OPCODE_BITS_ORI => match ic.spec_read_halfword(next_pc) {
            Err(e) => (c, ic@, Err(e)),
            Ok(second) => {
                let np = wrap_add32(next_pc, 2);
                (
                    with_pc(logic_spec(c, c.gpr[reg1 as int] | (second as u32), reg2), np),
                    ic@,
                    Ok(1),
                )
            },
        },
        OPCODE_BITS_ANDI => match ic.spec_read_halfword(next_pc) {
            Err(e) => (c, ic@, Err(e)),
            Ok(second) => {
                let np = wrap_add32(next_pc, 2);
                (
                    with_pc(andi_spec(c, c.gpr[reg1 as int] & (second as u32), reg2), np),
                    ic@,
                    Ok(1),
                )
            },
        },
        OPCODE_BITS_XORI => match ic.spec_read_halfword(next_pc) {
            Err(e) => (c, ic@, Err(e)),
            Ok(second) => {
                let np = wrap_add32(next_pc, 2);
                (
                    with_pc(logic_spec(c, c.gpr[reg1 as int] ^ (second as u32), reg2), np),
                    ic@,
                    Ok(1),
                )
            },
        },
        OPCODE_BITS_MOVHI => match ic.spec_read_halfword(next_pc) {
            Err(e) => (c, ic@, Err(e)),
            Ok(second) => {
                let np = wrap_add32(next_pc, 2);
                (
                    with_pc(
                        set_gpr(c, reg2, wrap_add32(c.gpr[reg1 as int], (second as u32) << 16u32)),
                        np,
                    ),
                    ic@,
                    Ok(1),
                )
            },
        },
        _ => step_unimpl(c, ic, first, next_pc),
    }
}

/// The load, store and port opcodes, main opcode 0b110000 and above.
#[verifier::opaque]
pub open spec fn step_op_vi(c: CpuV, ic: Interconnect, first: u16, next_pc: u32) -> (
    CpuV,
    BusV,
    Result<usize, EmuError>,
) {
    let reg1 = first & 0x1f;
    let reg2 = (first >> 5) & 0x1f;
    match first >> 10 {
        OPCODE_BITS_LD_B => match ic.spec_read_halfword(next_pc) {
            Err(e) => (c, ic@, Err(e)),
            Ok(second) => {
                let np = wrap_add32(next_pc, 2);
                let addr = wrap_add32(c.gpr[reg1 as int], sext16(second)) & 0xfffffffc;
                match ic.spec_read_byte(addr) {
                    Err(e) => (c, ic@, Err(e)),
                    Ok(v) => (with_pc(set_gpr(c, reg2, v as u32), np), ic@, Ok(1)),
                }
            },
        },
        OPCODE_BITS_LD_H => match ic.spec_read_halfword(next_pc) {
            Err(e) => (c, ic@, Err(e)),
            Ok(second) => {
                let np = wrap_add32(next_pc, 2);
                let addr = wrap_add32(c.gpr[reg1 as int], sext16(second)) & 0xfffffffc;
                match ic.spec_read_halfword(addr) {
                    Err(e) => (c, ic@, Err(e)),
                    Ok(v) => (with_pc(set_gpr(c, reg2, v as u32), np), ic@, Ok(1)),
                }
            },
        },
        OPCODE_BITS_LD_W => match ic.spec_read_halfword(next_pc) {
            Err(e) => (c, ic@, Err(e)),
            Ok(second) => {
                let np = wrap_add32(next_pc, 2);
                let addr = wrap_add32(c.gpr[reg1 as int], sext16(second)) & 0xfffffffc;
                match ic.spec_read_word(addr) {
                    Err(e) => (c, ic@, Err(e)),
                    Ok(v) => (with_pc(set_gpr(c, reg2, v), np), ic@, Ok(1)),
                }
            },
        },
        OPCODE_BITS_ST_B => match ic.spec_read_halfword(next_pc) {
            Err(e) => (c, ic@, Err(e)),
            Ok(second) => {
                let np = wrap_add32(next_pc, 2);
                let addr = wrap_add32(c.gpr[reg1 as int], sext16(second)) & 0xfffffffe;
                match bus_write_byte(ic@, addr, c.gpr[reg2 as int] as u8) {
                    Err(e) => (c, ic@, Err(e)),
                    Ok(b) => (with_pc(c, np), b, Ok(1)),
                }
            },
        },
        OPCODE_BITS_ST_H => match ic.spec_read_halfword(next_pc) {
            Err(e) => (c, ic@, Err(e)),
            Ok(second) => {
                let np = wrap_add32(next_pc, 2);
                let addr = wrap_add32(c.gpr[reg1 as int], sext16(second)) & 0xfffffffe;
                match bus_write_halfword(ic@, addr, c.gpr[reg2 as int] as u16) {
                    Err(e) => (c, ic@, Err(e)),
                    Ok(b) => (with_pc(c, np), b, Ok(1)),
                }
            },
        },
        OPCODE_BITS_ST_W => match ic.spec_read_halfword(next_pc) {
            Err(e) => (c, ic@, Err(e)),
            Ok(second) => {
                let np = wrap_add32(next_pc, 2);
                let addr = wrap_add32(c.gpr[reg1 as int], sext16(second)) & 0xfffffffc;
                let (b, res) = bus_write_word(ic@, addr, c.gpr[reg2 as int]);
                match res {
                    Err(e) => (c, b, Err(e)),
                    Ok(_) => (with_pc(c, np), b, Ok(1)),
                }
            },
        },
        _ => step_unimpl(c, ic, first, next_pc),
    }
}

/// One step on a non-branch opcode: the main 6-bit opcode of `first` selects
/// the semantics; multi-halfword formats fetch the second halfword at
/// `next_pc` and advance past it before executing.
#[verifier::opaque]
pub open spec fn step_op(c: CpuV, ic: Interconnect, first: u16, next_pc: u32) -> (
    CpuV,
    BusV,
    Result<usize, EmuError>,
) {
    let op = first >> 10;
    if op < 0b010000 {
        step_op_i(c, ic, first, next_pc)
    } else if op < 0b100000 {
        step_op_ii(c, ic, first, next_pc)
    } else if op < 0b110000 {
        step_op_v(c, ic, first, next_pc)
    } else {
        step_op_vi(c, ic, first, next_pc)
    }
}

/// One step of the CPU against the interconnect: fetch the halfword at the
/// program counter, execute, and commit the next program counter. Yields the
/// CPU state, the bus state and the elapsed-cycles result.
#[verifier::opaque]
pub open spec fn step_spec(c: CpuV, ic: Interconnect) -> (CpuV, BusV, Result<usize, EmuError>) {
    match ic.spec_read_halfword(c.pc) {
        Err(e) => (c, ic@, Err(e)),
        Ok(first) => {
            let next_pc = wrap_add32(c.pc, 2);
            if first >> 13 == OPCODE_BITS_BCOND_PREFIX {
                let taken = bcond_taken(c, (first >> 9) & 0xf);
                let pc2 = if taken {
                    wrap_add32(c.pc, branch_disp9(first))
                } else {
                    next_pc
                };
                (with_pc(c, pc2), ic@, Ok(1))
            } else {
                step_op(c, ic, first, next_pc)
            }
        },
    }
}

/// The reset state: program counter at the reset vector, exception context
/// poisoned, ECR at its reset code, the status word at its reset value (only
/// NMI pending set), and r1 through r31 poisoned.
pub open spec fn reset_spec(c: CpuV) -> CpuV {
    CpuV {
        pc: 0xfffffff0,
        eipc: 0xdeadbeef,
        eipsw: 0xdeadbeef,
        fepc: 0xdeadbeef,
        fepsw: 0xdeadbeef,
        ecr: 0x0000fff0,
        psw: 0x00008000,
        gpr: Seq::new(
            32,
            |i: int|
                if i == 0 {
                    c.gpr[0]
                } else {
                    0xdeadbeefu32
                },
        ),
        ..c
    }
}

/// The power-on state: every register and flag zero.
pub open spec fn init_cpu() -> CpuV {
    CpuV {
        pc: 0,
        gpr: Seq::new(32, |i: int| 0u32),
        eipc: 0,
        eipsw: 0,
        fepc: 0,
        fepsw: 0,
        ecr: 0,
        tkcw: 0,
        chcw: 0,
        adtre: 0,
        psw: 0,
    }
}

pub struct V810 {
    pub reg_pc: u32,
    pub reg_gpr: Vec<u32>,
    pub reg_eipc: u32,
    pub reg_eipsw: u32,
    pub reg_fepc: u32,
    pub reg_fepsw: u32,
    pub reg_ecr: u32,
    pub reg_tkcw: u32,
    pub reg_chcw: u32,
    pub reg_adtre: u32,
    pub reg_psw: u32,
}

impl View for V810 {
    type V = CpuV;

    open spec fn view(&self) -> CpuV {
        CpuV {
            pc: self.reg_pc,
            gpr: self.reg_gpr@,
            eipc: self.reg_eipc,
            eipsw: self.reg_eipsw,
            fepc: self.reg_fepc,
            fepsw: self.reg_fepsw,
            ecr: self.reg_ecr,
            tkcw: self.reg_tkcw,
            chcw: self.reg_chcw,
            adtre: self.reg_adtre,
            psw: self.reg_psw,
        }
    }
}

impl V810 {
    /// Thirty-two general-purpose registers with r0 hardwired to zero, and a
    /// packed status word that carries only its defined bits.
    pub open spec fn wf(&self) -> bool {
        cpu_wf(self@) && psw_defined(self@.psw)
    }

    /// A CPU in the power-on state.
    pub fn new() -> (r: V810)
        ensures
            r.wf(),
            r@ == init_cpu(),
    {
        let mut gpr: Vec<u32> = Vec::new();
        let mut i: usize = 0;
        while i < 32
            invariant
                i <= 32,
                gpr@.len() == i,
                forall|j: int| 0 <= j < i ==> gpr@[j] == 0u32,
            decreases 32 - i,
        {
            gpr.push(0);
            i = i + 1;
        }
        let cpu = V810 {
            reg_pc: 0,
            reg_gpr: gpr,
            reg_eipc: 0,
            reg_eipsw: 0,
            reg_fepc: 0,
            reg_fepsw: 0,
            reg_ecr: 0,
            reg_tkcw: 0,
            reg_chcw: 0,
            reg_adtre: 0,
            reg_psw: 0,
        };
        proof {
            lemma_mask_gives_defined(0);
            assert(cpu@.gpr =~= init_cpu().gpr);
            assert(cpu@ =~= init_cpu());
        }
        cpu
    }

    /// Reset the CPU to its architectural reset state.
    pub fn reset(&mut self)
        requires
            old(self).wf(),
        ensures
            final(self).wf(),
            final(self)@ == reset_spec(old(self)@),
    {
        let mut i: usize = 1;
        while i < 32
            invariant
                1 <= i <= 32,
                self.reg_gpr@.len() == 32,
                self.reg_gpr@[0] == old(self).reg_gpr@[0],
                forall|j: int| 1 <= j < i ==> self.reg_gpr@[j] == 0xdeadbeefu32,
                self@ == (CpuV { gpr: self@.gpr, ..old(self)@ }),
            decreases 32 - i,
        {
            self.reg_gpr.set(i, 0xdeadbeef);
            i = i + 1;
        }
        self.reg_pc = 0xfffffff0;
        self.reg_eipc = 0xdeadbeef;
        self.reg_eipsw = 0xdeadbeef;
        self.reg_fepc = 0xdeadbeef;
        self.reg_fepsw = 0xdeadbeef;
        self.reg_ecr = 0x0000fff0;
        self.reg_psw = 0x00008000;
        proof {
            lemma_mask_gives_defined(0);
            assert(self@.gpr =~= reset_spec(old(self)@).gpr);
            assert(self@ =~= reset_spec(old(self)@));
        }
    }

    pub fn reg_pc(&self) -> (r: u32)
        ensures
            r == self@.pc,
    {
        self.reg_pc
    }

    pub fn reg_eipc(&self) -> (r: u32)
        ensures
            r == self@.eipc,
    {
        self.reg_eipc
    }

    pub fn reg_eipsw(&self) -> (r: u32)
        ensures
            r == self@.eipsw,
    {
        self.reg_eipsw
    }

    pub fn reg_gpr(&self, index: u16) -> (r: u32)
        requires
            self.wf(),
            index < 32,
        ensures
            r == self@.gpr[index as int],
    {
        self.reg_gpr[index as usize]
    }

    /// Write a general-purpose register; a write to r0 is discarded.
    pub fn set_reg_gpr(&mut self, index: u16, val: u32)
        requires
            old(self).wf(),
            index < 32,
        ensures
            final(self).wf(),
            final(self)@ == set_gpr(old(self)@, index, val),
    {
        if index != 0 {
            self.reg_gpr.set(index as usize, val);
        }
    }

    /// The status word in its packed 32-bit layout; bits 10, 11 and 20 and
    /// above of the result are always zero.
    pub fn reg_psw(&self) -> (r: u32)
        requires
            self.wf(),
        ensures
            r == self@.psw,
            r & PSW_DEFINED_BITS == r,
    {
        self.reg_psw
    }

    /// Load the status word from its packed 32-bit layout; the undefined
    /// bits are discarded.
    pub fn set_reg_psw(&mut self, val: u32)
        ensures
            final(self)@ == (CpuV { psw: val & PSW_DEFINED_BITS, ..old(self)@ }),
            psw_defined(final(self)@.psw),
    {
        proof {
            lemma_mask_gives_defined(val);
        }
        self.reg_psw = val & PSW_DEFINED_BITS;
    }

    /// Interrupt delivery is not modeled yet: every request fails.
    pub fn request_interrupt(&mut self, interrupt_code: u16) -> (r: Result<(), EmuError>)
        ensures
            *final(self) == *old(self),
            r == Err::<(), EmuError>(EmuError::UnimplementedInterrupt { code: interrupt_code }),
    {
        Err(EmuError::UnimplementedInterrupt { code: interrupt_code })
    }

    fn add(&mut self, lhs: u32, rhs: u32, reg2: u16)
        requires
            old(self).wf(),
            reg2 < 32,
        ensures
            final(self).wf(),
            final(self)@ == add_spec(old(self)@, lhs, rhs, reg2),
    {
        let res = lhs.wrapping_add(rhs);
        let zs = zs_bits_exec(res);
        let ov: u32 = if ((!(lhs ^ rhs) & (rhs ^ res)) & 0x80000000) != 0 {
            0x4
        } else {
            0
        };
        let cy: u32 = if lhs.checked_add(rhs).is_none() {
            0x8
        } else {
            0
        };
        proof {
            lemma_add_flags_defined(old(self).reg_psw, lhs, rhs, res);
        }
        self.reg_psw = (self.reg_psw & 0xfffffff0) | zs | ov | cy;
        self.set_reg_gpr(reg2, res);
    }

    fn sub(&mut self, lhs: u32, rhs: u32) -> (r: u32)
        requires
            old(self).wf(),
        ensures
            final(self).wf(),
            final(self)@ == sub_spec(old(self)@, lhs, rhs).0,
            r == sub_spec(old(self)@, lhs, rhs).1,
    {
        let res = lhs.wrapping_sub(rhs);
        let zs = zs_bits_exec(res);
        let ov: u32 = if (((lhs ^ rhs) & !(rhs ^ res)) & 0x80000000) != 0 {
            0x4
        } else {
            0
        };
        let cy: u32 = if lhs < rhs {
            0x8
        } else {
            0
        };
        proof {
            lemma_sub_flags_defined(old(self).reg_psw, lhs, rhs, res);
        }
        self.reg_psw = (self.reg_psw & 0xfffffff0) | zs | ov | cy;
        res
    }

    fn shl(&mut self, val: u32, shift: u32) -> (r: u32)
        requires
            old(self).wf(),
        ensures
            final(self).wf(),
            final(self)@ == shl_spec(old(self)@, val, shift).0,
            r == shl_spec(old(self)@, val, shift).1,
    {
        let sh = shift & 0x0000001f;
        proof {
            assert(sh < 32) by (bit_vector)
                requires
                    sh == shift & 0x0000001f,
            ;
        }
        if sh == 0 {
            proof {
                lemma_shift_flags_defined(self.reg_psw, val);
            }
            self.reg_psw = shift_flags_exec(self.reg_psw, val, false);
            val
        } else {
            let r1 = val << (sh - 1);
            let res = r1 << 1;
            proof {
                lemma_shift_flags_defined(self.reg_psw, res);
            }
            self.reg_psw = shift_flags_exec(self.reg_psw, res, (r1 & 0x80000000) != 0);
            res
        }
    }

    fn shr(&mut self, val: u32, shift: u32) -> (r: u32)
        requires
            old(self).wf(),
        ensures
            final(self).wf(),
            final(self)@ == shr_spec(old(self)@, val, shift).0,
            r == shr_spec(old(self)@, val, shift).1,
    {
        let sh = shift & 0x0000001f;
        proof {
            assert(sh < 32) by (bit_vector)
                requires
                    sh == shift & 0x0000001f,
            ;
        }
        if sh == 0 {
            proof {
                lemma_shift_flags_defined(self.reg_psw, val);
            }
            self.reg_psw = shift_flags_exec(self.reg_psw, val, false);
            val
        } else {
            let r1 = val >> (sh - 1);
            let res = r1 >> 1;
            proof {
                lemma_shift_flags_defined(self.reg_psw, res);
            }
            self.reg_psw = shift_flags_exec(self.reg_psw, res, (r1 & 0x1) != 0);
            res
        }
    }

    fn sar(&mut self, val: u32, shift: u32) -> (r: u32)
        requires
            old(self).wf(),
        ensures
            final(self).wf(),
            final(self)@ == sar_spec(old(self)@, val, shift).0,
            r == sar_spec(old(self)@, val, shift).1,
    {
        let sh = shift & 0x0000001f;
        proof {
            assert(sh < 32) by (bit_vector)
                requires
                    sh == shift & 0x0000001f,
            ;
        }
        if sh == 0 {
            proof {
                lemma_shift_flags_defined(self.reg_psw, val);
            }
            self.reg_psw = shift_flags_exec(self.reg_psw, val, false);
            val
        } else {
            let r1 = sar_exec(val, sh - 1);
            let res = sar_exec(r1, 1);
            proof {
                lemma_shift_flags_defined(self.reg_psw, res);
            }
            self.reg_psw = shift_flags_exec(self.reg_psw, res, (r1 & 0x1) != 0);
            res
        }
    }

    /// Store the flags of a bitwise result: overflow cleared, zero and sign
    /// from the result, carry untouched.
    fn set_logic_flags(&mut self, res: u32)
        requires
            old(self).wf(),
        ensures
            final(self).wf(),
            final(self)@ == (CpuV { psw: logic_flags(old(self)@.psw, res), ..old(self)@ }),
    {
        proof {
            lemma_logic_flags_defined(self.reg_psw, res);
        }
        self.reg_psw = (self.reg_psw & 0xfffffff8) | zs_bits_exec(res);
    }

    /// Store the flags of an ANDI result, whose sign flag is cleared
    /// unconditionally.
    fn set_andi_flags(&mut self, res: u32)
        requires
            old(self).wf(),
        ensures
            final(self).wf(),
            final(self)@ == (CpuV { psw: andi_flags(old(self)@.psw, res), ..old(self)@ }),
    {
        proof {
            lemma_logic_flags_defined(self.reg_psw, res);
        }
        let z: u32 = if res == 0 {
            0x1
        } else {
            0
        };
        self.reg_psw = (self.reg_psw & 0xfffffff8) | z;
    }

    /// Whether the conditional branch with the given 4-bit condition is
    /// taken under the current flags.
    pub fn branch_taken(&self, cond: u16) -> (r: bool)
        ensures
            r == bcond_taken(self@, cond),
    {
        let z = self.reg_psw & 0x1 != 0;
        let s = self.reg_psw & 0x2 != 0;
        let ov = self.reg_psw & 0x4 != 0;
        let cy = self.reg_psw & 0x8 != 0;
        match cond {
            0 => ov,
            1 => cy,
            2 => z,
            3 => cy || z,
            4 => s,
            5 => true,
            6 => s != ov,
            7 => (s != ov) || z,
            8 => !ov,
            9 => !cy,
            10 => !z,
            11 => !(cy || z),
            12 => !s,
            13 => false,
            14 => !(s != ov),
            15 => !((s != ov) || z),
            _ => false,
        }
    }

    /// One step: fetch the halfword at the program counter, execute it, and
    /// commit the next program counter, returning the elapsed cycle count.
    /// The whole transition, on the CPU and on the bus, is `step_spec`.
    #[verifier::rlimit(100)]
    #[verifier::spinoff_prover]
    pub fn step(&mut self, interconnect: &mut Interconnect) -> (r: Result<usize, EmuError>)
        requires
            old(self).wf(),
            old(interconnect).wf(),
        ensures
            final(self).wf(),
            final(interconnect).wf(),
            ({
                let (sc, sb, sres) = step_spec(old(self)@, *old(interconnect));
                final(self)@ == sc && final(interconnect)@ == sb && r == sres
            }),
    {
        proof {
            reveal(step_spec);
            reveal(step_op);
        }
        let first = match interconnect.read_halfword(self.reg_pc) {
            Ok(h) => h,
            Err(e) => {
                return Err(e);
            },
        };
        let mut next_pc = self.reg_pc.wrapping_add(2);

        if (first >> 13) == OPCODE_BITS_BCOND_PREFIX {
            let cond = (first >> 9) & 0xf;
            let take_branch = self.branch_taken(cond);
            if take_branch {
                let disp: u32 = if first & 0x100 != 0 {
                    ((first & 0x1fe) as u32) | 0xfffffe00
                } else {
                    (first & 0xfe) as u32
                };
                next_pc = self.reg_pc.wrapping_add(disp);
            }
            self.reg_pc = next_pc;
            return Ok(1);
        }
        let opbits = first >> 10;
        if opbits < 0b010000 {
            self.exec_format_i(interconnect, first, next_pc)
        } else if opbits < 0b100000 {
            self.exec_format_ii(interconnect, first, next_pc)
        } else if opbits < 0b110000 {
            self.exec_format_v(interconnect, first, next_pc)
        } else {
            self.exec_format_vi(interconnect, first, next_pc)
        }
    }

    /// An opcode whose execution is not modeled: fetch the second halfword
    /// so the failure can carry the decoded instruction.
    fn exec_unimplemented(&self, interconnect: &Interconnect, first: u16, next_pc: u32) -> (r:
        Result<usize, EmuError>)
        requires
            interconnect.wf(),
        ensures
            r == step_unimpl(self@, *interconnect, first, next_pc).2,
    {
        proof {
            reveal(step_unimpl);
        }
        match interconnect.read_halfword(next_pc) {
            Ok(second) => Err(
                EmuError::UnimplementedInstruction {
                    pc: self.reg_pc,
                    instruction: from_halfwords(first, second),
                },
            ),
            Err(e) => Err(e),
        }
    }

    #[verifier::rlimit(100)]
    #[verifier::spinoff_prover]
    fn exec_format_i(&mut self, interconnect: &Interconnect, first: u16, next_pc: u32) -> (r:
        Result<usize, EmuError>)
        requires
            old(self).wf(),
            interconnect.wf(),
        ensures
            final(self).wf(),
            ({
                let (sc, sb, sres) = step_op_i(old(self)@, *interconnect, first, next_pc);
                final(self)@ == sc && sb == interconnect@ && r == sres
            }),
    {
        proof {
            reveal(step_op_i);
            reveal(step_unimpl);
            lemma_reg_fields(first);
        }
        let reg1 = first & 0x1f;
        let reg2 = (first >> 5) & 0x1f;
        match first >> 10 {
            OPCODE_BITS_MOV_R => {
                let val = self.reg_gpr(reg1);
                self.set_reg_gpr(reg2, val);
                self.reg_pc = next_pc;
                Ok(1)
            },
            OPCODE_BITS_ADD_R => {
                let lhs = self.reg_gpr(reg1);
                let rhs = self.reg_gpr(reg2);
                self.add(lhs, rhs, reg2);
                self.reg_pc = next_pc;
                Ok(1)
            },
            OPCODE_BITS_SUB => {
                let lhs = self.reg_gpr(reg2);
                let rhs = self.reg_gpr(reg1);
                let res = self.sub(lhs, rhs);
                self.set_reg_gpr(reg2, res);
                self.reg_pc = next_pc;
                Ok(1)
            },
            OPCODE_BITS_CMP_R => {
                let lhs = self.reg_gpr(reg2);
                let rhs = self.reg_gpr(reg1);
                let _ = self.sub(lhs, rhs);
                self.reg_pc = next_pc;
                Ok(1)
            },
            OPCODE_BITS_SHL_R => {
                let val = self.reg_gpr(reg2);
                let sh = self.reg_gpr(reg1);
                let res = self.shl(val, sh);
                self.set_reg_gpr(reg2, res);
                self.reg_pc = next_pc;
                Ok(1)
            },
            OPCODE_BITS_SHR_R => {
                let val = self.reg_gpr(reg2);
                let sh = self.reg_gpr(reg1);
                let res = self.shr(val, sh);
                self.set_reg_gpr(reg2, res);
                self.reg_pc = next_pc;
                Ok(1)
            },
            OPCODE_BITS_JMP => {
                let dest = self.reg_gpr(reg1);
                self.reg_pc = dest;
                Ok(1)
            },
            OPCODE_BITS_SAR_R => {
                let val = self.reg_gpr(reg2);
                let sh = self.reg_gpr(reg1);
                let res = self.sar(val, sh);
                self.set_reg_gpr(reg2, res);
                self.reg_pc = next_pc;
                Ok(1)
            },
            OPCODE_BITS_OR => {
                let lhs = self.reg_gpr(reg1);
                let rhs = self.reg_gpr(reg2);
                let res = lhs | rhs;
                self.set_logic_flags(res);
                self.set_reg_gpr(reg2, res);
                self.reg_pc = next_pc;
                Ok(1)
            },
            OPCODE_BITS_AND => {
                let lhs = self.reg_gpr(reg1);
                let rhs = self.reg_gpr(reg2);
                let res = lhs & rhs;
                self.set_logic_flags(res);
                self.set_reg_gpr(reg2, res);
                self.reg_pc = next_pc;
                Ok(1)
            },
            OPCODE_BITS_XOR => {
                let lhs = self.reg_gpr(reg1);
                let rhs = self.reg_gpr(reg2);
                let res = lhs ^ rhs;
                self.set_logic_flags(res);
                self.set_reg_gpr(reg2, res);
                self.reg_pc = next_pc;
                Ok(1)
            },
            OPCODE_BITS_NOT => {
                let val = self.reg_gpr(reg1);
                let res = !val;
                self.set_logic_flags(res);
                self.set_reg_gpr(reg2, res);
                self.reg_pc = next_pc;
                Ok(1)
            },
            _ => self.exec_unimplemented(interconnect, first, next_pc),
        }
    }

    #[verifier::rlimit(100)]
    #[verifier::spinoff_prover]
    fn exec_format_ii(&mut self, interconnect: &Interconnect, first: u16, next_pc: u32) -> (r:
        Result<usize, EmuError>)
        requires
            old(self).wf(),
            interconnect.wf(),
        ensures
            final(self).wf(),
            ({
                let (sc, sb, sres) = step_op_ii(old(self)@, *interconnect, first, next_pc);
                final(self)@ == sc && sb == interconnect@ && r == sres
            }),
    {
        proof {
            reveal(step_op_ii);
            reveal(step_unimpl);
            lemma_reg_fields(first);
        }
        let reg2 = (first >> 5) & 0x1f;
        let imm5 = first & 0x1f;
        match first >> 10 {
            OPCODE_BITS_MOV_I => {
                let val = sign_extend_imm5(imm5);
                self.set_reg_gpr(reg2, val);
                self.reg_pc = next_pc;
                Ok(1)
            },
            OPCODE_BITS_ADD_I => {
                let lhs = self.reg_gpr(reg2);
                let rhs = sign_extend_imm5(imm5);
                self.add(lhs, rhs, reg2);
                self.reg_pc = next_pc;
                Ok(1)
            },
            OPCODE_BITS_CMP_I => {
                let lhs = self.reg_gpr(reg2);
                let rhs = sign_extend_imm5(imm5);
                let _ = self.sub(lhs, rhs);
                self.reg_pc = next_pc;
                Ok(1)
            },
            OPCODE_BITS_SHL_I => {
                let val = self.reg_gpr(reg2);
                let res = self.shl(val, imm5 as u32);
                self.set_reg_gpr(reg2, res);
                self.reg_pc = next_pc;
                Ok(1)
            },
            OPCODE_BITS_SHR_I => {
                let val = self.reg_gpr(reg2);
                let res = self.shr(val, imm5 as u32);
                self.set_reg_gpr(reg2, res);
                self.reg_pc = next_pc;
                Ok(1)
            },
            OPCODE_BITS_CLI => {
                proof {
                    lemma_int_disable_defined(self.reg_psw);
                }
                self.reg_psw = self.reg_psw & 0xffffefff;
                self.reg_pc = next_pc;
                Ok(1)
            },
            OPCODE_BITS_SAR_I => {
                let val = self.reg_gpr(reg2);
                let res = self.sar(val, imm5 as u32);
                self.set_reg_gpr(reg2, res);
                self.reg_pc = next_pc;
                Ok(1)
            },
            OPCODE_BITS_LDSR => {
                if imm5 == OPCODE_SYSREG_PSW {
                    let val = self.reg_gpr(reg2);
                    self.set_reg_psw(val);
                    self.reg_pc = next_pc;
                    Ok(1)
                } else if imm5 == OPCODE_SYSREG_ECR || imm5 == OPCODE_SYSREG_PIR || imm5
                    == OPCODE_SYSREG_TKCW || imm5 == OPCODE_SYSREG_CHCW {
                    // the write is accepted and acknowledged only
                    self.reg_pc = next_pc;
                    Ok(1)
                } else {
                    Err(
                        EmuError::UnimplementedInstruction {
                            pc: self.reg_pc,
                            instruction: crate::instruction::format_ii(Opcode::Ldsr, first, 0),
                        },
                    )
                }
            },
            OPCODE_BITS_STSR => {
                if imm5 == OPCODE_SYSREG_PSW {
                    let val = self.reg_psw();
                    self.set_reg_gpr(reg2, val);
                    self.reg_pc = next_pc;
                    Ok(1)
                } else {
                    Err(
                        EmuError::UnimplementedInstruction {
                            pc: self.reg_pc,
                            instruction: crate::instruction::format_ii(Opcode::Stsr, first, 0),
                        },
                    )
                }
            },
            OPCODE_BITS_SEI => {
                proof {
                    lemma_int_disable_defined(self.reg_psw);
                }
                self.reg_psw = self.reg_psw | 0x1000;
                self.reg_pc = next_pc;
                Ok(1)
            },
            _ => self.exec_unimplemented(interconnect, first, next_pc),
        }
    }

    #[verifier::rlimit(100)]
    #[verifier::spinoff_prover]
    fn exec_format_v(&mut self, interconnect: &Interconnect, first: u16, next_pc: u32) -> (r:
        Result<usize, EmuError>)
        requires
            old(self).wf(),
            interconnect.wf(),
        ensures
            final(self).wf(),
            ({
                let (sc, sb, sres) = step_op_v(old(self)@, *interconnect, first, next_pc);
                final(self)@ == sc && sb == interconnect@ && r == sres
            }),
    {
        proof {
            reveal(step_op_v);
            reveal(step_unimpl);
            lemma_reg_fields(first);
        }
        let reg1 = first & 0x1f;
        let reg2 = (first >> 5) & 0x1f;
        match first >> 10 {
            OPCODE_BITS_MOVEA => {
                let second = match interconnect.read_halfword(next_pc) {
                    Ok(h) => h,
                    Err(e) => {
                        return Err(e);
                    },
                };
                let np = next_pc.wrapping_add(2);
                let lhs = self.reg_gpr(reg1);
                let rhs = sign_extend_imm16(second);
                self.set_reg_gpr(reg2, lhs.wrapping_add(rhs));
                self.reg_pc = np;
                Ok(1)
            },
            OPCODE_BITS_ADDI => {
                let second = match interconnect.read_halfword(next_pc) {
                    Ok(h) => h,
                    Err(e) => {
                        return Err(e);
                    },
                };
                let np = next_pc.wrapping_add(2);
                let lhs = self.reg_gpr(reg1);
                let rhs = sign_extend_imm16(second);
                self.add(lhs, rhs, reg2);
                self.reg_pc = np;
                Ok(1)
            },
            OPCODE_BITS_JR => {
                let second = match interconnect.read_halfword(next_pc) {
                    Ok(h) => h,
                    Err(e) => {
                        return Err(e);
                    },
                };
                let disp26 = decode_disp26(first, second);
                self.reg_pc = self.reg_pc.wrapping_add(disp26);
                Ok(1)
            },
            OPCODE_BITS_JAL => {
                let second = match interconnect.read_halfword(next_pc) {
                    Ok(h) => h,
                    Err(e) => {
                        return Err(e);
                    },
                };
                let np = next_pc.wrapping_add(2);
                let disp26 = decode_disp26(first, second);
                let target = self.reg_pc.wrapping_add(disp26);
                self.set_reg_gpr(31, np);
                self.reg_pc = target;
                Ok(1)
            },
            OPCODE_BITS_ORI => {
                let second = match interconnect.read_halfword(next_pc) {
                    Ok(h) => h,
                    Err(e) => {
                        return Err(e);
                    },
                };
                let np = next_pc.wrapping_add(2);
                let lhs = self.reg_gpr(reg1);
                let res = lhs | (second as u32);
                self.set_logic_flags(res);
                self.set_reg_gpr(reg2, res);
                self.reg_pc = np;
                Ok(1)
            },
            OPCODE_BITS_ANDI => {
                let second = match interconnect.read_halfword(next_pc) {
                    Ok(h) => h,
                    Err(e) => {
                        return Err(e);
                    },
                };
                let np = next_pc.wrapping_add(2);
                let lhs = self.reg_gpr(reg1);
                let res = lhs & (second as u32);
                self.set_andi_flags(res);
                self.set_reg_gpr(reg2, res);
                self.reg_pc = np;
                Ok(1)
            },
            OPCODE_BITS_XORI => {
                let second = match interconnect.read_halfword(next_pc) {
                    Ok(h) => h,
                    Err(e) => {
                        return Err(e);
                    },
                };
                let np = next_pc.wrapping_add(2);
                let lhs = self.reg_gpr(reg1);
                let res = lhs ^ (second as u32);
                self.set_logic_flags(res);
                self.set_reg_gpr(reg2, res);
                self.reg_pc = np;
                Ok(1)
            },
            OPCODE_BITS_MOVHI => {
                let second = match interconnect.read_halfword(next_pc) {
                    Ok(h) => h,
                    Err(e) => {
                        return Err(e);
                    },
                };
                let np = next_pc.wrapping_add(2);
                let lhs = self.reg_gpr(reg1);
                let rhs = (second as u32) << 16;
                self.set_reg_gpr(reg2, lhs.wrapping_add(rhs));
                self.reg_pc = np;
                Ok(1)
            },
            _ => self.exec_unimplemented(interconnect, first, next_pc),
        }
    }

    #[verifier::rlimit(100)]
    #[verifier::spinoff_prover]
    fn exec_format_vi(&mut self, interconnect: &mut Interconnect, first: u16, next_pc: u32) -> (r:
        Result<usize, EmuError>)
        requires
            old(self).wf(),
            old(interconnect).wf(),
        ensures
            final(self).wf(),
            final(interconnect).wf(),
            ({
                let (sc, sb, sres) = step_op_vi(old(self)@, *old(interconnect), first, next_pc);
                final(self)@ == sc && final(interconnect)@ == sb && r == sres
            }),
    {
        proof {
            reveal(step_op_vi);
            reveal(step_unimpl);
            lemma_reg_fields(first);
        }
        let reg1 = first & 0x1f;
        let reg2 = (first >> 5) & 0x1f;
        match first >> 10 {
            OPCODE_BITS_LD_B => {
                let second = match interconnect.read_halfword(next_pc) {
                    Ok(h) => h,
                    Err(e) => {
                        return Err(e);
                    },
                };
                let np = next_pc.wrapping_add(2);
                let addr = self.reg_gpr(reg1).wrapping_add(sign_extend_imm16(second)) & 0xfffffffc;
                let val = match interconnect.read_byte(addr) {
                    Ok(v) => v,
                    Err(e) => {
                        return Err(e);
                    },
                };
                self.set_reg_gpr(reg2, val as u32);
                self.reg_pc = np;
                Ok(1)
            },
            OPCODE_BITS_LD_H => {
                let second = match interconnect.read_halfword(next_pc) {
                    Ok(h) => h,
                    Err(e) => {
                        return Err(e);
                    },
                };
                let np = next_pc.wrapping_add(2);
                let addr = self.reg_gpr(reg1).wrapping_add(sign_extend_imm16(second)) & 0xfffffffc;
                let val = match interconnect.read_halfword(addr) {
                    Ok(v) => v,
                    Err(e) => {
                        return Err(e);
                    },
                };
                self.set_reg_gpr(reg2, val as u32);
                self.reg_pc = np;
                Ok(1)
            },
            OPCODE_BITS_LD_W => {
                let second = match interconnect.read_halfword(next_pc) {
                    Ok(h) => h,
                    Err(e) => {
                        return Err(e);
                    },
                };
                let np = next_pc.wrapping_add(2);
                let addr = self.reg_gpr(reg1).wrapping_add(sign_extend_imm16(second)) & 0xfffffffc;
                let val = match interconnect.read_word(addr) {
                    Ok(v) => v,
                    Err(e) => {
                        return Err(e);
                    },
                };
                self.set_reg_gpr(reg2, val);
                self.reg_pc = np;
                Ok(1)
            },
            OPCODE_BITS_ST_B => {
                let second = match interconnect.read_halfword(next_pc) {
                    Ok(h) => h,
                    Err(e) => {
                        return Err(e);
                    },
                };
                let np = next_pc.wrapping_add(2);
                let addr = self.reg_gpr(reg1).wrapping_add(sign_extend_imm16(second)) & 0xfffffffe;
                let val = self.reg_gpr(reg2);
                match interconnect.write_byte(addr, #[verifier::truncate] (val as u8)) {
                    Ok(_) => {},
                    Err(e) => {
                        return Err(e);
                    },
                }
                self.reg_pc = np;
                Ok(1)
            },
            OPCODE_BITS_ST_H => {
                let second = match interconnect.read_halfword(next_pc) {
                    Ok(h) => h,
                    Err(e) => {
                        return Err(e);
                    },
                };
                let np = next_pc.wrapping_add(2);
                let addr = self.reg_gpr(reg1).wrapping_add(sign_extend_imm16(second)) & 0xfffffffe;
                let val = self.reg_gpr(reg2);
                match interconnect.write_halfword(addr, #[verifier::truncate] (val as u16)) {
                    Ok(_) => {},
                    Err(e) => {
                        return Err(e);
                    },
                }
                self.reg_pc = np;
                Ok(1)
            },
            OPCODE_BITS_ST_W => {
                let second = match interconnect.read_halfword(next_pc) {
                    Ok(h) => h,
                    Err(e) => {
                        return Err(e);
                    },
                };
                let np = next_pc.wrapping_add(2);
                let addr = self.reg_gpr(reg1).wrapping_add(sign_extend_imm16(second)) & 0xfffffffc;
                let val = self.reg_gpr(reg2);
                match interconnect.write_word(addr, val) {
                    Ok(_) => {},
                    Err(e) => {
                        return Err(e);
                    },
                }
                self.reg_pc = np;
                Ok(1)
            },
            _ => self.exec_unimplemented(interconnect, first, next_pc),
        }
    }
}

/// The condition flags after a shift: zero and sign from the result,
/// overflow cleared, carry as given.
fn shift_flags_exec(psw: u32, res: u32, carry: bool) -> (r: u32)
    ensures
        r == shift_flags(psw, res, carry),
{
    (psw & 0xfffffff0) | zs_bits_exec(res) | (if carry {
        0x8u32
    } else {
        0u32
    })
}

/// The zero and sign flag bits a result gives rise to.
fn zs_bits_exec(res: u32) -> (r: u32)
    ensures
        r == zs_bits(res),
{
    (if res == 0 {
        0x1u32
    } else {
        0u32
    }) | (if res & 0x80000000 != 0 {
        0x2u32
    } else {
        0u32
    })
}

/// A 32-bit arithmetic right shift by `n`, for `n` below 32.
fn sar_exec(val: u32, n: u32) -> (r: u32)
    requires
        n < 32,
    ensures
        r == sar32(val, n),
{
    if n == 0 {
        val
    } else if val & 0x80000000 != 0 {
        (val >> n) | (0xffffffffu32 << (32 - n))
    } else {
        val >> n
    }
}

/// The 26-bit jump displacement from the two halfwords of a Format IV
/// instruction: sign-extended from bit 25, low bit cleared.
fn decode_disp26(first: u16, second: u16) -> (r: u32)
    ensures
        r == spec_disp26(first, second),
{
    let raw: u32 = (((first & 0x3ff) as u32) << 16) | (second as u32);
    if raw & 0x02000000 != 0 {
        (raw | 0xfc000000) & 0xfffffffe
    } else {
        raw & 0xfffffffe
    }
}

/// A 5-bit immediate sign-extended to 32 bits.
pub fn sign_extend_imm5(imm5: u16) -> (r: u32)
    ensures
        r == sext5(imm5),
{
    if imm5 & 0x10 != 0 {
        ((imm5 & 0x1f) as u32) | 0xffffffe0
    } else {
        (imm5 & 0x1f) as u32
    }
}

/// A 16-bit immediate sign-extended to 32 bits.
pub fn sign_extend_imm16(imm16: u16) -> (r: u32)
    ensures
        r == sext16(imm16),
{
    if imm16 & 0x8000 != 0 {
        (imm16 as u32) | 0xffff0000
    } else {
        imm16 as u32
    }
}

/// The flag bits that a bitwise operation yields: overflow cleared, zero
/// exactly when the result is zero, sign exactly the result's top bit, and
/// carry untouched.
pub proof fn lemma_logic_flags_bits(psw: u32, res: u32)
    by (bit_vector)
    ensures
        !psw_overflow(logic_flags(psw, res)),
        psw_zero(logic_flags(psw, res)) == (res == 0),
        psw_sign(logic_flags(psw, res)) == (res & 0x80000000 != 0),
        psw_carry(logic_flags(psw, res)) == psw_carry(psw),
{
}

/// A register write never touches r0: the register file keeps its shape and
/// r0 still reads as zero.
pub proof fn lemma_set_gpr_preserves_r0(c: CpuV, idx: u16, val: u32)
    requires
        cpu_wf(c),
        idx < 32,
    ensures
        cpu_wf(set_gpr(c, idx, val)),
{
}

/// Register r0 is invariant: whatever instruction a step executes, r0 still
/// reads as zero afterwards, and the register file keeps its shape.
#[verifier::rlimit(100)]
#[verifier::spinoff_prover]
pub proof fn lemma_step_preserves_r0(c: CpuV, ic: Interconnect)
    requires
        cpu_wf(c),
    ensures
        cpu_wf(step_spec(c, ic).0),
        step_spec(c, ic).0.gpr[0] == 0,
{
    reveal(step_spec);
    reveal(step_op);
    reveal(step_op_i);
    reveal(step_op_ii);
    reveal(step_op_v);
    reveal(step_op_vi);
    reveal(step_unimpl);
    let fetched = ic.spec_read_halfword(c.pc);
    if fetched is Ok {
        let first = fetched->Ok_0;
        lemma_reg_fields(first);
        let reg1 = first & 0x1f;
        let reg2 = (first >> 5) & 0x1f;
        assert(cpu_wf(step_spec(c, ic).0)) by {
            assert(forall|val: u32| cpu_wf(#[trigger] set_gpr(c, reg2, val)));
            assert(forall|cx: CpuV, val: u32|
                cpu_wf(cx) && cx.gpr == c.gpr ==> cpu_wf(#[trigger] set_gpr(cx, reg2, val)));
            assert(forall|cx: CpuV, val: u32|
                cpu_wf(cx) && cx.gpr == c.gpr ==> cpu_wf(#[trigger] set_gpr(cx, 31, val)));
        }
    }
}

/// PSW round-trip: after the status word is loaded from `v`, the packed
/// status word read back is `v` restricted to the defined bits.
pub proof fn lemma_psw_roundtrip(c: CpuV, v: u32)
    ensures
        (CpuV { psw: v & PSW_DEFINED_BITS, ..c }).psw == v & 0x000ff3ff,
{
}

/// AND of a register with itself leaves the register file unchanged, clears
/// overflow, keeps carry, and sets zero and sign from the register's value.
pub proof fn lemma_and_self(c: CpuV, n: u16)
    requires
        cpu_wf(c),
        n < 32,
    ensures
        ({
            let v = c.gpr[n as int];
            let c1 = logic_spec(c, c.gpr[n as int] & c.gpr[n as int], n);
            &&& c1.gpr == c.gpr
            &&& !psw_overflow(c1.psw)
            &&& psw_zero(c1.psw) == (v == 0)
            &&& psw_sign(c1.psw) == (v & 0x80000000 != 0)
            &&& psw_carry(c1.psw) == psw_carry(c.psw)
        }),
{
    let v = c.gpr[n as int];
    assert(v & v == v) by (bit_vector);
    lemma_logic_flags_bits(c.psw, v);
    assert(c.gpr.update(n as int, v) =~= c.gpr);
}

/// Moving r0 into a register zeroes it, and doing it twice changes nothing
/// more.
pub proof fn lemma_mov_from_r0(c: CpuV, n: u16)
    requires
        cpu_wf(c),
        n < 32,
    ensures
        ({
            let c1 = set_gpr(c, n, c.gpr[0]);
            let c2 = set_gpr(c1, n, c1.gpr[0]);
            c1.gpr[n as int] == 0 && c2 == c1
        }),
{
    let c1 = set_gpr(c, n, c.gpr[0]);
    let c2 = set_gpr(c1, n, c1.gpr[0]);
    if n != 0 {
        assert(c2.gpr =~= c1.gpr);
        assert(c2 =~= c1);
    }
}

/// STSR after LDSR is the identity on the defined bits: loading the status
/// word from a register and storing it back yields the loaded value
/// restricted to the defined bits.
pub proof fn lemma_ldsr_stsr_roundtrip(
    c: CpuV,
    ic: Interconnect,
    rs: u16,
    rd: u16,
    next_pc: u32,
    next_pc2: u32,
)
    requires
        cpu_wf(c),
        rs < 32,
        1 <= rd < 32,
    ensures
        ({
            let ldsr = (OPCODE_BITS_LDSR << 10) | (rs << 5) | OPCODE_SYSREG_PSW;
            let stsr = (OPCODE_BITS_STSR << 10) | (rd << 5) | OPCODE_SYSREG_PSW;
            let (c1, _, r1) = step_op_ii(c, ic, ldsr, next_pc);
            let (c2, _, r2) = step_op_ii(c1, ic, stsr, next_pc2);
            &&& r1 == Ok::<usize, EmuError>(1)
            &&& r2 == Ok::<usize, EmuError>(1)
            &&& c2.gpr[rd as int] == c.gpr[rs as int] & PSW_DEFINED_BITS
        }),
{
    reveal(step_op_ii);
    let ldsr = (OPCODE_BITS_LDSR << 10) | (rs << 5) | OPCODE_SYSREG_PSW;
    let stsr = (OPCODE_BITS_STSR << 10) | (rd << 5) | OPCODE_SYSREG_PSW;
    assert(ldsr >> 10 == 0b011100 && (ldsr >> 5) & 0x1f == rs && ldsr & 0x1f == 5) by (bit_vector)
        requires
            ldsr == (0b011100u16 << 10) | (rs << 5) | 5u16,
            rs < 32,
    ;
    assert(stsr >> 10 == 0b011101 && (stsr >> 5) & 0x1f == rd && stsr & 0x1f == 5) by (bit_vector)
        requires
            stsr == (0b011101u16 << 10) | (rd << 5) | 5u16,
            rd < 32,
    ;
}

} // verus!
