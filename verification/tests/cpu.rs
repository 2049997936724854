use virtualboy_core::errors::EmuError;
use virtualboy_core::instruction::{Instruction, Opcode};
use virtualboy_core::interconnect::Interconnect;
use virtualboy_core::rom::Rom;
use virtualboy_core::v810::V810;
use virtualboy_core::virtualboy::VirtualBoy;

const FLAG_Z: u32 = 0x1;
const FLAG_S: u32 = 0x2;
const FLAG_OV: u32 = 0x4;
const FLAG_CY: u32 = 0x8;

/// A CPU and a bus whose work RAM holds the given halfwords at the given
/// address, with the program counter pointing at the first of them.
fn machine_at(pc: u32, halfwords: &[u16]) -> (V810, Interconnect) {
    let rom = Rom::from_bytes(&vec![0u8; 1024]).unwrap();
    let mut ic = Interconnect::new(rom);
    let mut a = pc;
    for h in halfwords {
        ic.write_halfword(a, *h).unwrap();
        a = a.wrapping_add(2);
    }
    let mut cpu = V810::new();
    cpu.reg_pc = pc;
    (cpu, ic)
}

#[test]
fn step_mov_register() {
    // MOV r5 -> r1 in work RAM
    let (mut cpu, mut ic) = machine_at(0x05001000, &[0x0025]);
    cpu.set_reg_gpr(5, 0x12345678);
    assert_eq!(cpu.step(&mut ic), Ok(1));
    assert_eq!(cpu.reg_gpr(1), 0x12345678);
    assert_eq!(cpu.reg_pc(), 0x05001002);
    assert_eq!(cpu.reg_psw() & 0xf, 0);
}

#[test]
fn step_mov_from_rom() {
    // the same MOV fetched out of cartridge ROM
    let mut bytes = vec![0u8; 1024];
    bytes[0] = 0x25;
    bytes[1] = 0x00;
    let rom = Rom::from_bytes(&bytes).unwrap();
    let mut ic = Interconnect::new(rom);
    let mut cpu = V810::new();
    cpu.reg_pc = 0x07000000;
    cpu.set_reg_gpr(5, 0x12345678);
    assert_eq!(cpu.step(&mut ic), Ok(1));
    assert_eq!(cpu.reg_gpr(1), 0x12345678);
    assert_eq!(cpu.reg_pc(), 0x07000002);
}

#[test]
fn step_add_sets_sign_without_carry() {
    // ADD r2 -> r1 with r1 = 0 and r2 = 0xffffffff
    let (mut cpu, mut ic) = machine_at(0x05000000, &[0x0422]);
    cpu.set_reg_gpr(2, 0xffffffff);
    assert_eq!(cpu.step(&mut ic), Ok(1));
    assert_eq!(cpu.reg_gpr(1), 0xffffffff);
    let f = cpu.reg_psw() & 0xf;
    assert_eq!(f & FLAG_Z, 0);
    assert_ne!(f & FLAG_S, 0);
    assert_eq!(f & FLAG_CY, 0);
    assert_eq!(f & FLAG_OV, 0);
}

#[test]
fn step_add_signed_overflow() {
    // ADD r1 -> r2 with r1 = 0x7fffffff and r2 = 1
    let (mut cpu, mut ic) = machine_at(0x05000000, &[0x0441]);
    cpu.set_reg_gpr(1, 0x7fffffff);
    cpu.set_reg_gpr(2, 1);
    assert_eq!(cpu.step(&mut ic), Ok(1));
    assert_eq!(cpu.reg_gpr(2), 0x80000000);
    let f = cpu.reg_psw() & 0xf;
    assert_eq!(f & FLAG_Z, 0);
    assert_ne!(f & FLAG_S, 0);
    assert_ne!(f & FLAG_OV, 0);
    assert_eq!(f & FLAG_CY, 0);
}

#[test]
fn step_add_unsigned_carry() {
    // ADD r1 -> r2 with r1 = 0xffffffff and r2 = 1 wraps to zero with carry
    let (mut cpu, mut ic) = machine_at(0x05000000, &[0x0441]);
    cpu.set_reg_gpr(1, 0xffffffff);
    cpu.set_reg_gpr(2, 1);
    assert_eq!(cpu.step(&mut ic), Ok(1));
    assert_eq!(cpu.reg_gpr(2), 0);
    let f = cpu.reg_psw() & 0xf;
    assert_ne!(f & FLAG_Z, 0);
    assert_eq!(f & FLAG_S, 0);
    assert_eq!(f & FLAG_OV, 0);
    assert_ne!(f & FLAG_CY, 0);
}

#[test]
fn step_movea() {
    let (mut cpu, mut ic) = machine_at(0x05001000, &[0xa020, 0x1234]);
    assert_eq!(cpu.step(&mut ic), Ok(1));
    assert_eq!(cpu.reg_gpr(1), 0x00001234);
    assert_eq!(cpu.reg_pc(), 0x05001004);
}

#[test]
fn step_movhi() {
    let (mut cpu, mut ic) = machine_at(0x05001000, &[0xbc20, 0xabcd]);
    assert_eq!(cpu.step(&mut ic), Ok(1));
    assert_eq!(cpu.reg_gpr(1), 0xabcd0000);
    assert_eq!(cpu.reg_pc(), 0x05001004);
}

#[test]
fn step_bz_taken() {
    // BZ +8 with the zero flag set
    let (mut cpu, mut ic) = machine_at(0x05001000, &[0x8408]);
    cpu.set_reg_psw(FLAG_Z);
    assert_eq!(cpu.step(&mut ic), Ok(1));
    assert_eq!(cpu.reg_pc(), 0x05001008);
}

#[test]
fn step_bz_not_taken() {
    let (mut cpu, mut ic) = machine_at(0x05001000, &[0x8408]);
    assert_eq!(cpu.step(&mut ic), Ok(1));
    assert_eq!(cpu.reg_pc(), 0x05001002);
}

#[test]
fn step_cmp_discards_result() {
    // CMP r3 -> r2 with r2 = 0xff and r3 = 1: result 0xfe is discarded
    let (mut cpu, mut ic) = machine_at(0x05000000, &[0x0c43]);
    cpu.set_reg_gpr(2, 0xff);
    cpu.set_reg_gpr(3, 1);
    assert_eq!(cpu.step(&mut ic), Ok(1));
    assert_eq!(cpu.reg_gpr(2), 0xff);
    assert_eq!(cpu.reg_psw() & 0xf, 0);
}

#[test]
fn step_jal() {
    // JAL +0x100
    let (mut cpu, mut ic) = machine_at(0x05002000, &[0xac00, 0x0100]);
    assert_eq!(cpu.step(&mut ic), Ok(1));
    assert_eq!(cpu.reg_gpr(31), 0x05002004);
    assert_eq!(cpu.reg_pc(), 0x05002100);
}

#[test]
fn step_jmp() {
    // JMP [r7]
    let (mut cpu, mut ic) = machine_at(0x05001000, &[(0b000110u16 << 10) | 7]);
    cpu.set_reg_gpr(7, 0x07000000);
    assert_eq!(cpu.step(&mut ic), Ok(1));
    assert_eq!(cpu.reg_pc(), 0x07000000);
}

#[test]
fn step_load_and_store_word() {
    // ST.W r2 -> 0x10[r1], then LD.W 0x10[r1] -> r3
    let st = (0b110110u16 << 10) | (2 << 5) | 1;
    let ld = (0b110010u16 << 10) | (3 << 5) | 1;
    let (mut cpu, mut ic) = machine_at(0x05001000, &[st, 0x0010, ld, 0x0010]);
    cpu.set_reg_gpr(1, 0x05004000);
    cpu.set_reg_gpr(2, 0xdeadbeef);
    assert_eq!(cpu.step(&mut ic), Ok(1));
    assert_eq!(ic.read_word(0x05004010), Ok(0xdeadbeef));
    assert_eq!(cpu.step(&mut ic), Ok(1));
    assert_eq!(cpu.reg_gpr(3), 0xdeadbeef);
}

#[test]
fn step_load_byte_zero_extends_and_aligns() {
    // LD.B reads at the word-aligned effective address and zero-extends
    let ld = (0b110000u16 << 10) | (4 << 5) | 1;
    let (mut cpu, mut ic) = machine_at(0x05001000, &[ld, 0x0003]);
    ic.write_byte(0x05002000, 0xfe).unwrap();
    cpu.set_reg_gpr(1, 0x05002000);
    // effective address 0x05002003 aligns down to 0x05002000
    assert_eq!(cpu.step(&mut ic), Ok(1));
    assert_eq!(cpu.reg_gpr(4), 0x000000fe);
}

#[test]
fn step_store_to_rom_fails() {
    let st = (0b110100u16 << 10) | (2 << 5) | 1;
    let (mut cpu, mut ic) = machine_at(0x05001000, &[st, 0x0000]);
    cpu.set_reg_gpr(1, 0x07000000);
    cpu.set_reg_gpr(2, 0x55);
    assert_eq!(
        cpu.step(&mut ic),
        Err(EmuError::UnimplementedWrite { addr: 0x07000000 })
    );
}

#[test]
fn step_unimplemented_opcode_reports_pc_and_instruction() {
    // MUL r1, r2 decodes but does not execute yet
    let mul = (0b001000u16 << 10) | (2 << 5) | 1;
    let (mut cpu, mut ic) = machine_at(0x05001000, &[mul, 0]);
    assert_eq!(
        cpu.step(&mut ic),
        Err(EmuError::UnimplementedInstruction {
            pc: 0x05001000,
            instruction: Instruction::FormatI(Opcode::Mul, 1, 2),
        })
    );
    // the program counter is not committed on a failed step
    assert_eq!(cpu.reg_pc(), 0x05001000);
}

#[test]
fn step_gpr0_stays_zero() {
    // MOV r5 -> r0 is discarded
    let (mut cpu, mut ic) = machine_at(0x05001000, &[0x0005]);
    cpu.set_reg_gpr(5, 0x12345678);
    assert_eq!(cpu.step(&mut ic), Ok(1));
    assert_eq!(cpu.reg_gpr(0), 0);
}

#[test]
fn mov_from_r0_twice_gives_zero() {
    // MOV r0 -> r9, twice
    let mov = 0u16 | (9 << 5);
    let (mut cpu, mut ic) = machine_at(0x05001000, &[mov, mov]);
    cpu.set_reg_gpr(9, 0xffffffff);
    assert_eq!(cpu.step(&mut ic), Ok(1));
    assert_eq!(cpu.reg_gpr(9), 0);
    assert_eq!(cpu.step(&mut ic), Ok(1));
    assert_eq!(cpu.reg_gpr(9), 0);
}

#[test]
fn and_with_self_keeps_value_and_sets_flags() {
    // AND r6, r6
    let and = (0b001101u16 << 10) | (6 << 5) | 6;
    let (mut cpu, mut ic) = machine_at(0x05001000, &[and]);
    cpu.set_reg_gpr(6, 0x80000001);
    assert_eq!(cpu.step(&mut ic), Ok(1));
    assert_eq!(cpu.reg_gpr(6), 0x80000001);
    let f = cpu.reg_psw() & 0xf;
    assert_eq!(f & FLAG_Z, 0);
    assert_ne!(f & FLAG_S, 0);
    assert_eq!(f & FLAG_OV, 0);
}

#[test]
fn psw_roundtrip_masks_undefined_bits() {
    let mut cpu = V810::new();
    cpu.set_reg_psw(0xffffffff);
    assert_eq!(cpu.reg_psw(), 0x000ff3ff);
    cpu.set_reg_psw(0x00008000);
    assert_eq!(cpu.reg_psw(), 0x00008000);
    cpu.set_reg_psw(0x12345678);
    assert_eq!(cpu.reg_psw(), 0x12345678 & 0x000ff3ff);
}

#[test]
fn ldsr_stsr_roundtrip_on_psw() {
    // LDSR r1 -> PSW, then STSR PSW -> r2
    let ldsr = (0b011100u16 << 10) | (1 << 5) | 5;
    let stsr = (0b011101u16 << 10) | (2 << 5) | 5;
    let (mut cpu, mut ic) = machine_at(0x05001000, &[ldsr, stsr]);
    cpu.set_reg_gpr(1, 0xffffffff);
    assert_eq!(cpu.step(&mut ic), Ok(1));
    assert_eq!(cpu.step(&mut ic), Ok(1));
    assert_eq!(cpu.reg_gpr(2), 0x000ff3ff);
}

#[test]
fn ldsr_unknown_selector_fails() {
    // LDSR into selector 8 is not modeled
    let ldsr = (0b011100u16 << 10) | (1 << 5) | 8;
    let (mut cpu, mut ic) = machine_at(0x05001000, &[ldsr]);
    assert_eq!(
        cpu.step(&mut ic),
        Err(EmuError::UnimplementedInstruction {
            pc: 0x05001000,
            instruction: Instruction::FormatII(Opcode::Ldsr, 1, 8),
        })
    );
}

#[test]
fn cli_and_sei_toggle_interrupt_disable() {
    let cli = 0b010110u16 << 10;
    let sei = 0b011110u16 << 10;
    let (mut cpu, mut ic) = machine_at(0x05001000, &[sei, cli]);
    assert_eq!(cpu.step(&mut ic), Ok(1));
    assert_ne!(cpu.reg_psw() & 0x1000, 0);
    assert_eq!(cpu.step(&mut ic), Ok(1));
    assert_eq!(cpu.reg_psw() & 0x1000, 0);
}

#[test]
fn shl_sets_carry_from_last_bit_out() {
    // SHL 1, r2 with the top bit set
    let shl = (0b010100u16 << 10) | (2 << 5) | 1;
    let (mut cpu, mut ic) = machine_at(0x05001000, &[shl]);
    cpu.set_reg_gpr(2, 0x80000001);
    assert_eq!(cpu.step(&mut ic), Ok(1));
    assert_eq!(cpu.reg_gpr(2), 0x00000002);
    let f = cpu.reg_psw() & 0xf;
    assert_ne!(f & FLAG_CY, 0);
    assert_eq!(f & FLAG_Z, 0);
    assert_eq!(f & FLAG_OV, 0);
}

#[test]
fn shr_zero_shift_clears_carry() {
    let shr = (0b010101u16 << 10) | (2 << 5) | 0;
    let (mut cpu, mut ic) = machine_at(0x05001000, &[shr]);
    cpu.set_reg_psw(FLAG_CY);
    cpu.set_reg_gpr(2, 0x12345678);
    assert_eq!(cpu.step(&mut ic), Ok(1));
    assert_eq!(cpu.reg_gpr(2), 0x12345678);
    assert_eq!(cpu.reg_psw() & FLAG_CY, 0);
}

#[test]
fn sar_keeps_sign_bit() {
    // SAR 4, r2 on a negative value
    let sar = (0b010111u16 << 10) | (2 << 5) | 4;
    let (mut cpu, mut ic) = machine_at(0x05001000, &[sar]);
    cpu.set_reg_gpr(2, 0x80000000);
    assert_eq!(cpu.step(&mut ic), Ok(1));
    assert_eq!(cpu.reg_gpr(2), 0xf8000000);
}

#[test]
fn andi_clears_sign_flag() {
    // ANDI 0x8000, r1 -> r2 with r1 negative
    let andi = (0b101101u16 << 10) | (2 << 5) | 1;
    let (mut cpu, mut ic) = machine_at(0x05001000, &[andi, 0x8000]);
    cpu.set_reg_gpr(1, 0xffff8000);
    assert_eq!(cpu.step(&mut ic), Ok(1));
    assert_eq!(cpu.reg_gpr(2), 0x8000);
    let f = cpu.reg_psw() & 0xf;
    assert_eq!(f & FLAG_S, 0);
    assert_eq!(f & FLAG_Z, 0);
}

#[test]
fn reset_state() {
    let mut cpu = V810::new();
    cpu.set_reg_gpr(1, 7);
    cpu.reset();
    assert_eq!(cpu.reg_pc(), 0xfffffff0);
    assert_eq!(cpu.reg_eipc(), 0xdeadbeef);
    assert_eq!(cpu.reg_eipsw(), 0xdeadbeef);
    assert_eq!(cpu.reg_psw(), 0x00008000);
    assert_eq!(cpu.reg_gpr(0), 0);
    for i in 1..32 {
        assert_eq!(cpu.reg_gpr(i), 0xdeadbeef);
    }
}

#[test]
fn request_interrupt_is_not_modeled() {
    let mut cpu = V810::new();
    assert_eq!(
        cpu.request_interrupt(3),
        Err(EmuError::UnimplementedInterrupt { code: 3 })
    );
}

#[test]
fn virtualboy_boots_from_reset_vector() {
    // MOV -3, r1 at the reset vector, which masks to ROM offset 1008
    let mut bytes = vec![0u8; 1024];
    bytes[1008] = 0x3d;
    bytes[1009] = 0x40;
    let rom = Rom::from_bytes(&bytes).unwrap();
    let mut vb = VirtualBoy::new(rom);
    assert_eq!(vb.cpu.reg_pc(), 0xfffffff0);
    assert_eq!(vb.step(), Ok(1));
    assert_eq!(vb.cpu.reg_gpr(1), 0xfffffffd);
    assert_eq!(vb.cpu.reg_pc(), 0xfffffff2);
}

#[test]
fn step_blt_follows_sign_xor_overflow() {
    // BLT +0x10 is taken exactly when sign and overflow differ
    let blt = (0b100u16 << 13) | (6 << 9) | 0x10;
    let (mut cpu, mut ic) = machine_at(0x05001000, &[blt]);
    cpu.set_reg_psw(FLAG_S);
    assert_eq!(cpu.step(&mut ic), Ok(1));
    assert_eq!(cpu.reg_pc(), 0x05001010);

    let (mut cpu, mut ic) = machine_at(0x05001000, &[blt]);
    cpu.set_reg_psw(FLAG_S | FLAG_OV);
    assert_eq!(cpu.step(&mut ic), Ok(1));
    assert_eq!(cpu.reg_pc(), 0x05001002);
}

#[test]
fn step_br_always_and_nop_never() {
    let br = (0b100u16 << 13) | (5 << 9) | 0x20;
    let (mut cpu, mut ic) = machine_at(0x05001000, &[br]);
    assert_eq!(cpu.step(&mut ic), Ok(1));
    assert_eq!(cpu.reg_pc(), 0x05001020);

    let nop = (0b100u16 << 13) | (13 << 9) | 0x20;
    let (mut cpu, mut ic) = machine_at(0x05001000, &[nop]);
    assert_eq!(cpu.step(&mut ic), Ok(1));
    assert_eq!(cpu.reg_pc(), 0x05001002);
}

#[test]
fn step_branch_backwards() {
    // BR with displacement -4: the nine low bits encode -4 sign-extended
    let br = (0b100u16 << 13) | (5 << 9) | 0x1fc;
    let (mut cpu, mut ic) = machine_at(0x05001000, &[br]);
    assert_eq!(cpu.step(&mut ic), Ok(1));
    assert_eq!(cpu.reg_pc(), 0x05000ffc);
}

#[test]
fn step_sub_stores_difference() {
    // SUB r1, r2: r2 = r2 - r1
    let sub = (0b000010u16 << 10) | (2 << 5) | 1;
    let (mut cpu, mut ic) = machine_at(0x05001000, &[sub]);
    cpu.set_reg_gpr(1, 7);
    cpu.set_reg_gpr(2, 5);
    assert_eq!(cpu.step(&mut ic), Ok(1));
    assert_eq!(cpu.reg_gpr(2), 0xfffffffeu32);
    let f = cpu.reg_psw() & 0xf;
    assert_ne!(f & FLAG_S, 0);
    assert_ne!(f & FLAG_CY, 0);
    assert_eq!(f & FLAG_OV, 0);
}

#[test]
fn step_xori_sets_flags_from_result() {
    let xori = (0b101110u16 << 10) | (3 << 5) | 1;
    let (mut cpu, mut ic) = machine_at(0x05001000, &[xori, 0xffff]);
    cpu.set_reg_gpr(1, 0x0000ffff);
    assert_eq!(cpu.step(&mut ic), Ok(1));
    assert_eq!(cpu.reg_gpr(3), 0);
    assert_ne!(cpu.reg_psw() & FLAG_Z, 0);
}

#[test]
fn step_load_halfword_zero_extends() {
    let ld = (0b110001u16 << 10) | (4 << 5) | 1;
    let (mut cpu, mut ic) = machine_at(0x05001000, &[ld, 0x0000]);
    ic.write_halfword(0x05002000, 0xfffe).unwrap();
    cpu.set_reg_gpr(1, 0x05002000);
    assert_eq!(cpu.step(&mut ic), Ok(1));
    assert_eq!(cpu.reg_gpr(4), 0x0000fffe);
}

#[test]
fn psw_keeps_all_six_fp_flags() {
    // bits 4 to 9 are the floating-point flags; all six survive a load
    let mut cpu = V810::new();
    cpu.set_reg_psw(0x000003f0);
    assert_eq!(cpu.reg_psw(), 0x000003f0);
    assert_eq!(cpu.reg_psw() & 0xc0, 0xc0);
}

#[test]
fn psw_never_carries_undefined_bits() {
    // bits 10, 11 and 20 and above of the packed word always read as zero,
    // whatever was loaded and whatever flags a step derives
    let (mut cpu, mut ic) = machine_at(0x05000000, &[0x0441]);
    cpu.set_reg_gpr(1, 0x7fffffff);
    cpu.set_reg_gpr(2, 1);
    cpu.set_reg_psw(0xffffffff);
    assert_eq!(cpu.reg_psw() & 0xfff00c00, 0);
    assert_eq!(cpu.step(&mut ic), Ok(1));
    assert_eq!(cpu.reg_psw() & 0xfff00c00, 0);
}
