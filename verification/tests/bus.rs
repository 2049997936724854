use virtualboy_core::errors::EmuError;
use virtualboy_core::interconnect::Interconnect;
use virtualboy_core::rom::Rom;

fn bus_with_rom(bytes: Vec<u8>) -> Interconnect {
    Interconnect::new(Rom::from_bytes(&bytes).unwrap())
}

#[test]
fn bus_vip_reads_zero() {
    let ic = bus_with_rom(vec![0u8; 1024]);
    assert_eq!(ic.read_byte(0x00000000), Ok(0));
    assert_eq!(ic.read_halfword(0x00123456), Ok(0));
}

#[test]
fn bus_wram_roundtrip() {
    let mut ic = bus_with_rom(vec![0u8; 1024]);
    ic.write_byte(0x05000010, 0x5a).unwrap();
    assert_eq!(ic.read_byte(0x05000010), Ok(0x5a));
    ic.write_halfword(0x05000020, 0xbeef).unwrap();
    assert_eq!(ic.read_halfword(0x05000020), Ok(0xbeef));
    assert_eq!(ic.read_byte(0x05000020), Ok(0xef));
    assert_eq!(ic.read_byte(0x05000021), Ok(0xbe));
}

#[test]
fn bus_wram_wraps_within_region() {
    let mut ic = bus_with_rom(vec![0u8; 1024]);
    ic.write_byte(0x05000003, 0x42).unwrap();
    // the 64 KiB work RAM mirrors through its whole 16 MiB window
    assert_eq!(ic.read_byte(0x05010003), Ok(0x42));
    assert_eq!(ic.read_byte(0x05ff0003), Ok(0x42));
}

#[test]
fn bus_halfword_read_ignores_bit0() {
    let mut ic = bus_with_rom(vec![0u8; 1024]);
    ic.write_halfword(0x05000040, 0x1234).unwrap();
    assert_eq!(ic.read_halfword(0x05000040), ic.read_halfword(0x05000041));
}

#[test]
fn bus_word_read_composes_halfwords() {
    let mut ic = bus_with_rom(vec![0u8; 1024]);
    ic.write_halfword(0x05000100, 0x5678).unwrap();
    ic.write_halfword(0x05000102, 0x1234).unwrap();
    let lo = ic.read_halfword(0x05000100).unwrap() as u32;
    let hi = ic.read_halfword(0x05000102).unwrap() as u32;
    assert_eq!(ic.read_word(0x05000100), Ok(lo | (hi << 16)));
    assert_eq!(ic.read_word(0x05000100), Ok(0x12345678));
}

#[test]
fn bus_word_write_is_two_halfwords() {
    let mut ic = bus_with_rom(vec![0u8; 1024]);
    ic.write_word(0x05000200, 0xcafebabe).unwrap();
    assert_eq!(ic.read_halfword(0x05000200), Ok(0xbabe));
    assert_eq!(ic.read_halfword(0x05000202), Ok(0xcafe));
}

#[test]
fn bus_rom_reads_with_size_mask() {
    let mut bytes = vec![0u8; 1024];
    bytes[0] = 0x99;
    let ic = bus_with_rom(bytes);
    assert_eq!(ic.read_byte(0x07000000), Ok(0x99));
    // one image-size past the start reads the same byte
    assert_eq!(ic.read_byte(0x07000400), ic.read_byte(0x07000000));
}

#[test]
fn bus_rom_refuses_writes() {
    let mut ic = bus_with_rom(vec![0u8; 1024]);
    assert_eq!(
        ic.write_byte(0x07000000, 1),
        Err(EmuError::UnimplementedWrite { addr: 0x07000000 })
    );
    assert_eq!(
        ic.write_halfword(0x07000100, 1),
        Err(EmuError::UnimplementedWrite { addr: 0x07000100 })
    );
}

#[test]
fn bus_unmapped_reads_fail() {
    let ic = bus_with_rom(vec![0u8; 1024]);
    assert_eq!(
        ic.read_byte(0x01000000),
        Err(EmuError::UnimplementedRead { addr: 0x01000000 })
    );
    assert_eq!(
        ic.read_byte(0x06000010),
        Err(EmuError::UnimplementedRead { addr: 0x06000010 })
    );
    assert_eq!(
        ic.read_halfword(0x02000000),
        Err(EmuError::UnimplementedRead { addr: 0x02000000 })
    );
}

#[test]
fn bus_address_masks_to_27_bits() {
    let mut ic = bus_with_rom(vec![0u8; 1024]);
    ic.write_byte(0x05000001, 0x33).unwrap();
    // bits above the 27-bit physical space are ignored
    assert_eq!(ic.read_byte(0xf5000001), Ok(0x33));
}

#[test]
fn bus_hardware_register_byte_writes_land() {
    let mut ic = bus_with_rom(vec![0u8; 1024]);
    // hardware control register writes store the byte and succeed
    assert_eq!(ic.write_byte(0x02000018, 0x12), Ok(()));
    assert_eq!(ic.write_byte(0x02000028, 0x34), Ok(()));
    // writes into the unused range are diagnostic-only
    assert_eq!(ic.write_byte(0x03000000, 0x56), Ok(()));
    // writes into the cartridge expansion range are diagnostic-only
    assert_eq!(ic.write_byte(0x04000000, 0x78), Ok(()));
    // the sound stub swallows byte writes
    assert_eq!(ic.write_byte(0x01000000, 0x9a), Ok(()));
    // a byte write into the video window is not modeled
    assert_eq!(
        ic.write_byte(0x00000000, 1),
        Err(EmuError::UnimplementedWrite { addr: 0 })
    );
}

#[test]
fn bus_cycles_yields_no_interrupt() {
    let mut ic = bus_with_rom(vec![0u8; 1024]);
    assert_eq!(ic.cycles(1000), None);
}

#[test]
fn bus_word_write_straddling_regions_is_partial() {
    let mut ic = bus_with_rom(vec![0u8; 1024]);
    // the low halfword lands in work RAM; the high halfword aims at the
    // cartridge RAM window and fails, leaving the low halfword written
    let r = ic.write_word(0x05fffffe, 0x11223344);
    assert_eq!(r, Err(EmuError::UnimplementedWrite { addr: 0x06000000 }));
    assert_eq!(ic.read_halfword(0x05fffffe), Ok(0x3344));
}
