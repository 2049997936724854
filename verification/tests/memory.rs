use virtualboy_core::ram::{Ram, RamError};
use virtualboy_core::rom::{Rom, RomError, MAX_ROM_SIZE, MIN_ROM_SIZE};

#[test]
fn ram_rejects_non_power_of_two_size() {
    assert_eq!(Ram::new(3000).err(), Some(RamError::SizeNotPowerOfTwo));
    assert_eq!(Ram::new(0).err(), Some(RamError::SizeNotPowerOfTwo));
    assert!(Ram::new(1024).is_ok());
}

#[test]
fn ram_starts_zeroed() {
    let ram = Ram::new(64).unwrap();
    for a in 0u32..64 {
        assert_eq!(ram.read_byte(a), 0);
    }
}

#[test]
fn ram_byte_roundtrip_and_wrap() {
    let mut ram = Ram::new(1024).unwrap();
    ram.write_byte(5, 0xab);
    assert_eq!(ram.read_byte(5), 0xab);
    // offsets wrap by the power-of-two size
    assert_eq!(ram.read_byte(5 + 1024), 0xab);
    ram.write_byte(7 + 2048, 0xcd);
    assert_eq!(ram.read_byte(7), 0xcd);
}

#[test]
fn ram_halfword_is_little_endian() {
    let mut ram = Ram::new(1024).unwrap();
    ram.write_halfword(16, 0xbeef);
    assert_eq!(ram.read_byte(16), 0xef);
    assert_eq!(ram.read_byte(17), 0xbe);
    assert_eq!(ram.read_halfword(16), 0xbeef);
}

#[test]
fn ram_halfword_ignores_address_bit0() {
    let mut ram = Ram::new(1024).unwrap();
    ram.write_halfword(33, 0x1234);
    assert_eq!(ram.read_halfword(32), 0x1234);
    assert_eq!(ram.read_halfword(33), 0x1234);
}

#[test]
fn rom_rejects_bad_sizes() {
    assert_eq!(Rom::from_bytes(&[0u8; 512]).err(), Some(RomError::BelowMinimum));
    let huge = vec![0u8; MAX_ROM_SIZE * 2];
    assert_eq!(Rom::from_bytes(&huge).err(), Some(RomError::AboveMaximum));
    let odd = vec![0u8; 1536];
    assert_eq!(Rom::from_bytes(&odd).err(), Some(RomError::NotPowerOfTwo));
    assert!(Rom::from_bytes(&vec![0u8; MIN_ROM_SIZE]).is_ok());
}

#[test]
fn rom_size_and_reads() {
    let mut bytes = vec![0u8; 1024];
    bytes[0] = 0x11;
    bytes[1] = 0x22;
    let rom = Rom::from_bytes(&bytes).unwrap();
    assert_eq!(rom.size(), 1024);
    assert_eq!(rom.read_byte(0), 0x11);
    assert_eq!(rom.read_halfword(0), 0x2211);
    assert_eq!(rom.read_halfword(1), 0x2211);
}

#[test]
fn rom_read_wraps_by_size() {
    let mut bytes = vec![0u8; 1024];
    bytes[3] = 0x77;
    let rom = Rom::from_bytes(&bytes).unwrap();
    assert_eq!(rom.read_byte(3), rom.read_byte(3 + 1024));
    assert_eq!(rom.read_byte(3 + 1024), 0x77);
}

#[test]
fn rom_header_maker_and_game_code() {
    let mut bytes = vec![0u8; 1024];
    // maker code at the masked tail offsets 505 and 506
    bytes[505] = b'N';
    bytes[506] = b'T';
    // game code at 507 to 510
    bytes[507] = b'V';
    bytes[508] = b'T';
    bytes[509] = b'E';
    bytes[510] = b'J';
    let rom = Rom::from_bytes(&bytes).unwrap();
    assert_eq!(rom.maker_code(), "NT");
    assert_eq!(rom.game_code(), "VTEJ");
}

#[test]
fn rom_header_game_version() {
    let mut bytes = vec![0u8; 1024];
    bytes[511] = 42;
    let rom = Rom::from_bytes(&bytes).unwrap();
    assert_eq!(rom.game_version(), "1.42");
    let mut bytes = vec![0u8; 1024];
    bytes[511] = 7;
    let rom = Rom::from_bytes(&bytes).unwrap();
    assert_eq!(rom.game_version(), "1.7");
    let mut bytes = vec![0u8; 1024];
    bytes[511] = 205;
    let rom = Rom::from_bytes(&bytes).unwrap();
    assert_eq!(rom.game_version(), "1.205");
}

#[test]
fn rom_name_decodes_shift_jis() {
    let mut bytes = vec![0x20u8; 1024];
    // the name field starts at the masked tail offset 480; 0x83 0x41 is the
    // Shift-JIS encoding of a katakana letter
    bytes[480] = 0x83;
    bytes[481] = 0x41;
    let rom = Rom::from_bytes(&bytes).unwrap();
    let name = rom.name().unwrap();
    let mut expected = String::from("\u{30a2}");
    for _ in 0..18 {
        expected.push(' ');
    }
    assert_eq!(name, expected);
}

#[test]
fn rom_name_rejects_ill_formed_shift_jis() {
    let mut bytes = vec![0x20u8; 1024];
    // 0x81 starts a two-byte sequence, and 0x20 is not a valid trail byte
    bytes[480] = 0x81;
    bytes[481] = 0x20;
    let rom = Rom::from_bytes(&bytes).unwrap();
    assert!(rom.name().is_none());
}
