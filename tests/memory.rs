use rustycoat::memory::{Memory, RamBank, RomBank};

#[test]
fn memory_ram() {
    let mut mem = Memory::new();
    mem.write_byte(0xBADA, 0xFC);
    assert_eq!(mem.read_byte(0xBADA), 0xFC);
}

#[test]
fn memory_banked_ram() {
    let mut mem = Memory::new();
    mem.configure_banks(
        vec![RamBank::with_size(2048)],
        &[(0x3000, 1024, 1, 0x0000), (0x8000, 1024, 1, 0x0400)],
    );

    mem.write_byte(0xBADA, 0xFC);
    assert_eq!(mem.read_byte(0xBADA), 0xFC);

    assert_eq!(mem.read_byte(0x3001), 0x00);
    mem.write_byte(0x3001, 0xCD);
    assert_eq!(mem.read_byte(0x3001), 0xCD);
    assert_eq!(mem.read_bank_byte(1, 0x0001, 0), 0xCD);

    mem.write_byte(0x8001, 0xAB);
    assert_eq!(mem.read_byte(0x8001), 0xAB);
    assert_eq!(mem.read_bank_byte(1, 0x0401, 0), 0xAB);
}

#[test]
fn memory_banked_rom() {
    let mut mem = Memory::new();
    mem.configure_banks(
        vec![RomBank::with_bytes(&[0xDE, 0xAD, 0xBE, 0xEF])],
        &[(0x3000, 1024, 1, 0x0000)],
    );

    assert_eq!(mem.read_byte(0x3000), 0xDE);
    assert_eq!(mem.read_byte(0x3003), 0xEF);
    mem.write_byte(0x3003, 0xCD);
    assert_eq!(mem.read_byte(0x3003), 0xEF);
    assert_eq!(mem.ram(0x3003), 0xCD);
}

#[test]
fn ram_write_then_read_everywhere() {
    let mut mem = Memory::new();
    for addr in (0u32..65536).step_by(251) {
        let v = (addr * 7 % 256) as u8;
        mem.write_byte(addr as u16, v);
        assert_eq!(mem.read_byte(addr as u16), v);
    }
    mem.write_byte(0xFFFF, 0x5A);
    assert_eq!(mem.read_byte(0xFFFF), 0x5A);
    mem.write_byte(0x0000, 0xA5);
    assert_eq!(mem.read_byte(0x0000), 0xA5);
}

#[test]
fn rom_past_end_reads_zero() {
    let mut mem = Memory::new();
    mem.configure_banks(vec![RomBank::with_bytes(&[1, 2])], &[(0xE000, 0x2000, 1, 0)]);
    assert_eq!(mem.read_byte(0xE001), 2);
    assert_eq!(mem.read_byte(0xE002), 0);
    assert_eq!(mem.read_byte(0xFFFF), 0);
    assert_eq!(mem.read_byte(0xDFFF), 0);
}

#[test]
fn rom_shadow_write_lands_in_ram() {
    let mut mem = Memory::new();
    mem.configure_banks(vec![RomBank::with_bytes(&[0x11; 256])], &[(0x4000, 256, 1, 0)]);
    for addr in 0x4000u16..0x4100 {
        mem.write_byte(addr, 0x22);
        assert_eq!(mem.read_byte(addr), 0x11);
        assert_eq!(mem.ram(addr), 0x22);
    }
    assert_eq!(mem.read_byte(0x4100), 0x00);
}

#[test]
fn target_offset_shifts_bank_window() {
    let mut mem = Memory::new();
    mem.configure_banks(
        vec![RomBank::with_bytes(&[0, 1, 2, 3, 4, 5, 6, 7]), RamBank::with_size(512)],
        &[(0x1000, 256, 2, 0x0100), (0x2000, 256, 1, 0)],
    );
    assert_eq!(mem.read_byte(0x2005), 5);
    mem.write_byte(0x1003, 0x77);
    assert_eq!(mem.read_byte(0x1003), 0x77);
    assert_eq!(mem.read_bank_byte(2, 0x0103, 0), 0x77);
    assert_eq!(mem.ram(0x1003), 0x00);
}

#[test]
fn later_config_wins_and_reconfigure_clears() {
    let mut mem = Memory::new();
    mem.configure_banks(
        vec![RomBank::with_bytes(&[0xAA; 4]), RomBank::with_bytes(&[0xBB; 4])],
        &[(0x3000, 512, 1, 0), (0x3100, 256, 2, 0)],
    );
    assert_eq!(mem.read_byte(0x3000), 0xAA);
    assert_eq!(mem.read_byte(0x3100), 0xBB);
    mem.configure_banks(Vec::new(), &[]);
    assert_eq!(mem.read_byte(0x3000), 0x00);
}

#[test]
fn blocks_round_trip_and_wrap() {
    let mut mem = Memory::new();
    mem.write_block(0xFFFE, &[1, 2, 3, 4]);
    let mut out = [0u8; 4];
    mem.read_block(0xFFFE, &mut out);
    assert_eq!(out, [1, 2, 3, 4]);
    assert_eq!(mem.read_byte(0x0000), 3);
    assert_eq!(mem.read_byte(0x0001), 4);
}
