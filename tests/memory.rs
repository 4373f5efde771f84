use gbcore::mem::{Mbc, Memory};

/// A ROM of `banks` 16KB banks whose every byte holds its bank number plus
/// the low byte of its offset.
fn rom(banks: usize) -> Vec<u8> {
    let mut v = Vec::with_capacity(banks * 0x4000);
    for b in 0..banks {
        for i in 0..0x4000usize {
            v.push((b as u8).wrapping_add(i as u8));
        }
    }
    v
}

#[test]
fn fixed_bank_reads_rom_directly() {
    let r = rom(4);
    let mut m = Memory::new(r.clone(), Mbc::Mbc1, 0);
    m.wb(0x2000, 0x03);
    for a in [0x0000u16, 0x0001, 0x1234, 0x3fff] {
        assert_eq!(m.rb(a), r[a as usize]);
    }
}

#[test]
fn switchable_bank_reads_selected_bank() {
    let r = rom(4);
    let mut m = Memory::new(r.clone(), Mbc::Mbc1, 0);
    assert_eq!(m.rb(0x4000), r[0x4000]);
    m.wb(0x2000, 0x02);
    assert_eq!(m.rom_bank(), 2);
    assert_eq!(m.rb(0x4000), r[2 * 0x4000]);
    assert_eq!(m.rb(0x7fff), r[2 * 0x4000 + 0x3fff]);
    m.wb(0x2000, 0x03);
    assert_eq!(m.rb(0x4567), r[3 * 0x4000 + 0x0567]);
}

#[test]
fn rom_past_its_end_reads_open_bus() {
    let mut m = Memory::new(rom(2), Mbc::Mbc3, 0);
    m.wb(0x2000, 0x05);
    assert_eq!(m.rb(0x4000), 0xff);
    let small = Memory::new(vec![1, 2, 3], Mbc::Mbc1, 0);
    assert_eq!(small.rb(0x0002), 3);
    assert_eq!(small.rb(0x0003), 0xff);
}

#[test]
fn ram_enable_gates_cartridge_ram() {
    for mbc in [Mbc::Mbc1, Mbc::Mbc3, Mbc::Mbc5] {
        let mut m = Memory::new(rom(2), mbc, 0x2000);
        assert_eq!(m.rb(0xa000), 0xff);
        m.wb(0x0000, 0x0a);
        m.wb(0xa000, 0x5c);
        assert_eq!(m.rb(0xa000), 0x5c);
        m.wb(0x1fff, 0x0b);
        assert_eq!(m.rb(0xa000), 0xff);
        m.wb(0xa000, 0x11);
        m.wb(0x1000, 0xfa);
        assert_eq!(m.rb(0xa000), 0x5c);
    }
}

#[test]
fn mbc1_bank_zero_selects_one() {
    let mut m = Memory::new(rom(4), Mbc::Mbc1, 0);
    m.wb(0x2000, 0x00);
    assert_eq!(m.rom_bank(), 1);
    m.wb(0x2000, 0x20);
    assert_eq!(m.rom_bank(), 1);
}

#[test]
fn mbc1_upper_bits_in_rom_mode() {
    let mut m = Memory::new(rom(2), Mbc::Mbc1, 0x8000);
    m.wb(0x2000, 0x05);
    m.wb(0x4000, 0x02);
    assert_eq!(m.rom_bank(), 0x45);
    assert_eq!(m.ram_bank(), 0);
}

#[test]
fn mbc1_ram_mode_selects_ram_bank() {
    let mut m = Memory::new(rom(2), Mbc::Mbc1, 0x8000);
    m.wb(0x6000, 0x01);
    m.wb(0x4000, 0x07);
    assert_eq!(m.ram_bank(), 3);
    assert_eq!(m.rom_bank(), 1);
    m.wb(0x0000, 0x0a);
    m.wb(0xa001, 0x99);
    m.wb(0x4000, 0x00);
    assert_eq!(m.rb(0xa001), 0x00);
    m.wb(0x4000, 0x03);
    assert_eq!(m.rb(0xa001), 0x99);
}

#[test]
fn mbc2_toggles_ram_and_keeps_nibbles() {
    let mut m = Memory::new(rom(2), Mbc::Mbc2, 0x200);
    m.wb(0x0000, 0x00);
    m.wb(0xa010, 0xab);
    assert_eq!(m.rb(0xa010), 0x0b);
    m.wb(0x0100, 0x00);
    assert_eq!(m.rb(0xa010), 0x0b);
    m.wb(0x0000, 0x0a);
    assert_eq!(m.rb(0xa010), 0xff);
}

#[test]
fn mbc2_rom_bank_needs_address_bit_8() {
    let mut m = Memory::new(rom(16), Mbc::Mbc2, 0);
    m.wb(0x2000, 0x03);
    assert_eq!(m.rom_bank(), 1);
    m.wb(0x2100, 0x13);
    assert_eq!(m.rom_bank(), 3);
    m.wb(0x2100, 0x00);
    assert_eq!(m.rom_bank(), 0);
}

#[test]
fn mbc3_rom_bank_seven_bits() {
    let mut m = Memory::new(rom(2), Mbc::Mbc3, 0);
    m.wb(0x2000, 0x7f);
    assert_eq!(m.rom_bank(), 0x7f);
    m.wb(0x2000, 0x00);
    assert_eq!(m.rom_bank(), 1);
    m.wb(0x2000, 0x80);
    assert_eq!(m.rom_bank(), 1);
    m.wb(0x4000, 0x0e);
    assert_eq!(m.ram_bank(), 2);
}

#[test]
fn mbc3_clock_latch_changes_nothing() {
    let mut m = Memory::new(rom(4), Mbc::Mbc3, 0x8000);
    m.wb(0x0000, 0x0a);
    m.wb(0x2000, 0x02);
    m.wb(0x4000, 0x01);
    m.wb(0xa000, 0x77);
    let before = m.rb(0x4000);
    m.wb(0x6000, 0x00);
    m.wb(0x7fff, 0x01);
    assert_eq!(m.rom_bank(), 2);
    assert_eq!(m.ram_bank(), 1);
    assert_eq!(m.rb(0x4000), before);
    assert_eq!(m.rb(0xa000), 0x77);
    m.wb(0xa001, 0x78);
    assert_eq!(m.rb(0xa001), 0x78);
}

#[test]
fn mbc5_nine_bit_rom_bank() {
    let mut m = Memory::new(rom(2), Mbc::Mbc5, 0);
    m.wb(0x2000, 0xff);
    m.wb(0x3000, 0x01);
    assert_eq!(m.rom_bank(), 0x1ff);
    m.wb(0x2000, 0x00);
    assert_eq!(m.rom_bank(), 0x100);
    m.wb(0x3000, 0x00);
    assert_eq!(m.rom_bank(), 0);
    m.wb(0x4000, 0x1f);
    assert_eq!(m.ram_bank(), 0x0f);
}

#[test]
fn wram_mirrors() {
    let mut m = Memory::new(rom(2), Mbc::Mbc1, 0);
    m.wb(0xc012, 0x34);
    assert_eq!(m.rb(0xe012), 0x34);
    m.wb(0xe012, 0x56);
    assert_eq!(m.rb(0xc012), 0x56);
    m.wb(0xd3ff, 0x78);
    assert_eq!(m.rb(0xf3ff), 0x78);
    assert_eq!(m.rb(0xc3ff), 0x00);
}

#[test]
fn ie_round_trips() {
    let mut m = Memory::new(rom(2), Mbc::Mbc1, 0);
    assert_eq!(m.rb(0xffff), 0x00);
    m.wb(0xffff, 0x1f);
    assert_eq!(m.rb(0xffff), 0x1f);
}

#[test]
fn hram_and_unmapped() {
    let mut m = Memory::new(rom(2), Mbc::Mbc1, 0);
    m.wb(0xff80, 0x01);
    m.wb(0xfffe, 0x02);
    assert_eq!(m.rb(0xff80), 0x01);
    assert_eq!(m.rb(0xfffe), 0x02);
    m.wb(0xff40, 0x91);
    assert_eq!(m.rb(0xff40), 0xff);
    m.wb(0x8000, 0x12);
    assert_eq!(m.rb(0x8000), 0xff);
    m.wb(0xfe00, 0x12);
    assert_eq!(m.rb(0xfe00), 0xff);
}

#[test]
fn rom_is_not_writable() {
    let r = rom(2);
    let mut m = Memory::new(r.clone(), Mbc::Mbc5, 0);
    m.wb(0x0100, 0x0a);
    assert_eq!(m.rb(0x0100), r[0x0100]);
}
