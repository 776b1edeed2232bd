use nes_core::bus::Bus;
use nes_core::cart::Mirroring;
use nes_core::cart::Rom;
use nes_core::mem::Fault;
use nes_core::mem::Mem;
use nes_core::ppu::PPU;

fn test_rom(mirroring: Mirroring) -> Rom {
    Rom { prg_rom: vec![0; 0x4000], chr_rom: vec![0; 0x2000], screen_mirroring: mirroring }
}

fn test_bus() -> Bus {
    Bus::new(test_rom(Mirroring::VERTICAL))
}

#[test]
fn ram_is_mirrored_every_2k() {
    let mut bus = test_bus();
    bus.mem_write(0x0000, 0x55).unwrap();
    assert_eq!(bus.mem_read(0x0800), Ok(0x55));
    assert_eq!(bus.mem_read(0x1000), Ok(0x55));
    assert_eq!(bus.mem_read(0x1800), Ok(0x55));
    bus.mem_write(0x1FFF, 0xAA).unwrap();
    assert_eq!(bus.mem_read(0x07FF), Ok(0xAA));
}

#[test]
fn ppu_registers_are_mirrored_every_8_bytes() {
    let mut bus = test_bus();
    // Set the VRAM address through the last mirror of 0x2006, write data
    // through a mirror of 0x2007, and read it back through 0x2007 itself.
    bus.mem_write(0x3FFE, 0x23).unwrap();
    bus.mem_write(0x3FFE, 0x05).unwrap();
    bus.mem_write(0x3FFF, 0x9C).unwrap();
    bus.mem_write(0x2006, 0x23).unwrap();
    bus.mem_write(0x2006, 0x05).unwrap();
    let _stale = bus.mem_read(0x2007).unwrap();
    assert_eq!(bus.mem_read(0x200F), Ok(0x9C));
}

#[test]
fn unmapped_region_reads_zero_and_drops_writes() {
    let mut bus = test_bus();
    bus.mem_write(0x5000, 0x12).unwrap();
    assert_eq!(bus.mem_read(0x5000), Ok(0));
}

#[test]
fn prg_rom_16k_is_mirrored() {
    let mut rom = test_rom(Mirroring::VERTICAL);
    rom.prg_rom[0] = 0x77;
    rom.prg_rom[0x3FFF] = 0x88;
    let mut bus = Bus::new(rom);
    assert_eq!(bus.mem_read(0x8000), Ok(0x77));
    assert_eq!(bus.mem_read(0xC000), Ok(0x77));
    assert_eq!(bus.mem_read(0xBFFF), Ok(0x88));
    assert_eq!(bus.mem_read(0xFFFF), Ok(0x88));
}

#[test]
fn prg_rom_32k_is_linear() {
    let mut rom = test_rom(Mirroring::VERTICAL);
    rom.prg_rom = vec![0; 0x8000];
    rom.prg_rom[0x4000] = 0x99;
    let mut bus = Bus::new(rom);
    assert_eq!(bus.mem_read(0xC000), Ok(0x99));
    assert_eq!(bus.mem_read(0x8000), Ok(0x00));
}

#[test]
fn write_only_and_read_only_registers_fault() {
    let mut bus = test_bus();
    assert_eq!(bus.mem_read(0x2000), Err(Fault::ReadWriteOnly(0x2000)));
    assert_eq!(bus.mem_read(0x2001), Err(Fault::ReadWriteOnly(0x2001)));
    assert_eq!(bus.mem_read(0x2003), Err(Fault::ReadWriteOnly(0x2003)));
    assert_eq!(bus.mem_read(0x2005), Err(Fault::ReadWriteOnly(0x2005)));
    assert_eq!(bus.mem_read(0x2006), Err(Fault::ReadWriteOnly(0x2006)));
    assert_eq!(bus.mem_read(0x2004), Err(Fault::ReadUnsupported(0x2004)));
    assert_eq!(bus.mem_write(0x2002, 1), Err(Fault::WriteReadOnly(0x2002)));
    assert_eq!(bus.mem_write(0x2003, 1), Err(Fault::WriteUnsupported(0x2003)));
    assert_eq!(bus.mem_write(0x2004, 1), Err(Fault::WriteUnsupported(0x2004)));
    assert_eq!(bus.mem_write(0x2005, 1), Err(Fault::WriteUnsupported(0x2005)));
    assert_eq!(bus.mem_write(0x8000, 1), Err(Fault::WriteToRom(0x8000)));
    assert_eq!(bus.mem_write(0xFFFF, 1), Err(Fault::WriteToRom(0xFFFF)));
}

#[test]
fn data_write_into_pattern_tables_faults() {
    let mut bus = test_bus();
    bus.mem_write(0x2006, 0x10).unwrap();
    bus.mem_write(0x2006, 0x00).unwrap();
    assert_eq!(bus.mem_write(0x2007, 1), Err(Fault::WriteToChr(0x1000)));
}

#[test]
fn addr_register_takes_high_six_then_low_eight() {
    let mut ppu = PPU::new(vec![0; 0x2000], Mirroring::VERTICAL);
    ppu.write_to_ppu_addr(0x7F);
    ppu.write_to_ppu_addr(0xE8);
    assert_eq!(ppu.addr.get(), ((0x7F & 0x3F) << 8) | 0xE8);
    // The latch alternates: the next write is high again.
    ppu.write_to_ppu_addr(0x12);
    ppu.write_to_ppu_addr(0x34);
    assert_eq!(ppu.addr.get(), 0x1234);
}

#[test]
fn status_read_resets_the_address_latch() {
    let mut bus = test_bus();
    bus.mem_write(0x2006, 0x21).unwrap();
    // Half-written address; the status read makes the next write high again.
    let _ = bus.mem_read(0x2002).unwrap();
    bus.mem_write(0x2006, 0x23).unwrap();
    bus.mem_write(0x2006, 0x45).unwrap();
    assert_eq!(bus.ppu.addr.get(), 0x2345);
}

#[test]
fn data_reads_are_buffered_for_vram() {
    let mut ppu = PPU::new(vec![0; 0x2000], Mirroring::VERTICAL);
    ppu.write_to_ppu_addr(0x20);
    ppu.write_to_ppu_addr(0x00);
    ppu.write_to_data(0x11).unwrap();
    ppu.write_to_data(0x22).unwrap();
    ppu.write_to_ppu_addr(0x20);
    ppu.write_to_ppu_addr(0x00);
    let stale = ppu.read_data();
    assert_eq!(stale, 0x00, "first read returns the stale buffer");
    assert_eq!(ppu.read_data(), 0x11);
    assert_eq!(ppu.read_data(), 0x22);
}

#[test]
fn chr_reads_are_buffered() {
    let mut chr = vec![0; 0x2000];
    chr[0x0100] = 0xAB;
    let mut ppu = PPU::new(chr, Mirroring::VERTICAL);
    ppu.write_to_ppu_addr(0x01);
    ppu.write_to_ppu_addr(0x00);
    let _stale = ppu.read_data();
    assert_eq!(ppu.read_data(), 0xAB);
}

#[test]
fn palette_reads_bypass_the_buffer() {
    let mut ppu = PPU::new(vec![0; 0x2000], Mirroring::VERTICAL);
    ppu.write_to_ppu_addr(0x3F);
    ppu.write_to_ppu_addr(0x01);
    ppu.write_to_data(0x31).unwrap();
    ppu.write_to_ppu_addr(0x3F);
    ppu.write_to_ppu_addr(0x01);
    assert_eq!(ppu.read_data(), 0x31, "palette read is unbuffered");
}

#[test]
fn palette_sprite_entries_alias_background() {
    let mut ppu = PPU::new(vec![0; 0x2000], Mirroring::VERTICAL);
    ppu.write_to_ppu_addr(0x3F);
    ppu.write_to_ppu_addr(0x10);
    ppu.write_to_data(0x2C).unwrap();
    ppu.write_to_ppu_addr(0x3F);
    ppu.write_to_ppu_addr(0x00);
    assert_eq!(ppu.read_data(), 0x2C, "0x3F10 aliases 0x3F00");
}

#[test]
fn vertical_mirroring_folds_the_upper_nametables() {
    let mut ppu = PPU::new(vec![0; 0x2000], Mirroring::VERTICAL);
    ppu.write_to_ppu_addr(0x28);
    ppu.write_to_ppu_addr(0x05);
    ppu.write_to_data(0x66).unwrap();
    ppu.write_to_ppu_addr(0x20);
    ppu.write_to_ppu_addr(0x05);
    let _stale = ppu.read_data();
    assert_eq!(ppu.read_data(), 0x66, "nametable 2 folds onto nametable 0");
}

#[test]
fn horizontal_mirroring_pairs_the_nametables() {
    let mut ppu = PPU::new(vec![0; 0x2000], Mirroring::HORIZONTAL);
    ppu.write_to_ppu_addr(0x24);
    ppu.write_to_ppu_addr(0x05);
    ppu.write_to_data(0x77).unwrap();
    ppu.write_to_ppu_addr(0x20);
    ppu.write_to_ppu_addr(0x05);
    let _stale = ppu.read_data();
    assert_eq!(ppu.read_data(), 0x77, "nametable 1 folds onto nametable 0");

    ppu.write_to_ppu_addr(0x2C);
    ppu.write_to_ppu_addr(0x09);
    ppu.write_to_data(0x88).unwrap();
    ppu.write_to_ppu_addr(0x28);
    ppu.write_to_ppu_addr(0x09);
    let _stale = ppu.read_data();
    assert_eq!(ppu.read_data(), 0x88, "nametable 3 folds onto nametable 2");
}

#[test]
fn control_register_selects_the_vram_increment() {
    let mut ppu = PPU::new(vec![0; 0x2000], Mirroring::VERTICAL);
    assert_eq!(ppu.ctrl.vram_addr_increment(), 1);
    ppu.write_to_ctrl(0x04);
    assert_eq!(ppu.ctrl.vram_addr_increment(), 32);
    ppu.write_to_ppu_addr(0x20);
    ppu.write_to_ppu_addr(0x00);
    ppu.write_to_data(0x0A).unwrap();
    ppu.write_to_data(0x0B).unwrap();
    ppu.write_to_ctrl(0x00);
    ppu.write_to_ppu_addr(0x20);
    ppu.write_to_ppu_addr(0x20);
    let _stale = ppu.read_data();
    assert_eq!(ppu.read_data(), 0x0B, "the second write landed 32 bytes on");
}

#[test]
fn control_register_decodes_its_bits() {
    let mut ppu = PPU::new(vec![0; 0x2000], Mirroring::VERTICAL);
    ppu.write_to_ctrl(0b1110_1011);
    assert_eq!(ppu.ctrl.nametable_addr(), 0x2C00);
    assert_eq!(ppu.ctrl.sprt_pattern_addr(), 0x1000);
    assert_eq!(ppu.ctrl.bknd_pattern_addr(), 0x0000);
    assert_eq!(ppu.ctrl.sprite_size(), 16);
    assert_eq!(ppu.ctrl.master_slave_select(), 1);
    assert!(ppu.ctrl.generate_vblank_nmi());
}

#[test]
fn status_register_vblank_flag() {
    let mut ppu = PPU::new(vec![0; 0x2000], Mirroring::VERTICAL);
    assert!(!ppu.status.is_in_vblank());
    ppu.status.set_vblank_status(true);
    assert!(ppu.status.is_in_vblank());
    assert_eq!(ppu.read_status() & 0x80, 0x80);
    assert!(!ppu.status.is_in_vblank(), "the read cleared the flag");
    ppu.status.set_sprite_zero_hit(true);
    assert_eq!(ppu.status.get(), 0x40);
}

#[test]
fn vblank_flag_survives_on_the_read_value_only_once() {
    let mut bus = test_bus();
    bus.ppu.status.set_vblank_status(true);
    assert_eq!(bus.mem_read(0x2002).unwrap() & 0x80, 0x80);
    assert_eq!(bus.mem_read(0x2002).unwrap() & 0x80, 0x00);
}

#[test]
fn soft_ignored_accesses_are_counted() {
    let mut bus = test_bus();
    assert_eq!(bus.ignored_accesses, 0);
    bus.mem_write(0x5000, 0x12).unwrap();
    assert_eq!(bus.mem_read(0x5000), Ok(0));
    assert_eq!(bus.ignored_accesses, 2, "one ignored write, one ignored read");
    bus.mem_write(0x0000, 0x12).unwrap();
    let _ = bus.mem_read(0x8000).unwrap();
    assert_eq!(bus.ignored_accesses, 2, "mapped accesses leave the count alone");
}
