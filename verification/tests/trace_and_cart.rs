use nes_core::cart::Mirroring;
use nes_core::cart::Rom;
use nes_core::cart::RomError;
use nes_core::cpu::CPU;
use nes_core::mem::FlatMem;
use nes_core::mem::Mem;
use nes_core::trace::trace;

fn cpu_with_bytes(bytes: &[(u16, u8)], pc: u16) -> CPU<FlatMem> {
    let mut mem = FlatMem::new();
    for (addr, b) in bytes {
        mem.mem_write(*addr, *b).unwrap();
    }
    let mut cpu = CPU::new(mem);
    cpu.program_counter = pc;
    cpu
}

#[test]
fn trace_renders_the_reference_jmp_line() {
    let mut cpu = cpu_with_bytes(&[(0xC000, 0x4C), (0xC001, 0xF5), (0xC002, 0xC5)], 0xC000);
    assert_eq!(
        trace(&mut cpu).unwrap(),
        "C000  4C F5 C5  JMP $C5F5                       A:00 X:00 Y:00 P:24 SP:FD"
    );
}

#[test]
fn trace_renders_an_immediate_operand() {
    let mut cpu = cpu_with_bytes(&[(0x0400, 0xA9), (0x0401, 0x05)], 0x0400);
    assert_eq!(
        trace(&mut cpu).unwrap(),
        "0400  A9 05     LDA #$05                        A:00 X:00 Y:00 P:24 SP:FD"
    );
}

#[test]
fn trace_renders_an_implied_instruction() {
    let mut cpu = cpu_with_bytes(&[(0x0400, 0xEA)], 0x0400);
    assert_eq!(
        trace(&mut cpu).unwrap(),
        "0400  EA        NOP                             A:00 X:00 Y:00 P:24 SP:FD"
    );
}

#[test]
fn trace_renders_zero_page_with_stored_value() {
    let mut cpu = cpu_with_bytes(&[(0x0400, 0xA5), (0x0401, 0x10), (0x0010, 0xAA)], 0x0400);
    assert_eq!(
        trace(&mut cpu).unwrap(),
        "0400  A5 10     LDA $10 = AA                    A:00 X:00 Y:00 P:24 SP:FD"
    );
}

#[test]
fn trace_renders_the_accumulator_mode() {
    let mut cpu = cpu_with_bytes(&[(0x0400, 0x0A)], 0x0400);
    assert_eq!(
        trace(&mut cpu).unwrap(),
        "0400  0A        ASL A                           A:00 X:00 Y:00 P:24 SP:FD"
    );
}

#[test]
fn trace_shows_the_registers_as_they_stand() {
    let mut cpu = cpu_with_bytes(&[(0x0400, 0xEA)], 0x0400);
    cpu.register_a = 0xAB;
    cpu.register_x = 0x01;
    cpu.register_y = 0xFF;
    cpu.status = 0x65;
    cpu.stack_pointer = 0xF0;
    assert_eq!(
        trace(&mut cpu).unwrap(),
        "0400  EA        NOP                             A:AB X:01 Y:FF P:65 SP:F0"
    );
}

fn ines_image(prg_units: u8, chr_units: u8, byte6: u8, byte7: u8) -> Vec<u8> {
    let mut raw = vec![0x4E, 0x45, 0x53, 0x1A, prg_units, chr_units, byte6, byte7];
    raw.resize(16, 0);
    let trainer = if byte6 & 0x04 != 0 { 512 } else { 0 };
    raw.resize(16 + trainer + prg_units as usize * 0x4000 + chr_units as usize * 0x2000, 0);
    raw
}

#[test]
fn rom_parses_a_minimal_image() {
    let mut raw = ines_image(1, 1, 0x01, 0);
    raw[16] = 0xEE; // first PRG byte
    raw[16 + 0x4000] = 0xCC; // first CHR byte
    let rom = Rom::new(&raw).unwrap();
    assert_eq!(rom.prg_rom.len(), 0x4000);
    assert_eq!(rom.chr_rom.len(), 0x2000);
    assert_eq!(rom.prg_rom[0], 0xEE);
    assert_eq!(rom.chr_rom[0], 0xCC);
    assert_eq!(rom.screen_mirroring, Mirroring::VERTICAL);
}

#[test]
fn rom_mirroring_from_the_header() {
    assert_eq!(
        Rom::new(&ines_image(1, 1, 0x00, 0)).unwrap().screen_mirroring,
        Mirroring::HORIZONTAL
    );
    assert_eq!(
        Rom::new(&ines_image(1, 1, 0x08, 0)).unwrap().screen_mirroring,
        Mirroring::FOUR_SCREEN
    );
}

#[test]
fn rom_skips_a_trainer() {
    let mut raw = ines_image(1, 1, 0x04, 0);
    raw[16 + 512] = 0x5E;
    let rom = Rom::new(&raw).unwrap();
    assert_eq!(rom.prg_rom[0], 0x5E);
}

#[test]
fn rom_rejects_bad_images() {
    let mut bad_magic = ines_image(1, 1, 0, 0);
    bad_magic[0] = 0x4D;
    assert!(matches!(Rom::new(&bad_magic), Err(RomError::NotInes)));
    assert!(matches!(Rom::new(&vec![0x4E, 0x45, 0x53]), Err(RomError::NotInes)));
    assert!(matches!(Rom::new(&ines_image(1, 1, 0, 0x08)), Err(RomError::Nes2NotSupported)));
    assert!(matches!(Rom::new(&ines_image(3, 1, 0, 0)), Err(RomError::BadPrgSize)));
    assert!(matches!(Rom::new(&ines_image(1, 2, 0, 0)), Err(RomError::BadChrSize)));
    let mut short = ines_image(1, 1, 0, 0);
    short.truncate(short.len() - 1);
    assert!(matches!(Rom::new(&short), Err(RomError::Truncated)));
}
