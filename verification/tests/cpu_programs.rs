use nes_core::cpu::AddressingMode;
use nes_core::cpu::CPU;
use nes_core::mem::FlatMem;
use nes_core::mem::Fault;
use nes_core::mem::Mem;

fn cpu_with_program(program: &[u8], at: u16) -> CPU<FlatMem> {
    let mut mem = FlatMem::new();
    for (i, b) in program.iter().enumerate() {
        mem.mem_write(at.wrapping_add(i as u16), *b).unwrap();
    }
    mem.mem_write(0xFFFC, (at & 0xFF) as u8).unwrap();
    mem.mem_write(0xFFFD, (at >> 8) as u8).unwrap();
    let mut cpu = CPU::new(mem);
    cpu.reset().unwrap();
    cpu
}

#[test]
fn lda_immediate_sets_a_and_flags() {
    let mut cpu = cpu_with_program(&[0xA9, 0x05, 0x00], 0x8000);
    assert_eq!(cpu.run(1000), Ok(true));
    assert_eq!(cpu.register_a, 0x05);
    assert_eq!(cpu.status & 0x02, 0, "zero flag must be clear");
    assert_eq!(cpu.status & 0x80, 0, "negative flag must be clear");
}

#[test]
fn adc_wraps_to_zero_with_carry() {
    let mut cpu = cpu_with_program(&[0xA9, 0xFF, 0x69, 0x01, 0x00], 0x8000);
    assert_eq!(cpu.run(1000), Ok(true));
    assert_eq!(cpu.register_a, 0x00);
    assert_eq!(cpu.status & 0x01, 0x01, "carry set");
    assert_eq!(cpu.status & 0x02, 0x02, "zero set");
    assert_eq!(cpu.status & 0x40, 0x00, "overflow clear");
    assert_eq!(cpu.status & 0x80, 0x00, "negative clear");
}

#[test]
fn adc_signed_overflow() {
    let mut cpu = cpu_with_program(&[0xA9, 0x80, 0x69, 0x80, 0x00], 0x8000);
    assert_eq!(cpu.run(1000), Ok(true));
    assert_eq!(cpu.register_a, 0x00);
    assert_eq!(cpu.status & 0x01, 0x01, "carry set");
    assert_eq!(cpu.status & 0x40, 0x40, "overflow set");
    assert_eq!(cpu.status & 0x02, 0x02, "zero set");
    assert_eq!(cpu.status & 0x80, 0x00, "negative clear");
}

#[test]
fn stores_and_absolute_load() {
    let mut cpu = cpu_with_program(
        &[0xA2, 0x0A, 0x8E, 0x00, 0x02, 0xA9, 0x05, 0x8D, 0x01, 0x02, 0xAD, 0x01, 0x02, 0x00],
        0x8000,
    );
    assert_eq!(cpu.run(1000), Ok(true));
    assert_eq!(cpu.register_a, 0x05);
    assert_eq!(cpu.bus.mem_read(0x0200), Ok(0x0A));
    assert_eq!(cpu.bus.mem_read(0x0201), Ok(0x05));
}

#[test]
fn cmp_smaller_clears_carry_sets_negative() {
    let mut cpu = cpu_with_program(&[0xA9, 0x01, 0xC9, 0x02, 0x00], 0x8000);
    assert_eq!(cpu.run(1000), Ok(true));
    assert_eq!(cpu.status & 0x01, 0x00, "carry clear: 1 < 2");
    assert_eq!(cpu.status & 0x02, 0x00, "zero clear");
    assert_eq!(cpu.status & 0x80, 0x80, "negative set");
}

#[test]
fn indirect_jmp_honours_page_wrap() {
    // The pointer sits on a page's last byte: the high byte of the
    // target comes from the start of the same page, never the next one.
    let mut cpu = cpu_with_program(&[0x6C, 0xFF, 0x30], 0x8000);
    cpu.bus.mem_write(0x30FF, 0x80).unwrap();
    cpu.bus.mem_write(0x3000, 0x40).unwrap();
    cpu.bus.mem_write(0x3100, 0x99).unwrap(); // the next page: must be ignored
    assert_eq!(cpu.step(), Ok(true));
    assert_eq!(cpu.program_counter, 0x4080);
}

#[test]
fn php_plp_round_trips_all_but_b_and_u() {
    // SEC; PHP; PLP: the carry survives the push and pull, B ends clear,
    // the unused bit ends set.
    let mut cpu = cpu_with_program(&[0x38, 0x08, 0x28, 0x00], 0x8000);
    assert_eq!(cpu.run(1000), Ok(true));
    assert_eq!(cpu.status, 0x25);
}

#[test]
fn php_pushes_b_and_u_on_the_stacked_copy() {
    let mut cpu = cpu_with_program(&[0x08, 0x00], 0x8000);
    let sp = cpu.stack_pointer;
    assert_eq!(cpu.run(1000), Ok(true));
    let stacked = cpu.bus.mem_read(0x0100 + sp as u16).unwrap();
    assert_eq!(stacked, 0x24 | 0x30);
}

#[test]
fn jsr_and_rts_return_past_the_call() {
    // JSR $8010; BRK ... at $8010: LDA #$07; RTS
    let mut cpu = cpu_with_program(&[0x20, 0x10, 0x80, 0x00], 0x8000);
    cpu.bus.mem_write(0x8010, 0xA9).unwrap();
    cpu.bus.mem_write(0x8011, 0x07).unwrap();
    cpu.bus.mem_write(0x8012, 0x60).unwrap();
    assert_eq!(cpu.run(1000), Ok(true));
    assert_eq!(cpu.register_a, 0x07);
    assert_eq!(cpu.stack_pointer, 0xFD);
}

#[test]
fn branch_taken_and_not_taken() {
    // LDX #$01; BNE +2 (skip the LDA #$22); LDA #$33; BRK
    let mut cpu = cpu_with_program(&[0xA2, 0x01, 0xD0, 0x02, 0xA9, 0x22, 0xA9, 0x33, 0x00], 0x8000);
    assert_eq!(cpu.run(1000), Ok(true));
    assert_eq!(cpu.register_a, 0x33);
    // LDX #$00; BNE +2; LDA #$22; ...: not taken, so 0x22 loads first
    let mut cpu = cpu_with_program(&[0xA2, 0x00, 0xD0, 0x02, 0xA9, 0x22, 0x00], 0x8000);
    assert_eq!(cpu.run(1000), Ok(true));
    assert_eq!(cpu.register_a, 0x22);
}

#[test]
fn backward_branch_with_negative_offset() {
    // LDX #$03; DEX; BNE -3 (back to DEX); BRK: loops until X is zero.
    let mut cpu = cpu_with_program(&[0xA2, 0x03, 0xCA, 0xD0, 0xFD, 0x00], 0x8000);
    assert_eq!(cpu.run(1000), Ok(true));
    assert_eq!(cpu.register_x, 0x00);
    assert_eq!(cpu.status & 0x02, 0x02);
}

#[test]
fn sbc_without_borrow() {
    // SEC; LDA #$50; SBC #$10
    let mut cpu = cpu_with_program(&[0x38, 0xA9, 0x50, 0xE9, 0x10, 0x00], 0x8000);
    assert_eq!(cpu.run(1000), Ok(true));
    assert_eq!(cpu.register_a, 0x40);
    assert_eq!(cpu.status & 0x01, 0x01, "no borrow: carry stays set");
}

#[test]
fn sbc_with_borrow_wraps() {
    // SEC; LDA #$10; SBC #$20 = -0x10 -> 0xF0, borrow clears carry
    let mut cpu = cpu_with_program(&[0x38, 0xA9, 0x10, 0xE9, 0x20, 0x00], 0x8000);
    assert_eq!(cpu.run(1000), Ok(true));
    assert_eq!(cpu.register_a, 0xF0);
    assert_eq!(cpu.status & 0x01, 0x00, "borrow: carry clear");
    assert_eq!(cpu.status & 0x80, 0x80);
}

#[test]
fn shifts_and_rotates_on_accumulator() {
    // LDA #$81; ASL A -> 0x02, carry 1; ROL A -> 0x05 (carry in)
    let mut cpu = cpu_with_program(&[0xA9, 0x81, 0x0A, 0x2A, 0x00], 0x8000);
    assert_eq!(cpu.run(1000), Ok(true));
    assert_eq!(cpu.register_a, 0x05);
    assert_eq!(cpu.status & 0x01, 0x00);
}

#[test]
fn inc_dec_memory() {
    // INC $10; INC $10; DEC $11 with $11 = 0 wraps to $FF
    let mut cpu = cpu_with_program(&[0xE6, 0x10, 0xE6, 0x10, 0xC6, 0x11, 0x00], 0x8000);
    assert_eq!(cpu.run(1000), Ok(true));
    assert_eq!(cpu.bus.mem_read(0x0010), Ok(2));
    assert_eq!(cpu.bus.mem_read(0x0011), Ok(0xFF));
}

#[test]
fn bit_copies_operand_top_bits() {
    // LDA #$01; BIT $10 with $10 = 0xC0: Z set (no common bits), N and V set
    let mut cpu = cpu_with_program(&[0xA9, 0x01, 0x24, 0x10, 0x00], 0x8000);
    cpu.bus.mem_write(0x0010, 0xC0).unwrap();
    assert_eq!(cpu.run(1000), Ok(true));
    assert_eq!(cpu.status & 0x02, 0x02);
    assert_eq!(cpu.status & 0x80, 0x80);
    assert_eq!(cpu.status & 0x40, 0x40);
    assert_eq!(cpu.register_a, 0x01, "BIT leaves A alone");
}

#[test]
fn lax_loads_a_and_x() {
    let mut cpu = cpu_with_program(&[0xA7, 0x10, 0x00], 0x8000);
    cpu.bus.mem_write(0x0010, 0x5A).unwrap();
    assert_eq!(cpu.run(1000), Ok(true));
    assert_eq!(cpu.register_a, 0x5A);
    assert_eq!(cpu.register_x, 0x5A);
}

#[test]
fn indexed_indirect_addressing() {
    // LDX #$04; LDA ($20,X): pointer at $24/$25 -> $0300
    let mut cpu = cpu_with_program(&[0xA2, 0x04, 0xA1, 0x20, 0x00], 0x8000);
    cpu.bus.mem_write(0x0024, 0x00).unwrap();
    cpu.bus.mem_write(0x0025, 0x03).unwrap();
    cpu.bus.mem_write(0x0300, 0x77).unwrap();
    assert_eq!(cpu.run(1000), Ok(true));
    assert_eq!(cpu.register_a, 0x77);
}

#[test]
fn indirect_indexed_addressing() {
    // LDY #$10; LDA ($20),Y: pointer $0300 + Y -> $0310
    let mut cpu = cpu_with_program(&[0xA0, 0x10, 0xB1, 0x20, 0x00], 0x8000);
    cpu.bus.mem_write(0x0020, 0x00).unwrap();
    cpu.bus.mem_write(0x0021, 0x03).unwrap();
    cpu.bus.mem_write(0x0310, 0x66).unwrap();
    assert_eq!(cpu.run(1000), Ok(true));
    assert_eq!(cpu.register_a, 0x66);
}

#[test]
fn zero_page_x_wraps_within_page() {
    // LDX #$FF; LDA $80,X: 0x80 + 0xFF wraps to 0x7F
    let mut cpu = cpu_with_program(&[0xA2, 0xFF, 0xB5, 0x80, 0x00], 0x8000);
    cpu.bus.mem_write(0x007F, 0x42).unwrap();
    assert_eq!(cpu.run(1000), Ok(true));
    assert_eq!(cpu.register_a, 0x42);
}

#[test]
fn unknown_opcode_is_a_fault() {
    let mut cpu = cpu_with_program(&[0x02], 0x8000);
    assert_eq!(cpu.run(1000), Err(Fault::UnknownOpcode(0x02, 0x8000)));
}

#[test]
fn implied_mode_has_no_operand_address() {
    let mut cpu = cpu_with_program(&[0x00], 0x8000);
    assert_eq!(
        cpu.get_absolute_address(&AddressingMode::Implied, 0x1234),
        Err(Fault::NoOperandAddress)
    );
    assert_eq!(
        cpu.get_absolute_address(&AddressingMode::Accumulator, 0x1234),
        Err(Fault::NoOperandAddress)
    );
}

#[test]
fn run_out_of_budget_reports_false() {
    // An endless loop: JMP $8000.
    let mut cpu = cpu_with_program(&[0x4C, 0x00, 0x80], 0x8000);
    assert_eq!(cpu.run(10), Ok(false));
}

#[test]
fn reset_state() {
    let cpu = cpu_with_program(&[0x00], 0x8000);
    assert_eq!(cpu.register_a, 0);
    assert_eq!(cpu.register_x, 0);
    assert_eq!(cpu.register_y, 0);
    assert_eq!(cpu.status, 0x24);
    assert_eq!(cpu.stack_pointer, 0xFD);
    assert_eq!(cpu.program_counter, 0x8000);
}

#[test]
fn transfers_set_flags_except_txs() {
    // LDA #$80; TAX sets N; LDX #$00 .. TXS keeps flags
    let mut cpu = cpu_with_program(&[0xA9, 0x80, 0xAA, 0x00], 0x8000);
    assert_eq!(cpu.run(1000), Ok(true));
    assert_eq!(cpu.register_x, 0x80);
    assert_eq!(cpu.status & 0x80, 0x80);

    let mut cpu = cpu_with_program(&[0xA9, 0x01, 0xA2, 0x00, 0x9A, 0x00], 0x8000);
    assert_eq!(cpu.run(1000), Ok(true));
    assert_eq!(cpu.stack_pointer, 0x00);
    assert_eq!(cpu.status & 0x02, 0x02, "Z from LDX, untouched by TXS");
}

#[test]
fn sixteen_bit_accesses_are_little_endian() {
    let mut mem = FlatMem::new();
    nes_core::mem::mem_write_u16(&mut mem, 0x0200, 0xBEEF).unwrap();
    assert_eq!(mem.mem_read(0x0200), Ok(0xEF));
    assert_eq!(mem.mem_read(0x0201), Ok(0xBE));
    assert_eq!(nes_core::mem::mem_read_u16(&mut mem, 0x0200), Ok(0xBEEF));
}

#[test]
fn page_wrapped_read_never_crosses_the_page() {
    let mut mem = FlatMem::new();
    mem.mem_write(0x02FF, 0x34).unwrap();
    mem.mem_write(0x0200, 0x12).unwrap();
    mem.mem_write(0x0300, 0x77).unwrap();
    assert_eq!(nes_core::mem::mem_read_u16_page_wrap(&mut mem, 0x02FF), Ok(0x1234));
    assert_eq!(nes_core::mem::mem_read_u16(&mut mem, 0x02FF), Ok(0x7734));
}
