//! A verified core of a Nintendo Entertainment System emulator: the 6502
//! interpreter, the memory bus with its mirroring rules, the bus-visible
//! surface of the picture processing unit, and the disassembling trace
//! formatter.
//!
//! `alu` holds the pure arithmetic and flag semantics; `mem` the memory
//! capability the processor runs against, with a flat 64 KiB memory for
//! unit tests; `cart` the cartridge and its iNES loader; `ppu` the
//! picture processing unit and its registers; `bus` the address-space
//! decoder over RAM, PPU and PRG-ROM; `cpu` the interpreter; `opcodes`
//! the opcode table; and `trace` the golden-log formatter.
pub mod alu;
pub mod bus;
pub mod cart;
pub mod cpu;
pub mod mem;
pub mod opcodes;
pub mod ppu;
pub mod trace;
