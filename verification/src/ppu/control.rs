//! The PPU control register behind `0x2000`: each bit a rendering or
//! addressing policy, exposed as semantic predicates.
use vstd::prelude::*;

verus! {

pub const VRAM_ADD_INCREMENT: u8 = 0x04;

pub const SPRITE_PATTERN_ADDR: u8 = 0x08;

pub const BACKGROUND_PATTERN_ADDR: u8 = 0x10;

pub const SPRITE_SIZE: u8 = 0x20;

pub const MASTER_SLAVE_SELECT: u8 = 0x40;

pub const GENERATE_NMI: u8 = 0x80;

/// The write-only control register.
pub struct ControlRegister {
    pub value: u8,
}

/// The base address of the nametable the two low control bits select.
pub open spec fn spec_nametable_addr(value: u8) -> u16 {
    if value & 0x03 == 0 {
        0x2000u16
    } else if value & 0x03 == 1 {
        0x2400u16
    } else if value & 0x03 == 2 {
        0x2800u16
    } else {
        0x2C00u16
    }
}

/// How far a `0x2007` access moves the VRAM address: 32 when bit 2 is
/// set, else 1.
pub open spec fn spec_vram_addr_increment(value: u8) -> u8 {
    if value & VRAM_ADD_INCREMENT != 0 {
        32u8
    } else {
        1u8
    }
}

impl ControlRegister {
    pub fn new() -> (r: ControlRegister)
        ensures
            r.value == 0,
    {
        ControlRegister { value: 0 }
    }

    /// The base address of the selected nametable.
    pub fn nametable_addr(&self) -> (r: u16)
        ensures
            r == spec_nametable_addr(self.value),
    {
        let low = self.value & 0x03;
        if low == 0 {
            0x2000
        } else if low == 1 {
            0x2400
        } else if low == 2 {
            0x2800
        } else {
            0x2C00
        }
    }

    /// The VRAM address step a data-port access applies.
    pub fn vram_addr_increment(&self) -> (r: u8)
        ensures
            r == spec_vram_addr_increment(self.value),
    {
        if self.value & VRAM_ADD_INCREMENT != 0 {
            32
        } else {
            1
        }
    }

    /// The pattern-table base for 8x8 sprites: 0x1000 when bit 3 is set.
    pub fn sprt_pattern_addr(&self) -> (r: u16)
        ensures
            r == (if self.value & SPRITE_PATTERN_ADDR != 0 {
                0x1000u16
            } else {
                0u16
            }),
    {
        if self.value & SPRITE_PATTERN_ADDR != 0 {
            0x1000
        } else {
            0
        }
    }

    /// The pattern-table base for the background: 0x1000 when bit 4 is set.
    pub fn bknd_pattern_addr(&self) -> (r: u16)
        ensures
            r == (if self.value & BACKGROUND_PATTERN_ADDR != 0 {
                0x1000u16
            } else {
                0u16
            }),
    {
        if self.value & BACKGROUND_PATTERN_ADDR != 0 {
            0x1000
        } else {
            0
        }
    }

    /// The sprite height: 16 rows when bit 5 is set, else 8.
    pub fn sprite_size(&self) -> (r: u8)
        ensures
            r == (if self.value & SPRITE_SIZE != 0 {
                16u8
            } else {
                8u8
            }),
    {
        if self.value & SPRITE_SIZE != 0 {
            16
        } else {
            8
        }
    }

    /// The master/slave select bit as 0 or 1.
    pub fn master_slave_select(&self) -> (r: u8)
        ensures
            r == (if self.value & MASTER_SLAVE_SELECT != 0 {
                1u8
            } else {
                0u8
            }),
    {
        if self.value & MASTER_SLAVE_SELECT != 0 {
            1
        } else {
            0
        }
    }

    /// Whether entering vblank raises a non-maskable interrupt.
    pub fn generate_vblank_nmi(&self) -> (r: bool)
        ensures
            r == (self.value & GENERATE_NMI != 0),
    {
        self.value & GENERATE_NMI != 0
    }

    /// One byte write through `0x2000`.
    pub fn update(&mut self, value: u8)
        ensures
            final(self).value == value,
    {
        self.value = value;
    }
}

} // verus!
