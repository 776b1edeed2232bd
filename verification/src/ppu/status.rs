//! The PPU status register behind `0x2002`: sprite and vblank flags,
//! read-only from the bus.
use vstd::prelude::*;

verus! {

pub const SPRITE_ZERO_HIT: u8 = 0x40;

pub const VBLANK_HAS_STARTED: u8 = 0x80;

/// The read-only status register.
pub struct StatusRegister {
    pub value: u8,
}

impl StatusRegister {
    pub fn new() -> (r: StatusRegister)
        ensures
            r.value == 0,
    {
        StatusRegister { value: 0 }
    }

    /// Sets or clears the sprite-zero-hit flag.
    pub fn set_sprite_zero_hit(&mut self, value: bool)
        ensures
            final(self).value == (if value {
                old(self).value | SPRITE_ZERO_HIT
            } else {
                old(self).value & !SPRITE_ZERO_HIT
            }),
    {
        if value {
            self.value = self.value | SPRITE_ZERO_HIT;
        } else {
            self.value = self.value & !SPRITE_ZERO_HIT;
        }
    }

    /// Whether the vblank flag is up.
    pub fn is_in_vblank(&self) -> (r: bool)
        ensures
            r == (self.value & VBLANK_HAS_STARTED != 0),
    {
        self.value & VBLANK_HAS_STARTED != 0
    }

    /// Sets or clears the vblank flag.
    pub fn set_vblank_status(&mut self, value: bool)
        ensures
            final(self).value == (if value {
                old(self).value | VBLANK_HAS_STARTED
            } else {
                old(self).value & !VBLANK_HAS_STARTED
            }),
    {
        if value {
            self.value = self.value | VBLANK_HAS_STARTED;
        } else {
            self.value = self.value & !VBLANK_HAS_STARTED;
        }
    }

    /// Clears the vblank flag, as a `0x2002` read does.
    pub fn reset_vblank_status(&mut self)
        ensures
            final(self).value == old(self).value & !VBLANK_HAS_STARTED,
    {
        self.set_vblank_status(false);
    }

    /// The raw status byte.
    pub fn get(&self) -> (r: u8)
        ensures
            r == self.value,
    {
        self.value
    }
}

} // verus!
