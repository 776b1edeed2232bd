//! The PPU mask register behind `0x2001`: rendering switches and colour
//! emphasis. This core only stores the byte.
use vstd::prelude::*;

verus! {

/// The write-only mask register.
pub struct MaskRegister {
    pub value: u8,
}

impl MaskRegister {
    pub fn new() -> (r: MaskRegister)
        ensures
            r.value == 0,
    {
        MaskRegister { value: 0 }
    }

    /// One byte write through `0x2001`.
    pub fn update(&mut self, value: u8)
        ensures
            final(self).value == value,
    {
        self.value = value;
    }
}

} // verus!
