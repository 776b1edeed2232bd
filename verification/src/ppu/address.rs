//! The PPU address register behind `0x2006`: a 14-bit VRAM address
//! accumulated by two successive byte writes, high six bits first.
use vstd::prelude::*;

verus! {

/// The two-write address latch. `hi_ptr` is true when the next write
/// supplies the high byte.
pub struct AddrRegister {
    pub hi: u8,
    pub lo: u8,
    pub hi_ptr: bool,
}

impl AddrRegister {
    /// The held address never exceeds 14 bits.
    pub open spec fn inv(self) -> bool {
        self.hi <= 0x3F
    }

    /// The 14-bit address currently held.
    pub open spec fn spec_get(self) -> u16 {
        ((self.hi as u16) << 8) | (self.lo as u16)
    }

    /// The register after one byte write: the high six bits or the low
    /// eight, by turn, and the latch flipped.
    pub open spec fn after_update(self, data: u8) -> AddrRegister {
        if self.hi_ptr {
            AddrRegister { hi: data & 0x3F, lo: self.lo, hi_ptr: false }
        } else {
            AddrRegister { hi: self.hi, lo: data, hi_ptr: true }
        }
    }

    /// The register after the address advanced by `inc`, wrapped to 14 bits.
    pub open spec fn after_increment(self, inc: u8) -> AddrRegister {
        let a = self.spec_get().wrapping_add(inc as u16) & 0x3FFF;
        AddrRegister { hi: (a >> 8) as u8, lo: (a & 0x00FF) as u8, hi_ptr: self.hi_ptr }
    }

    /// The register with the latch reset: the next write is high again.
    pub open spec fn after_reset_latch(self) -> AddrRegister {
        AddrRegister { hi: self.hi, lo: self.lo, hi_ptr: true }
    }

    pub fn new() -> (r: AddrRegister)
        ensures
            r.inv(),
            r == (AddrRegister { hi: 0u8, lo: 0u8, hi_ptr: true }),
    {
        AddrRegister { hi: 0, lo: 0, hi_ptr: true }
    }

    /// The current 14-bit address.
    pub fn get(&self) -> (r: u16)
        requires
            self.inv(),
        ensures
            r == self.spec_get(),
            r <= 0x3FFF,
    {
        proof {
            lemma_addr_get_bound(self.hi, self.lo);
        }
        ((self.hi as u16) << 8) | (self.lo as u16)
    }

    /// One byte write through `0x2006`.
    pub fn update(&mut self, data: u8)
        requires
            old(self).inv(),
        ensures
            final(self).inv(),
            *final(self) == old(self).after_update(data),
    {
        proof {
            lemma_addr_masks(data);
        }
        if self.hi_ptr {
            self.hi = data & 0x3F;
        } else {
            self.lo = data;
        }
        self.hi_ptr = !self.hi_ptr;
    }

    /// Advances the address by the VRAM increment step, wrapping at 14 bits.
    pub fn increment(&mut self, inc: u8)
        requires
            old(self).inv(),
        ensures
            final(self).inv(),
            *final(self) == old(self).after_increment(inc),
    {
        let g = self.get();
        let a = g.wrapping_add(inc as u16) & 0x3FFF;
        proof {
            lemma_addr_split(g.wrapping_add(inc as u16));
        }
        self.hi = (a >> 8) as u8;
        self.lo = (a & 0x00FF) as u8;
    }

    /// Makes the next `0x2006` write supply the high byte again.
    pub fn reset_latch(&mut self)
        requires
            old(self).inv(),
        ensures
            final(self).inv(),
            *final(self) == old(self).after_reset_latch(),
    {
        self.hi_ptr = true;
    }
}

/// A six-bit high byte keeps the composed address at or below 0x3FFF.
proof fn lemma_addr_get_bound(hi: u8, lo: u8)
    by (bit_vector)
    requires
        hi <= 0x3F,
    ensures
        (((hi as u16) << 8) | (lo as u16)) <= 0x3FFF,
{
}

/// Masking a byte to six bits bounds it by 0x3F.
proof fn lemma_addr_masks(data: u8)
    by (bit_vector)
    ensures
        (data & 0x3F) <= 0x3F,
{
}

/// Splitting a 14-bit word into bytes keeps the high byte to six bits.
proof fn lemma_addr_split(x: u16)
    by (bit_vector)
    ensures
        (((x & 0x3FFF) >> 8) as u8) <= 0x3F,
{
}

/// Two writes from a reset latch load exactly the announced address: the
/// first byte's low six bits become the high bits, the second byte the
/// low bits, and the latch alternates through both writes.
pub proof fn lemma_two_writes_load_address(r: AddrRegister, hi6: u8, lo8: u8)
    requires
        r.inv(),
        r.hi_ptr,
    ensures
        r.after_update(hi6).after_update(lo8).spec_get() == (((hi6 & 0x3F) as u16) << 8) | (
        lo8 as u16),
        !r.after_update(hi6).hi_ptr,
        r.after_update(hi6).after_update(lo8).hi_ptr,
{
    assert((((hi6 & 0x3F) as u16) << 8) | (lo8 as u16) == ((((hi6 & 0x3F) as u8) as u16) << 8) | (
    lo8 as u16)) by (bit_vector);
}

} // verus!
