//! The bus-visible surface of the picture processing unit: CHR-ROM,
//! VRAM folded by nametable mirroring, the palette with its aliases, and
//! the registers the CPU reaches through `0x2000`-`0x2007`.
use vstd::prelude::*;

pub mod address;
pub mod control;
pub mod mask;
pub mod status;

use crate::cart::Mirroring;
use crate::mem::Fault;
use crate::mem::zero_vec;
use crate::ppu::address::AddrRegister;
use crate::ppu::control::ControlRegister;
use crate::ppu::control::spec_vram_addr_increment;
use crate::ppu::mask::MaskRegister;
use crate::ppu::status::StatusRegister;
use crate::ppu::status::VBLANK_HAS_STARTED;

verus! {

/// The picture processing unit's state.
pub struct PPU {
    pub chr_rom: Vec<u8>,
    pub palette_table: Vec<u8>,
    pub vram: Vec<u8>,
    pub oam_data: Vec<u8>,
    pub mirroring: Mirroring,
    pub addr: AddrRegister,
    pub ctrl: ControlRegister,
    pub mask: MaskRegister,
    pub status: StatusRegister,
    pub internal_data_buf: u8,
}

/// The mathematical model of a PPU state.
#[verifier::ext_equal]
pub struct PpuView {
    pub chr: Seq<u8>,
    pub palette: Seq<u8>,
    pub vram: Seq<u8>,
    pub oam: Seq<u8>,
    pub mirroring: Mirroring,
    pub addr: AddrRegister,
    pub ctrl: u8,
    pub mask: u8,
    pub status: u8,
    pub buf: u8,
}

impl View for PPU {
    type V = PpuView;

    open spec fn view(&self) -> PpuView {
        PpuView {
            chr: self.chr_rom@,
            palette: self.palette_table@,
            vram: self.vram@,
            oam: self.oam_data@,
            mirroring: self.mirroring,
            addr: self.addr,
            ctrl: self.ctrl.value,
            mask: self.mask.value,
            status: self.status.value,
            buf: self.internal_data_buf,
        }
    }
}

/// Where in the two physical 1 KiB nametable banks a VRAM-space address
/// lands: the address is folded to `0x2000`-`0x2FFF`, split into a logical
/// nametable, and the mirroring mode maps that nametable onto a bank.
pub open spec fn vram_mirror(m: Mirroring, addr: u16) -> int {
    let idx = (addr & 0x2FFF) - 0x2000;
    if m is HORIZONTAL {
        if 0x400 <= idx < 0xC00 {
            idx - 0x400
        } else if idx >= 0xC00 {
            idx - 0x800
        } else {
            idx
        }
    } else {
        if idx >= 0x800 {
            idx - 0x800
        } else {
            idx
        }
    }
}

/// Where in the 32-byte palette table a palette-space address lands: the
/// low five bits, with the sprite mirrors of the background entries folded.
pub open spec fn palette_mirror(addr: u16) -> int {
    let p = addr & 0x1F;
    if p == 0x10 {
        0int
    } else if p == 0x14 {
        4int
    } else if p == 0x18 {
        8int
    } else if p == 0x1C {
        12int
    } else {
        p as int
    }
}

impl PpuView {
    /// Well-formedness: the backing stores have their hardware sizes and
    /// the address register holds 14 bits.
    pub open spec fn inv(self) -> bool {
        &&& self.chr.len() == 0x2000
        &&& self.vram.len() == 0x800
        &&& self.palette.len() == 32
        &&& self.oam.len() == 256
        &&& self.addr.inv()
    }

    /// What a `0x2007` read returns: the stale buffer for CHR and VRAM
    /// addresses, the palette entry directly for palette addresses.
    pub open spec fn data_read_val(self) -> u8 {
        let a = self.addr.spec_get();
        if a < 0x3F00 {
            self.buf
        } else {
            self.palette[palette_mirror(a)]
        }
    }

    /// The state after a `0x2007` read: the buffer refilled from the
    /// latched address (from the nametable behind the palette for palette
    /// addresses) and the address advanced by the control register's step.
    pub open spec fn after_data_read(self) -> PpuView {
        let a = self.addr.spec_get();
        PpuView {
            buf: if a < 0x2000 {
                self.chr[a as int]
            } else {
                self.vram[vram_mirror(self.mirroring, a)]
            },
            addr: self.addr.after_increment(spec_vram_addr_increment(self.ctrl)),
            ..self
        }
    }

    /// Whether a `0x2007` write lands somewhere writable: anywhere but
    /// the pattern tables.
    pub open spec fn data_write_ok(self) -> bool {
        self.addr.spec_get() >= 0x2000
    }

    /// The state after a `0x2007` write: VRAM or the palette updated at
    /// the folded address, and the address advanced.
    pub open spec fn after_data_write(self, value: u8) -> PpuView {
        let a = self.addr.spec_get();
        PpuView {
            vram: if 0x2000 <= a < 0x3F00 {
                self.vram.update(vram_mirror(self.mirroring, a), value)
            } else {
                self.vram
            },
            palette: if a >= 0x3F00 {
                self.palette.update(palette_mirror(a), value)
            } else {
                self.palette
            },
            addr: self.addr.after_increment(spec_vram_addr_increment(self.ctrl)),
            ..self
        }
    }

    /// The state after a `0x2002` read: the vblank flag cleared and the
    /// `0x2006` write latch reset.
    pub open spec fn after_status_read(self) -> PpuView {
        PpuView {
            status: self.status & !VBLANK_HAS_STARTED,
            addr: self.addr.after_reset_latch(),
            ..self
        }
    }
}

impl PPU {
    /// A fresh PPU over the given pattern tables.
    pub fn new(chr_rom: Vec<u8>, mirroring: Mirroring) -> (r: PPU)
        requires
            chr_rom@.len() == 0x2000,
        ensures
            r@.inv(),
            r@.chr == chr_rom@,
            r@.mirroring == mirroring,
            r@.vram =~= Seq::new(0x800, |i: int| 0u8),
            r@.palette =~= Seq::new(32, |i: int| 0u8),
            r@.oam =~= Seq::new(256, |i: int| 0u8),
            r@.ctrl == 0u8 && r@.mask == 0u8 && r@.status == 0u8 && r@.buf == 0u8,
            r@.addr == (AddrRegister { hi: 0u8, lo: 0u8, hi_ptr: true }),
    {
        PPU {
            chr_rom,
            palette_table: zero_vec(32),
            vram: zero_vec(0x800),
            oam_data: zero_vec(256),
            mirroring,
            addr: AddrRegister::new(),
            ctrl: ControlRegister::new(),
            mask: MaskRegister::new(),
            status: StatusRegister::new(),
            internal_data_buf: 0,
        }
    }

    /// One byte write through `0x2006`.
    pub fn write_to_ppu_addr(&mut self, value: u8)
        requires
            old(self)@.inv(),
        ensures
            final(self)@.inv(),
            final(self)@ == (PpuView { addr: old(self)@.addr.after_update(value), ..old(self)@ }),
    {
        self.addr.update(value);
    }

    /// One byte write through `0x2000`.
    pub fn write_to_ctrl(&mut self, value: u8)
        requires
            old(self)@.inv(),
        ensures
            final(self)@.inv(),
            final(self)@ == (PpuView { ctrl: value, ..old(self)@ }),
    {
        self.ctrl.update(value);
    }

    /// One byte write through `0x2001`.
    pub fn write_to_mask(&mut self, value: u8)
        requires
            old(self)@.inv(),
        ensures
            final(self)@.inv(),
            final(self)@ == (PpuView { mask: value, ..old(self)@ }),
    {
        self.mask.update(value);
    }

    /// A `0x2002` read: the status byte, then the vblank flag cleared and
    /// the address latch reset.
    pub fn read_status(&mut self) -> (r: u8)
        requires
            old(self)@.inv(),
        ensures
            final(self)@.inv(),
            r == old(self)@.status,
            final(self)@ == old(self)@.after_status_read(),
    {
        let data = self.status.get();
        self.status.reset_vblank_status();
        self.addr.reset_latch();
        data
    }

    /// A `0x2007` read through the buffered-read protocol; palette reads
    /// bypass the buffer.
    pub fn read_data(&mut self) -> (r: u8)
        requires
            old(self)@.inv(),
        ensures
            final(self)@.inv(),
            r == old(self)@.data_read_val(),
            final(self)@ == old(self)@.after_data_read(),
    {
        let addr = self.addr.get();
        self.increment_vram_addr();
        if addr < 0x2000 {
            let result = self.internal_data_buf;
            self.internal_data_buf = self.chr_rom[addr as usize];
            result
        } else if addr < 0x3F00 {
            let result = self.internal_data_buf;
            let m = self.mirror_vram_addr(addr);
            self.internal_data_buf = self.vram[m as usize];
            result
        } else {
            let p = self.mirror_palette_addr(addr);
            let result = self.palette_table[p as usize];
            let m = self.mirror_vram_addr(addr);
            self.internal_data_buf = self.vram[m as usize];
            result
        }
    }

    /// A `0x2007` write; the pattern tables are read-only and writing
    /// them is reported as a fault, with nothing changed.
    pub fn write_to_data(&mut self, value: u8) -> (r: Result<(), Fault>)
        requires
            old(self)@.inv(),
        ensures
            final(self)@.inv(),
            r is Ok <==> old(self)@.data_write_ok(),
            r is Ok ==> final(self)@ == old(self)@.after_data_write(value),
            r is Err ==> *final(self) == *old(self) && r == Err::<(), Fault>(
                Fault::WriteToChr(old(self)@.addr.spec_get()),
            ),
    {
        let addr = self.addr.get();
        if addr < 0x2000 {
            return Err(Fault::WriteToChr(addr));
        }
        self.increment_vram_addr();
        if addr < 0x3F00 {
            let m = self.mirror_vram_addr(addr);
            self.vram.set(m as usize, value);
        } else {
            let p = self.mirror_palette_addr(addr);
            self.palette_table.set(p as usize, value);
        }
        Ok(())
    }

    /// Advances the latched address by the control register's step.
    fn increment_vram_addr(&mut self)
        requires
            old(self)@.inv(),
        ensures
            final(self)@.inv(),
            final(self)@ == (PpuView {
                addr: old(self)@.addr.after_increment(spec_vram_addr_increment(old(self)@.ctrl)),
                ..old(self)@
            }),
    {
        let inc = self.ctrl.vram_addr_increment();
        self.addr.increment(inc);
    }

    /// Folds a VRAM-space address through the nametable mirroring onto
    /// the two physical banks. Horizontal mirroring pairs the nametables
    /// sideways, every other mode (vertical and four-screen alike, the
    /// latter having only these two banks to land in) folds the upper
    /// pair onto the lower.
    fn mirror_vram_addr(&self, addr: u16) -> (r: u16)
        requires
            0x2000 <= addr <= 0x3FFF,
        ensures
            r == vram_mirror(self.mirroring, addr),
            r < 0x800,
    {
        proof {
            lemma_vram_window(addr);
        }
        let mirrored = addr & 0x2FFF;
        let vram_index = mirrored - 0x2000;
        match self.mirroring {
            Mirroring::HORIZONTAL => {
                if 0x400 <= vram_index && vram_index < 0xC00 {
                    vram_index - 0x400
                } else if vram_index >= 0xC00 {
                    vram_index - 0x800
                } else {
                    vram_index
                }
            },
            _ => {
                if vram_index >= 0x800 {
                    vram_index - 0x800
                } else {
                    vram_index
                }
            },
        }
    }

    /// Folds a palette-space address onto the 32-byte palette table,
    /// honouring the sprite-background aliases.
    fn mirror_palette_addr(&self, addr: u16) -> (r: u16)
        ensures
            r == palette_mirror(addr),
            r < 32,
    {
        proof {
            lemma_palette_window(addr);
        }
        let p = addr & 0x1F;
        if p == 0x10 {
            0
        } else if p == 0x14 {
            4
        } else if p == 0x18 {
            8
        } else if p == 0x1C {
            12
        } else {
            p
        }
    }
}

/// Folding an address of the PPU's VRAM or palette space to 12 bits keeps
/// it within the four logical nametables.
proof fn lemma_vram_window(a: u16)
    by (bit_vector)
    requires
        0x2000 <= a <= 0x3FFF,
    ensures
        0x2000 <= (a & 0x2FFF) <= 0x2FFF,
{
}

/// The low five bits of an address stay below the palette table's size.
proof fn lemma_palette_window(a: u16)
    by (bit_vector)
    ensures
        (a & 0x1F) < 32,
{
}

} // verus!
