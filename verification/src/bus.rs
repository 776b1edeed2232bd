//! The memory bus: 16-bit address decoding over CPU RAM, the PPU's
//! registers and the cartridge's PRG-ROM window, with the hardware's
//! mirroring rules reproduced bit for bit.
use vstd::prelude::*;

use crate::cart::Rom;
use crate::mem::Fault;
use crate::mem::Mem;
use crate::mem::zero_vec;
use crate::ppu::PPU;
use crate::ppu::address::AddrRegister;
use crate::ppu::PpuView;

verus! {

/// The bus: 2 KiB of CPU RAM, the cartridge's PRG-ROM, and the PPU.
pub struct Bus {
    pub ram: Vec<u8>,
    pub prg_rom: Vec<u8>,
    pub ppu: PPU,
    /// How many accesses landed in the unmapped `0x4000`-`0x7FFF` region
    /// and were soft-ignored: the record of those diagnostics.
    pub ignored_accesses: u64,
}

/// The mathematical model of a bus state.
#[verifier::ext_equal]
pub struct BusView {
    pub ram: Seq<u8>,
    pub prg: Seq<u8>,
    pub ppu: PpuView,
    pub ignored: u64,
}

impl View for Bus {
    type V = BusView;

    open spec fn view(&self) -> BusView {
        BusView {
            ram: self.ram@,
            prg: self.prg_rom@,
            ppu: self.ppu@,
            ignored: self.ignored_accesses,
        }
    }
}

/// Where in the 2 KiB of RAM an address of the mirrored RAM window lands.
pub open spec fn ram_index(addr: u16) -> int {
    (addr & 0x07FF) as int
}

/// The PPU register an address of the mirrored register window reaches.
pub open spec fn ppu_reg(addr: u16) -> u16 {
    addr & 0x2007
}

/// One more soft-ignored access, the count held at its ceiling.
pub open spec fn bump_ignored(n: u64) -> u64 {
    if n < u64::MAX {
        (n + 1) as u64
    } else {
        n
    }
}

/// Where in PRG-ROM an address of the `0x8000`-`0xFFFF` window lands: a
/// 16 KiB image is mirrored across the window's upper half.
pub open spec fn prg_index(prg_len: int, addr: u16) -> int {
    if prg_len == 0x4000 {
        (addr - 0x8000) % 0x4000
    } else {
        addr - 0x8000
    }
}

impl BusView {
    /// Well-formedness: RAM is 2 KiB, PRG-ROM 16 or 32 KiB, the PPU sound.
    pub open spec fn inv(self) -> bool {
        &&& self.ram.len() == 0x800
        &&& (self.prg.len() == 0x4000 || self.prg.len() == 0x8000)
        &&& self.ppu.inv()
    }
}

impl Bus {
    /// A bus over a freshly inserted cartridge: RAM zeroed, the PPU reset.
    pub fn new(rom: Rom) -> (r: Bus)
        requires
            rom.inv(),
        ensures
            r@.inv(),
            r@.ram =~= Seq::new(0x800, |i: int| 0u8),
            r@.prg == rom.prg_rom@,
            r@.ppu.chr == rom.chr_rom@,
            r@.ppu.mirroring == rom.screen_mirroring,
            r@.ppu.vram =~= Seq::new(0x800, |i: int| 0u8),
            r@.ppu.palette =~= Seq::new(32, |i: int| 0u8),
            r@.ppu.oam =~= Seq::new(256, |i: int| 0u8),
            r@.ppu.ctrl == 0u8 && r@.ppu.mask == 0u8 && r@.ppu.status == 0u8 && r@.ppu.buf == 0u8,
            r@.ppu.addr == (AddrRegister { hi: 0u8, lo: 0u8, hi_ptr: true }),
            r@.ignored == 0u64,
    {
        let ppu = PPU::new(rom.chr_rom, rom.screen_mirroring);
        Bus { ram: zero_vec(0x800), prg_rom: rom.prg_rom, ppu, ignored_accesses: 0 }
    }

    /// A byte of the PRG-ROM window, honouring the 16 KiB mirror.
    pub fn read_prg_rom(&self, addr: u16) -> (r: u8)
        requires
            self@.inv(),
            addr >= 0x8000,
        ensures
            r == self@.prg[prg_index(self@.prg.len() as int, addr)],
    {
        let mut idx: u16 = addr - 0x8000;
        if self.prg_rom.len() == 0x4000 && idx >= 0x4000 {
            idx = idx % 0x4000;
        }
        self.prg_rom[idx as usize]
    }
}

impl Mem for Bus {
    open spec fn inv(v: BusView) -> bool {
        v.inv()
    }

    open spec fn ok_read(v: BusView, addr: u16) -> bool {
        if addr < 0x2000 {
            true
        } else if addr <= 0x3FFF {
            ppu_reg(addr) == 0x2002 || ppu_reg(addr) == 0x2007
        } else {
            true
        }
    }

    open spec fn read_val(v: BusView, addr: u16) -> u8 {
        if addr < 0x2000 {
            v.ram[ram_index(addr)]
        } else if addr <= 0x3FFF {
            if ppu_reg(addr) == 0x2002 {
                v.ppu.status
            } else {
                v.ppu.data_read_val()
            }
        } else if addr < 0x8000 {
            0u8
        } else {
            v.prg[prg_index(v.prg.len() as int, addr)]
        }
    }

    open spec fn post_read(v: BusView, addr: u16) -> BusView {
        if 0x2000 <= addr <= 0x3FFF && ppu_reg(addr) == 0x2002 {
            BusView { ppu: v.ppu.after_status_read(), ..v }
        } else if 0x2000 <= addr <= 0x3FFF && ppu_reg(addr) == 0x2007 {
            BusView { ppu: v.ppu.after_data_read(), ..v }
        } else if 0x4000 <= addr < 0x8000 {
            BusView { ignored: bump_ignored(v.ignored), ..v }
        } else {
            v
        }
    }

    open spec fn ok_write(v: BusView, addr: u16) -> bool {
        if addr < 0x2000 {
            true
        } else if addr <= 0x3FFF {
            ||| ppu_reg(addr) == 0x2000
            ||| ppu_reg(addr) == 0x2001
            ||| ppu_reg(addr) == 0x2006
            ||| (ppu_reg(addr) == 0x2007 && v.ppu.data_write_ok())
        } else {
            addr < 0x8000
        }
    }

    open spec fn post_write(v: BusView, addr: u16, value: u8) -> BusView {
        if addr < 0x2000 {
            BusView { ram: v.ram.update(ram_index(addr), value), ..v }
        } else if addr <= 0x3FFF {
            if ppu_reg(addr) == 0x2000 {
                BusView { ppu: PpuView { ctrl: value, ..v.ppu }, ..v }
            } else if ppu_reg(addr) == 0x2001 {
                BusView { ppu: PpuView { mask: value, ..v.ppu }, ..v }
            } else if ppu_reg(addr) == 0x2006 {
                BusView { ppu: PpuView { addr: v.ppu.addr.after_update(value), ..v.ppu }, ..v }
            } else if ppu_reg(addr) == 0x2007 {
                BusView { ppu: v.ppu.after_data_write(value), ..v }
            } else {
                v
            }
        } else if 0x4000 <= addr < 0x8000 {
            BusView { ignored: bump_ignored(v.ignored), ..v }
        } else {
            v
        }
    }

    open spec fn read_fault(v: BusView, addr: u16) -> Fault {
        if ppu_reg(addr) == 0x2004 {
            Fault::ReadUnsupported(addr)
        } else {
            Fault::ReadWriteOnly(addr)
        }
    }

    open spec fn write_fault(v: BusView, addr: u16) -> Fault {
        if addr >= 0x8000 {
            Fault::WriteToRom(addr)
        } else if ppu_reg(addr) == 0x2002 {
            Fault::WriteReadOnly(addr)
        } else if ppu_reg(addr) == 0x2007 {
            Fault::WriteToChr(v.ppu.addr.spec_get())
        } else {
            Fault::WriteUnsupported(addr)
        }
    }

    fn mem_read(&mut self, addr: u16) -> (r: Result<u8, Fault>) {
        if addr < 0x2000 {
            proof {
                lemma_ram_index_bound(addr);
            }
            Ok(self.ram[(addr & 0x07FF) as usize])
        } else if addr <= 0x3FFF {
            let reg = addr & 0x2007;
            if reg == 0x2002 {
                Ok(self.ppu.read_status())
            } else if reg == 0x2007 {
                Ok(self.ppu.read_data())
            } else if reg == 0x2004 {
                Err(Fault::ReadUnsupported(addr))
            } else {
                Err(Fault::ReadWriteOnly(addr))
            }
        } else if addr < 0x8000 {
            if self.ignored_accesses < u64::MAX {
                self.ignored_accesses = self.ignored_accesses + 1;
            }
            Ok(0)
        } else {
            Ok(self.read_prg_rom(addr))
        }
    }

    fn mem_write(&mut self, addr: u16, value: u8) -> (r: Result<(), Fault>) {
        if addr < 0x2000 {
            proof {
                lemma_ram_index_bound(addr);
            }
            self.ram.set((addr & 0x07FF) as usize, value);
            Ok(())
        } else if addr <= 0x3FFF {
            let reg = addr & 0x2007;
            if reg == 0x2000 {
                self.ppu.write_to_ctrl(value);
                Ok(())
            } else if reg == 0x2001 {
                self.ppu.write_to_mask(value);
                Ok(())
            } else if reg == 0x2006 {
                self.ppu.write_to_ppu_addr(value);
                Ok(())
            } else if reg == 0x2007 {
                self.ppu.write_to_data(value)
            } else if reg == 0x2002 {
                Err(Fault::WriteReadOnly(addr))
            } else {
                Err(Fault::WriteUnsupported(addr))
            }
        } else if addr < 0x8000 {
            if self.ignored_accesses < u64::MAX {
                self.ignored_accesses = self.ignored_accesses + 1;
            }
            Ok(())
        } else {
            Err(Fault::WriteToRom(addr))
        }
    }
}

/// A RAM-window address folds to an index inside the 2 KiB of RAM.
proof fn lemma_ram_index_bound(a: u16)
    by (bit_vector)
    ensures
        (a & 0x07FF) < 0x800,
{
}

/// Every address of the RAM window reaches the same cell as its image
/// under the 2 KiB fold, for reads and writes alike.
pub proof fn lemma_ram_mirroring(v: BusView, a: u16, value: u8)
    requires
        a < 0x2000,
    ensures
        (a & 0x07FF) < 0x2000,
        Bus::read_val(v, a) == Bus::read_val(v, a & 0x07FF),
        Bus::post_read(v, a) == Bus::post_read(v, a & 0x07FF),
        Bus::ok_read(v, a) && Bus::ok_read(v, a & 0x07FF),
        Bus::ok_write(v, a) && Bus::ok_write(v, a & 0x07FF),
        Bus::post_write(v, a, value) == Bus::post_write(v, a & 0x07FF, value),
{
    assert((a & 0x07FF) < 0x2000 && ((a & 0x07FF) & 0x07FF) == (a & 0x07FF)) by (bit_vector);
}

/// Every address of the mirrored PPU register window behaves as the
/// register at `0x2000 + (a & 7)`, for reads and writes alike.
pub proof fn lemma_ppu_register_mirroring(v: BusView, a: u16, value: u8)
    requires
        0x2000 <= a <= 0x3FFF,
    ensures
        ppu_reg(a) == 0x2000 + (a & 7),
        Bus::ok_read(v, a) == Bus::ok_read(v, (0x2000 + (a & 7)) as u16),
        Bus::read_val(v, a) == Bus::read_val(v, (0x2000 + (a & 7)) as u16),
        Bus::post_read(v, a) == Bus::post_read(v, (0x2000 + (a & 7)) as u16),
        Bus::ok_write(v, a) == Bus::ok_write(v, (0x2000 + (a & 7)) as u16),
        Bus::post_write(v, a, value) == Bus::post_write(v, (0x2000 + (a & 7)) as u16, value),
{
    assert((a & 0x2007) == 0x2000 + (a & 7) && (a & 7) <= 7 && (((0x2000 + (a & 7)) as u16)
        & 0x2007) == (a & 0x2007)) by (bit_vector)
        requires
            0x2000 <= a <= 0x3FFF,
    ;
}

} // verus!
